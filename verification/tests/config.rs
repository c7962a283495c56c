use bencher::config::{ApiError, BuildProfile, Config, DefaultSecretKey, API_NAME, DEBUG_SECRET_KEY};
use bencher::json::{Ipv4Address, JsonConfig, LogLevel, ServerLog, SocketAddress};
use bencher::loader::{config_path_of, write_result, ConfigLoader, EnvVar, LoadAction, LoadEvent};

fn debug_default() -> Config {
    Config::default_for(&DefaultSecretKey::new(BuildProfile::Debug)).expect("default console URL parses")
}

#[test]
fn default_debug_config_values() {
    let json = debug_default().into_inner();
    assert!(json.endpoint.is_none());
    assert!(json.secret_key.is_none());
    assert_eq!(json.console.unwrap().url, "http://localhost:3000/");
    let security = json.security.unwrap();
    assert_eq!(security.issuer.as_deref(), Some("bencher.dev"));
    assert_eq!(security.secret_key, DEBUG_SECRET_KEY);
    assert_eq!(security.secret_key, "DO_NOT_USE_THIS_IN_PRODUCTION");
    assert_eq!(
        json.server.bind_address,
        SocketAddress::V4 { ip: Ipv4Address(0, 0, 0, 0), port: 61016 }
    );
    assert_eq!(json.server.request_body_max_bytes, 2 << 19);
    assert!(json.server.tls.is_none());
    assert_eq!(json.database.file, "data/bencher.db");
    assert!(json.database.data_store.is_none());
    assert!(json.smtp.is_none());
    assert_eq!(json.logging.name, API_NAME);
    assert!(matches!(json.logging.log, ServerLog::StderrTerminal { level: LogLevel::Debug }));
}

#[test]
fn default_release_config_values() {
    let json = Config::default_for(&DefaultSecretKey::new(BuildProfile::Release)).unwrap().into_inner();
    assert!(matches!(json.logging.log, ServerLog::StderrTerminal { level: LogLevel::Info }));
    let key = json.security.unwrap().secret_key;
    assert_eq!(key.len(), 36);
    let chars: Vec<char> = key.chars().collect();
    for (i, c) in chars.iter().enumerate() {
        if i == 8 || i == 13 || i == 18 || i == 23 {
            assert_eq!(*c, '-');
        } else {
            assert!(c.is_ascii_hexdigit() && !c.is_ascii_uppercase());
        }
    }
    assert_eq!(chars[14], '4');
    assert!(matches!(chars[19], '8' | '9' | 'a' | 'b'));
}

#[test]
fn defaults_from_one_key_agree() {
    let key = DefaultSecretKey::new(BuildProfile::Release);
    let a = Config::default_for(&key).unwrap().into_inner();
    let b = Config::default_for(&key).unwrap().into_inner();
    assert_eq!(format!("{a:?}"), format!("{b:?}"));
    assert_eq!(a.security.unwrap().secret_key, key.as_str());
}

#[test]
fn release_keys_are_fresh() {
    let a = DefaultSecretKey::new(BuildProfile::Release);
    let b = DefaultSecretKey::new(BuildProfile::Release);
    assert_ne!(a.as_str(), b.as_str());
    assert_eq!(a.profile(), BuildProfile::Release);
    assert_eq!(DefaultSecretKey::new(BuildProfile::Debug).as_str(), "DO_NOT_USE_THIS_IN_PRODUCTION");
}

#[test]
fn default_with_uses_given_url_and_key() {
    let json =
        Config::default_with(BuildProfile::Release, "https://console".to_string(), "key".to_string())
            .into_inner();
    assert_eq!(json.console.unwrap().url, "https://console");
    assert_eq!(json.security.unwrap().secret_key, "key");
}

#[test]
fn config_into_json_config() {
    let json: JsonConfig = debug_default().into();
    assert_eq!(json.logging.name, "Bencher API");
}

/// The surroundings a loader run is answered from.
struct World {
    config_env: Option<String>,
    path_env: Option<String>,
    files: Vec<(String, Vec<u8>)>,
    parses: bool,
    serializes: bool,
    writable: bool,
}

struct RunOutcome {
    result: Result<Config, ApiError>,
    reads: Vec<String>,
    writes: Vec<(String, String)>,
    defaults_built: Vec<(bool, String)>,
}

fn parsed() -> JsonConfig {
    let mut json = debug_default().into_inner();
    json.logging.name = "parsed".to_string();
    json.database.data_store = Some("{\"service\":\"aws_s3\"}".to_string());
    json
}

fn run(profile: BuildProfile, world: &World) -> RunOutcome {
    let (mut loader, mut action) = ConfigLoader::start(&DefaultSecretKey::new(profile)).unwrap();
    let mut reads = Vec::new();
    let mut writes = Vec::new();
    let mut defaults_built = Vec::new();
    for _ in 0..10 {
        let event = match action {
            LoadAction::Finish(result) => {
                return RunOutcome { result, reads, writes, defaults_built };
            },
            LoadAction::ReadEnv(EnvVar::Config) => LoadEvent::EnvValue(world.config_env.clone()),
            LoadAction::ReadEnv(EnvVar::ConfigPath) => LoadEvent::EnvValue(world.path_env.clone()),
            LoadAction::ReadFile { path } => {
                let found = world.files.iter().find(|(p, _)| *p == path).map(|(_, b)| b.clone());
                reads.push(path);
                LoadEvent::FileRead(found)
            },
            LoadAction::ParseEnv { .. } | LoadAction::ParseFile { .. } => {
                LoadEvent::Parsed(if world.parses { Some(parsed()) } else { None })
            },
            LoadAction::SerializeDefault { config, pretty } => {
                defaults_built.push((pretty, config.logging.name.clone()));
                LoadEvent::Serialized(if world.serializes { Some("{}".to_string()) } else { None })
            },
            LoadAction::WriteFile { path, contents } => {
                writes.push((path, contents));
                LoadEvent::Written(world.writable)
            },
        };
        assert!(loader.accepts(&event));
        let (next, next_action) = loader.step(event);
        loader = next;
        action = next_action;
    }
    panic!("the loader did not finish");
}

fn world() -> World {
    World {
        config_env: None,
        path_env: None,
        files: Vec::new(),
        parses: true,
        serializes: true,
        writable: true,
    }
}

#[test]
fn env_config_wins_in_release() {
    let w = World {
        config_env: Some("{\"x\":1}".to_string()),
        files: vec![("bencher.json".to_string(), b"{}".to_vec())],
        ..world()
    };
    let out = run(BuildProfile::Release, &w);
    assert_eq!(out.result.unwrap().into_inner().logging.name, "parsed");
    assert!(out.reads.is_empty());
    assert!(out.writes.is_empty());
}

#[test]
fn env_config_is_written_back_in_debug() {
    let w = World {
        config_env: Some("{\"x\":1}".to_string()),
        path_env: Some("custom.json".to_string()),
        ..world()
    };
    let out = run(BuildProfile::Debug, &w);
    assert!(out.result.is_ok());
    assert_eq!(out.writes, vec![("custom.json".to_string(), "{\"x\":1}".to_string())]);
}

#[test]
fn env_config_that_does_not_parse() {
    let w = World { config_env: Some("nope".to_string()), parses: false, ..world() };
    let out = run(BuildProfile::Debug, &w);
    assert!(matches!(out.result, Err(ApiError::ParseConfigString(s)) if s == "nope"));
    assert!(out.writes.is_empty());
}

#[test]
fn config_file_from_path_env() {
    let w = World {
        path_env: Some("custom.json".to_string()),
        files: vec![("custom.json".to_string(), b"{}".to_vec())],
        ..world()
    };
    let out = run(BuildProfile::Debug, &w);
    assert_eq!(out.result.unwrap().into_inner().logging.name, "parsed");
    assert_eq!(out.reads, vec!["custom.json".to_string()]);
    assert!(out.writes.is_empty());
}

#[test]
fn missing_config_file_from_path_env() {
    let w = World { path_env: Some("missing.json".to_string()), ..world() };
    let out = run(BuildProfile::Release, &w);
    assert!(matches!(out.result, Err(ApiError::OpenConfigFile(p)) if p == "missing.json"));
    assert!(out.defaults_built.is_empty());
}

#[test]
fn config_file_that_does_not_parse() {
    let w = World {
        files: vec![("bencher.json".to_string(), b"nope".to_vec())],
        parses: false,
        ..world()
    };
    let out = run(BuildProfile::Release, &w);
    assert!(matches!(out.result, Err(ApiError::ParseConfigFile(p)) if p == "bencher.json"));
}

#[test]
fn default_config_is_written() {
    let out = run(BuildProfile::Debug, &world());
    assert_eq!(out.reads, vec!["bencher.json".to_string()]);
    assert_eq!(out.defaults_built, vec![(true, "Bencher API".to_string())]);
    assert_eq!(out.writes, vec![("bencher.json".to_string(), "{}".to_string())]);
    assert_eq!(out.result.unwrap().into_inner().logging.name, "Bencher API");
}

#[test]
fn default_config_release_is_compact() {
    let out = run(BuildProfile::Release, &world());
    assert_eq!(out.defaults_built, vec![(false, "Bencher API".to_string())]);
}

#[test]
fn default_config_that_does_not_serialize() {
    let w = World { serializes: false, ..world() };
    let out = run(BuildProfile::Release, &w);
    assert!(matches!(out.result, Err(ApiError::SerializeConfig)));
    assert!(out.writes.is_empty());
}

#[test]
fn default_config_that_cannot_be_written() {
    let w = World { writable: false, ..world() };
    let out = run(BuildProfile::Release, &w);
    assert!(matches!(out.result, Err(ApiError::WriteConfigFile(p)) if p == "bencher.json"));
}

#[test]
fn env_var_names() {
    assert_eq!(EnvVar::Config.name(), "BENCHER_CONFIG");
    assert_eq!(EnvVar::ConfigPath.name(), "BENCHER_CONFIG_PATH");
}

#[test]
fn finished_loader_accepts_nothing() {
    let (loader, _) = ConfigLoader::start(&DefaultSecretKey::new(BuildProfile::Release)).unwrap();
    assert!(!loader.accepts(&LoadEvent::Written(true)));
    let (loader, _) = loader.step(LoadEvent::EnvValue(None));
    let (loader, _) = loader.step(LoadEvent::EnvValue(Some("p".to_string())));
    let (loader, action) = loader.step(LoadEvent::FileRead(None));
    assert!(matches!(action, LoadAction::Finish(Err(ApiError::OpenConfigFile(_)))));
    assert!(!loader.accepts(&LoadEvent::EnvValue(None)));
}

#[test]
fn fallback_hands_back_library_default_in_release() {
    let out = run(BuildProfile::Release, &world());
    let json = out.result.unwrap().into_inner();
    assert!(matches!(json.logging.log, ServerLog::StderrTerminal { level: LogLevel::Info }));
    assert_eq!(json.security.unwrap().secret_key.len(), 36);
    assert_eq!(json.console.unwrap().url, "http://localhost:3000/");
}

#[test]
fn write_path_and_result() {
    assert_eq!(config_path_of(None), "bencher.json");
    assert_eq!(config_path_of(Some("x.json".to_string())), "x.json");
    assert!(write_result("x.json".to_string(), true).is_ok());
    assert!(matches!(write_result("x.json".to_string(), false), Err(ApiError::WriteConfigFile(p)) if p == "x.json"));
}

#[test]
fn loaded_config_keeps_data_store() {
    let w = World { files: vec![("bencher.json".to_string(), b"{}".to_vec())], ..world() };
    let json = run(BuildProfile::Release, &w).result.unwrap().into_inner();
    assert_eq!(json.database.data_store.as_deref(), Some("{\"service\":\"aws_s3\"}"));
}
