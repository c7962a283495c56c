use bencher::config::{BuildProfile, Config, DefaultSecretKey};
use bencher::json::{
    IfExists, Ipv4Address, Ipv6Address, JsonDatabase, JsonLogging, JsonServer, JsonSmtp, JsonTls, LogLevel,
    ServerLog, SocketAddress,
};
use bencher::server::{
    diesel_database_url, into_config_dropshot, into_if_exists, into_level, into_log,
    into_messenger, into_private, into_secret_key, server_settings, ConfigLogging,
    ConfigLoggingIfExists, ConfigLoggingLevel, Messenger,
};

fn smtp() -> JsonSmtp {
    JsonSmtp {
        hostname: "mail.example.com".to_string(),
        username: "bench".to_string(),
        secret: "hunter2".to_string(),
        from_name: "Bencher".to_string(),
        from_email: "info@example.com".to_string(),
    }
}

#[test]
fn messenger_without_smtp_prints() {
    assert!(matches!(into_messenger(None), Messenger::StdOut));
}

#[test]
fn messenger_with_smtp_mails() {
    match into_messenger(Some(smtp())) {
        Messenger::Email(email) => {
            assert_eq!(email.hostname, "mail.example.com");
            assert_eq!(email.username, "bench");
            assert_eq!(email.secret, "hunter2");
            assert_eq!(email.from_name.as_deref(), Some("Bencher"));
            assert_eq!(email.from_email, "info@example.com");
        },
        Messenger::StdOut => panic!("expected mail"),
    }
}

#[test]
fn secret_key_given_is_kept() {
    assert_eq!(into_secret_key(Some("my key".to_string())), "my key");
}

#[test]
fn secret_key_missing_is_random_uuid() {
    let a = into_secret_key(None);
    let b = into_secret_key(None);
    assert_eq!(a.len(), 36);
    assert_eq!(a.chars().nth(14), Some('4'));
    assert_ne!(a, b);
}

#[test]
fn levels_keep_their_names() {
    let pairs = [
        (LogLevel::Trace, ConfigLoggingLevel::Trace),
        (LogLevel::Debug, ConfigLoggingLevel::Debug),
        (LogLevel::Info, ConfigLoggingLevel::Info),
        (LogLevel::Warn, ConfigLoggingLevel::Warn),
        (LogLevel::Error, ConfigLoggingLevel::Error),
        (LogLevel::Critical, ConfigLoggingLevel::Critical),
    ];
    for (level, expected) in pairs {
        assert_eq!(into_level(level), expected);
    }
}

#[test]
fn if_exists_keep_their_names() {
    assert_eq!(into_if_exists(IfExists::Fail), ConfigLoggingIfExists::Fail);
    assert_eq!(into_if_exists(IfExists::Truncate), ConfigLoggingIfExists::Truncate);
    assert_eq!(into_if_exists(IfExists::Append), ConfigLoggingIfExists::Append);
}

#[test]
fn log_to_file() {
    let (name, log) = into_log(JsonLogging {
        name: "api".to_string(),
        log: ServerLog::File {
            level: LogLevel::Warn,
            path: "/var/log/api.log".to_string(),
            if_exists: IfExists::Append,
        },
    });
    assert_eq!(name, "api");
    match log {
        ConfigLogging::File { level, path, if_exists } => {
            assert_eq!(level, ConfigLoggingLevel::Warn);
            assert_eq!(path, "/var/log/api.log");
            assert_eq!(if_exists, ConfigLoggingIfExists::Append);
        },
        ConfigLogging::StderrTerminal { .. } => panic!("expected a file"),
    }
}

#[test]
fn log_to_terminal() {
    let (_, log) = into_log(JsonLogging {
        name: "api".to_string(),
        log: ServerLog::StderrTerminal { level: LogLevel::Trace },
    });
    assert!(matches!(log, ConfigLogging::StderrTerminal { level: ConfigLoggingLevel::Trace }));
}

#[test]
fn dropshot_settings_with_tls() {
    let address = SocketAddress::V6 {
        ip: Ipv6Address(0, 0, 0, 0, 0, 0, 0, 1),
        port: 443,
        flowinfo: 7,
        scope_id: 3,
    };
    let config = into_config_dropshot(JsonServer {
        bind_address: address,
        request_body_max_bytes: 4096,
        tls: Some(JsonTls { cert_file: "cert.pem".to_string(), key_file: "key.pem".to_string() }),
    });
    assert_eq!(config.bind_address, address);
    assert_eq!(config.request_body_max_bytes, 4096);
    let tls = config.tls.unwrap();
    assert_eq!(tls.cert_file, "cert.pem");
    assert_eq!(tls.key_file, "key.pem");
}

#[test]
fn dropshot_settings_without_tls() {
    let address = SocketAddress::V4 { ip: Ipv4Address(127, 0, 0, 1), port: 61016 };
    let config =
        into_config_dropshot(JsonServer { bind_address: address, request_body_max_bytes: 1, tls: None });
    assert!(config.tls.is_none());
}

#[test]
fn database_url_already_set() {
    assert!(diesel_database_url(Some("data/bencher.db".to_string()), "data/bencher.db").is_none());
}

#[test]
fn database_url_differs() {
    assert_eq!(
        diesel_database_url(Some("other.db".to_string()), "data/bencher.db").as_deref(),
        Some("data/bencher.db")
    );
}

#[test]
fn database_url_unset() {
    assert_eq!(diesel_database_url(None, "data/bencher.db").as_deref(), Some("data/bencher.db"));
}

#[test]
fn database_url_settles_after_one_set() {
    let set = diesel_database_url(None, "db.sqlite").unwrap();
    assert!(diesel_database_url(Some(set), "db.sqlite").is_none());
}

#[test]
fn private_settings() {
    let settings = into_private(
        Some("https://api.example.com".to_string()),
        Some("key".to_string()),
        None,
        JsonDatabase { file: "db.sqlite".to_string(), data_store: Some("{\"service\":\"aws_s3\"}".to_string()) },
        None,
    );
    assert_eq!(settings.endpoint.as_deref(), Some("https://api.example.com"));
    assert_eq!(settings.secret_key, "key");
    assert!(matches!(settings.messenger, Messenger::StdOut));
    assert_eq!(settings.database_path, "db.sqlite");
    assert_eq!(settings.set_database_url.as_deref(), Some("db.sqlite"));
}

#[test]
fn server_settings_from_default_config() {
    let config = Config::default_for(&DefaultSecretKey::new(BuildProfile::Debug)).unwrap();
    let settings = server_settings(config, Some("data/bencher.db".to_string()));
    assert!(settings.private.endpoint.is_none());
    assert_eq!(settings.private.secret_key.len(), 36);
    assert!(settings.private.set_database_url.is_none());
    assert_eq!(
        settings.config_dropshot.bind_address,
        SocketAddress::V4 { ip: Ipv4Address(0, 0, 0, 0), port: 61016 }
    );
    assert_eq!(settings.config_dropshot.request_body_max_bytes, 1_048_576);
    assert_eq!(settings.log_name, "Bencher API");
    assert!(matches!(settings.log, ConfigLogging::StderrTerminal { level: ConfigLoggingLevel::Debug }));
}
