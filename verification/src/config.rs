//! The configuration of the API server, its defaults, and the errors met
//! while loading it.

use vstd::prelude::*;

use crate::json::{
    Ipv4Address, JsonConfig, JsonConfigView, JsonConsole, JsonConsoleView, JsonDatabase, JsonDatabaseView, JsonLogging,
    JsonLoggingView, JsonSecurity, JsonSecurityView, JsonServer, JsonServerView, LogLevel, ServerLog,
    ServerLogView, SocketAddress,
};
use crate::outside::{is_uuid_v4_text, new_v4_text, parse_url, url_parse};

verus! {

/// The name the server logs under.
pub const API_NAME: &'static str = "Bencher API";

/// The environment variable that may hold the whole configuration as JSON.
pub const BENCHER_CONFIG: &'static str = "BENCHER_CONFIG";

/// The environment variable that may hold the path of the configuration file.
pub const BENCHER_CONFIG_PATH: &'static str = "BENCHER_CONFIG_PATH";

/// Where the configuration file is looked for when no path is given.
pub const DEFAULT_CONFIG_PATH: &'static str = "bencher.json";

/// The text of the default address of the web console.
pub const DEFAULT_CONSOLE_URL_STR: &'static str = "http://localhost:3000";

/// The default port, from the dynamic and private range (49152-65535).
pub const DEFAULT_PORT: u16 = 61016;

/// The default limit on a request body: one mebibyte, `2 << 19` bytes.
pub const DEFAULT_MAX_BODY_SIZE: usize = 1048576;

/// The default database file.
pub const DEFAULT_DB_PATH: &'static str = "data/bencher.db";

/// The default mail submission port.
pub const DEFAULT_SMTP_PORT: u16 = 587;

/// The default issuer of the tokens the server signs.
pub const BENCHER_DOT_DEV: &'static str = "bencher.dev";

/// The signing key of a debug build; never to be used in production.
pub const DEBUG_SECRET_KEY: &'static str = "DO_NOT_USE_THIS_IN_PRODUCTION";

/// How the server was built: the defaults of a debug build differ from
/// those of a release build.
#[derive(Debug, Clone, Copy, PartialEq, Eq, Structural)]
pub enum BuildProfile {
    Debug,
    Release,
}

/// The errors met while loading or saving the configuration; each names
/// the environment variable value or path concerned.
#[derive(Debug)]
pub enum ApiError {
    /// The value of `BENCHER_CONFIG` is not a valid configuration.
    ParseConfigString(String),
    /// The configuration file named by `BENCHER_CONFIG_PATH` cannot be read.
    OpenConfigFile(String),
    /// The configuration file at this path is not a valid configuration.
    ParseConfigFile(String),
    /// The configuration file at this path cannot be written.
    WriteConfigFile(String),
    /// The default configuration could not be serialized.
    SerializeConfig,
}

/// An `ApiError` with its texts taken by their characters.
pub enum ApiErrorView {
    ParseConfigString(Seq<char>),
    OpenConfigFile(Seq<char>),
    ParseConfigFile(Seq<char>),
    WriteConfigFile(Seq<char>),
    SerializeConfig,
}

impl View for ApiError {
    type V = ApiErrorView;

    open spec fn view(&self) -> ApiErrorView {
        match self {
            ApiError::ParseConfigString(s) => ApiErrorView::ParseConfigString(s@),
            ApiError::OpenConfigFile(s) => ApiErrorView::OpenConfigFile(s@),
            ApiError::ParseConfigFile(s) => ApiErrorView::ParseConfigFile(s@),
            ApiError::WriteConfigFile(s) => ApiErrorView::WriteConfigFile(s@),
            ApiError::SerializeConfig => ApiErrorView::SerializeConfig,
        }
    }
}

/// The log level of the default configuration.
pub open spec fn default_log_level(profile: BuildProfile) -> LogLevel {
    match profile {
        BuildProfile::Debug => LogLevel::Debug,
        BuildProfile::Release => LogLevel::Info,
    }
}

/// The log level of the default configuration.
pub fn default_log_level_of(profile: BuildProfile) -> (level: LogLevel)
    ensures
        level == default_log_level(profile),
{
    match profile {
        BuildProfile::Debug => LogLevel::Debug,
        BuildProfile::Release => LogLevel::Info,
    }
}

/// The default configuration of a `profile` build whose console is served
/// at `console_url` and whose tokens are signed with `secret_key`: no
/// endpoint and no top-level key, the issuer `bencher.dev`, the listener on
/// 0.0.0.0:61016 without TLS and with a one-mebibyte body limit, the
/// database `data/bencher.db` without a data store, no mail server, and the log `Bencher API` on
/// the terminal at the build's default level.
pub open spec fn default_config_view(profile: BuildProfile, console_url: Seq<char>, secret_key: Seq<char>) -> JsonConfigView {
    JsonConfigView {
        endpoint: None,
        secret_key: None,
        console: Some(JsonConsoleView { url: console_url }),
        security: Some(JsonSecurityView { issuer: Some(BENCHER_DOT_DEV@), secret_key }),
        server: JsonServerView {
            bind_address: SocketAddress::V4 { ip: Ipv4Address(0, 0, 0, 0), port: DEFAULT_PORT },
            request_body_max_bytes: DEFAULT_MAX_BODY_SIZE,
            tls: None,
        },
        database: JsonDatabaseView { file: DEFAULT_DB_PATH@, data_store: None },
        smtp: None,
        logging: JsonLoggingView {
            name: API_NAME@,
            log: ServerLogView::StderrTerminal { level: default_log_level(profile) },
        },
    }
}

/// Whether `key` may sign the tokens of a default `profile` build: the
/// fixed debug key in a debug build, a fresh random UUID in a release build.
pub open spec fn is_default_secret_key(profile: BuildProfile, key: Seq<char>) -> bool {
    match profile {
        BuildProfile::Debug => key == DEBUG_SECRET_KEY@,
        BuildProfile::Release => is_uuid_v4_text(key),
    }
}

/// The configuration of the API server.
#[derive(Debug)]
pub struct Config(JsonConfig);

impl View for Config {
    type V = JsonConfig;

    closed spec fn view(&self) -> JsonConfig {
        self.0
    }
}

impl Config {
    /// Wraps a configuration read from the environment or a file.
    pub(crate) fn from_json(json: JsonConfig) -> (config: Config)
        ensures
            config@ == json,
    {
        Config(json)
    }

    /// The configuration as its JSON form.
    pub fn into_inner(self) -> (json: JsonConfig)
        ensures
            json == self@,
    {
        self.0
    }

    /// The default configuration of a `profile` build, with its console at
    /// `console_url` and its tokens signed with `secret_key`.
    pub fn default_with(profile: BuildProfile, console_url: String, secret_key: String) -> (config: Config)
        ensures
            config@@ == default_config_view(profile, console_url@, secret_key@),
            config@.server.bind_address == (SocketAddress::V4 { ip: Ipv4Address(0, 0, 0, 0), port: 61016 }),
            config@.server.request_body_max_bytes == 1048576,
    {
        Config(JsonConfig {
            endpoint: None,
            secret_key: None,
            console: Some(JsonConsole { url: console_url }),
            security: Some(JsonSecurity { issuer: Some(BENCHER_DOT_DEV.to_owned()), secret_key }),
            server: JsonServer {
                bind_address: SocketAddress::V4 { ip: Ipv4Address(0, 0, 0, 0), port: DEFAULT_PORT },
                request_body_max_bytes: DEFAULT_MAX_BODY_SIZE,
                tls: None,
            },
            database: JsonDatabase { file: DEFAULT_DB_PATH.to_owned(), data_store: None },
            smtp: None,
            logging: JsonLogging {
                name: API_NAME.to_owned(),
                log: ServerLog::StderrTerminal { level: default_log_level_of(profile) },
            },
        })
    }

    /// The default configuration of the build that `key` was made for: its
    /// console at the URL parsed from `DEFAULT_CONSOLE_URL_STR`, its tokens
    /// signed with `key`. `None` where the URL parser refuses the default
    /// console address. Every call with the same key gives the same
    /// configuration.
    pub fn default_for(key: &DefaultSecretKey) -> (config: Option<Config>)
        ensures
            is_default_secret_key(key.profile_of(), key.text()),
            match config {
                None => url_parse(DEFAULT_CONSOLE_URL_STR@) is None,
                Some(c) => url_parse(DEFAULT_CONSOLE_URL_STR@) matches Some(url)
                    && c@@ == default_config_view(key.profile_of(), url, key.text()),
            },
    {
        proof {
            use_type_invariant(key);
        }
        match parse_url(DEFAULT_CONSOLE_URL_STR) {
            None => None,
            Some(url) => Some(Config::default_with(key.profile, url, key.key.clone())),
        }
    }
}

/// The default listener is 0.0.0.0:61016 in every build, with a
/// one-mebibyte body limit and no TLS; the defaults of a debug and a
/// release build differ only in the log level (and in the key, which is
/// given).
pub proof fn lemma_default_listener(console_url: Seq<char>, secret_key: Seq<char>)
    ensures
        forall|profile: BuildProfile|
            #![trigger default_config_view(profile, console_url, secret_key)]
            default_config_view(profile, console_url, secret_key).server == (JsonServerView {
                bind_address: SocketAddress::V4 { ip: Ipv4Address(0, 0, 0, 0), port: 61016 },
                request_body_max_bytes: 1048576,
                tls: None,
            }),
        ({
            let d = default_config_view(BuildProfile::Debug, console_url, secret_key);
            let r = default_config_view(BuildProfile::Release, console_url, secret_key);
            &&& d.endpoint == r.endpoint
            &&& d.secret_key == r.secret_key
            &&& d.console == r.console
            &&& d.security == r.security
            &&& d.server == r.server
            &&& d.database == r.database
            &&& d.smtp == r.smtp
            &&& d.logging.name == r.logging.name
            &&& d.logging.log == ServerLogView::StderrTerminal { level: LogLevel::Debug }
            &&& r.logging.log == ServerLogView::StderrTerminal { level: LogLevel::Info }
        }),
{
}

/// The key that signs the tokens of a server running on its defaults: the
/// fixed debug key in a debug build, a random UUID in a release build. A
/// process makes one and builds every default configuration from it.
pub struct DefaultSecretKey {
    profile: BuildProfile,
    key: String,
}

impl DefaultSecretKey {
    #[verifier::type_invariant]
    spec fn is_valid(self) -> bool {
        is_default_secret_key(self.profile, self.key@)
    }

    /// The build the key is for.
    pub closed spec fn profile_of(&self) -> BuildProfile {
        self.profile
    }

    /// The key's text.
    pub closed spec fn text(&self) -> Seq<char> {
        self.key@
    }

    /// The key of a `profile` build: the debug key, or a fresh random UUID.
    pub fn new(profile: BuildProfile) -> (key: DefaultSecretKey)
        ensures
            key.profile_of() == profile,
            is_default_secret_key(profile, key.text()),
    {
        let key = match profile {
            BuildProfile::Debug => DEBUG_SECRET_KEY.to_owned(),
            BuildProfile::Release => new_v4_text(),
        };
        DefaultSecretKey { profile, key }
    }

    /// The build the key is for.
    pub fn profile(&self) -> (profile: BuildProfile)
        ensures
            profile == self.profile_of(),
    {
        self.profile
    }

    /// The key's text.
    pub fn as_str(&self) -> (text: &str)
        ensures
            text@ == self.text(),
    {
        self.key.as_str()
    }
}

impl From<Config> for JsonConfig {
    fn from(config: Config) -> (json: JsonConfig) {
        config.0
    }
}

impl vstd::std_specs::convert::FromSpecImpl<Config> for JsonConfig {
    open spec fn obeys_from_spec() -> bool {
        true
    }

    open spec fn from_spec(config: Config) -> JsonConfig {
        config@
    }
}

} // verus!
