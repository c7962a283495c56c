//! What the API server is started with, taken from its configuration: the
//! settings of the HTTP listener and of the log, the signing key, the way
//! messages are sent, and the database URL that the database layer reads.

use vstd::prelude::*;

use crate::config::Config;
use crate::json::{
    IfExists, JsonConfig, JsonDatabase, JsonLogging, JsonServer, JsonSmtp, JsonTls, LogLevel,
    ServerLog, SocketAddress,
};
use crate::outside::{is_uuid_v4_text, new_v4_text};

verus! {

/// The environment variable that the database layer reads its URL from.
pub const DATABASE_URL: &'static str = "DATABASE_URL";

/// The mail account through which messages are sent.
#[derive(Debug)]
pub struct Email {
    pub hostname: String,
    pub username: String,
    pub secret: String,
    pub from_name: Option<String>,
    pub from_email: String,
}

/// How the server sends its messages: by mail, or printed to standard
/// output where no mail server is configured.
#[derive(Debug)]
pub enum Messenger {
    Email(Email),
    StdOut,
}

/// The certificate and key files of the HTTP listener.
#[derive(Debug)]
pub struct ConfigTls {
    pub cert_file: String,
    pub key_file: String,
}

/// The settings of the HTTP listener.
#[derive(Debug)]
pub struct ConfigDropshot {
    pub bind_address: SocketAddress,
    pub request_body_max_bytes: usize,
    pub tls: Option<ConfigTls>,
}

/// The level of the logger.
#[derive(Debug, Clone, Copy, PartialEq, Eq, Structural)]
pub enum ConfigLoggingLevel {
    Trace,
    Debug,
    Info,
    Warn,
    Error,
    Critical,
}

/// What the logger does with a log file that already exists.
#[derive(Debug, Clone, Copy, PartialEq, Eq, Structural)]
pub enum ConfigLoggingIfExists {
    Fail,
    Truncate,
    Append,
}

/// Where the logger writes.
#[derive(Debug)]
pub enum ConfigLogging {
    StderrTerminal { level: ConfigLoggingLevel },
    File { level: ConfigLoggingLevel, path: String, if_exists: ConfigLoggingIfExists },
}

/// The values of the server's shared context that the configuration gives.
#[derive(Debug)]
pub struct ApiContextSettings {
    pub endpoint: Option<String>,
    pub secret_key: String,
    pub messenger: Messenger,
    /// The path of the database file.
    pub database_path: String,
    /// The value to set `DATABASE_URL` to, where it does not already hold
    /// the database path.
    pub set_database_url: Option<String>,
}

/// Everything the API server is started with: its context, the settings of
/// its listener, and the name and settings of its logger.
#[derive(Debug)]
pub struct ServerSettings {
    pub private: ApiContextSettings,
    pub config_dropshot: ConfigDropshot,
    pub log_name: String,
    pub log: ConfigLogging,
}

/// The logger level of the same name as `level`.
pub open spec fn level_of(level: LogLevel) -> ConfigLoggingLevel {
    match level {
        LogLevel::Trace => ConfigLoggingLevel::Trace,
        LogLevel::Debug => ConfigLoggingLevel::Debug,
        LogLevel::Info => ConfigLoggingLevel::Info,
        LogLevel::Warn => ConfigLoggingLevel::Warn,
        LogLevel::Error => ConfigLoggingLevel::Error,
        LogLevel::Critical => ConfigLoggingLevel::Critical,
    }
}

/// The logger policy of the same name as `if_exists`.
pub open spec fn if_exists_of(if_exists: IfExists) -> ConfigLoggingIfExists {
    match if_exists {
        IfExists::Fail => ConfigLoggingIfExists::Fail,
        IfExists::Truncate => ConfigLoggingIfExists::Truncate,
        IfExists::Append => ConfigLoggingIfExists::Append,
    }
}

/// Whether `messenger` is the one that `smtp` configures: mail through
/// that account, sent under its sender name, or standard output where
/// there is none.
pub open spec fn is_messenger_of(smtp: Option<JsonSmtp>, messenger: Messenger) -> bool {
    match smtp {
        None => messenger is StdOut,
        Some(s) => messenger matches Messenger::Email(e) && (
            e.hostname == s.hostname
            && e.username == s.username
            && e.secret == s.secret
            && e.from_name == Some(s.from_name)
            && e.from_email == s.from_email),
    }
}

/// Whether `config` holds the listener settings of `server`.
pub open spec fn is_dropshot_of(server: JsonServer, config: ConfigDropshot) -> bool {
    &&& config.bind_address == server.bind_address
    &&& config.request_body_max_bytes == server.request_body_max_bytes
    &&& match server.tls {
        None => config.tls is None,
        Some(tls) => config.tls matches Some(t) && (t.cert_file == tls.cert_file
            && t.key_file == tls.key_file),
    }
}

/// Whether `config` holds the logger settings of `log`.
pub open spec fn is_logging_of(log: ServerLog, config: ConfigLogging) -> bool {
    match log {
        ServerLog::StderrTerminal { level } => config == ConfigLogging::StderrTerminal {
            level: level_of(level),
        },
        ServerLog::File { level, path, if_exists } => config == ConfigLogging::File {
            level: level_of(level),
            path,
            if_exists: if_exists_of(if_exists),
        },
    }
}

/// Whether `key` may sign the tokens of a server configured with
/// `secret_key`: that key where one is given, a fresh random UUID otherwise.
pub open spec fn is_secret_key_of(secret_key: Option<String>, key: String) -> bool {
    match secret_key {
        Some(k) => key == k,
        None => is_uuid_v4_text(key@),
    }
}

/// What `DATABASE_URL` holds once it has been brought in line with the
/// database path: `current` where nothing is set, the value set otherwise.
pub open spec fn database_url_after(current: Option<Seq<char>>, set: Option<Seq<char>>) -> Option<Seq<char>> {
    match set {
        Some(v) => Some(v),
        None => current,
    }
}

/// Each log level of the configuration becomes the logger level of the
/// same name, and each if-exists policy the logger policy of the same name.
pub proof fn lemma_names_kept()
    ensures
        level_of(LogLevel::Trace) == ConfigLoggingLevel::Trace,
        level_of(LogLevel::Debug) == ConfigLoggingLevel::Debug,
        level_of(LogLevel::Info) == ConfigLoggingLevel::Info,
        level_of(LogLevel::Warn) == ConfigLoggingLevel::Warn,
        level_of(LogLevel::Error) == ConfigLoggingLevel::Error,
        level_of(LogLevel::Critical) == ConfigLoggingLevel::Critical,
        if_exists_of(IfExists::Fail) == ConfigLoggingIfExists::Fail,
        if_exists_of(IfExists::Truncate) == ConfigLoggingIfExists::Truncate,
        if_exists_of(IfExists::Append) == ConfigLoggingIfExists::Append,
        forall|a: LogLevel, b: LogLevel| level_of(a) == level_of(b) ==> a == b,
        forall|a: IfExists, b: IfExists| if_exists_of(a) == if_exists_of(b) ==> a == b,
{
}

/// The listener takes its address, body limit and TLS files from the
/// server configuration unchanged.
pub proof fn lemma_listener_keeps_server(server: JsonServer, config: ConfigDropshot)
    requires
        is_dropshot_of(server, config),
    ensures
        config.bind_address == server.bind_address,
        config.request_body_max_bytes == server.request_body_max_bytes,
        server.tls matches Some(t) ==> config.tls matches Some(c) && (c.cert_file == t.cert_file
            && c.key_file == t.key_file),
        server.tls is None ==> config.tls is None,
{
}

/// A file logger writes to the configured path, at the level of the same
/// name, and treats an existing file by the policy of the same name; a
/// terminal logger logs at the level of the same name.
pub proof fn lemma_logger_keeps_logging(log: ServerLog, config: ConfigLogging)
    requires
        is_logging_of(log, config),
    ensures
        match log {
            ServerLog::StderrTerminal { level } => config matches ConfigLogging::StderrTerminal { level: l }
                && l == level_of(level),
            ServerLog::File { level, path, if_exists } => config matches ConfigLogging::File {
                level: l,
                path: p,
                if_exists: x,
            } && (l == level_of(level) && p == path && x == if_exists_of(if_exists)),
        },
        log matches ServerLog::File { if_exists: IfExists::Fail, .. } ==> config matches ConfigLogging::File {
            if_exists: ConfigLoggingIfExists::Fail,
            ..
        },
        log matches ServerLog::File { if_exists: IfExists::Truncate, .. } ==> config matches ConfigLogging::File {
            if_exists: ConfigLoggingIfExists::Truncate,
            ..
        },
        log matches ServerLog::File { if_exists: IfExists::Append, .. } ==> config matches ConfigLogging::File {
            if_exists: ConfigLoggingIfExists::Append,
            ..
        },
{
}

/// Without a mail server messages go to standard output; with one they are
/// mailed through that very account, from its address, under its sender
/// name.
pub proof fn lemma_messenger_keeps_account(smtp: Option<JsonSmtp>, messenger: Messenger)
    requires
        is_messenger_of(smtp, messenger),
    ensures
        (smtp is None) <==> (messenger is StdOut),
        smtp matches Some(s) ==> messenger matches Messenger::Email(e) && (e.hostname == s.hostname
            && e.username == s.username && e.secret == s.secret && e.from_name == Some(s.from_name)
            && e.from_email == s.from_email),
{
}

/// A configured signing key is used as it is; without one the key is a
/// 36-character random UUID text.
pub proof fn lemma_secret_key_kept(secret_key: Option<String>, key: String)
    requires
        is_secret_key_of(secret_key, key),
    ensures
        secret_key matches Some(k) ==> key == k,
        (secret_key is None) ==> (key@.len() == 36 && key@[14] == '4'),
{
}

/// The logger level of the same name as `log_level`.
pub fn into_level(log_level: LogLevel) -> (level: ConfigLoggingLevel)
    ensures
        level == level_of(log_level),
{
    match log_level {
        LogLevel::Trace => ConfigLoggingLevel::Trace,
        LogLevel::Debug => ConfigLoggingLevel::Debug,
        LogLevel::Info => ConfigLoggingLevel::Info,
        LogLevel::Warn => ConfigLoggingLevel::Warn,
        LogLevel::Error => ConfigLoggingLevel::Error,
        LogLevel::Critical => ConfigLoggingLevel::Critical,
    }
}

/// The logger policy of the same name as `if_exists`.
pub fn into_if_exists(if_exists: IfExists) -> (policy: ConfigLoggingIfExists)
    ensures
        policy == if_exists_of(if_exists),
{
    match if_exists {
        IfExists::Fail => ConfigLoggingIfExists::Fail,
        IfExists::Truncate => ConfigLoggingIfExists::Truncate,
        IfExists::Append => ConfigLoggingIfExists::Append,
    }
}

/// The name and settings of the logger that `logging` configures.
pub fn into_log(logging: JsonLogging) -> (res: (String, ConfigLogging))
    ensures
        res.0 == logging.name,
        is_logging_of(logging.log, res.1),
        match logging.log {
            ServerLog::StderrTerminal { level } => res.1 matches ConfigLogging::StderrTerminal { level: l }
                && l == level_of(level),
            ServerLog::File { level, path, if_exists } => res.1 matches ConfigLogging::File {
                level: l,
                path: p,
                if_exists: x,
            } && (l == level_of(level) && p == path && x == if_exists_of(if_exists)),
        },
{
    let JsonLogging { name, log } = logging;
    let config = match log {
        ServerLog::StderrTerminal { level } => ConfigLogging::StderrTerminal { level: into_level(level) },
        ServerLog::File { level, path, if_exists } => ConfigLogging::File {
            level: into_level(level),
            path,
            if_exists: into_if_exists(if_exists),
        },
    };
    (name, config)
}

/// The settings of the HTTP listener that `server` configures.
pub fn into_config_dropshot(server: JsonServer) -> (config: ConfigDropshot)
    ensures
        is_dropshot_of(server, config),
        config.bind_address == server.bind_address,
        config.request_body_max_bytes == server.request_body_max_bytes,
        config.tls is Some == server.tls is Some,
{
    let JsonServer { bind_address, request_body_max_bytes, tls } = server;
    ConfigDropshot {
        bind_address,
        request_body_max_bytes,
        tls: match tls {
            Some(JsonTls { cert_file, key_file }) => Some(ConfigTls { cert_file, key_file }),
            None => None,
        },
    }
}

/// How messages are sent: through the mail account of `smtp`, under its
/// sender name, or printed to standard output where there is none.
pub fn into_messenger(smtp: Option<JsonSmtp>) -> (messenger: Messenger)
    ensures
        is_messenger_of(smtp, messenger),
{
    match smtp {
        Some(JsonSmtp { hostname, username, secret, from_name, from_email }) => Messenger::Email(
            Email { hostname, username, secret, from_name: Some(from_name), from_email },
        ),
        None => Messenger::StdOut,
    }
}

/// The key that signs the server's tokens: `secret_key` where it is given,
/// else a fresh random UUID.
pub fn into_secret_key(secret_key: Option<String>) -> (key: String)
    ensures
        is_secret_key_of(secret_key, key),
{
    match secret_key {
        Some(key) => key,
        None => new_v4_text(),
    }
}

/// The value `DATABASE_URL` must be set to so that it names the database at
/// `database_path`, where it holds `current`; `None` where it already does.
pub fn diesel_database_url(current: Option<String>, database_path: &str) -> (set: Option<String>)
    ensures
        match set {
            None => opt_view(current) == Some(database_path@),
            Some(v) => v@ == database_path@ && opt_view(current) != Some(database_path@),
        },
{
    let path = database_path.to_owned();
    match current {
        Some(url) => {
            if url == path {
                None
            } else {
                Some(path)
            }
        },
        None => Some(path),
    }
}

/// A text, if any, taken by its characters.
pub open spec fn opt_view(o: Option<String>) -> Option<Seq<char>> {
    match o {
        Some(s) => Some(s@),
        None => None,
    }
}

/// Once `DATABASE_URL` has been brought in line, it names the database, and
/// bringing it in line again sets nothing.
pub proof fn lemma_database_url_settles(current: Option<Seq<char>>, set: Option<Seq<char>>, database_path: Seq<char>)
    requires
        match set {
            None => current == Some(database_path),
            Some(v) => v == database_path && current != Some(database_path),
        },
    ensures
        database_url_after(current, set) == Some(database_path),
        database_url_after(database_url_after(current, set), None) == Some(database_path),
{
}

/// The values of the server's context that its configuration gives: the
/// endpoint, the signing key, the messenger, the database path, and what
/// to set `DATABASE_URL` to, where it holds `current_database_url`.
pub fn into_private(
    endpoint: Option<String>,
    secret_key: Option<String>,
    smtp: Option<JsonSmtp>,
    database: JsonDatabase,
    current_database_url: Option<String>,
) -> (settings: ApiContextSettings)
    ensures
        settings.endpoint == endpoint,
        is_secret_key_of(secret_key, settings.secret_key),
        is_messenger_of(smtp, settings.messenger),
        settings.database_path == database.file,
        match settings.set_database_url {
            None => opt_view(current_database_url) == Some(database.file@),
            Some(v) => v@ == database.file@ && opt_view(current_database_url) != Some(database.file@),
        },
{
    let set_database_url = diesel_database_url(current_database_url, database.file.as_str());
    ApiContextSettings {
        endpoint,
        secret_key: into_secret_key(secret_key),
        messenger: into_messenger(smtp),
        database_path: database.file,
        set_database_url,
    }
}

/// Everything the API server is started with, from its configuration and
/// the value `current_database_url` of `DATABASE_URL`.
pub fn server_settings(config: Config, current_database_url: Option<String>) -> (settings: ServerSettings)
    ensures
        settings.private.endpoint == config@.endpoint,
        is_secret_key_of(config@.secret_key, settings.private.secret_key),
        is_messenger_of(config@.smtp, settings.private.messenger),
        settings.private.database_path == config@.database.file,
        match settings.private.set_database_url {
            None => opt_view(current_database_url) == Some(config@.database.file@),
            Some(v) => v@ == config@.database.file@ && opt_view(current_database_url) != Some(
                config@.database.file@,
            ),
        },
        is_dropshot_of(config@.server, settings.config_dropshot),
        settings.log_name == config@.logging.name,
        is_logging_of(config@.logging.log, settings.log),
{
    let JsonConfig { endpoint, secret_key, console: _, security: _, server, database, smtp, logging } =
        config.into_inner();
    let private = into_private(endpoint, secret_key, smtp, database, current_database_url);
    let config_dropshot = into_config_dropshot(server);
    let (log_name, log) = into_log(logging);
    ServerSettings { private, config_dropshot, log_name, log }
}

} // verus!
