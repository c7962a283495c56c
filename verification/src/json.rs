//! The data the service reads and writes as JSON: its configuration, the
//! bodies of a few requests and responses, and the answer to a ping.
//!
//! These are plain values; their JSON form is given to them where they are
//! serialized.

use vstd::prelude::*;

verus! {

/// The answer of the server to a ping.
#[derive(Debug, Clone, Copy, PartialEq, Eq, Structural)]
pub enum JsonPing {
    Pong,
}

/// An IPv4 address, by its four octets.
#[derive(Debug, Clone, Copy, PartialEq, Eq, Structural)]
pub struct Ipv4Address(pub u8, pub u8, pub u8, pub u8);

/// An IPv6 address, by its eight 16-bit segments.
#[derive(Debug, Clone, Copy, PartialEq, Eq, Structural)]
pub struct Ipv6Address(pub u16, pub u16, pub u16, pub u16, pub u16, pub u16, pub u16, pub u16);

/// A socket address: an IPv4 address and port, or an IPv6 address, port,
/// flow label and scope id.
#[derive(Debug, Clone, Copy, PartialEq, Eq, Structural)]
pub enum SocketAddress {
    V4 { ip: Ipv4Address, port: u16 },
    V6 { ip: Ipv6Address, port: u16, flowinfo: u32, scope_id: u32 },
}

/// Where the web console is served.
#[derive(Debug)]
pub struct JsonConsole {
    pub url: String,
}

/// How the tokens that the server issues are signed.
#[derive(Debug)]
pub struct JsonSecurity {
    pub issuer: Option<String>,
    pub secret_key: String,
}

/// The certificate and key files of a TLS listener.
#[derive(Debug)]
pub struct JsonTls {
    pub cert_file: String,
    pub key_file: String,
}

/// The HTTP listener.
#[derive(Debug)]
pub struct JsonServer {
    pub bind_address: SocketAddress,
    pub request_body_max_bytes: usize,
    pub tls: Option<JsonTls>,
}

/// The database file, and the settings of the store its backups go to.
///
/// The data store's settings are kept as the JSON text they were given in:
/// nothing here reads them, and they are written back unchanged.
#[derive(Debug)]
pub struct JsonDatabase {
    pub file: String,
    pub data_store: Option<String>,
}

/// The mail server through which the service sends its messages.
#[derive(Debug)]
pub struct JsonSmtp {
    pub hostname: String,
    pub username: String,
    pub secret: String,
    pub from_name: String,
    pub from_email: String,
}

/// How verbose the server log is.
#[derive(Debug, Clone, Copy, PartialEq, Eq, Structural)]
pub enum LogLevel {
    Trace,
    Debug,
    Info,
    Warn,
    Error,
    Critical,
}

/// What to do with a log file that already exists.
#[derive(Debug, Clone, Copy, PartialEq, Eq, Structural)]
pub enum IfExists {
    Fail,
    Truncate,
    Append,
}

/// Where the server log goes.
#[derive(Debug)]
pub enum ServerLog {
    StderrTerminal { level: LogLevel },
    File { level: LogLevel, path: String, if_exists: IfExists },
}

/// The name of the server log and where it goes.
#[derive(Debug)]
pub struct JsonLogging {
    pub name: String,
    pub log: ServerLog,
}

/// The whole configuration of the API server.
#[derive(Debug)]
pub struct JsonConfig {
    pub endpoint: Option<String>,
    pub secret_key: Option<String>,
    pub console: Option<JsonConsole>,
    pub security: Option<JsonSecurity>,
    pub server: JsonServer,
    pub database: JsonDatabase,
    pub smtp: Option<JsonSmtp>,
    pub logging: JsonLogging,
}

/// A `JsonConsole` with its text taken by its characters.
pub struct JsonConsoleView {
    pub url: Seq<char>,
}

/// A `JsonSecurity` with its texts taken by their characters.
pub struct JsonSecurityView {
    pub issuer: Option<Seq<char>>,
    pub secret_key: Seq<char>,
}

/// A `JsonTls` with its texts taken by their characters.
pub struct JsonTlsView {
    pub cert_file: Seq<char>,
    pub key_file: Seq<char>,
}

/// A `JsonServer` with its texts taken by their characters.
pub struct JsonServerView {
    pub bind_address: SocketAddress,
    pub request_body_max_bytes: usize,
    pub tls: Option<JsonTlsView>,
}

/// A `JsonDatabase` with its texts taken by their characters.
pub struct JsonDatabaseView {
    pub file: Seq<char>,
    pub data_store: Option<Seq<char>>,
}

/// A `JsonSmtp` with its texts taken by their characters.
pub struct JsonSmtpView {
    pub hostname: Seq<char>,
    pub username: Seq<char>,
    pub secret: Seq<char>,
    pub from_name: Seq<char>,
    pub from_email: Seq<char>,
}

/// A `ServerLog` with its texts taken by their characters.
pub enum ServerLogView {
    StderrTerminal { level: LogLevel },
    File { level: LogLevel, path: Seq<char>, if_exists: IfExists },
}

/// A `JsonLogging` with its texts taken by their characters.
pub struct JsonLoggingView {
    pub name: Seq<char>,
    pub log: ServerLogView,
}

/// A `JsonConfig` with its texts taken by their characters.
pub struct JsonConfigView {
    pub endpoint: Option<Seq<char>>,
    pub secret_key: Option<Seq<char>>,
    pub console: Option<JsonConsoleView>,
    pub security: Option<JsonSecurityView>,
    pub server: JsonServerView,
    pub database: JsonDatabaseView,
    pub smtp: Option<JsonSmtpView>,
    pub logging: JsonLoggingView,
}

/// A text, if any, taken by its characters.
pub open spec fn opt_string_view(o: Option<String>) -> Option<Seq<char>> {
    match o {
        Some(s) => Some(s@),
        None => None,
    }
}

impl View for JsonConsole {
    type V = JsonConsoleView;

    open spec fn view(&self) -> JsonConsoleView {
        JsonConsoleView { url: self.url@ }
    }
}

impl View for JsonSecurity {
    type V = JsonSecurityView;

    open spec fn view(&self) -> JsonSecurityView {
        JsonSecurityView { issuer: opt_string_view(self.issuer), secret_key: self.secret_key@ }
    }
}

impl View for JsonTls {
    type V = JsonTlsView;

    open spec fn view(&self) -> JsonTlsView {
        JsonTlsView { cert_file: self.cert_file@, key_file: self.key_file@ }
    }
}

impl View for JsonServer {
    type V = JsonServerView;

    open spec fn view(&self) -> JsonServerView {
        JsonServerView {
            bind_address: self.bind_address,
            request_body_max_bytes: self.request_body_max_bytes,
            tls: match self.tls {
                Some(t) => Some(t@),
                None => None,
            },
        }
    }
}

impl View for JsonSmtp {
    type V = JsonSmtpView;

    open spec fn view(&self) -> JsonSmtpView {
        JsonSmtpView {
            hostname: self.hostname@,
            username: self.username@,
            secret: self.secret@,
            from_name: self.from_name@,
            from_email: self.from_email@,
        }
    }
}

impl View for ServerLog {
    type V = ServerLogView;

    open spec fn view(&self) -> ServerLogView {
        match self {
            ServerLog::StderrTerminal { level } => ServerLogView::StderrTerminal { level: *level },
            ServerLog::File { level, path, if_exists } => ServerLogView::File {
                level: *level,
                path: path@,
                if_exists: *if_exists,
            },
        }
    }
}

impl View for JsonLogging {
    type V = JsonLoggingView;

    open spec fn view(&self) -> JsonLoggingView {
        JsonLoggingView { name: self.name@, log: self.log@ }
    }
}

impl View for JsonConfig {
    type V = JsonConfigView;

    open spec fn view(&self) -> JsonConfigView {
        JsonConfigView {
            endpoint: opt_string_view(self.endpoint),
            secret_key: opt_string_view(self.secret_key),
            console: match self.console {
                Some(c) => Some(c@),
                None => None,
            },
            security: match self.security {
                Some(s) => Some(s@),
                None => None,
            },
            server: self.server@,
            database: JsonDatabaseView {
                file: self.database.file@,
                data_store: opt_string_view(self.database.data_store),
            },
            smtp: match self.smtp {
                Some(s) => Some(s@),
                None => None,
            },
            logging: self.logging@,
        }
    }
}

/// A copy of `config`.
pub fn copy_json_config(config: &JsonConfig) -> (copy: JsonConfig)
    ensures
        copy == *config,
{
    JsonConfig {
        endpoint: config.endpoint.clone(),
        secret_key: config.secret_key.clone(),
        console: match &config.console {
            Some(c) => Some(JsonConsole { url: c.url.clone() }),
            None => None,
        },
        security: match &config.security {
            Some(s) => Some(JsonSecurity { issuer: s.issuer.clone(), secret_key: s.secret_key.clone() }),
            None => None,
        },
        server: JsonServer {
            bind_address: config.server.bind_address,
            request_body_max_bytes: config.server.request_body_max_bytes,
            tls: match &config.server.tls {
                Some(t) => Some(JsonTls { cert_file: t.cert_file.clone(), key_file: t.key_file.clone() }),
                None => None,
            },
        },
        database: JsonDatabase {
            file: config.database.file.clone(),
            data_store: config.database.data_store.clone(),
        },
        smtp: match &config.smtp {
            Some(s) => Some(JsonSmtp {
                hostname: s.hostname.clone(),
                username: s.username.clone(),
                secret: s.secret.clone(),
                from_name: s.from_name.clone(),
                from_email: s.from_email.clone(),
            }),
            None => None,
        },
        logging: JsonLogging {
            name: config.logging.name.clone(),
            log: match &config.logging.log {
                ServerLog::StderrTerminal { level } => ServerLog::StderrTerminal { level: *level },
                ServerLog::File { level, path, if_exists } => ServerLog::File {
                    level: *level,
                    path: path.clone(),
                    if_exists: *if_exists,
                },
            },
        },
    }
}

/// The body of a request for a new API token.
#[derive(Debug)]
pub struct JsonNewToken {
    pub user: String,
    pub ttl: u64,
    pub name: String,
}

/// The body that tells where the API is served.
#[derive(Debug)]
pub struct JsonEndpoint {
    pub endpoint: String,
}

/// The body that tells whether a permission is granted.
#[derive(Debug, Clone, Copy, PartialEq, Eq, Structural)]
pub struct JsonAllowed {
    pub allowed: bool,
}

} // verus!
