//! The command-line client: its options, the address of the API, and what
//! a run does.

use vstd::prelude::*;

use crate::json::JsonNewToken;
use crate::outside::{join_url, parse_url, url_join, url_parse};

verus! {

/// The path of the ping endpoint.
pub const PING_PATH: &'static str = "/v0/ping";

/// The path of the token endpoint.
pub const TOKENS_PATH: &'static str = "/v0/tokens";

/// The errors of the command-line client.
#[derive(Debug)]
pub enum BencherError {
    /// The text is not a URL the client can use.
    Url(String),
}

/// The options shared by every command: the address of the API, as the
/// serialization of a parsed URL.
#[derive(Debug)]
pub struct Wide {
    pub url: String,
}

/// A run of the command-line client: the shared options and the
/// subcommand, if one was given.
#[derive(Debug)]
pub struct Bencher<S> {
    wide: Wide,
    sub: Option<S>,
}

/// What a run of the client does: the subcommand, or, where none was
/// given, a ping of the API at `url`.
#[derive(Debug)]
pub enum Exec {
    Sub,
    Ping { url: String },
}

impl<S> Bencher<S> {
    /// The address of the API.
    pub closed spec fn url_view(&self) -> Seq<char> {
        self.wide.url@
    }

    /// The subcommand given, if any.
    pub closed spec fn sub_of(&self) -> Option<S> {
        self.sub
    }

    /// Whether a subcommand was given.
    pub open spec fn has_sub(&self) -> bool {
        self.sub_of() is Some
    }

    /// A run against the API at `url` with the subcommand `sub`; an error
    /// where the URL parser refuses `url`.
    pub fn new(url: &str, sub: Option<S>) -> (res: Result<Bencher<S>, BencherError>)
        ensures
            match res {
                Ok(b) => url_parse(url@) == Some(b.url_view()) && b.sub_of() == sub,
                Err(BencherError::Url(u)) => url_parse(url@) is None && u@ == url@,
            },
    {
        match parse_url(url) {
            Some(parsed) => Ok(Bencher { wide: Wide { url: parsed }, sub }),
            None => Err(BencherError::Url(url.to_owned())),
        }
    }

    /// The subcommand given, if any.
    pub fn sub(&self) -> (sub: &Option<S>)
        ensures
            *sub == self.sub_of(),
    {
        &self.sub
    }

    /// The URL of the endpoint at `path` of the API; an error where the URL
    /// joiner refuses it.
    pub fn endpoint_url(&self, path: &str) -> (res: Result<String, BencherError>)
        ensures
            match res {
                Ok(u) => url_join(self.url_view(), path@) == Some(u@),
                Err(BencherError::Url(p)) => url_join(self.url_view(), path@) is None && p@ == path@,
            },
    {
        match join_url(self.wide.url.as_str(), path) {
            Some(u) => Ok(u),
            None => Err(BencherError::Url(path.to_owned())),
        }
    }

    /// The URL the ping goes to: the ping endpoint of the API.
    pub fn ping(&self) -> (res: Result<String, BencherError>)
        ensures
            match res {
                Ok(u) => url_join(self.url_view(), PING_PATH@) == Some(u@),
                Err(BencherError::Url(p)) => url_join(self.url_view(), PING_PATH@) is None && p@
                    == PING_PATH@,
            },
    {
        self.endpoint_url(PING_PATH)
    }

    /// What the run does: the subcommand where one was given, else a ping
    /// of the API.
    pub fn exec(&self) -> (res: Result<Exec, BencherError>)
        ensures
            self.has_sub() ==> res matches Ok(Exec::Sub),
            !self.has_sub() ==> match res {
                Ok(Exec::Ping { url }) => url_join(self.url_view(), PING_PATH@) == Some(url@),
                Ok(Exec::Sub) => false,
                Err(BencherError::Url(p)) => url_join(self.url_view(), PING_PATH@) is None && p@
                    == PING_PATH@,
            },
    {
        if self.sub.is_some() {
            Ok(Exec::Sub)
        } else {
            match self.ping() {
                Ok(url) => Ok(Exec::Ping { url }),
                Err(e) => Err(e),
            }
        }
    }
}

/// The `token create` command: a new token for `user`, valid for `ttl`
/// seconds, named `name`.
#[derive(Debug)]
pub struct Create {
    pub user: String,
    pub ttl: u64,
    pub name: String,
}

impl Create {
    /// The body of the request the command sends to the token endpoint.
    pub fn token(&self) -> (token: JsonNewToken)
        ensures
            token.user@ == self.user@,
            token.ttl == self.ttl,
            token.name@ == self.name@,
    {
        JsonNewToken { user: self.user.clone(), ttl: self.ttl, name: self.name.clone() }
    }
}

/// The role an invited user gets in the organization.
#[derive(Debug, Clone, Copy, PartialEq, Eq, Structural)]
pub enum CliInviteRole {
    Member,
    Leader,
}

/// The `invite` command: an invitation to the organization `org`, a slug
/// or UUID, for `email`, optionally addressed to `name`, with `role`.
#[derive(Debug)]
pub struct CliInvite {
    pub name: Option<String>,
    pub email: String,
    pub org: String,
    pub role: CliInviteRole,
}

/// How a list of alerts is sorted.
#[derive(Debug, Clone, Copy, PartialEq, Eq, Structural)]
pub enum CliAlertsSort {
    /// By the creation time of the alert.
    Created,
}

/// The `alert list` command: the alerts of the project `project`, a slug
/// or UUID.
#[derive(Debug)]
pub struct CliAlertList {
    pub project: String,
}

/// The `alert view` command: the alert with the UUID `alert` of the
/// project `project`, a slug or UUID.
#[derive(Debug)]
pub struct CliAlertView {
    pub project: String,
    pub alert: String,
}

/// The `alert` commands.
#[derive(Debug)]
pub enum CliAlert {
    /// List alerts.
    List(CliAlertList),
    /// View an alert.
    View(CliAlertView),
}

} // verus!
