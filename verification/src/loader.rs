//! Loading the configuration of the API server.
//!
//! The configuration comes, in this order of precedence, from the
//! `BENCHER_CONFIG` environment variable, from the file that
//! `BENCHER_CONFIG_PATH` names, from `bencher.json`, or else from the
//! defaults, which are then written to the configuration path. Reading the
//! environment and files, parsing JSON and writing are done by the caller:
//! `ConfigLoader` decides, from each outcome it is handed, what to do next.

use vstd::prelude::*;

use crate::config::{
    default_config_view, is_default_secret_key, ApiError, ApiErrorView, BuildProfile, Config,
    DefaultSecretKey, BENCHER_CONFIG, BENCHER_CONFIG_PATH, DEFAULT_CONFIG_PATH,
    DEFAULT_CONSOLE_URL_STR,
};
use crate::json::{copy_json_config, JsonConfig};
use crate::outside::url_parse;

verus! {

/// The environment variables the loader reads.
#[derive(Debug, Clone, Copy, PartialEq, Eq, Structural)]
pub enum EnvVar {
    /// `BENCHER_CONFIG`, the whole configuration as JSON.
    Config,
    /// `BENCHER_CONFIG_PATH`, the path of the configuration file.
    ConfigPath,
}

/// The name of an environment variable.
pub open spec fn env_var_name(var: EnvVar) -> Seq<char> {
    match var {
        EnvVar::Config => BENCHER_CONFIG@,
        EnvVar::ConfigPath => BENCHER_CONFIG_PATH@,
    }
}

impl EnvVar {
    /// The name of the variable.
    pub fn name(&self) -> (name: &'static str)
        ensures
            name@ == env_var_name(*self),
    {
        match self {
            EnvVar::Config => BENCHER_CONFIG,
            EnvVar::ConfigPath => BENCHER_CONFIG_PATH,
        }
    }
}

/// What the caller found when it did what the loader asked.
#[derive(Debug)]
pub enum LoadEvent {
    /// The value of the environment variable asked for, if it is set and
    /// valid Unicode (a value that is not is taken as unset).
    EnvValue(Option<String>),
    /// The contents of the file asked for, if it could be read.
    FileRead(Option<Vec<u8>>),
    /// The configuration parsed from the text or bytes given, if they parse.
    Parsed(Option<JsonConfig>),
    /// The JSON text of the default configuration, if it could be
    /// serialized.
    Serialized(Option<String>),
    /// Whether the file could be written.
    Written(bool),
}

/// What the loader asks the caller to do next.
#[derive(Debug)]
pub enum LoadAction {
    /// Read an environment variable.
    ReadEnv(EnvVar),
    /// Read the file at `path`.
    ReadFile { path: String },
    /// Parse the text of the `BENCHER_CONFIG` variable as a configuration.
    ParseEnv { text: String },
    /// Parse the contents of a configuration file.
    ParseFile { bytes: Vec<u8> },
    /// Serialize the default configuration `config`, pretty-printed or not.
    SerializeDefault { config: JsonConfig, pretty: bool },
    /// Write `contents` to the file at `path`.
    WriteFile { path: String, contents: String },
    /// Stop: this is the configuration, or the error met.
    Finish(Result<Config, ApiError>),
}

/// A `LoadEvent` with its texts, bytes and configuration taken by their views.
pub enum LoadEventView {
    EnvValue(Option<Seq<char>>),
    FileRead(Option<Seq<u8>>),
    Parsed(Option<JsonConfig>),
    Serialized(Option<Seq<char>>),
    Written(bool),
}

/// A `LoadAction` with its texts, bytes and configuration taken by their
/// views.
pub enum LoadActionView {
    ReadEnv(EnvVar),
    ReadFile { path: Seq<char> },
    ParseEnv { text: Seq<char> },
    ParseFile { bytes: Seq<u8> },
    SerializeDefault { config: JsonConfig, pretty: bool },
    WriteFile { path: Seq<char>, contents: Seq<char> },
    Finish(Result<JsonConfig, ApiErrorView>),
}

/// Where the loader stands: what it waits for, and what it keeps meanwhile.
pub enum LoadStateView {
    /// Waiting for the value of `BENCHER_CONFIG`.
    AwaitConfigEnv,
    /// Waiting for the configuration parsed from `text`, the value of
    /// `BENCHER_CONFIG`.
    AwaitEnvParse { text: Seq<char> },
    /// Waiting for the value of `BENCHER_CONFIG_PATH`, to read the file.
    AwaitPathEnv,
    /// Waiting for the contents of the file at `path`; `explicit` when
    /// `BENCHER_CONFIG_PATH` named it.
    AwaitFile { path: Seq<char>, explicit: bool },
    /// Waiting for the configuration parsed from the file at `path`.
    AwaitFileParse { path: Seq<char> },
    /// Waiting for the text of the default configuration.
    AwaitDefault,
    /// Waiting for the value of `BENCHER_CONFIG_PATH`, to write `contents`
    /// before handing back `config`.
    AwaitWritePath { config: JsonConfig, contents: Seq<char> },
    /// Waiting for the outcome of writing the file at `path` before handing
    /// back `config`.
    AwaitWrite { config: JsonConfig, path: Seq<char> },
    /// Done.
    Finished,
}

pub open spec fn opt_text_view(o: Option<String>) -> Option<Seq<char>> {
    match o {
        Some(s) => Some(s@),
        None => None,
    }
}

pub open spec fn opt_bytes_view(o: Option<Vec<u8>>) -> Option<Seq<u8>> {
    match o {
        Some(b) => Some(b@),
        None => None,
    }
}

pub open spec fn load_result_view(r: Result<Config, ApiError>) -> Result<JsonConfig, ApiErrorView> {
    match r {
        Ok(c) => Ok(c@),
        Err(e) => Err(e@),
    }
}

impl View for LoadEvent {
    type V = LoadEventView;

    open spec fn view(&self) -> LoadEventView {
        match self {
            LoadEvent::EnvValue(o) => LoadEventView::EnvValue(opt_text_view(*o)),
            LoadEvent::FileRead(o) => LoadEventView::FileRead(opt_bytes_view(*o)),
            LoadEvent::Parsed(o) => LoadEventView::Parsed(*o),
            LoadEvent::Serialized(text) => LoadEventView::Serialized(opt_text_view(*text)),
            LoadEvent::Written(ok) => LoadEventView::Written(*ok),
        }
    }
}

impl View for LoadAction {
    type V = LoadActionView;

    open spec fn view(&self) -> LoadActionView {
        match self {
            LoadAction::ReadEnv(var) => LoadActionView::ReadEnv(*var),
            LoadAction::ReadFile { path } => LoadActionView::ReadFile { path: path@ },
            LoadAction::ParseEnv { text } => LoadActionView::ParseEnv { text: text@ },
            LoadAction::ParseFile { bytes } => LoadActionView::ParseFile { bytes: bytes@ },
            LoadAction::SerializeDefault { config, pretty } => LoadActionView::SerializeDefault {
                config: *config,
                pretty: *pretty,
            },
            LoadAction::WriteFile { path, contents } => LoadActionView::WriteFile {
                path: path@,
                contents: contents@,
            },
            LoadAction::Finish(r) => LoadActionView::Finish(load_result_view(*r)),
        }
    }
}

/// The path the configuration is written to: the value of
/// `BENCHER_CONFIG_PATH` where it is set, `bencher.json` otherwise.
pub open spec fn config_path(path_env: Option<Seq<char>>) -> Seq<char> {
    match path_env {
        Some(p) => p,
        None => DEFAULT_CONFIG_PATH@,
    }
}

/// The path the configuration is written to, where `BENCHER_CONFIG_PATH`
/// holds `path_env`.
pub fn config_path_of(path_env: Option<String>) -> (path: String)
    ensures
        path@ == config_path(opt_text_view(path_env)),
        path_env matches Some(p) ==> path@ == p@,
        path_env is None ==> path@ == DEFAULT_CONFIG_PATH@,
{
    match path_env {
        Some(path) => path,
        None => DEFAULT_CONFIG_PATH.to_owned(),
    }
}

/// Where `BENCHER_CONFIG_PATH` holds `p`, whatever `p` is, the loader reads
/// the configuration from `p` and writes it back to `p`; where it is unset,
/// from and to `bencher.json`.
pub proof fn lemma_config_path_is_env_value(
    profile: BuildProfile,
    default: JsonConfig,
    p: Seq<char>,
    config: JsonConfig,
    contents: Seq<char>,
)
    ensures
        config_path(Some(p)) == p,
        config_path(None) == DEFAULT_CONFIG_PATH@,
        load_next(profile, default, LoadStateView::AwaitPathEnv, LoadEventView::EnvValue(Some(p))) == (
            LoadStateView::AwaitFile { path: p, explicit: true },
            LoadActionView::ReadFile { path: p },
        ),
        load_next(profile, default, LoadStateView::AwaitPathEnv, LoadEventView::EnvValue(None)) == (
            LoadStateView::AwaitFile { path: DEFAULT_CONFIG_PATH@, explicit: false },
            LoadActionView::ReadFile { path: DEFAULT_CONFIG_PATH@ },
        ),
        load_next(
            profile,
            default,
            LoadStateView::AwaitWritePath { config, contents },
            LoadEventView::EnvValue(Some(p)),
        ).1 == (LoadActionView::WriteFile { path: p, contents }),
        load_next(
            profile,
            default,
            LoadStateView::AwaitWritePath { config, contents },
            LoadEventView::EnvValue(None),
        ).1 == (LoadActionView::WriteFile { path: DEFAULT_CONFIG_PATH@, contents }),
{
}

/// Each failure names what failed: the value of `BENCHER_CONFIG` that does
/// not parse, the file named by `BENCHER_CONFIG_PATH` that cannot be read,
/// the file that does not parse, the file that cannot be written. Only an
/// unreadable `bencher.json` falls back to the defaults, which are
/// serialized pretty-printed exactly in a debug build. A parsed value of
/// `BENCHER_CONFIG` is handed back at once in a release build, and written
/// back first in a debug build.
pub proof fn lemma_loader_moves(
    profile: BuildProfile,
    default: JsonConfig,
    text: Seq<char>,
    path: Seq<char>,
    config: JsonConfig,
    bytes: Seq<u8>,
)
    ensures
        load_next(profile, default, LoadStateView::AwaitEnvParse { text }, LoadEventView::Parsed(None)).1
            == LoadActionView::Finish(Err(ApiErrorView::ParseConfigString(text))),
        load_next(profile, default, LoadStateView::AwaitEnvParse { text }, LoadEventView::Parsed(Some(config)))
            == (if profile == BuildProfile::Release {
                (LoadStateView::Finished, LoadActionView::Finish(Ok(config)))
            } else {
                (
                    LoadStateView::AwaitWritePath { config, contents: text },
                    LoadActionView::ReadEnv(EnvVar::ConfigPath),
                )
            }),
        load_next(profile, default, LoadStateView::AwaitFile { path, explicit: true }, LoadEventView::FileRead(None)).1
            == LoadActionView::Finish(Err(ApiErrorView::OpenConfigFile(path))),
        load_next(profile, default, LoadStateView::AwaitFile { path, explicit: false }, LoadEventView::FileRead(None))
            == (
                LoadStateView::AwaitDefault,
                LoadActionView::SerializeDefault { config: default, pretty: profile == BuildProfile::Debug },
            ),
        load_next(profile, default, LoadStateView::AwaitFile { path, explicit: true }, LoadEventView::FileRead(Some(bytes)))
            == (LoadStateView::AwaitFileParse { path }, LoadActionView::ParseFile { bytes }),
        load_next(profile, default, LoadStateView::AwaitFileParse { path }, LoadEventView::Parsed(None)).1
            == LoadActionView::Finish(Err(ApiErrorView::ParseConfigFile(path))),
        load_next(profile, default, LoadStateView::AwaitFileParse { path }, LoadEventView::Parsed(Some(config))).1
            == LoadActionView::Finish(Ok(config)),
        load_next(profile, default, LoadStateView::AwaitDefault, LoadEventView::Serialized(None)).1
            == LoadActionView::Finish(Err(ApiErrorView::SerializeConfig)),
        load_next(profile, default, LoadStateView::AwaitDefault, LoadEventView::Serialized(Some(text)))
            == (
                LoadStateView::AwaitWritePath { config: default, contents: text },
                LoadActionView::ReadEnv(EnvVar::ConfigPath),
            ),
        load_next(profile, default, LoadStateView::AwaitWrite { config, path }, LoadEventView::Written(true)).1
            == LoadActionView::Finish(Ok(config)),
        load_next(profile, default, LoadStateView::AwaitWrite { config, path }, LoadEventView::Written(false)).1
            == LoadActionView::Finish(Err(ApiErrorView::WriteConfigFile(path))),
{
}

/// The outcome of writing the configuration to `path`: nothing where the
/// write went through, else the error that names the file.
pub fn write_result(path: String, written: bool) -> (res: Result<(), ApiError>)
    ensures
        match res {
            Ok(_) => written,
            Err(e) => !written && e@ == ApiErrorView::WriteConfigFile(path@),
        },
{
    if written {
        Ok(())
    } else {
        Err(ApiError::WriteConfigFile(path))
    }
}

/// Whether the loader, standing at `s`, can take `e`: each state waits for
/// one kind of outcome.
pub open spec fn load_accepts(s: LoadStateView, e: LoadEventView) -> bool {
    match s {
        LoadStateView::AwaitConfigEnv => e is EnvValue,
        LoadStateView::AwaitEnvParse { .. } => e is Parsed,
        LoadStateView::AwaitPathEnv => e is EnvValue,
        LoadStateView::AwaitFile { .. } => e is FileRead,
        LoadStateView::AwaitFileParse { .. } => e is Parsed,
        LoadStateView::AwaitDefault => e is Serialized,
        LoadStateView::AwaitWritePath { .. } => e is EnvValue,
        LoadStateView::AwaitWrite { .. } => e is Written,
        LoadStateView::Finished => false,
    }
}

/// One move of the loader of a `profile` build whose default configuration
/// is `default`: from the state `s` and the outcome `e` of the last action,
/// the next state and action.
pub open spec fn load_next(profile: BuildProfile, default: JsonConfig, s: LoadStateView, e: LoadEventView) -> (
    LoadStateView,
    LoadActionView,
) {
    match (s, e) {
        (LoadStateView::AwaitConfigEnv, LoadEventView::EnvValue(Some(text))) => (
            LoadStateView::AwaitEnvParse { text },
            LoadActionView::ParseEnv { text },
        ),
        (LoadStateView::AwaitConfigEnv, LoadEventView::EnvValue(None)) => (
            LoadStateView::AwaitPathEnv,
            LoadActionView::ReadEnv(EnvVar::ConfigPath),
        ),
        (LoadStateView::AwaitEnvParse { text }, LoadEventView::Parsed(None)) => (
            LoadStateView::Finished,
            LoadActionView::Finish(Err(ApiErrorView::ParseConfigString(text))),
        ),
        (LoadStateView::AwaitEnvParse { text }, LoadEventView::Parsed(Some(config))) => {
            if profile is Debug {
                (
                    LoadStateView::AwaitWritePath { config, contents: text },
                    LoadActionView::ReadEnv(EnvVar::ConfigPath),
                )
            } else {
                (LoadStateView::Finished, LoadActionView::Finish(Ok(config)))
            }
        },
        (LoadStateView::AwaitPathEnv, LoadEventView::EnvValue(path_env)) => (
            LoadStateView::AwaitFile { path: config_path(path_env), explicit: path_env is Some },
            LoadActionView::ReadFile { path: config_path(path_env) },
        ),
        (LoadStateView::AwaitFile { path, explicit }, LoadEventView::FileRead(Some(bytes))) => (
            LoadStateView::AwaitFileParse { path },
            LoadActionView::ParseFile { bytes },
        ),
        (LoadStateView::AwaitFile { path, explicit }, LoadEventView::FileRead(None)) => {
            if explicit {
                (
                    LoadStateView::Finished,
                    LoadActionView::Finish(Err(ApiErrorView::OpenConfigFile(path))),
                )
            } else {
                (
                    LoadStateView::AwaitDefault,
                    LoadActionView::SerializeDefault { config: default, pretty: profile is Debug },
                )
            }
        },
        (LoadStateView::AwaitFileParse { path }, LoadEventView::Parsed(None)) => (
            LoadStateView::Finished,
            LoadActionView::Finish(Err(ApiErrorView::ParseConfigFile(path))),
        ),
        (LoadStateView::AwaitFileParse { path }, LoadEventView::Parsed(Some(config))) => (
            LoadStateView::Finished,
            LoadActionView::Finish(Ok(config)),
        ),
        (LoadStateView::AwaitDefault, LoadEventView::Serialized(None)) => (
            LoadStateView::Finished,
            LoadActionView::Finish(Err(ApiErrorView::SerializeConfig)),
        ),
        (LoadStateView::AwaitDefault, LoadEventView::Serialized(Some(contents))) => (
            LoadStateView::AwaitWritePath { config: default, contents },
            LoadActionView::ReadEnv(EnvVar::ConfigPath),
        ),
        (LoadStateView::AwaitWritePath { config, contents }, LoadEventView::EnvValue(path_env)) => (
            LoadStateView::AwaitWrite { config, path: config_path(path_env) },
            LoadActionView::WriteFile { path: config_path(path_env), contents },
        ),
        (LoadStateView::AwaitWrite { config, path }, LoadEventView::Written(true)) => (
            LoadStateView::Finished,
            LoadActionView::Finish(Ok(config)),
        ),
        (LoadStateView::AwaitWrite { config, path }, LoadEventView::Written(false)) => (
            LoadStateView::Finished,
            LoadActionView::Finish(Err(ApiErrorView::WriteConfigFile(path))),
        ),
        _ => (LoadStateView::Finished, LoadActionView::Finish(Err(ApiErrorView::SerializeConfig))),
    }
}


/// What the loader's surroundings hold: the two environment variables (a
/// value that is not valid Unicode counts as unset), the readable files,
/// and what parsing, serializing and writing give.
pub struct LoadWorld {
    pub config_env: Option<Seq<char>>,
    pub path_env: Option<Seq<char>>,
    pub files: Map<Seq<char>, Seq<u8>>,
    pub parse_text: spec_fn(Seq<char>) -> Option<JsonConfig>,
    pub parse_bytes: spec_fn(Seq<u8>) -> Option<JsonConfig>,
    pub serialize: spec_fn(JsonConfig, bool) -> Option<Seq<char>>,
    pub writable: spec_fn(Seq<char>) -> bool,
}

/// The outcome that the world `w` gives of the action `a`.
pub open spec fn load_respond(w: LoadWorld, a: LoadActionView) -> LoadEventView {
    match a {
        LoadActionView::ReadEnv(EnvVar::Config) => LoadEventView::EnvValue(w.config_env),
        LoadActionView::ReadEnv(EnvVar::ConfigPath) => LoadEventView::EnvValue(w.path_env),
        LoadActionView::ReadFile { path } => LoadEventView::FileRead(
            if w.files.contains_key(path) {
                Some(w.files[path])
            } else {
                None
            },
        ),
        LoadActionView::ParseEnv { text } => LoadEventView::Parsed((w.parse_text)(text)),
        LoadActionView::ParseFile { bytes } => LoadEventView::Parsed((w.parse_bytes)(bytes)),
        LoadActionView::SerializeDefault { config, pretty } => LoadEventView::Serialized(
            (w.serialize)(config, pretty),
        ),
        LoadActionView::WriteFile { path, contents } => LoadEventView::Written((w.writable)(path)),
        LoadActionView::Finish(_) => LoadEventView::Written(false),
    }
}

/// The loader run against the world `w` for at most `fuel` rounds from the
/// state `s` and the pending action `a`: the last action, the files
/// written (path and contents, in order), and whether the loader accepted
/// every outcome it was handed.
pub open spec fn load_run(
    profile: BuildProfile,
    default: JsonConfig,
    s: LoadStateView,
    a: LoadActionView,
    w: LoadWorld,
    fuel: nat,
) -> (LoadActionView, Seq<(Seq<char>, Seq<char>)>, bool)
    decreases fuel,
{
    if fuel == 0 || a is Finish {
        (a, Seq::empty(), true)
    } else {
        let e = load_respond(w, a);
        let (s2, a2) = load_next(profile, default, s, e);
        let (last, writes, accepted) = load_run(profile, default, s2, a2, w, (fuel - 1) as nat);
        let written = match a {
            LoadActionView::WriteFile { path, contents } => seq![(path, contents)],
            _ => Seq::empty(),
        };
        (last, written + writes, accepted && load_accepts(s, e))
    }
}

/// The configuration path's file written with `contents`, then `config`
/// handed back, or the error of the write.
pub open spec fn write_then(w: LoadWorld, contents: Seq<char>, config: JsonConfig) -> (
    Result<JsonConfig, ApiErrorView>,
    Seq<(Seq<char>, Seq<char>)>,
) {
    let path = config_path(w.path_env);
    (
        if (w.writable)(path) {
            Ok(config)
        } else {
            Err(ApiErrorView::WriteConfigFile(path))
        },
        seq![(path, contents)],
    )
}

/// Where the configuration of a `profile` build whose default configuration
/// is `default` comes from in the world `w`, and which files are written on
/// the way:
/// - `BENCHER_CONFIG`, where it is set: its value must parse (else
///   `ParseConfigString` with that value); a debug build also writes that
///   value to the configuration path;
/// - else the file that `BENCHER_CONFIG_PATH` names, where it is set: it
///   must be readable (else `OpenConfigFile`) and parse (else
///   `ParseConfigFile`);
/// - else `bencher.json`, where it is readable: it must parse (else
///   `ParseConfigFile`);
/// - else the default configuration, serialized (pretty-printed in a debug
///   build; else `SerializeConfig`) and written to the configuration path.
pub open spec fn load_outcome(profile: BuildProfile, default: JsonConfig, w: LoadWorld) -> (
    Result<JsonConfig, ApiErrorView>,
    Seq<(Seq<char>, Seq<char>)>,
) {
    match w.config_env {
        Some(text) => match (w.parse_text)(text) {
            None => (Err(ApiErrorView::ParseConfigString(text)), Seq::empty()),
            Some(config) => if profile is Debug {
                write_then(w, text, config)
            } else {
                (Ok(config), Seq::empty())
            },
        },
        None => {
            let path = config_path(w.path_env);
            if w.files.contains_key(path) {
                match (w.parse_bytes)(w.files[path]) {
                    None => (Err(ApiErrorView::ParseConfigFile(path)), Seq::empty()),
                    Some(config) => (Ok(config), Seq::empty()),
                }
            } else if w.path_env is Some {
                (Err(ApiErrorView::OpenConfigFile(path)), Seq::empty())
            } else {
                match (w.serialize)(default, profile is Debug) {
                    None => (Err(ApiErrorView::SerializeConfig), Seq::empty()),
                    Some(contents) => write_then(w, contents, default),
                }
            }
        },
    }
}

/// The loader, run from its start against any world, accepts every outcome
/// the world gives, finishes within six rounds, and finishes with the
/// configuration or error that the order of precedence
/// (`BENCHER_CONFIG`, then the file named by `BENCHER_CONFIG_PATH` or
/// `bencher.json`, then the defaults) gives, having written exactly the
/// files that `load_outcome` lists.
pub proof fn lemma_loader_follows_precedence(profile: BuildProfile, default: JsonConfig, w: LoadWorld)
    ensures
        load_run(profile, default, LoadStateView::AwaitConfigEnv, LoadActionView::ReadEnv(EnvVar::Config), w, 6)
            == (
                LoadActionView::Finish(load_outcome(profile, default, w).0),
                load_outcome(profile, default, w).1,
                true,
            ),
{
    reveal_with_fuel(load_run, 7);
}

/// The defaults that a first start writes are what the next start loads:
/// where neither environment variable is set and no `bencher.json` can be
/// read, the loader falls back to the defaults and writes their JSON text
/// to `bencher.json`; a second start in the same environment, where that
/// file now holds the UTF-8 encoding of that text, loads the same
/// configuration from it and writes nothing, provided the JSON parser
/// reads back from the file what the serializer wrote.
pub proof fn lemma_written_default_reloads(
    profile: BuildProfile,
    default: JsonConfig,
    w1: LoadWorld,
    w2: LoadWorld,
    text: Seq<char>,
)
    requires
        w1.config_env is None,
        w1.path_env is None,
        !w1.files.contains_key(DEFAULT_CONFIG_PATH@),
        (w1.serialize)(default, profile is Debug) == Some(text),
        (w1.writable)(DEFAULT_CONFIG_PATH@),
        w2.config_env is None,
        w2.path_env is None,
        w2.files == w1.files.insert(DEFAULT_CONFIG_PATH@, vstd::utf8::encode_utf8(text)),
        (w2.parse_bytes)(vstd::utf8::encode_utf8(text)) == Some(default),
    ensures
        load_outcome(profile, default, w1) == (
            Ok::<JsonConfig, ApiErrorView>(default),
            seq![(DEFAULT_CONFIG_PATH@, text)],
        ),
        load_outcome(profile, default, w2) == (
            Ok::<JsonConfig, ApiErrorView>(default),
            Seq::<(Seq<char>, Seq<char>)>::empty(),
        ),
{
}

/// Where neither environment variable is set and `bencher.json` cannot be
/// read, the loader of a default built from `key` hands back exactly that
/// library default, after writing its JSON text (pretty-printed in a debug
/// build) to `bencher.json`, where the serializer and the write succeed.
pub proof fn lemma_fallback_is_library_default(
    profile: BuildProfile,
    default: JsonConfig,
    w: LoadWorld,
    key: DefaultSecretKey,
    text: Seq<char>,
)
    requires
        profile == key.profile_of(),
        url_parse(DEFAULT_CONSOLE_URL_STR@) is Some,
        default@ == default_config_view(profile, url_parse(DEFAULT_CONSOLE_URL_STR@)->0, key.text()),
        w.config_env is None,
        w.path_env is None,
        !w.files.contains_key(DEFAULT_CONFIG_PATH@),
        (w.serialize)(default, profile is Debug) == Some(text),
        (w.writable)(DEFAULT_CONFIG_PATH@),
    ensures
        load_outcome(profile, default, w).0 matches Ok(c) && c@ == default_config_view(
            profile,
            url_parse(DEFAULT_CONSOLE_URL_STR@)->0,
            key.text(),
        ),
        load_outcome(profile, default, w).1 == seq![(DEFAULT_CONFIG_PATH@, text)],
{
}

enum LoadState {
    AwaitConfigEnv,
    AwaitEnvParse { text: String },
    AwaitPathEnv,
    AwaitFile { path: String, explicit: bool },
    AwaitFileParse { path: String },
    AwaitDefault,
    AwaitWritePath { config: Config, contents: String },
    AwaitWrite { config: Config, path: String },
    Finished,
}

impl View for LoadState {
    type V = LoadStateView;

    closed spec fn view(&self) -> LoadStateView {
        match self {
            LoadState::AwaitConfigEnv => LoadStateView::AwaitConfigEnv,
            LoadState::AwaitEnvParse { text } => LoadStateView::AwaitEnvParse { text: text@ },
            LoadState::AwaitPathEnv => LoadStateView::AwaitPathEnv,
            LoadState::AwaitFile { path, explicit } => LoadStateView::AwaitFile {
                path: path@,
                explicit: *explicit,
            },
            LoadState::AwaitFileParse { path } => LoadStateView::AwaitFileParse { path: path@ },
            LoadState::AwaitDefault => LoadStateView::AwaitDefault,
            LoadState::AwaitWritePath { config, contents } => LoadStateView::AwaitWritePath {
                config: config@,
                contents: contents@,
            },
            LoadState::AwaitWrite { config, path } => LoadStateView::AwaitWrite {
                config: config@,
                path: path@,
            },
            LoadState::Finished => LoadStateView::Finished,
        }
    }
}

/// Decides, step by step, where the configuration of the API server comes
/// from.
pub struct ConfigLoader {
    profile: BuildProfile,
    default: JsonConfig,
    state: LoadState,
}

/// A loader: the build it is for, the default configuration it falls back
/// to, and where it stands.
pub struct LoaderView {
    pub profile: BuildProfile,
    pub default: JsonConfig,
    pub state: LoadStateView,
}

impl View for ConfigLoader {
    type V = LoaderView;

    closed spec fn view(&self) -> LoaderView {
        LoaderView { profile: self.profile, default: self.default, state: self.state@ }
    }
}

impl ConfigLoader {
    /// A loader for the build that `key` was made for, falling back to the
    /// default configuration built from `key`, and its first action: read
    /// `BENCHER_CONFIG`. `None` where the URL parser refuses the default
    /// console address.
    pub fn start(key: &DefaultSecretKey) -> (res: Option<(ConfigLoader, LoadAction)>)
        ensures
            is_default_secret_key(key.profile_of(), key.text()),
            match res {
                None => url_parse(DEFAULT_CONSOLE_URL_STR@) is None,
                Some((loader, action)) => url_parse(DEFAULT_CONSOLE_URL_STR@) matches Some(url) && (
                    loader@.profile == key.profile_of()
                    && loader@.default@ == default_config_view(key.profile_of(), url, key.text())
                    && loader@.state == LoadStateView::AwaitConfigEnv
                    && action@ == LoadActionView::ReadEnv(EnvVar::Config)),
            },
    {
        match Config::default_for(key) {
            None => None,
            Some(default) => Some((
                ConfigLoader {
                    profile: key.profile(),
                    default: default.into_inner(),
                    state: LoadState::AwaitConfigEnv,
                },
                LoadAction::ReadEnv(EnvVar::Config),
            )),
        }
    }

    /// Whether the loader can take `event` now.
    pub fn accepts(&self, event: &LoadEvent) -> (b: bool)
        ensures
            b == load_accepts(self@.state, event@),
    {
        match (&self.state, event) {
            (LoadState::AwaitConfigEnv, LoadEvent::EnvValue(_)) => true,
            (LoadState::AwaitEnvParse { .. }, LoadEvent::Parsed(_)) => true,
            (LoadState::AwaitPathEnv, LoadEvent::EnvValue(_)) => true,
            (LoadState::AwaitFile { .. }, LoadEvent::FileRead(_)) => true,
            (LoadState::AwaitFileParse { .. }, LoadEvent::Parsed(_)) => true,
            (LoadState::AwaitDefault, LoadEvent::Serialized(_)) => true,
            (LoadState::AwaitWritePath { .. }, LoadEvent::EnvValue(_)) => true,
            (LoadState::AwaitWrite { .. }, LoadEvent::Written(_)) => true,
            _ => false,
        }
    }

    /// Takes the outcome of the last action and gives the next action.
    pub fn step(self, event: LoadEvent) -> (res: (ConfigLoader, LoadAction))
        requires
            load_accepts(self@.state, event@),
        ensures
            res.0@.profile == self@.profile,
            res.0@.default == self@.default,
            (res.0@.state, res.1@) == load_next(self@.profile, self@.default, self@.state, event@),
    {
        let profile = self.profile;
        let (state, action) = match self.state {
            LoadState::AwaitConfigEnv => match event {
                LoadEvent::EnvValue(Some(text)) => {
                    let parse_text = text.clone();
                    (LoadState::AwaitEnvParse { text }, LoadAction::ParseEnv { text: parse_text })
                },
                _ => (LoadState::AwaitPathEnv, LoadAction::ReadEnv(EnvVar::ConfigPath)),
            },
            LoadState::AwaitEnvParse { text } => match event {
                LoadEvent::Parsed(Some(json)) => {
                    let config = Config::from_json(json);
                    match profile {
                        BuildProfile::Debug => (
                            LoadState::AwaitWritePath { config, contents: text },
                            LoadAction::ReadEnv(EnvVar::ConfigPath),
                        ),
                        BuildProfile::Release => (LoadState::Finished, LoadAction::Finish(Ok(config))),
                    }
                },
                _ => (
                    LoadState::Finished,
                    LoadAction::Finish(Err(ApiError::ParseConfigString(text))),
                ),
            },
            LoadState::AwaitPathEnv => {
                let path_env = match event {
                    LoadEvent::EnvValue(path_env) => path_env,
                    _ => None,
                };
                let explicit = path_env.is_some();
                let path = config_path_of(path_env);
                let read_path = path.clone();
                (LoadState::AwaitFile { path, explicit }, LoadAction::ReadFile { path: read_path })
            },
            LoadState::AwaitFile { path, explicit } => match event {
                LoadEvent::FileRead(Some(bytes)) => (
                    LoadState::AwaitFileParse { path },
                    LoadAction::ParseFile { bytes },
                ),
                _ => {
                    if explicit {
                        (LoadState::Finished, LoadAction::Finish(Err(ApiError::OpenConfigFile(path))))
                    } else {
                        let pretty = match profile {
                            BuildProfile::Debug => true,
                            BuildProfile::Release => false,
                        };
                        (
                            LoadState::AwaitDefault,
                            LoadAction::SerializeDefault { config: copy_json_config(&self.default), pretty },
                        )
                    }
                },
            },
            LoadState::AwaitFileParse { path } => match event {
                LoadEvent::Parsed(Some(json)) => (
                    LoadState::Finished,
                    LoadAction::Finish(Ok(Config::from_json(json))),
                ),
                _ => (LoadState::Finished, LoadAction::Finish(Err(ApiError::ParseConfigFile(path)))),
            },
            LoadState::AwaitDefault => match event {
                LoadEvent::Serialized(Some(contents)) => (
                    LoadState::AwaitWritePath {
                        config: Config::from_json(copy_json_config(&self.default)),
                        contents,
                    },
                    LoadAction::ReadEnv(EnvVar::ConfigPath),
                ),
                _ => (LoadState::Finished, LoadAction::Finish(Err(ApiError::SerializeConfig))),
            },
            LoadState::AwaitWritePath { config, contents } => {
                let path = match event {
                    LoadEvent::EnvValue(path_env) => config_path_of(path_env),
                    _ => DEFAULT_CONFIG_PATH.to_owned(),
                };
                let write_path = path.clone();
                (LoadState::AwaitWrite { config, path }, LoadAction::WriteFile { path: write_path, contents })
            },
            LoadState::AwaitWrite { config, path } => match event {
                LoadEvent::Written(true) => (LoadState::Finished, LoadAction::Finish(Ok(config))),
                _ => (LoadState::Finished, LoadAction::Finish(Err(ApiError::WriteConfigFile(path)))),
            },
            LoadState::Finished => (LoadState::Finished, LoadAction::Finish(Err(ApiError::SerializeConfig))),
        };
        (ConfigLoader { profile, default: self.default, state }, action)
    }
}

} // verus!
