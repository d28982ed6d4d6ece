//! The application's configuration file, as values.
use vstd::prelude::*;
use crate::utils::path::{join, joined};
use crate::utils::text::{has_prefix, push_str, same_text, starts_with};

verus! {

/// Where the disk service and its OAuth service live, and the application's credentials.
#[derive(Debug, Clone)]
pub struct Api {
    pub api_url: String,
    pub oauth_url: String,
    pub client_id: String,
    pub client_secret: String,
}

/// The page where the user grants the application access to the disk.
pub open spec fn auth_link_text(oauth_url: Seq<char>, client_id: Seq<char>) -> Seq<char> {
    oauth_url + "/authorize?response_type=code&client_id="@ + client_id
}

impl Api {
    /// `<oauth_url>/authorize?response_type=code&client_id=<client_id>`.
    pub fn auth_link(&self) -> (r: String)
        ensures
            r@ == auth_link_text(self.oauth_url@, self.client_id@),
    {
        let mut out = self.oauth_url.clone();
        push_str(&mut out, "/authorize?response_type=code&client_id=");
        push_str(&mut out, self.client_id.as_str());
        out
    }
}

/// The declaration that lets `log`'s verbosity filter stand in signatures. Its six
/// variants carry no fields, so the declaration exposes nothing but their names.
#[verifier::external_type_specification]
pub struct ExLevelFilter(log::LevelFilter);

/// How much the application logs.
#[derive(Debug, Clone, Copy, PartialEq, Eq, Structural)]
pub enum DebugLevel {
    Info,
    Debug,
}

/// The level written `input` in the configuration, if it is one.
pub open spec fn level_named(input: Seq<char>) -> Option<DebugLevel> {
    if input == "info"@ {
        Some(DebugLevel::Info)
    } else if input == "debug"@ {
        Some(DebugLevel::Debug)
    } else {
        None
    }
}

impl DebugLevel {
    /// The `log` filter that lets messages of this level through.
    pub fn to_level_filter(&self) -> (r: log::LevelFilter)
        ensures
            *self is Info ==> r == log::LevelFilter::Info,
            *self is Debug ==> r == log::LevelFilter::Debug,
    {
        match self {
            DebugLevel::Info => log::LevelFilter::Info,
            DebugLevel::Debug => log::LevelFilter::Debug,
        }
    }

    /// Reads a level: `info` or `debug`; any other text is refused with
    /// `Invalid debug level <text>`.
    pub fn parse(input: &str) -> (r: Result<DebugLevel, String>)
        ensures
            level_named(input@) matches Some(l) ==> r == Ok::<DebugLevel, String>(l),
            level_named(input@) is None ==> (r matches Err(m) && m@ == "Invalid debug level "@
                + input@),
    {
        if same_text(input, "info") {
            Ok(DebugLevel::Info)
        } else if same_text(input, "debug") {
            Ok(DebugLevel::Debug)
        } else {
            let mut m = String::from_str("Invalid debug level ");
            push_str(&mut m, input);
            Err(m)
        }
    }
}

impl std::str::FromStr for DebugLevel {
    type Err = String;

    fn from_str(input: &str) -> (r: Result<DebugLevel, String>)
        ensures
            level_named(input@) matches Some(l) ==> r == Ok::<DebugLevel, String>(l),
            level_named(input@) is None ==> (r matches Err(m) && m@ == "Invalid debug level "@
                + input@),
    {
        DebugLevel::parse(input)
    }
}

/// General settings: interface language, the local directory kept in sync with the
/// disk, the log level, and where downloads and logs are staged.
#[derive(Debug, Clone)]
pub struct Main {
    pub lang: String,
    pub sync_dir_path: String,
    pub log_level: DebugLevel,
    pub cache_dir_path: String,
}

/// Where the metadata database lives, relative to the home directory.
#[derive(Debug, Clone)]
pub struct MetaDb {
    pub path: String,
}

/// The whole configuration.
#[derive(Debug, Clone)]
pub struct Config {
    pub api: Api,
    pub meta_db: MetaDb,
    pub main: Main,
}

/// Where the configuration file is read: a path under `/home/` as given, any other path
/// relative to the home directory; without a home directory there is none.
pub open spec fn real_config_path_of(path: Seq<char>, home: Option<Seq<char>>) -> Option<Seq<char>> {
    if starts_with(path, "/home/"@) {
        Some(path)
    } else {
        match home {
            Some(h) => Some(joined(h, path)),
            None => None,
        }
    }
}

/// The home directory as text, when there is one.
pub open spec fn home_text(home: Option<&str>) -> Option<Seq<char>> {
    match home {
        Some(h) => Some(h@),
        None => None,
    }
}

/// Where the configuration file is read (see `real_config_path_of`).
pub fn real_config_path(path: &str, home: Option<&str>) -> (r: Option<String>)
    ensures
        r is None <==> real_config_path_of(path@, home_text(home)) is None,
        r matches Some(p) ==> real_config_path_of(path@, home_text(home)) == Some(p@),
{
    if has_prefix(path, "/home/") {
        Some(String::from_str(path))
    } else {
        match home {
            Some(h) => Some(join(h, path)),
            None => None,
        }
    }
}

}
