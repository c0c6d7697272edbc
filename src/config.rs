//! Settings of the web service: document store, job queue store, listening
//! address and merchant tag store.

use vstd::prelude::*;
use crate::settings::{
    ConfigError, toml_error, toml_error_of, toml_text_at, toml_integer, toml_integer_at,
    text_setting, check_toml_path, is_toml_path,
};

verus! {

#[derive(Clone, Debug, PartialEq, Eq)]
pub struct Database {
    pub url: String,
}

#[derive(Clone, Debug, PartialEq, Eq)]
pub struct Redis {
    pub url: String,
}

#[derive(Clone, Debug, PartialEq, Eq)]
pub struct Server {
    pub host: String,
    pub port: u16,
}

#[derive(Clone, Debug, PartialEq, Eq)]
pub struct TagsDB {
    pub url: String,
}

#[derive(Clone, Debug, PartialEq, Eq)]
pub struct Config {
    pub db: Database,
    pub redis: Redis,
    pub server: Server,
    pub tags_db: TagsDB,
}

/// The document parses and holds every setting, with a port in range.
pub open spec fn loads(doc: Seq<char>) -> bool {
    &&& toml_error_of(doc) is None
    &&& toml_text_at(doc, "db"@, "url"@) is Some
    &&& toml_text_at(doc, "redis"@, "url"@) is Some
    &&& toml_text_at(doc, "server"@, "host"@) is Some
    &&& toml_integer_at(doc, "server"@, "port"@) matches Some(p) && 0 <= p <= u16::MAX
    &&& toml_text_at(doc, "tags_db"@, "url"@) is Some
}

/// `c` holds the settings that the document gives.
pub open spec fn holds(c: Config, doc: Seq<char>) -> bool {
    &&& toml_text_at(doc, "db"@, "url"@) == Some(c.db.url@)
    &&& toml_text_at(doc, "redis"@, "url"@) == Some(c.redis.url@)
    &&& toml_text_at(doc, "server"@, "host"@) == Some(c.server.host@)
    &&& toml_integer_at(doc, "server"@, "port"@) == Some(c.server.port as i64)
    &&& toml_text_at(doc, "tags_db"@, "url"@) == Some(c.tags_db.url@)
}

/// Reads the settings from the text of a TOML document.
pub fn init_config_from_str(doc: &str) -> (r: Result<Config, ConfigError>)
    ensures
        r is Ok <==> loads(doc@),
        r matches Ok(c) ==> holds(c, doc@),
        toml_error_of(doc@) matches Some(m) ==> (r matches Err(ConfigError::Syntax(e)) && e@ == m),
{
    if let Some(m) = toml_error(doc) {
        return Err(ConfigError::Syntax(m));
    }
    let db = text_setting(doc, "db", "url")?;
    let redis = text_setting(doc, "redis", "url")?;
    let host = text_setting(doc, "server", "host")?;
    let port = match toml_integer(doc, "server", "port") {
        Some(p) => p,
        None => return Err(ConfigError::Missing(String::from_str("server.port"))),
    };
    if port < 0 || port > u16::MAX as i64 {
        return Err(ConfigError::OutOfRange(String::from_str("server.port")));
    }
    let tags = text_setting(doc, "tags_db", "url")?;
    Ok(Config {
        db: Database { url: db },
        redis: Redis { url: redis },
        server: Server { host, port: port as u16 },
        tags_db: TagsDB { url: tags },
    })
}

/// Loads the settings from a configuration file, given its name and its
/// contents; only TOML files are understood.
pub fn init_config(path: &str, contents: &str) -> (r: Result<Config, ConfigError>)
    ensures
        r is Ok <==> is_toml_path(path@) && loads(contents@),
        r matches Ok(c) ==> holds(c, contents@),
        !is_toml_path(path@) ==> r matches Err(ConfigError::UnsupportedFormat(_)),
{
    check_toml_path(path)?;
    init_config_from_str(contents)
}

} // verus!
