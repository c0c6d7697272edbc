//! Settings of the report worker: document store, job queue store, merchant
//! tag store and untagged merchant store.

use vstd::prelude::*;
use crate::settings::{
    ConfigError, toml_error, toml_error_of, toml_text_at, text_setting, check_toml_path,
    is_toml_path,
};

verus! {

#[derive(Clone, Debug, PartialEq, Eq)]
pub struct Database {
    pub url: String,
}

#[derive(Clone, Debug, PartialEq, Eq)]
pub struct Redis {
    pub url: String,
}

#[derive(Clone, Debug, PartialEq, Eq)]
pub struct TagsDB {
    pub url: String,
}

#[derive(Clone, Debug, PartialEq, Eq)]
pub struct UntaggedDB {
    pub url: String,
}

#[derive(Clone, Debug, PartialEq, Eq)]
pub struct Config {
    pub db: Database,
    pub redis: Redis,
    pub tags_db: TagsDB,
    pub untagged_db: UntaggedDB,
}

/// The document parses and holds every setting.
pub open spec fn loads(doc: Seq<char>) -> bool {
    &&& toml_error_of(doc) is None
    &&& toml_text_at(doc, "db"@, "url"@) is Some
    &&& toml_text_at(doc, "redis"@, "url"@) is Some
    &&& toml_text_at(doc, "tags_db"@, "url"@) is Some
    &&& toml_text_at(doc, "untagged_db"@, "url"@) is Some
}

/// `c` holds the settings that the document gives.
pub open spec fn holds(c: Config, doc: Seq<char>) -> bool {
    &&& toml_text_at(doc, "db"@, "url"@) == Some(c.db.url@)
    &&& toml_text_at(doc, "redis"@, "url"@) == Some(c.redis.url@)
    &&& toml_text_at(doc, "tags_db"@, "url"@) == Some(c.tags_db.url@)
    &&& toml_text_at(doc, "untagged_db"@, "url"@) == Some(c.untagged_db.url@)
}

/// Reads the settings from the text of a TOML document.
pub fn init_config_from_str(doc: &str) -> (r: Result<Config, ConfigError>)
    ensures
        r is Ok <==> loads(doc@),
        r matches Ok(c) ==> holds(c, doc@),
        toml_error_of(doc@) matches Some(m) ==> (r matches Err(ConfigError::Syntax(e)) && e@ == m),
{
    if let Some(m) = toml_error(doc) {
        return Err(ConfigError::Syntax(m));
    }
    let db = text_setting(doc, "db", "url")?;
    let redis = text_setting(doc, "redis", "url")?;
    let tags = text_setting(doc, "tags_db", "url")?;
    let untagged = text_setting(doc, "untagged_db", "url")?;
    Ok(Config {
        db: Database { url: db },
        redis: Redis { url: redis },
        tags_db: TagsDB { url: tags },
        untagged_db: UntaggedDB { url: untagged },
    })
}

/// Loads the settings from a configuration file, given its name and its
/// contents; only TOML files are understood.
pub fn init_config_from_file(path: &str, contents: &str) -> (r: Result<Config, ConfigError>)
    ensures
        r is Ok <==> is_toml_path(path@) && loads(contents@),
        r matches Ok(c) ==> holds(c, contents@),
        !is_toml_path(path@) ==> r matches Err(ConfigError::UnsupportedFormat(_)),
{
    check_toml_path(path)?;
    init_config_from_str(contents)
}

} // verus!
