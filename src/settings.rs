//! Reading settings out of a TOML document.

use vstd::prelude::*;

verus! {

/// The message of the parse error of a TOML document, if it does not parse.
pub uninterp spec fn toml_error_of(doc: Seq<char>) -> Option<Seq<char>>;

/// The string at key `key` of table `[section]` of a TOML document, if the
/// document parses and holds a string there.
pub uninterp spec fn toml_text_at(doc: Seq<char>, section: Seq<char>, key: Seq<char>) -> Option<Seq<char>>;

/// The integer at key `key` of table `[section]` of a TOML document, if the
/// document parses and holds an integer there.
pub uninterp spec fn toml_integer_at(doc: Seq<char>, section: Seq<char>, key: Seq<char>) -> Option<i64>;

/// Relies on toml's parser (`toml::Table`'s `FromStr`) and its error's
/// `message`.
#[verifier::external_body]
pub(crate) fn toml_error(doc: &str) -> (r: Option<String>)
    ensures
        r matches Some(m) ==> toml_error_of(doc@) == Some(m@),
        r is None ==> toml_error_of(doc@) is None,
{
    match doc.parse::<toml::Table>() {
        Ok(_) => None,
        Err(e) => Some(e.message().to_string()),
    }
}

/// Relies on toml's parser (`toml::Table`'s `FromStr`), `Map::get`,
/// `Value::get` and `Value::as_str`.
#[verifier::external_body]
pub(crate) fn toml_text(doc: &str, section: &str, key: &str) -> (r: Option<String>)
    ensures
        r matches Some(s) ==> toml_text_at(doc@, section@, key@) == Some(s@),
        r is None ==> toml_text_at(doc@, section@, key@) is None,
{
    match doc.parse::<toml::Table>() {
        Ok(t) => match t.get(section) {
            Some(v) => match v.get(key) {
                Some(x) => x.as_str().map(String::from),
                None => None,
            },
            None => None,
        },
        Err(_) => None,
    }
}

/// Relies on toml's parser (`toml::Table`'s `FromStr`), `Map::get`,
/// `Value::get` and `Value::as_integer`.
#[verifier::external_body]
pub(crate) fn toml_integer(doc: &str, section: &str, key: &str) -> (r: Option<i64>)
    ensures
        r == toml_integer_at(doc@, section@, key@),
{
    match doc.parse::<toml::Table>() {
        Ok(t) => match t.get(section) {
            Some(v) => match v.get(key) {
                Some(x) => x.as_integer(),
                None => None,
            },
            None => None,
        },
        Err(_) => None,
    }
}

/// Why a configuration could not be loaded.
#[derive(Clone, Debug, PartialEq, Eq)]
pub enum ConfigError {
    /// The file is not a TOML file.
    UnsupportedFormat(String),
    /// The document is not valid TOML; the parser's message.
    Syntax(String),
    /// A required setting is absent or of the wrong type; its dotted name.
    Missing(String),
    /// A setting is out of range; its dotted name.
    OutOfRange(String),
}

/// The dotted name of a setting.
pub open spec fn dotted(section: Seq<char>, key: Seq<char>) -> Seq<char> {
    section + "."@ + key
}

/// The text setting `[section] key`, or `Missing` naming it.
pub fn text_setting(doc: &str, section: &str, key: &str) -> (r: Result<String, ConfigError>)
    ensures
        r matches Ok(s) ==> toml_text_at(doc@, section@, key@) == Some(s@),
        r is Err ==> toml_text_at(doc@, section@, key@) is None,
        r is Err ==> (r matches Err(ConfigError::Missing(m)) && m@ == dotted(section@, key@)),
{
    match toml_text(doc, section, key) {
        Some(s) => Ok(s),
        None => Err(ConfigError::Missing(crate::text::concat3(section, ".", key))),
    }
}

/// Whether a file name has the `.toml` extension.
pub open spec fn is_toml_path(path: Seq<char>) -> bool {
    path.len() >= 5 && path.subrange(path.len() - 5, path.len() as int) == ".toml"@
}

/// Checks that a configuration file is a TOML file.
pub fn check_toml_path(path: &str) -> (r: Result<(), ConfigError>)
    ensures
        r is Ok <==> is_toml_path(path@),
        r matches Err(e) ==> (e matches ConfigError::UnsupportedFormat(p) && p@ == path@),
{
    proof {
        reveal_strlit(".toml");
    }
    let n = path.unicode_len();
    if n >= 5 && crate::text::matches_at(path, ".toml", n - 5) {
        Ok(())
    } else {
        Err(ConfigError::UnsupportedFormat(String::from_str(path)))
    }
}

} // verus!
