//! The tool's configuration file, written in TOML. It holds no settings yet:
//! a missing file gives the defaults, a file must be a TOML document.
use crate::error::{Error, ErrorKind};
use vstd::prelude::*;

verus! {

/// Settings read from the configuration file.
#[derive(Debug)]
pub struct Config {}

impl Default for Config {
    fn default() -> (c: Self)
        ensures
            c == (Config {}),
    {
        Config {}
    }
}

/// What `toml` reports for a text that is not a TOML document (its error,
/// as displayed), or nothing for one that is.
pub uninterp spec fn toml_error(text: Seq<char>) -> Option<Seq<char>>;

/// `toml::from_str` into a table: nothing when the text is a TOML document,
/// else the error's text. The verdict and the text are those of `toml` on
/// this text, named `toml_error`.
#[verifier::external_body]
fn parse_toml_document(text: &str) -> (r: Option<String>)
    ensures
        match r {
            Some(m) => toml_error(text@) == Some(m@),
            None => toml_error(text@) is None,
        },
{
    match toml::from_str::<toml::Table>(text) {
        Ok(_) => None,
        Err(e) => Some(e.to_string()),
    }
}

/// The configuration a file's text gives: the defaults for a TOML document,
/// else a `Config` error carrying what `toml` reported.
pub fn config_from_toml(content: &str) -> (r: Result<Config, Error>)
    ensures
        match r {
            Ok(c) => toml_error(content@) is None && c == (Config {}),
            Err(e) => toml_error(content@) matches Some(m) && e@ == (ErrorKind::Config, m),
        },
{
    match parse_toml_document(content) {
        None => Ok(Config::default()),
        Some(m) => Err(Error::Config(m)),
    }
}

/// The configuration from the file's text, or the defaults when there is no
/// file (`content` is `None`).
pub fn load_config(content: Option<&str>) -> (r: Result<Config, Error>)
    ensures
        match content {
            None => r matches Ok(c) && c == (Config {}),
            Some(t) => match r {
                Ok(c) => toml_error(t@) is None && c == (Config {}),
                Err(e) => toml_error(t@) matches Some(m) && e@ == (ErrorKind::Config, m),
            },
        },
{
    match content {
        None => Ok(Config::default()),
        Some(t) => config_from_toml(t),
    }
}

} // verus!
