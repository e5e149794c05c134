//! Configuration read from a JSON file. Reading and parsing the file is the
//! caller's; this provider holds the result.
use vstd::prelude::*;

use crate::config::{Config, ConfigProvider, ConfigView};

verus! {

/// Why the configuration could not be had from the JSON file. Each variant
/// carries the text of the underlying error, or the path that was not found.
#[derive(Debug, PartialEq, Eq)]
pub enum Error {
    Read(String),
    Write(String),
    Parse(String),
    NotFound(String),
}

/// The text that a configuration error shows to a user.
pub open spec fn error_message(e: Error) -> Seq<char> {
    match e {
        Error::Read(m) => "Config file read error: "@ + m@,
        Error::Write(m) => "Config file write error: "@ + m@,
        Error::Parse(m) => "Config parse error: "@ + m@,
        Error::NotFound(p) => "Config file not found at path: "@ + p@,
    }
}

/// The text of a configuration error ends with the text of its cause (or the
/// path that was not found), and the four kinds read differently.
pub proof fn lemma_error_message_ends_with_cause(e: Error)
    ensures
        match e {
            Error::Read(m) | Error::Write(m) | Error::Parse(m) | Error::NotFound(m) => {
                &&& error_message(e).len() > m@.len()
                &&& error_message(e).skip(error_message(e).len() - m@.len()) == m@
            },
        },
        match e {
            Error::Read(_) => error_message(e)[12] == 'r',
            Error::Write(_) => error_message(e)[12] == 'w',
            Error::Parse(_) => error_message(e)[7] == 'p',
            Error::NotFound(_) => error_message(e)[12] == 'n',
        },
{
    reveal_strlit("Config file read error: ");
    reveal_strlit("Config file write error: ");
    reveal_strlit("Config parse error: ");
    reveal_strlit("Config file not found at path: ");
    match e {
        Error::Read(m) | Error::Write(m) | Error::Parse(m) | Error::NotFound(m) => {
            let t = error_message(e);
            assert(t.skip(t.len() - m@.len()) =~= m@);
        },
    }
}

impl Error {
    /// The text shown for this error.
    pub fn message(&self) -> (s: String)
        ensures
            s@ == error_message(*self),
    {
        match self {
            Error::Read(m) => String::from_str("Config file read error: ").concat(m.as_str()),
            Error::Write(m) => String::from_str("Config file write error: ").concat(m.as_str()),
            Error::Parse(m) => String::from_str("Config parse error: ").concat(m.as_str()),
            Error::NotFound(p) => String::from_str("Config file not found at path: ").concat(
                p.as_str(),
            ),
        }
    }
}

/// The configuration read from the JSON file at `path`.
#[derive(Debug)]
pub struct JsonConfigProvider {
    path: String,
    config: Config,
}

impl JsonConfigProvider {
    /// The path of the file the configuration was read from.
    pub closed spec fn spec_path(&self) -> Seq<char> {
        self.path@
    }

    /// The configuration that was read.
    pub closed spec fn spec_config(&self) -> ConfigView {
        self.config@
    }

    /// The provider for the configuration `config` read from `path`.
    pub fn from_config(path: String, config: Config) -> (p: Self)
        ensures
            p.spec_path() == path@,
            p.spec_config() == config@,
    {
        JsonConfigProvider { path, config }
    }

    /// The path of the file the configuration was read from.
    pub fn path(&self) -> (p: &String)
        ensures
            p@ == self.spec_path(),
    {
        &self.path
    }
}

impl ConfigProvider for JsonConfigProvider {
    type Error = Error;

    /// The configuration that was read, every time.
    fn get(&self) -> (r: Result<Config, Error>)
        ensures
            r matches Ok(c) && c@ == self.spec_config(),
    {
        Ok(self.config.clone())
    }
}

} // verus!
