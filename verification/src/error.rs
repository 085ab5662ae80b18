//! The error taxonomy shared by every component.
//!
//! Heterogeneous failure sources (store driver, configuration, identifier
//! parsing, timestamp handling) are unified at the boundary where they arise
//! into exactly one of these kinds, carrying the underlying message as
//! context. No kind is retried automatically.

use vstd::prelude::*;
use vstd::string::StringExecFns;

verus! {

/// A closed set of domain error kinds.
///
/// `Model` marks a malformed or invalid domain value, `Repo` a query or
/// connection failure from the underlying store, `Server` a failure surfaced
/// from the request-handling boundary, `Config` a configuration load or parse
/// failure, and `Unspecified` is the catch-all.
#[derive(Debug)]
pub enum Error {
    Model(String),
    Repo(String),
    Server(String),
    Config(String),
    Unspecified(String),
}

impl Error {
    /// The message carried by the error, without its kind prefix.
    pub open spec fn message_spec(&self) -> Seq<char> {
        match self {
            Error::Model(m) => m@,
            Error::Repo(m) => m@,
            Error::Server(m) => m@,
            Error::Config(m) => m@,
            Error::Unspecified(m) => m@,
        }
    }

    /// The human-readable prefix that names the error's kind.
    pub open spec fn prefix_spec(&self) -> Seq<char> {
        match self {
            Error::Model(m) => "Model error: "@,
            Error::Repo(m) => "Repo error: "@,
            Error::Server(m) => "Server error: "@,
            Error::Config(m) => "Config error: "@,
            Error::Unspecified(m) => "Unspecified error: "@,
        }
    }

    /// Wraps a bare message as the catch-all kind.
    pub fn new(message: String) -> (e: Error)
        ensures
            e == Error::Unspecified(message),
    {
        Error::Unspecified(message)
    }

    /// Renders the error as its kind prefix followed by its message.
    pub fn to_message(&self) -> (s: String)
        ensures
            s@ == self.prefix_spec() + self.message_spec(),
    {
        match self {
            Error::Model(m) => String::from_str("Model error: ").concat(m.as_str()),
            Error::Repo(m) => String::from_str("Repo error: ").concat(m.as_str()),
            Error::Server(m) => String::from_str("Server error: ").concat(m.as_str()),
            Error::Config(m) => String::from_str("Config error: ").concat(m.as_str()),
            Error::Unspecified(m) => String::from_str("Unspecified error: ").concat(m.as_str()),
        }
    }
}

} // verus!
