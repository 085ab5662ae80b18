//! The configuration a repository is constructed from: the connection
//! string that the transport layer consumes when it opens the connection.

use vstd::prelude::*;

verus! {

pub struct RepositoryConfig {
    connection_string: String,
}

impl RepositoryConfig {
    /// The connection string, for use in specifications.
    pub closed spec fn connection_string_spec(&self) -> Seq<char> {
        self.connection_string@
    }

    /// Holds the given connection string.
    pub fn new(connection_string: String) -> (c: RepositoryConfig)
        ensures
            c.connection_string_spec() == connection_string@,
    {
        RepositoryConfig { connection_string }
    }

    /// The connection string, handed to the component that opens the
    /// transport.
    pub fn connection_string(&self) -> (s: &str)
        ensures
            s@ == self.connection_string_spec(),
    {
        self.connection_string.as_str()
    }
}

} // verus!
