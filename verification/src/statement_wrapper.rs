//! One slot of the statement cache: the literal query text, and the compiled
//! handle once the slot has been prepared.
//!
//! A slot moves from unprepared to prepared at most once — there is no way to
//! re-prepare or invalidate it — and accessing an unprepared slot is reported
//! as a `Repo` error, never a fatal condition.

use vstd::prelude::*;
use vstd::string::StringExecFns;

use crate::error::Error;

verus! {

pub struct StatementWrapper {
    text: String,
    prepared: Option<tokio_postgres::Statement>,
}

impl StatementWrapper {
    /// The literal query text.
    pub closed spec fn text_spec(&self) -> Seq<char> {
        self.text@
    }

    /// Whether the compiled handle is present.
    pub closed spec fn is_prepared(&self) -> bool {
        self.prepared is Some
    }

    /// The compiled handle, when present.
    pub closed spec fn handle_spec(&self) -> Option<tokio_postgres::Statement> {
        self.prepared
    }

    /// A fresh, unprepared slot holding the literal query text.
    pub fn new(text: &str) -> (w: StatementWrapper)
        ensures
            w.text_spec() == text@,
            !w.is_prepared(),
    {
        StatementWrapper { text: String::from_str(text), prepared: None }
    }

    /// The literal query text, to be submitted for compilation.
    pub fn get(&self) -> (t: &str)
        ensures
            t@ == self.text_spec(),
    {
        self.text.as_str()
    }

    /// The compiled handle; a `Repo` error exactly when the slot was never
    /// prepared.
    pub fn get_prepared(&self) -> (r: Result<&tokio_postgres::Statement, Error>)
        ensures
            self.is_prepared() ==> (r matches Ok(s) && Some(*s) == self.handle_spec()),
            !self.is_prepared() ==> (r matches Err(e) && e is Repo),
    {
        match &self.prepared {
            Some(s) => Ok(s),
            None => Err(
                Error::Repo(String::from_str("the statement slot was never prepared")),
            ),
        }
    }

    /// Installs the compiled handle. The transition is one-way: a slot that
    /// is already prepared refuses the new handle with a `Repo` error and is
    /// left as it was.
    pub fn prepare(&mut self, handle: tokio_postgres::Statement) -> (r: Result<(), Error>)
        ensures
            final(self).text_spec() == old(self).text_spec(),
            !old(self).is_prepared() ==> r is Ok && final(self).is_prepared()
                && final(self).handle_spec() == Some(handle),
            old(self).is_prepared() ==> (r matches Err(e) && e is Repo)
                && *final(self) == *old(self),
    {
        if self.prepared.is_some() {
            Err(Error::Repo(String::from_str("the statement slot is already prepared")))
        } else {
            self.prepared = Some(handle);
            Ok(())
        }
    }
}

} // verus!
