//! The user record: one of the data shapes moved across the store boundary.

use vstd::prelude::*;
use vstd::string::StringExecFns;

use crate::clock::now_unix;
use crate::entity::Entity;
use crate::error::Error;
use crate::repository::Record;
use crate::row::{row_cols, row_len, row_try_id, row_try_stamp, row_try_text, SqlValue};

verus! {

/// A user. `created` is set at construction and immutable; `updated` is
/// absent until the store first updates the record, and from then on it is
/// never before `created`.
#[derive(Debug)]
pub struct User {
    pub id: u128,
    pub name: String,
    pub created: i64,
    pub updated: Option<i64>,
}

impl Entity for User {
    open spec fn id_spec(&self) -> u128 {
        self.id
    }

    fn get_id(&self) -> u128 {
        self.id
    }
}

impl Clone for User {
    /// A clone is equal to the original in every field.
    fn clone(&self) -> (u: Self)
        ensures
            u == *self,
    {
        User {
            id: self.id,
            name: self.name.clone(),
            created: self.created,
            updated: self.updated,
        }
    }
}

impl Record for User {
    open spec fn created_spec(&self) -> i64 {
        self.created
    }

    open spec fn updated_spec(&self) -> Option<i64> {
        self.updated
    }

    open spec fn merged_spec(&self, src: &Self, stamp: i64) -> Self {
        User { id: self.id, name: src.name, created: self.created, updated: Some(stamp) }
    }

    fn created(&self) -> i64 {
        self.created
    }

    fn cloned(&self) -> Self {
        self.clone()
    }

    /// An update replaces the name; identity and creation time are kept,
    /// and the update stamp is set.
    fn merged(&self, src: &Self, stamp: i64) -> Self {
        User { id: self.id, name: src.name.clone(), created: self.created, updated: Some(stamp) }
    }

    proof fn lemma_merged(&self, src: &Self, stamp: i64) {
    }
}

impl User {
    /// Well-formedness: the update stamp, when present, is not before the
    /// creation time.
    pub open spec fn wf(&self) -> bool {
        match self.updated {
            Some(u) => u >= self.created,
            None => true,
        }
    }

    /// Constructs a user under the given identifier, with the creation time
    /// read from the clock and no update stamp.
    pub fn new(id: u128, name: String) -> (u: User)
        ensures
            u.id == id,
            u.name == name,
            u.updated is None,
            u.wf(),
    {
        User { id, name, created: now_unix(), updated: None }
    }

    /// Maps one row, read as its column values, to a user: the columns are,
    /// in order, the identifier, the name, the creation timestamp
    /// (non-null), and the update stamp (nullable); a row of any other
    /// shape, or one whose update stamp lies before its creation time, maps
    /// to nothing.
    pub open spec fn from_cols(s: Seq<SqlValue>) -> Option<User> {
        if s.len() == 4 {
            match (s[0], s[1], s[2], s[3]) {
                (
                    SqlValue::Id(id),
                    SqlValue::Text(name),
                    SqlValue::Stamp(Some(created)),
                    SqlValue::Stamp(updated),
                ) => {
                    if (match updated {
                        Some(u) => u >= created,
                        None => true,
                    }) {
                        Some(User { id, name, created, updated })
                    } else {
                        None
                    }
                },
                _ => None,
            }
        } else {
            None
        }
    }

    /// Maps a store row to a user, positionally per column. A row that does
    /// not have the user shape is rejected as a `Model` error.
    pub fn from_row(row: &tokio_postgres::Row) -> (r: Result<User, Error>)
        ensures
            User::from_cols(row_cols(*row)) matches Some(u) ==> r == Ok::<User, Error>(u),
            r matches Ok(u) ==> User::from_cols(row_cols(*row)) == Some(u) && u.wf(),
            r matches Err(e) ==> e is Model && User::from_cols(row_cols(*row)) is None,
    {
        let n = row_len(row);
        if n != 4 {
            return Err(Error::Model(String::from_str("a user row must have exactly four columns")));
        }
        let id = match row_try_id(row, 0) {
            Some(v) => v,
            None => {
                return Err(
                    Error::Model(String::from_str("the id column of a user row must be a UUID")),
                );
            },
        };
        let name = match row_try_text(row, 1) {
            Some(v) => v,
            None => {
                return Err(
                    Error::Model(String::from_str("the name column of a user row must be a text")),
                );
            },
        };
        let created = match row_try_stamp(row, 2) {
            Some(Some(c)) => c,
            Some(None) => {
                return Err(
                    Error::Model(
                        String::from_str("the created column of a user row must not be null"),
                    ),
                );
            },
            None => {
                return Err(
                    Error::Model(
                        String::from_str("the created column of a user row must be a timestamp"),
                    ),
                );
            },
        };
        let updated = match row_try_stamp(row, 3) {
            Some(v) => v,
            None => {
                return Err(
                    Error::Model(
                        String::from_str("the updated column of a user row must be a timestamp"),
                    ),
                );
            },
        };
        if let Some(u) = updated {
            if u < created {
                return Err(
                    Error::Model(
                        String::from_str(
                            "the update stamp of a user row must not be before its creation time",
                        ),
                    ),
                );
            }
        }
        Ok(User { id, name, created, updated })
    }

    /// Maps each of the given rows to a user, in order, failing on the
    /// first row that does not have the user shape.
    pub fn from_rows(rows: Vec<tokio_postgres::Row>) -> (r: Result<Vec<User>, Error>)
        ensures
            r matches Ok(v) ==> v@.len() == rows@.len() && (forall|k: int|
                0 <= k < rows@.len() ==> User::from_cols(row_cols(#[trigger] rows@[k])) == Some(
                    v@[k],
                )),
            r matches Err(e) ==> e is Model && (exists|k: int|
                0 <= k < rows@.len() && User::from_cols(row_cols(#[trigger] rows@[k])) is None),
    {
        let mut out: Vec<User> = Vec::new();
        let n = rows.len();
        let mut i: usize = 0;
        while i < n
            invariant
                i <= n,
                n == rows@.len(),
                out@.len() == i,
                forall|k: int|
                    0 <= k < i ==> User::from_cols(row_cols(#[trigger] rows@[k])) == Some(out@[k]),
            decreases n - i,
        {
            let row = &rows[i];
            match User::from_row(row) {
                Ok(u) => out.push(u),
                Err(e) => {
                    proof {
                        assert(User::from_cols(row_cols(rows@[i as int])) is None);
                    }
                    return Err(e);
                },
            }
            i = i + 1;
        }
        Ok(out)
    }
}

} // verus!
