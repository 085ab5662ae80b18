//! The ticket record: one of the data shapes moved across the store
//! boundary. Identifiers are 128-bit values; timestamps are whole seconds
//! since the Unix epoch.

use vstd::prelude::*;
use vstd::string::StringExecFns;

use crate::clock::now_unix;
use crate::entity::{fresh_id, Entity};
use crate::error::Error;
use crate::repository::Record;
use crate::row::{row_cols, row_len, row_try_id, row_try_stamp, row_try_text, SqlValue};

verus! {

/// A ticket. `created` is set at construction and immutable; `updated` is
/// absent until the store first updates the record, and from then on it is
/// never before `created`.
#[derive(Debug)]
pub struct Ticket {
    pub id: u128,
    pub title: String,
    pub description: String,
    pub author_id: u128,
    pub created: i64,
    pub updated: Option<i64>,
}

impl Entity for Ticket {
    open spec fn id_spec(&self) -> u128 {
        self.id
    }

    fn get_id(&self) -> u128 {
        self.id
    }
}

impl Clone for Ticket {
    /// A clone is equal to the original in every field.
    fn clone(&self) -> (t: Self)
        ensures
            t == *self,
    {
        Ticket {
            id: self.id,
            title: self.title.clone(),
            description: self.description.clone(),
            author_id: self.author_id,
            created: self.created,
            updated: self.updated,
        }
    }
}

impl Record for Ticket {
    open spec fn created_spec(&self) -> i64 {
        self.created
    }

    open spec fn updated_spec(&self) -> Option<i64> {
        self.updated
    }

    open spec fn merged_spec(&self, src: &Self, stamp: i64) -> Self {
        Ticket {
            id: self.id,
            title: src.title,
            description: src.description,
            author_id: self.author_id,
            created: self.created,
            updated: Some(stamp),
        }
    }

    fn created(&self) -> i64 {
        self.created
    }

    fn cloned(&self) -> Self {
        self.clone()
    }

    /// An update replaces title and description; identity, author, and
    /// creation time are kept, and the update stamp is set.
    fn merged(&self, src: &Self, stamp: i64) -> Self {
        Ticket {
            id: self.id,
            title: src.title.clone(),
            description: src.description.clone(),
            author_id: self.author_id,
            created: self.created,
            updated: Some(stamp),
        }
    }

    proof fn lemma_merged(&self, src: &Self, stamp: i64) {
    }
}

impl Ticket {
    /// Well-formedness: the update stamp, when present, is not before the
    /// creation time.
    pub open spec fn wf(&self) -> bool {
        match self.updated {
            Some(u) => u >= self.created,
            None => true,
        }
    }

    /// Constructs a ticket under a freshly minted identifier, with the
    /// creation time read from the clock and no update stamp.
    pub fn new(title: String, description: String, author_id: u128) -> (t: Ticket)
        ensures
            t.title == title,
            t.description == description,
            t.author_id == author_id,
            t.updated is None,
            t.wf(),
    {
        Ticket {
            id: fresh_id(),
            title,
            description,
            author_id,
            created: now_unix(),
            updated: None,
        }
    }

    /// Replaces the title; every other field is kept.
    pub fn update_title(&mut self, title: String)
        ensures
            final(self).title == title,
            final(self).id == old(self).id,
            final(self).description == old(self).description,
            final(self).author_id == old(self).author_id,
            final(self).created == old(self).created,
            final(self).updated == old(self).updated,
    {
        self.title = title;
    }

    /// Maps one row, read as its column values, to a ticket: the columns
    /// are, in order, the identifier, the creation timestamp (non-null), the
    /// update stamp (nullable), the title, the description, and the author
    /// identifier; a row of any other shape, or one whose update stamp lies
    /// before its creation time, maps to nothing.
    pub open spec fn from_cols(s: Seq<SqlValue>) -> Option<Ticket> {
        if s.len() == 6 {
            match (s[0], s[1], s[2], s[3], s[4], s[5]) {
                (
                    SqlValue::Id(id),
                    SqlValue::Stamp(Some(created)),
                    SqlValue::Stamp(updated),
                    SqlValue::Text(title),
                    SqlValue::Text(description),
                    SqlValue::Id(author_id),
                ) => {
                    if (match updated {
                        Some(u) => u >= created,
                        None => true,
                    }) {
                        Some(Ticket { id, title, description, author_id, created, updated })
                    } else {
                        None
                    }
                },
                _ => None,
            }
        } else {
            None
        }
    }

    /// Maps a store row to a ticket, positionally per column. A row that
    /// does not have the ticket shape is rejected as a `Model` error.
    pub fn from_row(row: &tokio_postgres::Row) -> (r: Result<Ticket, Error>)
        ensures
            Ticket::from_cols(row_cols(*row)) matches Some(t) ==> r == Ok::<Ticket, Error>(t),
            r matches Ok(t) ==> Ticket::from_cols(row_cols(*row)) == Some(t) && t.wf(),
            r matches Err(e) ==> e is Model && Ticket::from_cols(row_cols(*row)) is None,
    {
        let n = row_len(row);
        if n != 6 {
            return Err(
                Error::Model(String::from_str("a ticket row must have exactly six columns")),
            );
        }
        let id = match row_try_id(row, 0) {
            Some(v) => v,
            None => {
                return Err(
                    Error::Model(String::from_str("the id column of a ticket row must be a UUID")),
                );
            },
        };
        let created = match row_try_stamp(row, 1) {
            Some(Some(c)) => c,
            Some(None) => {
                return Err(
                    Error::Model(
                        String::from_str("the created column of a ticket row must not be null"),
                    ),
                );
            },
            None => {
                return Err(
                    Error::Model(
                        String::from_str("the created column of a ticket row must be a timestamp"),
                    ),
                );
            },
        };
        let updated = match row_try_stamp(row, 2) {
            Some(v) => v,
            None => {
                return Err(
                    Error::Model(
                        String::from_str("the updated column of a ticket row must be a timestamp"),
                    ),
                );
            },
        };
        let title = match row_try_text(row, 3) {
            Some(v) => v,
            None => {
                return Err(
                    Error::Model(
                        String::from_str("the title column of a ticket row must be a text"),
                    ),
                );
            },
        };
        let description = match row_try_text(row, 4) {
            Some(v) => v,
            None => {
                return Err(
                    Error::Model(
                        String::from_str("the description column of a ticket row must be a text"),
                    ),
                );
            },
        };
        let author_id = match row_try_id(row, 5) {
            Some(v) => v,
            None => {
                return Err(
                    Error::Model(
                        String::from_str("the author column of a ticket row must be a UUID"),
                    ),
                );
            },
        };
        if let Some(u) = updated {
            if u < created {
                return Err(
                    Error::Model(
                        String::from_str(
                            "the update stamp of a ticket row must not be before its creation time",
                        ),
                    ),
                );
            }
        }
        Ok(Ticket { id, title, description, author_id, created, updated })
    }

    /// Maps each of the given rows to a ticket, in order, failing on the
    /// first row that does not have the ticket shape.
    pub fn from_rows(rows: Vec<tokio_postgres::Row>) -> (r: Result<Vec<Ticket>, Error>)
        ensures
            r matches Ok(v) ==> v@.len() == rows@.len() && (forall|k: int|
                0 <= k < rows@.len() ==> Ticket::from_cols(row_cols(#[trigger] rows@[k])) == Some(
                    v@[k],
                )),
            r matches Err(e) ==> e is Model && (exists|k: int|
                0 <= k < rows@.len() && Ticket::from_cols(row_cols(#[trigger] rows@[k])) is None),
    {
        let mut out: Vec<Ticket> = Vec::new();
        let n = rows.len();
        let mut i: usize = 0;
        while i < n
            invariant
                i <= n,
                n == rows@.len(),
                out@.len() == i,
                forall|k: int|
                    0 <= k < i ==> Ticket::from_cols(row_cols(#[trigger] rows@[k])) == Some(
                        out@[k],
                    ),
            decreases n - i,
        {
            let row = &rows[i];
            match Ticket::from_row(row) {
                Ok(t) => out.push(t),
                Err(e) => {
                    proof {
                        assert(Ticket::from_cols(row_cols(rows@[i as int])) is None);
                    }
                    return Err(e);
                },
            }
            i = i + 1;
        }
        Ok(out)
    }

    /// Replaces the description; every other field is kept.
    pub fn update_description(&mut self, description: String)
        ensures
            final(self).description == description,
            final(self).id == old(self).id,
            final(self).title == old(self).title,
            final(self).author_id == old(self).author_id,
            final(self).created == old(self).created,
            final(self).updated == old(self).updated,
    {
        self.description = description;
    }
}

} // verus!
