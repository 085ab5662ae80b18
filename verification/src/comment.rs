//! The comment record: a data shape only. No persistence path exists for
//! comments in the current system; storing them is an open extension point.

use vstd::prelude::*;

use crate::clock::now_unix;
use crate::entity::{fresh_id, Entity};

verus! {

/// A comment on a ticket. `created` is set at construction and immutable.
#[derive(Debug)]
pub struct Comment {
    pub text: String,
    pub created: i64,
    pub author_id: u128,
    pub ticket_id: u128,
    pub id: u128,
}

impl Entity for Comment {
    open spec fn id_spec(&self) -> u128 {
        self.id
    }

    fn get_id(&self) -> u128 {
        self.id
    }
}

impl Clone for Comment {
    /// A clone is equal to the original in every field.
    fn clone(&self) -> (c: Self)
        ensures
            c == *self,
    {
        Comment {
            text: self.text.clone(),
            created: self.created,
            author_id: self.author_id,
            ticket_id: self.ticket_id,
            id: self.id,
        }
    }
}

impl Comment {
    /// Constructs a comment under a freshly minted identifier, with the
    /// creation time read from the clock.
    pub fn new(body: String, author_id: u128, ticket_id: u128) -> (c: Comment)
        ensures
            c.text == body,
            c.author_id == author_id,
            c.ticket_id == ticket_id,
    {
        Comment { text: body, created: now_unix(), author_id, ticket_id, id: fresh_id() }
    }

    /// Replaces the text; every other field is kept.
    pub fn update_text(&mut self, text: String)
        ensures
            final(self).text == text,
            final(self).id == old(self).id,
            final(self).created == old(self).created,
            final(self).author_id == old(self).author_id,
            final(self).ticket_id == old(self).ticket_id,
    {
        self.text = text;
    }
}

} // verus!
