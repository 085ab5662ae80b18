//! The generic repository contract and its reference store.
//!
//! A repository exposes get / get-many / add / update / delete over records
//! of one entity type. `MemRepository` is the executable reference store: it
//! holds the records ordered by creation time descending, with unique
//! identifiers, and its contracts pin the outcome of every operation down to
//! the model functions below. The statement-backed repositories are written
//! against the same operations; the laws at the end of this module state the
//! guarantees that hold of the model functions.

use vstd::prelude::*;
use vstd::string::StringExecFns;

use crate::clock::now_unix;
use crate::entity::Entity;
use crate::error::Error;

verus! {

/// What the generic repository needs of a stored record beyond its identity:
/// timestamps, a field-preserving copy, and the merge that an update applies.
pub trait Record: Entity + Sized {
    /// The creation timestamp, for use in specifications.
    spec fn created_spec(&self) -> i64;

    /// The update stamp, for use in specifications.
    spec fn updated_spec(&self) -> Option<i64>;

    /// The record that results from applying the mutable fields of `src` to
    /// this record and stamping the update time.
    spec fn merged_spec(&self, src: &Self, stamp: i64) -> Self;

    /// Returns the creation timestamp.
    fn created(&self) -> (c: i64)
        ensures
            c == self.created_spec(),
    ;

    /// Returns an owned copy, equal to the record in every field.
    fn cloned(&self) -> (r: Self)
        ensures
            r == *self,
    ;

    /// Applies the mutable fields of `src` and stamps the update time.
    fn merged(&self, src: &Self, stamp: i64) -> (r: Self)
        ensures
            r == self.merged_spec(src, stamp),
    ;

    /// Merging never changes identity or creation time, and always stamps.
    proof fn lemma_merged(&self, src: &Self, stamp: i64)
        ensures
            self.merged_spec(src, stamp).id_spec() == self.id_spec(),
            self.merged_spec(src, stamp).created_spec() == self.created_spec(),
            self.merged_spec(src, stamp).updated_spec() == Some(stamp),
    ;
}

/// Record well-formedness, uniform over record types: the update stamp, when
/// present, is not before the creation time.
pub open spec fn record_wf<T: Record>(r: T) -> bool {
    match r.updated_spec() {
        Some(u) => u >= r.created_spec(),
        None => true,
    }
}

/// The records are ordered by creation time, newest first.
pub open spec fn sorted_desc<T: Record>(s: Seq<T>) -> bool {
    forall|i: int, j: int|
        0 <= i < j < s.len() ==> #[trigger] s[i].created_spec() >= #[trigger] s[j].created_spec()
}

/// No two records share an identifier.
pub open spec fn unique_ids<T: Record>(s: Seq<T>) -> bool {
    forall|i: int, j: int|
        0 <= i < s.len() && 0 <= j < s.len() && i != j ==> #[trigger] s[i].id_spec()
            != #[trigger] s[j].id_spec()
}

/// Every record is well-formed.
pub open spec fn all_wf<T: Record>(s: Seq<T>) -> bool {
    forall|i: int| 0 <= i < s.len() ==> record_wf(#[trigger] s[i])
}

/// The store invariant.
pub open spec fn store_inv<T: Record>(s: Seq<T>) -> bool {
    sorted_desc(s) && unique_ids(s) && all_wf(s)
}

/// The index of the first record carrying `id`; `s.len()` when none does.
pub open spec fn find_idx<T: Record>(s: Seq<T>, id: u128) -> int
    decreases s.len(),
{
    if s.len() == 0 {
        0
    } else if s[0].id_spec() == id {
        0
    } else {
        1 + find_idx(s.subrange(1, s.len() as int), id)
    }
}

/// Some record carries `id`.
pub open spec fn contains_id<T: Record>(s: Seq<T>, id: u128) -> bool {
    find_idx(s, id) < s.len()
}

/// The record carrying `id`, when one does.
pub open spec fn lookup<T: Record>(s: Seq<T>, id: u128) -> Option<T> {
    if contains_id(s, id) {
        Some(s[find_idx(s, id)])
    } else {
        None
    }
}

/// `find_idx` is the first matching index: everything before it misses, and
/// it hits whenever it is in range.
pub proof fn lemma_find_idx<T: Record>(s: Seq<T>, id: u128)
    ensures
        0 <= find_idx(s, id) <= s.len(),
        find_idx(s, id) < s.len() ==> s[find_idx(s, id)].id_spec() == id,
        forall|j: int| 0 <= j < find_idx(s, id) ==> #[trigger] s[j].id_spec() != id,
    decreases s.len(),
{
    if s.len() == 0 {
    } else if s[0].id_spec() == id {
    } else {
        let rest = s.subrange(1, s.len() as int);
        lemma_find_idx(rest, id);
        assert forall|j: int| 0 <= j < find_idx(s, id) implies #[trigger] s[j].id_spec() != id by {
            if j > 0 {
                assert(s[j] == rest[j - 1]);
            }
        }
    }
}

/// The position at which a record created at `c` is inserted to keep the
/// newest-first order: the first index whose record is not newer than `c`.
pub open spec fn insert_pos<T: Record>(s: Seq<T>, c: i64) -> int
    decreases s.len(),
{
    if s.len() == 0 {
        0
    } else if s[0].created_spec() <= c {
        0
    } else {
        1 + insert_pos(s.subrange(1, s.len() as int), c)
    }
}

/// `insert_pos` is the first index whose record is not newer than `c`.
pub proof fn lemma_insert_pos<T: Record>(s: Seq<T>, c: i64)
    ensures
        0 <= insert_pos(s, c) <= s.len(),
        insert_pos(s, c) < s.len() ==> s[insert_pos(s, c)].created_spec() <= c,
        forall|j: int| 0 <= j < insert_pos(s, c) ==> #[trigger] s[j].created_spec() > c,
    decreases s.len(),
{
    if s.len() == 0 {
    } else if s[0].created_spec() <= c {
    } else {
        let rest = s.subrange(1, s.len() as int);
        lemma_insert_pos(rest, c);
        assert forall|j: int| 0 <= j < insert_pos(s, c) implies #[trigger] s[j].created_spec()
            > c by {
            if j > 0 {
                assert(s[j] == rest[j - 1]);
            }
        }
    }
}

/// Index access into `s.insert(pos, e)`, spelled out.
pub proof fn lemma_insert_index<T: Record>(s: Seq<T>, pos: int, e: T, k: int)
    requires
        0 <= pos <= s.len(),
        0 <= k < s.len() + 1,
    ensures
        s.insert(pos, e)[k] == if k < pos {
            s[k]
        } else if k == pos {
            e
        } else {
            s[k - 1]
        },
{
    s.insert_ensures(pos, e);
    if k < pos {
        assert(s.insert(pos, e)[k] == s[k]);
    } else if k > pos {
        assert(s.insert(pos, e)[(k - 1) + 1] == s[k - 1]);
    }
}

/// The store after a record is added: inserted at its ordered position.
pub open spec fn add_model<T: Record>(s: Seq<T>, e: T) -> Seq<T> {
    s.insert(insert_pos(s, e.created_spec()), e)
}

/// The store after an update: the stored record carrying the identifier of
/// `e`, when there is one, is replaced by the merge of `e` into it, stamped
/// at `stamp`; an absent identifier leaves the store as it was.
pub open spec fn update_model<T: Record>(s: Seq<T>, e: T, stamp: i64) -> Seq<T> {
    if contains_id(s, e.id_spec()) {
        s.update(find_idx(s, e.id_spec()), s[find_idx(s, e.id_spec())].merged_spec(&e, stamp))
    } else {
        s
    }
}

/// The store after a delete: the record carrying `id`, when there is one, is
/// removed; an absent identifier leaves the store as it was.
pub open spec fn delete_model<T: Record>(s: Seq<T>, id: u128) -> Seq<T> {
    if contains_id(s, id) {
        s.remove(find_idx(s, id))
    } else {
        s
    }
}

/// The page of at most `limit` records that begins after skipping `offset`
/// records, in store order.
pub open spec fn page_model<T: Record>(s: Seq<T>, limit: int, offset: int) -> Seq<T> {
    let lo = if offset <= s.len() {
        offset
    } else {
        s.len() as int
    };
    let hi = if offset + limit <= s.len() {
        offset + limit
    } else {
        s.len() as int
    };
    s.subrange(lo, hi)
}

/// Holds when `s1` is `s0` after an update by `e` stamped at some time not
/// before the stored record's creation time.
pub open spec fn stamped_update<T: Record>(s0: Seq<T>, e: T, s1: Seq<T>) -> bool {
    exists|stamp: i64|
        s1 == #[trigger] update_model(s0, e, stamp) && stamp >= s0[find_idx(
            s0,
            e.id_spec(),
        )].created_spec()
}

/// The reference store: an in-memory repository over one entity type. It
/// owns the only copy of each stored record, keeps them ordered by creation
/// time descending, and realizes the repository contract exactly as the
/// model functions state it.
pub struct MemRepository<T> {
    records: Vec<T>,
}

impl<T> View for MemRepository<T> {
    type V = Seq<T>;

    closed spec fn view(&self) -> Seq<T> {
        self.records@
    }
}

impl<T: Record> MemRepository<T> {
    /// The store invariant: ordered newest first, identifiers unique, every
    /// record well-formed.
    pub open spec fn inv(&self) -> bool {
        store_inv(self@)
    }

    /// An empty store.
    pub fn new() -> (r: Self)
        ensures
            r@ == Seq::<T>::empty(),
            r.inv(),
    {
        MemRepository { records: Vec::new() }
    }

    /// The index of the first stored record carrying `id`, or the number of
    /// records when none does.
    fn position_of(&self, id: u128) -> (i: usize)
        ensures
            i as int == find_idx(self@, id),
    {
        let n = self.records.len();
        let mut i: usize = 0;
        while i < n
            invariant
                i <= n,
                n == self@.len(),
                forall|j: int| 0 <= j < i ==> #[trigger] self@[j].id_spec() != id,
            decreases n - i,
        {
            let r = &self.records[i];
            if r.get_id() == id {
                proof {
                    lemma_find_idx::<T>(self@, id);
                }
                assert(i as int == find_idx(self@, id));
                return i;
            }
            i = i + 1;
        }
        proof {
            lemma_find_idx::<T>(self@, id);
        }
        assert(i as int == find_idx(self@, id));
        i
    }

    /// Looks the record carrying `id` up. Returns it when it is stored, and
    /// a `Repo` error (the not-found class) when it is not.
    pub fn get(&self, id: u128) -> (r: Result<T, Error>)
        ensures
            lookup(self@, id) matches Some(t) ==> r == Ok::<T, Error>(t),
            lookup(self@, id) is None ==> (r matches Err(e) && e is Repo),
    {
        let i = self.position_of(id);
        if i < self.records.len() {
            let rec = &self.records[i];
            Ok(rec.cloned())
        } else {
            Err(Error::Repo(String::from_str("no record carries the given identifier")))
        }
    }

    /// Returns at most `limit` records in store order (creation time
    /// descending), skipping the first `offset`.
    pub fn get_many(&self, limit: i64, offset: i64) -> (r: Vec<T>)
        requires
            0 <= limit,
            0 <= offset,
        ensures
            r@ == page_model(self@, limit as int, offset as int),
    {
        let n = self.records.len();
        let mut i: usize = 0;
        let mut to_skip: i64 = offset;
        while i < n && to_skip > 0
            invariant
                i <= n,
                n == self@.len(),
                0 <= to_skip <= offset,
                i as int == offset - to_skip,
            decreases n - i,
        {
            i = i + 1;
            to_skip = to_skip - 1;
        }
        let ghost lo: int = if offset <= self@.len() {
            offset as int
        } else {
            self@.len() as int
        };
        assert(i as int == lo);
        let mut out: Vec<T> = Vec::new();
        proof {
            assert(out@ =~= self@.subrange(lo, i as int));
        }
        let mut taken: i64 = 0;
        while i < n && taken < limit
            invariant
                i <= n,
                n == self@.len(),
                0 <= taken <= limit,
                i as int == lo + taken,
                0 <= lo <= i as int,
                out@ == self@.subrange(lo, i as int),
            decreases n - i,
        {
            let rec = &self.records[i];
            let ghost out0 = out@;
            out.push(rec.cloned());
            proof {
                assert(out@ == out0.push(self@[i as int]));
                assert forall|k: int| 0 <= k < out@.len() implies out@[k] == self@.subrange(
                    lo,
                    i as int + 1,
                )[k] by {
                    if k < out0.len() {
                        assert(out@[k] == out0[k]);
                        assert(out0[k] == self@[lo + k]);
                    } else {
                        assert(out@[k] == self@[i as int]);
                    }
                }
                assert(out@ =~= self@.subrange(lo, i as int + 1));
            }
            i = i + 1;
            taken = taken + 1;
        }
        proof {
            assert(out@ =~= page_model(self@, limit as int, offset as int));
        }
        out
    }

    /// Stores `entity` under its pre-assigned identifier and creation
    /// timestamp. Fails with a `Repo` error, leaving the store as it was,
    /// exactly when the identifier is already taken.
    pub fn add(&mut self, entity: &T) -> (r: Result<(), Error>)
        requires
            old(self).inv(),
            record_wf(*entity),
        ensures
            final(self).inv(),
            contains_id(old(self)@, entity.id_spec()) ==> final(self)@ == old(self)@ && (
            r matches Err(e) && e is Repo),
            !contains_id(old(self)@, entity.id_spec()) ==> r is Ok && final(self)@ == add_model(
                old(self)@,
                *entity,
            ),
    {
        let id = entity.get_id();
        let found = self.position_of(id);
        if found < self.records.len() {
            return Err(Error::Repo(String::from_str("a record already carries this identifier")));
        }
        proof {
            lemma_find_idx::<T>(self@, id);
        }
        let c = entity.created();
        let n = self.records.len();
        let mut pos: usize = 0;
        while pos < n && self.records[pos].created() > c
            invariant
                pos <= n,
                n == self@.len(),
                forall|j: int| 0 <= j < pos ==> #[trigger] self@[j].created_spec() > c,
            decreases n - pos,
        {
            pos = pos + 1;
        }
        proof {
            lemma_insert_pos::<T>(self@, c);
            assert(pos as int == insert_pos(self@, c));
        }
        let ghost s0 = self@;
        let ghost p = pos as int;
        self.records.insert(pos, entity.cloned());
        proof {
            let e = *entity;
            assert(self@ == s0.insert(p, e));
            assert(self@ == add_model(s0, e));
            assert forall|k: int| 0 <= k < self@.len() implies self@[k] == (if k < p {
                s0[k]
            } else if k == p {
                e
            } else {
                s0[k - 1]
            }) by {
                lemma_insert_index(s0, p, e, k);
            }
            assert forall|x: int, y: int|
                0 <= x < y < self@.len() implies #[trigger] self@[x].created_spec()
                >= #[trigger] self@[y].created_spec() by {
                if x < p && y > p {
                    assert(s0[x].created_spec() >= s0[y - 1].created_spec());
                } else if x == p && y > p {
                    assert(s0[p].created_spec() <= c);
                    if p < y - 1 {
                        assert(s0[p].created_spec() >= s0[y - 1].created_spec());
                    }
                } else if x < p && y == p {
                    assert(s0[x].created_spec() > c);
                }
            }
            assert(unique_ids(self@));
            assert(all_wf(self@));
        }
        Ok(())
    }

    /// Updates the stored record carrying the identifier of `entity`: its
    /// mutable fields are replaced by those of `entity`, and the update
    /// stamp is set at the moment of the call (never before the stored
    /// creation time) — the store, not the caller, is authoritative for the
    /// update time. An absent identifier is reported as success with the
    /// store unchanged.
    pub fn update(&mut self, entity: &T) -> (r: Result<(), Error>)
        requires
            old(self).inv(),
        ensures
            final(self).inv(),
            r is Ok,
            !contains_id(old(self)@, entity.id_spec()) ==> final(self)@ == old(self)@,
            contains_id(old(self)@, entity.id_spec()) ==> stamped_update(
                old(self)@,
                *entity,
                final(self)@,
            ),
    {
        let id = entity.get_id();
        let i = self.position_of(id);
        proof {
            lemma_find_idx::<T>(self@, id);
        }
        if i == self.records.len() {
            return Ok(());
        }
        let c = self.records[i].created();
        let now = now_unix();
        let stamp = if now >= c {
            now
        } else {
            c
        };
        let m = self.records[i].merged(entity, stamp);
        let ghost s0 = self@;
        let ghost ii = i as int;
        self.records[i] = m;
        proof {
            s0[ii].lemma_merged(entity, stamp);
            assert(self@ == s0.update(ii, s0[ii].merged_spec(entity, stamp)));
            assert(self@ == update_model(s0, *entity, stamp));
            assert(stamped_update(s0, *entity, self@));
            assert forall|x: int, y: int|
                0 <= x < y < self@.len() implies #[trigger] self@[x].created_spec()
                >= #[trigger] self@[y].created_spec() by {
                assert(s0[x].created_spec() >= s0[y].created_spec());
            }
            assert(unique_ids(self@));
            assert(all_wf(self@));
        }
        Ok(())
    }

    /// Deletes the record carrying `id`, when one is stored. Deleting an
    /// absent identifier is reported as success with the store unchanged.
    pub fn delete(&mut self, id: u128) -> (r: Result<(), Error>)
        requires
            old(self).inv(),
        ensures
            final(self).inv(),
            r is Ok,
            final(self)@ == delete_model(old(self)@, id),
            !contains_id(final(self)@, id),
    {
        let i = self.position_of(id);
        proof {
            lemma_find_idx::<T>(self@, id);
        }
        if i == self.records.len() {
            return Ok(());
        }
        let ghost s0 = self@;
        let ghost ii = i as int;
        self.records.remove(i);
        proof {
            s0.remove_ensures(ii);
            assert(self@ == delete_model(s0, id));
            assert forall|x: int, y: int|
                0 <= x < y < self@.len() implies #[trigger] self@[x].created_spec()
                >= #[trigger] self@[y].created_spec() by {
                if y < ii {
                    assert(s0[x].created_spec() >= s0[y].created_spec());
                } else if x >= ii {
                    assert(s0[x + 1].created_spec() >= s0[y + 1].created_spec());
                } else {
                    assert(s0[x].created_spec() >= s0[y + 1].created_spec());
                }
            }
            assert(unique_ids(self@));
            assert(all_wf(self@));
            lemma_find_idx::<T>(self@, id);
            if find_idx(self@, id) < self@.len() {
                let k = find_idx(self@, id);
                if k < ii {
                    assert(self@[k] == s0[k]);
                } else {
                    assert(self@[k] == s0[k + 1]);
                }
                lemma_find_idx::<T>(s0, id);
                assert(false);
            }
        }
        Ok(())
    }
}

/// Round trip: a record added under a fresh identifier is returned by a
/// subsequent lookup, unchanged in every field.
pub proof fn law_round_trip<T: Record>(s: Seq<T>, e: T)
    requires
        store_inv(s),
        !contains_id(s, e.id_spec()),
    ensures
        lookup(add_model(s, e), e.id_spec()) == Some(e),
{
    let id = e.id_spec();
    let c = e.created_spec();
    lemma_insert_pos::<T>(s, c);
    lemma_find_idx::<T>(s, id);
    let p = insert_pos(s, c);
    let t = add_model(s, e);
    assert forall|k: int| 0 <= k < t.len() implies t[k] == (if k < p {
        s[k]
    } else if k == p {
        e
    } else {
        s[k - 1]
    }) by {
        lemma_insert_index(s, p, e, k);
    }
    lemma_find_idx::<T>(t, id);
    let fi = find_idx(t, id);
    assert(t[p].id_spec() == id);
    if fi < p {
        assert(t[fi].id_spec() == id);
        assert(t[fi] == s[fi]);
        assert(s[fi].id_spec() != id);
        assert(false);
    }
    if fi > p {
        assert(t[p].id_spec() != id);
        assert(false);
    }
    assert(lookup(t, id) == Some(t[p]));
}

/// Update semantics: after an update of a stored record, a lookup of its
/// identifier returns the merge — the changed fields, the identity and
/// creation time of the stored record, and an update stamp that is present
/// and not before the creation time.
pub proof fn law_update<T: Record>(s: Seq<T>, e: T, stamp: i64)
    requires
        store_inv(s),
        contains_id(s, e.id_spec()),
        stamp >= s[find_idx(s, e.id_spec())].created_spec(),
    ensures
        lookup(update_model(s, e, stamp), e.id_spec()) == Some(
            s[find_idx(s, e.id_spec())].merged_spec(&e, stamp),
        ),
        lookup(update_model(s, e, stamp), e.id_spec()).unwrap().updated_spec() == Some(stamp),
        lookup(update_model(s, e, stamp), e.id_spec()).unwrap().created_spec() <= stamp,
{
    let id = e.id_spec();
    lemma_find_idx::<T>(s, id);
    let i = find_idx(s, id);
    let m = s[i].merged_spec(&e, stamp);
    s[i].lemma_merged(&e, stamp);
    let t = update_model(s, e, stamp);
    assert(t == s.update(i, m));
    assert(t[i] == m);
    lemma_find_idx::<T>(t, id);
    let fi = find_idx(t, id);
    if fi < i {
        assert(t[fi] == s[fi]);
        assert(s[fi].id_spec() != id);
        assert(t[fi].id_spec() == id);
        assert(false);
    }
    if fi > i {
        assert(t[i].id_spec() != id);
        assert(m.id_spec() == id);
        assert(false);
    }
    assert(lookup(t, id) == Some(m));
}

/// Delete semantics: after a delete, a lookup of the deleted identifier
/// fails — no record carries it any longer.
pub proof fn law_delete<T: Record>(s: Seq<T>, id: u128)
    requires
        store_inv(s),
    ensures
        lookup(delete_model(s, id), id) is None,
{
    lemma_find_idx::<T>(s, id);
    if contains_id(s, id) {
        let i = find_idx(s, id);
        let t = delete_model(s, id);
        s.remove_ensures(i);
        lemma_find_idx::<T>(t, id);
        let fi = find_idx(t, id);
        if fi < t.len() {
            if fi < i {
                assert(t[fi] == s[fi]);
            } else {
                assert(t[fi] == s[fi + 1]);
            }
            assert(false);
        }
    }
}

/// Idempotent delete: deleting an identifier that no record carries leaves
/// the store exactly as it was.
pub proof fn law_delete_absent<T: Record>(s: Seq<T>, id: u128)
    requires
        !contains_id(s, id),
    ensures
        delete_model(s, id) == s,
{
}

/// Pagination: a page never holds more than `limit` records, and each record
/// on it was created no earlier than any record at or beyond its position in
/// the store — pages follow the newest-first store order.
pub proof fn law_page<T: Record>(s: Seq<T>, limit: int, offset: int)
    requires
        store_inv(s),
        0 <= limit,
        0 <= offset,
    ensures
        page_model(s, limit, offset).len() <= limit,
        forall|i: int, j: int|
            0 <= i < page_model(s, limit, offset).len() && offset + i <= j < s.len()
                ==> #[trigger] page_model(s, limit, offset)[i].created_spec()
                >= #[trigger] s[j].created_spec(),
{
    let t = page_model(s, limit, offset);
    assert forall|i: int, j: int|
        0 <= i < t.len() && offset + i <= j < s.len() implies #[trigger] t[i].created_spec()
        >= #[trigger] s[j].created_spec() by {
        assert(t[i] == s[offset + i]);
        if offset + i < j {
            assert(s[offset + i].created_spec() >= s[j].created_spec());
        }
    }
}

/// The first page of length one holds a newest record: its creation time is
/// not before that of any stored record.
pub proof fn law_first_page_newest<T: Record>(s: Seq<T>)
    requires
        store_inv(s),
    ensures
        page_model(s, 1, 0).len() <= 1,
        page_model(s, 1, 0).len() == 1 ==> forall|j: int|
            0 <= j < s.len() ==> page_model(s, 1, 0)[0].created_spec() >= #[trigger] s[
                j
            ].created_spec(),
{
    law_page(s, 1, 0);
}

} // verus!
