//! Reading store rows. A row is opaque; what the mapping layer sees of it is
//! its sequence of column values, each a plain shape: an identifier, a text,
//! a nullable timestamp, an integer, or something this layer does not read.

use vstd::prelude::*;

verus! {

/// A single column value, as the mapping layer reads it from a row or binds
/// it as a statement parameter. Timestamps are whole seconds since the Unix
/// epoch; a column of any other shape reads as `Other`.
#[derive(Debug, Clone, PartialEq, Eq)]
pub enum SqlValue {
    Id(u128),
    Text(String),
    Stamp(Option<i64>),
    Int(i64),
    Other,
}

#[verifier::external_type_specification]
#[verifier::external_body]
pub struct ExRow(tokio_postgres::Row);

#[verifier::external_type_specification]
#[verifier::external_body]
pub struct ExStatement(tokio_postgres::Statement);

#[verifier::external_type_specification]
#[verifier::external_body]
pub struct ExClient(tokio_postgres::Client);

/// The column values of a row, in column order.
pub uninterp spec fn row_cols(r: tokio_postgres::Row) -> Seq<SqlValue>;

/// Relies on `tokio_postgres::Row::len`: the number of columns of the row.
#[verifier::external_body]
pub(crate) fn row_len(r: &tokio_postgres::Row) -> (n: usize)
    ensures
        n == row_cols(*r).len(),
{
    r.len()
}

/// Relies on `tokio_postgres::Row::try_get` with a `uuid::Uuid` target
/// (converted with `Uuid::as_u128`): the value of a UUID column, present
/// exactly when the index is in range and the column holds a non-null UUID.
#[verifier::external_body]
pub(crate) fn row_try_id(r: &tokio_postgres::Row, i: usize) -> (v: Option<u128>)
    ensures
        v matches Some(x) ==> i < row_cols(*r).len() && row_cols(*r)[i as int] == SqlValue::Id(x),
        v is None ==> !(i < row_cols(*r).len() && row_cols(*r)[i as int] is Id),
{
    r.try_get::<usize, uuid::Uuid>(i).ok().map(|u| u.as_u128())
}

/// Relies on `tokio_postgres::Row::try_get` with a `String` target: the value
/// of a text column, present exactly when the index is in range and the
/// column holds a non-null text.
#[verifier::external_body]
pub(crate) fn row_try_text(r: &tokio_postgres::Row, i: usize) -> (v: Option<String>)
    ensures
        v matches Some(x) ==> i < row_cols(*r).len() && row_cols(*r)[i as int] == SqlValue::Text(
            x,
        ),
        v is None ==> !(i < row_cols(*r).len() && row_cols(*r)[i as int] is Text),
{
    r.try_get::<usize, String>(i).ok()
}

/// Relies on `tokio_postgres::Row::try_get` with an
/// `Option<time::OffsetDateTime>` target (converted with
/// `OffsetDateTime::unix_timestamp`): the value of a timestamp column in
/// whole seconds, present exactly when the index is in range and the column
/// is a timestamp; the inner value is absent when the column is null.
#[verifier::external_body]
pub(crate) fn row_try_stamp(r: &tokio_postgres::Row, i: usize) -> (v: Option<Option<i64>>)
    ensures
        v matches Some(x) ==> i < row_cols(*r).len() && row_cols(*r)[i as int] == SqlValue::Stamp(
            x,
        ),
        v is None ==> !(i < row_cols(*r).len() && row_cols(*r)[i as int] is Stamp),
{
    r.try_get::<usize, Option<time::OffsetDateTime>>(i).ok().map(|o| o.map(|d| d.unix_timestamp()))
}

} // verus!
