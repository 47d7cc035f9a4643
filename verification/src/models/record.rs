//! References to stored records, and the clock that stamps them.

use vstd::prelude::*;

verus! {

/// A reference to a stored record: its table and its key within the table.
#[derive(Debug, Clone)]
pub struct RecordRef {
    pub table: String,
    pub key: String,
}

/// Mathematical content of a [`RecordRef`].
pub struct RecordRefView {
    pub table: Seq<char>,
    pub key: Seq<char>,
}

impl View for RecordRef {
    type V = RecordRefView;

    open spec fn view(&self) -> RecordRefView {
        RecordRefView { table: self.table@, key: self.key@ }
    }
}

/// View of an optional record reference.
pub open spec fn record_of(r: Option<RecordRef>) -> Option<RecordRefView> {
    match r {
        Some(record) => Some(record@),
        None => None,
    }
}

/// The text that the record store prints for the record `key` of `table`.
pub uninterp spec fn record_text(table: Seq<char>, key: Seq<char>) -> Seq<char>;

/// `surrealdb::types::RecordId::new` and `ToSql::to_sql` on it: the record
/// id of a table and a string key, printed as the store prints it, with
/// whatever escaping the two parts need.
#[verifier::external_body]
fn print_record(table: &str, key: &str) -> (r: String)
    ensures
        r@ == record_text(table@, key@),
{
    surrealdb::types::ToSql::to_sql(&surrealdb::types::RecordId::new(table, key))
}

/// `chrono::Utc::now` and `DateTime::timestamp` on it: the present moment
/// in whole seconds since the Unix epoch. Nothing is promised of the value.
#[verifier::external_body]
pub(crate) fn now_seconds() -> (r: i64) {
    chrono::Utc::now().timestamp()
}

impl RecordRef {
    /// The reference to the record `key` of `table`.
    pub fn new(table: &str, key: &str) -> (r: RecordRef)
        ensures
            r@ == (RecordRefView { table: table@, key: key@ }),
    {
        RecordRef { table: table.to_string(), key: key.to_string() }
    }

    /// This reference as the record store prints it.
    pub fn to_string(&self) -> (r: String)
        ensures
            r@ == record_text(self@.table, self@.key),
    {
        print_record(self.table.as_str(), self.key.as_str())
    }

    /// A copy of this reference.
    pub fn duplicate(&self) -> (r: RecordRef)
        ensures
            r@ == self@,
    {
        RecordRef { table: self.table.clone(), key: self.key.clone() }
    }
}

/// The printed form of an optional reference, and the empty text where
/// there is none.
pub open spec fn printed_or_empty(r: Option<RecordRefView>) -> Seq<char> {
    match r {
        Some(record) => record_text(record.table, record.key),
        None => Seq::empty(),
    }
}

/// The printed form of an optional reference, if there is one.
pub open spec fn printed(r: Option<RecordRefView>) -> Option<Seq<char>> {
    match r {
        Some(record) => Some(record_text(record.table, record.key)),
        None => None,
    }
}

} // verus!
