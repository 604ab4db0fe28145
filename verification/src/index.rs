//! The boundary to the embedded database.
//!
//! No function of this file is proved. Each states, in a contract, what the
//! `redb` crate documents of one of its own; the rest of the library is
//! verified against these contracts. What a database holds changes with every
//! commit, under a handle that stays the same; so the contracts speak of open
//! tables and of what one read transaction sees, never of the database.

use redb::{ReadableDatabase, ReadableTable, ReadableTableMetadata, TableHandle};
use vstd::prelude::*;

verus! {

/// `redb::Database`, carried through as it is.
#[verifier::external_type_specification]
#[verifier::external_body]
pub struct ExDatabase(redb::Database);

/// `redb::WriteTransaction`, carried through as it is.
#[verifier::external_type_specification]
#[verifier::external_body]
pub struct ExWriteTransaction(redb::WriteTransaction);

/// `redb::ReadTransaction`, carried through as it is.
#[verifier::external_type_specification]
#[verifier::external_body]
pub struct ExReadTransaction(redb::ReadTransaction);

/// `redb::TransactionError`, carried through as it is.
#[verifier::external_type_specification]
#[verifier::external_body]
pub struct ExTransactionError(redb::TransactionError);

/// `redb::TableError`, carried through as it is.
#[verifier::external_type_specification]
#[verifier::external_body]
pub struct ExTableError(redb::TableError);

/// `redb::StorageError`, carried through as it is.
#[verifier::external_type_specification]
#[verifier::external_body]
pub struct ExStorageError(redb::StorageError);

/// `redb::CommitError`, carried through as it is.
#[verifier::external_type_specification]
#[verifier::external_body]
pub struct ExCommitError(redb::CommitError);

/// A `redb::Table` from strings to strings, open for reading and writing
/// inside one write transaction. `redb::Table` is generic over the crate's
/// own key and value traits, which the verifier cannot take; this struct
/// fixes both to strings and keeps the handle to itself. What the table holds
/// is `index_entries`.
#[verifier::external_body]
pub struct Index<'txn> {
    inner: redb::Table<'txn, &'static str, &'static str>,
}

/// A `redb::ReadOnlyTable` from strings to strings: one table as a read
/// transaction saw it. What it holds is `snapshot_entries`.
#[verifier::external_body]
pub struct Snapshot {
    inner: redb::ReadOnlyTable<&'static str, &'static str>,
}

/// The key-value pairs that an open table holds.
pub uninterp spec fn index_entries(table: Index<'_>) -> Map<Seq<char>, Seq<char>>;

/// The key-value pairs of a table as its read transaction saw them.
pub uninterp spec fn snapshot_entries(table: Snapshot) -> Map<Seq<char>, Seq<char>>;

/// The name under which an open table was opened.
pub uninterp spec fn index_name(table: Index<'_>) -> Seq<char>;

/// The tables from strings to strings that a read transaction sees: for each
/// name, the key-value pairs of that table. A read transaction sees what was
/// committed when it began, and nothing later.
pub uninterp spec fn tables_seen(txn: redb::ReadTransaction) -> Map<
    Seq<char>,
    Map<Seq<char>, Seq<char>>,
>;

/// The names of the tables, multimap tables aside, that a read transaction
/// sees.
pub uninterp spec fn tables_listed(txn: redb::ReadTransaction) -> Set<Seq<char>>;

/// `redb::Database::begin_write`: waits until no other write transaction is
/// open, and starts one. A caller that holds a write transaction must finish
/// it first, or the call does not return. Nothing is claimed of the result.
pub assume_specification[ redb::Database::begin_write ](db: &redb::Database) -> (r: Result<
    redb::WriteTransaction,
    redb::TransactionError,
>)
;

/// `redb::WriteTransaction::commit`. Nothing is claimed of the result: whether
/// the commit succeeds depends on the storage underneath.
pub assume_specification[ redb::WriteTransaction::commit ](txn: redb::WriteTransaction) -> (r:
    Result<(), redb::CommitError>)
;

/// `redb::ReadableDatabase::begin_read` on a `Database`: a read transaction
/// over what was committed before the call. Nothing is claimed of the result.
#[verifier::external_body]
pub(crate) fn begin_read(db: &redb::Database) -> (r: Result<
    redb::ReadTransaction,
    redb::TransactionError,
>) {
    db.begin_read()
}

/// `redb::WriteTransaction::open_table` with a string-to-string definition of
/// the given name; the table is created if it does not exist. The name must
/// not be empty: `redb::TableDefinition::new` panics on an empty name.
/// Claimed: when the call succeeds, the table is the one of that name.
/// Nothing is claimed of what the table holds: that is what was committed
/// before, and what the transaction has written since.
#[verifier::external_body]
pub(crate) fn open_index<'txn>(txn: &'txn redb::WriteTransaction, name: &str) -> (r: Result<
    Index<'txn>,
    redb::TableError,
>)
    requires
        name@.len() > 0,
    ensures
        r matches Ok(table) ==> index_name(table) == name@,
{
    Ok(Index { inner: txn.open_table(redb::TableDefinition::new(name))? })
}

/// `redb::ReadableTable::get` on an open table. Claimed: when the call
/// succeeds, it answers the value stored under `key`, and `None` exactly when
/// the table has no such key.
#[verifier::external_body]
pub(crate) fn index_get(table: &Index<'_>, key: &str) -> (r: Result<
    Option<String>,
    redb::StorageError,
>)
    ensures
        r matches Ok(found) ==> match found {
            Some(value) => index_entries(*table).contains_key(key@) && index_entries(
                *table,
            )[key@] == value@,
            None => !index_entries(*table).contains_key(key@),
        },
{
    match table.inner.get(key)? {
        Some(guard) => Ok(Some(guard.value().to_string())),
        None => Ok(None),
    }
}

/// `redb::Table::insert`. Claimed: when the call succeeds, the table holds
/// what it held before, with `value` under `key` (replacing what was there).
/// Nothing is claimed of the table after a failed call.
#[verifier::external_body]
pub(crate) fn index_insert(table: &mut Index<'_>, key: &str, value: &str) -> (r: Result<
    (),
    redb::StorageError,
>)
    ensures
        r is Ok ==> index_entries(*final(table)) == index_entries(*old(table)).insert(
            key@,
            value@,
        ),
{
    table.inner.insert(key, value)?;
    Ok(())
}

/// `redb::ReadTransaction::open_table` with a string-to-string definition of
/// the given name. The name must not be empty: `redb::TableDefinition::new`
/// panics on an empty name. Claimed: when the call succeeds, the transaction
/// sees a table of that name, and the snapshot holds what the transaction
/// sees of it. A table that does not exist is an error.
#[verifier::external_body]
pub(crate) fn open_snapshot(txn: &redb::ReadTransaction, name: &str) -> (r: Result<
    Snapshot,
    redb::TableError,
>)
    requires
        name@.len() > 0,
    ensures
        r matches Ok(table) ==> tables_seen(*txn).contains_key(name@) && tables_seen(
            *txn,
        )[name@] == snapshot_entries(table),
{
    Ok(Snapshot { inner: txn.open_table(redb::TableDefinition::new(name))? })
}

/// `redb::ReadOnlyTable::get`. Claimed: when the call succeeds, it answers the
/// value that the snapshot holds under `key`, and `None` exactly when the
/// snapshot has no such key.
#[verifier::external_body]
pub(crate) fn snapshot_get(table: &Snapshot, key: &str) -> (r: Result<
    Option<String>,
    redb::StorageError,
>)
    ensures
        r matches Ok(found) ==> match found {
            Some(value) => snapshot_entries(*table).contains_key(key@) && snapshot_entries(
                *table,
            )[key@] == value@,
            None => !snapshot_entries(*table).contains_key(key@),
        },
{
    match table.inner.get(key)? {
        Some(guard) => Ok(Some(guard.value().to_string())),
        None => Ok(None),
    }
}

/// `redb::ReadableTableMetadata::len` on a snapshot. Claimed: when the call
/// succeeds, the snapshot holds finitely many pairs, and the answer is their
/// number.
#[verifier::external_body]
pub(crate) fn snapshot_len(table: &Snapshot) -> (r: Result<u64, redb::StorageError>)
    ensures
        r matches Ok(n) ==> snapshot_entries(*table).dom().finite() && n == snapshot_entries(
            *table,
        ).len(),
{
    table.inner.len()
}

/// One item of a walk through a table: a key and its value, or the error that
/// kept the item from being read.
pub type Row = Result<(String, String), redb::StorageError>;

/// Every row of `rows` could be read.
pub open spec fn all_readable(rows: Seq<Row>) -> bool {
    forall|i: int| 0 <= i < rows.len() ==> (#[trigger] rows[i]) is Ok
}

/// `rows` is a walk through a table that holds `entries`: every row that
/// could be read is a pair of the table, no key comes twice, a row that
/// could not be read ends the walk, and where every row could be read there
/// are as many rows as the table has pairs. The order of the rows is left
/// open.
pub open spec fn walks(rows: Seq<Row>, entries: Map<Seq<char>, Seq<char>>) -> bool {
    &&& forall|i: int| 0 <= i < rows.len() ==> ((#[trigger] rows[i]) is Err ==> i + 1 == rows.len())
    &&& forall|i: int|
        0 <= i < rows.len() ==> (#[trigger] rows[i] matches Ok(pair) ==> entries.contains_key(
            pair.0@,
        ) && entries[pair.0@] == pair.1@)
    &&& forall|i: int, j: int|
        0 <= i < j < rows.len() ==> (#[trigger] rows[i] matches Ok(a) ==> (
        #[trigger] rows[j] matches Ok(b) ==> a.0@ != b.0@))
    &&& all_readable(rows) ==> entries.dom().finite() && rows.len() == entries.len()
}

/// `redb::ReadableTable::iter` on a snapshot, walked to its end or to the
/// first item that is an error, each item copied out as two strings or as the
/// error it was. After an error the iterator of `redb` hands out errors for
/// ever, so the walk stops there. Claimed: when the call succeeds, the rows
/// are a walk through the snapshot, as `walks` says.
#[verifier::external_body]
pub(crate) fn snapshot_rows(table: &Snapshot) -> (r: Result<Vec<Row>, redb::StorageError>)
    ensures
        r matches Ok(rows) ==> walks(rows@, snapshot_entries(*table)),
{
    let mut rows = Vec::new();
    for item in table.inner.iter()? {
        match item {
            Ok((key, value)) => rows.push(Ok((key.value().to_string(), value.value().to_string()))),
            Err(e) => {
                rows.push(Err(e));
                break;
            },
        }
    }
    Ok(rows)
}

/// `names` are the names in `listed`, each at least once and no other.
pub open spec fn names_of(names: Seq<String>, listed: Set<Seq<char>>) -> bool {
    forall|name: Seq<char>|
        #[trigger] listed.contains(name) <==> exists|i: int|
            0 <= i < names.len() && (#[trigger] names[i])@ == name
}

/// `redb::ReadTransaction::list_tables`, each handle copied out as its name.
/// Claimed: when the call succeeds, the names are those of the tables that
/// the transaction sees.
#[verifier::external_body]
pub(crate) fn table_names(txn: &redb::ReadTransaction) -> (r: Result<
    Vec<String>,
    redb::StorageError,
>)
    ensures
        r matches Ok(names) ==> names_of(names@, tables_listed(*txn)),
{
    let mut names = Vec::new();
    for handle in txn.list_tables()? {
        names.push(handle.name().to_string());
    }
    Ok(names)
}

} // verus!
