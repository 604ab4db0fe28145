//! The bidirectional link store.
//!
//! Two tables in one database file: `c2u` maps a code to its URL, `u2c` maps a
//! URL to its code. All writing happens through [`WriteTables`] inside one
//! write transaction, all reading through [`CodeIndex`] inside one read
//! transaction. Their contracts are stated over [`Links`], the model of the
//! two tables.
//!
//! The functions that take a `redb::Database` open the transaction, run the
//! table-level operation, and commit or abandon. What the file held before the
//! call is outside the model, so their contracts say only what holds of every
//! outcome.
//!
//! Nothing but the look-up before the insert keeps a code from being handed
//! out twice: the tables carry no uniqueness constraint, and an insert
//! replaces what was stored under its key. The look-up and the insert happen
//! inside one write transaction, and the database admits one writer at a
//! time.

use crate::code::{gen_key, is_code};
use crate::index::{
    all_readable, begin_read, index_entries, index_get, index_insert, index_name, open_index,
    open_snapshot, snapshot_entries, snapshot_get, snapshot_len, snapshot_rows, table_names,
    tables_listed, tables_seen, walks, Index, Row, Snapshot,
};
use crate::links::{Links, Text};
use vstd::prelude::*;

verus! {

/// Name of the code -> URL table.
pub const CODE_TO_URL: &'static str = "c2u";

/// Name of the URL -> code table.
pub const URL_TO_CODE: &'static str = "u2c";

/// How often a candidate code may be found taken before the store gives up.
pub const MAX_DRAWS: u64 = u64::MAX;

/// A failure of the store. Each is the failure of one request: the
/// transaction in which it happened is abandoned, and the next request may
/// succeed.
#[derive(Debug)]
pub enum StoreError {
    /// A transaction could not be started.
    Begin(redb::TransactionError),
    /// A table could not be opened.
    Open(redb::TableError),
    /// A table could not be read or written.
    Access(redb::StorageError),
    /// The transaction could not be committed.
    Commit(redb::CommitError),
    /// Every candidate code that was drawn, `MAX_DRAWS` in a row and one
    /// more, was taken.
    NoFreeCode,
}

/// What a submission was answered with.
#[derive(Debug)]
pub struct Admission {
    /// The code of the submitted URL.
    pub code: String,
    /// Whether the link was made by this submission (`true`) or was there
    /// before (`false`).
    pub created: bool,
}

/// What one attempt with given candidate codes came to.
#[derive(Debug)]
pub enum Attempt {
    /// The URL was known under `code`; nothing was written.
    Reused { code: String },
    /// The URL was unknown, and `code` was the first candidate that was free;
    /// the link was written.
    Created { code: String },
    /// The URL was unknown and every candidate taken; nothing was written.
    Taken,
}

/// All mappings of the code index, as one read transaction saw them.
#[derive(Debug)]
pub struct Listing {
    /// The number of mappings in the index.
    pub count: u64,
    /// The rows, in the order in which the index handed them out.
    pub rows: Vec<Row>,
}

/// The view of an optional string.
pub open spec fn text_of(found: Option<String>) -> Option<Text> {
    match found {
        Some(s) => Some(s@),
        None => None,
    }
}

/// `listing` lists `by_code`: the count is the number of entries, and the
/// rows are a walk through them. Every row that could be read is an entry, no
/// code is listed twice, and where every row could be read there are as many
/// rows as entries.
pub open spec fn lists(listing: Listing, by_code: Map<Text, Text>) -> bool {
    &&& by_code.dom().finite()
    &&& listing.count == by_code.len()
    &&& walks(listing.rows@, by_code)
}

/// The code of a row; the empty text for a row that could not be read.
pub open spec fn listed_code(row: Row) -> Text {
    match row {
        Ok(pair) => pair.0@,
        Err(_) => Seq::empty(),
    }
}

/// A walk whose rows could all be read is complete: every entry of the table
/// stands on it, key and value.
pub proof fn law_listing_complete(rows: Seq<Row>, by_code: Map<Text, Text>, code: Text)
    requires
        walks(rows, by_code),
        all_readable(rows),
        by_code.contains_key(code),
    ensures
        exists|i: int|
            0 <= i < rows.len() && (#[trigger] rows[i] matches Ok(pair) && pair.0@ == code
                && pair.1@ == by_code[code]),
{
    let codes = Seq::new(rows.len(), |i: int| listed_code(rows[i]));
    assert(codes.no_duplicates()) by {
        assert forall|i: int, j: int|
            0 <= i < codes.len() && 0 <= j < codes.len() && i != j implies codes[i]
            != codes[j] by {
            assert(rows[i] is Ok && rows[j] is Ok);
            if i < j {
                assert(listed_code(rows[i]) != listed_code(rows[j]));
            } else {
                assert(listed_code(rows[j]) != listed_code(rows[i]));
            }
        }
    }
    codes.unique_seq_to_set();
    assert(codes.to_set().subset_of(by_code.dom())) by {
        assert forall|c: Text| codes.to_set().contains(c) implies by_code.dom().contains(c) by {
            let i = choose|i: int| 0 <= i < codes.len() && codes[i] == c;
            assert(rows[i] is Ok);
        }
    }
    vstd::set_lib::lemma_subset_equality(codes.to_set(), by_code.dom());
    assert(codes.to_set().contains(code));
    let i = choose|i: int| 0 <= i < codes.len() && codes[i] == code;
    assert(rows[i] is Ok);
}

/// The code index as a read transaction sees it; `None` where it sees no
/// such table.
pub open spec fn code_index_seen(txn: redb::ReadTransaction) -> Option<Map<Text, Text>> {
    if tables_seen(txn).contains_key(CODE_TO_URL@) {
        Some(tables_seen(txn)[CODE_TO_URL@])
    } else {
        None
    }
}

/// `found` is what the code index of `txn` holds under `code`: its URL, or
/// `None` for a code that is not in it.
pub open spec fn sees(txn: redb::ReadTransaction, code: Text, found: Option<Text>) -> bool {
    code_index_seen(txn) matches Some(by_code) && found == (if by_code.contains_key(code) {
        Some(by_code[code])
    } else {
        None
    })
}

/// `found` answers a look-up of `code`: it is what some read transaction
/// sees under the code in its code index.
pub open spec fn answers(code: Text, found: Option<Text>) -> bool {
    exists|txn: redb::ReadTransaction| #[trigger] sees(txn, code, found)
}

/// `listing` lists the code index that `txn` sees.
pub open spec fn lists_seen(txn: redb::ReadTransaction, listing: Listing) -> bool {
    code_index_seen(txn) matches Some(by_code) && lists(listing, by_code)
}

/// `txn` lists no table `c2u`: the sign that the two tables are yet to be
/// made.
pub open spec fn lacks_schema(txn: redb::ReadTransaction) -> bool {
    !tables_listed(txn).contains(CODE_TO_URL@)
}

/// `admission` is what insert-or-reuse answers for `url` on tables that hold
/// `before`: the code of a known URL, or for an unknown URL a code that was
/// free.
pub open spec fn admits(before: Links, url: Text, admission: Admission) -> bool {
    &&& admission.created == (before.code_of(url) is None)
    &&& admission.created ==> is_code(admission.code@) && !before.occupied(admission.code@)
    &&& !admission.created ==> before.code_of(url) == Some(admission.code@)
}

/// `admission` is what insert-or-reuse answers for `url` on `tables`, and
/// `tables` are the two that the store keeps.
pub open spec fn admitted_on(tables: WriteTables<'_>, url: Text, admission: Admission) -> bool {
    tables.named() && admits(tables@, url, admission)
}

/// `place` is where the first free code stands among `candidates`: the code
/// there is not in the code index of `links`, and every one before it is.
pub open spec fn first_free(links: Links, candidates: Seq<String>, place: int) -> bool {
    &&& 0 <= place < candidates.len()
    &&& !links.occupied(candidates[place]@)
    &&& forall|j: int| 0 <= j < place ==> links.occupied((#[trigger] candidates[j])@)
}

/// Every one of `candidates` is taken in the code index of `links`.
pub open spec fn none_free(links: Links, candidates: Seq<String>) -> bool {
    forall|j: int| 0 <= j < candidates.len() ==> links.occupied((#[trigger] candidates[j])@)
}

/// On `tables`, the two that the store keeps, `url` is unknown and a code
/// that was drawn for it is taken: what a search for a free code ends on
/// when it gives up.
pub open spec fn exhausted_on(tables: WriteTables<'_>, url: Text) -> bool {
    &&& tables.named()
    &&& tables@.code_of(url) is None
    &&& exists|taken: Text| is_code(taken) && #[trigger] tables@.occupied(taken)
}

/// Both tables, open for reading and writing inside one write transaction.
pub struct WriteTables<'txn> {
    by_url: Index<'txn>,
    by_code: Index<'txn>,
}

impl<'txn> View for WriteTables<'txn> {
    type V = Links;

    closed spec fn view(&self) -> Links {
        Links { by_code: index_entries(self.by_code), by_url: index_entries(self.by_url) }
    }
}

impl<'txn> WriteTables<'txn> {
    /// The tables are the two that the store keeps: the URL index is the
    /// table `u2c`, the code index the table `c2u`.
    pub closed spec fn named(&self) -> bool {
        &&& index_name(self.by_url) == URL_TO_CODE@
        &&& index_name(self.by_code) == CODE_TO_URL@
    }

    /// Opens both tables in `txn`, creating those that do not exist: `u2c`
    /// as the URL index, `c2u` as the code index.
    pub fn open(txn: &'txn redb::WriteTransaction) -> (r: Result<WriteTables<'txn>, StoreError>)
        ensures
            match r {
                Ok(tables) => tables.named(),
                Err(e) => e is Open,
            },
    {
        proof {
            reveal_strlit("u2c");
            reveal_strlit("c2u");
        }
        let by_url = match open_index(txn, URL_TO_CODE) {
            Ok(table) => table,
            Err(e) => {
                return Err(StoreError::Open(e));
            },
        };
        let by_code = match open_index(txn, CODE_TO_URL) {
            Ok(table) => table,
            Err(e) => {
                return Err(StoreError::Open(e));
            },
        };
        Ok(WriteTables { by_url, by_code })
    }

    /// The code under which `url` is known, if it is.
    pub fn code_of(&self, url: &str) -> (r: Result<Option<String>, StoreError>)
        ensures
            match r {
                Ok(found) => text_of(found) == self@.code_of(url@),
                Err(e) => e is Access,
            },
    {
        match index_get(&self.by_url, url) {
            Ok(found) => Ok(found),
            Err(e) => Err(StoreError::Access(e)),
        }
    }

    /// The URL that `code` stands for, if it stands for one.
    pub fn resolve(&self, code: &str) -> (r: Result<Option<String>, StoreError>)
        ensures
            match r {
                Ok(found) => text_of(found) == self@.resolve(code@),
                Err(e) => e is Access,
            },
    {
        match index_get(&self.by_code, code) {
            Ok(found) => Ok(found),
            Err(e) => Err(StoreError::Access(e)),
        }
    }

    /// Whether `code` is taken in the code index.
    pub fn occupied(&self, code: &str) -> (r: Result<bool, StoreError>)
        ensures
            match r {
                Ok(taken) => taken == self@.occupied(code@),
                Err(e) => e is Access,
            },
    {
        match index_get(&self.by_code, code) {
            Ok(Some(_)) => Ok(true),
            Ok(None) => Ok(false),
            Err(e) => Err(StoreError::Access(e)),
        }
    }

    /// Writes `(code, url)` to both tables, the code index first. After a
    /// failure the tables may hold half of the link: the transaction must be
    /// abandoned.
    fn link(&mut self, code: &str, url: &str) -> (r: Result<(), StoreError>)
        ensures
            match r {
                Ok(()) => final(self)@ == old(self)@.link(code@, url@),
                Err(e) => e is Access,
            },
    {
        match index_insert(&mut self.by_code, code, url) {
            Ok(()) => {},
            Err(e) => {
                return Err(StoreError::Access(e));
            },
        }
        match index_insert(&mut self.by_url, url, code) {
            Ok(()) => Ok(()),
            Err(e) => Err(StoreError::Access(e)),
        }
    }

    /// The search for a free code and the insert, on the candidates that the
    /// caller has drawn: the candidates are tried in their order, and `url` is
    /// linked to the first that is free in the code index. The answer is the
    /// place of that candidate; `None`, with nothing written, exactly where
    /// every candidate is taken.
    ///
    /// The URL is not looked up here. The caller has found it unknown; the
    /// code of a known URL would be replaced.
    pub fn link_first_free(&mut self, url: &str, candidates: &[String]) -> (r: Result<
        Option<usize>,
        StoreError,
    >)
        ensures
            match r {
                Ok(Some(place)) => {
                    &&& first_free(old(self)@, candidates@, place as int)
                    &&& final(self)@ == old(self)@.link(candidates[place as int]@, url@)
                },
                Ok(None) => none_free(old(self)@, candidates@) && final(self)@ == old(self)@,
                Err(e) => e is Access,
            },
            r is Ok && old(self)@.consistent() && old(self)@.code_of(url@) is None
                ==> final(self)@.consistent(),
    {
        let mut place: usize = 0;
        while place < candidates.len()
            invariant
                place <= candidates.len(),
                self@ == old(self)@,
                forall|j: int| 0 <= j < place ==> old(self)@.occupied((#[trigger] candidates[j])@),
            decreases candidates.len() - place,
        {
            match self.occupied(candidates[place].as_str()) {
                Ok(true) => {},
                Ok(false) => {
                    proof {
                        if old(self)@.consistent() && old(self)@.code_of(url@) is None {
                            crate::links::law_link_keeps_consistent(
                                old(self)@,
                                candidates[place as int]@,
                                url@,
                            );
                        }
                    }
                    return match self.link(candidates[place].as_str(), url) {
                        Ok(()) => Ok(Some(place)),
                        Err(e) => Err(e),
                    };
                },
                Err(e) => {
                    return Err(e);
                },
            }
            place = place + 1;
        }
        Ok(None)
    }

    /// One attempt at insert-or-reuse with the candidate codes that the
    /// caller hands in. A known URL is answered with its code. An unknown URL
    /// is linked to the first candidate that is free; a candidate that is
    /// taken is passed over for the next. Only where every candidate is taken
    /// is nothing written, and the caller may try others.
    pub fn put_with(&mut self, url: &str, candidates: &[String]) -> (r: Result<
        Attempt,
        StoreError,
    >)
        ensures
            match r {
                Ok(Attempt::Reused { code }) => {
                    &&& old(self)@.code_of(url@) == Some(code@)
                    &&& final(self)@ == old(self)@
                },
                Ok(Attempt::Created { code }) => {
                    &&& old(self)@.code_of(url@) is None
                    &&& exists|place: int| #[trigger]
                        first_free(old(self)@, candidates@, place) && code@
                            == candidates[place]@
                    &&& final(self)@ == old(self)@.link(code@, url@)
                },
                Ok(Attempt::Taken) => {
                    &&& old(self)@.code_of(url@) is None
                    &&& none_free(old(self)@, candidates@)
                    &&& final(self)@ == old(self)@
                },
                Err(e) => e is Access,
            },
            r is Ok && old(self)@.consistent() ==> final(self)@.consistent(),
    {
        match self.code_of(url) {
            Ok(Some(code)) => {
                return Ok(Attempt::Reused { code });
            },
            Ok(None) => {},
            Err(e) => {
                return Err(e);
            },
        }
        match self.link_first_free(url, candidates) {
            Ok(Some(place)) => Ok(Attempt::Created { code: candidates[place].clone() }),
            Ok(None) => Ok(Attempt::Taken),
            Err(e) => Err(e),
        }
    }

    /// Insert-or-reuse. A known URL is answered with the code it has, and
    /// nothing is written. For an unknown URL candidate codes are drawn, one
    /// at a time, and each is handed to [`WriteTables::link_first_free`]: the
    /// first that is free in the code index is linked, in both tables. A
    /// candidate that is taken is dropped, and the next is drawn.
    ///
    /// The draws are counted: after `MAX_DRAWS` taken candidates the next one
    /// is the last, so the search ends whatever the generator hands out.
    ///
    /// On `Ok` the tables and the code are exactly what the model's `put`
    /// gives for the code that was drawn. On `Err` the tables may hold half
    /// of a link, except after `NoFreeCode`, where nothing was written.
    pub fn put_or_reuse(&mut self, url: &str) -> (r: Result<Admission, StoreError>)
        ensures
            match r {
                Ok(admission) => {
                    &&& admission.created == (old(self)@.code_of(url@) is None)
                    &&& admission.created ==> is_code(admission.code@) && !old(self)@.occupied(
                        admission.code@,
                    )
                    &&& (final(self)@, admission.code@) == old(self)@.put(url@, admission.code@)
                },
                Err(e) => {
                    &&& e is Access || e is NoFreeCode
                    &&& e is NoFreeCode ==> {
                        &&& final(self)@ == old(self)@
                        &&& old(self)@.code_of(url@) is None
                        &&& exists|taken: Text|
                            is_code(taken) && #[trigger] old(self)@.occupied(taken)
                    }
                },
            },
            r is Ok && old(self)@.consistent() ==> final(self)@.consistent(),
    {
        match self.code_of(url) {
            Ok(Some(code)) => {
                return Ok(Admission { code, created: false });
            },
            Ok(None) => {},
            Err(e) => {
                return Err(e);
            },
        }
        let mut draws_left: u64 = MAX_DRAWS;
        loop
            invariant
                self@ == old(self)@,
                old(self)@.code_of(url@) is None,
            decreases draws_left,
        {
            let mut drawn: Vec<String> = Vec::new();
            drawn.push(gen_key());
            match self.link_first_free(url, drawn.as_slice()) {
                Ok(Some(place)) => {
                    return Ok(Admission { code: drawn[place].clone(), created: true });
                },
                Ok(None) => {
                    assert(old(self)@.occupied(drawn[0]@));
                },
                Err(e) => {
                    return Err(e);
                },
            }
            if draws_left == 0 {
                return Err(StoreError::NoFreeCode);
            }
            draws_left = draws_left - 1;
        }
    }
}

/// The code index as one read transaction saw it.
pub struct CodeIndex {
    by_code: Snapshot,
}

impl View for CodeIndex {
    type V = Map<Text, Text>;

    closed spec fn view(&self) -> Map<Text, Text> {
        snapshot_entries(self.by_code)
    }
}

impl CodeIndex {
    /// Opens the code index in `txn`: the table `c2u` as the transaction
    /// sees it. A file without that table is an error.
    pub fn open(txn: &redb::ReadTransaction) -> (r: Result<CodeIndex, StoreError>)
        ensures
            match r {
                Ok(index) => code_index_seen(*txn) == Some(index@),
                Err(e) => e is Open,
            },
    {
        proof {
            reveal_strlit("c2u");
        }
        match open_snapshot(txn, CODE_TO_URL) {
            Ok(by_code) => Ok(CodeIndex { by_code }),
            Err(e) => Err(StoreError::Open(e)),
        }
    }

    /// The URL that `code` stands for, if it stands for one.
    pub fn resolve(&self, code: &str) -> (r: Result<Option<String>, StoreError>)
        ensures
            match r {
                Ok(Some(url)) => self@.contains_key(code@) && self@[code@] == url@,
                Ok(None) => !self@.contains_key(code@),
                Err(e) => e is Access,
            },
    {
        match snapshot_get(&self.by_code, code) {
            Ok(found) => Ok(found),
            Err(e) => Err(StoreError::Access(e)),
        }
    }

    /// All mappings of the index, with their number. No order is promised.
    pub fn list(&self) -> (r: Result<Listing, StoreError>)
        ensures
            match r {
                Ok(listing) => lists(listing, self@),
                Err(e) => e is Access,
            },
    {
        let count = match snapshot_len(&self.by_code) {
            Ok(n) => n,
            Err(e) => {
                return Err(StoreError::Access(e));
            },
        };
        match snapshot_rows(&self.by_code) {
            Ok(rows) => Ok(Listing { count, rows }),
            Err(e) => Err(StoreError::Access(e)),
        }
    }
}

/// Whether `names` lacks the code index: the sign that the two tables were
/// never made.
pub fn schema_missing(names: &Vec<String>) -> (missing: bool)
    ensures
        missing == !exists|i: int| 0 <= i < names.len() && #[trigger] names[i]@ == CODE_TO_URL@,
{
    let wanted = CODE_TO_URL.to_owned();
    let mut i: usize = 0;
    while i < names.len()
        invariant
            i <= names.len(),
            wanted@ == CODE_TO_URL@,
            forall|j: int| 0 <= j < i ==> #[trigger] names[j]@ != CODE_TO_URL@,
        decreases names.len() - i,
    {
        if names[i] == wanted {
            return false;
        }
        i = i + 1;
    }
    true
}

/// Makes the two tables, empty, if the file has no code index yet; answers
/// whether it made them. Calling it again changes nothing.
///
/// The answer is read off what a read transaction listed: `true` exactly
/// where it listed no table `c2u`. Where the answer is `true`, both
/// tables were opened under their names, which makes them, in a write
/// transaction that was then committed.
pub fn ensure_schema(db: &redb::Database) -> (r: Result<bool, StoreError>)
    ensures
        match r {
            Ok(made) => {
                &&& exists|txn: redb::ReadTransaction| made == #[trigger] lacks_schema(txn)
                &&& made ==> exists|tables: WriteTables<'_>| #[trigger] tables.named()
            },
            Err(e) => e is Begin || e is Open || e is Access || e is Commit,
        },
{
    let ghost mut listing: Option<redb::ReadTransaction> = None;
    let names = {
        let txn = match begin_read(db) {
            Ok(txn) => txn,
            Err(e) => {
                return Err(StoreError::Begin(e));
            },
        };
        match table_names(&txn) {
            Ok(names) => {
                proof {
                    listing = Some(txn);
                }
                names
            },
            Err(e) => {
                return Err(StoreError::Access(e));
            },
        }
    };
    let missing = schema_missing(&names);
    proof {
        let txn = listing.unwrap();
        assert(tables_listed(txn).contains(CODE_TO_URL@) <==> !missing);
        assert(missing == lacks_schema(txn));
    }
    if !missing {
        return Ok(false);
    }
    let txn = match db.begin_write() {
        Ok(txn) => txn,
        Err(e) => {
            return Err(StoreError::Begin(e));
        },
    };
    match WriteTables::open(&txn) {
        Ok(tables) => {
            assert(exists|opened: WriteTables<'_>| #[trigger] opened.named()) by {
                assert(tables.named());
            }
        },
        Err(e) => {
            return Err(e);
        },
    }
    match txn.commit() {
        Ok(()) => Ok(true),
        Err(e) => Err(StoreError::Commit(e)),
    }
}

/// Looks `code` up in the code index, in a read transaction of its own: the
/// answer is what that transaction sees under the code.
pub fn resolve(db: &redb::Database, code: &str) -> (r: Result<Option<String>, StoreError>)
    ensures
        match r {
            Ok(found) => answers(code@, text_of(found)),
            Err(e) => e is Begin || e is Open || e is Access,
        },
{
    let txn = match begin_read(db) {
        Ok(txn) => txn,
        Err(e) => {
            return Err(StoreError::Begin(e));
        },
    };
    let index = match CodeIndex::open(&txn) {
        Ok(index) => index,
        Err(e) => {
            return Err(e);
        },
    };
    let r = index.resolve(code);
    assert(r matches Ok(found) ==> sees(txn, code@, text_of(found)));
    r
}

/// Insert-or-reuse in a write transaction of its own. A new link is
/// committed before its code is answered; a reused code needs no commit. On
/// any failure the transaction is dropped uncommitted, so no half of a link
/// reaches the file.
///
/// The answer is the one that insert-or-reuse gives on the two tables of
/// that transaction: the code that the URL index holds for a known URL, and
/// for an unknown URL a code that was free in the code index. `NoFreeCode`
/// comes only for an unknown URL, after a drawn code was found taken.
pub fn put_or_reuse(db: &redb::Database, url: &str) -> (r: Result<Admission, StoreError>)
    ensures
        r matches Ok(admission) ==> exists|tables: WriteTables<'_>| #[trigger]
            admitted_on(tables, url@, admission),
        r matches Err(e) ==> (e is NoFreeCode ==> exists|tables: WriteTables<'_>| #[trigger]
            exhausted_on(tables, url@)),
{
    let txn = match db.begin_write() {
        Ok(txn) => txn,
        Err(e) => {
            return Err(StoreError::Begin(e));
        },
    };
    let outcome = match WriteTables::open(&txn) {
        Ok(mut tables) => {
            let ghost before = tables;
            let outcome = tables.put_or_reuse(url);
            assert(outcome matches Ok(admission) ==> admitted_on(before, url@, admission));
            assert(outcome matches Err(e) ==> (e is NoFreeCode ==> exhausted_on(before, url@)));
            outcome
        },
        Err(e) => Err(e),
    };
    match outcome {
        Ok(admission) => {
            if admission.created {
                match txn.commit() {
                    Ok(()) => Ok(admission),
                    Err(e) => Err(StoreError::Commit(e)),
                }
            } else {
                Ok(admission)
            }
        },
        Err(e) => Err(e),
    }
}

/// Lists the code index, in a read transaction of its own: the listing is
/// that of the code index as that transaction sees it.
pub fn list_all(db: &redb::Database) -> (r: Result<Listing, StoreError>)
    ensures
        match r {
            Ok(listing) => exists|txn: redb::ReadTransaction| #[trigger] lists_seen(txn, listing),
            Err(e) => e is Begin || e is Open || e is Access,
        },
{
    let txn = match begin_read(db) {
        Ok(txn) => txn,
        Err(e) => {
            return Err(StoreError::Begin(e));
        },
    };
    let index = match CodeIndex::open(&txn) {
        Ok(index) => index,
        Err(e) => {
            return Err(e);
        },
    };
    let r = index.list();
    assert(r matches Ok(listing) ==> lists_seen(txn, listing));
    r
}

} // verus!
