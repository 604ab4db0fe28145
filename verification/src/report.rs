//! The listing of a database, as lines of text for an operator to read.

use crate::index::Row;
use crate::links::Text;
use crate::store::Listing;
use vstd::prelude::*;

verus! {

/// The decimal digit `d`.
pub open spec fn digit(d: nat) -> char
    recommends
        d < 10,
{
    ('0' as int + d) as char
}

/// `n` in decimal, without leading zeros.
pub open spec fn decimal(n: nat) -> Text
    decreases n,
{
    if n < 10 {
        seq![digit(n)]
    } else {
        decimal(n / 10).push(digit(n % 10))
    }
}

/// The first line of a listing.
pub open spec fn heading_text(count: nat, path: Text) -> Text {
    decimal(count) + " mapping"@ + (if count == 1 {
        ""@
    } else {
        "s"@
    }) + " found in "@ + path + ":"@
}

/// The line of a row that could be read.
pub open spec fn mapping_text(code: Text, url: Text) -> Text {
    "  "@ + code + " -> "@ + url
}

/// What the line of an unreadable row begins with.
pub open spec fn unreadable_prefix() -> Text {
    "  error reading mapping: "@
}

fn digit_str(d: u64) -> (text: &'static str)
    requires
        d < 10,
    ensures
        text@ == seq![digit(d as nat)],
{
    proof {
        reveal_strlit("0");
        reveal_strlit("1");
        reveal_strlit("2");
        reveal_strlit("3");
        reveal_strlit("4");
        reveal_strlit("5");
        reveal_strlit("6");
        reveal_strlit("7");
        reveal_strlit("8");
        reveal_strlit("9");
    }
    let text = if d == 0 {
        "0"
    } else if d == 1 {
        "1"
    } else if d == 2 {
        "2"
    } else if d == 3 {
        "3"
    } else if d == 4 {
        "4"
    } else if d == 5 {
        "5"
    } else if d == 6 {
        "6"
    } else if d == 7 {
        "7"
    } else if d == 8 {
        "8"
    } else {
        "9"
    };
    assert(text@ =~= seq![digit(d as nat)]);
    text
}

/// `n` written in decimal.
pub fn decimal_string(n: u64) -> (text: String)
    ensures
        text@ == decimal(n as nat),
    decreases n,
{
    if n < 10 {
        digit_str(n).to_owned()
    } else {
        let text = decimal_string(n / 10).concat(digit_str(n % 10));
        assert(text@ =~= decimal(n as nat));
        text
    }
}

/// The first line of a listing: how many mappings were found, and where.
pub fn heading(count: u64, path: &str) -> (line: String)
    ensures
        line@ == heading_text(count as nat, path@),
{
    let plural = if count == 1 {
        ""
    } else {
        "s"
    };
    decimal_string(count).concat(" mapping").concat(plural).concat(" found in ").concat(
        path,
    ).concat(":")
}

/// The line of one row: the mapping, or the error that kept it from being
/// read.
pub fn row_line(row: &Row) -> (line: String)
    ensures
        match row {
            Ok(pair) => line@ == mapping_text(pair.0@, pair.1@),
            Err(_) => unreadable_prefix().is_prefix_of(line@),
        },
{
    match row {
        Ok(pair) => "  ".to_owned().concat(pair.0.as_str()).concat(" -> ").concat(
            pair.1.as_str(),
        ),
        Err(e) => {
            let detail = e.to_string();
            "  error reading mapping: ".to_owned().concat(detail.as_str())
        },
    }
}

/// The lines of a listing: the heading, then one line for each row in the
/// order of the rows.
pub fn report(listing: &Listing, path: &str) -> (lines: Vec<String>)
    ensures
        lines.len() == listing.rows.len() + 1,
        lines[0]@ == heading_text(listing.count as nat, path@),
        forall|i: int|
            0 <= i < listing.rows.len() ==> match listing.rows[i] {
                Ok(pair) => (#[trigger] lines[i + 1])@ == mapping_text(pair.0@, pair.1@),
                Err(_) => unreadable_prefix().is_prefix_of(lines[i + 1]@),
            },
{
    let mut lines: Vec<String> = Vec::new();
    lines.push(heading(listing.count, path));
    let mut i: usize = 0;
    while i < listing.rows.len()
        invariant
            i <= listing.rows.len(),
            lines.len() == i + 1,
            lines[0]@ == heading_text(listing.count as nat, path@),
            forall|j: int|
                0 <= j < i ==> match listing.rows[j] {
                    Ok(pair) => (#[trigger] lines[j + 1])@ == mapping_text(pair.0@, pair.1@),
                    Err(_) => unreadable_prefix().is_prefix_of(lines[j + 1]@),
                },
        decreases listing.rows.len() - i,
    {
        lines.push(row_line(&listing.rows[i]));
        i = i + 1;
    }
    lines
}

} // verus!
