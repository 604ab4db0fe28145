//! The mathematical model of the link store: two maps, one from short codes to
//! URLs and one from URLs to short codes, and the transitions between them.
//!
//! Everything here is ghost code: definitions and proofs. The executable store
//! states its contracts over these definitions, so what is proved here of the
//! model holds of every call into the tables that returns `Ok`.

use vstd::prelude::*;

verus! {

/// Text as the model sees it: a sequence of Unicode scalar values.
pub type Text = Seq<char>;

/// The contents of the two indexes at one point in time.
pub struct Links {
    /// code -> URL
    pub by_code: Map<Text, Text>,
    /// URL -> code
    pub by_url: Map<Text, Text>,
}

impl Links {
    /// The store with no link in it.
    pub open spec fn empty() -> Links {
        Links { by_code: Map::empty(), by_url: Map::empty() }
    }

    /// `(code, url)` is a link of the store: both indexes hold it.
    pub open spec fn has_link(self, code: Text, url: Text) -> bool {
        &&& self.by_code.contains_key(code)
        &&& self.by_code[code] == url
        &&& self.by_url.contains_key(url)
        &&& self.by_url[url] == code
    }

    /// The two indexes are exact inverses of one another: every entry of either
    /// index is a link. No half-entry, no URL under two codes, no code for two
    /// URLs.
    pub open spec fn consistent(self) -> bool {
        &&& forall|code: Text| #[trigger]
            self.by_code.contains_key(code) ==> self.has_link(code, self.by_code[code])
        &&& forall|url: Text| #[trigger]
            self.by_url.contains_key(url) ==> self.has_link(self.by_url[url], url)
    }

    /// What a lookup by code answers.
    pub open spec fn resolve(self, code: Text) -> Option<Text> {
        if self.by_code.contains_key(code) {
            Some(self.by_code[code])
        } else {
            None
        }
    }

    /// The code under which `url` is already known, if it is.
    pub open spec fn code_of(self, url: Text) -> Option<Text> {
        if self.by_url.contains_key(url) {
            Some(self.by_url[url])
        } else {
            None
        }
    }

    /// `code` is already taken in the code index.
    pub open spec fn occupied(self, code: Text) -> bool {
        self.by_code.contains_key(code)
    }

    /// The store after `(code, url)` was written to both indexes.
    pub open spec fn link(self, code: Text, url: Text) -> Links {
        Links { by_code: self.by_code.insert(code, url), by_url: self.by_url.insert(url, code) }
    }

    /// Insert-or-reuse: a known URL keeps its code and leaves the store as it
    /// is; an unknown URL is linked to `candidate`. The result is the store
    /// afterwards and the code that the caller is told.
    pub open spec fn put(self, url: Text, candidate: Text) -> (Links, Text) {
        match self.code_of(url) {
            Some(code) => (self, code),
            None => (self.link(candidate, url), candidate),
        }
    }

    /// The codes that lead to `url`.
    pub open spec fn codes_for(self, url: Text) -> Set<Text> {
        Set::new(|code: Text| self.by_code.contains_key(code) && self.by_code[code] == url)
    }
}

/// The empty store is consistent.
pub proof fn law_empty_consistent()
    ensures
        Links::empty().consistent(),
{
}

/// Linking an unknown URL to an unoccupied code keeps the two indexes exact
/// inverses.
pub proof fn law_link_keeps_consistent(s: Links, code: Text, url: Text)
    requires
        s.consistent(),
        !s.occupied(code),
        s.code_of(url) is None,
    ensures
        s.link(code, url).consistent(),
        s.link(code, url).has_link(code, url),
{
    let t = s.link(code, url);
    assert forall|c: Text| #[trigger] t.by_code.contains_key(c) implies t.has_link(
        c,
        t.by_code[c],
    ) by {
        if c != code {
            assert(s.by_code.contains_key(c));
            assert(s.has_link(c, s.by_code[c]));
        }
    }
    assert forall|u: Text| #[trigger] t.by_url.contains_key(u) implies t.has_link(
        t.by_url[u],
        u,
    ) by {
        if u != url {
            assert(s.by_url.contains_key(u));
            assert(s.has_link(s.by_url[u], u));
        }
    }
}

/// Bijectivity: insert-or-reuse with an unoccupied candidate keeps the two
/// indexes exact inverses, whatever the URL.
pub proof fn law_put_keeps_consistent(s: Links, url: Text, candidate: Text)
    requires
        s.consistent(),
        !s.occupied(candidate),
    ensures
        s.put(url, candidate).0.consistent(),
{
    if s.code_of(url) is None {
        law_link_keeps_consistent(s, candidate, url);
    }
}

/// Round trip: in a consistent store every link resolves, by its code, to its
/// URL; and what resolves is a link.
pub proof fn law_round_trip(s: Links, code: Text, url: Text)
    requires
        s.consistent(),
    ensures
        s.has_link(code, url) ==> s.resolve(code) == Some(url),
        s.resolve(code) == Some(url) ==> s.has_link(code, url),
        s.code_of(url) == Some(code) ==> s.resolve(code) == Some(url),
{
    if s.resolve(code) == Some(url) {
        assert(s.by_code.contains_key(code));
    }
    if s.code_of(url) == Some(code) {
        assert(s.by_url.contains_key(url));
    }
}

/// Round trip through a submission: the code that insert-or-reuse answers
/// resolves to the submitted URL.
pub proof fn law_put_then_resolve(s: Links, url: Text, candidate: Text)
    requires
        s.consistent(),
    ensures
        ({
            let (after, code) = s.put(url, candidate);
            after.resolve(code) == Some(url)
        }),
{
    if s.code_of(url) is Some {
        assert(s.by_url.contains_key(url));
    }
}

/// Idempotence: a second submission of the same URL answers the code of the
/// first, whatever candidate it was handed, and leaves the store as the first
/// left it.
pub proof fn law_put_idempotent(s: Links, url: Text, first: Text, second: Text)
    ensures
        ({
            let (once, code) = s.put(url, first);
            let (twice, again) = once.put(url, second);
            &&& again == code
            &&& twice == once
        }),
{
    let (once, code) = s.put(url, first);
    assert(once.by_url.contains_key(url));
}

/// After a submission the store holds exactly one link for the URL: the code
/// that was answered leads to it, and no other code does.
pub proof fn law_put_leaves_one_link(s: Links, url: Text, candidate: Text)
    requires
        s.consistent(),
        !s.occupied(candidate),
    ensures
        ({
            let (after, code) = s.put(url, candidate);
            &&& after.has_link(code, url)
            &&& after.codes_for(url) == set![code]
        }),
{
    let (after, code) = s.put(url, candidate);
    law_put_keeps_consistent(s, url, candidate);
    if s.code_of(url) is Some {
        assert(s.by_url.contains_key(url));
    }
    assert(after.has_link(code, url));
    assert forall|c: Text| after.codes_for(url).contains(c) implies c == code by {
        assert(after.by_code.contains_key(c));
        assert(after.has_link(c, url));
    }
    assert(after.codes_for(url).contains(code));
    assert(after.codes_for(url) =~= set![code]);
}

/// A link, once made, stays as it is: a submission with an unoccupied
/// candidate changes neither what an occupied code resolves to nor the code
/// of a known URL.
pub proof fn law_put_preserves_links(s: Links, url: Text, candidate: Text)
    requires
        !s.occupied(candidate),
    ensures
        forall|code: Text| #[trigger]
            s.occupied(code) ==> s.put(url, candidate).0.resolve(code) == s.resolve(code),
        forall|known: Text|
            s.code_of(known) is Some ==> #[trigger] s.put(url, candidate).0.code_of(known)
                == s.code_of(known),
{
}

/// Why the look-up comes before the insert: writing a link under an occupied
/// code replaces what the code stood for, and leaves the URL it stood for
/// with a code that leads elsewhere.
pub proof fn law_link_replaces(s: Links, code: Text, url: Text, before: Text)
    requires
        s.has_link(code, before),
        before != url,
    ensures
        s.link(code, url).resolve(code) == Some(url),
        s.link(code, url).code_of(before) == Some(code),
        !s.link(code, url).consistent(),
{
    let t = s.link(code, url);
    assert(t.by_url.contains_key(before));
    assert(!t.has_link(t.by_url[before], before));
}

} // verus!
