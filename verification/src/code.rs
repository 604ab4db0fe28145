//! Short codes: four random bytes, written in the URL-safe base64 alphabet
//! without padding. Six characters, each of them safe in a URL path.
//!
//! A code is not unique by construction. The store draws again when a code is
//! taken.

use base64::Engine;
use rand::RngExt;
use vstd::prelude::*;

verus! {

/// The number of random bytes behind a code.
pub const CODE_BYTES: usize = 4;

/// The number of characters of a code.
pub const CODE_LEN: usize = 6;

/// The character that stands for the six-bit value `v` in the URL-safe base64
/// alphabet: `A`-`Z`, `a`-`z`, `0`-`9`, `-`, `_`.
pub open spec fn symbol(v: int) -> char {
    if v < 26 {
        ('A' as int + v) as char
    } else if v < 52 {
        ('a' as int + (v - 26)) as char
    } else if v < 62 {
        ('0' as int + (v - 52)) as char
    } else if v == 62 {
        '-'
    } else {
        '_'
    }
}

/// The six-bit groups of four bytes, most significant bits first; the last
/// group is filled up with zero bits.
pub open spec fn sextets(bytes: Seq<u8>) -> Seq<int>
    recommends
        bytes.len() == CODE_BYTES,
{
    seq![
        bytes[0] as int / 4,
        (bytes[0] as int % 4) * 16 + bytes[1] as int / 16,
        (bytes[1] as int % 16) * 4 + bytes[2] as int / 64,
        bytes[2] as int % 64,
        bytes[3] as int / 4,
        (bytes[3] as int % 4) * 16,
    ]
}

/// The code of four bytes: their unpadded URL-safe base64 text.
pub open spec fn code_text(bytes: Seq<u8>) -> Seq<char>
    recommends
        bytes.len() == CODE_BYTES,
{
    Seq::new(CODE_LEN as nat, |i: int| symbol(sextets(bytes)[i]))
}

/// `c` may stand in a URL path as it is: an ASCII letter, a digit, `-` or `_`.
pub open spec fn url_safe(c: char) -> bool {
    ||| 'A' <= c <= 'Z'
    ||| 'a' <= c <= 'z'
    ||| '0' <= c <= '9'
    ||| c == '-'
    ||| c == '_'
}

/// `s` is the code of some four bytes.
pub open spec fn is_code(s: Seq<char>) -> bool {
    exists|bytes: Seq<u8>| bytes.len() == CODE_BYTES && s == #[trigger] code_text(bytes)
}

/// A code has six characters, and each of them is URL-safe.
pub proof fn lemma_code_shape(s: Seq<char>)
    requires
        is_code(s),
    ensures
        s.len() == CODE_LEN,
        forall|i: int| 0 <= i < s.len() ==> url_safe(#[trigger] s[i]),
{
    let bytes = choose|bytes: Seq<u8>|
        bytes.len() == CODE_BYTES && s == #[trigger] code_text(bytes);
    let groups = sextets(bytes);
    assert forall|i: int| 0 <= i < s.len() implies url_safe(#[trigger] s[i]) by {
        assert(0 <= groups[i] < 64);
        assert(s[i] == symbol(groups[i]));
    }
}

/// `rand::rng()` and `RngExt::fill` on four bytes. Nothing is claimed of the
/// bytes: they are random. Both panic where the operating system has no
/// seed to give: `rand::rng()` when the thread's generator is first set up,
/// `fill` when the generator is due for a new seed.
#[verifier::external_body]
fn random_bytes() -> (bytes: [u8; 4]) {
    let mut bytes = [0u8; 4];
    rand::rng().fill(&mut bytes);
    bytes
}

/// `base64::Engine::encode` of the `URL_SAFE_NO_PAD` engine, on four bytes.
/// Claimed: the result is the unpadded base64 text of the bytes in the
/// URL-safe alphabet, as `code_text` spells it out.
#[verifier::external_body]
fn encode_url_safe(bytes: &[u8; 4]) -> (text: String)
    ensures
        text@ == code_text(bytes@),
{
    base64::prelude::BASE64_URL_SAFE_NO_PAD.encode(bytes)
}

/// The code of the given bytes.
pub fn code_for(bytes: [u8; 4]) -> (code: String)
    ensures
        code@ == code_text(bytes@),
        is_code(code@),
{
    encode_url_safe(&bytes)
}

/// A fresh candidate code: the code of four random bytes. Two calls may give
/// the same code; nothing here makes a code unique.
pub fn gen_key() -> (code: String)
    ensures
        is_code(code@),
        code@.len() == CODE_LEN,
        forall|i: int| 0 <= i < code@.len() ==> url_safe(#[trigger] code@[i]),
{
    let bytes = random_bytes();
    let code = code_for(bytes);
    proof {
        lemma_code_shape(code@);
    }
    code
}

} // verus!
