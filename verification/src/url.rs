//! Validation and normalisation of a submitted URL.
//!
//! The bytes are decoded as UTF-8, trimmed, parsed as a URI and written out
//! again in the parser's canonical form; the scheme must be `http` or
//! `https`. What is stored and compared is the canonical form, so that
//! submissions which differ only in insignificant formatting share one code.
//!
//! Parsing and re-serialising is the `http` crate's work. Its result is named
//! [`parsed_uri`]; this module's contracts are exact over that name.

use crate::links::Text;
use vstd::prelude::*;
use vstd::utf8::{decode_utf8, valid_utf8};

verus! {

/// `core::str::Utf8Error`, carried through as it is.
#[verifier::external_type_specification]
#[verifier::external_body]
pub struct ExUtf8Error(core::str::Utf8Error);

/// `http::uri::InvalidUri`, carried through as it is.
#[verifier::external_type_specification]
#[verifier::external_body]
pub struct ExInvalidUri(axum::http::uri::InvalidUri);

/// `c` has the Unicode property `White_Space`.
pub open spec fn is_white_space(c: char) -> bool {
    let n = c as u32;
    ||| 0x09 <= n <= 0x0d
    ||| n == 0x20
    ||| n == 0x85
    ||| n == 0xa0
    ||| n == 0x1680
    ||| 0x2000 <= n <= 0x200a
    ||| n == 0x2028
    ||| n == 0x2029
    ||| n == 0x202f
    ||| n == 0x205f
    ||| n == 0x3000
}

/// `s` without its leading white space.
pub open spec fn trim_start(s: Text) -> Text
    decreases s.len(),
{
    if s.len() > 0 && is_white_space(s.first()) {
        trim_start(s.drop_first())
    } else {
        s
    }
}

/// `s` without its trailing white space.
pub open spec fn trim_end(s: Text) -> Text
    decreases s.len(),
{
    if s.len() > 0 && is_white_space(s.last()) {
        trim_end(s.drop_last())
    } else {
        s
    }
}

/// `s` without the white space around it.
pub open spec fn trimmed(s: Text) -> Text {
    trim_end(trim_start(s))
}

/// What the logic reads of a parsed URI: its canonical text and its scheme.
#[derive(Debug, PartialEq, Eq)]
pub struct ParsedUrl {
    /// The URI written out again by the parser.
    pub text: String,
    /// The scheme, where the URI has one.
    pub scheme: Option<String>,
}

/// The view of a [`ParsedUrl`].
pub struct UrlParts {
    pub text: Text,
    pub scheme: Option<Text>,
}

impl View for ParsedUrl {
    type V = UrlParts;

    open spec fn view(&self) -> UrlParts {
        UrlParts {
            text: self.text@,
            scheme: match self.scheme {
                Some(s) => Some(s@),
                None => None,
            },
        }
    }
}

/// What the `http` crate makes of `text`: `None` where it does not parse as a
/// URI, else the canonical text and the scheme of what it parsed.
pub uninterp spec fn parsed_uri(text: Seq<char>) -> Option<UrlParts>;

/// `core::str::from_utf8`. Claimed, as its documentation says: the call
/// succeeds exactly on valid UTF-8, and the string it gives is those bytes
/// decoded.
pub assume_specification[ core::str::from_utf8 ](bytes: &[u8]) -> (r: Result<
    &str,
    core::str::Utf8Error,
>)
    ensures
        r is Ok <==> valid_utf8(bytes@),
        r matches Ok(s) ==> s@ == decode_utf8(bytes@),
;

/// `str::trim`. Claimed, as its documentation says: the result is the string
/// without its leading and trailing characters of the Unicode property
/// `White_Space`.
pub assume_specification[ str::trim ](s: &str) -> (r: &str)
    ensures
        r@ == trimmed(s@),
;

/// `str::parse::<http::Uri>`, then `Uri::to_string` and `Uri::scheme_str` on
/// what it gave. Claimed: the three depend on the text alone, so the result
/// is `parsed_uri` of the text; an error where that is `None`.
#[verifier::external_body]
fn parse_uri(text: &str) -> (r: Result<ParsedUrl, axum::http::uri::InvalidUri>)
    ensures
        match r {
            Ok(parsed) => parsed_uri(text@) == Some(parsed@),
            Err(_) => parsed_uri(text@) is None,
        },
{
    let uri = text.parse::<axum::http::Uri>()?;
    let scheme = match uri.scheme_str() {
        Some(s) => Some(s.to_string()),
        None => None,
    };
    Ok(ParsedUrl { text: uri.to_string(), scheme })
}

/// Why a submission is turned down, as the contracts see it.
pub enum Rejection {
    /// The bytes are not valid UTF-8.
    EncodingError,
    /// The text does not parse as a URI.
    MalformedUrl,
    /// The URI has no scheme.
    MissingScheme,
    /// The URI has a scheme that is not allowed.
    UnsupportedScheme { scheme: Text },
}

/// Why a submission was turned down. Always the client's fault; never
/// retried.
#[derive(Debug, Clone, PartialEq, Eq)]
pub enum ValidationError {
    /// The bytes are not valid UTF-8; `detail` is the decoder's description.
    EncodingError { detail: String },
    /// The text does not parse as a URI; `detail` is the parser's
    /// description.
    MalformedUrl { detail: String },
    /// The URI has no scheme.
    MissingScheme,
    /// The URI has a scheme other than `http` and `https`.
    UnsupportedScheme { scheme: String },
}

impl View for ValidationError {
    type V = Rejection;

    open spec fn view(&self) -> Rejection {
        match self {
            ValidationError::EncodingError { .. } => Rejection::EncodingError,
            ValidationError::MalformedUrl { .. } => Rejection::MalformedUrl,
            ValidationError::MissingScheme => Rejection::MissingScheme,
            ValidationError::UnsupportedScheme { scheme } => Rejection::UnsupportedScheme {
                scheme: scheme@,
            },
        }
    }
}

impl ValidationError {
    /// The text of [`ValidationError::message`].
    pub open spec fn message_text(&self) -> Text {
        match self {
            ValidationError::EncodingError { detail } => "invalid utf-8 in url: "@ + detail@,
            ValidationError::MalformedUrl { detail } => "invalid url: "@ + detail@,
            ValidationError::MissingScheme => "url missing scheme"@,
            ValidationError::UnsupportedScheme { scheme } => "unsupported url scheme: "@
                + scheme@,
        }
    }

    /// The reason, in words, as the client is told it.
    pub fn message(&self) -> (text: String)
        ensures
            text@ == self.message_text(),
    {
        match self {
            ValidationError::EncodingError { detail } => {
                "invalid utf-8 in url: ".to_owned().concat(detail.as_str())
            },
            ValidationError::MalformedUrl { detail } => {
                "invalid url: ".to_owned().concat(detail.as_str())
            },
            ValidationError::MissingScheme => "url missing scheme".to_owned(),
            ValidationError::UnsupportedScheme { scheme } => {
                "unsupported url scheme: ".to_owned().concat(scheme.as_str())
            },
        }
    }
}

/// `scheme` is on the allow-list.
pub open spec fn allowed_scheme(scheme: Text) -> bool {
    scheme == "http"@ || scheme == "https"@
}

/// The scheme rule on a parsed URI: its canonical text if the scheme is there
/// and allowed.
pub open spec fn scheme_checked(parts: UrlParts) -> Result<Text, Rejection> {
    match parts.scheme {
        None => Err(Rejection::MissingScheme),
        Some(scheme) => if allowed_scheme(scheme) {
            Ok(parts.text)
        } else {
            Err(Rejection::UnsupportedScheme { scheme })
        },
    }
}

/// The canonical form of a trimmed text, or why it has none.
pub open spec fn canonical(text: Text) -> Result<Text, Rejection> {
    match parsed_uri(text) {
        None => Err(Rejection::MalformedUrl),
        Some(parts) => scheme_checked(parts),
    }
}

/// The canonical URL of a submission, or why it is turned down.
pub open spec fn normalized(raw: Seq<u8>) -> Result<Text, Rejection> {
    if !valid_utf8(raw) {
        Err(Rejection::EncodingError)
    } else {
        canonical(trimmed(decode_utf8(raw)))
    }
}

/// Whether `scheme` is on the allow-list: `http` or `https`, in lower case.
pub fn scheme_allowed(scheme: &String) -> (allowed: bool)
    ensures
        allowed == allowed_scheme(scheme@),
{
    let http = "http".to_owned();
    let https = "https".to_owned();
    *scheme == http || *scheme == https
}

/// Applies the scheme rule to a parsed URI.
pub fn check_scheme(parsed: ParsedUrl) -> (r: Result<String, ValidationError>)
    ensures
        match scheme_checked(parsed@) {
            Ok(text) => r matches Ok(url) && url@ == text,
            Err(why) => r matches Err(e) && e@ == why,
        },
{
    match parsed.scheme {
        None => Err(ValidationError::MissingScheme),
        Some(scheme) => {
            if scheme_allowed(&scheme) {
                Ok(parsed.text)
            } else {
                Err(ValidationError::UnsupportedScheme { scheme })
            }
        },
    }
}

/// Validates and normalises a submitted URL.
///
/// Succeeds exactly where [`normalized`] does, with the same text; fails
/// exactly where it fails, for the same reason.
pub fn normalize(raw: &[u8]) -> (r: Result<String, ValidationError>)
    ensures
        match normalized(raw@) {
            Ok(text) => r matches Ok(url) && url@ == text,
            Err(why) => r matches Err(e) && e@ == why,
        },
{
    let text = match core::str::from_utf8(raw) {
        Ok(text) => text,
        Err(e) => {
            return Err(ValidationError::EncodingError { detail: e.to_string() });
        },
    };
    match parse_uri(text.trim()) {
        Ok(parsed) => check_scheme(parsed),
        Err(e) => Err(ValidationError::MalformedUrl { detail: e.to_string() }),
    }
}

/// The rejection set: bytes that are not UTF-8, a URI without a scheme and a
/// URI with any scheme but `http` and `https` are all turned down, each for
/// its own reason; and nothing else that parses is.
pub proof fn law_rejection_set(raw: Seq<u8>)
    ensures
        !valid_utf8(raw) ==> normalized(raw) == Err::<Text, Rejection>(Rejection::EncodingError),
        valid_utf8(raw) ==> match parsed_uri(trimmed(decode_utf8(raw))) {
            None => normalized(raw) == Err::<Text, Rejection>(Rejection::MalformedUrl),
            Some(parts) => match parts.scheme {
                None => normalized(raw) == Err::<Text, Rejection>(Rejection::MissingScheme),
                Some(scheme) => if scheme == "http"@ || scheme == "https"@ {
                    normalized(raw) == Ok::<Text, Rejection>(parts.text)
                } else {
                    normalized(raw) == Err::<Text, Rejection>(
                        Rejection::UnsupportedScheme { scheme },
                    )
                },
            },
        },
{
}

/// `url` is its own canonical form: trimmed and parsed again, it comes back
/// as it is, with an allowed scheme.
pub open spec fn settled(url: Text) -> bool {
    canonical(trimmed(url)) == Ok::<Text, Rejection>(url)
}

/// Normalisation is stable on every canonical URL that is settled:
/// normalising the result of a successful normalisation gives that result
/// again.
///
/// Not every canonical URL is settled. Dropping a fragment can uncover white
/// space at the end of a path, which the next round trims; and the slash that
/// an empty path is given can carry a text over the parser's length limit.
pub proof fn law_normalize_stable(raw: Seq<u8>, url: Text)
    requires
        normalized(raw) == Ok::<Text, Rejection>(url),
        settled(url),
    ensures
        normalized(vstd::utf8::encode_utf8(url)) == normalized(raw),
{
    vstd::utf8::encode_utf8_valid_utf8(url);
    vstd::utf8::encode_utf8_decode_utf8(url);
}

/// Where a canonical URL is not settled, normalising it again gives another
/// result: nothing but the settled URLs is stable.
pub proof fn law_normalize_stable_only_if_settled(raw: Seq<u8>, url: Text)
    requires
        normalized(raw) == Ok::<Text, Rejection>(url),
        !settled(url),
    ensures
        normalized(vstd::utf8::encode_utf8(url)) != normalized(raw),
{
    vstd::utf8::encode_utf8_valid_utf8(url);
    vstd::utf8::encode_utf8_decode_utf8(url);
}

} // verus!
