//! The link service: what a request is answered with.
//!
//! A request handler extracts a code or a body from the transport, calls
//! [`get_code`] or [`put_new`], and turns the [`Reply`] into a response. The
//! store and the validator know nothing of HTTP; the status codes live here
//! and nowhere else.

use crate::code::is_code;
use crate::links::Text;
use crate::store::{
    admitted_on, answers, exhausted_on, put_or_reuse, resolve, Admission, StoreError, WriteTables,
};
use crate::url::{normalize, normalized, ValidationError};
use vstd::prelude::*;

verus! {

/// What the client is told when the store failed. The cause stays on the
/// server.
pub const STORE_FAILURE: &'static str = "problem with database";

/// The body of an answer, to be written as a JSON object.
#[derive(Debug, PartialEq, Eq)]
pub struct Response {
    pub ok: bool,
    /// The code, or why there is none.
    pub msg: String,
}

/// The answer to one request.
#[derive(Debug)]
pub enum Reply {
    /// The code is known: a permanent redirect to its URL.
    Redirect { location: String },
    /// The code is unknown.
    NotFound,
    /// The URL was new and has this code now.
    Created { code: String },
    /// The URL was known under this code.
    Reused { code: String },
    /// The submission was turned down.
    Rejected { reason: ValidationError },
    /// The store failed. `error` is for the server's log.
    Failed { error: StoreError },
}

impl Reply {
    /// The status code of each answer.
    pub open spec fn status_code(&self) -> u16 {
        match self {
            Reply::Redirect { .. } => 308,
            Reply::NotFound => 404,
            Reply::Created { .. } => 201,
            Reply::Reused { .. } => 200,
            Reply::Rejected { .. } => 400,
            Reply::Failed { .. } => 500,
        }
    }

    /// The body of each answer, as `ok` and the text of `msg`; `None` where
    /// the answer has no body.
    pub open spec fn body_text(&self) -> Option<(bool, Text)> {
        match self {
            Reply::Redirect { .. } => None,
            Reply::NotFound => None,
            Reply::Created { code } => Some((true, code@)),
            Reply::Reused { code } => Some((true, code@)),
            Reply::Rejected { reason } => Some((false, reason.message_text())),
            Reply::Failed { .. } => Some((false, STORE_FAILURE@)),
        }
    }

    /// The HTTP status code of the answer.
    pub fn status(&self) -> (status: u16)
        ensures
            status == self.status_code(),
    {
        match self {
            Reply::Redirect { .. } => 308,
            Reply::NotFound => 404,
            Reply::Created { .. } => 201,
            Reply::Reused { .. } => 200,
            Reply::Rejected { .. } => 400,
            Reply::Failed { .. } => 500,
        }
    }

    /// Where a redirect leads; `None` for every other answer.
    pub fn location(&self) -> (target: Option<&String>)
        ensures
            match self {
                Reply::Redirect { location } => target == Some(location),
                _ => target is None,
            },
    {
        match self {
            Reply::Redirect { location } => Some(location),
            _ => None,
        }
    }

    /// The body of the answer; `None` where it has none. A store failure is
    /// answered with a fixed text that gives nothing away.
    pub fn body(&self) -> (body: Option<Response>)
        ensures
            match body {
                Some(response) => self.body_text() == Some((response.ok, response.msg@)),
                None => self.body_text() is None,
            },
    {
        match self {
            Reply::Redirect { .. } => None,
            Reply::NotFound => None,
            Reply::Created { code } => Some(Response { ok: true, msg: code.clone() }),
            Reply::Reused { code } => Some(Response { ok: true, msg: code.clone() }),
            Reply::Rejected { reason } => Some(Response { ok: false, msg: reason.message() }),
            Reply::Failed { .. } => Some(Response { ok: false, msg: STORE_FAILURE.to_owned() }),
        }
    }
}

/// The answer to a lookup, given what the store found.
pub fn lookup_reply(found: Result<Option<String>, StoreError>) -> (reply: Reply)
    ensures
        match found {
            Ok(Some(url)) => reply == (Reply::Redirect { location: url }),
            Ok(None) => reply == Reply::NotFound,
            Err(e) => reply == (Reply::Failed { error: e }),
        },
{
    match found {
        Ok(Some(url)) => Reply::Redirect { location: url },
        Ok(None) => Reply::NotFound,
        Err(e) => Reply::Failed { error: e },
    }
}

/// The answer to a valid submission, given what the store did with it.
pub fn put_reply(outcome: Result<Admission, StoreError>) -> (reply: Reply)
    ensures
        match outcome {
            Ok(admission) => if admission.created {
                reply == (Reply::Created { code: admission.code })
            } else {
                reply == (Reply::Reused { code: admission.code })
            },
            Err(e) => reply == (Reply::Failed { error: e }),
        },
{
    match outcome {
        Ok(admission) => {
            if admission.created {
                Reply::Created { code: admission.code }
            } else {
                Reply::Reused { code: admission.code }
            }
        },
        Err(e) => Reply::Failed { error: e },
    }
}

/// `GET /{code}`: a redirect to the URL of the code, not-found for an
/// unknown code, a failure where the store failed. A redirect leads where
/// the code index of a read transaction holds the code; not-found is
/// answered where that index does not hold it.
pub fn get_code(db: &redb::Database, code: &str) -> (reply: Reply)
    ensures
        match reply {
            Reply::Redirect { location } => answers(code@, Some(location@)),
            Reply::NotFound => answers(code@, None),
            Reply::Failed { error } => error is Begin || error is Open || error is Access,
            _ => false,
        },
{
    lookup_reply(resolve(db, code))
}

/// `POST /put`: the body is validated and normalised first. A submission
/// that is turned down is answered at once, before any transaction is
/// opened; a valid one is handed to the store under its canonical form, and
/// the answer is the store's: the code of a known URL, a code that was free
/// for an unknown one, or the failure.
pub fn put_new(db: &redb::Database, raw_url: &[u8]) -> (reply: Reply)
    ensures
        match normalized(raw_url@) {
            Err(why) => reply matches Reply::Rejected { reason } && reason@ == why,
            Ok(url) => match reply {
                Reply::Created { code } => exists|tables: WriteTables<'_>| #[trigger]
                    admitted_on(tables, url, (Admission { code, created: true })),
                Reply::Reused { code } => exists|tables: WriteTables<'_>| #[trigger]
                    admitted_on(tables, url, (Admission { code, created: false })),
                Reply::Failed { error } => error is NoFreeCode ==> exists|
                    tables: WriteTables<'_>,
                | #[trigger] exhausted_on(tables, url),
                _ => false,
            },
        },
        reply matches Reply::Created { code } ==> is_code(code@),
{
    match normalize(raw_url) {
        Err(reason) => Reply::Rejected { reason },
        Ok(url) => {
            let outcome = put_or_reuse(db, url.as_str());
            proof {
                if outcome is Ok {
                    let admission = outcome->Ok_0;
                    let tables = choose|tables: WriteTables<'_>| #[trigger]
                        admitted_on(tables, url@, admission);
                    let code = admission.code;
                    if admission.created {
                        assert(admitted_on(tables, url@, (Admission { code, created: true })));
                    } else {
                        assert(admitted_on(tables, url@, (Admission { code, created: false })));
                    }
                }
            }
            put_reply(outcome)
        },
    }
}

} // verus!
