//! A URL shortener's core: short codes, URL normalisation, and a store that
//! keeps a code index and a URL index in step inside one transaction.
//!
//! - [`code`]: candidate codes, four random bytes in URL-safe base64.
//! - [`url`]: validation and normalisation of a submitted URL.
//! - [`links`]: the model of the two indexes, and what is proved of it.
//! - [`index`]: the boundary to the embedded database.
//! - [`store`]: resolve, insert-or-reuse, listing and schema set-up.
//! - [`service`]: what each request is answered with.
//! - [`report`]: the listing of a database as lines of text.

pub mod code;
pub mod index;
pub mod links;
pub mod report;
pub mod service;
pub mod store;
pub mod url;

pub use crate::code::gen_key;
pub use crate::service::{get_code, put_new, Reply, Response};
pub use crate::store::{ensure_schema, list_all, put_or_reuse, resolve, StoreError};
pub use crate::url::{normalize, ValidationError};
