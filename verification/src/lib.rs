//! Bibliographic codes of the Astrophysics Data System (ADS), and the BibTeX
//! entry that its query endpoint returns for one of them.
//!
//! The crate checks a code against the fixed positional format, builds the
//! address of the query for a checked code, and reads the entry out of the
//! body that the endpoint answers with. It performs no network traffic
//! itself: a caller sends the request and hands the reply back.

pub mod address;
pub mod api;
pub mod bibcode;
pub mod entry;
pub mod reply;

pub use crate::api::Api;
pub use crate::bibcode::validate_bib_code;
pub use crate::bibcode::BibCode;
pub use crate::entry::extract_entry;
pub use crate::reply::FetchError;
pub use crate::reply::Reply;
