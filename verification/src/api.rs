//! The two steps of a fetch that need no network: where to send the
//! request, and what to make of the reply.

use crate::address::{
    confirm_address, confirmed_address, parse_with_params, query_params, request_address,
    url_with_params, CODE_NAME, ENDPOINT, FORMAT_NAME, FORMAT_VALUE,
};
use crate::bibcode::BibCode;
use crate::entry::{extract_entry, has_delimiter};
use crate::reply::{decode, outcome, success, view_result, FetchError, Reply};
use vstd::prelude::*;

verus! {

/// A client of the query service. It keeps nothing between two fetches.
#[derive(Debug)]
pub struct Api {}

impl Api {
    /// Makes a client.
    pub fn init() -> Self {
        Api {}
    }

    /// Builds the address that the query for `key` is sent to.
    ///
    /// The URL library is given the endpoint and the two parameters. The
    /// result is `Some` exactly where the library returns the request
    /// address of `key`, and then it is that address, character for
    /// character.
    pub fn request_url(&self, key: &BibCode) -> (url: Option<String>)
        ensures
            url.deep_view() == confirmed_address(
                url_with_params(ENDPOINT@, query_params(key@)),
                key@,
            ),
            url matches Some(u) ==> u@ == request_address(key@),
    {
        let pairs = [(FORMAT_NAME, FORMAT_VALUE), (CODE_NAME, key.bibcode())];
        let params = pairs.as_slice();
        proof {
            reveal_strlit("http://adsabs.harvard.edu/cgi-bin/nph-bib_query/");
            reveal_strlit("data_type");
            reveal_strlit("BIBTEX");
            reveal_strlit("bibcode");
            assert(params.deep_view() =~= query_params(key@));
        }
        let built = parse_with_params(ENDPOINT, params);
        confirm_address(built, key)
    }

    /// Decides what a fetch returns for the reply to its request.
    ///
    /// A missing response and a status that is no success are network
    /// errors, and never a result. A body that cannot be read as text is a
    /// decode error. A body without an entry is the result `None`, and no
    /// error.
    pub fn read_reply(&self, reply: Reply) -> (r: Result<Option<String>, FetchError>)
        ensures
            view_result(r) == outcome(reply),
            !reply.succeeded() ==> r matches Err(FetchError::Network),
            (r matches Ok(None)) <==> (reply.succeeded() && reply.text() is Some && !has_delimiter(
                reply.text()->0,
            )),
    {
        match reply {
            Reply::Failed => Err(FetchError::Network),
            Reply::Received { status, body } => {
                if !success(status) {
                    return Err(FetchError::Network);
                }
                match body {
                    None => Err(FetchError::Decode),
                    Some(bytes) => match decode(bytes) {
                        None => Err(FetchError::Decode),
                        Some(text) => Ok(extract_entry(text.as_str())),
                    },
                }
            },
        }
    }
}

} // verus!
