//! What comes back from the endpoint, and what a caller is told of it.

use crate::entry::entry_of;
use vstd::prelude::*;
use vstd::utf8::*;

verus! {

/// Why a fetch gave no result.
#[derive(Debug, Clone, Copy, PartialEq, Eq, Structural)]
pub enum FetchError {
    /// No response arrived, or it arrived with a status outside the
    /// successful range.
    Network,
    /// The body of a successful response could not be read as text.
    Decode,
}

/// What the transport reports of one request.
#[derive(Debug)]
pub enum Reply {
    /// No response arrived: the request could not be sent, the connection
    /// failed, or the time ran out.
    Failed,
    /// A response arrived.
    Received {
        /// The status code of the response.
        status: u16,
        /// The bytes of the body, or `None` where they could not be read to
        /// the end.
        body: Option<Vec<u8>>,
    },
}

/// Whether a status code stands for success: 200 to 299.
pub open spec fn is_success(status: u16) -> bool {
    200 <= status < 300
}

impl Reply {
    /// Whether a response arrived and its status stands for success.
    pub open spec fn succeeded(self) -> bool {
        match self {
            Reply::Failed => false,
            Reply::Received { status, body } => is_success(status),
        }
    }

    /// The body as text: `None` where no response arrived, where the body
    /// was not read to the end, and where its bytes are no UTF-8.
    pub open spec fn text(self) -> Option<Seq<char>> {
        match self {
            Reply::Received { status, body: Some(bytes) } if valid_utf8(bytes@) => Some(
                decode_utf8(bytes@),
            ),
            _ => None,
        }
    }
}

/// What a fetch returns for a reply.
///
/// Without a response, or with a status that is no success, it fails with
/// [`FetchError::Network`], whatever the body holds. A body that was not
/// read, or that is no UTF-8, fails with [`FetchError::Decode`]. Otherwise
/// the fetch succeeds with the entry of the decoded body, which is `None`
/// where the body holds no entry.
pub open spec fn outcome(reply: Reply) -> Result<Option<Seq<char>>, FetchError> {
    if !reply.succeeded() {
        Err(FetchError::Network)
    } else {
        match reply.text() {
            None => Err(FetchError::Decode),
            Some(text) => Ok(entry_of(text)),
        }
    }
}

/// The result of a fetch with the entry as a sequence of characters.
pub open spec fn view_result(r: Result<Option<String>, FetchError>) -> Result<
    Option<Seq<char>>,
    FetchError,
> {
    match r {
        Ok(entry) => Ok(entry.deep_view()),
        Err(e) => Err(e),
    }
}

/// Tests a status code for success.
pub(crate) fn success(status: u16) -> (r: bool)
    ensures
        r == is_success(status),
{
    200 <= status && status < 300
}

/// Calls `String::from_utf8` of std, which checks that the bytes are UTF-8
/// and then makes a string of them without changing any.
///
/// Nothing is proved of this function. Its contract claims that the result
/// is `Some` exactly for valid UTF-8, and that the string then holds the
/// characters that the bytes encode.
#[verifier::external_body]
pub(crate) fn decode(bytes: Vec<u8>) -> (text: Option<String>)
    ensures
        text is Some <==> valid_utf8(bytes@),
        text matches Some(s) ==> s@ == decode_utf8(bytes@),
{
    String::from_utf8(bytes).ok()
}

} // verus!
