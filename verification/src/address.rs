//! The address that a query for one bibliographic code is sent to.
//!
//! The address is the endpoint of the legacy query service with two
//! parameters in its query string: the format that is asked for, and the
//! code. The `url` crate, as `reqwest` hands it on, parses the endpoint and
//! encodes the parameters; what it returns is then held against the address
//! as it must stand on the wire, and only that text is given out.

use crate::bibcode::{fits, is_alnum, is_bib_code, BibCode};
use reqwest::Url;
use vstd::prelude::*;
use vstd::string::*;

verus! {

/// The endpoint of the query service.
pub const ENDPOINT: &'static str = "http://adsabs.harvard.edu/cgi-bin/nph-bib_query/";

/// The name of the parameter that selects the format of the answer.
pub const FORMAT_NAME: &'static str = "data_type";

/// The format that is asked for.
pub const FORMAT_VALUE: &'static str = "BIBTEX";

/// The name of the parameter that carries the code.
pub const CODE_NAME: &'static str = "bibcode";

/// The most characters that one piece of text may have when it is handed
/// to the URL library.
pub const MAX_PART: usize = 0x1_0000;

/// The most parameters that are handed to the URL library in one call.
pub const MAX_PARAMS: usize = 16;

/// The address of the query for `code`, as it stands on the wire: the
/// endpoint, then the query string with the format and the code, none of
/// whose characters needs an escape.
pub open spec fn request_address(code: Seq<char>) -> Seq<char> {
    ENDPOINT@ + "?"@ + FORMAT_NAME@ + "="@ + FORMAT_VALUE@ + "&"@ + CODE_NAME@ + "="@ + code
}

/// The request address is one fixed text with the code behind it.
pub proof fn lemma_request_address_text(code: Seq<char>)
    ensures
        request_address(code)
            == "http://adsabs.harvard.edu/cgi-bin/nph-bib_query/?data_type=BIBTEX&bibcode="@
            + code,
{
    reveal_strlit("http://adsabs.harvard.edu/cgi-bin/nph-bib_query/?data_type=BIBTEX&bibcode=");
    reveal_strlit("http://adsabs.harvard.edu/cgi-bin/nph-bib_query/");
    reveal_strlit("data_type");
    reveal_strlit("BIBTEX");
    reveal_strlit("bibcode");
    reveal_strlit("?");
    reveal_strlit("=");
    reveal_strlit("&");
    assert(request_address(code)
        =~= "http://adsabs.harvard.edu/cgi-bin/nph-bib_query/?data_type=BIBTEX&bibcode="@ + code);
}

/// Whether form-urlencoded syntax leaves `c` as it is: an ASCII letter or
/// digit, or one of `*`, `-`, `.` and `_`.
pub open spec fn is_unreserved(c: char) -> bool {
    is_alnum(c) || c == '*' || c == '-' || c == '.' || c == '_'
}

/// A code holds no character that form-urlencoded syntax would escape, so
/// it stands in the query string as it is.
pub proof fn lemma_code_needs_no_escape(code: Seq<char>)
    requires
        is_bib_code(code),
    ensures
        forall|i: int| 0 <= i < code.len() ==> is_unreserved(#[trigger] code[i]),
{
    assert forall|i: int| 0 <= i < code.len() implies is_unreserved(#[trigger] code[i]) by {
        assert(fits(i, code[i]));
    }
}

/// The parameters of the query for `code`, in the order of the query
/// string.
pub open spec fn query_params(code: Seq<char>) -> Seq<(Seq<char>, Seq<char>)> {
    seq![(FORMAT_NAME@, FORMAT_VALUE@), (CODE_NAME@, code)]
}

/// What `Url::parse_with_params` makes of `input` and `params`: the text of
/// the URL, or `None` where `input` is no absolute URL.
pub uninterp spec fn url_with_params(
    input: Seq<char>,
    params: Seq<(Seq<char>, Seq<char>)>,
) -> Option<Seq<char>>;

/// Whether text and parameters are of a size that may be handed to
/// [`parse_with_params`].
pub open spec fn fits_url_library(input: Seq<char>, params: Seq<(Seq<char>, Seq<char>)>) -> bool {
    &&& input.len() <= MAX_PART
    &&& params.len() <= MAX_PARAMS
    &&& forall|i: int|
        0 <= i < params.len() ==> (#[trigger] params[i]).0.len() <= MAX_PART && params[i].1.len()
            <= MAX_PART
}

/// Calls `Url::parse_with_params` of the `url` crate, which parses `input`
/// as an absolute URL and appends each pair of `params` to its query string
/// in form-urlencoded syntax, and returns the URL as text.
///
/// Nothing is proved of this function. Its contract claims that the result
/// depends on the two arguments alone, and gives that result the name
/// [`url_with_params`]; a parse error becomes `None`. The sizes are bounded
/// because the crate keeps positions within a URL in 32 bits.
#[verifier::external_body]
pub(crate) fn parse_with_params(input: &str, params: &[(&str, &str)]) -> (url: Option<String>)
    requires
        fits_url_library(input@, params.deep_view()),
    ensures
        url.deep_view() == url_with_params(input@, params.deep_view()),
{
    Url::parse_with_params(input, params).ok().map(String::from)
}

/// What is given out when the URL library has returned `built` for `code`:
/// `built` itself where it is the request address of `code`, and nothing
/// otherwise.
pub open spec fn confirmed_address(built: Option<Seq<char>>, code: Seq<char>) -> Option<
    Seq<char>,
> {
    if built == Some(request_address(code)) {
        built
    } else {
        None
    }
}

/// Holds what the URL library returned against the request address of
/// `key`, and hands it on only where the two are the same text.
pub fn confirm_address(built: Option<String>, key: &BibCode) -> (url: Option<String>)
    ensures
        url.deep_view() == confirmed_address(built.deep_view(), key@),
        url matches Some(u) ==> u@ == request_address(key@),
{
    match built {
        Some(text) => {
            let expected = ENDPOINT.to_owned().concat("?").concat(FORMAT_NAME).concat("=").concat(
                FORMAT_VALUE,
            ).concat("&").concat(CODE_NAME).concat("=").concat(key.bibcode());
            if text == expected {
                Some(text)
            } else {
                None
            }
        },
        None => None,
    }
}

} // verus!
