//! The format of a bibliographic code, and the type that holds a checked one.
//!
//! A code has exactly 19 characters: four digits for the year, five
//! characters for the journal, four for the volume, one qualifier, four for
//! the page and one letter for the first author's initial.

use vstd::prelude::*;
use vstd::std_specs::cmp::PartialEqSpecImpl;
use vstd::string::*;
use vstd::utf8::*;

verus! {

/// The number of characters in a bibliographic code.
pub const CODE_LEN: usize = 19;

/// An ASCII decimal digit.
pub open spec fn is_digit(c: char) -> bool {
    '0' <= c <= '9'
}

/// An ASCII letter, in either case.
pub open spec fn is_alpha(c: char) -> bool {
    'a' <= c <= 'z' || 'A' <= c <= 'Z'
}

/// An ASCII letter or digit.
pub open spec fn is_alnum(c: char) -> bool {
    is_alpha(c) || is_digit(c)
}

/// A digit, or the dot that pads a short field.
pub open spec fn is_digit_or_dot(c: char) -> bool {
    is_digit(c) || c == '.'
}

/// A letter, a digit, or the dot that pads a short field.
pub open spec fn is_alnum_or_dot(c: char) -> bool {
    is_alnum(c) || c == '.'
}

/// What may stand at the qualifier position: `E`, `L`, a letter from `P` to
/// `Z`, a digit, or a dot.
pub open spec fn is_qualifier(c: char) -> bool {
    c == 'E' || c == 'L' || 'P' <= c <= 'Z' || is_digit_or_dot(c)
}

/// Whether `c` is of the class that the format asks for at position `i`,
/// counted from zero.
pub open spec fn fits(i: int, c: char) -> bool {
    if 0 <= i < 4 {
        is_digit(c)
    } else if 4 <= i < 9 {
        is_alnum_or_dot(c)
    } else if 9 <= i < 13 {
        is_digit_or_dot(c)
    } else if i == 13 {
        is_qualifier(c)
    } else if 14 <= i < 18 {
        is_digit_or_dot(c)
    } else if i == 18 {
        is_alpha(c)
    } else {
        false
    }
}

/// The format itself: exactly 19 characters, each of the class of its
/// position.
pub open spec fn is_bib_code(s: Seq<char>) -> bool {
    &&& s.len() == CODE_LEN
    &&& forall|i: int| 0 <= i < CODE_LEN ==> fits(i, #[trigger] s[i])
}

/// A string in the format holds ASCII characters only.
pub proof fn lemma_bib_code_is_ascii(s: Seq<char>)
    requires
        is_bib_code(s),
    ensures
        is_ascii_chars(s),
{
    assert forall|i: int| 0 <= i < s.len() implies '\0' <= #[trigger] s[i] <= '\u{7f}' by {
        assert(fits(i, s[i]));
    }
}

fn digit(c: char) -> (r: bool)
    ensures
        r == is_digit(c),
{
    '0' <= c && c <= '9'
}

fn alpha(c: char) -> (r: bool)
    ensures
        r == is_alpha(c),
{
    ('a' <= c && c <= 'z') || ('A' <= c && c <= 'Z')
}

fn digit_or_dot(c: char) -> (r: bool)
    ensures
        r == is_digit_or_dot(c),
{
    digit(c) || c == '.'
}

fn alnum_or_dot(c: char) -> (r: bool)
    ensures
        r == is_alnum_or_dot(c),
{
    alpha(c) || digit(c) || c == '.'
}

fn qualifier(c: char) -> (r: bool)
    ensures
        r == is_qualifier(c),
{
    c == 'E' || c == 'L' || ('P' <= c && c <= 'Z') || digit_or_dot(c)
}

/// Tests one character against the class of its position.
fn fits_at(i: usize, c: char) -> (r: bool)
    ensures
        r == fits(i as int, c),
{
    if i < 4 {
        digit(c)
    } else if i < 9 {
        alnum_or_dot(c)
    } else if i < 13 {
        digit_or_dot(c)
    } else if i == 13 {
        qualifier(c)
    } else if i < 18 {
        digit_or_dot(c)
    } else if i == 18 {
        alpha(c)
    } else {
        false
    }
}

/// Tests whether a string is a bibliographic code.
///
/// The whole string must match: a string of any other length than 19
/// characters is no code, nor is one that holds a character outside ASCII.
pub fn validate_bib_code(code: &str) -> (valid: bool)
    ensures
        valid <==> is_bib_code(code@),
        code@.len() != CODE_LEN ==> !valid,
{
    proof {
        if is_bib_code(code@) {
            lemma_bib_code_is_ascii(code@);
            is_ascii_chars_encode_utf8(code@);
        }
    }
    if code.as_bytes().len() != CODE_LEN || !code.is_ascii() {
        return false;
    }
    proof {
        is_ascii_chars_encode_utf8(code@);
    }
    let mut i: usize = 0;
    while i < CODE_LEN
        invariant
            i <= CODE_LEN,
            code@.len() == CODE_LEN,
            code.is_ascii(),
            forall|j: int| 0 <= j < i ==> fits(j, #[trigger] code@[j]),
        decreases CODE_LEN - i,
    {
        let byte = code.get_ascii(i);
        let c = byte as char;
        if !fits_at(i, c) {
            return false;
        }
        i += 1;
    }
    true
}

/// A bibliographic code that has passed the check of its format.
///
/// The only way to a value is [`BibCode::new`], so every value holds a
/// string for which [`is_bib_code`] is true.
#[derive(Debug)]
pub struct BibCode {
    bibcode: String,
}

impl View for BibCode {
    type V = Seq<char>;

    closed spec fn view(&self) -> Seq<char> {
        self.bibcode@
    }
}

impl Clone for BibCode {
    fn clone(&self) -> (r: Self)
        ensures
            r@ == self@,
    {
        proof {
            use_type_invariant(self);
        }
        BibCode { bibcode: self.bibcode.clone() }
    }
}

impl PartialEq for BibCode {
    fn eq(&self, other: &Self) -> (r: bool) {
        self.bibcode == other.bibcode
    }
}

impl PartialEqSpecImpl for BibCode {
    open spec fn obeys_eq_spec() -> bool {
        true
    }

    open spec fn eq_spec(&self, other: &Self) -> bool {
        self@ == other@
    }
}

impl Eq for BibCode {

}

impl BibCode {
    #[verifier::type_invariant]
    spec fn well_formed(&self) -> bool {
        is_bib_code(self.bibcode@)
    }

    /// Checks `s` and wraps it: `Ok` with the same characters where `s` is a
    /// bibliographic code, `Err` where it is not.
    pub fn new(s: &str) -> (r: Result<Self, ()>)
        ensures
            r is Ok <==> is_bib_code(s@),
            r matches Ok(code) ==> code@ == s@,
    {
        if validate_bib_code(s) {
            Ok(BibCode { bibcode: s.to_owned() })
        } else {
            Err(())
        }
    }

    /// The code as text: the string that was given to [`BibCode::new`].
    pub fn bibcode(&self) -> (s: &str)
        ensures
            s@ == self@,
            is_bib_code(s@),
            s@.len() == CODE_LEN,
    {
        proof {
            use_type_invariant(self);
        }
        self.bibcode.as_str()
    }
}

} // verus!
