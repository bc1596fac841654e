//! Parsing of the feed's single-character code fields.
//!
//! Side and action arrive as one-character strings drawn from a documented
//! alphabet; anything longer, shorter, or outside the alphabet is rejected.

use vstd::prelude::*;
use vstd::slice::slice_index_get;

verus! {

/// Why a single-character field was rejected.
#[derive(Clone, Copy, Debug, PartialEq, Eq, Structural)]
pub enum CharParseError {
    /// The field did not hold exactly one character.
    NotSingleChar { len: usize },
    /// The character is outside the field's alphabet.
    InvalidChar { got: char },
}

/// A value a single character converts into.
pub trait FromChar: Sized {
    spec fn spec_from_char(c: char) -> Self;

    fn from_char(c: char) -> (r: Self)
        ensures
            r == Self::spec_from_char(c),
    ;
}

impl FromChar for u8 {
    open spec fn spec_from_char(c: char) -> u8 {
        c as u8
    }

    fn from_char(c: char) -> (r: u8) {
        c as u8
    }
}

/// The action alphabet: add, cancel, modify, clear, trade, fill, none.
pub open spec fn action_chars() -> Seq<char> {
    seq!['A', 'C', 'M', 'R', 'T', 'F', 'N']
}

/// The side alphabet: ask, bid, none.
pub open spec fn side_chars() -> Seq<char> {
    seq!['A', 'B', 'N']
}

/// What parsing a single-character field of the given alphabet returns:
/// the converted character when the field is exactly one character of the
/// alphabet, and the reason for rejection otherwise.
pub open spec fn spec_parse_char<T: FromChar>(s: Seq<char>, valid: Seq<char>) -> Result<
    T,
    CharParseError,
> {
    if s.len() != 1 {
        Err(CharParseError::NotSingleChar { len: s.len() as usize })
    } else if !valid.contains(s[0]) {
        Err(CharParseError::InvalidChar { got: s[0] })
    } else {
        Ok(T::spec_from_char(s[0]))
    }
}

/// Accepts a field holding exactly one character of the given alphabet and
/// converts it; rejects anything else, saying how it fell short.
pub fn parse_single_char<T: FromChar>(field_value: &str, valid_chars: &[char]) -> (r: Result<
    T,
    CharParseError,
>)
    ensures
        r == spec_parse_char::<T>(field_value@, valid_chars@),
{
    let n = field_value.unicode_len();
    if n != 1 {
        return Err(CharParseError::NotSingleChar { len: n });
    }
    let c = field_value.get_char(0);
    let m = valid_chars.len();
    let mut i: usize = 0;
    while i < m
        invariant
            i <= m == valid_chars@.len(),
            field_value@.len() == 1,
            c == field_value@[0],
            forall|j: int| 0 <= j < i ==> valid_chars@[j] != c,
        decreases m - i,
    {
        if *slice_index_get(valid_chars, i) == c {
            assert(valid_chars@.contains(c));
            return Ok(T::from_char(c));
        }
        i = i + 1;
    }
    assert(!valid_chars@.contains(c));
    Err(CharParseError::InvalidChar { got: c })
}

/// Parses an action code, one character of [`action_chars`].
pub fn parse_action<T: FromChar>(action: &str) -> (r: Result<T, CharParseError>)
    ensures
        r == spec_parse_char::<T>(action@, action_chars()),
{
    let valid: Vec<char> = vec!['A', 'C', 'M', 'R', 'T', 'F', 'N'];
    proof {
        assert(valid@ =~= action_chars());
    }
    parse_single_char(action, valid.as_slice())
}

/// Parses a side code, one character of [`side_chars`].
pub fn parse_side<T: FromChar>(side: &str) -> (r: Result<T, CharParseError>)
    ensures
        r == spec_parse_char::<T>(side@, side_chars()),
{
    let valid: Vec<char> = vec!['A', 'B', 'N'];
    proof {
        assert(valid@ =~= side_chars());
    }
    parse_single_char(side, valid.as_slice())
}

} // verus!
