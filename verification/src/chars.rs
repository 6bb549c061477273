//! Character classes.

use vstd::prelude::*;

verus! {

/// Whether `c` has the Unicode property White_Space.
pub uninterp spec fn whitespace_char(c: char) -> bool;

/// Whether `c` has the Unicode property Lowercase.
pub uninterp spec fn lowercase_char(c: char) -> bool;

/// Whether `c` has the Unicode property Uppercase.
pub uninterp spec fn uppercase_char(c: char) -> bool;

/// `char::is_whitespace` of the standard library. Its answer is a fixed
/// property of the character, taken from the Unicode character database; the
/// contract gives that answer a name and claims nothing more of it.
pub assume_specification[ char::is_whitespace ](c: char) -> (b: bool)
    ensures
        b == whitespace_char(c),
;

/// `char::is_lowercase` of the standard library. Its answer is a fixed
/// property of the character, taken from the Unicode character database; the
/// contract gives that answer a name and claims nothing more of it.
pub assume_specification[ char::is_lowercase ](c: char) -> (b: bool)
    ensures
        b == lowercase_char(c),
;

/// `char::is_uppercase` of the standard library. Its answer is a fixed
/// property of the character, taken from the Unicode character database; the
/// contract gives that answer a name and claims nothing more of it.
pub assume_specification[ char::is_uppercase ](c: char) -> (b: bool)
    ensures
        b == uppercase_char(c),
;

/// Whether `c` is one of the ten decimal digits.
pub open spec fn decimal_digit(c: char) -> bool {
    '0' <= c <= '9'
}

/// Whether `c` is an ASCII letter.
pub open spec fn ascii_letter(c: char) -> bool {
    'a' <= c <= 'z' || 'A' <= c <= 'Z'
}

/// Whether `c` is one of the ten decimal digits.
pub fn is_decimal_digit(c: char) -> (b: bool)
    ensures
        b == decimal_digit(c),
{
    '0' <= c && c <= '9'
}

/// Whether `c` is an ASCII letter.
pub fn is_ascii_letter(c: char) -> (b: bool)
    ensures
        b == ascii_letter(c),
{
    ('a' <= c && c <= 'z') || ('A' <= c && c <= 'Z')
}

/// What a password rule asks of one character.
#[derive(Clone, Copy, Debug)]
pub struct CharKind {
    pub whitespace: bool,
    pub lowercase: bool,
    pub uppercase: bool,
    pub digit: bool,
    /// Neither an ASCII letter nor an ASCII digit.
    pub special: bool,
}

/// The classes of `c`.
pub open spec fn char_kind(c: char) -> CharKind {
    CharKind {
        whitespace: whitespace_char(c),
        lowercase: lowercase_char(c),
        uppercase: uppercase_char(c),
        digit: decimal_digit(c),
        special: !(ascii_letter(c) || decimal_digit(c)),
    }
}

/// Classifies one character.
pub fn classify(c: char) -> (k: CharKind)
    ensures
        k == char_kind(c),
{
    let digit = is_decimal_digit(c);
    let letter = is_ascii_letter(c);
    CharKind {
        whitespace: c.is_whitespace(),
        lowercase: c.is_lowercase(),
        uppercase: c.is_uppercase(),
        digit,
        special: !(letter || digit),
    }
}

} // verus!
