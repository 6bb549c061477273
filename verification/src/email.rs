//! The shape of an e-mail address.

use vstd::prelude::*;
use crate::chars::{ascii_letter, decimal_digit, is_ascii_letter, is_decimal_digit};
use crate::text::chars_of;

verus! {

/// Whether `c` may stand before the `@`: an ASCII letter or digit, or one of
/// `.`, `_`, `%`, `+`, `-`.
pub open spec fn local_char(c: char) -> bool {
    ascii_letter(c) || decimal_digit(c) || c == '.' || c == '_' || c == '%' || c == '+' || c == '-'
}

/// Whether `c` may stand in the domain: an ASCII letter or digit, `.` or `-`.
pub open spec fn domain_char(c: char) -> bool {
    ascii_letter(c) || decimal_digit(c) || c == '.' || c == '-'
}

/// Whether `s` is an address with its `@` at index `at` and its last dot at
/// index `dot`: a local part of one or more characters, the `@`, a domain of
/// one or more characters, the dot, and a final label of two or more letters.
pub open spec fn splits_as_email(s: Seq<char>, at: int, dot: int) -> bool {
    &&& 1 <= at
    &&& at + 2 <= dot
    &&& dot + 3 <= s.len()
    &&& s[at] == '@'
    &&& s[dot] == '.'
    &&& forall|k: int| 0 <= k < at ==> local_char(#[trigger] s[k])
    &&& forall|k: int| at < k < dot ==> domain_char(#[trigger] s[k])
    &&& forall|k: int| dot < k < s.len() ==> ascii_letter(#[trigger] s[k])
}

/// Whether the whole of `s` has the shape `localpart@domain.tld`.
pub open spec fn email_shape(s: Seq<char>) -> bool {
    exists|at: int, dot: int| splits_as_email(s, at, dot)
}

fn is_local_char(c: char) -> (b: bool)
    ensures
        b == local_char(c),
{
    is_ascii_letter(c) || is_decimal_digit(c) || c == '.' || c == '_' || c == '%' || c == '+' || c
        == '-'
}

fn is_domain_char(c: char) -> (b: bool)
    ensures
        b == domain_char(c),
{
    is_ascii_letter(c) || is_decimal_digit(c) || c == '.' || c == '-'
}

/// Decides whether the whole of `text` has the shape of an e-mail address.
pub fn is_email(text: &str) -> (b: bool)
    ensures
        b == email_shape(text@),
{
    let s = chars_of(text);
    let n: usize = s.len();
    // The local part ends at the first character that cannot belong to it.
    let mut at: usize = 0;
    while at < n && is_local_char(s[at])
        invariant
            at <= n,
            n == s.len(),
            forall|k: int| 0 <= k < at ==> local_char(#[trigger] s@[k]),
        decreases n - at,
    {
        at = at + 1;
    }
    if at == 0 || at >= n || s[at] != '@' {
        return false;
    }
    // The final label is the longest run of letters at the end.
    let mut end: usize = n;
    while end > at + 1 && is_ascii_letter(s[end - 1])
        invariant
            at + 1 <= end <= n,
            n == s.len(),
            forall|k: int| end <= k < n ==> ascii_letter(#[trigger] s@[k]),
        decreases end,
    {
        end = end - 1;
    }
    if end - at < 3 || n - end < 2 || s[end - 1] != '.' {
        return false;
    }
    let dot: usize = end - 1;
    let mut k: usize = at + 1;
    while k < dot && is_domain_char(s[k])
        invariant
            at + 1 <= k <= dot,
            dot < n,
            n == s.len(),
            forall|j: int| at < j < k ==> domain_char(#[trigger] s@[j]),
        decreases dot - k,
    {
        k = k + 1;
    }
    if k < dot {
        return false;
    }
    assert(splits_as_email(s@, at as int, dot as int));
    true
}

} // verus!
