//! The validators: one function for each sort of rule.
//!
//! A validator takes the field's name, the rule's parameters and the field's
//! value. It returns a verdict and the message that reports a failure. A null
//! value fails every rule. A value of a type that the rule does not accept
//! fails too, with a message of its own.

use vstd::prelude::*;
use vstd::utf8::encode_utf8;
use crate::chars::{char_kind, classify, CharKind};
use crate::email::{email_shape, is_email};
use crate::text::{
    chars_of, contains_text, decimal, decimal_text, is_substring, signed_decimal, signed_decimal_text,
};
use crate::value::{Value, ValueView};

verus! {

/// How a length or a size is held against a rule's bound.
#[derive(Clone, Copy, Debug)]
pub enum LengthType {
    Exact,
    Max,
    Min,
}

impl LengthType {
    /// The words that name this comparison in a message.
    pub open spec fn words(self) -> Seq<char> {
        match self {
            LengthType::Exact => "exactly"@,
            LengthType::Max => "maximum of"@,
            LengthType::Min => "minimum of"@,
        }
    }

    /// Whether a measured `amount` meets the `bound` under this comparison.
    pub open spec fn admits(self, bound: int, amount: int) -> bool {
        match self {
            LengthType::Exact => bound == amount,
            LengthType::Max => bound >= amount,
            LengthType::Min => bound <= amount,
        }
    }

    pub fn to_string(&self) -> (s: &str)
        ensures
            s@ == self.words(),
    {
        match self {
            LengthType::Exact => "exactly",
            LengthType::Max => "maximum of",
            LengthType::Min => "minimum of",
        }
    }
}

/// What a range rule measures.
#[derive(Clone, Copy, Debug)]
pub enum RangeType {
    Size,
    Length,
}

impl RangeType {
    /// The word that names the measured quantity in a message.
    pub open spec fn words(self) -> Seq<char> {
        match self {
            RangeType::Size => "size"@,
            RangeType::Length => "length"@,
        }
    }

    pub fn to_string(&self) -> (s: &str)
        ensures
            s@ == self.words(),
    {
        match self {
            RangeType::Size => "size",
            RangeType::Length => "length",
        }
    }
}

/// A validator's answer: the verdict, and the message to report if it is `false`.
#[derive(Debug)]
pub struct InnerValidationResult(pub bool, pub String);

/// The length of a text, counted in bytes of its UTF-8 encoding.
pub open spec fn byte_length(s: Seq<char>) -> nat {
    encode_utf8(s).len()
}

/// The message for a value whose type the rule does not accept.
pub open spec fn incompatible_message(field: Seq<char>) -> Seq<char> {
    field + " has an incompatible type for this rule"@
}

/// Holds a measured amount against a bound.
pub fn check_len(rule: i128, vlen: i128, length_type: LengthType) -> (cond: bool)
    ensures
        cond == length_type.admits(rule as int, vlen as int),
{
    match length_type {
        LengthType::Max => rule >= vlen,
        LengthType::Min => rule <= vlen,
        LengthType::Exact => rule == vlen,
    }
}

fn incompatible(field: &str) -> (r: InnerValidationResult)
    ensures
        !r.0,
        r.1@ == incompatible_message(field@),
{
    let err = String::from_str(field).concat(" has an incompatible type for this rule");
    InnerValidationResult(false, err)
}

/// The number of bytes of `s`.
fn byte_len(s: &str) -> (n: usize)
    ensures
        n == byte_length(s@),
{
    s.as_bytes().len()
}

/// The default message of a length rule.
pub open spec fn length_message(field: Seq<char>, rule: nat, length_type: LengthType) -> Seq<char> {
    "'"@ + field + "' field must be "@ + length_type.words() + " "@ + decimal(rule)
        + " characters."@
}

/// The verdict of a length rule: the value is a text whose byte length meets
/// the bound.
pub open spec fn length_verdict(rule: nat, value: ValueView, length_type: LengthType) -> bool {
    value matches ValueView::Text(s) && length_type.admits(rule as int, byte_length(s) as int)
}

/// Whether a rule on texts accepts the value's type. Null is accepted, and
/// fails the rule.
pub open spec fn text_or_null(value: ValueView) -> bool {
    value is Text || value is Null
}

/// Validates the length of a text.
pub fn length(field: &str, rule: &usize, value: Value, length_type: LengthType) -> (r:
    InnerValidationResult)
    ensures
        r.0 == length_verdict(*rule as nat, value@, length_type),
        r.1@ == if text_or_null(value@) {
            length_message(field@, *rule as nat, length_type)
        } else {
            incompatible_message(field@)
        },
{
    let err = length_err(field, *rule, &length_type);
    match value {
        Value::Null => InnerValidationResult(false, err),
        Value::Text(v) => {
            let vlen: usize = byte_len(v.as_str());
            let cond = check_len(*rule as i128, vlen as i128, length_type);
            InnerValidationResult(cond, err)
        },
        _ => incompatible(field),
    }
}

fn length_err(field: &str, rule: usize, length_type: &LengthType) -> (err: String)
    ensures
        err@ == length_message(field@, rule as nat, *length_type),
{
    let number = decimal_text(rule as u128);
    String::from_str("'").concat(field).concat("' field must be ").concat(
        length_type.to_string(),
    ).concat(" ").concat(number.as_str()).concat(" characters.")
}

/// The default message of a size rule.
pub open spec fn size_message(field: Seq<char>, rule: int, length_type: LengthType) -> Seq<char> {
    "'"@ + field + "' field must be "@ + length_type.words() + " "@ + signed_decimal(rule) + "."@
}

/// The verdict of a size rule: the value is an integer that meets the bound.
pub open spec fn size_verdict(rule: int, value: ValueView, length_type: LengthType) -> bool {
    value matches ValueView::Int(i) && length_type.admits(rule, i)
}

/// Whether a rule on integers accepts the value's type. Null is accepted, and
/// fails the rule.
pub open spec fn int_or_null(value: ValueView) -> bool {
    value is Int || value is Null
}

/// Validates the size of an integer.
pub fn size(field: &str, rule: &isize, value: Value, length_type: LengthType) -> (r:
    InnerValidationResult)
    ensures
        r.0 == size_verdict(*rule as int, value@, length_type),
        r.1@ == if int_or_null(value@) {
            size_message(field@, *rule as int, length_type)
        } else {
            incompatible_message(field@)
        },
{
    let number = signed_decimal_text(*rule as i64);
    let err = String::from_str("'").concat(field).concat("' field must be ").concat(
        length_type.to_string(),
    ).concat(" ").concat(number.as_str()).concat(".");
    match value {
        Value::Null => InnerValidationResult(false, err),
        Value::Int(v) => {
            let cond = check_len(*rule as i128, v as i128, length_type);
            InnerValidationResult(cond, err)
        },
        _ => incompatible(field),
    }
}

/// The default message of the required rule.
pub open spec fn required_message(field: Seq<char>) -> Seq<char> {
    "'"@ + field + "' field cannot be null."@
}

/// Checks that a required field is not null.
pub fn required(field: &str, value: Value) -> (r: InnerValidationResult)
    ensures
        r.0 == !(value@ is Null),
        r.1@ == required_message(field@),
{
    let err = String::from_str("'").concat(field).concat("' field cannot be null.");
    InnerValidationResult(!value.is_null(), err)
}

/// The default message of the boolean rule.
pub open spec fn bool_message(field: Seq<char>) -> Seq<char> {
    "'"@ + field + "' field's condition must be satified."@
}

/// Checks that a boolean condition is satisfied: the value is `true`.
pub fn check_bool(field: &str, value: Value) -> (r: InnerValidationResult)
    ensures
        r.0 == (value@ == ValueView::Bool(true)),
        r.1@ == if value@ is Bool || value@ is Null {
            bool_message(field@)
        } else {
            incompatible_message(field@)
        },
{
    let err = String::from_str("'").concat(field).concat("' field's condition must be satified.");
    match value {
        Value::Null => InnerValidationResult(false, err),
        Value::Bool(v) => InnerValidationResult(v, err),
        _ => incompatible(field),
    }
}

/// The default message of a range rule.
pub open spec fn range_message(field: Seq<char>, min: int, max: int, range_type: RangeType) -> Seq<
    char,
> {
    field + "'s "@ + range_type.words() + " must be between "@ + signed_decimal(min) + " and "@
        + signed_decimal(max) + "."@
}

/// The quantity that a range rule measures on a value, if the value has it:
/// the byte length of a text, or the integer itself.
pub open spec fn measure(value: ValueView, range_type: RangeType) -> Option<int> {
    match (range_type, value) {
        (RangeType::Length, ValueView::Text(s)) => Some(byte_length(s) as int),
        (RangeType::Size, ValueView::Int(i)) => Some(i),
        _ => None,
    }
}

/// The verdict of a range rule: the measured quantity lies strictly between
/// the bounds. No quantity does when `min + 1 >= max`.
pub open spec fn range_verdict(value: ValueView, min: int, max: int, range_type: RangeType) -> bool {
    measure(value, range_type) matches Some(amount) && min < amount < max
}

/// Validates that the length of a text, or the size of an integer, lies
/// strictly between `min` and `max`.
pub fn range(field: &str, value: Value, min: &isize, max: &isize, range_type: RangeType) -> (r:
    InnerValidationResult)
    ensures
        r.0 == range_verdict(value@, *min as int, *max as int, range_type),
        r.1@ == if value@ is Null || measure(value@, range_type) is Some {
            range_message(field@, *min as int, *max as int, range_type)
        } else {
            incompatible_message(field@)
        },
{
    let low = signed_decimal_text(*min as i64);
    let high = signed_decimal_text(*max as i64);
    let err = String::from_str(field).concat("'s ").concat(range_type.to_string()).concat(
        " must be between ",
    ).concat(low.as_str()).concat(" and ").concat(high.as_str()).concat(".");
    let len: i128;
    match (range_type, value) {
        (_, Value::Null) => {
            return InnerValidationResult(false, err);
        },
        (RangeType::Length, Value::Text(val)) => {
            len = byte_len(val.as_str()) as i128;
        },
        (RangeType::Size, Value::Int(val)) => {
            len = val as i128;
        },
        _ => {
            return incompatible(field);
        },
    }
    let cond = len > *min as i128 && len < *max as i128;
    InnerValidationResult(cond, err)
}

/// The default message of the containment rule.
pub open spec fn contains_message(field: Seq<char>, rule: Seq<char>) -> Seq<char> {
    "'"@ + field + "' field must contain  '"@ + rule + "'. Please check again."@
}

/// Validates that a text contains `rule` as a substring.
pub fn contains(field: &str, rule: &str, value: Value) -> (r: InnerValidationResult)
    ensures
        r.0 == (value@ matches ValueView::Text(s) && is_substring(s, rule@)),
        r.1@ == if text_or_null(value@) {
            contains_message(field@, rule@)
        } else {
            incompatible_message(field@)
        },
{
    let err = String::from_str("'").concat(field).concat("' field must contain  '").concat(
        rule,
    ).concat("'. Please check again.");
    match value {
        Value::Null => InnerValidationResult(false, err),
        Value::Text(v) => {
            let cond = contains_text(v.as_str(), rule);
            InnerValidationResult(cond, err)
        },
        _ => incompatible(field),
    }
}

/// The default message of a password rule.
pub open spec fn password_message(field: Seq<char>, len: nat) -> Seq<char> {
    "'"@ + field
        + "' field must contain at least one uppercase letter, one lowercase letter, one digit and one special character and must be at least "@
        + decimal(len) + " chars long."@
}

/// Whether a text with these character classes and this byte length is a
/// strong password: no whitespace; an uppercase letter, a lowercase letter, a
/// digit and a special character, each at least once; at least `min_len` bytes.
pub open spec fn strong(kinds: Seq<CharKind>, byte_len: nat, min_len: nat) -> bool {
    &&& forall|i: int| 0 <= i < kinds.len() ==> !(#[trigger] kinds[i]).whitespace
    &&& exists|i: int| 0 <= i < kinds.len() && (#[trigger] kinds[i]).uppercase
    &&& exists|i: int| 0 <= i < kinds.len() && (#[trigger] kinds[i]).lowercase
    &&& exists|i: int| 0 <= i < kinds.len() && (#[trigger] kinds[i]).digit
    &&& exists|i: int| 0 <= i < kinds.len() && (#[trigger] kinds[i]).special
    &&& byte_len >= min_len
}

/// Decides from the classes of a text's characters, and from its byte length,
/// whether the text is a strong password.
pub fn is_strong(kinds: &Vec<CharKind>, byte_len: usize, min_len: usize) -> (b: bool)
    ensures
        b == strong(kinds@, byte_len as nat, min_len as nat),
{
    let mut has_whitespace = false;
    let mut has_upper = false;
    let mut has_lower = false;
    let mut has_digit = false;
    let mut has_special_char = false;
    let mut j: usize = 0;
    while j < kinds.len()
        invariant
            j <= kinds.len(),
            has_whitespace == exists|i: int| 0 <= i < j && (#[trigger] kinds@[i]).whitespace,
            has_upper == exists|i: int| 0 <= i < j && (#[trigger] kinds@[i]).uppercase,
            has_lower == exists|i: int| 0 <= i < j && (#[trigger] kinds@[i]).lowercase,
            has_digit == exists|i: int| 0 <= i < j && (#[trigger] kinds@[i]).digit,
            has_special_char == exists|i: int| 0 <= i < j && (#[trigger] kinds@[i]).special,
        decreases kinds.len() - j,
    {
        let k = &kinds[j];
        has_whitespace = has_whitespace || k.whitespace;
        has_lower = has_lower || k.lowercase;
        has_upper = has_upper || k.uppercase;
        has_digit = has_digit || k.digit;
        has_special_char = has_special_char || k.special;
        j = j + 1;
    }
    !has_whitespace && has_upper && has_lower && has_digit && has_special_char && byte_len
        >= min_len
}

/// The classes of the characters of `s`, in order.
pub open spec fn kinds_of(s: Seq<char>) -> Seq<CharKind> {
    Seq::new(s.len(), |i: int| char_kind(s[i]))
}

/// The verdict of a password rule: the value is a text that is a strong
/// password.
pub open spec fn password_verdict(value: ValueView, len: nat) -> bool {
    value matches ValueView::Text(s) && strong(kinds_of(s), byte_length(s), len)
}

/// Validates a password.
pub fn password(field: &str, value: Value, len: usize) -> (r: InnerValidationResult)
    ensures
        r.0 == password_verdict(value@, len as nat),
        r.1@ == if text_or_null(value@) {
            password_message(field@, len as nat)
        } else {
            incompatible_message(field@)
        },
{
    let number = decimal_text(len as u128);
    let err = String::from_str("'").concat(field).concat(
        "' field must contain at least one uppercase letter, one lowercase letter, one digit and one special character and must be at least ",
    ).concat(number.as_str()).concat(" chars long.");
    match value {
        Value::Null => InnerValidationResult(false, err),
        Value::Text(v) => {
            let chars = chars_of(v.as_str());
            let mut kinds: Vec<CharKind> = Vec::new();
            let mut j: usize = 0;
            while j < chars.len()
                invariant
                    j <= chars.len(),
                    chars@ == v@,
                    kinds@ == kinds_of(v@.take(j as int)),
                decreases chars.len() - j,
            {
                kinds.push(classify(chars[j]));
                j = j + 1;
            }
            assert(v@.take(j as int) =~= v@);
            let cond = is_strong(&kinds, byte_len(v.as_str()), len);
            InnerValidationResult(cond, err)
        },
        _ => incompatible(field),
    }
}

/// The default message of the e-mail rule.
pub open spec fn email_message(field: Seq<char>) -> Seq<char> {
    "'"@ + field + "' field must be a valid email address"@
}

/// Validates an e-mail address.
pub fn email(field: &str, value: Value) -> (r: InnerValidationResult)
    ensures
        r.0 == (value@ matches ValueView::Text(s) && email_shape(s)),
        r.1@ == if text_or_null(value@) {
            email_message(field@)
        } else {
            incompatible_message(field@)
        },
{
    let err = String::from_str("'").concat(field).concat("' field must be a valid email address");
    match value {
        Value::Null => InnerValidationResult(false, err),
        Value::Text(v) => InnerValidationResult(is_email(v.as_str()), err),
        _ => incompatible(field),
    }
}

} // verus!
