use freeval::validators::{
    check_bool, check_len, contains, email, length, password, range, required, size,
    InnerValidationResult, LengthType, RangeType,
};
use freeval::value::Value;

fn text(s: &str) -> Value {
    Value::Text(s.to_string())
}

#[test]
fn test_length() {
    let len_rule = 7;
    let size_rule = -32;
    let InnerValidationResult(len_status, _) =
        length("name", &len_rule, text("Olamide"), LengthType::Min); // length
    let InnerValidationResult(size_status, _) =
        size("age", &size_rule, Value::Int(44), LengthType::Max); // size
    let InnerValidationResult(req_status, _) = required("valid", text("yes")); // required
    let InnerValidationResult(bool_status, _) = check_bool("allow", Value::Bool(false)); // boolean
    let InnerValidationResult(pass_status, _) = password("password", text("MyUniquPas@007"), 8); // password
    let InnerValidationResult(email_status, _) = email("email", text("MyUniquPas@007")); // email

    // range
    let (min, max) = (8, 16);
    let InnerValidationResult(rlen_status, _) =
        range("rlen", text("TheRandomString"), &min, &max, RangeType::Length); // length
    let InnerValidationResult(slen_status, _) =
        range("slen", Value::Int(6), &min, &max, RangeType::Size); // size

    let InnerValidationResult(cont_status, _) =
        contains("contains_field", "nothere", text("I love rust")); // contains

    assert_eq!(len_status, true);
    assert_eq!(size_status, false);
    assert_eq!(req_status, true);
    assert_eq!(bool_status, false);
    assert_eq!(pass_status, true);
    assert_eq!(email_status, false);
    assert_eq!(rlen_status, true);
    assert_eq!(slen_status, false);
    assert_eq!(cont_status, false);
}

#[test]
fn check_len_compares_bound_with_amount() {
    assert!(check_len(7, 7, LengthType::Exact));
    assert!(!check_len(7, 8, LengthType::Exact));
    assert!(check_len(7, 7, LengthType::Max));
    assert!(check_len(7, 3, LengthType::Max));
    assert!(!check_len(7, 8, LengthType::Max));
    assert!(check_len(7, 7, LengthType::Min));
    assert!(check_len(7, 9, LengthType::Min));
    assert!(!check_len(7, 6, LengthType::Min));
    assert!(check_len(-32, -40, LengthType::Max));
    assert!(!check_len(-32, 44, LengthType::Max));
}

#[test]
fn comparison_words() {
    assert_eq!(LengthType::Exact.to_string(), "exactly");
    assert_eq!(LengthType::Max.to_string(), "maximum of");
    assert_eq!(LengthType::Min.to_string(), "minimum of");
    assert_eq!(RangeType::Size.to_string(), "size");
    assert_eq!(RangeType::Length.to_string(), "length");
}

#[test]
fn length_messages_are_exact() {
    let InnerValidationResult(ok, msg) = length("name", &12, text("Olamide"), LengthType::Exact);
    assert!(!ok);
    assert_eq!(msg, "'name' field must be exactly 12 characters.");
    let InnerValidationResult(ok, msg) = length("name", &3, text("Olamide"), LengthType::Max);
    assert!(!ok);
    assert_eq!(msg, "'name' field must be maximum of 3 characters.");
    let InnerValidationResult(ok, msg) = length("bio", &12, text("short"), LengthType::Min);
    assert!(!ok);
    assert_eq!(msg, "'bio' field must be minimum of 12 characters.");
    let InnerValidationResult(ok, msg) = length("n", &0, text(""), LengthType::Exact);
    assert!(ok);
    assert_eq!(msg, "'n' field must be exactly 0 characters.");
    let InnerValidationResult(_, msg) =
        length("n", &18446744073709551615, text(""), LengthType::Exact);
    assert_eq!(msg, "'n' field must be exactly 18446744073709551615 characters.");
}

#[test]
fn length_counts_bytes() {
    // four characters, eight bytes
    let InnerValidationResult(ok, _) = length("name", &8, text("\u{e9}\u{e9}\u{e9}\u{e9}"), LengthType::Exact);
    assert!(ok);
    let InnerValidationResult(ok, _) = length("name", &4, text("\u{e9}\u{e9}\u{e9}\u{e9}"), LengthType::Exact);
    assert!(!ok);
    let InnerValidationResult(ok, _) = length("name", &4, text("\u{1f600}"), LengthType::Exact);
    assert!(ok);
}

#[test]
fn length_of_null_fails_with_the_rule_message() {
    let InnerValidationResult(ok, msg) = length("bio", &12, Value::Null, LengthType::Min);
    assert!(!ok);
    assert_eq!(msg, "'bio' field must be minimum of 12 characters.");
    // even a bound that the empty text would meet
    let InnerValidationResult(ok, _) = length("bio", &0, Value::Null, LengthType::Min);
    assert!(!ok);
}

#[test]
fn length_of_a_value_that_is_no_text_is_incompatible() {
    for value in [Value::Bool(true), Value::Int(7), Value::Other] {
        let InnerValidationResult(ok, msg) = length("name", &7, value, LengthType::Min);
        assert!(!ok);
        assert_eq!(msg, "name has an incompatible type for this rule");
    }
}

#[test]
fn size_messages_are_exact() {
    let InnerValidationResult(ok, msg) = size("age", &18, Value::Int(36), LengthType::Min);
    assert!(ok);
    assert_eq!(msg, "'age' field must be minimum of 18.");
    let InnerValidationResult(ok, msg) = size("age", &18, Value::Int(36), LengthType::Exact);
    assert!(!ok);
    assert_eq!(msg, "'age' field must be exactly 18.");
    let InnerValidationResult(ok, msg) = size("age", &-32, Value::Int(44), LengthType::Max);
    assert!(!ok);
    assert_eq!(msg, "'age' field must be maximum of -32.");
    let InnerValidationResult(ok, msg) = size("age", &isize::MIN, Value::Int(i64::MIN), LengthType::Min);
    assert_eq!(ok, (isize::MIN as i128) <= (i64::MIN as i128));
    assert_eq!(msg, format!("'age' field must be minimum of {}.", isize::MIN));
    let InnerValidationResult(ok, msg) = size("age", &isize::MAX, Value::Int(i64::MAX), LengthType::Max);
    assert_eq!(ok, (isize::MAX as i128) >= (i64::MAX as i128));
    assert_eq!(msg, format!("'age' field must be maximum of {}.", isize::MAX));
}

#[test]
fn size_of_null_fails_and_of_another_type_is_incompatible() {
    let InnerValidationResult(ok, msg) = size("age", &18, Value::Null, LengthType::Min);
    assert!(!ok);
    assert_eq!(msg, "'age' field must be minimum of 18.");
    for value in [Value::Bool(true), text("36"), Value::Other] {
        let InnerValidationResult(ok, msg) = size("age", &18, value, LengthType::Min);
        assert!(!ok);
        assert_eq!(msg, "age has an incompatible type for this rule");
    }
}

#[test]
fn required_accepts_all_but_null() {
    let InnerValidationResult(ok, msg) = required("bio", Value::Null);
    assert!(!ok);
    assert_eq!(msg, "'bio' field cannot be null.");
    for value in [Value::Bool(false), Value::Int(0), text(""), Value::Other] {
        let InnerValidationResult(ok, msg) = required("bio", value);
        assert!(ok);
        assert_eq!(msg, "'bio' field cannot be null.");
    }
}

#[test]
fn check_bool_wants_true() {
    let InnerValidationResult(ok, msg) = check_bool("allow", Value::Bool(true));
    assert!(ok);
    assert_eq!(msg, "'allow' field's condition must be satified.");
    let InnerValidationResult(ok, msg) = check_bool("allow", Value::Bool(false));
    assert!(!ok);
    assert_eq!(msg, "'allow' field's condition must be satified.");
    let InnerValidationResult(ok, msg) = check_bool("allow", Value::Null);
    assert!(!ok);
    assert_eq!(msg, "'allow' field's condition must be satified.");
    for value in [Value::Int(1), text("true"), Value::Other] {
        let InnerValidationResult(ok, msg) = check_bool("allow", value);
        assert!(!ok);
        assert_eq!(msg, "allow has an incompatible type for this rule");
    }
}

#[test]
fn password_message_is_exact() {
    let InnerValidationResult(ok, msg) = password("password", text("alllowercase1"), 8);
    assert!(!ok);
    assert_eq!(
        msg,
        "'password' field must contain at least one uppercase letter, one lowercase letter, one digit and one special character and must be at least 8 chars long."
    );
}

#[test]
fn password_needs_every_class() {
    let ok = |s: &str, n: usize| password("password", text(s), n).0;
    assert!(ok("WhatAPass@003", 8));
    assert!(ok("MyUniquPas@007", 8));
    // no uppercase letter
    assert!(!ok("whatapass@003", 8));
    // no lowercase letter
    assert!(!ok("WHATAPASS@003", 8));
    // no digit
    assert!(!ok("WhatAPass@abc", 8));
    // no special character
    assert!(!ok("WhatAPass0003", 8));
    // whitespace
    assert!(!ok("What APass@003", 8));
    assert!(!ok("WhatAPass@003\n", 8));
    assert!(!ok("What\u{a0}APass@003", 8));
    // too short
    assert!(!ok("Wp@3", 8));
    assert!(ok("Wp@3", 4));
    assert!(!ok("Wp@3", 5));
    assert!(!ok("", 0));
}

#[test]
fn password_classes_beyond_ascii() {
    let ok = |s: &str, n: usize| password("password", text(s), n).0;
    // a letter outside ASCII is uppercase or lowercase, and special as well
    assert!(ok("\u{c9}a1", 0));
    assert!(ok("A\u{e9}1", 0));
    assert!(!ok("\u{c9}\u{e9}x", 0));
    // the length is counted in bytes
    assert!(ok("A\u{e9}1", 4));
    assert!(!ok("A\u{e9}1", 5));
}

#[test]
fn password_of_null_fails_and_of_another_type_is_incompatible() {
    let InnerValidationResult(ok, msg) = password("password", Value::Null, 0);
    assert!(!ok);
    assert_eq!(
        msg,
        "'password' field must contain at least one uppercase letter, one lowercase letter, one digit and one special character and must be at least 0 chars long."
    );
    for value in [Value::Bool(true), Value::Int(1), Value::Other] {
        let InnerValidationResult(ok, msg) = password("password", value, 0);
        assert!(!ok);
        assert_eq!(msg, "password has an incompatible type for this rule");
    }
}

#[test]
fn email_message_is_exact() {
    let InnerValidationResult(ok, msg) = email("email", text("myemail@gmailcom"));
    assert!(!ok);
    assert_eq!(msg, "'email' field must be a valid email address");
    let InnerValidationResult(ok, msg) = email("email", text("myemail@gmail.com"));
    assert!(ok);
    assert_eq!(msg, "'email' field must be a valid email address");
    let InnerValidationResult(ok, msg) = email("email", Value::Null);
    assert!(!ok);
    assert_eq!(msg, "'email' field must be a valid email address");
    for value in [Value::Bool(true), Value::Int(1), Value::Other] {
        let InnerValidationResult(ok, msg) = email("email", value);
        assert!(!ok);
        assert_eq!(msg, "email has an incompatible type for this rule");
    }
}

#[test]
fn range_excludes_both_bounds() {
    let on_int = |v: i64, min: isize, max: isize| range("slen", Value::Int(v), &min, &max, RangeType::Size).0;
    assert!(!on_int(8, 8, 16));
    assert!(on_int(9, 8, 16));
    assert!(on_int(15, 8, 16));
    assert!(!on_int(16, 8, 16));
    assert!(!on_int(6, 8, 16));
    assert!(on_int(-1, -2, 0));
    let on_text = |s: &str, min: isize, max: isize| range("rlen", text(s), &min, &max, RangeType::Length).0;
    assert!(on_text("TheRandomString", 8, 16));
    assert!(!on_text("TheRandomString!", 8, 16));
    assert!(!on_text("TheRando", 8, 16));
    assert!(on_text("", -1, 1));
    assert!(!on_text("", 0, 1));
}

#[test]
fn range_with_no_room_between_the_bounds_admits_nothing() {
    for v in [-1, 0, 4, 5, 6, 7] {
        assert!(!range("n", Value::Int(v), &5, &5, RangeType::Size).0);
        assert!(!range("n", Value::Int(v), &5, &6, RangeType::Size).0);
        assert!(!range("n", Value::Int(v), &6, &5, RangeType::Size).0);
    }
    assert!(!range("n", text("abcde"), &5, &5, RangeType::Length).0);
    assert!(!range("n", text("abcde"), &6, &4, RangeType::Length).0);
}

#[test]
fn range_messages_are_exact() {
    let InnerValidationResult(_, msg) = range("rlen", text("x"), &8, &16, RangeType::Length);
    assert_eq!(msg, "rlen's length must be between 8 and 16.");
    let InnerValidationResult(_, msg) = range("slen", Value::Int(6), &-8, &16, RangeType::Size);
    assert_eq!(msg, "slen's size must be between -8 and 16.");
    let InnerValidationResult(ok, msg) = range("slen", Value::Null, &8, &16, RangeType::Size);
    assert!(!ok);
    assert_eq!(msg, "slen's size must be between 8 and 16.");
    let InnerValidationResult(ok, msg) = range("rlen", Value::Null, &8, &16, RangeType::Length);
    assert!(!ok);
    assert_eq!(msg, "rlen's length must be between 8 and 16.");
}

#[test]
fn range_on_the_wrong_type_is_incompatible() {
    let InnerValidationResult(ok, msg) = range("rlen", Value::Int(10), &8, &16, RangeType::Length);
    assert!(!ok);
    assert_eq!(msg, "rlen has an incompatible type for this rule");
    let InnerValidationResult(ok, msg) = range("slen", text("0123456789"), &8, &16, RangeType::Size);
    assert!(!ok);
    assert_eq!(msg, "slen has an incompatible type for this rule");
    let InnerValidationResult(ok, msg) = range("slen", Value::Bool(true), &8, &16, RangeType::Size);
    assert!(!ok);
    assert_eq!(msg, "slen has an incompatible type for this rule");
    let InnerValidationResult(ok, msg) = range("slen", Value::Other, &8, &16, RangeType::Length);
    assert!(!ok);
    assert_eq!(msg, "slen has an incompatible type for this rule");
}

#[test]
fn contains_is_exact_and_case_sensitive() {
    let InnerValidationResult(ok, msg) = contains("motto", "rust", text("I love rust"));
    assert!(ok);
    assert_eq!(msg, "'motto' field must contain  'rust'. Please check again.");
    assert!(!contains("motto", "Rust", text("I love rust")).0);
    assert!(contains("motto", "", text("I love rust")).0);
    assert!(contains("motto", "", text("")).0);
    assert!(contains("motto", "I love rust", text("I love rust")).0);
    assert!(!contains("motto", "I love rust!", text("I love rust")).0);
    assert!(contains("motto", "I", text("I love rust")).0);
    assert!(contains("motto", "t", text("I love rust")).0);
    assert!(contains("motto", "ve r", text("I love rust")).0);
    assert!(!contains("motto", "vr", text("I love rust")).0);
    assert!(contains("motto", "\u{e9}t", text("l'\u{e9}t\u{e9}")).0);
    assert!(!contains("motto", "aab", text("aaaa")).0);
    assert!(contains("motto", "aab", text("aaaab")).0);
}

#[test]
fn contains_of_null_fails_and_of_another_type_is_incompatible() {
    let InnerValidationResult(ok, msg) = contains("motto", "", Value::Null);
    assert!(!ok);
    assert_eq!(msg, "'motto' field must contain  ''. Please check again.");
    for value in [Value::Bool(true), Value::Int(1), Value::Other] {
        let InnerValidationResult(ok, msg) = contains("motto", "1", value);
        assert!(!ok);
        assert_eq!(msg, "motto has an incompatible type for this rule");
    }
}
