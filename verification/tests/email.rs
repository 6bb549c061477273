use freeval::email::is_email;
use regex::Regex;

#[test]
fn plain_addresses_are_accepted() {
    for s in [
        "a@b.co",
        "myemail@gmail.com",
        "first.last+tag@sub.example-host.org",
        "A_b%c-d@x.y.zz",
        "1@2.ab",
        ".@..aa",
        "a@-.AB",
        "user@example.museum",
    ] {
        assert!(is_email(s), "{:?}", s);
    }
}

#[test]
fn malformed_addresses_are_rejected() {
    for s in [
        "",
        "@",
        "a@b",
        "a@b.c",
        "a@.co",
        "@b.co",
        "a@b.co ",
        " a@b.co",
        "a@b.co\n",
        "a b@c.de",
        "a@b@c.de",
        "a@b.c0",
        "a@b.c-",
        "a@b_c.de",
        "a!b@c.de",
        "myemail@gmailcom",
        "MyUniquPas@007",
        "a@b.\u{e9}\u{e9}",
        "\u{e9}@b.co",
        "a@\u{e9}.co",
        "ab.co",
        "a@b..",
        "a@b.co.",
    ] {
        assert!(!is_email(s), "{:?}", s);
    }
}

#[test]
fn shape_agrees_with_the_regular_expression() {
    let re = Regex::new(r"^[A-Za-z0-9._%+-]+@[A-Za-z0-9.-]+\.[A-Za-z]{2,}$").unwrap();
    let alphabet = ['a', 'Z', '0', '.', '@', '-', '_', '%', '+', ' ', '\u{e9}', '\n'];
    // every text of up to five characters over the alphabet
    let mut texts: Vec<String> = vec![String::new()];
    let mut start = 0;
    for _ in 0..5 {
        let end = texts.len();
        for i in start..end {
            for c in alphabet {
                let mut t = texts[i].clone();
                t.push(c);
                texts.push(t);
            }
        }
        start = end;
    }
    for t in &texts {
        assert_eq!(is_email(t), re.is_match(t), "{:?}", t);
    }
    for s in [
        "first.last+tag@sub.example-host.org",
        "a@b.c.d.e.ff",
        "a@b.c.d.e.f",
        "x@y.zz\n",
        "x@y.z9z",
        "a.b@c-d.ef",
        "a@@b.cd",
        "a@b@c.de",
        "myemail@gmailcom",
        "MyUniquPas@007",
    ] {
        assert_eq!(is_email(s), re.is_match(s), "{:?}", s);
    }
}
