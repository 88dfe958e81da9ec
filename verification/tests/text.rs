use json_error::text::{decimal_string, push_decimal, quote, str_eq};
use json_error::token::{kinds_eq, render_kinds};
use json_error::{Token, TokenKind};

#[test]
fn zero_is_a_single_digit() {
    assert_eq!(decimal_string(0), "0");
}

#[test]
fn single_digits() {
    let expected = ["0", "1", "2", "3", "4", "5", "6", "7", "8", "9"];
    for (n, digit) in expected.iter().enumerate() {
        assert_eq!(decimal_string(n), *digit);
    }
}

#[test]
fn tens_and_their_neighbours() {
    assert_eq!(decimal_string(10), "10");
    assert_eq!(decimal_string(11), "11");
    assert_eq!(decimal_string(99), "99");
    assert_eq!(decimal_string(100), "100");
    assert_eq!(decimal_string(101), "101");
    assert_eq!(decimal_string(1000), "1000");
}

#[test]
fn digits_come_most_significant_first() {
    assert_eq!(decimal_string(12), "12");
    assert_eq!(decimal_string(1234567890), "1234567890");
    assert_eq!(decimal_string(9007), "9007");
}

#[test]
fn the_largest_counter_fits() {
    assert_eq!(decimal_string(usize::MAX), usize::MAX.to_string());
    assert_eq!(decimal_string(4294967295), "4294967295");
}

#[test]
fn decimal_agrees_with_the_standard_rendering() {
    let mut n: usize = 0;
    while n < 3000 {
        assert_eq!(decimal_string(n), n.to_string());
        n += 1;
    }
    let mut m: usize = 1;
    while m < usize::MAX / 7 {
        assert_eq!(decimal_string(m), m.to_string());
        assert_eq!(decimal_string(m - 1), (m - 1).to_string());
        m *= 7;
    }
}

#[test]
fn push_decimal_appends() {
    let mut s = String::from("line ");
    push_decimal(&mut s, 42);
    assert_eq!(s, "line 42");
    push_decimal(&mut s, 0);
    assert_eq!(s, "line 420");
}

#[test]
fn quote_wraps_in_double_quotes() {
    assert_eq!(quote("name"), "\"name\"");
    assert_eq!(quote(""), "\"\"");
}

#[test]
fn quote_changes_no_character() {
    assert_eq!(quote("a\"b"), "\"a\"b\"");
    assert_eq!(quote("tab\there"), "\"tab\there\"");
    assert_eq!(quote("back\\slash"), "\"back\\slash\"");
    assert_eq!(quote("é"), "\"é\"");
}

#[test]
fn str_eq_compares_characters() {
    assert!(str_eq("", ""));
    assert!(str_eq("abc", "abc"));
    assert!(!str_eq("abc", "abd"));
    assert!(!str_eq("abc", "ab"));
    assert!(!str_eq("ab", "abc"));
    assert!(!str_eq("", "a"));
    assert!(str_eq("żółw", "żółw"));
    assert!(!str_eq("żółw", "zolw"));
    assert!(!str_eq("é", "e\u{301}"));
}

#[test]
fn kinds_eq_compares_names_in_order() {
    let a = [TokenKind { name: "A" }, TokenKind { name: "B" }];
    let b = [TokenKind { name: "A" }, TokenKind { name: "B" }];
    let c = [TokenKind { name: "B" }, TokenKind { name: "A" }];
    let d = [TokenKind { name: "A" }];
    assert!(kinds_eq(&a, &b));
    assert!(!kinds_eq(&a, &c));
    assert!(!kinds_eq(&a, &d));
    assert!(!kinds_eq(&d, &a));
    assert!(kinds_eq(&[], &[]));
    assert!(!kinds_eq(&[], &d));
}

#[test]
fn render_kinds_brackets_and_separates() {
    assert_eq!(render_kinds(&[]), "[]");
    assert_eq!(
        render_kinds(&[TokenKind { name: "Colon" }]),
        "[Colon]"
    );
    assert_eq!(
        render_kinds(&[TokenKind { name: "Colon" }, TokenKind { name: "Comma" }]),
        "[Colon, Comma]"
    );
    assert_eq!(
        render_kinds(&[
            TokenKind { name: "A" },
            TokenKind { name: "" },
            TokenKind { name: "C" }
        ]),
        "[A, , C]"
    );
}

#[test]
fn token_kinds_compare_by_name() {
    assert_eq!(TokenKind { name: "Colon" }, TokenKind { name: "Colon" });
    assert_ne!(TokenKind { name: "Colon" }, TokenKind { name: "Comma" });
    let kind = TokenKind { name: "Colon" };
    let copy = kind;
    assert_eq!(copy, kind);
}

#[test]
fn tokens_compare_by_text() {
    assert_eq!(Token::new("Int(5)"), Token::new("Int(5)"));
    assert_ne!(Token::new("Int(5)"), Token::new("Int(6)"));
    let token = Token::new("Str(\"a\")");
    assert_eq!(token.text, "Str(\"a\")");
    assert_eq!(token.clone(), token);
}
