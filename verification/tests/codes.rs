use json_error::{ErrorCode, Token, TokenKind};

fn nullary_table() -> Vec<(ErrorCode, &'static str)> {
    vec![
        (ErrorCode::EOFWhileParsingList, "EOF While parsing list"),
        (ErrorCode::EOFWhileParsingObject, "EOF While parsing object"),
        (ErrorCode::EOFWhileParsingString, "EOF While parsing string"),
        (ErrorCode::EOFWhileParsingValue, "EOF While parsing value"),
        (ErrorCode::ExpectedColon, "expected `:`"),
        (ErrorCode::ExpectedConversion, "expected conversion"),
        (ErrorCode::ExpectedEnumEnd, "expected enum end"),
        (ErrorCode::ExpectedEnumEndToken, "expected enum map end"),
        (ErrorCode::ExpectedEnumMapStart, "expected enum map start"),
        (ErrorCode::ExpectedEnumToken, "expected enum token"),
        (ErrorCode::ExpectedEnumVariantString, "expected variant"),
        (ErrorCode::ExpectedListCommaOrEnd, "expected `,` or `]`"),
        (ErrorCode::ExpectedName, "expected name"),
        (ErrorCode::ExpectedObjectCommaOrEnd, "expected `,` or `}`"),
        (ErrorCode::ExpectedSomeIdent, "expected ident"),
        (ErrorCode::ExpectedSomeValue, "expected value"),
        (ErrorCode::InvalidEscape, "invalid escape"),
        (ErrorCode::InvalidNumber, "invalid number"),
        (ErrorCode::InvalidUnicodeCodePoint, "invalid unicode code point"),
        (ErrorCode::KeyMustBeAString, "key must be a string"),
        (
            ErrorCode::LoneLeadingSurrogateInHexEscape,
            "lone leading surrogate in hex escape",
        ),
        (ErrorCode::NotFourDigit, "invalid \\u escape (not four digits)"),
        (ErrorCode::NotUtf8, "contents not utf-8"),
        (ErrorCode::TrailingCharacters, "trailing characters"),
        (ErrorCode::UnexpectedEndOfHexEscape, "unexpected end of hex escape"),
        (ErrorCode::UnknownVariant, "unknown variant"),
        (ErrorCode::UnrecognizedHex, "invalid \\u escape (unrecognized hex)"),
    ]
}

#[test]
fn every_fixed_phrase_matches_the_table() {
    let table = nullary_table();
    assert_eq!(table.len(), 27);
    for (code, phrase) in table.iter() {
        assert_eq!(code.to_string(), *phrase);
    }
}

#[test]
fn no_fixed_phrase_is_empty() {
    for (code, _) in nullary_table().iter() {
        assert!(!code.to_string().is_empty());
    }
}

#[test]
fn fixed_phrases_are_pairwise_distinct() {
    let table = nullary_table();
    for (i, (a, _)) in table.iter().enumerate() {
        for (j, (b, _)) in table.iter().enumerate() {
            assert_eq!(a.to_string() == b.to_string(), i == j);
        }
    }
}

#[test]
fn expected_colon_renders_with_backticks() {
    assert_eq!(ErrorCode::ExpectedColon.to_string(), "expected `:`");
}

#[test]
fn escape_phrases_hold_one_backslash() {
    let s = ErrorCode::NotFourDigit.to_string();
    assert_eq!(s.chars().filter(|c| *c == '\\').count(), 1);
    assert_eq!(s.len(), 35);
    let t = ErrorCode::UnrecognizedHex.to_string();
    assert_eq!(t.chars().filter(|c| *c == '\\').count(), 1);
}

#[test]
fn conversion_error_names_the_token() {
    let code = ErrorCode::ConversionError(Token::new("Int(5)"));
    assert_eq!(code.to_string(), "failed to convert Int(5)");
}

#[test]
fn conversion_error_with_empty_token_keeps_the_prefix() {
    let code = ErrorCode::ConversionError(Token::new(""));
    assert_eq!(code.to_string(), "failed to convert ");
}

#[test]
fn unexpected_name_names_the_token() {
    let code = ErrorCode::UnexpectedName(Token::new("Str(\"id\")"));
    assert_eq!(code.to_string(), "unexpected name Str(\"id\")");
}

#[test]
fn missing_field_quotes_the_name() {
    assert_eq!(
        ErrorCode::MissingField("name").to_string(),
        "missing field \"name\""
    );
}

#[test]
fn missing_field_keeps_the_name_as_it_is() {
    assert_eq!(
        ErrorCode::MissingField("a \"b\" \\ c").to_string(),
        "missing field \"a \"b\" \\ c\""
    );
    assert_eq!(ErrorCode::MissingField("").to_string(), "missing field \"\"");
    assert_eq!(
        ErrorCode::MissingField("naïve ключ").to_string(),
        "missing field \"naïve ключ\""
    );
}

#[test]
fn expected_tokens_lists_the_kinds_then_the_token() {
    let code = ErrorCode::ExpectedTokens(
        Token::new("End"),
        &[TokenKind { name: "Colon" }, TokenKind { name: "Comma" }],
    );
    assert_eq!(code.to_string(), "[Colon, Comma], found End");
}

#[test]
fn expected_tokens_with_one_kind_has_no_comma() {
    let code = ErrorCode::ExpectedTokens(Token::new("Null"), &[TokenKind { name: "String" }]);
    assert_eq!(code.to_string(), "[String], found Null");
}

#[test]
fn expected_tokens_with_no_kind_has_empty_brackets() {
    let code = ErrorCode::ExpectedTokens(Token::new("Null"), &[]);
    assert_eq!(code.to_string(), "[], found Null");
}

#[test]
fn expected_tokens_with_three_kinds() {
    let code = ErrorCode::ExpectedTokens(
        Token::new("Bool(true)"),
        &[
            TokenKind { name: "Number" },
            TokenKind { name: "String" },
            TokenKind { name: "EndOfList" },
        ],
    );
    assert_eq!(
        code.to_string(),
        "[Number, String, EndOfList], found Bool(true)"
    );
}

#[test]
fn rendering_twice_gives_the_same_string() {
    let codes = vec![
        ErrorCode::ConversionError(Token::new("Int(5)")),
        ErrorCode::ExpectedTokens(Token::new("End"), &[TokenKind { name: "Colon" }]),
        ErrorCode::MissingField("id"),
        ErrorCode::UnexpectedName(Token::new("x")),
        ErrorCode::TrailingCharacters,
    ];
    for code in codes.iter() {
        assert_eq!(code.to_string(), code.to_string());
        assert_eq!(code.to_string(), code.clone().to_string());
    }
}

#[test]
fn equal_codes_compare_equal() {
    assert_eq!(ErrorCode::InvalidNumber, ErrorCode::InvalidNumber);
    assert_eq!(
        ErrorCode::ConversionError(Token::new("a")),
        ErrorCode::ConversionError(Token::new("a"))
    );
    assert_eq!(ErrorCode::MissingField("a"), ErrorCode::MissingField("a"));
    assert_eq!(
        ErrorCode::ExpectedTokens(Token::new("t"), &[TokenKind { name: "A" }]),
        ErrorCode::ExpectedTokens(Token::new("t"), &[TokenKind { name: "A" }])
    );
}

#[test]
fn codes_of_different_variants_compare_unequal() {
    assert_ne!(ErrorCode::InvalidNumber, ErrorCode::InvalidEscape);
    assert_ne!(
        ErrorCode::ConversionError(Token::new("a")),
        ErrorCode::UnexpectedName(Token::new("a"))
    );
    assert_ne!(ErrorCode::UnknownVariant, ErrorCode::MissingField("x"));
}

#[test]
fn codes_with_different_payload_compare_unequal() {
    assert_ne!(
        ErrorCode::ConversionError(Token::new("a")),
        ErrorCode::ConversionError(Token::new("b"))
    );
    assert_ne!(ErrorCode::MissingField("a"), ErrorCode::MissingField("ab"));
    assert_ne!(
        ErrorCode::ExpectedTokens(Token::new("t"), &[TokenKind { name: "A" }]),
        ErrorCode::ExpectedTokens(Token::new("u"), &[TokenKind { name: "A" }])
    );
    assert_ne!(
        ErrorCode::ExpectedTokens(Token::new("t"), &[TokenKind { name: "A" }]),
        ErrorCode::ExpectedTokens(Token::new("t"), &[TokenKind { name: "B" }])
    );
    assert_ne!(
        ErrorCode::ExpectedTokens(Token::new("t"), &[TokenKind { name: "A" }]),
        ErrorCode::ExpectedTokens(
            Token::new("t"),
            &[TokenKind { name: "A" }, TokenKind { name: "B" }]
        )
    );
}

#[test]
fn a_cloned_code_equals_the_one_it_came_from() {
    let code = ErrorCode::ExpectedTokens(
        Token::new("End"),
        &[TokenKind { name: "Colon" }, TokenKind { name: "Comma" }],
    );
    let copy = code.clone();
    assert_eq!(copy, code);
    assert_eq!(copy.to_string(), "[Colon, Comma], found End");
}
