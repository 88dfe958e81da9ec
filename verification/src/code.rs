//! The closed set of failure kinds that scanning, parsing and converting
//! JSON input can end in, and the fixed English phrase of each.

use crate::text::{bracketed, quote, quoted, str_eq};
use crate::token::{kind_names, kinds_eq, render_kinds, Token, TokenKind};
use vstd::prelude::*;
use vstd::std_specs::cmp::PartialEqSpecImpl;

verus! {

/// Why a piece of JSON input was refused.
///
/// A code carries what its phrase needs and nothing else. Where in the
/// input the failure lies is for the envelope to say.
#[derive(Debug)]
pub enum ErrorCode {
    /// The token could not be converted to the requested type.
    ConversionError(Token),
    EOFWhileParsingList,
    EOFWhileParsingObject,
    EOFWhileParsingString,
    EOFWhileParsingValue,
    ExpectedColon,
    ExpectedConversion,
    ExpectedEnumEnd,
    ExpectedEnumEndToken,
    ExpectedEnumMapStart,
    ExpectedEnumToken,
    ExpectedEnumVariantString,
    ExpectedListCommaOrEnd,
    ExpectedName,
    ExpectedObjectCommaOrEnd,
    ExpectedSomeIdent,
    ExpectedSomeValue,
    /// The token that was found, and the kinds that would have been
    /// accepted in its place.
    ExpectedTokens(Token, &'static [TokenKind]),
    InvalidEscape,
    InvalidNumber,
    InvalidUnicodeCodePoint,
    KeyMustBeAString,
    LoneLeadingSurrogateInHexEscape,
    /// A field that must be present is absent.
    MissingField(&'static str),
    NotFourDigit,
    NotUtf8,
    TrailingCharacters,
    UnexpectedEndOfHexEscape,
    /// A name was found where none was expected.
    UnexpectedName(Token),
    UnknownVariant,
    UnrecognizedHex,
}

/// A code as a mathematical value: the variant, with each payload as the
/// characters it shows.
pub enum ErrorCodeView {
    ConversionError(Seq<char>),
    EOFWhileParsingList,
    EOFWhileParsingObject,
    EOFWhileParsingString,
    EOFWhileParsingValue,
    ExpectedColon,
    ExpectedConversion,
    ExpectedEnumEnd,
    ExpectedEnumEndToken,
    ExpectedEnumMapStart,
    ExpectedEnumToken,
    ExpectedEnumVariantString,
    ExpectedListCommaOrEnd,
    ExpectedName,
    ExpectedObjectCommaOrEnd,
    ExpectedSomeIdent,
    ExpectedSomeValue,
    ExpectedTokens(Seq<char>, Seq<Seq<char>>),
    InvalidEscape,
    InvalidNumber,
    InvalidUnicodeCodePoint,
    KeyMustBeAString,
    LoneLeadingSurrogateInHexEscape,
    MissingField(Seq<char>),
    NotFourDigit,
    NotUtf8,
    TrailingCharacters,
    UnexpectedEndOfHexEscape,
    UnexpectedName(Seq<char>),
    UnknownVariant,
    UnrecognizedHex,
}

impl View for ErrorCode {
    type V = ErrorCodeView;

    open spec fn view(&self) -> ErrorCodeView {
        match *self {
            ErrorCode::ConversionError(token) => ErrorCodeView::ConversionError(token@),
            ErrorCode::EOFWhileParsingList => ErrorCodeView::EOFWhileParsingList,
            ErrorCode::EOFWhileParsingObject => ErrorCodeView::EOFWhileParsingObject,
            ErrorCode::EOFWhileParsingString => ErrorCodeView::EOFWhileParsingString,
            ErrorCode::EOFWhileParsingValue => ErrorCodeView::EOFWhileParsingValue,
            ErrorCode::ExpectedColon => ErrorCodeView::ExpectedColon,
            ErrorCode::ExpectedConversion => ErrorCodeView::ExpectedConversion,
            ErrorCode::ExpectedEnumEnd => ErrorCodeView::ExpectedEnumEnd,
            ErrorCode::ExpectedEnumEndToken => ErrorCodeView::ExpectedEnumEndToken,
            ErrorCode::ExpectedEnumMapStart => ErrorCodeView::ExpectedEnumMapStart,
            ErrorCode::ExpectedEnumToken => ErrorCodeView::ExpectedEnumToken,
            ErrorCode::ExpectedEnumVariantString => ErrorCodeView::ExpectedEnumVariantString,
            ErrorCode::ExpectedListCommaOrEnd => ErrorCodeView::ExpectedListCommaOrEnd,
            ErrorCode::ExpectedName => ErrorCodeView::ExpectedName,
            ErrorCode::ExpectedObjectCommaOrEnd => ErrorCodeView::ExpectedObjectCommaOrEnd,
            ErrorCode::ExpectedSomeIdent => ErrorCodeView::ExpectedSomeIdent,
            ErrorCode::ExpectedSomeValue => ErrorCodeView::ExpectedSomeValue,
            ErrorCode::ExpectedTokens(token, kinds) => ErrorCodeView::ExpectedTokens(token@, kind_names(kinds@)),
            ErrorCode::InvalidEscape => ErrorCodeView::InvalidEscape,
            ErrorCode::InvalidNumber => ErrorCodeView::InvalidNumber,
            ErrorCode::InvalidUnicodeCodePoint => ErrorCodeView::InvalidUnicodeCodePoint,
            ErrorCode::KeyMustBeAString => ErrorCodeView::KeyMustBeAString,
            ErrorCode::LoneLeadingSurrogateInHexEscape => ErrorCodeView::LoneLeadingSurrogateInHexEscape,
            ErrorCode::MissingField(field) => ErrorCodeView::MissingField(field@),
            ErrorCode::NotFourDigit => ErrorCodeView::NotFourDigit,
            ErrorCode::NotUtf8 => ErrorCodeView::NotUtf8,
            ErrorCode::TrailingCharacters => ErrorCodeView::TrailingCharacters,
            ErrorCode::UnexpectedEndOfHexEscape => ErrorCodeView::UnexpectedEndOfHexEscape,
            ErrorCode::UnexpectedName(token) => ErrorCodeView::UnexpectedName(token@),
            ErrorCode::UnknownVariant => ErrorCodeView::UnknownVariant,
            ErrorCode::UnrecognizedHex => ErrorCodeView::UnrecognizedHex,
        }
    }
}

impl ErrorCodeView {
    /// The phrase of a code. A variant without payload has one fixed
    /// phrase; the others put their payload into theirs.
    pub open spec fn phrase(self) -> Seq<char> {
        match self {
            ErrorCodeView::ConversionError(token) => "failed to convert "@ + token,
            ErrorCodeView::EOFWhileParsingList => "EOF While parsing list"@,
            ErrorCodeView::EOFWhileParsingObject => "EOF While parsing object"@,
            ErrorCodeView::EOFWhileParsingString => "EOF While parsing string"@,
            ErrorCodeView::EOFWhileParsingValue => "EOF While parsing value"@,
            ErrorCodeView::ExpectedColon => "expected `:`"@,
            ErrorCodeView::ExpectedConversion => "expected conversion"@,
            ErrorCodeView::ExpectedEnumEnd => "expected enum end"@,
            ErrorCodeView::ExpectedEnumEndToken => "expected enum map end"@,
            ErrorCodeView::ExpectedEnumMapStart => "expected enum map start"@,
            ErrorCodeView::ExpectedEnumToken => "expected enum token"@,
            ErrorCodeView::ExpectedEnumVariantString => "expected variant"@,
            ErrorCodeView::ExpectedListCommaOrEnd => "expected `,` or `]`"@,
            ErrorCodeView::ExpectedName => "expected name"@,
            ErrorCodeView::ExpectedObjectCommaOrEnd => "expected `,` or `}`"@,
            ErrorCodeView::ExpectedSomeIdent => "expected ident"@,
            ErrorCodeView::ExpectedSomeValue => "expected value"@,
            ErrorCodeView::ExpectedTokens(token, kinds) => bracketed(kinds) + ", found "@ + token,
            ErrorCodeView::InvalidEscape => "invalid escape"@,
            ErrorCodeView::InvalidNumber => "invalid number"@,
            ErrorCodeView::InvalidUnicodeCodePoint => "invalid unicode code point"@,
            ErrorCodeView::KeyMustBeAString => "key must be a string"@,
            ErrorCodeView::LoneLeadingSurrogateInHexEscape => "lone leading surrogate in hex escape"@,
            ErrorCodeView::MissingField(field) => "missing field "@ + quoted(field),
            ErrorCodeView::NotFourDigit => "invalid \\u escape (not four digits)"@,
            ErrorCodeView::NotUtf8 => "contents not utf-8"@,
            ErrorCodeView::TrailingCharacters => "trailing characters"@,
            ErrorCodeView::UnexpectedEndOfHexEscape => "unexpected end of hex escape"@,
            ErrorCodeView::UnexpectedName(token) => "unexpected name "@ + token,
            ErrorCodeView::UnknownVariant => "unknown variant"@,
            ErrorCodeView::UnrecognizedHex => "invalid \\u escape (unrecognized hex)"@,
        }
    }
}

impl ErrorCode {
    /// Renders the code as its phrase.
    pub fn to_string(&self) -> (s: String)
        ensures
            s@ == self@.phrase(),
    {
        match self {
            ErrorCode::ConversionError(token) => {
                let mut s = String::from_str("failed to convert ");
                s.append(token.text.as_str());
                s
            },
            ErrorCode::EOFWhileParsingList => String::from_str("EOF While parsing list"),
            ErrorCode::EOFWhileParsingObject => String::from_str("EOF While parsing object"),
            ErrorCode::EOFWhileParsingString => String::from_str("EOF While parsing string"),
            ErrorCode::EOFWhileParsingValue => String::from_str("EOF While parsing value"),
            ErrorCode::ExpectedColon => String::from_str("expected `:`"),
            ErrorCode::ExpectedConversion => String::from_str("expected conversion"),
            ErrorCode::ExpectedEnumEnd => String::from_str("expected enum end"),
            ErrorCode::ExpectedEnumEndToken => String::from_str("expected enum map end"),
            ErrorCode::ExpectedEnumMapStart => String::from_str("expected enum map start"),
            ErrorCode::ExpectedEnumToken => String::from_str("expected enum token"),
            ErrorCode::ExpectedEnumVariantString => String::from_str("expected variant"),
            ErrorCode::ExpectedListCommaOrEnd => String::from_str("expected `,` or `]`"),
            ErrorCode::ExpectedName => String::from_str("expected name"),
            ErrorCode::ExpectedObjectCommaOrEnd => String::from_str("expected `,` or `}`"),
            ErrorCode::ExpectedSomeIdent => String::from_str("expected ident"),
            ErrorCode::ExpectedSomeValue => String::from_str("expected value"),
            ErrorCode::ExpectedTokens(token, kinds) => {
                let mut s = render_kinds(kinds);
                s.append(", found ");
                s.append(token.text.as_str());
                s
            },
            ErrorCode::InvalidEscape => String::from_str("invalid escape"),
            ErrorCode::InvalidNumber => String::from_str("invalid number"),
            ErrorCode::InvalidUnicodeCodePoint => String::from_str("invalid unicode code point"),
            ErrorCode::KeyMustBeAString => String::from_str("key must be a string"),
            ErrorCode::LoneLeadingSurrogateInHexEscape => String::from_str("lone leading surrogate in hex escape"),
            ErrorCode::MissingField(field) => {
                let name = quote(field);
                let mut s = String::from_str("missing field ");
                s.append(name.as_str());
                s
            },
            ErrorCode::NotFourDigit => String::from_str("invalid \\u escape (not four digits)"),
            ErrorCode::NotUtf8 => String::from_str("contents not utf-8"),
            ErrorCode::TrailingCharacters => String::from_str("trailing characters"),
            ErrorCode::UnexpectedEndOfHexEscape => String::from_str("unexpected end of hex escape"),
            ErrorCode::UnexpectedName(token) => {
                let mut s = String::from_str("unexpected name ");
                s.append(token.text.as_str());
                s
            },
            ErrorCode::UnknownVariant => String::from_str("unknown variant"),
            ErrorCode::UnrecognizedHex => String::from_str("invalid \\u escape (unrecognized hex)"),
        }
    }
}

impl Clone for ErrorCode {
    fn clone(&self) -> (copy: Self)
        ensures
            copy == *self,
    {
        match self {
            ErrorCode::ConversionError(token) => ErrorCode::ConversionError(token.clone()),
            ErrorCode::EOFWhileParsingList => ErrorCode::EOFWhileParsingList,
            ErrorCode::EOFWhileParsingObject => ErrorCode::EOFWhileParsingObject,
            ErrorCode::EOFWhileParsingString => ErrorCode::EOFWhileParsingString,
            ErrorCode::EOFWhileParsingValue => ErrorCode::EOFWhileParsingValue,
            ErrorCode::ExpectedColon => ErrorCode::ExpectedColon,
            ErrorCode::ExpectedConversion => ErrorCode::ExpectedConversion,
            ErrorCode::ExpectedEnumEnd => ErrorCode::ExpectedEnumEnd,
            ErrorCode::ExpectedEnumEndToken => ErrorCode::ExpectedEnumEndToken,
            ErrorCode::ExpectedEnumMapStart => ErrorCode::ExpectedEnumMapStart,
            ErrorCode::ExpectedEnumToken => ErrorCode::ExpectedEnumToken,
            ErrorCode::ExpectedEnumVariantString => ErrorCode::ExpectedEnumVariantString,
            ErrorCode::ExpectedListCommaOrEnd => ErrorCode::ExpectedListCommaOrEnd,
            ErrorCode::ExpectedName => ErrorCode::ExpectedName,
            ErrorCode::ExpectedObjectCommaOrEnd => ErrorCode::ExpectedObjectCommaOrEnd,
            ErrorCode::ExpectedSomeIdent => ErrorCode::ExpectedSomeIdent,
            ErrorCode::ExpectedSomeValue => ErrorCode::ExpectedSomeValue,
            ErrorCode::ExpectedTokens(token, kinds) => ErrorCode::ExpectedTokens(token.clone(), *kinds),
            ErrorCode::InvalidEscape => ErrorCode::InvalidEscape,
            ErrorCode::InvalidNumber => ErrorCode::InvalidNumber,
            ErrorCode::InvalidUnicodeCodePoint => ErrorCode::InvalidUnicodeCodePoint,
            ErrorCode::KeyMustBeAString => ErrorCode::KeyMustBeAString,
            ErrorCode::LoneLeadingSurrogateInHexEscape => ErrorCode::LoneLeadingSurrogateInHexEscape,
            ErrorCode::MissingField(field) => ErrorCode::MissingField(*field),
            ErrorCode::NotFourDigit => ErrorCode::NotFourDigit,
            ErrorCode::NotUtf8 => ErrorCode::NotUtf8,
            ErrorCode::TrailingCharacters => ErrorCode::TrailingCharacters,
            ErrorCode::UnexpectedEndOfHexEscape => ErrorCode::UnexpectedEndOfHexEscape,
            ErrorCode::UnexpectedName(token) => ErrorCode::UnexpectedName(token.clone()),
            ErrorCode::UnknownVariant => ErrorCode::UnknownVariant,
            ErrorCode::UnrecognizedHex => ErrorCode::UnrecognizedHex,
        }
    }
}

impl PartialEq for ErrorCode {
    fn eq(&self, other: &Self) -> (same: bool) {
        match (self, other) {
            (ErrorCode::ConversionError(a), ErrorCode::ConversionError(b)) => a.text == b.text,
            (ErrorCode::EOFWhileParsingList, ErrorCode::EOFWhileParsingList) => true,
            (ErrorCode::EOFWhileParsingObject, ErrorCode::EOFWhileParsingObject) => true,
            (ErrorCode::EOFWhileParsingString, ErrorCode::EOFWhileParsingString) => true,
            (ErrorCode::EOFWhileParsingValue, ErrorCode::EOFWhileParsingValue) => true,
            (ErrorCode::ExpectedColon, ErrorCode::ExpectedColon) => true,
            (ErrorCode::ExpectedConversion, ErrorCode::ExpectedConversion) => true,
            (ErrorCode::ExpectedEnumEnd, ErrorCode::ExpectedEnumEnd) => true,
            (ErrorCode::ExpectedEnumEndToken, ErrorCode::ExpectedEnumEndToken) => true,
            (ErrorCode::ExpectedEnumMapStart, ErrorCode::ExpectedEnumMapStart) => true,
            (ErrorCode::ExpectedEnumToken, ErrorCode::ExpectedEnumToken) => true,
            (ErrorCode::ExpectedEnumVariantString, ErrorCode::ExpectedEnumVariantString) => true,
            (ErrorCode::ExpectedListCommaOrEnd, ErrorCode::ExpectedListCommaOrEnd) => true,
            (ErrorCode::ExpectedName, ErrorCode::ExpectedName) => true,
            (ErrorCode::ExpectedObjectCommaOrEnd, ErrorCode::ExpectedObjectCommaOrEnd) => true,
            (ErrorCode::ExpectedSomeIdent, ErrorCode::ExpectedSomeIdent) => true,
            (ErrorCode::ExpectedSomeValue, ErrorCode::ExpectedSomeValue) => true,
            (ErrorCode::ExpectedTokens(a, accepted_a), ErrorCode::ExpectedTokens(b, accepted_b)) => a.text == b.text
                && kinds_eq(accepted_a, accepted_b),
            (ErrorCode::InvalidEscape, ErrorCode::InvalidEscape) => true,
            (ErrorCode::InvalidNumber, ErrorCode::InvalidNumber) => true,
            (ErrorCode::InvalidUnicodeCodePoint, ErrorCode::InvalidUnicodeCodePoint) => true,
            (ErrorCode::KeyMustBeAString, ErrorCode::KeyMustBeAString) => true,
            (ErrorCode::LoneLeadingSurrogateInHexEscape, ErrorCode::LoneLeadingSurrogateInHexEscape) => true,
            (ErrorCode::MissingField(a), ErrorCode::MissingField(b)) => str_eq(a, b),
            (ErrorCode::NotFourDigit, ErrorCode::NotFourDigit) => true,
            (ErrorCode::NotUtf8, ErrorCode::NotUtf8) => true,
            (ErrorCode::TrailingCharacters, ErrorCode::TrailingCharacters) => true,
            (ErrorCode::UnexpectedEndOfHexEscape, ErrorCode::UnexpectedEndOfHexEscape) => true,
            (ErrorCode::UnexpectedName(a), ErrorCode::UnexpectedName(b)) => a.text == b.text,
            (ErrorCode::UnknownVariant, ErrorCode::UnknownVariant) => true,
            (ErrorCode::UnrecognizedHex, ErrorCode::UnrecognizedHex) => true,
            _ => false,
        }
    }
}

impl PartialEqSpecImpl for ErrorCode {
    open spec fn obeys_eq_spec() -> bool {
        true
    }

    open spec fn eq_spec(&self, other: &Self) -> bool {
        self@ == other@
    }
}

} // verus!
