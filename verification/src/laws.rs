//! What holds of every code and of every error, proved once for all of them.

use crate::code::{ErrorCode, ErrorCodeView};
use crate::error::{Error, ErrorView};
use crate::text::{
    decimal, decimal_is_a_numeral, decimal_tells_numbers_apart, is_digit, occurs_at, quoted,
};
use vstd::prelude::*;
use vstd::std_specs::cmp::PartialEqSpec;

verus! {

/// Rendering a code is determined by its variant and payload: two codes that
/// compare equal have the same phrase.
pub proof fn equal_codes_render_alike(a: ErrorCode, b: ErrorCode)
    requires
        a.eq_spec(&b),
    ensures
        a@.phrase() == b@.phrase(),
{
}

/// Rendering an error is determined by its variant and payload: two errors
/// that compare equal have the same description and the same detail.
pub proof fn equal_errors_render_alike(a: Error, b: Error)
    requires
        a.eq_spec(&b),
    ensures
        a@.description() == b@.description(),
        a@.detail() == b@.detail(),
{
}

/// No code renders as the empty string.
pub proof fn phrase_is_never_empty(code: ErrorCodeView)
    ensures
        code.phrase().len() > 0,
{
    reveal_strlit("failed to convert ");
    reveal_strlit("EOF While parsing list");
    reveal_strlit("EOF While parsing object");
    reveal_strlit("EOF While parsing string");
    reveal_strlit("EOF While parsing value");
    reveal_strlit("expected `:`");
    reveal_strlit("expected conversion");
    reveal_strlit("expected enum end");
    reveal_strlit("expected enum map end");
    reveal_strlit("expected enum map start");
    reveal_strlit("expected enum token");
    reveal_strlit("expected variant");
    reveal_strlit("expected `,` or `]`");
    reveal_strlit("expected name");
    reveal_strlit("expected `,` or `}`");
    reveal_strlit("expected ident");
    reveal_strlit("expected value");
    reveal_strlit(", found ");
    reveal_strlit("invalid escape");
    reveal_strlit("invalid number");
    reveal_strlit("invalid unicode code point");
    reveal_strlit("key must be a string");
    reveal_strlit("lone leading surrogate in hex escape");
    reveal_strlit("missing field ");
    reveal_strlit("invalid \\u escape (not four digits)");
    reveal_strlit("contents not utf-8");
    reveal_strlit("trailing characters");
    reveal_strlit("unexpected end of hex escape");
    reveal_strlit("unexpected name ");
    reveal_strlit("unknown variant");
    reveal_strlit("invalid \\u escape (unrecognized hex)");
}

/// The detail of a syntax error holds, in this order and with nothing after
/// them: the phrase of the code, the words that introduce the line, the line
/// as a decimal numeral, the word that introduces the column, the column as
/// a decimal numeral.
pub proof fn syntax_detail_layout(code: ErrorCodeView, line: nat, col: nat)
    ensures
        ({
            let detail = ErrorView::SyntaxError(code, line, col).detail();
            let at_words: int = code.phrase().len() as int;
            let at_line: int = at_words + 9;
            let at_word: int = at_line + decimal(line).len();
            let at_col: int = at_word + 8;
            &&& detail matches Some(text)
            &&& occurs_at(text, code.phrase(), 0)
            &&& occurs_at(text, " at line "@, at_words)
            &&& occurs_at(text, decimal(line), at_line)
            &&& occurs_at(text, " column "@, at_word)
            &&& occurs_at(text, decimal(col), at_col)
            &&& text.len() == at_col + decimal(col).len()
        }),
{
    reveal_strlit(" at line ");
    reveal_strlit(" column ");
    let text = ErrorView::SyntaxError(code, line, col).detail()->0;
    let at_words: int = code.phrase().len() as int;
    let at_line: int = at_words + 9;
    let at_word: int = at_line + decimal(line).len();
    let at_col: int = at_word + 8;
    assert(text.subrange(0, at_words) =~= code.phrase());
    assert(text.subrange(at_words, at_line) =~= " at line "@);
    assert(text.subrange(at_line, at_word) =~= decimal(line));
    assert(text.subrange(at_word, at_col) =~= " column "@);
    assert(text.subrange(at_col, at_col + decimal(col).len()) =~= decimal(col));
}

/// A text that ends in a numeral, with something other than a digit just
/// before it, can be cut into those parts in one way only.
proof fn numeral_at_the_end_is_unique(
    before_a: Seq<char>,
    a: nat,
    before_b: Seq<char>,
    b: nat,
    word: Seq<char>,
)
    requires
        word.len() > 0,
        !is_digit(word.last()),
        before_a + word + decimal(a) == before_b + word + decimal(b),
    ensures
        before_a == before_b,
        a == b,
{
    let text = before_a + word + decimal(a);
    let digits_a = decimal(a);
    let digits_b = decimal(b);
    let cut_a: int = text.len() - digits_a.len();
    let cut_b: int = text.len() - digits_b.len();
    decimal_is_a_numeral(a);
    decimal_is_a_numeral(b);
    assert(text == before_b + word + digits_b);
    if cut_a > cut_b {
        assert(text[cut_a - 1] == word.last());
        assert(text[cut_a - 1] == digits_b[cut_a - 1 - cut_b]);
    }
    if cut_b > cut_a {
        assert(text[cut_b - 1] == word.last());
        assert(text[cut_b - 1] == digits_a[cut_b - 1 - cut_a]);
    }
    assert(text.subrange(cut_a, text.len() as int) =~= digits_a);
    assert(text.subrange(cut_b, text.len() as int) =~= digits_b);
    decimal_tells_numbers_apart(a, b);
    assert(text.subrange(0, before_a.len() as int) =~= before_a);
    assert(text.subrange(0, before_b.len() as int) =~= before_b);
}

/// The detail of a syntax error loses nothing of it: two syntax errors with
/// the same detail stand at the same line and column, and their codes have
/// the same phrase.
pub proof fn syntax_detail_tells_positions_apart(
    code_a: ErrorCodeView,
    line_a: nat,
    col_a: nat,
    code_b: ErrorCodeView,
    line_b: nat,
    col_b: nat,
)
    requires
        ErrorView::SyntaxError(code_a, line_a, col_a).detail() == ErrorView::SyntaxError(
            code_b,
            line_b,
            col_b,
        ).detail(),
    ensures
        code_a.phrase() == code_b.phrase(),
        line_a == line_b,
        col_a == col_b,
{
    reveal_strlit(" at line ");
    reveal_strlit(" column ");
    numeral_at_the_end_is_unique(
        code_a.phrase() + " at line "@ + decimal(line_a),
        col_a,
        code_b.phrase() + " at line "@ + decimal(line_b),
        col_b,
        " column "@,
    );
    numeral_at_the_end_is_unique(code_a.phrase(), line_a, code_b.phrase(), line_b, " at line "@);
}

/// Two errors compare equal exactly when they are of the same variant and
/// their payloads show the same; errors of different variants never do.
pub proof fn equality_compares_variant_and_payload(a: Error, b: Error)
    ensures
        a.eq_spec(&b) <==> a@ == b@,
        match (a, b) {
            (Error::SyntaxError(code_a, line_a, col_a), Error::SyntaxError(code_b, line_b, col_b)) => {
                a.eq_spec(&b) <==> code_a.eq_spec(&code_b) && line_a == line_b && col_a == col_b
            },
            (Error::IoError(failure_a), Error::IoError(failure_b)) => {
                a.eq_spec(&b) <==> failure_a.eq_spec(&failure_b)
            },
            (Error::ExpectedError(expected_a, found_a), Error::ExpectedError(expected_b, found_b)) => {
                a.eq_spec(&b) <==> expected_a@ == expected_b@ && found_a@ == found_b@
            },
            (Error::MissingFieldError(field_a), Error::MissingFieldError(field_b)) => {
                a.eq_spec(&b) <==> field_a@ == field_b@
            },
            (Error::UnknownVariantError(variant_a), Error::UnknownVariantError(variant_b)) => {
                a.eq_spec(&b) <==> variant_a@ == variant_b@
            },
            _ => !a.eq_spec(&b),
        },
{
}

/// The description of a syntax error, of a missing field and of an unknown
/// variant names the variant and nothing of the payload: two errors of one
/// of these variants have the same description.
pub proof fn description_ignores_payload(a: ErrorView, b: ErrorView)
    requires
        (a is SyntaxError && b is SyntaxError) || (a is MissingFieldError && b is MissingFieldError)
            || (a is UnknownVariantError && b is UnknownVariantError),
    ensures
        a.description() == b.description(),
{
}

/// Where a name stands that is put between quotes after some words, and
/// that the text so made differs for different names.
proof fn quoted_name_after(words: Seq<char>, name: Seq<char>, other: Seq<char>)
    ensures
        occurs_at(words + quoted(name), quoted(name), words.len() as int),
        occurs_at(words + quoted(name), name, words.len() as int + 1),
        (words + quoted(name)).len() == words.len() + name.len() + 2,
        words + quoted(name) == words + quoted(other) ==> name == other,
{
    reveal_strlit("\"");
    let text = words + quoted(name);
    let at: int = words.len() as int;
    let len: int = name.len() as int;
    assert(text.subrange(at, at + len + 2) =~= quoted(name));
    assert(text.subrange(at + 1, at + 1 + len) =~= name);
    let text_other = words + quoted(other);
    if text == text_other {
        assert(text_other.len() == at + other.len() + 2);
        assert(text_other.subrange(at + 1, at + 1 + other.len()) =~= other);
    }
}

/// The detail of a missing field, and of an unknown variant, holds the name
/// between quotes at its end, and so tells two names apart.
pub proof fn detail_holds_the_name(name: Seq<char>, other: Seq<char>)
    ensures
        ({
            let field = ErrorView::MissingFieldError(name).detail();
            let variant = ErrorView::UnknownVariantError(name).detail();
            &&& field matches Some(text)
            &&& occurs_at(text, quoted(name), 14)
            &&& occurs_at(text, name, 15)
            &&& text.len() == 16 + name.len()
            &&& variant matches Some(text)
            &&& occurs_at(text, quoted(name), 16)
            &&& occurs_at(text, name, 17)
            &&& text.len() == 18 + name.len()
        }),
        name != other ==> ErrorView::MissingFieldError(name).detail() != ErrorView::MissingFieldError(
            other,
        ).detail(),
        name != other ==> ErrorView::UnknownVariantError(name).detail()
            != ErrorView::UnknownVariantError(other).detail(),
{
    reveal_strlit("missing field ");
    reveal_strlit("unknown variant ");
    quoted_name_after("missing field "@, name, other);
    quoted_name_after("unknown variant "@, name, other);
}

} // verus!
