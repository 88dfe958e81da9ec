//! The envelope in which every failure of the pipeline travels, and its two
//! renderings.

use crate::code::{ErrorCode, ErrorCodeView};
use crate::io::{IoError, IoErrorView};
use crate::text::{decimal, push_decimal, quote, quoted};
use vstd::prelude::*;
use vstd::std_specs::cmp::PartialEqSpecImpl;
use vstd::std_specs::convert::FromSpecImpl;

verus! {

/// A failure of the pipeline, whichever stage found it.
#[derive(Debug)]
pub enum Error {
    /// A failure kind, with the line and the column (both counted from one)
    /// at which it was found.
    SyntaxError(ErrorCode, usize, usize),
    /// A failure of the byte stream, kept as the stream reported it.
    IoError(IoError),
    /// What was expected, and what was found in its place.
    ExpectedError(String, String),
    /// The name of a required field that is absent.
    MissingFieldError(String),
    /// The name of a variant that is not known.
    UnknownVariantError(String),
}

/// An error as a mathematical value.
pub enum ErrorView {
    SyntaxError(ErrorCodeView, nat, nat),
    IoError(IoErrorView),
    ExpectedError(Seq<char>, Seq<char>),
    MissingFieldError(Seq<char>),
    UnknownVariantError(Seq<char>),
}

impl View for Error {
    type V = ErrorView;

    open spec fn view(&self) -> ErrorView {
        match *self {
            Error::SyntaxError(code, line, col) => ErrorView::SyntaxError(
                code@,
                line as nat,
                col as nat,
            ),
            Error::IoError(error) => ErrorView::IoError(error@),
            Error::ExpectedError(expected, found) => ErrorView::ExpectedError(expected@, found@),
            Error::MissingFieldError(field) => ErrorView::MissingFieldError(field@),
            Error::UnknownVariantError(variant) => ErrorView::UnknownVariantError(variant@),
        }
    }
}

impl ErrorView {
    /// The short description: a coarse category to classify an error by.
    ///
    /// A syntax error, a missing field and an unknown variant are each
    /// described by a fixed label, whatever they carry. The other two
    /// descriptions vary with the payload: a wrapped I/O failure describes
    /// itself, and an expectation, which has no label of its own, is
    /// described by what was expected, word for word.
    pub open spec fn description(self) -> Seq<char> {
        match self {
            ErrorView::SyntaxError(_, _, _) => "syntax error"@,
            ErrorView::IoError(error) => error.description,
            ErrorView::ExpectedError(expected, _) => expected,
            ErrorView::MissingFieldError(_) => "missing field"@,
            ErrorView::UnknownVariantError(_) => "unknown variant"@,
        }
    }

    /// The detail: the whole message, payload and position included. Only a
    /// wrapped I/O failure that has no elaboration of its own has none.
    pub open spec fn detail(self) -> Option<Seq<char>> {
        match self {
            ErrorView::SyntaxError(code, line, col) => Some(
                code.phrase() + " at line "@ + decimal(line) + " column "@ + decimal(col),
            ),
            ErrorView::IoError(error) => error.detail,
            ErrorView::ExpectedError(expected, found) => Some(
                "expected "@ + expected + ", found "@ + found,
            ),
            ErrorView::MissingFieldError(field) => Some("missing field "@ + quoted(field)),
            ErrorView::UnknownVariantError(variant) => Some(
                "unknown variant "@ + quoted(variant),
            ),
        }
    }
}

impl Error {
    /// The short description of the error.
    pub fn description(&self) -> (s: &str)
        ensures
            s@ == self@.description(),
    {
        match self {
            Error::SyntaxError(_, _, _) => "syntax error",
            Error::IoError(error) => error.description(),
            Error::ExpectedError(expected, _) => expected.as_str(),
            Error::MissingFieldError(_) => "missing field",
            Error::UnknownVariantError(_) => "unknown variant",
        }
    }

    /// The detail of the error, where it has one.
    pub fn detail(&self) -> (d: Option<String>)
        ensures
            match d {
                Some(text) => self@.detail() == Some(text@),
                None => self@.detail() is None,
            },
    {
        match self {
            Error::SyntaxError(code, line, col) => {
                let mut s = code.to_string();
                s.append(" at line ");
                push_decimal(&mut s, *line);
                s.append(" column ");
                push_decimal(&mut s, *col);
                Some(s)
            },
            Error::IoError(error) => error.detail(),
            Error::ExpectedError(expected, found) => {
                let mut s = String::from_str("expected ");
                s.append(expected.as_str());
                s.append(", found ");
                s.append(found.as_str());
                Some(s)
            },
            Error::MissingFieldError(field) => {
                let name = quote(field.as_str());
                let mut s = String::from_str("missing field ");
                s.append(name.as_str());
                Some(s)
            },
            Error::UnknownVariantError(variant) => {
                let name = quote(variant.as_str());
                let mut s = String::from_str("unknown variant ");
                s.append(name.as_str());
                Some(s)
            },
        }
    }

    /// Lifts a failure of the byte stream into the envelope, unchanged.
    pub fn from_error(error: IoError) -> (lifted: Error)
        ensures
            lifted == Error::IoError(error),
    {
        Error::IoError(error)
    }
}

impl From<IoError> for Error {
    fn from(error: IoError) -> (lifted: Error) {
        Error::from_error(error)
    }
}

impl FromSpecImpl<IoError> for Error {
    open spec fn obeys_from_spec() -> bool {
        true
    }

    open spec fn from_spec(error: IoError) -> Error {
        Error::IoError(error)
    }
}

impl Clone for Error {
    fn clone(&self) -> (copy: Self)
        ensures
            copy == *self,
    {
        match self {
            Error::SyntaxError(code, line, col) => Error::SyntaxError(code.clone(), *line, *col),
            Error::IoError(error) => Error::IoError(error.clone()),
            Error::ExpectedError(expected, found) => Error::ExpectedError(
                expected.clone(),
                found.clone(),
            ),
            Error::MissingFieldError(field) => Error::MissingFieldError(field.clone()),
            Error::UnknownVariantError(variant) => Error::UnknownVariantError(variant.clone()),
        }
    }
}

impl PartialEq for Error {
    fn eq(&self, other: &Self) -> (same: bool) {
        match (self, other) {
            (Error::SyntaxError(code_a, line_a, col_a), Error::SyntaxError(code_b, line_b, col_b)) => {
                *code_a == *code_b && *line_a == *line_b && *col_a == *col_b
            },
            (Error::IoError(a), Error::IoError(b)) => *a == *b,
            (Error::ExpectedError(expected_a, found_a), Error::ExpectedError(expected_b, found_b)) => {
                *expected_a == *expected_b && *found_a == *found_b
            },
            (Error::MissingFieldError(a), Error::MissingFieldError(b)) => *a == *b,
            (Error::UnknownVariantError(a), Error::UnknownVariantError(b)) => *a == *b,
            _ => false,
        }
    }
}

impl PartialEqSpecImpl for Error {
    open spec fn obeys_eq_spec() -> bool {
        true
    }

    open spec fn eq_spec(&self, other: &Self) -> bool {
        self@ == other@
    }
}

} // verus!
