//! The failure of the byte stream underneath the tokenizer, as plain data.

use vstd::prelude::*;
use vstd::std_specs::cmp::PartialEqSpecImpl;

verus! {

/// A failure reported by the byte stream: what went wrong in a few words,
/// and an elaboration where the stream gave one.
#[derive(Debug)]
pub struct IoError {
    pub description: String,
    pub detail: Option<String>,
}

/// An I/O failure as a mathematical value.
pub struct IoErrorView {
    pub description: Seq<char>,
    pub detail: Option<Seq<char>>,
}

impl View for IoError {
    type V = IoErrorView;

    open spec fn view(&self) -> IoErrorView {
        IoErrorView {
            description: self.description@,
            detail: match self.detail {
                Some(text) => Some(text@),
                None => None,
            },
        }
    }
}

impl IoError {
    /// The failure's own short description.
    pub fn description(&self) -> (s: &str)
        ensures
            s@ == self@.description,
    {
        self.description.as_str()
    }

    /// The failure's own elaboration, if it has one.
    pub fn detail(&self) -> (d: Option<String>)
        ensures
            d == self.detail,
    {
        match &self.detail {
            Some(text) => Some(text.clone()),
            None => None,
        }
    }
}

impl Clone for IoError {
    fn clone(&self) -> (copy: Self)
        ensures
            copy == *self,
    {
        IoError { description: self.description.clone(), detail: self.detail() }
    }
}

impl PartialEq for IoError {
    fn eq(&self, other: &Self) -> (same: bool) {
        self.description == other.description && match (&self.detail, &other.detail) {
            (Some(a), Some(b)) => *a == *b,
            (None, None) => true,
            _ => false,
        }
    }
}

impl PartialEqSpecImpl for IoError {
    open spec fn obeys_eq_spec() -> bool {
        true
    }

    open spec fn eq_spec(&self, other: &Self) -> bool {
        self@ == other@
    }
}

} // verus!
