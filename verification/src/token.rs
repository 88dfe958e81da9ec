//! The two values a tokenizer hands over when it reports a failure: the
//! offending token, and the kinds of token that would have been accepted.
//!
//! Diagnostics never look inside either of them. A kind is known by its
//! name, a token by the text that shows it to a reader, and that is all
//! that is kept.

use crate::text::{bracketed, comma_separated, str_eq};
use vstd::prelude::*;
use vstd::std_specs::cmp::PartialEqSpecImpl;

verus! {

/// The category of a lexical unit, known by the name the tokenizer gives it.
#[derive(Clone, Copy, Debug)]
pub struct TokenKind {
    pub name: &'static str,
}

impl View for TokenKind {
    type V = Seq<char>;

    open spec fn view(&self) -> Seq<char> {
        self.name@
    }
}

impl PartialEq for TokenKind {
    fn eq(&self, other: &Self) -> (same: bool) {
        str_eq(self.name, other.name)
    }
}

impl PartialEqSpecImpl for TokenKind {
    open spec fn obeys_eq_spec() -> bool {
        true
    }

    open spec fn eq_spec(&self, other: &Self) -> bool {
        self@ == other@
    }
}

/// A lexical unit as a reader is shown it: its kind together with whatever
/// literal content it carries, already put into words by the tokenizer.
#[derive(Debug)]
pub struct Token {
    pub text: String,
}

impl View for Token {
    type V = Seq<char>;

    open spec fn view(&self) -> Seq<char> {
        self.text@
    }
}

impl Token {
    /// The token that is shown as `text`.
    pub fn new(text: &str) -> (token: Token)
        ensures
            token@ == text@,
    {
        Token { text: String::from_str(text) }
    }
}

impl Clone for Token {
    fn clone(&self) -> (copy: Self)
        ensures
            copy == *self,
    {
        Token { text: self.text.clone() }
    }
}

impl PartialEq for Token {
    fn eq(&self, other: &Self) -> (same: bool) {
        self.text == other.text
    }
}

impl PartialEqSpecImpl for Token {
    open spec fn obeys_eq_spec() -> bool {
        true
    }

    open spec fn eq_spec(&self, other: &Self) -> bool {
        self@ == other@
    }
}

/// The names of `kinds`, in order.
pub open spec fn kind_names(kinds: Seq<TokenKind>) -> Seq<Seq<char>> {
    kinds.map_values(|kind: TokenKind| kind@)
}

/// Whether two lists of kinds name the same kinds in the same order.
pub fn kinds_eq(a: &[TokenKind], b: &[TokenKind]) -> (same: bool)
    ensures
        same == (kind_names(a@) == kind_names(b@)),
{
    if a.len() != b.len() {
        assert(kind_names(a@).len() != kind_names(b@).len());
        return false;
    }
    let mut i: usize = 0;
    while i < a.len()
        invariant
            i <= a.len(),
            a.len() == b.len(),
            forall|j: int| 0 <= j < i ==> a@[j]@ == b@[j]@,
        decreases a.len() - i,
    {
        if !str_eq(a[i].name, b[i].name) {
            assert(kind_names(a@)[i as int] != kind_names(b@)[i as int]);
            return false;
        }
        i += 1;
    }
    assert(kind_names(a@) =~= kind_names(b@));
    true
}

/// Renders a list of kinds: their names in order, comma separated, between
/// square brackets.
pub fn render_kinds(kinds: &[TokenKind]) -> (s: String)
    ensures
        s@ == bracketed(kind_names(kinds@)),
{
    let ghost names = kind_names(kinds@);
    let mut s = String::from_str("[");
    let mut i: usize = 0;
    while i < kinds.len()
        invariant
            i <= kinds.len(),
            names == kind_names(kinds@),
            s@ == "["@ + comma_separated(names.take(i as int)),
        decreases kinds.len() - i,
    {
        if i > 0 {
            s.append(", ");
        }
        s.append(kinds[i].name);
        proof {
            let upto = names.take(i + 1);
            assert(upto.drop_last() =~= names.take(i as int));
            assert(upto.last() == kinds@[i as int]@);
        }
        i += 1;
    }
    assert(names.take(i as int) =~= names);
    s.append("]");
    s
}

} // verus!
