//! The layout of a field collection, and how it delimits code.
use crate::model::Fields;
use crate::tokens::{frag, group, push_all, push_tok, Delim, Tok, TokenTree};
use vstd::prelude::*;

verus! {

/// The layout of a type's fields: none, named, or positional.
#[derive(Clone, Copy, PartialEq, Eq, Debug)]
pub enum FieldType {
    Unit,
    Named,
    Unnamed,
}

impl FieldType {
    /// The layout of `fields`.
    pub open spec fn of<P>(fields: &Fields<P>) -> FieldType {
        match fields {
            Fields::Unit => FieldType::Unit,
            Fields::Named(_) => FieldType::Named,
            Fields::Unnamed(_) => FieldType::Unnamed,
        }
    }

    /// `inner` in the delimiters of this layout.
    pub open spec fn wrapped(self, inner: Seq<Tok>) -> Seq<Tok> {
        match self {
            FieldType::Unit => inner,
            FieldType::Named => group(Delim::Brace, inner),
            FieldType::Unnamed => group(Delim::Paren, inner),
        }
    }

    /// Classifies a field collection.
    pub fn new<P>(fields: &Fields<P>) -> (r: FieldType)
        ensures
            r == FieldType::of(fields),
    {
        match fields {
            Fields::Unit => FieldType::Unit,
            Fields::Named(_) => FieldType::Named,
            Fields::Unnamed(_) => FieldType::Unnamed,
        }
    }

    /// Encloses `inner` in the delimiters of this layout: none for `Unit`,
    /// braces for `Named`, parentheses for `Unnamed`.
    pub fn wrap(&self, inner: Vec<TokenTree>) -> (r: Vec<TokenTree>)
        ensures
            frag(&r) == self.wrapped(frag(&inner)),
    {
        let d = match self {
            FieldType::Unit => {
                return inner;
            },
            FieldType::Named => Delim::Brace,
            FieldType::Unnamed => Delim::Paren,
        };
        let mut out: Vec<TokenTree> = Vec::new();
        push_tok(&mut out, TokenTree::Open(d));
        push_all(&mut out, inner);
        push_tok(&mut out, TokenTree::Close(d));
        assert(frag(&out) =~= self.wrapped(frag(&inner)));
        out
    }
}

/// Classifying a field collection and wrapping a fragment in its layout
/// leaves the fragment unchanged for a unit collection, encloses it in
/// braces for named fields and in parentheses for positional ones; there is
/// no other outcome.
pub proof fn lemma_classify_wrap<P>(fields: &Fields<P>, inner: Seq<Tok>)
    ensures
        ({
            let r = FieldType::of(fields).wrapped(inner);
            ||| (fields is Unit && r == inner)
            ||| (fields is Named && r == seq![Tok::Open(Delim::Brace)] + inner + seq![
                Tok::Close(Delim::Brace),
            ])
            ||| (fields is Unnamed && r == seq![Tok::Open(Delim::Paren)] + inner + seq![
                Tok::Close(Delim::Paren),
            ])
        }),
{
}

} // verus!
