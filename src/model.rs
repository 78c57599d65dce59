//! The declared shape of a type, as plain values: its fields, its variants,
//! and the annotations attached to them. `P` is the type of a source
//! position; the library only carries positions into diagnostics.
use crate::tokens::TokenTree;
use vstd::prelude::*;

verus! {

/// One declared field.
#[derive(Debug)]
pub struct Field<P> {
    /// The declared name, absent for a positional field.
    pub ident: Option<String>,
    /// The field's type, as tokens.
    pub ty: Vec<TokenTree>,
    /// The field's type, as text.
    pub ty_text: String,
    /// Where the field is declared.
    pub span: P,
}

/// The fields of a struct or of an enum variant.
#[derive(Debug)]
pub enum Fields<P> {
    /// `{ a: A, b: B }`
    Named(Vec<Field<P>>),
    /// `(A, B)`
    Unnamed(Vec<Field<P>>),
    /// No fields.
    Unit,
}

impl<P> Fields<P> {
    /// The fields in declaration order.
    pub open spec fn seq(&self) -> Seq<Field<P>> {
        match self {
            Fields::Named(v) => v@,
            Fields::Unnamed(v) => v@,
            Fields::Unit => seq![],
        }
    }

    /// Named fields carry pairwise distinct names; positional fields carry none.
    pub open spec fn well_formed(&self) -> bool {
        match self {
            Fields::Named(v) => {
                &&& forall|i: int| 0 <= i < v@.len() ==> (#[trigger] v@[i]).ident.is_some()
                &&& forall|i: int, j: int|
                    0 <= i < j < v@.len() ==> (#[trigger] v@[i]).ident.unwrap()@
                        != (#[trigger] v@[j]).ident.unwrap()@
            },
            Fields::Unnamed(v) => forall|i: int|
                0 <= i < v@.len() ==> (#[trigger] v@[i]).ident.is_none(),
            Fields::Unit => true,
        }
    }

    /// The number of fields.
    pub fn len(&self) -> (r: usize)
        ensures
            r == self.seq().len(),
    {
        match self {
            Fields::Named(v) => v.len(),
            Fields::Unnamed(v) => v.len(),
            Fields::Unit => 0,
        }
    }

    /// The field at position `i`.
    pub fn get(&self, i: usize) -> (r: &Field<P>)
        requires
            i < self.seq().len(),
        ensures
            *r == self.seq()[i as int],
    {
        match self {
            Fields::Named(v) => &v[i],
            Fields::Unnamed(v) => &v[i],
            // no position is below the length of a unit collection
            Fields::Unit => &[][i],
        }
    }
}

/// One variant of an enum.
#[derive(Debug)]
pub struct Variant<P> {
    pub ident: String,
    /// Where the variant's name stands.
    pub span: P,
    pub fields: Fields<P>,
}

/// The body of a struct: the position of its `struct` keyword and its fields.
#[derive(Debug)]
pub struct DataStruct<P> {
    pub struct_token: P,
    pub fields: Fields<P>,
}

/// The body of an enum: the position of its `enum` keyword and its variants.
#[derive(Debug)]
pub struct DataEnum<P> {
    pub enum_token: P,
    pub variants: Vec<Variant<P>>,
}

/// The body of a union: the position of its `union` keyword and its fields.
#[derive(Debug)]
pub struct DataUnion<P> {
    pub union_token: P,
    pub fields: Fields<P>,
}

/// The body of a struct, an enum or a union.
#[derive(Debug)]
pub enum Data<P> {
    Struct(DataStruct<P>),
    Enum(DataEnum<P>),
    Union(DataUnion<P>),
}

/// The generics of a type, split for an `impl` block.
#[derive(Debug)]
pub struct SplitGenerics {
    /// `<T: Bound>` after `impl`.
    pub impl_generics: Vec<TokenTree>,
    /// `<T>` after the type's name.
    pub type_generics: Vec<TokenTree>,
    /// `where ...`, if any.
    pub where_clause: Vec<TokenTree>,
}

/// A type declaration handed to a generator.
#[derive(Debug)]
pub struct DeriveInput<P> {
    pub ident: String,
    pub generics: SplitGenerics,
    pub data: Data<P>,
}

/// One `#[...]` annotation.
#[derive(Debug)]
pub struct Attribute<P> {
    /// The annotation's path when it is a single identifier (`#[name ...]`).
    pub path_ident: Option<String>,
    /// The tokens inside the annotation's delimiters, after the path.
    pub args: Vec<TokenTree>,
    /// Where the annotation stands.
    pub span: P,
}

/// A diagnostic: a message anchored at a source position.
#[derive(Debug)]
pub struct Error<P> {
    pub span: P,
    pub message: String,
}

} // verus!
