//! The bindings of a struct's or a variant's fields, with their layout.
use crate::field_binding::{binding_views, bindings_of, FieldBinding, FieldBindingView};
use crate::field_type::FieldType;
use crate::model::{Fields, Variant};
use crate::tokens::{
    comma_sep, frag, lemma_comma_sep_step, push_all, push_punct, push_tok, Tok, TokenTree,
};
use vstd::prelude::*;

verus! {

/// The value of a [`StructBinding`].
pub struct StructBindingView {
    pub bindings: Seq<FieldBindingView>,
    pub layout: FieldType,
}

/// All field bindings of one struct-like shape, in declaration order, with
/// its layout.
#[derive(Debug)]
pub struct StructBinding {
    field_bindings: Vec<FieldBinding>,
    field_type: FieldType,
}

/// The value of the bindings of `fields`.
pub open spec fn struct_binding_of<P>(fields: &Fields<P>) -> StructBindingView {
    StructBindingView { bindings: bindings_of(fields), layout: FieldType::of(fields) }
}

impl View for StructBinding {
    type V = StructBindingView;

    closed spec fn view(&self) -> StructBindingView {
        StructBindingView {
            bindings: binding_views(self.field_bindings@),
            layout: self.field_type,
        }
    }
}

impl StructBinding {
    /// Binds every field of `fields` and records their layout.
    pub fn new<P>(fields: &Fields<P>) -> (r: StructBinding)
        ensures
            r@ == struct_binding_of(fields),
    {
        StructBinding {
            field_bindings: FieldBinding::from_fields(fields),
            field_type: FieldType::new(fields),
        }
    }

    /// The field bindings, in declaration order.
    pub fn field_bindings(&self) -> (r: &[FieldBinding])
        ensures
            binding_views(r@) == self@.bindings,
    {
        self.field_bindings.as_slice()
    }

    /// The layout of the fields.
    pub fn field_type(&self) -> (r: FieldType)
        ensures
            r == self@.layout,
    {
        self.field_type
    }
}

/// The value of a [`VariantBinding`].
pub struct VariantBindingView {
    pub name: Seq<char>,
    pub inner: StructBindingView,
}

/// An enum variant's name together with the bindings of its fields.
#[derive(Debug)]
pub struct VariantBinding {
    ident: String,
    struct_binding: StructBinding,
}

/// The value of the binding of `variant`.
pub open spec fn variant_binding_of<P>(variant: &Variant<P>) -> VariantBindingView {
    VariantBindingView { name: variant.ident@, inner: struct_binding_of(&variant.fields) }
}

/// The binding names, each as one identifier token.
pub open spec fn binding_idents(bindings: Seq<FieldBindingView>) -> Seq<Seq<Tok>> {
    bindings.map_values(|b: FieldBindingView| seq![Tok::Ident(b.name)])
}

/// The pattern that destructures a variant: its name followed by its
/// binding names, comma-joined and wrapped in the variant's layout.
pub open spec fn pattern_of(v: VariantBindingView) -> Seq<Tok> {
    seq![Tok::Ident(v.name)] + v.inner.layout.wrapped(comma_sep(binding_idents(v.inner.bindings)))
}

impl View for VariantBinding {
    type V = VariantBindingView;

    closed spec fn view(&self) -> VariantBindingView {
        VariantBindingView { name: self.ident@, inner: self.struct_binding@ }
    }
}

impl VariantBinding {
    /// Binds a variant: its name and the bindings of its fields.
    pub fn new<P>(variant: &Variant<P>) -> (r: VariantBinding)
        ensures
            r@ == variant_binding_of(variant),
    {
        VariantBinding {
            ident: variant.ident.clone(),
            struct_binding: StructBinding::new(&variant.fields),
        }
    }

    /// The variant's name.
    pub fn ident(&self) -> (r: &String)
        ensures
            r@ == self@.name,
    {
        &self.ident
    }

    /// The field bindings, in declaration order.
    pub fn field_bindings(&self) -> (r: &[FieldBinding])
        ensures
            binding_views(r@) == self@.inner.bindings,
    {
        self.struct_binding.field_bindings()
    }

    /// The layout of the variant's fields.
    pub fn field_type(&self) -> (r: FieldType)
        ensures
            r == self@.inner.layout,
    {
        self.struct_binding.field_type()
    }

    /// The pattern that destructures this variant: `Name(binding_0, binding_1)`,
    /// `Name { a, b }` or `Name`.
    pub fn variant_pattern(&self) -> (r: Vec<TokenTree>)
        ensures
            frag(&r) == pattern_of(self@),
    {
        let bindings = self.field_bindings();
        let ghost items = binding_idents(self@.inner.bindings);
        let mut inner: Vec<TokenTree> = Vec::new();
        let mut i: usize = 0;
        while i < bindings.len()
            invariant
                0 <= i <= bindings.len(),
                binding_views(bindings@) == self@.inner.bindings,
                items == binding_idents(self@.inner.bindings),
                frag(&inner) == comma_sep(items.subrange(0, i as int)),
            decreases bindings.len() - i,
        {
            proof {
                lemma_comma_sep_step(items, i as int);
            }
            if i > 0 {
                push_punct(&mut inner, ',');
            }
            push_tok(&mut inner, TokenTree::Ident(bindings[i].ident().clone()));
            proof {
                assert(items[i as int] == seq![Tok::Ident(bindings@[i as int]@.name)]);
            }
            assert(frag(&inner) =~= comma_sep(items.subrange(0, i + 1)));
            i = i + 1;
        }
        assert(items.subrange(0, bindings.len() as int) =~= items);
        let mut out: Vec<TokenTree> = Vec::new();
        push_tok(&mut out, TokenTree::Ident(self.ident.clone()));
        push_all(&mut out, self.field_type().wrap(inner));
        assert(frag(&out) =~= pattern_of(self@));
        out
    }
}

} // verus!
