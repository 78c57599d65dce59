//! The position generator: emits a `spanable` accessor that returns the
//! source position of a value's first field.
use crate::data::StructEnumOnly;
use crate::decimal::{decimal, decimal_string};
use crate::field_binding::{binding_of, FieldBinding, Member, MemberView};
use crate::model::{Data, DataEnum, DataStruct, DeriveInput, Error, SplitGenerics, Variant};
use crate::struct_binding::{pattern_of, variant_binding_of, VariantBinding, VariantBindingView};
use crate::tokens::{
    alone, arrow, auto_derived, comma_sep, frag, group, lemma_comma_sep_step, path_sep, push_all,
    push_arrow, push_auto_derived, push_copies, push_group, push_ident, push_path_sep, push_punct,
    push_seg, push_tok, seg, Delim, Spacing, Tok, TokenTree,
};
use vstd::prelude::*;

verus! {

/// `.span()`
pub open spec fn span_call() -> Seq<Tok> {
    seq![alone('.'), Tok::Ident("span"@), Tok::Open(Delim::Paren), Tok::Close(Delim::Paren)]
}

/// `::proc_macro2::Span::call_site()`, the fallback position.
pub open spec fn call_site() -> Seq<Tok> {
    seg("proc_macro2"@) + seg("Span"@) + seg("call_site"@) + seq![
        Tok::Open(Delim::Paren),
        Tok::Close(Delim::Paren),
    ]
}

/// The token that names a member after `self.`: its name, or its position
/// as an unsuffixed integer.
pub open spec fn member_tok(m: MemberView) -> Tok {
    match m {
        MemberView::Named(s) => Tok::Ident(s),
        MemberView::Unnamed(i) => Tok::Lit(decimal(i)),
    }
}

/// The position of a struct: that of its first declared field, or the
/// fallback when it has none.
pub open spec fn product_of<P>(s: &DataStruct<P>) -> Seq<Tok> {
    if s.fields.seq().len() > 0 {
        seq![Tok::Ident("self"@), alone('.'), member_tok(binding_of(0, s.fields.seq()[0]).member)]
            + span_call()
    } else {
        call_site()
    }
}

/// The position in one match arm: that of the first bound field, or the
/// fallback when the variant has no fields.
pub open spec fn arm_expr(v: VariantBindingView) -> Seq<Tok> {
    if v.inner.bindings.len() > 0 {
        seq![Tok::Ident(v.inner.bindings[0].name)] + span_call()
    } else {
        call_site()
    }
}

/// `=>`
pub open spec fn fat_arrow() -> Seq<Tok> {
    seq![Tok::Punct('=', Spacing::Joint), alone('>')]
}

/// `Self::<pattern> => <position>`
pub open spec fn arm_of<P>(v: &Variant<P>) -> Seq<Tok> {
    seq![Tok::Ident("Self"@)] + path_sep() + pattern_of(variant_binding_of(v)) + fat_arrow()
        + arm_expr(variant_binding_of(v))
}

/// Every variant's arm, in declaration order.
pub open spec fn arms_of<P>(vs: Seq<Variant<P>>) -> Seq<Seq<Tok>> {
    vs.map_values(|v: Variant<P>| arm_of(&v))
}

/// The position of an enum value: a match with one arm per variant, or an
/// empty match on `*self` when there are no variants.
pub open spec fn sum_of<P>(e: &DataEnum<P>) -> Seq<Tok> {
    if e.variants@.len() == 0 {
        seq![Tok::Ident("match"@), alone('*'), Tok::Ident("self"@)] + group(Delim::Brace, seq![])
    } else {
        seq![Tok::Ident("match"@), Tok::Ident("self"@)] + group(
            Delim::Brace,
            comma_sep(arms_of(e.variants@)),
        )
    }
}

/// The `spanable` accessor for the type `ident` with the given body.
pub open spec fn spanable_impl(ident: Seq<char>, g: &SplitGenerics, block: Seq<Tok>) -> Seq<Tok> {
    auto_derived() + seq![Tok::Ident("impl"@)] + frag(&g.impl_generics) + seq![Tok::Ident(ident)]
        + frag(&g.type_generics) + frag(&g.where_clause) + group(
        Delim::Brace,
        seq![Tok::Ident("fn"@), Tok::Ident("spanable"@)] + group(
            Delim::Paren,
            seq![alone('&'), Tok::Ident("self"@)],
        ) + arrow() + seg("proc_macro2"@) + seg("Span"@) + group(Delim::Brace, block),
    )
}

fn push_span_call(out: &mut Vec<TokenTree>)
    ensures
        frag(final(out)) == frag(old(out)) + span_call(),
{
    push_punct(out, '.');
    push_ident(out, "span");
    push_tok(out, TokenTree::Open(Delim::Paren));
    push_tok(out, TokenTree::Close(Delim::Paren));
    assert(frag(final(out)) =~= frag(old(out)) + span_call());
}

fn push_call_site(out: &mut Vec<TokenTree>)
    ensures
        frag(final(out)) == frag(old(out)) + call_site(),
{
    push_seg(out, "proc_macro2");
    push_seg(out, "Span");
    push_seg(out, "call_site");
    push_tok(out, TokenTree::Open(Delim::Paren));
    push_tok(out, TokenTree::Close(Delim::Paren));
    assert(frag(final(out)) =~= frag(old(out)) + call_site());
}

/// The position of a struct: that of its first declared field, or the
/// fallback position when it has no fields.
pub fn product<P>(s: DataStruct<P>) -> (r: Vec<TokenTree>)
    ensures
        frag(&r) == product_of(&s),
{
    let mut out: Vec<TokenTree> = Vec::new();
    if s.fields.len() > 0 {
        let first = FieldBinding::new((0, s.fields.get(0)));
        push_ident(&mut out, "self");
        push_punct(&mut out, '.');
        let m = match first.member() {
            Member::Named(name) => TokenTree::Ident(name.clone()),
            Member::Unnamed(i) => TokenTree::Lit(decimal_string(*i)),
        };
        push_tok(&mut out, m);
        push_span_call(&mut out);
    } else {
        push_call_site(&mut out);
    }
    assert(frag(&out) =~= product_of(&s));
    out
}

/// One match arm: the variant's pattern, and the position of its first
/// bound field, or the fallback position when it has no fields.
pub fn arm<P>(variant: &Variant<P>) -> (r: Vec<TokenTree>)
    ensures
        frag(&r) == arm_of(variant),
{
    let binding = VariantBinding::new(variant);
    let pat = binding.variant_pattern();
    let mut out: Vec<TokenTree> = Vec::new();
    push_ident(&mut out, "Self");
    push_path_sep(&mut out);
    push_all(&mut out, pat);
    push_tok(&mut out, TokenTree::Punct('=', Spacing::Joint));
    push_punct(&mut out, '>');
    let bindings = binding.field_bindings();
    if bindings.len() > 0 {
        push_tok(&mut out, TokenTree::Ident(bindings[0].ident().clone()));
        push_span_call(&mut out);
    } else {
        push_call_site(&mut out);
    }
    assert(frag(&out) =~= arm_of(variant));
    out
}

/// The position of an enum value: a match with one arm per variant in
/// declaration order; an enum without variants gives an empty match.
pub fn sum<P>(e: DataEnum<P>) -> (r: Vec<TokenTree>)
    ensures
        frag(&r) == sum_of(&e),
{
    let mut out: Vec<TokenTree> = Vec::new();
    push_ident(&mut out, "match");
    if e.variants.len() == 0 {
        push_punct(&mut out, '*');
        push_ident(&mut out, "self");
        push_group(&mut out, Delim::Brace, Vec::new());
        assert(frag(&out) =~= sum_of(&e));
        return out;
    }
    push_ident(&mut out, "self");
    let ghost items = arms_of(e.variants@);
    let mut inner: Vec<TokenTree> = Vec::new();
    let mut i: usize = 0;
    while i < e.variants.len()
        invariant
            0 <= i <= e.variants.len(),
            items == arms_of(e.variants@),
            frag(&inner) == comma_sep(items.subrange(0, i as int)),
        decreases e.variants.len() - i,
    {
        proof {
            lemma_comma_sep_step(items, i as int);
        }
        if i > 0 {
            push_punct(&mut inner, ',');
        }
        push_all(&mut inner, arm(&e.variants[i]));
        assert(frag(&inner) =~= comma_sep(items.subrange(0, i + 1)));
        i = i + 1;
    }
    assert(items.subrange(0, e.variants.len() as int) =~= items);
    push_group(&mut out, Delim::Brace, inner);
    assert(frag(&out) =~= sum_of(&e));
    out
}

fn wrap_spanable_impl(ident: &String, g: &SplitGenerics, block: Vec<TokenTree>) -> (r: Vec<
    TokenTree,
>)
    ensures
        frag(&r) == spanable_impl(ident@, g, frag(&block)),
{
    let mut out: Vec<TokenTree> = Vec::new();
    push_auto_derived(&mut out);
    push_ident(&mut out, "impl");
    push_copies(&mut out, &g.impl_generics);
    push_tok(&mut out, TokenTree::Ident(ident.clone()));
    push_copies(&mut out, &g.type_generics);
    push_copies(&mut out, &g.where_clause);

    let mut params: Vec<TokenTree> = Vec::new();
    push_punct(&mut params, '&');
    push_ident(&mut params, "self");

    let mut item: Vec<TokenTree> = Vec::new();
    push_ident(&mut item, "fn");
    push_ident(&mut item, "spanable");
    push_group(&mut item, Delim::Paren, params);
    push_arrow(&mut item);
    push_seg(&mut item, "proc_macro2");
    push_seg(&mut item, "Span");
    push_group(&mut item, Delim::Brace, block);
    push_group(&mut out, Delim::Brace, item);
    assert(frag(&out) =~= spanable_impl(ident@, g, frag(&block)));
    out
}

/// The `spanable` accessor for a struct or an enum; a union is rejected.
pub fn handler<P>(input: DeriveInput<P>) -> (r: Result<Vec<TokenTree>, Error<P>>)
    ensures
        input.data is Union ==> crate::data::rejects(r, &input.data, "Spanable"@),
        input.data matches Data::Struct(s) ==> (r matches Ok(t) && frag(&t) == spanable_impl(
            input.ident@,
            &input.generics,
            product_of(&s),
        )),
        input.data matches Data::Enum(e) ==> (r matches Ok(t) && frag(&t) == spanable_impl(
            input.ident@,
            &input.generics,
            sum_of(&e),
        )),
{
    let DeriveInput { ident, generics, data } = input;
    let block = match StructEnumOnly::try_new(data, "Spanable") {
        Err(x) => {
            return Err(x);
        },
        Ok(StructEnumOnly::Enum(e)) => sum(e),
        Ok(StructEnumOnly::Struct(s)) => product(s),
    };
    Ok(wrap_spanable_impl(&ident, &generics, block))
}

} // verus!
