//! The parser generator: emits the body of a `Parse` implementation that
//! reads a struct field by field, or picks an enum variant by looking at the
//! next token.
use crate::data::StructEnumOnly;
use crate::field_type::FieldType;
use crate::model::{Data, DataEnum, DataStruct, DeriveInput, Error, Field, Fields, SplitGenerics, Variant};
use crate::tokens::{
    alone, arrow, auto_derived, push_arrow, push_auto_derived, comma_sep, concat, frag, group, lemma_comma_sep_step, lemma_concat_split, lemma_concat_step, path_sep,
    push_all, push_copies, push_group, push_ident, push_path_sep, push_punct, push_seg, push_tok,
    seg, toks, Delim, Tok, TokenTree,
};
use vstd::prelude::*;

verus! {

/// `input.parse()?`
pub open spec fn parse_call() -> Seq<Tok> {
    seq![
        Tok::Ident("input"@),
        alone('.'),
        Tok::Ident("parse"@),
        Tok::Open(Delim::Paren),
        Tok::Close(Delim::Paren),
        alone('?'),
    ]
}

/// The expression that reads one field: `name: input.parse()?` for a named
/// field, `input.parse()?` for a positional one.
pub open spec fn init_of<P>(f: Field<P>) -> Seq<Tok> {
    match f.ident {
        Some(name) => seq![Tok::Ident(name@), alone(':')] + parse_call(),
        None => parse_call(),
    }
}

/// The reads of all fields, in declaration order.
pub open spec fn inits_of<P>(fields: &Fields<P>) -> Seq<Seq<Tok>> {
    fields.seq().map_values(|f: Field<P>| init_of(f))
}

/// The reads of all fields, comma-joined and wrapped in the fields' layout.
pub open spec fn construct_of<P>(fields: &Fields<P>) -> Seq<Tok> {
    FieldType::of(fields).wrapped(comma_sep(inits_of(fields)))
}

/// `::core::result::Result::<variant>`
pub open spec fn result_path(variant: Seq<char>) -> Seq<Tok> {
    seg("core"@) + seg("result"@) + seg("Result"@) + seg(variant)
}

/// `::core::result::Result::Ok(Self <construction>)`
pub open spec fn product_of<P>(s: &DataStruct<P>) -> Seq<Tok> {
    result_path("Ok"@) + group(Delim::Paren, seq![Tok::Ident("Self"@)] + construct_of(&s.fields))
}

/// The branch that tries one variant: when the next token starts its
/// first field's type, read all its fields and return it.
pub open spec fn branch_of<P>(v: &Variant<P>) -> Seq<Tok> {
    seq![Tok::Ident("if"@), Tok::Ident("input"@), alone('.'), Tok::Ident("peek"@)] + group(
        Delim::Paren,
        toks(v.fields.seq()[0].ty@),
    ) + group(
        Delim::Brace,
        seq![Tok::Ident("return"@)] + result_path("Ok"@) + group(
            Delim::Paren,
            seq![Tok::Ident("Self"@)] + path_sep() + seq![Tok::Ident(v.ident@)] + construct_of(
                &v.fields,
            ),
        ) + seq![alone(';')],
    )
}

/// `#[derive(Parse)] Requires At Least One Field`
pub open spec fn empty_variant_msg() -> Seq<char> {
    "#[derive(Parse)] Requires At Least One Field"@
}

/// `Cannot #[derive(Parse)] On An Empty Enum. It's Not Constructable At Runtime`
pub open spec fn empty_enum_msg() -> Seq<char> {
    "Cannot #[derive(Parse)] On An Empty Enum. It's Not Constructable At Runtime"@
}

/// The first field type of each variant that has fields, in declaration order.
pub open spec fn expected_types<P>(vs: Seq<Variant<P>>) -> Seq<Seq<char>>
    decreases vs.len(),
{
    if vs.len() == 0 {
        seq![]
    } else {
        let rest = expected_types(vs.drop_last());
        if vs.last().fields.seq().len() > 0 {
            rest.push(vs.last().fields.seq()[0].ty_text@)
        } else {
            rest
        }
    }
}

/// The items joined by `, `.
pub open spec fn join_commas(items: Seq<Seq<char>>) -> Seq<char>
    decreases items.len(),
{
    if items.len() == 0 {
        seq![]
    } else if items.len() == 1 {
        items[0]
    } else {
        join_commas(items.drop_last()) + ", "@ + items.last()
    }
}

/// `Error Parsing: <id>, Expected One Of: T1, T2, ...`, or nothing when no
/// variant has a field.
pub open spec fn expected_msg<P>(vs: Seq<Variant<P>>, id: Seq<char>) -> Seq<char> {
    let tys = expected_types(vs);
    if tys.len() == 0 {
        seq![]
    } else {
        "Error Parsing: "@ + id + ", Expected One Of: "@ + join_commas(tys)
    }
}

/// Every variant's branch, in declaration order.
pub open spec fn branches_of<P>(vs: Seq<Variant<P>>) -> Seq<Seq<Tok>> {
    vs.map_values(|v: Variant<P>| branch_of(&v))
}

/// The branches of all variants in declaration order, then the failure
/// that lists what was expected.
pub open spec fn sum_of<P>(e: &DataEnum<P>, id: Seq<char>) -> Seq<Tok> {
    concat(branches_of(e.variants@)) + result_path("Err"@) + group(
        Delim::Paren,
        seg("syn"@) + seg("Error"@) + seg("new"@) + group(
            Delim::Paren,
            seq![
                Tok::Ident("input"@),
                alone('.'),
                Tok::Ident("span"@),
                Tok::Open(Delim::Paren),
                Tok::Close(Delim::Paren),
                alone(','),
                Tok::Str(expected_msg(e.variants@, id)),
            ],
        ),
    )
}

/// An enum a parser can be generated for: it has variants, each with a field.
pub open spec fn parseable<P>(e: &DataEnum<P>) -> bool {
    &&& e.variants@.len() > 0
    &&& forall|i: int| 0 <= i < e.variants@.len() ==> (#[trigger] e.variants@[i]).fields.seq().len() > 0
}

/// `r` is the diagnostic for an enum that is not parseable: at the `enum`
/// keyword when there are no variants, else at the first variant without
/// fields.
pub open spec fn sum_rejects<P, T>(r: Result<T, Error<P>>, e: &DataEnum<P>) -> bool {
    match r {
        Ok(_) => false,
        Err(x) => if e.variants@.len() == 0 {
            x.span == e.enum_token && x.message@ == empty_enum_msg()
        } else {
            exists|i: int|
                {
                    &&& 0 <= i < e.variants@.len()
                    &&& (#[trigger] e.variants@[i]).fields.seq().len() == 0
                    &&& forall|k: int| 0 <= k < i ==> (#[trigger] e.variants@[k]).fields.seq().len() > 0
                    &&& x.span == e.variants@[i].span
                    &&& x.message@ == empty_variant_msg()
                }
        },
    }
}

/// The `Parse` implementation for the type `ident` with the given body.
pub open spec fn parse_impl(ident: Seq<char>, g: &SplitGenerics, block: Seq<Tok>) -> Seq<Tok> {
    auto_derived() + seq![Tok::Ident("impl"@)] + frag(&g.impl_generics) + seg("syn"@) + seg(
        "parse"@,
    ) + seg("Parse"@) + seq![Tok::Ident("for"@), Tok::Ident(ident)] + frag(&g.type_generics)
        + frag(&g.where_clause) + group(
        Delim::Brace,
        seq![Tok::Ident("fn"@), Tok::Ident("parse"@)] + group(
            Delim::Paren,
            seq![Tok::Ident("input"@), alone(':')] + seg("syn"@) + seg("parse"@) + seg(
                "ParseStream"@,
            ),
        ) + arrow() + seg("syn"@) + seg("Result"@) + seq![alone('<'), Tok::Ident("Self"@), alone('>')]
            + group(Delim::Brace, block),
    )
}

fn push_parse_call(out: &mut Vec<TokenTree>)
    ensures
        frag(final(out)) == frag(old(out)) + parse_call(),
{
    push_ident(out, "input");
    push_punct(out, '.');
    push_ident(out, "parse");
    push_tok(out, TokenTree::Open(Delim::Paren));
    push_tok(out, TokenTree::Close(Delim::Paren));
    push_punct(out, '?');
    assert(frag(final(out)) =~= frag(old(out)) + parse_call());
}

fn push_result_path(out: &mut Vec<TokenTree>, variant: &str)
    ensures
        frag(final(out)) == frag(old(out)) + result_path(variant@),
{
    push_seg(out, "core");
    push_seg(out, "result");
    push_seg(out, "Result");
    push_seg(out, variant);
    assert(frag(final(out)) =~= frag(old(out)) + result_path(variant@));
}

/// The expression that reads one field: `name: input.parse()?` for a named
/// field, `input.parse()?` for a positional one.
pub fn init<P>(field: &Field<P>) -> (r: Vec<TokenTree>)
    ensures
        frag(&r) == init_of(*field),
{
    let mut out: Vec<TokenTree> = Vec::new();
    match &field.ident {
        Some(name) => {
            push_tok(&mut out, TokenTree::Ident(name.clone()));
            push_punct(&mut out, ':');
        },
        None => {},
    }
    push_parse_call(&mut out);
    assert(frag(&out) =~= init_of(*field));
    out
}

/// The reads of all fields in declaration order, comma-joined and wrapped
/// in the fields' layout.
fn construct<P>(fields: &Fields<P>) -> (r: Vec<TokenTree>)
    ensures
        frag(&r) == construct_of(fields),
{
    let ghost items = inits_of(fields);
    let n = fields.len();
    let mut inner: Vec<TokenTree> = Vec::new();
    let mut i: usize = 0;
    while i < n
        invariant
            0 <= i <= n,
            n == fields.seq().len(),
            items == inits_of(fields),
            frag(&inner) == comma_sep(items.subrange(0, i as int)),
        decreases n - i,
    {
        proof {
            lemma_comma_sep_step(items, i as int);
        }
        if i > 0 {
            push_punct(&mut inner, ',');
        }
        push_all(&mut inner, init(fields.get(i)));
        assert(frag(&inner) =~= comma_sep(items.subrange(0, i + 1)));
        i = i + 1;
    }
    assert(items.subrange(0, n as int) =~= items);
    FieldType::new(fields).wrap(inner)
}

/// The body that reads a struct: every field in declaration order, then
/// the struct built from them.
pub fn product<P>(s: DataStruct<P>) -> (r: Vec<TokenTree>)
    ensures
        frag(&r) == product_of(&s),
{
    let mut out: Vec<TokenTree> = Vec::new();
    push_result_path(&mut out, "Ok");
    let mut inner: Vec<TokenTree> = Vec::new();
    push_ident(&mut inner, "Self");
    push_all(&mut inner, construct(&s.fields));
    push_group(&mut out, Delim::Paren, inner);
    assert(frag(&out) =~= product_of(&s));
    out
}

/// The branch that tries one variant; a variant without fields has no
/// token to look at and is rejected.
pub fn branch<P: Copy>(variant: &Variant<P>) -> (r: Result<Vec<TokenTree>, Error<P>>)
    ensures
        variant.fields.seq().len() == 0 ==> (r matches Err(e) && e.span == variant.span
            && e.message@ == empty_variant_msg()),
        variant.fields.seq().len() > 0 ==> (r matches Ok(t) && frag(&t) == branch_of(variant)),
{
    if variant.fields.len() == 0 {
        return Err(
            Error {
                span: variant.span,
                message: String::from_str("#[derive(Parse)] Requires At Least One Field"),
            },
        );
    }
    let first = variant.fields.get(0);
    let mut out: Vec<TokenTree> = Vec::new();
    push_ident(&mut out, "if");
    push_ident(&mut out, "input");
    push_punct(&mut out, '.');
    push_ident(&mut out, "peek");
    let mut ty: Vec<TokenTree> = Vec::new();
    push_copies(&mut ty, &first.ty);
    push_group(&mut out, Delim::Paren, ty);

    let mut made: Vec<TokenTree> = Vec::new();
    push_ident(&mut made, "Self");
    push_path_sep(&mut made);
    push_tok(&mut made, TokenTree::Ident(variant.ident.clone()));
    push_all(&mut made, construct(&variant.fields));

    let mut body: Vec<TokenTree> = Vec::new();
    push_ident(&mut body, "return");
    push_result_path(&mut body, "Ok");
    push_group(&mut body, Delim::Paren, made);
    push_punct(&mut body, ';');
    push_group(&mut out, Delim::Brace, body);
    assert(frag(&out) =~= branch_of(variant));
    Ok(out)
}

/// The message listing, in declaration order, the first field type of each
/// variant that has one: `Error Parsing: <id>, Expected One Of: T1, T2`.
pub fn sum_expected_one_of<P>(e: &DataEnum<P>, id: &str) -> (r: String)
    ensures
        r@ == expected_msg(e.variants@, id@),
{
    let ghost vs = e.variants@;
    let mut buf = String::new();
    let mut started = false;
    let mut i: usize = 0;
    while i < e.variants.len()
        invariant
            0 <= i <= e.variants.len(),
            vs == e.variants@,
            started == (expected_types(vs.subrange(0, i as int)).len() > 0),
            buf@ == expected_msg(vs.subrange(0, i as int), id@),
        decreases e.variants.len() - i,
    {
        let v = &e.variants[i];
        let ghost tys = expected_types(vs.subrange(0, i as int));
        proof {
            assert(vs.subrange(0, i + 1).drop_last() =~= vs.subrange(0, i as int));
        }
        if v.fields.len() > 0 {
            if !started {
                buf.append("Error Parsing: ");
                buf.append(id);
                buf.append(", Expected One Of: ");
                started = true;
            } else {
                buf.append(", ");
            }
            buf.append(v.fields.get(0).ty_text.as_str());
            proof {
                let next = tys.push(v.fields.seq()[0].ty_text@);
                assert(next.drop_last() =~= tys);
                assert(buf@ =~= expected_msg(vs.subrange(0, i + 1), id@));
            }
        }
        i = i + 1;
    }
    assert(vs.subrange(0, e.variants.len() as int) =~= vs);
    buf
}

/// The body that reads an enum: one branch per variant in declaration
/// order, the first whose lookahead matches wins, and a failure listing the
/// expected types when none does. An enum without variants, or with a
/// variant without fields, is rejected.
pub fn sum<P: Copy>(e: DataEnum<P>, id: &str) -> (r: Result<Vec<TokenTree>, Error<P>>)
    ensures
        parseable(&e) ==> (r matches Ok(t) && frag(&t) == sum_of(&e, id@)),
        !parseable(&e) ==> sum_rejects(r, &e),
{
    if e.variants.len() == 0 {
        return Err(
            Error {
                span: e.enum_token,
                message: String::from_str(
                    "Cannot #[derive(Parse)] On An Empty Enum. It's Not Constructable At Runtime",
                ),
            },
        );
    }
    let msg = sum_expected_one_of(&e, id);
    let ghost items = branches_of(e.variants@);
    let mut out: Vec<TokenTree> = Vec::new();
    let mut i: usize = 0;
    while i < e.variants.len()
        invariant
            0 <= i <= e.variants.len(),
            items == branches_of(e.variants@),
            forall|k: int| 0 <= k < i ==> (#[trigger] e.variants@[k]).fields.seq().len() > 0,
            frag(&out) == concat(items.subrange(0, i as int)),
        decreases e.variants.len() - i,
    {
        let b = branch(&e.variants[i]);
        match b {
            Err(x) => {
                assert(e.variants@[i as int].fields.seq().len() == 0);
                return Err(x);
            },
            Ok(t) => {
                proof {
                    lemma_concat_step(items, i as int);
                }
                push_all(&mut out, t);
            },
        }
        i = i + 1;
    }
    assert(items.subrange(0, e.variants.len() as int) =~= items);
    push_result_path(&mut out, "Err");
    let mut args: Vec<TokenTree> = Vec::new();
    push_ident(&mut args, "input");
    push_punct(&mut args, '.');
    push_ident(&mut args, "span");
    push_tok(&mut args, TokenTree::Open(Delim::Paren));
    push_tok(&mut args, TokenTree::Close(Delim::Paren));
    push_punct(&mut args, ',');
    push_tok(&mut args, TokenTree::Str(msg));
    let mut call: Vec<TokenTree> = Vec::new();
    push_seg(&mut call, "syn");
    push_seg(&mut call, "Error");
    push_seg(&mut call, "new");
    push_group(&mut call, Delim::Paren, args);
    push_group(&mut out, Delim::Paren, call);
    assert(frag(&out) =~= sum_of(&e, id@));
    Ok(out)
}

fn wrap_parse_impl(ident: &String, g: &SplitGenerics, block: Vec<TokenTree>) -> (r: Vec<
    TokenTree,
>)
    ensures
        frag(&r) == parse_impl(ident@, g, frag(&block)),
{
    let mut out: Vec<TokenTree> = Vec::new();
    push_auto_derived(&mut out);
    push_ident(&mut out, "impl");
    push_copies(&mut out, &g.impl_generics);
    push_seg(&mut out, "syn");
    push_seg(&mut out, "parse");
    push_seg(&mut out, "Parse");
    push_ident(&mut out, "for");
    push_tok(&mut out, TokenTree::Ident(ident.clone()));
    push_copies(&mut out, &g.type_generics);
    push_copies(&mut out, &g.where_clause);

    let mut params: Vec<TokenTree> = Vec::new();
    push_ident(&mut params, "input");
    push_punct(&mut params, ':');
    push_seg(&mut params, "syn");
    push_seg(&mut params, "parse");
    push_seg(&mut params, "ParseStream");

    let mut item: Vec<TokenTree> = Vec::new();
    push_ident(&mut item, "fn");
    push_ident(&mut item, "parse");
    push_group(&mut item, Delim::Paren, params);
    push_arrow(&mut item);
    push_seg(&mut item, "syn");
    push_seg(&mut item, "Result");
    push_punct(&mut item, '<');
    push_ident(&mut item, "Self");
    push_punct(&mut item, '>');
    push_group(&mut item, Delim::Brace, block);
    push_group(&mut out, Delim::Brace, item);
    assert(frag(&out) =~= parse_impl(ident@, g, frag(&block)));
    out
}

/// The `Parse` implementation for a struct or an enum; a union, an enum
/// without variants, or a variant without fields is rejected.
pub fn handler<P: Copy>(input: DeriveInput<P>) -> (r: Result<Vec<TokenTree>, Error<P>>)
    ensures
        input.data is Union ==> crate::data::rejects(r, &input.data, "Parse"@),
        input.data matches Data::Struct(s) ==> (r matches Ok(t) && frag(&t) == parse_impl(
            input.ident@,
            &input.generics,
            product_of(&s),
        )),
        input.data matches Data::Enum(e) ==> if parseable(&e) {
            r matches Ok(t) && frag(&t) == parse_impl(
                input.ident@,
                &input.generics,
                sum_of(&e, input.ident@),
            )
        } else {
            sum_rejects(r, &e)
        },
{
    let DeriveInput { ident, generics, data } = input;
    let block = match StructEnumOnly::try_new(data, "Parse") {
        Err(x) => {
            return Err(x);
        },
        Ok(StructEnumOnly::Struct(s)) => product(s),
        Ok(StructEnumOnly::Enum(e)) => match sum(e, ident.as_str()) {
            Err(x) => {
                return Err(x);
            },
            Ok(b) => b,
        },
    };
    Ok(wrap_parse_impl(&ident, &generics, block))
}

/// In the generated enum parser the branch of each variant follows the
/// branches of all variants declared before it, so that the earliest
/// declared variant whose lookahead matches is the one chosen.
pub proof fn lemma_branch_order<P>(e: &DataEnum<P>, id: Seq<char>, j: int)
    requires
        0 <= j < e.variants@.len(),
    ensures
        (concat(branches_of(e.variants@.subrange(0, j))) + branch_of(&e.variants@[j])).is_prefix_of(
            sum_of(e, id),
        ),
{
    let vs = e.variants@;
    let items = branches_of(vs);
    lemma_concat_split(items, j + 1);
    lemma_concat_step(items, j);
    assert(branches_of(vs.subrange(0, j)) =~= items.subrange(0, j));
    let pre = concat(branches_of(vs.subrange(0, j))) + branch_of(&vs[j]);
    assert(sum_of(e, id).subrange(0, pre.len() as int) =~= pre);
}

} // verus!
