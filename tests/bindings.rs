use hizli::field_binding::Member;
use hizli::model::{Field, Fields, Variant};
use hizli::tokens::{Delim, Spacing, TokenTree};
use hizli::{FieldBinding, FieldType, StructBinding, VariantBinding};

fn field(name: Option<&str>, ty: &str) -> Field<usize> {
    Field {
        ident: name.map(|n| n.to_string()),
        ty: vec![TokenTree::Ident(ty.to_string())],
        ty_text: ty.to_string(),
        span: 0,
    }
}

fn render(toks: &[TokenTree]) -> String {
    let mut out = String::new();
    for t in toks {
        let (text, joint) = match t {
            TokenTree::Ident(s) | TokenTree::Lit(s) => (s.clone(), false),
            TokenTree::Punct(c, sp) => (c.to_string(), *sp == Spacing::Joint),
            TokenTree::Str(s) => (format!("{:?}", s), false),
            TokenTree::Open(Delim::Paren) => ("(".to_string(), false),
            TokenTree::Close(Delim::Paren) => (")".to_string(), false),
            TokenTree::Open(Delim::Brace) => ("{".to_string(), false),
            TokenTree::Close(Delim::Brace) => ("}".to_string(), false),
            TokenTree::Open(Delim::Bracket) => ("[".to_string(), false),
            TokenTree::Close(Delim::Bracket) => ("]".to_string(), false),
            TokenTree::Open(Delim::Invisible) | TokenTree::Close(Delim::Invisible) => (String::new(), false),
        };
        out.push_str(&text);
        if !joint {
            out.push(' ');
        }
    }
    out.trim_end().to_string()
}

fn inner() -> Vec<TokenTree> {
    vec![TokenTree::Ident("x".to_string())]
}

#[test]
fn classify_unit_named_unnamed() {
    assert_eq!(FieldType::new(&Fields::<usize>::Unit), FieldType::Unit);
    assert_eq!(FieldType::new(&Fields::Named(vec![field(Some("a"), "A")])), FieldType::Named);
    assert_eq!(FieldType::new(&Fields::Unnamed(vec![field(None, "A")])), FieldType::Unnamed);
}

#[test]
fn wrap_by_layout() {
    assert_eq!(render(&FieldType::Unit.wrap(inner())), "x");
    assert_eq!(render(&FieldType::Named.wrap(inner())), "{ x }");
    assert_eq!(render(&FieldType::Unnamed.wrap(inner())), "( x )");
}

#[test]
fn classify_then_wrap_empty_named() {
    let fields: Fields<usize> = Fields::Named(vec![]);
    assert_eq!(render(&FieldType::new(&fields).wrap(vec![])), "{ }");
}

#[test]
fn positional_bindings_are_numbered() {
    let fields = Fields::Unnamed(vec![field(None, "A"), field(None, "B"), field(None, "C")]);
    let bs = FieldBinding::from_fields(&fields);
    let names: Vec<&str> = bs.iter().map(|b| b.ident().as_str()).collect();
    assert_eq!(names, vec!["binding_0", "binding_1", "binding_2"]);
    assert!(matches!(bs[2].member(), Member::Unnamed(2)));
}

#[test]
fn positional_binding_with_two_digits() {
    let many: Vec<Field<usize>> = (0..12).map(|_| field(None, "u8")).collect();
    let bs = FieldBinding::from_fields(&Fields::Unnamed(many));
    assert_eq!(bs[10].ident(), "binding_10");
    assert_eq!(bs[11].ident(), "binding_11");
    let mut names: Vec<&String> = bs.iter().map(|b| b.ident()).collect();
    names.sort();
    names.dedup();
    assert_eq!(names.len(), 12);
}

#[test]
fn named_bindings_keep_names_in_order() {
    let fields = Fields::Named(vec![field(Some("b"), "B"), field(Some("a"), "A")]);
    let bs = FieldBinding::from_fields(&fields);
    assert_eq!(bs[0].ident(), "b");
    assert_eq!(bs[1].ident(), "a");
    assert!(matches!(bs[0].member(), Member::Named(n) if n == "b"));
}

#[test]
fn single_binding_new() {
    let f = field(None, "A");
    let b = FieldBinding::new((7, &f));
    assert_eq!(b.ident(), "binding_7");
    assert!(matches!(b.member(), Member::Unnamed(7)));
}

#[test]
fn unit_fields_have_no_bindings() {
    let sb = StructBinding::new(&Fields::<usize>::Unit);
    assert!(sb.field_bindings().is_empty());
    assert_eq!(sb.field_type(), FieldType::Unit);
}

#[test]
fn struct_binding_layout() {
    let sb = StructBinding::new(&Fields::Unnamed(vec![field(None, "A")]));
    assert_eq!(sb.field_type(), FieldType::Unnamed);
    assert_eq!(sb.field_bindings()[0].ident(), "binding_0");
}

#[test]
fn variant_pattern_unnamed() {
    let v = Variant { ident: "Foo".to_string(), span: 0usize, fields: Fields::Unnamed(vec![field(None, "A"), field(None, "B")]) };
    let vb = VariantBinding::new(&v);
    assert_eq!(vb.ident(), "Foo");
    assert_eq!(vb.field_type(), FieldType::Unnamed);
    assert_eq!(vb.field_bindings().len(), 2);
    assert_eq!(render(&vb.variant_pattern()), "Foo ( binding_0 , binding_1 )");
}

#[test]
fn variant_pattern_named() {
    let v = Variant { ident: "Foo".to_string(), span: 0usize, fields: Fields::Named(vec![field(Some("a"), "A"), field(Some("b"), "B")]) };
    assert_eq!(render(&VariantBinding::new(&v).variant_pattern()), "Foo { a , b }");
}

#[test]
fn variant_pattern_unit() {
    let v = Variant { ident: "Foo".to_string(), span: 0usize, fields: Fields::Unit };
    assert_eq!(render(&VariantBinding::new(&v).variant_pattern()), "Foo");
}
