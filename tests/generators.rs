use hizli::decimal::decimal_string;
use hizli::model::{Data, DataEnum, DataStruct, DataUnion, DeriveInput, Error, Field, Fields, SplitGenerics, Variant};
use hizli::parse;
use hizli::spanable;
use hizli::tokens::{Delim, Spacing, TokenTree};

fn render(toks: &[TokenTree]) -> String {
    let mut out = String::new();
    for t in toks {
        let (text, joint) = match t {
            TokenTree::Ident(s) | TokenTree::Lit(s) => (s.clone(), false),
            TokenTree::Punct(c, sp) => (c.to_string(), *sp == Spacing::Joint),
            TokenTree::Str(s) => (format!("{:?}", s), false),
            TokenTree::Open(Delim::Paren) => ("(".to_string(), false),
            TokenTree::Close(Delim::Paren) => (")".to_string(), false),
            TokenTree::Open(Delim::Brace) => ("{".to_string(), false),
            TokenTree::Close(Delim::Brace) => ("}".to_string(), false),
            TokenTree::Open(Delim::Bracket) => ("[".to_string(), false),
            TokenTree::Close(Delim::Bracket) => ("]".to_string(), false),
            TokenTree::Open(Delim::Invisible) | TokenTree::Close(Delim::Invisible) => (String::new(), false),
        };
        out.push_str(&text);
        if !joint {
            out.push(' ');
        }
    }
    out.trim_end().to_string()
}

fn field(name: Option<&str>, ty: &str, span: usize) -> Field<usize> {
    Field { ident: name.map(|n| n.to_string()), ty: vec![TokenTree::Ident(ty.to_string())], ty_text: ty.to_string(), span }
}

fn variant(name: &str, span: usize, fields: Fields<usize>) -> Variant<usize> {
    Variant { ident: name.to_string(), span, fields }
}

fn no_generics() -> SplitGenerics {
    SplitGenerics { impl_generics: vec![], type_generics: vec![], where_clause: vec![] }
}

fn input(name: &str, data: Data<usize>) -> DeriveInput<usize> {
    DeriveInput { ident: name.to_string(), generics: no_generics(), data }
}

fn err<T>(r: Result<T, Error<usize>>) -> Error<usize> {
    match r {
        Ok(_) => panic!("expected an error"),
        Err(e) => e,
    }
}

fn ok<T>(r: Result<T, Error<usize>>) -> T {
    match r {
        Ok(t) => t,
        Err(e) => panic!("unexpected error: {}", e.message),
    }
}

fn named_ab() -> DataStruct<usize> {
    DataStruct { struct_token: 1, fields: Fields::Named(vec![field(Some("a"), "A", 5), field(Some("b"), "B", 6)]) }
}

fn enum_of(variants: Vec<Variant<usize>>) -> DataEnum<usize> {
    DataEnum { enum_token: 9, variants }
}

#[test]
fn parse_init_named_and_positional() {
    assert_eq!(render(&parse::init(&field(Some("a"), "A", 0))), "a : input . parse ( ) ?");
    assert_eq!(render(&parse::init(&field(None, "A", 0))), "input . parse ( ) ?");
}

#[test]
fn parse_named_struct_end_to_end() {
    let out = ok(parse::handler(input("Pair", Data::Struct(named_ab()))));
    assert_eq!(
        render(&out),
        "# [ automatically_derived ] impl :: syn :: parse :: Parse for Pair { fn parse ( input : :: syn :: parse :: ParseStream ) -> :: syn :: Result < Self > { :: core :: result :: Result :: Ok ( Self { a : input . parse ( ) ? , b : input . parse ( ) ? } ) } }"
    );
}

#[test]
fn parse_tuple_and_unit_struct() {
    let t = DataStruct { struct_token: 1, fields: Fields::Unnamed(vec![field(None, "A", 0), field(None, "B", 0)]) };
    assert_eq!(render(&parse::product(t)), ":: core :: result :: Result :: Ok ( Self ( input . parse ( ) ? , input . parse ( ) ? ) )");
    let u: DataStruct<usize> = DataStruct { struct_token: 1, fields: Fields::Unit };
    assert_eq!(render(&parse::product(u)), ":: core :: result :: Result :: Ok ( Self )");
}

#[test]
fn parse_enum_declaration_order() {
    let e = enum_of(vec![
        variant("A", 2, Fields::Unnamed(vec![field(None, "u8", 0)])),
        variant("B", 3, Fields::Unnamed(vec![field(None, "String", 0)])),
    ]);
    let out = render(&ok(parse::sum(e, "Lit")));
    assert_eq!(
        out,
        "if input . peek ( u8 ) { return :: core :: result :: Result :: Ok ( Self :: A ( input . parse ( ) ? ) ) ; } \
         if input . peek ( String ) { return :: core :: result :: Result :: Ok ( Self :: B ( input . parse ( ) ? ) ) ; } \
         :: core :: result :: Result :: Err ( :: syn :: Error :: new ( input . span ( ) , \"Error Parsing: Lit, Expected One Of: u8, String\" ) )"
    );
    assert!(out.find("peek ( u8 )").unwrap() < out.find("peek ( String )").unwrap());
}

#[test]
fn parse_empty_enum_fails_at_generation() {
    let e = err(parse::sum(enum_of(vec![]), "E"));
    assert_eq!(e.span, 9);
    assert_eq!(e.message, "Cannot #[derive(Parse)] On An Empty Enum. It's Not Constructable At Runtime");
    let e = err(parse::handler(input("E", Data::Enum(enum_of(vec![])))));
    assert_eq!(e.span, 9);
}

#[test]
fn parse_fieldless_variant_rejected() {
    let e = enum_of(vec![
        variant("A", 2, Fields::Unnamed(vec![field(None, "u8", 0)])),
        variant("B", 3, Fields::Unit),
        variant("C", 4, Fields::Unit),
    ]);
    let x = err(parse::sum(e, "E"));
    assert_eq!(x.span, 3);
    assert_eq!(x.message, "#[derive(Parse)] Requires At Least One Field");
    let x = err(parse::branch(&variant("D", 7, Fields::Named(vec![]))));
    assert_eq!(x.span, 7);
}

#[test]
fn parse_branch_named_variant() {
    let v = variant("V", 1, Fields::Named(vec![field(Some("x"), "Ident", 0), field(Some("y"), "Token", 0)]));
    assert_eq!(
        render(&ok(parse::branch(&v))),
        "if input . peek ( Ident ) { return :: core :: result :: Result :: Ok ( Self :: V { x : input . parse ( ) ? , y : input . parse ( ) ? } ) ; }"
    );
}

#[test]
fn expected_one_of_message() {
    let e = enum_of(vec![
        variant("A", 0, Fields::Unnamed(vec![field(None, "LitStr", 0), field(None, "u8", 0)])),
        variant("B", 0, Fields::Unit),
        variant("C", 0, Fields::Named(vec![field(Some("c"), "Ident", 0)])),
    ]);
    assert_eq!(parse::sum_expected_one_of(&e, "Node"), "Error Parsing: Node, Expected One Of: LitStr, Ident");
    assert_eq!(parse::sum_expected_one_of(&enum_of(vec![variant("B", 0, Fields::Unit)]), "Node"), "");
}

#[test]
fn parse_union_rejected() {
    let u = Data::Union(DataUnion { union_token: 4, fields: Fields::Named(vec![]) });
    let e = err(parse::handler(input("U", u)));
    assert_eq!((e.span, e.message.as_str()), (4, "Cannot #[derive(Parse)] On Union"));
}

#[test]
fn spanable_struct_first_field() {
    assert_eq!(render(&spanable::product(named_ab())), "self . a . span ( )");
    let t = DataStruct { struct_token: 1, fields: Fields::Unnamed(vec![field(None, "A", 0), field(None, "B", 0)]) };
    assert_eq!(render(&spanable::product(t)), "self . 0 . span ( )");
}

#[test]
fn spanable_empty_struct_call_site() {
    let u: DataStruct<usize> = DataStruct { struct_token: 1, fields: Fields::Unit };
    assert_eq!(render(&spanable::product(u)), ":: proc_macro2 :: Span :: call_site ( )");
}

#[test]
fn spanable_unit_variant_call_site() {
    let v = variant("Other", 0, Fields::Unit);
    assert_eq!(render(&spanable::arm(&v)), "Self :: Other => :: proc_macro2 :: Span :: call_site ( )");
}

#[test]
fn spanable_tuple_enum_end_to_end() {
    let e = enum_of(vec![
        variant("Foo", 0, Fields::Unnamed(vec![field(None, "A", 0)])),
        variant("Bar", 0, Fields::Unnamed(vec![field(None, "B", 0)])),
    ]);
    let out = render(&ok(spanable::handler(input("Node", Data::Enum(e)))));
    assert_eq!(
        out,
        "# [ automatically_derived ] impl Node { fn spanable ( & self ) -> :: proc_macro2 :: Span { match self { Self :: Foo ( binding_0 ) => binding_0 . span ( ) , Self :: Bar ( binding_0 ) => binding_0 . span ( ) } } }"
    );
}

#[test]
fn spanable_named_struct_end_to_end() {
    let out = render(&ok(spanable::handler(input("Pair", Data::Struct(named_ab())))));
    assert_eq!(out, "# [ automatically_derived ] impl Pair { fn spanable ( & self ) -> :: proc_macro2 :: Span { self . a . span ( ) } }");
}

#[test]
fn spanable_empty_enum_unreachable_match() {
    assert_eq!(render(&spanable::sum(enum_of(vec![]))), "match * self { }");
}

#[test]
fn spanable_generics_are_placed() {
    let g = SplitGenerics {
        impl_generics: vec![TokenTree::Punct('<', Spacing::Alone), TokenTree::Ident("T".into()), TokenTree::Punct('>', Spacing::Alone)],
        type_generics: vec![TokenTree::Punct('<', Spacing::Alone), TokenTree::Ident("T".into()), TokenTree::Punct('>', Spacing::Alone)],
        where_clause: vec![],
    };
    let d = DeriveInput { ident: "W".to_string(), generics: g, data: Data::Struct(DataStruct { struct_token: 0usize, fields: Fields::Unit }) };
    assert_eq!(
        render(&ok(spanable::handler(d))),
        "# [ automatically_derived ] impl < T > W < T > { fn spanable ( & self ) -> :: proc_macro2 :: Span { :: proc_macro2 :: Span :: call_site ( ) } }"
    );
}

#[test]
fn spanable_union_rejected() {
    let u = Data::Union(DataUnion { union_token: 4, fields: Fields::Named(vec![]) });
    let e = err(spanable::handler(input("U", u)));
    assert_eq!((e.span, e.message.as_str()), (4, "Cannot #[derive(Spanable)] On Union"));
}

#[test]
fn decimal_text() {
    assert_eq!(decimal_string(0), "0");
    assert_eq!(decimal_string(9), "9");
    assert_eq!(decimal_string(10), "10");
    assert_eq!(decimal_string(4096), "4096");
    assert_eq!(decimal_string(usize::MAX), usize::MAX.to_string());
}
