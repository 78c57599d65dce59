use hizli::model::{Attribute, Data, DataEnum, DataStruct, DataUnion, Error, Fields};
use hizli::ns_attr::{find_ns_attr, forbid_ns_attr};
use hizli::tokens::TokenTree;
use hizli::{AttrLevel, EnumOnly, NsAttr, StructEnumOnly, StructOnly};

fn a_struct() -> Data<usize> {
    Data::Struct(DataStruct { struct_token: 11, fields: Fields::Unit })
}

fn an_enum() -> Data<usize> {
    Data::Enum(DataEnum { enum_token: 22, variants: vec![] })
}

fn a_union() -> Data<usize> {
    Data::Union(DataUnion { union_token: 33, fields: Fields::Named(vec![]) })
}

fn err<T>(r: Result<T, Error<usize>>) -> Error<usize> {
    match r {
        Ok(_) => panic!("expected an error"),
        Err(e) => e,
    }
}

#[test]
fn struct_enum_only_accepts_struct_and_enum() {
    assert!(matches!(StructEnumOnly::try_new(a_struct(), "X"), Ok(StructEnumOnly::Struct(_))));
    assert!(matches!(StructEnumOnly::try_new(an_enum(), "X"), Ok(StructEnumOnly::Enum(_))));
}

#[test]
fn struct_enum_only_rejects_union() {
    let e = err(StructEnumOnly::try_new(a_union(), "MyMacro"));
    assert_eq!(e.span, 33);
    assert_eq!(e.message, "Cannot #[derive(MyMacro)] On Union");
}

#[test]
fn struct_only_names_actual_shape() {
    assert!(StructOnly::try_new(a_struct(), "Foo").is_ok());
    let e = err(StructOnly::try_new(an_enum(), "Foo"));
    assert_eq!((e.span, e.message.as_str()), (22, "Cannot #[derive(Foo)] On Enum"));
    let e = err(StructOnly::try_new(a_union(), "Foo"));
    assert_eq!((e.span, e.message.as_str()), (33, "Cannot #[derive(Foo)] On Union"));
}

#[test]
fn enum_only_names_actual_shape() {
    assert!(EnumOnly::try_new(an_enum(), "Bar").is_ok());
    let e = err(EnumOnly::try_new(a_struct(), "Bar"));
    assert_eq!((e.span, e.message.as_str()), (11, "Cannot #[derive(Bar)] On Struct"));
    let e = err(EnumOnly::try_new(a_union(), "Bar"));
    assert_eq!((e.span, e.message.as_str()), (33, "Cannot #[derive(Bar)] On Union"));
}

fn attr(name: Option<&str>, span: usize) -> Attribute<usize> {
    Attribute { path_ident: name.map(|n| n.to_string()), args: vec![TokenTree::Lit(span.to_string())], span }
}

#[derive(Debug)]
struct Cfg(usize);

impl NsAttr<usize> for Cfg {
    const NS: &'static str = "cfgx";

    fn parse_args(attr: &Attribute<usize>) -> Result<Self, Error<usize>> {
        Ok(Cfg(attr.span))
    }
}

#[test]
fn find_twice_is_already_configured_at_second() {
    let attrs = vec![attr(Some("cfgx"), 1), attr(Some("doc"), 2), attr(Some("cfgx"), 3)];
    let e = err(Cfg::from_attrs_opt(&attrs));
    assert_eq!(e.span, 3);
    assert_eq!(e.message, "Attribute #[cfgx] Is Already Configured");
    let e = err(find_ns_attr(&attrs, "cfgx"));
    assert_eq!(e.span, 3);
}

#[test]
fn find_other_namespace_only_is_absent() {
    let attrs = vec![attr(Some("doc"), 1), attr(None, 2)];
    assert!(matches!(Cfg::from_attrs_opt(&attrs), Ok(None)));
    assert!(matches!(find_ns_attr(&attrs, "cfgx"), Ok(None)));
}

#[test]
fn find_one_is_parsed() {
    let attrs = vec![attr(Some("doc"), 1), attr(Some("cfgx"), 2)];
    assert!(matches!(Cfg::from_attrs_opt(&attrs), Ok(Some(Cfg(2)))));
    assert!(matches!(find_ns_attr(&attrs, "cfgx"), Ok(Some(1))));
    assert!(matches!(Cfg::from_attrs(&attrs, 99), Ok(Cfg(2))));
}

#[test]
fn required_when_missing() {
    let e = err(Cfg::from_attrs(&[], 99));
    assert_eq!(e.span, 99);
    assert_eq!(e.message, "Attribute #[cfgx] Is Required");
}

#[test]
fn forbid_names_level() {
    let attrs = vec![attr(Some("doc"), 1), attr(Some("cfgx"), 2), attr(Some("cfgx"), 3)];
    let e = err(Cfg::no_attrs(&attrs, AttrLevel::Variant));
    assert_eq!(e.span, 2);
    assert_eq!(e.message, "Attribute #[cfgx] Is Not Allowed At The Variant Level");
    let e = err(forbid_ns_attr(&attrs, "cfgx", AttrLevel::Field));
    assert_eq!(e.message, "Attribute #[cfgx] Is Not Allowed At The Field Level");
    assert!(Cfg::no_attrs(&[attr(Some("doc"), 1)], AttrLevel::Type).is_ok());
}

#[test]
fn level_names() {
    assert_eq!(AttrLevel::Type.name(), "Type");
    assert_eq!(AttrLevel::Variant.name(), "Variant");
    assert_eq!(AttrLevel::Field.name(), "Field");
}
