//! Shape checks: narrowing a struct, enum or union body to the shapes a
//! derivation supports.
use crate::model::{Data, DataEnum, DataStruct, Error};
use vstd::prelude::*;

verus! {

/// The name of the shape of `data`.
pub open spec fn shape_name<P>(data: &Data<P>) -> Seq<char> {
    match data {
        Data::Struct(_) => "Struct"@,
        Data::Enum(_) => "Enum"@,
        Data::Union(_) => "Union"@,
    }
}

/// The position of the keyword that introduces `data`.
pub open spec fn keyword_span<P>(data: &Data<P>) -> P {
    match data {
        Data::Struct(s) => s.struct_token,
        Data::Enum(e) => e.enum_token,
        Data::Union(u) => u.union_token,
    }
}

/// `Cannot #[derive(<name>)] On <shape>`
pub open spec fn shape_msg(name: Seq<char>, shape: Seq<char>) -> Seq<char> {
    "Cannot #[derive("@ + name + ")] On "@ + shape
}

/// `r` rejects `data` for the derivation `name`: a diagnostic at the shape's
/// keyword that names the derivation and the actual shape.
pub open spec fn rejects<P, T>(r: Result<T, Error<P>>, data: &Data<P>, name: Seq<char>) -> bool {
    match r {
        Ok(_) => false,
        Err(e) => e.span == keyword_span(data) && e.message@ == shape_msg(name, shape_name(data)),
    }
}

fn shape_error<P>(span: P, name: &str, shape: &str) -> (r: Error<P>)
    ensures
        r.span == span,
        r.message@ == shape_msg(name@, shape@),
{
    let mut message = String::from_str("Cannot #[derive(");
    message.append(name);
    message.append(")] On ");
    message.append(shape);
    assert(message@ =~= shape_msg(name@, shape@));
    Error { span, message }
}

/// A body that is a struct or an enum.
#[derive(Debug)]
pub enum StructEnumOnly<P> {
    Struct(DataStruct<P>),
    Enum(DataEnum<P>),
}

impl<P> StructEnumOnly<P> {
    /// Accepts a struct or an enum; rejects a union with a diagnostic at its
    /// `union` keyword.
    pub fn try_new(data: Data<P>, derive_name: &str) -> (r: Result<StructEnumOnly<P>, Error<P>>)
        ensures
            data matches Data::Struct(s) ==> r == Ok::<_, Error<P>>(StructEnumOnly::Struct(s)),
            data matches Data::Enum(e) ==> r == Ok::<_, Error<P>>(StructEnumOnly::Enum(e)),
            data is Union ==> rejects(r, &data, derive_name@),
    {
        match data {
            Data::Struct(s) => Ok(StructEnumOnly::Struct(s)),
            Data::Enum(e) => Ok(StructEnumOnly::Enum(e)),
            Data::Union(u) => Err(shape_error(u.union_token, derive_name, "Union")),
        }
    }
}

/// A body that is a struct.
#[derive(Debug)]
pub struct StructOnly<P>(pub DataStruct<P>);

impl<P> StructOnly<P> {
    /// Accepts a struct; rejects an enum or a union with a diagnostic at its
    /// keyword.
    pub fn try_new(data: Data<P>, derive_name: &str) -> (r: Result<StructOnly<P>, Error<P>>)
        ensures
            data matches Data::Struct(s) ==> r == Ok::<_, Error<P>>(StructOnly(s)),
            !(data is Struct) ==> rejects(r, &data, derive_name@),
    {
        match data {
            Data::Struct(s) => Ok(StructOnly(s)),
            Data::Enum(e) => Err(shape_error(e.enum_token, derive_name, "Enum")),
            Data::Union(u) => Err(shape_error(u.union_token, derive_name, "Union")),
        }
    }
}

/// A body that is an enum.
#[derive(Debug)]
pub struct EnumOnly<P>(pub DataEnum<P>);

impl<P> EnumOnly<P> {
    /// Accepts an enum; rejects a struct or a union with a diagnostic at its
    /// keyword.
    pub fn try_new(data: Data<P>, derive_name: &str) -> (r: Result<EnumOnly<P>, Error<P>>)
        ensures
            data matches Data::Enum(e) ==> r == Ok::<_, Error<P>>(EnumOnly(e)),
            !(data is Enum) ==> rejects(r, &data, derive_name@),
    {
        match data {
            Data::Enum(e) => Ok(EnumOnly(e)),
            Data::Struct(s) => Err(shape_error(s.struct_token, derive_name, "Struct")),
            Data::Union(u) => Err(shape_error(u.union_token, derive_name, "Union")),
        }
    }
}

} // verus!
