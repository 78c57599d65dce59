//! Building blocks for derive-style code generators: a model of a type's
//! declared shape (fields, variants, attributes), bindings that name each
//! field in generated code, shape checks, and two generators that emit a
//! parser and a source-position accessor for a type.
pub mod tokens;
pub mod model;
pub mod decimal;
pub mod field_type;
pub mod field_binding;
pub mod struct_binding;
pub mod data;
pub mod ns_attr;
pub mod parse;
pub mod spanable;

pub use data::{EnumOnly, StructEnumOnly, StructOnly};
pub use field_binding::FieldBinding;
pub use field_type::FieldType;
pub use ns_attr::{AttrLevel, NsAttr};
pub use struct_binding::{StructBinding, VariantBinding};
