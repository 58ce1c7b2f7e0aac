//! The syntax tree of a schema written in the schema definition language.

use vstd::prelude::*;
use crate::schema::DirectiveLocation;
use crate::syntax::Type;

verus! {

#[derive(Debug, PartialEq, Eq)]
pub struct InputValue {
    pub description: Option<String>,
    pub name: String,
    pub value_type: Type,
}

#[derive(Debug, PartialEq, Eq)]
pub struct Field {
    pub description: Option<String>,
    pub name: String,
    pub arguments: Vec<InputValue>,
    pub field_type: Type,
}

#[derive(Debug, Clone, PartialEq, Eq)]
pub struct EnumValue {
    pub description: Option<String>,
    pub name: String,
}

/// The definition of a named type.
#[allow(inconsistent_fields)]
#[derive(Debug, PartialEq, Eq)]
pub enum TypeDefinition {
    Scalar { description: Option<String>, name: String },
    Object {
        description: Option<String>,
        name: String,
        implements_interfaces: Vec<String>,
        fields: Vec<Field>,
    },
    Interface {
        description: Option<String>,
        name: String,
        implements_interfaces: Vec<String>,
        fields: Vec<Field>,
    },
    Union { description: Option<String>, name: String, types: Vec<String> },
    Enum { description: Option<String>, name: String, values: Vec<EnumValue> },
    InputObject { description: Option<String>, name: String, fields: Vec<InputValue> },
}

#[derive(Debug, PartialEq, Eq)]
pub struct DirectiveDefinition {
    pub description: Option<String>,
    pub name: String,
    pub arguments: Vec<InputValue>,
    pub locations: Vec<DirectiveLocation>,
}

/// The `schema { ... }` block that names the root types.
#[derive(Debug, Clone, PartialEq, Eq)]
pub struct SchemaDefinition {
    pub query: Option<String>,
    pub mutation: Option<String>,
    pub subscription: Option<String>,
}

#[derive(Debug, PartialEq, Eq)]
pub enum Definition {
    SchemaDefinition(SchemaDefinition),
    TypeDefinition(TypeDefinition),
    /// An `extend ...` definition; what it extends with is not kept.
    TypeExtension,
    DirectiveDefinition(DirectiveDefinition),
}

#[derive(Debug, PartialEq, Eq)]
pub struct Document {
    pub definitions: Vec<Definition>,
}

} // verus!
