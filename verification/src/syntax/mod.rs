//! Syntax trees as a GraphQL parser hands them over: what was written, node for
//! node, before anything is checked against a schema.

pub mod query;
pub mod schema;

use vstd::prelude::*;

verus! {

/// A type as it is written.
#[derive(Debug, PartialEq, Eq)]
pub enum Type {
    NamedType(String),
    ListType(Box<Type>),
    NonNullType(Box<Type>),
}

/// A value as it is written. A floating-point number is kept as its text; the
/// entries of an object stand in the order of their keys.
#[derive(Debug, PartialEq, Eq)]
pub enum Value {
    Variable(String),
    Int(i64),
    Float(String),
    String(String),
    Boolean(bool),
    Null,
    Enum(String),
    List(Vec<Value>),
    Object(Vec<(String, Value)>),
}

/// A directive as it is written.
#[derive(Debug, PartialEq, Eq)]
pub struct Directive {
    pub name: String,
    pub arguments: Vec<(String, Value)>,
}

} // verus!
