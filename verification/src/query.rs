//! The query document model: operations, fragments, selections and values.
//!
//! Every node stands for one node of the GraphQL document tree; the `kind` tag that
//! the tree's JSON form carries is implied by the node's type.

pub mod from_ast;

use vstd::prelude::*;
use vstd::string::*;
use crate::schema::{TypeRef, TypeRefContainer};

verus! {

/// A name as it stands in a document.
#[derive(Debug, Clone, PartialEq, Eq)]
pub struct Name(pub String);

/// A use of a variable.
#[derive(Debug, Clone, PartialEq, Eq)]
pub struct Variable {
    pub name: Name,
}

/// A value literal. A floating-point number is kept as its text.
#[allow(inconsistent_fields)]
#[derive(Debug, PartialEq, Eq)]
pub enum Value {
    Variable { name: Name },
    Int { value: i64 },
    Float { value: String },
    Object { fields: Vec<ObjectField> },
    String { value: String, block: bool },
    List { values: Vec<Value> },
    Boolean { value: bool },
    Null,
    Enum { value: String },
}

/// One entry of an object value.
#[derive(Debug, PartialEq, Eq)]
pub struct ObjectField {
    pub name: Name,
    pub value: Value,
}

/// An argument of a field or a directive.
#[derive(Debug, PartialEq, Eq)]
pub struct Argument {
    pub name: Name,
    pub value: Value,
}

/// A directive applied in a document.
#[derive(Debug, PartialEq, Eq)]
pub struct Directive {
    pub name: Name,
    pub arguments: Vec<Argument>,
}

/// A reference to a type by name, as a type condition has it.
#[derive(Debug, Clone, PartialEq, Eq)]
pub struct NamedType {
    pub name: Name,
}

/// The type of a variable.
#[derive(Debug, PartialEq, Eq)]
pub enum Type {
    Named { name: Name },
    NonNull { value: Box<Type> },
    List { value: Box<Type> },
}

impl Type {
    /// The schema's form of this type: the same wrappers around the same name.
    pub open spec fn spec_type_ref(&self) -> TypeRef
        decreases self,
    {
        match self {
            Type::Named { name } => TypeRef::To { name: name.0 },
            Type::NonNull { value } => TypeRef::Container(
                TypeRefContainer::NonNull { of_type: Box::new(value.spec_type_ref()) },
            ),
            Type::List { value } => TypeRef::Container(
                TypeRefContainer::List { of_type: Box::new(value.spec_type_ref()) },
            ),
        }
    }

    /// Converts a variable's type into a reference that the type index resolves.
    pub fn type_ref(&self) -> (converted: TypeRef)
        ensures
            converted == self.spec_type_ref(),
        decreases self,
    {
        match self {
            Type::Named { name } => TypeRef::To { name: name.0.clone() },
            Type::NonNull { value } => TypeRef::Container(
                TypeRefContainer::NonNull { of_type: Box::new(value.type_ref()) },
            ),
            Type::List { value } => TypeRef::Container(
                TypeRefContainer::List { of_type: Box::new(value.type_ref()) },
            ),
        }
    }
}

/// The declaration of one variable of an operation.
#[derive(Debug, PartialEq, Eq)]
pub struct VariableDefinition {
    pub variable: Variable,
    pub of_type: Type,
    pub default_value: Option<Value>,
    pub directives: Vec<Directive>,
}

/// The variables of an operation, in the order they were declared.
#[derive(Debug, PartialEq, Eq)]
pub struct VariableDefinitions(pub Vec<VariableDefinition>);

/// A selected field.
#[derive(Debug, PartialEq, Eq)]
pub struct Field {
    pub alias: Option<Name>,
    pub name: Name,
    pub arguments: Vec<Argument>,
    pub directives: Vec<Directive>,
    pub selection_set: Option<SelectionSet>,
}

impl Field {
    /// The key under which the field's value arrives: the alias where there is one.
    pub open spec fn spec_response_key(&self) -> Seq<char> {
        match self.alias {
            Some(alias) => alias.0@,
            None => self.name.0@,
        }
    }

    pub fn response_key(&self) -> (key: &str)
        ensures
            key@ == self.spec_response_key(),
    {
        match &self.alias {
            Some(alias) => alias.0.as_str(),
            None => self.name.0.as_str(),
        }
    }
}

/// A selection set applied under an optional type condition.
#[derive(Debug, PartialEq, Eq)]
pub struct InlineFragment {
    pub type_condition: Option<NamedType>,
    pub directives: Vec<Directive>,
    pub selection_set: SelectionSet,
}

/// The use of a named fragment.
#[derive(Debug, PartialEq, Eq)]
pub struct FragmentSpread {
    pub name: Name,
    pub directives: Vec<Directive>,
}

/// One entry of a selection set.
#[derive(Debug, PartialEq, Eq)]
pub enum Selection {
    Field(Field),
    InlineFragment(InlineFragment),
    FragmentSpread(FragmentSpread),
}

/// The `{ ... }` block that names what to fetch.
#[derive(Debug, PartialEq, Eq)]
pub struct SelectionSet {
    pub selections: Vec<Selection>,
}

/// The three kinds of operation.
#[derive(Debug, Clone, Copy, PartialEq, Eq)]
pub enum OperationType {
    Query,
    Mutation,
    Subscription,
}

/// An operation written with its keyword.
#[derive(Debug, PartialEq, Eq)]
pub struct NamedOperation {
    pub operation: OperationType,
    pub name: Option<Name>,
    pub variable_definitions: VariableDefinitions,
    pub directives: Vec<Directive>,
    pub selection_set: SelectionSet,
}

/// An operation: a bare selection set, or one written with its keyword.
#[derive(Debug, PartialEq, Eq)]
pub enum Operation {
    SelectionSet(SelectionSet),
    NamedOperation(NamedOperation),
}

/// A named, reusable selection set on one type.
#[derive(Debug, PartialEq, Eq)]
pub struct Fragment {
    pub name: Name,
    pub type_condition: NamedType,
    pub directives: Vec<Directive>,
    pub selection_set: SelectionSet,
}

/// A top-level definition of a document.
#[derive(Debug, PartialEq, Eq)]
pub enum Definition {
    Operation(Operation),
    Fragment(Fragment),
}

/// A whole document.
#[derive(Debug, PartialEq, Eq)]
pub struct Document {
    pub definitions: Vec<Definition>,
}

impl Document {
    pub fn new(definitions: Vec<Definition>) -> (document: Self)
        ensures
            document.definitions == definitions,
    {
        Document { definitions }
    }
}

} // verus!
