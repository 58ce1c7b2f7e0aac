//! The syntax tree of a document of operations and fragments.

use vstd::prelude::*;
use crate::syntax::{Directive, Type, Value};

verus! {

/// The declaration of a variable.
#[derive(Debug, PartialEq, Eq)]
pub struct VariableDefinition {
    pub name: String,
    pub var_type: Type,
    pub default_value: Option<Value>,
}

/// A selected field. Where no selection set is written, `selection_set` is empty.
#[derive(Debug, PartialEq, Eq)]
pub struct Field {
    pub alias: Option<String>,
    pub name: String,
    pub arguments: Vec<(String, Value)>,
    pub directives: Vec<Directive>,
    pub selection_set: SelectionSet,
}

#[derive(Debug, PartialEq, Eq)]
pub struct FragmentSpread {
    pub fragment_name: String,
    pub directives: Vec<Directive>,
}

#[derive(Debug, Clone, PartialEq, Eq)]
pub enum TypeCondition {
    On(String),
}

#[derive(Debug, PartialEq, Eq)]
pub struct InlineFragment {
    pub type_condition: Option<TypeCondition>,
    pub directives: Vec<Directive>,
    pub selection_set: SelectionSet,
}

#[derive(Debug, PartialEq, Eq)]
pub enum Selection {
    Field(Field),
    FragmentSpread(FragmentSpread),
    InlineFragment(InlineFragment),
}

#[derive(Debug, PartialEq, Eq)]
pub struct SelectionSet {
    pub items: Vec<Selection>,
}

/// What follows the keyword of an operation.
#[derive(Debug, PartialEq, Eq)]
pub struct OperationBody {
    pub name: Option<String>,
    pub variable_definitions: Vec<VariableDefinition>,
    pub directives: Vec<Directive>,
    pub selection_set: SelectionSet,
}

#[derive(Debug, PartialEq, Eq)]
pub enum OperationDefinition {
    SelectionSet(SelectionSet),
    Query(OperationBody),
    Mutation(OperationBody),
    Subscription(OperationBody),
}

#[derive(Debug, PartialEq, Eq)]
pub struct FragmentDefinition {
    pub name: String,
    pub type_condition: TypeCondition,
    pub directives: Vec<Directive>,
    pub selection_set: SelectionSet,
}

#[derive(Debug, PartialEq, Eq)]
pub enum Definition {
    Operation(OperationDefinition),
    Fragment(FragmentDefinition),
}

#[derive(Debug, PartialEq, Eq)]
pub struct Document {
    pub definitions: Vec<Definition>,
}

} // verus!
