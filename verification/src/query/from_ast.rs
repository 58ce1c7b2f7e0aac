//! From a document's syntax tree to the query document model.

use vstd::prelude::*;
use vstd::string::*;
use crate::query::{
    Argument, Definition, Directive, Document, Field, Fragment, FragmentSpread, InlineFragment,
    Name, NamedOperation, NamedType, ObjectField, Operation, OperationType, Selection,
    SelectionSet, Type, Value, Variable, VariableDefinition, VariableDefinitions,
};
use crate::syntax;

verus! {

impl Type {
    /// The same wrappers around the same name.
    pub open spec fn models(&self, parsed: syntax::Type) -> bool
        decreases parsed,
    {
        match parsed {
            syntax::Type::NamedType(name) => *self == Type::Named { name: Name(name) },
            syntax::Type::ListType(inner) => *self matches Type::List { value } && value.models(
                *inner,
            ),
            syntax::Type::NonNullType(inner) => *self matches Type::NonNull { value }
                && value.models(*inner),
        }
    }

    pub fn from(parsed: &syntax::Type) -> (out: Self)
        ensures
            out.models(*parsed),
        decreases parsed,
    {
        match parsed {
            syntax::Type::NamedType(name) => Type::Named { name: Name(name.clone()) },
            syntax::Type::ListType(inner) => Type::List { value: Box::new(Type::from(inner)) },
            syntax::Type::NonNullType(inner) => Type::NonNull {
                value: Box::new(Type::from(inner)),
            },
        }
    }
}

impl Value {
    /// The same value, node for node. A string is taken as a block string; the
    /// entries of an object keep their order.
    pub open spec fn models(&self, parsed: syntax::Value) -> bool
        decreases parsed,
    {
        match parsed {
            syntax::Value::Variable(name) => *self == Value::Variable { name: Name(name) },
            syntax::Value::Int(value) => *self == Value::Int { value },
            syntax::Value::Float(value) => *self == Value::Float { value },
            syntax::Value::String(value) => *self == Value::String { value, block: true },
            syntax::Value::Boolean(value) => *self == Value::Boolean { value },
            syntax::Value::Null => *self == Value::Null,
            syntax::Value::Enum(value) => *self == Value::Enum { value },
            syntax::Value::List(items) => *self matches Value::List { values } && values@.len()
                == items@.len() && forall|i: int|
                0 <= i < items@.len() ==> (#[trigger] values@[i]).models(items@[i]),
            syntax::Value::Object(entries) => *self matches Value::Object { fields }
                && fields@.len() == entries@.len() && forall|i: int|
                0 <= i < entries@.len() ==> (#[trigger] fields@[i]).name == Name(entries@[i].0)
                    && fields@[i].value.models(entries@[i].1),
        }
    }

    pub fn from(parsed: &syntax::Value) -> (out: Self)
        ensures
            out.models(*parsed),
        decreases parsed,
    {
        match parsed {
            syntax::Value::Variable(name) => Value::Variable { name: Name(name.clone()) },
            syntax::Value::Int(value) => Value::Int { value: *value },
            syntax::Value::Float(value) => Value::Float { value: value.clone() },
            syntax::Value::String(value) => Value::String { value: value.clone(), block: true },
            syntax::Value::Boolean(value) => Value::Boolean { value: *value },
            syntax::Value::Null => Value::Null,
            syntax::Value::Enum(value) => Value::Enum { value: value.clone() },
            syntax::Value::List(items) => Value::List { values: values_from(items) },
            syntax::Value::Object(entries) => Value::Object { fields: object_fields_from(entries) },
        }
    }
}

fn values_from(items: &Vec<syntax::Value>) -> (values: Vec<Value>)
    ensures
        values@.len() == items@.len(),
        forall|j: int| 0 <= j < items@.len() ==> (#[trigger] values@[j]).models(items@[j]),
    decreases items,
{
    let mut values: Vec<Value> = Vec::new();
    let mut i: usize = 0;
    while i < items.len()
        invariant
            i <= items.len(),
            values@.len() == i,
            forall|j: int| 0 <= j < i ==> (#[trigger] values@[j]).models(items@[j]),
        decreases items.len() - i,
    {
        values.push(Value::from(&items[i]));
        i += 1;
    }
    values
}

fn object_fields_from(entries: &Vec<(String, syntax::Value)>) -> (fields: Vec<ObjectField>)
    ensures
        fields@.len() == entries@.len(),
        forall|j: int|
            0 <= j < entries@.len() ==> (#[trigger] fields@[j]).name == Name(entries@[j].0)
                && fields@[j].value.models(entries@[j].1),
    decreases entries,
{
    let mut fields: Vec<ObjectField> = Vec::new();
    let mut i: usize = 0;
    while i < entries.len()
        invariant
            i <= entries.len(),
            fields@.len() == i,
            forall|j: int|
                0 <= j < i ==> (#[trigger] fields@[j]).name == Name(entries@[j].0)
                    && fields@[j].value.models(entries@[j].1),
        decreases entries.len() - i,
    {
        let entry = &entries[i];
        fields.push(ObjectField { name: Name(entry.0.clone()), value: Value::from(&entry.1) });
        i += 1;
    }
    fields
}

/// An optional value and the optional value it was written as.
pub open spec fn optional_value_models(out: Option<Value>, parsed: Option<syntax::Value>) -> bool {
    match parsed {
        Some(p) => out matches Some(v) && v.models(p),
        None => out is None,
    }
}

/// Arguments and the pairs of name and value they were written as.
pub open spec fn arguments_model(out: Seq<Argument>, parsed: Seq<(String, syntax::Value)>) -> bool {
    out.len() == parsed.len() && forall|i: int|
        0 <= i < parsed.len() ==> (#[trigger] out[i]).name == Name(parsed[i].0)
            && out[i].value.models(parsed[i].1)
}

fn arguments_from(parsed: &Vec<(String, syntax::Value)>) -> (out: Vec<Argument>)
    ensures
        arguments_model(out@, parsed@),
{
    let mut out: Vec<Argument> = Vec::new();
    let mut i: usize = 0;
    while i < parsed.len()
        invariant
            i <= parsed.len(),
            out@.len() == i,
            forall|j: int|
                0 <= j < i ==> (#[trigger] out@[j]).name == Name(parsed@[j].0)
                    && out@[j].value.models(parsed@[j].1),
        decreases parsed.len() - i,
    {
        let pair = &parsed[i];
        out.push(Argument { name: Name(pair.0.clone()), value: Value::from(&pair.1) });
        i += 1;
    }
    out
}

impl Directive {
    /// The same name with the same arguments.
    pub open spec fn models(&self, parsed: syntax::Directive) -> bool {
        self.name == Name(parsed.name) && arguments_model(self.arguments@, parsed.arguments@)
    }

    pub fn from(parsed: &syntax::Directive) -> (out: Self)
        ensures
            out.models(*parsed),
    {
        Directive { name: Name(parsed.name.clone()), arguments: arguments_from(&parsed.arguments) }
    }
}

/// Directives and the directives they were written as, one for one.
pub open spec fn directives_model(out: Seq<Directive>, parsed: Seq<syntax::Directive>) -> bool {
    out.len() == parsed.len() && forall|i: int|
        0 <= i < parsed.len() ==> (#[trigger] out[i]).models(parsed[i])
}

fn directives_from(parsed: &Vec<syntax::Directive>) -> (out: Vec<Directive>)
    ensures
        directives_model(out@, parsed@),
{
    let mut out: Vec<Directive> = Vec::new();
    let mut i: usize = 0;
    while i < parsed.len()
        invariant
            i <= parsed.len(),
            out@.len() == i,
            forall|j: int| 0 <= j < i ==> (#[trigger] out@[j]).models(parsed@[j]),
        decreases parsed.len() - i,
    {
        out.push(Directive::from(&parsed[i]));
        i += 1;
    }
    out
}

impl VariableDefinition {
    /// The same variable with the same type and default. The syntax tree keeps no
    /// directives for a variable, so the model has none.
    pub open spec fn models(&self, parsed: syntax::query::VariableDefinition) -> bool {
        &&& self.variable == Variable { name: Name(parsed.name) }
        &&& self.of_type.models(parsed.var_type)
        &&& optional_value_models(self.default_value, parsed.default_value)
        &&& self.directives@.len() == 0
    }

    pub fn from(parsed: &syntax::query::VariableDefinition) -> (out: Self)
        ensures
            out.models(*parsed),
    {
        VariableDefinition {
            variable: Variable { name: Name(parsed.name.clone()) },
            of_type: Type::from(&parsed.var_type),
            default_value: match &parsed.default_value {
                Some(value) => Some(Value::from(value)),
                None => None,
            },
            directives: Vec::new(),
        }
    }
}

/// Variable definitions and what they were written as, one for one.
pub open spec fn variable_definitions_model(
    out: Seq<VariableDefinition>,
    parsed: Seq<syntax::query::VariableDefinition>,
) -> bool {
    out.len() == parsed.len() && forall|i: int|
        0 <= i < parsed.len() ==> (#[trigger] out[i]).models(parsed[i])
}

fn variable_definitions_from(parsed: &Vec<syntax::query::VariableDefinition>) -> (out: Vec<
    VariableDefinition,
>)
    ensures
        variable_definitions_model(out@, parsed@),
{
    let mut out: Vec<VariableDefinition> = Vec::new();
    let mut i: usize = 0;
    while i < parsed.len()
        invariant
            i <= parsed.len(),
            out@.len() == i,
            forall|j: int| 0 <= j < i ==> (#[trigger] out@[j]).models(parsed@[j]),
        decreases parsed.len() - i,
    {
        out.push(VariableDefinition::from(&parsed[i]));
        i += 1;
    }
    out
}

/// An optional name and the optional string it was written as.
pub open spec fn optional_name_of(parsed: Option<String>) -> Option<Name> {
    match parsed {
        Some(name) => Some(Name(name)),
        None => None,
    }
}

fn optional_name_from(parsed: &Option<String>) -> (out: Option<Name>)
    ensures
        out == optional_name_of(*parsed),
{
    match parsed {
        Some(name) => Some(Name(name.clone())),
        None => None,
    }
}

/// The type condition as a named type.
pub open spec fn condition_of(parsed: syntax::query::TypeCondition) -> NamedType {
    match parsed {
        syntax::query::TypeCondition::On(name) => NamedType { name: Name(name) },
    }
}

fn condition_from(parsed: &syntax::query::TypeCondition) -> (out: NamedType)
    ensures
        out == condition_of(*parsed),
{
    match parsed {
        syntax::query::TypeCondition::On(name) => NamedType { name: Name(name.clone()) },
    }
}

impl Selection {
    /// The same selection, node for node. A field always has a selection set in the
    /// model, empty where none was written.
    pub open spec fn models(&self, parsed: syntax::query::Selection) -> bool
        decreases parsed,
    {
        match parsed {
            syntax::query::Selection::Field(field) => {
                &&& *self matches Selection::Field(out)
                &&& out.alias == optional_name_of(field.alias)
                &&& out.name == Name(field.name)
                &&& arguments_model(out.arguments@, field.arguments@)
                &&& directives_model(out.directives@, field.directives@)
                &&& out.selection_set matches Some(set)
                &&& set.models(field.selection_set)
            },
            syntax::query::Selection::FragmentSpread(spread) => {
                &&& *self matches Selection::FragmentSpread(out)
                &&& out.name == Name(spread.fragment_name)
                &&& directives_model(out.directives@, spread.directives@)
            },
            syntax::query::Selection::InlineFragment(inline) => {
                &&& *self matches Selection::InlineFragment(out)
                &&& out.type_condition == match inline.type_condition {
                    Some(condition) => Some(condition_of(condition)),
                    None => None,
                }
                &&& directives_model(out.directives@, inline.directives@)
                &&& out.selection_set.models(inline.selection_set)
            },
        }
    }

    pub fn from(parsed: &syntax::query::Selection) -> (out: Self)
        ensures
            out.models(*parsed),
        decreases parsed,
    {
        match parsed {
            syntax::query::Selection::Field(field) => Selection::Field(
                Field {
                    alias: optional_name_from(&field.alias),
                    name: Name(field.name.clone()),
                    arguments: arguments_from(&field.arguments),
                    directives: directives_from(&field.directives),
                    selection_set: Some(SelectionSet::from(&field.selection_set)),
                },
            ),
            syntax::query::Selection::FragmentSpread(spread) => Selection::FragmentSpread(
                FragmentSpread {
                    name: Name(spread.fragment_name.clone()),
                    directives: directives_from(&spread.directives),
                },
            ),
            syntax::query::Selection::InlineFragment(inline) => Selection::InlineFragment(
                InlineFragment {
                    type_condition: match &inline.type_condition {
                        Some(condition) => Some(condition_from(condition)),
                        None => None,
                    },
                    directives: directives_from(&inline.directives),
                    selection_set: SelectionSet::from(&inline.selection_set),
                },
            ),
        }
    }
}

impl SelectionSet {
    /// The same selections in the same order.
    pub open spec fn models(&self, parsed: syntax::query::SelectionSet) -> bool
        decreases parsed,
    {
        self.selections@.len() == parsed.items@.len() && forall|i: int|
            0 <= i < parsed.items@.len() ==> (#[trigger] self.selections@[i]).models(
                parsed.items@[i],
            )
    }

    pub fn from(parsed: &syntax::query::SelectionSet) -> (out: Self)
        ensures
            out.models(*parsed),
        decreases parsed,
    {
        let mut selections: Vec<Selection> = Vec::new();
        let mut i: usize = 0;
        while i < parsed.items.len()
            invariant
                i <= parsed.items.len(),
                selections@.len() == i,
                forall|j: int| 0 <= j < i ==> (#[trigger] selections@[j]).models(parsed.items@[j]),
            decreases parsed.items.len() - i,
        {
            selections.push(Selection::from(&parsed.items[i]));
            i += 1;
        }
        SelectionSet { selections }
    }
}

impl NamedOperation {
    /// The operation of the given kind with the same name, variables, directives and
    /// selection set.
    pub open spec fn models(&self, operation: OperationType, parsed: syntax::query::OperationBody) -> bool {
        &&& self.operation == operation
        &&& self.name == optional_name_of(parsed.name)
        &&& variable_definitions_model(self.variable_definitions.0@, parsed.variable_definitions@)
        &&& directives_model(self.directives@, parsed.directives@)
        &&& self.selection_set.models(parsed.selection_set)
    }

    fn from(operation: OperationType, parsed: &syntax::query::OperationBody) -> (out: Self)
        ensures
            out.models(operation, *parsed),
    {
        NamedOperation {
            operation,
            name: optional_name_from(&parsed.name),
            variable_definitions: VariableDefinitions(
                variable_definitions_from(&parsed.variable_definitions),
            ),
            directives: directives_from(&parsed.directives),
            selection_set: SelectionSet::from(&parsed.selection_set),
        }
    }
}

impl Operation {
    /// A bare selection set stays one; an operation written with its keyword becomes
    /// a named operation of that kind.
    pub open spec fn models(&self, parsed: syntax::query::OperationDefinition) -> bool {
        match parsed {
            syntax::query::OperationDefinition::SelectionSet(set) => *self matches Operation::SelectionSet(
                out,
            ) && out.models(set),
            syntax::query::OperationDefinition::Query(body) => *self matches Operation::NamedOperation(
                out,
            ) && out.models(OperationType::Query, body),
            syntax::query::OperationDefinition::Mutation(body) => *self matches Operation::NamedOperation(
                out,
            ) && out.models(OperationType::Mutation, body),
            syntax::query::OperationDefinition::Subscription(body) => *self matches Operation::NamedOperation(
                out,
            ) && out.models(OperationType::Subscription, body),
        }
    }

    pub fn from(parsed: &syntax::query::OperationDefinition) -> (out: Self)
        ensures
            out.models(*parsed),
    {
        match parsed {
            syntax::query::OperationDefinition::SelectionSet(set) => Operation::SelectionSet(
                SelectionSet::from(set),
            ),
            syntax::query::OperationDefinition::Query(body) => Operation::NamedOperation(
                NamedOperation::from(OperationType::Query, body),
            ),
            syntax::query::OperationDefinition::Mutation(body) => Operation::NamedOperation(
                NamedOperation::from(OperationType::Mutation, body),
            ),
            syntax::query::OperationDefinition::Subscription(body) => Operation::NamedOperation(
                NamedOperation::from(OperationType::Subscription, body),
            ),
        }
    }
}

impl Fragment {
    /// The same fragment on the same type.
    pub open spec fn models(&self, parsed: syntax::query::FragmentDefinition) -> bool {
        &&& self.name == Name(parsed.name)
        &&& self.type_condition == condition_of(parsed.type_condition)
        &&& directives_model(self.directives@, parsed.directives@)
        &&& self.selection_set.models(parsed.selection_set)
    }

    pub fn from(parsed: &syntax::query::FragmentDefinition) -> (out: Self)
        ensures
            out.models(*parsed),
    {
        Fragment {
            name: Name(parsed.name.clone()),
            type_condition: condition_from(&parsed.type_condition),
            directives: directives_from(&parsed.directives),
            selection_set: SelectionSet::from(&parsed.selection_set),
        }
    }
}

impl Definition {
    pub open spec fn models(&self, parsed: syntax::query::Definition) -> bool {
        match parsed {
            syntax::query::Definition::Operation(operation) => *self matches Definition::Operation(
                out,
            ) && out.models(operation),
            syntax::query::Definition::Fragment(fragment) => *self matches Definition::Fragment(
                out,
            ) && out.models(fragment),
        }
    }

    pub fn from(parsed: &syntax::query::Definition) -> (out: Self)
        ensures
            out.models(*parsed),
    {
        match parsed {
            syntax::query::Definition::Operation(operation) => Definition::Operation(
                Operation::from(operation),
            ),
            syntax::query::Definition::Fragment(fragment) => Definition::Fragment(
                Fragment::from(fragment),
            ),
        }
    }
}

impl Document {
    /// The same definitions in the same order.
    pub open spec fn models(&self, parsed: syntax::query::Document) -> bool {
        self.definitions@.len() == parsed.definitions@.len() && forall|i: int|
            0 <= i < parsed.definitions@.len() ==> (#[trigger] self.definitions@[i]).models(
                parsed.definitions@[i],
            )
    }

    /// Converts a parsed document into the model, definition for definition.
    pub fn from_syntax_tree(parsed: &syntax::query::Document) -> (out: Self)
        ensures
            out.models(*parsed),
    {
        let mut definitions: Vec<Definition> = Vec::new();
        let mut i: usize = 0;
        while i < parsed.definitions.len()
            invariant
                i <= parsed.definitions.len(),
                definitions@.len() == i,
                forall|j: int|
                    0 <= j < i ==> (#[trigger] definitions@[j]).models(parsed.definitions@[j]),
            decreases parsed.definitions.len() - i,
        {
            definitions.push(Definition::from(&parsed.definitions[i]));
            i += 1;
        }
        Document { definitions }
    }
}

} // verus!
