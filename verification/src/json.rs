//! The JSON form of a document: the tree that a GraphQL client library takes in
//! place of the document's text. Every node is an object whose `kind` says what it is.

use vstd::prelude::*;
use vstd::string::*;
use crate::query::{
    Argument, Definition, Directive, Document, Field, Fragment, FragmentSpread, InlineFragment,
    Name, NamedOperation, NamedType, ObjectField, Operation, OperationType, Selection,
    SelectionSet, Type, Value, VariableDefinition,
};
use crate::text::{decimal, json_string, to_decimal, to_json_string};

verus! {

/// A name node.
pub open spec fn name_json(name: Name) -> Seq<char> {
    "{\"kind\":\"Name\",\"value\":"@ + json_string(name.0@) + "}"@
}

/// A name node, or `null` where there is no name.
pub open spec fn optional_name_json(name: Option<Name>) -> Seq<char> {
    match name {
        Some(n) => name_json(n),
        None => "null"@,
    }
}

/// `true` or `false`.
pub open spec fn bool_json(b: bool) -> Seq<char> {
    if b {
        "true"@
    } else {
        "false"@
    }
}

/// A value node. A number stands as its text inside a JSON string, an integer in
/// decimal.
pub open spec fn value_json(value: Value) -> Seq<char>
    decreases value,
{
    match value {
        Value::Variable { name } => "{\"kind\":\"Variable\",\"name\":"@ + name_json(name) + "}"@,
        Value::Int { value } => "{\"kind\":\"IntValue\",\"value\":\""@ + decimal(value as int) + "\"}"@,
        Value::Float { value } => "{\"kind\":\"FloatValue\",\"value\":"@ + json_string(value@)
            + "}"@,
        Value::Object { fields } => "{\"kind\":\"ObjectValue\",\"fields\":["@ + object_fields_json(
            fields@,
        ) + "]}"@,
        Value::String { value, block } => "{\"kind\":\"StringValue\",\"value\":"@ + json_string(
            value@,
        ) + ",\"block\":"@ + bool_json(block) + "}"@,
        Value::List { values } => "{\"kind\":\"ListValue\",\"values\":["@ + values_json(values@)
            + "]}"@,
        Value::Boolean { value } => "{\"kind\":\"BooleanValue\",\"value\":"@ + bool_json(value)
            + "}"@,
        Value::Null => "{\"kind\":\"NullValue\"}"@,
        Value::Enum { value } => "{\"kind\":\"EnumValue\",\"value\":"@ + json_string(value@) + "}"@,
    }
}

/// A value node, or `null` where there is no value.
pub open spec fn optional_value_json(value: Option<Value>) -> Seq<char> {
    match value {
        Some(v) => value_json(v),
        None => "null"@,
    }
}

/// One entry of an object value.
pub open spec fn object_field_json(field: ObjectField) -> Seq<char>
    decreases field,
{
    "{\"kind\":\"ObjectField\",\"name\":"@ + name_json(field.name) + ",\"value\":"@ + value_json(
        field.value,
    ) + "}"@
}

/// An argument node.
pub open spec fn argument_json(argument: Argument) -> Seq<char> {
    "{\"kind\":\"Argument\",\"name\":"@ + name_json(argument.name) + ",\"value\":"@ + value_json(
        argument.value,
    ) + "}"@
}

/// A directive node.
pub open spec fn directive_json(directive: Directive) -> Seq<char> {
    "{\"kind\":\"Directive\",\"name\":"@ + name_json(directive.name) + ",\"arguments\":["@
        + arguments_json(directive.arguments@) + "]}"@
}

/// A named-type node.
pub open spec fn named_type_json(named: NamedType) -> Seq<char> {
    "{\"kind\":\"NamedType\",\"name\":"@ + name_json(named.name) + "}"@
}

/// A named-type node, or `null` where there is no type condition.
pub open spec fn optional_named_type_json(named: Option<NamedType>) -> Seq<char> {
    match named {
        Some(n) => named_type_json(n),
        None => "null"@,
    }
}

/// The type of a variable.
pub open spec fn type_json(t: Type) -> Seq<char>
    decreases t,
{
    match t {
        Type::Named { name } => "{\"kind\":\"NamedType\",\"name\":"@ + name_json(name) + "}"@,
        Type::NonNull { value } => "{\"kind\":\"NonNullType\",\"type\":"@ + type_json(*value) + "}"@,
        Type::List { value } => "{\"kind\":\"ListType\",\"type\":"@ + type_json(*value) + "}"@,
    }
}

/// The declaration of a variable.
pub open spec fn variable_definition_json(definition: VariableDefinition) -> Seq<char> {
    "{\"kind\":\"VariableDefinition\",\"variable\":{\"kind\":\"Variable\",\"name\":"@ + name_json(
        definition.variable.name,
    ) + "},\"type\":"@ + type_json(definition.of_type) + ",\"defaultValue\":"@
        + optional_value_json(definition.default_value) + ",\"directives\":["@ + directives_json(
        definition.directives@,
    ) + "]}"@
}

/// A selection-set node.
pub open spec fn selection_set_json(set: SelectionSet) -> Seq<char>
    decreases set,
{
    "{\"kind\":\"SelectionSet\",\"selections\":["@ + selections_json(set.selections@) + "]}"@
}

/// A selection-set node, or `null` where a field has none.
pub open spec fn optional_selection_set_json(set: Option<SelectionSet>) -> Seq<char>
    decreases set,
{
    match set {
        Some(s) => selection_set_json(s),
        None => "null"@,
    }
}

/// A selection node: a field, an inline fragment or a fragment spread.
pub open spec fn selection_json(selection: Selection) -> Seq<char>
    decreases selection,
{
    match selection {
        Selection::Field(field) => "{\"kind\":\"Field\",\"alias\":"@ + optional_name_json(field.alias)
            + ",\"name\":"@ + name_json(field.name) + ",\"arguments\":["@ + arguments_json(
            field.arguments@,
        ) + "],\"directives\":["@ + directives_json(field.directives@) + "],\"selectionSet\":"@
            + optional_selection_set_json(field.selection_set) + "}"@,
        Selection::InlineFragment(inline) => "{\"kind\":\"InlineFragment\",\"typeCondition\":"@
            + optional_named_type_json(inline.type_condition) + ",\"directives\":["@
            + directives_json(inline.directives@) + "],\"selectionSet\":"@ + selection_set_json(
            inline.selection_set,
        ) + "}"@,
        Selection::FragmentSpread(spread) => "{\"kind\":\"FragmentSpread\",\"name\":"@ + name_json(
            spread.name,
        ) + ",\"directives\":["@ + directives_json(spread.directives@) + "]}"@,
    }
}

/// The keyword of an operation, as a JSON string.
pub open spec fn operation_type_json(operation: OperationType) -> Seq<char> {
    match operation {
        OperationType::Query => "\"query\""@,
        OperationType::Mutation => "\"mutation\""@,
        OperationType::Subscription => "\"subscription\""@,
    }
}

/// An operation node. A bare selection set is a query without a name.
pub open spec fn operation_json(operation: Operation) -> Seq<char> {
    match operation {
        Operation::NamedOperation(named) => "{\"kind\":\"OperationDefinition\",\"operation\":"@
            + operation_type_json(named.operation) + ",\"name\":"@ + optional_name_json(named.name)
            + ",\"variableDefinitions\":["@ + variable_definitions_json(
            named.variable_definitions.0@,
        ) + "],\"directives\":["@ + directives_json(named.directives@) + "],\"selectionSet\":"@
            + selection_set_json(named.selection_set) + "}"@,
        Operation::SelectionSet(set) => "{\"kind\":\"OperationDefinition\",\"operation\":"@
            + operation_type_json(OperationType::Query) + ",\"name\":"@ + "null"@
            + ",\"variableDefinitions\":["@ + "],\"directives\":["@ + "],\"selectionSet\":"@
            + selection_set_json(set) + "}"@,
    }
}

/// A fragment-definition node.
pub open spec fn fragment_json(fragment: Fragment) -> Seq<char> {
    "{\"kind\":\"FragmentDefinition\",\"name\":"@ + name_json(fragment.name) + ",\"typeCondition\":"@
        + named_type_json(fragment.type_condition) + ",\"directives\":["@ + directives_json(
        fragment.directives@,
    ) + "],\"selectionSet\":"@ + selection_set_json(fragment.selection_set) + "}"@
}

/// A definition node.
pub open spec fn definition_json(definition: Definition) -> Seq<char> {
    match definition {
        Definition::Operation(operation) => operation_json(operation),
        Definition::Fragment(fragment) => fragment_json(fragment),
    }
}

/// The document node around the given definitions.
pub open spec fn document_json(definitions: Seq<Definition>) -> Seq<char> {
    "{\"kind\":\"Document\",\"definitions\":["@ + definitions_json(definitions) + "]}"@
}

/// The values of a list, separated by commas.
pub open spec fn values_json(values: Seq<Value>) -> Seq<char>
    decreases values,
{
    if values.len() == 0 {
        Seq::empty()
    } else if values.len() == 1 {
        value_json(values[0])
    } else {
        values_json(values.subrange(0, values.len() - 1)) + ","@ + value_json(values[values.len() - 1])
    }
}

/// The entries of an object value, separated by commas.
pub open spec fn object_fields_json(fields: Seq<ObjectField>) -> Seq<char>
    decreases fields,
{
    if fields.len() == 0 {
        Seq::empty()
    } else if fields.len() == 1 {
        object_field_json(fields[0])
    } else {
        object_fields_json(fields.subrange(0, fields.len() - 1)) + ","@ + object_field_json(fields[fields.len() - 1])
    }
}

/// The arguments of a field or a directive, separated by commas.
pub open spec fn arguments_json(arguments: Seq<Argument>) -> Seq<char>
    decreases arguments,
{
    if arguments.len() == 0 {
        Seq::empty()
    } else if arguments.len() == 1 {
        argument_json(arguments[0])
    } else {
        arguments_json(arguments.subrange(0, arguments.len() - 1)) + ","@ + argument_json(arguments[arguments.len() - 1])
    }
}

/// The directives of a node, separated by commas.
pub open spec fn directives_json(directives: Seq<Directive>) -> Seq<char>
    decreases directives,
{
    if directives.len() == 0 {
        Seq::empty()
    } else if directives.len() == 1 {
        directive_json(directives[0])
    } else {
        directives_json(directives.subrange(0, directives.len() - 1)) + ","@ + directive_json(directives[directives.len() - 1])
    }
}

/// The variables of an operation, separated by commas.
pub open spec fn variable_definitions_json(definitions: Seq<VariableDefinition>) -> Seq<char>
    decreases definitions,
{
    if definitions.len() == 0 {
        Seq::empty()
    } else if definitions.len() == 1 {
        variable_definition_json(definitions[0])
    } else {
        variable_definitions_json(definitions.subrange(0, definitions.len() - 1)) + ","@ + variable_definition_json(definitions[definitions.len() - 1])
    }
}

/// The selections of a selection set, separated by commas.
pub open spec fn selections_json(selections: Seq<Selection>) -> Seq<char>
    decreases selections,
{
    if selections.len() == 0 {
        Seq::empty()
    } else if selections.len() == 1 {
        selection_json(selections[0])
    } else {
        selections_json(selections.subrange(0, selections.len() - 1)) + ","@ + selection_json(selections[selections.len() - 1])
    }
}

/// The definitions of a document, separated by commas.
pub open spec fn definitions_json(definitions: Seq<Definition>) -> Seq<char>
    decreases definitions,
{
    if definitions.len() == 0 {
        Seq::empty()
    } else if definitions.len() == 1 {
        definition_json(definitions[0])
    } else {
        definitions_json(definitions.subrange(0, definitions.len() - 1)) + ","@ + definition_json(definitions[definitions.len() - 1])
    }
}

/// The JSON of a name.
pub fn name_to_json(name: &Name) -> (json: String)
    ensures
        json@ == name_json(*name),
{
    let mut out = String::from_str("{\"kind\":\"Name\",\"value\":");
    let literal = to_json_string(name.0.as_str());
    out.append(literal.as_str());
    out.append("}");
    out
}

fn optional_name_to_json(name: &Option<Name>) -> (json: String)
    ensures
        json@ == optional_name_json(*name),
{
    match name {
        Some(n) => name_to_json(n),
        None => String::from_str("null"),
    }
}

fn bool_to_json(b: bool) -> (json: &'static str)
    ensures
        json@ == bool_json(b),
{
    if b {
        "true"
    } else {
        "false"
    }
}

/// The JSON of a value.
pub fn value_to_json(value: &Value) -> (json: String)
    ensures
        json@ == value_json(*value),
    decreases value,
{
    match value {
        Value::Variable { name } => {
            let mut out = String::from_str("{\"kind\":\"Variable\",\"name\":");
            out.append(name_to_json(name).as_str());
            out.append("}");
            out
        },
        Value::Int { value } => {
            let mut out = String::from_str("{\"kind\":\"IntValue\",\"value\":\"");
            out.append(to_decimal(*value).as_str());
            out.append("\"}");
            out
        },
        Value::Float { value } => {
            let mut out = String::from_str("{\"kind\":\"FloatValue\",\"value\":");
            out.append(to_json_string(value.as_str()).as_str());
            out.append("}");
            out
        },
        Value::Object { fields } => {
            let mut out = String::from_str("{\"kind\":\"ObjectValue\",\"fields\":[");
            out.append(write_object_fields(fields).as_str());
            out.append("]}");
            out
        },
        Value::String { value, block } => {
            let mut out = String::from_str("{\"kind\":\"StringValue\",\"value\":");
            out.append(to_json_string(value.as_str()).as_str());
            out.append(",\"block\":");
            out.append(bool_to_json(*block));
            out.append("}");
            out
        },
        Value::List { values } => {
            let mut out = String::from_str("{\"kind\":\"ListValue\",\"values\":[");
            out.append(write_values(values).as_str());
            out.append("]}");
            out
        },
        Value::Boolean { value } => {
            let mut out = String::from_str("{\"kind\":\"BooleanValue\",\"value\":");
            out.append(bool_to_json(*value));
            out.append("}");
            out
        },
        Value::Null => String::from_str("{\"kind\":\"NullValue\"}"),
        Value::Enum { value } => {
            let mut out = String::from_str("{\"kind\":\"EnumValue\",\"value\":");
            out.append(to_json_string(value.as_str()).as_str());
            out.append("}");
            out
        },
    }
}

fn optional_value_to_json(value: &Option<Value>) -> (json: String)
    ensures
        json@ == optional_value_json(*value),
{
    match value {
        Some(v) => value_to_json(v),
        None => String::from_str("null"),
    }
}

fn object_field_to_json(field: &ObjectField) -> (json: String)
    ensures
        json@ == object_field_json(*field),
    decreases field,
{
    let mut out = String::from_str("{\"kind\":\"ObjectField\",\"name\":");
    out.append(name_to_json(&field.name).as_str());
    out.append(",\"value\":");
    out.append(value_to_json(&field.value).as_str());
    out.append("}");
    out
}

/// The JSON of an argument.
pub fn argument_to_json(argument: &Argument) -> (json: String)
    ensures
        json@ == argument_json(*argument),
{
    let mut out = String::from_str("{\"kind\":\"Argument\",\"name\":");
    out.append(name_to_json(&argument.name).as_str());
    out.append(",\"value\":");
    out.append(value_to_json(&argument.value).as_str());
    out.append("}");
    out
}

/// The JSON of a directive.
pub fn directive_to_json(directive: &Directive) -> (json: String)
    ensures
        json@ == directive_json(*directive),
{
    let mut out = String::from_str("{\"kind\":\"Directive\",\"name\":");
    out.append(name_to_json(&directive.name).as_str());
    out.append(",\"arguments\":[");
    out.append(write_arguments(&directive.arguments).as_str());
    out.append("]}");
    out
}

fn named_type_to_json(named: &NamedType) -> (json: String)
    ensures
        json@ == named_type_json(*named),
{
    let mut out = String::from_str("{\"kind\":\"NamedType\",\"name\":");
    out.append(name_to_json(&named.name).as_str());
    out.append("}");
    out
}

fn optional_named_type_to_json(named: &Option<NamedType>) -> (json: String)
    ensures
        json@ == optional_named_type_json(*named),
{
    match named {
        Some(n) => named_type_to_json(n),
        None => String::from_str("null"),
    }
}

/// The JSON of the type of a variable.
pub fn type_to_json(t: &Type) -> (json: String)
    ensures
        json@ == type_json(*t),
    decreases t,
{
    match t {
        Type::Named { name } => {
            let mut out = String::from_str("{\"kind\":\"NamedType\",\"name\":");
            out.append(name_to_json(name).as_str());
            out.append("}");
            out
        },
        Type::NonNull { value } => {
            let mut out = String::from_str("{\"kind\":\"NonNullType\",\"type\":");
            out.append(type_to_json(value).as_str());
            out.append("}");
            out
        },
        Type::List { value } => {
            let mut out = String::from_str("{\"kind\":\"ListType\",\"type\":");
            out.append(type_to_json(value).as_str());
            out.append("}");
            out
        },
    }
}

/// The JSON of the declaration of a variable.
pub fn variable_definition_to_json(definition: &VariableDefinition) -> (json: String)
    ensures
        json@ == variable_definition_json(*definition),
{
    let mut out = String::from_str(
        "{\"kind\":\"VariableDefinition\",\"variable\":{\"kind\":\"Variable\",\"name\":",
    );
    out.append(name_to_json(&definition.variable.name).as_str());
    out.append("},\"type\":");
    out.append(type_to_json(&definition.of_type).as_str());
    out.append(",\"defaultValue\":");
    out.append(optional_value_to_json(&definition.default_value).as_str());
    out.append(",\"directives\":[");
    out.append(write_directives(&definition.directives).as_str());
    out.append("]}");
    out
}

/// The JSON of a selection set.
pub fn selection_set_to_json(set: &SelectionSet) -> (json: String)
    ensures
        json@ == selection_set_json(*set),
    decreases set,
{
    let mut out = String::from_str("{\"kind\":\"SelectionSet\",\"selections\":[");
    out.append(write_selections(&set.selections).as_str());
    out.append("]}");
    out
}

/// The JSON of a selection.
pub fn selection_to_json(selection: &Selection) -> (json: String)
    ensures
        json@ == selection_json(*selection),
    decreases selection,
{
    match selection {
        Selection::Field(field) => {
            let mut out = String::from_str("{\"kind\":\"Field\",\"alias\":");
            out.append(optional_name_to_json(&field.alias).as_str());
            out.append(",\"name\":");
            out.append(name_to_json(&field.name).as_str());
            out.append(",\"arguments\":[");
            out.append(write_arguments(&field.arguments).as_str());
            out.append("],\"directives\":[");
            out.append(write_directives(&field.directives).as_str());
            out.append("],\"selectionSet\":");
            match &field.selection_set {
                Some(set) => out.append(selection_set_to_json(set).as_str()),
                None => out.append("null"),
            }
            out.append("}");
            out
        },
        Selection::InlineFragment(inline) => {
            let mut out = String::from_str("{\"kind\":\"InlineFragment\",\"typeCondition\":");
            out.append(optional_named_type_to_json(&inline.type_condition).as_str());
            out.append(",\"directives\":[");
            out.append(write_directives(&inline.directives).as_str());
            out.append("],\"selectionSet\":");
            out.append(selection_set_to_json(&inline.selection_set).as_str());
            out.append("}");
            out
        },
        Selection::FragmentSpread(spread) => {
            let mut out = String::from_str("{\"kind\":\"FragmentSpread\",\"name\":");
            out.append(name_to_json(&spread.name).as_str());
            out.append(",\"directives\":[");
            out.append(write_directives(&spread.directives).as_str());
            out.append("]}");
            out
        },
    }
}

fn operation_type_to_json(operation: OperationType) -> (json: &'static str)
    ensures
        json@ == operation_type_json(operation),
{
    match operation {
        OperationType::Query => "\"query\"",
        OperationType::Mutation => "\"mutation\"",
        OperationType::Subscription => "\"subscription\"",
    }
}

fn operation_to_json(operation: &Operation) -> (json: String)
    ensures
        json@ == operation_json(*operation),
{
    let mut out = String::from_str("{\"kind\":\"OperationDefinition\",\"operation\":");
    match operation {
        Operation::NamedOperation(named) => {
            out.append(operation_type_to_json(named.operation));
            out.append(",\"name\":");
            out.append(optional_name_to_json(&named.name).as_str());
            out.append(",\"variableDefinitions\":[");
            out.append(write_variable_definitions(&named.variable_definitions.0).as_str());
            out.append("],\"directives\":[");
            out.append(write_directives(&named.directives).as_str());
            out.append("],\"selectionSet\":");
            out.append(selection_set_to_json(&named.selection_set).as_str());
        },
        Operation::SelectionSet(set) => {
            out.append(operation_type_to_json(OperationType::Query));
            out.append(",\"name\":");
            out.append("null");
            out.append(",\"variableDefinitions\":[");
            out.append("],\"directives\":[");
            out.append("],\"selectionSet\":");
            out.append(selection_set_to_json(set).as_str());
        },
    }
    out.append("}");
    out
}

fn fragment_to_json(fragment: &Fragment) -> (json: String)
    ensures
        json@ == fragment_json(*fragment),
{
    let mut out = String::from_str("{\"kind\":\"FragmentDefinition\",\"name\":");
    out.append(name_to_json(&fragment.name).as_str());
    out.append(",\"typeCondition\":");
    out.append(named_type_to_json(&fragment.type_condition).as_str());
    out.append(",\"directives\":[");
    out.append(write_directives(&fragment.directives).as_str());
    out.append("],\"selectionSet\":");
    out.append(selection_set_to_json(&fragment.selection_set).as_str());
    out.append("}");
    out
}

/// The JSON of one definition.
pub fn definition_to_json(definition: &Definition) -> (json: String)
    ensures
        json@ == definition_json(*definition),
{
    match definition {
        Definition::Operation(operation) => operation_to_json(operation),
        Definition::Fragment(fragment) => fragment_to_json(fragment),
    }
}

/// The JSON of the document that holds `definition` alone.
pub fn single_definition_document(definition: &Definition) -> (json: String)
    ensures
        json@ == document_json(seq![*definition]),
{
    let mut out = String::from_str("{\"kind\":\"Document\",\"definitions\":[");
    out.append(definition_to_json(definition).as_str());
    out.append("]}");
    out
}

impl Document {
    /// The JSON form of the whole document.
    pub open spec fn spec_json(&self) -> Seq<char> {
        document_json(self.definitions@)
    }

    /// Writes the document as JSON.
    pub fn to_json(&self) -> (json: String)
        ensures
            json@ == self.spec_json(),
    {
        let mut out = String::from_str("{\"kind\":\"Document\",\"definitions\":[");
        out.append(write_definitions(&self.definitions).as_str());
        out.append("]}");
        out
    }
}

fn write_values(values: &Vec<Value>) -> (json: String)
    ensures
        json@ == values_json(values@),
    decreases values,
{
    let mut out = String::new();
    let mut i: usize = 0;
    while i < values.len()
        invariant
            i <= values.len(),
            out@ == values_json(values@.subrange(0, i as int)),
        decreases values.len() - i,
    {
        let item = value_to_json(&values[i]);
        if i > 0 {
            out.append(",");
        }
        out.append(item.as_str());
        proof {
            assert(values@.subrange(0, i + 1).subrange(0, i as int) == values@.subrange(
                0,
                i as int,
            ));
        }
        i += 1;
    }
    proof {
        assert(values@.subrange(0, i as int) == values@);
    }
    out
}

fn write_object_fields(fields: &Vec<ObjectField>) -> (json: String)
    ensures
        json@ == object_fields_json(fields@),
    decreases fields,
{
    let mut out = String::new();
    let mut i: usize = 0;
    while i < fields.len()
        invariant
            i <= fields.len(),
            out@ == object_fields_json(fields@.subrange(0, i as int)),
        decreases fields.len() - i,
    {
        let item = object_field_to_json(&fields[i]);
        if i > 0 {
            out.append(",");
        }
        out.append(item.as_str());
        proof {
            assert(fields@.subrange(0, i + 1).subrange(0, i as int) == fields@.subrange(
                0,
                i as int,
            ));
        }
        i += 1;
    }
    proof {
        assert(fields@.subrange(0, i as int) == fields@);
    }
    out
}

fn write_arguments(arguments: &Vec<Argument>) -> (json: String)
    ensures
        json@ == arguments_json(arguments@),
    decreases arguments,
{
    let mut out = String::new();
    let mut i: usize = 0;
    while i < arguments.len()
        invariant
            i <= arguments.len(),
            out@ == arguments_json(arguments@.subrange(0, i as int)),
        decreases arguments.len() - i,
    {
        let item = argument_to_json(&arguments[i]);
        if i > 0 {
            out.append(",");
        }
        out.append(item.as_str());
        proof {
            assert(arguments@.subrange(0, i + 1).subrange(0, i as int) == arguments@.subrange(
                0,
                i as int,
            ));
        }
        i += 1;
    }
    proof {
        assert(arguments@.subrange(0, i as int) == arguments@);
    }
    out
}

fn write_directives(directives: &Vec<Directive>) -> (json: String)
    ensures
        json@ == directives_json(directives@),
    decreases directives,
{
    let mut out = String::new();
    let mut i: usize = 0;
    while i < directives.len()
        invariant
            i <= directives.len(),
            out@ == directives_json(directives@.subrange(0, i as int)),
        decreases directives.len() - i,
    {
        let item = directive_to_json(&directives[i]);
        if i > 0 {
            out.append(",");
        }
        out.append(item.as_str());
        proof {
            assert(directives@.subrange(0, i + 1).subrange(0, i as int) == directives@.subrange(
                0,
                i as int,
            ));
        }
        i += 1;
    }
    proof {
        assert(directives@.subrange(0, i as int) == directives@);
    }
    out
}

fn write_variable_definitions(definitions: &Vec<VariableDefinition>) -> (json: String)
    ensures
        json@ == variable_definitions_json(definitions@),
    decreases definitions,
{
    let mut out = String::new();
    let mut i: usize = 0;
    while i < definitions.len()
        invariant
            i <= definitions.len(),
            out@ == variable_definitions_json(definitions@.subrange(0, i as int)),
        decreases definitions.len() - i,
    {
        let item = variable_definition_to_json(&definitions[i]);
        if i > 0 {
            out.append(",");
        }
        out.append(item.as_str());
        proof {
            assert(definitions@.subrange(0, i + 1).subrange(0, i as int) == definitions@.subrange(
                0,
                i as int,
            ));
        }
        i += 1;
    }
    proof {
        assert(definitions@.subrange(0, i as int) == definitions@);
    }
    out
}

fn write_selections(selections: &Vec<Selection>) -> (json: String)
    ensures
        json@ == selections_json(selections@),
    decreases selections,
{
    let mut out = String::new();
    let mut i: usize = 0;
    while i < selections.len()
        invariant
            i <= selections.len(),
            out@ == selections_json(selections@.subrange(0, i as int)),
        decreases selections.len() - i,
    {
        let item = selection_to_json(&selections[i]);
        if i > 0 {
            out.append(",");
        }
        out.append(item.as_str());
        proof {
            assert(selections@.subrange(0, i + 1).subrange(0, i as int) == selections@.subrange(
                0,
                i as int,
            ));
        }
        i += 1;
    }
    proof {
        assert(selections@.subrange(0, i as int) == selections@);
    }
    out
}

fn write_definitions(definitions: &Vec<Definition>) -> (json: String)
    ensures
        json@ == definitions_json(definitions@),
{
    let mut out = String::new();
    let mut i: usize = 0;
    while i < definitions.len()
        invariant
            i <= definitions.len(),
            out@ == definitions_json(definitions@.subrange(0, i as int)),
        decreases definitions.len() - i,
    {
        let item = definition_to_json(&definitions[i]);
        if i > 0 {
            out.append(",");
        }
        out.append(item.as_str());
        proof {
            assert(definitions@.subrange(0, i + 1).subrange(0, i as int) == definitions@.subrange(
                0,
                i as int,
            ));
        }
        i += 1;
    }
    proof {
        assert(definitions@.subrange(0, i as int) == definitions@);
    }
    out
}

} // verus!
