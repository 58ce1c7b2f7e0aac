use graft::json::{
    argument_to_json, definition_to_json, directive_to_json, name_to_json, selection_set_to_json,
    selection_to_json, single_definition_document, type_to_json, value_to_json,
    variable_definition_to_json,
};
use graft::query::{
    Argument, Definition, Directive, Document, Field, Fragment, FragmentSpread, InlineFragment,
    Name, NamedOperation, NamedType, ObjectField, Operation, OperationType, Selection,
    SelectionSet, Type, Value, Variable, VariableDefinition, VariableDefinitions,
};
use graft::text::to_decimal;

fn name(value: &str) -> Name {
    Name(value.to_owned())
}

fn parsed(json: &str) -> serde_json::Value {
    serde_json::from_str(json).unwrap()
}

#[test]
fn query_deserialize_name() {
    let written = name_to_json(&name("queryName"));
    assert_eq!(written, "{\"kind\":\"Name\",\"value\":\"queryName\"}");
    assert_eq!(parsed(&written), parsed("{ \"kind\": \"Name\", \"value\": \"queryName\" }"));
}

#[test]
fn query_deserialize_variable_definition() {
    let definition = VariableDefinition {
        variable: Variable { name: name("input") },
        of_type: Type::Named { name: name("StoryLikeSubscribeInput") },
        default_value: None,
        directives: vec![],
    };
    let written = variable_definition_to_json(&definition);
    let expected = "{
          \"kind\": \"VariableDefinition\",
          \"variable\": {
            \"kind\": \"Variable\",
            \"name\": {
              \"kind\": \"Name\",
              \"value\": \"input\"
            }
          },
          \"type\": {
            \"kind\": \"NamedType\",
            \"name\": {
              \"kind\": \"Name\",
              \"value\": \"StoryLikeSubscribeInput\"
            }
          },
          \"directives\": [],
          \"defaultValue\": null
        }";
    assert_eq!(parsed(&written), parsed(expected));
    assert_eq!(
        written,
        "{\"kind\":\"VariableDefinition\",\"variable\":{\"kind\":\"Variable\",\"name\":{\"kind\":\"Name\",\"value\":\"input\"}},\"type\":{\"kind\":\"NamedType\",\"name\":{\"kind\":\"Name\",\"value\":\"StoryLikeSubscribeInput\"}},\"defaultValue\":null,\"directives\":[]}"
    );
}

#[test]
fn names_are_written_as_json_strings_with_their_escapes() {
    assert_eq!(
        name_to_json(&name("a \"quoted\" \\ name\nwith a line")),
        "{\"kind\":\"Name\",\"value\":\"a \\\"quoted\\\" \\\\ name\\nwith a line\"}"
    );
    assert_eq!(name_to_json(&name("")), "{\"kind\":\"Name\",\"value\":\"\"}");
    assert_eq!(name_to_json(&name("é")), "{\"kind\":\"Name\",\"value\":\"é\"}");
}

#[test]
fn every_kind_of_value_has_its_node() {
    let json = |value: Value| value_to_json(&value);
    assert_eq!(
        json(Value::Variable { name: name("id") }),
        "{\"kind\":\"Variable\",\"name\":{\"kind\":\"Name\",\"value\":\"id\"}}"
    );
    assert_eq!(json(Value::Int { value: 42 }), "{\"kind\":\"IntValue\",\"value\":\"42\"}");
    assert_eq!(json(Value::Int { value: -7 }), "{\"kind\":\"IntValue\",\"value\":\"-7\"}");
    assert_eq!(json(Value::Float { value: "1.5".to_owned() }), "{\"kind\":\"FloatValue\",\"value\":\"1.5\"}");
    assert_eq!(
        json(Value::String { value: "say \"hi\"".to_owned(), block: true }),
        "{\"kind\":\"StringValue\",\"value\":\"say \\\"hi\\\"\",\"block\":true}"
    );
    assert_eq!(
        json(Value::String { value: String::new(), block: false }),
        "{\"kind\":\"StringValue\",\"value\":\"\",\"block\":false}"
    );
    assert_eq!(json(Value::Boolean { value: true }), "{\"kind\":\"BooleanValue\",\"value\":true}");
    assert_eq!(json(Value::Boolean { value: false }), "{\"kind\":\"BooleanValue\",\"value\":false}");
    assert_eq!(json(Value::Null), "{\"kind\":\"NullValue\"}");
    assert_eq!(json(Value::Enum { value: "JEDI".to_owned() }), "{\"kind\":\"EnumValue\",\"value\":\"JEDI\"}");
    assert_eq!(json(Value::List { values: vec![] }), "{\"kind\":\"ListValue\",\"values\":[]}");
    assert_eq!(
        json(Value::List { values: vec![Value::Null, Value::Int { value: 0 }, Value::List { values: vec![Value::Null] }] }),
        "{\"kind\":\"ListValue\",\"values\":[{\"kind\":\"NullValue\"},{\"kind\":\"IntValue\",\"value\":\"0\"},{\"kind\":\"ListValue\",\"values\":[{\"kind\":\"NullValue\"}]}]}"
    );
    assert_eq!(json(Value::Object { fields: vec![] }), "{\"kind\":\"ObjectValue\",\"fields\":[]}");
    assert_eq!(
        json(Value::Object {
            fields: vec![
                ObjectField { name: name("a"), value: Value::Null },
                ObjectField { name: name("b"), value: Value::Boolean { value: true } },
            ],
        }),
        "{\"kind\":\"ObjectValue\",\"fields\":[{\"kind\":\"ObjectField\",\"name\":{\"kind\":\"Name\",\"value\":\"a\"},\"value\":{\"kind\":\"NullValue\"}},{\"kind\":\"ObjectField\",\"name\":{\"kind\":\"Name\",\"value\":\"b\"},\"value\":{\"kind\":\"BooleanValue\",\"value\":true}}]}"
    );
}

#[test]
fn integers_are_written_in_decimal() {
    assert_eq!(to_decimal(0), "0");
    assert_eq!(to_decimal(7), "7");
    assert_eq!(to_decimal(10), "10");
    assert_eq!(to_decimal(1234567890), "1234567890");
    assert_eq!(to_decimal(-1), "-1");
    assert_eq!(to_decimal(-120), "-120");
    assert_eq!(to_decimal(i64::MAX), "9223372036854775807");
    assert_eq!(to_decimal(i64::MIN), "-9223372036854775808");
    for i in [-1001i64, -99, 5, 19, 100, 65536, 999999999999] {
        assert_eq!(to_decimal(i), i.to_string());
    }
}

#[test]
fn types_are_written_wrapper_by_wrapper() {
    let named = || Type::Named { name: name("ID") };
    assert_eq!(type_to_json(&named()), "{\"kind\":\"NamedType\",\"name\":{\"kind\":\"Name\",\"value\":\"ID\"}}");
    assert_eq!(
        type_to_json(&Type::NonNull { value: Box::new(Type::List { value: Box::new(named()) }) }),
        "{\"kind\":\"NonNullType\",\"type\":{\"kind\":\"ListType\",\"type\":{\"kind\":\"NamedType\",\"name\":{\"kind\":\"Name\",\"value\":\"ID\"}}}}"
    );
}

#[test]
fn arguments_and_directives_have_their_nodes() {
    let argument = || Argument { name: name("if"), value: Value::Boolean { value: true } };
    assert_eq!(
        argument_to_json(&argument()),
        "{\"kind\":\"Argument\",\"name\":{\"kind\":\"Name\",\"value\":\"if\"},\"value\":{\"kind\":\"BooleanValue\",\"value\":true}}"
    );
    assert_eq!(
        directive_to_json(&Directive { name: name("skip"), arguments: vec![argument(), argument()] }),
        format!(
            "{{\"kind\":\"Directive\",\"name\":{{\"kind\":\"Name\",\"value\":\"skip\"}},\"arguments\":[{},{}]}}",
            argument_to_json(&argument()),
            argument_to_json(&argument())
        )
    );
    assert_eq!(
        directive_to_json(&Directive { name: name("defer"), arguments: vec![] }),
        "{\"kind\":\"Directive\",\"name\":{\"kind\":\"Name\",\"value\":\"defer\"},\"arguments\":[]}"
    );
}

fn field(alias: Option<&str>, field_name: &str, selection_set: Option<SelectionSet>) -> Selection {
    Selection::Field(Field {
        alias: alias.map(name),
        name: name(field_name),
        arguments: vec![],
        directives: vec![],
        selection_set,
    })
}

#[test]
fn selections_have_their_nodes() {
    assert_eq!(
        selection_to_json(&field(None, "id", None)),
        "{\"kind\":\"Field\",\"alias\":null,\"name\":{\"kind\":\"Name\",\"value\":\"id\"},\"arguments\":[],\"directives\":[],\"selectionSet\":null}"
    );
    assert_eq!(
        selection_to_json(&field(Some("key"), "id", Some(SelectionSet { selections: vec![] }))),
        "{\"kind\":\"Field\",\"alias\":{\"kind\":\"Name\",\"value\":\"key\"},\"name\":{\"kind\":\"Name\",\"value\":\"id\"},\"arguments\":[],\"directives\":[],\"selectionSet\":{\"kind\":\"SelectionSet\",\"selections\":[]}}"
    );
    assert_eq!(
        selection_to_json(&Selection::FragmentSpread(FragmentSpread { name: name("parts"), directives: vec![] })),
        "{\"kind\":\"FragmentSpread\",\"name\":{\"kind\":\"Name\",\"value\":\"parts\"},\"directives\":[]}"
    );
    assert_eq!(
        selection_to_json(&Selection::InlineFragment(InlineFragment {
            type_condition: Some(NamedType { name: name("Droid") }),
            directives: vec![],
            selection_set: SelectionSet { selections: vec![] },
        })),
        "{\"kind\":\"InlineFragment\",\"typeCondition\":{\"kind\":\"NamedType\",\"name\":{\"kind\":\"Name\",\"value\":\"Droid\"}},\"directives\":[],\"selectionSet\":{\"kind\":\"SelectionSet\",\"selections\":[]}}"
    );
    assert_eq!(
        selection_to_json(&Selection::InlineFragment(InlineFragment {
            type_condition: None,
            directives: vec![],
            selection_set: SelectionSet { selections: vec![] },
        })),
        "{\"kind\":\"InlineFragment\",\"typeCondition\":null,\"directives\":[],\"selectionSet\":{\"kind\":\"SelectionSet\",\"selections\":[]}}"
    );
    let two = SelectionSet { selections: vec![field(None, "a", None), field(None, "b", None)] };
    assert_eq!(
        selection_set_to_json(&two),
        format!(
            "{{\"kind\":\"SelectionSet\",\"selections\":[{},{}]}}",
            selection_to_json(&field(None, "a", None)),
            selection_to_json(&field(None, "b", None))
        )
    );
}

fn query(operation: OperationType, operation_name: Option<&str>) -> Definition {
    Definition::Operation(Operation::NamedOperation(NamedOperation {
        operation,
        name: operation_name.map(name),
        variable_definitions: VariableDefinitions(vec![]),
        directives: vec![],
        selection_set: SelectionSet { selections: vec![] },
    }))
}

#[test]
fn definitions_have_their_nodes() {
    assert_eq!(
        definition_to_json(&query(OperationType::Query, Some("Q"))),
        "{\"kind\":\"OperationDefinition\",\"operation\":\"query\",\"name\":{\"kind\":\"Name\",\"value\":\"Q\"},\"variableDefinitions\":[],\"directives\":[],\"selectionSet\":{\"kind\":\"SelectionSet\",\"selections\":[]}}"
    );
    assert_eq!(
        definition_to_json(&query(OperationType::Mutation, None)),
        "{\"kind\":\"OperationDefinition\",\"operation\":\"mutation\",\"name\":null,\"variableDefinitions\":[],\"directives\":[],\"selectionSet\":{\"kind\":\"SelectionSet\",\"selections\":[]}}"
    );
    assert!(definition_to_json(&query(OperationType::Subscription, None)).contains("\"operation\":\"subscription\""));
    let bare = Definition::Operation(Operation::SelectionSet(SelectionSet { selections: vec![] }));
    assert_eq!(
        definition_to_json(&bare),
        "{\"kind\":\"OperationDefinition\",\"operation\":\"query\",\"name\":null,\"variableDefinitions\":[],\"directives\":[],\"selectionSet\":{\"kind\":\"SelectionSet\",\"selections\":[]}}"
    );
    let fragment = Definition::Fragment(Fragment {
        name: name("parts"),
        type_condition: NamedType { name: name("Droid") },
        directives: vec![],
        selection_set: SelectionSet { selections: vec![] },
    });
    assert_eq!(
        definition_to_json(&fragment),
        "{\"kind\":\"FragmentDefinition\",\"name\":{\"kind\":\"Name\",\"value\":\"parts\"},\"typeCondition\":{\"kind\":\"NamedType\",\"name\":{\"kind\":\"Name\",\"value\":\"Droid\"}},\"directives\":[],\"selectionSet\":{\"kind\":\"SelectionSet\",\"selections\":[]}}"
    );
}

#[test]
fn a_document_is_the_list_of_its_definitions() {
    assert_eq!(Document::new(vec![]).to_json(), "{\"kind\":\"Document\",\"definitions\":[]}");
    let one = query(OperationType::Query, Some("Q"));
    assert_eq!(
        single_definition_document(&one),
        format!("{{\"kind\":\"Document\",\"definitions\":[{}]}}", definition_to_json(&one))
    );
    let document = Document::new(vec![query(OperationType::Query, Some("A")), query(OperationType::Query, Some("B"))]);
    assert_eq!(
        document.to_json(),
        format!(
            "{{\"kind\":\"Document\",\"definitions\":[{},{}]}}",
            definition_to_json(&query(OperationType::Query, Some("A"))),
            definition_to_json(&query(OperationType::Query, Some("B")))
        )
    );
    let value: serde_json::Value = serde_json::from_str(&document.to_json()).unwrap();
    assert_eq!(value["kind"], "Document");
    assert_eq!(value["definitions"][1]["name"]["value"], "B");
}
