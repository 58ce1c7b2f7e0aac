use graft::introspection::{Data, Response, ResponseError};
use graft::schema::from_document::SchemaError;
use graft::schema::{
    Directive, DirectiveLocation, EnumValue, Field, InputValue, NamedType, RootType, Schema,
    TypeRef, TypeRefContainer,
};
use graft::syntax;
use graft::syntax::schema as written;

fn to(name: &str) -> TypeRef {
    TypeRef::To { name: name.to_owned() }
}

fn non_null(of_type: TypeRef) -> TypeRef {
    TypeRef::Container(TypeRefContainer::NonNull { of_type: Box::new(of_type) })
}

fn list(of_type: TypeRef) -> TypeRef {
    TypeRef::Container(TypeRefContainer::List { of_type: Box::new(of_type) })
}

fn named(name: &str) -> syntax::Type {
    syntax::Type::NamedType(name.to_owned())
}

fn required(inner: syntax::Type) -> syntax::Type {
    syntax::Type::NonNullType(Box::new(inner))
}

fn listed(inner: syntax::Type) -> syntax::Type {
    syntax::Type::ListType(Box::new(inner))
}

fn roots(query: Option<&str>, mutation: Option<&str>) -> written::Definition {
    written::Definition::SchemaDefinition(written::SchemaDefinition {
        query: query.map(str::to_owned),
        mutation: mutation.map(str::to_owned),
        subscription: None,
    })
}

fn droid_definition() -> written::TypeDefinition {
    written::TypeDefinition::Object {
        description: Some("A machine.".to_owned()),
        name: "Droid".to_owned(),
        implements_interfaces: vec!["Character".to_owned()],
        fields: vec![written::Field {
            description: None,
            name: "friends".to_owned(),
            arguments: vec![written::InputValue {
                description: Some("How many.".to_owned()),
                name: "first".to_owned(),
                value_type: required(named("Int")),
            }],
            field_type: listed(required(named("Character"))),
        }],
    }
}

fn droid() -> NamedType {
    NamedType::Object {
        name: "Droid".to_owned(),
        description: Some("A machine.".to_owned()),
        fields: vec![Field {
            name: "friends".to_owned(),
            description: None,
            args: vec![InputValue {
                name: "first".to_owned(),
                description: Some("How many.".to_owned()),
                of_type: non_null(to("Int")),
                default_value: None,
            }],
            of_type: list(non_null(to("Character"))),
            is_deprecated: false,
            deprecation_reason: None,
        }],
        interfaces: vec![to("Character")],
    }
}

#[test]
fn written_types_become_type_references() {
    assert_eq!(TypeRef::try_from(&named("ID")), Ok(to("ID")));
    assert_eq!(
        TypeRef::try_from(&required(listed(required(named("ID"))))),
        Ok(non_null(list(non_null(to("ID")))))
    );
    assert_eq!(
        TypeRef::try_from(&required(required(named("ID")))),
        Err(SchemaError::NonNullInsideNonNull)
    );
    assert_eq!(
        TypeRef::try_from(&listed(listed(required(required(named("ID")))))),
        Err(SchemaError::NonNullInsideNonNull)
    );
    assert_eq!(
        SchemaError::NonNullInsideNonNull.to_string(),
        "a non-null type cannot contain a non-null type"
    );
}

#[test]
fn every_kind_of_type_definition_is_taken_in() {
    assert_eq!(NamedType::try_from(&droid_definition()), Ok(droid()));
    assert_eq!(
        NamedType::try_from(&written::TypeDefinition::Scalar { description: None, name: "Date".to_owned() }),
        Ok(NamedType::Scalar { name: "Date".to_owned(), description: None })
    );
    assert_eq!(
        NamedType::try_from(&written::TypeDefinition::Interface {
            description: None,
            name: "Character".to_owned(),
            implements_interfaces: vec!["Node".to_owned()],
            fields: vec![],
        }),
        Ok(NamedType::Interface {
            name: "Character".to_owned(),
            description: None,
            fields: vec![],
            possible_types: vec![],
            interfaces: vec![to("Node")],
        })
    );
    assert_eq!(
        NamedType::try_from(&written::TypeDefinition::Union {
            description: None,
            name: "Hit".to_owned(),
            types: vec!["Droid".to_owned(), "Human".to_owned()],
        }),
        Ok(NamedType::Union {
            name: "Hit".to_owned(),
            description: None,
            possible_types: vec![to("Droid"), to("Human")],
        })
    );
    assert_eq!(
        NamedType::try_from(&written::TypeDefinition::Enum {
            description: None,
            name: "Episode".to_owned(),
            values: vec![written::EnumValue { description: Some("The first.".to_owned()), name: "NEW_HOPE".to_owned() }],
        }),
        Ok(NamedType::Enum {
            name: "Episode".to_owned(),
            description: None,
            enum_values: vec![EnumValue {
                name: "NEW_HOPE".to_owned(),
                description: Some("The first.".to_owned()),
                is_deprecated: false,
                deprecation_reason: None,
            }],
        })
    );
    assert_eq!(
        NamedType::try_from(&written::TypeDefinition::InputObject {
            description: None,
            name: "Filter".to_owned(),
            fields: vec![written::InputValue { description: None, name: "name".to_owned(), value_type: named("String") }],
        }),
        Ok(NamedType::InputObject {
            name: "Filter".to_owned(),
            description: None,
            input_fields: vec![InputValue {
                name: "name".to_owned(),
                description: None,
                of_type: to("String"),
                default_value: None,
            }],
        })
    );
}

#[test]
fn a_type_definition_with_a_doubly_non_null_type_is_refused() {
    let broken = written::TypeDefinition::Object {
        description: None,
        name: "Droid".to_owned(),
        implements_interfaces: vec![],
        fields: vec![written::Field {
            description: None,
            name: "friends".to_owned(),
            arguments: vec![written::InputValue {
                description: None,
                name: "first".to_owned(),
                value_type: required(required(named("Int"))),
            }],
            field_type: named("Character"),
        }],
    };
    assert_eq!(NamedType::try_from(&broken), Err(SchemaError::NonNullInsideNonNull));
}

#[test]
fn a_schema_is_gathered_from_its_definitions() {
    let document = written::Document {
        definitions: vec![
            written::Definition::TypeDefinition(droid_definition()),
            roots(Some("Query"), Some("Mutation")),
            written::Definition::DirectiveDefinition(written::DirectiveDefinition {
                description: None,
                name: "live".to_owned(),
                arguments: vec![written::InputValue {
                    description: None,
                    name: "if".to_owned(),
                    value_type: named("Boolean"),
                }],
                locations: vec![DirectiveLocation::Query, DirectiveLocation::Field],
            }),
            written::Definition::TypeDefinition(written::TypeDefinition::Scalar {
                description: None,
                name: "Int".to_owned(),
            }),
        ],
    };
    let schema = Schema::try_from(&document).unwrap();
    assert_eq!(
        schema,
        Schema {
            types: vec![droid(), NamedType::Scalar { name: "Int".to_owned(), description: None }],
            query_type: RootType { name: "Query".to_owned() },
            mutation_type: Some(RootType { name: "Mutation".to_owned() }),
            subscription_type: None,
            directives: vec![Directive {
                description: None,
                name: "live".to_owned(),
                locations: vec![DirectiveLocation::Query, DirectiveLocation::Field],
                args: vec![InputValue {
                    name: "if".to_owned(),
                    description: None,
                    of_type: to("Boolean"),
                    default_value: None,
                }],
            }],
        }
    );
}

#[test]
fn a_document_without_a_query_type_is_refused() {
    let empty = written::Document { definitions: vec![] };
    assert_eq!(Schema::try_from(&empty), Err(SchemaError::QueryTypeNotSet));
    let unnamed = written::Document { definitions: vec![roots(None, Some("Mutation"))] };
    assert_eq!(Schema::try_from(&unnamed), Err(SchemaError::QueryTypeNotSet));
    assert_eq!(SchemaError::QueryTypeNotSet.to_string(), "the schema names no query type");
}

#[test]
fn a_second_schema_block_is_refused_once_the_query_type_is_named() {
    let twice = written::Document { definitions: vec![roots(Some("Query"), None), roots(Some("Root"), None)] };
    assert_eq!(Schema::try_from(&twice), Err(SchemaError::SchemaDefinedTwice));
    assert_eq!(SchemaError::SchemaDefinedTwice.to_string(), "the schema is defined more than once");
    let late = written::Document { definitions: vec![roots(None, Some("Mutation")), roots(Some("Query"), None)] };
    let schema = Schema::try_from(&late).unwrap();
    assert_eq!(schema.query_type, RootType { name: "Query".to_owned() });
    assert_eq!(schema.mutation_type, None);
}

#[test]
fn a_type_extension_is_refused() {
    let extended = written::Document {
        definitions: vec![roots(Some("Query"), None), written::Definition::TypeExtension],
    };
    assert_eq!(Schema::try_from(&extended), Err(SchemaError::TypeExtensionUnsupported));
    assert_eq!(SchemaError::TypeExtensionUnsupported.to_string(), "type extensions are not supported");
}

#[test]
fn the_first_definition_that_is_refused_decides() {
    let document = written::Document {
        definitions: vec![
            written::Definition::TypeExtension,
            written::Definition::TypeDefinition(written::TypeDefinition::InputObject {
                description: None,
                name: "Filter".to_owned(),
                fields: vec![written::InputValue {
                    description: None,
                    name: "name".to_owned(),
                    value_type: required(required(named("String"))),
                }],
            }),
        ],
    };
    assert_eq!(Schema::try_from(&document), Err(SchemaError::TypeExtensionUnsupported));
}

fn round_trip_schema() -> Schema {
    Schema {
        types: vec![
            NamedType::Object {
                name: "Query".to_owned(),
                description: None,
                fields: vec![Field {
                    name: "droid".to_owned(),
                    description: Some("One droid.".to_owned()),
                    args: vec![InputValue {
                        name: "id".to_owned(),
                        description: None,
                        of_type: non_null(to("ID")),
                        default_value: None,
                    }],
                    of_type: to("Droid"),
                    is_deprecated: false,
                    deprecation_reason: None,
                }],
                interfaces: vec![],
            },
            droid(),
            NamedType::Scalar { name: "__Internal".to_owned(), description: None },
            NamedType::Interface {
                name: "Character".to_owned(),
                description: None,
                fields: vec![],
                possible_types: vec![to("Droid")],
                interfaces: vec![],
            },
            NamedType::Union {
                name: "Hit".to_owned(),
                description: None,
                possible_types: vec![to("Droid")],
            },
            NamedType::Enum {
                name: "Episode".to_owned(),
                description: None,
                enum_values: vec![EnumValue {
                    name: "JEDI".to_owned(),
                    description: None,
                    is_deprecated: false,
                    deprecation_reason: None,
                }],
            },
            NamedType::InputObject {
                name: "Filter".to_owned(),
                description: None,
                input_fields: vec![InputValue {
                    name: "names".to_owned(),
                    description: None,
                    of_type: list(non_null(to("String"))),
                    default_value: None,
                }],
            },
            NamedType::Scalar { name: "ID".to_owned(), description: Some("An identifier.".to_owned()) },
        ],
        query_type: RootType { name: "Query".to_owned() },
        mutation_type: None,
        subscription_type: Some(RootType { name: "Subscription".to_owned() }),
        directives: vec![],
    }
}

#[test]
fn a_schema_is_written_down_type_by_type_with_the_schema_block_last() {
    let schema = round_trip_schema();
    let document = written::Document::from(&schema);
    assert_eq!(document.definitions.len(), 8);
    assert_eq!(document.definitions[1], written::Definition::TypeDefinition(droid_definition()));
    assert_eq!(
        document.definitions[7],
        written::Definition::SchemaDefinition(written::SchemaDefinition {
            query: Some("Query".to_owned()),
            mutation: None,
            subscription: Some("Subscription".to_owned()),
        })
    );
    assert_eq!(written::TypeDefinition::from(&droid()), droid_definition());
    assert_eq!(
        syntax::Type::from(&non_null(list(to("ID")))),
        required(listed(named("ID")))
    );
}

#[test]
fn interfaces_and_members_that_are_wrapped_are_not_written() {
    let union = NamedType::Union {
        name: "Hit".to_owned(),
        description: None,
        possible_types: vec![to("Droid"), list(to("Human")), to("Starship")],
    };
    assert_eq!(
        written::TypeDefinition::from(&union),
        written::TypeDefinition::Union {
            description: None,
            name: "Hit".to_owned(),
            types: vec!["Droid".to_owned(), "Starship".to_owned()],
        }
    );
}

#[test]
fn a_schema_written_down_and_read_back_is_the_same_schema() {
    let schema = round_trip_schema();
    let back = Schema::try_from(&written::Document::from(&schema)).unwrap();
    let mut expected = round_trip_schema();
    expected.types.remove(2);
    assert_eq!(back, expected);
    let again = Schema::try_from(&written::Document::from(&back)).unwrap();
    assert_eq!(again, back);
}

#[test]
fn a_schema_with_a_doubly_non_null_reference_cannot_be_read_back() {
    let mut schema = round_trip_schema();
    schema.types.push(NamedType::InputObject {
        name: "Broken".to_owned(),
        description: None,
        input_fields: vec![InputValue {
            name: "name".to_owned(),
            description: None,
            of_type: non_null(non_null(to("String"))),
            default_value: None,
        }],
    });
    assert_eq!(
        Schema::try_from(&written::Document::from(&schema)),
        Err(SchemaError::NonNullInsideNonNull)
    );
}

#[test]
fn an_introspection_answer_gives_its_schema_unless_it_has_none() {
    let data = || Data { schema: round_trip_schema() };
    assert_eq!(Response::Successful { data: data() }.schema(), Ok(round_trip_schema()));
    assert_eq!(Response::Successful { data: data() }.errors(), None);
    let partial = Response::Error { data: Some(data()), errors: "[\"slow\"]".to_owned() };
    assert_eq!(partial.errors(), Some(&"[\"slow\"]".to_owned()));
    assert_eq!(partial.schema(), Ok(round_trip_schema()));
    let failed = Response::Error { data: None, errors: "[\"denied\"]".to_owned() };
    let error = failed.schema().unwrap_err();
    assert_eq!(error, ResponseError { errors: "[\"denied\"]".to_owned() });
    assert_eq!(error.to_string(), "GraphQL error: [\"denied\"]");
}

#[test]
fn an_interface_gets_the_objects_that_implement_it() {
    let object = |name: &str, implements: Vec<&str>| {
        written::Definition::TypeDefinition(written::TypeDefinition::Object {
            description: None,
            name: name.to_owned(),
            implements_interfaces: implements.into_iter().map(str::to_owned).collect(),
            fields: vec![],
        })
    };
    let interface = |name: &str, implements: Vec<&str>| {
        written::Definition::TypeDefinition(written::TypeDefinition::Interface {
            description: None,
            name: name.to_owned(),
            implements_interfaces: implements.into_iter().map(str::to_owned).collect(),
            fields: vec![],
        })
    };
    let document = written::Document {
        definitions: vec![
            object("Droid", vec!["Node", "Character"]),
            interface("Character", vec!["Node"]),
            roots(Some("Query"), None),
            interface("Node", vec![]),
            object("Human", vec!["Character"]),
            interface("Lonely", vec![]),
            object("Query", vec![]),
        ],
    };
    let schema = Schema::try_from(&document).unwrap();
    let members = |name: &str| {
        schema.types.iter().find(|t| t.name() == name).unwrap().possible_types().to_vec()
    };
    assert_eq!(members("Character"), vec![to("Droid"), to("Human")]);
    assert_eq!(members("Node"), vec![to("Droid")]);
    assert_eq!(members("Lonely"), vec![]);
    let alone = NamedType::try_from(&written::TypeDefinition::Interface {
        description: None,
        name: "Character".to_owned(),
        implements_interfaces: vec![],
        fields: vec![],
    })
    .unwrap();
    assert!(alone.possible_types().is_empty());
}
