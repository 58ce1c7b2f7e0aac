use graft::gen::Buffer;
use graft::index::{IndexError, TypeIndex};
use graft::options::{ScalarNewtypes, TypescriptOptions};
use graft::schema::{EnumValue, Field, InputValue, NamedType, RootType, Schema, TypeRef, TypeRefContainer};
use graft::typescript::doc_comment::{Deprecable, DocComment};
use graft::typescript::graphql_type::{possibly_write_description, ScalarType, TypescriptableWithBuffer};
use graft::typescript::{Context, FragmentNames, ProjectionError, TypescriptName, Typescriptable};

fn to(name: &str) -> TypeRef {
    TypeRef::To { name: name.to_owned() }
}

fn non_null(of_type: TypeRef) -> TypeRef {
    TypeRef::Container(TypeRefContainer::NonNull { of_type: Box::new(of_type) })
}

fn list(of_type: TypeRef) -> TypeRef {
    TypeRef::Container(TypeRefContainer::List { of_type: Box::new(of_type) })
}

fn field(name: &str, description: Option<&str>, of_type: TypeRef) -> Field {
    Field {
        name: name.to_owned(),
        description: description.map(str::to_owned),
        args: vec![],
        of_type,
        is_deprecated: false,
        deprecation_reason: None,
    }
}

fn input(name: &str, description: Option<&str>, of_type: TypeRef) -> InputValue {
    InputValue {
        name: name.to_owned(),
        description: description.map(str::to_owned),
        of_type,
        default_value: None,
    }
}

fn value(name: &str, description: Option<&str>) -> EnumValue {
    EnumValue {
        name: name.to_owned(),
        description: description.map(str::to_owned),
        is_deprecated: false,
        deprecation_reason: None,
    }
}

fn scalar(name: &str, description: Option<&str>) -> NamedType {
    NamedType::Scalar { name: name.to_owned(), description: description.map(str::to_owned) }
}

fn schema(mut types: Vec<NamedType>) -> Schema {
    types.push(NamedType::Object {
        name: "Query".to_owned(),
        description: None,
        fields: vec![],
        interfaces: vec![],
    });
    Schema {
        types,
        query_type: RootType { name: "Query".to_owned() },
        mutation_type: None,
        subscription_type: None,
        directives: vec![],
    }
}

fn context<'a>(schema: &'a Schema, overrides: Option<ScalarNewtypes>) -> Context<'a> {
    let mut options = TypescriptOptions::default();
    options.scalar_newtypes = overrides;
    Context { index: TypeIndex::build(schema).unwrap(), options, fragments: FragmentNames::new() }
}

fn declare(types: Vec<NamedType>, name: &str) -> Result<String, ProjectionError> {
    let schema = schema(types);
    let ctx = context(&schema, None);
    let target = ctx.index.get(name).unwrap();
    ctx.with(target).as_typescript()
}

#[test]
fn the_built_in_scalars_have_their_typescript_types() {
    let declaration = |name: &str| declare(vec![scalar(name, None)], name).unwrap();
    assert_eq!(declaration("ID"), "export type IDScalar = NewType<string, \"ID\">;\n");
    assert_eq!(declaration("String"), "export type StringScalar = string;\n");
    assert_eq!(declaration("Int"), "export type IntScalar = number;\n");
    assert_eq!(declaration("Float"), "export type FloatScalar = number;\n");
    assert_eq!(declaration("Boolean"), "export type BooleanScalar = boolean;\n");
    assert_eq!(declaration("Date"), "export type DateScalar = NewType<unknown, \"Date\">;\n");
}

#[test]
fn a_custom_scalar_takes_the_type_that_the_options_choose() {
    let mut overrides = ScalarNewtypes::new();
    overrides.insert("Date".to_owned(), "Date | string".to_owned());
    overrides.insert("Int".to_owned(), "bigint".to_owned());
    assert_eq!(overrides.get("Date"), Some(&"Date | string".to_owned()));
    assert_eq!(overrides.get("Time"), None);
    let schema = schema(vec![scalar("Date", None), scalar("Int", None), scalar("Time", None)]);
    let ctx = context(&schema, Some(overrides));
    let declaration = |name: &str| ctx.with(ctx.index.get(name).unwrap()).as_typescript().unwrap();
    assert_eq!(declaration("Date"), "export type DateScalar = Date | string;\n");
    assert_eq!(declaration("Int"), "export type IntScalar = number;\n");
    assert_eq!(declaration("Time"), "export type TimeScalar = NewType<unknown, \"Time\">;\n");
    assert_eq!(ScalarType::new("Date".to_owned(), &ctx.options), ScalarType::Custom(Some("Date | string".to_owned())));
    assert_eq!(ScalarType::new("Time".to_owned(), &ctx.options), ScalarType::Custom(None));
    assert_eq!(ScalarType::new("ID".to_owned(), &ctx.options), ScalarType::ID);
    assert_eq!(ScalarType::new("String".to_owned(), &ctx.options), ScalarType::String);
    assert_eq!(ScalarType::new("Int".to_owned(), &ctx.options), ScalarType::Number);
    assert_eq!(ScalarType::new("Float".to_owned(), &ctx.options), ScalarType::Number);
    assert_eq!(ScalarType::new("Boolean".to_owned(), &ctx.options), ScalarType::Boolean);
    assert_eq!(ScalarType::Custom(None).typescript("Time"), "NewType<unknown, \"Time\">");
}

#[test]
fn a_description_becomes_a_doc_comment() {
    assert_eq!(
        declare(vec![scalar("Date", Some("A day."))], "Date").unwrap(),
        "/** A day. */\nexport type DateScalar = NewType<unknown, \"Date\">;\n"
    );
    assert_eq!(
        declare(vec![scalar("Date", Some("A day.\nNo time.\n"))], "Date").unwrap(),
        "/**\n * A day.\n * No time.\n * \n */\nexport type DateScalar = NewType<unknown, \"Date\">;\n"
    );
    let mut out = "before".to_owned();
    possibly_write_description(&mut out, &None);
    assert_eq!(out, "before");
    possibly_write_description(&mut out, &Some("one\ntwo".to_owned()));
    assert_eq!(out, "before/**\n * one\n * two\n */\n");
}

#[test]
fn an_object_lists_its_interfaces_and_its_fields() {
    let droid = NamedType::Object {
        name: "Droid".to_owned(),
        description: Some("A machine.".to_owned()),
        fields: vec![
            field("id", Some("Its number."), non_null(to("ID"))),
            field("friends", None, list(to("Character"))),
            field("kind", None, non_null(to("Kind"))),
        ],
        interfaces: vec![to("Character"), to("Node")],
    };
    let character = NamedType::Interface {
        name: "Character".to_owned(),
        description: None,
        fields: vec![field("id", None, non_null(to("ID")))],
        possible_types: vec![to("Droid")],
        interfaces: vec![to("Node")],
    };
    let node = NamedType::Interface {
        name: "Node".to_owned(),
        description: None,
        fields: vec![],
        possible_types: vec![],
        interfaces: vec![],
    };
    let kind = NamedType::Union { name: "Kind".to_owned(), description: None, possible_types: vec![] };
    let types = || vec![droid.clone(), character.clone(), node.clone(), kind.clone(), scalar("ID", None)];
    assert_eq!(
        declare(types(), "Droid").unwrap(),
        "/** A machine. */\nexport type Droid = CharacterInterface & NodeInterface & {\n/** Its number. */\n  id: IDScalar,\n  friends: Nullable<Nullable<CharacterInterface>[]>,\n  kind: KindUnion,\n}\n"
    );
    assert_eq!(
        declare(types(), "Character").unwrap(),
        "export type CharacterInterface = NodeInterface & {\n  id: IDScalar,\n}\n"
    );
    assert_eq!(declare(types(), "Node").unwrap(), "export type NodeInterface = {\n}\n");
}

#[test]
fn a_field_of_an_unknown_type_fails_the_declaration() {
    let droid = NamedType::Object {
        name: "Droid".to_owned(),
        description: None,
        fields: vec![field("id", None, non_null(to("ID"))), field("maker", None, to("Maker"))],
        interfaces: vec![],
    };
    assert_eq!(
        declare(vec![droid, scalar("ID", None)], "Droid"),
        Err(ProjectionError::Index(IndexError::UnknownType("Maker".to_owned())))
    );
}

#[test]
fn an_interface_reference_must_be_a_known_bare_name() {
    let wrapped = NamedType::Object {
        name: "Droid".to_owned(),
        description: None,
        fields: vec![],
        interfaces: vec![non_null(to("Query"))],
    };
    let error = declare(vec![wrapped], "Droid").unwrap_err();
    assert_eq!(error, ProjectionError::NotNamed { on: "Droid".to_owned() });
    assert_eq!(error.to_string(), "`Droid` refers to a wrapped type where a name is needed");
    let unknown = NamedType::Object {
        name: "Droid".to_owned(),
        description: None,
        fields: vec![field("maker", None, to("Maker"))],
        interfaces: vec![to("Character")],
    };
    assert_eq!(
        declare(vec![unknown], "Droid"),
        Err(ProjectionError::Index(IndexError::UnknownType("Character".to_owned())))
    );
}

#[test]
fn a_union_lists_its_members_by_name() {
    let union = |members: Vec<TypeRef>| NamedType::Union {
        name: "SearchResult".to_owned(),
        description: Some("What was found.".to_owned()),
        possible_types: members,
    };
    assert_eq!(
        declare(vec![union(vec![to("Droid"), to("Human"), to("Starship")])], "SearchResult").unwrap(),
        "/** What was found. */\nexport type SearchResultUnion = Droid | Human | Starship;\n"
    );
    assert_eq!(
        declare(vec![union(vec![to("Droid")])], "SearchResult").unwrap(),
        "/** What was found. */\nexport type SearchResultUnion = Droid;\n"
    );
    assert_eq!(
        declare(vec![union(vec![])], "SearchResult").unwrap(),
        "/** What was found. */\nexport type SearchResultUnion = ;\n"
    );
    assert_eq!(
        declare(vec![union(vec![to("Droid"), list(to("Human"))])], "SearchResult"),
        Err(ProjectionError::NotNamed { on: "SearchResult".to_owned() })
    );
}

#[test]
fn an_enum_binds_pascal_case_names_to_the_values_of_the_schema() {
    let episode = NamedType::Enum {
        name: "Episode".to_owned(),
        description: Some("A film.".to_owned()),
        enum_values: vec![
            value("NEW_HOPE", Some("The first.")),
            value("EMPIRE", None),
            value("return_of_the_jedi", None),
            value("theForceAwakens", None),
        ],
    };
    assert_eq!(
        declare(vec![episode], "Episode").unwrap(),
        "/** A film. */\nexport enum Episode {\n/** The first. */\n  NewHope = \"NEW_HOPE\",\n  Empire = \"EMPIRE\",\n  ReturnOfTheJedi = \"return_of_the_jedi\",\n  TheForceAwakens = \"theForceAwakens\",\n}\n"
    );
}

#[test]
fn an_input_object_marks_the_fields_that_may_be_left_out() {
    let filter = NamedType::InputObject {
        name: "Filter".to_owned(),
        description: None,
        input_fields: vec![
            input("name", Some("Part of the name."), non_null(to("String"))),
            input("episodes", None, list(non_null(to("String")))),
            input("nested", None, to("Filter")),
        ],
    };
    assert_eq!(
        declare(vec![filter, scalar("String", None)], "Filter").unwrap(),
        "export type Filter = {\n/** Part of the name. */\n  name: StringScalar,\n  episodes?: Nullable<StringScalar[]>,\n  nested?: Nullable<Filter>,\n}\n"
    );
}

#[test]
fn each_kind_is_written_to_the_section_of_its_kind() {
    let types = vec![
        scalar("Date", None),
        NamedType::Enum { name: "Episode".to_owned(), description: None, enum_values: vec![] },
        NamedType::Interface {
            name: "Node".to_owned(),
            description: None,
            fields: vec![],
            possible_types: vec![],
            interfaces: vec![],
        },
        NamedType::Union { name: "Hit".to_owned(), description: None, possible_types: vec![to("Query")] },
        NamedType::InputObject { name: "Filter".to_owned(), description: None, input_fields: vec![] },
        scalar("__Internal", None),
    ];
    let schema = schema(types);
    let ctx = context(&schema, None);
    let mut buffer = Buffer::new();
    for t in &schema.types {
        ctx.with(t).as_typescript_on(&mut buffer).unwrap();
    }
    assert_eq!(buffer.scalars, "export type DateScalar = NewType<unknown, \"Date\">;\n");
    assert_eq!(buffer.enums, "export enum Episode {\n}\n");
    assert_eq!(buffer.interfaces, "export type NodeInterface = {\n}\n");
    assert_eq!(buffer.unions, "export type HitUnion = Query;\n");
    assert_eq!(buffer.input_objects, "export type Filter = {\n}\n");
    assert_eq!(buffer.objects, "export type Query = {\n}\n");
    assert_eq!(buffer.imports, "");
    assert_eq!(buffer.selection_sets, "");
}

#[test]
fn a_failing_declaration_leaves_the_buffer_as_it_was() {
    let broken = NamedType::Object {
        name: "Droid".to_owned(),
        description: None,
        fields: vec![field("maker", None, to("Maker"))],
        interfaces: vec![],
    };
    let schema = schema(vec![broken]);
    let ctx = context(&schema, None);
    let mut buffer = Buffer::new();
    buffer.objects.push_str("kept");
    assert!(ctx.with(&schema.types[0]).as_typescript_on(&mut buffer).is_err());
    assert_eq!(buffer.objects, "kept");
}

#[test]
fn named_types_have_their_typescript_names() {
    assert_eq!(scalar("Date", None).typescript_name(), "DateScalar");
    let node = NamedType::Interface {
        name: "Node".to_owned(),
        description: None,
        fields: vec![],
        possible_types: vec![],
        interfaces: vec![],
    };
    assert_eq!(node.typescript_name(), "NodeInterface");
    let hit = NamedType::Union { name: "Hit".to_owned(), description: None, possible_types: vec![] };
    assert_eq!(hit.typescript_name(), "HitUnion");
    let episode = NamedType::Enum { name: "Episode".to_owned(), description: None, enum_values: vec![] };
    assert_eq!(episode.typescript_name(), "Episode");
}

#[test]
fn doc_comments_carry_the_deprecation_notice() {
    assert_eq!(DocComment::maybe_new(false, None, None), None);
    assert_eq!(DocComment::maybe_new(false, Some("unused".to_owned()), None), None);
    assert_eq!(
        DocComment::maybe_new(false, None, Some("A name.".to_owned())),
        Some(DocComment(Deprecable::Description("A name.".to_owned())))
    );
    let described = DocComment::maybe_new(false, None, Some("A name.".to_owned())).unwrap();
    assert_eq!(described.to_string(), "/* A name. */");
    let bare = DocComment::maybe_new(true, None, None).unwrap();
    assert_eq!(bare, DocComment(Deprecable::Deprecated { message: None, description: None }));
    assert_eq!(bare.to_string(), "/* @deprecated */");
    let reasoned = DocComment::maybe_new(true, Some("Use `id`.".to_owned()), None).unwrap();
    assert_eq!(reasoned.to_string(), "/* @deprecated Use `id`. */");
    let full = DocComment::maybe_new(true, Some("Use `id`.".to_owned()), Some("A name.".to_owned())).unwrap();
    assert_eq!(full.0.text(), "@deprecated Use `id`.\n\nA name.");
    assert_eq!(full.to_string(), "/**\n * @deprecated Use `id`.\n * \n * A name.\n */");
}
