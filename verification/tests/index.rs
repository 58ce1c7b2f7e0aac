use graft::index::{IndexError, TypeIndex};
use graft::schema::{MaybeNamed, NamedType, RootType, Schema, Type, TypeKind, TypeRef, TypeRefContainer};

fn scalar(name: &str, description: Option<&str>) -> NamedType {
    NamedType::Scalar { name: name.to_owned(), description: description.map(str::to_owned) }
}

fn object(name: &str) -> NamedType {
    NamedType::Object {
        name: name.to_owned(),
        description: None,
        fields: vec![],
        interfaces: vec![],
    }
}

fn schema(types: Vec<NamedType>, mutation: Option<&str>, subscription: Option<&str>) -> Schema {
    Schema {
        types,
        query_type: RootType { name: "Query".to_owned() },
        mutation_type: mutation.map(|name| RootType { name: name.to_owned() }),
        subscription_type: subscription.map(|name| RootType { name: name.to_owned() }),
        directives: vec![],
    }
}

#[test]
fn the_index_finds_every_type_by_its_name() {
    let schema = schema(vec![object("Query"), scalar("ID", None), object("Droid")], None, None);
    let index = TypeIndex::build(&schema).unwrap();
    assert_eq!(index.get("Droid"), Some(&object("Droid")));
    assert_eq!(index.get("ID"), Some(&scalar("ID", None)));
    assert_eq!(index.get("Query"), Some(&object("Query")));
    assert_eq!(index.get("Human"), None);
    assert_eq!(index.get(""), None);
}

#[test]
fn the_index_holds_the_root_types() {
    let schema = schema(
        vec![object("Query"), object("Mutation"), object("Subscription")],
        Some("Mutation"),
        Some("Subscription"),
    );
    let index = TypeIndex::try_new(&schema).unwrap();
    assert_eq!(index.query(), &object("Query"));
    assert_eq!(index.mutation(), Some(&object("Mutation")));
    assert_eq!(index.subscription(), Some(&object("Subscription")));
}

#[test]
fn a_root_that_is_named_but_absent_is_no_root() {
    let schema = schema(vec![object("Query")], Some("Mutation"), None);
    let index = TypeIndex::build(&schema).unwrap();
    assert_eq!(index.mutation(), None);
    assert_eq!(index.subscription(), None);
}

#[test]
fn building_fails_without_the_query_type() {
    let schema = schema(vec![object("Droid")], None, None);
    assert_eq!(
        TypeIndex::build(&schema).err(),
        Some(IndexError::MissingQueryType("Query".to_owned()))
    );
    assert_eq!(
        TypeIndex::build(&schema).err().unwrap().to_string(),
        "the schema has no query type `Query`"
    );
}

#[test]
fn the_later_of_two_types_with_one_name_stands() {
    let schema = schema(
        vec![object("Query"), scalar("Date", Some("first")), scalar("Date", Some("second"))],
        None,
        None,
    );
    let index = TypeIndex::build(&schema).unwrap();
    assert_eq!(index.get("Date"), Some(&scalar("Date", Some("second"))));
}

#[test]
fn resolving_a_name_gives_its_type_and_a_wrapper_stays_a_wrapper() {
    let schema = schema(vec![object("Query"), scalar("ID", None)], None, None);
    let index = TypeIndex::build(&schema).unwrap();
    let bare = TypeRef::To { name: "ID".to_owned() };
    match index.resolve(&bare).unwrap() {
        Type::Named(t) => assert_eq!(t, &scalar("ID", None)),
        Type::Container(_) => panic!("a bare name resolves to its type"),
    }
    let wrapped = TypeRef::Container(TypeRefContainer::List {
        of_type: Box::new(TypeRef::To { name: "Nowhere".to_owned() }),
    });
    match index.type_from_ref(&wrapped).unwrap() {
        Type::Container(TypeRefContainer::List { of_type }) => {
            assert_eq!(**of_type, TypeRef::To { name: "Nowhere".to_owned() })
        }
        _ => panic!("a wrapper resolves to itself"),
    }
    assert_eq!(index.resolve(&wrapped).unwrap().maybe_name(), None);
    assert_eq!(index.resolve(&bare).unwrap().maybe_name(), Some("ID"));
    assert!(index.resolve(&bare).unwrap().try_into_named().is_some());
    assert!(index.resolve(&wrapped).unwrap().try_into_named().is_none());
}

#[test]
fn resolving_an_unknown_name_fails_with_the_name() {
    let schema = schema(vec![object("Query")], None, None);
    let index = TypeIndex::build(&schema).unwrap();
    let dangling = TypeRef::To { name: "Ghost".to_owned() };
    let error = index.resolve(&dangling).err().unwrap();
    assert_eq!(error, IndexError::UnknownType("Ghost".to_owned()));
    assert_eq!(error.to_string(), "unknown type `Ghost`");
}

#[test]
fn named_types_answer_for_their_name_kind_and_members() {
    let interface = NamedType::Interface {
        name: "Character".to_owned(),
        description: Some("someone".to_owned()),
        fields: vec![],
        possible_types: vec![
            TypeRef::To { name: "Droid".to_owned() },
            TypeRef::Container(TypeRefContainer::NonNull {
                of_type: Box::new(TypeRef::To { name: "Human".to_owned() }),
            }),
        ],
        interfaces: vec![],
    };
    assert_eq!(interface.name(), "Character");
    assert_eq!(interface.description(), &Some("someone".to_owned()));
    assert_eq!(interface.kind(), TypeKind::Interface);
    assert!(interface.is_fielded());
    assert!(interface.has_possible_type("Droid"));
    assert!(!interface.has_possible_type("Human"));
    assert!(!interface.has_possible_type("Character"));
    assert!(!interface.is_internal());
    assert!(object("__Schema").is_internal());
    assert!(!object("_Schema").is_internal());
    assert!(!scalar("ID", None).is_fielded());
    assert_eq!(scalar("ID", None).kind(), TypeKind::Scalar);
    assert!(scalar("ID", None).get_field("id").is_none());
}
