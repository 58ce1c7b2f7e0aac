use graft::index::{IndexError, TypeIndex};
use graft::schema::{NamedType, RootType, Schema, TypeRef, TypeRefContainer};
use graft::typescript::type_ref::{render_type_ref, type_ref_as_typescript};
use graft::typescript::ProjectionError;

fn to(name: &str) -> TypeRef {
    TypeRef::To { name: name.to_owned() }
}

fn non_null(of_type: TypeRef) -> TypeRef {
    TypeRef::Container(TypeRefContainer::NonNull { of_type: Box::new(of_type) })
}

fn list(of_type: TypeRef) -> TypeRef {
    TypeRef::Container(TypeRefContainer::List { of_type: Box::new(of_type) })
}

fn foo_schema() -> Schema {
    Schema {
        types: vec![
            NamedType::Object {
                name: "Query".to_owned(),
                description: None,
                fields: vec![],
                interfaces: vec![],
            },
            NamedType::Scalar { name: "Foo".to_owned(), description: None },
            NamedType::Enum { name: "Episode".to_owned(), description: None, enum_values: vec![] },
            NamedType::Interface {
                name: "Node".to_owned(),
                description: None,
                fields: vec![],
                possible_types: vec![],
                interfaces: vec![],
            },
            NamedType::Union { name: "Hit".to_owned(), description: None, possible_types: vec![] },
            NamedType::InputObject {
                name: "Filter".to_owned(),
                description: None,
                input_fields: vec![],
            },
        ],
        query_type: RootType { name: "Query".to_owned() },
        mutation_type: None,
        subscription_type: None,
        directives: vec![],
    }
}

#[test]
fn non_null_list_of_non_null_items_has_no_nullable_at_any_level() {
    let schema = foo_schema();
    let index = TypeIndex::build(&schema).unwrap();
    let nested = non_null(list(non_null(to("Foo"))));
    assert_eq!(type_ref_as_typescript(&index, &nested, true).unwrap(), "FooScalar[]");
}

#[test]
fn list_of_a_bare_name_is_nullable_twice() {
    let schema = foo_schema();
    let index = TypeIndex::build(&schema).unwrap();
    assert_eq!(
        type_ref_as_typescript(&index, &list(to("Foo")), true).unwrap(),
        "Nullable<Nullable<FooScalar>[]>"
    );
}

#[test]
fn each_position_is_nullable_unless_non_null_stands_directly_around_it() {
    let schema = foo_schema();
    let index = TypeIndex::build(&schema).unwrap();
    let ts = |r: &TypeRef| type_ref_as_typescript(&index, r, true).unwrap();
    assert_eq!(ts(&to("Foo")), "Nullable<FooScalar>");
    assert_eq!(ts(&non_null(to("Foo"))), "FooScalar");
    assert_eq!(ts(&non_null(list(to("Foo")))), "Nullable<FooScalar>[]");
    assert_eq!(ts(&list(non_null(to("Foo")))), "Nullable<FooScalar[]>");
    assert_eq!(
        ts(&list(list(to("Foo")))),
        "Nullable<Nullable<Nullable<FooScalar>[]>[]>"
    );
    assert_eq!(ts(&non_null(list(non_null(list(non_null(to("Foo"))))))), "FooScalar[][]");
}

#[test]
fn the_non_nullable_form_drops_only_the_outermost_nullable() {
    let schema = foo_schema();
    let index = TypeIndex::build(&schema).unwrap();
    let ts = |r: &TypeRef| type_ref_as_typescript(&index, r, false).unwrap();
    assert_eq!(ts(&to("Foo")), "FooScalar");
    assert_eq!(ts(&list(to("Foo"))), "Nullable<FooScalar>[]");
    assert_eq!(ts(&non_null(to("Foo"))), "FooScalar");
}

#[test]
fn non_null_is_the_inner_reference_without_its_nullable() {
    let schema = foo_schema();
    let index = TypeIndex::build(&schema).unwrap();
    for inner in [to("Foo"), list(to("Foo")), list(non_null(to("Episode")))] {
        let bare = type_ref_as_typescript(&index, &inner, false).unwrap();
        let wrapped = type_ref_as_typescript(&index, &inner, true).unwrap();
        assert_eq!(wrapped, format!("Nullable<{bare}>"));
        assert_eq!(type_ref_as_typescript(&index, &non_null(inner), true).unwrap(), bare);
    }
}

#[test]
fn named_types_carry_the_suffix_of_their_kind() {
    let schema = foo_schema();
    let index = TypeIndex::build(&schema).unwrap();
    let ts = |name: &str| type_ref_as_typescript(&index, &non_null(to(name)), true).unwrap();
    assert_eq!(ts("Foo"), "FooScalar");
    assert_eq!(ts("Node"), "NodeInterface");
    assert_eq!(ts("Hit"), "HitUnion");
    assert_eq!(ts("Query"), "Query");
    assert_eq!(ts("Episode"), "Episode");
    assert_eq!(ts("Filter"), "Filter");
}

#[test]
fn a_reference_to_an_unknown_type_fails_with_its_name() {
    let schema = foo_schema();
    let index = TypeIndex::build(&schema).unwrap();
    assert_eq!(
        type_ref_as_typescript(&index, &list(non_null(to("Missing"))), true),
        Err(ProjectionError::Index(IndexError::UnknownType("Missing".to_owned())))
    );
}

#[test]
fn wrappers_are_written_around_any_leaf() {
    assert_eq!(render_type_ref(&list(to("X")), true, "{ a: B }"), "Nullable<Nullable<{ a: B }>[]>");
    assert_eq!(render_type_ref(&non_null(to("X")), true, "{ a: B }"), "{ a: B }");
}

#[test]
fn type_refs_know_their_names_and_their_shape() {
    let nested = non_null(list(to("Foo")));
    assert!(nested.is_non_null());
    assert!(!list(to("Foo")).is_non_null());
    assert!(!to("Foo").is_non_null());
    assert_eq!(to("Foo").name(), Some("Foo"));
    assert_eq!(nested.name(), None);
    assert_eq!(nested.innermost_name(), "Foo");
    assert!(nested.is_well_formed());
    assert!(!non_null(non_null(to("Foo"))).is_well_formed());
    assert!(!list(non_null(non_null(to("Foo")))).is_well_formed());
    assert_eq!(nested.duplicate(), nested);
    assert_eq!(nested.clone(), nested);
}
