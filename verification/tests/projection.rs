use graft::index::{IndexError, TypeIndex};
use graft::options::TypescriptOptions;
use graft::query::{
    Field as SelectedField, FragmentSpread, InlineFragment, Name, NamedType as Condition,
    Selection, SelectionSet,
};
use graft::schema::{Field, NamedType, RootType, Schema, TypeRef, TypeRefContainer};
use graft::typescript::selection::{fragment_type_name_of, project_on};
use graft::typescript::{Context, FragmentNames, ProjectionError};

fn to(name: &str) -> TypeRef {
    TypeRef::To { name: name.to_owned() }
}

fn non_null(of_type: TypeRef) -> TypeRef {
    TypeRef::Container(TypeRefContainer::NonNull { of_type: Box::new(of_type) })
}

fn list(of_type: TypeRef) -> TypeRef {
    TypeRef::Container(TypeRefContainer::List { of_type: Box::new(of_type) })
}

fn field(name: &str, of_type: TypeRef) -> Field {
    Field {
        name: name.to_owned(),
        description: None,
        args: vec![],
        of_type,
        is_deprecated: false,
        deprecation_reason: None,
    }
}

fn object(name: &str, fields: Vec<Field>) -> NamedType {
    NamedType::Object { name: name.to_owned(), description: None, fields, interfaces: vec![] }
}

fn star_wars() -> Schema {
    Schema {
        types: vec![
            object(
                "Query",
                vec![
                    field("droid", to("Droid")),
                    field("hero", non_null(to("Character"))),
                    field("search", list(non_null(to("SearchResult")))),
                ],
            ),
            object(
                "Droid",
                vec![
                    field("id", non_null(to("ID"))),
                    field("name", to("String")),
                    field("friends", list(to("Character"))),
                    field("primaryFunction", to("String")),
                    field("appearsIn", non_null(list(non_null(to("Episode"))))),
                ],
            ),
            object(
                "Human",
                vec![field("id", non_null(to("ID"))), field("name", to("String")), field("height", to("Float"))],
            ),
            NamedType::Interface {
                name: "Character".to_owned(),
                description: None,
                fields: vec![field("name", to("String"))],
                possible_types: vec![to("Droid"), to("Human")],
                interfaces: vec![],
            },
            NamedType::Union {
                name: "SearchResult".to_owned(),
                description: None,
                possible_types: vec![to("Droid"), to("Human"), to("Starship")],
            },
            NamedType::Enum { name: "Episode".to_owned(), description: None, enum_values: vec![] },
            NamedType::Scalar { name: "ID".to_owned(), description: None },
            NamedType::Scalar { name: "String".to_owned(), description: None },
            NamedType::Scalar { name: "Float".to_owned(), description: None },
        ],
        query_type: RootType { name: "Query".to_owned() },
        mutation_type: None,
        subscription_type: None,
        directives: vec![],
    }
}

fn context<'a>(schema: &'a Schema, fragments: &[&str]) -> Context<'a> {
    let mut names = FragmentNames::new();
    for name in fragments {
        names.insert((*name).to_owned());
    }
    Context {
        index: TypeIndex::build(schema).unwrap(),
        options: TypescriptOptions::default(),
        fragments: names,
    }
}

fn set(selections: Vec<Selection>) -> SelectionSet {
    SelectionSet { selections }
}

fn leaf(name: &str) -> Selection {
    Selection::Field(SelectedField {
        alias: None,
        name: Name(name.to_owned()),
        arguments: vec![],
        directives: vec![],
        selection_set: None,
    })
}

fn nested(name: &str, selections: Vec<Selection>) -> Selection {
    Selection::Field(SelectedField {
        alias: None,
        name: Name(name.to_owned()),
        arguments: vec![],
        directives: vec![],
        selection_set: Some(set(selections)),
    })
}

fn aliased(alias: &str, name: &str) -> Selection {
    Selection::Field(SelectedField {
        alias: Some(Name(alias.to_owned())),
        name: Name(name.to_owned()),
        arguments: vec![],
        directives: vec![],
        selection_set: None,
    })
}

fn spread(name: &str) -> Selection {
    Selection::FragmentSpread(FragmentSpread { name: Name(name.to_owned()), directives: vec![] })
}

fn inline(on: Option<&str>, selections: Vec<Selection>) -> Selection {
    Selection::InlineFragment(InlineFragment {
        type_condition: on.map(|name| Condition { name: Name(name.to_owned()) }),
        directives: vec![],
        selection_set: set(selections),
    })
}

fn project(schema: &Schema, fragments: &[&str], on: &str, selections: Vec<Selection>) -> Result<String, ProjectionError> {
    let ctx = context(schema, fragments);
    let on = ctx.index.get(on).unwrap();
    project_on(&ctx, on, &set(selections))
}

#[test]
fn droid_selection_projects_to_the_expected_type() {
    let ts = project(
        &star_wars(),
        &[],
        "Droid",
        vec![leaf("id"), leaf("name"), nested("friends", vec![leaf("name")])],
    );
    assert_eq!(
        ts.unwrap(),
        "{ id: IDScalar, name: Nullable<StringScalar>, friends: Nullable<Nullable<{ name: Nullable<StringScalar> }>[]> }"
    );
}

#[test]
fn a_selection_on_the_query_root_wraps_the_nested_object() {
    let ts = project(&star_wars(), &[], "Query", vec![nested("droid", vec![leaf("id")])]);
    assert_eq!(ts.unwrap(), "{ droid: Nullable<{ id: IDScalar }> }");
}

#[test]
fn a_non_null_list_of_non_null_leaves_has_no_nullable() {
    let ts = project(&star_wars(), &[], "Droid", vec![leaf("appearsIn")]);
    assert_eq!(ts.unwrap(), "{ appearsIn: Episode[] }");
}

#[test]
fn an_empty_selection_set_is_an_empty_object() {
    assert_eq!(project(&star_wars(), &[], "Droid", vec![]).unwrap(), "{}");
}

#[test]
fn fields_keep_selection_order_and_aliases_are_keys_of_their_own() {
    let ts = project(
        &star_wars(),
        &[],
        "Droid",
        vec![aliased("second", "name"), leaf("id"), aliased("first", "name"), leaf("name")],
    );
    assert_eq!(
        ts.unwrap(),
        "{ second: Nullable<StringScalar>, id: IDScalar, first: Nullable<StringScalar>, name: Nullable<StringScalar> }"
    );
}

#[test]
fn a_spread_is_intersected_by_the_name_of_the_fragment_type() {
    let ts = project(
        &star_wars(),
        &["droidParts", "Names"],
        "Droid",
        vec![leaf("id"), spread("droidParts"), leaf("name"), spread("Names")],
    );
    assert_eq!(
        ts.unwrap(),
        "{ id: IDScalar, name: Nullable<StringScalar> } & DroidPartsFragmentSelectionSet & NamesFragmentSelectionSet"
    );
}

#[test]
fn a_selection_of_spreads_alone_intersects_the_empty_object() {
    let ts = project(&star_wars(), &["Names"], "Droid", vec![spread("Names")]);
    assert_eq!(ts.unwrap(), "{} & NamesFragmentSelectionSet");
}

#[test]
fn the_fragment_type_name_is_the_pascal_name_with_the_suffix() {
    assert_eq!(fragment_type_name_of("droid_parts", "SelectionSet"), "DroidPartsFragmentSelectionSet");
    assert_eq!(fragment_type_name_of("names", ""), "NamesFragment");
}

#[test]
fn a_spread_of_an_unknown_fragment_fails() {
    let error = project(&star_wars(), &["Names"], "Droid", vec![spread("Parts")]).unwrap_err();
    assert_eq!(error, ProjectionError::UnknownFragment { name: "Parts".to_owned() });
    assert_eq!(error.to_string(), "unknown fragment `Parts`");
}

#[test]
fn an_inline_fragment_on_an_interface_narrows_to_the_member() {
    let ts = project(
        &star_wars(),
        &[],
        "Character",
        vec![
            leaf("name"),
            inline(Some("Droid"), vec![leaf("primaryFunction")]),
            inline(Some("Human"), vec![leaf("height")]),
        ],
    );
    assert_eq!(
        ts.unwrap(),
        "{ name: Nullable<StringScalar> } & { primaryFunction: Nullable<StringScalar> } & { height: Nullable<FloatScalar> }"
    );
}

#[test]
fn an_inline_fragment_on_a_union_narrows_to_the_member() {
    let ts = project(
        &star_wars(),
        &[],
        "Query",
        vec![nested("search", vec![inline(Some("Human"), vec![leaf("id"), leaf("height")])])],
    );
    assert_eq!(
        ts.unwrap(),
        "{ search: Nullable<{} & { id: IDScalar, height: Nullable<FloatScalar> }[]> }"
    );
}

#[test]
fn a_field_absent_from_the_narrowed_member_is_rejected() {
    let error = project(
        &star_wars(),
        &[],
        "Character",
        vec![inline(Some("Human"), vec![leaf("name"), leaf("primaryFunction")])],
    )
    .unwrap_err();
    assert_eq!(
        error,
        ProjectionError::UnknownField { name: "primaryFunction".to_owned(), on: "Human".to_owned() }
    );
    assert_eq!(error.to_string(), "unknown field `primaryFunction` on `Human`");
}

#[test]
fn a_type_condition_must_name_a_possible_type() {
    let error = project(&star_wars(), &[], "Character", vec![inline(Some("Query"), vec![])]).unwrap_err();
    assert_eq!(
        error,
        ProjectionError::InvalidTypeCondition { name: "Query".to_owned(), on: "Character".to_owned() }
    );
    assert_eq!(error.to_string(), "`Query` is not a possible type of `Character`");
}

#[test]
fn a_possible_type_that_the_schema_lacks_cannot_be_resolved() {
    let error = project(
        &star_wars(),
        &[],
        "Query",
        vec![nested("search", vec![inline(Some("Starship"), vec![])])],
    )
    .unwrap_err();
    assert_eq!(error, ProjectionError::Index(IndexError::UnknownType("Starship".to_owned())));
}

#[test]
fn an_inline_fragment_on_a_union_needs_a_type_condition() {
    let error = project(&star_wars(), &[], "SearchResult", vec![inline(None, vec![])]).unwrap_err();
    assert_eq!(error, ProjectionError::MissingTypeCondition { on: "SearchResult".to_owned() });
    assert_eq!(error.to_string(), "inline fragment on `SearchResult` needs a type condition");
}

#[test]
fn an_object_cannot_be_narrowed() {
    let error = project(&star_wars(), &[], "Droid", vec![inline(Some("Droid"), vec![leaf("id")])]).unwrap_err();
    assert_eq!(
        error,
        ProjectionError::TypeConditionOnObject { name: "Droid".to_owned(), on: "Droid".to_owned() }
    );
    assert_eq!(error.to_string(), "type condition `Droid` on the object `Droid`");
}

#[test]
fn an_inline_fragment_without_condition_on_an_object_selects_on_the_object() {
    let ts = project(&star_wars(), &[], "Droid", vec![leaf("id"), inline(None, vec![leaf("name")])]);
    assert_eq!(ts.unwrap(), "{ id: IDScalar } & { name: Nullable<StringScalar> }");
}

#[test]
fn an_unknown_field_is_rejected_with_the_type_it_was_selected_on() {
    let error = project(&star_wars(), &[], "Droid", vec![leaf("id"), leaf("height")]).unwrap_err();
    assert_eq!(error, ProjectionError::UnknownField { name: "height".to_owned(), on: "Droid".to_owned() });
}

#[test]
fn a_field_selected_directly_on_a_union_is_rejected() {
    let error = project(&star_wars(), &[], "SearchResult", vec![leaf("id")]).unwrap_err();
    assert_eq!(
        error,
        ProjectionError::UnknownField { name: "id".to_owned(), on: "SearchResult".to_owned() }
    );
}

#[test]
fn a_field_of_a_fielded_type_needs_a_selection_set() {
    let error = project(&star_wars(), &[], "Query", vec![leaf("droid")]).unwrap_err();
    assert_eq!(error, ProjectionError::MissingSelectionSet { field: "droid".to_owned() });
    assert_eq!(error.to_string(), "field `droid` needs a selection set");
    let error = project(&star_wars(), &[], "Query", vec![nested("hero", vec![])]).unwrap_err();
    assert_eq!(error, ProjectionError::MissingSelectionSet { field: "hero".to_owned() });
}

#[test]
fn a_selection_set_on_a_leaf_is_not_looked_at() {
    let ts = project(&star_wars(), &[], "Droid", vec![nested("id", vec![leaf("nothing")])]);
    assert_eq!(ts.unwrap(), "{ id: IDScalar }");
}

#[test]
fn the_first_failing_selection_decides() {
    let error = project(
        &star_wars(),
        &[],
        "Droid",
        vec![leaf("id"), spread("Missing"), leaf("height")],
    )
    .unwrap_err();
    assert_eq!(error, ProjectionError::UnknownFragment { name: "Missing".to_owned() });
}

#[test]
fn an_inline_fragment_on_a_leaf_is_refused() {
    let error = project(&star_wars(), &[], "ID", vec![inline(None, vec![])]).unwrap_err();
    assert_eq!(error, ProjectionError::NotFielded { name: "ID".to_owned() });
    assert_eq!(error.to_string(), "`ID` has no fields to select");
}

#[test]
fn projecting_twice_gives_the_same_text() {
    let schema = star_wars();
    let selections = || vec![leaf("id"), nested("friends", vec![leaf("name")]), spread("Names")];
    let first = project(&schema, &["Names"], "Droid", selections());
    let second = project(&schema, &["Names"], "Droid", selections());
    assert_eq!(first, second);
    assert!(first.is_ok());
}
