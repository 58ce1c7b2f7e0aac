//! What holds of the projector and the emitter on all inputs.

use vstd::prelude::*;
use vstd::string::*;
use crate::gen::{definition_failure, emit_definitions, generated, BufferText};
use crate::options::TypescriptOptions;
use crate::query::{Definition, Document, Fragment, InlineFragment, NamedOperation, Operation, Selection};
use crate::query;
use crate::schema::{EnumValue, Field, InputValue, NamedType, Schema, TypeRef, TypeRefContainer};
use crate::schema::from_document::{
    enum_value_of, fields_are_valid, fields_model, field_is_valid, gather, input_value_of,
    input_values_are_valid, input_values_model, read_document, references_to,
    type_definition_is_valid, type_is_valid, type_ref_of,
};
use crate::schema::validity::{
    fields_well_formed, input_values_well_formed, named_type_well_formed, names_are_unique,
    types_well_formed,
};
use crate::index::type_map;
use crate::schema::to_document::{
    fields_written, input_values_written, names_of, written_enum_value, written_input_value,
    written_type, written_types,
};
use crate::syntax;
use crate::typescript::{agrees, Env, ProjectionError, ProjectionFailure, Roots};
use crate::typescript::definition::{
    emit_definition, emit_fragment, emit_operation, operation_stem, root_type, type_alias,
};
use crate::typescript::selection::{
    fragment_type_name, narrowed, project_selection, project_selection_set, project_selections,
    Piece,
};
use crate::typescript::type_ref::{ref_typescript, render_ref};

verus! {

/// A reference wrapped in `NonNull`.
pub open spec fn non_null(of_type: TypeRef) -> TypeRef {
    TypeRef::Container(TypeRefContainer::NonNull { of_type: Box::new(of_type) })
}

/// A reference wrapped in a list.
pub open spec fn list_of(of_type: TypeRef) -> TypeRef {
    TypeRef::Container(TypeRefContainer::List { of_type: Box::new(of_type) })
}

/// `NonNull(T)` is written as `T` is where it cannot be null: the wrapper adds no
/// text of its own and takes the `Nullable` off the position it stands on.
pub proof fn lemma_non_null_takes_nullable_off(of_type: TypeRef, nullable: bool, leaf: Seq<char>)
    ensures
        render_ref(non_null(of_type), nullable, leaf) == render_ref(of_type, false, leaf),
{
}

/// A bare name or a list that stands where null is allowed is written inside
/// `Nullable<...>`, around exactly what it is where null is not allowed.
pub proof fn lemma_nullable_by_default(type_ref: TypeRef, leaf: Seq<char>)
    requires
        !type_ref.spec_is_non_null(),
    ensures
        render_ref(type_ref, true, leaf) == "Nullable<"@ + render_ref(type_ref, false, leaf) + ">"@,
{
}

/// The same two facts for references that are resolved against an index: a
/// `NonNull` reference is the inner reference without its `Nullable`, and any other
/// reference is `Nullable` around its non-nullable form.
pub proof fn lemma_nullability_inversion(types: Map<Seq<char>, NamedType>, type_ref: TypeRef)
    ensures
        ref_typescript(types, non_null(type_ref), true) == ref_typescript(types, type_ref, false),
        !type_ref.spec_is_non_null() ==> match ref_typescript(types, type_ref, false) {
            Ok(bare) => ref_typescript(types, type_ref, true) == Ok::<Seq<char>, ProjectionFailure>(
                "Nullable<"@ + bare + ">"@,
            ),
            Err(e) => ref_typescript(types, type_ref, true) == Err::<Seq<char>, ProjectionFailure>(e),
        },
{
}

/// Every position of the reference is marked `NonNull`.
pub open spec fn non_null_throughout(type_ref: TypeRef) -> bool
    decreases type_ref,
{
    match type_ref {
        TypeRef::Container(TypeRefContainer::NonNull { of_type }) => match *of_type {
            TypeRef::To { .. } => true,
            TypeRef::Container(TypeRefContainer::List { of_type: item }) => non_null_throughout(
                *item,
            ),
            TypeRef::Container(TypeRefContainer::NonNull { .. }) => false,
        },
        _ => false,
    }
}

/// One `[]` for each list that the reference goes through.
pub open spec fn list_brackets(type_ref: TypeRef) -> Seq<char>
    decreases type_ref,
{
    match type_ref {
        TypeRef::To { .. } => Seq::empty(),
        TypeRef::Container(TypeRefContainer::NonNull { of_type }) => list_brackets(*of_type),
        TypeRef::Container(TypeRefContainer::List { of_type }) => list_brackets(*of_type) + "[]"@,
    }
}

/// A reference that is `NonNull` at every position is written without `Nullable` at
/// any level: the leaf, followed by one `[]` for each list.
pub proof fn lemma_non_null_throughout_has_no_wrapper(type_ref: TypeRef, nullable: bool, leaf: Seq<char>)
    requires
        non_null_throughout(type_ref),
    ensures
        render_ref(type_ref, nullable, leaf) == leaf + list_brackets(type_ref),
    decreases type_ref,
{
    reveal_with_fuel(render_ref, 3);
    reveal_with_fuel(list_brackets, 3);
    match type_ref {
        TypeRef::Container(TypeRefContainer::NonNull { of_type }) => match *of_type {
            TypeRef::To { .. } => {
                assert(leaf + Seq::<char>::empty() =~= leaf);
            },
            TypeRef::Container(TypeRefContainer::List { of_type: item }) => {
                lemma_non_null_throughout_has_no_wrapper(*item, true, leaf);
                assert((leaf + list_brackets(*item)) + "[]"@ =~= leaf + (list_brackets(*item)
                    + "[]"@));
            },
            _ => {},
        },
        _ => {},
    }
}

/// A non-null list of non-null items is the item type followed by `[]`, and a list
/// of a bare name is `Nullable` twice: once for the items, once for the list.
pub proof fn lemma_nested_lists(name: String, leaf: Seq<char>)
    ensures
        render_ref(non_null(list_of(non_null(TypeRef::To { name }))), true, leaf) == leaf + "[]"@,
        render_ref(list_of(TypeRef::To { name }), true, leaf) == "Nullable<"@ + ("Nullable<"@ + leaf
            + ">"@ + "[]"@) + ">"@,
{
    reveal_with_fuel(render_ref, 4);
}

/// Generating twice from the same options, schema and document gives the same
/// module, character for character, or the same failure.
pub proof fn lemma_generation_is_repeatable(
    options: TypescriptOptions,
    schema: &Schema,
    document: Option<&Document>,
    first: Result<String, ProjectionError>,
    second: Result<String, ProjectionError>,
)
    requires
        agrees(first, generated(options, schema, document)),
        agrees(second, generated(options, schema, document)),
    ensures
        match (first, second) {
            (Ok(a), Ok(b)) => a@ == b@,
            (Err(a), Err(b)) => a@ == b@,
            _ => false,
        },
{
}

/// A spread of a known fragment adds the fragment's type by its name, whatever the
/// fragment selects: the fragment is referred to, not written out again.
pub proof fn lemma_spread_is_by_reference(env: Env, on: NamedType, spread: query::FragmentSpread)
    requires
        env.fragments.contains(spread.name.0@),
    ensures
        project_selection(env, on, Selection::FragmentSpread(spread)) == Ok::<
            Piece,
            ProjectionFailure,
        >(Piece::Fragment(fragment_type_name(spread.name.0@, env.suffix))),
{
}

/// An operation declares no fragment: whatever it spreads, it leaves the fragment
/// section as it was and adds one alias, its own, to the selection sets.
pub proof fn lemma_operation_declares_no_fragment(
    env: Env,
    roots: Roots,
    options: TypescriptOptions,
    named: NamedOperation,
    buffer: BufferText,
)
    ensures
        match emit_operation(env, roots, options, named, buffer) {
            Ok(written) => written.fragments == buffer.fragments && exists|name: Seq<char>, body: Seq<char>|
                written.selection_sets == buffer.selection_sets + #[trigger] type_alias(name, body),
            Err(_) => true,
        },
{
    reveal(emit_operation);
    match emit_operation(env, roots, options, named, buffer) {
        Ok(written) => {
            let name = named.name->0;
            let stem = operation_stem(options, named.operation, name.0@);
            let projection = project_selection_set(
                env,
                root_type(roots, named.operation)->Ok_0,
                named.selection_set,
            )->Ok_0;
            assert(written.selection_sets == buffer.selection_sets + type_alias(
                stem + options.selection_set_suffix@,
                projection,
            ));
        },
        Err(_) => {},
    }
}

/// A fragment is declared once: its definition adds one alias to the selection
/// sets, under the very name that every spread of the fragment refers to.
pub proof fn lemma_fragment_is_declared_once(
    env: Env,
    options: TypescriptOptions,
    fragment: Fragment,
    buffer: BufferText,
)
    ensures
        match emit_fragment(env, options, fragment, buffer) {
            Ok(written) => exists|body: Seq<char>|
                written.selection_sets == buffer.selection_sets + #[trigger] type_alias(
                    fragment_type_name(fragment.name.0@, env.suffix),
                    body,
                ),
            Err(_) => true,
        },
{
    reveal(emit_fragment);
    match emit_fragment(env, options, fragment, buffer) {
        Ok(written) => {
            let projection = project_selection_set(
                env,
                env.types[fragment.type_condition.name.0@],
                fragment.selection_set,
            )->Ok_0;
            assert(written.selection_sets == buffer.selection_sets + type_alias(
                fragment_type_name(fragment.name.0@, env.suffix),
                projection,
            ));
        },
        Err(_) => {},
    }
}

/// Where a list of selections projects, each of its selections does.
pub proof fn lemma_every_selection_projects(env: Env, on: NamedType, selections: Seq<Selection>, at: int)
    requires
        project_selections(env, on, selections) is Ok,
        0 <= at < selections.len(),
    ensures
        project_selection(env, on, selections[at]) is Ok,
    decreases selections.len(),
{
    let earlier = selections.subrange(0, selections.len() - 1);
    if at < selections.len() - 1 {
        lemma_every_selection_projects(env, on, earlier, at);
        assert(earlier[at] == selections[at]);
    }
}

/// An inline fragment on a union or an interface reaches only the fields of the
/// member that its type condition names: where it selects a field that the member
/// does not have, the projection fails.
pub proof fn lemma_narrowing_rejects_absent_field(
    env: Env,
    on: NamedType,
    inline: InlineFragment,
    member: NamedType,
    at: int,
    field: query::Field,
)
    requires
        on is Interface || on is Union,
        narrowed(env, on, inline.type_condition) == Ok::<NamedType, ProjectionFailure>(member),
        0 <= at < inline.selection_set.selections@.len(),
        inline.selection_set.selections@[at] == Selection::Field(field),
        member.spec_get_field(field.name.0@) is None,
    ensures
        project_selection(env, on, Selection::InlineFragment(inline)) is Err,
{
    if project_selection_set(env, member, inline.selection_set) is Ok {
        lemma_every_selection_projects(env, member, inline.selection_set.selections@, at);
    }
}

/// What an inline fragment contributes is the projection of its selection set on
/// the member alone: the type it stands on decides only which members it may name.
pub proof fn lemma_narrowing_projects_on_member(env: Env, on: NamedType, inline: InlineFragment, member: NamedType)
    requires
        narrowed(env, on, inline.type_condition) == Ok::<NamedType, ProjectionFailure>(member),
    ensures
        project_selection(env, on, Selection::InlineFragment(inline)) == match project_selection_set(
            env,
            member,
            inline.selection_set,
        ) {
            Ok(ts) => Ok::<Piece, ProjectionFailure>(Piece::Fragment(ts)),
            Err(e) => Err::<Piece, ProjectionFailure>(e),
        },
{
}

/// A selection set without an operation keyword is never emitted: it is refused,
/// whatever it selects.
pub proof fn lemma_bare_selection_set_is_refused(
    env: Env,
    roots: Roots,
    options: TypescriptOptions,
    set: query::SelectionSet,
    buffer: BufferText,
)
    ensures
        emit_definition(env, roots, options, Definition::Operation(Operation::SelectionSet(set)), buffer)
            == Err::<BufferText, ProjectionFailure>(ProjectionFailure::AnonymousSelectionSet),
{
}

/// Writing a reference down and reading it back gives the same reference; what is
/// written is valid exactly when the reference is well formed.
pub proof fn lemma_written_type_reads_back(type_ref: TypeRef)
    ensures
        type_ref_of(written_type(type_ref)) == type_ref,
        type_is_valid(written_type(type_ref)) == type_ref.well_formed(),
    decreases type_ref,
{
    match type_ref {
        TypeRef::To { .. } => {},
        TypeRef::Container(TypeRefContainer::NonNull { of_type }) => {
            lemma_written_type_reads_back(*of_type);
        },
        TypeRef::Container(TypeRefContainer::List { of_type }) => {
            lemma_written_type_reads_back(*of_type);
        },
    }
}

/// The same input values but for their defaults.
pub open spec fn same_input_values(back: Seq<InputValue>, values: Seq<InputValue>) -> bool {
    back.len() == values.len() && forall|i: int|
        0 <= i < values.len() ==> (#[trigger] back[i]).name == values[i].name
            && back[i].description == values[i].description && back[i].of_type
            == values[i].of_type
}

/// The same fields, with the same types and arguments, but for deprecation.
pub open spec fn same_fields(back: Seq<Field>, fields: Seq<Field>) -> bool {
    back.len() == fields.len() && forall|i: int|
        0 <= i < fields.len() ==> (#[trigger] back[i]).name == fields[i].name
            && back[i].description == fields[i].description && back[i].of_type
            == fields[i].of_type && same_input_values(back[i].args@, fields[i].args@)
}

/// The same enum values but for deprecation.
pub open spec fn same_enum_values(back: Seq<EnumValue>, values: Seq<EnumValue>) -> bool {
    back.len() == values.len() && forall|i: int|
        0 <= i < values.len() ==> (#[trigger] back[i]).name == values[i].name
            && back[i].description == values[i].description
}

/// The same type as far as a schema definition document says: the same kind, name
/// and description, the same fields with the same wrapping, and the interfaces and
/// members that are bare names.
pub open spec fn equivalent(back: NamedType, t: NamedType) -> bool {
    match t {
        NamedType::Scalar { name, description } => back == (NamedType::Scalar { name, description }),
        NamedType::Object { name, description, fields, interfaces } => {
            &&& back matches NamedType::Object {
                name: back_name,
                description: back_description,
                fields: back_fields,
                interfaces: back_interfaces,
            }
            &&& back_name == name
            &&& back_description == description
            &&& same_fields(back_fields@, fields@)
            &&& references_to(back_interfaces@, names_of(interfaces@))
        },
        NamedType::Interface { name, description, fields, interfaces, .. } => {
            &&& back matches NamedType::Interface {
                name: back_name,
                description: back_description,
                fields: back_fields,
                interfaces: back_interfaces,
                ..
            }
            &&& back_name == name
            &&& back_description == description
            &&& same_fields(back_fields@, fields@)
            &&& references_to(back_interfaces@, names_of(interfaces@))
        },
        NamedType::Union { name, description, possible_types } => {
            &&& back matches NamedType::Union {
                name: back_name,
                description: back_description,
                possible_types: back_members,
            }
            &&& back_name == name
            &&& back_description == description
            &&& references_to(back_members@, names_of(possible_types@))
        },
        NamedType::Enum { name, description, enum_values } => {
            &&& back matches NamedType::Enum {
                name: back_name,
                description: back_description,
                enum_values: back_values,
            }
            &&& back_name == name
            &&& back_description == description
            &&& same_enum_values(back_values@, enum_values@)
        },
        NamedType::InputObject { name, description, input_fields } => {
            &&& back matches NamedType::InputObject {
                name: back_name,
                description: back_description,
                input_fields: back_fields,
            }
            &&& back_name == name
            &&& back_description == description
            &&& same_input_values(back_fields@, input_fields@)
        },
    }
}

proof fn lemma_input_values_read_back(
    back: Seq<InputValue>,
    written: Seq<syntax::schema::InputValue>,
    values: Seq<InputValue>,
)
    requires
        input_values_written(written, values),
    ensures
        input_values_are_valid(written) == input_values_well_formed(values),
        input_values_model(back, written) ==> same_input_values(back, values),
{
    assert forall|i: int| 0 <= i < values.len() implies type_ref_of(
        (#[trigger] written[i]).value_type,
    ) == values[i].of_type && type_is_valid(written[i].value_type)
        == values[i].of_type.well_formed() by {
        lemma_written_type_reads_back(values[i].of_type);
    }
    if input_values_well_formed(values) {
        assert forall|i: int| 0 <= i < written.len() implies type_is_valid(
            (#[trigger] written[i]).value_type,
        ) by {
            assert(values[i].of_type.well_formed());
        }
    }
    if input_values_are_valid(written) {
        assert forall|i: int| 0 <= i < values.len() implies (#[trigger] values[i]).of_type.well_formed() by {
            assert(type_is_valid(written[i].value_type));
        }
    }
    if input_values_model(back, written) {
        assert forall|i: int| 0 <= i < values.len() implies (#[trigger] back[i]).name
            == values[i].name && back[i].description == values[i].description && back[i].of_type
            == values[i].of_type by {
            assert(back[i] == input_value_of(written[i]));
            assert(written[i] == written_input_value(values[i]));
        }
    }
}

proof fn lemma_fields_read_back(back: Seq<Field>, written: Seq<syntax::schema::Field>, fields: Seq<Field>)
    requires
        fields_written(written, fields),
    ensures
        fields_are_valid(written) == fields_well_formed(fields),
        fields_model(back, written) ==> same_fields(back, fields),
{
    assert forall|i: int| 0 <= i < fields.len() implies field_is_valid(#[trigger] written[i]) == (
    fields[i].of_type.well_formed() && input_values_well_formed(fields[i].args@)) by {
        assert(written[i].writes(fields[i]));
        lemma_written_type_reads_back(fields[i].of_type);
        lemma_input_values_read_back(Seq::empty(), written[i].arguments@, fields[i].args@);
    }
    if fields_well_formed(fields) {
        assert forall|i: int| 0 <= i < written.len() implies field_is_valid(#[trigger] written[i]) by {
            assert(fields[i].of_type.well_formed());
        }
    }
    if fields_are_valid(written) {
        assert forall|i: int| 0 <= i < fields.len() implies (#[trigger] fields[i]).of_type.well_formed()
            && input_values_well_formed(fields[i].args@) by {
            assert(field_is_valid(written[i]));
        }
    }
    if fields_model(back, written) {
        assert forall|i: int| 0 <= i < fields.len() implies (#[trigger] back[i]).name
            == fields[i].name && back[i].description == fields[i].description && back[i].of_type
            == fields[i].of_type && same_input_values(back[i].args@, fields[i].args@) by {
            assert(back[i].models(written[i]));
            assert(written[i].writes(fields[i]));
            lemma_written_type_reads_back(fields[i].of_type);
            lemma_input_values_read_back(back[i].args@, written[i].arguments@, fields[i].args@);
        }
    }
}

/// A type that is written down and read back is the same type as far as the
/// document says; reading succeeds exactly when its references are well formed.
pub proof fn lemma_type_definition_reads_back(
    back: NamedType,
    written: syntax::schema::TypeDefinition,
    t: NamedType,
    definitions: Seq<syntax::schema::Definition>,
)
    requires
        written.writes(t),
    ensures
        type_definition_is_valid(written) == named_type_well_formed(t),
        back.models(written) || back.models_within(written, definitions) ==> equivalent(back, t),
{
    match t {
        NamedType::Object { fields, .. } => {
            let written_fields = written->Object_fields@;
            lemma_fields_read_back(back.spec_fields(), written_fields, fields@);
        },
        NamedType::Interface { fields, .. } => {
            let written_fields = written->Interface_fields@;
            lemma_fields_read_back(back.spec_fields(), written_fields, fields@);
        },
        NamedType::InputObject { input_fields, .. } => {
            let written_fields = written->InputObject_fields@;
            let back_fields = match back {
                NamedType::InputObject { input_fields, .. } => input_fields@,
                _ => Seq::empty(),
            };
            lemma_input_values_read_back(back_fields, written_fields, input_fields@);
        },
        NamedType::Enum { enum_values, .. } => {
            if back.models(written) || back.models_within(written, definitions) {
                let back_values = back->Enum_enum_values@;
                let written_values = written->Enum_values@;
                assert forall|i: int| 0 <= i < enum_values@.len() implies (#[trigger] back_values[i]).name
                    == enum_values@[i].name && back_values[i].description
                    == enum_values@[i].description by {
                    assert(back_values[i] == enum_value_of(written_values[i]));
                    assert(written_values[i] == written_enum_value(enum_values@[i]));
                }
            }
        },
        _ => {},
    }
}

proof fn lemma_written_types_well_formed(types: Seq<NamedType>)
    requires
        forall|i: int| 0 <= i < types.len() ==> named_type_well_formed(#[trigger] types[i]),
    ensures
        forall|i: int|
            0 <= i < written_types(types).len() ==> named_type_well_formed(
                #[trigger] written_types(types)[i],
            ),
    decreases types.len(),
{
    if types.len() > 0 {
        let earlier = written_types(types.drop_last());
        lemma_written_types_well_formed(types.drop_last());
        assert(named_type_well_formed(types[types.len() - 1]));
        assert forall|i: int| 0 <= i < written_types(types).len() implies named_type_well_formed(
            #[trigger] written_types(types)[i],
        ) by {
            if i < earlier.len() {
                assert(written_types(types)[i] == earlier[i]);
                assert(named_type_well_formed(earlier[i]));
            } else {
                assert(written_types(types)[i] == types.last());
            }
        }
    }
}

proof fn lemma_gather_type_definitions(
    definitions: Seq<syntax::schema::Definition>,
    types: Seq<NamedType>,
    upto: nat,
)
    requires
        upto <= types.len() <= definitions.len(),
        forall|i: int|
            0 <= i < types.len() ==> ((#[trigger] definitions[i]) matches syntax::schema::Definition::TypeDefinition(
                t,
            ) && t.writes(types[i])),
        forall|i: int| 0 <= i < types.len() ==> named_type_well_formed(#[trigger] types[i]),
    ensures
        gather(definitions, upto) matches Ok(gathered) && gathered.roots is None
            && gathered.directives.len() == 0 && gathered.types.len() == upto && forall|i: int|
            0 <= i < upto ==> definitions[i] == syntax::schema::Definition::TypeDefinition(
                #[trigger] gathered.types[i],
            ),
    decreases upto,
{
    if upto > 0 {
        lemma_gather_type_definitions(definitions, types, (upto - 1) as nat);
        let t = definitions[upto - 1]->TypeDefinition_0;
        assert(named_type_well_formed(types[upto - 1]));
        lemma_type_definition_reads_back(types[upto - 1], t, types[upto - 1], definitions);
    }
}

/// A schema that is written down as a schema definition document and read back is
/// the same schema as far as the document says: the same root names, and the same
/// types in the same order, each with the same name, fields and wrapping. The
/// internal types are not written.
pub proof fn lemma_schema_reads_back(schema: Schema, document: syntax::schema::Document, back: Schema)
    requires
        types_well_formed(schema.types@),
        document.writes(schema),
        read_document(document) matches Ok(gathered) && back.models(
            gathered,
            document.definitions@,
        ),
    ensures
        back.query_type.name == schema.query_type.name,
        back.mutation_type == schema.mutation_type,
        back.subscription_type == schema.subscription_type,
        back.types@.len() == written_types(schema.types@).len(),
        forall|i: int|
            0 <= i < back.types@.len() ==> equivalent(
                #[trigger] back.types@[i],
                written_types(schema.types@)[i],
            ),
{
    let types = written_types(schema.types@);
    let definitions = document.definitions@;
    lemma_written_types_well_formed(schema.types@);
    lemma_gather_type_definitions(definitions, types, types.len());
    let gathered = read_document(document)->Ok_0;
    assert(gathered.types.len() == types.len());
    assert forall|i: int| 0 <= i < back.types@.len() implies equivalent(
        #[trigger] back.types@[i],
        types[i],
    ) by {
        let before = gather(definitions, types.len())->Ok_0;
        assert(definitions[i] == syntax::schema::Definition::TypeDefinition(before.types[i]));
        assert(gathered.types[i] == before.types[i]);
        lemma_type_definition_reads_back(back.types@[i], gathered.types[i], types[i], definitions);
    }
}

/// A schema all of whose references are well formed can always be read back from
/// the document that writes it down.
pub proof fn lemma_written_schema_can_be_read(schema: Schema, document: syntax::schema::Document)
    requires
        types_well_formed(schema.types@),
        document.writes(schema),
    ensures
        read_document(document) is Ok,
{
    let types = written_types(schema.types@);
    lemma_written_types_well_formed(schema.types@);
    lemma_gather_type_definitions(document.definitions@, types, types.len());
}

/// Where no two types share a name, the index holds every type of the schema under
/// its own name.
pub proof fn lemma_unique_names_are_all_indexed(types: Seq<NamedType>, at: int)
    requires
        names_are_unique(types),
        0 <= at < types.len(),
    ensures
        type_map(types).contains_key(types[at].spec_name()),
        type_map(types)[types[at].spec_name()] == types[at],
    decreases types.len(),
{
    if at < types.len() - 1 {
        let earlier = types.drop_last();
        assert(names_are_unique(earlier)) by {
            assert forall|i: int, j: int| 0 <= i < j < earlier.len() implies (#[trigger] earlier[i]).spec_name()
                != (#[trigger] earlier[j]).spec_name() by {
                assert(earlier[i] == types[i]);
                assert(earlier[j] == types[j]);
            }
        }
        lemma_unique_names_are_all_indexed(earlier, at);
        assert(earlier[at] == types[at]);
        assert(types[at].spec_name() != types[types.len() - 1].spec_name());
    }
}

/// Whether a definition can be emitted, and why not, does not depend on what the
/// buffer already holds.
pub proof fn lemma_failure_ignores_the_buffer(
    env: Env,
    roots: Roots,
    options: TypescriptOptions,
    definition: Definition,
    one: BufferText,
    other: BufferText,
)
    ensures
        match (
            emit_definition(env, roots, options, definition, one),
            emit_definition(env, roots, options, definition, other),
        ) {
            (Ok(_), Ok(_)) => true,
            (Err(a), Err(b)) => a == b,
            _ => false,
        },
{
    reveal(emit_operation);
    reveal(emit_fragment);
}

/// Emitting the definitions of a document in order succeeds exactly when each of
/// them can be emitted on its own, and fails with the failure of the first that
/// cannot.
pub proof fn lemma_emission_fails_with_the_first_failure(
    env: Env,
    roots: Roots,
    options: TypescriptOptions,
    definitions: Seq<Definition>,
    from: int,
    buffer: BufferText,
)
    requires
        0 <= from <= definitions.len(),
    ensures
        match emit_definitions(env, roots, options, definitions, from, buffer) {
            Ok(_) => forall|k: int|
                from <= k < definitions.len() ==> definition_failure(
                    env,
                    roots,
                    options,
                    #[trigger] definitions[k],
                ) is None,
            Err(e) => exists|k: int|
                from <= k < definitions.len() && definition_failure(
                    env,
                    roots,
                    options,
                    #[trigger] definitions[k],
                ) == Some(e) && forall|j: int|
                    from <= j < k ==> definition_failure(
                        env,
                        roots,
                        options,
                        #[trigger] definitions[j],
                    ) is None,
        },
    decreases definitions.len() - from,
{
    if from < definitions.len() {
        lemma_failure_ignores_the_buffer(
            env,
            roots,
            options,
            definitions[from],
            buffer,
            BufferText::empty(),
        );
        match emit_definition(env, roots, options, definitions[from], buffer) {
            Err(e) => {
                assert(definition_failure(env, roots, options, definitions[from]) == Some(e));
            },
            Ok(written) => {
                lemma_emission_fails_with_the_first_failure(
                    env,
                    roots,
                    options,
                    definitions,
                    from + 1,
                    written,
                );
                match emit_definitions(env, roots, options, definitions, from + 1, written) {
                    Ok(_) => {
                        assert forall|k: int| from <= k < definitions.len() implies definition_failure(
                            env,
                            roots,
                            options,
                            #[trigger] definitions[k],
                        ) is None by {}
                    },
                    Err(e) => {
                        let k = choose|k: int|
                            from + 1 <= k < definitions.len() && definition_failure(
                                env,
                                roots,
                                options,
                                #[trigger] definitions[k],
                            ) == Some(e) && forall|j: int|
                                from + 1 <= j < k ==> definition_failure(
                                    env,
                                    roots,
                                    options,
                                    #[trigger] definitions[j],
                                ) is None;
                        assert forall|j: int| from <= j < k implies definition_failure(
                            env,
                            roots,
                            options,
                            #[trigger] definitions[j],
                        ) is None by {}
                    },
                }
            },
        }
    }
}

} // verus!
