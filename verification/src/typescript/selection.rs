//! The selection projector: the TypeScript type that a selection set yields on a
//! fielded type.

use vstd::prelude::*;
use vstd::string::*;
use crate::index::{IndexError, IndexFailure};
use crate::query;
use crate::query::{Selection, SelectionSet};
use crate::schema::{NamedType, TypeRef};
use crate::text::{pascal_case, to_pascal_case};
use crate::typescript::{agrees, Context, Env, ProjectionError, ProjectionFailure, TypescriptName};
use crate::typescript::type_ref::{render_ref, render_type_ref, typescript_name_of};

verus! {

/// What one selection adds to the type of its selection set.
pub enum Piece {
    /// An entry `key: Type` of the object literal.
    Field(Seq<char>),
    /// A type that is intersected with the object literal.
    Fragment(Seq<char>),
}

/// The name by which a fragment's selection-set type is referred to.
pub open spec fn fragment_type_name(name: Seq<char>, suffix: Seq<char>) -> Seq<char> {
    pascal_case(name) + "Fragment"@ + suffix
}

/// The entries written so far, followed by one more.
pub open spec fn join_entry(entries: Seq<char>, entry: Seq<char>) -> Seq<char> {
    if entries.len() == 0 {
        entry
    } else {
        entries + ", "@ + entry
    }
}

/// The object literal around the entries of the directly selected fields.
pub open spec fn object_literal(entries: Seq<char>) -> Seq<char> {
    if entries.len() == 0 {
        "{}"@
    } else {
        "{ "@ + entries + " }"@
    }
}

/// The type that the selection set of an inline fragment is projected on: the object
/// itself where there is no condition, the named member of a union or an interface.
pub open spec fn narrowed(env: Env, on: NamedType, condition: Option<query::NamedType>) -> Result<
    NamedType,
    ProjectionFailure,
> {
    match on {
        NamedType::Object { .. } => match condition {
            Some(c) => Err(
                ProjectionFailure::TypeConditionOnObject { name: c.name.0@, on: on.spec_name() },
            ),
            None => Ok(on),
        },
        NamedType::Interface { .. } | NamedType::Union { .. } => match condition {
            None => Err(ProjectionFailure::MissingTypeCondition { on: on.spec_name() }),
            Some(c) => if !on.spec_has_possible_type(c.name.0@) {
                Err(ProjectionFailure::InvalidTypeCondition { name: c.name.0@, on: on.spec_name() })
            } else if !env.types.contains_key(c.name.0@) {
                Err(ProjectionFailure::Index(IndexFailure::UnknownType(c.name.0@)))
            } else {
                Ok(env.types[c.name.0@])
            },
        },
        _ => Err(ProjectionFailure::NotFielded { name: on.spec_name() }),
    }
}

/// The type of one selected field whose declared type is `of_type`.
///
/// A leaf is written by its name. A fielded type needs a selection set with at least
/// one selection, which is projected on it. Either stands inside the wrappers of
/// `of_type`.
pub open spec fn project_field(env: Env, of_type: TypeRef, field: query::Field) -> Result<
    Seq<char>,
    ProjectionFailure,
>
    decreases field,
{
    let base = of_type.base_name();
    if !env.types.contains_key(base) {
        Err(ProjectionFailure::Index(IndexFailure::UnknownType(base)))
    } else if env.types[base].spec_is_fielded() {
        match field.selection_set {
            Some(set) => if set.selections@.len() == 0 {
                Err(ProjectionFailure::MissingSelectionSet { field: field.name.0@ })
            } else {
                match project_selection_set(env, env.types[base], set) {
                    Ok(body) => Ok(render_ref(of_type, true, body)),
                    Err(e) => Err(e),
                }
            },
            None => Err(ProjectionFailure::MissingSelectionSet { field: field.name.0@ }),
        }
    } else {
        Ok(render_ref(of_type, true, typescript_name_of(env.types[base])))
    }
}

/// What one selection on the type `on` adds.
pub open spec fn project_selection(env: Env, on: NamedType, selection: Selection) -> Result<
    Piece,
    ProjectionFailure,
>
    decreases selection,
{
    match selection {
        Selection::Field(field) => match on.spec_get_field(field.name.0@) {
            None => Err(
                ProjectionFailure::UnknownField { name: field.name.0@, on: on.spec_name() },
            ),
            Some(declared) => match project_field(env, declared.of_type, field) {
                Ok(ts) => Ok(Piece::Field(field.spec_response_key() + ": "@ + ts)),
                Err(e) => Err(e),
            },
        },
        Selection::InlineFragment(inline) => match narrowed(env, on, inline.type_condition) {
            Err(e) => Err(e),
            Ok(member) => match project_selection_set(env, member, inline.selection_set) {
                Ok(ts) => Ok(Piece::Fragment(ts)),
                Err(e) => Err(e),
            },
        },
        Selection::FragmentSpread(spread) => if env.fragments.contains(spread.name.0@) {
            Ok(Piece::Fragment(fragment_type_name(spread.name.0@, env.suffix)))
        } else {
            Err(ProjectionFailure::UnknownFragment { name: spread.name.0@ })
        },
    }
}

/// The entries and the intersected types of a list of selections, in selection
/// order. The first selection that fails decides the failure.
pub open spec fn project_selections(env: Env, on: NamedType, selections: Seq<Selection>) -> Result<
    (Seq<char>, Seq<char>),
    ProjectionFailure,
>
    decreases selections,
{
    if selections.len() == 0 {
        Ok((Seq::empty(), Seq::empty()))
    } else {
        match project_selections(env, on, selections.subrange(0, selections.len() - 1)) {
            Err(e) => Err(e),
            Ok((entries, fragments)) => match project_selection(
                env,
                on,
                selections[selections.len() - 1],
            ) {
                Err(e) => Err(e),
                Ok(Piece::Field(entry)) => Ok((join_entry(entries, entry), fragments)),
                Ok(Piece::Fragment(ts)) => Ok((entries, fragments + " & "@ + ts)),
            },
        }
    }
}

/// The TypeScript type of a selection set on the type `on`: an object literal of the
/// directly selected fields, intersected with every fragment in selection order.
pub open spec fn project_selection_set(env: Env, on: NamedType, set: SelectionSet) -> Result<
    Seq<char>,
    ProjectionFailure,
>
    decreases set,
{
    match project_selections(env, on, set.selections@) {
        Ok((entries, fragments)) => Ok(object_literal(entries) + fragments),
        Err(e) => Err(e),
    }
}

/// The name of a fragment's selection-set type.
pub fn fragment_type_name_of(name: &str, suffix: &str) -> (out: String)
    ensures
        out@ == fragment_type_name(name@, suffix@),
{
    let mut out = to_pascal_case(name);
    out.append("Fragment");
    out.append(suffix);
    out
}

fn narrow<'x>(ctx: &'x Context<'_>, on: &'x NamedType, condition: &Option<query::NamedType>) -> (member: Result<
    &'x NamedType,
    ProjectionError,
>)
    ensures
        match member {
            Ok(t) => narrowed(ctx.env(), *on, *condition) == Ok::<NamedType, ProjectionFailure>(*t),
            Err(e) => narrowed(ctx.env(), *on, *condition) == Err::<NamedType, ProjectionFailure>(
                e@,
            ),
        },
{
    match on {
        NamedType::Object { .. } => match condition {
            Some(c) => Err(
                ProjectionError::TypeConditionOnObject {
                    name: c.name.0.clone(),
                    on: String::from_str(on.name()),
                },
            ),
            None => Ok(on),
        },
        NamedType::Interface { .. } | NamedType::Union { .. } => match condition {
            None => Err(ProjectionError::MissingTypeCondition { on: String::from_str(on.name()) }),
            Some(c) => {
                if !on.has_possible_type(c.name.0.as_str()) {
                    Err(
                        ProjectionError::InvalidTypeCondition {
                            name: c.name.0.clone(),
                            on: String::from_str(on.name()),
                        },
                    )
                } else {
                    match ctx.index.get(c.name.0.as_str()) {
                        Some(t) => Ok(t),
                        None => Err(
                            ProjectionError::Index(IndexError::UnknownType(c.name.0.clone())),
                        ),
                    }
                }
            },
        },
        _ => Err(ProjectionError::NotFielded { name: String::from_str(on.name()) }),
    }
}

fn project_field_exec(ctx: &Context<'_>, of_type: &TypeRef, field: &query::Field) -> (ts: Result<
    String,
    ProjectionError,
>)
    ensures
        agrees(ts, project_field(ctx.env(), *of_type, *field)),
    decreases field,
{
    let base = of_type.innermost_name();
    match ctx.index.get(base) {
        None => Err(ProjectionError::Index(IndexError::UnknownType(String::from_str(base)))),
        Some(t) => {
            if t.is_fielded() {
                match &field.selection_set {
                    Some(set) => {
                        if set.selections.len() == 0 {
                            Err(
                                ProjectionError::MissingSelectionSet {
                                    field: field.name.0.clone(),
                                },
                            )
                        } else {
                            match project_on(ctx, t, set) {
                                Ok(body) => Ok(render_type_ref(of_type, true, body.as_str())),
                                Err(e) => Err(e),
                            }
                        }
                    },
                    None => Err(
                        ProjectionError::MissingSelectionSet { field: field.name.0.clone() },
                    ),
                }
            } else {
                let leaf = t.typescript_name();
                Ok(render_type_ref(of_type, true, leaf.as_str()))
            }
        },
    }
}

/// One selection's contribution: `Ok((true, entry))` for a field, `Ok((false, type))`
/// for a fragment.
fn project_one(ctx: &Context<'_>, on: &NamedType, selection: &Selection) -> (piece: Result<
    (bool, String),
    ProjectionError,
>)
    ensures
        match piece {
            Ok((is_field, text)) => project_selection(ctx.env(), *on, *selection) == Ok::<
                Piece,
                ProjectionFailure,
            >(if is_field {
                Piece::Field(text@)
            } else {
                Piece::Fragment(text@)
            }),
            Err(e) => project_selection(ctx.env(), *on, *selection) == Err::<
                Piece,
                ProjectionFailure,
            >(e@),
        },
    decreases selection,
{
    match selection {
        Selection::Field(field) => match on.get_field(field.name.0.as_str()) {
            None => Err(
                ProjectionError::UnknownField {
                    name: field.name.0.clone(),
                    on: String::from_str(on.name()),
                },
            ),
            Some(declared) => match project_field_exec(ctx, &declared.of_type, field) {
                Ok(ts) => {
                    let mut entry = String::from_str(field.response_key());
                    entry.append(": ");
                    entry.append(ts.as_str());
                    Ok((true, entry))
                },
                Err(e) => Err(e),
            },
        },
        Selection::InlineFragment(inline) => match narrow(ctx, on, &inline.type_condition) {
            Err(e) => Err(e),
            Ok(member) => match project_on(ctx, member, &inline.selection_set) {
                Ok(ts) => Ok((false, ts)),
                Err(e) => Err(e),
            },
        },
        Selection::FragmentSpread(spread) => {
            if ctx.fragments.contains(spread.name.0.as_str()) {
                Ok(
                    (
                        false,
                        fragment_type_name_of(
                            spread.name.0.as_str(),
                            ctx.options.selection_set_suffix.as_str(),
                        ),
                    ),
                )
            } else {
                Err(ProjectionError::UnknownFragment { name: spread.name.0.clone() })
            }
        },
    }
}

/// Projects a selection set on the type `on`.
///
/// Succeeds exactly when every selection does; the first selection that fails, in
/// selection order, decides the error.
pub fn project_on(ctx: &Context<'_>, on: &NamedType, set: &SelectionSet) -> (ts: Result<
    String,
    ProjectionError,
>)
    ensures
        agrees(ts, project_selection_set(ctx.env(), *on, *set)),
    decreases set,
{
    let mut entries = String::new();
    let mut any_entry = false;
    let mut fragments = String::new();
    let mut i: usize = 0;
    while i < set.selections.len()
        invariant
            i <= set.selections.len(),
            any_entry == (entries@.len() > 0),
            project_selections(ctx.env(), *on, set.selections@.subrange(0, i as int)) == Ok::<
                (Seq<char>, Seq<char>),
                ProjectionFailure,
            >((entries@, fragments@)),
        decreases set.selections.len() - i,
    {
        proof {
            assert(set.selections@.subrange(0, i + 1).subrange(0, i as int)
                == set.selections@.subrange(0, i as int));
        }
        match project_one(ctx, on, &set.selections[i]) {
            Err(e) => {
                proof {
                    lemma_failure_stays(ctx.env(), *on, set.selections@, i + 1);
                }
                return Err(e);
            },
            Ok((is_field, text)) => {
                if is_field {
                    proof {
                        reveal_strlit(": ");
                    }
                    if any_entry {
                        entries.append(", ");
                    }
                    entries.append(text.as_str());
                    any_entry = true;
                } else {
                    fragments.append(" & ");
                    fragments.append(text.as_str());
                }
            },
        }
        i += 1;
    }
    proof {
        assert(set.selections@.subrange(0, i as int) == set.selections@);
    }
    let mut out = if any_entry {
        let mut literal = String::from_str("{ ");
        literal.append(entries.as_str());
        literal.append(" }");
        literal
    } else {
        String::from_str("{}")
    };
    out.append(fragments.as_str());
    Ok(out)
}

/// Once a prefix of the selections fails, every longer prefix fails in the same way.
pub proof fn lemma_failure_stays(env: Env, on: NamedType, selections: Seq<Selection>, upto: int)
    requires
        0 <= upto <= selections.len(),
        project_selections(env, on, selections.subrange(0, upto)) is Err,
    ensures
        project_selections(env, on, selections) == project_selections(
            env,
            on,
            selections.subrange(0, upto),
        ),
    decreases selections.len() - upto,
{
    if upto < selections.len() {
        assert(selections.subrange(0, upto + 1).subrange(0, upto) == selections.subrange(0, upto));
        lemma_failure_stays(env, on, selections, upto + 1);
    } else {
        assert(selections.subrange(0, upto) == selections);
    }
}

} // verus!
