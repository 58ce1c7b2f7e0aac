//! Declarations for the operations and fragments of a document: for each, a document
//! constant, and the types of its selection set and of its arguments.

use vstd::prelude::*;
use vstd::string::*;
use crate::gen::{Buffer, BufferText};
use crate::index::{IndexError, IndexFailure, TypeIndex};
use crate::json::{document_json, single_definition_document};
use crate::options::TypescriptOptions;
use crate::query::{
    Definition, Fragment, NamedOperation, Operation, OperationType, Type, VariableDefinition,
    VariableDefinitions,
};
use crate::schema::{NamedType, TypeRef};
use crate::text::{pascal_case, to_pascal_case};
use crate::typescript::{
    agrees, Context, Env, ProjectionError, ProjectionFailure, Roots, Typescriptable, WithContext,
};
use crate::typescript::graphql_type::{
    optional_mark, prepend, prepend_end, TypescriptableWithBuffer,
};
use crate::typescript::selection::{
    fragment_type_name, fragment_type_name_of, project_on, project_selection_set,
};
use crate::typescript::type_ref::{ref_typescript, type_ref_as_typescript};

verus! {

/// The kind of an operation as it appears in the names of its declarations.
pub open spec fn operation_kind_name(operation: OperationType) -> Seq<char> {
    match operation {
        OperationType::Query => "Query"@,
        OperationType::Mutation => "Mutation"@,
        OperationType::Subscription => "Subscription"@,
    }
}

/// The kind as the names of an operation's declarations show it: not at all where
/// the options hide it.
pub open spec fn shown_kind(options: TypescriptOptions, operation: OperationType) -> Seq<char> {
    if options.documents_hide_operation_name {
        Seq::empty()
    } else {
        operation_kind_name(operation)
    }
}

/// The stem that the three declarations of an operation share.
pub open spec fn operation_stem(options: TypescriptOptions, operation: OperationType, name: Seq<char>) -> Seq<
    char,
> {
    pascal_case(name) + shown_kind(options, operation)
}

/// One variable as an entry of the arguments type. A variable that may be null may
/// also be left out.
pub open spec fn argument_entry(types: Map<Seq<char>, NamedType>, definition: VariableDefinition) -> Result<
    Seq<char>,
    ProjectionFailure,
> {
    let of_type = definition.of_type.spec_type_ref();
    prepend(
        definition.variable.name.0@ + optional_mark(of_type) + ": "@,
        ref_typescript(types, of_type, true),
    )
}

/// The entries of the variables from `from` on, separated by commas. The first
/// variable whose type cannot be resolved decides the failure.
pub open spec fn argument_entries(
    types: Map<Seq<char>, NamedType>,
    definitions: Seq<VariableDefinition>,
    from: int,
) -> Result<Seq<char>, ProjectionFailure>
    decreases definitions.len() - from,
{
    if from < 0 || from >= definitions.len() {
        Ok(Seq::empty())
    } else {
        match argument_entry(types, definitions[from]) {
            Err(e) => Err(e),
            Ok(entry) => prepend(
                if from + 1 < definitions.len() {
                    entry + ", "@
                } else {
                    entry
                },
                argument_entries(types, definitions, from + 1),
            ),
        }
    }
}

/// The type of an operation's arguments: an object with one entry for each variable,
/// or a record without keys where the operation has no variables.
pub open spec fn arguments_type(types: Map<Seq<char>, NamedType>, definitions: Seq<VariableDefinition>) -> Result<
    Seq<char>,
    ProjectionFailure,
> {
    if definitions.len() == 0 {
        Ok("Record<string, never>"@)
    } else {
        prepend("{ "@, prepend_end(argument_entries(types, definitions, 0), " }"@))
    }
}

/// The root type that an operation of the given kind is selected on.
pub open spec fn root_type(roots: Roots, operation: OperationType) -> Result<NamedType, ProjectionFailure> {
    let root = match operation {
        OperationType::Query => Some(roots.query),
        OperationType::Mutation => roots.mutation,
        OperationType::Subscription => roots.subscription,
    };
    match root {
        None => Err(ProjectionFailure::MissingRootType),
        Some(t) => if t is Object {
            Ok(t)
        } else {
            Err(ProjectionFailure::RootNotObject { name: t.spec_name() })
        },
    }
}

/// The buffer after `text` has been added to the section of the operation's kind.
pub open spec fn with_operation(buffer: BufferText, operation: OperationType, text: Seq<char>) -> BufferText {
    match operation {
        OperationType::Query => BufferText { queries: buffer.queries + text, ..buffer },
        OperationType::Mutation => BufferText { mutations: buffer.mutations + text, ..buffer },
        OperationType::Subscription => BufferText {
            subscriptions: buffer.subscriptions + text,
            ..buffer
        },
    }
}

/// The constant that holds the document of one definition.
pub open spec fn document_constant(
    constant: Seq<char>,
    json: Seq<char>,
    wrapper: Seq<char>,
    selection_set: Seq<char>,
    arguments: Seq<char>,
) -> Seq<char> {
    "export const "@ + constant + " = "@ + json + " as unknown as "@ + wrapper + "<"@ + selection_set
        + ", "@ + arguments + ">;\n"@
}

/// A type alias on a line of its own.
pub open spec fn type_alias(name: Seq<char>, body: Seq<char>) -> Seq<char> {
    "export type "@ + name + " = "@ + body + ";\n"@
}

/// What emitting a named operation makes of a buffer.
///
/// The operation needs a name and a root type that is an object; its arguments must
/// resolve and its selection set must project. Then the document constant goes to
/// the section of the operation's kind, and the two types to theirs.
#[verifier::opaque]
pub open spec fn emit_operation(
    env: Env,
    roots: Roots,
    options: TypescriptOptions,
    named: NamedOperation,
    buffer: BufferText,
) -> Result<BufferText, ProjectionFailure> {
    match named.name {
        None => Err(ProjectionFailure::AnonymousOperation),
        Some(name) => match root_type(roots, named.operation) {
            Err(e) => Err(e),
            Ok(root) => match arguments_type(env.types, named.variable_definitions.0@) {
                Err(e) => Err(e),
                Ok(arguments) => match project_selection_set(env, root, named.selection_set) {
                    Err(e) => Err(e),
                    Ok(projection) => {
                        let stem = operation_stem(options, named.operation, name.0@);
                        let selection_set_name = stem + options.selection_set_suffix@;
                        let arguments_name = stem + options.arguments_suffix@;
                        let constant = document_constant(
                            stem + "Document"@,
                            document_json(
                                seq![Definition::Operation(Operation::NamedOperation(named))],
                            ),
                            options.document_import.0@,
                            selection_set_name,
                            arguments_name,
                        );
                        let written = with_operation(buffer, named.operation, constant);
                        Ok(
                            BufferText {
                                args: written.args + type_alias(arguments_name, arguments),
                                selection_sets: written.selection_sets + type_alias(
                                    selection_set_name,
                                    projection,
                                ),
                                ..written
                            },
                        )
                    },
                },
            },
        },
    }
}

/// What emitting a fragment makes of a buffer.
///
/// The fragment's type condition must name a fielded type, and its selection set
/// must project on it. The selection-set type is declared once, under the name by
/// which every spread refers to it.
#[verifier::opaque]
pub open spec fn emit_fragment(env: Env, options: TypescriptOptions, fragment: Fragment, buffer: BufferText) -> Result<
    BufferText,
    ProjectionFailure,
> {
    let condition = fragment.type_condition.name.0@;
    if !env.types.contains_key(condition) {
        Err(ProjectionFailure::Index(IndexFailure::UnknownType(condition)))
    } else if !env.types[condition].spec_is_fielded() {
        Err(ProjectionFailure::NotFielded { name: condition })
    } else {
        match project_selection_set(env, env.types[condition], fragment.selection_set) {
            Err(e) => Err(e),
            Ok(projection) => {
                let selection_set_name = fragment_type_name(fragment.name.0@, env.suffix);
                let constant = document_constant(
                    pascal_case(fragment.name.0@) + "FragmentDocument"@,
                    document_json(seq![Definition::Fragment(fragment)]),
                    options.document_import.0@,
                    selection_set_name,
                    "unknown"@,
                );
                Ok(
                    BufferText {
                        fragments: buffer.fragments + constant,
                        selection_sets: buffer.selection_sets + type_alias(
                            selection_set_name,
                            projection,
                        ),
                        ..buffer
                    },
                )
            },
        }
    }
}

/// What emitting one definition of a document makes of a buffer. A selection set
/// without an operation keyword is refused.
pub open spec fn emit_definition(
    env: Env,
    roots: Roots,
    options: TypescriptOptions,
    definition: Definition,
    buffer: BufferText,
) -> Result<BufferText, ProjectionFailure> {
    match definition {
        Definition::Operation(Operation::SelectionSet(_)) => Err(
            ProjectionFailure::AnonymousSelectionSet,
        ),
        Definition::Operation(Operation::NamedOperation(named)) => emit_operation(
            env,
            roots,
            options,
            named,
            buffer,
        ),
        Definition::Fragment(fragment) => emit_fragment(env, options, fragment, buffer),
    }
}

fn kind_name(operation: OperationType) -> (name: &'static str)
    ensures
        name@ == operation_kind_name(operation),
{
    match operation {
        OperationType::Query => "Query",
        OperationType::Mutation => "Mutation",
        OperationType::Subscription => "Subscription",
    }
}

/// The type of an operation's arguments.
pub fn arguments_type_of(index: &TypeIndex, definitions: &Vec<VariableDefinition>) -> (ts: Result<
    String,
    ProjectionError,
>)
    ensures
        agrees(ts, arguments_type(index@, definitions@)),
{
    if definitions.len() == 0 {
        return Ok(String::from_str("Record<string, never>"));
    }
    let mut out = String::from_str("{ ");
    let mut entries = String::new();
    let mut i: usize = 0;
    while i < definitions.len()
        invariant
            i <= definitions.len(),
            argument_entries(index@, definitions@, 0) == prepend(
                entries@,
                argument_entries(index@, definitions@, i as int),
            ),
        decreases definitions.len() - i,
    {
        let definition = &definitions[i];
        let ghost before = entries@;
        let of_type = definition.of_type.type_ref();
        let mut entry = String::from_str(definition.variable.name.0.as_str());
        if !of_type.is_non_null() {
            entry.append("?");
        }
        entry.append(": ");
        match type_ref_as_typescript(index, &of_type, true) {
            Err(e) => {
                return Err(e);
            },
            Ok(ts) => {
                entry.append(ts.as_str());
            },
        }
        if i + 1 < definitions.len() {
            entry.append(", ");
        }
        entries.append(entry.as_str());
        proof {
            match argument_entries(index@, definitions@, i + 1) {
                Ok(rest) => {
                    assert(before + (entry@ + rest) =~= (before + entry@) + rest);
                },
                Err(_) => {},
            }
        }
        i += 1;
    }
    entries.append(" }");
    out.append(entries.as_str());
    Ok(out)
}

fn write_document_constant(constant: &str, json: &str, wrapper: &str, selection_set: &str, arguments: &str) -> (out: String)
    ensures
        out@ == document_constant(constant@, json@, wrapper@, selection_set@, arguments@),
{
    let mut out = String::from_str("export const ");
    out.append(constant);
    out.append(" = ");
    out.append(json);
    out.append(" as unknown as ");
    out.append(wrapper);
    out.append("<");
    out.append(selection_set);
    out.append(", ");
    out.append(arguments);
    out.append(">;\n");
    out
}

fn write_type_alias(name: &str, body: &str) -> (out: String)
    ensures
        out@ == type_alias(name@, body@),
{
    let mut out = String::from_str("export type ");
    out.append(name);
    out.append(" = ");
    out.append(body);
    out.append(";\n");
    out
}

fn root_of<'x>(ctx: &'x Context<'_>, operation: OperationType) -> (root: Result<
    &'x NamedType,
    ProjectionError,
>)
    ensures
        match root {
            Ok(t) => root_type(ctx.roots(), operation) == Ok::<NamedType, ProjectionFailure>(*t),
            Err(e) => root_type(ctx.roots(), operation) == Err::<NamedType, ProjectionFailure>(e@),
        },
{
    let root = match operation {
        OperationType::Query => Some(ctx.index.query()),
        OperationType::Mutation => ctx.index.mutation(),
        OperationType::Subscription => ctx.index.subscription(),
    };
    match root {
        None => Err(ProjectionError::MissingRootType),
        Some(t) => match t {
            NamedType::Object { .. } => Ok(t),
            _ => Err(ProjectionError::RootNotObject { name: String::from_str(t.name()) }),
        },
    }
}

impl<'a, 'b, 'c> Typescriptable for WithContext<'a, 'b, 'c, VariableDefinitions> {
    open spec fn spec_typescript(&self) -> Result<Seq<char>, ProjectionFailure> {
        arguments_type(self.ctx.index@, self.target.0@)
    }

    open spec fn spec_typescript_non_nullable(&self) -> Result<Seq<char>, ProjectionFailure> {
        arguments_type(self.ctx.index@, self.target.0@)
    }

    /// The type of the arguments that these variables make up.
    fn as_typescript(&self) -> (ts: Result<String, ProjectionError>) {
        arguments_type_of(&self.ctx.index, &self.target.0)
    }

    fn as_typescript_non_nullable(&self) -> (ts: Result<String, ProjectionError>) {
        arguments_type_of(&self.ctx.index, &self.target.0)
    }
}

/// The reference that a variable's type stands for, once its named type is known to
/// the index. Fails exactly when the name at the bottom of the type is unknown.
pub fn try_type_ref_from_arg(index: &TypeIndex, arg: &Type) -> (converted: Result<TypeRef, IndexError>)
    ensures
        match converted {
            Ok(type_ref) => index@.contains_key(arg.spec_type_ref().base_name()) && type_ref
                == arg.spec_type_ref(),
            Err(e) => !index@.contains_key(arg.spec_type_ref().base_name()) && e@
                == IndexFailure::UnknownType(arg.spec_type_ref().base_name()),
        },
{
    let type_ref = arg.type_ref();
    let base = type_ref.innermost_name();
    match index.get(base) {
        Some(_) => Ok(type_ref),
        None => Err(IndexError::UnknownType(String::from_str(base))),
    }
}

impl<'a, 'b, 'c> TypescriptableWithBuffer for WithContext<'a, 'b, 'c, Definition> {
    open spec fn spec_typescript_on(&self, buffer: BufferText) -> Result<BufferText, ProjectionFailure> {
        emit_definition(self.ctx.env(), self.ctx.roots(), self.ctx.options, *self.target, buffer)
    }

    fn as_typescript_on(&self, buffer: &mut Buffer) -> (done: Result<(), ProjectionError>) {
        proof {
            reveal(emit_operation);
            reveal(emit_fragment);
        }
        let ctx = self.ctx;
        let options = &ctx.options;
        match self.target {
            Definition::Operation(Operation::SelectionSet(_)) => Err(
                ProjectionError::AnonymousSelectionSet,
            ),
            Definition::Operation(Operation::NamedOperation(named)) => {
                let name = match &named.name {
                    None => {
                        return Err(ProjectionError::AnonymousOperation);
                    },
                    Some(name) => name,
                };
                let root = match root_of(ctx, named.operation) {
                    Err(e) => {
                        return Err(e);
                    },
                    Ok(root) => root,
                };
                let arguments = match arguments_type_of(&ctx.index, &named.variable_definitions.0) {
                    Err(e) => {
                        return Err(e);
                    },
                    Ok(arguments) => arguments,
                };
                let projection = match project_on(ctx, root, &named.selection_set) {
                    Err(e) => {
                        return Err(e);
                    },
                    Ok(projection) => projection,
                };
                let mut stem = to_pascal_case(name.0.as_str());
                if !options.documents_hide_operation_name {
                    stem.append(kind_name(named.operation));
                }
                let mut selection_set_name = stem.clone();
                selection_set_name.append(options.selection_set_suffix.as_str());
                let mut arguments_name = stem.clone();
                arguments_name.append(options.arguments_suffix.as_str());
                let mut constant_name = stem;
                constant_name.append("Document");
                let json = single_definition_document(self.target);
                let constant = write_document_constant(
                    constant_name.as_str(),
                    json.as_str(),
                    options.document_import.imported_type(),
                    selection_set_name.as_str(),
                    arguments_name.as_str(),
                );
                match named.operation {
                    OperationType::Query => buffer.queries.append(constant.as_str()),
                    OperationType::Mutation => buffer.mutations.append(constant.as_str()),
                    OperationType::Subscription => buffer.subscriptions.append(constant.as_str()),
                }
                buffer.args.append(write_type_alias(arguments_name.as_str(), arguments.as_str()).as_str());
                buffer.selection_sets.append(
                    write_type_alias(selection_set_name.as_str(), projection.as_str()).as_str(),
                );
                Ok(())
            },
            Definition::Fragment(fragment) => {
                let condition = fragment.type_condition.name.0.as_str();
                let on = match ctx.index.get(condition) {
                    None => {
                        return Err(
                            ProjectionError::Index(
                                IndexError::UnknownType(fragment.type_condition.name.0.clone()),
                            ),
                        );
                    },
                    Some(on) => on,
                };
                if !on.is_fielded() {
                    return Err(
                        ProjectionError::NotFielded { name: fragment.type_condition.name.0.clone() },
                    );
                }
                let projection = match project_on(ctx, on, &fragment.selection_set) {
                    Err(e) => {
                        return Err(e);
                    },
                    Ok(projection) => projection,
                };
                let selection_set_name = fragment_type_name_of(
                    fragment.name.0.as_str(),
                    options.selection_set_suffix.as_str(),
                );
                let mut constant_name = to_pascal_case(fragment.name.0.as_str());
                constant_name.append("FragmentDocument");
                let json = single_definition_document(self.target);
                let constant = write_document_constant(
                    constant_name.as_str(),
                    json.as_str(),
                    options.document_import.imported_type(),
                    selection_set_name.as_str(),
                    "unknown",
                );
                buffer.fragments.append(constant.as_str());
                buffer.selection_sets.append(
                    write_type_alias(selection_set_name.as_str(), projection.as_str()).as_str(),
                );
                Ok(())
            },
        }
    }
}

} // verus!
