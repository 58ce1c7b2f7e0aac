//! The generated module: its sections, and the fixed order in which they are written.

use vstd::prelude::*;
use vstd::string::*;
use crate::index::{optional_root, type_map, IndexFailure, TypeIndex};
use crate::options::{ScalarNewtypes, TypescriptOptions};
use crate::query::{Definition, Document};
use crate::schema::{NamedType, Schema};
use crate::typescript::{
    agrees, Context, Env, FragmentNames, ProjectionError, ProjectionFailure, Roots,
};
use crate::typescript::definition::emit_definition;
use crate::typescript::fragments::{find_fragment_cycle, first_cyclic};
use crate::typescript::graphql_type::{emit_named_type, TypescriptableWithBuffer};

verus! {

/// The sections of a generated module, each the text gathered for it so far.
pub struct Buffer {
    pub imports: String,
    pub util_types: String,
    pub scalars: String,
    pub enums: String,
    pub objects: String,
    pub input_objects: String,
    pub interfaces: String,
    pub unions: String,
    pub selection_sets: String,
    pub args: String,
    pub queries: String,
    pub mutations: String,
    pub subscriptions: String,
    pub fragments: String,
}

/// The text of every section of a [`Buffer`].
pub struct BufferText {
    pub imports: Seq<char>,
    pub util_types: Seq<char>,
    pub scalars: Seq<char>,
    pub enums: Seq<char>,
    pub objects: Seq<char>,
    pub input_objects: Seq<char>,
    pub interfaces: Seq<char>,
    pub unions: Seq<char>,
    pub selection_sets: Seq<char>,
    pub args: Seq<char>,
    pub queries: Seq<char>,
    pub mutations: Seq<char>,
    pub subscriptions: Seq<char>,
    pub fragments: Seq<char>,
}

impl BufferText {
    /// A buffer with nothing written to it.
    pub open spec fn empty() -> BufferText {
        BufferText {
            imports: Seq::empty(),
            util_types: Seq::empty(),
            scalars: Seq::empty(),
            enums: Seq::empty(),
            objects: Seq::empty(),
            input_objects: Seq::empty(),
            interfaces: Seq::empty(),
            unions: Seq::empty(),
            selection_sets: Seq::empty(),
            args: Seq::empty(),
            queries: Seq::empty(),
            mutations: Seq::empty(),
            subscriptions: Seq::empty(),
            fragments: Seq::empty(),
        }
    }

    /// The whole module: the imports, then every section under its heading, always
    /// in the same order.
    pub open spec fn module_text(self) -> Seq<char> {
        self.imports + "\n"@ + "// Utility types\n"@ + self.util_types + "\n"@ + "// Scalars\n"@
            + self.scalars + "\n"@ + "// Enums\n"@ + self.enums + "\n"@ + "// Objects\n"@
            + self.objects + "\n"@ + "// Input Objects\n"@ + self.input_objects + "\n"@
            + "// Interfaces\n"@ + self.interfaces + "\n"@ + "// Unions\n"@ + self.unions + "\n"@
            + "// Selection Sets\n"@ + self.selection_sets + "\n"@ + "// Args\n"@ + self.args
            + "\n"@ + "// Queries\n"@ + self.queries + "\n"@ + "// Mutations\n"@ + self.mutations
            + "\n"@ + "// Subscriptions\n"@ + self.subscriptions + "\n"@ + "// Fragments\n"@
            + self.fragments
    }
}

impl View for Buffer {
    type V = BufferText;

    open spec fn view(&self) -> BufferText {
        BufferText {
            imports: self.imports@,
            util_types: self.util_types@,
            scalars: self.scalars@,
            enums: self.enums@,
            objects: self.objects@,
            input_objects: self.input_objects@,
            interfaces: self.interfaces@,
            unions: self.unions@,
            selection_sets: self.selection_sets@,
            args: self.args@,
            queries: self.queries@,
            mutations: self.mutations@,
            subscriptions: self.subscriptions@,
            fragments: self.fragments@,
        }
    }
}

impl Buffer {
    /// A buffer with every section empty.
    pub fn new() -> (buffer: Self)
        ensures
            buffer@ == BufferText::empty(),
    {
        Buffer {
            imports: String::new(),
            util_types: String::new(),
            scalars: String::new(),
            enums: String::new(),
            objects: String::new(),
            input_objects: String::new(),
            interfaces: String::new(),
            unions: String::new(),
            selection_sets: String::new(),
            args: String::new(),
            queries: String::new(),
            mutations: String::new(),
            subscriptions: String::new(),
            fragments: String::new(),
        }
    }

    /// The module as one string.
    pub fn to_string(&self) -> (module: String)
        ensures
            module@ == self@.module_text(),
    {
        let mut out = self.imports.clone();
        out.append("\n");
        out.append("// Utility types\n");
        out.append(self.util_types.as_str());
        out.append("\n");
        out.append("// Scalars\n");
        out.append(self.scalars.as_str());
        out.append("\n");
        out.append("// Enums\n");
        out.append(self.enums.as_str());
        out.append("\n");
        out.append("// Objects\n");
        out.append(self.objects.as_str());
        out.append("\n");
        out.append("// Input Objects\n");
        out.append(self.input_objects.as_str());
        out.append("\n");
        out.append("// Interfaces\n");
        out.append(self.interfaces.as_str());
        out.append("\n");
        out.append("// Unions\n");
        out.append(self.unions.as_str());
        out.append("\n");
        out.append("// Selection Sets\n");
        out.append(self.selection_sets.as_str());
        out.append("\n");
        out.append("// Args\n");
        out.append(self.args.as_str());
        out.append("\n");
        out.append("// Queries\n");
        out.append(self.queries.as_str());
        out.append("\n");
        out.append("// Mutations\n");
        out.append(self.mutations.as_str());
        out.append("\n");
        out.append("// Subscriptions\n");
        out.append(self.subscriptions.as_str());
        out.append("\n");
        out.append("// Fragments\n");
        out.append(self.fragments.as_str());
        out
    }
}

/// The names of the fragments that the definitions define.
pub open spec fn fragment_names(definitions: Seq<Definition>) -> Set<Seq<char>>
    decreases definitions.len(),
{
    if definitions.len() == 0 {
        Set::empty()
    } else {
        let earlier = fragment_names(definitions.drop_last());
        match definitions.last() {
            Definition::Fragment(fragment) => earlier.insert(fragment.name.0@),
            Definition::Operation(_) => earlier,
        }
    }
}

/// The buffer before anything of the schema or the document is written: the import
/// of the document wrapper, and the two utility types.
pub open spec fn preamble(options: TypescriptOptions) -> BufferText {
    BufferText {
        imports: "import type { "@ + options.document_import.0@ + " } from \""@
            + options.document_import.1@ + "\";\n"@,
        util_types: "export type Nullable<T> = T | null;\n"@
            + "export type NewType<T, U> = T & { readonly __newtype: U };\n"@,
        ..BufferText::empty()
    }
}

/// The buffer after the definitions from `from` on have been emitted in order. The
/// first definition that fails decides the failure.
pub open spec fn emit_definitions(
    env: Env,
    roots: Roots,
    options: TypescriptOptions,
    definitions: Seq<Definition>,
    from: int,
    buffer: BufferText,
) -> Result<BufferText, ProjectionFailure>
    decreases definitions.len() - from,
{
    if from < 0 || from >= definitions.len() {
        Ok(buffer)
    } else {
        match emit_definition(env, roots, options, definitions[from], buffer) {
            Err(e) => Err(e),
            Ok(written) => emit_definitions(env, roots, options, definitions, from + 1, written),
        }
    }
}

/// The buffer after the types from `from` on have been emitted in order. The first
/// type that fails decides the failure.
pub open spec fn emit_types(
    by_name: Map<Seq<char>, NamedType>,
    overrides: Option<ScalarNewtypes>,
    types: Seq<NamedType>,
    from: int,
    buffer: BufferText,
) -> Result<BufferText, ProjectionFailure>
    decreases types.len() - from,
{
    if from < 0 || from >= types.len() {
        Ok(buffer)
    } else {
        match emit_named_type(by_name, overrides, types[from], buffer) {
            Err(e) => Err(e),
            Ok(written) => emit_types(by_name, overrides, types, from + 1, written),
        }
    }
}

/// The definitions of a document, or none where there is no document.
pub open spec fn definitions_of(document: Option<&Document>) -> Seq<Definition> {
    match document {
        Some(d) => d.definitions@,
        None => Seq::empty(),
    }
}

/// The name of a definition as a circle of spreads is reported under.
pub open spec fn spreading_name(definition: Definition) -> Seq<char> {
    match definition {
        Definition::Fragment(fragment) => fragment.name.0@,
        Definition::Operation(_) => Seq::empty(),
    }
}

/// The module generated for a schema and a document under the given options.
///
/// The schema's query type must be among its types, and the spreads of every
/// fragment must come to an end. Every definition of the document is emitted, then
/// every type of the schema; the sections are then written out in their fixed order.
pub open spec fn generated(options: TypescriptOptions, schema: &Schema, document: Option<&Document>) -> Result<
    Seq<char>,
    ProjectionFailure,
> {
    let types = type_map(schema.types@);
    if !types.contains_key(schema.query_type.name@) {
        Err(ProjectionFailure::Index(IndexFailure::MissingQueryType(schema.query_type.name@)))
    } else {
        let roots = Roots {
            query: types[schema.query_type.name@],
            mutation: optional_root(
                types,
                match schema.mutation_type {
                    Some(root) => Some(root.name@),
                    None => None,
                },
            ),
            subscription: optional_root(
                types,
                match schema.subscription_type {
                    Some(root) => Some(root.name@),
                    None => None,
                },
            ),
        };
        let definitions = definitions_of(document);
        let env = Env {
            types,
            fragments: fragment_names(definitions),
            suffix: options.selection_set_suffix@,
        };
        match first_cyclic(definitions, 0) {
            Some(at) => Err(
                ProjectionFailure::FragmentCycle { name: spreading_name(definitions[at]) },
            ),
            None => match emit_definitions(env, roots, options, definitions, 0, preamble(options)) {
                Err(e) => Err(e),
                Ok(with_document) => match emit_types(
                    types,
                    options.scalar_newtypes,
                    schema.types@,
                    0,
                    with_document,
                ) {
                    Err(e) => Err(e),
                    Ok(complete) => Ok(complete.module_text()),
                },
            },
        }
    }
}

/// Gathers the names of the fragments that a document defines.
pub fn collect_fragment_names(document: Option<&Document>) -> (names: FragmentNames)
    ensures
        names@ == fragment_names(definitions_of(document)),
{
    let mut names = FragmentNames::new();
    match document {
        None => {},
        Some(d) => {
            let mut i: usize = 0;
            while i < d.definitions.len()
                invariant
                    i <= d.definitions.len(),
                    names@ == fragment_names(d.definitions@.subrange(0, i as int)),
                decreases d.definitions.len() - i,
            {
                proof {
                    assert(d.definitions@.subrange(0, i + 1).drop_last() == d.definitions@.subrange(
                        0,
                        i as int,
                    ));
                }
                match &d.definitions[i] {
                    Definition::Fragment(fragment) => {
                        names.insert(fragment.name.0.clone());
                    },
                    Definition::Operation(_) => {},
                }
                i += 1;
            }
            proof {
                assert(d.definitions@.subrange(0, i as int) == d.definitions@);
            }
        },
    }
    names
}

/// Emits every definition in order. On failure the buffer holds what the
/// definitions before the failing one wrote.
fn emit_document(ctx: &Context<'_>, definitions: &Vec<Definition>, buffer: &mut Buffer) -> (done: Result<
    (),
    ProjectionError,
>)
    ensures
        match done {
            Ok(()) => emit_definitions(
                ctx.env(),
                ctx.roots(),
                ctx.options,
                definitions@,
                0,
                old(buffer)@,
            ) == Ok::<BufferText, ProjectionFailure>(final(buffer)@),
            Err(e) => emit_definitions(
                ctx.env(),
                ctx.roots(),
                ctx.options,
                definitions@,
                0,
                old(buffer)@,
            ) == Err::<BufferText, ProjectionFailure>(e@),
        },
{
    let ghost start = buffer@;
    let mut i: usize = 0;
    while i < definitions.len()
        invariant
            i <= definitions.len(),
            start == old(buffer)@,
            emit_definitions(ctx.env(), ctx.roots(), ctx.options, definitions@, 0, start)
                == emit_definitions(
                ctx.env(),
                ctx.roots(),
                ctx.options,
                definitions@,
                i as int,
                buffer@,
            ),
        decreases definitions.len() - i,
    {
        match ctx.with(&definitions[i]).as_typescript_on(buffer) {
            Err(e) => {
                return Err(e);
            },
            Ok(()) => {},
        }
        i += 1;
    }
    Ok(())
}

/// Emits every type in order. On failure the buffer holds what the types before the
/// failing one wrote.
fn emit_schema_types(ctx: &Context<'_>, types: &Vec<NamedType>, buffer: &mut Buffer) -> (done: Result<
    (),
    ProjectionError,
>)
    ensures
        match done {
            Ok(()) => emit_types(ctx.index@, ctx.options.scalar_newtypes, types@, 0, old(buffer)@)
                == Ok::<BufferText, ProjectionFailure>(final(buffer)@),
            Err(e) => emit_types(ctx.index@, ctx.options.scalar_newtypes, types@, 0, old(buffer)@)
                == Err::<BufferText, ProjectionFailure>(e@),
        },
{
    let ghost start = buffer@;
    let mut i: usize = 0;
    while i < types.len()
        invariant
            i <= types.len(),
            start == old(buffer)@,
            emit_types(ctx.index@, ctx.options.scalar_newtypes, types@, 0, start) == emit_types(
                ctx.index@,
                ctx.options.scalar_newtypes,
                types@,
                i as int,
                buffer@,
            ),
        decreases types.len() - i,
    {
        match ctx.with(&types[i]).as_typescript_on(buffer) {
            Err(e) => {
                return Err(e);
            },
            Ok(()) => {},
        }
        i += 1;
    }
    Ok(())
}

fn write_preamble(options: &TypescriptOptions, buffer: &mut Buffer)
    requires
        old(buffer)@ == BufferText::empty(),
    ensures
        final(buffer)@ == preamble(*options),
{
    buffer.imports.append("import type { ");
    buffer.imports.append(options.document_import.imported_type());
    buffer.imports.append(" } from \"");
    buffer.imports.append(options.document_import.package());
    buffer.imports.append("\";\n");
    buffer.util_types.append("export type Nullable<T> = T | null;\n");
    buffer.util_types.append("export type NewType<T, U> = T & { readonly __newtype: U };\n");
}

/// Generates the TypeScript module for a schema and, where there is one, a document.
///
/// Fails exactly when the index cannot be built, when the spreads of a fragment
/// never end, or when a definition or a type cannot be emitted; the first failure
/// in this order is the one returned.
pub fn generate_typescript_with_document(
    options: TypescriptOptions,
    schema: &Schema,
    document: Option<&Document>,
) -> (module: Result<String, ProjectionError>)
    ensures
        agrees(module, generated(options, schema, document)),
{
    let index = match TypeIndex::build(schema) {
        Ok(index) => index,
        Err(e) => {
            return Err(ProjectionError::Index(e));
        },
    };
    let fragments = collect_fragment_names(document);
    let ctx = Context { index, options, fragments };
    let mut buffer = Buffer::new();
    write_preamble(&ctx.options, &mut buffer);
    match document {
        None => {},
        Some(d) => {
            match find_fragment_cycle(&d.definitions) {
                Some(at) => {
                    let name = match &d.definitions[at] {
                        Definition::Fragment(fragment) => fragment.name.0.clone(),
                        Definition::Operation(_) => String::new(),
                    };
                    return Err(ProjectionError::FragmentCycle { name });
                },
                None => {},
            }
            match emit_document(&ctx, &d.definitions, &mut buffer) {
                Err(e) => {
                    return Err(e);
                },
                Ok(()) => {},
            }
        },
    }
    match emit_schema_types(&ctx, &schema.types, &mut buffer) {
        Err(e) => {
            return Err(e);
        },
        Ok(()) => {},
    }
    Ok(buffer.to_string())
}

/// Why a definition cannot be emitted, if it cannot. What the buffer holds has no
/// part in it, so the definition is tried on an empty one.
pub open spec fn definition_failure(
    env: Env,
    roots: Roots,
    options: TypescriptOptions,
    definition: Definition,
) -> Option<ProjectionFailure> {
    match emit_definition(env, roots, options, definition, BufferText::empty()) {
        Err(e) => Some(e),
        Ok(_) => None,
    }
}

/// Every definition that cannot be emitted, by its place in the document and with
/// its failure, in document order.
pub open spec fn document_failures(
    env: Env,
    roots: Roots,
    options: TypescriptOptions,
    definitions: Seq<Definition>,
) -> Seq<(int, ProjectionFailure)>
    decreases definitions.len(),
{
    if definitions.len() == 0 {
        Seq::empty()
    } else {
        let earlier = document_failures(env, roots, options, definitions.drop_last());
        match definition_failure(env, roots, options, definitions.last()) {
            Some(e) => earlier.push((definitions.len() - 1, e)),
            None => earlier,
        }
    }
}

/// Whether the failures found are the failures there are, place for place.
pub open spec fn failures_agree(
    found: Seq<(usize, ProjectionError)>,
    failures: Seq<(int, ProjectionFailure)>,
) -> bool {
    found.len() == failures.len() && forall|k: int|
        0 <= k < failures.len() ==> (#[trigger] found[k]).0 == failures[k].0 && found[k].1@
            == failures[k].1
}

/// Tries every definition of a document and reports all that cannot be emitted,
/// each by its place in the document, instead of stopping at the first.
///
/// Each definition is tried on its own: a failure in one does not hide another.
pub fn collect_failures(ctx: &Context<'_>, document: &Document) -> (found: Vec<(usize, ProjectionError)>)
    ensures
        failures_agree(
            found@,
            document_failures(ctx.env(), ctx.roots(), ctx.options, document.definitions@),
        ),
{
    let mut found: Vec<(usize, ProjectionError)> = Vec::new();
    let mut i: usize = 0;
    while i < document.definitions.len()
        invariant
            i <= document.definitions.len(),
            failures_agree(
                found@,
                document_failures(
                    ctx.env(),
                    ctx.roots(),
                    ctx.options,
                    document.definitions@.subrange(0, i as int),
                ),
            ),
        decreases document.definitions.len() - i,
    {
        proof {
            assert(document.definitions@.subrange(0, i + 1).drop_last()
                == document.definitions@.subrange(0, i as int));
        }
        let mut scratch = Buffer::new();
        match ctx.with(&document.definitions[i]).as_typescript_on(&mut scratch) {
            Err(e) => {
                found.push((i, e));
            },
            Ok(()) => {},
        }
        i += 1;
    }
    proof {
        assert(document.definitions@.subrange(0, i as int) == document.definitions@);
    }
    found
}

} // verus!
