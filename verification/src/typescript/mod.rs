//! TypeScript for schema types and for the selections made on them.

pub mod type_ref;
pub mod selection;
pub mod graphql_type;
pub mod definition;
pub mod doc_comment;
pub mod fragments;

use vstd::prelude::*;
use vstd::string::*;
use vstd::hash_map::StringHashMap;
use crate::index::{IndexError, IndexFailure, TypeIndex};
use crate::options::TypescriptOptions;
use crate::schema::NamedType;

verus! {

/// Why a selection, an operation or a type could not be turned into TypeScript.
#[derive(Debug, Clone, PartialEq, Eq)]
pub enum ProjectionError {
    /// A name could not be resolved.
    Index(IndexError),
    /// A selected field does not exist on the type it is selected on.
    UnknownField { name: String, on: String },
    /// A spread names a fragment that the document does not define.
    UnknownFragment { name: String },
    /// An inline fragment's type condition is not a declared possible type.
    InvalidTypeCondition { name: String, on: String },
    /// An inline fragment on a union or an interface has no type condition.
    MissingTypeCondition { on: String },
    /// An inline fragment on an object has a type condition.
    TypeConditionOnObject { name: String, on: String },
    /// A field of a fielded type is selected without a selection set of its own.
    MissingSelectionSet { field: String },
    /// A selection set is applied to a type that exposes no fields.
    NotFielded { name: String },
    /// A wrapped reference stands where only a bare name can.
    NotNamed { on: String },
    /// An operation has no name.
    AnonymousOperation,
    /// A top-level selection set without an operation keyword.
    AnonymousSelectionSet,
    /// A mutation or a subscription in a schema that has no such root type.
    MissingRootType,
    /// A root type that is not an object.
    RootNotObject { name: String },
    /// A fragment from which spreads can be followed without end.
    FragmentCycle { name: String },
}

/// A [`ProjectionError`] with its strings as sequences of characters.
pub enum ProjectionFailure {
    Index(IndexFailure),
    UnknownField { name: Seq<char>, on: Seq<char> },
    UnknownFragment { name: Seq<char> },
    InvalidTypeCondition { name: Seq<char>, on: Seq<char> },
    MissingTypeCondition { on: Seq<char> },
    TypeConditionOnObject { name: Seq<char>, on: Seq<char> },
    MissingSelectionSet { field: Seq<char> },
    NotFielded { name: Seq<char> },
    NotNamed { on: Seq<char> },
    AnonymousOperation,
    AnonymousSelectionSet,
    MissingRootType,
    RootNotObject { name: Seq<char> },
    FragmentCycle { name: Seq<char> },
}

impl View for ProjectionError {
    type V = ProjectionFailure;

    open spec fn view(&self) -> ProjectionFailure {
        match self {
            ProjectionError::Index(e) => ProjectionFailure::Index(e@),
            ProjectionError::UnknownField { name, on } => ProjectionFailure::UnknownField {
                name: name@,
                on: on@,
            },
            ProjectionError::UnknownFragment { name } => ProjectionFailure::UnknownFragment {
                name: name@,
            },
            ProjectionError::InvalidTypeCondition { name, on } => ProjectionFailure::InvalidTypeCondition {
                name: name@,
                on: on@,
            },
            ProjectionError::MissingTypeCondition { on } => ProjectionFailure::MissingTypeCondition {
                on: on@,
            },
            ProjectionError::TypeConditionOnObject { name, on } => ProjectionFailure::TypeConditionOnObject {
                name: name@,
                on: on@,
            },
            ProjectionError::MissingSelectionSet { field } => ProjectionFailure::MissingSelectionSet {
                field: field@,
            },
            ProjectionError::NotFielded { name } => ProjectionFailure::NotFielded { name: name@ },
            ProjectionError::NotNamed { on } => ProjectionFailure::NotNamed { on: on@ },
            ProjectionError::AnonymousOperation => ProjectionFailure::AnonymousOperation,
            ProjectionError::AnonymousSelectionSet => ProjectionFailure::AnonymousSelectionSet,
            ProjectionError::MissingRootType => ProjectionFailure::MissingRootType,
            ProjectionError::RootNotObject { name } => ProjectionFailure::RootNotObject {
                name: name@,
            },
            ProjectionError::FragmentCycle { name } => ProjectionFailure::FragmentCycle {
                name: name@,
            },
        }
    }
}

impl ProjectionFailure {
    /// What went wrong, in words.
    pub open spec fn message(self) -> Seq<char> {
        match self {
            ProjectionFailure::Index(e) => e.message(),
            ProjectionFailure::UnknownField { name, on } => "unknown field `"@ + name + "` on `"@
                + on + "`"@,
            ProjectionFailure::UnknownFragment { name } => "unknown fragment `"@ + name + "`"@,
            ProjectionFailure::InvalidTypeCondition { name, on } => "`"@ + name
                + "` is not a possible type of `"@ + on + "`"@,
            ProjectionFailure::MissingTypeCondition { on } => "inline fragment on `"@ + on
                + "` needs a type condition"@,
            ProjectionFailure::TypeConditionOnObject { name, on } => "type condition `"@ + name
                + "` on the object `"@ + on + "`"@,
            ProjectionFailure::MissingSelectionSet { field } => "field `"@ + field
                + "` needs a selection set"@,
            ProjectionFailure::NotFielded { name } => "`"@ + name + "` has no fields to select"@,
            ProjectionFailure::NotNamed { on } => "`"@ + on
                + "` refers to a wrapped type where a name is needed"@,
            ProjectionFailure::AnonymousOperation => "anonymous operation unsupported"@,
            ProjectionFailure::AnonymousSelectionSet => "anonymous top-level selection unsupported"@,
            ProjectionFailure::MissingRootType => "the schema has no root type for this operation"@,
            ProjectionFailure::RootNotObject { name } => "root type `"@ + name
                + "` is not an object"@,
            ProjectionFailure::FragmentCycle { name } => "the spreads of fragment `"@ + name
                + "` never end"@,
        }
    }
}

fn between(opening: &str, first: &str, closing: &str) -> (out: String)
    ensures
        out@ == opening@ + first@ + closing@,
{
    let mut out = String::from_str(opening);
    out.append(first);
    out.append(closing);
    out
}

fn around(opening: &str, first: &str, middle: &str, second: &str, closing: &str) -> (out: String)
    ensures
        out@ == opening@ + first@ + middle@ + second@ + closing@,
{
    let mut out = String::from_str(opening);
    out.append(first);
    out.append(middle);
    out.append(second);
    out.append(closing);
    out
}

impl ProjectionError {
    /// What went wrong, in words.
    pub fn to_string(&self) -> (message: String)
        ensures
            message@ == self@.message(),
    {
        match self {
            ProjectionError::Index(e) => e.to_string(),
            ProjectionError::UnknownField { name, on } => around(
                "unknown field `",
                name.as_str(),
                "` on `",
                on.as_str(),
                "`",
            ),
            ProjectionError::UnknownFragment { name } => between(
                "unknown fragment `",
                name.as_str(),
                "`",
            ),
            ProjectionError::InvalidTypeCondition { name, on } => around(
                "`",
                name.as_str(),
                "` is not a possible type of `",
                on.as_str(),
                "`",
            ),
            ProjectionError::MissingTypeCondition { on } => between(
                "inline fragment on `",
                on.as_str(),
                "` needs a type condition",
            ),
            ProjectionError::TypeConditionOnObject { name, on } => around(
                "type condition `",
                name.as_str(),
                "` on the object `",
                on.as_str(),
                "`",
            ),
            ProjectionError::MissingSelectionSet { field } => between(
                "field `",
                field.as_str(),
                "` needs a selection set",
            ),
            ProjectionError::NotFielded { name } => between(
                "`",
                name.as_str(),
                "` has no fields to select",
            ),
            ProjectionError::NotNamed { on } => between(
                "`",
                on.as_str(),
                "` refers to a wrapped type where a name is needed",
            ),
            ProjectionError::AnonymousOperation => String::from_str(
                "anonymous operation unsupported",
            ),
            ProjectionError::AnonymousSelectionSet => String::from_str(
                "anonymous top-level selection unsupported",
            ),
            ProjectionError::MissingRootType => String::from_str(
                "the schema has no root type for this operation",
            ),
            ProjectionError::RootNotObject { name } => between(
                "root type `",
                name.as_str(),
                "` is not an object",
            ),
            ProjectionError::FragmentCycle { name } => between(
                "the spreads of fragment `",
                name.as_str(),
                "` never end",
            ),
        }
    }
}

/// Whether an exec result is the spec result, text for text and failure for failure.
pub open spec fn agrees(got: Result<String, ProjectionError>, want: Result<Seq<char>, ProjectionFailure>) -> bool {
    match got {
        Ok(text) => want == Ok::<Seq<char>, ProjectionFailure>(text@),
        Err(e) => want == Err::<Seq<char>, ProjectionFailure>(e@),
    }
}

/// The names of the fragments that a document defines.
pub struct FragmentNames {
    names: StringHashMap<bool>,
}

impl View for FragmentNames {
    type V = Set<Seq<char>>;

    closed spec fn view(&self) -> Set<Seq<char>> {
        self.names@.dom()
    }
}

impl FragmentNames {
    pub fn new() -> (names: Self)
        ensures
            names@ == Set::<Seq<char>>::empty(),
    {
        FragmentNames { names: StringHashMap::new() }
    }

    pub fn insert(&mut self, name: String)
        ensures
            final(self)@ == old(self)@.insert(name@),
    {
        self.names.insert(name, true);
    }

    pub fn contains(&self, name: &str) -> (b: bool)
        ensures
            b == self@.contains(name@),
    {
        self.names.contains_key(name)
    }
}

/// What a projection depends on: the types by name, the names of the document's
/// fragments, and the suffix of selection-set type names.
pub struct Env {
    pub types: Map<Seq<char>, NamedType>,
    pub fragments: Set<Seq<char>>,
    pub suffix: Seq<char>,
}

/// The three root types of a schema, as far as it has them.
pub struct Roots {
    pub query: NamedType,
    pub mutation: Option<NamedType>,
    pub subscription: Option<NamedType>,
}

/// The index, the options and the fragment names that every projection reads.
pub struct Context<'a> {
    pub index: TypeIndex<'a>,
    pub options: TypescriptOptions,
    pub fragments: FragmentNames,
}

impl<'a> Context<'a> {
    /// The mathematical content of the context.
    pub open spec fn env(&self) -> Env {
        Env {
            types: self.index@,
            fragments: self.fragments@,
            suffix: self.options.selection_set_suffix@,
        }
    }

    /// The root types that operations are selected on.
    pub open spec fn roots(&self) -> Roots {
        Roots {
            query: self.index.spec_query(),
            mutation: self.index.spec_mutation(),
            subscription: self.index.spec_subscription(),
        }
    }

    /// Pairs a target with this context.
    pub fn with<'b, 'c, T>(&'b self, target: &'c T) -> (paired: WithContext<'c, 'b, 'a, T>)
        ensures
            paired.target == target,
            paired.ctx == self,
    {
        WithContext { target, ctx: self }
    }
}

/// A target together with the context in which it is turned into TypeScript.
pub struct WithContext<'a, 'b, 'c, T> {
    pub target: &'a T,
    pub ctx: &'b Context<'c>,
}

/// The name under which a type appears in the emitted module.
pub trait TypescriptName {
    spec fn spec_typescript_name(&self) -> Seq<char>;

    fn typescript_name(&self) -> (name: String)
        ensures
            name@ == self.spec_typescript_name(),
    ;
}

/// Something that has a TypeScript type expression.
pub trait Typescriptable {
    /// The expression with nullability made explicit.
    spec fn spec_typescript(&self) -> Result<Seq<char>, ProjectionFailure>;

    /// The expression without the outermost `Nullable`.
    spec fn spec_typescript_non_nullable(&self) -> Result<Seq<char>, ProjectionFailure>;

    fn as_typescript(&self) -> (ts: Result<String, ProjectionError>)
        ensures
            agrees(ts, self.spec_typescript()),
    ;

    fn as_typescript_non_nullable(&self) -> (ts: Result<String, ProjectionError>)
        ensures
            agrees(ts, self.spec_typescript_non_nullable()),
    ;
}

} // verus!
