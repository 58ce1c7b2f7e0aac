//! Generation options: read-only inputs threaded through the projector and the emitter.

use vstd::prelude::*;
use vstd::string::*;
use vstd::hash_map::StringHashMap;

verus! {

/// The typed-document wrapper that the emitted module imports: its type name and
/// the package it comes from.
#[derive(Debug, Clone, PartialEq, Eq)]
pub struct DocumentImport(pub String, pub String);

impl DocumentImport {
    pub fn new(imported_type: String, package: String) -> (import: Self)
        ensures
            import.0 == imported_type,
            import.1 == package,
    {
        DocumentImport(imported_type, package)
    }

    /// The name of the imported type.
    pub fn imported_type(&self) -> (name: &str)
        ensures
            name@ == self.0@,
    {
        self.0.as_str()
    }

    /// The package the type is imported from.
    pub fn package(&self) -> (package: &str)
        ensures
            package@ == self.1@,
    {
        self.1.as_str()
    }
}

impl Default for DocumentImport {
    fn default() -> (import: Self)
        ensures
            import.0@ == "TypedQueryDocumentNode"@,
            import.1@ == "graphql"@,
    {
        DocumentImport(String::from_str("TypedQueryDocumentNode"), String::from_str("graphql"))
    }
}

/// The suffix that selection-set types carry unless the options say otherwise.
pub fn selection_set_suffix() -> (suffix: String)
    ensures
        suffix@ == "SelectionSet"@,
{
    String::from_str("SelectionSet")
}

/// The suffix that argument types carry unless the options say otherwise.
pub fn arguments_suffix() -> (suffix: String)
    ensures
        suffix@ == "Args"@,
{
    String::from_str("Args")
}

/// TypeScript types chosen for custom scalars, by scalar name.
pub struct ScalarNewtypes {
    map: StringHashMap<String>,
}

impl View for ScalarNewtypes {
    type V = Map<Seq<char>, String>;

    closed spec fn view(&self) -> Map<Seq<char>, String> {
        self.map@
    }
}

impl ScalarNewtypes {
    pub fn new() -> (overrides: Self)
        ensures
            overrides@ == Map::<Seq<char>, String>::empty(),
    {
        ScalarNewtypes { map: StringHashMap::new() }
    }

    /// Sets the TypeScript type of the scalar `name`, replacing an earlier choice.
    pub fn insert(&mut self, name: String, typescript: String)
        ensures
            final(self)@ == old(self)@.insert(name@, typescript),
    {
        self.map.insert(name, typescript);
    }

    /// The TypeScript type chosen for the scalar `name`, if one was.
    pub fn get(&self, name: &str) -> (found: Option<&String>)
        ensures
            found == if self@.contains_key(name@) {
                Some(&self@[name@])
            } else {
                None
            },
    {
        self.map.get(name)
    }
}

/// All the options of one generation plan.
pub struct TypescriptOptions {
    pub document_import: DocumentImport,
    pub scalar_newtypes: Option<ScalarNewtypes>,
    pub documents_hide_operation_name: bool,
    pub selection_set_suffix: String,
    pub arguments_suffix: String,
}

impl Default for TypescriptOptions {
    fn default() -> (options: Self)
        ensures
            options.document_import.0@ == "TypedQueryDocumentNode"@,
            options.document_import.1@ == "graphql"@,
            options.scalar_newtypes is None,
            !options.documents_hide_operation_name,
            options.selection_set_suffix@ == "SelectionSet"@,
            options.arguments_suffix@ == "Args"@,
    {
        TypescriptOptions {
            document_import: DocumentImport::default(),
            scalar_newtypes: None,
            documents_hide_operation_name: false,
            selection_set_suffix: selection_set_suffix(),
            arguments_suffix: arguments_suffix(),
        }
    }
}

} // verus!
