//! The schema model: named types, fields, input values and type references.
//!
//! Strings are read in contracts through their views; every other part of a value
//! stands for itself.

pub mod from_document;
pub mod to_document;
pub mod validity;

use vstd::prelude::*;
use vstd::string::*;
use crate::text::{str_eq, str_starts_with, has_prefix};

verus! {

/// One value of an enum type.
#[derive(Debug, Clone, PartialEq, Eq)]
pub struct EnumValue {
    pub name: String,
    pub description: Option<String>,
    pub is_deprecated: bool,
    pub deprecation_reason: Option<String>,
}

/// The eight kinds a type of a schema can have.
#[derive(Debug, Clone, Copy, PartialEq, Eq)]
pub enum TypeKind {
    Scalar,
    Object,
    Interface,
    Union,
    Enum,
    InputObject,
    List,
    NonNull,
}

/// A wrapper around another type reference.
#[derive(Debug, PartialEq, Eq)]
pub enum TypeRefContainer {
    NonNull { of_type: Box<TypeRef> },
    List { of_type: Box<TypeRef> },
}

/// A possibly wrapped pointer to a named schema type. A bare name is nullable.
#[derive(Debug, PartialEq, Eq)]
pub enum TypeRef {
    Container(TypeRefContainer),
    To { name: String },
}

impl TypeRefContainer {
    /// The reference directly inside the wrapper.
    pub open spec fn inner(&self) -> TypeRef {
        match self {
            TypeRefContainer::NonNull { of_type } => **of_type,
            TypeRefContainer::List { of_type } => **of_type,
        }
    }
}

/// Something that may have a name.
pub trait MaybeNamed {
    /// The name, where there is one.
    spec fn spec_maybe_name(&self) -> Option<Seq<char>>;

    fn maybe_name(&self) -> (found: Option<&str>)
        ensures
            found.is_some() == self.spec_maybe_name().is_some(),
            found matches Some(n) ==> self.spec_maybe_name() == Some(n@),
    ;
}

impl MaybeNamed for TypeRef {
    /// The name of a bare reference; a wrapped one has none.
    open spec fn spec_maybe_name(&self) -> Option<Seq<char>> {
        match self {
            TypeRef::To { name } => Some(name@),
            TypeRef::Container(_) => None,
        }
    }

    fn maybe_name(&self) -> (found: Option<&str>) {
        match self {
            TypeRef::To { name } => Some(name.as_str()),
            TypeRef::Container(_) => None,
        }
    }
}

impl<'a> MaybeNamed for Type<'a> {
    /// The name of a named type; a wrapper has none.
    open spec fn spec_maybe_name(&self) -> Option<Seq<char>> {
        match self {
            Type::Named(t) => Some(t.spec_name()),
            Type::Container(_) => None,
        }
    }

    fn maybe_name(&self) -> (found: Option<&str>) {
        match self {
            Type::Named(t) => Some(t.name()),
            Type::Container(_) => None,
        }
    }
}

impl Clone for TypeRefContainer {
    fn clone(&self) -> (copy: Self)
        ensures
            copy == *self,
    {
        match self {
            TypeRefContainer::NonNull { of_type } => TypeRefContainer::NonNull {
                of_type: Box::new(of_type.duplicate()),
            },
            TypeRefContainer::List { of_type } => TypeRefContainer::List {
                of_type: Box::new(of_type.duplicate()),
            },
        }
    }
}

impl Clone for TypeRef {
    fn clone(&self) -> (copy: Self)
        ensures
            copy == *self,
    {
        self.duplicate()
    }
}

impl TypeRef {
    /// A copy that is equal to the original, wrapper by wrapper.
    pub fn duplicate(&self) -> (copy: Self)
        ensures
            copy == *self,
        decreases self,
    {
        match self {
            TypeRef::To { name } => TypeRef::To { name: name.clone() },
            TypeRef::Container(TypeRefContainer::NonNull { of_type }) => TypeRef::Container(
                TypeRefContainer::NonNull { of_type: Box::new(of_type.duplicate()) },
            ),
            TypeRef::Container(TypeRefContainer::List { of_type }) => TypeRef::Container(
                TypeRefContainer::List { of_type: Box::new(of_type.duplicate()) },
            ),
        }
    }

    /// Whether the outermost wrapper is `NonNull`.
    pub open spec fn spec_is_non_null(&self) -> bool {
        self matches TypeRef::Container(TypeRefContainer::NonNull { .. })
    }

    #[verifier::when_used_as_spec(spec_is_non_null)]
    pub fn is_non_null(&self) -> (b: bool)
        ensures
            b == self.spec_is_non_null(),
    {
        match self {
            TypeRef::Container(TypeRefContainer::NonNull { .. }) => true,
            _ => false,
        }
    }

    /// The name this reference points to directly, if it is not wrapped.
    pub fn name(&self) -> (found: Option<&str>)
        ensures
            found.is_some() == self.spec_maybe_name().is_some(),
            found matches Some(n) ==> self.spec_maybe_name() == Some(n@),
    {
        self.maybe_name()
    }

    /// The name at the bottom of all wrappers.
    pub open spec fn base_name(&self) -> Seq<char>
        decreases self,
    {
        match self {
            TypeRef::To { name } => name@,
            TypeRef::Container(TypeRefContainer::NonNull { of_type }) => of_type.base_name(),
            TypeRef::Container(TypeRefContainer::List { of_type }) => of_type.base_name(),
        }
    }

    /// Walks through every wrapper down to the name.
    pub fn innermost_name(&self) -> (name: &str)
        ensures
            name@ == self.base_name(),
        decreases self,
    {
        match self {
            TypeRef::To { name } => name.as_str(),
            TypeRef::Container(TypeRefContainer::NonNull { of_type }) => of_type.innermost_name(),
            TypeRef::Container(TypeRefContainer::List { of_type }) => of_type.innermost_name(),
        }
    }

    /// No `NonNull` directly wraps another `NonNull`, at any depth.
    pub open spec fn well_formed(&self) -> bool
        decreases self,
    {
        match self {
            TypeRef::To { .. } => true,
            TypeRef::Container(TypeRefContainer::NonNull { of_type }) => !of_type.spec_is_non_null()
                && of_type.well_formed(),
            TypeRef::Container(TypeRefContainer::List { of_type }) => of_type.well_formed(),
        }
    }

    /// Checks the invariant that `NonNull` never directly wraps `NonNull`.
    pub fn is_well_formed(&self) -> (ok: bool)
        ensures
            ok == self.well_formed(),
        decreases self,
    {
        match self {
            TypeRef::To { .. } => true,
            TypeRef::Container(TypeRefContainer::NonNull { of_type }) => !of_type.is_non_null()
                && of_type.is_well_formed(),
            TypeRef::Container(TypeRefContainer::List { of_type }) => of_type.is_well_formed(),
        }
    }
}

/// An argument of a field or a directive, or a field of an input object.
#[derive(Debug, Clone, PartialEq, Eq)]
pub struct InputValue {
    pub name: String,
    pub description: Option<String>,
    pub of_type: TypeRef,
    pub default_value: Option<String>,
}

/// A field of an object or interface type.
#[derive(Debug, Clone, PartialEq, Eq)]
pub struct Field {
    pub name: String,
    pub description: Option<String>,
    pub args: Vec<InputValue>,
    pub of_type: TypeRef,
    pub is_deprecated: bool,
    pub deprecation_reason: Option<String>,
}

/// The first field at or after `from` that is called `name`.
pub open spec fn first_field_named(fields: Seq<Field>, name: Seq<char>, from: int) -> Option<Field>
    decreases fields.len() - from,
{
    if from < 0 || from >= fields.len() {
        None
    } else if fields[from].name@ == name {
        Some(fields[from])
    } else {
        first_field_named(fields, name, from + 1)
    }
}

/// Whether a reference at or after `from` is the bare name `name`.
pub open spec fn names_member(members: Seq<TypeRef>, name: Seq<char>, from: int) -> bool
    decreases members.len() - from,
{
    if from < 0 || from >= members.len() {
        false
    } else if members[from].spec_maybe_name() == Some(name) {
        true
    } else {
        names_member(members, name, from + 1)
    }
}

/// A named type of a schema.
#[derive(Debug, Clone, PartialEq, Eq)]
pub enum NamedType {
    Scalar { name: String, description: Option<String> },
    Object {
        name: String,
        description: Option<String>,
        fields: Vec<Field>,
        interfaces: Vec<TypeRef>,
    },
    Interface {
        name: String,
        description: Option<String>,
        fields: Vec<Field>,
        possible_types: Vec<TypeRef>,
        interfaces: Vec<TypeRef>,
    },
    Union { name: String, description: Option<String>, possible_types: Vec<TypeRef> },
    Enum { name: String, description: Option<String>, enum_values: Vec<EnumValue> },
    InputObject { name: String, description: Option<String>, input_fields: Vec<InputValue> },
}

impl NamedType {
    pub open spec fn spec_name(&self) -> Seq<char> {
        match self {
            NamedType::Scalar { name, .. } => name@,
            NamedType::Object { name, .. } => name@,
            NamedType::Interface { name, .. } => name@,
            NamedType::Union { name, .. } => name@,
            NamedType::Enum { name, .. } => name@,
            NamedType::InputObject { name, .. } => name@,
        }
    }

    /// The type's name, whatever its kind.
    pub fn name(&self) -> (name: &str)
        ensures
            name@ == self.spec_name(),
    {
        match self {
            NamedType::Scalar { name, .. } => name.as_str(),
            NamedType::Object { name, .. } => name.as_str(),
            NamedType::Interface { name, .. } => name.as_str(),
            NamedType::Union { name, .. } => name.as_str(),
            NamedType::Enum { name, .. } => name.as_str(),
            NamedType::InputObject { name, .. } => name.as_str(),
        }
    }

    pub open spec fn spec_description(&self) -> Option<String> {
        match self {
            NamedType::Scalar { description, .. } => *description,
            NamedType::Object { description, .. } => *description,
            NamedType::Interface { description, .. } => *description,
            NamedType::Union { description, .. } => *description,
            NamedType::Enum { description, .. } => *description,
            NamedType::InputObject { description, .. } => *description,
        }
    }

    /// The type's description, whatever its kind.
    pub fn description(&self) -> (description: &Option<String>)
        ensures
            *description == self.spec_description(),
    {
        match self {
            NamedType::Scalar { description, .. } => description,
            NamedType::Object { description, .. } => description,
            NamedType::Interface { description, .. } => description,
            NamedType::Union { description, .. } => description,
            NamedType::Enum { description, .. } => description,
            NamedType::InputObject { description, .. } => description,
        }
    }

    /// An introspection meta-type: its name begins with two underscores.
    pub open spec fn spec_is_internal(&self) -> bool {
        has_prefix(self.spec_name(), "__"@)
    }

    #[verifier::when_used_as_spec(spec_is_internal)]
    pub fn is_internal(&self) -> (b: bool)
        ensures
            b == self.spec_is_internal(),
    {
        str_starts_with(self.name(), "__")
    }

    pub open spec fn spec_kind(&self) -> TypeKind {
        match self {
            NamedType::Scalar { .. } => TypeKind::Scalar,
            NamedType::Object { .. } => TypeKind::Object,
            NamedType::Interface { .. } => TypeKind::Interface,
            NamedType::Union { .. } => TypeKind::Union,
            NamedType::Enum { .. } => TypeKind::Enum,
            NamedType::InputObject { .. } => TypeKind::InputObject,
        }
    }

    #[verifier::when_used_as_spec(spec_kind)]
    pub fn kind(&self) -> (k: TypeKind)
        ensures
            k == self.spec_kind(),
    {
        match self {
            NamedType::Scalar { .. } => TypeKind::Scalar,
            NamedType::Object { .. } => TypeKind::Object,
            NamedType::Interface { .. } => TypeKind::Interface,
            NamedType::Union { .. } => TypeKind::Union,
            NamedType::Enum { .. } => TypeKind::Enum,
            NamedType::InputObject { .. } => TypeKind::InputObject,
        }
    }

    /// A type that exposes selectable fields: an object, an interface, or a union
    /// through its members.
    pub open spec fn spec_is_fielded(&self) -> bool {
        self is Object || self is Interface || self is Union
    }

    #[verifier::when_used_as_spec(spec_is_fielded)]
    pub fn is_fielded(&self) -> (b: bool)
        ensures
            b == self.spec_is_fielded(),
    {
        match self {
            NamedType::Object { .. } | NamedType::Interface { .. } | NamedType::Union { .. } => true,
            _ => false,
        }
    }

    /// The fields that can be selected on this type directly. A union has none.
    pub open spec fn spec_fields(&self) -> Seq<Field> {
        match self {
            NamedType::Object { fields, .. } => fields@,
            NamedType::Interface { fields, .. } => fields@,
            _ => Seq::empty(),
        }
    }

    /// The fields that can be selected on this type directly.
    pub fn fields(&self) -> (fields: &[Field])
        ensures
            fields@ == self.spec_fields(),
    {
        match self {
            NamedType::Object { fields, .. } => fields.as_slice(),
            NamedType::Interface { fields, .. } => fields.as_slice(),
            _ => &[],
        }
    }

    /// The first field of this type called `name`.
    pub open spec fn spec_get_field(&self, name: Seq<char>) -> Option<Field> {
        first_field_named(self.spec_fields(), name, 0)
    }

    /// Looks a field up by name; the first declared one wins.
    pub fn get_field(&self, name: &str) -> (found: Option<&Field>)
        ensures
            found.is_some() == self.spec_get_field(name@).is_some(),
            found matches Some(f) ==> self.spec_get_field(name@) == Some(*f),
    {
        match self {
            NamedType::Object { fields, .. } => find_field(fields, name),
            NamedType::Interface { fields, .. } => find_field(fields, name),
            _ => None,
        }
    }

    /// The members a union or an interface declares. An object has none.
    pub open spec fn spec_possible_types(&self) -> Seq<TypeRef> {
        match self {
            NamedType::Interface { possible_types, .. } => possible_types@,
            NamedType::Union { possible_types, .. } => possible_types@,
            _ => Seq::empty(),
        }
    }

    /// The members that this union or interface declares.
    pub fn possible_types(&self) -> (members: &[TypeRef])
        ensures
            members@ == self.spec_possible_types(),
    {
        match self {
            NamedType::Interface { possible_types, .. } => possible_types.as_slice(),
            NamedType::Union { possible_types, .. } => possible_types.as_slice(),
            _ => &[],
        }
    }

    /// Whether `name` is one of the declared possible types.
    pub open spec fn spec_has_possible_type(&self, name: Seq<char>) -> bool {
        names_member(self.spec_possible_types(), name, 0)
    }

    /// Whether this union or interface declares `name` as a possible type.
    pub fn has_possible_type(&self, name: &str) -> (b: bool)
        ensures
            b == self.spec_has_possible_type(name@),
    {
        match self {
            NamedType::Interface { possible_types, .. } => find_member(possible_types, name),
            NamedType::Union { possible_types, .. } => find_member(possible_types, name),
            _ => false,
        }
    }
}

fn find_field<'a>(fields: &'a Vec<Field>, name: &str) -> (found: Option<&'a Field>)
    ensures
        found.is_some() == first_field_named(fields@, name@, 0).is_some(),
        found matches Some(f) ==> first_field_named(fields@, name@, 0) == Some(*f),
{
    let mut i: usize = 0;
    while i < fields.len()
        invariant
            i <= fields.len(),
            first_field_named(fields@, name@, 0) == first_field_named(fields@, name@, i as int),
        decreases fields.len() - i,
    {
        if str_eq(fields[i].name.as_str(), name) {
            return Some(&fields[i]);
        }
        i += 1;
    }
    None
}

fn find_member(members: &Vec<TypeRef>, name: &str) -> (b: bool)
    ensures
        b == names_member(members@, name@, 0),
{
    let mut i: usize = 0;
    while i < members.len()
        invariant
            i <= members.len(),
            names_member(members@, name@, 0) == names_member(members@, name@, i as int),
        decreases members.len() - i,
    {
        match members[i].maybe_name() {
            Some(n) => {
                if str_eq(n, name) {
                    return true;
                }
            },
            None => {},
        }
        i += 1;
    }
    false
}

/// What a type reference resolves to: the wrapper itself, or the named type.
#[derive(Debug, Clone, Copy)]
pub enum Type<'a> {
    Container(&'a TypeRefContainer),
    Named(&'a NamedType),
}

impl<'a> Type<'a> {
    /// The named type, unless this is a wrapper.
    pub fn try_into_named(self) -> (named: Option<&'a NamedType>)
        ensures
            named == match self {
                Type::Named(t) => Some(t),
                Type::Container(_) => None,
            },
    {
        match self {
            Type::Named(t) => Some(t),
            Type::Container(_) => None,
        }
    }
}

/// Where a directive may stand.
#[derive(Debug, Clone, Copy, PartialEq, Eq)]
pub enum DirectiveLocation {
    Query,
    Mutation,
    Subscription,
    Field,
    FragmentDefinition,
    FragmentSpread,
    InlineFragment,
    Schema,
    Scalar,
    Object,
    FieldDefinition,
    ArgumentDefinition,
    Interface,
    Union,
    Enum,
    EnumValue,
    InputObject,
    InputFieldDefinition,
    VariableDefinition,
}

/// A directive that the schema declares.
#[derive(Debug, Clone, PartialEq, Eq)]
pub struct Directive {
    pub description: Option<String>,
    pub name: String,
    pub locations: Vec<DirectiveLocation>,
    pub args: Vec<InputValue>,
}

/// The name of a root operation type.
#[derive(Debug, Clone, PartialEq, Eq)]
pub struct RootType {
    pub name: String,
}

/// A whole schema.
#[derive(Debug, Clone, PartialEq, Eq)]
pub struct Schema {
    pub types: Vec<NamedType>,
    pub query_type: RootType,
    pub mutation_type: Option<RootType>,
    pub subscription_type: Option<RootType>,
    pub directives: Vec<Directive>,
}

} // verus!
