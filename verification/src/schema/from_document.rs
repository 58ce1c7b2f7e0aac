//! From the syntax tree of a schema definition document to the schema model.

use vstd::prelude::*;
use vstd::string::*;
use crate::schema::{
    Directive, EnumValue, Field, InputValue, NamedType, RootType, Schema, TypeRef,
    TypeRefContainer,
};
use crate::syntax;
use crate::syntax::schema::{Definition, DirectiveDefinition, Document, TypeDefinition};
use crate::text::str_eq;

verus! {

/// Why a schema could not be taken in.
#[derive(Debug, Clone, Copy, PartialEq, Eq)]
pub enum SchemaError {
    /// A second `schema { ... }` block after one that names the query type.
    SchemaDefinedTwice,
    /// No `schema { ... }` block names the query type.
    QueryTypeNotSet,
    /// The document extends a type.
    TypeExtensionUnsupported,
    /// A type is marked non-null twice in a row.
    NonNullInsideNonNull,
}

impl SchemaError {
    /// What went wrong, in words.
    pub open spec fn message(self) -> Seq<char> {
        match self {
            SchemaError::SchemaDefinedTwice => "the schema is defined more than once"@,
            SchemaError::QueryTypeNotSet => "the schema names no query type"@,
            SchemaError::TypeExtensionUnsupported => "type extensions are not supported"@,
            SchemaError::NonNullInsideNonNull => "a non-null type cannot contain a non-null type"@,
        }
    }

    pub fn to_string(&self) -> (message: String)
        ensures
            message@ == self.message(),
    {
        match self {
            SchemaError::SchemaDefinedTwice => String::from_str(
                "the schema is defined more than once",
            ),
            SchemaError::QueryTypeNotSet => String::from_str("the schema names no query type"),
            SchemaError::TypeExtensionUnsupported => String::from_str(
                "type extensions are not supported",
            ),
            SchemaError::NonNullInsideNonNull => String::from_str(
                "a non-null type cannot contain a non-null type",
            ),
        }
    }
}

/// No type is marked non-null twice in a row, at any depth.
pub open spec fn type_is_valid(parsed: syntax::Type) -> bool
    decreases parsed,
{
    match parsed {
        syntax::Type::NamedType(_) => true,
        syntax::Type::ListType(inner) => type_is_valid(*inner),
        syntax::Type::NonNullType(inner) => !(*inner is NonNullType) && type_is_valid(*inner),
    }
}

/// The reference that a written type stands for: the same wrappers around the same name.
pub open spec fn type_ref_of(parsed: syntax::Type) -> TypeRef
    decreases parsed,
{
    match parsed {
        syntax::Type::NamedType(name) => TypeRef::To { name },
        syntax::Type::ListType(inner) => TypeRef::Container(
            TypeRefContainer::List { of_type: Box::new(type_ref_of(*inner)) },
        ),
        syntax::Type::NonNullType(inner) => TypeRef::Container(
            TypeRefContainer::NonNull { of_type: Box::new(type_ref_of(*inner)) },
        ),
    }
}

impl TypeRef {
    /// Converts a written type. Fails exactly when it is marked non-null twice in a
    /// row somewhere.
    pub fn try_from(parsed: &syntax::Type) -> (out: Result<TypeRef, SchemaError>)
        ensures
            match out {
                Ok(type_ref) => type_is_valid(*parsed) && type_ref == type_ref_of(*parsed)
                    && type_ref.well_formed(),
                Err(e) => !type_is_valid(*parsed) && e == SchemaError::NonNullInsideNonNull,
            },
        decreases parsed,
    {
        match parsed {
            syntax::Type::NamedType(name) => Ok(TypeRef::To { name: name.clone() }),
            syntax::Type::ListType(inner) => match TypeRef::try_from(inner) {
                Ok(of_type) => Ok(
                    TypeRef::Container(TypeRefContainer::List { of_type: Box::new(of_type) }),
                ),
                Err(e) => Err(e),
            },
            syntax::Type::NonNullType(inner) => {
                match &**inner {
                    syntax::Type::NonNullType(_) => {
                        return Err(SchemaError::NonNullInsideNonNull);
                    },
                    _ => {},
                }
                match TypeRef::try_from(inner) {
                    Ok(of_type) => Ok(
                        TypeRef::Container(
                            TypeRefContainer::NonNull { of_type: Box::new(of_type) },
                        ),
                    ),
                    Err(e) => Err(e),
                }
            },
        }
    }
}

/// The input value that a written one stands for. A written default is not kept.
pub open spec fn input_value_of(parsed: syntax::schema::InputValue) -> InputValue {
    InputValue {
        name: parsed.name,
        description: parsed.description,
        of_type: type_ref_of(parsed.value_type),
        default_value: None,
    }
}

impl InputValue {
    pub fn try_from(parsed: &syntax::schema::InputValue) -> (out: Result<InputValue, SchemaError>)
        ensures
            match out {
                Ok(value) => type_is_valid(parsed.value_type) && value == input_value_of(*parsed),
                Err(e) => !type_is_valid(parsed.value_type) && e
                    == SchemaError::NonNullInsideNonNull,
            },
    {
        match TypeRef::try_from(&parsed.value_type) {
            Ok(of_type) => Ok(
                InputValue {
                    name: parsed.name.clone(),
                    description: parsed.description.clone(),
                    of_type,
                    default_value: None,
                },
            ),
            Err(e) => Err(e),
        }
    }
}

/// Every written input value has a valid type.
pub open spec fn input_values_are_valid(parsed: Seq<syntax::schema::InputValue>) -> bool {
    forall|i: int| 0 <= i < parsed.len() ==> type_is_valid((#[trigger] parsed[i]).value_type)
}

/// Input values and what they were written as, one for one.
pub open spec fn input_values_model(out: Seq<InputValue>, parsed: Seq<syntax::schema::InputValue>) -> bool {
    out.len() == parsed.len() && forall|i: int|
        0 <= i < parsed.len() ==> #[trigger] out[i] == input_value_of(parsed[i])
}

fn input_values_from(parsed: &Vec<syntax::schema::InputValue>) -> (out: Result<
    Vec<InputValue>,
    SchemaError,
>)
    ensures
        match out {
            Ok(values) => input_values_are_valid(parsed@) && input_values_model(values@, parsed@),
            Err(e) => !input_values_are_valid(parsed@) && e == SchemaError::NonNullInsideNonNull,
        },
{
    let mut out: Vec<InputValue> = Vec::new();
    let mut i: usize = 0;
    while i < parsed.len()
        invariant
            i <= parsed.len(),
            out@.len() == i,
            forall|j: int| 0 <= j < i ==> type_is_valid((#[trigger] parsed@[j]).value_type),
            forall|j: int| 0 <= j < i ==> #[trigger] out@[j] == input_value_of(parsed@[j]),
        decreases parsed.len() - i,
    {
        match InputValue::try_from(&parsed[i]) {
            Ok(value) => out.push(value),
            Err(e) => {
                return Err(e);
            },
        }
        i += 1;
    }
    Ok(out)
}

/// A written field has valid types throughout.
pub open spec fn field_is_valid(parsed: syntax::schema::Field) -> bool {
    input_values_are_valid(parsed.arguments@) && type_is_valid(parsed.field_type)
}

impl Field {
    /// The same field. The syntax tree says nothing of deprecation, so the field is
    /// not deprecated.
    pub open spec fn models(&self, parsed: syntax::schema::Field) -> bool {
        &&& self.name == parsed.name
        &&& self.description == parsed.description
        &&& input_values_model(self.args@, parsed.arguments@)
        &&& self.of_type == type_ref_of(parsed.field_type)
        &&& !self.is_deprecated
        &&& self.deprecation_reason is None
    }

    pub fn try_from(parsed: &syntax::schema::Field) -> (out: Result<Field, SchemaError>)
        ensures
            match out {
                Ok(field) => field_is_valid(*parsed) && field.models(*parsed),
                Err(e) => !field_is_valid(*parsed) && e == SchemaError::NonNullInsideNonNull,
            },
    {
        let args = match input_values_from(&parsed.arguments) {
            Ok(args) => args,
            Err(e) => {
                return Err(e);
            },
        };
        let of_type = match TypeRef::try_from(&parsed.field_type) {
            Ok(of_type) => of_type,
            Err(e) => {
                return Err(e);
            },
        };
        Ok(
            Field {
                name: parsed.name.clone(),
                description: parsed.description.clone(),
                args,
                of_type,
                is_deprecated: false,
                deprecation_reason: None,
            },
        )
    }
}

/// Every written field has valid types throughout.
pub open spec fn fields_are_valid(parsed: Seq<syntax::schema::Field>) -> bool {
    forall|i: int| 0 <= i < parsed.len() ==> field_is_valid(#[trigger] parsed[i])
}

/// Fields and what they were written as, one for one.
pub open spec fn fields_model(out: Seq<Field>, parsed: Seq<syntax::schema::Field>) -> bool {
    out.len() == parsed.len() && forall|i: int|
        0 <= i < parsed.len() ==> (#[trigger] out[i]).models(parsed[i])
}

fn fields_from(parsed: &Vec<syntax::schema::Field>) -> (out: Result<Vec<Field>, SchemaError>)
    ensures
        match out {
            Ok(fields) => fields_are_valid(parsed@) && fields_model(fields@, parsed@),
            Err(e) => !fields_are_valid(parsed@) && e == SchemaError::NonNullInsideNonNull,
        },
{
    let mut out: Vec<Field> = Vec::new();
    let mut i: usize = 0;
    while i < parsed.len()
        invariant
            i <= parsed.len(),
            out@.len() == i,
            forall|j: int| 0 <= j < i ==> field_is_valid(#[trigger] parsed@[j]),
            forall|j: int| 0 <= j < i ==> (#[trigger] out@[j]).models(parsed@[j]),
        decreases parsed.len() - i,
    {
        match Field::try_from(&parsed[i]) {
            Ok(field) => out.push(field),
            Err(e) => {
                return Err(e);
            },
        }
        i += 1;
    }
    Ok(out)
}

/// Bare references to the given names, one for one.
pub open spec fn references_to(out: Seq<TypeRef>, names: Seq<String>) -> bool {
    out.len() == names.len() && forall|i: int|
        0 <= i < names.len() ==> #[trigger] out[i] == (TypeRef::To { name: names[i] })
}

fn references_from(names: &Vec<String>) -> (out: Vec<TypeRef>)
    ensures
        references_to(out@, names@),
{
    let mut out: Vec<TypeRef> = Vec::new();
    let mut i: usize = 0;
    while i < names.len()
        invariant
            i <= names.len(),
            out@.len() == i,
            forall|j: int| 0 <= j < i ==> #[trigger] out@[j] == (TypeRef::To { name: names@[j] }),
        decreases names.len() - i,
    {
        out.push(TypeRef::To { name: names[i].clone() });
        i += 1;
    }
    out
}

/// The enum value that a written one stands for; it is not deprecated.
pub open spec fn enum_value_of(parsed: syntax::schema::EnumValue) -> EnumValue {
    EnumValue {
        name: parsed.name,
        description: parsed.description,
        is_deprecated: false,
        deprecation_reason: None,
    }
}

impl EnumValue {
    pub fn from(parsed: &syntax::schema::EnumValue) -> (out: EnumValue)
        ensures
            out == enum_value_of(*parsed),
    {
        EnumValue {
            name: parsed.name.clone(),
            description: parsed.description.clone(),
            is_deprecated: false,
            deprecation_reason: None,
        }
    }
}

/// Enum values and what they were written as, one for one.
pub open spec fn enum_values_model(out: Seq<EnumValue>, parsed: Seq<syntax::schema::EnumValue>) -> bool {
    out.len() == parsed.len() && forall|i: int|
        0 <= i < parsed.len() ==> #[trigger] out[i] == enum_value_of(parsed[i])
}

fn enum_values_from(parsed: &Vec<syntax::schema::EnumValue>) -> (out: Vec<EnumValue>)
    ensures
        enum_values_model(out@, parsed@),
{
    let mut out: Vec<EnumValue> = Vec::new();
    let mut i: usize = 0;
    while i < parsed.len()
        invariant
            i <= parsed.len(),
            out@.len() == i,
            forall|j: int| 0 <= j < i ==> #[trigger] out@[j] == enum_value_of(parsed@[j]),
        decreases parsed.len() - i,
    {
        out.push(EnumValue::from(&parsed[i]));
        i += 1;
    }
    out
}

/// A written type definition has valid types throughout.
pub open spec fn type_definition_is_valid(parsed: TypeDefinition) -> bool {
    match parsed {
        TypeDefinition::Object { fields, .. } => fields_are_valid(fields@),
        TypeDefinition::Interface { fields, .. } => fields_are_valid(fields@),
        TypeDefinition::InputObject { fields, .. } => input_values_are_valid(fields@),
        _ => true,
    }
}

/// Whether `name` is among `names`.
pub open spec fn lists_name(names: Seq<String>, name: Seq<char>) -> bool {
    exists|k: int| 0 <= k < names.len() && (#[trigger] names[k])@ == name
}

/// The object that a definition defines as an implementation of `interface`, if it
/// defines one.
pub open spec fn implementer(definition: Definition, interface: Seq<char>) -> Option<String> {
    match definition {
        Definition::TypeDefinition(TypeDefinition::Object { name, implements_interfaces, .. }) => if lists_name(
            implements_interfaces@,
            interface,
        ) {
            Some(name)
        } else {
            None
        },
        _ => None,
    }
}

/// The possible types of an interface: a reference to every object of the document
/// that says it implements the interface, in document order.
pub open spec fn implementers(definitions: Seq<Definition>, interface: Seq<char>) -> Seq<TypeRef>
    decreases definitions.len(),
{
    if definitions.len() == 0 {
        Seq::empty()
    } else {
        match implementer(definitions.last(), interface) {
            Some(name) => implementers(definitions.drop_last(), interface).push(
                TypeRef::To { name },
            ),
            None => implementers(definitions.drop_last(), interface),
        }
    }
}

fn names_list(names: &Vec<String>, name: &str) -> (found: bool)
    ensures
        found == lists_name(names@, name@),
{
    let mut i: usize = 0;
    while i < names.len()
        invariant
            i <= names.len(),
            forall|k: int| 0 <= k < i ==> (#[trigger] names@[k])@ != name@,
        decreases names.len() - i,
    {
        if str_eq(names[i].as_str(), name) {
            return true;
        }
        i += 1;
    }
    false
}

fn implementers_of(definitions: &Vec<Definition>, interface: &str) -> (members: Vec<TypeRef>)
    ensures
        members@ == implementers(definitions@, interface@),
{
    let mut members: Vec<TypeRef> = Vec::new();
    let mut i: usize = 0;
    while i < definitions.len()
        invariant
            i <= definitions.len(),
            members@ == implementers(definitions@.subrange(0, i as int), interface@),
        decreases definitions.len() - i,
    {
        proof {
            assert(definitions@.subrange(0, i + 1).drop_last() == definitions@.subrange(
                0,
                i as int,
            ));
        }
        match &definitions[i] {
            Definition::TypeDefinition(TypeDefinition::Object { name, implements_interfaces, .. }) => {
                if names_list(implements_interfaces, interface) {
                    members.push(TypeRef::To { name: name.clone() });
                }
            },
            _ => {},
        }
        i += 1;
    }
    proof {
        assert(definitions@.subrange(0, i as int) == definitions@);
    }
    members
}

impl NamedType {
    /// The named type that a written definition stands for, taken by itself. An
    /// interface has no possible types here: its definition does not list them.
    pub open spec fn models(&self, parsed: TypeDefinition) -> bool {
        match parsed {
            TypeDefinition::Scalar { description, name } => *self == (NamedType::Scalar {
                name,
                description,
            }),
            TypeDefinition::Object { description, name, implements_interfaces, fields } => {
                &&& *self matches NamedType::Object {
                    name: out_name,
                    description: out_description,
                    fields: out_fields,
                    interfaces,
                }
                &&& out_name == name
                &&& out_description == description
                &&& fields_model(out_fields@, fields@)
                &&& references_to(interfaces@, implements_interfaces@)
            },
            TypeDefinition::Interface { description, name, implements_interfaces, fields } => {
                &&& *self matches NamedType::Interface {
                    name: out_name,
                    description: out_description,
                    fields: out_fields,
                    possible_types,
                    interfaces,
                }
                &&& out_name == name
                &&& out_description == description
                &&& fields_model(out_fields@, fields@)
                &&& possible_types@.len() == 0
                &&& references_to(interfaces@, implements_interfaces@)
            },
            TypeDefinition::Union { description, name, types } => {
                &&& *self matches NamedType::Union {
                    name: out_name,
                    description: out_description,
                    possible_types,
                }
                &&& out_name == name
                &&& out_description == description
                &&& references_to(possible_types@, types@)
            },
            TypeDefinition::Enum { description, name, values } => {
                &&& *self matches NamedType::Enum {
                    name: out_name,
                    description: out_description,
                    enum_values,
                }
                &&& out_name == name
                &&& out_description == description
                &&& enum_values_model(enum_values@, values@)
            },
            TypeDefinition::InputObject { description, name, fields } => {
                &&& *self matches NamedType::InputObject {
                    name: out_name,
                    description: out_description,
                    input_fields,
                }
                &&& out_name == name
                &&& out_description == description
                &&& input_values_model(input_fields@, fields@)
            },
        }
    }

    /// The named type that a written definition stands for within its document. The
    /// possible types of an interface are the objects of the document that
    /// implement it.
    pub open spec fn models_within(&self, parsed: TypeDefinition, definitions: Seq<Definition>) -> bool {
        match parsed {
            TypeDefinition::Interface { description, name, implements_interfaces, fields } => {
                &&& *self matches NamedType::Interface {
                    name: out_name,
                    description: out_description,
                    fields: out_fields,
                    possible_types,
                    interfaces,
                }
                &&& out_name == name
                &&& out_description == description
                &&& fields_model(out_fields@, fields@)
                &&& possible_types@ == implementers(definitions, name@)
                &&& references_to(interfaces@, implements_interfaces@)
            },
            _ => self.models(parsed),
        }
    }

    /// Converts a written type definition. Fails exactly when one of its types is
    /// marked non-null twice in a row.
    pub fn try_from(parsed: &TypeDefinition) -> (out: Result<NamedType, SchemaError>)
        ensures
            match out {
                Ok(named) => type_definition_is_valid(*parsed) && named.models(*parsed),
                Err(e) => !type_definition_is_valid(*parsed) && e
                    == SchemaError::NonNullInsideNonNull,
            },
    {
        match parsed {
            TypeDefinition::Scalar { description, name } => Ok(
                NamedType::Scalar { name: name.clone(), description: description.clone() },
            ),
            TypeDefinition::Object { description, name, implements_interfaces, fields } => {
                match fields_from(fields) {
                    Ok(fields) => Ok(
                        NamedType::Object {
                            name: name.clone(),
                            description: description.clone(),
                            fields,
                            interfaces: references_from(implements_interfaces),
                        },
                    ),
                    Err(e) => Err(e),
                }
            },
            TypeDefinition::Interface { description, name, implements_interfaces, fields } => {
                match fields_from(fields) {
                    Ok(fields) => Ok(
                        NamedType::Interface {
                            name: name.clone(),
                            description: description.clone(),
                            fields,
                            possible_types: Vec::new(),
                            interfaces: references_from(implements_interfaces),
                        },
                    ),
                    Err(e) => Err(e),
                }
            },
            TypeDefinition::Union { description, name, types } => Ok(
                NamedType::Union {
                    name: name.clone(),
                    description: description.clone(),
                    possible_types: references_from(types),
                },
            ),
            TypeDefinition::Enum { description, name, values } => Ok(
                NamedType::Enum {
                    name: name.clone(),
                    description: description.clone(),
                    enum_values: enum_values_from(values),
                },
            ),
            TypeDefinition::InputObject { description, name, fields } => {
                match input_values_from(fields) {
                    Ok(input_fields) => Ok(
                        NamedType::InputObject {
                            name: name.clone(),
                            description: description.clone(),
                            input_fields,
                        },
                    ),
                    Err(e) => Err(e),
                }
            },
        }
    }
}

impl Directive {
    /// The directive that a written definition stands for.
    pub open spec fn models(&self, parsed: DirectiveDefinition) -> bool {
        &&& self.name == parsed.name
        &&& self.description == parsed.description
        &&& self.locations@ == parsed.locations@
        &&& input_values_model(self.args@, parsed.arguments@)
    }

    pub fn try_from(parsed: &DirectiveDefinition) -> (out: Result<Directive, SchemaError>)
        ensures
            match out {
                Ok(directive) => input_values_are_valid(parsed.arguments@) && directive.models(
                    *parsed,
                ),
                Err(e) => !input_values_are_valid(parsed.arguments@) && e
                    == SchemaError::NonNullInsideNonNull,
            },
    {
        let args = match input_values_from(&parsed.arguments) {
            Ok(args) => args,
            Err(e) => {
                return Err(e);
            },
        };
        let mut locations = Vec::new();
        let mut i: usize = 0;
        while i < parsed.locations.len()
            invariant
                i <= parsed.locations.len(),
                locations@ == parsed.locations@.subrange(0, i as int),
            decreases parsed.locations.len() - i,
        {
            locations.push(parsed.locations[i]);
            i += 1;
        }
        proof {
            assert(parsed.locations@.subrange(0, i as int) =~= parsed.locations@);
        }
        Ok(
            Directive {
                description: parsed.description.clone(),
                name: parsed.name.clone(),
                locations,
                args,
            },
        )
    }
}

/// What has been gathered from the definitions read so far.
pub struct Gathered {
    /// The root names of the last `schema { ... }` block, if there was one.
    pub roots: Option<syntax::schema::SchemaDefinition>,
    /// The type definitions, in the order they were written.
    pub types: Seq<TypeDefinition>,
    /// The directive definitions, in the order they were written.
    pub directives: Seq<DirectiveDefinition>,
}

/// Whether a query type has been named so far.
pub open spec fn query_is_set(gathered: Gathered) -> bool {
    gathered.roots matches Some(roots) && roots.query is Some
}

/// What one more definition adds to what was gathered, or why it is refused.
pub open spec fn take_definition(gathered: Gathered, definition: Definition) -> Result<
    Gathered,
    SchemaError,
> {
    match definition {
        Definition::SchemaDefinition(roots) => if query_is_set(gathered) {
            Err(SchemaError::SchemaDefinedTwice)
        } else {
            Ok(Gathered { roots: Some(roots), ..gathered })
        },
        Definition::TypeDefinition(t) => if type_definition_is_valid(t) {
            Ok(Gathered { types: gathered.types.push(t), ..gathered })
        } else {
            Err(SchemaError::NonNullInsideNonNull)
        },
        Definition::TypeExtension => Err(SchemaError::TypeExtensionUnsupported),
        Definition::DirectiveDefinition(d) => if input_values_are_valid(d.arguments@) {
            Ok(Gathered { directives: gathered.directives.push(d), ..gathered })
        } else {
            Err(SchemaError::NonNullInsideNonNull)
        },
    }
}

/// What the first `upto` definitions add up to. The first definition that is
/// refused decides the failure.
pub open spec fn gather(definitions: Seq<Definition>, upto: nat) -> Result<Gathered, SchemaError>
    decreases upto,
{
    if upto == 0 {
        Ok(Gathered { roots: None, types: Seq::empty(), directives: Seq::empty() })
    } else {
        match gather(definitions, (upto - 1) as nat) {
            Err(e) => Err(e),
            Ok(gathered) => take_definition(gathered, definitions[upto - 1]),
        }
    }
}

/// What reading a whole document gives: what its definitions add up to, with a
/// query type named among them.
pub open spec fn read_document(document: Document) -> Result<Gathered, SchemaError> {
    match gather(document.definitions@, document.definitions@.len()) {
        Err(e) => Err(e),
        Ok(gathered) => if query_is_set(gathered) {
            Ok(gathered)
        } else {
            Err(SchemaError::QueryTypeNotSet)
        },
    }
}

/// An optional root type and the optional name it was written as.
pub open spec fn optional_root_of(name: Option<String>) -> Option<RootType> {
    match name {
        Some(name) => Some(RootType { name }),
        None => None,
    }
}

fn optional_root_from(name: &Option<String>) -> (out: Option<RootType>)
    ensures
        out == optional_root_of(*name),
{
    match name {
        Some(name) => Some(RootType { name: name.clone() }),
        None => None,
    }
}

impl Schema {
    /// The schema that was gathered from a document: the root names of its schema
    /// block, and its types and directives in the order they were written, each
    /// interface with the objects of the document that implement it.
    pub open spec fn models(&self, gathered: Gathered, definitions: Seq<Definition>) -> bool {
        &&& gathered.roots matches Some(roots)
        &&& Some(self.query_type) == optional_root_of(roots.query)
        &&& self.mutation_type == optional_root_of(roots.mutation)
        &&& self.subscription_type == optional_root_of(roots.subscription)
        &&& self.types@.len() == gathered.types.len()
        &&& forall|i: int|
            0 <= i < gathered.types.len() ==> (#[trigger] self.types@[i]).models_within(
                gathered.types[i],
                definitions,
            )
        &&& self.directives@.len() == gathered.directives.len()
        &&& forall|i: int|
            0 <= i < gathered.directives.len() ==> (#[trigger] self.directives@[i]).models(
                gathered.directives[i],
            )
    }

    /// Takes a schema in from the syntax tree of its definition document. Every
    /// interface gets the objects that implement it as its possible types.
    ///
    /// Fails on the first definition that is a type extension, a second schema block
    /// after the query type was named, or a definition with a type marked non-null
    /// twice in a row; and, where every definition is taken, when no schema block
    /// names the query type.
    pub fn try_from(document: &Document) -> (out: Result<Schema, SchemaError>)
        ensures
            match out {
                Ok(schema) => read_document(*document) matches Ok(gathered) && schema.models(
                    gathered,
                    document.definitions@,
                ),
                Err(e) => read_document(*document) == Err::<Gathered, SchemaError>(e),
            },
    {
        let mut query_type: Option<RootType> = None;
        let mut mutation_type: Option<RootType> = None;
        let mut subscription_type: Option<RootType> = None;
        let mut types: Vec<NamedType> = Vec::new();
        let mut directives: Vec<Directive> = Vec::new();
        let ghost mut gathered = Gathered {
            roots: None,
            types: Seq::empty(),
            directives: Seq::empty(),
        };
        let mut i: usize = 0;
        while i < document.definitions.len()
            invariant
                i <= document.definitions.len(),
                gather(document.definitions@, i as nat) == Ok::<Gathered, SchemaError>(gathered),
                match gathered.roots {
                    Some(roots) => query_type == optional_root_of(roots.query) && mutation_type
                        == optional_root_of(roots.mutation) && subscription_type
                        == optional_root_of(roots.subscription),
                    None => query_type is None && mutation_type is None && subscription_type is None,
                },
                types@.len() == gathered.types.len(),
                forall|j: int|
                    0 <= j < gathered.types.len() ==> (#[trigger] types@[j]).models_within(
                        gathered.types[j],
                        document.definitions@,
                    ),
                directives@.len() == gathered.directives.len(),
                forall|j: int|
                    0 <= j < gathered.directives.len() ==> (#[trigger] directives@[j]).models(
                        gathered.directives[j],
                    ),
            decreases document.definitions.len() - i,
        {
            match &document.definitions[i] {
                Definition::SchemaDefinition(roots) => {
                    if query_type.is_some() {
                        proof {
                            lemma_failure_is_final(
                                document.definitions@,
                                (i + 1) as nat,
                                document.definitions@.len(),
                            );
                        }
                        return Err(SchemaError::SchemaDefinedTwice);
                    }
                    query_type = optional_root_from(&roots.query);
                    mutation_type = optional_root_from(&roots.mutation);
                    subscription_type = optional_root_from(&roots.subscription);
                    proof {
                        gathered = Gathered { roots: Some(*roots), ..gathered };
                    }
                },
                Definition::TypeDefinition(t) => {
                    match NamedType::try_from(t) {
                        Ok(named) => {
                            let within = match named {
                                NamedType::Interface {
                                    name,
                                    description,
                                    fields,
                                    interfaces,
                                    ..
                                } => {
                                    let possible_types = implementers_of(
                                        &document.definitions,
                                        name.as_str(),
                                    );
                                    NamedType::Interface {
                                        name,
                                        description,
                                        fields,
                                        possible_types,
                                        interfaces,
                                    }
                                },
                                other => other,
                            };
                            types.push(within);
                            proof {
                                gathered = Gathered { types: gathered.types.push(*t), ..gathered };
                            }
                        },
                        Err(e) => {
                            proof {
                                lemma_failure_is_final(
                                    document.definitions@,
                                    (i + 1) as nat,
                                    document.definitions@.len(),
                                );
                            }
                            return Err(e);
                        },
                    }
                },
                Definition::TypeExtension => {
                    proof {
                        lemma_failure_is_final(
                            document.definitions@,
                            (i + 1) as nat,
                            document.definitions@.len(),
                        );
                    }
                    return Err(SchemaError::TypeExtensionUnsupported);
                },
                Definition::DirectiveDefinition(d) => {
                    match Directive::try_from(d) {
                        Ok(directive) => {
                            directives.push(directive);
                            proof {
                                gathered = Gathered {
                                    directives: gathered.directives.push(*d),
                                    ..gathered
                                };
                            }
                        },
                        Err(e) => {
                            proof {
                                lemma_failure_is_final(
                                    document.definitions@,
                                    (i + 1) as nat,
                                    document.definitions@.len(),
                                );
                            }
                            return Err(e);
                        },
                    }
                },
            }
            i += 1;
        }
        match query_type {
            Some(query_type) => Ok(
                Schema { types, query_type, mutation_type, subscription_type, directives },
            ),
            None => Err(SchemaError::QueryTypeNotSet),
        }
    }
}

/// Once the definitions up to some point are refused, so are all of them, for the
/// same reason.
pub proof fn lemma_failure_is_final(definitions: Seq<Definition>, upto: nat, all: nat)
    requires
        upto <= all,
        gather(definitions, upto) is Err,
    ensures
        gather(definitions, all) == gather(definitions, upto),
    decreases all - upto,
{
    if upto < all {
        lemma_failure_is_final(definitions, upto, (all - 1) as nat);
    }
}

} // verus!
