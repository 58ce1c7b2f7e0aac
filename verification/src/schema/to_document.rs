//! From the schema model to the syntax tree of a schema definition document.

use vstd::prelude::*;
use vstd::string::*;
use crate::schema::{EnumValue, Field, InputValue, NamedType, Schema, TypeRef, TypeRefContainer};
use crate::syntax;
use crate::syntax::schema::{Definition, Document, SchemaDefinition, TypeDefinition};

verus! {

/// A reference as it is written: the same wrappers around the same name.
pub open spec fn written_type(type_ref: TypeRef) -> syntax::Type
    decreases type_ref,
{
    match type_ref {
        TypeRef::To { name } => syntax::Type::NamedType(name),
        TypeRef::Container(TypeRefContainer::NonNull { of_type }) => syntax::Type::NonNullType(
            Box::new(written_type(*of_type)),
        ),
        TypeRef::Container(TypeRefContainer::List { of_type }) => syntax::Type::ListType(
            Box::new(written_type(*of_type)),
        ),
    }
}

impl syntax::Type {
    pub fn from(type_ref: &TypeRef) -> (out: Self)
        ensures
            out == written_type(*type_ref),
        decreases type_ref,
    {
        match type_ref {
            TypeRef::To { name } => syntax::Type::NamedType(name.clone()),
            TypeRef::Container(TypeRefContainer::NonNull { of_type }) => syntax::Type::NonNullType(
                Box::new(syntax::Type::from(of_type)),
            ),
            TypeRef::Container(TypeRefContainer::List { of_type }) => syntax::Type::ListType(
                Box::new(syntax::Type::from(of_type)),
            ),
        }
    }
}

/// The names of the bare references among `refs`, in order. A wrapped reference has
/// no name and is left out.
pub open spec fn names_of(refs: Seq<TypeRef>) -> Seq<String>
    decreases refs.len(),
{
    if refs.len() == 0 {
        Seq::empty()
    } else {
        match refs.last() {
            TypeRef::To { name } => names_of(refs.drop_last()).push(name),
            TypeRef::Container(_) => names_of(refs.drop_last()),
        }
    }
}

fn names_from(refs: &Vec<TypeRef>) -> (names: Vec<String>)
    ensures
        names@ == names_of(refs@),
{
    let mut names: Vec<String> = Vec::new();
    let mut i: usize = 0;
    while i < refs.len()
        invariant
            i <= refs.len(),
            names@ == names_of(refs@.subrange(0, i as int)),
        decreases refs.len() - i,
    {
        proof {
            assert(refs@.subrange(0, i + 1).drop_last() == refs@.subrange(0, i as int));
        }
        match &refs[i] {
            TypeRef::To { name } => names.push(name.clone()),
            TypeRef::Container(_) => {},
        }
        i += 1;
    }
    proof {
        assert(refs@.subrange(0, i as int) == refs@);
    }
    names
}

/// An input value as it is written. The model's default is not written.
pub open spec fn written_input_value(value: InputValue) -> syntax::schema::InputValue {
    syntax::schema::InputValue {
        description: value.description,
        name: value.name,
        value_type: written_type(value.of_type),
    }
}

impl syntax::schema::InputValue {
    pub fn from(value: &InputValue) -> (out: Self)
        ensures
            out == written_input_value(*value),
    {
        syntax::schema::InputValue {
            description: value.description.clone(),
            name: value.name.clone(),
            value_type: syntax::Type::from(&value.of_type),
        }
    }
}

/// Written input values and the input values they stand for, one for one.
pub open spec fn input_values_written(out: Seq<syntax::schema::InputValue>, values: Seq<InputValue>) -> bool {
    out.len() == values.len() && forall|i: int|
        0 <= i < values.len() ==> #[trigger] out[i] == written_input_value(values[i])
}

fn input_values_from(values: &Vec<InputValue>) -> (out: Vec<syntax::schema::InputValue>)
    ensures
        input_values_written(out@, values@),
{
    let mut out: Vec<syntax::schema::InputValue> = Vec::new();
    let mut i: usize = 0;
    while i < values.len()
        invariant
            i <= values.len(),
            out@.len() == i,
            forall|j: int| 0 <= j < i ==> #[trigger] out@[j] == written_input_value(values@[j]),
        decreases values.len() - i,
    {
        out.push(syntax::schema::InputValue::from(&values[i]));
        i += 1;
    }
    out
}

impl syntax::schema::Field {
    /// The field as it is written. Deprecation is not written.
    pub open spec fn writes(&self, field: Field) -> bool {
        &&& self.description == field.description
        &&& self.name == field.name
        &&& input_values_written(self.arguments@, field.args@)
        &&& self.field_type == written_type(field.of_type)
    }

    pub fn from(field: &Field) -> (out: Self)
        ensures
            out.writes(*field),
    {
        syntax::schema::Field {
            description: field.description.clone(),
            name: field.name.clone(),
            arguments: input_values_from(&field.args),
            field_type: syntax::Type::from(&field.of_type),
        }
    }
}

/// Written fields and the fields they stand for, one for one.
pub open spec fn fields_written(out: Seq<syntax::schema::Field>, fields: Seq<Field>) -> bool {
    out.len() == fields.len() && forall|i: int|
        0 <= i < fields.len() ==> (#[trigger] out[i]).writes(fields[i])
}

fn fields_from(fields: &Vec<Field>) -> (out: Vec<syntax::schema::Field>)
    ensures
        fields_written(out@, fields@),
{
    let mut out: Vec<syntax::schema::Field> = Vec::new();
    let mut i: usize = 0;
    while i < fields.len()
        invariant
            i <= fields.len(),
            out@.len() == i,
            forall|j: int| 0 <= j < i ==> (#[trigger] out@[j]).writes(fields@[j]),
        decreases fields.len() - i,
    {
        out.push(syntax::schema::Field::from(&fields[i]));
        i += 1;
    }
    out
}

/// An enum value as it is written. Deprecation is not written.
pub open spec fn written_enum_value(value: EnumValue) -> syntax::schema::EnumValue {
    syntax::schema::EnumValue { description: value.description, name: value.name }
}

impl syntax::schema::EnumValue {
    pub fn from(value: &EnumValue) -> (out: Self)
        ensures
            out == written_enum_value(*value),
    {
        syntax::schema::EnumValue {
            description: value.description.clone(),
            name: value.name.clone(),
        }
    }
}

/// Written enum values and the enum values they stand for, one for one.
pub open spec fn enum_values_written(out: Seq<syntax::schema::EnumValue>, values: Seq<EnumValue>) -> bool {
    out.len() == values.len() && forall|i: int|
        0 <= i < values.len() ==> #[trigger] out[i] == written_enum_value(values[i])
}

fn enum_values_from(values: &Vec<EnumValue>) -> (out: Vec<syntax::schema::EnumValue>)
    ensures
        enum_values_written(out@, values@),
{
    let mut out: Vec<syntax::schema::EnumValue> = Vec::new();
    let mut i: usize = 0;
    while i < values.len()
        invariant
            i <= values.len(),
            out@.len() == i,
            forall|j: int| 0 <= j < i ==> #[trigger] out@[j] == written_enum_value(values@[j]),
        decreases values.len() - i,
    {
        out.push(syntax::schema::EnumValue::from(&values[i]));
        i += 1;
    }
    out
}

impl TypeDefinition {
    /// The definition that writes a named type down. The interfaces and the members
    /// are written by name; the possible types of an interface are not written.
    pub open spec fn writes(&self, named: NamedType) -> bool {
        match named {
            NamedType::Scalar { name, description } => *self == (TypeDefinition::Scalar {
                description,
                name,
            }),
            NamedType::Object { name, description, fields, interfaces } => {
                &&& *self matches TypeDefinition::Object {
                    description: out_description,
                    name: out_name,
                    implements_interfaces,
                    fields: out_fields,
                }
                &&& out_name == name
                &&& out_description == description
                &&& implements_interfaces@ == names_of(interfaces@)
                &&& fields_written(out_fields@, fields@)
            },
            NamedType::Interface { name, description, fields, interfaces, .. } => {
                &&& *self matches TypeDefinition::Interface {
                    description: out_description,
                    name: out_name,
                    implements_interfaces,
                    fields: out_fields,
                }
                &&& out_name == name
                &&& out_description == description
                &&& implements_interfaces@ == names_of(interfaces@)
                &&& fields_written(out_fields@, fields@)
            },
            NamedType::Union { name, description, possible_types } => {
                &&& *self matches TypeDefinition::Union {
                    description: out_description,
                    name: out_name,
                    types,
                }
                &&& out_name == name
                &&& out_description == description
                &&& types@ == names_of(possible_types@)
            },
            NamedType::Enum { name, description, enum_values } => {
                &&& *self matches TypeDefinition::Enum {
                    description: out_description,
                    name: out_name,
                    values,
                }
                &&& out_name == name
                &&& out_description == description
                &&& enum_values_written(values@, enum_values@)
            },
            NamedType::InputObject { name, description, input_fields } => {
                &&& *self matches TypeDefinition::InputObject {
                    description: out_description,
                    name: out_name,
                    fields,
                }
                &&& out_name == name
                &&& out_description == description
                &&& input_values_written(fields@, input_fields@)
            },
        }
    }

    pub fn from(named: &NamedType) -> (out: Self)
        ensures
            out.writes(*named),
    {
        match named {
            NamedType::Scalar { name, description } => TypeDefinition::Scalar {
                description: description.clone(),
                name: name.clone(),
            },
            NamedType::Object { name, description, fields, interfaces } => TypeDefinition::Object {
                description: description.clone(),
                name: name.clone(),
                implements_interfaces: names_from(interfaces),
                fields: fields_from(fields),
            },
            NamedType::Interface { name, description, fields, interfaces, .. } => TypeDefinition::Interface {
                description: description.clone(),
                name: name.clone(),
                implements_interfaces: names_from(interfaces),
                fields: fields_from(fields),
            },
            NamedType::Union { name, description, possible_types } => TypeDefinition::Union {
                description: description.clone(),
                name: name.clone(),
                types: names_from(possible_types),
            },
            NamedType::Enum { name, description, enum_values } => TypeDefinition::Enum {
                description: description.clone(),
                name: name.clone(),
                values: enum_values_from(enum_values),
            },
            NamedType::InputObject { name, description, input_fields } => TypeDefinition::InputObject {
                description: description.clone(),
                name: name.clone(),
                fields: input_values_from(input_fields),
            },
        }
    }
}

/// The types of a schema that are written down: all but the internal ones, in order.
pub open spec fn written_types(types: Seq<NamedType>) -> Seq<NamedType>
    decreases types.len(),
{
    if types.len() == 0 {
        Seq::empty()
    } else if types.last().spec_is_internal() {
        written_types(types.drop_last())
    } else {
        written_types(types.drop_last()).push(types.last())
    }
}

/// The schema block that names the root types of a schema.
pub open spec fn written_roots(schema: Schema) -> SchemaDefinition {
    SchemaDefinition {
        query: Some(schema.query_type.name),
        mutation: match schema.mutation_type {
            Some(root) => Some(root.name),
            None => None,
        },
        subscription: match schema.subscription_type {
            Some(root) => Some(root.name),
            None => None,
        },
    }
}

impl Document {
    /// The document that writes a schema down: one definition for each type that is
    /// not internal, in order, and the schema block at the end.
    pub open spec fn writes(&self, schema: Schema) -> bool {
        let types = written_types(schema.types@);
        &&& self.definitions@.len() == types.len() + 1
        &&& forall|i: int|
            0 <= i < types.len() ==> ((#[trigger] self.definitions@[i]) matches Definition::TypeDefinition(
                t,
            ) && t.writes(types[i]))
        &&& self.definitions@[types.len() as int] == Definition::SchemaDefinition(
            written_roots(schema),
        )
    }

    pub fn from(schema: &Schema) -> (out: Self)
        ensures
            out.writes(*schema),
    {
        let mut definitions: Vec<Definition> = Vec::new();
        let mut i: usize = 0;
        while i < schema.types.len()
            invariant
                i <= schema.types.len(),
                definitions@.len() == written_types(schema.types@.subrange(0, i as int)).len(),
                forall|j: int|
                    0 <= j < definitions@.len() ==> ((#[trigger] definitions@[j]) matches Definition::TypeDefinition(
                        t,
                    ) && t.writes(written_types(schema.types@.subrange(0, i as int))[j])),
            decreases schema.types.len() - i,
        {
            proof {
                assert(schema.types@.subrange(0, i + 1).drop_last() == schema.types@.subrange(
                    0,
                    i as int,
                ));
            }
            if !schema.types[i].is_internal() {
                definitions.push(Definition::TypeDefinition(TypeDefinition::from(&schema.types[i])));
            }
            i += 1;
        }
        proof {
            assert(schema.types@.subrange(0, i as int) == schema.types@);
        }
        definitions.push(
            Definition::SchemaDefinition(
                SchemaDefinition {
                    query: Some(schema.query_type.name.clone()),
                    mutation: match &schema.mutation_type {
                        Some(root) => Some(root.name.clone()),
                        None => None,
                    },
                    subscription: match &schema.subscription_type {
                        Some(root) => Some(root.name.clone()),
                        None => None,
                    },
                },
            ),
        );
        Document { definitions }
    }
}

} // verus!
