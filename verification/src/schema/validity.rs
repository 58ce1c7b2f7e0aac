//! What a schema must hold to be a schema: the invariants of the model, and the
//! checks that establish them for a schema that was handed in.

use vstd::prelude::*;
use vstd::string::*;
use vstd::hash_map::StringHashMap;
use crate::index::{type_map, TypeIndex};
use crate::schema::{Directive, Field, InputValue, NamedType, Schema};

verus! {

/// Input values with well-formed types.
pub open spec fn input_values_well_formed(values: Seq<InputValue>) -> bool {
    forall|i: int| 0 <= i < values.len() ==> (#[trigger] values[i]).of_type.well_formed()
}

/// Fields with well-formed types, their arguments included.
pub open spec fn fields_well_formed(fields: Seq<Field>) -> bool {
    forall|i: int|
        0 <= i < fields.len() ==> (#[trigger] fields[i]).of_type.well_formed()
            && input_values_well_formed(fields[i].args@)
}

/// A named type all of whose references are well formed.
pub open spec fn named_type_well_formed(t: NamedType) -> bool {
    match t {
        NamedType::Object { fields, .. } => fields_well_formed(fields@),
        NamedType::Interface { fields, .. } => fields_well_formed(fields@),
        NamedType::InputObject { input_fields, .. } => input_values_well_formed(input_fields@),
        _ => true,
    }
}

/// Types all of whose references are well formed.
pub open spec fn types_well_formed(types: Seq<NamedType>) -> bool {
    forall|i: int| 0 <= i < types.len() ==> named_type_well_formed(#[trigger] types[i])
}

/// Directives whose arguments have well-formed types.
pub open spec fn directives_well_formed(directives: Seq<Directive>) -> bool {
    forall|i: int|
        0 <= i < directives.len() ==> input_values_well_formed((#[trigger] directives[i]).args@)
}

/// No two types share a name.
pub open spec fn names_are_unique(types: Seq<NamedType>) -> bool {
    forall|i: int, j: int|
        0 <= i < j < types.len() ==> (#[trigger] types[i]).spec_name() != (#[trigger] types[j]).spec_name()
}

fn check_input_values(values: &Vec<InputValue>) -> (ok: bool)
    ensures
        ok == input_values_well_formed(values@),
{
    let mut i: usize = 0;
    while i < values.len()
        invariant
            i <= values.len(),
            forall|j: int| 0 <= j < i ==> (#[trigger] values@[j]).of_type.well_formed(),
        decreases values.len() - i,
    {
        if !values[i].of_type.is_well_formed() {
            return false;
        }
        i += 1;
    }
    true
}

fn check_fields(fields: &Vec<Field>) -> (ok: bool)
    ensures
        ok == fields_well_formed(fields@),
{
    let mut i: usize = 0;
    while i < fields.len()
        invariant
            i <= fields.len(),
            forall|j: int|
                0 <= j < i ==> (#[trigger] fields@[j]).of_type.well_formed()
                    && input_values_well_formed(fields@[j].args@),
        decreases fields.len() - i,
    {
        if !fields[i].of_type.is_well_formed() || !check_input_values(&fields[i].args) {
            return false;
        }
        i += 1;
    }
    true
}

impl NamedType {
    /// Whether no reference of this type is marked non-null twice in a row.
    pub fn has_well_formed_references(&self) -> (ok: bool)
        ensures
            ok == named_type_well_formed(*self),
    {
        match self {
            NamedType::Object { fields, .. } => check_fields(fields),
            NamedType::Interface { fields, .. } => check_fields(fields),
            NamedType::InputObject { input_fields, .. } => check_input_values(input_fields),
            _ => true,
        }
    }
}

fn check_types(types: &Vec<NamedType>) -> (ok: bool)
    ensures
        ok == types_well_formed(types@),
{
    let mut i: usize = 0;
    while i < types.len()
        invariant
            i <= types.len(),
            forall|j: int| 0 <= j < i ==> named_type_well_formed(#[trigger] types@[j]),
        decreases types.len() - i,
    {
        if !types[i].has_well_formed_references() {
            return false;
        }
        i += 1;
    }
    true
}

fn check_directives(directives: &Vec<Directive>) -> (ok: bool)
    ensures
        ok == directives_well_formed(directives@),
{
    let mut i: usize = 0;
    while i < directives.len()
        invariant
            i <= directives.len(),
            forall|j: int|
                0 <= j < i ==> input_values_well_formed((#[trigger] directives@[j]).args@),
        decreases directives.len() - i,
    {
        if !check_input_values(&directives[i].args) {
            return false;
        }
        i += 1;
    }
    true
}

fn check_unique_names(types: &Vec<NamedType>) -> (ok: bool)
    ensures
        ok == names_are_unique(types@),
{
    let mut seen: StringHashMap<usize> = StringHashMap::new();
    let mut i: usize = 0;
    while i < types.len()
        invariant
            i <= types.len(),
            forall|a: int, b: int|
                0 <= a < b < i ==> (#[trigger] types@[a]).spec_name() != (#[trigger] types@[b]).spec_name(),
            forall|a: int| 0 <= a < i ==> seen@.contains_key((#[trigger] types@[a]).spec_name()),
            forall|name: Seq<char>| #[trigger]
                seen@.contains_key(name) ==> seen@[name] < i && types@[seen@[name] as int].spec_name()
                    == name,
        decreases types.len() - i,
    {
        match seen.get(types[i].name()) {
            Some(earlier) => {
                proof {
                    let e = *earlier as int;
                }
                return false;
            },
            None => {},
        }
        seen.insert(String::from_str(types[i].name()), i);
        i += 1;
    }
    true
}

impl Schema {
    /// The invariants of a schema: no two types share a name, no reference is marked
    /// non-null twice in a row, and the query type is an object among the types.
    pub open spec fn valid(&self) -> bool {
        &&& names_are_unique(self.types@)
        &&& types_well_formed(self.types@)
        &&& directives_well_formed(self.directives@)
        &&& type_map(self.types@).contains_key(self.query_type.name@)
        &&& type_map(self.types@)[self.query_type.name@] is Object
    }

    /// Checks the invariants of a schema.
    pub fn is_valid(&self) -> (ok: bool)
        ensures
            ok == self.valid(),
    {
        if !check_unique_names(&self.types) || !check_types(&self.types) || !check_directives(
            &self.directives,
        ) {
            return false;
        }
        match TypeIndex::build(self) {
            Err(_) => false,
            Ok(index) => match index.query() {
                NamedType::Object { .. } => true,
                _ => false,
            },
        }
    }
}

} // verus!
