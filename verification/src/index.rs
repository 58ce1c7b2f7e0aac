//! The type index: the one place where a name is resolved to its type.

use vstd::prelude::*;
use vstd::string::*;
use vstd::hash_map::StringHashMap;
use crate::schema::{NamedType, Schema, Type, TypeRef};

verus! {

/// Why an index could not be built, or a reference not resolved.
#[derive(Debug, Clone, PartialEq, Eq)]
pub enum IndexError {
    /// The schema names a query type that is not among its types.
    MissingQueryType(String),
    /// A reference names a type that the schema does not have.
    UnknownType(String),
}

/// An [`IndexError`] with its strings as sequences of characters.
pub enum IndexFailure {
    MissingQueryType(Seq<char>),
    UnknownType(Seq<char>),
}

impl View for IndexError {
    type V = IndexFailure;

    open spec fn view(&self) -> IndexFailure {
        match self {
            IndexError::MissingQueryType(name) => IndexFailure::MissingQueryType(name@),
            IndexError::UnknownType(name) => IndexFailure::UnknownType(name@),
        }
    }
}

impl IndexFailure {
    /// What went wrong, in words.
    pub open spec fn message(self) -> Seq<char> {
        match self {
            IndexFailure::MissingQueryType(name) => "the schema has no query type `"@ + name + "`"@,
            IndexFailure::UnknownType(name) => "unknown type `"@ + name + "`"@,
        }
    }
}

impl IndexError {
    /// What went wrong, in words.
    pub fn to_string(&self) -> (message: String)
        ensures
            message@ == self@.message(),
    {
        match self {
            IndexError::MissingQueryType(name) => {
                let mut out = String::from_str("the schema has no query type `");
                out.append(name.as_str());
                out.append("`");
                out
            },
            IndexError::UnknownType(name) => {
                let mut out = String::from_str("unknown type `");
                out.append(name.as_str());
                out.append("`");
                out
            },
        }
    }
}

/// The types of a schema by name. Where two types share a name, the later one stands.
pub open spec fn type_map(types: Seq<NamedType>) -> Map<Seq<char>, NamedType>
    decreases types.len(),
{
    if types.len() == 0 {
        Map::empty()
    } else {
        type_map(types.drop_last()).insert(types.last().spec_name(), types.last())
    }
}

/// The root type that an optional root name points to, if the schema has it.
pub open spec fn optional_root(types: Map<Seq<char>, NamedType>, root: Option<Seq<char>>) -> Option<
    NamedType,
> {
    match root {
        Some(name) => if types.contains_key(name) {
            Some(types[name])
        } else {
            None
        },
        None => None,
    }
}

/// A name → type map over one schema, with its three root types.
pub struct TypeIndex<'a> {
    types: &'a Vec<NamedType>,
    by_name: StringHashMap<usize>,
    query: usize,
    mutation: Option<usize>,
    subscription: Option<usize>,
}

impl<'a> View for TypeIndex<'a> {
    type V = Map<Seq<char>, NamedType>;

    closed spec fn view(&self) -> Map<Seq<char>, NamedType> {
        Map::new(
            |name: Seq<char>| self.by_name@.contains_key(name),
            |name: Seq<char>| self.types@[self.by_name@[name] as int],
        )
    }
}

impl<'a> TypeIndex<'a> {
    #[verifier::type_invariant]
    spec fn valid(self) -> bool {
        &&& forall|name: Seq<char>| #[trigger]
            self.by_name@.contains_key(name) ==> self.by_name@[name] < self.types@.len()
        &&& self.query < self.types@.len()
        &&& self.mutation matches Some(m) ==> m < self.types@.len()
        &&& self.subscription matches Some(s) ==> s < self.types@.len()
    }

    /// The query root type.
    pub closed spec fn spec_query(&self) -> NamedType {
        self.types@[self.query as int]
    }

    /// The mutation root type, if the schema has one.
    pub closed spec fn spec_mutation(&self) -> Option<NamedType> {
        match self.mutation {
            Some(m) => Some(self.types@[m as int]),
            None => None,
        }
    }

    /// The subscription root type, if the schema has one.
    pub closed spec fn spec_subscription(&self) -> Option<NamedType> {
        match self.subscription {
            Some(s) => Some(self.types@[s as int]),
            None => None,
        }
    }

    /// The index that `build` makes of `schema`: every type by its name, and the roots
    /// that the schema names.
    pub open spec fn describes(&self, schema: &Schema) -> bool {
        let types = type_map(schema.types@);
        &&& self@ == types
        &&& types.contains_key(schema.query_type.name@)
        &&& self.spec_query() == types[schema.query_type.name@]
        &&& self.spec_mutation() == optional_root(
            types,
            match schema.mutation_type {
                Some(root) => Some(root.name@),
                None => None,
            },
        )
        &&& self.spec_subscription() == optional_root(
            types,
            match schema.subscription_type {
                Some(root) => Some(root.name@),
                None => None,
            },
        )
    }

    /// Builds the index of a schema. Fails exactly when the schema's query type is
    /// not among its types.
    pub fn build(schema: &'a Schema) -> (built: Result<TypeIndex<'a>, IndexError>)
        ensures
            match built {
                Ok(index) => index.describes(schema),
                Err(e) => !type_map(schema.types@).contains_key(schema.query_type.name@) && e@
                    == IndexFailure::MissingQueryType(schema.query_type.name@),
            },
    {
        let types = &schema.types;
        let mut by_name: StringHashMap<usize> = StringHashMap::new();
        let mut i: usize = 0;
        while i < types.len()
            invariant
                i <= types.len(),
                by_name@.dom() == type_map(types@.subrange(0, i as int)).dom(),
                forall|name: Seq<char>| #[trigger]
                    by_name@.contains_key(name) ==> by_name@[name] < i && types@[by_name@[name] as int]
                        == type_map(types@.subrange(0, i as int))[name],
            decreases types.len() - i,
        {
            proof {
                assert(types@.subrange(0, i + 1).drop_last() == types@.subrange(0, i as int));
            }
            by_name.insert(String::from_str(types[i].name()), i);
            i += 1;
        }
        proof {
            assert(types@.subrange(0, i as int) == types@);
        }
        let query = match by_name.get(schema.query_type.name.as_str()) {
            Some(q) => *q,
            None => {
                return Err(IndexError::MissingQueryType(schema.query_type.name.clone()));
            },
        };
        let mutation = match &schema.mutation_type {
            Some(root) => match by_name.get(root.name.as_str()) {
                Some(m) => Some(*m),
                None => None,
            },
            None => None,
        };
        let subscription = match &schema.subscription_type {
            Some(root) => match by_name.get(root.name.as_str()) {
                Some(s) => Some(*s),
                None => None,
            },
            None => None,
        };
        let index = TypeIndex { types, by_name, query, mutation, subscription };
        proof {
            assert(index@ =~= type_map(schema.types@));
        }
        Ok(index)
    }

    /// The same as [`TypeIndex::build`].
    pub fn try_new(schema: &'a Schema) -> (built: Result<TypeIndex<'a>, IndexError>)
        ensures
            match built {
                Ok(index) => index.describes(schema),
                Err(e) => !type_map(schema.types@).contains_key(schema.query_type.name@) && e@
                    == IndexFailure::MissingQueryType(schema.query_type.name@),
            },
    {
        TypeIndex::build(schema)
    }

    /// The type called `name`, if the schema has one.
    pub fn get(&self, name: &str) -> (found: Option<&NamedType>)
        ensures
            found == if self@.contains_key(name@) {
                Some(&self@[name@])
            } else {
                None
            },
    {
        proof {
            use_type_invariant(self);
        }
        match self.by_name.get(name) {
            Some(i) => Some(&self.types[*i]),
            None => None,
        }
    }

    /// The query root type.
    pub fn query(&self) -> (root: &NamedType)
        ensures
            *root == self.spec_query(),
    {
        proof {
            use_type_invariant(self);
        }
        &self.types[self.query]
    }

    /// The mutation root type, if the schema has one.
    pub fn mutation(&self) -> (root: Option<&NamedType>)
        ensures
            root == match self.spec_mutation() {
                Some(t) => Some(&t),
                None => None,
            },
    {
        proof {
            use_type_invariant(self);
        }
        match self.mutation {
            Some(m) => Some(&self.types[m]),
            None => None,
        }
    }

    /// The subscription root type, if the schema has one.
    pub fn subscription(&self) -> (root: Option<&NamedType>)
        ensures
            root == match self.spec_subscription() {
                Some(t) => Some(&t),
                None => None,
            },
    {
        proof {
            use_type_invariant(self);
        }
        match self.subscription {
            Some(s) => Some(&self.types[s]),
            None => None,
        }
    }

    /// What a reference resolves to: a wrapper stays as it is, a name becomes its type.
    pub open spec fn spec_resolve(&self, type_ref: &TypeRef) -> Result<Type<'_>, IndexFailure> {
        match type_ref {
            TypeRef::Container(container) => Ok(Type::Container(container)),
            TypeRef::To { name } => if self@.contains_key(name@) {
                Ok(Type::Named(&self@[name@]))
            } else {
                Err(IndexFailure::UnknownType(name@))
            },
        }
    }

    /// Resolves a reference. Fails exactly on a bare name that the schema lacks, with the name.
    pub fn resolve<'b>(&'b self, type_ref: &'b TypeRef) -> (resolved: Result<Type<'b>, IndexError>)
        ensures
            match resolved {
                Ok(t) => self.spec_resolve(type_ref) == Ok::<Type<'_>, IndexFailure>(t),
                Err(e) => self.spec_resolve(type_ref) == Err::<Type<'_>, IndexFailure>(e@),
            },
    {
        match type_ref {
            TypeRef::Container(container) => Ok(Type::Container(container)),
            TypeRef::To { name } => match self.get(name.as_str()) {
                Some(t) => Ok(Type::Named(t)),
                None => Err(IndexError::UnknownType(name.clone())),
            },
        }
    }

    /// The same as [`TypeIndex::resolve`].
    pub fn type_from_ref<'b>(&'b self, type_ref: &'b TypeRef) -> (resolved: Result<
        Type<'b>,
        IndexError,
    >)
        ensures
            match resolved {
                Ok(t) => self.spec_resolve(type_ref) == Ok::<Type<'_>, IndexFailure>(t),
                Err(e) => self.spec_resolve(type_ref) == Err::<Type<'_>, IndexFailure>(e@),
            },
    {
        self.resolve(type_ref)
    }
}

} // verus!
