//! Type references as TypeScript: where GraphQL's "nullable unless marked" becomes
//! TypeScript's "non-null unless wrapped".

use vstd::prelude::*;
use vstd::string::*;
use crate::index::{IndexError, IndexFailure, TypeIndex};
use crate::schema::{NamedType, TypeRef, TypeRefContainer};
use crate::typescript::{
    agrees, ProjectionError, ProjectionFailure, TypescriptName, Typescriptable, WithContext,
};

verus! {

/// `inner` as it stands at a position that may be null, or may not.
pub open spec fn nullable_wrap(nullable: bool, inner: Seq<char>) -> Seq<char> {
    if nullable {
        "Nullable<"@ + inner + ">"@
    } else {
        inner
    }
}

/// The TypeScript expression of a reference whose named type is written `leaf`.
/// Each position is nullable unless a `NonNull` stands directly around it.
pub open spec fn render_ref(type_ref: TypeRef, nullable: bool, leaf: Seq<char>) -> Seq<char>
    decreases type_ref,
{
    match type_ref {
        TypeRef::To { .. } => nullable_wrap(nullable, leaf),
        TypeRef::Container(TypeRefContainer::NonNull { of_type }) => render_ref(*of_type, false, leaf),
        TypeRef::Container(TypeRefContainer::List { of_type }) => nullable_wrap(
            nullable,
            render_ref(*of_type, true, leaf) + "[]"@,
        ),
    }
}

/// The name of a named type in the emitted module: scalars, interfaces and unions
/// carry their kind as a suffix, the others keep their name.
pub open spec fn typescript_name_of(t: NamedType) -> Seq<char> {
    match t {
        NamedType::Scalar { name, .. } => name@ + "Scalar"@,
        NamedType::Interface { name, .. } => name@ + "Interface"@,
        NamedType::Union { name, .. } => name@ + "Union"@,
        NamedType::Object { name, .. } => name@,
        NamedType::Enum { name, .. } => name@,
        NamedType::InputObject { name, .. } => name@,
    }
}

/// The TypeScript expression of a reference to a schema type.
pub open spec fn ref_typescript(types: Map<Seq<char>, NamedType>, type_ref: TypeRef, nullable: bool) -> Result<
    Seq<char>,
    ProjectionFailure,
> {
    let base = type_ref.base_name();
    if types.contains_key(base) {
        Ok(render_ref(type_ref, nullable, typescript_name_of(types[base])))
    } else {
        Err(ProjectionFailure::Index(IndexFailure::UnknownType(base)))
    }
}

fn wrap_nullable(nullable: bool, inner: String) -> (out: String)
    ensures
        out@ == nullable_wrap(nullable, inner@),
{
    if nullable {
        let mut out = String::from_str("Nullable<");
        out.append(inner.as_str());
        out.append(">");
        out
    } else {
        inner
    }
}

/// Writes the wrappers of `type_ref` around `leaf`.
pub fn render_type_ref(type_ref: &TypeRef, nullable: bool, leaf: &str) -> (out: String)
    ensures
        out@ == render_ref(*type_ref, nullable, leaf@),
    decreases type_ref,
{
    match type_ref {
        TypeRef::To { .. } => wrap_nullable(nullable, String::from_str(leaf)),
        TypeRef::Container(TypeRefContainer::NonNull { of_type }) => render_type_ref(
            of_type,
            false,
            leaf,
        ),
        TypeRef::Container(TypeRefContainer::List { of_type }) => {
            let mut list = render_type_ref(of_type, true, leaf);
            list.append("[]");
            wrap_nullable(nullable, list)
        },
    }
}

impl TypescriptName for NamedType {
    open spec fn spec_typescript_name(&self) -> Seq<char> {
        typescript_name_of(*self)
    }

    fn typescript_name(&self) -> (name: String) {
        let mut out = String::from_str(self.name());
        match self {
            NamedType::Scalar { .. } => out.append("Scalar"),
            NamedType::Interface { .. } => out.append("Interface"),
            NamedType::Union { .. } => out.append("Union"),
            _ => {},
        }
        out
    }
}

/// The TypeScript expression of a reference to a schema type. Fails exactly when the
/// name at the bottom of the reference is not in the index.
pub fn type_ref_as_typescript(index: &TypeIndex, type_ref: &TypeRef, nullable: bool) -> (ts: Result<
    String,
    ProjectionError,
>)
    ensures
        agrees(ts, ref_typescript(index@, *type_ref, nullable)),
{
    let base = type_ref.innermost_name();
    match index.get(base) {
        Some(t) => {
            let leaf = t.typescript_name();
            Ok(render_type_ref(type_ref, nullable, leaf.as_str()))
        },
        None => Err(ProjectionError::Index(IndexError::UnknownType(String::from_str(base)))),
    }
}

impl<'a, 'b, 'c> Typescriptable for WithContext<'a, 'b, 'c, TypeRef> {
    open spec fn spec_typescript(&self) -> Result<Seq<char>, ProjectionFailure> {
        ref_typescript(self.ctx.index@, *self.target, true)
    }

    open spec fn spec_typescript_non_nullable(&self) -> Result<Seq<char>, ProjectionFailure> {
        ref_typescript(self.ctx.index@, *self.target, false)
    }

    fn as_typescript(&self) -> (ts: Result<String, ProjectionError>) {
        type_ref_as_typescript(&self.ctx.index, self.target, true)
    }

    fn as_typescript_non_nullable(&self) -> (ts: Result<String, ProjectionError>) {
        type_ref_as_typescript(&self.ctx.index, self.target, false)
    }
}

} // verus!
