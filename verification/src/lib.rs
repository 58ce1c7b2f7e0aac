//! Typed TypeScript declarations from a GraphQL schema and its operation documents.
//!
//! A schema ([`schema`]) and a document of operations and fragments ([`query`]) are
//! two separate models, joined only through the [`index::TypeIndex`], which resolves
//! a name to its type. The projector ([`typescript::selection`]) walks a selection
//! set against the types of the fields it selects and writes the TypeScript type
//! that the selection yields; the emitter ([`gen`]) gathers the declarations of the
//! schema's types and of the document's operations and fragments, section by
//! section, into one module.
//!
//! Both models can be taken in from the syntax trees that a parser hands over
//! ([`syntax`]), and every contract is stated over the characters of the strings
//! involved. What holds of the whole is gathered in [`laws`].

pub mod text;
pub mod schema;
pub mod options;
pub mod index;
pub mod introspection;
pub mod syntax;
pub mod query;
pub mod typescript;
pub mod gen;
pub mod json;
pub mod laws;
