//! The answer to an introspection query, once it has been read.

use vstd::prelude::*;
use vstd::string::*;
use crate::schema::Schema;

verus! {

/// The data of an introspection answer.
#[derive(Debug, Clone, PartialEq, Eq)]
pub struct Data {
    pub schema: Schema,
}

/// An introspection answer: the schema, or errors with the schema as far as the
/// server could still give it. The errors are kept as their JSON text.
#[derive(Debug, Clone, PartialEq, Eq)]
pub enum Response {
    Successful { data: Data },
    Error { data: Option<Data>, errors: String },
}

/// An answer that carries errors and no schema.
#[derive(Debug, Clone, PartialEq, Eq)]
pub struct ResponseError {
    pub errors: String,
}

impl ResponseError {
    pub open spec fn spec_message(&self) -> Seq<char> {
        "GraphQL error: "@ + self.errors@
    }

    pub fn to_string(&self) -> (message: String)
        ensures
            message@ == self.spec_message(),
    {
        let mut out = String::from_str("GraphQL error: ");
        out.append(self.errors.as_str());
        out
    }
}

impl Response {
    /// The errors that came with the answer, whether or not a schema came too.
    pub fn errors(&self) -> (errors: Option<&String>)
        ensures
            errors == match self {
                Response::Successful { .. } => None,
                Response::Error { errors, .. } => Some(errors),
            },
    {
        match self {
            Response::Successful { .. } => None,
            Response::Error { errors, .. } => Some(errors),
        }
    }

    /// The schema of the answer. Errors beside a schema do not stand in the way; only
    /// an answer without a schema fails, with its errors.
    pub fn schema(self) -> (schema: Result<Schema, ResponseError>)
        ensures
            schema == match self {
                Response::Successful { data } => Ok::<Schema, ResponseError>(data.schema),
                Response::Error { data: Some(data), .. } => Ok(data.schema),
                Response::Error { data: None, errors } => Err(ResponseError { errors }),
            },
    {
        match self {
            Response::Successful { data } => Ok(data.schema),
            Response::Error { data: Some(data), .. } => Ok(data.schema),
            Response::Error { data: None, errors } => Err(ResponseError { errors }),
        }
    }
}

} // verus!
