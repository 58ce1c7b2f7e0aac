//! Doc comments for declarations, with the deprecation notice where there is one.

use vstd::prelude::*;
use vstd::string::*;
use crate::text::{indent_newlines, str_contains_newline, str_indent_newlines};

verus! {

/// What a doc comment says: a description, or a deprecation notice with its reason
/// and the description, as far as they are there.
#[derive(Debug, Clone, PartialEq, Eq)]
pub enum Deprecable {
    Deprecated { message: Option<String>, description: Option<String> },
    Description(String),
}

impl Deprecable {
    /// The text of the comment before it is put between comment marks.
    pub open spec fn spec_text(&self) -> Seq<char> {
        match self {
            Deprecable::Deprecated { message, description } => "@deprecated"@ + (match message {
                Some(m) => " "@ + m@,
                None => Seq::empty(),
            }) + (match description {
                Some(d) => "\n\n"@ + d@,
                None => Seq::empty(),
            }),
            Deprecable::Description(d) => d@,
        }
    }

    pub fn text(&self) -> (text: String)
        ensures
            text@ == self.spec_text(),
    {
        match self {
            Deprecable::Deprecated { message, description } => {
                let mut out = String::from_str("@deprecated");
                match message {
                    Some(m) => {
                        let mut part = String::from_str(" ");
                        part.append(m.as_str());
                        out.append(part.as_str());
                    },
                    None => {},
                }
                match description {
                    Some(d) => {
                        let mut part = String::from_str("\n\n");
                        part.append(d.as_str());
                        out.append(part.as_str());
                    },
                    None => {},
                }
                out
            },
            Deprecable::Description(d) => d.clone(),
        }
    }
}

/// A doc comment.
#[derive(Debug, Clone, PartialEq, Eq)]
pub struct DocComment(pub Deprecable);

impl DocComment {
    /// The comment of a schema item, if it has anything to say: a deprecated item
    /// always has a comment, another one only where it has a description.
    pub open spec fn spec_maybe_new(
        is_deprecated: bool,
        deprecation_reason: Option<String>,
        description: Option<String>,
    ) -> Option<DocComment> {
        if is_deprecated {
            Some(DocComment(Deprecable::Deprecated { message: deprecation_reason, description }))
        } else {
            match description {
                Some(d) => Some(DocComment(Deprecable::Description(d))),
                None => None,
            }
        }
    }

    pub fn maybe_new(
        is_deprecated: bool,
        deprecation_reason: Option<String>,
        description: Option<String>,
    ) -> (comment: Option<Self>)
        ensures
            comment == Self::spec_maybe_new(is_deprecated, deprecation_reason, description),
    {
        if is_deprecated {
            Some(DocComment(Deprecable::Deprecated { message: deprecation_reason, description }))
        } else {
            match description {
                Some(d) => Some(DocComment(Deprecable::Description(d))),
                None => None,
            }
        }
    }

    /// The comment as it is written: on one line, or as a block whose lines each
    /// begin with an asterisk.
    pub open spec fn spec_string(&self) -> Seq<char> {
        let text = self.0.spec_text();
        if text.contains('\n') {
            "/**\n * "@ + indent_newlines(text) + "\n */"@
        } else {
            "/* "@ + text + " */"@
        }
    }

    pub fn to_string(&self) -> (written: String)
        ensures
            written@ == self.spec_string(),
    {
        let text = self.0.text();
        if str_contains_newline(text.as_str()) {
            let mut out = String::from_str("/**\n * ");
            out.append(str_indent_newlines(text.as_str()).as_str());
            out.append("\n */");
            out
        } else {
            let mut out = String::from_str("/* ");
            out.append(text.as_str());
            out.append(" */");
            out
        }
    }
}

} // verus!
