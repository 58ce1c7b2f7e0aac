//! Declarations for the named types of a schema.

use vstd::prelude::*;
use vstd::string::*;
use crate::gen::{Buffer, BufferText};
use crate::index::{IndexError, IndexFailure, TypeIndex};
use crate::options::{ScalarNewtypes, TypescriptOptions};
use crate::schema::{EnumValue, Field, InputValue, NamedType, TypeRef};
use crate::text::{
    indent_newlines, pascal_case, str_contains_newline, str_eq, str_indent_newlines,
    to_pascal_case,
};
use crate::typescript::{
    agrees, ProjectionError, ProjectionFailure, TypescriptName, Typescriptable, WithContext,
};
use crate::typescript::type_ref::{ref_typescript, type_ref_as_typescript, typescript_name_of};

verus! {

/// `text` behind `prefix`, or the failure.
pub open spec fn prepend(prefix: Seq<char>, text: Result<Seq<char>, ProjectionFailure>) -> Result<
    Seq<char>,
    ProjectionFailure,
> {
    match text {
        Ok(rest) => Ok(prefix + rest),
        Err(e) => Err(e),
    }
}

/// The doc comment written above a declaration that has a description: one line, or
/// a block whose lines each begin with an asterisk.
pub open spec fn description_comment(description: Option<String>) -> Seq<char> {
    match description {
        None => Seq::empty(),
        Some(d) => if d@.contains('\n') {
            "/**\n * "@ + indent_newlines(d@) + "\n */\n"@
        } else {
            "/** "@ + d@ + " */\n"@
        },
    }
}

/// Appends the doc comment of a description, if there is one.
pub fn possibly_write_description(out: &mut String, description: &Option<String>)
    ensures
        final(out)@ == old(out)@ + description_comment(*description),
{
    match description {
        None => {},
        Some(d) => {
            let mut comment;
            if str_contains_newline(d.as_str()) {
                comment = String::from_str("/**\n * ");
                let indented = str_indent_newlines(d.as_str());
                comment.append(indented.as_str());
                comment.append("\n */\n");
            } else {
                comment = String::from_str("/** ");
                comment.append(d.as_str());
                comment.append(" */\n");
            }
            out.append(comment.as_str());
        },
    }
}

/// What a scalar is in TypeScript: one of the built-in scalars, or a custom one
/// with the type that the options choose for it, if they choose one.
#[derive(Debug, Clone, PartialEq, Eq)]
pub enum ScalarType {
    ID,
    String,
    Number,
    Boolean,
    Custom(Option<String>),
}

/// The kind of the scalar called `name` under the given overrides.
pub open spec fn scalar_kind(name: Seq<char>, overrides: Option<ScalarNewtypes>) -> ScalarType {
    if name == "ID"@ {
        ScalarType::ID
    } else if name == "String"@ {
        ScalarType::String
    } else if name == "Float"@ || name == "Int"@ {
        ScalarType::Number
    } else if name == "Boolean"@ {
        ScalarType::Boolean
    } else {
        match overrides {
            Some(map) => if map@.contains_key(name) {
                ScalarType::Custom(Some(map@[name]))
            } else {
                ScalarType::Custom(None)
            },
            None => ScalarType::Custom(None),
        }
    }
}

impl ScalarType {
    /// Classifies the scalar called `name`.
    pub fn new(name: String, options: &TypescriptOptions) -> (kind: Self)
        ensures
            kind == scalar_kind(name@, options.scalar_newtypes),
    {
        ScalarType::of(name.as_str(), &options.scalar_newtypes)
    }

    /// Classifies the scalar called `name` under the given overrides.
    pub fn of(name: &str, overrides: &Option<ScalarNewtypes>) -> (kind: Self)
        ensures
            kind == scalar_kind(name@, *overrides),
    {
        if str_eq(name, "ID") {
            ScalarType::ID
        } else if str_eq(name, "String") {
            ScalarType::String
        } else if str_eq(name, "Float") || str_eq(name, "Int") {
            ScalarType::Number
        } else if str_eq(name, "Boolean") {
            ScalarType::Boolean
        } else {
            let chosen = match overrides {
                Some(map) => map.get(name),
                None => None,
            };
            match chosen {
                Some(ts) => ScalarType::Custom(Some(ts.clone())),
                None => ScalarType::Custom(None),
            }
        }
    }

    /// The TypeScript type of a scalar of this kind that is called `name`.
    pub open spec fn spec_typescript(&self, name: Seq<char>) -> Seq<char> {
        match self {
            ScalarType::ID => "NewType<string, \"ID\">"@,
            ScalarType::String => "string"@,
            ScalarType::Number => "number"@,
            ScalarType::Boolean => "boolean"@,
            ScalarType::Custom(Some(ts)) => ts@,
            ScalarType::Custom(None) => "NewType<unknown, \""@ + name + "\">"@,
        }
    }

    /// Writes the TypeScript type of a scalar of this kind that is called `name`.
    pub fn typescript(&self, name: &str) -> (ts: String)
        ensures
            ts@ == self.spec_typescript(name@),
    {
        match self {
            ScalarType::ID => String::from_str("NewType<string, \"ID\">"),
            ScalarType::String => String::from_str("string"),
            ScalarType::Number => String::from_str("number"),
            ScalarType::Boolean => String::from_str("boolean"),
            ScalarType::Custom(Some(ts)) => ts.clone(),
            ScalarType::Custom(None) => {
                let mut ts = String::from_str("NewType<unknown, \"");
                ts.append(name);
                ts.append("\">");
                ts
            },
        }
    }
}

/// The TypeScript type behind a scalar: the built-in ones have theirs, a custom one
/// has what the options choose for it, or else a new type over `unknown`.
pub open spec fn scalar_type(name: Seq<char>, overrides: Option<ScalarNewtypes>) -> Seq<char> {
    scalar_kind(name, overrides).spec_typescript(name)
}

fn scalar_type_of(name: &str, overrides: &Option<ScalarNewtypes>) -> (ts: String)
    ensures
        ts@ == scalar_type(name@, *overrides),
{
    ScalarType::of(name, overrides).typescript(name)
}

/// The declaration of a scalar.
pub open spec fn scalar_declaration(
    name: Seq<char>,
    description: Option<String>,
    overrides: Option<ScalarNewtypes>,
) -> Seq<char> {
    description_comment(description) + "export type "@ + name + "Scalar"@ + " = "@ + scalar_type(
        name,
        overrides,
    ) + ";\n"@
}

/// One field of an object or an interface, on a line of its own.
pub open spec fn field_line(types: Map<Seq<char>, NamedType>, field: Field) -> Result<
    Seq<char>,
    ProjectionFailure,
> {
    prepend(
        description_comment(field.description) + "  "@ + field.name@ + ": "@,
        prepend_end(ref_typescript(types, field.of_type, true), ",\n"@),
    )
}

/// `text` followed by `end`, or the failure.
pub open spec fn prepend_end(text: Result<Seq<char>, ProjectionFailure>, end: Seq<char>) -> Result<
    Seq<char>,
    ProjectionFailure,
> {
    match text {
        Ok(body) => Ok(body + end),
        Err(e) => Err(e),
    }
}

/// The lines of the fields from `from` on. The first field that fails decides.
pub open spec fn field_lines(types: Map<Seq<char>, NamedType>, fields: Seq<Field>, from: int) -> Result<
    Seq<char>,
    ProjectionFailure,
>
    decreases fields.len() - from,
{
    if from < 0 || from >= fields.len() {
        Ok(Seq::empty())
    } else {
        match field_line(types, fields[from]) {
            Err(e) => Err(e),
            Ok(line) => prepend(line, field_lines(types, fields, from + 1)),
        }
    }
}

/// The interfaces that a type implements, each followed by `&`, from `from` on.
/// A wrapped reference or an unknown name fails.
pub open spec fn interface_prefix(
    types: Map<Seq<char>, NamedType>,
    owner: Seq<char>,
    interfaces: Seq<TypeRef>,
    from: int,
) -> Result<Seq<char>, ProjectionFailure>
    decreases interfaces.len() - from,
{
    if from < 0 || from >= interfaces.len() {
        Ok(Seq::empty())
    } else {
        match interfaces[from] {
            TypeRef::Container(_) => Err(ProjectionFailure::NotNamed { on: owner }),
            TypeRef::To { name } => if types.contains_key(name@) {
                prepend(
                    typescript_name_of(types[name@]) + " & "@,
                    interface_prefix(types, owner, interfaces, from + 1),
                )
            } else {
                Err(ProjectionFailure::Index(IndexFailure::UnknownType(name@)))
            },
        }
    }
}

/// The declaration of an object or an interface called `declared` in the module.
pub open spec fn fielded_declaration(
    types: Map<Seq<char>, NamedType>,
    owner: Seq<char>,
    declared: Seq<char>,
    description: Option<String>,
    fields: Seq<Field>,
    interfaces: Seq<TypeRef>,
) -> Result<Seq<char>, ProjectionFailure> {
    match interface_prefix(types, owner, interfaces, 0) {
        Err(e) => Err(e),
        Ok(implemented) => match field_lines(types, fields, 0) {
            Err(e) => Err(e),
            Ok(lines) => Ok(
                description_comment(description) + "export type "@ + declared + " = "@
                    + implemented + "{\n"@ + lines + "}\n"@,
            ),
        },
    }
}

/// The members of a union from `from` on, separated by `|`. A wrapped member fails.
pub open spec fn union_members(owner: Seq<char>, members: Seq<TypeRef>, from: int) -> Result<
    Seq<char>,
    ProjectionFailure,
>
    decreases members.len() - from,
{
    if from < 0 || from >= members.len() {
        Ok(Seq::empty())
    } else {
        match members[from] {
            TypeRef::Container(_) => Err(ProjectionFailure::NotNamed { on: owner }),
            TypeRef::To { name } => prepend(
                if from + 1 < members.len() {
                    name@ + " | "@
                } else {
                    name@
                },
                union_members(owner, members, from + 1),
            ),
        }
    }
}

/// The declaration of a union.
pub open spec fn union_declaration(name: Seq<char>, description: Option<String>, members: Seq<TypeRef>) -> Result<
    Seq<char>,
    ProjectionFailure,
> {
    match union_members(name, members, 0) {
        Err(e) => Err(e),
        Ok(listed) => Ok(
            description_comment(description) + "export type "@ + name + "Union"@ + " = "@ + listed
                + ";\n"@,
        ),
    }
}

/// One value of an enum: its name in Pascal case, bound to the name as the schema has it.
pub open spec fn enum_value_line(value: EnumValue) -> Seq<char> {
    description_comment(value.description) + "  "@ + pascal_case(value.name@) + " = \""@
        + value.name@ + "\",\n"@
}

/// The lines of the enum values from `from` on.
pub open spec fn enum_value_lines(values: Seq<EnumValue>, from: int) -> Seq<char>
    decreases values.len() - from,
{
    if from < 0 || from >= values.len() {
        Seq::empty()
    } else {
        enum_value_line(values[from]) + enum_value_lines(values, from + 1)
    }
}

/// The declaration of an enum.
pub open spec fn enum_declaration(name: Seq<char>, description: Option<String>, values: Seq<EnumValue>) -> Seq<
    char,
> {
    description_comment(description) + "export enum "@ + name + " {\n"@ + enum_value_lines(
        values,
        0,
    ) + "}\n"@
}

/// The mark of a key that may be left out: a question mark, unless the type of its
/// value is non-null.
pub open spec fn optional_mark(of_type: TypeRef) -> Seq<char> {
    if of_type.spec_is_non_null() {
        Seq::empty()
    } else {
        "?"@
    }
}

/// One field of an input object. A field that may be null may also be left out.
pub open spec fn input_field_line(types: Map<Seq<char>, NamedType>, field: InputValue) -> Result<
    Seq<char>,
    ProjectionFailure,
> {
    prepend(
        description_comment(field.description) + "  "@ + field.name@ + optional_mark(
            field.of_type,
        ) + ": "@,
        prepend_end(ref_typescript(types, field.of_type, true), ",\n"@),
    )
}

/// The lines of the input fields from `from` on. The first field that fails decides.
pub open spec fn input_field_lines(
    types: Map<Seq<char>, NamedType>,
    fields: Seq<InputValue>,
    from: int,
) -> Result<Seq<char>, ProjectionFailure>
    decreases fields.len() - from,
{
    if from < 0 || from >= fields.len() {
        Ok(Seq::empty())
    } else {
        match input_field_line(types, fields[from]) {
            Err(e) => Err(e),
            Ok(line) => prepend(line, input_field_lines(types, fields, from + 1)),
        }
    }
}

/// The declaration of an input object.
pub open spec fn input_object_declaration(
    types: Map<Seq<char>, NamedType>,
    name: Seq<char>,
    description: Option<String>,
    fields: Seq<InputValue>,
) -> Result<Seq<char>, ProjectionFailure> {
    match input_field_lines(types, fields, 0) {
        Err(e) => Err(e),
        Ok(lines) => Ok(
            description_comment(description) + "export type "@ + name + " = {\n"@ + lines + "}\n"@,
        ),
    }
}

/// The declaration of a named type, whatever its kind.
pub open spec fn named_type_declaration(
    types: Map<Seq<char>, NamedType>,
    overrides: Option<ScalarNewtypes>,
    t: NamedType,
) -> Result<Seq<char>, ProjectionFailure> {
    match t {
        NamedType::Scalar { name, description } => Ok(
            scalar_declaration(name@, description, overrides),
        ),
        NamedType::Object { name, description, fields, interfaces } => fielded_declaration(
            types,
            name@,
            name@,
            description,
            fields@,
            interfaces@,
        ),
        NamedType::Interface { name, description, fields, interfaces, .. } => fielded_declaration(
            types,
            name@,
            name@ + "Interface"@,
            description,
            fields@,
            interfaces@,
        ),
        NamedType::Union { name, description, possible_types } => union_declaration(
            name@,
            description,
            possible_types@,
        ),
        NamedType::Enum { name, description, enum_values } => Ok(
            enum_declaration(name@, description, enum_values@),
        ),
        NamedType::InputObject { name, description, input_fields } => input_object_declaration(
            types,
            name@,
            description,
            input_fields@,
        ),
    }
}

fn write_field_lines(index: &TypeIndex, fields: &Vec<Field>) -> (lines: Result<
    String,
    ProjectionError,
>)
    ensures
        agrees(lines, field_lines(index@, fields@, 0)),
{
    let mut out = String::new();
    let mut i: usize = 0;
    while i < fields.len()
        invariant
            i <= fields.len(),
            field_lines(index@, fields@, 0) == prepend(out@, field_lines(index@, fields@, i as int)),
        decreases fields.len() - i,
    {
        let field = &fields[i];
        let ghost before = out@;
        let mut line = String::new();
        possibly_write_description(&mut line, &field.description);
        line.append("  ");
        line.append(field.name.as_str());
        line.append(": ");
        match type_ref_as_typescript(index, &field.of_type, true) {
            Err(e) => {
                return Err(e);
            },
            Ok(ts) => {
                let mut tail = ts;
                tail.append(",\n");
                line.append(tail.as_str());
            },
        }
        out.append(line.as_str());
        proof {
            match field_lines(index@, fields@, i + 1) {
                Ok(rest) => {
                    assert(before + (line@ + rest) =~= (before + line@) + rest);
                },
                Err(_) => {},
            }
        }
        i += 1;
    }
    Ok(out)
}

fn write_input_field_lines(index: &TypeIndex, fields: &Vec<InputValue>) -> (lines: Result<
    String,
    ProjectionError,
>)
    ensures
        agrees(lines, input_field_lines(index@, fields@, 0)),
{
    let mut out = String::new();
    let mut i: usize = 0;
    while i < fields.len()
        invariant
            i <= fields.len(),
            input_field_lines(index@, fields@, 0) == prepend(
                out@,
                input_field_lines(index@, fields@, i as int),
            ),
        decreases fields.len() - i,
    {
        let field = &fields[i];
        let ghost before = out@;
        let mut line = String::new();
        possibly_write_description(&mut line, &field.description);
        line.append("  ");
        line.append(field.name.as_str());
        if !field.of_type.is_non_null() {
            line.append("?");
        }
        line.append(": ");
        match type_ref_as_typescript(index, &field.of_type, true) {
            Err(e) => {
                return Err(e);
            },
            Ok(ts) => {
                let mut tail = ts;
                tail.append(",\n");
                line.append(tail.as_str());
            },
        }
        out.append(line.as_str());
        proof {
            match input_field_lines(index@, fields@, i + 1) {
                Ok(rest) => {
                    assert(before + (line@ + rest) =~= (before + line@) + rest);
                },
                Err(_) => {},
            }
        }
        i += 1;
    }
    Ok(out)
}

fn write_interface_prefix(index: &TypeIndex, owner: &str, interfaces: &Vec<TypeRef>) -> (prefix: Result<
    String,
    ProjectionError,
>)
    ensures
        agrees(prefix, interface_prefix(index@, owner@, interfaces@, 0)),
{
    let mut out = String::new();
    let mut i: usize = 0;
    while i < interfaces.len()
        invariant
            i <= interfaces.len(),
            interface_prefix(index@, owner@, interfaces@, 0) == prepend(
                out@,
                interface_prefix(index@, owner@, interfaces@, i as int),
            ),
        decreases interfaces.len() - i,
    {
        let ghost before = out@;
        match &interfaces[i] {
            TypeRef::Container(_) => {
                return Err(ProjectionError::NotNamed { on: String::from_str(owner) });
            },
            TypeRef::To { name } => match index.get(name.as_str()) {
                None => {
                    return Err(ProjectionError::Index(IndexError::UnknownType(name.clone())));
                },
                Some(t) => {
                    let mut item = t.typescript_name();
                    item.append(" & ");
                    out.append(item.as_str());
                    proof {
                        match interface_prefix(index@, owner@, interfaces@, i + 1) {
                            Ok(rest) => {
                                assert(before + (item@ + rest) =~= (before + item@) + rest);
                            },
                            Err(_) => {},
                        }
                    }
                },
            },
        }
        i += 1;
    }
    Ok(out)
}

fn write_fielded(
    index: &TypeIndex,
    owner: &str,
    declared: &str,
    description: &Option<String>,
    fields: &Vec<Field>,
    interfaces: &Vec<TypeRef>,
) -> (declaration: Result<String, ProjectionError>)
    ensures
        agrees(
            declaration,
            fielded_declaration(index@, owner@, declared@, *description, fields@, interfaces@),
        ),
{
    let implemented = match write_interface_prefix(index, owner, interfaces) {
        Ok(p) => p,
        Err(e) => {
            return Err(e);
        },
    };
    let lines = match write_field_lines(index, fields) {
        Ok(l) => l,
        Err(e) => {
            return Err(e);
        },
    };
    let mut out = String::new();
    possibly_write_description(&mut out, description);
    out.append("export type ");
    out.append(declared);
    out.append(" = ");
    out.append(implemented.as_str());
    out.append("{\n");
    out.append(lines.as_str());
    out.append("}\n");
    Ok(out)
}

fn write_union_members(owner: &str, members: &Vec<TypeRef>) -> (listed: Result<
    String,
    ProjectionError,
>)
    ensures
        agrees(listed, union_members(owner@, members@, 0)),
{
    let mut out = String::new();
    let mut i: usize = 0;
    while i < members.len()
        invariant
            i <= members.len(),
            union_members(owner@, members@, 0) == prepend(out@, union_members(owner@, members@, i as int)),
        decreases members.len() - i,
    {
        let ghost before = out@;
        match &members[i] {
            TypeRef::Container(_) => {
                return Err(ProjectionError::NotNamed { on: String::from_str(owner) });
            },
            TypeRef::To { name } => {
                let mut item = name.clone();
                if i + 1 < members.len() {
                    item.append(" | ");
                }
                out.append(item.as_str());
                proof {
                    match union_members(owner@, members@, i + 1) {
                        Ok(rest) => {
                            assert(before + (item@ + rest) =~= (before + item@) + rest);
                        },
                        Err(_) => {},
                    }
                }
            },
        }
        i += 1;
    }
    Ok(out)
}

fn write_enum_value_lines(values: &Vec<EnumValue>) -> (lines: String)
    ensures
        lines@ == enum_value_lines(values@, 0),
{
    let mut out = String::new();
    let mut i: usize = 0;
    while i < values.len()
        invariant
            i <= values.len(),
            enum_value_lines(values@, 0) == out@ + enum_value_lines(values@, i as int),
        decreases values.len() - i,
    {
        let value = &values[i];
        let mut line = String::new();
        possibly_write_description(&mut line, &value.description);
        line.append("  ");
        let pascal = to_pascal_case(value.name.as_str());
        line.append(pascal.as_str());
        line.append(" = \"");
        line.append(value.name.as_str());
        line.append("\",\n");
        out.append(line.as_str());
        i += 1;
    }
    out
}

impl<'a, 'b, 'c> Typescriptable for WithContext<'a, 'b, 'c, NamedType> {
    open spec fn spec_typescript(&self) -> Result<Seq<char>, ProjectionFailure> {
        named_type_declaration(self.ctx.index@, self.ctx.options.scalar_newtypes, *self.target)
    }

    open spec fn spec_typescript_non_nullable(&self) -> Result<Seq<char>, ProjectionFailure> {
        named_type_declaration(self.ctx.index@, self.ctx.options.scalar_newtypes, *self.target)
    }

    /// The declaration of the type. It fails exactly when a field's type cannot be
    /// resolved, or a wrapped reference stands among the interfaces or the members.
    fn as_typescript(&self) -> (ts: Result<String, ProjectionError>) {
        let index = &self.ctx.index;
        match self.target {
            NamedType::Scalar { name, description } => {
                let mut out = String::new();
                possibly_write_description(&mut out, description);
                out.append("export type ");
                out.append(name.as_str());
                out.append("Scalar");
                out.append(" = ");
                let ts = scalar_type_of(name.as_str(), &self.ctx.options.scalar_newtypes);
                out.append(ts.as_str());
                out.append(";\n");
                Ok(out)
            },
            NamedType::Object { name, description, fields, interfaces } => write_fielded(
                index,
                name.as_str(),
                name.as_str(),
                description,
                fields,
                interfaces,
            ),
            NamedType::Interface { name, description, fields, interfaces, .. } => {
                let declared = self.target.typescript_name();
                write_fielded(
                    index,
                    name.as_str(),
                    declared.as_str(),
                    description,
                    fields,
                    interfaces,
                )
            },
            NamedType::Union { name, description, possible_types } => {
                let listed = match write_union_members(name.as_str(), possible_types) {
                    Ok(l) => l,
                    Err(e) => {
                        return Err(e);
                    },
                };
                let mut out = String::new();
                possibly_write_description(&mut out, description);
                out.append("export type ");
                out.append(name.as_str());
                out.append("Union");
                out.append(" = ");
                out.append(listed.as_str());
                out.append(";\n");
                Ok(out)
            },
            NamedType::Enum { name, description, enum_values } => {
                let mut out = String::new();
                possibly_write_description(&mut out, description);
                out.append("export enum ");
                out.append(name.as_str());
                out.append(" {\n");
                let lines = write_enum_value_lines(enum_values);
                out.append(lines.as_str());
                out.append("}\n");
                Ok(out)
            },
            NamedType::InputObject { name, description, input_fields } => {
                let lines = match write_input_field_lines(index, input_fields) {
                    Ok(l) => l,
                    Err(e) => {
                        return Err(e);
                    },
                };
                let mut out = String::new();
                possibly_write_description(&mut out, description);
                out.append("export type ");
                out.append(name.as_str());
                out.append(" = {\n");
                out.append(lines.as_str());
                out.append("}\n");
                Ok(out)
            },
        }
    }

    fn as_typescript_non_nullable(&self) -> (ts: Result<String, ProjectionError>) {
        self.as_typescript()
    }
}

/// The buffer after the declaration `text` of the type `t` has been added to the
/// section of its kind.
pub open spec fn with_declaration(buffer: BufferText, t: NamedType, text: Seq<char>) -> BufferText {
    match t {
        NamedType::Scalar { .. } => BufferText { scalars: buffer.scalars + text, ..buffer },
        NamedType::Object { .. } => BufferText { objects: buffer.objects + text, ..buffer },
        NamedType::Interface { .. } => BufferText { interfaces: buffer.interfaces + text, ..buffer },
        NamedType::Union { .. } => BufferText { unions: buffer.unions + text, ..buffer },
        NamedType::Enum { .. } => BufferText { enums: buffer.enums + text, ..buffer },
        NamedType::InputObject { .. } => BufferText {
            input_objects: buffer.input_objects + text,
            ..buffer
        },
    }
}

/// What emitting the type `t` makes of a buffer: an internal type leaves it as it
/// is, any other adds its declaration to the section of its kind.
pub open spec fn emit_named_type(
    types: Map<Seq<char>, NamedType>,
    overrides: Option<ScalarNewtypes>,
    t: NamedType,
    buffer: BufferText,
) -> Result<BufferText, ProjectionFailure> {
    if t.spec_is_internal() {
        Ok(buffer)
    } else {
        match named_type_declaration(types, overrides, t) {
            Ok(text) => Ok(with_declaration(buffer, t, text)),
            Err(e) => Err(e),
        }
    }
}

/// Something that writes its TypeScript into the sections of a buffer.
pub trait TypescriptableWithBuffer {
    /// The buffer afterwards, or the failure.
    spec fn spec_typescript_on(&self, buffer: BufferText) -> Result<BufferText, ProjectionFailure>;

    /// Writes into `buffer`. On failure the buffer is left as it was.
    fn as_typescript_on(&self, buffer: &mut Buffer) -> (done: Result<(), ProjectionError>)
        ensures
            match done {
                Ok(()) => self.spec_typescript_on(old(buffer)@) == Ok::<BufferText, ProjectionFailure>(
                    final(buffer)@,
                ),
                Err(e) => self.spec_typescript_on(old(buffer)@) == Err::<BufferText, ProjectionFailure>(e@)
                    && final(buffer)@ == old(buffer)@,
            },
    ;
}

impl<'a, 'b, 'c> TypescriptableWithBuffer for WithContext<'a, 'b, 'c, NamedType> {
    open spec fn spec_typescript_on(&self, buffer: BufferText) -> Result<BufferText, ProjectionFailure> {
        emit_named_type(self.ctx.index@, self.ctx.options.scalar_newtypes, *self.target, buffer)
    }

    fn as_typescript_on(&self, buffer: &mut Buffer) -> (done: Result<(), ProjectionError>) {
        if self.target.is_internal() {
            return Ok(());
        }
        let text = match self.as_typescript() {
            Ok(t) => t,
            Err(e) => {
                return Err(e);
            },
        };
        match self.target {
            NamedType::Scalar { .. } => buffer.scalars.append(text.as_str()),
            NamedType::Object { .. } => buffer.objects.append(text.as_str()),
            NamedType::Interface { .. } => buffer.interfaces.append(text.as_str()),
            NamedType::Union { .. } => buffer.unions.append(text.as_str()),
            NamedType::Enum { .. } => buffer.enums.append(text.as_str()),
            NamedType::InputObject { .. } => buffer.input_objects.append(text.as_str()),
        }
        Ok(())
    }
}

} // verus!
