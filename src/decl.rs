//! The declaration of an annotated enum, as plain values.
use vstd::prelude::*;

verus! {

/// One argument of an annotation's argument list.
#[derive(Clone, Debug, PartialEq, Eq)]
pub enum Arg {
    /// A path such as `ErrorKind`, `transparent` or `crate::Kind`, as its text.
    Path(String),
    /// Anything else: a literal, a `name = value` pair or a nested list.
    Other,
}

/// What stands after an attribute's path.
#[derive(Clone, Debug, PartialEq, Eq)]
pub enum AttrArgs {
    /// A parenthesised, comma-separated argument list: `#[name(a, b)]`.
    List(Vec<Arg>),
    /// Any other form: a bare `#[name]`, `#[name = value]`, or tokens that do
    /// not parse as an argument list.
    Malformed,
}

/// An attribute attached to a declaration or to a variant.
#[derive(Clone, Debug, PartialEq, Eq)]
pub struct Attribute {
    /// The attribute's path, as its text (`error_kind`, `doc`, `serde`).
    pub path: String,
    pub args: AttrArgs,
}

/// The field structure of a variant.
#[derive(Clone, Copy, Debug, PartialEq, Eq)]
pub enum FieldShape {
    NoFields,
    NamedFields,
    UnnamedFields(usize),
}

/// A variant of the annotated enum.
#[derive(Clone, Debug, PartialEq, Eq)]
pub struct Variant {
    pub name: String,
    pub attrs: Vec<Attribute>,
    pub fields: FieldShape,
}

/// What kind of type was declared.
#[derive(Clone, Debug, PartialEq, Eq)]
pub enum Data {
    Enum(Vec<Variant>),
    Struct,
    Union,
}

/// A type declaration handed to the derivation: its name, its own attributes
/// and its body.
#[derive(Clone, Debug, PartialEq, Eq)]
pub struct Declaration {
    pub name: String,
    pub attrs: Vec<Attribute>,
    pub data: Data,
}

/// The path of the attribute family this derivation reads.
pub open spec fn annotation_name() -> Seq<char> {
    "error_kind"@
}

/// The single argument that marks a variant as delegating to its inner value.
pub open spec fn delegation_marker() -> Seq<char> {
    "transparent"@
}

} // verus!
