//! The annotation entries attached to a field, and the errors that parsing
//! them can raise.

use vstd::prelude::*;

verus! {

/// The value carried by one directive.
#[derive(Debug, Clone)]
pub enum MetaValue {
    /// A bare directive name with no value (`skip`).
    Word,
    /// A string literal (`rename = "cnt"`).
    Str(String),
    /// A boolean literal (`skip = true`).
    Bool(bool),
    /// A path-like reference, by its text (`default = path(my::default)`).
    Path(String),
    /// A nested list of entries; no directive of a field takes one.
    List,
    /// A literal of any other kind (a number, a character, bytes); no
    /// directive of a field takes one.
    Other,
}

/// One annotation entry: a name and a value.
#[derive(Debug, Clone)]
pub struct Directive {
    pub name: String,
    pub value: MetaValue,
}

/// What went wrong while parsing a directive.
#[derive(Debug, Clone, Copy, PartialEq, Eq, Structural)]
pub enum ErrorKind {
    /// The directive's name is not in the vocabulary.
    UnknownDirective,
    /// The directive's value does not have the shape its target needs.
    ValueShapeMismatch,
}

/// A parsing error, with the name of the directive that raised it.
#[derive(Debug, Clone)]
pub struct Error {
    pub kind: ErrorKind,
    pub directive: String,
}

impl Error {
    /// The kind of the error and the directive name, as mathematical values.
    pub open spec fn spec_view(&self) -> (ErrorKind, Seq<char>) {
        (self.kind, self.directive@)
    }

    /// An error of kind `kind` raised by the directive named `name`.
    pub fn new(kind: ErrorKind, name: &String) -> (r: Error)
        ensures
            r.kind == kind,
            r.directive@ == name@,
    {
        Error { kind, directive: name.clone() }
    }

    /// The error for a directive whose name is not in the vocabulary.
    pub fn unknown_directive(name: &String) -> (r: Error)
        ensures
            r.kind == ErrorKind::UnknownDirective,
            r.directive@ == name@,
    {
        Error::new(ErrorKind::UnknownDirective, name)
    }

    /// The error for a directive whose value has the wrong shape.
    pub fn value_shape_mismatch(name: &String) -> (r: Error)
        ensures
            r.kind == ErrorKind::ValueShapeMismatch,
            r.directive@ == name@,
    {
        Error::new(ErrorKind::ValueShapeMismatch, name)
    }
}

} // verus!
