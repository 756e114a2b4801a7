//! Resolution of the per-field options of a derived reader: field-level
//! directives are parsed against a fixed vocabulary, then merged with the
//! policy of the enclosing container, and finally projected into a read-only
//! view for a code generator.

mod outside;

pub mod codegen;
pub mod directive;
pub mod field;
pub mod laws;

pub use codegen::{CodegenDefault, CodegenField, ParserRef, STANDARD_PARSER_PATH};
pub use directive::{Directive, Error, ErrorKind, MetaValue};
pub use field::{rule_applies, Container, DefaultExpression, Field, PathRef, RenameRule};
