//! The read-only view of a resolved field that a code generator consumes.

use vstd::prelude::*;

verus! {

use crate::field::{DefaultExpression, Field};

/// The text of the path of the function that reads a field when the field
/// names none of its own.
pub const STANDARD_PARSER_PATH: &'static str = "::darling::FromMetaItem::from_meta_item";

/// How the generated code produces a field's default value.
#[derive(Debug)]
pub enum CodegenDefault<'a> {
    /// By calling the given function.
    Explicit(&'a syn::Path),
    /// By taking the named field from the container's default.
    Inherit(&'a String),
    /// By the standard default of the field's type.
    Trait,
}

/// Which function the generated code calls to read a field.
#[derive(Debug)]
pub enum ParserRef<'a> {
    /// The one the field names.
    Custom(&'a syn::Path),
    /// The standard one, at `STANDARD_PARSER_PATH`.
    Standard,
}

/// A field as the generator sees it.
#[derive(Debug)]
pub struct CodegenField<'a> {
    pub name_in_struct: &'a String,
    pub name_in_attr: &'a str,
    pub ty: &'a syn::Ty,
    pub default_expression: Option<CodegenDefault<'a>>,
    pub with_path: ParserRef<'a>,
    pub skip: bool,
}

/// The mathematical form of a `CodegenDefault`.
pub enum CodegenDefaultView {
    Explicit(syn::Path),
    Inherit(Seq<char>),
    Trait,
}

/// The mathematical form of a `CodegenField`; `with_path` is `None` for the
/// standard parser.
pub struct CodegenView {
    pub name_in_struct: Seq<char>,
    pub name_in_attr: Seq<char>,
    pub ty: syn::Ty,
    pub default_expression: Option<CodegenDefaultView>,
    pub with_path: Option<syn::Path>,
    pub skip: bool,
}

impl<'a> CodegenDefault<'a> {
    /// The mathematical form of this default.
    pub open spec fn spec_view(&self) -> CodegenDefaultView {
        match self {
            CodegenDefault::Explicit(p) => CodegenDefaultView::Explicit(**p),
            CodegenDefault::Inherit(n) => CodegenDefaultView::Inherit(n@),
            CodegenDefault::Trait => CodegenDefaultView::Trait,
        }
    }
}

impl<'a> View for CodegenField<'a> {
    type V = CodegenView;

    open spec fn view(&self) -> CodegenView {
        CodegenView {
            name_in_struct: self.name_in_struct@,
            name_in_attr: self.name_in_attr@,
            ty: *self.ty,
            default_expression: match self.default_expression {
                Some(d) => Some(d.spec_view()),
                None => None,
            },
            with_path: match self.with_path {
                ParserRef::Custom(p) => Some(*p),
                ParserRef::Standard => None,
            },
            skip: self.skip,
        }
    }
}

impl Field {
    /// The external name of the field: the resolved one, or else the field's
    /// own name.
    pub open spec fn external_name(&self) -> Seq<char> {
        match self.attr_name {
            Some(n) => n@,
            None => self.target_name@,
        }
    }

    /// The default a generator sees for this field; an inherited default
    /// names the field.
    pub open spec fn codegen_default(&self) -> Option<CodegenDefaultView> {
        match self.default {
            Some(DefaultExpression::Explicit(p)) => Some(CodegenDefaultView::Explicit(p.path)),
            Some(DefaultExpression::Inherit) => Some(CodegenDefaultView::Inherit(self.target_name@)),
            Some(DefaultExpression::Trait) => Some(CodegenDefaultView::Trait),
            None => None,
        }
    }

    /// What a generator sees of this field.
    pub open spec fn projection(&self) -> CodegenView {
        CodegenView {
            name_in_struct: self.target_name@,
            name_in_attr: self.external_name(),
            ty: self.ty,
            default_expression: self.codegen_default(),
            with_path: match self.with {
                Some(p) => Some(p.path),
                None => None,
            },
            skip: self.skip,
        }
    }

    /// A view of this field for code generation.
    pub fn as_codegen_field<'a>(&'a self) -> (r: CodegenField<'a>)
        ensures
            r@ == self.projection(),
    {
        let name_in_attr: &'a str = match &self.attr_name {
            Some(n) => n.as_str(),
            None => self.target_name.as_str(),
        };
        let with_path = match &self.with {
            Some(p) => ParserRef::Custom(&p.path),
            None => ParserRef::Standard,
        };
        CodegenField {
            name_in_struct: &self.target_name,
            name_in_attr,
            ty: &self.ty,
            default_expression: self.as_codegen_default(),
            with_path,
            skip: self.skip,
        }
    }

    /// The default of this field as a generator sees it.
    fn as_codegen_default<'a>(&'a self) -> (r: Option<CodegenDefault<'a>>)
        ensures
            match r {
                Some(d) => self.codegen_default() == Some(d.spec_view()),
                None => self.codegen_default() is None,
            },
    {
        match &self.default {
            Some(DefaultExpression::Explicit(p)) => Some(CodegenDefault::Explicit(&p.path)),
            Some(DefaultExpression::Inherit) => Some(CodegenDefault::Inherit(&self.target_name)),
            Some(DefaultExpression::Trait) => Some(CodegenDefault::Trait),
            None => None,
        }
    }
}

} // verus!
