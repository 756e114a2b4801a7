//! The calls this library makes into `syn` and `ident_case`, with the facts
//! about them that the proofs rely on.

use vstd::prelude::*;

verus! {

use crate::field::RenameRule;

#[verifier::external_type_specification]
#[verifier::external_body]
pub struct ExTy(syn::Ty);

#[verifier::external_type_specification]
#[verifier::external_body]
pub struct ExPath(syn::Path);

/// The path `syn` parses from the given text, if it is one.
pub uninterp spec fn parsed_path(text: Seq<char>) -> Option<syn::Path>;

/// Relies on `syn::parse_path`: the result depends on the text alone, and the
/// empty text is no path.
#[verifier::external_body]
pub(crate) fn parse_path(text: &str) -> (r: Option<syn::Path>)
    ensures
        r == parsed_path(text@),
        text@.len() == 0 ==> r is None,
{
    syn::parse_path(text).ok()
}

/// The name `ident_case` gives a field under a rename rule.
pub uninterp spec fn field_renamed(rule: RenameRule, name: Seq<char>) -> Seq<char>;

/// The names on which `ident_case` can apply a rule without panicking: camel
/// case slices off the first byte of the Pascal-case form, which must then
/// hold an ASCII character.
pub open spec fn renaming_defined(rule: RenameRule, name: Seq<char>) -> bool {
    rule is CamelCase ==> exists|i: int|
        0 <= i < name.len() && name[i] != '_' && (name[i] as u32) < 128 && forall|j: int|
            0 <= j < i ==> name[j] == '_'
}

/// What is known of the name `out` that `rule` gives the field `name`: the
/// rules `Identity`, `LowerCase` and `SnakeCase` keep a field's name,
/// `KebabCase` writes each underscore as a hyphen, and `ScreamingSnakeCase`
/// writes each ASCII letter in upper case.
pub open spec fn renaming_facts(rule: RenameRule, name: Seq<char>, out: Seq<char>) -> bool {
    &&& out == field_renamed(rule, name)
    &&& (rule is Identity || rule is LowerCase || rule is SnakeCase) ==> out == name
    &&& rule is KebabCase ==> out == name.map_values(|c: char| if c == '_' { '-' } else { c })
    &&& rule is ScreamingSnakeCase ==> out == name.map_values(|c: char| ascii_upper(c))
}

/// The ASCII upper-case form of a character; others are kept.
pub open spec fn ascii_upper(c: char) -> char {
    if 'a' <= c && c <= 'z' {
        ((c as u32) - 32) as char
    } else {
        c
    }
}

/// Relies on `ident_case::RenameRule::apply_to_field` (its `None` is
/// `Identity` here): the result depends on the rule and the name alone, with
/// the facts of `renaming_facts`.
#[verifier::external_body]
pub(crate) fn apply_rename_rule(rule: RenameRule, name: &str) -> (r: String)
    requires
        renaming_defined(rule, name@),
    ensures
        r@ == field_renamed(rule, name@),
        renaming_facts(rule, name@, r@),
{
    let outside_rule = match rule {
        RenameRule::Identity => ident_case::RenameRule::None,
        RenameRule::LowerCase => ident_case::RenameRule::LowerCase,
        RenameRule::PascalCase => ident_case::RenameRule::PascalCase,
        RenameRule::CamelCase => ident_case::RenameRule::CamelCase,
        RenameRule::SnakeCase => ident_case::RenameRule::SnakeCase,
        RenameRule::ScreamingSnakeCase => ident_case::RenameRule::ScreamingSnakeCase,
        RenameRule::KebabCase => ident_case::RenameRule::KebabCase,
    };
    outside_rule.apply_to_field(name)
}

} // verus!
