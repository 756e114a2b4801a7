//! A field of a container: its settings as parsed from its own directives,
//! the policy it inherits from the container, and the view of it that a code
//! generator reads.

use vstd::prelude::*;
use vstd::string::StrSliceExecFns;

verus! {

use crate::directive::{Directive, Error, ErrorKind, MetaValue};
use crate::outside::{
    apply_rename_rule, field_renamed, parse_path, parsed_path, renaming_defined, renaming_facts,
};

/// How a container turns a field's name into its external name.
#[derive(Debug, Clone, Copy, PartialEq, Eq, Structural)]
pub enum RenameRule {
    Identity,
    LowerCase,
    PascalCase,
    CamelCase,
    SnakeCase,
    ScreamingSnakeCase,
    KebabCase,
}

/// A path, with the text it was parsed from.
#[derive(Debug)]
pub struct PathRef {
    pub text: String,
    pub path: syn::Path,
}

impl PathRef {
    /// The text and the parsed path, as mathematical values.
    pub open spec fn spec_view(&self) -> (Seq<char>, syn::Path) {
        (self.text@, self.path)
    }

    /// Parses `text` as a path; `None` when it is no path.
    pub fn parse(text: &String) -> (r: Option<PathRef>)
        ensures
            match parsed_path(text@) {
                Some(p) => r matches Some(q) && q.spec_view() == (text@, p),
                None => r is None,
            },
    {
        match parse_path(text.as_str()) {
            Some(path) => Some(PathRef { text: text.clone(), path }),
            None => None,
        }
    }
}

/// How the default value of a field is produced.
#[derive(Debug)]
pub enum DefaultExpression {
    /// By calling the given function.
    Explicit(PathRef),
    /// By taking the field from the container's default.
    Inherit,
    /// By the standard default of the field's type.
    Trait,
}

/// The mathematical form of a `DefaultExpression`: an explicit one is known
/// by its path's text and the path parsed from it.
pub enum DefaultView {
    Explicit((Seq<char>, syn::Path)),
    Inherit,
    Trait,
}

impl DefaultExpression {
    /// The mathematical form of this default.
    pub open spec fn spec_view(&self) -> DefaultView {
        match self {
            DefaultExpression::Explicit(p) => DefaultView::Explicit(p.spec_view()),
            DefaultExpression::Inherit => DefaultView::Inherit,
            DefaultExpression::Trait => DefaultView::Trait,
        }
    }
}

/// The policy a container hands down to its fields.
#[derive(Debug)]
pub struct Container {
    pub rename_rule: RenameRule,
    /// Only whether a default is present matters to the fields.
    pub default: Option<DefaultExpression>,
}

/// The settings of a field, as mathematical values.
pub struct FieldView {
    pub target_name: Seq<char>,
    pub attr_name: Option<Seq<char>>,
    pub default: Option<DefaultView>,
    pub with: Option<(Seq<char>, syn::Path)>,
    pub skip: bool,
}

/// A field and its resolved options.
#[derive(Debug)]
pub struct Field {
    /// The field's name in the container.
    pub target_name: String,
    /// The name under which the field is read, when it differs from the
    /// field's name.
    pub attr_name: Option<String>,
    /// The field's type, carried through unchanged.
    pub ty: syn::Ty,
    /// How the field's default value is produced, when it has one.
    pub default: Option<DefaultExpression>,
    /// The function that reads the field, in place of the standard one.
    pub with: Option<PathRef>,
    /// Whether the generated code leaves the field out.
    pub skip: bool,
}

/// The text of an optional string.
pub open spec fn string_opt_view(o: Option<String>) -> Option<Seq<char>> {
    match o {
        Some(s) => Some(s@),
        None => None,
    }
}

/// The mathematical form of an optional default.
pub open spec fn default_opt_view(o: Option<DefaultExpression>) -> Option<DefaultView> {
    match o {
        Some(d) => Some(d.spec_view()),
        None => None,
    }
}

/// The mathematical form of an optional path.
pub open spec fn path_opt_view(o: Option<PathRef>) -> Option<(Seq<char>, syn::Path)> {
    match o {
        Some(p) => Some(p.spec_view()),
        None => None,
    }
}

impl View for Field {
    type V = FieldView;

    open spec fn view(&self) -> FieldView {
        FieldView {
            target_name: self.target_name@,
            attr_name: string_opt_view(self.attr_name),
            default: default_opt_view(self.default),
            with: path_opt_view(self.with),
            skip: self.skip,
        }
    }
}

/// The settings of a field named `target` before any directive is read.
pub open spec fn unparsed(target: Seq<char>) -> FieldView {
    FieldView { target_name: target, attr_name: None, default: None, with: None, skip: false }
}

/// The directive names a field understands.
pub open spec fn is_known_directive(name: Seq<char>) -> bool {
    ||| name == "rename"@
    ||| name == "default"@
    ||| name == "with"@
    ||| name == "skip"@
}

/// The text of a value that may name a path.
pub open spec fn path_text(v: MetaValue) -> Option<Seq<char>> {
    match v {
        MetaValue::Str(s) => Some(s@),
        MetaValue::Path(s) => Some(s@),
        _ => None,
    }
}

/// The settings after one more directive, or the error it raises.
pub open spec fn apply_directive(v: FieldView, d: Directive) -> Result<
    FieldView,
    (ErrorKind, Seq<char>),
> {
    let mismatch = Err((ErrorKind::ValueShapeMismatch, d.name@));
    if d.name@ == "rename"@ {
        match d.value {
            MetaValue::Str(s) => if s@.len() > 0 {
                Ok(FieldView { attr_name: Some(s@), ..v })
            } else {
                mismatch
            },
            _ => mismatch,
        }
    } else if d.name@ == "default"@ {
        match d.value {
            MetaValue::Word => Ok(FieldView { default: Some(DefaultView::Trait), ..v }),
            _ => match path_text(d.value) {
                Some(t) => match parsed_path(t) {
                    Some(p) => Ok(FieldView { default: Some(DefaultView::Explicit((t, p))), ..v }),
                    None => mismatch,
                },
                None => mismatch,
            },
        }
    } else if d.name@ == "with"@ {
        match path_text(d.value) {
            Some(t) => match parsed_path(t) {
                Some(p) => Ok(FieldView { with: Some((t, p)), ..v }),
                None => mismatch,
            },
            None => mismatch,
        }
    } else if d.name@ == "skip"@ {
        match d.value {
            MetaValue::Word => Ok(FieldView { skip: true, ..v }),
            MetaValue::Bool(b) => Ok(FieldView { skip: b, ..v }),
            _ => mismatch,
        }
    } else {
        Err((ErrorKind::UnknownDirective, d.name@))
    }
}

/// The settings after the directives `ds` in order, or the first error.
pub open spec fn parse_all(v: FieldView, ds: Seq<Directive>) -> Result<
    FieldView,
    (ErrorKind, Seq<char>),
>
    decreases ds.len(),
{
    if ds.len() == 0 {
        Ok(v)
    } else {
        match parse_all(v, ds.drop_last()) {
            Ok(w) => apply_directive(w, ds.last()),
            Err(e) => Err(e),
        }
    }
}


/// The settings after the container's policy is applied: a field with no
/// external name takes the one the rename rule gives, and a field with no
/// default inherits when the container has one.
pub open spec fn merged(v: FieldView, parent: Container) -> FieldView {
    FieldView {
        attr_name: match v.attr_name {
            Some(n) => Some(n),
            None => Some(field_renamed(parent.rename_rule, v.target_name)),
        },
        default: if v.default is None && parent.default is Some {
            Some(DefaultView::Inherit)
        } else {
            v.default
        },
        ..v
    }
}

/// The resolved settings of a field named `target` with the directives `ds`,
/// under `parent` when there is one, or the first error.
pub open spec fn resolved(target: Seq<char>, ds: Seq<Directive>, parent: Option<Container>) -> Result<
    FieldView,
    (ErrorKind, Seq<char>),
> {
    match parse_all(unparsed(target), ds) {
        Ok(v) => match parent {
            Some(c) => Ok(merged(v, c)),
            None => Ok(v),
        },
        Err(e) => Err(e),
    }
}

/// Whether some directive of `ds` has the name `name`.
pub open spec fn has_directive(ds: Seq<Directive>, name: Seq<char>) -> bool {
    exists|i: int| 0 <= i < ds.len() && #[trigger] ds[i].name@ == name
}

/// Once a prefix of the directives fails, the whole sequence fails with the
/// same error.
pub proof fn lemma_error_persists(v: FieldView, ds: Seq<Directive>, i: int)
    requires
        0 <= i <= ds.len(),
        parse_all(v, ds.take(i)) is Err,
    ensures
        parse_all(v, ds) == parse_all(v, ds.take(i)),
    decreases ds.len(),
{
    if i == ds.len() {
        assert(ds.take(i) =~= ds);
    } else {
        assert(ds.drop_last().take(i) =~= ds.take(i));
        lemma_error_persists(v, ds.drop_last(), i);
    }
}

pub proof fn lemma_has_directive_init(ds: Seq<Directive>, name: Seq<char>)
    requires
        ds.len() > 0,
    ensures
        has_directive(ds, name) == (has_directive(ds.drop_last(), name) || ds.last().name@ == name),
{
    let init = ds.drop_last();
    if has_directive(init, name) {
        let i = choose|i: int| 0 <= i < init.len() && #[trigger] init[i].name@ == name;
        assert(ds[i].name@ == name);
    }
    if has_directive(ds, name) && ds.last().name@ != name {
        let i = choose|i: int| 0 <= i < ds.len() && #[trigger] ds[i].name@ == name;
        assert(init[i].name@ == name);
    }
}

/// Parsing keeps the target name, keeps each setting that no directive
/// addresses, and leaves a set external name and an explicit default behind
/// each directive that gives one.
pub proof fn lemma_parse_keeps(v: FieldView, ds: Seq<Directive>)
    requires
        parse_all(v, ds) is Ok,
    ensures
        parse_all(v, ds)->Ok_0.target_name == v.target_name,
        !has_directive(ds, "rename"@) ==> parse_all(v, ds)->Ok_0.attr_name == v.attr_name,
        has_directive(ds, "rename"@) ==> parse_all(v, ds)->Ok_0.attr_name is Some,
        !has_directive(ds, "default"@) ==> parse_all(v, ds)->Ok_0.default == v.default,
        has_directive(ds, "default"@) ==> (parse_all(v, ds)->Ok_0.default matches Some(d) && d !is Inherit),
    decreases ds.len(),
{
    reveal_strlit("rename");
    reveal_strlit("default");
    assert("default"@ != "rename"@) by {
        assert("default"@.len() != "rename"@.len());
    }
    if ds.len() > 0 {
        lemma_has_directive_init(ds, "rename"@);
        lemma_has_directive_init(ds, "default"@);
        lemma_parse_keeps(v, ds.drop_last());
    }
}

/// Whether `ident_case` can apply `rule` to the field name `name`.
pub fn rule_applies(rule: RenameRule, name: &str) -> (r: bool)
    ensures
        r == renaming_defined(rule, name@),
{
    match rule {
        RenameRule::CamelCase => {},
        _ => {
            return true;
        },
    }
    let n = name.unicode_len();
    let mut i: usize = 0;
    while i < n
        invariant
            rule == RenameRule::CamelCase,
            n == name@.len(),
            i <= n,
            forall|j: int| 0 <= j < i ==> name@[j] == '_',
        decreases n - i,
    {
        let c = name.get_char(i);
        if c != '_' {
            proof {
                assert(name@[i as int] == c);
                let w = i as int;
                assert(0 <= w < name@.len() && name@[w] != '_' && forall|j: int|
                    0 <= j < w ==> name@[j] == '_');
                if (c as u32) < 128 {
                    assert((name@[w] as u32) < 128);
                    assert(renaming_defined(rule, name@));
                } else {
                    assert(!renaming_defined(rule, name@)) by {
                        if renaming_defined(rule, name@) {
                            let k = choose|k: int|
                                0 <= k < name@.len() && name@[k] != '_' && (name@[k] as u32) < 128
                                    && forall|j: int| 0 <= j < k ==> name@[j] == '_';
                            if k > w {
                                assert(name@[w] == '_');
                            }
                        }
                    }
                }
            }
            return (c as u32) < 128;
        }
        i += 1;
    }
    false
}

/// Whether a directive's name is the given word.
fn name_is(name: &String, word: &str) -> (r: bool)
    ensures
        r == (name@ == word@),
{
    let w: String = word.to_owned();
    *name == w
}

impl Field {
    /// A field with no options set.
    pub fn new(target_name: String, ty: syn::Ty) -> (r: Field)
        ensures
            r@ == unparsed(target_name@),
            r.ty == ty,
    {
        Field { target_name, attr_name: None, ty, default: None, with: None, skip: false }
    }

    /// Reads the directives in order; stops at the first one that fails.
    pub fn parse_annotations(self, annotations: &Vec<Directive>) -> (r: Result<Field, Error>)
        ensures
            match parse_all(self@, annotations@) {
                Ok(v) => r matches Ok(f) && f@ == v && f.ty == self.ty,
                Err(e) => r matches Err(er) && er.spec_view() == e,
            },
    {
        let ghost start = self@;
        let mut f = self;
        let mut i: usize = 0;
        while i < annotations.len()
            invariant
                i <= annotations.len(),
                start == self@,
                parse_all(start, annotations@.take(i as int)) == Ok::<FieldView, (ErrorKind, Seq<char>)>(f@),
                f.ty == self.ty,
            decreases annotations.len() - i,
        {
            let ghost before = f@;
            let res = f.parse_nested(&annotations[i]);
            proof {
                assert(annotations@.take(i + 1).drop_last() =~= annotations@.take(i as int));
                assert(annotations@.take(i + 1).last() == annotations@[i as int]);
            }
            match res {
                Ok(()) => {},
                Err(e) => {
                    proof {
                        assert(parse_all(start, annotations@.take(i + 1)) == apply_directive(
                            before,
                            annotations@[i as int],
                        ));
                        lemma_error_persists(start, annotations@, i + 1);
                    }
                    return Err(e);
                },
            }
            i += 1;
        }
        assert(annotations@.take(i as int) =~= annotations@);
        Ok(f)
    }

    /// Applies the container's policy; explicit settings of the field win.
    pub fn with_inherited(self, parent: &Container) -> (r: Field)
        requires
            self.attr_name is None ==> renaming_defined(parent.rename_rule, self.target_name@),
        ensures
            r@ == merged(self@, *parent),
            r.ty == self.ty,
            r.target_name == self.target_name,
            r.with == self.with,
            r.skip == self.skip,
            self.attr_name is Some ==> r.attr_name == self.attr_name,
            self.default is Some ==> r.default == self.default,
            self.attr_name is None ==> (r.attr_name matches Some(n) && renaming_facts(
                parent.rename_rule,
                self.target_name@,
                n@,
            )),
    {
        let mut f = self;
        if f.attr_name.is_none() {
            f.attr_name = Some(apply_rename_rule(parent.rename_rule, f.target_name.as_str()));
        }
        if f.default.is_none() && parent.default.is_some() {
            f.default = Some(DefaultExpression::Inherit);
        }
        f
    }

    /// Resolves a field named `target_name` of type `ty` from its directives,
    /// then from the policy of `parent` when there is one.
    pub fn from_field(
        target_name: String,
        ty: syn::Ty,
        annotations: &Vec<Directive>,
        parent: Option<&Container>,
    ) -> (r: Result<Field, Error>)
        requires
            target_name@.len() > 0,
            match parent {
                Some(c) => parse_all(unparsed(target_name@), annotations@) is Ok && !has_directive(
                    annotations@,
                    "rename"@,
                ) ==> renaming_defined(c.rename_rule, target_name@),
                None => true,
            },
        ensures
            match resolved(
                target_name@,
                annotations@,
                match parent {
                    Some(c) => Some(*c),
                    None => None,
                },
            ) {
                Ok(v) => r matches Ok(f) && f@ == v && f.ty == ty,
                Err(e) => r matches Err(er) && er.spec_view() == e,
            },
            match parent {
                Some(c) => match r {
                    Ok(f) => !has_directive(annotations@, "rename"@) ==> (f.attr_name matches Some(
                        n,
                    ) && renaming_facts(c.rename_rule, target_name@, n@)),
                    Err(_) => true,
                },
                None => true,
            },
    {
        let ghost target = target_name@;
        let base = Field::new(target_name, ty).parse_annotations(annotations)?;
        match parent {
            Some(container) => {
                proof {
                    lemma_parse_keeps(unparsed(target), annotations@);
                }
                Ok(base.with_inherited(container))
            },
            None => Ok(base),
        }
    }

    /// Reads one directive into the field's settings; on an error the field
    /// is left as it was.
    pub fn parse_nested(&mut self, d: &Directive) -> (r: Result<(), Error>)
        ensures
            match apply_directive(old(self)@, *d) {
                Ok(v) => r is Ok && final(self)@ == v,
                Err(e) => r matches Err(er) && er.spec_view() == e && *final(self) == *old(self),
            },
            final(self).ty == old(self).ty,
            final(self).target_name == old(self).target_name,
            d.name@ != "rename"@ ==> final(self).attr_name == old(self).attr_name,
            d.name@ != "default"@ ==> final(self).default == old(self).default,
            d.name@ != "with"@ ==> final(self).with == old(self).with,
            d.name@ != "skip"@ ==> final(self).skip == old(self).skip,
    {
        if name_is(&d.name, "rename") {
            match &d.value {
                MetaValue::Str(s) => {
                    if s.as_str().is_empty() {
                        return Err(Error::value_shape_mismatch(&d.name));
                    }
                    self.attr_name = Some(s.clone());
                    Ok(())
                },
                _ => Err(Error::value_shape_mismatch(&d.name)),
            }
        } else if name_is(&d.name, "default") {
            let text = match &d.value {
                MetaValue::Word => {
                    self.default = Some(DefaultExpression::Trait);
                    return Ok(());
                },
                MetaValue::Str(s) => s,
                MetaValue::Path(s) => s,
                _ => {
                    return Err(Error::value_shape_mismatch(&d.name));
                },
            };
            match PathRef::parse(text) {
                Some(p) => {
                    self.default = Some(DefaultExpression::Explicit(p));
                    Ok(())
                },
                None => Err(Error::value_shape_mismatch(&d.name)),
            }
        } else if name_is(&d.name, "with") {
            let text = match &d.value {
                MetaValue::Str(s) => s,
                MetaValue::Path(s) => s,
                _ => {
                    return Err(Error::value_shape_mismatch(&d.name));
                },
            };
            match PathRef::parse(text) {
                Some(p) => {
                    self.with = Some(p);
                    Ok(())
                },
                None => Err(Error::value_shape_mismatch(&d.name)),
            }
        } else if name_is(&d.name, "skip") {
            match &d.value {
                MetaValue::Word => {
                    self.skip = true;
                    Ok(())
                },
                MetaValue::Bool(b) => {
                    self.skip = *b;
                    Ok(())
                },
                _ => Err(Error::value_shape_mismatch(&d.name)),
            }
        } else {
            Err(Error::unknown_directive(&d.name))
        }
    }
}

} // verus!
