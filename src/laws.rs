//! Laws of field resolution, stated over the mathematical model of `field`
//! and proved from it.

use vstd::prelude::*;

verus! {

use crate::codegen::CodegenField;
use crate::directive::{Directive, ErrorKind, MetaValue};
use crate::field::{
    has_directive, is_known_directive, lemma_error_persists, lemma_parse_keeps, merged, parse_all, resolved, unparsed, Container, DefaultView, Field, FieldView,
};
use crate::outside::field_renamed;

/// A field with no `rename` directive takes as its external name what the
/// container's rename rule makes of its name.
pub proof fn lemma_rule_names_unrenamed_field(target: Seq<char>, ds: Seq<Directive>, c: Container)
    requires
        !has_directive(ds, "rename"@),
        resolved(target, ds, Some(c)) is Ok,
    ensures
        resolved(target, ds, Some(c))->Ok_0.attr_name == Some(field_renamed(c.rename_rule, target)),
{
    lemma_parse_keeps(unparsed(target), ds);
}

/// The last `rename` directive of a parse that succeeds sets the external
/// name to its value.
pub proof fn lemma_last_rename_sets_name(v: FieldView, ds: Seq<Directive>, k: int)
    requires
        0 <= k < ds.len(),
        ds[k].name@ == "rename"@,
        forall|j: int| k < j < ds.len() ==> #[trigger] ds[j].name@ != "rename"@,
        parse_all(v, ds) is Ok,
    ensures
        ds[k].value is Str,
        parse_all(v, ds)->Ok_0.attr_name == Some(ds[k].value->Str_0@),
    decreases ds.len(),
{
    lemma_parse_keeps(v, ds.drop_last());
    if k < ds.len() - 1 {
        assert(ds.last() == ds[ds.len() - 1]);
        assert(ds.drop_last()[k] == ds[k]);
        assert forall|j: int| k < j < ds.drop_last().len() implies #[trigger] ds.drop_last()[j].name@
            != "rename"@ by {
            assert(ds.drop_last()[j] == ds[j]);
        }
        lemma_last_rename_sets_name(v, ds.drop_last(), k);
    }
}

/// An explicit `rename` directive (the last one, where there are several)
/// fixes the external name, whatever the container's rename rule.
pub proof fn lemma_explicit_rename_wins(
    target: Seq<char>,
    ds: Seq<Directive>,
    k: int,
    parent: Option<Container>,
)
    requires
        0 <= k < ds.len(),
        ds[k].name@ == "rename"@,
        forall|j: int| k < j < ds.len() ==> #[trigger] ds[j].name@ != "rename"@,
        resolved(target, ds, parent) is Ok,
    ensures
        ds[k].value matches MetaValue::Str(s) && resolved(target, ds, parent)->Ok_0.attr_name
            == Some(s@),
{
    lemma_last_rename_sets_name(unparsed(target), ds, k);
}

/// A field with no `default` directive inherits a default exactly when its
/// container has one, and otherwise has none.
pub proof fn lemma_default_inherited_when_unset(
    target: Seq<char>,
    ds: Seq<Directive>,
    parent: Option<Container>,
)
    requires
        !has_directive(ds, "default"@),
        resolved(target, ds, parent) is Ok,
    ensures
        (parent matches Some(c) && c.default is Some) ==> resolved(target, ds, parent)->Ok_0.default
            == Some(DefaultView::Inherit),
        !(parent matches Some(c) && c.default is Some) ==> resolved(target, ds, parent)->Ok_0.default
            is None,
{
    lemma_parse_keeps(unparsed(target), ds);
}

/// A default that the field's own directives set survives the container's
/// policy, and is never the inherited one.
pub proof fn lemma_explicit_default_kept(
    target: Seq<char>,
    ds: Seq<Directive>,
    parent: Option<Container>,
)
    requires
        has_directive(ds, "default"@),
        resolved(target, ds, parent) is Ok,
    ensures
        resolved(target, ds, parent)->Ok_0.default == parse_all(unparsed(target), ds)->Ok_0.default,
        resolved(target, ds, parent)->Ok_0.default matches Some(d) && d !is Inherit,
{
    lemma_parse_keeps(unparsed(target), ds);
}

/// A directive with a name outside the vocabulary makes the resolution fail;
/// when every directive before it is read, the error is `UnknownDirective`
/// with its name.
pub proof fn lemma_unknown_directive_fails(
    target: Seq<char>,
    ds: Seq<Directive>,
    k: int,
    parent: Option<Container>,
)
    requires
        0 <= k < ds.len(),
        !is_known_directive(ds[k].name@),
    ensures
        resolved(target, ds, parent) is Err,
        parse_all(unparsed(target), ds.take(k)) is Ok ==> resolved(target, ds, parent) == Err::<
            FieldView,
            (ErrorKind, Seq<char>),
        >((ErrorKind::UnknownDirective, ds[k].name@)),
{
    let v = unparsed(target);
    if parse_all(v, ds.take(k)) is Ok {
        assert(ds.take(k + 1).drop_last() =~= ds.take(k));
        assert(ds.take(k + 1).last() == ds[k]);
        lemma_error_persists(v, ds, k + 1);
    } else {
        lemma_error_persists(v, ds, k);
    }
}

/// Applying a container's policy a second time changes nothing.
pub proof fn lemma_merge_idempotent(v: FieldView, c: Container)
    ensures
        merged(merged(v, c), c) == merged(v, c),
{
}

/// Projection reads the field and nothing else: two projections of one
/// field are the same view.
pub proof fn lemma_projection_repeatable<'a, 'b>(
    f: Field,
    first: CodegenField<'a>,
    second: CodegenField<'b>,
)
    requires
        first@ == f.projection(),
        second@ == f.projection(),
    ensures
        first@ == second@,
{
}

} // verus!
