use field_options::{
    rule_applies,
    CodegenDefault, Container, DefaultExpression, Directive, ErrorKind, Field, MetaValue,
    ParserRef, RenameRule,
};

fn int_ty() -> syn::Ty {
    syn::parse_type("i32").unwrap()
}

fn directive(name: &str, value: MetaValue) -> Directive {
    Directive { name: name.to_string(), value }
}

fn container(rule: RenameRule, with_default: bool) -> Container {
    Container {
        rename_rule: rule,
        default: if with_default { Some(DefaultExpression::Trait) } else { None },
    }
}

fn resolve(name: &str, ds: Vec<Directive>, parent: Option<&Container>) -> Field {
    Field::from_field(name.to_string(), int_ty(), &ds, parent).unwrap()
}

fn explicit_text(f: &Field) -> Option<String> {
    match &f.default {
        Some(DefaultExpression::Explicit(p)) => Some(p.text.clone()),
        _ => None,
    }
}

#[test]
fn unannotated_field_inherits_from_container() {
    let c = container(RenameRule::Identity, true);
    let f = resolve("count", vec![], Some(&c));
    assert_eq!(f.attr_name.as_deref(), Some("count"));
    assert!(matches!(f.default, Some(DefaultExpression::Inherit)));
    let view = f.as_codegen_field();
    match view.default_expression {
        Some(CodegenDefault::Inherit(n)) => assert_eq!(n, "count"),
        other => panic!("unexpected default {:?}", other),
    }
    assert_eq!(view.name_in_attr, "count");
    assert_eq!(*view.ty, int_ty());
}

#[test]
fn explicit_rename_and_default_win() {
    let ds = || {
        vec![
            directive("rename", MetaValue::Str("cnt".to_string())),
            directive("default", MetaValue::Path("my::default".to_string())),
        ]
    };
    let c = container(RenameRule::KebabCase, true);
    for parent in [None, Some(&c)] {
        let f = resolve("count", ds(), parent);
        assert_eq!(f.attr_name.as_deref(), Some("cnt"));
        assert_eq!(explicit_text(&f).as_deref(), Some("my::default"));
        match &f.default {
            Some(DefaultExpression::Explicit(p)) => {
                assert_eq!(p.path, syn::parse_path("my::default").unwrap())
            }
            other => panic!("unexpected default {:?}", other),
        }
    }
}

#[test]
fn unknown_directive_is_refused() {
    let ds = vec![directive("frobnicate", MetaValue::Bool(true))];
    let e = Field::from_field("x".to_string(), int_ty(), &ds, None).unwrap_err();
    assert_eq!(e.kind, ErrorKind::UnknownDirective);
    assert_eq!(e.directive, "frobnicate");
}

#[test]
fn skip_with_string_value_is_a_shape_mismatch() {
    let ds = vec![directive("skip", MetaValue::Str("yes".to_string()))];
    let e = Field::from_field("y".to_string(), int_ty(), &ds, None).unwrap_err();
    assert_eq!(e.kind, ErrorKind::ValueShapeMismatch);
    assert_eq!(e.directive, "skip");
}

#[test]
fn rename_rules_name_unrenamed_fields() {
    let cases = [
        (RenameRule::Identity, "max_count"),
        (RenameRule::LowerCase, "max_count"),
        (RenameRule::SnakeCase, "max_count"),
        (RenameRule::KebabCase, "max-count"),
        (RenameRule::PascalCase, "MaxCount"),
        (RenameRule::CamelCase, "maxCount"),
        (RenameRule::ScreamingSnakeCase, "MAX_COUNT"),
    ];
    for (rule, expected) in cases {
        let c = container(rule, false);
        let f = resolve("max_count", vec![], Some(&c));
        assert_eq!(f.attr_name.as_deref(), Some(expected));
    }
}

#[test]
fn explicit_rename_ignores_rule() {
    let c = container(RenameRule::ScreamingSnakeCase, false);
    let f = resolve("max_count", vec![directive("rename", MetaValue::Str("limit".to_string()))], Some(&c));
    assert_eq!(f.attr_name.as_deref(), Some("limit"));
}

#[test]
fn last_rename_wins() {
    let ds = vec![
        directive("rename", MetaValue::Str("first".to_string())),
        directive("rename", MetaValue::Str("second".to_string())),
    ];
    let f = resolve("a", ds, None);
    assert_eq!(f.attr_name.as_deref(), Some("second"));
}

#[test]
fn no_default_without_container_default() {
    let c = container(RenameRule::Identity, false);
    let with_parent = resolve("a", vec![], Some(&c));
    assert!(with_parent.default.is_none());
    let alone = resolve("a", vec![], None);
    assert!(alone.default.is_none());
    assert!(alone.attr_name.is_none());
}

#[test]
fn trait_default_survives_container_default() {
    let c = container(RenameRule::Identity, true);
    let f = resolve("a", vec![directive("default", MetaValue::Word)], Some(&c));
    assert!(matches!(f.default, Some(DefaultExpression::Trait)));
    assert!(matches!(f.as_codegen_field().default_expression, Some(CodegenDefault::Trait)));
}

#[test]
fn projection_twice_gives_same_view() {
    let c = container(RenameRule::PascalCase, true);
    let f = resolve(
        "a_b",
        vec![directive("with", MetaValue::Str("my::reader".to_string())), directive("skip", MetaValue::Word)],
        Some(&c),
    );
    let first = f.as_codegen_field();
    let second = f.as_codegen_field();
    assert_eq!(first.name_in_struct, second.name_in_struct);
    assert_eq!(first.name_in_attr, second.name_in_attr);
    assert_eq!(first.name_in_attr, "AB");
    assert_eq!(first.ty, second.ty);
    assert_eq!(first.skip, second.skip);
    assert!(first.skip);
    match (&first.with_path, &second.with_path) {
        (ParserRef::Custom(p), ParserRef::Custom(q)) => {
            assert_eq!(p, q);
            assert_eq!(**p, syn::parse_path("my::reader").unwrap());
        }
        other => panic!("unexpected parsers {:?}", other),
    }
    assert!(matches!(
        (&first.default_expression, &second.default_expression),
        (Some(CodegenDefault::Inherit(a)), Some(CodegenDefault::Inherit(b))) if a == b
    ));
}

#[test]
fn view_falls_back_to_field_name_and_standard_parser() {
    let f = resolve("plain", vec![], None);
    let view = f.as_codegen_field();
    assert_eq!(view.name_in_struct, "plain");
    assert_eq!(view.name_in_attr, "plain");
    assert!(matches!(view.with_path, ParserRef::Standard));
    assert!(view.default_expression.is_none());
    assert!(!view.skip);
}

#[test]
fn skip_takes_word_or_boolean() {
    assert!(resolve("a", vec![directive("skip", MetaValue::Word)], None).skip);
    assert!(resolve("a", vec![directive("skip", MetaValue::Bool(true))], None).skip);
    assert!(!resolve("a", vec![directive("skip", MetaValue::Bool(false))], None).skip);
}

#[test]
fn default_from_string_is_parsed_as_path() {
    let f = resolve("a", vec![directive("default", MetaValue::Str("util::zero".to_string()))], None);
    assert_eq!(explicit_text(&f).as_deref(), Some("util::zero"));
}

#[test]
fn value_shape_mismatches() {
    let cases = vec![
        directive("rename", MetaValue::Bool(true)),
        directive("rename", MetaValue::List),
        directive("rename", MetaValue::Str("".to_string())),
        directive("default", MetaValue::Bool(false)),
        directive("default", MetaValue::Str("not a path".to_string())),
        directive("with", MetaValue::Word),
        directive("with", MetaValue::Str("".to_string())),
        directive("skip", MetaValue::Path("a::b".to_string())),
        directive("skip", MetaValue::Other),
    ];
    for d in cases {
        let name = d.name.clone();
        let e = Field::from_field("a".to_string(), int_ty(), &vec![d], None).unwrap_err();
        assert_eq!(e.kind, ErrorKind::ValueShapeMismatch);
        assert_eq!(e.directive, name);
    }
}

#[test]
fn first_error_stops_parsing() {
    let ds = vec![
        directive("skip", MetaValue::Str("yes".to_string())),
        directive("frobnicate", MetaValue::Word),
    ];
    let e = Field::from_field("a".to_string(), int_ty(), &ds, None).unwrap_err();
    assert_eq!(e.kind, ErrorKind::ValueShapeMismatch);
    assert_eq!(e.directive, "skip");
}

#[test]
fn failed_directive_leaves_field_unchanged() {
    let mut f = Field::new("a".to_string(), int_ty());
    assert!(f.parse_nested(&directive("rename", MetaValue::Str("b".to_string()))).is_ok());
    let e = f.parse_nested(&directive("rename", MetaValue::Word)).unwrap_err();
    assert_eq!(e.kind, ErrorKind::ValueShapeMismatch);
    assert_eq!(f.attr_name.as_deref(), Some("b"));
}

#[test]
fn camel_case_applies_to_names_with_an_ascii_first_letter() {
    assert!(rule_applies(RenameRule::CamelCase, "__max_count"));
    assert!(!rule_applies(RenameRule::CamelCase, "__"));
    assert!(!rule_applies(RenameRule::CamelCase, "_\u{e9}t\u{e9}"));
    assert!(rule_applies(RenameRule::PascalCase, "__"));
}

#[test]
fn unknown_directive_is_refused_before_the_rule_is_applied() {
    let c = container(RenameRule::CamelCase, false);
    let ds = vec![directive("frobnicate", MetaValue::Word)];
    let e = Field::from_field("__".to_string(), int_ty(), &ds, Some(&c)).unwrap_err();
    assert_eq!(e.kind, ErrorKind::UnknownDirective);
}

#[test]
fn merging_twice_changes_nothing() {
    let c = container(RenameRule::KebabCase, true);
    let once = resolve("a_b", vec![directive("with", MetaValue::Path("my::reader".to_string()))], Some(&c));
    let text = once.attr_name.clone();
    let twice = once.with_inherited(&c);
    assert_eq!(twice.attr_name, text);
    assert_eq!(twice.attr_name.as_deref(), Some("a-b"));
    assert!(matches!(twice.default, Some(DefaultExpression::Inherit)));
    assert_eq!(twice.with.map(|p| p.path), Some(syn::parse_path("my::reader").unwrap()));
}
