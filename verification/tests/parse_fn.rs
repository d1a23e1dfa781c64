use rubber_duck::args::Args;
use rubber_duck::parse_fn::defaults_optional;
use rubber_duck::parse_fn::distinct_names;
use rubber_duck::parse_fn::find_default;
use rubber_duck::args::has_duplicate;
use rubber_duck::parse_fn::parse_field_decl;
use rubber_duck::parse_fn::parse_fields;
use rubber_duck::parse_fn::ArgCaptured;
use rubber_duck::parse_fn::ClassifyError;
use rubber_duck::parse_fn::Field;
use rubber_duck::parse_fn::FieldRole;
use rubber_duck::parse_fn::FnArg;
use rubber_duck::parse_fn::ItemFn;
use rubber_duck::parse_fn::NamedData;
use rubber_duck::parse_fn::Pat;
use rubber_duck::parse_fn::PatIdent;
use rubber_duck::parse_fn::Structure;
use rubber_duck::parse_fn::UnvalidatedField;
use rubber_duck::ty::AngleBracketedGenericArguments;
use rubber_duck::ty::Expr;
use rubber_duck::ty::GenericArgument;
use rubber_duck::ty::PathArguments;
use rubber_duck::ty::PathSegment;
use rubber_duck::ty::TypeExpr;
use rubber_duck::ty::TypeHead;

fn plain(name: &str) -> TypeExpr {
    TypeExpr {
        tokens: name.to_owned(),
        head: TypeHead::Path(PathSegment {
            ident: name.to_owned(),
            arguments: PathArguments::Empty,
        }),
    }
}

fn option_of(name: &str) -> TypeExpr {
    TypeExpr {
        tokens: format!("Option<{}>", name),
        head: TypeHead::Path(PathSegment {
            ident: "Option".to_owned(),
            arguments: PathArguments::AngleBracketed(AngleBracketedGenericArguments {
                first: Some(GenericArgument::Type(name.to_owned())),
            }),
        }),
    }
}

fn pat(name: &str) -> PatIdent {
    PatIdent {
        by_ref: false,
        mutability: false,
        ident: name.to_owned(),
        subpat: false,
    }
}

fn param(name: &str, ty: &str) -> FnArg {
    FnArg::Captured(ArgCaptured {
        pat: Pat::Ident(pat(name)),
        ty: plain(ty),
    })
}

fn expr(tokens: &str) -> Expr {
    Expr {
        tokens: tokens.to_owned(),
    }
}

fn args(defaults: &[(&str, &str)], positional: &[&str]) -> Args {
    Args {
        defaults: defaults
            .iter()
            .map(|(n, e)| (n.to_string(), expr(e)))
            .collect(),
        positional: positional.iter().map(|n| n.to_string()).collect(),
    }
}

fn callable(name: &str, inputs: Vec<FnArg>) -> ItemFn {
    ItemFn {
        ident: name.to_owned(),
        inputs,
    }
}

fn positional(name: &str, ty: &str) -> Field<FieldRole> {
    Field {
        name: name.to_owned(),
        ty: plain(ty),
        extra: FieldRole::Positional,
    }
}

fn named(name: &str, ty: &str) -> Field<FieldRole> {
    Field {
        name: name.to_owned(),
        ty: plain(ty),
        extra: FieldRole::Named(NamedData { default: None }),
    }
}

fn defaulted(name: &str, ty: &str, default: &str) -> Field<FieldRole> {
    Field {
        name: name.to_owned(),
        ty: option_of(ty),
        extra: FieldRole::Named(NamedData {
            default: Some(expr(default)),
        }),
    }
}

fn greet() -> ItemFn {
    callable(
        "greet",
        vec![param("name", "String"), param("message", "String")],
    )
}

fn open() -> ItemFn {
    callable("open", vec![param("path", "Path"), param("read", "bool")])
}

#[test]
fn greet_has_two_named_fields_of_which_one_has_a_default() {
    let structure = parse_field_decl(&args(&[("name", "\"Bob\"")], &[]), &greet());
    assert_eq!(
        structure,
        Ok(Structure {
            fields: vec![
                defaulted("name", "String", "\"Bob\""),
                named("message", "String")
            ],
            ident: "greet".to_owned(),
        })
    );
    let structure = structure.unwrap();
    assert!(structure.is_wf());
    assert_eq!(structure.positional().len(), 0);
    assert_eq!(structure.named().len(), 2);
}

#[test]
fn open_has_a_positional_path_and_a_defaulted_flag() {
    let structure = parse_field_decl(&args(&[("read", "false")], &["path"]), &open());
    assert_eq!(
        structure,
        Ok(Structure {
            fields: vec![
                positional("path", "Path"),
                defaulted("read", "bool", "false")
            ],
            ident: "open".to_owned(),
        })
    );
}

#[test]
fn without_an_annotation_every_field_is_named_and_required() {
    let structure = parse_field_decl(&args(&[], &[]), &greet());
    assert_eq!(
        structure,
        Ok(Structure {
            fields: vec![named("name", "String"), named("message", "String")],
            ident: "greet".to_owned(),
        })
    );
    let none = parse_field_decl(&args(&[], &[]), &callable("f", vec![]));
    assert_eq!(
        none,
        Ok(Structure {
            fields: vec![],
            ident: "f".to_owned(),
        })
    );
}

#[test]
fn every_field_may_be_positional() {
    let structure = parse_field_decl(&args(&[], &["name", "message"]), &greet());
    assert_eq!(
        structure,
        Ok(Structure {
            fields: vec![
                positional("name", "String"),
                positional("message", "String")
            ],
            ident: "greet".to_owned(),
        })
    );
}

#[test]
fn the_positional_names_must_be_the_first_parameters_in_order() {
    let two = callable(
        "two_pos",
        vec![
            param("loc", "String"),
            param("message", "String"),
            param("name", "String"),
        ],
    );
    assert_eq!(
        parse_field_decl(&args(&[], &["message", "loc"]), &two),
        Err(ClassifyError::PositionalOrder)
    );
    assert_eq!(
        parse_field_decl(&args(&[], &["message"]), &two),
        Err(ClassifyError::PositionalOrder)
    );
    assert_eq!(
        parse_field_decl(&args(&[], &["loc", "name"]), &two),
        Err(ClassifyError::PositionalOrder)
    );
    assert_eq!(
        parse_field_decl(&args(&[], &["loc", "missing"]), &two),
        Err(ClassifyError::PositionalOrder)
    );
    assert!(parse_field_decl(&args(&[], &["loc", "message"]), &two).is_ok());
}

#[test]
fn there_may_be_no_more_positional_names_than_parameters() {
    assert_eq!(
        parse_field_decl(&args(&[], &["name", "message", "more"]), &greet()),
        Err(ClassifyError::TooManyPositionals)
    );
    assert_eq!(
        parse_field_decl(&args(&[], &["a"]), &callable("f", vec![])),
        Err(ClassifyError::TooManyPositionals)
    );
}

#[test]
fn a_positional_field_may_have_no_default() {
    assert_eq!(
        parse_field_decl(&args(&[("path", "p")], &["path"]), &open()),
        Err(ClassifyError::PositionalWithDefault)
    );
    // The first positional name with which something is wrong decides.
    assert_eq!(
        parse_field_decl(&args(&[("path", "p")], &["path", "other"]), &open()),
        Err(ClassifyError::PositionalWithDefault)
    );
    assert_eq!(
        parse_field_decl(&args(&[("read", "p")], &["other", "read"]), &open()),
        Err(ClassifyError::PositionalOrder)
    );
}

#[test]
fn a_name_may_have_one_default_at_most() {
    assert_eq!(
        parse_field_decl(&args(&[("read", "true"), ("read", "false")], &[]), &open()),
        Err(ClassifyError::DuplicateDefault)
    );
    assert!(has_duplicate(&args(&[("a", "1"), ("b", "2"), ("a", "3")], &[]).defaults));
    assert!(!has_duplicate(&args(&[("a", "1"), ("b", "1")], &[]).defaults));
    assert!(!has_duplicate(&args(&[], &[]).defaults));
}

#[test]
fn a_default_must_be_for_a_parameter() {
    assert_eq!(
        parse_field_decl(&args(&[("reed", "true")], &[]), &open()),
        Err(ClassifyError::UnknownDefault)
    );
    assert_eq!(
        parse_field_decl(&args(&[("read", "true"), ("x", "1")], &["path"]), &open()),
        Err(ClassifyError::UnknownDefault)
    );
    assert_eq!(
        parse_field_decl(&args(&[("x", "1")], &[]), &callable("f", vec![])),
        Err(ClassifyError::UnknownDefault)
    );
}

#[test]
fn a_parameter_must_be_a_plain_identifier_with_a_type() {
    let with = |arg: FnArg| callable("f", vec![param("a", "u8"), arg, FnArg::Other]);
    let none = args(&[], &[]);
    assert_eq!(
        parse_field_decl(&none, &with(FnArg::Other)),
        Err(ClassifyError::UnsupportedArgument)
    );
    assert_eq!(
        parse_field_decl(
            &none,
            &with(FnArg::Captured(ArgCaptured {
                pat: Pat::Other,
                ty: plain("u8")
            }))
        ),
        Err(ClassifyError::NonIdentPattern)
    );
    let shaped = |by_ref: bool, mutability: bool, subpat: bool| {
        FnArg::Captured(ArgCaptured {
            pat: Pat::Ident(PatIdent {
                by_ref,
                mutability,
                ident: "b".to_owned(),
                subpat,
            }),
            ty: plain("u8"),
        })
    };
    assert_eq!(
        parse_field_decl(&none, &with(shaped(true, true, true))),
        Err(ClassifyError::ByRef)
    );
    assert_eq!(
        parse_field_decl(&none, &with(shaped(false, true, true))),
        Err(ClassifyError::Mutable)
    );
    assert_eq!(
        parse_field_decl(&none, &with(shaped(false, false, true))),
        Err(ClassifyError::Subpattern)
    );
    // The shape of the parameters is looked at before the annotation.
    assert_eq!(
        parse_field_decl(
            &args(&[("x", "1"), ("x", "1")], &["q", "r", "s", "t"]),
            &with(shaped(false, false, true))
        ),
        Err(ClassifyError::Subpattern)
    );
}

#[test]
fn the_defaults_are_looked_at_before_the_positional_names() {
    assert_eq!(
        parse_field_decl(
            &args(&[("x", "1"), ("x", "1")], &["q", "r", "s"]),
            &greet()
        ),
        Err(ClassifyError::DuplicateDefault)
    );
    assert_eq!(
        parse_field_decl(&args(&[("x", "1")], &["q", "r", "s"]), &greet()),
        Err(ClassifyError::UnknownDefault)
    );
}

#[test]
fn a_parameter_with_a_default_is_stored_as_an_option() {
    let fields = parse_fields(
        &open().inputs,
        &args(&[("read", "false")], &[]).defaults,
    );
    assert_eq!(
        fields,
        Ok(vec![
            UnvalidatedField {
                name: "path".to_owned(),
                ty: plain("Path"),
                default: None
            },
            UnvalidatedField {
                name: "read".to_owned(),
                ty: option_of("bool"),
                default: Some(expr("false"))
            },
        ])
    );
    // Of two defaults for one name the first is taken here.
    let fields = parse_fields(
        &open().inputs,
        &args(&[("read", "false"), ("read", "true")], &[]).defaults,
    )
    .unwrap();
    assert_eq!(fields[1].default, Some(expr("false")));
}

#[test]
fn the_first_default_for_a_name_is_found() {
    let defaults = args(&[("a", "1"), ("b", "2"), ("a", "3")], &[]).defaults;
    assert_eq!(find_default(&defaults, &"a".to_owned()), Some(0));
    assert_eq!(find_default(&defaults, &"b".to_owned()), Some(1));
    assert_eq!(find_default(&defaults, &"c".to_owned()), None);
    assert_eq!(find_default(&vec![], &"a".to_owned()), None);
}

#[test]
fn a_field_knows_its_role() {
    let p = positional("path", "Path");
    assert!(p.is_positional());
    assert!(!p.has_default());
    assert_eq!(p.default_expr(), None);
    let n = named("message", "String");
    assert!(!n.is_positional());
    assert!(!n.has_default());
    assert_eq!(n.default_expr(), None);
    let d = defaulted("read", "bool", "false");
    assert!(!d.is_positional());
    assert!(d.has_default());
    assert_eq!(d.default_expr(), Some(expr("false")));
}

#[test]
fn the_field_list_gives_its_names_types_and_roles() {
    let structure = Structure {
        fields: vec![
            positional("loc", "String"),
            positional("message", "String"),
            defaulted("name", "String", "\"Bob\""),
            named("count", "u8"),
        ],
        ident: "two_pos".to_owned(),
    };
    assert_eq!(structure.names(), vec!["loc", "message", "name", "count"]);
    assert_eq!(
        structure.types(),
        vec![
            plain("String"),
            plain("String"),
            option_of("String"),
            plain("u8")
        ]
    );
    assert_eq!(
        structure.positional(),
        vec![&positional("loc", "String"), &positional("message", "String")]
    );
    assert_eq!(
        structure.named(),
        vec![
            Field {
                name: "name".to_owned(),
                ty: option_of("String"),
                extra: NamedData {
                    default: Some(expr("\"Bob\""))
                }
            },
            Field {
                name: "count".to_owned(),
                ty: plain("u8"),
                extra: NamedData { default: None }
            },
        ]
    );
    assert!(structure.is_wf());
    let mixed = Structure {
        fields: vec![named("a", "u8"), positional("b", "u8")],
        ident: "f".to_owned(),
    };
    assert!(!mixed.is_wf());
    assert_eq!(mixed.positional(), vec![&positional("b", "u8")]);
}

#[test]
fn two_parameters_may_not_have_one_name() {
    let twice = callable(
        "f",
        vec![param("a", "u8"), param("b", "u8"), param("a", "String")],
    );
    assert_eq!(
        parse_field_decl(&args(&[], &[]), &twice),
        Err(ClassifyError::DuplicateParameter)
    );
    // The names are looked at before the annotation.
    assert_eq!(
        parse_field_decl(&args(&[("x", "1"), ("x", "2")], &["b"]), &twice),
        Err(ClassifyError::DuplicateParameter)
    );
    assert!(!distinct_names(&vec![
        named("a", "u8"),
        positional("b", "u8"),
        named("a", "u8")
    ]));
    assert!(distinct_names(&vec![named("a", "u8"), named("A", "u8")]));
    assert!(distinct_names(&vec![]));
    let doubled = Structure {
        fields: vec![named("a", "u8"), named("a", "u8")],
        ident: "f".to_owned(),
    };
    assert!(!doubled.is_wf());
}

#[test]
fn a_field_with_a_default_is_stored_as_an_option() {
    let classified = parse_field_decl(&args(&[("read", "false")], &["path"]), &open()).unwrap();
    assert!(defaults_optional(&classified.fields));
    assert!(classified.is_wf());
    let bare = Field {
        name: "read".to_owned(),
        ty: plain("bool"),
        extra: FieldRole::Named(NamedData {
            default: Some(expr("false")),
        }),
    };
    assert!(!defaults_optional(&vec![named("a", "u8"), bare]));
    assert!(defaults_optional(&vec![
        named("a", "u8"),
        positional("b", "u8")
    ]));
    assert!(defaults_optional(&vec![]));
}
