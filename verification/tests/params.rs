use rubber_duck::args::Args;
use rubber_duck::args::Lit;
use rubber_duck::args::LitStr;
use rubber_duck::args::Meta;
use rubber_duck::args::MetaNameValue;
use rubber_duck::builder::SlotInit;
use rubber_duck::derive_builder::gen_typesafe_builder;
use rubber_duck::derive_builder::Attribute;
use rubber_duck::derive_builder::ItemStruct;
use rubber_duck::derive_builder::StructField;
use rubber_duck::params::gen_builder;
use rubber_duck::args::ArgsError;
use rubber_duck::args::MetaList;
use rubber_duck::args::NestedMeta;
use rubber_duck::params::gen_macro;
use rubber_duck::params::gen_struct_sugar;
use rubber_duck::params::SugarError;
use rubber_duck::params::mod_block_add_defaults;
use rubber_duck::params::parse_field_decl;
use rubber_duck::params::NamedField;
use rubber_duck::params::PositionalField;
use rubber_duck::params::Structure;
use rubber_duck::parse_fn::ArgCaptured;
use rubber_duck::sugar::DefaultBinding;
use rubber_duck::parse_fn::ClassifyError;
use rubber_duck::parse_fn::FnArg;
use rubber_duck::parse_fn::ItemFn;
use rubber_duck::parse_fn::Pat;
use rubber_duck::parse_fn::PatIdent;
use rubber_duck::ty::AngleBracketedGenericArguments;
use rubber_duck::ty::Expr;
use rubber_duck::ty::GenericArgument;
use rubber_duck::ty::IsOption;
use rubber_duck::ty::PathArguments;
use rubber_duck::ty::PathSegment;
use rubber_duck::ty::TypeExpr;
use rubber_duck::ty::TypeHead;

fn plain(name: &str) -> TypeExpr {
    TypeExpr {
        tokens: name.to_owned(),
        head: TypeHead::Path(PathSegment {
            ident: name.to_owned(),
            arguments: PathArguments::Empty,
        }),
    }
}

fn option_of(name: &str) -> TypeExpr {
    TypeExpr {
        tokens: format!("Option<{}>", name),
        head: TypeHead::Path(PathSegment {
            ident: "Option".to_owned(),
            arguments: PathArguments::AngleBracketed(AngleBracketedGenericArguments {
                first: Some(GenericArgument::Type(name.to_owned())),
            }),
        }),
    }
}

fn expr(tokens: &str) -> Expr {
    Expr {
        tokens: tokens.to_owned(),
    }
}

fn param(name: &str, ty: &str) -> FnArg {
    FnArg::Captured(ArgCaptured {
        pat: Pat::Ident(PatIdent {
            by_ref: false,
            mutability: false,
            ident: name.to_owned(),
            subpat: false,
        }),
        ty: plain(ty),
    })
}

fn two_pos() -> ItemFn {
    ItemFn {
        ident: "two_pos".to_owned(),
        inputs: vec![
            param("loc", "String"),
            param("message", "String"),
            param("name", "String"),
            param("mood", "Mood"),
        ],
    }
}

fn annotation() -> Args {
    Args {
        defaults: vec![("name".to_owned(), expr("\"Bob\".to_owned()"))],
        positional: vec!["loc".to_owned(), "message".to_owned()],
    }
}

fn classified() -> Structure {
    Structure {
        positional: vec![
            PositionalField {
                name: "loc".to_owned(),
                ty: plain("String"),
            },
            PositionalField {
                name: "message".to_owned(),
                ty: plain("String"),
            },
        ],
        named: vec![
            NamedField {
                name: "name".to_owned(),
                ty: option_of("String"),
                default: Some(expr("\"Bob\".to_owned()")),
            },
            NamedField {
                name: "mood".to_owned(),
                ty: plain("Mood"),
                default: None,
            },
        ],
        ident: "two_pos".to_owned(),
    }
}

#[test]
fn the_positional_and_the_named_fields_are_kept_apart() {
    assert_eq!(parse_field_decl(&annotation(), &two_pos()), Ok(classified()));
    let none = Args {
        defaults: vec![],
        positional: vec![],
    };
    let all_named = parse_field_decl(&none, &two_pos()).unwrap();
    assert!(all_named.positional.is_empty());
    assert_eq!(all_named.n_names(), vec!["loc", "message", "name", "mood"]);
}

#[test]
fn the_same_field_lists_are_refused() {
    let mut args = annotation();
    args.positional = vec!["message".to_owned()];
    assert_eq!(
        parse_field_decl(&args, &two_pos()),
        Err(ClassifyError::PositionalOrder)
    );
    let mut args = annotation();
    args.defaults.push(("loc".to_owned(), expr("x")));
    assert_eq!(
        parse_field_decl(&args, &two_pos()),
        Err(ClassifyError::PositionalWithDefault)
    );
    let mut args = annotation();
    args.defaults.push(("nobody".to_owned(), expr("x")));
    assert_eq!(
        parse_field_decl(&args, &two_pos()),
        Err(ClassifyError::UnknownDefault)
    );
}

#[test]
fn the_names_and_types_come_with_the_positional_ones_first() {
    let structure = classified();
    assert_eq!(structure.p_names(), vec!["loc", "message"]);
    assert_eq!(structure.n_names(), vec!["name", "mood"]);
    assert_eq!(structure.names(), vec!["loc", "message", "name", "mood"]);
    assert_eq!(structure.p_types(), vec![plain("String"), plain("String")]);
    assert_eq!(
        structure.n_types(),
        vec![option_of("String"), plain("Mood")]
    );
    assert_eq!(
        structure.types(),
        vec![
            plain("String"),
            plain("String"),
            option_of("String"),
            plain("Mood")
        ]
    );
    let empty = Structure {
        positional: vec![],
        named: vec![],
        ident: "f".to_owned(),
    };
    assert!(empty.names().is_empty());
    assert!(empty.types().is_empty());
}

#[test]
fn the_record_holds_the_named_fields_and_marks_the_defaults() {
    let record = gen_builder(&classified());
    let default_none = Attribute {
        tokens: "#[default = \"None\"]".to_owned(),
        meta: Some(Meta::NameValue(MetaNameValue {
            ident: "default".to_owned(),
            lit: Lit::Str(LitStr {
                value: "None".to_owned(),
                is_expr: true,
            }),
        })),
    };
    assert_eq!(
        record,
        ItemStruct {
            ident: "Two_pos".to_owned(),
            fields: vec![
                StructField {
                    attrs: vec![default_none],
                    ident: Some("name".to_owned()),
                    ty: option_of("String"),
                },
                StructField {
                    attrs: vec![],
                    ident: Some("mood".to_owned()),
                    ty: plain("Mood"),
                },
            ],
        }
    );
}

#[test]
fn the_builder_of_the_record_starts_with_none() {
    let mut record = gen_builder(&classified());
    let decls = gen_typesafe_builder(&mut record).unwrap();
    assert_eq!(decls.record_name, "Two_pos");
    assert_eq!(decls.builder_name, "Two_posBuilder");
    assert_eq!(
        decls.constructor.values,
        vec![SlotInit::Value(expr("None")), SlotInit::Marker]
    );
    assert_eq!(decls.setters[0].coercion, IsOption::True("String".to_owned()));
    assert_eq!(decls.setters[1].coercion, IsOption::False);
    assert!(record.fields.iter().all(|f| f.attrs.is_empty()));
}

#[test]
fn the_macro_passes_the_positional_arguments_on() {
    let decl = gen_macro(&classified());
    assert_eq!(decl.name, "two_pos");
    assert_eq!(decl.record_name, "Two_pos");
    assert_eq!(decl.positional, vec!["loc", "message"]);
    assert_eq!(decl.field_names, vec!["name", "mood"]);
    assert_eq!(
        decl.doc,
        "Executes [two_pos](fn.two_pos.html) with name paramters as appropriate"
    );
}

#[test]
fn the_body_fills_in_the_defaults_of_the_named_fields() {
    assert_eq!(
        mod_block_add_defaults(&classified()),
        vec![DefaultBinding {
            name: "name".to_owned(),
            expr: expr("\"Bob\".to_owned()")
        }]
    );
    let empty = Structure {
        positional: vec![],
        named: vec![],
        ident: "f".to_owned(),
    };
    assert!(mod_block_add_defaults(&empty).is_empty());
}

#[test]
fn everything_for_two_pos_is_generated_at_once() {
    let args = Meta::List(MetaList {
        ident: "parsing_wrapper".to_owned(),
        nested: vec![
            NestedMeta::Meta(Meta::List(MetaList {
                ident: "defaults".to_owned(),
                nested: vec![NestedMeta::Meta(Meta::NameValue(MetaNameValue {
                    ident: "name".to_owned(),
                    lit: Lit::Str(LitStr {
                        value: "\"Bob\".to_owned()".to_owned(),
                        is_expr: true,
                    }),
                }))],
            })),
            NestedMeta::Meta(Meta::List(MetaList {
                ident: "positionals".to_owned(),
                nested: vec![
                    NestedMeta::Meta(Meta::Word("loc".to_owned())),
                    NestedMeta::Meta(Meta::Word("message".to_owned())),
                ],
            })),
        ],
    });
    let sugar = gen_struct_sugar(&args, &two_pos()).unwrap();
    assert_eq!(sugar.structure, classified());
    assert_eq!(sugar.record, gen_builder(&classified()));
    assert_eq!(sugar.defaults, mod_block_add_defaults(&classified()));
    assert_eq!(sugar.macro_decl, gen_macro(&classified()));

    assert_eq!(
        gen_struct_sugar(&Meta::Word("defaults".to_owned()), &two_pos()),
        Err(SugarError::Args(ArgsError::NotAList))
    );
    let too_many = Meta::List(MetaList {
        ident: "parsing_wrapper".to_owned(),
        nested: vec![NestedMeta::Meta(Meta::List(MetaList {
            ident: "positionals".to_owned(),
            nested: vec!["loc", "message", "name", "mood", "more"]
                .into_iter()
                .map(|n| NestedMeta::Meta(Meta::Word(n.to_owned())))
                .collect(),
        }))],
    });
    assert_eq!(
        gen_struct_sugar(&too_many, &two_pos()),
        Err(SugarError::Fields(ClassifyError::TooManyPositionals))
    );
}
