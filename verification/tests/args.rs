use rubber_duck::args::as_expr;
use rubber_duck::args::extract_default;
use rubber_duck::args::extract_positional_name;
use rubber_duck::args::parse_args;
use rubber_duck::args::process_defaults;
use rubber_duck::args::process_positionals;
use rubber_duck::args::Args;
use rubber_duck::args::ArgsError;
use rubber_duck::args::Lit;
use rubber_duck::args::LitStr;
use rubber_duck::args::Meta;
use rubber_duck::args::MetaList;
use rubber_duck::args::MetaNameValue;
use rubber_duck::args::NestedMeta;
use rubber_duck::ty::Expr;

fn word(ident: &str) -> Meta {
    Meta::Word(ident.to_owned())
}

fn list(ident: &str, nested: Vec<NestedMeta>) -> Meta {
    Meta::List(MetaList {
        ident: ident.to_owned(),
        nested,
    })
}

fn pair(ident: &str, value: &str) -> Meta {
    Meta::NameValue(MetaNameValue {
        ident: ident.to_owned(),
        lit: Lit::Str(LitStr {
            value: value.to_owned(),
            is_expr: true,
        }),
    })
}

fn item(meta: Meta) -> NestedMeta {
    NestedMeta::Meta(meta)
}

fn expr(tokens: &str) -> Expr {
    Expr {
        tokens: tokens.to_owned(),
    }
}

fn annotation(sections: Vec<Meta>) -> Meta {
    list(
        "parsing_wrapper",
        sections.into_iter().map(NestedMeta::Meta).collect(),
    )
}

#[test]
fn defaults_and_positionals_are_read_in_order() {
    let meta = annotation(vec![
        list(
            "defaults",
            vec![item(pair("name", "\"Bob\".to_owned()"))],
        ),
        list("positionals", vec![item(word("loc")), item(word("message"))]),
    ]);
    assert_eq!(
        parse_args(&meta),
        Ok(Args {
            defaults: vec![("name".to_owned(), expr("\"Bob\".to_owned()"))],
            positional: vec!["loc".to_owned(), "message".to_owned()],
        })
    );
}

#[test]
fn the_sections_may_come_in_either_order_or_not_at_all() {
    let meta = annotation(vec![
        list("positionals", vec![item(word("path"))]),
        list(
            "defaults",
            vec![
                item(pair("read", "false")),
                item(pair("write", "false")),
            ],
        ),
    ]);
    assert_eq!(
        parse_args(&meta),
        Ok(Args {
            defaults: vec![
                ("read".to_owned(), expr("false")),
                ("write".to_owned(), expr("false"))
            ],
            positional: vec!["path".to_owned()],
        })
    );
    assert_eq!(
        parse_args(&annotation(vec![])),
        Ok(Args {
            defaults: vec![],
            positional: vec![],
        })
    );
    assert_eq!(
        parse_args(&annotation(vec![list("defaults", vec![])])),
        Ok(Args {
            defaults: vec![],
            positional: vec![],
        })
    );
}

#[test]
fn two_defaults_for_one_name_are_refused() {
    let meta = annotation(vec![list(
        "defaults",
        vec![item(pair("a", "1")), item(pair("b", "1")), item(pair("a", "2"))],
    )]);
    assert_eq!(parse_args(&meta), Err(ArgsError::DuplicateDefault));
    // The section by itself lists what is written.
    assert_eq!(
        process_defaults(&list(
            "defaults",
            vec![item(pair("a", "1")), item(pair("a", "2"))]
        )),
        Ok(vec![("a".to_owned(), expr("1")), ("a".to_owned(), expr("2"))])
    );
    // What cannot be read is found first.
    let meta = annotation(vec![
        list("defaults", vec![item(pair("a", "1")), item(pair("a", "2"))]),
        list("unknown", vec![]),
    ]);
    assert_eq!(parse_args(&meta), Err(ArgsError::UnknownSection));
    let kept = Args {
        defaults: vec![("a".to_owned(), expr("1")), ("a".to_owned(), expr("2"))],
        positional: vec![],
    };
    assert!(!kept.is_wf());
    let read = parse_args(&annotation(vec![list(
        "defaults",
        vec![item(pair("a", "1")), item(pair("b", "1"))],
    )]))
    .unwrap();
    assert!(read.is_wf());
}

#[test]
fn an_annotation_must_be_a_list_of_meta_items() {
    assert_eq!(parse_args(&word("defaults")), Err(ArgsError::NotAList));
    assert_eq!(parse_args(&pair("defaults", "x")), Err(ArgsError::NotAList));
    let meta = list(
        "parsing_wrapper",
        vec![NestedMeta::Literal(Lit::Str(LitStr {
            value: "defaults".to_owned(),
            is_expr: true,
        }))],
    );
    assert_eq!(parse_args(&meta), Err(ArgsError::BadNesting));
}

#[test]
fn a_section_may_occur_once() {
    let meta = annotation(vec![
        list("defaults", vec![]),
        list("positionals", vec![]),
        list("defaults", vec![]),
    ]);
    assert_eq!(parse_args(&meta), Err(ArgsError::DoubleAnnotation));
    let meta = annotation(vec![word("other"), word("other")]);
    assert_eq!(parse_args(&meta), Err(ArgsError::UnknownSection));
}

#[test]
fn only_the_known_sections_are_read() {
    assert_eq!(
        parse_args(&annotation(vec![list("on_struct", vec![])])),
        Err(ArgsError::Unimplemented)
    );
    assert_eq!(
        parse_args(&annotation(vec![list("on_fields", vec![])])),
        Err(ArgsError::Unimplemented)
    );
    assert_eq!(
        parse_args(&annotation(vec![list("default", vec![])])),
        Err(ArgsError::UnknownSection)
    );
    assert_eq!(
        parse_args(&annotation(vec![word("defaults")])),
        Err(ArgsError::NotASection)
    );
    assert_eq!(
        parse_args(&annotation(vec![pair("positionals", "a")])),
        Err(ArgsError::NotASection)
    );
}

#[test]
fn the_first_section_that_cannot_be_read_decides() {
    let meta = annotation(vec![
        list("positionals", vec![item(pair("a", "b"))]),
        list("unknown", vec![]),
    ]);
    assert_eq!(parse_args(&meta), Err(ArgsError::BadPositionalName));
    let meta = annotation(vec![
        list("unknown", vec![]),
        list("positionals", vec![item(pair("a", "b"))]),
    ]);
    assert_eq!(parse_args(&meta), Err(ArgsError::UnknownSection));
}

#[test]
fn a_default_is_a_name_and_a_string() {
    assert_eq!(
        extract_default(&pair("name", "\"Bob\".to_owned()")),
        Ok(("name".to_owned(), expr("\"Bob\".to_owned()")))
    );
    assert_eq!(
        extract_default(&word("name")),
        Err(ArgsError::BadDefaultFormat)
    );
    assert_eq!(
        extract_default(&list("name", vec![])),
        Err(ArgsError::BadDefaultFormat)
    );
    assert_eq!(
        extract_default(&Meta::NameValue(MetaNameValue {
            ident: "name".to_owned(),
            lit: Lit::Other
        })),
        Err(ArgsError::NotAStringLiteral)
    );
    assert_eq!(as_expr(&Lit::Str(LitStr {
        value: "false".to_owned(),
        is_expr: true,
    })), Ok(expr("false")));
    assert_eq!(as_expr(&Lit::Other), Err(ArgsError::NotAStringLiteral));
}

#[test]
fn a_positional_name_is_a_lone_identifier() {
    assert_eq!(extract_positional_name(&word("path")), Ok("path".to_owned()));
    assert_eq!(
        extract_positional_name(&pair("path", "x")),
        Err(ArgsError::BadPositionalName)
    );
    assert_eq!(
        extract_positional_name(&list("path", vec![])),
        Err(ArgsError::BadPositionalName)
    );
}

#[test]
fn the_sections_are_lists_of_meta_items() {
    assert_eq!(
        process_positionals(&list("positionals", vec![item(word("a")), item(word("b"))])),
        Ok(vec!["a".to_owned(), "b".to_owned()])
    );
    assert_eq!(
        process_positionals(&list(
            "positionals",
            vec![item(word("a")), NestedMeta::Literal(Lit::Other)]
        )),
        Err(ArgsError::BadNesting)
    );
    assert_eq!(
        process_positionals(&word("positionals")),
        Err(ArgsError::NotASection)
    );
    assert_eq!(
        process_defaults(&list("defaults", vec![item(pair("a", "1"))])),
        Ok(vec![("a".to_owned(), expr("1"))])
    );
    assert_eq!(
        process_defaults(&list(
            "defaults",
            vec![item(pair("a", "1")), item(word("b")), NestedMeta::Literal(Lit::Other)]
        )),
        Err(ArgsError::BadDefaultFormat)
    );
    assert_eq!(
        process_defaults(&list(
            "defaults",
            vec![NestedMeta::Literal(Lit::Str(LitStr {
                value: "a".to_owned(),
                is_expr: true,
            }))]
        )),
        Err(ArgsError::BadNesting)
    );
    assert_eq!(
        process_defaults(&pair("defaults", "a")),
        Err(ArgsError::NotASection)
    );
}

#[test]
fn a_meta_item_is_named_by_its_first_identifier() {
    assert_eq!(word("a").name(), "a");
    assert_eq!(list("b", vec![]).name(), "b");
    assert_eq!(pair("c", "d").name(), "c");
}

#[test]
fn a_default_must_read_as_an_expression() {
    let unread = |value: &str| {
        Lit::Str(LitStr {
            value: value.to_owned(),
            is_expr: false,
        })
    };
    assert_eq!(as_expr(&unread("1 +")), Err(ArgsError::NotAnExpression));
    assert_eq!(as_expr(&unread("")), Err(ArgsError::NotAnExpression));
    let broken = Meta::NameValue(MetaNameValue {
        ident: "name".to_owned(),
        lit: unread("1 +"),
    });
    assert_eq!(extract_default(&broken), Err(ArgsError::NotAnExpression));
    let meta = annotation(vec![
        list(
            "defaults",
            vec![item(pair("a", "1")), item(broken), item(word("c"))],
        ),
        list("positionals", vec![]),
    ]);
    assert_eq!(parse_args(&meta), Err(ArgsError::NotAnExpression));
}
