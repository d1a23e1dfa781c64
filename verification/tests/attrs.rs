use rubber_duck::args::Lit;
use rubber_duck::args::LitStr;
use rubber_duck::args::Meta;
use rubber_duck::args::MetaList;
use rubber_duck::args::MetaNameValue;
use rubber_duck::args::NestedMeta;
use rubber_duck::attrs::parse_attrs;
use rubber_duck::attrs::parse_meta;
use rubber_duck::attrs::AttrError;
use rubber_duck::attrs::AttrLocation;
use rubber_duck::attrs::FnAttribute;
use rubber_duck::attrs::ParsedAttr;

fn word(ident: &str) -> Meta {
    Meta::Word(ident.to_owned())
}

fn list(ident: &str, nested: Vec<NestedMeta>) -> Meta {
    Meta::List(MetaList {
        ident: ident.to_owned(),
        nested,
    })
}

fn item(meta: Meta) -> NestedMeta {
    NestedMeta::Meta(meta)
}

fn literal(value: &str) -> NestedMeta {
    NestedMeta::Literal(Lit::Str(LitStr {
        value: value.to_owned(),
        is_expr: true,
    }))
}

#[test]
fn for_field_puts_the_second_element_on_the_field() {
    let meta = list("for_field", vec![literal("a"), item(word("serde"))]);
    assert_eq!(
        parse_meta(&meta, "Str(\"a\")"),
        Ok(ParsedAttr {
            location: AttrLocation::Field("Str(\"a\")".to_owned()),
            content: &word("serde"),
        })
    );
    let by_word = list(
        "for_field",
        vec![item(word("a")), item(list("derive", vec![item(word("Debug"))]))],
    );
    assert_eq!(
        parse_meta(&by_word, "Word(a)"),
        Ok(ParsedAttr {
            location: AttrLocation::Field("Word(a)".to_owned()),
            content: &list("derive", vec![item(word("Debug"))]),
        })
    );
}

#[test]
fn for_struct_puts_its_element_on_the_record() {
    let meta = list("for_struct", vec![item(word("repr"))]);
    assert_eq!(
        parse_meta(&meta, "ignored"),
        Ok(ParsedAttr {
            location: AttrLocation::Struct,
            content: &word("repr"),
        })
    );
}

#[test]
fn only_the_two_lists_are_known() {
    assert_eq!(parse_meta(&word("for_field"), ""), Err(AttrError::NotAList));
    assert_eq!(
        parse_meta(
            &Meta::NameValue(MetaNameValue {
                ident: "for_struct".to_owned(),
                lit: Lit::Other
            }),
            ""
        ),
        Err(AttrError::NotAList)
    );
    assert_eq!(
        parse_meta(&list("for_enum", vec![item(word("a"))]), ""),
        Err(AttrError::UnknownAttribute)
    );
}

#[test]
fn for_field_needs_a_name_and_one_attribute() {
    assert_eq!(
        parse_meta(&list("for_field", vec![]), ""),
        Err(AttrError::NoValues)
    );
    assert_eq!(
        parse_meta(
            &list(
                "for_field",
                vec![item(list("a", vec![])), item(word("b"))]
            ),
            ""
        ),
        Err(AttrError::BadFieldName)
    );
    assert_eq!(
        parse_meta(&list("for_field", vec![item(word("a"))]), ""),
        Err(AttrError::NotEnoughItems)
    );
    assert_eq!(
        parse_meta(&list("for_field", vec![item(word("a")), literal("b")]), ""),
        Err(AttrError::LiteralAnnotation)
    );
    assert_eq!(
        parse_meta(
            &list(
                "for_field",
                vec![item(word("a")), item(word("b")), item(word("c"))]
            ),
            ""
        ),
        Err(AttrError::TooManyItems)
    );
    // A literal where the attribute is expected is found before what follows.
    assert_eq!(
        parse_meta(
            &list(
                "for_field",
                vec![item(word("a")), literal("b"), item(word("c"))]
            ),
            ""
        ),
        Err(AttrError::LiteralAnnotation)
    );
}

#[test]
fn for_struct_needs_one_attribute() {
    assert_eq!(
        parse_meta(&list("for_struct", vec![]), ""),
        Err(AttrError::NotEnoughItems)
    );
    assert_eq!(
        parse_meta(&list("for_struct", vec![literal("a")]), ""),
        Err(AttrError::LiteralAnnotation)
    );
    assert_eq!(
        parse_meta(
            &list("for_struct", vec![item(word("a")), item(word("b"))]),
            ""
        ),
        Err(AttrError::TooManyItems)
    );
}

#[test]
fn the_attributes_of_a_function_are_placed_in_order() {
    let attrs = vec![
        FnAttribute {
            meta: Some(list("for_struct", vec![item(word("a"))])),
            first_printed: "Word(a)".to_owned(),
        },
        FnAttribute {
            meta: Some(list("for_field", vec![literal("x"), item(word("b"))])),
            first_printed: "x".to_owned(),
        },
    ];
    let parsed = parse_attrs(&attrs).unwrap();
    assert_eq!(parsed.len(), 2);
    assert_eq!(parsed[0].location, AttrLocation::Struct);
    assert_eq!(parsed[0].content, &word("a"));
    assert_eq!(parsed[1].location, AttrLocation::Field("x".to_owned()));
    assert_eq!(parsed[1].content, &word("b"));
    assert_eq!(parse_attrs(&vec![]), Ok(vec![]));
}

#[test]
fn the_first_attribute_that_cannot_be_placed_decides() {
    let attrs = vec![
        FnAttribute {
            meta: Some(list("for_struct", vec![item(word("a"))])),
            first_printed: String::new(),
        },
        FnAttribute {
            meta: None,
            first_printed: String::new(),
        },
        FnAttribute {
            meta: Some(word("inline")),
            first_printed: String::new(),
        },
    ];
    assert_eq!(parse_attrs(&attrs), Err(AttrError::NotAMeta));
    let attrs = vec![
        FnAttribute {
            meta: Some(word("inline")),
            first_printed: String::new(),
        },
        FnAttribute {
            meta: None,
            first_printed: String::new(),
        },
    ];
    assert_eq!(parse_attrs(&attrs), Err(AttrError::NotAList));
}
