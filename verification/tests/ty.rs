use rubber_duck::ty::extract_option_type;
use rubber_duck::ty::get_option_type;
use rubber_duck::ty::str_is;
use rubber_duck::ty::AngleBracketedGenericArguments;
use rubber_duck::ty::Expr;
use rubber_duck::ty::GenericArgument;
use rubber_duck::ty::IsOption;
use rubber_duck::ty::OptionTypeError;
use rubber_duck::ty::PathArguments;
use rubber_duck::ty::PathSegment;
use rubber_duck::ty::TypeExpr;
use rubber_duck::ty::TypeHead;

fn path(tokens: &str, ident: &str, arguments: PathArguments) -> TypeExpr {
    TypeExpr {
        tokens: tokens.to_owned(),
        head: TypeHead::Path(PathSegment {
            ident: ident.to_owned(),
            arguments,
        }),
    }
}

fn angle(first: Option<GenericArgument>) -> PathArguments {
    PathArguments::AngleBracketed(AngleBracketedGenericArguments { first })
}

#[test]
fn an_option_wraps_its_first_type_argument() {
    let ty = path(
        "Option<String>",
        "Option",
        angle(Some(GenericArgument::Type("String".to_owned()))),
    );
    assert_eq!(
        get_option_type(ty),
        Ok(IsOption::True("String".to_owned()))
    );
    let nested = path(
        "Option<Option<u8>>",
        "Option",
        angle(Some(GenericArgument::Type("Option<u8>".to_owned()))),
    );
    assert_eq!(
        get_option_type(nested),
        Ok(IsOption::True("Option<u8>".to_owned()))
    );
}

#[test]
fn a_type_that_does_not_start_with_option_is_none() {
    assert_eq!(
        get_option_type(path("String", "String", PathArguments::Empty)),
        Ok(IsOption::False)
    );
    assert_eq!(
        get_option_type(path(
            "Vec<u8>",
            "Vec",
            angle(Some(GenericArgument::Type("u8".to_owned())))
        )),
        Ok(IsOption::False)
    );
    // Only the first segment of a path is looked at.
    assert_eq!(
        get_option_type(path(
            "std::option::Option<u8>",
            "std",
            PathArguments::Empty
        )),
        Ok(IsOption::False)
    );
    assert_eq!(
        get_option_type(path("option", "option", PathArguments::Empty)),
        Ok(IsOption::False)
    );
    assert_eq!(
        get_option_type(TypeExpr {
            tokens: "&Option<u8>".to_owned(),
            head: TypeHead::Other
        }),
        Ok(IsOption::False)
    );
}

#[test]
fn an_option_without_a_wrapped_type_is_refused() {
    assert_eq!(
        get_option_type(path("Option", "Option", PathArguments::Empty)),
        Err(OptionTypeError::NotAngleBracketed)
    );
    assert_eq!(
        get_option_type(path("Option(u8)", "Option", PathArguments::Parenthesized)),
        Err(OptionTypeError::NotAngleBracketed)
    );
    assert_eq!(
        get_option_type(path("Option<>", "Option", angle(None))),
        Err(OptionTypeError::MissingArgument)
    );
    assert_eq!(
        get_option_type(path(
            "Option<'a>",
            "Option",
            angle(Some(GenericArgument::Other))
        )),
        Err(OptionTypeError::NotAType)
    );
}

#[test]
fn the_wrapped_type_is_the_first_argument() {
    assert_eq!(
        extract_option_type(&AngleBracketedGenericArguments {
            first: Some(GenericArgument::Type("Box<u32>".to_owned()))
        }),
        Ok("Box<u32>".to_owned())
    );
    assert_eq!(
        extract_option_type(&AngleBracketedGenericArguments { first: None }),
        Err(OptionTypeError::MissingArgument)
    );
    assert_eq!(
        extract_option_type(&AngleBracketedGenericArguments {
            first: Some(GenericArgument::Other)
        }),
        Err(OptionTypeError::NotAType)
    );
}

#[test]
fn wrapping_a_type_makes_an_option_of_it() {
    let inner = path("String", "String", PathArguments::Empty);
    let wrapped = TypeExpr::option_of(&inner);
    assert_eq!(wrapped.tokens, "Option<String>");
    assert_eq!(
        wrapped,
        path(
            "Option<String>",
            "Option",
            angle(Some(GenericArgument::Type("String".to_owned())))
        )
    );
    assert_eq!(
        get_option_type(wrapped),
        Ok(IsOption::True("String".to_owned()))
    );
    let twice = TypeExpr::option_of(&TypeExpr::option_of(&inner));
    assert_eq!(twice.tokens, "Option<Option<String>>");
    assert_eq!(
        get_option_type(twice),
        Ok(IsOption::True("Option<String>".to_owned()))
    );
}

#[test]
fn a_copy_equals_what_it_was_made_from() {
    let ty = path(
        "Option<String>",
        "Option",
        angle(Some(GenericArgument::Type("String".to_owned()))),
    );
    assert_eq!(ty.duplicate(), ty);
    let other = TypeExpr {
        tokens: "(u8, u8)".to_owned(),
        head: TypeHead::Other,
    };
    assert_eq!(other.duplicate(), other);
    let paren = path("Fn(u8)", "Fn", PathArguments::Parenthesized);
    assert_eq!(paren.duplicate(), paren);
    let expr = Expr {
        tokens: "1 + 1".to_owned(),
    };
    assert_eq!(expr.duplicate(), expr);
}

#[test]
fn a_string_is_compared_with_a_literal() {
    assert!(str_is(&"Option".to_owned(), "Option"));
    assert!(!str_is(&"Option".to_owned(), "option"));
    assert!(!str_is(&"".to_owned(), "Option"));
    assert!(str_is(&"".to_owned(), ""));
}
