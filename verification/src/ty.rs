//! Types and expressions as the synthesizer sees them, and the rule that
//! tells an optional type from any other.

use vstd::prelude::*;
use vstd::string::StringExecFns;

verus! {

/// An expression, kept as the tokens it was written with.
#[derive(Debug, PartialEq, Eq)]
pub struct Expr {
    pub tokens: String,
}

/// An argument between the angle brackets of a path segment.
#[derive(Debug, PartialEq, Eq)]
pub enum GenericArgument {
    /// A type argument, kept as its tokens.
    Type(String),
    /// A lifetime, a binding, a constraint or a const expression.
    Other,
}

/// The `<..>` after a path segment. Only its first argument is ever read.
#[derive(Debug, PartialEq, Eq)]
pub struct AngleBracketedGenericArguments {
    pub first: Option<GenericArgument>,
}

/// What follows the identifier of a path segment.
#[derive(Debug, PartialEq, Eq)]
pub enum PathArguments {
    /// Nothing follows the identifier.
    Empty,
    /// The `<T>` in `Option<T>`.
    AngleBracketed(AngleBracketedGenericArguments),
    /// The `(A, B) -> C` in `Fn(A, B) -> C`.
    Parenthesized,
}

/// The first segment of a path.
#[derive(Debug, PartialEq, Eq)]
pub struct PathSegment {
    pub ident: String,
    pub arguments: PathArguments,
}

/// What the head of a type looks like.
#[derive(Debug, PartialEq, Eq)]
pub enum TypeHead {
    /// A path type; the field is the first segment of its path.
    Path(PathSegment),
    /// Any other type: a reference, a tuple, a slice, ...
    Other,
}

/// A type: its tokens, and the shape of its head.
#[derive(Debug, PartialEq, Eq)]
pub struct TypeExpr {
    pub tokens: String,
    pub head: TypeHead,
}

/// Whether a type is an `Option`, and of what.
#[derive(Debug, PartialEq, Eq)]
pub enum IsOption {
    /// The type is `Option<T>`; the field holds the tokens of `T`.
    True(String),
    False,
}

/// Why a type that starts with `Option` cannot be used.
#[derive(PartialEq, Eq, Structural, Clone, Copy, Debug)]
pub enum OptionTypeError {
    /// `Option` is not followed by angle brackets.
    NotAngleBracketed,
    /// Nothing stands between the angle brackets.
    MissingArgument,
    /// The first argument between the angle brackets is not a type.
    NotAType,
}

/// The type that an angle-bracketed argument list wraps: its first argument,
/// which must be a type.
pub open spec fn spec_extract_option_type(
    wrapped_type: AngleBracketedGenericArguments,
) -> Result<String, OptionTypeError> {
    match wrapped_type.first {
        None => Err(OptionTypeError::MissingArgument),
        Some(GenericArgument::Other) => Err(OptionTypeError::NotAType),
        Some(GenericArgument::Type(ty)) => Ok(ty),
    }
}

/// A type is an option exactly if it is a path type whose first segment is
/// named `Option`; that segment must then carry the wrapped type between
/// angle brackets.
pub open spec fn spec_get_option_type(ty: TypeExpr) -> Result<IsOption, OptionTypeError> {
    match ty.head {
        TypeHead::Other => Ok(IsOption::False),
        TypeHead::Path(segment) => if segment.ident@ == "Option"@ {
            match segment.arguments {
                PathArguments::AngleBracketed(args) => match spec_extract_option_type(args) {
                    Ok(inner) => Ok(IsOption::True(inner)),
                    Err(e) => Err(e),
                },
                _ => Err(OptionTypeError::NotAngleBracketed),
            }
        } else {
            Ok(IsOption::False)
        },
    }
}

/// Whether `s` reads exactly as the literal `lit`.
pub fn str_is(s: &String, lit: &str) -> (r: bool)
    ensures
        r == (s@ == lit@),
{
    let other = String::from_str(lit);
    *s == other
}

/// The type that an angle-bracketed argument list wraps: its first argument,
/// which must be a type.
pub fn extract_option_type(wrapped_type: &AngleBracketedGenericArguments) -> (r: Result<
    String,
    OptionTypeError,
>)
    ensures
        r == spec_extract_option_type(*wrapped_type),
{
    match &wrapped_type.first {
        None => Err(OptionTypeError::MissingArgument),
        Some(GenericArgument::Other) => Err(OptionTypeError::NotAType),
        Some(GenericArgument::Type(ty)) => Ok(ty.clone()),
    }
}

/// Whether a type is an option, and of what. A type whose first segment is
/// `Option` but that wraps no type is refused.
pub fn get_option_type(ty: TypeExpr) -> (r: Result<IsOption, OptionTypeError>)
    ensures
        r == spec_get_option_type(ty),
{
    match &ty.head {
        TypeHead::Other => Ok(IsOption::False),
        TypeHead::Path(segment) => {
            if str_is(&segment.ident, "Option") {
                match &segment.arguments {
                    PathArguments::AngleBracketed(args) => match extract_option_type(args) {
                        Ok(inner) => Ok(IsOption::True(inner)),
                        Err(e) => Err(e),
                    },
                    _ => Err(OptionTypeError::NotAngleBracketed),
                }
            } else {
                Ok(IsOption::False)
            }
        },
    }
}

impl Expr {
    /// A copy that equals `self`.
    pub fn duplicate(&self) -> (r: Expr)
        ensures
            r == *self,
    {
        Expr { tokens: self.tokens.clone() }
    }
}

impl TypeExpr {
    /// A copy that equals `self`.
    pub fn duplicate(&self) -> (r: TypeExpr)
        ensures
            r == *self,
    {
        let head = match &self.head {
            TypeHead::Other => TypeHead::Other,
            TypeHead::Path(segment) => {
                let arguments = match &segment.arguments {
                    PathArguments::Empty => PathArguments::Empty,
                    PathArguments::Parenthesized => PathArguments::Parenthesized,
                    PathArguments::AngleBracketed(args) => {
                        let first = match &args.first {
                            None => None,
                            Some(GenericArgument::Other) => Some(GenericArgument::Other),
                            Some(GenericArgument::Type(ty)) => Some(
                                GenericArgument::Type(ty.clone()),
                            ),
                        };
                        PathArguments::AngleBracketed(AngleBracketedGenericArguments { first })
                    },
                };
                TypeHead::Path(PathSegment { ident: segment.ident.clone(), arguments })
            },
        };
        TypeExpr { tokens: self.tokens.clone(), head }
    }

    /// The tokens of `Option<inner>`.
    pub open spec fn spec_option_tokens(inner: Seq<char>) -> Seq<char> {
        "Option<"@ + inner + ">"@
    }

    /// The type `Option<inner>`.
    pub fn option_of(inner: &TypeExpr) -> (r: TypeExpr)
        ensures
            r.tokens@ == Self::spec_option_tokens(inner.tokens@),
            spec_get_option_type(r) == Ok::<IsOption, OptionTypeError>(
                IsOption::True(inner.tokens),
            ),
    {
        let mut tokens = String::from_str("Option<");
        tokens.append(inner.tokens.as_str());
        tokens.append(">");
        TypeExpr {
            tokens,
            head: TypeHead::Path(
                PathSegment {
                    ident: String::from_str("Option"),
                    arguments: PathArguments::AngleBracketed(
                        AngleBracketedGenericArguments {
                            first: Some(GenericArgument::Type(inner.tokens.clone())),
                        },
                    ),
                },
            ),
        }
    }
}

} // verus!
