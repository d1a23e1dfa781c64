//! Defaults that are written as attributes on the fields of a struct:
//! `#[default = "expr"]` and `#[default_str = "expr"]`.

use vstd::prelude::*;
use crate::args::spec_as_expr;
use crate::args::ArgsError;
use crate::args::Lit;
use crate::args::Meta;
use crate::ty::str_is;
use crate::ty::Expr;

verus! {

/// The expression that a literal holds. A `default_str` is read like a
/// `default`.
pub fn as_wrapped_expr(lit: &Lit) -> (r: Result<Expr, ArgsError>)
    ensures
        r == spec_as_expr(*lit),
{
    match lit {
        Lit::Str(text) => {
            if text.is_expr {
                Ok(Expr { tokens: text.value.clone() })
            } else {
                Err(ArgsError::NotAnExpression)
            }
        },
        Lit::Other => Err(ArgsError::NotAStringLiteral),
    }
}

/// The default that an attribute declares: the value of `default = ".."` or
/// of `default_str = ".."`, which must be a string literal that reads as an
/// expression. Any other attribute declares none.
pub open spec fn spec_extract_default(m: Meta) -> Option<Result<Expr, ArgsError>> {
    match m {
        Meta::NameValue(pair) => if pair.ident@ == "default"@ || pair.ident@ == "default_str"@ {
            Some(spec_as_expr(pair.lit))
        } else {
            None
        },
        _ => None,
    }
}

/// The default that an attribute declares, if it declares one.
pub fn extract_default(m: &Meta) -> (r: Option<Result<Expr, ArgsError>>)
    ensures
        r == spec_extract_default(*m),
{
    match m {
        Meta::Word(_) => None,
        Meta::List(_) => None,
        Meta::NameValue(pair) => {
            if str_is(&pair.ident, "default") {
                Some(crate::args::as_expr(&pair.lit))
            } else if str_is(&pair.ident, "default_str") {
                Some(as_wrapped_expr(&pair.lit))
            } else {
                None
            }
        },
    }
}

} // verus!
