//! The call form: a callable, its positional arguments in order, and its
//! named arguments in any order, turned into the chain of calls on the
//! builder of its arguments.

use vstd::prelude::*;
use vstd::string::StringExecFns;
use crate::ty::Expr;
use crate::util::spec_uppercase;
use crate::util::uppercase;

verus! {

/// A named argument of a call: `ident: expr`, or `ident` alone.
#[derive(Debug, PartialEq, Eq)]
pub struct NamedField {
    pub ident: String,
    pub expr: Expr,
}

/// A call in the call form: `ty { pos, .., { ident: expr, .. } }`.
#[derive(Debug, PartialEq, Eq)]
pub struct NamedArgCall {
    /// The path of the callable.
    pub ty: String,
    /// The name of the callable: the last identifier of its path.
    pub ident: String,
    pub pos_fields: Vec<Expr>,
    pub named_fields: Vec<NamedField>,
}

/// One call of a setter.
#[derive(Debug, PartialEq, Eq)]
pub struct SetterCall {
    pub method: String,
    pub argument: Expr,
}

/// What a call in the call form expands to: the builder of the callable's
/// arguments is made, the setters are called on it in order, it is taken
/// apart into the argument tuple, and the callable is applied to that.
#[derive(Debug, PartialEq, Eq)]
pub struct CallChain {
    /// The path of the callable.
    pub callable: String,
    /// The name of the record that makes the builder. It stands where the
    /// callable stands: in its path, it takes the place of the callable's
    /// name.
    pub record: String,
    pub calls: Vec<SetterCall>,
}

impl NamedField {
    /// The named argument that an identifier alone stands for: the
    /// identifier is also the expression.
    pub fn shorthand(ident: String) -> (r: NamedField)
        ensures
            r.ident == ident,
            r.expr.tokens == ident,
    {
        let tokens = ident.clone();
        NamedField { ident, expr: Expr { tokens } }
    }
}

/// Whether a group in braces holds named arguments rather than one
/// positional argument: it does if it starts with an identifier that a colon
/// or a comma follows.
pub fn holds_named_args(
    first_is_ident: bool,
    second_is_colon: bool,
    second_is_comma: bool,
) -> (r: bool)
    ensures
        r == (first_is_ident && (second_is_colon || second_is_comma)),
{
    first_is_ident && (second_is_colon || second_is_comma)
}

/// The setter calls of a call: one call of `next` per positional argument,
/// in order, then one call per named argument, under its name, in the order
/// in which they were written.
pub open spec fn spec_calls_of(call: NamedArgCall, k: int) -> (Seq<char>, Expr) {
    if k < call.pos_fields@.len() {
        ("next"@, call.pos_fields@[k])
    } else {
        let named = call.named_fields@[k - call.pos_fields@.len()];
        (named.ident@, named.expr)
    }
}

/// The chain of calls that a call in the call form expands to.
pub fn n(call: &NamedArgCall) -> (r: CallChain)
    ensures
        r.callable == call.ty,
        r.record@ == spec_uppercase(call.ident@),
        r.calls@.len() == call.pos_fields@.len() + call.named_fields@.len(),
        forall|k: int|
            0 <= k < r.calls@.len() ==> ((#[trigger] r.calls@[k]).method@, r.calls@[k].argument)
                == spec_calls_of(*call, k),
{
    let p = call.pos_fields.len();
    let d = call.named_fields.len();
    let mut calls: Vec<SetterCall> = Vec::new();
    let mut k: usize = 0;
    while k < p
        invariant
            p == call.pos_fields@.len(),
            k <= p,
            calls@.len() == k,
            forall|a: int|
                0 <= a < k ==> ((#[trigger] calls@[a]).method@, calls@[a].argument)
                    == spec_calls_of(*call, a),
        decreases p - k,
    {
        calls.push(
            SetterCall {
                method: String::from_str("next"),
                argument: call.pos_fields[k].duplicate(),
            },
        );
        k += 1;
    }
    let mut j: usize = 0;
    while j < d
        invariant
            p == call.pos_fields@.len(),
            d == call.named_fields@.len(),
            j <= d,
            calls@.len() == p + j,
            forall|a: int|
                0 <= a < p + j ==> ((#[trigger] calls@[a]).method@, calls@[a].argument)
                    == spec_calls_of(*call, a),
        decreases d - j,
    {
        let named = &call.named_fields[j];
        calls.push(SetterCall { method: named.ident.clone(), argument: named.expr.duplicate() });
        j += 1;
    }
    CallChain { callable: call.ty.clone(), record: uppercase(call.ident.as_str()), calls }
}

} // verus!
