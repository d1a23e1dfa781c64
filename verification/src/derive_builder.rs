//! The typestate builder of a struct whose fields carry their defaults as
//! attributes.

use vstd::prelude::*;
use vstd::string::StringExecFns;
use crate::args::ArgsError;
use crate::args::Meta;
use crate::builder::spec_builder_error;
use crate::builder::synthesize;
use crate::builder::BuilderDecls;
use crate::builder::BuilderError;
use crate::default::extract_default;
use crate::default::spec_extract_default;
use crate::parse_fn::Field;
use crate::parse_fn::FieldRole;
use crate::parse_fn::NamedData;
use crate::ty::Expr;
use crate::ty::TypeExpr;
use crate::util::drain_map;
use crate::util::spec_kept;
use crate::util::spec_mapped;
use crate::util::spec_outcomes;

verus! {

/// An attribute: its tokens, and the meta item that it reads as, if it
/// reads as one.
#[derive(Debug, PartialEq, Eq)]
pub struct Attribute {
    pub tokens: String,
    pub meta: Option<Meta>,
}

/// A field of a struct.
#[derive(Debug, PartialEq, Eq)]
pub struct StructField {
    pub attrs: Vec<Attribute>,
    /// The name of the field; a field of a tuple struct has none.
    pub ident: Option<String>,
    pub ty: TypeExpr,
}

/// A struct declaration.
#[derive(Debug, PartialEq, Eq)]
pub struct ItemStruct {
    pub ident: String,
    pub fields: Vec<StructField>,
}

/// A field with the default that its attributes gave it.
#[derive(Debug, PartialEq, Eq)]
pub struct MyField {
    pub name: String,
    pub ty: TypeExpr,
    pub default_value: Option<Expr>,
}

/// Why the fields of a struct cannot be read.
#[derive(PartialEq, Eq, Structural, Clone, Copy, Debug)]
pub enum FieldsError {
    /// The value of a default is not a string literal, or does not read as
    /// an expression.
    BadDefault,
    /// A field has more than one default.
    TooManyDefaults,
    /// A field has no name.
    UnnamedField,
}

/// Why no builder can be made for a struct.
#[derive(PartialEq, Eq, Structural, Clone, Copy, Debug)]
pub enum GenError {
    Fields(FieldsError),
    Builder(BuilderError),
}

/// The default that an attribute declares.
pub open spec fn spec_attr_default(attr: Attribute) -> Option<Result<Expr, ArgsError>> {
    match attr.meta {
        Some(m) => spec_extract_default(m),
        None => None,
    }
}

/// What each of `attrs` declares as a default.
pub open spec fn spec_attr_defaults(attrs: Seq<Attribute>) -> Seq<Option<Result<Expr, ArgsError>>> {
    Seq::new(attrs.len(), |k: int| spec_attr_default(attrs[k]))
}

/// The defaults that `attrs` declare, in order.
pub open spec fn spec_plucked(attrs: Seq<Attribute>) -> Seq<Result<Expr, ArgsError>> {
    spec_mapped(spec_attr_defaults(attrs), attrs.len())
}

/// Those of `attrs` that declare no default, in order.
pub open spec fn spec_remaining(attrs: Seq<Attribute>) -> Seq<Attribute> {
    spec_kept(attrs, spec_attr_defaults(attrs), attrs.len())
}

/// What is wrong with the defaults or the name of a field, if anything is.
pub open spec fn spec_field_error(field: StructField) -> Option<FieldsError> {
    let plucked = spec_plucked(field.attrs@);
    if exists|k: int| 0 <= k < plucked.len() && (#[trigger] plucked[k]) is Err {
        Some(FieldsError::BadDefault)
    } else if plucked.len() > 1 {
        Some(FieldsError::TooManyDefaults)
    } else if field.ident is None {
        Some(FieldsError::UnnamedField)
    } else {
        None
    }
}

/// The default of a field with at most one default attribute.
pub open spec fn spec_field_default(field: StructField) -> Option<Expr> {
    let plucked = spec_plucked(field.attrs@);
    if plucked.len() == 1 && plucked[0] is Ok {
        Some(plucked[0]->Ok_0)
    } else {
        None
    }
}

/// What is wrong with the first of the first `n` fields with which
/// something is wrong.
pub open spec fn spec_first_field_error(fields: Seq<StructField>, n: nat) -> Option<FieldsError>
    decreases n,
{
    if n == 0 {
        None
    } else {
        match spec_first_field_error(fields, (n - 1) as nat) {
            Some(e) => Some(e),
            None => spec_field_error(fields[n - 1]),
        }
    }
}

impl MyField {
    /// `self` is `field` with its default.
    pub open spec fn describes(&self, field: StructField) -> bool {
        &&& field.ident == Some(self.name)
        &&& self.ty == field.ty
        &&& self.default_value == spec_field_default(field)
    }
}

impl StructField {
    /// `self` is `before` without the attributes that declare a default.
    pub open spec fn stripped_of(&self, before: StructField) -> bool {
        &&& self.ident == before.ident
        &&& self.ty == before.ty
        &&& self.attrs@ == spec_remaining(before.attrs@)
    }
}

proof fn lemma_field_error_stays(fields: Seq<StructField>, n: nat, m: nat)
    requires
        n <= m,
        spec_first_field_error(fields, n) is Some,
    ensures
        spec_first_field_error(fields, m) == spec_first_field_error(fields, n),
    decreases m,
{
    if n < m {
        lemma_field_error_stays(fields, n, (m - 1) as nat);
    }
}

/// Takes the attributes that declare a default out of `attrs` and returns
/// what they declare.
fn pluck_defaults(attrs: &mut Vec<Attribute>) -> (r: Vec<Result<Expr, ArgsError>>)
    ensures
        r@ == spec_plucked(old(attrs)@),
        final(attrs)@ == spec_remaining(old(attrs)@),
{
    let ghost before = attrs@;
    let read = |a: &Attribute| -> (out: Option<Result<Expr, ArgsError>>)
        ensures
            out == spec_attr_default(*a),
        {
            match &a.meta {
                Some(m) => extract_default(m),
                None => None,
            }
        };
    let r = drain_map(attrs, read);
    proof {
        let outs = choose|outs: Seq<Option<Result<Expr, ArgsError>>>|
            {
                &&& #[trigger] spec_outcomes(read, before, outs)
                &&& r@ == spec_mapped(outs, outs.len())
                &&& attrs@ == spec_kept(before, outs, outs.len())
            };
        assert(outs =~= spec_attr_defaults(before));
    }
    r
}

/// Whether one of `plucked` is an error.
fn any_error(plucked: &Vec<Result<Expr, ArgsError>>) -> (r: bool)
    ensures
        r == exists|k: int| 0 <= k < plucked@.len() && (#[trigger] plucked@[k]) is Err,
{
    let n = plucked.len();
    let mut k: usize = 0;
    while k < n
        invariant
            n == plucked@.len(),
            k <= n,
            forall|a: int| 0 <= a < k ==> (#[trigger] plucked@[a]) is Ok,
        decreases n - k,
    {
        if plucked[k].is_err() {
            return true;
        }
        k += 1;
    }
    false
}

/// The fields of a struct with their defaults. The attributes that declare
/// a default are taken off the fields. A field may have one default at
/// most, and must have a name.
pub fn parse_fields(fields: &mut Vec<StructField>) -> (r: Result<Vec<MyField>, FieldsError>)
    ensures
        match r {
            Ok(parsed) => {
                &&& spec_first_field_error(old(fields)@, old(fields)@.len()) is None
                &&& parsed@.len() == old(fields)@.len()
                &&& final(fields)@.len() == old(fields)@.len()
                &&& forall|k: int|
                    0 <= k < old(fields)@.len() ==> (#[trigger] parsed@[k]).describes(
                        old(fields)@[k],
                    )
                &&& forall|k: int|
                    0 <= k < old(fields)@.len() ==> (#[trigger] final(fields)@[k]).stripped_of(
                        old(fields)@[k],
                    )
            },
            Err(e) => spec_first_field_error(old(fields)@, old(fields)@.len()) == Some(e),
        },
{
    let ghost before = fields@;
    let n = fields.len();
    let mut parsed: Vec<MyField> = Vec::new();
    let mut j: usize = 0;
    while j < n
        invariant
            before == old(fields)@,
            n == before.len(),
            fields@.len() == n,
            j <= n,
            spec_first_field_error(before, j as nat) is None,
            parsed@.len() == j,
            forall|k: int| 0 <= k < j ==> (#[trigger] parsed@[k]).describes(before[k]),
            forall|k: int| 0 <= k < j ==> (#[trigger] fields@[k]).stripped_of(before[k]),
            forall|k: int| j <= k < n ==> fields@[k] == before[k],
        decreases n - j,
    {
        proof {
            if spec_field_error(before[j as int]) is Some {
                lemma_field_error_stays(before, (j + 1) as nat, n as nat);
            }
        }
        let field = &mut fields[j];
        let mut plucked = pluck_defaults(&mut field.attrs);
        if any_error(&plucked) {
            return Err(FieldsError::BadDefault);
        }
        if plucked.len() > 1 {
            return Err(FieldsError::TooManyDefaults);
        }
        let name = match &field.ident {
            Some(name) => name.clone(),
            None => {
                return Err(FieldsError::UnnamedField);
            },
        };
        let default_value = match plucked.pop() {
            Some(Ok(expr)) => Some(expr),
            _ => None,
        };
        parsed.push(MyField { name, ty: field.ty.duplicate(), default_value });
        j += 1;
    }
    Ok(parsed)
}

/// The named field that a field of a struct stands for.
pub open spec fn spec_named_field(field: StructField) -> Field<FieldRole> {
    Field {
        name: field.ident->Some_0,
        ty: field.ty,
        extra: FieldRole::Named(NamedData { default: spec_field_default(field) }),
    }
}

/// The field list of a struct: every field is a named field.
pub open spec fn spec_named_fields(fields: Seq<StructField>) -> Seq<Field<FieldRole>> {
    Seq::new(fields.len(), |k: int| spec_named_field(fields[k]))
}

fn named_fields(parsed: &Vec<MyField>, Ghost(fields): Ghost<Seq<StructField>>) -> (r: Vec<
    Field<FieldRole>,
>)
    requires
        parsed@.len() == fields.len(),
        forall|k: int| 0 <= k < fields.len() ==> (#[trigger] parsed@[k]).describes(fields[k]),
    ensures
        r@ == spec_named_fields(fields),
{
    let n = parsed.len();
    let mut r: Vec<Field<FieldRole>> = Vec::new();
    let mut k: usize = 0;
    while k < n
        invariant
            n == parsed@.len(),
            n == fields.len(),
            k <= n,
            forall|a: int| 0 <= a < n ==> (#[trigger] parsed@[a]).describes(fields[a]),
            r@.len() == k,
            forall|a: int| 0 <= a < k ==> r@[a] == spec_named_field(fields[a]),
        decreases n - k,
    {
        let field = &parsed[k];
        let default = match &field.default_value {
            Some(e) => Some(e.duplicate()),
            None => None,
        };
        r.push(
            Field {
                name: field.name.clone(),
                ty: field.ty.duplicate(),
                extra: FieldRole::Named(NamedData { default }),
            },
        );
        k += 1;
    }
    r
}

/// The declarations of the typestate builder of a struct.
///
/// The struct itself is the record. Every field is a named field; its
/// default is the one that its attributes declare, stored as it stands. The
/// attributes that declare a default are taken off the fields.
pub fn gen_typesafe_builder(item: &mut ItemStruct) -> (r: Result<BuilderDecls, GenError>)
    ensures
        match r {
            Ok(decls) => {
                &&& spec_first_field_error(old(item).fields@, old(item).fields@.len()) is None
                &&& spec_builder_error(spec_named_fields(old(item).fields@), false) is None
                &&& decls.describes(spec_named_fields(old(item).fields@), false)
                &&& decls.record_name == old(item).ident
                &&& decls.builder_name@ == old(item).ident@ + "Builder"@
                &&& final(item).ident == old(item).ident
                &&& final(item).fields@.len() == old(item).fields@.len()
                &&& forall|k: int|
                    0 <= k < old(item).fields@.len() ==> (
                    #[trigger] final(item).fields@[k]).stripped_of(old(item).fields@[k])
            },
            Err(GenError::Fields(e)) => spec_first_field_error(
                old(item).fields@,
                old(item).fields@.len(),
            ) == Some(e),
            Err(GenError::Builder(e)) => {
                &&& spec_first_field_error(old(item).fields@, old(item).fields@.len()) is None
                &&& spec_builder_error(spec_named_fields(old(item).fields@), false) == Some(e)
            },
        },
{
    let parsed_fields = match parse_fields(&mut item.fields) {
        Ok(parsed) => parsed,
        Err(e) => {
            return Err(GenError::Fields(e));
        },
    };
    let fields = named_fields(&parsed_fields, Ghost(old(item).fields@));
    let mut builder_name = item.ident.clone();
    builder_name.append("Builder");
    match synthesize(&fields, item.ident.clone(), builder_name, false) {
        Ok(decls) => Ok(decls),
        Err(e) => Err(GenError::Builder(e)),
    }
}

} // verus!
