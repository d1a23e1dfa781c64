//! The field list of a callable with its positional and its named fields
//! kept apart. Only the named fields go into the record and its builder;
//! the positional ones are passed to the callable as they are.

use vstd::prelude::*;
use vstd::string::StringExecFns;
use crate::args::parse_args;
use crate::args::spec_parse_args;
use crate::args::Args;
use crate::args::ArgsError;
use crate::args::ArgsView;
use crate::args::Lit;
use crate::args::LitStr;
use crate::args::Meta;
use crate::args::MetaNameValue;
use crate::derive_builder::spec_field_default;
use crate::derive_builder::Attribute;
use crate::derive_builder::ItemStruct;
use crate::derive_builder::StructField;
use crate::parse_fn::spec_classified;
use crate::parse_fn::spec_classify_error;
use crate::parse_fn::ClassifyError;
use crate::parse_fn::Field;
use crate::parse_fn::FieldRole;
use crate::parse_fn::ItemFn;
use crate::parse_fn::NamedData;
use crate::sugar::spec_doc;
use crate::sugar::DefaultBinding;
use crate::sugar::MacroDecl;
use crate::ty::Expr;
use crate::ty::TypeExpr;
use crate::util::spec_uppercase;
use crate::util::uppercase;

verus! {

/// A field that is given by position.
#[derive(Debug, PartialEq, Eq)]
pub struct PositionalField {
    pub name: String,
    pub ty: TypeExpr,
}

/// A field that is given by name, with its default if it has one.
#[derive(Debug, PartialEq, Eq)]
pub struct NamedField {
    pub name: String,
    pub ty: TypeExpr,
    pub default: Option<Expr>,
}

/// The fields of one callable, the positional ones apart from the named
/// ones, and the callable's name.
#[derive(Debug, PartialEq, Eq)]
pub struct Structure {
    pub positional: Vec<PositionalField>,
    pub named: Vec<NamedField>,
    pub ident: String,
}

impl Structure {
    /// The field at index `k` of the whole field list: the positional
    /// fields come first.
    pub open spec fn spec_field(&self, k: int) -> Field<FieldRole> {
        if k < self.positional@.len() {
            let f = self.positional@[k];
            Field { name: f.name, ty: f.ty, extra: FieldRole::Positional }
        } else {
            let f = self.named@[k - self.positional@.len()];
            Field {
                name: f.name,
                ty: f.ty,
                extra: FieldRole::Named(NamedData { default: f.default }),
            }
        }
    }

    /// The names of the positional fields.
    pub open spec fn spec_p_names(&self) -> Seq<String> {
        Seq::new(self.positional@.len(), |k: int| self.positional@[k].name)
    }

    /// The names of the named fields.
    pub open spec fn spec_n_names(&self) -> Seq<String> {
        Seq::new(self.named@.len(), |k: int| self.named@[k].name)
    }

    /// The types of the positional fields.
    pub open spec fn spec_p_types(&self) -> Seq<TypeExpr> {
        Seq::new(self.positional@.len(), |k: int| self.positional@[k].ty)
    }

    /// The types of the named fields.
    pub open spec fn spec_n_types(&self) -> Seq<TypeExpr> {
        Seq::new(self.named@.len(), |k: int| self.named@[k].ty)
    }

    /// The names of all fields, the positional ones first.
    pub fn names(&self) -> (r: Vec<String>)
        ensures
            r@ == self.spec_p_names() + self.spec_n_names(),
    {
        let mut p = self.p_names();
        let mut n = self.n_names();
        p.append(&mut n);
        p
    }

    /// The names of the positional fields.
    pub fn p_names(&self) -> (r: Vec<String>)
        ensures
            r@ == self.spec_p_names(),
    {
        let n = self.positional.len();
        let mut r: Vec<String> = Vec::new();
        let mut j: usize = 0;
        while j < n
            invariant
                n == self.positional@.len(),
                j <= n,
                r@.len() == j,
                forall|k: int| 0 <= k < j ==> r@[k] == self.positional@[k].name,
            decreases n - j,
        {
            r.push(self.positional[j].name.clone());
            j += 1;
        }
        r
    }

    /// The names of the named fields.
    pub fn n_names(&self) -> (r: Vec<String>)
        ensures
            r@ == self.spec_n_names(),
    {
        let n = self.named.len();
        let mut r: Vec<String> = Vec::new();
        let mut j: usize = 0;
        while j < n
            invariant
                n == self.named@.len(),
                j <= n,
                r@.len() == j,
                forall|k: int| 0 <= k < j ==> r@[k] == self.named@[k].name,
            decreases n - j,
        {
            r.push(self.named[j].name.clone());
            j += 1;
        }
        r
    }

    /// The types of all fields, the positional ones first.
    pub fn types(&self) -> (r: Vec<TypeExpr>)
        ensures
            r@ == self.spec_p_types() + self.spec_n_types(),
    {
        let mut p = self.p_types();
        let mut n = self.n_types();
        p.append(&mut n);
        p
    }

    /// The types of the positional fields.
    pub fn p_types(&self) -> (r: Vec<TypeExpr>)
        ensures
            r@ == self.spec_p_types(),
    {
        let n = self.positional.len();
        let mut r: Vec<TypeExpr> = Vec::new();
        let mut j: usize = 0;
        while j < n
            invariant
                n == self.positional@.len(),
                j <= n,
                r@.len() == j,
                forall|k: int| 0 <= k < j ==> r@[k] == self.positional@[k].ty,
            decreases n - j,
        {
            r.push(self.positional[j].ty.duplicate());
            j += 1;
        }
        r
    }

    /// The types of the named fields.
    pub fn n_types(&self) -> (r: Vec<TypeExpr>)
        ensures
            r@ == self.spec_n_types(),
    {
        let n = self.named.len();
        let mut r: Vec<TypeExpr> = Vec::new();
        let mut j: usize = 0;
        while j < n
            invariant
                n == self.named@.len(),
                j <= n,
                r@.len() == j,
                forall|k: int| 0 <= k < j ==> r@[k] == self.named@[k].ty,
            decreases n - j,
        {
            r.push(self.named[j].ty.duplicate());
            j += 1;
        }
        r
    }
}

/// The field list of a callable, with the positional fields and the named
/// fields kept apart. What is accepted, and what every field becomes, is as
/// for the field list in one piece.
pub fn parse_field_decl(args: &Args, fn_item: &ItemFn) -> (r: Result<Structure, ClassifyError>)
    ensures
        match r {
            Ok(structure) => {
                &&& spec_classify_error(fn_item.inputs@, args.defaults@, args.positional@) is None
                &&& structure.ident == fn_item.ident
                &&& structure.positional@.len() == args.positional@.len()
                &&& structure.positional@.len() + structure.named@.len() == fn_item.inputs@.len()
                &&& forall|k: int|
                    0 <= k < fn_item.inputs@.len() ==> spec_classified(
                        #[trigger] structure.spec_field(k),
                        fn_item.inputs@[k],
                        args.defaults@,
                        args.positional@,
                        k,
                    )
            },
            Err(e) => spec_classify_error(fn_item.inputs@, args.defaults@, args.positional@)
                == Some(e),
        },
{
    let whole = match crate::parse_fn::parse_field_decl(args, fn_item) {
        Ok(whole) => whole,
        Err(e) => {
            return Err(e);
        },
    };
    let n = whole.fields.len();
    let p = args.positional.len();
    let mut positional: Vec<PositionalField> = Vec::new();
    let mut named: Vec<NamedField> = Vec::new();
    let mut k: usize = 0;
    while k < n
        invariant
            n == whole.fields@.len(),
            n == fn_item.inputs@.len(),
            p == args.positional@.len(),
            p <= n,
            k <= n,
            whole.classifies(*fn_item, args.defaults@, args.positional@),
            positional@.len() == (if k < p {
                k
            } else {
                p
            }),
            named@.len() == (if k < p {
                0
            } else {
                k - p
            }),
            forall|a: int|
                0 <= a < positional@.len() ==> (Field {
                    name: (#[trigger] positional@[a]).name,
                    ty: positional@[a].ty,
                    extra: FieldRole::Positional,
                }) == whole.fields@[a],
            forall|a: int|
                0 <= a < named@.len() ==> (Field {
                    name: (#[trigger] named@[a]).name,
                    ty: named@[a].ty,
                    extra: FieldRole::Named(NamedData { default: named@[a].default }),
                }) == whole.fields@[p + a],
        decreases n - k,
    {
        let field = &whole.fields[k];
        match &field.extra {
            FieldRole::Positional => {
                positional.push(
                    PositionalField { name: field.name.clone(), ty: field.ty.duplicate() },
                );
            },
            FieldRole::Named(def) => {
                let default = match &def.default {
                    Some(e) => Some(e.duplicate()),
                    None => None,
                };
                named.push(
                    NamedField { name: field.name.clone(), ty: field.ty.duplicate(), default },
                );
            },
        }
        k += 1;
    }
    let structure = Structure { positional, named, ident: whole.ident.clone() };
    assert forall|k: int| 0 <= k < fn_item.inputs@.len() implies spec_classified(
        #[trigger] structure.spec_field(k),
        fn_item.inputs@[k],
        args.defaults@,
        args.positional@,
        k,
    ) by {
        assert(structure.spec_field(k) == whole.fields@[k]);
    }
    Ok(structure)
}

/// The attribute `#[default = "None"]`.
fn default_none() -> (r: Attribute)
    ensures
        r.tokens@ == "#[default = \"None\"]"@,
        crate::derive_builder::spec_attr_default(r) matches Some(Ok(expr)) && expr.tokens@
            == "None"@,
{
    Attribute {
        tokens: String::from_str("#[default = \"None\"]"),
        meta: Some(
            Meta::NameValue(
                MetaNameValue {
                    ident: String::from_str("default"),
                    lit: Lit::Str(LitStr { value: String::from_str("None"), is_expr: true }),
                },
            ),
        ),
    }
}

impl StructField {
    /// `self` is the field of the record that the named field `field`
    /// becomes: it has its name and its type and, where `field` has a
    /// default, the default `None`.
    pub open spec fn records(&self, field: NamedField) -> bool {
        &&& self.ident == Some(field.name)
        &&& self.ty == field.ty
        &&& self.attrs@.len() == if field.default is Some {
            1nat
        } else {
            0nat
        }
        &&& field.default is Some ==> self.attrs@[0].tokens@ == "#[default = \"None\"]"@
        &&& match spec_field_default(*self) {
            Some(expr) => field.default is Some && expr.tokens@ == "None"@,
            None => field.default is None,
        }
    }
}

/// The record of the named arguments of a callable, as the struct whose
/// builder is to be made: one field per named field; a field with a default
/// carries the attribute `#[default = "None"]`, since the callable itself
/// fills in the default.
pub fn gen_builder(structure: &Structure) -> (r: ItemStruct)
    ensures
        r.ident@ == spec_uppercase(structure.ident@),
        r.fields@.len() == structure.named@.len(),
        forall|k: int|
            0 <= k < structure.named@.len() ==> (#[trigger] r.fields@[k]).records(
                structure.named@[k],
            ),
{
    let n = structure.named.len();
    let mut fields: Vec<StructField> = Vec::new();
    let mut j: usize = 0;
    while j < n
        invariant
            n == structure.named@.len(),
            j <= n,
            fields@.len() == j,
            forall|k: int| 0 <= k < j ==> (#[trigger] fields@[k]).records(structure.named@[k]),
        decreases n - j,
    {
        let f = &structure.named[j];
        let mut attrs: Vec<Attribute> = Vec::new();
        if f.default.is_some() {
            let attr = default_none();
            attrs.push(attr);
            proof {
                lemma_one_default(attrs@);
            }
        } else {
            proof {
                lemma_no_default(attrs@);
            }
        }
        fields.push(StructField { attrs, ident: Some(f.name.clone()), ty: f.ty.duplicate() });
        j += 1;
    }
    ItemStruct { ident: uppercase(structure.ident.as_str()), fields }
}

proof fn lemma_one_default(attrs: Seq<Attribute>)
    requires
        attrs.len() == 1,
        crate::derive_builder::spec_attr_default(attrs[0]) is Some,
    ensures
        crate::derive_builder::spec_plucked(attrs) =~= seq![
            crate::derive_builder::spec_attr_default(attrs[0])->Some_0,
        ],
{
    reveal_with_fuel(crate::util::spec_mapped, 2);
}

proof fn lemma_no_default(attrs: Seq<Attribute>)
    requires
        attrs.len() == 0,
    ensures
        crate::derive_builder::spec_plucked(attrs) =~= Seq::empty(),
{
}

/// The default that the body fills in for a named field, if it does for
/// this one.
pub open spec fn spec_binding(field: NamedField) -> Option<DefaultBinding> {
    match field.default {
        Some(expr) => Some(DefaultBinding { name: field.name, expr }),
        None => None,
    }
}

/// The defaults that the body of the callable fills in: one for every named
/// field with a default, in declaration order.
pub fn mod_block_add_defaults(structure: &Structure) -> (r: Vec<DefaultBinding>)
    ensures
        r@ == structure.named@.filter_map(|f: NamedField| spec_binding(f)),
{
    let n = structure.named.len();
    let ghost pick = |f: NamedField| spec_binding(f);
    let mut r: Vec<DefaultBinding> = Vec::new();
    let mut j: usize = 0;
    while j < n
        invariant
            n == structure.named@.len(),
            j <= n,
            pick == |f: NamedField| spec_binding(f),
            r@ == structure.named@.take(j as int).filter_map(pick),
        decreases n - j,
    {
        assert(structure.named@.take(j + 1).drop_last() =~= structure.named@.take(j as int));
        let field = &structure.named[j];
        match &field.default {
            Some(expr) => {
                r.push(DefaultBinding { name: field.name.clone(), expr: expr.duplicate() });
            },
            None => {},
        }
        j += 1;
    }
    assert(structure.named@.take(n as int) =~= structure.named@);
    r
}

/// The macro of a callable: it takes the positional arguments first, in
/// order, and passes them on as they are; the named ones go through the
/// builder of the record, whose fields are passed on after them.
pub fn gen_macro(structure: &Structure) -> (r: MacroDecl)
    ensures
        r.name == structure.ident,
        r.record_name@ == spec_uppercase(structure.ident@),
        r.positional@ == structure.spec_p_names(),
        r.field_names@ == structure.spec_n_names(),
        r.doc@ == spec_doc(structure.ident@),
{
    let mut doc = String::from_str("Executes [");
    doc.append(structure.ident.as_str());
    doc.append("](fn.");
    doc.append(structure.ident.as_str());
    doc.append(".html) with name paramters as appropriate");
    MacroDecl {
        name: structure.ident.clone(),
        record_name: uppercase(structure.ident.as_str()),
        positional: structure.p_names(),
        field_names: structure.n_names(),
        doc,
    }
}

/// All that is generated for one callable whose positional arguments stay
/// out of the record.
#[derive(Debug, PartialEq, Eq)]
pub struct StructSugar {
    /// The fields of the callable.
    pub structure: Structure,
    /// The record of its named arguments, whose builder is made in turn.
    pub record: ItemStruct,
    /// The defaults that its body fills in.
    pub defaults: Vec<DefaultBinding>,
    /// The macro that calls it with named arguments.
    pub macro_decl: MacroDecl,
}

/// Why nothing is generated for a callable.
#[derive(PartialEq, Eq, Structural, Clone, Copy, Debug)]
pub enum SugarError {
    /// The annotation cannot be read.
    Args(ArgsError),
    /// The annotation does not fit the parameters.
    Fields(ClassifyError),
}

impl StructSugar {
    /// `self` is what is generated for `fn_item` under an annotation that
    /// says `args`.
    pub open spec fn describes(&self, fn_item: ItemFn, args: ArgsView) -> bool {
        &&& self.structure.ident == fn_item.ident
        &&& self.structure.positional@.len() == args.positional.len()
        &&& self.structure.positional@.len() + self.structure.named@.len()
            == fn_item.inputs@.len()
        &&& forall|k: int|
            0 <= k < fn_item.inputs@.len() ==> spec_classified(
                #[trigger] self.structure.spec_field(k),
                fn_item.inputs@[k],
                args.defaults,
                args.positional,
                k,
            )
        &&& self.record.ident@ == spec_uppercase(fn_item.ident@)
        &&& self.record.fields@.len() == self.structure.named@.len()
        &&& forall|k: int|
            0 <= k < self.structure.named@.len() ==> (#[trigger] self.record.fields@[k]).records(
                self.structure.named@[k],
            )
        &&& self.defaults@ == self.structure.named@.filter_map(|f: NamedField| spec_binding(f))
        &&& self.macro_decl.name == fn_item.ident
        &&& self.macro_decl.record_name@ == spec_uppercase(fn_item.ident@)
        &&& self.macro_decl.positional@ == self.structure.spec_p_names()
        &&& self.macro_decl.field_names@ == self.structure.spec_n_names()
        &&& self.macro_decl.doc@ == spec_doc(fn_item.ident@)
    }
}

/// All that is generated for a callable: its annotation is read, its
/// parameters are classified, and the record of its named arguments, the
/// defaults of its body and its macro are made. The first of these steps
/// that fails decides the error.
pub fn gen_struct_sugar(args: &Meta, fn_item: &ItemFn) -> (r: Result<StructSugar, SugarError>)
    ensures
        match r {
            Ok(sugar) => spec_parse_args(*args) matches Ok(read) && sugar.describes(
                *fn_item,
                read,
            ) && spec_classify_error(fn_item.inputs@, read.defaults, read.positional) is None,
            Err(SugarError::Args(e)) => spec_parse_args(*args) == Err::<ArgsView, _>(e),
            Err(SugarError::Fields(e)) => spec_parse_args(*args) matches Ok(read)
                && spec_classify_error(fn_item.inputs@, read.defaults, read.positional) == Some(e),
        },
{
    let read = match parse_args(args) {
        Ok(read) => read,
        Err(e) => {
            return Err(SugarError::Args(e));
        },
    };
    let structure = match parse_field_decl(&read, fn_item) {
        Ok(structure) => structure,
        Err(e) => {
            return Err(SugarError::Fields(e));
        },
    };
    let record = gen_builder(&structure);
    let defaults = mod_block_add_defaults(&structure);
    let macro_decl = gen_macro(&structure);
    Ok(StructSugar { structure, record, defaults, macro_decl })
}

/// The record that is made of the named fields reads back as those fields:
/// none of its fields is refused, and a field has a default exactly if the
/// named field has one.
pub proof fn lemma_record_reads_back(record: ItemStruct, structure: Structure)
    requires
        record.fields@.len() == structure.named@.len(),
        forall|k: int|
            0 <= k < structure.named@.len() ==> (#[trigger] record.fields@[k]).records(
                structure.named@[k],
            ),
    ensures
        crate::derive_builder::spec_first_field_error(record.fields@, record.fields@.len())
            is None,
        forall|k: int|
            0 <= k < record.fields@.len() ==> (spec_field_default(#[trigger] record.fields@[k])
                is Some <==> structure.named@[k].default is Some),
{
    lemma_no_field_error(record, structure, record.fields@.len());
}

proof fn lemma_no_field_error(record: ItemStruct, structure: Structure, m: nat)
    requires
        record.fields@.len() == structure.named@.len(),
        m <= record.fields@.len(),
        forall|k: int|
            0 <= k < structure.named@.len() ==> (#[trigger] record.fields@[k]).records(
                structure.named@[k],
            ),
    ensures
        crate::derive_builder::spec_first_field_error(record.fields@, m) is None,
    decreases m,
{
    if m > 0 {
        lemma_no_field_error(record, structure, (m - 1) as nat);
        let attrs = record.fields@[m - 1].attrs@;
        lemma_plucked_len(attrs, attrs.len());
    }
}

/// No more is plucked than there is.
proof fn lemma_plucked_len(attrs: Seq<Attribute>, m: nat)
    requires
        m <= attrs.len(),
    ensures
        crate::util::spec_mapped(crate::derive_builder::spec_attr_defaults(attrs), m).len() <= m,
    decreases m,
{
    if m > 0 {
        lemma_plucked_len(attrs, (m - 1) as nat);
    }
}

} // verus!
