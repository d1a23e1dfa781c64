//! What is wrapped around a callable besides the builder of its arguments:
//! the defaults that its body fills in, and the macro that calls it with
//! named arguments.

use vstd::prelude::*;
use vstd::string::StringExecFns;
use crate::args::parse_args;
use crate::args::spec_parse_args;
use crate::args::ArgsError;
use crate::args::ArgsView;
use crate::args::Meta;
use crate::builder::create_typesafe_builder;
use crate::builder::spec_builder_error;
use crate::builder::BuilderDecls;
use crate::builder::BuilderError;
use crate::parse_fn::parse_field_decl;
use crate::parse_fn::spec_classify_error;
use crate::parse_fn::ClassifyError;
use crate::parse_fn::ItemFn;
use crate::parse_fn::Field;
use crate::parse_fn::FieldRole;
use crate::parse_fn::Structure;
use crate::ty::Expr;
use crate::util::spec_uppercase;
use crate::util::uppercase;

verus! {

/// A default that the body of the callable fills in: where the argument
/// `name` is `None`, `expr` stands in for it.
#[derive(Debug, PartialEq, Eq)]
pub struct DefaultBinding {
    pub name: String,
    pub expr: Expr,
}

/// The macro that calls a callable with named arguments.
#[derive(Debug, PartialEq, Eq)]
pub struct MacroDecl {
    /// The name of the macro: that of the callable.
    pub name: String,
    /// The record whose builder the macro uses.
    pub record_name: String,
    /// The positional arguments, which the macro takes first and in this
    /// order.
    pub positional: Vec<String>,
    /// The fields of the record that are passed to the callable, in order.
    pub field_names: Vec<String>,
    /// The documentation of the macro.
    pub doc: String,
}

/// The default that the body fills in for a field, if it does for this one.
pub open spec fn spec_binding(field: Field<FieldRole>) -> Option<DefaultBinding> {
    match field.default_expr() {
        Some(expr) => Some(DefaultBinding { name: field.name, expr }),
        None => None,
    }
}

/// The documentation of the macro of the callable `name`.
pub open spec fn spec_doc(name: Seq<char>) -> Seq<char> {
    "Executes ["@ + name + "](fn."@ + name + ".html) with name paramters as appropriate"@
}

/// The defaults that the body of the callable fills in: one for every named
/// field with a default, in declaration order.
pub fn mod_block_add_defaults(structure: &Structure) -> (r: Vec<DefaultBinding>)
    ensures
        r@ == structure.fields@.filter_map(|f: Field<FieldRole>| spec_binding(f)),
{
    let n = structure.fields.len();
    let ghost pick = |f: Field<FieldRole>| spec_binding(f);
    let mut r: Vec<DefaultBinding> = Vec::new();
    let mut j: usize = 0;
    while j < n
        invariant
            n == structure.fields@.len(),
            j <= n,
            pick == |f: Field<FieldRole>| spec_binding(f),
            r@ == structure.fields@.take(j as int).filter_map(pick),
        decreases n - j,
    {
        assert(structure.fields@.take(j + 1).drop_last() =~= structure.fields@.take(j as int));
        let field = &structure.fields[j];
        match field.default_expr() {
            Some(expr) => {
                r.push(DefaultBinding { name: field.name.clone(), expr });
            },
            None => {},
        }
        j += 1;
    }
    assert(structure.fields@.take(n as int) =~= structure.fields@);
    r
}

/// The macro of a callable: it takes the positional arguments first, in
/// order, then the named ones, and passes every field of the record on to
/// the callable.
pub fn gen_macro(structure: &Structure) -> (r: MacroDecl)
    ensures
        r.name == structure.ident,
        r.record_name@ == spec_uppercase(structure.ident@),
        r.positional@ == structure.spec_positional().map_values(|f: Field<FieldRole>| f.name),
        r.field_names@ == structure.spec_names(),
        r.doc@ == spec_doc(structure.ident@),
{
    let mut doc = String::from_str("Executes [");
    doc.append(structure.ident.as_str());
    doc.append("](fn.");
    doc.append(structure.ident.as_str());
    doc.append(".html) with name paramters as appropriate");
    let fields = structure.positional();
    let mut positional: Vec<String> = Vec::new();
    let mut k: usize = 0;
    while k < fields.len()
        invariant
            k <= fields@.len(),
            fields@.len() == structure.spec_positional().len(),
            forall|a: int|
                0 <= a < fields@.len() ==> *(#[trigger] fields@[a])
                    == structure.spec_positional()[a],
            positional@.len() == k,
            forall|a: int| 0 <= a < k ==> positional@[a] == structure.spec_positional()[a].name,
        decreases fields@.len() - k,
    {
        positional.push(fields[k].name.clone());
        k += 1;
    }
    MacroDecl {
        name: structure.ident.clone(),
        record_name: uppercase(structure.ident.as_str()),
        positional,
        field_names: structure.names(),
        doc,
    }
}

/// All that is generated for one callable.
#[derive(Debug, PartialEq, Eq)]
pub struct StructSugar {
    /// The fields of the callable.
    pub structure: Structure,
    /// The builder of its arguments.
    pub builder: BuilderDecls,
    /// The defaults that its body fills in.
    pub defaults: Vec<DefaultBinding>,
    /// The macro that calls it with named arguments.
    pub macro_decl: MacroDecl,
}

/// Why nothing is generated for a callable.
#[derive(PartialEq, Eq, Structural, Clone, Copy, Debug)]
pub enum SugarError {
    /// The annotation cannot be read.
    Args(ArgsError),
    /// The annotation does not fit the parameters.
    Fields(ClassifyError),
    /// The fields have no builder.
    Builder(BuilderError),
}

impl StructSugar {
    /// `self` is what is generated for `fn_item` under an annotation that
    /// says `args`.
    pub open spec fn describes(&self, fn_item: ItemFn, args: ArgsView) -> bool {
        &&& self.structure.classifies(fn_item, args.defaults, args.positional)
        &&& self.builder.describes(self.structure.fields@, true)
        &&& self.builder.record_name@ == spec_uppercase(fn_item.ident@)
        &&& self.builder.builder_name@ == fn_item.ident@ + "Builder"@
        &&& self.defaults@ == self.structure.fields@.filter_map(
            |f: Field<FieldRole>| spec_binding(f),
        )
        &&& self.macro_decl.name == fn_item.ident
        &&& self.macro_decl.record_name@ == spec_uppercase(fn_item.ident@)
        &&& self.macro_decl.positional@ == self.structure.spec_names().take(
            args.positional.len() as int,
        )
        &&& self.macro_decl.field_names@ == self.structure.spec_names()
        &&& self.macro_decl.doc@ == spec_doc(fn_item.ident@)
    }
}

/// All that is generated for a callable: its annotation is read, its
/// parameters are classified, and the builder of its arguments, the
/// defaults of its body and its macro are made. The first of these steps
/// that fails decides the error.
pub fn gen_struct_sugar(args: &Meta, fn_item: &ItemFn) -> (r: Result<StructSugar, SugarError>)
    ensures
        match r {
            Ok(sugar) => {
                &&& spec_parse_args(*args) matches Ok(read) && sugar.describes(*fn_item, read)
                    && spec_classify_error(fn_item.inputs@, read.defaults, read.positional)
                    is None
                &&& spec_builder_error(sugar.structure.fields@, true) is None
            },
            Err(SugarError::Args(e)) => spec_parse_args(*args) == Err::<ArgsView, _>(e),
            Err(SugarError::Fields(e)) => spec_parse_args(*args) matches Ok(read)
                && spec_classify_error(fn_item.inputs@, read.defaults, read.positional) == Some(e),
            Err(SugarError::Builder(e)) => spec_parse_args(*args) matches Ok(read) && exists|
                structure: Structure,
            |
                #[trigger] structure.classifies(*fn_item, read.defaults, read.positional)
                    && spec_builder_error(structure.fields@, true) == Some(e),
        },
{
    let read = match parse_args(args) {
        Ok(read) => read,
        Err(e) => {
            return Err(SugarError::Args(e));
        },
    };
    let structure = match parse_field_decl(&read, fn_item) {
        Ok(structure) => structure,
        Err(e) => {
            return Err(SugarError::Fields(e));
        },
    };
    let builder = match create_typesafe_builder(&structure) {
        Ok(builder) => builder,
        Err(e) => {
            return Err(SugarError::Builder(e));
        },
    };
    let defaults = mod_block_add_defaults(&structure);
    let macro_decl = gen_macro(&structure);
    proof {
        lemma_positional_prefix(structure, *fn_item, read.defaults@, read.positional@);
        assert(macro_decl.positional@ =~= structure.spec_names().take(
            read.positional@.len() as int,
        ));
    }
    Ok(StructSugar { structure, builder, defaults, macro_decl })
}

/// In a classified field list the positional fields are the first ones, as
/// many as there are positional names.
pub proof fn lemma_positional_prefix(
    structure: Structure,
    fn_item: ItemFn,
    defaults: Seq<(String, Expr)>,
    positional: Seq<String>,
)
    requires
        structure.classifies(fn_item, defaults, positional),
        positional.len() <= fn_item.inputs@.len(),
    ensures
        structure.spec_positional().len() == positional.len(),
        structure.spec_positional() == structure.fields@.take(positional.len() as int),
{
    let fields = structure.fields@;
    lemma_positional_upto(structure, fn_item, defaults, positional, fields.len());
    assert(fields.take(fields.len() as int) =~= fields);
}

proof fn lemma_positional_upto(
    structure: Structure,
    fn_item: ItemFn,
    defaults: Seq<(String, Expr)>,
    positional: Seq<String>,
    m: nat,
)
    requires
        structure.classifies(fn_item, defaults, positional),
        positional.len() <= fn_item.inputs@.len(),
        m <= structure.fields@.len(),
    ensures
        structure.fields@.take(m as int).filter(|f: Field<FieldRole>| f.is_positional())
            == structure.fields@.take(
            if m <= positional.len() {
                m as int
            } else {
                positional.len() as int
            },
        ),
    decreases m,
{
    let fields = structure.fields@;
    reveal(Seq::filter);
    if m > 0 {
        lemma_positional_upto(structure, fn_item, defaults, positional, (m - 1) as nat);
        assert(fields.take(m as int).drop_last() =~= fields.take(m - 1));
    }
}

} // verus!
