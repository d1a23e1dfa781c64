//! The field classifier: from the parameters of a callable and its
//! annotation to the classified field list.

use vstd::prelude::*;
use crate::args::has_duplicate;
use crate::args::spec_has_duplicate;
use crate::args::Args;
use crate::ty::spec_get_option_type;
use crate::ty::Expr;
use crate::ty::IsOption;
use crate::ty::OptionTypeError;
use crate::ty::TypeExpr;

verus! {

/// What a named field carries beyond its name and type.
#[derive(Debug, PartialEq, Eq)]
pub struct NamedData {
    /// The expression that stands in where the field is not set.
    pub default: Option<Expr>,
}

/// The role of a field: given by name, or given by position. A positional
/// field has no default.
#[derive(Debug, PartialEq, Eq)]
pub enum FieldRole {
    Named(NamedData),
    Positional,
}

/// One field: a parameter of the callable.
#[derive(Debug, PartialEq, Eq)]
pub struct Field<T> {
    pub name: String,
    /// The type under which the field is stored and passed on. For a
    /// parameter with a default that is the `Option` of its declared type.
    pub ty: TypeExpr,
    pub extra: T,
}

/// The fields of one callable, in declaration order, and the callable's
/// name. In a field list that [`parse_field_decl`] returns, no two fields have
/// the same name, every positional field stands before every named field,
/// and every field with a default is stored as an `Option`.
#[derive(Debug, PartialEq, Eq)]
pub struct Structure {
    pub fields: Vec<Field<FieldRole>>,
    pub ident: String,
}

impl NamedData {
    /// A copy that equals `self`.
    pub fn duplicate(&self) -> (r: NamedData)
        ensures
            r == *self,
    {
        match &self.default {
            None => NamedData { default: None },
            Some(e) => NamedData { default: Some(e.duplicate()) },
        }
    }
}

impl Field<FieldRole> {
    /// Whether the field has a default.
    pub open spec fn spec_has_default(&self) -> bool {
        match self.extra {
            FieldRole::Named(def) => def.default is Some,
            FieldRole::Positional => false,
        }
    }

    /// The default of the field, if it has one.
    pub open spec fn spec_default_expr(&self) -> Option<Expr> {
        match self.extra {
            FieldRole::Named(def) => def.default,
            FieldRole::Positional => None,
        }
    }

    /// Whether the field is given by position.
    pub open spec fn spec_is_positional(&self) -> bool {
        self.extra is Positional
    }

    /// Whether the field has a default.
    #[verifier::when_used_as_spec(spec_has_default)]
    pub fn has_default(&self) -> (r: bool)
        ensures
            r == self.spec_has_default(),
    {
        match &self.extra {
            FieldRole::Named(def) => def.default.is_some(),
            FieldRole::Positional => false,
        }
    }

    /// The default of the field, if it has one.
    #[verifier::when_used_as_spec(spec_default_expr)]
    pub fn default_expr(&self) -> (r: Option<Expr>)
        ensures
            r == self.spec_default_expr(),
    {
        match &self.extra {
            FieldRole::Named(def) => match &def.default {
                Some(e) => Some(e.duplicate()),
                None => None,
            },
            FieldRole::Positional => None,
        }
    }

    /// Whether the field is given by position.
    #[verifier::when_used_as_spec(spec_is_positional)]
    pub fn is_positional(&self) -> (r: bool)
        ensures
            r == self.spec_is_positional(),
    {
        match &self.extra {
            FieldRole::Named(_) => false,
            FieldRole::Positional => true,
        }
    }
}

/// Whether every positional field stands before every named field.
pub open spec fn spec_positional_first(fields: Seq<Field<FieldRole>>) -> bool {
    forall|i: int, j: int|
        0 <= i < j < fields.len() && (#[trigger] fields[j]).is_positional() ==> (
        #[trigger] fields[i]).is_positional()
}

/// Whether every positional field stands before every named field.
pub fn positional_first(fields: &Vec<Field<FieldRole>>) -> (r: bool)
    ensures
        r == spec_positional_first(fields@),
{
    let n = fields.len();
    let mut named: Option<usize> = None;
    let mut j: usize = 0;
    while j < n
        invariant
            n == fields@.len(),
            j <= n,
            match named {
                Some(a) => a < j && !fields@[a as int].is_positional(),
                None => forall|k: int| 0 <= k < j ==> (#[trigger] fields@[k]).is_positional(),
            },
            forall|a: int, b: int|
                0 <= a < b < j && (#[trigger] fields@[b]).is_positional() ==> (
                #[trigger] fields@[a]).is_positional(),
        decreases n - j,
    {
        if fields[j].is_positional() {
            if named.is_some() {
                return false;
            }
        } else if named.is_none() {
            named = Some(j);
        }
        j += 1;
    }
    true
}

/// Whether no two fields have the same name.
pub open spec fn spec_distinct_names(fields: Seq<Field<FieldRole>>) -> bool {
    forall|i: int, j: int|
        0 <= i < j < fields.len() ==> (#[trigger] fields[i]).name@ != (#[trigger] fields[j]).name@
}

/// Whether no two fields have the same name.
pub fn distinct_names(fields: &Vec<Field<FieldRole>>) -> (r: bool)
    ensures
        r == spec_distinct_names(fields@),
{
    let n = fields.len();
    let mut j: usize = 0;
    while j < n
        invariant
            n == fields@.len(),
            j <= n,
            forall|a: int, b: int|
                0 <= a < b < j ==> (#[trigger] fields@[a]).name@ != (#[trigger] fields@[b]).name@,
        decreases n - j,
    {
        let mut i: usize = 0;
        while i < j
            invariant
                n == fields@.len(),
                j < n,
                i <= j,
                forall|a: int|
                    0 <= a < i ==> (#[trigger] fields@[a]).name@ != fields@[j as int].name@,
            decreases j - i,
        {
            if fields[i].name == fields[j].name {
                return false;
            }
            i += 1;
        }
        j += 1;
    }
    true
}

/// Whether every field with a default is stored as an `Option`.
pub open spec fn spec_defaults_optional(fields: Seq<Field<FieldRole>>) -> bool {
    forall|i: int|
        0 <= i < fields.len() && (#[trigger] fields[i]).has_default() ==> spec_get_option_type(
            fields[i].ty,
        ) matches Ok(IsOption::True(_))
}

/// Whether every field with a default is stored as an `Option`.
pub fn defaults_optional(fields: &Vec<Field<FieldRole>>) -> (r: bool)
    ensures
        r == spec_defaults_optional(fields@),
{
    let n = fields.len();
    let mut j: usize = 0;
    while j < n
        invariant
            n == fields@.len(),
            j <= n,
            forall|i: int|
                0 <= i < j && (#[trigger] fields@[i]).has_default() ==> spec_get_option_type(
                    fields@[i].ty,
                ) matches Ok(IsOption::True(_)),
        decreases n - j,
    {
        if fields[j].has_default() {
            match crate::ty::get_option_type(fields[j].ty.duplicate()) {
                Ok(IsOption::True(_)) => {},
                _ => {
                    return false;
                },
            }
        }
        j += 1;
    }
    true
}

impl Structure {
    /// No two fields have the same name, every positional field stands
    /// before every named field, and every field with a default is stored as
    /// an `Option`.
    pub open spec fn wf(&self) -> bool {
        &&& spec_distinct_names(self.fields@)
        &&& spec_positional_first(self.fields@)
        &&& spec_defaults_optional(self.fields@)
    }

    /// The names of the fields, in declaration order.
    pub open spec fn spec_names(&self) -> Seq<String> {
        Seq::new(self.fields@.len(), |i: int| self.fields@[i].name)
    }

    /// The types of the fields, in declaration order.
    pub open spec fn spec_types(&self) -> Seq<TypeExpr> {
        Seq::new(self.fields@.len(), |i: int| self.fields@[i].ty)
    }

    /// The positional fields, in declaration order.
    pub open spec fn spec_positional(&self) -> Seq<Field<FieldRole>> {
        self.fields@.filter(|f: Field<FieldRole>| f.is_positional())
    }

    /// The named fields, in declaration order, each with what it carries as
    /// a named field.
    pub open spec fn spec_named(&self) -> Seq<Field<NamedData>> {
        self.fields@.filter_map(
            |f: Field<FieldRole>|
                match f.extra {
                    FieldRole::Positional => None,
                    FieldRole::Named(def) => Some(Field { name: f.name, ty: f.ty, extra: def }),
                },
        )
    }

    /// Whether no two fields have the same name, every positional field
    /// stands before every named field, and every field with a default is
    /// stored as an `Option`.
    pub fn is_wf(&self) -> (r: bool)
        ensures
            r == self.wf(),
    {
        distinct_names(&self.fields) && positional_first(&self.fields) && defaults_optional(
            &self.fields,
        )
    }

    /// The names of the fields, in declaration order.
    pub fn names(&self) -> (r: Vec<String>)
        ensures
            r@ == self.spec_names(),
    {
        let n = self.fields.len();
        let mut r: Vec<String> = Vec::new();
        let mut j: usize = 0;
        while j < n
            invariant
                n == self.fields@.len(),
                j <= n,
                r@.len() == j,
                forall|k: int| 0 <= k < j ==> r@[k] == self.fields@[k].name,
            decreases n - j,
        {
            r.push(self.fields[j].name.clone());
            j += 1;
        }
        r
    }

    /// The types of the fields, in declaration order.
    pub fn types(&self) -> (r: Vec<TypeExpr>)
        ensures
            r@ == self.spec_types(),
    {
        let n = self.fields.len();
        let mut r: Vec<TypeExpr> = Vec::new();
        let mut j: usize = 0;
        while j < n
            invariant
                n == self.fields@.len(),
                j <= n,
                r@.len() == j,
                forall|k: int| 0 <= k < j ==> r@[k] == self.fields@[k].ty,
            decreases n - j,
        {
            r.push(self.fields[j].ty.duplicate());
            j += 1;
        }
        r
    }

    /// The positional fields, in declaration order.
    pub fn positional(&self) -> (r: Vec<&Field<FieldRole>>)
        ensures
            r@.len() == self.spec_positional().len(),
            forall|k: int| 0 <= k < r@.len() ==> *(#[trigger] r@[k]) == self.spec_positional()[k],
    {
        let n = self.fields.len();
        let ghost pred = |f: Field<FieldRole>| f.is_positional();
        let mut r: Vec<&Field<FieldRole>> = Vec::new();
        let mut j: usize = 0;
        proof {
            reveal(Seq::filter);
        }
        while j < n
            invariant
                n == self.fields@.len(),
                j <= n,
                pred == |f: Field<FieldRole>| f.is_positional(),
                r@.len() == self.fields@.take(j as int).filter(pred).len(),
                forall|k: int|
                    0 <= k < r@.len() ==> *(#[trigger] r@[k]) == self.fields@.take(
                        j as int,
                    ).filter(pred)[k],
            decreases n - j,
        {
            proof {
                reveal(Seq::filter);
                assert(self.fields@.take(j + 1).drop_last() =~= self.fields@.take(j as int));
            }
            if self.fields[j].is_positional() {
                r.push(&self.fields[j]);
            }
            j += 1;
        }
        assert(self.fields@.take(n as int) =~= self.fields@);
        r
    }

    /// The named fields, in declaration order, each with what it carries as
    /// a named field.
    pub fn named(&self) -> (r: Vec<Field<NamedData>>)
        ensures
            r@ == self.spec_named(),
    {
        let n = self.fields.len();
        let ghost convert = |f: Field<FieldRole>|
            match f.extra {
                FieldRole::Positional => None,
                FieldRole::Named(def) => Some(Field { name: f.name, ty: f.ty, extra: def }),
            };
        let mut r: Vec<Field<NamedData>> = Vec::new();
        let mut j: usize = 0;
        while j < n
            invariant
                n == self.fields@.len(),
                j <= n,
                convert == |f: Field<FieldRole>|
                    match f.extra {
                        FieldRole::Positional => None,
                        FieldRole::Named(def) => Some(Field { name: f.name, ty: f.ty, extra: def }),
                    },
                r@ == self.fields@.take(j as int).filter_map(convert),
            decreases n - j,
        {
            assert(self.fields@.take(j + 1).drop_last() =~= self.fields@.take(j as int));
            let v = &self.fields[j];
            match &v.extra {
                FieldRole::Positional => {},
                FieldRole::Named(def) => {
                    r.push(
                        Field {
                            name: v.name.clone(),
                            ty: v.ty.duplicate(),
                            extra: def.duplicate(),
                        },
                    );
                },
            }
            j += 1;
        }
        assert(self.fields@.take(n as int) =~= self.fields@);
        r
    }
}

/// A pattern that binds a variable: `ref mut ident @ subpattern`.
#[derive(Debug, PartialEq, Eq)]
pub struct PatIdent {
    /// Whether `ref` stands before the identifier.
    pub by_ref: bool,
    /// Whether `mut` stands before the identifier.
    pub mutability: bool,
    pub ident: String,
    /// Whether a subpattern follows the identifier.
    pub subpat: bool,
}

/// The pattern of a parameter.
#[derive(Debug, PartialEq, Eq)]
pub enum Pat {
    Ident(PatIdent),
    /// Any other pattern: a tuple, a struct, a wildcard, ...
    Other,
}

/// A parameter with a pattern and a type.
#[derive(Debug, PartialEq, Eq)]
pub struct ArgCaptured {
    pub pat: Pat,
    pub ty: TypeExpr,
}

/// A parameter of a callable.
#[derive(Debug, PartialEq, Eq)]
pub enum FnArg {
    Captured(ArgCaptured),
    /// A receiver, or a parameter without a pattern or without a type.
    Other,
}

/// The declaration of a callable: its name and its parameters.
#[derive(Debug, PartialEq, Eq)]
pub struct ItemFn {
    pub ident: String,
    pub inputs: Vec<FnArg>,
}

/// A parameter with its default, before the positional list has been
/// checked against it.
#[derive(Debug, PartialEq, Eq)]
pub struct UnvalidatedField {
    pub name: String,
    pub ty: TypeExpr,
    pub default: Option<Expr>,
}

/// Why no field list can be made of a declaration and its annotation.
#[derive(PartialEq, Eq, Structural, Clone, Copy, Debug)]
pub enum ClassifyError {
    /// A parameter is a receiver or lacks a pattern or a type.
    UnsupportedArgument,
    /// The pattern of a parameter is not an identifier.
    NonIdentPattern,
    /// A parameter is bound by `ref`.
    ByRef,
    /// A parameter is bound by `mut`.
    Mutable,
    /// A parameter has a subpattern.
    Subpattern,
    /// Two parameters have the same name.
    DuplicateParameter,
    /// Two defaults are given for one name.
    DuplicateDefault,
    /// A default is given for a name that no parameter has.
    UnknownDefault,
    /// More positional names are given than there are parameters.
    TooManyPositionals,
    /// A positional name is not the name of the parameter at its place.
    PositionalOrder,
    /// A positional parameter has a default.
    PositionalWithDefault,
}

/// What is wrong with the shape of one parameter, if anything is.
pub open spec fn spec_param_error(arg: FnArg) -> Option<ClassifyError> {
    match arg {
        FnArg::Other => Some(ClassifyError::UnsupportedArgument),
        FnArg::Captured(captured) => match captured.pat {
            Pat::Other => Some(ClassifyError::NonIdentPattern),
            Pat::Ident(pat) => if pat.by_ref {
                Some(ClassifyError::ByRef)
            } else if pat.mutability {
                Some(ClassifyError::Mutable)
            } else if pat.subpat {
                Some(ClassifyError::Subpattern)
            } else {
                None
            },
        },
    }
}

/// The name of a parameter whose pattern is an identifier.
pub open spec fn spec_param_name(arg: FnArg) -> String {
    match arg {
        FnArg::Captured(ArgCaptured { pat: Pat::Ident(pat), .. }) => pat.ident,
        _ => arbitrary(),
    }
}

/// The declared type of a parameter.
pub open spec fn spec_param_type(arg: FnArg) -> TypeExpr {
    match arg {
        FnArg::Captured(captured) => captured.ty,
        _ => arbitrary(),
    }
}

/// What is wrong with the first of the first `n` parameters with which
/// something is wrong.
pub open spec fn spec_first_param_error(inputs: Seq<FnArg>, n: nat) -> Option<ClassifyError>
    decreases n,
{
    if n == 0 {
        None
    } else {
        match spec_first_param_error(inputs, (n - 1) as nat) {
            Some(e) => Some(e),
            None => spec_param_error(inputs[n - 1]),
        }
    }
}

/// The index of the first of the first `n` defaults that is given for
/// `name`.
pub open spec fn spec_find_default(defaults: Seq<(String, Expr)>, name: Seq<char>, n: nat)
    -> Option<int>
    decreases n,
{
    if n == 0 {
        None
    } else {
        match spec_find_default(defaults, name, (n - 1) as nat) {
            Some(i) => Some(i),
            None => if defaults[n - 1].0@ == name {
                Some(n - 1)
            } else {
                None
            },
        }
    }
}

/// The default that is given for `name`, if there is one.
pub open spec fn spec_default_of(defaults: Seq<(String, Expr)>, name: Seq<char>) -> Option<Expr> {
    match spec_find_default(defaults, name, defaults.len()) {
        Some(i) => Some(defaults[i].1),
        None => None,
    }
}

/// `wrapped` is the type `Option<inner>`.
pub open spec fn spec_is_option_of(wrapped: TypeExpr, inner: TypeExpr) -> bool {
    &&& wrapped.tokens@ == TypeExpr::spec_option_tokens(inner.tokens@)
    &&& spec_get_option_type(wrapped) == Ok::<IsOption, OptionTypeError>(
        IsOption::True(inner.tokens),
    )
}

impl UnvalidatedField {
    /// `self` is what `arg` becomes under `defaults`: it keeps its name; where
    /// a default is given for it, it carries that default and its type is
    /// wrapped in `Option`.
    pub open spec fn describes(&self, arg: FnArg, defaults: Seq<(String, Expr)>) -> bool {
        &&& self.name == spec_param_name(arg)
        &&& self.default == spec_default_of(defaults, spec_param_name(arg)@)
        &&& if self.default is Some {
            spec_is_option_of(self.ty, spec_param_type(arg))
        } else {
            self.ty == spec_param_type(arg)
        }
    }
}

/// Whether two parameters have the same name.
pub open spec fn spec_has_duplicate_param(inputs: Seq<FnArg>) -> bool {
    exists|i: int, j: int|
        0 <= i < j < inputs.len() && spec_param_name(#[trigger] inputs[i])@ == spec_param_name(
            #[trigger] inputs[j],
        )@
}

/// Whether one of the parameters is named `name`.
pub open spec fn spec_has_param(inputs: Seq<FnArg>, name: Seq<char>) -> bool {
    exists|k: int| 0 <= k < inputs.len() && spec_param_name(#[trigger] inputs[k])@ == name
}

/// Whether a default is given for a name that no parameter has.
pub open spec fn spec_has_unknown(defaults: Seq<(String, Expr)>, inputs: Seq<FnArg>) -> bool {
    exists|i: int| 0 <= i < defaults.len() && !spec_has_param(inputs, (#[trigger] defaults[i]).0@)
}

/// What is wrong with the positional name at index `k`, if anything is: it
/// must be the name of the parameter at that index, and that parameter must
/// not have a default.
pub open spec fn spec_positional_error(
    inputs: Seq<FnArg>,
    defaults: Seq<(String, Expr)>,
    positional: Seq<String>,
    k: int,
) -> Option<ClassifyError> {
    if positional[k]@ != spec_param_name(inputs[k])@ {
        Some(ClassifyError::PositionalOrder)
    } else if spec_default_of(defaults, positional[k]@) is Some {
        Some(ClassifyError::PositionalWithDefault)
    } else {
        None
    }
}

/// What is wrong with the first of the first `n` positional names with
/// which something is wrong.
pub open spec fn spec_first_positional_error(
    inputs: Seq<FnArg>,
    defaults: Seq<(String, Expr)>,
    positional: Seq<String>,
    n: nat,
) -> Option<ClassifyError>
    decreases n,
{
    if n == 0 {
        None
    } else {
        match spec_first_positional_error(inputs, defaults, positional, (n - 1) as nat) {
            Some(e) => Some(e),
            None => spec_positional_error(inputs, defaults, positional, n - 1),
        }
    }
}

/// Why a declaration and an annotation are rejected, if they are. The shape
/// of the parameters is looked at first, then their names, then the
/// defaults, then the positional names.
pub open spec fn spec_classify_error(
    inputs: Seq<FnArg>,
    defaults: Seq<(String, Expr)>,
    positional: Seq<String>,
) -> Option<ClassifyError> {
    match spec_first_param_error(inputs, inputs.len()) {
        Some(e) => Some(e),
        None => if spec_has_duplicate_param(inputs) {
            Some(ClassifyError::DuplicateParameter)
        } else if spec_has_duplicate(defaults) {
            Some(ClassifyError::DuplicateDefault)
        } else if spec_has_unknown(defaults, inputs) {
            Some(ClassifyError::UnknownDefault)
        } else if positional.len() > inputs.len() {
            Some(ClassifyError::TooManyPositionals)
        } else {
            spec_first_positional_error(inputs, defaults, positional, positional.len())
        },
    }
}

/// `field` is the classified form of the parameter at index `k`: positional
/// if `k` lies within the positional names, named otherwise.
pub open spec fn spec_classified(
    field: Field<FieldRole>,
    arg: FnArg,
    defaults: Seq<(String, Expr)>,
    positional: Seq<String>,
    k: int,
) -> bool {
    &&& field.name == spec_param_name(arg)
    &&& if k < positional.len() {
        &&& field.extra is Positional
        &&& field.ty == spec_param_type(arg)
    } else {
        &&& field.extra == FieldRole::Named(
            NamedData { default: spec_default_of(defaults, spec_param_name(arg)@) },
        )
        &&& if field.has_default() {
            spec_is_option_of(field.ty, spec_param_type(arg))
        } else {
            field.ty == spec_param_type(arg)
        }
    }
}

impl Structure {
    /// `self` is the field list of `fn_item` under an annotation with these
    /// defaults and positional names.
    pub open spec fn classifies(
        &self,
        fn_item: ItemFn,
        defaults: Seq<(String, Expr)>,
        positional: Seq<String>,
    ) -> bool {
        &&& self.ident == fn_item.ident
        &&& self.fields@.len() == fn_item.inputs@.len()
        &&& forall|k: int|
            0 <= k < self.fields@.len() ==> spec_classified(
                #[trigger] self.fields@[k],
                fn_item.inputs@[k],
                defaults,
                positional,
                k,
            )
    }
}

proof fn lemma_param_error_stays(inputs: Seq<FnArg>, n: nat, m: nat)
    requires
        n <= m,
        spec_first_param_error(inputs, n) is Some,
    ensures
        spec_first_param_error(inputs, m) == spec_first_param_error(inputs, n),
    decreases m,
{
    if n < m {
        lemma_param_error_stays(inputs, n, (m - 1) as nat);
    }
}

proof fn lemma_positional_error_stays(
    inputs: Seq<FnArg>,
    defaults: Seq<(String, Expr)>,
    positional: Seq<String>,
    n: nat,
    m: nat,
)
    requires
        n <= m,
        spec_first_positional_error(inputs, defaults, positional, n) is Some,
    ensures
        spec_first_positional_error(inputs, defaults, positional, m)
            == spec_first_positional_error(inputs, defaults, positional, n),
    decreases m,
{
    if n < m {
        lemma_positional_error_stays(inputs, defaults, positional, n, (m - 1) as nat);
    }
}

proof fn lemma_find_default_stays(defaults: Seq<(String, Expr)>, name: Seq<char>, n: nat, m: nat)
    requires
        n <= m,
        spec_find_default(defaults, name, n) is Some,
    ensures
        spec_find_default(defaults, name, m) == spec_find_default(defaults, name, n),
    decreases m,
{
    if n < m {
        lemma_find_default_stays(defaults, name, n, (m - 1) as nat);
    }
}

/// The index of the first default that is given for `name`.
pub fn find_default(defaults: &Vec<(String, Expr)>, name: &String) -> (r: Option<usize>)
    ensures
        match r {
            Some(i) => spec_find_default(defaults@, name@, defaults@.len()) == Some(i as int)
                && i < defaults@.len(),
            None => spec_find_default(defaults@, name@, defaults@.len()) is None,
        },
{
    let n = defaults.len();
    let mut j: usize = 0;
    while j < n
        invariant
            n == defaults@.len(),
            j <= n,
            spec_find_default(defaults@, name@, j as nat) is None,
        decreases n - j,
    {
        if defaults[j].0 == *name {
            proof {
                lemma_find_default_stays(defaults@, name@, (j + 1) as nat, n as nat);
            }
            return Some(j);
        }
        j += 1;
    }
    None
}

/// The parameters with their defaults: each keeps its name, and one with a
/// default has its type wrapped in `Option`. The first parameter that is
/// not a plain identifier with a type decides the error.
pub fn parse_fields(args: &Vec<FnArg>, defaults: &Vec<(String, Expr)>) -> (r: Result<
    Vec<UnvalidatedField>,
    ClassifyError,
>)
    ensures
        match r {
            Ok(fields) => {
                &&& spec_first_param_error(args@, args@.len()) is None
                &&& fields@.len() == args@.len()
                &&& forall|k: int|
                    0 <= k < args@.len() ==> (#[trigger] fields@[k]).describes(
                        args@[k],
                        defaults@,
                    )
            },
            Err(e) => spec_first_param_error(args@, args@.len()) == Some(e),
        },
{
    let n = args.len();
    let mut fields: Vec<UnvalidatedField> = Vec::new();
    let mut j: usize = 0;
    while j < n
        invariant
            n == args@.len(),
            j <= n,
            spec_first_param_error(args@, j as nat) is None,
            fields@.len() == j,
            forall|k: int|
                0 <= k < j ==> (#[trigger] fields@[k]).describes(args@[k], defaults@),
        decreases n - j,
    {
        proof {
            if spec_param_error(args@[j as int]) is Some {
                lemma_param_error_stays(args@, (j + 1) as nat, n as nat);
            }
        }
        let captured = match &args[j] {
            FnArg::Other => {
                return Err(ClassifyError::UnsupportedArgument);
            },
            FnArg::Captured(captured) => captured,
        };
        let pat = match &captured.pat {
            Pat::Other => {
                return Err(ClassifyError::NonIdentPattern);
            },
            Pat::Ident(pat) => pat,
        };
        if pat.by_ref {
            return Err(ClassifyError::ByRef);
        }
        if pat.mutability {
            return Err(ClassifyError::Mutable);
        }
        if pat.subpat {
            return Err(ClassifyError::Subpattern);
        }
        let field = match find_default(defaults, &pat.ident) {
            Some(i) => UnvalidatedField {
                name: pat.ident.clone(),
                ty: TypeExpr::option_of(&captured.ty),
                default: Some(defaults[i].1.duplicate()),
            },
            None => UnvalidatedField {
                name: pat.ident.clone(),
                ty: captured.ty.duplicate(),
                default: None,
            },
        };
        fields.push(field);
        j += 1;
    }
    Ok(fields)
}

/// Whether two of `fields` have the same name.
fn has_duplicate_field(fields: &Vec<UnvalidatedField>) -> (r: bool)
    ensures
        r == exists|i: int, j: int|
            0 <= i < j < fields@.len() && (#[trigger] fields@[i]).name@ == (
            #[trigger] fields@[j]).name@,
{
    let n = fields.len();
    let mut j: usize = 0;
    while j < n
        invariant
            n == fields@.len(),
            j <= n,
            forall|a: int, b: int|
                0 <= a < b < j ==> (#[trigger] fields@[a]).name@ != (#[trigger] fields@[b]).name@,
        decreases n - j,
    {
        let mut i: usize = 0;
        while i < j
            invariant
                n == fields@.len(),
                j < n,
                i <= j,
                forall|a: int|
                    0 <= a < i ==> (#[trigger] fields@[a]).name@ != fields@[j as int].name@,
            decreases j - i,
        {
            if fields[i].name == fields[j].name {
                return true;
            }
            i += 1;
        }
        j += 1;
    }
    false
}

/// Whether one of `fields` is named `name`.
fn has_field(fields: &Vec<UnvalidatedField>, name: &String) -> (r: bool)
    ensures
        r == exists|k: int| 0 <= k < fields@.len() && (#[trigger] fields@[k]).name@ == name@,
{
    let n = fields.len();
    let mut k: usize = 0;
    while k < n
        invariant
            n == fields@.len(),
            k <= n,
            forall|a: int| 0 <= a < k ==> (#[trigger] fields@[a]).name@ != name@,
        decreases n - k,
    {
        if fields[k].name == *name {
            return true;
        }
        k += 1;
    }
    false
}

/// Whether a default is given for a name that none of `fields` has.
fn has_unknown(
    defaults: &Vec<(String, Expr)>,
    fields: &Vec<UnvalidatedField>,
    Ghost(inputs): Ghost<Seq<FnArg>>,
) -> (r: bool)
    requires
        fields@.len() == inputs.len(),
        forall|k: int|
            0 <= k < inputs.len() ==> (#[trigger] fields@[k]).name == spec_param_name(inputs[k]),
    ensures
        r == spec_has_unknown(defaults@, inputs),
{
    let n = defaults.len();
    let mut i: usize = 0;
    while i < n
        invariant
            n == defaults@.len(),
            i <= n,
            fields@.len() == inputs.len(),
            forall|k: int|
                0 <= k < inputs.len() ==> (#[trigger] fields@[k]).name == spec_param_name(
                    inputs[k],
                ),
            forall|a: int| 0 <= a < i ==> spec_has_param(inputs, (#[trigger] defaults@[a]).0@),
        decreases n - i,
    {
        let known = has_field(fields, &defaults[i].0);
        proof {
            let name = defaults@[i as int].0@;
            if spec_has_param(inputs, name) {
                let k = choose|k: int|
                    0 <= k < inputs.len() && spec_param_name(#[trigger] inputs[k])@ == name;
                assert(fields@[k].name@ == name);
            }
        }
        if !known {
            return true;
        }
        i += 1;
    }
    false
}

/// The field list of a callable.
///
/// The positional names must be the names of the first parameters, in
/// order; those parameters become positional fields and may have no
/// default. All other parameters become named fields, each with the default
/// that is given for it. A default for a name that no parameter has, and two
/// defaults for one name, are rejected.
pub fn parse_field_decl(args: &Args, fn_item: &ItemFn) -> (r: Result<Structure, ClassifyError>)
    ensures
        match r {
            Ok(structure) => {
                &&& spec_classify_error(fn_item.inputs@, args.defaults@, args.positional@) is None
                &&& structure.classifies(*fn_item, args.defaults@, args.positional@)
                &&& structure.wf()
            },
            Err(e) => spec_classify_error(fn_item.inputs@, args.defaults@, args.positional@)
                == Some(e),
        },
{
    let unvalidated_fields = match parse_fields(&fn_item.inputs, &args.defaults) {
        Ok(fields) => fields,
        Err(e) => {
            return Err(e);
        },
    };
    let doubled = has_duplicate_field(&unvalidated_fields);
    proof {
        let inputs = fn_item.inputs@;
        let fields = unvalidated_fields@;
        if doubled {
            let (i, j) = choose|i: int, j: int|
                0 <= i < j < fields.len() && (#[trigger] fields[i]).name@ == (
                #[trigger] fields[j]).name@;
            assert(spec_param_name(inputs[i])@ == spec_param_name(inputs[j])@);
        }
        if spec_has_duplicate_param(inputs) {
            let (i, j) = choose|i: int, j: int|
                0 <= i < j < inputs.len() && spec_param_name(#[trigger] inputs[i])@
                    == spec_param_name(#[trigger] inputs[j])@;
            assert(fields[i].name@ == fields[j].name@);
        }
    }
    if doubled {
        return Err(ClassifyError::DuplicateParameter);
    }
    if has_duplicate(&args.defaults) {
        return Err(ClassifyError::DuplicateDefault);
    }
    if has_unknown(&args.defaults, &unvalidated_fields, Ghost(fn_item.inputs@)) {
        return Err(ClassifyError::UnknownDefault);
    }
    let n = unvalidated_fields.len();
    let p = args.positional.len();
    if p > n {
        return Err(ClassifyError::TooManyPositionals);
    }
    let mut fields: Vec<Field<FieldRole>> = Vec::new();
    let mut k: usize = 0;
    while k < n
        invariant
            n == unvalidated_fields@.len(),
            n == fn_item.inputs@.len(),
            p == args.positional@.len(),
            p <= n,
            k <= n,
            spec_first_param_error(fn_item.inputs@, n as nat) is None,
            !spec_has_duplicate_param(fn_item.inputs@),
            !spec_has_duplicate(args.defaults@),
            !spec_has_unknown(args.defaults@, fn_item.inputs@),
            forall|a: int|
                0 <= a < n ==> (#[trigger] unvalidated_fields@[a]).describes(
                    fn_item.inputs@[a],
                    args.defaults@,
                ),
            spec_first_positional_error(
                fn_item.inputs@,
                args.defaults@,
                args.positional@,
                (if k < p {
                    k
                } else {
                    p
                }) as nat,
            ) is None,
            fields@.len() == k,
            forall|a: int|
                0 <= a < k ==> spec_classified(
                    #[trigger] fields@[a],
                    fn_item.inputs@[a],
                    args.defaults@,
                    args.positional@,
                    a,
                ),
        decreases n - k,
    {
        let unvalidated = &unvalidated_fields[k];
        if k < p {
            proof {
                if spec_positional_error(
                    fn_item.inputs@,
                    args.defaults@,
                    args.positional@,
                    k as int,
                ) is Some {
                    lemma_positional_error_stays(
                        fn_item.inputs@,
                        args.defaults@,
                        args.positional@,
                        (k + 1) as nat,
                        p as nat,
                    );
                }
            }
            if unvalidated.name != args.positional[k] {
                return Err(ClassifyError::PositionalOrder);
            }
            if unvalidated.default.is_some() {
                return Err(ClassifyError::PositionalWithDefault);
            }
            fields.push(
                Field {
                    name: unvalidated.name.clone(),
                    ty: unvalidated.ty.duplicate(),
                    extra: FieldRole::Positional,
                },
            );
        } else {
            let default = match &unvalidated.default {
                Some(e) => Some(e.duplicate()),
                None => None,
            };
            fields.push(
                Field {
                    name: unvalidated.name.clone(),
                    ty: unvalidated.ty.duplicate(),
                    extra: FieldRole::Named(NamedData { default }),
                },
            );
        }
        k += 1;
    }
    let structure = Structure { fields, ident: fn_item.ident.clone() };
    Ok(structure)
}

} // verus!
