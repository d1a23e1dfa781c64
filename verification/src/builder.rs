//! The synthesizer: from a classified field list to the declarations of its
//! typestate builder.
//!
//! The builder type has one generic slot per field. A slot holds the marker
//! until the field is set and the field's type afterwards. Every setter is
//! generic over all slots it does not care about, so the number of
//! declarations grows with the number of fields, not with the number of
//! builder states.

use vstd::prelude::*;
use vstd::string::StringExecFns;
use crate::parse_fn::distinct_names;
use crate::parse_fn::positional_first;
use crate::parse_fn::spec_distinct_names;
use crate::parse_fn::spec_positional_first;
use crate::parse_fn::Field;
use crate::parse_fn::FieldRole;
use crate::parse_fn::Structure;
use crate::ty::get_option_type;
use crate::ty::spec_get_option_type;
use crate::ty::Expr;
use crate::ty::IsOption;
use crate::ty::OptionTypeError;
use crate::ty::TypeExpr;
use crate::util::spec_uppercase;
use crate::util::uppercase;

verus! {

/// What stands in one generic slot of the builder type.
#[derive(Debug, PartialEq, Eq)]
pub enum Slot {
    /// The slot's own type parameter, which is named like the field.
    Generic(String),
    /// The field's type: the slot holds a value.
    Concrete(TypeExpr),
    /// The marker type: the slot holds no value yet.
    Marker,
}

/// What the constructor puts into one slot.
#[derive(Debug, PartialEq, Eq)]
pub enum SlotInit {
    /// The marker value.
    Marker,
    /// The default expression as it stands.
    Value(Expr),
    /// The default expression wrapped in `Some`.
    Wrapped(Expr),
}

/// Where a setter takes the value of one slot of the builder it returns.
#[derive(Debug, PartialEq, Eq)]
pub enum Assignment {
    /// From the setter's argument.
    Value,
    /// From the field of that name of the builder it was called on.
    Carried(String),
}

/// One field of the record type.
#[derive(Debug, PartialEq, Eq)]
pub struct RecordField {
    pub name: String,
    /// The type under which the field is stored, which is also the type of
    /// its slot once it is set.
    pub ty: TypeExpr,
}

/// The constructor of the builder.
#[derive(Debug, PartialEq, Eq)]
pub struct Constructor {
    /// The instantiation it is declared on: the marker in every slot.
    pub self_type: Vec<Slot>,
    /// The instantiation it returns.
    pub return_type: Vec<Slot>,
    /// The initial value of every slot.
    pub values: Vec<SlotInit>,
}

/// The setter of one field.
#[derive(Debug, PartialEq, Eq)]
pub struct Setter {
    /// The index of the field that it sets.
    pub index: usize,
    /// The name of the operation.
    pub name: String,
    /// The type parameters of the declaration.
    pub generics: Vec<String>,
    /// The instantiation it can be called on.
    pub self_type: Vec<Slot>,
    /// The instantiation it returns.
    pub return_type: Vec<Slot>,
    /// The type of the value that is stored.
    pub value_type: TypeExpr,
    /// Whether the argument may be either the bare or the optional form of
    /// the wrapped type.
    pub coercion: IsOption,
    /// Where every slot of the returned builder gets its value.
    pub assignments: Vec<Assignment>,
}

/// The operation that turns a complete builder into the record.
#[derive(Debug, PartialEq, Eq)]
pub struct Build {
    /// The one instantiation it is declared on.
    pub self_type: Vec<Slot>,
    /// The fields that are copied, in declaration order.
    pub fields: Vec<String>,
}

/// All declarations of one builder.
#[derive(Debug, PartialEq, Eq)]
pub struct BuilderDecls {
    pub record_name: String,
    pub record_fields: Vec<RecordField>,
    pub builder_name: String,
    /// The names of the generic slots of the builder type.
    pub slots: Vec<String>,
    pub constructor: Constructor,
    pub setters: Vec<Setter>,
    pub build: Build,
}

/// Why no builder can be synthesized for a field list.
#[derive(PartialEq, Eq, Structural, Clone, Copy, Debug)]
pub enum BuilderError {
    /// A positional field stands after a named field.
    PositionalAfterNamed,
    /// Two fields have the same name.
    DuplicateField,
    /// The type of the field at this index starts with `Option` but does not
    /// wrap a type.
    UnsupportedOption(usize, OptionTypeError),
    /// The field at this index has a default, which is stored wrapped in
    /// `Some`, but its type is no `Option`.
    DefaultNotOptional(usize),
}

/// The slot `j` of the instantiation that the setter of field `i` is
/// declared on.
pub open spec fn spec_self_slot(fields: Seq<Field<FieldRole>>, i: int, j: int) -> Slot {
    if j == i {
        if fields[i].has_default() {
            Slot::Generic(fields[i].name)
        } else {
            Slot::Marker
        }
    } else if fields[i].is_positional() && fields[j].is_positional() && j < i {
        Slot::Concrete(fields[j].ty)
    } else {
        Slot::Generic(fields[j].name)
    }
}

/// The instantiation that the setter of field `i` is declared on.
pub open spec fn spec_self_type(fields: Seq<Field<FieldRole>>, i: int) -> Seq<Slot> {
    Seq::new(fields.len(), |j: int| spec_self_slot(fields, i, j))
}

/// The instantiation that the setter of field `i` returns: the one it is
/// declared on, with slot `i` now holding the field's type.
pub open spec fn spec_return_type(fields: Seq<Field<FieldRole>>, i: int) -> Seq<Slot> {
    spec_self_type(fields, i).update(i, Slot::Concrete(fields[i].ty))
}

/// The names of the fields, in declaration order.
pub open spec fn spec_field_names(fields: Seq<Field<FieldRole>>) -> Seq<String> {
    Seq::new(fields.len(), |j: int| fields[j].name)
}

/// The type parameters of the setter of field `i`: for a positional field
/// the slots after it, for a named field without a default all slots but
/// its own, for a named field with a default all slots.
pub open spec fn spec_generics(fields: Seq<Field<FieldRole>>, i: int) -> Seq<String> {
    if fields[i].is_positional() {
        spec_field_names(fields).skip(i + 1)
    } else if fields[i].has_default() {
        spec_field_names(fields)
    } else {
        spec_field_names(fields).remove(i)
    }
}

/// Where the builder that the setter of field `i` returns takes its values.
pub open spec fn spec_assignments(fields: Seq<Field<FieldRole>>, i: int) -> Seq<Assignment> {
    Seq::new(
        fields.len(),
        |j: int|
            if j == i {
                Assignment::Value
            } else {
                Assignment::Carried(fields[j].name)
            },
    )
}

/// The instantiation that the constructor returns: the field's type where
/// the field has a default, the marker elsewhere.
pub open spec fn spec_initial_type(fields: Seq<Field<FieldRole>>) -> Seq<Slot> {
    Seq::new(
        fields.len(),
        |j: int|
            if fields[j].has_default() {
                Slot::Concrete(fields[j].ty)
            } else {
                Slot::Marker
            },
    )
}

/// The values that the constructor puts into the slots.
pub open spec fn spec_initial_values(fields: Seq<Field<FieldRole>>, wrap: bool) -> Seq<SlotInit> {
    Seq::new(
        fields.len(),
        |j: int|
            match fields[j].default_expr() {
                Some(e) => if wrap {
                    SlotInit::Wrapped(e)
                } else {
                    SlotInit::Value(e)
                },
                None => SlotInit::Marker,
            },
    )
}

/// The instantiation with the marker in every slot.
pub open spec fn spec_unset_type(fields: Seq<Field<FieldRole>>) -> Seq<Slot> {
    Seq::new(fields.len(), |j: int| Slot::Marker)
}

/// The instantiation with every field's type in its slot.
pub open spec fn spec_complete_type(fields: Seq<Field<FieldRole>>) -> Seq<Slot> {
    Seq::new(fields.len(), |j: int| Slot::Concrete(fields[j].ty))
}

/// The fields of the record: the fields of the callable, each with the type
/// under which it is stored. For a field with a default that is the
/// `Option` of its declared type: the build operation copies what the slots
/// hold, so the record has the types of the slots, and the callable fills in
/// the default where it is passed `None`.
pub open spec fn spec_record_fields(fields: Seq<Field<FieldRole>>) -> Seq<RecordField> {
    Seq::new(fields.len(), |j: int| (RecordField { name: fields[j].name, ty: fields[j].ty }))
}

impl Setter {
    /// `self` is the setter of field `i` of `fields`.
    pub open spec fn describes(&self, fields: Seq<Field<FieldRole>>, i: int) -> bool {
        &&& self.index == i
        &&& self.name@ == if fields[i].is_positional() {
            "next"@
        } else {
            fields[i].name@
        }
        &&& self.generics@ == spec_generics(fields, i)
        &&& self.self_type@ == spec_self_type(fields, i)
        &&& self.return_type@ == spec_return_type(fields, i)
        &&& self.value_type == fields[i].ty
        &&& Ok::<IsOption, OptionTypeError>(self.coercion) == spec_get_option_type(fields[i].ty)
        &&& self.assignments@ == spec_assignments(fields, i)
    }
}

impl Constructor {
    /// `self` is the constructor of the builder of `fields`.
    pub open spec fn describes(&self, fields: Seq<Field<FieldRole>>, wrap: bool) -> bool {
        &&& self.self_type@ == spec_unset_type(fields)
        &&& self.return_type@ == spec_initial_type(fields)
        &&& self.values@ == spec_initial_values(fields, wrap)
    }
}

impl Build {
    /// `self` is the build operation of the builder of `fields`.
    pub open spec fn describes(&self, fields: Seq<Field<FieldRole>>) -> bool {
        &&& self.self_type@ == spec_complete_type(fields)
        &&& self.fields@ == spec_field_names(fields)
    }
}

/// The first field among the first `n` whose type starts with `Option` but
/// does not wrap a type, with what is wrong with it.
pub open spec fn spec_first_bad_option(fields: Seq<Field<FieldRole>>, n: nat) -> Option<
    (int, OptionTypeError),
>
    decreases n,
{
    if n == 0 {
        None
    } else {
        match spec_first_bad_option(fields, (n - 1) as nat) {
            Some(found) => Some(found),
            None => match spec_get_option_type(fields[n - 1].ty) {
                Err(e) => Some((n - 1, e)),
                Ok(_) => None,
            },
        }
    }
}

/// Whether a field has a default but a type that is no `Option`.
pub open spec fn spec_bare_default(field: Field<FieldRole>) -> bool {
    field.has_default() && spec_get_option_type(field.ty) == Ok::<IsOption, OptionTypeError>(
        IsOption::False,
    )
}

/// The first field among the first `n` that has a default but a type that
/// is no `Option`.
pub open spec fn spec_first_bare_default(fields: Seq<Field<FieldRole>>, n: nat) -> Option<int>
    decreases n,
{
    if n == 0 {
        None
    } else {
        match spec_first_bare_default(fields, (n - 1) as nat) {
            Some(found) => Some(found),
            None => if spec_bare_default(fields[n - 1]) {
                Some(n - 1)
            } else {
                None
            },
        }
    }
}

/// What stops the synthesis for `fields`, if anything does: the order of
/// the fields is looked at first, then their names, then their types. Where
/// defaults are stored wrapped in `Some` (`wrap`), a field with a default
/// must be stored as an `Option`.
pub open spec fn spec_builder_error(fields: Seq<Field<FieldRole>>, wrap: bool) -> Option<
    BuilderError,
> {
    if !spec_positional_first(fields) {
        Some(BuilderError::PositionalAfterNamed)
    } else if !spec_distinct_names(fields) {
        Some(BuilderError::DuplicateField)
    } else {
        match spec_first_bad_option(fields, fields.len()) {
            Some((i, e)) => Some(BuilderError::UnsupportedOption(i as usize, e)),
            None => if wrap {
                match spec_first_bare_default(fields, fields.len()) {
                    Some(i) => Some(BuilderError::DefaultNotOptional(i as usize)),
                    None => None,
                }
            } else {
                None
            },
        }
    }
}

impl BuilderDecls {
    /// `self` holds the declarations of the builder of `fields`: one slot and
    /// one setter per field, one constructor and one build operation.
    pub open spec fn describes(&self, fields: Seq<Field<FieldRole>>, wrap: bool) -> bool {
        &&& self.record_fields@ == spec_record_fields(fields)
        &&& self.slots@ == spec_field_names(fields)
        &&& self.constructor.describes(fields, wrap)
        &&& self.setters@.len() == fields.len()
        &&& forall|i: int|
            0 <= i < fields.len() ==> (#[trigger] self.setters@[i]).describes(fields, i)
        &&& self.build.describes(fields)
    }
}

fn field_names(fields: &Vec<Field<FieldRole>>) -> (r: Vec<String>)
    ensures
        r@ == spec_field_names(fields@),
{
    let n = fields.len();
    let mut r: Vec<String> = Vec::new();
    let mut j: usize = 0;
    while j < n
        invariant
            n == fields@.len(),
            j <= n,
            r@.len() == j,
            forall|k: int| 0 <= k < j ==> r@[k] == fields@[k].name,
        decreases n - j,
    {
        r.push(fields[j].name.clone());
        j += 1;
    }
    r
}

fn self_type_of(fields: &Vec<Field<FieldRole>>, i: usize) -> (r: Vec<Slot>)
    requires
        i < fields@.len(),
    ensures
        r@ == spec_self_type(fields@, i as int),
{
    let n = fields.len();
    let positional = fields[i].is_positional();
    let has_default = fields[i].has_default();
    let mut r: Vec<Slot> = Vec::new();
    let mut j: usize = 0;
    while j < n
        invariant
            n == fields@.len(),
            i < n,
            j <= n,
            positional == fields@[i as int].is_positional(),
            has_default == fields@[i as int].has_default(),
            r@.len() == j,
            forall|k: int| 0 <= k < j ==> r@[k] == spec_self_slot(fields@, i as int, k),
        decreases n - j,
    {
        let slot = if j == i {
            if has_default {
                Slot::Generic(fields[j].name.clone())
            } else {
                Slot::Marker
            }
        } else if positional && fields[j].is_positional() && j < i {
            Slot::Concrete(fields[j].ty.duplicate())
        } else {
            Slot::Generic(fields[j].name.clone())
        };
        r.push(slot);
        j += 1;
    }
    r
}

fn return_type_of(fields: &Vec<Field<FieldRole>>, i: usize) -> (r: Vec<Slot>)
    requires
        i < fields@.len(),
    ensures
        r@ == spec_return_type(fields@, i as int),
{
    let mut r = self_type_of(fields, i);
    r.set(i, Slot::Concrete(fields[i].ty.duplicate()));
    r
}

fn generics_of(fields: &Vec<Field<FieldRole>>, i: usize) -> (r: Vec<String>)
    requires
        i < fields@.len(),
    ensures
        r@ == spec_generics(fields@, i as int),
{
    let n = fields.len();
    let mut r = field_names(fields);
    if fields[i].is_positional() {
        let rest = r.split_off(i + 1);
        rest
    } else if fields[i].has_default() {
        r
    } else {
        r.remove(i);
        r
    }
}

fn assignments_of(fields: &Vec<Field<FieldRole>>, i: usize) -> (r: Vec<Assignment>)
    requires
        i < fields@.len(),
    ensures
        r@ == spec_assignments(fields@, i as int),
{
    let n = fields.len();
    let mut r: Vec<Assignment> = Vec::new();
    let mut j: usize = 0;
    while j < n
        invariant
            n == fields@.len(),
            j <= n,
            r@.len() == j,
            forall|k: int| 0 <= k < j ==> r@[k] == spec_assignments(fields@, i as int)[k],
        decreases n - j,
    {
        let a = if j == i {
            Assignment::Value
        } else {
            Assignment::Carried(fields[j].name.clone())
        };
        r.push(a);
        j += 1;
    }
    r
}

fn setter_of(fields: &Vec<Field<FieldRole>>, i: usize) -> (r: Result<Setter, OptionTypeError>)
    requires
        i < fields@.len(),
    ensures
        match r {
            Ok(setter) => setter.describes(fields@, i as int),
            Err(e) => spec_get_option_type(fields@[i as int].ty) == Err::<IsOption, OptionTypeError>(
                e,
            ),
        },
{
    let field = &fields[i];
    match get_option_type(field.ty.duplicate()) {
        Err(e) => Err(e),
        Ok(coercion) => {
            let name = if field.is_positional() {
                String::from_str("next")
            } else {
                field.name.clone()
            };
            Ok(
                Setter {
                    index: i,
                    name,
                    generics: generics_of(fields, i),
                    self_type: self_type_of(fields, i),
                    return_type: return_type_of(fields, i),
                    value_type: field.ty.duplicate(),
                    coercion,
                    assignments: assignments_of(fields, i),
                },
            )
        },
    }
}

fn constructor_of(fields: &Vec<Field<FieldRole>>, wrap: bool) -> (r: Constructor)
    ensures
        r.describes(fields@, wrap),
{
    let n = fields.len();
    let mut self_type: Vec<Slot> = Vec::new();
    let mut return_type: Vec<Slot> = Vec::new();
    let mut values: Vec<SlotInit> = Vec::new();
    let mut j: usize = 0;
    while j < n
        invariant
            n == fields@.len(),
            j <= n,
            self_type@.len() == j,
            return_type@.len() == j,
            values@.len() == j,
            forall|k: int| 0 <= k < j ==> self_type@[k] == Slot::Marker,
            forall|k: int| 0 <= k < j ==> return_type@[k] == spec_initial_type(fields@)[k],
            forall|k: int| 0 <= k < j ==> values@[k] == spec_initial_values(fields@, wrap)[k],
        decreases n - j,
    {
        let field = &fields[j];
        self_type.push(Slot::Marker);
        match field.default_expr() {
            Some(e) => {
                return_type.push(Slot::Concrete(field.ty.duplicate()));
                if wrap {
                    values.push(SlotInit::Wrapped(e));
                } else {
                    values.push(SlotInit::Value(e));
                }
            },
            None => {
                return_type.push(Slot::Marker);
                values.push(SlotInit::Marker);
            },
        }
        j += 1;
    }
    assert(self_type@ =~= spec_unset_type(fields@));
    assert(return_type@ =~= spec_initial_type(fields@));
    assert(values@ =~= spec_initial_values(fields@, wrap));
    Constructor { self_type, return_type, values }
}

fn build_of(fields: &Vec<Field<FieldRole>>) -> (r: Build)
    ensures
        r.describes(fields@),
{
    let n = fields.len();
    let mut self_type: Vec<Slot> = Vec::new();
    let mut j: usize = 0;
    while j < n
        invariant
            n == fields@.len(),
            j <= n,
            self_type@.len() == j,
            forall|k: int| 0 <= k < j ==> self_type@[k] == Slot::Concrete(fields@[k].ty),
        decreases n - j,
    {
        self_type.push(Slot::Concrete(fields[j].ty.duplicate()));
        j += 1;
    }
    assert(self_type@ =~= spec_complete_type(fields@));
    Build { self_type, fields: field_names(fields) }
}

fn record_fields_of(fields: &Vec<Field<FieldRole>>) -> (r: Vec<RecordField>)
    ensures
        r@ == spec_record_fields(fields@),
{
    let n = fields.len();
    let mut r: Vec<RecordField> = Vec::new();
    let mut j: usize = 0;
    while j < n
        invariant
            n == fields@.len(),
            j <= n,
            r@.len() == j,
            forall|k: int| 0 <= k < j ==> r@[k] == spec_record_fields(fields@)[k],
        decreases n - j,
    {
        r.push(RecordField { name: fields[j].name.clone(), ty: fields[j].ty.duplicate() });
        j += 1;
    }
    r
}

fn setters_of(fields: &Vec<Field<FieldRole>>) -> (r: Result<Vec<Setter>, BuilderError>)
    ensures
        match r {
            Ok(setters) => {
                &&& spec_first_bad_option(fields@, fields@.len()) is None
                &&& setters@.len() == fields@.len()
                &&& forall|i: int|
                    0 <= i < fields@.len() ==> (#[trigger] setters@[i]).describes(fields@, i)
            },
            Err(e) => spec_first_bad_option(fields@, fields@.len()) matches Some((i, kind))
                && e == BuilderError::UnsupportedOption(i as usize, kind),
        },
{
    let n = fields.len();
    let mut setters: Vec<Setter> = Vec::new();
    let mut j: usize = 0;
    while j < n
        invariant
            n == fields@.len(),
            j <= n,
            spec_first_bad_option(fields@, j as nat) is None,
            setters@.len() == j,
            forall|i: int| 0 <= i < j ==> (#[trigger] setters@[i]).describes(fields@, i),
        decreases n - j,
    {
        match setter_of(fields, j) {
            Ok(setter) => {
                setters.push(setter);
            },
            Err(kind) => {
                proof {
                    lemma_first_bad_option_stays(fields@, (j + 1) as nat, n as nat);
                }
                return Err(BuilderError::UnsupportedOption(j, kind));
            },
        }
        j += 1;
    }
    Ok(setters)
}

/// Once a field with an unusable `Option` type has been found among the
/// first `n` fields, looking at more fields finds the same one.
proof fn lemma_first_bad_option_stays(fields: Seq<Field<FieldRole>>, n: nat, m: nat)
    requires
        n <= m,
        spec_first_bad_option(fields, n) is Some,
    ensures
        spec_first_bad_option(fields, m) == spec_first_bad_option(fields, n),
    decreases m,
{
    if n < m {
        lemma_first_bad_option_stays(fields, n, (m - 1) as nat);
    }
}

proof fn lemma_first_bare_default_stays(fields: Seq<Field<FieldRole>>, n: nat, m: nat)
    requires
        n <= m,
        spec_first_bare_default(fields, n) is Some,
    ensures
        spec_first_bare_default(fields, m) == spec_first_bare_default(fields, n),
    decreases m,
{
    if n < m {
        lemma_first_bare_default_stays(fields, n, (m - 1) as nat);
    }
}

/// The index of the first field that has a default but a type that is no
/// `Option`, told by the coercion of its setter.
fn first_bare_default(fields: &Vec<Field<FieldRole>>, setters: &Vec<Setter>) -> (r: Option<usize>)
    requires
        setters@.len() == fields@.len(),
        forall|i: int| 0 <= i < fields@.len() ==> (#[trigger] setters@[i]).describes(fields@, i),
    ensures
        match r {
            Some(i) => spec_first_bare_default(fields@, fields@.len()) == Some(i as int),
            None => spec_first_bare_default(fields@, fields@.len()) is None,
        },
{
    let n = fields.len();
    let mut j: usize = 0;
    while j < n
        invariant
            n == fields@.len(),
            n == setters@.len(),
            j <= n,
            forall|i: int| 0 <= i < n ==> (#[trigger] setters@[i]).describes(fields@, i),
            spec_first_bare_default(fields@, j as nat) is None,
        decreases n - j,
    {
        assert(setters@[j as int].describes(fields@, j as int));
        let bare = match &setters[j].coercion {
            IsOption::False => fields[j].has_default(),
            IsOption::True(_) => false,
        };
        if bare {
            proof {
                lemma_first_bare_default_stays(fields@, (j + 1) as nat, n as nat);
            }
            return Some(j);
        }
        j += 1;
    }
    None
}

pub(crate) fn synthesize(
    fields: &Vec<Field<FieldRole>>,
    record_name: String,
    builder_name: String,
    wrap: bool,
) -> (r: Result<BuilderDecls, BuilderError>)
    ensures
        match r {
            Ok(decls) => {
                &&& spec_builder_error(fields@, wrap) is None
                &&& decls.describes(fields@, wrap)
                &&& decls.record_name == record_name
                &&& decls.builder_name == builder_name
            },
            Err(e) => spec_builder_error(fields@, wrap) == Some(e),
        },
{
    if !positional_first(fields) {
        return Err(BuilderError::PositionalAfterNamed);
    }
    if !distinct_names(fields) {
        return Err(BuilderError::DuplicateField);
    }
    match setters_of(fields) {
        Err(e) => Err(e),
        Ok(setters) => {
            if wrap {
                if let Some(i) = first_bare_default(fields, &setters) {
                    return Err(BuilderError::DefaultNotOptional(i));
                }
            }
            Ok(
            BuilderDecls {
                record_name,
                record_fields: record_fields_of(fields),
                builder_name,
                slots: field_names(fields),
                constructor: constructor_of(fields, wrap),
                    setters,
                    build: build_of(fields),
                },
            )
        },
    }
}

/// The declarations of the typestate builder of a callable.
///
/// The record is named like the callable with its first letter in upper
/// case, the builder like the callable followed by `Builder`. A default is
/// stored wrapped in `Some`. No builder exists for a field list in which a
/// positional field follows a named one or two fields have the same name,
/// nor for one with a field whose type starts with `Option` without
/// wrapping a type, nor for one with a field that has a default but is not
/// stored as an `Option`.
pub fn create_typesafe_builder(structure: &Structure) -> (r: Result<BuilderDecls, BuilderError>)
    ensures
        match r {
            Ok(decls) => {
                &&& spec_builder_error(structure.fields@, true) is None
                &&& decls.describes(structure.fields@, true)
                &&& decls.record_name@ == spec_uppercase(structure.ident@)
                &&& decls.builder_name@ == structure.ident@ + "Builder"@
            },
            Err(e) => spec_builder_error(structure.fields@, true) == Some(e),
        },
{
    let record_name = uppercase(structure.ident.as_str());
    let mut builder_name = structure.ident.clone();
    builder_name.append("Builder");
    synthesize(&structure.fields, record_name, builder_name, true)
}

} // verus!
