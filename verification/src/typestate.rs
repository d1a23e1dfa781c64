//! What the declarations of a builder mean, and the laws that follow.
//!
//! A builder type with `n` slots has `2^n` instantiations: every slot holds
//! either the marker or the field's type. Here such an instantiation is a
//! sequence of `n` booleans, `true` where the slot holds a value. A
//! declaration is written for a pattern of slots and can be used on every
//! instantiation that the pattern admits.

use vstd::prelude::*;
use crate::builder::Assignment;
use crate::builder::BuilderDecls;
use crate::builder::Slot;
use crate::parse_fn::spec_positional_first;
use crate::parse_fn::Field;
use crate::parse_fn::FieldRole;

verus! {

/// Whether a slot of a pattern admits a slot that is set, or one that is
/// not: a type parameter admits both, the field's type only a slot that is
/// set, the marker only one that is not.
pub open spec fn slot_admits(slot: Slot, set: bool) -> bool {
    match slot {
        Slot::Generic(_) => true,
        Slot::Concrete(_) => set,
        Slot::Marker => !set,
    }
}

/// Whether a declaration for `pattern` can be used on `point`.
pub open spec fn admits(pattern: Seq<Slot>, point: Seq<bool>) -> bool {
    &&& point.len() == pattern.len()
    &&& forall|j: int| 0 <= j < pattern.len() ==> slot_admits(#[trigger] pattern[j], point[j])
}

/// Whether a slot is set in the instantiation that a declaration returns,
/// given the slot of its return type and whether the slot was set before.
pub open spec fn slot_after(slot: Slot, set: bool) -> bool {
    match slot {
        Slot::Generic(_) => set,
        Slot::Concrete(_) => true,
        Slot::Marker => false,
    }
}

/// The instantiation that a declaration with return type `pattern` returns
/// when it is used on `point`.
pub open spec fn after(pattern: Seq<Slot>, point: Seq<bool>) -> Seq<bool> {
    Seq::new(pattern.len(), |j: int| slot_after(pattern[j], point[j]))
}

/// The instantiation that the constructor returns.
pub open spec fn initial(decls: BuilderDecls) -> Seq<bool> {
    Seq::new(
        decls.constructor.return_type@.len(),
        |j: int| decls.constructor.return_type@[j] is Concrete,
    )
}

/// The instantiation after the setter with index `call` has been used on
/// `point`, if there is such a setter and it can be used there. A setter
/// returns an instantiation of the builder that it is declared on.
pub open spec fn step(decls: BuilderDecls, point: Seq<bool>, call: int) -> Option<Seq<bool>> {
    if 0 <= call < decls.setters@.len() && admits(decls.setters@[call].self_type@, point)
        && decls.setters@[call].return_type@.len() == point.len() {
        Some(after(decls.setters@[call].return_type@, point))
    } else {
        None
    }
}

/// The instantiation after the constructor and then the setters with the
/// indices `calls`, in this order; `None` if one of them cannot be used
/// where it stands.
pub open spec fn run(decls: BuilderDecls, calls: Seq<int>) -> Option<Seq<bool>>
    decreases calls.len(),
{
    if calls.len() == 0 {
        Some(initial(decls))
    } else {
        match run(decls, calls.drop_last()) {
            Some(point) => step(decls, point, calls.last()),
            None => None,
        }
    }
}

/// Whether the build operation can be used on `point`.
pub open spec fn can_build(decls: BuilderDecls, point: Seq<bool>) -> bool {
    admits(decls.build.self_type@, point)
}

/// The values in the slots of the builder that a setter returns, given the
/// values in the slots of the builder it is called on and its argument. A
/// slot that is carried keeps the value at its own index.
pub open spec fn assign<V>(assignments: Seq<Assignment>, slots: Seq<V>, value: V) -> Seq<V> {
    Seq::new(
        assignments.len(),
        |j: int|
            match assignments[j] {
                Assignment::Value => value,
                Assignment::Carried(_) => slots[j],
            },
    )
}

/// The number of positional fields among the first `n`.
pub open spec fn count_positional(fields: Seq<Field<FieldRole>>, n: nat) -> nat
    decreases n,
{
    if n == 0 {
        0
    } else {
        count_positional(fields, (n - 1) as nat) + if fields[n - 1].is_positional() {
            1nat
        } else {
            0nat
        }
    }
}

/// The number of named fields among the first `n`.
pub open spec fn count_named(fields: Seq<Field<FieldRole>>, n: nat) -> nat
    decreases n,
{
    if n == 0 {
        0
    } else {
        count_named(fields, (n - 1) as nat) + if fields[n - 1].is_positional() {
            0nat
        } else {
            1nat
        }
    }
}

proof fn lemma_counts(fields: Seq<Field<FieldRole>>, n: nat)
    ensures
        count_positional(fields, n) + count_named(fields, n) == n,
    decreases n,
{
    if n > 0 {
        lemma_counts(fields, (n - 1) as nat);
    }
}

/// A field list with `P` positional and `D` named fields has exactly
/// `P + D` setters, and the setter at index `i` is the setter of field `i`.
pub proof fn lemma_one_setter_per_field(
    decls: BuilderDecls,
    fields: Seq<Field<FieldRole>>,
    wrap: bool,
)
    requires
        decls.describes(fields, wrap),
    ensures
        decls.setters@.len() == count_positional(fields, fields.len()) + count_named(
            fields,
            fields.len(),
        ),
        forall|i: int| 0 <= i < fields.len() ==> (#[trigger] decls.setters@[i]).index == i,
        decls.slots@.len() == fields.len(),
{
    lemma_counts(fields, fields.len());
}

/// Where the setter of field `i` can be used, it sets slot `i` and leaves
/// every other slot as it was.
pub proof fn lemma_setter_sets_its_slot(
    decls: BuilderDecls,
    fields: Seq<Field<FieldRole>>,
    wrap: bool,
    i: int,
    point: Seq<bool>,
)
    requires
        decls.describes(fields, wrap),
        0 <= i < fields.len(),
        admits(decls.setters@[i].self_type@, point),
    ensures
        step(decls, point, i) == Some(point.update(i, true)),
{
    assert(decls.setters@[i].describes(fields, i));
}

/// The setter of a named field with a default can be used on every
/// instantiation, so also on the one it returns.
pub proof fn lemma_default_setter_always_applies(
    decls: BuilderDecls,
    fields: Seq<Field<FieldRole>>,
    wrap: bool,
    i: int,
    point: Seq<bool>,
)
    requires
        decls.describes(fields, wrap),
        0 <= i < fields.len(),
        fields[i].has_default(),
        point.len() == fields.len(),
    ensures
        admits(decls.setters@[i].self_type@, point),
        step(decls, point, i) == Some(point.update(i, true)),
        step(decls, point.update(i, true), i) == Some(point.update(i, true)),
{
    assert(decls.setters@[i].describes(fields, i));
    lemma_setter_sets_its_slot(decls, fields, wrap, i, point);
    lemma_setter_sets_its_slot(decls, fields, wrap, i, point.update(i, true));
}

/// Setting a field twice, to `first` and then to `second`, leaves `second`
/// in its slot and every other slot as it was: the same as setting it once
/// to `second`.
pub proof fn lemma_setting_twice_keeps_the_last<V>(
    decls: BuilderDecls,
    fields: Seq<Field<FieldRole>>,
    wrap: bool,
    i: int,
    slots: Seq<V>,
    first: V,
    second: V,
)
    requires
        decls.describes(fields, wrap),
        0 <= i < fields.len(),
        slots.len() == fields.len(),
    ensures
        assign(decls.setters@[i].assignments@, slots, second) == slots.update(i, second),
        assign(
            decls.setters@[i].assignments@,
            assign(decls.setters@[i].assignments@, slots, first),
            second,
        ) == slots.update(i, second),
{
    assert(decls.setters@[i].describes(fields, i));
}

/// The setter of a positional field can be used exactly where every
/// positional field before it is set and its own slot is not.
pub proof fn lemma_positional_setter_applies(
    decls: BuilderDecls,
    fields: Seq<Field<FieldRole>>,
    wrap: bool,
    k: int,
    point: Seq<bool>,
)
    requires
        decls.describes(fields, wrap),
        spec_positional_first(fields),
        0 <= k < fields.len(),
        fields[k].is_positional(),
        point.len() == fields.len(),
    ensures
        admits(decls.setters@[k].self_type@, point) <==> (!point[k] && forall|j: int|
            0 <= j < k ==> #[trigger] point[j]),
{
    let pattern = decls.setters@[k].self_type@;
    assert(decls.setters@[k].describes(fields, k));
    if admits(pattern, point) {
        assert(slot_admits(pattern[k], point[k]));
        assert forall|j: int| 0 <= j < k implies #[trigger] point[j] by {
            assert(slot_admits(pattern[j], point[j]));
        }
    }
}

/// At most one setter of a positional field can be used on an
/// instantiation, so a call of `next` never has two meanings.
pub proof fn lemma_next_is_unambiguous(
    decls: BuilderDecls,
    fields: Seq<Field<FieldRole>>,
    wrap: bool,
    k: int,
    l: int,
    point: Seq<bool>,
)
    requires
        decls.describes(fields, wrap),
        spec_positional_first(fields),
        0 <= k < l < fields.len(),
        fields[k].is_positional(),
        fields[l].is_positional(),
        point.len() == fields.len(),
    ensures
        !(admits(decls.setters@[k].self_type@, point) && admits(
            decls.setters@[l].self_type@,
            point,
        )),
{
    lemma_positional_setter_applies(decls, fields, wrap, k, point);
    lemma_positional_setter_applies(decls, fields, wrap, l, point);
}

/// The names of the type parameters among the first `n` slots of a
/// pattern, in order.
pub open spec fn open_slots(pattern: Seq<Slot>, n: nat) -> Seq<String>
    decreases n,
{
    if n == 0 {
        Seq::empty()
    } else {
        let before = open_slots(pattern, (n - 1) as nat);
        match pattern[n - 1] {
            Slot::Generic(name) => before.push(name),
            _ => before,
        }
    }
}

proof fn lemma_open_slots_of_setter(fields: Seq<Field<FieldRole>>, i: int, m: nat)
    requires
        spec_positional_first(fields),
        0 <= i < fields.len(),
        m <= fields.len(),
    ensures
        open_slots(crate::builder::spec_self_type(fields, i), m) == {
            let names = crate::builder::spec_field_names(fields);
            if fields[i].is_positional() {
                if m <= i + 1 {
                    Seq::empty()
                } else {
                    names.subrange(i + 1, m as int)
                }
            } else if fields[i].has_default() {
                names.take(m as int)
            } else if m <= i {
                names.take(m as int)
            } else {
                names.take(i) + names.subrange(i + 1, m as int)
            }
        },
    decreases m,
{
    if m > 0 {
        lemma_open_slots_of_setter(fields, i, (m - 1) as nat);
    }
}

/// The type parameters that a setter declares are exactly those that stand
/// in the instantiation it is declared on, in the same order: none is
/// missing, and none is left over.
pub proof fn lemma_generics_are_the_open_slots(
    decls: BuilderDecls,
    fields: Seq<Field<FieldRole>>,
    wrap: bool,
    i: int,
)
    requires
        decls.describes(fields, wrap),
        spec_positional_first(fields),
        0 <= i < fields.len(),
    ensures
        decls.setters@[i].generics@ == open_slots(
            decls.setters@[i].self_type@,
            decls.setters@[i].self_type@.len(),
        ),
{
    assert(decls.setters@[i].describes(fields, i));
    lemma_open_slots_of_setter(fields, i, fields.len());
}

/// The first calls of a sequence of calls that can be made can be made.
pub proof fn lemma_run_prefix(decls: BuilderDecls, calls: Seq<int>, t: int)
    requires
        0 <= t <= calls.len(),
        run(decls, calls) is Some,
    ensures
        run(decls, calls.take(t)) is Some,
    decreases calls.len(),
{
    if t == calls.len() {
        assert(calls.take(t) =~= calls);
    } else {
        lemma_run_prefix(decls, calls.drop_last(), t);
        assert(calls.drop_last().take(t) =~= calls.take(t));
    }
}

/// After the constructor and any calls that can be made, a slot is set
/// exactly if its field has a default or its setter was among the calls.
pub proof fn lemma_set_slots(
    decls: BuilderDecls,
    fields: Seq<Field<FieldRole>>,
    wrap: bool,
    calls: Seq<int>,
)
    requires
        decls.describes(fields, wrap),
        run(decls, calls) is Some,
    ensures
        run(decls, calls)->Some_0.len() == fields.len(),
        forall|j: int|
            0 <= j < fields.len() ==> (#[trigger] run(decls, calls)->Some_0[j] <==> (
            fields[j].has_default() || calls.contains(j))),
    decreases calls.len(),
{
    let point = run(decls, calls)->Some_0;
    if calls.len() > 0 {
        let earlier = calls.drop_last();
        let before = run(decls, earlier)->Some_0;
        lemma_set_slots(decls, fields, wrap, earlier);
        lemma_setter_sets_its_slot(decls, fields, wrap, calls.last(), before);
        assert forall|j: int| 0 <= j < fields.len() implies (#[trigger] point[j] <==> (
        fields[j].has_default() || calls.contains(j))) by {
            if calls.contains(j) {
                let t = choose|t: int| 0 <= t < calls.len() && calls[t] == j;
                if t < calls.len() - 1 {
                    assert(earlier[t] == j);
                }
            }
            if earlier.contains(j) {
                let t = choose|t: int| 0 <= t < earlier.len() && earlier[t] == j;
                assert(calls[t] == j);
            }
        }
    }
}

/// The setter of a positional field can only be called after the setters
/// of all positional fields before it, whatever else has been called in
/// between.
pub proof fn lemma_positional_order(
    decls: BuilderDecls,
    fields: Seq<Field<FieldRole>>,
    wrap: bool,
    calls: Seq<int>,
    t: int,
    j: int,
)
    requires
        decls.describes(fields, wrap),
        spec_positional_first(fields),
        run(decls, calls) is Some,
        0 <= t < calls.len(),
        0 <= calls[t] < fields.len(),
        fields[calls[t]].is_positional(),
        0 <= j < calls[t],
    ensures
        exists|s: int| 0 <= s < t && calls[s] == j,
{
    let k = calls[t];
    let earlier = calls.take(t);
    let upto = calls.take(t + 1);
    lemma_run_prefix(decls, calls, t + 1);
    assert(upto.drop_last() =~= earlier);
    let point = run(decls, earlier)->Some_0;
    lemma_set_slots(decls, fields, wrap, earlier);
    lemma_positional_setter_applies(decls, fields, wrap, k, point);
    assert(point[j]);
    assert(earlier.contains(j));
    let s = choose|s: int| 0 <= s < earlier.len() && earlier[s] == j;
    assert(calls[s] == j);
}

/// The setter of a positional field cannot be called twice.
pub proof fn lemma_positional_once(
    decls: BuilderDecls,
    fields: Seq<Field<FieldRole>>,
    wrap: bool,
    calls: Seq<int>,
    s: int,
    t: int,
)
    requires
        decls.describes(fields, wrap),
        spec_positional_first(fields),
        run(decls, calls) is Some,
        0 <= s < t < calls.len(),
        0 <= calls[t] < fields.len(),
        fields[calls[t]].is_positional(),
    ensures
        calls[s] != calls[t],
{
    let k = calls[t];
    let earlier = calls.take(t);
    let upto = calls.take(t + 1);
    lemma_run_prefix(decls, calls, t + 1);
    assert(upto.drop_last() =~= earlier);
    let point = run(decls, earlier)->Some_0;
    lemma_set_slots(decls, fields, wrap, earlier);
    lemma_positional_setter_applies(decls, fields, wrap, k, point);
    if calls[s] == k {
        assert(earlier[s] == k);
        assert(point[k]);
    }
}

/// The build operation can be used exactly where every slot is set. After
/// the constructor and any calls that can be made, that is where every
/// field without a default has had its setter called.
pub proof fn lemma_build_needs_every_field(
    decls: BuilderDecls,
    fields: Seq<Field<FieldRole>>,
    wrap: bool,
    calls: Seq<int>,
)
    requires
        decls.describes(fields, wrap),
        run(decls, calls) is Some,
    ensures
        can_build(decls, run(decls, calls)->Some_0) <==> forall|j: int|
            0 <= j < fields.len() ==> (#[trigger] fields[j]).has_default() || calls.contains(j),
{
    let point = run(decls, calls)->Some_0;
    let pattern = decls.build.self_type@;
    lemma_set_slots(decls, fields, wrap, calls);
    if can_build(decls, point) {
        assert forall|j: int| 0 <= j < fields.len() implies (#[trigger] fields[j]).has_default()
            || calls.contains(j) by {
            assert(slot_admits(pattern[j], point[j]));
        }
    }
}

/// Right after the constructor, the build operation can be used exactly if
/// every field has a default.
pub proof fn lemma_build_after_new(
    decls: BuilderDecls,
    fields: Seq<Field<FieldRole>>,
    wrap: bool,
)
    requires
        decls.describes(fields, wrap),
    ensures
        can_build(decls, initial(decls)) <==> forall|j: int|
            0 <= j < fields.len() ==> (#[trigger] fields[j]).has_default(),
{
    let calls = Seq::<int>::empty();
    lemma_build_needs_every_field(decls, fields, wrap, calls);
}

/// A bare value and the same value wrapped in `Some` leave the same values
/// in the slots, so what is built from them is the same.
pub proof fn lemma_coercion_leaves_no_trace<T>(
    assignments: Seq<Assignment>,
    slots: Seq<Option<T>>,
    value: T,
)
    ensures
        assign(assignments, slots, <T as crate::base::AsOption<T>>::as_option_spec(value))
            == assign(
            assignments,
            slots,
            <Option<T> as crate::base::AsOption<T>>::as_option_spec(Some(value)),
        ),
{
    crate::base::lemma_bare_and_wrapped_agree(value);
}

/// Whether a declaration for `pattern` can be used on `point`.
pub fn pattern_admits(pattern: &Vec<Slot>, point: &Vec<bool>) -> (r: bool)
    ensures
        r == admits(pattern@, point@),
{
    let n = pattern.len();
    if point.len() != n {
        return false;
    }
    let mut j: usize = 0;
    while j < n
        invariant
            n == pattern@.len(),
            n == point@.len(),
            j <= n,
            forall|k: int| 0 <= k < j ==> slot_admits(#[trigger] pattern@[k], point@[k]),
        decreases n - j,
    {
        let fits = match &pattern[j] {
            Slot::Generic(_) => true,
            Slot::Concrete(_) => point[j],
            Slot::Marker => !point[j],
        };
        if !fits {
            return false;
        }
        j += 1;
    }
    true
}

/// The instantiation that a declaration with return type `pattern` returns
/// when it is used on `point`.
pub fn pattern_after(pattern: &Vec<Slot>, point: &Vec<bool>) -> (r: Vec<bool>)
    requires
        point@.len() == pattern@.len(),
    ensures
        r@ == after(pattern@, point@),
{
    let n = pattern.len();
    let mut r: Vec<bool> = Vec::new();
    let mut j: usize = 0;
    while j < n
        invariant
            n == pattern@.len(),
            n == point@.len(),
            j <= n,
            r@.len() == j,
            forall|k: int| 0 <= k < j ==> r@[k] == slot_after(pattern@[k], point@[k]),
        decreases n - j,
    {
        let set = match &pattern[j] {
            Slot::Generic(_) => point[j],
            Slot::Concrete(_) => true,
            Slot::Marker => false,
        };
        r.push(set);
        j += 1;
    }
    r
}

/// The indices in `calls` as integers.
pub open spec fn spec_calls(calls: Seq<usize>) -> Seq<int> {
    Seq::new(calls.len(), |t: int| calls[t] as int)
}

impl BuilderDecls {
    /// The instantiation that the constructor returns.
    pub fn initial_point(&self) -> (r: Vec<bool>)
        ensures
            r@ == initial(*self),
    {
        let n = self.constructor.return_type.len();
        let mut r: Vec<bool> = Vec::new();
        let mut j: usize = 0;
        while j < n
            invariant
                n == self.constructor.return_type@.len(),
                j <= n,
                r@.len() == j,
                forall|k: int|
                    0 <= k < j ==> r@[k] == (self.constructor.return_type@[k] is Concrete),
            decreases n - j,
        {
            let set = match &self.constructor.return_type[j] {
                Slot::Concrete(_) => true,
                _ => false,
            };
            r.push(set);
            j += 1;
        }
        r
    }

    /// The instantiation after the setter with index `call` has been used on
    /// `point`; `None` if it cannot be used there.
    pub fn step(&self, point: &Vec<bool>, call: usize) -> (r: Option<Vec<bool>>)
        ensures
            match r {
                Some(next) => step(*self, point@, call as int) == Some(next@),
                None => step(*self, point@, call as int) is None,
            },
    {
        if call >= self.setters.len() {
            return None;
        }
        let setter = &self.setters[call];
        if !pattern_admits(&setter.self_type, point) {
            return None;
        }
        if setter.return_type.len() != point.len() {
            return None;
        }
        Some(pattern_after(&setter.return_type, point))
    }
}

impl BuilderDecls {
    /// The instantiation after the constructor and then the setters with
    /// the indices `calls`, in this order; `None` if one of them cannot be
    /// used where it stands.
    pub fn run(&self, calls: &Vec<usize>) -> (r: Option<Vec<bool>>)
        ensures
            match r {
                Some(point) => run(*self, spec_calls(calls@)) == Some(point@),
                None => run(*self, spec_calls(calls@)) is None,
            },
    {
        let n = calls.len();
        let mut point = self.initial_point();
        let mut t: usize = 0;
        while t < n
            invariant
                n == calls@.len(),
                t <= n,
                run(*self, spec_calls(calls@).take(t as int)) == Some(point@),
            decreases n - t,
        {
            proof {
                let upto = spec_calls(calls@).take(t + 1);
                assert(upto.drop_last() =~= spec_calls(calls@).take(t as int));
            }
            match self.step(&point, calls[t]) {
                Some(next) => {
                    point = next;
                },
                None => {
                    proof {
                        lemma_run_stuck(*self, spec_calls(calls@), t + 1);
                    }
                    return None;
                },
            }
            t += 1;
        }
        assert(spec_calls(calls@).take(n as int) =~= spec_calls(calls@));
        Some(point)
    }

    /// Whether the build operation can be used on `point`.
    pub fn can_build(&self, point: &Vec<bool>) -> (r: bool)
        ensures
            r == can_build(*self, point@),
    {
        pattern_admits(&self.build.self_type, point)
    }
}

/// Calls of which the first cannot be made cannot be made.
pub proof fn lemma_run_stuck(decls: BuilderDecls, calls: Seq<int>, t: int)
    requires
        0 <= t <= calls.len(),
        run(decls, calls.take(t)) is None,
    ensures
        run(decls, calls) is None,
{
    if run(decls, calls) is Some {
        lemma_run_prefix(decls, calls, t);
    }
}

} // verus!
