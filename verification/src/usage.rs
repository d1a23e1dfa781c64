//! A typestate builder written out by hand, for a record of five fields of
//! which one has a default.

use vstd::prelude::*;
use crate::base::Unset;

verus! {

/// A record of five fields.
pub struct Example {
    a: String,
    b: Box<u32>,
    c: Option<Box<Example>>,
    d: usize,
    e: Vec<String>,
}

/// The builder of an [`Example`]: one slot per field, which holds
/// [`Unset`] until the field is set.
pub struct ExampleBuilder<A, B, C, D, E> {
    a: A,
    b: B,
    c: C,
    d: D,
    e: E,
}

impl Example {
    /// The field `a`.
    pub closed spec fn field_a(self) -> String {
        self.a
    }

    /// The field `b`.
    pub closed spec fn field_b(self) -> Box<u32> {
        self.b
    }

    /// The field `c`.
    pub closed spec fn field_c(self) -> Option<Box<Example>> {
        self.c
    }

    /// The field `d`.
    pub closed spec fn field_d(self) -> usize {
        self.d
    }

    /// The field `e`.
    pub closed spec fn field_e(self) -> Vec<String> {
        self.e
    }
}

impl<A, B, C, D, E> ExampleBuilder<A, B, C, D, E> {
    /// What the slot of `a` holds.
    pub closed spec fn slot_a(self) -> A {
        self.a
    }

    /// What the slot of `b` holds.
    pub closed spec fn slot_b(self) -> B {
        self.b
    }

    /// What the slot of `c` holds.
    pub closed spec fn slot_c(self) -> C {
        self.c
    }

    /// What the slot of `d` holds.
    pub closed spec fn slot_d(self) -> D {
        self.d
    }

    /// What the slot of `e` holds.
    pub closed spec fn slot_e(self) -> E {
        self.e
    }
}

impl ExampleBuilder<Unset, Unset, Unset, Unset, Unset> {
    /// A builder in which only `c` is set, to its default `None`.
    pub fn default() -> (r: ExampleBuilder<Unset, Unset, Option<Box<Example>>, Unset, Unset>)
        ensures
            r.slot_c() == None::<Box<Example>>,
    {
        ExampleBuilder { a: Unset, b: Unset, c: None, d: Unset, e: Unset }
    }
}

impl<T2, T3, T4, T5> ExampleBuilder<Unset, T2, T3, T4, T5> {
    /// Sets `a`.
    pub fn a(self, value: String) -> (r: ExampleBuilder<String, T2, T3, T4, T5>)
        ensures
            r.slot_a() == value,
            r.slot_b() == self.slot_b(),
            r.slot_c() == self.slot_c(),
            r.slot_d() == self.slot_d(),
            r.slot_e() == self.slot_e(),
    {
        ExampleBuilder { a: value, b: self.b, c: self.c, d: self.d, e: self.e }
    }
}

impl<T1, T3, T4, T5> ExampleBuilder<T1, Unset, T3, T4, T5> {
    /// Sets `b`.
    pub fn b(self, value: Box<u32>) -> (r: ExampleBuilder<T1, Box<u32>, T3, T4, T5>)
        ensures
            r.slot_a() == self.slot_a(),
            r.slot_b() == value,
            r.slot_c() == self.slot_c(),
            r.slot_d() == self.slot_d(),
            r.slot_e() == self.slot_e(),
    {
        ExampleBuilder { a: self.a, b: value, c: self.c, d: self.d, e: self.e }
    }
}

impl<T1, T2, T3, T4, T5> ExampleBuilder<T1, T2, T3, T4, T5> {
    /// Sets `c`, whether or not it has been set before.
    pub fn c(self, value: Option<Box<Example>>) -> (r: ExampleBuilder<
        T1,
        T2,
        Option<Box<Example>>,
        T4,
        T5,
    >)
        ensures
            r.slot_a() == self.slot_a(),
            r.slot_b() == self.slot_b(),
            r.slot_c() == value,
            r.slot_d() == self.slot_d(),
            r.slot_e() == self.slot_e(),
    {
        ExampleBuilder { a: self.a, b: self.b, c: value, d: self.d, e: self.e }
    }
}

impl<T1, T2, T3, T5> ExampleBuilder<T1, T2, T3, Unset, T5> {
    /// Sets `d`.
    pub fn d(self, value: usize) -> (r: ExampleBuilder<T1, T2, T3, usize, T5>)
        ensures
            r.slot_a() == self.slot_a(),
            r.slot_b() == self.slot_b(),
            r.slot_c() == self.slot_c(),
            r.slot_d() == value,
            r.slot_e() == self.slot_e(),
    {
        ExampleBuilder { a: self.a, b: self.b, c: self.c, d: value, e: self.e }
    }
}

impl<T1, T2, T3, T4> ExampleBuilder<T1, T2, T3, T4, Unset> {
    /// Sets `e`.
    pub fn e(self, value: Vec<String>) -> (r: ExampleBuilder<T1, T2, T3, T4, Vec<String>>)
        ensures
            r.slot_a() == self.slot_a(),
            r.slot_b() == self.slot_b(),
            r.slot_c() == self.slot_c(),
            r.slot_d() == self.slot_d(),
            r.slot_e() == value,
    {
        ExampleBuilder { a: self.a, b: self.b, c: self.c, d: self.d, e: value }
    }
}

impl ExampleBuilder<String, Box<u32>, Option<Box<Example>>, usize, Vec<String>> {
    /// The record that holds what the slots hold. It exists only for a
    /// builder in which every slot is set.
    pub fn build(self) -> (r: Example)
        ensures
            r.field_a() == self.slot_a(),
            r.field_b() == self.slot_b(),
            r.field_c() == self.slot_c(),
            r.field_d() == self.slot_d(),
            r.field_e() == self.slot_e(),
    {
        Example { a: self.a, b: self.b, c: self.c, d: self.d, e: self.e }
    }
}

impl Example {
    /// The field `a`.
    pub fn get_a(&self) -> (r: &String)
        ensures
            *r == self.field_a(),
    {
        &self.a
    }

    /// What the field `b` points to.
    pub fn get_b(&self) -> (r: u32)
        ensures
            r == *self.field_b(),
    {
        *self.b
    }

    /// The field `c`.
    pub fn get_c(&self) -> (r: &Option<Box<Example>>)
        ensures
            *r == self.field_c(),
    {
        &self.c
    }

    /// The field `d`.
    pub fn get_d(&self) -> (r: usize)
        ensures
            r == self.field_d(),
    {
        self.d
    }

    /// The field `e`.
    pub fn get_e(&self) -> (r: &Vec<String>)
        ensures
            *r == self.field_e(),
    {
        &self.e
    }
}

} // verus!
