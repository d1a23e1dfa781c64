//! A record that is taken apart as soon as it is passed.

use vstd::prelude::*;

verus! {

pub struct S {
    name: String,
    greeting: String,
    answer: u32,
}

/// Takes `s` apart into its three fields, and drops them.
#[allow(non_snake_case)]
#[allow(unused_variables)]
pub fn match_struct_S(s: S) {
    let S { name: test, greeting, answer } = s;
}

} // verus!
