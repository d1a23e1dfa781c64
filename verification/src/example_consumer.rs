//! Calls of a callable with named arguments, as a crate that uses it writes
//! them: through the builder of its arguments, through the builder and the
//! argument tuple, and directly.

use vstd::prelude::*;
use crate::base::lemma_apply2;
use crate::base::Call;
use crate::base::Deconstruct;
use crate::example_api::module;
use crate::example_api::module::is_a_test;
use crate::example_api::module::spec_is_a_test;
use crate::example_api::module::Is_a_test;

verus! {

/// What every call in this file returns.
pub open spec fn spec_greeting() -> Seq<char> {
    "1) Hello hi, there The end."@
}

proof fn lemma_greeting(name: Option<String>, message: String)
    requires
        name is Some,
        name->Some_0@ == "hi"@,
        message@ == "there"@,
    ensures
        spec_is_a_test(name, message) == spec_greeting(),
{
    reveal_strlit("1) Hello ");
    reveal_strlit("hi");
    reveal_strlit(", ");
    reveal_strlit("there");
    reveal_strlit(" The end.");
    reveal_strlit("1) Hello hi, there The end.");
}

/// Names the arguments in any order, builds them, and calls.
pub fn test_plain_macro() -> (r: String)
    ensures
        r@ == spec_greeting(),
{
    let temp = Is_a_test::builder().message("there".to_owned()).name("hi".to_owned()).build();
    proof {
        lemma_greeting(temp.name, temp.message);
    }
    is_a_test(temp.name, temp.message)
}

/// The same call, with the callable named through its module.
pub fn test_nested_macro() -> (r: String)
    ensures
        r@ == spec_greeting(),
{
    let temp = module::Is_a_test::builder().message("there".to_owned()).name(
        "hi".to_owned(),
    ).build();
    proof {
        lemma_greeting(temp.name, temp.message);
    }
    module::is_a_test(temp.name, temp.message)
}

/// Names the arguments, takes the builder apart into the argument tuple,
/// and applies the callable to it.
pub fn test_plain_path() -> (r: String)
    ensures
        r@ == spec_greeting(),
{
    let built = Is_a_test::builder().message("there".to_owned()).name("hi".to_owned());
    let deco = built.deconstruct();
    proof {
        lemma_greeting(deco.0, deco.1);
        lemma_apply2(is_a_test, deco);
    }
    is_a_test.apply(deco)
}

/// The same call, with the callable named through its module.
pub fn test_nested_path() -> (r: String)
    ensures
        r@ == spec_greeting(),
{
    let built = module::Is_a_test::builder().message("there".to_owned()).name("hi".to_owned());
    let deco = built.deconstruct();
    proof {
        lemma_greeting(deco.0, deco.1);
        lemma_apply2(module::is_a_test, deco);
    }
    module::is_a_test.apply(deco)
}

/// Calls the callable directly, with the optional argument wrapped.
pub fn test_plain_fn() -> (r: String)
    ensures
        r@ == spec_greeting(),
{
    let name = Some("hi".to_owned());
    let message = "there".to_owned();
    proof {
        lemma_greeting(name, message);
    }
    is_a_test(name, message)
}

/// The same call, with the callable named through its module.
pub fn test_nested_fn() -> (r: String)
    ensures
        r@ == spec_greeting(),
{
    let name = Some("hi".to_owned());
    let message = "there".to_owned();
    proof {
        lemma_greeting(name, message);
    }
    module::is_a_test(name, message)
}

} // verus!
