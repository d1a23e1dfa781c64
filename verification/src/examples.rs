//! A callable with a named argument, and a call of it.

use vstd::prelude::*;
use crate::examples::ex::is_a_test;
use crate::examples::ex::Is_a_test;

pub mod ex;

verus! {

/// Calls `is_a_test` with both of its arguments named.
pub fn main() -> (r: String)
    ensures
        r@ == "1) Dear Bill, It's working! The end."@,
{
    let temp = Is_a_test::builder().name(Some("Bill".to_owned())).message(
        "It's working!".to_owned(),
    ).build();
    proof {
        reveal_strlit("1) Dear ");
        reveal_strlit("Bill");
        reveal_strlit(", ");
        reveal_strlit("It's working!");
        reveal_strlit(" The end.");
        reveal_strlit("1) Dear Bill, It's working! The end.");
        assert(crate::examples::ex::spec_is_a_test(temp.name, temp.message)
            =~= "1) Dear Bill, It's working! The end."@);
    }
    is_a_test(temp.name, temp.message)
}

} // verus!
