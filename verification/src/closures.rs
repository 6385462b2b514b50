//! User validation through closures.
//!
//! The same combination as the function-pointer variant, but written for
//! closure arguments: the simple validator may be called once and may have
//! captured values from its surroundings by move.

use vstd::prelude::*;

verus! {

/// Reports whether both validators accept the user: the simple one their
/// name, the advanced one their age. The advanced validator is consulted
/// only when the simple one accepts.
pub fn is_valid_user<V1, V2>(
    name: &str,
    age: i32,
    simple_validator: V1,
    advance_validator: V2,
) -> (r: bool) where V1: FnOnce(&str) -> bool, V2: Fn(i32) -> bool
    requires
        call_requires(simple_validator, (name,)),
        call_requires(advance_validator, (age,)),
    ensures
        r ==> call_ensures(simple_validator, (name,), true) && call_ensures(
            advance_validator,
            (age,),
            true,
        ),
        !r ==> call_ensures(simple_validator, (name,), false) || call_ensures(
            advance_validator,
            (age,),
            false,
        ),
{
    simple_validator(name) && advance_validator(age)
}

} // verus!
