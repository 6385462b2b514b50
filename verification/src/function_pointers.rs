//! User validation through function pointers.
//!
//! `is_valid_user` combines two named validator functions handed to it as
//! values; `validate_user_simple` and `validate_user_advance` are the
//! validators the caller is expected to hand over.

use vstd::prelude::*;

verus! {

/// Reports whether both validators accept the user: the simple one their
/// name, the advanced one their age. The advanced validator is consulted
/// only when the simple one accepts.
pub fn is_valid_user<V1, V2>(
    name: &str,
    age: i32,
    simple_validator: V1,
    advance_validator: V2,
) -> (r: bool) where V1: FnOnce(&str) -> bool, V2: Fn(i32) -> bool
    requires
        call_requires(simple_validator, (name,)),
        call_requires(advance_validator, (age,)),
    ensures
        r ==> call_ensures(simple_validator, (name,), true) && call_ensures(
            advance_validator,
            (age,),
            true,
        ),
        !r ==> call_ensures(simple_validator, (name,), false) || call_ensures(
            advance_validator,
            (age,),
            false,
        ),
{
    simple_validator(name) && advance_validator(age)
}

/// Accepts any non-empty name.
pub fn validate_user_simple(name: &str) -> (r: bool)
    ensures
        r == (name@.len() != 0),
{
    !name.is_empty()
}

/// Accepts an age of thirty or more.
pub fn validate_user_advance(age: i32) -> (r: bool)
    ensures
        r == (age >= 30),
{
    age >= 30
}

} // verus!
