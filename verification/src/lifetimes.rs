//! Functions and a struct whose contracts are shaped by lifetimes.
//!
//! `picking_int` hands back a `'static` reference regardless of its
//! arguments, `return_str` and `return_str_2` show elided and explicit
//! lifetimes on the same identity function, and `ArrayProcessor` borrows a
//! slice whose replacement returns the borrow it held before.

use vstd::prelude::*;

verus! {

/// Picks a value to return: always the static integer six, whatever the two
/// candidates hold.
pub fn picking_int(i: &i32, j: &i32) -> (r: &'static i32)
    ensures
        *r == 6,
{
    let x: &'static i32 = &6;
    x
}

/// Returns its argument unchanged; the lifetime of the result is elided.
pub fn return_str(s: &str) -> (r: &str)
    ensures
        r@ == s@,
{
    s
}

/// Returns its argument unchanged, with the lifetime written out.
pub fn return_str_2<'a>(s: &'a str) -> (r: &'a str)
    ensures
        r@ == s@,
{
    s
}

/// A processor that borrows the slice of data it currently works on.
pub struct ArrayProcessor<'a> {
    /// The data currently held.
    pub data: &'a [i32],
}

impl<'a> ArrayProcessor<'a> {
    /// Replaces the held data with `new_data` and returns the slice that
    /// was held before.
    pub fn update_data<'b>(&'b mut self, new_data: &'a [i32]) -> (r: &[i32])
        ensures
            r@ == old(self).data@,
            final(self).data@ == new_data@,
    {
        let previous_data = self.data;
        self.data = new_data;
        previous_data
    }
}

} // verus!
