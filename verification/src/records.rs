//! A hand-rolled iterator over employee records.
//!
//! `Employee_Records` hands out the stored employee names one at a time,
//! front first. The standard iterator trait is closed to verified types
//! here, so `next` is an inherent method with the same behaviour: the first
//! name, or `None` once the records are exhausted.

use vstd::prelude::*;

verus! {

/// One employee: a name and a salary.
pub struct Employee {
    /// The employee's name.
    pub name: String,
    /// The employee's salary.
    pub salary: i32,
}

/// A database of employees that can be drained of its names in order.
#[allow(non_camel_case_types)]
pub struct Employee_Records {
    /// The employees still to be handed out, front first.
    pub employee_db: Vec<Employee>,
}

impl Employee_Records {
    /// Hands out the name of the first remaining employee and drops that
    /// record, or returns `None` when no records remain.
    pub fn next(&mut self) -> (r: Option<String>)
        ensures
            old(self).employee_db@.len() == 0 ==> r is None && final(self).employee_db@
                == old(self).employee_db@,
            old(self).employee_db@.len() > 0 ==> (r matches Some(name) && name@ == old(
                self,
            ).employee_db@[0].name@ && final(self).employee_db@ == old(
                self,
            ).employee_db@.drop_first()),
    {
        if self.employee_db.len() != 0 {
            let result = self.employee_db[0].name.clone();
            self.employee_db.remove(0);
            proof {
                assert(self.employee_db@ =~= old(self).employee_db@.drop_first());
            }
            Some(result)
        } else {
            None
        }
    }
}

} // verus!
