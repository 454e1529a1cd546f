//! Contacts: the next customer number.
use vstd::prelude::*;

use crate::employee_service::{next_number, next_number_spec, number_prefix, year_prefix};

verus! {

/// The contact service: the numbering of customers.
pub struct ContactService;

impl ContactService {
    /// The next customer number where automatic numbering is on (`None`
    /// where it is off): the prefix, with the year where numbering restarts
    /// every year, then one more than the largest number the existing
    /// customer numbers carry after that prefix (or `start`), zero-padded
    /// to `min_length`. Also `None` where the number overflows.
    pub fn auto_assign_customer_number(
        auto: bool,
        existing: &Vec<Option<String>>,
        prefix: &str,
        year: &str,
        restart_yearly: bool,
        start: i32,
        min_length: usize,
    ) -> (r: Option<String>)
        ensures
            !auto ==> r is None,
            auto ==> match next_number_spec(
                existing@,
                number_prefix(prefix@, year@, restart_yearly),
                start,
                min_length as int,
            ) {
                Some(n) => r matches Some(x) && x@ == n,
                None => r is None,
            },
    {
        if !auto {
            return None;
        }
        let p = year_prefix(prefix, year, restart_yearly);
        next_number(existing, p.as_str(), start, min_length)
    }
}

} // verus!
