//! Selection among the fixed set of menu operations.

use vstd::prelude::*;

verus! {

/// How many operations the menu offers.
pub const OPERATION_COUNT: usize = 7;

/// Validates the operator's choice among the fixed operations.
pub struct OperationController {}

impl OperationController {
    /// The compute half of choosing an operation: an index read from the
    /// operator, if any, is accepted exactly when it names an operation.
    pub fn choose_operation(index: Option<usize>) -> (r: Option<usize>)
        ensures
            r == (match index {
                Some(i) => if i < OPERATION_COUNT {
                    Some(i)
                } else {
                    None
                },
                None => None::<usize>,
            }),
    {
        match index {
            Some(i) => if i < OPERATION_COUNT {
                Some(i)
            } else {
                None
            },
            None => None,
        }
    }
}

} // verus!
