//! Validation of operator-selected indices.

use vstd::prelude::*;

verus! {

/// The compute half of an index prompt: an index read from the operator,
/// if any, is accepted exactly when it lies below `limit`.
pub fn select_index(index: Option<usize>, limit: usize) -> (r: Option<usize>)
    ensures
        r == (match index {
            Some(i) => if i < limit {
                Some(i)
            } else {
                None
            },
            None => None::<usize>,
        }),
{
    match index {
        Some(i) => if i < limit {
            Some(i)
        } else {
            None
        },
        None => None,
    }
}

} // verus!
