//! Vectors.

use vstd::prelude::*;

verus! {

/// The items of `items` in the opposite order.
pub fn reversed<T>(items: Vec<T>) -> (turned: Vec<T>)
    ensures
        turned@.len() == items@.len(),
        forall|i: int| 0 <= i < items@.len() ==> turned@[i] == items@[items@.len() - 1 - i],
{
    let mut rest = items;
    let mut turned: Vec<T> = Vec::new();
    let ghost total = items@.len();
    while rest.len() > 0
        invariant
            total == items@.len(),
            rest@.len() + turned@.len() == total,
            forall|i: int| 0 <= i < rest@.len() ==> rest@[i] == items@[i],
            forall|i: int| 0 <= i < turned@.len() ==> turned@[i] == items@[total - 1 - i],
        decreases rest.len(),
    {
        let last = rest.pop().unwrap();
        turned.push(last);
    }
    turned
}

} // verus!
