//! Vectors whose items are handed on one by one.

use vstd::prelude::*;

verus! {

/// The items from the last to the first, so that popping hands them out from
/// the first to the last.
pub fn reversed<T>(v: Vec<T>) -> (r: Vec<T>)
    ensures
        r@ == v@.reverse(),
{
    let ghost all = v@;
    let mut rest = v;
    let mut out: Vec<T> = Vec::new();
    assert(all.reverse() =~= out@ + rest@.reverse());
    while rest.len() > 0
        invariant
            all.reverse() == out@ + rest@.reverse(),
        decreases rest@.len(),
    {
        let ghost before = rest@;
        let ghost done = out@;
        if let Some(item) = rest.pop() {
            out.push(item);
            assert(before =~= rest@.push(item));
            assert(done + before.reverse() =~= out@ + rest@.reverse());
        }
    }
    assert(out@ =~= all.reverse());
    out
}

} // verus!
