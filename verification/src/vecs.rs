//! Small executable helpers over `Vec`.

use vstd::prelude::*;

verus! {

/// Replaces the element at `i`, shifting nothing.
pub fn vec_update<T>(v: &mut Vec<T>, i: usize, x: T)
    requires
        i < old(v)@.len(),
    ensures
        final(v)@ == old(v)@.update(i as int, x),
{
    v.remove(i);
    v.insert(i, x);
    proof {
        assert(v@ =~= old(v)@.update(i as int, x));
    }
}

} // verus!
