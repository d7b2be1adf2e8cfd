//! A small-vector scratch buffer, from the `smallvec` crate, used while
//! marshaling the handle lists that are almost always short: a few items
//! live on the stack, longer lists spill to the heap.

use vstd::prelude::*;

use smallvec::SmallVec;

verus! {

/// A scratch vector of raw handles backed by `smallvec::SmallVec`, sized so
/// that the common bind-group-layout counts stay on the stack.
#[verifier::external_body]
pub struct HandleScratch {
    inner: SmallVec<[usize; 4]>,
}

/// The handles a scratch vector holds, in order.
pub uninterp spec fn scratch_handles(v: HandleScratch) -> Seq<usize>;

/// Relies on smallvec::SmallVec::new: a freshly constructed small vector
/// holds nothing.
#[verifier::external_body]
pub(crate) fn scratch_new() -> (v: HandleScratch)
    ensures
        scratch_handles(v) == Seq::<usize>::empty(),
{
    HandleScratch { inner: SmallVec::new() }
}

/// Relies on smallvec::SmallVec::push: appends the item at the back, keeping
/// everything already held.  The length bound keeps the vector far from the
/// capacity overflow on which `push` would abort.
#[verifier::external_body]
pub(crate) fn scratch_push(v: &mut HandleScratch, x: usize)
    requires
        scratch_handles(*old(v)).len() < 0x1000_0000,
    ensures
        scratch_handles(*final(v)) == scratch_handles(*old(v)).push(x),
{
    v.inner.push(x)
}

/// Relies on smallvec::SmallVec::into_vec: hands the held items out as a
/// vector, in order.
#[verifier::external_body]
pub(crate) fn scratch_into_vec(v: HandleScratch) -> (r: Vec<usize>)
    ensures
        r@ == scratch_handles(v),
{
    v.inner.into_vec()
}

} // verus!
