//! The laws of the handle-ownership model, stated and proved over the step
//! relations that the executable operations are specified by.

use vstd::prelude::*;

use crate::registry::{
    create_step, install_step, release_step, retain_step, NativeCall, ProcTable, Registry,
};

verus! {

/// How many entries of the call log are exactly the call `c`.
pub open spec fn call_count(calls: Seq<NativeCall>, c: NativeCall) -> int
    decreases calls.len(),
{
    if calls.len() == 0 {
        0
    } else {
        call_count(calls.drop_last(), c) + if calls.last() == c {
            1int
        } else {
            0int
        }
    }
}

/// How many times the call log releases handle `h`.
pub open spec fn release_count(calls: Seq<NativeCall>, h: usize) -> int {
    call_count(calls, NativeCall::Release { handle: h })
}

pub proof fn lemma_call_count_push(calls: Seq<NativeCall>, pushed: NativeCall, c: NativeCall)
    ensures
        call_count(calls.push(pushed), c) == call_count(calls, c) + if pushed == c {
            1int
        } else {
            0int
        },
{
    assert(calls.push(pushed).drop_last() =~= calls);
}

/// Extending a log only with entries other than `c` leaves the count of `c`
/// as it was.
pub proof fn lemma_call_count_extend_absent(pre: Seq<NativeCall>, post: Seq<NativeCall>, c: NativeCall)
    requires
        pre.len() <= post.len(),
        post.subrange(0, pre.len() as int) == pre,
        forall|j: int| pre.len() <= j < post.len() ==> post[j] != c,
    ensures
        call_count(post, c) == call_count(pre, c),
    decreases post.len() - pre.len(),
{
    if post.len() > pre.len() {
        let shorter = post.drop_last();
        assert(shorter.subrange(0, pre.len() as int) =~= pre);
        lemma_call_count_extend_absent(pre, shorter, c);
    } else {
        assert(post =~= pre);
    }
}

/// Law: duplicating a clonable handle and then releasing both copies,
/// in either role order, releases the native object exactly twice and never
/// releases a dead handle; after releasing only one copy the object is still
/// referenced by the other.  If the handle held the only reference before the
/// duplication, the object is destroyed by the second release, exactly then.
pub proof fn lemma_clone_then_release_both(
    s0: Registry,
    s1: Registry,
    s2: Registry,
    s3: Registry,
    h: usize,
)
    requires
        s0.object(h).refcount < u64::MAX,
        retain_step(s0, s1, h),
        release_step(s1, s2, h),
        release_step(s2, s3, h),
    ensures
        s2.is_live(h),
        s3.object(h).refcount == s0.object(h).refcount - 1,
        s0.object(h).refcount == 1 ==> !s3.is_live(h),
        s3.calls@ =~= s0.calls@ + seq![
            NativeCall::Retain { handle: h },
            NativeCall::Release { handle: h },
            NativeCall::Release { handle: h },
        ],
        release_count(s3.calls@, h) == release_count(s0.calls@, h) + 2,
{
    let rel = NativeCall::Release { handle: h };
    lemma_call_count_push(s0.calls@, NativeCall::Retain { handle: h }, rel);
    lemma_call_count_push(s1.calls@, rel, rel);
    lemma_call_count_push(s2.calls@, rel, rel);
    assert(s3.calls@ =~= s0.calls@ + seq![
        NativeCall::Retain { handle: h },
        NativeCall::Release { handle: h },
        NativeCall::Release { handle: h },
    ]);
}

/// Law: two creation calls in a row yield two distinct handles, both live
/// afterwards and both fresh (neither names an object that existed before
/// its creation); each creation appends exactly one native call, so under
/// the registry's serialization the two calls' windows cannot interleave.
pub proof fn lemma_creates_yield_distinct_handles(
    s0: Registry,
    s1: Registry,
    s2: Registry,
    h1: usize,
    h2: usize,
)
    requires
        create_step(s0, s1, h1),
        create_step(s1, s2, h2),
    ensures
        h1 != h2,
        !s0.is_handle(h1),
        !s1.is_handle(h2),
        s2.is_live(h1),
        s2.is_live(h2),
        s2.calls@.len() == s0.calls@.len() + 2,
        s2.calls@.subrange(0, s0.calls@.len() as int) == s0.calls@,
{
    assert(s1.object(h1) == s2.objects@.subrange(0, s1.objects@.len() as int)[h1 - 1]);
    assert(s2.calls@.subrange(0, s0.calls@.len() as int) =~= s1.calls@.subrange(
        0,
        s0.calls@.len() as int,
    ));
}

/// A chain of creation calls: `states[i]` steps to `states[i + 1]` by
/// creating `handles[i]`.
pub open spec fn create_chain(states: Seq<Registry>, handles: Seq<usize>) -> bool {
    &&& states.len() == handles.len() + 1
    &&& forall|i: int| 0 <= i < handles.len() ==> create_step(
        #[trigger] states[i],
        states[i + 1],
        handles[i],
    )
}

/// Law: any number of creation calls in a row yield pairwise distinct
/// handles, all still live when the last call returns, and each call appends
/// exactly one entry to the call log, so the serialized calls' windows
/// cannot interleave however many callers share the device.
pub proof fn lemma_chain_of_creates_yields_distinct_live_handles(
    states: Seq<Registry>,
    handles: Seq<usize>,
)
    requires
        create_chain(states, handles),
    ensures
        forall|i: int, j: int| #![trigger handles[i], handles[j]]
            0 <= i < j < handles.len() ==> handles[i] != handles[j],
        forall|i: int| 0 <= i < handles.len() ==> states.last().is_live(#[trigger] handles[i]),
        states.last().calls@.len() == states[0].calls@.len() + handles.len(),
    decreases handles.len(),
{
    if handles.len() > 0 {
        let n = handles.len() as int;
        assert forall|i: int| 0 <= i < n - 1 implies create_step(
            states.drop_last()[i],
            #[trigger] states.drop_last()[i + 1],
            handles.drop_last()[i],
        ) by {
            assert(create_step(states[i], states[i + 1], handles[i]));
        }
        lemma_chain_of_creates_yields_distinct_live_handles(
            states.drop_last(),
            handles.drop_last(),
        );
        let pre = states[n - 1];
        let post = states[n];
        assert(create_step(pre, post, handles[n - 1]));
        assert forall|i: int| 0 <= i < n implies post.is_live(#[trigger] handles[i]) by {
            if i < n - 1 {
                assert(states.drop_last().last().is_live(handles.drop_last()[i]));
                assert(post.objects@[handles[i] - 1] == post.objects@.subrange(
                    0,
                    pre.objects@.len() as int,
                )[handles[i] - 1]);
            }
        }
        assert forall|i: int, j: int| #![trigger handles[i], handles[j]]
            0 <= i < j < n implies handles[i] != handles[j] by {
            if j == n - 1 {
                assert(states.drop_last().last().is_live(handles.drop_last()[i]));
            } else {
                assert(handles.drop_last()[i] != handles.drop_last()[j]);
            }
        }
    }
}

/// Law: the wrapper-level form of the clone/release discipline.  Duplicating
/// a device-owned wrapper and then releasing both wrappers, whatever the
/// order of the two, releases the wrapped native object exactly twice and
/// never a dead handle; after the first release the object is still
/// referenced by the remaining wrapper; if the wrapper held the only
/// reference before the duplication, the object dies exactly at the second
/// release.  The cascading releases of a device teardown never touch the
/// wrapped object, because its kind is a resource kind, never the device,
/// queue or instance kind of the cell's own handles.
pub proof fn lemma_wrapper_clone_then_release_both(
    s0: Registry,
    s1: Registry,
    s2: Registry,
    s3: Registry,
    h: usize,
    d: usize,
)
    requires
        s0.object(h).refcount < u64::MAX,
        s0.device_alive(d),
        s0.object(h).kind != crate::registry::HandleKind::Device,
        s0.object(h).kind != crate::registry::HandleKind::Queue,
        s0.object(h).kind != crate::registry::HandleKind::Instance,
        crate::registry::clone_handle_step(s0, s1, h, d),
        crate::registry::drop_handle_step(s1, s2, h, d),
        crate::registry::drop_handle_step(s2, s3, h, d),
    ensures
        s2.is_live(h),
        s3.object(h).refcount == s0.object(h).refcount - 1,
        s0.object(h).refcount == 1 ==> !s3.is_live(h),
        release_count(s3.calls@, h) == release_count(s0.calls@, h) + 2,
{
    let rel = NativeCall::Release { handle: h };
    let sd = s0.shared_device(d);
    lemma_call_count_push(s0.calls@, NativeCall::Retain { handle: h }, rel);
    let m1 = choose|mid: Registry|
        release_step(s1, mid, h) && if s1.shared_device(d).strong > 1 {
            crate::registry::device_unshare_step(mid, s2, d)
        } else {
            crate::registry::device_drop_last_step(mid, s2, d)
        };
    lemma_call_count_push(s1.calls@, rel, rel);
    assert(release_count(m1.calls@, h) == release_count(s1.calls@, h) + 1);
    if s1.shared_device(d).strong > 1 {
        assert(s2.calls == m1.calls);
    } else {
        assert(s2.calls@.subrange(0, m1.calls@.len() as int) =~= m1.calls@);
        lemma_call_count_extend_absent(m1.calls@, s2.calls@, rel);
    }
    let m2 = choose|mid: Registry|
        release_step(s2, mid, h) && if s2.shared_device(d).strong > 1 {
            crate::registry::device_unshare_step(mid, s3, d)
        } else {
            crate::registry::device_drop_last_step(mid, s3, d)
        };
    lemma_call_count_push(s2.calls@, rel, rel);
    assert(release_count(m2.calls@, h) == release_count(s2.calls@, h) + 1);
    if s2.shared_device(d).strong > 1 {
        assert(s3.calls == m2.calls);
    } else {
        assert(s3.calls@.subrange(0, m2.calls@.len() as int) =~= m2.calls@);
        lemma_call_count_extend_absent(m2.calls@, s3.calls@, rel);
    }
}

/// Law: at most one installation takes effect.  Once a table is set, a later
/// install is a silent no-op, so the first installed table stays.
pub proof fn lemma_install_at_most_once(
    s0: Registry,
    s1: Registry,
    s2: Registry,
    t1: ProcTable,
    t2: ProcTable,
)
    requires
        !s0.initialized(),
        install_step(s0, s1, t1),
        install_step(s1, s2, t2),
    ensures
        s1.table == Some(t1),
        s2.table == Some(t1),
{
}

} // verus!

