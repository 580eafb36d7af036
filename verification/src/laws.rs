//! Laws of the suspension protocol, stated over the environment's
//! mathematical view and proved once and for all. Together with the
//! well-formedness clause in every kernel operation's contract, they pin
//! down the protocol's global behaviour: the shape of the chain, the
//! permanence of terminal states, the single delivery of a panic payload,
//! the exactness of the suspend/resume round trip, the stability of
//! handles, and the bound on the stack pool.

use vstd::prelude::*;

use crate::env::{enter_tr, enterable, lemma_enter_wf, spawn_tr, yield_tr, EnvV};
use crate::fiber::{resume_tr, Fiber, FiberError, Slice, State};
use crate::stack::POOL_CAP;

verus! {

/// The chain of a well-formed environment always has the synthetic root
/// fiber at its bottom and the running fiber at its top; at most one
/// fiber is `Running`, namely that top, every other fiber on the chain is
/// `Normal`, and a fiber off the chain is in neither of those states.
/// Every kernel operation requires and ensures well-formedness, so this
/// holds after any sequence of spawns, resumes and yields.
pub proof fn lemma_chain_shape(v: EnvV)
    requires
        v.wf(),
    ensures
        v.chain.len() >= 1,
        v.chain[0] == 0usize,
        v.fibers[v.chain.last() as int].state is Running,
        forall|id: int|
            0 <= id < v.fibers.len() && (#[trigger] v.fibers[id]).state is Running ==> id
                == v.chain.last() as int,
        forall|id: int|
            0 <= id < v.fibers.len() && !v.chain.contains(id as usize) ==> !(
            #[trigger] v.fibers[id]).state.is_on_chain_state(),
{
    assert forall|id: int|
        0 <= id < v.fibers.len() && (#[trigger] v.fibers[id]).state is Running implies id
        == v.chain.last() as int by {
        assert(v.chain.contains(id as usize));
        let i = choose|i: int| 0 <= i < v.chain.len() && v.chain[i] == id as usize;
        if i < v.chain.len() - 1 {
            assert(v.fibers[id].state is Normal);
        }
    }
}

/// Resuming a `Finished` fiber is an idempotent no-op: any later resume,
/// with any slice, observes it `Finished`, leaves the whole environment
/// untouched, and succeeds.
pub proof fn lemma_resume_finished_noop(v: EnvV, id: int, slice: Slice)
    requires
        v.wf(),
        0 <= id < v.fibers.len(),
        v.fibers[id].state is Finished,
    ensures
        resume_tr(v, id, slice).0 == v,
        resume_tr(v, id, slice).1 == ok_unit(),
{
}

/// The successful unit result, named so the laws can state it.
pub open spec fn ok_unit() -> Result<(), FiberError> {
    Ok(())
}

/// Terminal states are forever: no spawn, no yield and no resume moves a
/// fiber out of `Finished` or `Panicked`. In particular a fiber observed
/// `Finished` once is observed `Finished` by everything that follows.
pub proof fn lemma_terminal_preserved(
    v: EnvV,
    f: Fiber,
    st: State,
    id: int,
    rid: int,
    slice: Slice,
)
    requires
        v.wf(),
        0 <= id < v.fibers.len(),
        v.fibers[id].state.is_terminal(),
        0 <= rid < v.fibers.len(),
    ensures
        spawn_tr(v, f).fibers[id].state == v.fibers[id].state,
        yield_tr(v, st).fibers[id].state == v.fibers[id].state,
        resume_tr(v, rid, slice).0.fibers[id].state == v.fibers[id].state,
{
    if v.chain.len() > 1 {
        let t = v.chain.last() as int;
        let p = v.chain[v.chain.len() - 2] as int;
        assert(v.fibers[t].state is Running);
        assert(v.fibers[p].state is Normal);
    }
    if enterable(v.fibers[rid].state) {
        lemma_enter_wf(v, rid);
        let entered = enter_tr(v, rid);
        assert(v.fibers[v.chain.last() as int].state is Running);
        assert(entered.chain.last() == rid as usize);
    }
}

/// A panicking fiber's payload is delivered exactly once. The resume that
/// runs the panicking slice returns the payload as its error and leaves
/// the fiber `Panicked` with the in-flight slot empty; any later resume
/// of the same fiber, with any slice, changes nothing and is rejected as
/// resume-after-panic, which carries no payload.
pub proof fn lemma_panic_delivered_once(v: EnvV, id: int, msg: String, slice2: Slice)
    requires
        v.wf(),
        0 <= id < v.fibers.len(),
        enterable(v.fibers[id].state),
    ensures
        resume_tr(v, id, Slice::Panic(msg)).1 == Result::<(), FiberError>::Err(
            FiberError::Panicked(msg),
        ),
        resume_tr(v, id, Slice::Panic(msg)).0.fibers[id].state is Panicked,
        resume_tr(v, id, Slice::Panic(msg)).0.slot is None,
        resume_tr(resume_tr(v, id, Slice::Panic(msg)).0, id, slice2).0 == resume_tr(
            v,
            id,
            Slice::Panic(msg),
        ).0,
        resume_tr(resume_tr(v, id, Slice::Panic(msg)).0, id, slice2).1 == Result::<(
        ), FiberError>::Err(FiberError::ResumeAfterPanic),
{
    lemma_enter_wf(v, id);
    let entered = enter_tr(v, id);
    assert(entered.chain.last() == id as usize);
    assert(entered.chain[entered.chain.len() - 2] == v.chain.last());
    assert(v.chain.last() != id as usize);
}

/// The suspend/resume round trip is exact: resuming a `Suspended` fiber
/// whose slice yields `Suspended` again (the fiber called `sched` and its
/// parent resumed it) restores the parent's execution site exactly — the
/// whole environment, chain, states, stacks, pool and panic slot, is the
/// one from before the resume, and the resume reports success.
pub proof fn lemma_sched_round_trip(v: EnvV, id: int)
    requires
        v.wf(),
        0 <= id < v.fibers.len(),
        v.fibers[id].state is Suspended,
    ensures
        resume_tr(v, id, Slice::Yield(State::Suspended)).0 == v,
        resume_tr(v, id, Slice::Yield(State::Suspended)).1 == ok_unit(),
{
    lemma_enter_wf(v, id);
    let cur = v.chain.last() as int;
    let entered = enter_tr(v, id);
    let res = yield_tr(entered, State::Suspended);
    assert(entered.chain.last() == id as usize);
    assert(entered.chain[entered.chain.len() - 2] == v.chain.last());
    assert(res.fibers =~= v.fibers);
    assert(res.chain =~= v.chain);
    assert(res =~= v);
}

/// Handles are stable. Spawning appends a record and moves none; a resume
/// never adds or removes records and never changes a record's name: the
/// index a handle carries denotes the same fiber, under the same name,
/// for the life of the environment.
pub proof fn lemma_handle_stable(v: EnvV, f: Fiber, rid: int, slice: Slice)
    requires
        v.wf(),
        0 <= rid < v.fibers.len(),
    ensures
        spawn_tr(v, f).fibers.len() == v.fibers.len() + 1,
        forall|k: int|
            0 <= k < v.fibers.len() ==> spawn_tr(v, f).fibers[k] == #[trigger] v.fibers[k],
        resume_tr(v, rid, slice).0.fibers.len() == v.fibers.len(),
        forall|k: int|
            0 <= k < v.fibers.len() ==> resume_tr(v, rid, slice).0.fibers[k].name == (
            #[trigger] v.fibers[k]).name,
{
}

/// The stack pool of a well-formed environment never exceeds its cap.
pub proof fn lemma_pool_capped(v: EnvV)
    requires
        v.wf(),
    ensures
        v.pool.len() <= POOL_CAP,
{
}

} // verus!
