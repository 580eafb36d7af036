//! The per-thread environment: the fiber table, the chain of active fibers,
//! the shared stack pool, the registered signals, and the in-flight panic
//! slot.
//!
//! The environment is the kernel's whole state. Its invariant [`EnvV::wf`]
//! pins the shape the suspension protocol preserves: the chain is never
//! empty, its bottom is always the synthetic root fiber, exactly the top of
//! the chain is `Running`, every other fiber on the chain is `Normal`
//! (waiting on its own child), and no fiber off the chain is in either of
//! those states. Every operation of the kernel is a small transition on the
//! environment's mathematical view, stated here as a spec function and
//! proved to preserve the invariant.

use vstd::prelude::*;

use crate::fiber::{panic_line, report_panic_line, Fiber, Handle, State};
use crate::signal::{read_signal_state, SignalState};
use crate::stack::{Stack, StackPool, POOL_CAP};

verus! {

/// The mathematical view of an environment: the fiber table, the chain of
/// active fiber indices (bottom first), the pooled stacks, the number of
/// registered signals, and the panic payload in transit, if any.
#[verifier::ext_equal]
pub struct EnvV {
    /// The fiber records, indexed by handle. Records are appended and never
    /// removed or moved, so an index denotes the same fiber for the life of
    /// the environment.
    pub fibers: Seq<Fiber>,
    /// The indices of the active fibers, bottom first; the bottom is the
    /// synthetic root fiber and the top is the one currently running.
    pub chain: Seq<usize>,
    /// The stacks cached in the pool.
    pub pool: Seq<Stack>,
    /// How many signals have been registered with this environment.
    pub n_signals: int,
    /// The panic payload captured from an unwinding fiber and not yet
    /// consumed by the `resume` that ran it.
    pub slot: Option<String>,
}

impl EnvV {
    /// A state's signal index, if it carries one, refers to a registered
    /// signal.
    pub open spec fn sig_ok(self, s: State) -> bool {
        match s {
            State::Pending(sid) => (sid as int) < self.n_signals,
            State::PendingTimeout(sid, _) => (sid as int) < self.n_signals,
            _ => true,
        }
    }

    /// A fiber record is well formed in this environment when its signal
    /// index, if any, is registered and its stack, if any, is well formed.
    pub open spec fn fiber_ok(self, f: Fiber) -> bool {
        &&& self.sig_ok(f.state)
        &&& (f.stack matches Some(s) ==> s.wf())
    }

    /// The environment invariant.
    pub open spec fn wf(self) -> bool {
        &&& self.fibers.len() >= 1
        &&& self.fibers.len() <= usize::MAX
        &&& self.chain.len() >= 1
        &&& self.chain[0] == 0usize
        &&& forall|i: int|
            0 <= i < self.chain.len() ==> (#[trigger] self.chain[i]) < self.fibers.len()
        &&& forall|i: int, j: int|
            #![trigger self.chain[i], self.chain[j]]
            0 <= i < j < self.chain.len() ==> self.chain[i] != self.chain[j]
        &&& self.fibers[self.chain.last() as int].state is Running
        &&& forall|i: int|
            #![trigger self.chain[i]]
            0 <= i < self.chain.len() - 1 ==> self.fibers[self.chain[i] as int].state is Normal
        &&& forall|id: int|
            0 <= id < self.fibers.len() && (#[trigger] self.fibers[id]).state.is_on_chain_state()
                ==> self.chain.contains(id as usize)
        &&& self.fibers[0].stack is None
        &&& forall|id: int|
            0 <= id < self.fibers.len() ==> self.fiber_ok(#[trigger] self.fibers[id])
        &&& self.pool.len() <= POOL_CAP
        &&& forall|i: int| 0 <= i < self.pool.len() ==> (#[trigger] self.pool[i]).wf()
    }
}

/// A fiber the direct policy may enter: not on a chain and not terminal,
/// that is `Suspended`, `Blocked`, `Pending` or `PendingTimeout`.
pub open spec fn enterable(s: State) -> bool {
    !s.is_on_chain_state() && !s.is_terminal()
}

/// A state the running fiber may yield with: never `Running` or `Normal`
/// (those are the chain's own states), and any signal index it carries must
/// be registered.
pub open spec fn yield_target_ok(v: EnvV, st: State) -> bool {
    &&& !st.is_on_chain_state()
    &&& v.sig_ok(st)
}

/// Appending a freshly spawned fiber record to the table.
pub open spec fn spawn_tr(v: EnvV, f: Fiber) -> EnvV {
    EnvV { fibers: v.fibers.push(f), ..v }
}

/// Entering the fiber at `id`: the running fiber moves to `Normal`, the
/// entered fiber to `Running`, and `id` is pushed on the chain. The swap of
/// register contexts that carries this out in a running system sits between
/// this transition and the matching yield.
pub open spec fn enter_tr(v: EnvV, id: int) -> EnvV {
    let cur = v.chain.last() as int;
    EnvV {
        fibers: v.fibers.update(cur, v.fibers[cur].with_state(State::Normal)).update(
            id,
            v.fibers[id].with_state(State::Running),
        ),
        chain: v.chain.push(id as usize),
        ..v
    }
}

/// Yielding the running fiber with target state `st`: the top of the chain
/// is popped and left in state `st`, and the fiber below it, which was
/// waiting in `Normal`, runs again. Yielding from the root fiber is a
/// no-op.
pub open spec fn yield_tr(v: EnvV, st: State) -> EnvV {
    if v.chain.len() <= 1 {
        v
    } else {
        let t = v.chain.last() as int;
        let p = v.chain[v.chain.len() - 2] as int;
        EnvV {
            fibers: v.fibers.update(t, v.fibers[t].with_state(st)).update(
                p,
                v.fibers[p].with_state(State::Running),
            ),
            chain: v.chain.drop_last(),
            ..v
        }
    }
}

/// The running fiber's function returned: the in-flight panic slot is
/// cleared and the fiber yields in the terminal state `Finished`.
pub open spec fn finish_tr(v: EnvV) -> EnvV {
    EnvV { slot: None, ..yield_tr(v, State::Finished) }
}

/// The running fiber's function unwound: the payload is captured in the
/// in-flight panic slot and the fiber yields in the terminal state
/// `Panicked`.
pub open spec fn panic_tr(v: EnvV, msg: String) -> EnvV {
    EnvV { slot: Some(msg), ..yield_tr(v, State::Panicked) }
}

/// Spawning a well-formed, off-chain fiber preserves the environment
/// invariant.
pub proof fn lemma_spawn_wf(v: EnvV, f: Fiber)
    requires
        v.wf(),
        v.fibers.len() < usize::MAX,
        !f.state.is_on_chain_state(),
        v.fiber_ok(f),
    ensures
        spawn_tr(v, f).wf(),
{
    let v2 = spawn_tr(v, f);
    assert forall|id: int|
        0 <= id < v2.fibers.len() && (#[trigger] v2.fibers[id]).state.is_on_chain_state()
        implies v2.chain.contains(id as usize) by {
        assert(id < v.fibers.len());
        assert(v.chain.contains(id as usize));
    }
}

/// Entering an enterable fiber preserves the environment invariant; such a
/// fiber is moreover never already on the chain.
pub proof fn lemma_enter_wf(v: EnvV, id: int)
    requires
        v.wf(),
        0 <= id < v.fibers.len(),
        enterable(v.fibers[id].state),
    ensures
        enter_tr(v, id).wf(),
        !v.chain.contains(id as usize),
        v.chain.last() != id as usize,
{
    let cur = v.chain.last() as int;
    assert(!v.chain.contains(id as usize)) by {
        if v.chain.contains(id as usize) {
            let i = choose|i: int| 0 <= i < v.chain.len() && v.chain[i] == id as usize;
            if i == v.chain.len() - 1 {
                assert(v.fibers[id].state is Running);
            } else {
                assert(v.fibers[id].state is Normal);
            }
        }
    }
    assert(cur != id);
    let v2 = enter_tr(v, id);
    let n2 = v2.chain.len();
    assert(v2.chain[0] == 0usize);
    assert(v2.fibers[v2.chain.last() as int].state is Running);
    assert forall|i: int| #![trigger v2.chain[i]] 0 <= i < n2 - 1 implies v2.fibers[v2.chain[i] as int].state is Normal by {
        assert(v2.chain[i] == v.chain[i]);
        if i == v.chain.len() - 1 {
            assert(v.chain[i] == cur as usize);
        } else {
            assert(v.chain[i] != v.chain[v.chain.len() - 1]);
            assert(v.chain[i] != id as usize);
        }
    }
    assert forall|fid: int|
        0 <= fid < v2.fibers.len() && (#[trigger] v2.fibers[fid]).state.is_on_chain_state()
        implies v2.chain.contains(fid as usize) by {
        if fid == id {
            assert(v2.chain[n2 - 1] == fid as usize);
        } else if fid == cur {
            assert(v.chain[v.chain.len() - 1] == fid as usize);
            assert(v2.chain[v.chain.len() - 1] == fid as usize);
        } else {
            assert(v.fibers[fid] == v2.fibers[fid]);
            assert(v.chain.contains(fid as usize));
            let i = choose|i: int| 0 <= i < v.chain.len() && v.chain[i] == fid as usize;
            assert(v2.chain[i] == fid as usize);
        }
    }
    assert forall|fid: int| 0 <= fid < v2.fibers.len() implies v2.fiber_ok(
        #[trigger] v2.fibers[fid],
    ) by {
        assert(v.fiber_ok(v.fibers[fid]));
    }
}

/// Yielding with a target state that is neither `Running` nor `Normal`
/// preserves the environment invariant.
pub proof fn lemma_yield_wf(v: EnvV, st: State)
    requires
        v.wf(),
        yield_target_ok(v, st),
    ensures
        yield_tr(v, st).wf(),
{
    if v.chain.len() <= 1 {
    } else {
        let n = v.chain.len();
        let t = v.chain.last() as int;
        let p = v.chain[n - 2] as int;
        assert(t != p);
        let v2 = yield_tr(v, st);
        assert(v2.chain[0] == 0usize);
        assert(v2.chain.last() == v.chain[n - 2]);
        assert(v2.fibers[v2.chain.last() as int].state is Running);
        assert forall|i: int| #![trigger v2.chain[i]] 0 <= i < v2.chain.len() - 1 implies v2.fibers[v2.chain[i] as int].state is Normal by {
            assert(v2.chain[i] == v.chain[i]);
            assert(v.chain[i] != v.chain[n - 1]);
            assert(v.chain[i] != v.chain[n - 2]);
        }
        assert forall|fid: int|
            0 <= fid < v2.fibers.len() && (#[trigger] v2.fibers[fid]).state.is_on_chain_state()
            implies v2.chain.contains(fid as usize) by {
            if fid == p {
                assert(v2.chain[n - 2] == fid as usize);
            } else {
                assert(fid != t);
                assert(v.fibers[fid] == v2.fibers[fid]);
                assert(v.chain.contains(fid as usize));
                let i = choose|i: int| 0 <= i < v.chain.len() && v.chain[i] == fid as usize;
                assert(i != n - 1);
                assert(v2.chain[i] == fid as usize);
            }
        }
        assert forall|fid: int| 0 <= fid < v2.fibers.len() implies v2.fiber_ok(
            #[trigger] v2.fibers[fid],
        ) by {
            assert(v.fiber_ok(v.fibers[fid]));
        }
    }
}

/// The per-thread environment. A running system holds one of these per OS
/// thread and lazily constructs it on first use; the kernel operates on it
/// as an explicit value.
pub struct Env {
    /// The fiber records, indexed by handle; the record at index 0 is the
    /// synthetic root fiber.
    pub fibers: Vec<Fiber>,
    /// The chain of active fibers, bottom first.
    pub chain: Vec<usize>,
    /// The pool of released stacks.
    pub pool: StackPool,
    /// The registered signals; `Pending` states refer to them by index.
    pub signals: Vec<pulse::Signal>,
    /// The panic payload in transit across a suspension, if any.
    pub in_flight_panic: Option<String>,
}

impl View for Env {
    type V = EnvV;

    open spec fn view(&self) -> EnvV {
        EnvV {
            fibers: self.fibers@,
            chain: self.chain@,
            pool: self.pool.stacks@,
            n_signals: self.signals@.len() as int,
            slot: self.in_flight_panic,
        }
    }
}

impl Env {
    /// The environment invariant, on the executable value.
    pub open spec fn wf(self) -> bool {
        self@.wf()
    }

    /// A fresh environment: an empty pool, no signals, no panic in flight,
    /// and a chain holding only the synthetic root fiber, which represents
    /// the host thread itself and is permanently `Running` on the host's
    /// own stack.
    pub fn new() -> (e: Env)
        ensures
            e.wf(),
            e@.fibers.len() == 1,
            e@.fibers[0].state is Running,
            e@.fibers[0].stack is None,
            (e@.fibers[0].name matches Some(n) && n@ == "<Environment Root Fiber>"@),
            e@.chain =~= seq![0usize],
            e@.pool =~= Seq::<Stack>::empty(),
            e@.n_signals == 0,
            e@.slot is None,
    {
        let root = Fiber {
            stack: None,
            state: State::Running,
            name: Some("<Environment Root Fiber>".to_owned()),
        };
        let mut fibers: Vec<Fiber> = Vec::new();
        fibers.push(root);
        let mut chain: Vec<usize> = Vec::new();
        chain.push(0);
        Env {
            fibers,
            chain,
            pool: StackPool::new(),
            signals: Vec::new(),
            in_flight_panic: None,
        }
    }

    /// A handle to the fiber currently running on this environment: the top
    /// of the chain; the root fiber when called from the host itself.
    pub fn current(&self) -> (h: Handle)
        requires
            self.wf(),
        ensures
            h.id == self@.chain.last(),
            h.id < self@.fibers.len(),
    {
        Handle { id: self.chain[self.chain.len() - 1] }
    }

    /// The bookkeeping half of entering a fiber: the running fiber moves to
    /// `Normal`, the entered one to `Running`, and the chain grows by it.
    /// In a running system the register swap into the entered fiber's saved
    /// context follows immediately.
    pub fn enter(&mut self, h: Handle)
        requires
            old(self).wf(),
            h.id < old(self)@.fibers.len(),
            enterable(old(self)@.fibers[h.id as int].state),
        ensures
            final(self).wf(),
            final(self)@ == enter_tr(old(self)@, h.id as int),
    {
        proof {
            lemma_enter_wf(old(self)@, h.id as int);
        }
        let cur: usize = self.chain[self.chain.len() - 1];
        self.fibers[cur].state = State::Normal;
        self.fibers[h.id].state = State::Running;
        self.chain.push(h.id);
    }

    /// Yield the running fiber, leaving it in state `st`: pop the top of
    /// the chain and let the fiber below run again. A no-op when only the
    /// root fiber is on the chain.
    pub fn yield_now(&mut self, st: State)
        requires
            old(self).wf(),
            yield_target_ok(old(self)@, st),
        ensures
            final(self).wf(),
            final(self)@ == yield_tr(old(self)@, st),
    {
        proof {
            lemma_yield_wf(old(self)@, st);
        }
        if self.chain.len() <= 1 {
            return ;
        }
        let t: usize = self.chain[self.chain.len() - 1];
        let _ = self.chain.pop();
        let p: usize = self.chain[self.chain.len() - 1];
        self.fibers[t].state = st;
        self.fibers[p].state = State::Running;
    }

    /// The running fiber's function returned: clear the in-flight panic
    /// slot and yield in the terminal state `Finished`.
    pub fn finish_current(&mut self)
        requires
            old(self).wf(),
            old(self)@.chain.len() >= 2,
        ensures
            final(self).wf(),
            final(self)@ == finish_tr(old(self)@),
    {
        self.in_flight_panic = None;
        self.yield_now(State::Finished);
    }

    /// The running fiber's function unwound with payload `msg`: report the
    /// single panic line on the standard error stream, capture the payload
    /// in the in-flight slot, and yield in the terminal state `Panicked`.
    pub fn panic_current(&mut self, msg: String)
        requires
            old(self).wf(),
            old(self)@.chain.len() >= 2,
        ensures
            final(self).wf(),
            final(self)@ == panic_tr(old(self)@, msg),
    {
        let t: usize = self.chain[self.chain.len() - 1];
        let line = panic_line(&self.fibers[t].name, msg.as_str());
        report_panic_line(line.as_str());
        self.in_flight_panic = Some(msg);
        self.yield_now(State::Panicked);
    }

    /// Take the panic payload out of the in-flight slot, leaving it empty:
    /// the single consumption of a captured panic.
    pub fn take_panic(&mut self) -> (r: Option<String>)
        requires
            old(self).wf(),
        ensures
            final(self).wf(),
            r == old(self)@.slot,
            final(self)@ == (EnvV { slot: None, ..old(self)@ }),
    {
        self.in_flight_panic.take()
    }

    /// Register a signal with this environment, returning the index that
    /// `Pending` states refer to it by.
    pub fn register_signal(&mut self, s: pulse::Signal) -> (sid: usize)
        requires
            old(self).wf(),
        ensures
            final(self).wf(),
            sid == old(self)@.n_signals,
            final(self)@ == (EnvV { n_signals: old(self)@.n_signals + 1, ..old(self)@ }),
    {
        let sid = self.signals.len();
        self.signals.push(s);
        proof {
            assert forall|id: int| 0 <= id < final(self)@.fibers.len() implies final(self)@.fiber_ok(
                #[trigger] final(self)@.fibers[id],
            ) by {
                assert(old(self)@.fiber_ok(old(self)@.fibers[id]));
            }
        }
        sid
    }

    /// Read the current state of the registered signal `sid`. The value is
    /// a snapshot: the signal's pulse may fire on another thread at any
    /// moment, so nothing relates two reads.
    pub fn signal_state(&self, sid: usize) -> SignalState
        requires
            sid < self@.n_signals,
    {
        read_signal_state(&self.signals[sid])
    }

    /// Take the stack out of an off-chain fiber and give it back to the
    /// pool: the reclamation that dropping a handle performs. When the pool
    /// is at its cap the stack is handed back to the caller for unmapping,
    /// so the cap holds on every path.
    pub fn reclaim(&mut self, h: Handle) -> (rejected: Option<Stack>)
        requires
            old(self).wf(),
            h.id < old(self)@.fibers.len(),
            !old(self)@.fibers[h.id as int].state.is_on_chain_state(),
        ensures
            final(self).wf(),
            final(self)@.fibers == old(self)@.fibers.update(
                h.id as int,
                old(self)@.fibers[h.id as int].without_stack(),
            ),
            final(self)@.chain == old(self)@.chain,
            final(self)@.n_signals == old(self)@.n_signals,
            final(self)@.slot == old(self)@.slot,
            final(self)@.pool.len() <= POOL_CAP,
            match old(self)@.fibers[h.id as int].stack {
                None => final(self)@.pool == old(self)@.pool && rejected is None,
                Some(s) => if old(self)@.pool.len() < POOL_CAP {
                    final(self)@.pool == old(self)@.pool.push(s) && rejected is None
                } else {
                    final(self)@.pool == old(self)@.pool && rejected == Some(s)
                },
            },
    {
        let stk = self.fibers[h.id].stack.take();
        let r = match stk {
            None => None,
            Some(s) => self.pool.give_stack(s),
        };
        proof {
            let v2 = final(self)@;
            assert forall|fid: int|
                0 <= fid < v2.fibers.len() && (#[trigger] v2.fibers[fid]).state.is_on_chain_state()
                implies v2.chain.contains(fid as usize) by {
                assert(old(self)@.fibers[fid].state == v2.fibers[fid].state);
                assert(old(self)@.chain.contains(fid as usize));
            }
            assert forall|fid: int| 0 <= fid < v2.fibers.len() implies v2.fiber_ok(
                #[trigger] v2.fibers[fid],
            ) by {
                assert(old(self)@.fiber_ok(old(self)@.fibers[fid]));
            }
        }
        r
    }
}

} // verus!
