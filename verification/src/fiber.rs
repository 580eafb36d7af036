//! Fiber lifecycle states, spawn options, and the suspension protocol.

use std::io::Write;

use vstd::prelude::*;
use vstd::string::StringExecFns;

use crate::env::{
    enter_tr, enterable, finish_tr, lemma_spawn_wf, panic_tr, spawn_tr, yield_tr, Env, EnvV,
};
use crate::signal::{pulsed_signal, SignalState};
use crate::stack::Stack;

verus! {

/// Default size in bytes of a fiber's stack mapping: the platform minimum
/// this runtime reserves when the caller asks for nothing larger.
pub const DEFAULT_STACK_SIZE: usize = 2 * 1024 * 1024;

/// Lifecycle state of a fiber.
///
/// Two resumption policies share this vocabulary. The direct policy moves
/// fibers between `Suspended`, `Running`, `Normal` (waiting on an active
/// child), `Blocked` (explicitly parked, resumable exactly like `Suspended`)
/// and the terminal states. The signal policy parks fibers in `Pending` or
/// `PendingTimeout`, each carrying the index of the registered signal whose
/// pulse makes the fiber runnable again. `Finished` and `Panicked` are
/// terminal under both policies: no transition leaves them.
#[derive(Clone, Copy, PartialEq, Eq, Structural, Debug)]
pub enum State {
    /// Yielded voluntarily; resumable at any time.
    Suspended,
    /// Currently executing: the top of its thread's chain.
    Running,
    /// On the chain below the top: waiting for its own child to return.
    Normal,
    /// Explicitly parked; resumable indistinguishably from `Suspended`.
    Blocked,
    /// Waiting for the registered signal with this index to be pulsed.
    Pending(usize),
    /// As `Pending`, with a timeout in milliseconds delegated to the
    /// installed scheduler.
    PendingTimeout(usize, u32),
    /// The fiber's function returned; terminal.
    Finished,
    /// The fiber's function unwound; terminal, and never resumed again.
    Panicked,
}

impl State {
    /// Whether this state waits on a signal.
    pub open spec fn spec_is_pending(self) -> bool {
        self is Pending || self is PendingTimeout
    }

    /// Whether this state waits on a signal (`Pending` or `PendingTimeout`).
    pub fn is_pending(&self) -> (r: bool)
        ensures
            r == self.spec_is_pending(),
    {
        matches!(self, State::Pending(_) | State::PendingTimeout(_, _))
    }

    /// Whether the fiber unwound.
    pub open spec fn spec_is_panic(self) -> bool {
        self is Panicked
    }

    /// Whether the fiber unwound because of a panic.
    pub fn is_panic(&self) -> (r: bool)
        ensures
            r == self.spec_is_panic(),
    {
        matches!(self, State::Panicked)
    }

    /// Whether the fiber's function returned normally.
    pub open spec fn spec_is_finished(self) -> bool {
        self is Finished
    }

    /// Whether the fiber's function returned normally.
    pub fn is_finished(&self) -> (r: bool)
        ensures
            r == self.spec_is_finished(),
    {
        matches!(self, State::Finished)
    }

    /// Terminal states have no outgoing transitions.
    pub open spec fn is_terminal(self) -> bool {
        self is Finished || self is Panicked
    }

    /// The two states a fiber holds while it sits on its thread's chain.
    pub open spec fn is_on_chain_state(self) -> bool {
        self is Running || self is Normal
    }
}

/// Fiber spawn options.
#[derive(Debug)]
pub struct Options {
    /// The size of the stack, in bytes.
    pub stack_size: usize,

    /// The name of the fiber, used only in the panic report.
    pub name: Option<String>,
}

impl Default for Options {
    /// The default options: the platform-minimum stack size, no name.
    fn default() -> (r: Options)
        ensures
            r.stack_size == DEFAULT_STACK_SIZE,
            r.name is None,
    {
        Options { stack_size: DEFAULT_STACK_SIZE, name: None }
    }
}

/// A fiber record: its private stack, its lifecycle state and its optional
/// name. The saved register context that a running system keeps beside
/// these lives with the unverified context switch, outside the kernel.
pub struct Fiber {
    /// The fiber's own stack; `None` only for the synthetic root fiber,
    /// which runs on the host thread's stack.
    pub stack: Option<Stack>,

    /// The lifecycle state.
    pub state: State,

    /// An optional human-readable name, used only in the panic report.
    pub name: Option<String>,
}

impl Fiber {
    /// The record of a freshly spawned fiber: suspended on its own stack.
    pub open spec fn fresh(stack: Stack, name: Option<String>) -> Fiber {
        Fiber { stack: Some(stack), state: State::Suspended, name }
    }

    /// The same fiber in another lifecycle state.
    pub open spec fn with_state(self, s: State) -> Fiber {
        Fiber { state: s, ..self }
    }

    /// The same fiber with its stack taken away.
    pub open spec fn without_stack(self) -> Fiber {
        Fiber { stack: None, ..self }
    }

    /// Get the name of the fiber.
    pub fn name(&self) -> (r: Option<&str>)
        ensures
            match self.name {
                Some(n) => r matches Some(s) && s@ == n@,
                None => r is None,
            },
    {
        match &self.name {
            Some(s) => Some(s.as_str()),
            None => None,
        }
    }

    /// Whether the fiber unwound because of a panic.
    pub fn panicking(&self) -> (r: bool)
        ensures
            r == self.state.spec_is_panic(),
    {
        self.state.is_panic()
    }

    /// Whether the fiber's function returned normally.
    pub fn finished(&self) -> (r: bool)
        ensures
            r == self.state.spec_is_finished(),
    {
        self.state.is_finished()
    }
}

/// A stable reference to a fiber: the index of its record in the
/// environment's table. A record, once spawned, keeps its index for the
/// life of the environment, so a handle never dangles and never moves.
#[derive(Clone, Copy, PartialEq, Eq, Structural, Debug)]
pub struct Handle {
    /// The index of the fiber's record in the environment's table.
    pub id: usize,
}

/// What a fiber does during one slice of execution, between being entered
/// and giving control back: it yields with a resumable state, its function
/// returns, or its function unwinds with a panic payload. In a running
/// system this is what comes back across the register swap; the kernel
/// takes it as an event and performs the bookkeeping it implies.
#[derive(Debug)]
pub enum Slice {
    /// The fiber yielded voluntarily, asking to be left in this state.
    Yield(State),
    /// The fiber's function returned normally.
    Finish,
    /// The fiber's function unwound; the payload message travels with the
    /// event.
    Panic(String),
}

/// The errors a `resume` can report.
#[derive(Debug, PartialEq, Eq)]
pub enum FiberError {
    /// The fiber unwound during this resume; the panic payload is
    /// delivered exactly once, through this error.
    Panicked(String),
    /// The fiber panicked earlier and its payload was already delivered;
    /// resuming it again is rejected.
    ResumeAfterPanic,
    /// The fiber is waiting on its own child; resuming it is a protocol
    /// violation.
    AwaitingChild,
}

/// Return type of resuming.
///
/// See `Handle::resume` for more detail.
pub type ResumeResult<T> = Result<T, FiberError>;

/// An acceptable slice event: a yielded-with state must itself be
/// resumable (never `Running`, `Normal` or terminal — a slice reaches the
/// terminal states through `Finish` and `Panic`), and any signal index it
/// carries must be registered.
pub open spec fn slice_ok(v: EnvV, slice: Slice) -> bool {
    match slice {
        Slice::Yield(st) => enterable(st) && v.sig_ok(st),
        Slice::Finish => true,
        Slice::Panic(_) => true,
    }
}

/// The single line reported to the standard error stream when a fiber
/// panics: the fiber's name (or `<unnamed>`) and the payload message.
pub open spec fn spec_panic_line(name: Option<String>, msg: Seq<char>) -> Seq<char> {
    let nm = match name {
        Some(n) => n@,
        None => "<unnamed>"@,
    };
    "Fiber '"@ + nm + "' panicked at '"@ + msg + "'"@
}

/// Build the panic report line for a fiber named `name` that unwound with
/// payload message `msg`.
pub fn panic_line(name: &Option<String>, msg: &str) -> (r: String)
    ensures
        r@ == spec_panic_line(*name, msg@),
{
    let mut line = String::from_str("Fiber '");
    match name {
        Some(n) => line.append(n.as_str()),
        None => line.append("<unnamed>"),
    }
    line.append("' panicked at '");
    line.append(msg);
    line.append("'");
    line
}

/// Relies on `std::io::Stderr`'s `writeln!` to print the panic report: one
/// line to the standard error stream, the only output the kernel produces.
#[verifier::external_body]
pub(crate) fn report_panic_line(line: &str) {
    let mut err = std::io::stderr();
    let _ = writeln!(err, "{}", line);
}

/// The whole direct-policy `resume` as one transition: the admission
/// test on the fiber's state, then (when the state admits it) the entry
/// bookkeeping, the fiber's slice, and the delivery of a captured panic
/// payload to this very call.
///
/// A `Finished` or `Running` fiber is left untouched with success: resuming
/// a finished fiber is an idempotent no-op, and a fiber resuming itself
/// sees the inner call return immediately. A `Panicked` fiber is rejected:
/// its payload was already delivered, exactly once, by the resume that ran
/// it. A `Normal` fiber is waiting on its own child and resuming it is a
/// protocol violation. Every other state is entered.
pub open spec fn resume_tr(v: EnvV, id: int, slice: Slice) -> (EnvV, ResumeResult<()>) {
    let s = v.fibers[id].state;
    if s is Finished || s is Running {
        (v, Ok(()))
    } else if s is Panicked {
        (v, Err(FiberError::ResumeAfterPanic))
    } else if s is Normal {
        (v, Err(FiberError::AwaitingChild))
    } else {
        let entered = enter_tr(v, id);
        match slice {
            Slice::Yield(st) => (yield_tr(entered, st), Ok(())),
            Slice::Finish => (finish_tr(entered), Ok(())),
            Slice::Panic(msg) => (
                (EnvV { slot: None, ..panic_tr(entered, msg) }),
                Err(FiberError::Panicked(msg)),
            ),
        }
    }
}

/// The state a slice leaves the entered fiber in.
pub open spec fn run_slice_state(slice: Slice) -> State {
    match slice {
        Slice::Yield(st) => st,
        Slice::Finish => State::Finished,
        Slice::Panic(_) => State::Panicked,
    }
}

/// Entering a fiber under the signal policy and applying its slice: the
/// chain bookkeeping of an entry followed by the yield the slice implies.
/// `run` never touches the in-flight panic slot: under the signal policy
/// no payload is propagated, and the terminal `Panicked` state is observed
/// directly.
pub open spec fn run_enter_tr(v: EnvV, id: int, slice: Slice) -> EnvV {
    yield_tr(enter_tr(v, id), run_slice_state(slice))
}

/// The whole signal-policy `run` as one transition, with the value that
/// one read of the fiber's stored signal returned as an argument: a fiber
/// pending on a signal that the read found no longer pending (pulsed, or
/// dropped — either way the wait inside the fiber resolves it) is entered
/// and its slice applied; every other fiber — still-pending, terminal, or
/// in a state of the direct vocabulary, which carries no signal — is left
/// untouched.
pub open spec fn run_tr(v: EnvV, id: int, sig: SignalState, slice: Slice) -> EnvV {
    if v.fibers[id].state.spec_is_pending() && !(sig is Pending) {
        run_enter_tr(v, id, slice)
    } else {
        v
    }
}

/// The whole of `join` as one transition: resume the fiber with each slice
/// in turn until it is terminal, propagating the first error. A fiber that
/// is already `Finished` joins with success at once; one that already
/// panicked, or that is waiting on its own child, is rejected exactly as a
/// single resume would reject it; and a fiber that is still not terminal
/// when the slices run out is reported like one that cannot make progress.
pub open spec fn join_tr(v: EnvV, id: int, slices: Seq<Slice>) -> (EnvV, ResumeResult<()>)
    decreases slices.len(),
{
    let s = v.fibers[id].state;
    if s is Finished {
        (v, Ok(()))
    } else if s is Panicked {
        (v, Err(FiberError::ResumeAfterPanic))
    } else if s is Normal {
        (v, Err(FiberError::AwaitingChild))
    } else if slices.len() == 0 {
        (v, Err(FiberError::AwaitingChild))
    } else {
        let step = resume_tr(v, id, slices[0]);
        if step.1 is Ok {
            join_tr(step.0, id, slices.drop_first())
        } else {
            step
        }
    }
}

impl Handle {
    /// Get the state of the fiber.
    pub fn state(&self, env: &Env) -> (st: State)
        requires
            self.id < env@.fibers.len(),
        ensures
            st == env@.fibers[self.id as int].state,
    {
        env.fibers[self.id].state
    }

    /// Resume the fiber under the direct policy: run it until it gives
    /// control back, which the caller reports through `slice`.
    ///
    /// Returns `Ok` when the fiber was already `Finished` or `Running`
    /// (both no-ops), and when it was entered and yielded or finished
    /// cleanly. Returns the panic payload as an error exactly when the
    /// fiber unwound during this call; a fiber that panicked earlier is
    /// rejected with `ResumeAfterPanic`, and one waiting on its own child
    /// with `AwaitingChild`.
    pub fn resume(&self, env: &mut Env, slice: Slice) -> (r: ResumeResult<()>)
        requires
            old(env).wf(),
            self.id < old(env)@.fibers.len(),
            slice_ok(old(env)@, slice),
            old(env)@.slot is None,
        ensures
            final(env).wf(),
            final(env)@ == resume_tr(old(env)@, self.id as int, slice).0,
            r == resume_tr(old(env)@, self.id as int, slice).1,
            final(env)@.chain =~= old(env)@.chain,
            final(env)@.n_signals == old(env)@.n_signals,
            final(env)@.pool == old(env)@.pool,
            final(env)@.slot is None,
    {
        let st = env.fibers[self.id].state;
        match st {
            State::Finished | State::Running => Ok(()),
            State::Panicked => Err(FiberError::ResumeAfterPanic),
            State::Normal => Err(FiberError::AwaitingChild),
            _ => {
                env.enter(*self);
                match slice {
                    Slice::Yield(target) => {
                        env.yield_now(target);
                        Ok(())
                    },
                    Slice::Finish => {
                        env.finish_current();
                        Ok(())
                    },
                    Slice::Panic(msg) => {
                        env.panic_current(msg);
                        match env.take_panic() {
                            Some(m) => Err(FiberError::Panicked(m)),
                            None => {
                                proof {
                                    assert(false);
                                }
                                Err(FiberError::ResumeAfterPanic)
                            },
                        }
                    },
                }
            },
        }
    }

    /// Join the fiber: resume it, with each slice in turn, while its state
    /// is not terminal, and propagate any panic payload.
    ///
    /// Returns `Ok` exactly when the fiber reaches (or already had reached)
    /// `Finished`; returns the panic payload when a resume delivers one;
    /// rejects a fiber that already panicked or that is waiting on its own
    /// child, as a single resume would; and reports a fiber that is still
    /// live when the slices run out like one that cannot make progress.
    pub fn join(&self, env: &mut Env, slices: Vec<Slice>) -> (r: ResumeResult<()>)
        requires
            old(env).wf(),
            self.id < old(env)@.fibers.len(),
            old(env)@.slot is None,
            forall|i: int| 0 <= i < slices@.len() ==> slice_ok(old(env)@, #[trigger] slices@[i]),
        ensures
            final(env).wf(),
            final(env)@ == join_tr(old(env)@, self.id as int, slices@).0,
            r == join_tr(old(env)@, self.id as int, slices@).1,
    {
        let ghost orig = old(env)@;
        let ghost all = slices@;
        let mut rest = slices;
        loop
            invariant
                orig == old(env)@,
                all == slices@,
                env.wf(),
                self.id < env@.fibers.len(),
                env@.slot is None,
                env@.n_signals == orig.n_signals,
                forall|i: int| 0 <= i < rest@.len() ==> slice_ok(orig, #[trigger] rest@[i]),
                join_tr(orig, self.id as int, all) == join_tr(env@, self.id as int, rest@),
            decreases rest@.len(),
        {
            let st = env.fibers[self.id].state;
            match st {
                State::Finished => {
                    return Ok(());
                },
                State::Panicked => {
                    return Err(FiberError::ResumeAfterPanic);
                },
                State::Normal => {
                    return Err(FiberError::AwaitingChild);
                },
                _ => {},
            }
            if rest.len() == 0 {
                return Err(FiberError::AwaitingChild);
            }
            let ghost rest_pre = rest@;
            let s = rest.remove(0);
            proof {
                assert(rest@ =~= rest_pre.drop_first());
                assert(slice_ok(env@, s));
            }
            let res = self.resume(env, s);
            match res {
                Ok(_) => {},
                Err(e) => {
                    return Err(e);
                },
            }
        }
    }

    /// Run the fiber under the signal policy, given what one read of its
    /// stored signal returned, and return its state after the call. This
    /// is the admission decision itself, verified for every value the
    /// read can take: a pending fiber whose signal the read found no
    /// longer pending is entered and its slice applied; a pending fiber
    /// whose signal is still pending, a terminal fiber, and a fiber in a
    /// state of the direct vocabulary (which carries no signal) are
    /// returned untouched. `sig` is ignored for a fiber that is not
    /// pending. No panic payload is propagated: the terminal `Panicked`
    /// state is observed directly.
    pub fn run_observed(&self, env: &mut Env, sig: SignalState, slice: Slice) -> (st: State)
        requires
            old(env).wf(),
            self.id < old(env)@.fibers.len(),
            slice_ok(old(env)@, slice),
        ensures
            final(env).wf(),
            final(env)@ == run_tr(old(env)@, self.id as int, sig, slice),
            st == final(env)@.fibers[self.id as int].state,
            if old(env)@.fibers[self.id as int].state.spec_is_pending() && !(sig is Pending) {
                st == run_slice_state(slice)
            } else {
                st == old(env)@.fibers[self.id as int].state
            },
    {
        let s0 = env.fibers[self.id].state;
        let admitted = s0.is_pending() && !matches!(sig, SignalState::Pending);
        if admitted {
            env.enter(*self);
            match slice {
                Slice::Yield(target) => {
                    env.yield_now(target);
                },
                Slice::Finish => {
                    env.yield_now(State::Finished);
                },
                Slice::Panic(msg) => {
                    let line = panic_line(&env.fibers[self.id].name, msg.as_str());
                    report_panic_line(line.as_str());
                    env.yield_now(State::Panicked);
                },
            }
            env.fibers[self.id].state
        } else {
            s0
        }
    }

    /// Run the fiber under the signal policy and return its state after
    /// the call: read the stored signal of a pending fiber once and hand
    /// the value to [`Handle::run_observed`], which fixes the outcome for
    /// each value the read can take. The read itself is a snapshot of
    /// state other threads may change at any moment, so this contract
    /// promises what holds whichever value came back: the outcome is the
    /// admission transition for some read, a fiber that is not pending
    /// (terminal ones included) is never touched, and the fiber is only
    /// ever left untouched or entered-and-yielded as the slice says.
    pub fn run(&self, env: &mut Env, slice: Slice) -> (st: State)
        requires
            old(env).wf(),
            self.id < old(env)@.fibers.len(),
            slice_ok(old(env)@, slice),
        ensures
            final(env).wf(),
            st == final(env)@.fibers[self.id as int].state,
            exists|g: SignalState| final(env)@ == run_tr(old(env)@, self.id as int, g, slice),
            !old(env)@.fibers[self.id as int].state.spec_is_pending() ==> final(env)@ == old(env)@
                && st == old(env)@.fibers[self.id as int].state,
            old(env)@.fibers[self.id as int].state.is_terminal() ==> final(env)@ == old(env)@,
    {
        let s0 = env.fibers[self.id].state;
        let sid_opt = match s0 {
            State::Pending(sid) => Some(sid),
            State::PendingTimeout(sid, _) => Some(sid),
            _ => None,
        };
        match sid_opt {
            None => {
                proof {
                    assert(run_tr(old(env)@, self.id as int, SignalState::Pending, slice) == old(
                        env,
                    )@);
                }
                s0
            },
            Some(sid) => {
                proof {
                    assert(old(env)@.fiber_ok(old(env)@.fibers[self.id as int]));
                }
                let sig = env.signal_state(sid);
                self.run_observed(env, sig, slice)
            },
        }
    }
}

impl Fiber {
    /// Spawn a fiber with the given options, on the given stack, in state
    /// `Suspended`: the direct policy's spawn. The stack must carry a real
    /// mapping at least as large as the options ask for.
    pub fn spawn_opts(env: &mut Env, opts: Options, stack: Stack) -> (h: Handle)
        requires
            old(env).wf(),
            stack.wf(),
            stack.buf is Some,
            opts.stack_size <= stack.min_size,
            old(env)@.fibers.len() < usize::MAX,
        ensures
            final(env).wf(),
            final(env)@ == spawn_tr(old(env)@, Fiber::fresh(stack, opts.name)),
            h.id == old(env)@.fibers.len(),
    {
        proof {
            lemma_spawn_wf(old(env)@, Fiber::fresh(stack, opts.name));
        }
        let id = env.fibers.len();
        env.fibers.push(Fiber { stack: Some(stack), state: State::Suspended, name: opts.name });
        Handle { id }
    }

    /// Spawn a fiber with default options: the platform-minimum stack size
    /// and no name.
    pub fn spawn(env: &mut Env, stack: Stack) -> (h: Handle)
        requires
            old(env).wf(),
            stack.wf(),
            stack.buf is Some,
            DEFAULT_STACK_SIZE <= stack.min_size,
            old(env)@.fibers.len() < usize::MAX,
        ensures
            final(env).wf(),
            final(env)@ == spawn_tr(old(env)@, Fiber::fresh(stack, None)),
            h.id == old(env)@.fibers.len(),
    {
        Fiber::spawn_opts(env, Options::default(), stack)
    }

    /// Spawn a fiber under the signal policy: a fresh, already-pulsed
    /// signal is registered for it and the fiber starts `Pending` on that
    /// signal, so the first `run` finds it ready and enters it.
    pub fn spawn_opts_signaled(env: &mut Env, opts: Options, stack: Stack) -> (h: Handle)
        requires
            old(env).wf(),
            stack.wf(),
            stack.buf is Some,
            opts.stack_size <= stack.min_size,
            old(env)@.fibers.len() < usize::MAX,
        ensures
            final(env).wf(),
            h.id == old(env)@.fibers.len(),
            final(env)@.fibers == old(env)@.fibers.push(
                (Fiber {
                    stack: Some(stack),
                    state: State::Pending(old(env)@.n_signals as usize),
                    name: opts.name,
                }),
            ),
            final(env)@.chain == old(env)@.chain,
            final(env)@.pool == old(env)@.pool,
            final(env)@.n_signals == old(env)@.n_signals + 1,
            final(env)@.slot == old(env)@.slot,
            final(env)@.fibers[h.id as int].state == State::Pending((old(env)@.n_signals) as usize),
    {
        let s = pulsed_signal();
        let sid = env.register_signal(s);
        proof {
            let f = Fiber { stack: Some(stack), state: State::Pending(sid), name: opts.name };
            lemma_spawn_wf(env@, f);
        }
        let id = env.fibers.len();
        env.fibers.push(Fiber { stack: Some(stack), state: State::Pending(sid), name: opts.name });
        Handle { id }
    }
}

/// The state of an external signal read during a wait, and what the
/// default signal-policy scheduler does about it: one step of its wait
/// loop.
#[derive(Clone, Copy, PartialEq, Eq, Structural, Debug)]
pub enum WaitStep {
    /// The signal is still pending: yield again, still waiting on it.
    KeepWaiting,
    /// The signal pulsed: the wait returns successfully.
    Ready,
    /// The pulse was dropped without ever firing: the wait reports the
    /// dropped-signal error to the caller instead of spinning forever.
    Dropped,
}

/// The default signal-policy scheduler. Each time a waiting fiber reads
/// its signal, [`Resume::wait`] decides whether to park the fiber again
/// (by yielding `Pending` on the signal), let the wait return, or report
/// the dropped-signal error.
#[derive(Debug)]
pub struct Resume;

impl Resume {
    /// One step of the default scheduler's wait loop, decided from one
    /// read of the signal: still pending means yield and try again later,
    /// pulsed means the wait is over, dropped means the wait fails with
    /// the dropped-signal error.
    pub fn wait(&self, s: SignalState) -> (r: WaitStep)
        ensures
            (s is Pending ==> r is KeepWaiting),
            (s is Pulsed ==> r is Ready),
            (s is Dropped ==> r is Dropped),
    {
        match s {
            SignalState::Pending => WaitStep::KeepWaiting,
            SignalState::Pulsed => WaitStep::Ready,
            SignalState::Dropped => WaitStep::Dropped,
        }
    }
}

} // verus!
