//! A stackful user-space fiber runtime kernel.
//!
//! Fibers are cooperatively scheduled execution contexts, each with its own
//! private call stack, resumable from the exact point they suspended. This
//! crate holds the verified core of such a runtime: the lifecycle state
//! machine, the per-thread environment with its chain of active fibers, the
//! caller/callee suspension protocol, panic capture and delivery, the stack
//! records with their guard-page arithmetic, and the bounded stack pool.
//!
//! The kernel operates on an explicit [`env::Env`] value. What a fiber does
//! while it runs (yield, finish, panic) enters the kernel as a
//! [`fiber::Slice`] event; the register-level context switch that carries
//! such an event out in a running system is outside the kernel, and the
//! stacks the kernel accounts for are memory mappings whose addresses and
//! lengths it receives as plain values.

use vstd::prelude::*;

pub mod env;
pub mod fiber;
pub mod laws;
pub mod signal;
pub mod stack;

use env::Env;
use fiber::{Fiber, Handle, ResumeResult, Slice, State};
use stack::Stack;

verus! {

/// Spawn a new fiber in `env` with default options, on `stack`.
///
/// Equivalent to `Fiber::spawn`.
pub fn spawn(env: &mut Env, stack: Stack) -> (h: Handle)
    requires
        old(env).wf(),
        stack.wf(),
        stack.buf is Some,
        fiber::DEFAULT_STACK_SIZE <= stack.min_size,
        old(env)@.fibers.len() < usize::MAX,
    ensures
        final(env).wf(),
        final(env)@ == env::spawn_tr(old(env)@, Fiber::fresh(stack, None)),
        h.id == old(env)@.fibers.len(),
{
    Fiber::spawn(env, stack)
}

/// Get a handle to the currently running fiber of `env`: the top of the
/// chain, the root fiber when called from the host thread itself.
///
/// Equivalent to `Env::current`.
pub fn current(env: &Env) -> (h: Handle)
    requires
        env.wf(),
    ensures
        h.id == env@.chain.last(),
        h.id < env@.fibers.len(),
{
    env.current()
}

/// Resume a fiber: run it until it gives control back, which the caller
/// reports through `slice`.
///
/// Equivalent to `Handle::resume`.
pub fn resume(env: &mut Env, coro: &Handle, slice: Slice) -> (r: ResumeResult<()>)
    requires
        old(env).wf(),
        coro.id < old(env)@.fibers.len(),
        fiber::slice_ok(old(env)@, slice),
        old(env)@.slot is None,
    ensures
        final(env).wf(),
        final(env)@ == fiber::resume_tr(old(env)@, coro.id as int, slice).0,
        r == fiber::resume_tr(old(env)@, coro.id as int, slice).1,
{
    coro.resume(env, slice)
}

/// Yield the currently running fiber back to its parent, leaving it
/// `Suspended`. A no-op when called from the root fiber.
///
/// Equivalent to `Env::yield_now` with target `Suspended`.
pub fn sched(env: &mut Env)
    requires
        old(env).wf(),
    ensures
        final(env).wf(),
        final(env)@ == env::yield_tr(old(env)@, State::Suspended),
{
    env.yield_now(State::Suspended)
}

/// Yield the currently running fiber back to its parent, leaving it
/// `Blocked`: explicitly parked, resumable exactly like a suspended one.
/// A no-op when called from the root fiber.
pub fn block(env: &mut Env)
    requires
        old(env).wf(),
    ensures
        final(env).wf(),
        final(env)@ == env::yield_tr(old(env)@, State::Blocked),
{
    env.yield_now(State::Blocked)
}

} // verus!
