//! Signal-policy tests: spawning pending on a pulsed signal, how `run`
//! admits a fiber, terminal idempotence, and the default scheduler's
//! wait decisions.

use bran::env::Env;
use bran::fiber::{Fiber, Options, Resume, Slice, State, WaitStep, DEFAULT_STACK_SIZE};
use bran::signal::SignalState;
use bran::stack::{Region, Stack};

fn big_stack() -> Stack {
    let region = Region { base: 4096, len: 2 * 1024 * 1024, page: 4096 };
    Stack::new(DEFAULT_STACK_SIZE, region)
}

fn opts(name: &str) -> Options {
    Options { stack_size: 64 * 1024, name: Some(name.to_string()) }
}

fn small_stack() -> Stack {
    let region = Region { base: 4096, len: 64 * 1024, page: 4096 };
    Stack::new(64 * 1024, region)
}

#[test]
fn test_fiber_basic() {
    let mut env = Env::new();
    let fiber = Fiber::spawn_opts_signaled(&mut env, opts("basic"), small_stack());
    assert!(fiber.state(&env).is_pending());
    let st = fiber.run(&mut env, Slice::Finish);
    assert!(st.is_finished());
    assert!(fiber.state(&env).is_finished());
}

#[test]
fn test_fiber_yield() {
    let mut env = Env::new();
    let (s0, p0) = pulse::Signal::new();
    let (s1, p1) = pulse::Signal::new();
    let (s2, p2) = pulse::Signal::new();
    let sid1 = env.register_signal(s1);

    // The fiber's body is: pulse p0, wait on s1, pulse p2.
    let fiber = Fiber::spawn_opts_signaled(&mut env, opts("yielder"), small_stack());
    assert!(s0.is_pending());

    // First run enters (the spawn signal is pre-pulsed); the body pulses p0
    // and then parks waiting on s1.
    let st = fiber.run(&mut env, Slice::Yield(State::Pending(sid1)));
    p0.pulse();
    assert!(!s0.is_pending());
    assert!(st.is_pending());
    assert!(fiber.state(&env).is_pending());

    // s1 has not pulsed: the fiber stays parked, untouched.
    let st = fiber.run(&mut env, Slice::Finish);
    assert!(st.is_pending());
    assert!(fiber.state(&env).is_pending());

    // After p1 fires, the next run enters; the body pulses p2 and returns.
    p1.pulse();
    assert!(s2.is_pending());
    let st = fiber.run(&mut env, Slice::Finish);
    p2.pulse();
    assert!(st.is_finished());
    assert!(!s2.is_pending());
}

#[test]
fn test_fiber_panic() {
    let mut env = Env::new();
    let fiber = Fiber::spawn_opts_signaled(&mut env, opts("panicker"), small_stack());
    let st = fiber.run(&mut env, Slice::Panic("Panic inside a fiber!!".to_string()));
    assert!(st.is_panic());
    assert!(fiber.state(&env).is_panic());
    // The signal policy does not propagate the payload: the slot stays empty.
    assert!(env.take_panic().is_none());
}

#[test]
fn test_fiber_run_after_finished() {
    let mut env = Env::new();
    let fiber = Fiber::spawn_opts_signaled(&mut env, Options::default(), big_stack());

    // It is already finished, but we try to run it.
    let st = fiber.run(&mut env, Slice::Finish);
    assert!(st.is_finished());

    // Again?
    let st = fiber.run(&mut env, Slice::Finish);
    assert!(st.is_finished());
}

#[test]
fn run_panicked_is_observed_directly() {
    let mut env = Env::new();
    let fiber = Fiber::spawn_opts_signaled(&mut env, Options::default(), big_stack());
    let st = fiber.run(&mut env, Slice::Panic("kept".to_string()));
    assert!(st.is_panic());
    // Running a panicked fiber again returns Panicked, idempotently.
    let st = fiber.run(&mut env, Slice::Finish);
    assert!(st.is_panic());
    assert!(env.fibers[fiber.id].panicking());
}

#[test]
fn run_leaves_direct_states_alone() {
    let mut env = Env::new();
    // A direct-policy fiber carries no signal: run returns its state
    // without switching.
    let h = Fiber::spawn_opts(&mut env, opts("direct"), small_stack());
    let st = h.run(&mut env, Slice::Finish);
    assert_eq!(st, State::Suspended);
    assert_eq!(h.state(&env), State::Suspended);
}

#[test]
fn run_observed_decides_from_the_read() {
    let mut env = Env::new();

    // A still-pending read keeps the fiber parked, untouched.
    let h = Fiber::spawn_opts_signaled(&mut env, opts("observed"), small_stack());
    let st = h.run_observed(&mut env, SignalState::Pending, Slice::Finish);
    assert!(st.is_pending());
    assert!(h.state(&env).is_pending());

    // A pulsed read admits the fiber; it yields as its slice says.
    let st = h.run_observed(&mut env, SignalState::Pulsed, Slice::Yield(State::Blocked));
    assert_eq!(st, State::Blocked);
    assert_eq!(h.state(&env), State::Blocked);

    // Blocked carries no signal: the read is ignored and nothing happens.
    let st = h.run_observed(&mut env, SignalState::Pulsed, Slice::Finish);
    assert_eq!(st, State::Blocked);

    // A dropped read admits a pending fiber too: the wait inside it
    // resolves with the dropped-signal error rather than spinning.
    let h2 = Fiber::spawn_opts_signaled(&mut env, opts("dropped"), small_stack());
    let st = h2.run_observed(&mut env, SignalState::Dropped, Slice::Finish);
    assert!(st.is_finished());
}

#[test]
fn signal_state_reads_the_real_signal() {
    let mut env = Env::new();
    let (s, p) = pulse::Signal::new();
    let sid = env.register_signal(s);
    assert_eq!(env.signal_state(sid), SignalState::Pending);
    p.pulse();
    assert_eq!(env.signal_state(sid), SignalState::Pulsed);

    let (s2, p2) = pulse::Signal::new();
    let sid2 = env.register_signal(s2);
    drop(p2);
    assert_eq!(env.signal_state(sid2), SignalState::Dropped);
}

#[test]
fn wait_decisions() {
    let sched = Resume;
    assert_eq!(sched.wait(SignalState::Pending), WaitStep::KeepWaiting);
    assert_eq!(sched.wait(SignalState::Pulsed), WaitStep::Ready);
    // A dropped signal is reported instead of spinning forever.
    assert_eq!(sched.wait(SignalState::Dropped), WaitStep::Dropped);
}
