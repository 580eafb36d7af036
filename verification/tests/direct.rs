//! Direct-policy tests: spawn/resume/yield scenarios, nested fibers,
//! panic delivery and rejection, the suspend/resume round trip, and the
//! stability of handles.

use std::sync::mpsc::channel;

use bran::env::Env;
use bran::fiber::{Fiber, FiberError, Options, Slice, State, DEFAULT_STACK_SIZE};
use bran::stack::{Region, Stack};
use bran::{block, current, resume, sched, spawn};

fn big_stack() -> Stack {
    let region = Region { base: 4096, len: 2 * 1024 * 1024, page: 4096 };
    Stack::new(DEFAULT_STACK_SIZE, region)
}

fn named(name: &str) -> Options {
    Options { stack_size: 64 * 1024, name: Some(name.to_string()) }
}

fn small_stack() -> Stack {
    let region = Region { base: 4096, len: 64 * 1024, page: 4096 };
    Stack::new(64 * 1024, region)
}

#[test]
fn basic_spawn_and_send() {
    let mut env = Env::new();
    let (tx, rx) = channel();
    let h = spawn(&mut env, big_stack());
    assert_eq!(h.state(&env), State::Suspended);

    // Resume; the fiber's body sends one value and returns.
    env.enter(h);
    tx.send(1).unwrap();
    env.finish_current();
    assert!(env.take_panic().is_none());

    assert_eq!(rx.recv().unwrap(), 1);
    assert!(h.state(&env).is_finished());
}

#[test]
fn yield_interleaving() {
    let mut env = Env::new();
    let (tx, rx) = channel();
    let h = spawn(&mut env, big_stack());

    // First resume: the body sends 1 and calls sched.
    env.enter(h);
    tx.send(1).unwrap();
    sched(&mut env);
    assert!(env.take_panic().is_none());
    assert_eq!(rx.recv().unwrap(), 1);
    assert!(rx.try_recv().is_err());
    assert_eq!(h.state(&env), State::Suspended);

    // Second resume: the body sends 2 and returns.
    env.enter(h);
    tx.send(2).unwrap();
    env.finish_current();
    assert!(env.take_panic().is_none());
    assert_eq!(rx.recv().unwrap(), 2);
    assert!(h.state(&env).is_finished());
}

#[test]
fn nested_spawn() {
    let mut env = Env::new();
    let (tx, rx) = channel();
    let outer = spawn(&mut env, big_stack());

    // The outer body spawns an inner fiber, joins it, then sends 2.
    env.enter(outer);
    let inner = spawn(&mut env, big_stack());
    env.enter(inner);
    tx.send(1).unwrap();
    env.finish_current();
    assert!(env.take_panic().is_none());
    assert_eq!(inner.join(&mut env, vec![]), Ok(()));
    tx.send(2).unwrap();
    env.finish_current();
    assert!(env.take_panic().is_none());

    assert_eq!(rx.recv().unwrap(), 1);
    assert_eq!(rx.recv().unwrap(), 2);
    assert!(inner.state(&env).is_finished());
    assert!(outer.state(&env).is_finished());
}

#[test]
fn panic_propagation() {
    let mut env = Env::new();
    let h = Fiber::spawn_opts(&mut env, named("boomer"), small_stack());
    let r = h.join(&mut env, vec![Slice::Panic("boom".to_string())]);
    match r {
        Err(FiberError::Panicked(m)) => assert!(m.contains("boom")),
        other => panic!("expected the panic payload, got {:?}", other),
    }
    assert!(h.state(&env).is_panic());
    assert!(env.take_panic().is_none());
}

#[test]
fn child_panic_isolation() {
    let mut env = Env::new();
    let outer = spawn(&mut env, big_stack());

    // The outer body spawns an inner fiber that panics, joins it and
    // discards the error, then finishes cleanly.
    env.enter(outer);
    let inner = Fiber::spawn_opts(&mut env, named("inner"), small_stack());
    let r = inner.join(&mut env, vec![Slice::Panic("inner boom".to_string())]);
    assert!(matches!(r, Err(FiberError::Panicked(_))));
    env.finish_current();
    assert!(env.take_panic().is_none());

    assert!(outer.state(&env).is_finished());
    assert_eq!(outer.join(&mut env, vec![]), Ok(()));
}

#[test]
fn resume_after_finished_is_ok() {
    let mut env = Env::new();
    let h = spawn(&mut env, big_stack());
    assert_eq!(resume(&mut env, &h, Slice::Finish), Ok(()));
    assert_eq!(resume(&mut env, &h, Slice::Finish), Ok(()));
    assert!(h.state(&env).is_finished());
}

#[test]
fn self_resume_is_noop() {
    let mut env = Env::new();
    let h = spawn(&mut env, big_stack());
    env.enter(h);
    let cur = current(&env);
    assert_eq!(cur, h);
    // The fiber resumes itself: the inner call returns Ok immediately.
    assert_eq!(resume(&mut env, &cur, Slice::Finish), Ok(()));
    assert_eq!(h.state(&env), State::Running);
    // The fiber continues and eventually finishes.
    env.finish_current();
    assert!(h.state(&env).is_finished());
    assert_eq!(current(&env).id, 0);
}

#[test]
fn resume_panicked_is_rejected() {
    let mut env = Env::new();
    let h = spawn(&mut env, big_stack());
    let r = resume(&mut env, &h, Slice::Panic("once".to_string()));
    assert_eq!(r, Err(FiberError::Panicked("once".to_string())));
    // The payload was delivered; later resumes are rejected without it.
    assert_eq!(resume(&mut env, &h, Slice::Finish), Err(FiberError::ResumeAfterPanic));
    assert_eq!(resume(&mut env, &h, Slice::Finish), Err(FiberError::ResumeAfterPanic));
}

#[test]
fn resume_awaiting_child_is_rejected() {
    let mut env = Env::new();
    let outer = spawn(&mut env, big_stack());
    env.enter(outer);
    let inner = spawn(&mut env, big_stack());
    env.enter(inner);
    // outer is waiting on inner: resuming it is a protocol violation.
    assert_eq!(outer.state(&env), State::Normal);
    assert_eq!(resume(&mut env, &outer, Slice::Finish), Err(FiberError::AwaitingChild));
    env.finish_current();
    env.finish_current();
    assert!(outer.state(&env).is_finished());
}

#[test]
fn sched_round_trip_restores_parent() {
    let mut env = Env::new();
    let h = spawn(&mut env, big_stack());
    assert_eq!(resume(&mut env, &h, Slice::Yield(State::Suspended)), Ok(()));
    assert_eq!(h.state(&env), State::Suspended);
    assert_eq!(current(&env).id, 0);
    // The fiber is exactly as resumable as before the round trip.
    assert_eq!(resume(&mut env, &h, Slice::Finish), Ok(()));
    assert!(h.state(&env).is_finished());
}

#[test]
fn blocked_resumes_like_suspended() {
    let mut env = Env::new();
    let h = spawn(&mut env, big_stack());
    env.enter(h);
    block(&mut env);
    assert_eq!(h.state(&env), State::Blocked);
    assert_eq!(resume(&mut env, &h, Slice::Finish), Ok(()));
    assert!(h.state(&env).is_finished());
}

#[test]
fn join_drives_through_yields() {
    let mut env = Env::new();
    let h = spawn(&mut env, big_stack());
    let slices = vec![
        Slice::Yield(State::Suspended),
        Slice::Yield(State::Blocked),
        Slice::Finish,
    ];
    assert_eq!(h.join(&mut env, slices), Ok(()));
    assert!(h.state(&env).is_finished());
}

#[test]
fn join_of_already_panicked_is_rejected() {
    let mut env = Env::new();
    let h = spawn(&mut env, big_stack());
    let _ = resume(&mut env, &h, Slice::Panic("gone".to_string()));
    assert_eq!(h.join(&mut env, vec![Slice::Finish]), Err(FiberError::ResumeAfterPanic));
}

#[test]
fn chain_bottom_is_root_and_top_runs() {
    let mut env = Env::new();
    assert_eq!(current(&env).id, 0);
    assert_eq!(env.fibers[0].name(), Some("<Environment Root Fiber>"));
    assert_eq!(env.fibers[0].state, State::Running);
    let h = spawn(&mut env, big_stack());
    env.enter(h);
    assert_eq!(current(&env), h);
    assert_eq!(h.state(&env), State::Running);
    assert_eq!(env.fibers[0].state, State::Normal);
    env.finish_current();
    assert_eq!(current(&env).id, 0);
    assert_eq!(env.fibers[0].state, State::Running);
}

#[test]
fn yield_from_root_is_noop() {
    let mut env = Env::new();
    sched(&mut env);
    block(&mut env);
    assert_eq!(current(&env).id, 0);
    assert_eq!(env.fibers[0].state, State::Running);
    assert_eq!(env.fibers.len(), 1);
}

#[test]
fn handles_stay_stable() {
    let mut env = Env::new();
    let a = Fiber::spawn_opts(&mut env, named("a"), small_stack());
    let b = Fiber::spawn_opts(&mut env, named("b"), small_stack());
    let c = Fiber::spawn_opts(&mut env, named("c"), small_stack());
    assert_eq!((a.id, b.id, c.id), (1, 2, 3));
    let _ = resume(&mut env, &b, Slice::Yield(State::Suspended));
    let _ = resume(&mut env, &a, Slice::Finish);
    assert_eq!(env.fibers.len(), 4);
    assert_eq!(env.fibers[a.id].name(), Some("a"));
    assert_eq!(env.fibers[b.id].name(), Some("b"));
    assert_eq!(env.fibers[c.id].name(), Some("c"));
    assert!(env.fibers[a.id].finished());
}
