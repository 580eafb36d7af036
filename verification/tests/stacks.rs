//! Stack records, guard arithmetic, mapping-length computation, the stack
//! pool's first-fit and cap, stack reclamation, and the panic report line.

use bran::env::Env;
use bran::fiber::{panic_line, Fiber, Options, Slice, DEFAULT_STACK_SIZE};
use bran::stack::{required_map_len, Region, Stack, StackPool, POOL_CAP};
use bran::{resume, spawn};

fn stack_of(min_size: usize) -> Stack {
    let len = required_map_len(min_size, 4096);
    let region = Region { base: 4096, len, page: 4096 };
    Stack::new(min_size, region)
}

fn big_stack() -> Stack {
    stack_of(DEFAULT_STACK_SIZE)
}

#[test]
fn options_default_values() {
    let opts = Options::default();
    assert_eq!(opts.stack_size, 2 * 1024 * 1024);
    assert!(opts.name.is_none());
}

#[test]
fn stack_accessors() {
    let region = Region { base: 0x10000, len: 0x4000, page: 0x1000 };
    let s = Stack::new(0x3000, region);
    assert_eq!(s.min_size, 0x3000);
    assert_eq!(s.start(), 0x10000);
    assert_eq!(s.end(), 0x14000);
    assert_eq!(s.guard(), 0x11000);
}

#[test]
fn dummy_stack_is_empty() {
    let s = Stack::dummy_stack();
    assert_eq!(s.start(), 0);
    assert_eq!(s.end(), 0);
    assert_eq!(s.min_size, 0);
}

#[test]
fn mapping_length_rounds_up_with_guard_floor() {
    // A request below one page still gets a guard page and a usable page.
    assert_eq!(required_map_len(1, 4096), 8192);
    assert_eq!(required_map_len(4096, 4096), 8192);
    // Above the floor, the request is rounded up to page granularity.
    assert_eq!(required_map_len(4097, 4096), 8192);
    assert_eq!(required_map_len(8192, 4096), 8192);
    assert_eq!(required_map_len(10000, 4096), 12288);
    assert_eq!(required_map_len(0, 4096), 8192);
    // The largest request the machine limits allow.
    assert_eq!(required_map_len(usize::MAX - 4096, 4096), 18446744073709547520);
}

#[test]
fn pool_take_from_empty_is_none() {
    let mut pool = StackPool::new();
    assert!(pool.take_stack(4096).is_none());
}

#[test]
fn pool_first_fit() {
    let mut pool = StackPool::new();
    assert!(pool.give_stack(stack_of(1000)).is_none());
    assert!(pool.give_stack(stack_of(3000)).is_none());
    assert!(pool.give_stack(stack_of(2000)).is_none());

    // The first cached stack big enough for the request is taken.
    let taken = pool.take_stack(1500).unwrap();
    assert_eq!(taken.min_size, 3000);
    assert_eq!(pool.stacks.len(), 2);

    // Nothing is big enough for this one.
    assert!(pool.take_stack(5000).is_none());

    let taken = pool.take_stack(500).unwrap();
    assert_eq!(taken.min_size, 1000);
}

#[test]
fn pool_cap_is_enforced() {
    let mut pool = StackPool::new();
    let mut i = 0;
    while i < POOL_CAP {
        assert!(pool.give_stack(stack_of(4096)).is_none());
        i += 1;
    }
    assert_eq!(pool.stacks.len(), POOL_CAP);
    // One more is rejected and handed back for unmapping.
    let rejected = pool.give_stack(stack_of(4096));
    assert!(rejected.is_some());
    assert_eq!(pool.stacks.len(), POOL_CAP);
}

#[test]
fn reclaim_returns_stack_to_pool() {
    let mut env = Env::new();
    let h = spawn(&mut env, big_stack());
    assert_eq!(resume(&mut env, &h, Slice::Finish), Ok(()));

    assert!(env.fibers[h.id].stack.is_some());
    assert!(env.reclaim(h).is_none());
    assert!(env.fibers[h.id].stack.is_none());
    assert_eq!(env.pool.stacks.len(), 1);

    // A later spawn can reuse the pooled stack.
    let reused = env.pool.take_stack(DEFAULT_STACK_SIZE).unwrap();
    assert_eq!(reused.min_size, DEFAULT_STACK_SIZE);
    let h2 = Fiber::spawn_opts(&mut env, Options::default(), reused);
    assert_eq!(resume(&mut env, &h2, Slice::Finish), Ok(()));

    // Reclaiming a stackless fiber gives the pool nothing.
    assert!(env.reclaim(h).is_none());
    assert_eq!(env.pool.stacks.len(), 0);
}

#[test]
fn panic_line_contents() {
    let line = panic_line(&Some("worker".to_string()), "boom");
    assert_eq!(line.as_str(), "Fiber 'worker' panicked at 'boom'");
    let line = panic_line(&None, "oops");
    assert_eq!(line.as_str(), "Fiber '<unnamed>' panicked at 'oops'");
}
