//! Stack records, guard-page arithmetic, and the bounded stack pool.
//!
//! A fiber's stack is a fixed-size memory mapping whose lowest page is made
//! inaccessible as an overflow guard. The mapping itself comes from the
//! operating system; the kernel records it as a [`Region`]: its base address,
//! its length and the page size it was carved with, all plain numbers. The
//! pool caches released stacks, keyed loosely by their minimum size, under a
//! fixed cap.

use vstd::prelude::*;

verus! {

/// The largest number of released stacks the pool caches; a stack given back
/// beyond this cap is handed back to the caller for unmapping.
pub const POOL_CAP: usize = 256;

/// A memory mapping obtained from the operating system, as the kernel sees
/// it: base address, length and page size.
#[derive(Clone, Copy, PartialEq, Eq, Structural, Debug)]
pub struct Region {
    /// The lowest address of the mapping. Its page is the overflow guard.
    pub base: usize,
    /// The length of the mapping in bytes.
    pub len: usize,
    /// The size in bytes of the pages the mapping was carved with.
    pub page: usize,
}

impl Region {
    /// A region is well formed when it is page-aligned, page-granular, holds
    /// at least one usable page above its guard page, does not wrap around
    /// the address space, and does not start at the null address.
    pub open spec fn wf(self) -> bool {
        &&& self.page >= 1
        &&& self.base >= 1
        &&& self.base % self.page == 0
        &&& self.len % self.page == 0
        &&& self.len >= 2 * self.page
        &&& self.base + self.len <= usize::MAX
    }
}

/// A fiber's stack: an owned mapping plus the minimum size it was requested
/// with. The synthetic root fiber's stack holds no mapping at all.
#[derive(Clone, Copy, PartialEq, Eq, Structural, Debug)]
pub struct Stack {
    /// The underlying mapping; `None` only for the zero-length stack of the
    /// synthetic root fiber.
    pub buf: Option<Region>,
    /// The size the stack was requested with; the mapping is at least this
    /// long. The pool matches released stacks by this number.
    pub min_size: usize,
}

impl Stack {
    /// A stack is well formed when its mapping, if any, is well formed and
    /// at least as long as the requested minimum; a stack without a mapping
    /// has minimum size zero.
    pub open spec fn wf(self) -> bool {
        match self.buf {
            Some(r) => r.wf() && r.len >= self.min_size,
            None => self.min_size == 0,
        }
    }

    /// Record a stack of requested size `size` over the mapping `region`.
    ///
    /// The mapping must already be long enough for the request; its length
    /// comes out of [`required_map_len`].
    pub fn new(size: usize, region: Region) -> (s: Stack)
        requires
            1 <= size,
            region.wf(),
            size <= region.len,
        ensures
            s == (Stack { buf: Some(region), min_size: size }),
            s.wf(),
    {
        Stack { buf: Some(region), min_size: size }
    }

    /// A zero-length stack which starts (and ends) at the null address: the
    /// stack record of the synthetic root fiber, which runs on the host
    /// thread's own stack.
    pub fn dummy_stack() -> (s: Stack)
        ensures
            s == (Stack { buf: None, min_size: 0 }),
            s.wf(),
    {
        Stack { buf: None, min_size: 0 }
    }

    /// The lowest address of the allocated stack, in spec form.
    pub open spec fn spec_start(self) -> usize {
        match self.buf {
            Some(r) => r.base,
            None => 0,
        }
    }

    /// The lowest address of the allocated stack; the null address for a
    /// stack without a mapping.
    pub fn start(&self) -> (r: usize)
        ensures
            r == self.spec_start(),
    {
        match self.buf {
            Some(r) => r.base,
            None => 0,
        }
    }

    /// One byte beyond the highest address of the allocated stack, in spec
    /// form.
    pub open spec fn spec_end(self) -> int {
        match self.buf {
            Some(r) => r.base + r.len,
            None => 0,
        }
    }

    /// One byte beyond the highest address of the allocated stack; the null
    /// address for a stack without a mapping. The stack is consumed from
    /// here downward.
    pub fn end(&self) -> (r: usize)
        requires
            self.wf(),
        ensures
            r == self.spec_end(),
    {
        match self.buf {
            Some(r) => r.base + r.len,
            None => 0,
        }
    }

    /// One byte beyond the guard: the lowest address a fiber may use.
    /// Overflow below this address faults on the guard page instead of
    /// silently corrupting memory.
    pub fn guard(&self) -> (r: usize)
        requires
            self.wf(),
            self.buf is Some,
        ensures
            r == self.buf.unwrap().base + self.buf.unwrap().page,
    {
        match self.buf {
            Some(reg) => reg.base + reg.page,
            None => 0,
        }
    }
}

/// The length of mapping that a stack request of `size` bytes needs: `size`
/// rounded up to page granularity, floored at two pages so that at least one
/// usable page stands above the guard page.
pub open spec fn spec_required_map_len(size: int, page: int) -> int
    recommends
        page >= 1,
{
    let rounded = ((size + page - 1) / page) * page;
    if rounded < 2 * page {
        2 * page
    } else {
        rounded
    }
}

/// Compute the mapping length for a stack request of `size` bytes on pages
/// of `page` bytes: `size` rounded up to page granularity, floored at two
/// pages (the guard page and at least one usable page above it).
pub fn required_map_len(size: usize, page: usize) -> (r: usize)
    requires
        1 <= page,
        size + page <= usize::MAX,
        2 * page <= usize::MAX,
    ensures
        r == spec_required_map_len(size as int, page as int),
        r >= size,
        r % page == 0,
        r >= 2 * page,
{
    let t: usize = size + page - 1;
    let q: usize = t / page;
    proof {
        let si = size as int;
        let pi = page as int;
        let qi = (si + pi - 1) / pi;
        assert(qi * pi <= si + pi - 1 && si <= qi * pi && (qi * pi) % pi == 0)
            by (nonlinear_arith)
            requires
                pi >= 1,
                si >= 0,
                qi == (si + pi - 1) / pi,
        ;
    }
    let rounded: usize = q * page;
    proof {
        assert((2 * (page as int)) % (page as int) == 0) by (nonlinear_arith)
            requires
                page as int >= 1,
        ;
    }
    if rounded < 2 * page {
        2 * page
    } else {
        rounded
    }
}

/// A bounded cache of released stacks, keyed loosely by minimum size, to
/// amortize mapping cost across fiber churn. In a running system a single
/// mutex guards it; the kernel verifies the cache under that lock.
#[derive(Debug)]
pub struct StackPool {
    /// The cached stacks, in no particular order.
    pub stacks: Vec<Stack>,
}

impl StackPool {
    /// A pool is well formed when it is within its cap and every cached
    /// stack is well formed.
    pub open spec fn wf(self) -> bool {
        &&& self.stacks@.len() <= POOL_CAP
        &&& forall|i: int| 0 <= i < self.stacks@.len() ==> self.stacks@[i].wf()
    }

    /// An empty pool.
    pub fn new() -> (p: StackPool)
        ensures
            p.wf(),
            p.stacks@ =~= Seq::<Stack>::empty(),
    {
        StackPool { stacks: Vec::new() }
    }

    /// Remove and return the first cached stack whose requested size is at
    /// least `min_size`; `None` when no cached stack is large enough, in
    /// which case the caller maps a fresh one.
    pub fn take_stack(&mut self, min_size: usize) -> (r: Option<Stack>)
        requires
            old(self).wf(),
        ensures
            final(self).wf(),
            match r {
                Some(s) => exists|i: int|
                    {
                        &&& 0 <= i < old(self).stacks@.len()
                        &&& s == old(self).stacks@[i]
                        &&& min_size <= s.min_size
                        &&& forall|j: int| 0 <= j < i ==> old(self).stacks@[j].min_size < min_size
                        &&& final(self).stacks@ == old(self).stacks@.update(
                            i,
                            old(self).stacks@.last(),
                        ).drop_last()
                    },
                None => {
                    &&& *final(self) == *old(self)
                    &&& forall|i: int|
                        0 <= i < final(self).stacks@.len() ==> final(self).stacks@[i].min_size
                            < min_size
                },
            },
    {
        let n = self.stacks.len();
        let mut i: usize = 0;
        while i < n
            invariant
                n == self.stacks@.len(),
                0 <= i <= n,
                old(self).wf(),
                *self == *old(self),
                forall|j: int| 0 <= j < i ==> self.stacks@[j].min_size < min_size,
            decreases n - i,
        {
            if min_size <= self.stacks[i].min_size {
                let s = self.stacks.swap_remove(i);
                return Some(s);
            }
            i = i + 1;
        }
        None
    }

    /// Return a released stack to the cache. When the cache is already at
    /// its cap the stack is rejected and handed back, and the caller unmaps
    /// it; so the cap is enforced on every path that gives a stack back.
    pub fn give_stack(&mut self, stack: Stack) -> (rejected: Option<Stack>)
        requires
            old(self).wf(),
            stack.wf(),
        ensures
            final(self).wf(),
            final(self).stacks@.len() <= POOL_CAP,
            if old(self).stacks@.len() < POOL_CAP {
                &&& final(self).stacks@ == old(self).stacks@.push(stack)
                &&& rejected is None
            } else {
                &&& *final(self) == *old(self)
                &&& rejected == Some(stack)
            },
    {
        if self.stacks.len() < POOL_CAP {
            self.stacks.push(stack);
            None
        } else {
            Some(stack)
        }
    }
}

} // verus!
