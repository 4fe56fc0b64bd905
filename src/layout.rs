//! Host memory requests and the adjustment applied to them before they reach
//! the native allocator.
use vstd::prelude::*;

verus! {

/// The smallest granularity and alignment that the native allocator serves.
///
/// This is the quantum of 64-bit targets. Where the allocator was built with
/// an 8-byte quantum, requests are merely over-aligned, which it serves.
pub const QUANTUM: usize = 16;

/// The largest size or alignment that a request may name.
pub const MAX_SIZE: usize = usize::MAX / 2;

/// `n` is a power of two.
pub open spec fn power_of_two(n: int) -> bool
    decreases n,
{
    if n <= 0 {
        false
    } else if n == 1 {
        true
    } else {
        n % 2 == 0 && power_of_two(n / 2)
    }
}

/// The base-two logarithm of `n`, rounded down.
pub open spec fn log2(n: int) -> nat
    decreases n,
{
    if n <= 1 {
        0
    } else {
        1 + log2(n / 2)
    }
}

/// The larger of two integers.
pub open spec fn max(a: int, b: int) -> int {
    if a >= b {
        a
    } else {
        b
    }
}

/// Tells whether `n` is a power of two.
pub fn is_power_of_two(n: usize) -> (r: bool)
    ensures
        r == power_of_two(n as int),
{
    if n == 0 {
        return false;
    }
    let mut m: usize = n;
    while m > 1 && m % 2 == 0
        invariant
            m >= 1,
            power_of_two(m as int) == power_of_two(n as int),
        decreases m,
    {
        m = m / 2;
    }
    m == 1
}

/// A request for memory: a size in bytes and an alignment.
#[derive(Clone, Copy, Debug, PartialEq, Eq, Structural)]
pub struct Layout {
    size: usize,
    align: usize,
}

impl Layout {
    /// The alignment is a power of two, and neither value exceeds `MAX_SIZE`.
    pub open spec fn wf(&self) -> bool {
        &&& power_of_two(self.spec_align() as int)
        &&& self.spec_align() <= MAX_SIZE
        &&& self.spec_size() <= MAX_SIZE
    }

    pub closed spec fn spec_size(&self) -> usize {
        self.size
    }

    pub closed spec fn spec_align(&self) -> usize {
        self.align
    }

    /// The layout of `size` bytes aligned to `align`, or `None` where the
    /// alignment is not a power of two or a value exceeds `MAX_SIZE`.
    pub fn from_size_align(size: usize, align: usize) -> (r: Option<Layout>)
        ensures
            r is Some <==> (power_of_two(align as int) && align <= MAX_SIZE && size <= MAX_SIZE),
            r matches Some(l) ==> l.wf() && l.spec_size() == size && l.spec_align() == align,
    {
        if is_power_of_two(align) && align <= MAX_SIZE && size <= MAX_SIZE {
            Some(Layout { size, align })
        } else {
            None
        }
    }

    /// The requested size in bytes.
    pub fn size(&self) -> (r: usize)
        ensures
            r == self.spec_size(),
    {
        self.size
    }

    /// The requested alignment in bytes.
    pub fn align(&self) -> (r: usize)
        ensures
            r == self.spec_align(),
    {
        self.align
    }
}

/// The alignment that `adjust_layout` gives a request.
pub open spec fn adjusted_align(l: Layout) -> int {
    max(l.spec_align() as int, QUANTUM as int)
}

/// The size that `adjust_layout` gives a request: at least the quantum, and
/// never smaller than its own alignment.
pub open spec fn adjusted_size(l: Layout) -> int {
    max(max(l.spec_size() as int, QUANTUM as int), adjusted_align(l))
}

proof fn lemma_quantum_power_of_two()
    ensures
        power_of_two(QUANTUM as int),
{
    reveal_with_fuel(power_of_two, 5);
}

/// Raises a request to what the native allocator can serve: the alignment to
/// at least the quantum, the size to at least the quantum and to at least the
/// alignment.
pub fn adjust_layout(layout: Layout) -> (r: Layout)
    requires
        layout.wf(),
    ensures
        r.wf(),
        r.spec_align() == adjusted_align(layout),
        r.spec_size() == adjusted_size(layout),
        power_of_two(r.spec_align() as int),
        r.spec_align() >= QUANTUM,
        r.spec_align() >= layout.spec_align(),
        r.spec_size() >= r.spec_align(),
        r.spec_size() >= QUANTUM,
        r.spec_size() >= layout.spec_size(),
{
    proof {
        lemma_quantum_power_of_two();
    }
    let align = if layout.align >= QUANTUM {
        layout.align
    } else {
        QUANTUM
    };
    let mut size = if layout.size >= QUANTUM {
        layout.size
    } else {
        QUANTUM
    };
    if size < align {
        size = align;
    }
    Layout { size, align }
}

/// Adjusting an adjusted request changes nothing, so the layout that was
/// handed out after adjustment names the same request when it comes back.
pub proof fn lemma_adjust_idempotent(l: Layout, a: Layout)
    requires
        l.wf(),
        a.spec_size() == adjusted_size(l),
        a.spec_align() == adjusted_align(l),
    ensures
        adjusted_align(a) == adjusted_align(l),
        adjusted_size(a) == adjusted_size(l),
{
}

} // verus!
