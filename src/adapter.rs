//! The allocation adapter's decisions: what each sized native call is handed,
//! and what its answer must satisfy.
use vstd::prelude::*;
use crate::flags::{flags_of, mallocx_flags, MALLOCX_ZERO};
use crate::layout::{
    adjust_layout, adjusted_align, adjusted_size, lemma_adjust_idempotent, max, power_of_two,
    Layout, MAX_SIZE, QUANTUM,
};

verus! {

/// The arguments of one sized native call: the adjusted size and alignment,
/// and the flag word that encodes the alignment (and zero-filling).
#[derive(Clone, Copy, Debug, PartialEq, Eq, Structural)]
pub struct SizedRequest {
    pub size: usize,
    pub align: usize,
    pub flags: i32,
}

impl SizedRequest {
    /// The shape of every request this module builds.
    pub open spec fn wf(&self) -> bool {
        &&& power_of_two(self.align as int)
        &&& self.align >= QUANTUM
        &&& self.size >= self.align
        &&& self.size >= QUANTUM
    }

    /// An address handed out for this request is aligned as it asks.
    pub fn is_aligned(&self, addr: usize) -> (r: bool)
        requires
            self.align > 0,
        ensures
            r == (addr as int % self.align as int == 0),
    {
        addr % self.align == 0
    }

    /// A usable size reported for this request covers the size it asks for.
    pub fn covers(&self, usable: usize) -> (r: bool)
        ensures
            r == (usable >= self.size),
    {
        usable >= self.size
    }

    /// The allocator's answer passes both checks: the address is aligned and
    /// its usable size covers the request.
    pub fn accepts(&self, addr: usize, usable: usize) -> (r: bool)
        requires
            self.align > 0,
        ensures
            r == (addr as int % self.align as int == 0 && usable >= self.size),
    {
        self.is_aligned(addr) && self.covers(usable)
    }
}

/// The request that a host layout becomes, zero-filled where `zero`.
pub open spec fn request_of(l: Layout, zero: bool) -> SizedRequest {
    SizedRequest {
        size: adjusted_size(l) as usize,
        align: adjusted_align(l) as usize,
        flags: flags_of(adjusted_align(l), zero) as i32,
    }
}

fn sized_request(layout: Layout, zero: bool) -> (r: SizedRequest)
    requires
        layout.wf(),
    ensures
        r == request_of(layout, zero),
        r.wf(),
        r.flags as int == flags_of(r.align as int, zero),
        (r.flags & MALLOCX_ZERO != 0) == zero,
{
    let l = adjust_layout(layout);
    let flags = mallocx_flags(l.align(), zero);
    SizedRequest { size: l.size(), align: l.align(), flags }
}

/// The native allocation call for `layout`.
pub fn alloc_request(layout: Layout) -> (r: SizedRequest)
    requires
        layout.wf(),
    ensures
        r == request_of(layout, false),
        r.wf(),
        r.size >= layout.spec_size(),
        r.align >= layout.spec_align(),
{
    sized_request(layout, false)
}

/// The native zero-filling allocation call for `layout`: the same request
/// with the zero-fill bit set.
pub fn alloc_zeroed_request(layout: Layout) -> (r: SizedRequest)
    requires
        layout.wf(),
    ensures
        r == request_of(layout, true),
        r.wf(),
        r.size >= layout.spec_size(),
        r.align >= layout.spec_align(),
        r.flags & MALLOCX_ZERO != 0,
{
    sized_request(layout, true)
}

/// The native resize call that takes a block of `layout` to `new_size` bytes.
/// The alignment is the original one: a resize never changes it.
pub fn realloc_request(layout: Layout, new_size: usize) -> (r: SizedRequest)
    requires
        layout.wf(),
        new_size <= MAX_SIZE,
    ensures
        r.align == adjusted_align(layout),
        r.size == max(max(new_size as int, QUANTUM as int), adjusted_align(layout)),
        r.flags == flags_of(adjusted_align(layout), false),
        r.wf(),
        r.size >= new_size,
{
    let resized = Layout::from_size_align(new_size, layout.align()).unwrap();
    sized_request(resized, false)
}

/// The native sized-free call for a block allocated with `layout`.
pub fn dealloc_request(layout: Layout) -> (r: SizedRequest)
    requires
        layout.wf(),
    ensures
        r == request_of(layout, false),
        r.wf(),
{
    sized_request(layout, false)
}

/// A block is freed with the size and flags that allocated it, and a
/// zero-filled block with the same size and alignment bits.
pub proof fn lemma_free_matches_allocation(l: Layout)
    requires
        l.wf(),
    ensures
        request_of(l, false).size == request_of(l, true).size,
        request_of(l, false).align == request_of(l, true).align,
        request_of(l, true).flags == request_of(l, false).flags + MALLOCX_ZERO,
{
    crate::flags::lemma_log2_usize(adjusted_align(l) as usize);
}

/// A block may be freed with the layout it was handed out under after
/// adjustment: that layout asks for the very request that allocated it.
pub proof fn lemma_free_with_adjusted_layout(l: Layout, a: Layout, zero: bool)
    requires
        l.wf(),
        a.spec_size() == adjusted_size(l),
        a.spec_align() == adjusted_align(l),
    ensures
        request_of(a, zero) == request_of(l, zero),
{
    lemma_adjust_idempotent(l, a);
}

} // verus!
