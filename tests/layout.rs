use jevmalloc::{
    adjust_layout, alloc_request, alloc_zeroed_request, dealloc_request, is_power_of_two,
    mallocx_align, mallocx_flags, realloc_request, Layout, MALLOCX_ZERO, MAX_SIZE, QUANTUM,
};

fn layout(size: usize, align: usize) -> Layout {
    Layout::from_size_align(size, align).unwrap()
}

#[test]
fn power_of_two_check() {
    assert!(is_power_of_two(1));
    assert!(is_power_of_two(16));
    assert!(is_power_of_two(1 << 40));
    assert!(!is_power_of_two(0));
    assert!(!is_power_of_two(12));
}

#[test]
fn from_size_align_rejects_bad_alignment() {
    assert!(Layout::from_size_align(8, 3).is_none());
    assert!(Layout::from_size_align(8, 0).is_none());
    assert!(Layout::from_size_align(MAX_SIZE + 1, 8).is_none());
    let l = layout(24, 8);
    assert_eq!((l.size(), l.align()), (24, 8));
}

#[test]
fn small_request_is_raised_to_quantum() {
    let a = adjust_layout(layout(4, 1));
    assert_eq!(QUANTUM, 16);
    assert_eq!((a.size(), a.align()), (16, 16));
}

#[test]
fn large_request_is_kept() {
    let a = adjust_layout(layout(100, 8));
    assert_eq!((a.size(), a.align()), (100, 16));
    let b = adjust_layout(layout(4096, 64));
    assert_eq!((b.size(), b.align()), (4096, 64));
}

#[test]
fn size_is_raised_to_alignment() {
    let a = adjust_layout(layout(20, 64));
    assert_eq!((a.size(), a.align()), (64, 64));
    let b = adjust_layout(layout(0, 1));
    assert_eq!((b.size(), b.align()), (16, 16));
}

#[test]
fn adjusted_layouts_hold_their_invariants() {
    for align in [1usize, 2, 4, 8, 16, 32, 4096] {
        for size in [0usize, 1, 4, 15, 16, 17, 100, 5000] {
            let a = adjust_layout(layout(size, align));
            assert!(a.align().is_power_of_two());
            assert!(a.align() >= QUANTUM);
            assert!(a.size() >= a.align());
            assert!(a.size() >= size);
            let again = adjust_layout(a);
            assert_eq!(again, a);
        }
    }
}

#[test]
fn alignment_flags() {
    assert_eq!(mallocx_align(1), 0);
    assert_eq!(mallocx_align(16), 4);
    assert_eq!(mallocx_align(4096), 12);
    assert_eq!(mallocx_flags(16, false), 4);
    assert_eq!(mallocx_flags(16, true), 4 | MALLOCX_ZERO);
    assert_eq!(MALLOCX_ZERO, 0x40);
}

#[test]
fn allocation_request_for_small_layout() {
    let r = alloc_request(layout(4, 1));
    assert_eq!((r.size, r.align, r.flags), (16, 16, 4));
    assert!(r.accepts(0x1000, 16));
    assert!(!r.accepts(0x1008, 16));
    assert!(!r.accepts(0x1000, 8));
}

#[test]
fn zeroed_request_sets_zero_bit() {
    let r = alloc_zeroed_request(layout(100, 32));
    assert_eq!((r.size, r.align, r.flags), (100, 32, 5 | 0x40));
}

#[test]
fn free_uses_allocation_flags() {
    let l = layout(24, 8);
    let a = alloc_request(l);
    let d = dealloc_request(l);
    assert_eq!(a, d);
    assert_eq!((d.size, d.flags), (24, 4));
}

#[test]
fn realloc_keeps_alignment() {
    let r = realloc_request(layout(16, 128), 1000);
    assert_eq!((r.size, r.align, r.flags), (1000, 128, 7));
    let s = realloc_request(layout(1000, 128), 8);
    assert_eq!((s.size, s.align, s.flags), (128, 128, 7));
}

#[test]
fn checks_on_answers() {
    let r = alloc_request(layout(64, 64));
    assert!(r.is_aligned(0x4000));
    assert!(!r.is_aligned(0x4010));
    assert!(r.covers(64));
    assert!(r.covers(80));
    assert!(!r.covers(48));
}

#[test]
fn free_with_adjusted_layout_matches_allocation() {
    let requested = layout(4, 1);
    let adjusted = adjust_layout(requested);
    assert_eq!((adjusted.size(), adjusted.align()), (16, 16));
    let a = alloc_request(requested);
    let d = dealloc_request(adjusted);
    assert_eq!(a, d);
    assert_eq!(alloc_zeroed_request(adjusted), alloc_zeroed_request(requested));
}

#[test]
fn largest_request_is_accepted() {
    let l = layout(MAX_SIZE, 1);
    let r = alloc_request(l);
    assert_eq!((r.size, r.align, r.flags), (MAX_SIZE, 16, 4));
    let big = alloc_request(layout(0, (MAX_SIZE >> 1) + 1));
    assert_eq!(big.size, big.align);
    assert_eq!(1usize << big.flags, big.align);
}
