//! Trusted boundary around `linked_list_allocator`, the free-list allocator
//! that serves every dynamic allocation after the heap bootstrap.
//!
//! The allocator's internal free-list behaviour is out of scope here; the
//! contracts state only what its source plainly shows: the managed capacity
//! an initialization call establishes, that allocation never changes that
//! capacity, and that a request larger than the capacity is never satisfied.

use vstd::prelude::*;

verus! {

#[verifier::external_type_specification]
#[verifier::external_body]
pub struct ExHeap(linked_list_allocator::Heap);

/// The number of bytes the heap manages for allocations: what
/// `linked_list_allocator::Heap::size` returns. Zero until the heap is
/// handed an arena.
pub uninterp spec fn heap_capacity(h: linked_list_allocator::Heap) -> nat;

/// Whether the heap in state `h` satisfies an allocation request of `size`
/// bytes aligned to `align`: the answer `allocate_first_fit` gives, a
/// function of the heap value and the request alone.
pub uninterp spec fn alloc_ok(h: linked_list_allocator::Heap, size: usize, align: usize) -> bool;

/// Relies on `linked_list_allocator::Heap::empty`: the empty heap manages no
/// memory (its bounds are both null), so its capacity is zero.
#[verifier::external_body]
pub(crate) fn heap_empty() -> (h: linked_list_allocator::Heap)
    ensures
        heap_capacity(h) == 0,
{
    linked_list_allocator::Heap::empty()
}

/// Relies on `linked_list_allocator::Heap::init_from_slice`: it panics on a
/// heap that already manages memory and on an arena smaller than the
/// free-list metadata (at most three machine words), and otherwise leaves the
/// heap managing the arena, truncated at each end by less than two machine
/// words to align the free-list node.
///
/// The arena itself is a fixed region reserved for the whole process
/// lifetime, which this body obtains by leaking a zeroed allocation of
/// `size` bytes.
///
/// The freshly initialized heap is a single free block spanning the whole
/// capacity, placed at a machine-word-aligned bottom. A request whose
/// alignment is at most one machine word therefore needs no front padding,
/// the size the allocator rounds it up to (at least two machine words, then
/// to a word multiple) is at most `size + 16`, and a remainder of at least
/// two machine words always forms a valid free block behind it — so a first
/// request that leaves a margin of 32 bytes within the capacity is always
/// satisfied.
#[verifier::external_body]
pub(crate) fn heap_bootstrap(h: &mut linked_list_allocator::Heap, size: usize)
    requires
        heap_capacity(*old(h)) == 0,
        24 <= size,
    ensures
        heap_capacity(*final(h)) <= size,
        size <= heap_capacity(*final(h)) + 16,
        forall|sz: usize, al: usize|
            1 <= sz && (al == 1 || al == 2 || al == 4 || al == 8) && sz + 32 <= heap_capacity(
                *final(h),
            ) ==> #[trigger] alloc_ok(*final(h), sz, al),
{
    let arena = vec![core::mem::MaybeUninit::new(0u8); size];
    h.init_from_slice(Box::leak(arena.into_boxed_slice()))
}

/// Relies on `linked_list_allocator::Heap::allocate_first_fit`: it carves the
/// request out of the first free block that can hold it and reports failure
/// otherwise. The answer is a function of the heap value and the request,
/// named [`alloc_ok`]. Every free block lies inside the managed region, so a
/// request larger than the capacity always fails; the managed bounds are
/// never moved by an allocation.
#[verifier::external_body]
pub(crate) fn heap_alloc(h: &mut linked_list_allocator::Heap, size: usize, align: usize) -> (r:
    bool)
    requires
        1 <= size,
        vstd::layout::valid_layout(size, align),
    ensures
        heap_capacity(*final(h)) == heap_capacity(*old(h)),
        r == alloc_ok(*old(h), size, align),
        size > heap_capacity(*old(h)) ==> r == false,
{
    match core::alloc::Layout::from_size_align(size, align) {
        Ok(layout) => h.allocate_first_fit(layout).is_ok(),
        Err(_) => false,
    }
}

/// Relies on `linked_list_allocator::Heap::size`: it returns the distance in
/// bytes between the managed bounds, the heap's capacity.
#[verifier::external_body]
pub(crate) fn heap_size(h: &linked_list_allocator::Heap) -> (r: usize)
    ensures
        r == heap_capacity(*h),
{
    h.size()
}

} // verus!
