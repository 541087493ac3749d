//! A counter of the bytes that are allocated and not yet released, kept
//! beside the allocator that does the work.

use crate::quantity::from_live_bytes;
use crate::quantity::scaled;
use crate::quantity::BytesBase10;
use crate::unit::Unit;
use crate::unit::UnitBase10;
use std::alloc::System;
use std::sync::atomic::AtomicUsize;
use std::sync::atomic::Ordering;
use vstd::prelude::*;

verus! {

/// `std::alloc::System`, the allocator of the platform: a unit struct, of
/// which nothing is claimed.
#[verifier::external_type_specification]
pub struct ExSystem(System);

/// The counter beside the allocator of the platform.
pub type SystemTrackingAllocator = TrackingAllocator<System>;

/// An allocator together with the count of live bytes. The count is shared
/// by every thread and changes only by atomic additions and subtractions, so
/// a value read from it may be out of date as soon as it is read.
pub struct TrackingAllocator<A> {
    pub allocator: A,
    pub size: AtomicUsize,
}

/// One atomic step on the count: the count that the step found, and the
/// count that it left in its place.
#[derive(Debug, PartialEq, Eq, Structural, Clone, Copy)]
pub struct CountStep {
    pub found: usize,
    pub left: usize,
}

/// The count after `size` bytes were allocated at a count of `live`. The
/// addition wraps, as the atomic one does.
pub open spec fn count_after_allocate(live: usize, size: usize) -> usize {
    if live + size > usize::MAX {
        (live + size - usize::MAX - 1) as usize
    } else {
        (live + size) as usize
    }
}

/// The count after `size` bytes were released at a count of `live`. The
/// subtraction wraps, as the atomic one does.
pub open spec fn count_after_release(live: usize, size: usize) -> usize {
    if live < size {
        (live - size + usize::MAX + 1) as usize
    } else {
        (live - size) as usize
    }
}

/// The count after `pairs` allocations of `size` bytes, each followed by its release.
pub open spec fn count_after_pairs(live: usize, size: usize, pairs: nat) -> usize
    decreases pairs,
{
    if pairs == 0 {
        live
    } else {
        count_after_pairs(
            count_after_release(count_after_allocate(live, size), size),
            size,
            (pairs - 1) as nat,
        )
    }
}

/// Releasing what was allocated brings the count back to where it was, also
/// where the addition wrapped.
pub proof fn lemma_release_undoes_allocate(live: usize, size: usize)
    ensures
        count_after_release(count_after_allocate(live, size), size) == live,
{
}

/// Two allocations leave the same count in either order, and so do an
/// allocation and a release.
pub proof fn lemma_steps_commute(live: usize, a: usize, b: usize)
    ensures
        count_after_allocate(count_after_allocate(live, a), b) == count_after_allocate(
            count_after_allocate(live, b),
            a,
        ),
        count_after_release(count_after_allocate(live, a), b) == count_after_allocate(
            count_after_release(live, b),
            a,
        ),
{
}

/// Any number of allocations, each followed by the release of as many
/// bytes, leaves the count where it was. This speaks of the counter's
/// arithmetic, one step after the other.
pub proof fn lemma_pairs_leave_count(live: usize, size: usize, pairs: nat)
    ensures
        count_after_pairs(live, size, pairs) == live,
    decreases pairs,
{
    if pairs > 0 {
        lemma_release_undoes_allocate(live, size);
        lemma_pairs_leave_count(live, size, (pairs - 1) as nat);
    }
}

/// The count that an allocation of `size` bytes leaves where it found `live`.
pub fn after_allocate(live: usize, size: usize) -> (r: usize)
    ensures
        r == count_after_allocate(live, size),
{
    live.wrapping_add(size)
}

/// The count that a release of `size` bytes leaves where it found `live`.
pub fn after_release(live: usize, size: usize) -> (r: usize)
    ensures
        r == count_after_release(live, size),
{
    live.wrapping_sub(size)
}

impl<A> TrackingAllocator<A> {
    /// A counter at zero beside `allocator`.
    pub fn new(allocator: A) -> (r: Self)
        ensures
            r.allocator == allocator,
    {
        let size = AtomicUsize::new(0);
        Self { allocator, size }
    }

    /// Sets the count to zero, whatever is still allocated.
    pub fn reset(&self) {
        self.size.store(0, Ordering::SeqCst);
    }

    /// The count of live bytes at some moment during the call.
    pub fn get(&self) -> usize {
        self.size.load(Ordering::SeqCst)
    }

    /// The count of live bytes as a decimal quantity.
    pub fn get_bytesize(&self) -> (r: BytesBase10)
        ensures
            exists|live: usize| r@ == scaled(UnitBase10::thousand(), live as nat),
    {
        let live = self.get();
        from_live_bytes(live)
    }

    /// Adds `size` to the count in one atomic step, before the allocator is
    /// asked for as many bytes. The step leaves the count that it found,
    /// raised by `size`; which count it found depends on the other threads.
    pub fn on_allocate(&self, size: usize) -> (step: CountStep)
        ensures
            step.left == count_after_allocate(step.found, size),
    {
        let found = self.size.fetch_add(size, Ordering::SeqCst);
        CountStep { found, left: after_allocate(found, size) }
    }

    /// Takes `size` from the count in one atomic step, after the allocator
    /// has released as many bytes. The step leaves the count that it found,
    /// lowered by `size`; which count it found depends on the other threads.
    pub fn on_release(&self, size: usize) -> (step: CountStep)
        ensures
            step.left == count_after_release(step.found, size),
    {
        let found = self.size.fetch_sub(size, Ordering::SeqCst);
        CountStep { found, left: after_release(found, size) }
    }
}

impl TrackingAllocator<System> {
    /// A counter at zero beside the allocator of the platform.
    pub fn new_system() -> Self {
        Self::new(System)
    }
}

} // verus!
