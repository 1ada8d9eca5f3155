//! The descriptor pool: a fixed-capacity allocator for descriptor sets,
//! managed against an excluded device boundary. The pool prepares one batched
//! native request per operation, translates what the boundary reports back
//! into the set/error model, and reuses one scratch buffer across free calls.
//!
//! The native calls themselves (unsafe driver entry points) live outside this
//! library: a caller obtains the batched request from the pool, performs the
//! call, and hands the outcome back for translation. Everything the pool
//! decides — request contents, order preservation, error classification,
//! scratch reuse — is specified and verified here.

use vstd::prelude::*;
use crate::descriptor::{DescriptorSet, DescriptorSetLayout};
use crate::error::{classification, classify_device_error, AllocationError};

verus! {

/// What the device boundary reported for one batched allocation request:
/// either one fresh set handle per requested layout, in request order, or a
/// single native failure code for the whole batch. The native primitive is
/// all-or-nothing; there is no partial success.
pub enum DeviceAllocation {
    Success(Vec<u64>),
    Failure(i32),
}

/// The raw handles of a sequence of descriptor sets, in the same order.
pub open spec fn raw_handles(sets: Seq<DescriptorSet>) -> Seq<u64> {
    sets.map_values(|s: DescriptorSet| s.raw)
}

/// `results` is the correct translation of `outcome` for `layouts`: one slot
/// per layout, in input order. On success, slot `i` pairs the `i`-th returned
/// handle with the `i`-th layout's binding schema; on total failure, every
/// slot holds the identical classified error.
pub open spec fn allocation_translation(
    layouts: Seq<&DescriptorSetLayout>,
    outcome: DeviceAllocation,
    results: Seq<Result<DescriptorSet, AllocationError>>,
) -> bool {
    &&& results.len() == layouts.len()
    &&& match outcome {
        DeviceAllocation::Success(handles) => forall|i: int|
            0 <= i < results.len() ==> (#[trigger] results[i] matches Ok(s) && s.raw == handles@[i]
                && s.bindings@ == layouts[i].bindings@),
        DeviceAllocation::Failure(code) => forall|i: int|
            0 <= i < results.len() ==> (#[trigger] results[i] matches Err(e) && e
                == classification(code)),
    }
}

/// Two allocation-result slots are observationally identical: both successes
/// with the same native handle and equal binding schemas, or both the same
/// classified error.
pub open spec fn equivalent_slot(
    a: Result<DescriptorSet, AllocationError>,
    b: Result<DescriptorSet, AllocationError>,
) -> bool {
    match (a, b) {
        (Ok(x), Ok(y)) => x.raw == y.raw && x.bindings@ == y.bindings@,
        (Err(x), Err(y)) => x == y,
        _ => false,
    }
}

/// A fixed-capacity allocator for descriptor sets. Owns the raw native pool
/// handle and a scratch buffer of raw set handles that is reused across free
/// calls purely to avoid reallocating storage each call. Capacity itself lives
/// behind the device boundary; the pool never tracks it.
#[derive(Debug)]
pub struct DescriptorPool {
    pub raw: u64,
    /// Fully overwritten, never appended to, on each free call; holds only the
    /// handles of the most recent one and carries no meaning between calls.
    pub set_free_vec: Vec<u64>,
}

impl DescriptorPool {
    /// A pool over a freshly created native pool object, with an empty scratch
    /// buffer.
    pub fn new(raw: u64) -> (r: DescriptorPool)
        ensures
            r.raw == raw,
            r.set_free_vec@ == Seq::<u64>::empty(),
    {
        DescriptorPool { raw, set_free_vec: Vec::new() }
    }

    /// The batched native allocation request for `layouts`: the raw layout
    /// handles, captured in input order, to be submitted to the device
    /// boundary in one call. Returns `None` exactly when no layouts were
    /// submitted: the empty batch succeeds trivially and must not reach the
    /// device at all.
    pub fn allocation_request(&self, layouts: &Vec<&DescriptorSetLayout>) -> (r: Option<Vec<u64>>)
        ensures
            match r {
                Some(raws) => layouts@.len() > 0 && raws@.len() == layouts@.len() && forall|i: int|
                    0 <= i < raws@.len() ==> raws@[i] == layouts@[i].raw,
                None => layouts@.len() == 0,
            },
    {
        if layouts.len() == 0 {
            return None;
        }
        let mut raws: Vec<u64> = Vec::new();
        let mut i: usize = 0;
        while i < layouts.len()
            invariant
                i <= layouts.len(),
                raws@.len() == i,
                forall|j: int| 0 <= j < i ==> raws@[j] == layouts@[j].raw,
            decreases layouts.len() - i,
        {
            raws.push(layouts[i].raw);
            i = i + 1;
        }
        Some(raws)
    }

    /// Translates the outcome of the batched allocation request for `layouts`
    /// into the caller-visible result sequence: exactly one slot per layout,
    /// in input order. A successful outcome pairs each returned handle with a
    /// cheap shared-reference clone of its layout's binding schema; a total
    /// failure puts the identical classified error in every slot.
    pub fn allocate_sets(
        &self,
        layouts: &Vec<&DescriptorSetLayout>,
        outcome: DeviceAllocation,
    ) -> (r: Vec<Result<DescriptorSet, AllocationError>>)
        requires
            outcome matches DeviceAllocation::Success(handles) ==> handles@.len()
                == layouts@.len(),
        ensures
            r@.len() == layouts@.len(),
            allocation_translation(layouts@, outcome, r@),
    {
        let mut results: Vec<Result<DescriptorSet, AllocationError>> = Vec::new();
        match outcome {
            DeviceAllocation::Success(handles) => {
                let mut i: usize = 0;
                while i < layouts.len()
                    invariant
                        i <= layouts.len(),
                        handles@.len() == layouts@.len(),
                        results@.len() == i,
                        forall|j: int|
                            0 <= j < i ==> (#[trigger] results@[j] matches Ok(s) && s.raw
                                == handles@[j] && s.bindings@ == layouts@[j].bindings@),
                    decreases layouts.len() - i,
                {
                    let set = DescriptorSet {
                        raw: handles[i],
                        bindings: layouts[i].bindings.clone(),
                    };
                    results.push(Ok(set));
                    i = i + 1;
                }
            },
            DeviceAllocation::Failure(code) => {
                let err = classify_device_error(code);
                let mut i: usize = 0;
                while i < layouts.len()
                    invariant
                        i <= layouts.len(),
                        results@.len() == i,
                        err == classification(code),
                        forall|j: int|
                            0 <= j < i ==> (#[trigger] results@[j] matches Err(e) && e
                                == classification(code)),
                    decreases layouts.len() - i,
                {
                    results.push(Err(err));
                    i = i + 1;
                }
            },
        }
        results
    }

    /// Consumes the supplied sets and overwrites the scratch buffer with
    /// exactly their raw handles, in supplied order, ready for one batched
    /// native free call. The buffer is fully overwritten: no handle from any
    /// earlier call survives, so what the device is asked to free is
    /// determined by this call's argument alone. An empty collection yields an
    /// empty (zero-handle) request and cannot fail.
    pub fn free_sets(&mut self, sets: Vec<DescriptorSet>)
        ensures
            final(self).raw == old(self).raw,
            final(self).set_free_vec@ == raw_handles(sets@),
    {
        self.set_free_vec.clear();
        let mut i: usize = 0;
        while i < sets.len()
            invariant
                i <= sets.len(),
                self.raw == old(self).raw,
                self.set_free_vec@.len() == i,
                forall|j: int| 0 <= j < i ==> self.set_free_vec@[j] == sets@[j].raw,
            decreases sets.len() - i,
        {
            self.set_free_vec.push(sets[i].raw);
            i = i + 1;
        }
        proof {
            assert(self.set_free_vec@ =~= raw_handles(sets@));
        }
    }

    /// Restoring the pool to full initial capacity is entirely the device
    /// boundary's work: one native call invalidates every set ever allocated
    /// from the pool. On the host side nothing changes — the pool keeps its
    /// handle and its scratch storage — which is what makes a reset pool
    /// behave like a freshly created one (see
    /// `lemma_reset_then_allocate_like_fresh`). A native failure here is a
    /// contract violation, promoted to a fatal signal by the caller via
    /// `fatal_device_failure`; no recoverable channel exists.
    pub fn reset(&mut self)
        ensures
            *final(self) == *old(self),
    {
    }
}

/// Resetting restores fresh-pool behavior: the translation of a device
/// outcome is determined by the submitted layouts and the outcome alone, so
/// when a pool that was reset and a freshly created pool of equal capacity
/// receive the same outcome for the same layouts — and the device boundary
/// owes equal outcomes to pools of equal capacity and full availability — the
/// two result sequences are observationally identical, slot for slot.
pub proof fn lemma_reset_then_allocate_like_fresh(
    layouts: Seq<&DescriptorSetLayout>,
    outcome: DeviceAllocation,
    after_reset: Seq<Result<DescriptorSet, AllocationError>>,
    fresh: Seq<Result<DescriptorSet, AllocationError>>,
)
    requires
        allocation_translation(layouts, outcome, after_reset),
        allocation_translation(layouts, outcome, fresh),
    ensures
        after_reset.len() == fresh.len(),
        forall|i: int| 0 <= i < after_reset.len() ==> equivalent_slot(after_reset[i], fresh[i]),
{
    assert forall|i: int| 0 <= i < after_reset.len() implies equivalent_slot(
        after_reset[i],
        fresh[i],
    ) by {
        match outcome {
            DeviceAllocation::Success(handles) => {
                assert(after_reset[i] matches Ok(s) && s.raw == handles@[i] && s.bindings@
                    == layouts[i].bindings@);
                assert(fresh[i] matches Ok(s) && s.raw == handles@[i] && s.bindings@
                    == layouts[i].bindings@);
            },
            DeviceAllocation::Failure(code) => {
                assert(after_reset[i] matches Err(e) && e == classification(code));
                assert(fresh[i] matches Err(e) && e == classification(code));
            },
        }
    }
}

} // verus!
