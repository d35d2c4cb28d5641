//! The permits that session workers hold, and the shared counter behind them.
//!
//! The counter is known by the counts it takes on, one after the other, over its
//! whole life. A permit comes only from a claim that raised the counter, and
//! cannot be copied: as long as it lives, that claim has not been given back. A header
//! that lists a claim in its `opens_invariants` clause lists all that a call may claim.

use std::sync::atomic::AtomicUsize;

use vstd::prelude::*;

use crate::slots::next_worker_count;

verus! {

/// One claimed worker slot. Dropping it gives the slot back.
pub struct DesktopSessionWorkerPermit<'a> {
    counter: &'a AtomicUsize,
    others: usize,
}

/// Every count that the counter has over its whole life, in the order in which it
/// takes them on: the one it is made with, and then what each change leaves.
pub uninterp spec fn counter_counts(counter: AtomicUsize) -> Seq<usize>;

/// The change after the count at `i` raises a counter that takes on `counts` by one,
/// from the count `from`.
pub open spec fn raised_at(counts: Seq<usize>, i: int, from: usize) -> bool {
    0 <= i < counts.len() - 1 && counts[i] == from && counts[i + 1] == from + 1
}

/// The change after the count at `i` lowers a counter that takes on `counts` by one,
/// from the count `from`, or makes it go round if that is zero.
pub open spec fn lowered_at(counts: Seq<usize>, i: int, from: usize) -> bool {
    0 <= i < counts.len() - 1 && counts[i] == from && counts[i + 1] == if from > 0 {
        from - 1
    } else {
        usize::MAX as int
    }
}

/// A counter that takes on `counts` is raised by one from the count `from`.
pub open spec fn raised_from(counts: Seq<usize>, from: usize) -> bool {
    exists|i: int| raised_at(counts, i, from)
}

/// A counter that takes on `counts` is lowered by one from the count `from`, or goes
/// round if that is zero.
pub open spec fn lowered_from(counts: Seq<usize>, from: usize) -> bool {
    exists|i: int| lowered_at(counts, i, from)
}

/// The claiming of a slot on `counter` under `limit`, as the headers of functions list it.
pub open spec fn claiming(counter: AtomicUsize, limit: usize) -> int {
    let listed: spec_fn(AtomicUsize, usize) -> int = arbitrary();
    listed(counter, limit)
}

/// Calls [`AtomicUsize::fetch_update`] with [`next_worker_count`]: the counter is
/// read, and if there is room it is replaced by one more, as one atomic step that
/// is tried again when another thread got between. Claims that a success raised
/// this counter by one from a count below `limit`, and that a failure found it at
/// a count that was not. Where the counter stands afterwards is not stated: other
/// threads may have moved it on. The call claims on no other counter.
#[verifier::external_body]
pub(crate) fn claim_slot<'a>(counter: &'a AtomicUsize, limit: usize) -> (claimed: Result<
    DesktopSessionWorkerPermit<'a>,
    usize,
>)
    ensures
        match claimed {
            Ok(permit) => permit.counter() == counter && permit.others() < limit && raised_from(
                counter_counts(*counter),
                permit.others(),
            ),
            Err(in_use) => in_use >= limit && counter_counts(*counter).contains(
                in_use,
            ),
        },
    opens_invariants [ claiming(*counter, limit) ]
{
    match counter.fetch_update(
        std::sync::atomic::Ordering::Acquire,
        std::sync::atomic::Ordering::Relaxed,
        |in_use| next_worker_count(in_use, limit),
    ) {
        Ok(others) => Ok(DesktopSessionWorkerPermit { counter, others }),
        Err(in_use) => Err(in_use),
    }
}

/// Calls [`AtomicUsize::fetch_sub`] to take one off the counter. Claims that the
/// counter was lowered by one from the count that is returned, and that the call
/// does not unwind, as a destructor needs.
#[verifier::external_body]
fn release_slot(counter: &AtomicUsize) -> (in_use: usize)
    ensures
        lowered_from(counter_counts(*counter), in_use),
    opens_invariants none
    no_unwind
{
    counter.fetch_sub(1, std::sync::atomic::Ordering::Relaxed)
}

impl<'a> DesktopSessionWorkerPermit<'a> {
    /// The counter that the slot was claimed on, and will be given back to.
    pub closed spec fn counter(&self) -> &'a AtomicUsize {
        self.counter
    }

    /// How many other slots were claimed when this one was.
    pub closed spec fn others(&self) -> usize {
        self.others
    }

    /// How many other workers ran when this permit was granted.
    pub fn workers_before(&self) -> (others: usize)
        ensures
            others == self.others(),
        opens_invariants none
    {
        self.others
    }
}

impl<'a> Drop for DesktopSessionWorkerPermit<'a> {
    /// Gives the slot back: lowers the counter that it was claimed on.
    fn drop(&mut self)
        ensures
            exists|in_use: usize| lowered_from(
                counter_counts(*old(self).counter()),
                in_use,
            ),
        opens_invariants none
        no_unwind
    {
        let in_use: usize = release_slot(self.counter);
        assert(lowered_from(counter_counts(*old(self).counter()), in_use));
    }
}

} // verus!
