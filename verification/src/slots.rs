//! The bound on how many session workers run at once.

use std::sync::atomic::AtomicUsize;

use vstd::prelude::*;
use vstd::string::*;

use crate::permit::{
    claim_slot, claiming, counter_counts, lowered_at, lowered_from, raised_at, raised_from,
    DesktopSessionWorkerPermit,
};
use crate::text::{decimal, decimal_text};

verus! {

/// The number of desktop session workers that may run at once.
pub const DESKTOP_SESSION_WORKER_LIMIT: usize = 12;

/// Why no slot was claimed: the counter stood at `in_use`, not below `limit`.
#[derive(Clone, Copy, Debug, PartialEq, Eq, Structural)]
pub struct WorkerLimitReached {
    pub limit: usize,
    pub in_use: usize,
}

impl WorkerLimitReached {
    /// The sentence that reports the refusal.
    pub open spec fn text(self) -> Seq<char> {
        "desktop session worker limit reached ("@ + decimal(self.limit as nat) + ")"@
    }

    /// The sentence that reports the refusal.
    pub fn message(&self) -> (text: String)
        ensures
            text@ == self.text(),
    {
        "desktop session worker limit reached (".to_string().concat(
            decimal_text(self.limit as u64).as_str(),
        ).concat(")")
    }
}

/// What a claim makes of a counter that stands at `in_use`: one more, or nothing
/// when `limit` leaves no room.
pub open spec fn claimed_count(in_use: int, limit: int) -> Option<int> {
    if in_use < limit {
        Some(in_use + 1)
    } else {
        None
    }
}

/// What a claim writes over the count it found, if it writes at all.
pub fn next_worker_count(in_use: usize, limit: usize) -> (next: Option<usize>)
    ensures
        match next {
            Some(count) => claimed_count(in_use as int, limit as int) == Some(count as int),
            None => claimed_count(in_use as int, limit as int) is None,
        },
    opens_invariants none
{
    if in_use < limit {
        Some(in_use + 1)
    } else {
        None
    }
}

/// Claims a worker slot on `counter`, unless `limit` slots are claimed already.
/// The permit stands for one raise of the counter, a refusal for one look at it.
pub fn try_acquire_desktop_session_worker_slot<'a>(counter: &'a AtomicUsize, limit: usize) -> (slot:
    Result<DesktopSessionWorkerPermit<'a>, WorkerLimitReached>)
    ensures
        match slot {
            Ok(permit) => permit.counter() == counter && permit.others() < limit && raised_from(
                counter_counts(*counter),
                permit.others(),
            ),
            Err(refusal) => refusal.limit == limit && refusal.in_use >= limit && counter_counts(
                *counter,
            ).contains(refusal.in_use),
        },
    opens_invariants [ claiming(*counter, limit) ]
{
    match claim_slot(counter, limit) {
        Ok(permit) => Ok(permit),
        Err(in_use) => Err(WorkerLimitReached { limit, in_use }),
    }
}

/// A claim adds one while there is room, and only then.
pub proof fn claim_adds_one_while_there_is_room(in_use: usize, limit: usize, next: Option<usize>)
    requires
        call_ensures(next_worker_count, (in_use, limit), next),
    ensures
        next is Some <==> in_use < limit,
        next matches Some(count) ==> count == in_use + 1,
{
}

/// A permit is had on the counter that was asked, from a count below the limit that was
/// given; a refusal names that limit, and a count of that counter that was not below it.
pub proof fn permit_is_of_the_counter_that_was_asked(
    counter: &AtomicUsize,
    limit: usize,
    slot: Result<DesktopSessionWorkerPermit<'_>, WorkerLimitReached>,
)
    requires
        call_ensures(try_acquire_desktop_session_worker_slot, (counter, limit), slot),
    ensures
        match slot {
            Ok(permit) => {
                &&& permit.counter() == counter
                &&& permit.others() < limit
                &&& exists|i: int|
                    0 <= i < counter_counts(*counter).len() - 1 && #[trigger] counter_counts(
                        *counter,
                    )[i] == permit.others() && counter_counts(*counter)[i + 1] == permit.others()
                        + 1
            },
            Err(refusal) => {
                &&& refusal.limit == limit
                &&& refusal.in_use >= limit
                &&& counter_counts(*counter).contains(refusal.in_use)
            },
        },
{
    if let Ok(permit) = slot {
        let counts = counter_counts(*counter);
        let i = choose|i: int| raised_at(counts, i, permit.others());
        assert(counts[i] == permit.others());
    }
}

/// A refusal is told with the limit in decimal digits, whatever the limit.
pub proof fn refusal_names_the_limit(refusal: WorkerLimitReached, limit: String, text: String)
    requires
        call_ensures(decimal_text, (refusal.limit as u64,), limit),
        call_ensures(WorkerLimitReached::message, (&refusal,), text),
    ensures
        text@ == "desktop session worker limit reached ("@ + limit@ + ")"@,
{
}

/// The change after the count at `i` is a claim: what a permit from
/// [`try_acquire_desktop_session_worker_slot`] stands for, by `raised_from`.
pub open spec fn claim_at(counts: Seq<usize>, limit: usize, i: int) -> bool {
    claimed_count(counts[i] as int, limit as int) == Some(counts[i + 1] as int)
}

/// The change after the count at `i` is a release: what dropping a permit does, by
/// `lowered_from`.
pub open spec fn release_at(counts: Seq<usize>, i: int) -> bool {
    counts[i + 1] == counts[i] - 1
}

/// The claims whose permits are out after the first `n` changes. Of each release,
/// `freed` says which claim's permit it gave back.
pub open spec fn claims_out(
    counts: Seq<usize>,
    limit: usize,
    freed: spec_fn(int) -> int,
    n: nat,
) -> Set<int>
    decreases n,
{
    if n == 0 {
        Set::empty()
    } else {
        let out = claims_out(counts, limit, freed, (n - 1) as nat);
        if claim_at(counts, limit, n - 1) {
            out.insert(n - 1)
        } else {
            out.remove(freed(n - 1))
        }
    }
}

/// The counter starts at zero, and changes only by claims under `limit` and by drops,
/// each of a permit that is out.
pub open spec fn permits_go_back(
    counter: AtomicUsize,
    limit: usize,
    freed: spec_fn(int) -> int,
) -> bool {
    let counts = counter_counts(counter);
    &&& counts.len() > 0
    &&& counts[0] == 0
    &&& forall|i: int|
        0 <= i < counts.len() - 1 ==> claim_at(counts, limit, i) || (#[trigger] release_at(
            counts,
            i,
        ) && claims_out(counts, limit, freed, i as nat).contains(freed(i)))
}

/// However the claims and drops of any number of threads interleave, the counter
/// counts the permits that are out, and there are never more of them than the limit.
/// The steps are those of the counter itself: the contract of
/// [`try_acquire_desktop_session_worker_slot`] places each permit's claim among them,
/// that of the permit's destructor each release.
pub proof fn permits_never_exceed_the_limit(
    counter: AtomicUsize,
    limit: usize,
    freed: spec_fn(int) -> int,
    n: nat,
)
    requires
        permits_go_back(counter, limit, freed),
        n < counter_counts(counter).len(),
    ensures
        claims_out(counter_counts(counter), limit, freed, n).finite(),
        claims_out(counter_counts(counter), limit, freed, n).len() == counter_counts(
            counter,
        )[n as int],
        counter_counts(counter)[n as int] <= limit,
        forall|i: int|
            #[trigger] claims_out(counter_counts(counter), limit, freed, n).contains(i) ==> 0 <= i
                < n && claim_at(counter_counts(counter), limit, i),
    decreases n,
{
    if n > 0 {
        permits_never_exceed_the_limit(counter, limit, freed, (n - 1) as nat);
        let counts = counter_counts(counter);
        assert(claim_at(counts, limit, n - 1) || release_at(counts, n - 1));
    }
}

/// A claim is refused only while all permits are out: the count that a refusal from
/// [`try_acquire_desktop_session_worker_slot`] names is the limit itself, and at some
/// moment that many permits were out.
pub proof fn refusal_means_all_permits_are_out(
    counter: AtomicUsize,
    limit: usize,
    freed: spec_fn(int) -> int,
    in_use: usize,
)
    requires
        permits_go_back(counter, limit, freed),
        counter_counts(counter).contains(in_use),
        in_use >= limit,
    ensures
        in_use == limit,
        exists|n: nat|
            n < counter_counts(counter).len() && (#[trigger] claims_out(
                counter_counts(counter),
                limit,
                freed,
                n,
            )).len() == limit,
{
    let counts = counter_counts(counter);
    let i = choose|i: int| 0 <= i < counts.len() && counts[i] == in_use;
    permits_never_exceed_the_limit(counter, limit, freed, i as nat);
    assert(claims_out(counts, limit, freed, i as nat).len() == limit);
}

/// A claim that follows another with nothing between sees it: it finds one more,
/// and is refused if that was the last slot.
pub proof fn claim_sees_the_claim_before(counter: AtomicUsize, limit: usize, i: int)
    requires
        0 <= i < counter_counts(counter).len() - 1,
        claim_at(counter_counts(counter), limit, i),
    ensures
        counter_counts(counter)[i + 1] == counter_counts(counter)[i] + 1,
        counter_counts(counter)[i] + 1 == limit ==> claimed_count(
            counter_counts(counter)[i + 1] as int,
            limit as int,
        ) is None,
{
}

/// A permit that is dropped right after its claim leaves no trace: wherever in the
/// counter's life the claim stands, the counter is back at the count that the claim
/// found, and a new claim finds room.
pub proof fn release_undoes_a_claim(
    counter: &AtomicUsize,
    limit: usize,
    permit: DesktopSessionWorkerPermit<'_>,
    i: int,
    in_use: usize,
)
    requires
        call_ensures(try_acquire_desktop_session_worker_slot, (counter, limit), Ok(permit)),
        raised_at(counter_counts(*counter), i, permit.others()),
        lowered_at(counter_counts(*permit.counter()), i + 1, in_use),
    ensures
        in_use == permit.others() + 1,
        counter_counts(*counter)[i + 2] == permit.others(),
        claimed_count(counter_counts(*counter)[i + 2] as int, limit as int) is Some,
{
}

/// A counter that one permit is claimed on, and to which that permit is given back,
/// with no other change, ends where it began. Where the claim and the drop stand
/// follows from their contracts.
pub proof fn dropped_permit_leaves_no_trace(
    counter: &AtomicUsize,
    limit: usize,
    permit: DesktopSessionWorkerPermit<'_>,
    in_use: usize,
)
    requires
        call_ensures(try_acquire_desktop_session_worker_slot, (counter, limit), Ok(permit)),
        lowered_from(counter_counts(*permit.counter()), in_use),
        counter_counts(*counter).len() == 3,
        counter_counts(*counter)[0] == permit.others(),
    ensures
        counter_counts(*counter) == seq![
            permit.others(),
            (permit.others() + 1) as usize,
            permit.others(),
        ],
        in_use == permit.others() + 1,
        claimed_count(counter_counts(*counter).last() as int, limit as int) is Some,
{
    let counts = counter_counts(*counter);
    let raised = choose|i: int| raised_at(counts, i, permit.others());
    let lowered = choose|i: int| lowered_at(counts, i, in_use);
    assert(raised == 0 && lowered == 1);
}

/// While nothing is released, claims go through until the free slots are used up:
/// of `calls` claims made between the counts at `from` and `to`, as many succeed as
/// there are calls or free slots, whichever is less. A call that fails found the
/// counter full in that stretch.
pub proof fn claims_use_up_the_free_slots(
    counter: AtomicUsize,
    limit: usize,
    freed: spec_fn(int) -> int,
    from: int,
    to: int,
    calls: int,
)
    requires
        permits_go_back(counter, limit, freed),
        0 <= from <= to < counter_counts(counter).len(),
        forall|i: int| from <= i < to ==> claim_at(counter_counts(counter), limit, i),
        calls >= to - from,
        calls > to - from ==> exists|i: int|
            from <= i <= to && #[trigger] counter_counts(counter)[i] >= limit,
    ensures
        ({
            let free = limit - counter_counts(counter)[from];
            to - from == if calls <= free {
                calls
            } else {
                free
            }
        }),
{
    let counts = counter_counts(counter);
    claims_add_up(counts, limit, from, to);
    permits_never_exceed_the_limit(counter, limit, freed, to as nat);
    if calls > to - from {
        let full = choose|i: int| from <= i <= to && #[trigger] counts[i] >= limit;
        claims_add_up(counts, limit, full, to);
    }
}

/// A stretch of claims raises the count by its length.
proof fn claims_add_up(counts: Seq<usize>, limit: usize, from: int, to: int)
    requires
        0 <= from <= to < counts.len(),
        forall|i: int| from <= i < to ==> claim_at(counts, limit, i),
    ensures
        counts[to] == counts[from] + (to - from),
    decreases to - from,
{
    if from < to {
        assert(claim_at(counts, limit, to - 1));
        claims_add_up(counts, limit, from, to - 1);
    }
}

} // verus!
