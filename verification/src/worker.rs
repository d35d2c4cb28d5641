//! Workers that run within the bound on their number.

use std::sync::atomic::AtomicUsize;

use vstd::prelude::*;
use vstd::string::*;

use crate::permit::{
    claiming, counter_counts, raised_at, raised_from, DesktopSessionWorkerPermit,
};
use crate::slots::{
    claims_out, permits_go_back, permits_never_exceed_the_limit,
    try_acquire_desktop_session_worker_slot, WorkerLimitReached, DESKTOP_SESSION_WORKER_LIMIT,
};

verus! {

/// Why a worker did not come up.
#[derive(Clone, Debug, Eq, PartialEq)]
pub enum WorkerError {
    /// As many workers run as may.
    Limit { name: String, refusal: WorkerLimitReached },
    /// The system refused the worker a thread.
    NoThread { name: String, reason: String },
}

impl WorkerError {
    /// The sentences that report the error, from the outermost to the cause.
    pub open spec fn sentences(self) -> Seq<Seq<char>> {
        match self {
            WorkerError::Limit { name, refusal } => seq![
                "failed to start "@ + name@,
                refusal.text(),
            ],
            WorkerError::NoThread { name, reason } => seq!["failed to spawn "@ + name@, reason@],
        }
    }

    /// The sentences that report the error, from the outermost to the cause.
    pub fn messages(&self) -> (messages: Vec<String>)
        ensures
            messages@.map_values(|message: String| message@) == self.sentences(),
    {
        let mut messages: Vec<String> = Vec::new();
        match self {
            WorkerError::Limit { name, refusal } => {
                messages.push("failed to start ".to_string().concat(name.as_str()));
                messages.push(refusal.message());
            },
            WorkerError::NoThread { name, reason } => {
                messages.push("failed to spawn ".to_string().concat(name.as_str()));
                messages.push(reason.clone());
            },
        }
        assert(messages@.map_values(|message: String| message@) =~= self.sentences());
        messages
    }
}

/// A worker that has its slot and waits for its thread.
pub struct BoundedWorker<'a, J> {
    /// The name of its thread.
    pub name: String,
    /// Held until the worker is done.
    pub permit: DesktopSessionWorkerPermit<'a>,
    pub job: J,
}

/// The worker or the error that follows from the outcome of a claim.
pub fn worker_with_slot<'a, J>(
    name: String,
    job: J,
    slot: Result<DesktopSessionWorkerPermit<'a>, WorkerLimitReached>,
) -> (worker: Result<BoundedWorker<'a, J>, WorkerError>)
    ensures
        match slot {
            Ok(permit) => worker == Ok::<_, WorkerError>((BoundedWorker { name, permit, job })),
            Err(refusal) => worker == Err::<BoundedWorker<'a, J>, _>(
                (WorkerError::Limit { name, refusal }),
            ),
        },
    opens_invariants none
{
    match slot {
        Ok(permit) => Ok(BoundedWorker { name, permit, job }),
        Err(refusal) => Err(WorkerError::Limit { name, refusal }),
    }
}

/// `worker` has a slot on `counter`: the counter was raised for it, from a count
/// that left room.
pub open spec fn has_slot<J>(worker: BoundedWorker<'_, J>, counter: &AtomicUsize) -> bool {
    &&& worker.permit.counter() == counter
    &&& worker.permit.others() < DESKTOP_SESSION_WORKER_LIMIT
    &&& raised_from(counter_counts(*counter), worker.permit.others())
}

/// `refusal` says that `counter` was found at a count that left no room.
pub open spec fn no_slot(refusal: WorkerLimitReached, counter: &AtomicUsize) -> bool {
    &&& refusal.limit == DESKTOP_SESSION_WORKER_LIMIT
    &&& refusal.in_use >= refusal.limit
    &&& counter_counts(*counter).contains(refusal.in_use)
}

/// Readies a worker for its thread, unless as many run as may.
pub fn spawn_bounded_desktop_session_worker<'a, J>(
    counter: &'a AtomicUsize,
    name: String,
    job: J,
) -> (worker: Result<BoundedWorker<'a, J>, WorkerError>)
    ensures
        match worker {
            Ok(worker) => worker.name == name && worker.job == job && has_slot(worker, counter),
            Err(error) => error matches WorkerError::Limit { name: refused, refusal } && refused
                == name && no_slot(refusal, counter),
        },
    opens_invariants [ claiming(*counter, DESKTOP_SESSION_WORKER_LIMIT) ]
{
    worker_with_slot(
        name,
        job,
        try_acquire_desktop_session_worker_slot(counter, DESKTOP_SESSION_WORKER_LIMIT),
    )
}

/// What came of starting the thread `name`: where the system refused it, for
/// `reason`, that is the error.
pub fn thread_started(name: String, started: Result<(), String>) -> (outcome: Result<
    (),
    WorkerError,
>)
    ensures
        match started {
            Ok(_) => outcome == Ok::<(), WorkerError>(()),
            Err(reason) => outcome == Err::<(), _>((WorkerError::NoThread { name, reason })),
        },
    opens_invariants none
{
    match started {
        Ok(_) => Ok(()),
        Err(reason) => Err(WorkerError::NoThread { name, reason }),
    }
}

/// Runs the worker's job on the worker's thread, and hands the permit back when `run`
/// is done with the job. A permit cannot be copied or made, so the slot was held until
/// then.
pub fn run_in_slot<'a, J, F: FnOnce(J)>(worker: BoundedWorker<'a, J>, run: F) -> (permit:
    DesktopSessionWorkerPermit<'a>)
    requires
        run.requires((worker.job,)),
    ensures
        run.ensures((worker.job,), ()),
        permit == worker.permit,
{
    let BoundedWorker { name: _, permit, job } = worker;
    run(job);
    permit
}

/// A worker that comes up is the one that was asked for: its name, its job, and a slot on
/// the counter that was given. One that does not, found all twelve slots taken, and says so
/// under its own name.
pub proof fn worker_is_the_one_asked_for<J>(
    counter: &AtomicUsize,
    name: String,
    job: J,
    worker: Result<BoundedWorker<'_, J>, WorkerError>,
)
    requires
        call_ensures(spawn_bounded_desktop_session_worker::<J>, (counter, name, job), worker),
    ensures
        match worker {
            Ok(worker) => {
                &&& worker.name == name
                &&& worker.job == job
                &&& worker.permit.counter() == counter
                &&& worker.permit.others() < 12
                &&& raised_from(counter_counts(*counter), worker.permit.others())
            },
            Err(error) => {
                &&& error matches WorkerError::Limit { name: told, refusal }
                &&& told == name
                &&& refusal.limit == 12
                &&& refusal.in_use >= 12
                &&& counter_counts(*counter).contains(refusal.in_use)
            },
        },
{
}

/// Why a worker did not come up is told in two sentences: which worker, and then why.
pub proof fn worker_error_tells_which_and_why(
    error: WorkerError,
    refusal_text: String,
    messages: Vec<String>,
)
    requires
        call_ensures(WorkerError::messages, (&error,), messages),
        error matches WorkerError::Limit { refusal, .. } ==> call_ensures(
            WorkerLimitReached::message,
            (&refusal,),
            refusal_text,
        ),
    ensures
        messages@.len() == 2,
        match error {
            WorkerError::Limit { name, .. } => messages@[0]@ == "failed to start "@ + name@
                && messages@[1]@ == refusal_text@,
            WorkerError::NoThread { name, reason } => messages@[0]@ == "failed to spawn "@ + name@
                && messages@[1]@ == reason@,
        },
{
    let views = messages@.map_values(|message: String| message@);
    assert(views.len() == messages@.len());
    assert(views[0] == messages@[0]@);
    assert(views[1] == messages@[1]@);
}

/// A thread that was refused is told of under the worker's name, for the system's reason;
/// one that started is no error.
pub proof fn refused_thread_is_told_of(
    name: String,
    started: Result<(), String>,
    outcome: Result<(), WorkerError>,
)
    requires
        call_ensures(thread_started, (name, started), outcome),
    ensures
        outcome is Ok <==> started is Ok,
        outcome matches Err(error) ==> (error matches WorkerError::NoThread { name: told, reason }
            && told == name && started == Err::<(), String>(reason)),
{
}

/// Never more than twelve jobs run at once, whatever their workers are called.
/// `running` are the permits of the workers whose jobs run after the first `n` changes
/// of the counter. Each has a claim of its own, at the place that `claims` gives, and
/// that claim is still out, since [`run_in_slot`] keeps the permit over the run. Once
/// no claim is out the counter is at zero, and a new worker finds room.
pub proof fn running_jobs_never_exceed_the_limit(
    counter: AtomicUsize,
    freed: spec_fn(int) -> int,
    n: nat,
    running: Seq<DesktopSessionWorkerPermit<'_>>,
    claims: Seq<int>,
)
    requires
        permits_go_back(counter, DESKTOP_SESSION_WORKER_LIMIT, freed),
        n < counter_counts(counter).len(),
        claims.len() == running.len(),
        claims.no_duplicates(),
        forall|k: int|
            0 <= k < running.len() ==> {
                &&& *(#[trigger] running[k]).counter() == counter
                &&& raised_at(counter_counts(counter), claims[k], running[k].others())
                &&& claims_out(
                    counter_counts(counter),
                    DESKTOP_SESSION_WORKER_LIMIT,
                    freed,
                    n,
                ).contains(claims[k])
            },
    ensures
        running.len() <= counter_counts(counter)[n as int] <= 12,
        claims_out(counter_counts(counter), DESKTOP_SESSION_WORKER_LIMIT, freed, n).is_empty()
            ==> counter_counts(counter)[n as int] == 0,
{
    let out = claims_out(counter_counts(counter), DESKTOP_SESSION_WORKER_LIMIT, freed, n);
    permits_never_exceed_the_limit(counter, DESKTOP_SESSION_WORKER_LIMIT, freed, n);
    claims.unique_seq_to_set();
    assert(claims.to_set().subset_of(out)) by {
        assert forall|c: int| claims.to_set().contains(c) implies out.contains(c) by {
            let k = choose|k: int| 0 <= k < claims.len() && claims[k] == c;
            assert(*running[k].counter() == counter);
        }
    }
    vstd::set_lib::lemma_len_subset(claims.to_set(), out);
}

} // verus!
