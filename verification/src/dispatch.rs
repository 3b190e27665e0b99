//! The fan-out dispatch pipeline: a single dispatcher drains a bounded
//! job queue and hands each job to an independently scheduled worker,
//! picked statelessly from the job id.
use vstd::prelude::*;
use vstd::string::StringExecFns;
use crate::channel::Channel;
use crate::channel::ReceiveOutcome;

verus! {

/// Number of worker identities the dispatcher assigns jobs across. This
/// is not a concurrency limit: every job still gets its own unit of work.
pub const WORKER_COUNT: usize = 4;

/// A unit of work: immutable, consumed exactly once by exactly one
/// worker invocation.
#[derive(Clone, Copy, PartialEq, Eq, Structural, Debug)]
pub struct Job {
    pub id: usize,
}

/// The worker identifier assigned to a job id: the id modulo the worker
/// count, plus one.
pub open spec fn spec_worker_for(id: usize) -> int {
    (id as int) % (WORKER_COUNT as int) + 1
}

/// Picks the worker for a job. The assignment is static and stateless.
pub fn worker_for_job(job: &Job) -> (r: usize)
    ensures
        r as int == spec_worker_for(job.id),
        1 <= r <= WORKER_COUNT,
{
    job.id % WORKER_COUNT + 1
}

/// The worker invocations that draining a job queue produces: one per
/// job, in queue order, each carrying its own job and the worker picked
/// from that job's id.
pub open spec fn spec_invocations(jobs: Seq<Job>) -> Seq<(usize, Job)> {
    Seq::new(jobs.len(), |i: int| (spec_worker_for(jobs[i].id) as usize, jobs[i]))
}

/// The dispatcher loop: drains a closed job queue and returns, in queue
/// order, the worker invocation spawned for each job. It completes only
/// once the queue has reported end-of-stream, with nothing left queued.
pub fn dispatch_all(channel: &mut Channel<Job>) -> (r: Vec<(usize, Job)>)
    requires
        old(channel).inv(),
        old(channel).spec_closed(),
    ensures
        final(channel).inv(),
        final(channel).spec_closed(),
        final(channel)@.len() == 0,
        r@ == spec_invocations(old(channel)@),
{
    let mut out: Vec<(usize, Job)> = Vec::new();
    loop
        invariant
            channel.inv(),
            channel.spec_closed(),
            out@.len() + channel@.len() == old(channel)@.len(),
            forall|i: int| 0 <= i < out@.len() ==> out@[i] == spec_invocations(old(channel)@)[i],
            forall|i: int|
                0 <= i < channel@.len() ==> channel@[i] == old(channel)@[out@.len() + i],
        ensures
            channel.inv(),
            channel.spec_closed(),
            channel@.len() == 0,
            out@.len() == old(channel)@.len(),
            forall|i: int| 0 <= i < out@.len() ==> out@[i] == spec_invocations(old(channel)@)[i],
        decreases channel@.len() + 1,
    {
        match channel.receive() {
            ReceiveOutcome::Item(job) => {
                let worker = worker_for_job(&job);
                out.push((worker, job));
            }
            ReceiveOutcome::MustWait => {
                proof {
                    assert(false);
                }
            }
            ReceiveOutcome::EndOfStream => {
                break;
            }
        }
    }
    proof {
        assert(out@ =~= spec_invocations(old(channel)@));
    }
    out
}

/// Fan-out dispatch law: a queue of jobs with ids `0..k` produces
/// exactly `k` worker invocations — the i-th carries the job with id
/// `i` and the worker statically picked from that id — so every job is
/// handed out exactly once, no job twice, none dropped.
pub proof fn lemma_dispatch_fanout(jobs: Seq<Job>)
    requires
        forall|i: int| 0 <= i < jobs.len() ==> #[trigger] jobs[i].id == i,
    ensures
        spec_invocations(jobs).len() == jobs.len(),
        forall|i: int| 0 <= i < jobs.len() ==> (#[trigger] spec_invocations(jobs)[i]).1.id == i,
        forall|i: int|
            0 <= i < jobs.len() ==> (#[trigger] spec_invocations(jobs)[i]).0 as int
                == spec_worker_for(jobs[i].id),
        forall|i: int, j: int|
            0 <= i < jobs.len() && 0 <= j < jobs.len() && i != j ==> (
            #[trigger] spec_invocations(jobs)[i]).1 != (#[trigger] spec_invocations(jobs)[j]).1,
{
}

} // verus!
