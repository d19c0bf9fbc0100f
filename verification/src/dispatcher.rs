use vstd::prelude::*;
use crate::job::Job;
use crate::launcher::{build_args, launch_args, views_of};
use crate::queue::{Dequeued, JobQueue};
use crate::status::{failure_message, failure_status};

verus! {

/// What the blocking receive hands the dispatcher: the next job, or the
/// end-of-stream signal once the producer side has closed.
pub enum Received {
    Job(Job),
    Closed,
}

/// What the dispatcher decides to do next: hand the job and its argument
/// vector to the process launcher, or stop the loop.
pub enum Action {
    Launch(Job, Vec<String>),
    Stop,
}

/// The process launcher's verdict on one launch: the operating system
/// confirmed process creation, or creation itself failed (binary missing,
/// unexecutable, or arguments rejected).
#[derive(Clone, Copy, PartialEq, Eq, Structural)]
pub enum LaunchOutcome {
    Launched,
    Failed,
}

/// The dispatch loop's record of one complete run: the argument vectors
/// handed to the launcher, in order, and — parallel to them — the status
/// message each launch produced (a failure line, or nothing on success).
pub struct DrainLog {
    pub attempts: Vec<Vec<String>>,
    pub statuses: Vec<Option<String>>,
}

/// The dispatcher's own state: whether its loop is still running. It stops
/// only on the queue's end-of-stream signal, never because of a launch
/// failure.
pub struct Dispatcher {
    pub running: bool,
}

impl Dispatcher {
    /// A fresh dispatcher, ready to run its loop.
    pub fn new() -> (d: Dispatcher)
        ensures
            d.running,
    {
        Dispatcher { running: true }
    }

    /// One dispatch decision. A received job is launched — fire and forget,
    /// with exactly the argument vector the launcher prescribes — and the
    /// loop keeps running; the end-of-stream signal stops the loop. Those
    /// are the only two outcomes: nothing else can stop the dispatcher.
    pub fn on_message(&mut self, msg: Received) -> (a: Action)
        requires
            old(self).running,
        ensures
            msg matches Received::Job(j) ==> (a matches Action::Launch(job, args)
                && job == j && views_of(args@) == launch_args(j@)),
            msg matches Received::Job(j) ==> final(self).running,
            msg is Closed ==> a is Stop && !final(self).running,
    {
        match msg {
            Received::Job(j) => {
                let args = build_args(&j);
                Action::Launch(j, args)
            },
            Received::Closed => {
                self.running = false;
                Action::Stop
            },
        }
    }

    /// Fold one launch outcome back in. A failure is recorded as a status
    /// message for the producer and nothing more: the loop's state is left
    /// exactly as it was, so a failed launch never keeps the next job from
    /// being dispatched.
    pub fn on_outcome(&mut self, job: &Job, outcome: LaunchOutcome) -> (status: Option<String>)
        ensures
            final(self).running == old(self).running,
            outcome is Failed ==> (status matches Some(s) && s@ == failure_message(job@.source)),
            outcome is Launched ==> status is None,
    {
        match outcome {
            LaunchOutcome::Launched => None,
            LaunchOutcome::Failed => Some(failure_status(&job.source)),
        }
    }

    /// Run the dispatch loop to completion over a closed queue, the launch
    /// outcomes being supplied by the caller (the launcher's verdict for
    /// each attempt, in order).
    ///
    /// Every queued job becomes exactly one launch attempt, in queue order,
    /// whatever the outcomes: a failed launch yields a failure status for
    /// its own job and never prevents the jobs after it from being
    /// dispatched.
    pub fn drain(&mut self, q: &mut JobQueue, outcomes: &Vec<LaunchOutcome>) -> (log: DrainLog)
        requires
            old(self).running,
            old(q)@.closed,
            outcomes@.len() == old(q)@.jobs.len(),
        ensures
            final(q)@.jobs.len() == 0,
            final(q)@.closed,
            !final(self).running,
            log.attempts@.len() == old(q)@.jobs.len(),
            forall|i: int| 0 <= i < log.attempts@.len()
                ==> views_of(#[trigger] log.attempts@[i]@) == launch_args(old(q)@.jobs[i]),
            log.statuses@.len() == old(q)@.jobs.len(),
            forall|i: int| 0 <= i < log.statuses@.len() && outcomes@[i] is Failed
                ==> (#[trigger] log.statuses@[i] matches Some(s)
                    && s@ == failure_message(old(q)@.jobs[i].source)),
            forall|i: int| 0 <= i < log.statuses@.len() && outcomes@[i] is Launched
                ==> #[trigger] log.statuses@[i] is None,
    {
        let ghost jobs0 = q@.jobs;
        let mut attempts: Vec<Vec<String>> = Vec::new();
        let mut statuses: Vec<Option<String>> = Vec::new();
        loop
            invariant_except_break
                self.running,
            invariant
                q@.closed,
                outcomes@.len() == jobs0.len(),
                statuses@.len() == attempts@.len(),
                attempts@.len() <= jobs0.len(),
                q@.jobs == jobs0.subrange(attempts@.len() as int, jobs0.len() as int),
                forall|i: int| 0 <= i < attempts@.len()
                    ==> views_of(#[trigger] attempts@[i]@) == launch_args(jobs0[i]),
                forall|i: int| 0 <= i < statuses@.len() && outcomes@[i] is Failed
                    ==> (#[trigger] statuses@[i] matches Some(s)
                        && s@ == failure_message(jobs0[i].source)),
                forall|i: int| 0 <= i < statuses@.len() && outcomes@[i] is Launched
                    ==> #[trigger] statuses@[i] is None,
            ensures
                !self.running,
                q@.jobs.len() == 0,
            decreases q@.jobs.len(),
        {
            match q.dequeue() {
                Dequeued::Job(j) => {
                    match self.on_message(Received::Job(j)) {
                        Action::Launch(job, args) => {
                            let idx = attempts.len();
                            attempts.push(args);
                            let oc = outcomes[idx];
                            let status = self.on_outcome(&job, oc);
                            statuses.push(status);
                            proof {
                                assert(q@.jobs =~= jobs0.subrange(
                                    attempts@.len() as int,
                                    jobs0.len() as int,
                                ));
                            }
                        },
                        Action::Stop => {
                            proof {
                                assert(false);
                            }
                        },
                    }
                },
                Dequeued::Closed => {
                    let _stop = self.on_message(Received::Closed);
                    break;
                },
                Dequeued::Pending => {
                    proof {
                        assert(false);
                    }
                },
            }
        }
        DrainLog { attempts, statuses }
    }
}

} // verus!
