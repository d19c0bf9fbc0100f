use vstd::prelude::*;
use crate::job::{Job, JobView};
use crate::status::{pulling_message, pulling_status};

verus! {

/// The mathematical value of a [`JobQueue`]: the pending jobs, oldest first,
/// and whether the producer side has closed.
#[verifier::ext_equal]
pub ghost struct QueueView {
    pub jobs: Seq<JobView>,
    pub closed: bool,
}

/// The views of a sequence of queued jobs.
pub open spec fn views_of_jobs(jobs: Seq<Job>) -> Seq<JobView> {
    jobs.map_values(|j: Job| j@)
}

/// What one `dequeue` call hands back: the oldest pending job; the
/// end-of-stream signal, once the queue is empty and the producer side has
/// closed; or nothing yet, when the queue is empty but still open (the point
/// at which a blocking consumer waits).
pub enum Dequeued {
    Job(Job),
    Closed,
    Pending,
}

/// The job queue: an ordered, unbounded, first-in-first-out sequence of
/// jobs. Insertion is the producer's, removal the dispatcher's; closing
/// marks the producer side as finished so the consumer can terminate
/// cleanly instead of waiting forever.
pub struct JobQueue {
    jobs: Vec<Job>,
    closed: bool,
}

impl View for JobQueue {
    type V = QueueView;

    closed spec fn view(&self) -> QueueView {
        QueueView { jobs: views_of_jobs(self.jobs@), closed: self.closed }
    }
}

/// The queue after one enqueue: the job appended at the tail, nothing else
/// touched.
pub open spec fn enqueued(q: QueueView, j: JobView) -> QueueView {
    QueueView { jobs: q.jobs.push(j), closed: q.closed }
}

/// The queue after a burst of enqueues, in call order.
pub open spec fn enqueued_all(q: QueueView, js: Seq<JobView>) -> QueueView
    decreases js.len(),
{
    if js.len() == 0 {
        q
    } else {
        enqueued_all(enqueued(q, js[0]), js.drop_first())
    }
}

/// Queue integrity: however many producer calls enqueue jobs before the
/// consumer drains, the queue holds exactly the old contents followed by
/// every submitted job, in submission order — none lost, none duplicated.
pub proof fn lemma_queue_integrity(q: QueueView, js: Seq<JobView>)
    ensures
        enqueued_all(q, js).jobs == q.jobs + js,
        enqueued_all(q, js).closed == q.closed,
    decreases js.len(),
{
    if js.len() == 0 {
        assert(q.jobs + js =~= q.jobs);
    } else {
        lemma_queue_integrity(enqueued(q, js[0]), js.drop_first());
        assert(q.jobs.push(js[0]) + js.drop_first() =~= q.jobs + js);
    }
}

impl JobQueue {
    /// A fresh queue: empty and open.
    pub fn new() -> (q: JobQueue)
        ensures
            q@.jobs == Seq::<JobView>::empty(),
            !q@.closed,
    {
        let q = JobQueue { jobs: Vec::new(), closed: false };
        proof {
            assert(q@.jobs =~= Seq::<JobView>::empty());
        }
        q
    }

    /// How many jobs are pending.
    pub fn len(&self) -> (n: usize)
        ensures
            n == self@.jobs.len(),
    {
        self.jobs.len()
    }

    /// Whether the producer side has closed.
    pub fn is_closed(&self) -> (b: bool)
        ensures
            b == self@.closed,
    {
        self.closed
    }

    /// Append one job at the tail. Never fails and never waits, whatever the
    /// queue's depth: the queue is unbounded and gives the producer no
    /// backpressure, by design.
    pub fn enqueue(&mut self, job: Job)
        requires
            !old(self)@.closed,
        ensures
            final(self)@ == enqueued(old(self)@, job@),
    {
        self.jobs.push(job);
        proof {
            assert(self@.jobs =~= old(self)@.jobs.push(job@));
            assert(self@ =~= enqueued(old(self)@, job@));
        }
    }

    /// Mark the producer side as finished. Pending jobs stay: they are still
    /// handed out before the end-of-stream signal.
    pub fn close(&mut self)
        ensures
            final(self)@.jobs == old(self)@.jobs,
            final(self)@.closed,
    {
        self.closed = true;
    }

    /// Remove and return the oldest pending job. A pending job is delivered
    /// even after the queue has closed; the end-of-stream signal comes only
    /// once the queue is empty, so no job is lost to a shutdown race.
    pub fn dequeue(&mut self) -> (r: Dequeued)
        ensures
            final(self)@.closed == old(self)@.closed,
            old(self)@.jobs.len() > 0 ==> final(self)@.jobs == old(self)@.jobs.drop_first(),
            old(self)@.jobs.len() > 0 ==> (r matches Dequeued::Job(j) && j@ == old(self)@.jobs[0]),
            old(self)@.jobs.len() == 0 ==> final(self)@.jobs == old(self)@.jobs,
            old(self)@.jobs.len() == 0 && old(self)@.closed ==> r is Closed,
            old(self)@.jobs.len() == 0 && !old(self)@.closed ==> r is Pending,
    {
        if self.jobs.len() > 0 {
            let j = self.jobs.remove(0);
            proof {
                assert(old(self).jobs@.remove(0) =~= old(self).jobs@.drop_first());
                assert(self@.jobs =~= old(self)@.jobs.drop_first());
            }
            Dequeued::Job(j)
        } else if self.closed {
            Dequeued::Closed
        } else {
            Dequeued::Pending
        }
    }
}

/// The producer boundary: build a job from the submitted fields, enqueue it —
/// exactly one enqueue per call — and return the status line the producer
/// displays for this submission.
pub fn submit(q: &mut JobQueue, source: String, output_name: String) -> (status: String)
    requires
        !old(q)@.closed,
        source@.len() > 0,
    ensures
        final(q)@ == enqueued(old(q)@, (JobView { source: source@, output_name: output_name@ })),
        status@ == pulling_message(source@),
{
    let status = pulling_status(&source);
    let job = Job::new(source, output_name);
    q.enqueue(job);
    status
}

} // verus!
