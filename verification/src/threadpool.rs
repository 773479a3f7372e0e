//! The worker pool's dispatch discipline, as a verified bookkeeping model.
//!
//! The pool owns a fixed, positive number of workers and one shared FIFO
//! queue of messages. Submitting a job appends it to the queue exactly once;
//! a worker step consumes exactly the front message, either running the job
//! it carries or stopping on a terminate message; shutdown appends one
//! terminate message per worker. Jobs are identified by plain values here —
//! the threads, sockets and closures that carry them at run time live
//! outside this crate, which is why the model is what can be verified: it
//! pins down which jobs run, how often, and in what order.

use vstd::prelude::*;

verus! {

/// A message on the pool's queue: a job to run, or the order to stop.
#[derive(Debug, Clone, Copy, PartialEq, Eq, Structural)]
pub enum Message {
    /// A submitted job, identified by a plain value.
    NewJob(u64),
    /// One worker, on receiving this, stops taking messages.
    Terminate,
}

/// The job identifiers on a queue, in order, with terminate messages
/// skipped.
pub open spec fn job_ids(q: Seq<Message>) -> Seq<u64>
    decreases q.len(),
{
    if q.len() == 0 {
        Seq::empty()
    } else {
        match q[0] {
            Message::NewJob(j) => seq![j] + job_ids(q.drop_first()),
            Message::Terminate => job_ids(q.drop_first()),
        }
    }
}

/// Appending a message appends its job identifier, if it carries one.
pub proof fn lemma_job_ids_push(q: Seq<Message>, m: Message)
    ensures
        job_ids(q.push(m)) == job_ids(q) + (match m {
            Message::NewJob(j) => seq![j],
            Message::Terminate => Seq::<u64>::empty(),
        }),
    decreases q.len(),
{
    if q.len() == 0 {
        assert(q.push(m)[0] == m);
        assert(q.push(m).drop_first() =~= Seq::<Message>::empty());
        assert(job_ids(Seq::<Message>::empty()) == Seq::<u64>::empty());
        assert(job_ids(q) == Seq::<u64>::empty());
        match m {
            Message::NewJob(j) => {
                assert(job_ids(q.push(m)) =~= job_ids(q) + seq![j]);
            },
            Message::Terminate => {
                assert(job_ids(q.push(m)) =~= job_ids(q) + Seq::<u64>::empty());
            },
        }
    } else {
        assert(q.push(m)[0] == q[0]);
        assert(q.push(m).drop_first() =~= q.drop_first().push(m));
        lemma_job_ids_push(q.drop_first(), m);
        match m {
            Message::NewJob(j) => {
                assert(job_ids(q.push(m)) =~= job_ids(q) + seq![j]);
            },
            Message::Terminate => {
                assert(job_ids(q.push(m)) =~= job_ids(q) + Seq::<u64>::empty());
            },
        }
    }
}

/// What one worker step did: found the queue empty and waited, ran a job,
/// or stopped on a terminate message.
#[derive(Debug, Clone, Copy, PartialEq, Eq, Structural)]
pub enum WorkerStep {
    /// The queue was empty; a real worker blocks here.
    Idle,
    /// The worker took the front job and ran it.
    Ran(u64),
    /// The worker took a terminate message and stopped.
    Stopped,
}

/// The pool model: a fixed worker count, the shared FIFO message queue, the
/// jobs completed so far in execution order, and the ghost history of all
/// submissions.
pub struct ThreadPool {
    pub worker_count: usize,
    pub queue: Vec<Message>,
    pub completed: Vec<u64>,
    pub submitted: Ghost<Seq<u64>>,
}

impl ThreadPool {
    /// The pool invariant: there is at least one worker, and the submission
    /// history is exactly the completed jobs followed by the queued ones —
    /// so no submitted job is ever lost or duplicated.
    pub open spec fn wf(&self) -> bool {
        &&& self.worker_count >= 1
        &&& self.submitted@ == self.completed@ + job_ids(self.queue@)
    }

    /// Creates a pool of `size` workers with an empty queue. A pool cannot
    /// be constructed with zero workers.
    pub fn new(size: usize) -> (p: ThreadPool)
        requires
            size >= 1,
        ensures
            p.wf(),
            p.worker_count == size,
            p.queue@ == Seq::<Message>::empty(),
            p.completed@ == Seq::<u64>::empty(),
            p.submitted@ == Seq::<u64>::empty(),
    {
        ThreadPool {
            worker_count: size,
            queue: Vec::new(),
            completed: Vec::new(),
            submitted: Ghost(Seq::empty()),
        }
    }

    /// Submits a job: it is appended to the queue, and to the submission
    /// history, exactly once. Submission never blocks and never drops a job.
    pub fn execute(&mut self, job: u64)
        requires
            old(self).wf(),
        ensures
            final(self).wf(),
            final(self).worker_count == old(self).worker_count,
            final(self).queue@ == old(self).queue@.push(Message::NewJob(job)),
            final(self).completed == old(self).completed,
            final(self).submitted@ == old(self).submitted@.push(job),
    {
        self.queue.push(Message::NewJob(job));
        proof {
            self.submitted@ = self.submitted@.push(job);
            lemma_job_ids_push(old(self).queue@, Message::NewJob(job));
            assert(self.submitted@ =~= self.completed@ + job_ids(self.queue@));
        }
    }

    /// One worker step: with an empty queue the worker idles and nothing
    /// changes; otherwise exactly the front message is consumed — a job is
    /// moved to the completed list and run, a terminate message stops the
    /// worker. No other worker can consume the same message.
    pub fn worker_step(&mut self) -> (step: WorkerStep)
        requires
            old(self).wf(),
        ensures
            final(self).wf(),
            final(self).worker_count == old(self).worker_count,
            final(self).submitted == old(self).submitted,
            old(self).queue@.len() == 0 ==> step == WorkerStep::Idle && *final(self) == *old(
                self,
            ),
            old(self).queue@.len() > 0 ==> final(self).queue@ == old(self).queue@.drop_first()
                && (match old(self).queue@[0] {
                Message::NewJob(j) => step == WorkerStep::Ran(j) && final(self).completed@ == old(
                    self,
                ).completed@.push(j),
                Message::Terminate => step == WorkerStep::Stopped && final(self).completed == old(
                    self,
                ).completed,
            }),
    {
        if self.queue.len() == 0 {
            return WorkerStep::Idle;
        }
        let msg = self.queue.remove(0);
        proof {
            assert(self.queue@ =~= old(self).queue@.drop_first());
        }
        match msg {
            Message::NewJob(j) => {
                self.completed.push(j);
                proof {
                    assert(self.completed@ =~= old(self).completed@ + seq![j]);
                    assert(old(self).submitted@ =~= self.completed@ + job_ids(self.queue@));
                }
                WorkerStep::Ran(j)
            },
            Message::Terminate => WorkerStep::Stopped,
        }
    }

    /// Begins shutdown: one terminate message is appended per worker, so
    /// every worker eventually stops. The jobs already on the queue stay
    /// ahead of the terminate messages; no submission is removed.
    pub fn request_shutdown(&mut self)
        requires
            old(self).wf(),
        ensures
            final(self).wf(),
            final(self).worker_count == old(self).worker_count,
            final(self).completed == old(self).completed,
            final(self).submitted == old(self).submitted,
            final(self).queue@ == old(self).queue@ + Seq::new(
                old(self).worker_count as nat,
                |i: int| Message::Terminate,
            ),
            job_ids(final(self).queue@) == job_ids(old(self).queue@),
    {
        let count = self.worker_count;
        let mut k: usize = 0;
        while k < count
            invariant
                0 <= k <= count,
                self.worker_count == count,
                self.completed == old(self).completed,
                self.submitted == old(self).submitted,
                self.queue@ == old(self).queue@ + Seq::new(k as nat, |i: int| Message::Terminate),
                job_ids(self.queue@) == job_ids(old(self).queue@),
            decreases count - k,
        {
            let ghost before = self.queue@;
            self.queue.push(Message::Terminate);
            proof {
                lemma_job_ids_push(before, Message::Terminate);
                assert(job_ids(self.queue@) =~= job_ids(old(self).queue@));
                assert(self.queue@ =~= old(self).queue@ + Seq::new(
                    (k + 1) as nat,
                    |i: int| Message::Terminate,
                ));
            }
            k = k + 1;
        }
    }
}

/// Every job handed to the pool runs exactly once: in any well-formed pool
/// state, the submission history is precisely the completed jobs followed by
/// the jobs still queued — none lost, none duplicated — and once the queue
/// holds no more jobs, the completed jobs are exactly the submissions, in
/// submission order.
pub proof fn lemma_jobs_conserved(p: ThreadPool)
    requires
        p.wf(),
    ensures
        p.submitted@ == p.completed@ + job_ids(p.queue@),
        job_ids(p.queue@).len() == 0 ==> p.submitted@ == p.completed@,
{
    if job_ids(p.queue@).len() == 0 {
        assert(p.submitted@ =~= p.completed@);
    }
}

/// A pool always has at least one worker: zero-worker construction is ruled
/// out by the constructor's contract, and no operation changes the count.
pub proof fn lemma_pool_has_workers(p: ThreadPool)
    requires
        p.wf(),
    ensures
        p.worker_count >= 1,
{
}

} // verus!
