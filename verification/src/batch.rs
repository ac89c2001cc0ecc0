//! The batch scheduler: many independent jobs, a cap on how many run at
//! once, a pace at which they are started, and one outcome for each,
//! whatever happens to the others.
//!
//! The scheduler decides; its caller acts. [`BatchRun::next_action`] says
//! what to do, and the caller reports back what happened: a job was
//! started, the pacing delay has passed, a job has ended.

use vstd::prelude::*;
use vstd::string::*;

verus! {

/// Where a job stands.
#[derive(Debug, Clone, Copy, PartialEq, Eq, Structural)]
pub enum JobOutcome {
    Pending,
    Running,
    Succeeded,
    Skipped,
    Failed,
}

impl JobOutcome {
    /// Whether the job has ended.
    pub open spec fn terminal(self) -> bool {
        self == JobOutcome::Succeeded || self == JobOutcome::Skipped || self == JobOutcome::Failed
    }
}

/// One unit of batch work.
#[derive(Debug)]
pub struct Job {
    /// What the job works on: a source path or the name of a prompt.
    pub identity: String,
    /// Where the job's artifact goes.
    pub destination: String,
    pub outcome: JobOutcome,
    /// Why the job failed, if it did.
    pub error: Option<String>,
    /// What the job produced, counted (segments of a transcript, say).
    pub artifacts: usize,
}

/// What is known of a job before it runs.
#[derive(Debug)]
pub struct JobEntry {
    pub identity: String,
    pub destination: String,
}

/// What a worker reports when its job has ended.
#[derive(Debug)]
pub enum JobReport {
    Succeeded { artifacts: usize },
    Skipped,
    Failed { cause: String },
}

impl JobReport {
    /// The outcome that the report stands for.
    pub open spec fn outcome(self) -> JobOutcome {
        match self {
            JobReport::Succeeded { .. } => JobOutcome::Succeeded,
            JobReport::Skipped => JobOutcome::Skipped,
            JobReport::Failed { .. } => JobOutcome::Failed,
        }
    }
}

/// How a batch is run.
#[derive(Debug, Clone, Copy)]
pub struct BatchConfig {
    /// How many jobs may run at once. Zero counts as one.
    pub concurrency: usize,
    /// Seconds between the start of one job and the start of the next.
    pub start_delay_secs: u64,
    /// How often each remote call may be attempted.
    pub max_attempts: u32,
    /// Seconds allowed for each remote call.
    pub per_call_timeout_secs: u64,
}

/// A limiter that lets at most `capacity` holders in at a time.
#[derive(Debug)]
pub struct AdmissionLimiter {
    capacity: usize,
    held: usize,
}

impl AdmissionLimiter {
    /// How many holders the limiter admits.
    pub closed spec fn capacity(&self) -> nat {
        self.capacity as nat
    }

    /// How many holders are inside.
    pub closed spec fn held(&self) -> nat {
        self.held as nat
    }

    /// The limiter never holds more than it admits, and admits at least one.
    pub closed spec fn wf(&self) -> bool {
        self.held <= self.capacity && self.capacity >= 1
    }

    /// A limiter for `capacity` holders at a time; one, where zero is asked
    /// for.
    pub fn new(capacity: usize) -> (limiter: Self)
        ensures
            limiter.wf(),
            limiter.held() == 0,
            limiter.capacity() == if capacity == 0 {
                1
            } else {
                capacity as nat
            },
    {
        AdmissionLimiter {
            capacity: if capacity == 0 {
                1
            } else {
                capacity
            },
            held: 0,
        }
    }

    /// Whether a unit of capacity is free.
    pub fn has_room(&self) -> (r: bool)
        requires
            self.wf(),
        ensures
            r == (self.held() < self.capacity()),
    {
        self.held < self.capacity
    }

    /// How many holders are inside.
    pub fn in_use(&self) -> (n: usize)
        ensures
            n == self.held(),
    {
        self.held
    }

    /// Takes a unit of capacity if one is free, and says whether it did.
    pub fn try_acquire(&mut self) -> (admitted: bool)
        requires
            old(self).wf(),
        ensures
            final(self).wf(),
            final(self).capacity() == old(self).capacity(),
            admitted == (old(self).held() < old(self).capacity()),
            final(self).held() == old(self).held() + if admitted {
                1nat
            } else {
                0nat
            },
    {
        if self.held < self.capacity {
            self.held = self.held + 1;
            true
        } else {
            false
        }
    }

    /// Gives a unit of capacity back.
    pub fn release(&mut self)
        requires
            old(self).wf(),
            old(self).held() > 0,
        ensures
            final(self).wf(),
            final(self).capacity() == old(self).capacity(),
            final(self).held() == old(self).held() - 1,
    {
        self.held = self.held - 1;
    }
}

/// A limiter that is well formed never holds more than its capacity.
pub proof fn lemma_limiter_bounded(limiter: AdmissionLimiter)
    requires
        limiter.wf(),
    ensures
        limiter.held() <= limiter.capacity(),
        limiter.capacity() >= 1,
{
}

/// How many of the jobs have the given outcome.
pub open spec fn count_outcome(jobs: Seq<Job>, outcome: JobOutcome) -> nat
    decreases jobs.len(),
{
    if jobs.len() == 0 {
        0
    } else {
        count_outcome(jobs.drop_last(), outcome) + if jobs.last().outcome == outcome {
            1nat
        } else {
            0nat
        }
    }
}

/// What the jobs that succeeded produced, in all.
pub open spec fn total_artifacts(jobs: Seq<Job>) -> nat
    decreases jobs.len(),
{
    if jobs.len() == 0 {
        0
    } else {
        total_artifacts(jobs.drop_last()) + if jobs.last().outcome == JobOutcome::Succeeded {
            jobs.last().artifacts as nat
        } else {
            0nat
        }
    }
}

/// A job that failed, by identity and cause.
#[derive(Debug)]
pub struct FailedJob {
    pub identity: String,
    pub cause: String,
}

/// The cause recorded for a job.
pub open spec fn cause_of(job: Job) -> Seq<char> {
    match job.error {
        Some(cause) => cause@,
        None => "Unknown error"@,
    }
}

/// The jobs that failed, in the order of submission, each with its
/// identity and cause.
pub open spec fn failures(jobs: Seq<Job>) -> Seq<(Seq<char>, Seq<char>)>
    decreases jobs.len(),
{
    if jobs.len() == 0 {
        Seq::empty()
    } else if jobs.last().outcome == JobOutcome::Failed {
        failures(jobs.drop_last()).push((jobs.last().identity@, cause_of(jobs.last())))
    } else {
        failures(jobs.drop_last())
    }
}

/// Identity and cause of each failed job.
pub open spec fn failed_pairs(failed: Seq<FailedJob>) -> Seq<(Seq<char>, Seq<char>)> {
    failed.map_values(|f: FailedJob| (f.identity@, f.cause@))
}

/// Every job is counted under exactly one outcome.
pub proof fn lemma_counts_partition(jobs: Seq<Job>)
    ensures
        count_outcome(jobs, JobOutcome::Pending) + count_outcome(jobs, JobOutcome::Running)
            + count_outcome(jobs, JobOutcome::Succeeded) + count_outcome(jobs, JobOutcome::Skipped)
            + count_outcome(jobs, JobOutcome::Failed) == jobs.len(),
        failures(jobs).len() == count_outcome(jobs, JobOutcome::Failed),
    decreases jobs.len(),
{
    if jobs.len() > 0 {
        lemma_counts_partition(jobs.drop_last());
    }
}

/// No count exceeds the number of jobs.
pub proof fn lemma_count_bounded(jobs: Seq<Job>, outcome: JobOutcome)
    ensures
        count_outcome(jobs, outcome) <= jobs.len(),
    decreases jobs.len(),
{
    if jobs.len() > 0 {
        lemma_count_bounded(jobs.drop_last(), outcome);
    }
}

/// Where no job has an outcome, its count is zero, and the other way
/// round.
pub proof fn lemma_count_zero(jobs: Seq<Job>, outcome: JobOutcome)
    ensures
        count_outcome(jobs, outcome) == 0 <==> forall|i: int|
            0 <= i < jobs.len() ==> (#[trigger] jobs[i]).outcome != outcome,
    decreases jobs.len(),
{
    if jobs.len() > 0 {
        lemma_count_zero(jobs.drop_last(), outcome);
        if count_outcome(jobs, outcome) == 0 {
            assert forall|i: int| 0 <= i < jobs.len() implies (#[trigger] jobs[i]).outcome
                != outcome by {
                if i < jobs.len() - 1 {
                    assert(jobs.drop_last()[i] == jobs[i]);
                }
            }
        } else if jobs.last().outcome != outcome {
            let i = choose|i: int|
                0 <= i < jobs.drop_last().len() && (#[trigger] jobs.drop_last()[i]).outcome
                    == outcome;
            assert(jobs[i].outcome == outcome);
        } else {
            assert(jobs[jobs.len() - 1].outcome == outcome);
        }
    }
}

/// Replacing one job moves one unit from the count of its old outcome to
/// the count of its new one, and leaves every other count alone.
pub proof fn lemma_count_update(jobs: Seq<Job>, index: int, job: Job, outcome: JobOutcome)
    requires
        0 <= index < jobs.len(),
    ensures
        count_outcome(jobs.update(index, job), outcome) + (if jobs[index].outcome == outcome {
            1nat
        } else {
            0nat
        }) == count_outcome(jobs, outcome) + (if job.outcome == outcome {
            1nat
        } else {
            0nat
        }),
    decreases jobs.len(),
{
    let updated = jobs.update(index, job);
    if index == jobs.len() - 1 {
        assert(updated.drop_last() =~= jobs.drop_last());
    } else {
        assert(updated.drop_last() =~= jobs.drop_last().update(index, job));
        lemma_count_update(jobs.drop_last(), index, job, outcome);
    }
}

/// What the caller of the scheduler does next.
#[derive(Debug, Clone, Copy, PartialEq, Eq, Structural)]
pub enum SchedulerAction {
    /// Start the job at this position, then call [`BatchRun::start_next`].
    Start(usize),
    /// Wait this many seconds, then call [`BatchRun::delay_elapsed`].
    Sleep(u64),
    /// Wait until a running job ends, then call [`BatchRun::complete`].
    AwaitCompletion,
    /// Every job has ended: take the summary.
    Finished,
}

/// The cause recorded for a job whose worker ended without a report.
pub const WORKER_FAULT: &'static str = "Job worker ended unexpectedly";

/// A job as it is once its worker has reported.
pub open spec fn finished_job(job: Job, report: JobReport) -> Job {
    Job {
        identity: job.identity,
        destination: job.destination,
        outcome: report.outcome(),
        error: match report {
            JobReport::Failed { cause } => Some(cause),
            _ => None,
        },
        artifacts: match report {
            JobReport::Succeeded { artifacts } => artifacts,
            _ => 0,
        },
    }
}

/// A job as it is once it has been started.
pub open spec fn started_job(job: Job) -> Job {
    Job {
        identity: job.identity,
        destination: job.destination,
        outcome: JobOutcome::Running,
        error: job.error,
        artifacts: job.artifacts,
    }
}

/// The job that waits to run, made from what is known of it.
pub open spec fn pending_job(entry: JobEntry) -> Job {
    Job {
        identity: entry.identity,
        destination: entry.destination,
        outcome: JobOutcome::Pending,
        error: None,
        artifacts: 0,
    }
}

/// The result of a batch.
#[derive(Debug)]
pub struct BatchSummary {
    pub succeeded: usize,
    pub skipped: usize,
    pub failed: Vec<FailedJob>,
    pub total_artifacts: u128,
}

/// One run of a batch: the jobs in the order of submission, the limiter that
/// caps how many run at once, and how far the run has come.
#[derive(Debug)]
pub struct BatchRun {
    pub config: BatchConfig,
    pub jobs: Vec<Job>,
    pub limiter: AdmissionLimiter,
    /// How many jobs have been started: the jobs before this position.
    pub started: usize,
    /// Whether the pacing delay after the last start is still running.
    pub pacing: bool,
}

impl BatchRun {
    /// The jobs are started in order, a running job holds one unit of the
    /// limiter, and the pacing delay only runs between two starts.
    pub open spec fn wf(&self) -> bool {
        &&& self.limiter.wf()
        &&& self.started <= self.jobs@.len()
        &&& forall|i: int|
            0 <= i < self.jobs@.len() ==> ((#[trigger] self.jobs@[i]).outcome
                == JobOutcome::Pending <==> i >= self.started)
        &&& self.limiter.held() == count_outcome(self.jobs@, JobOutcome::Running)
        &&& self.pacing ==> 0 < self.started < self.jobs@.len()
    }

    /// What is to be done in a given state.
    pub open spec fn action(&self) -> SchedulerAction {
        if self.started < self.jobs@.len() {
            if self.pacing {
                SchedulerAction::Sleep(self.config.start_delay_secs)
            } else if self.limiter.held() < self.limiter.capacity() {
                SchedulerAction::Start(self.started)
            } else {
                SchedulerAction::AwaitCompletion
            }
        } else if self.limiter.held() > 0 {
            SchedulerAction::AwaitCompletion
        } else {
            SchedulerAction::Finished
        }
    }

    /// A run without jobs.
    pub fn new(config: BatchConfig) -> (run: Self)
        ensures
            run.wf(),
            run.jobs@.len() == 0,
            run.started == 0,
            !run.pacing,
            run.config == config,
            run.limiter.held() == 0,
            run.limiter.capacity() == if config.concurrency == 0 {
                1
            } else {
                config.concurrency as nat
            },
    {
        BatchRun {
            config,
            jobs: Vec::new(),
            limiter: AdmissionLimiter::new(config.concurrency),
            started: 0,
            pacing: false,
        }
    }

    /// Adds a job behind those submitted so far, and returns its position.
    /// Jobs are submitted before the first is started.
    pub fn submit(&mut self, entry: JobEntry) -> (index: usize)
        requires
            old(self).wf(),
            old(self).started == 0,
        ensures
            final(self).wf(),
            index == old(self).jobs@.len(),
            final(self).jobs@ == old(self).jobs@.push(pending_job(entry)),
            final(self).started == 0,
            final(self).pacing == old(self).pacing,
            final(self).limiter == old(self).limiter,
            final(self).config == old(self).config,
    {
        let index = self.jobs.len();
        let ghost before = self.jobs@;
        self.jobs.push(
            Job {
                identity: entry.identity,
                destination: entry.destination,
                outcome: JobOutcome::Pending,
                error: None,
                artifacts: 0,
            },
        );
        proof {
            assert(self.jobs@.drop_last() =~= before);
        }
        index
    }

    /// What to do next.
    ///
    /// While jobs are left to start: wait out the pacing delay if it is
    /// running, else start the next job if the limiter has room, else wait for
    /// a running job to end. When all have been started: wait for the
    /// running ones, and finish when none is left.
    pub fn next_action(&self) -> (action: SchedulerAction)
        requires
            self.wf(),
        ensures
            action == self.action(),
    {
        if self.started < self.jobs.len() {
            if self.pacing {
                SchedulerAction::Sleep(self.config.start_delay_secs)
            } else if self.limiter.has_room() {
                SchedulerAction::Start(self.started)
            } else {
                SchedulerAction::AwaitCompletion
            }
        } else if self.limiter.in_use() > 0 {
            SchedulerAction::AwaitCompletion
        } else {
            SchedulerAction::Finished
        }
    }

    /// Records that the next job has been started: it takes a unit of the
    /// limiter and runs. Unless it was the last job, or no delay is set, the
    /// pacing delay begins.
    pub fn start_next(&mut self) -> (index: usize)
        requires
            old(self).wf(),
            old(self).action() is Start,
        ensures
            final(self).wf(),
            index == old(self).started,
            final(self).started == old(self).started + 1,
            final(self).jobs@ == old(self).jobs@.update(
                index as int,
                started_job(old(self).jobs@[index as int]),
            ),
            final(self).limiter.held() == old(self).limiter.held() + 1,
            final(self).limiter.capacity() == old(self).limiter.capacity(),
            final(self).pacing == (final(self).started < final(self).jobs@.len()
                && final(self).config.start_delay_secs > 0),
            final(self).config == old(self).config,
    {
        let index = self.started;
        let ghost before = self.jobs@;
        assert(index < self.jobs.len());
        let admitted = self.limiter.try_acquire();
        mark_running(&mut self.jobs, index);
        self.started = index + 1;
        self.pacing = self.started < self.jobs.len() && self.config.start_delay_secs > 0;
        proof {
            lemma_count_update(
                before,
                index as int,
                started_job(before[index as int]),
                JobOutcome::Running,
            );
        }
        index
    }

    /// Records that the pacing delay has passed.
    pub fn delay_elapsed(&mut self)
        requires
            old(self).wf(),
        ensures
            final(self).wf(),
            !final(self).pacing,
            final(self).jobs == old(self).jobs,
            final(self).started == old(self).started,
            final(self).limiter == old(self).limiter,
            final(self).config == old(self).config,
    {
        self.pacing = false;
    }

    /// Records the end of a running job: it gets the outcome that its
    /// worker reports and gives its unit of the limiter back, whatever the
    /// outcome. No other job is touched.
    pub fn complete(&mut self, index: usize, report: JobReport)
        requires
            old(self).wf(),
            index < old(self).jobs@.len(),
            old(self).jobs@[index as int].outcome == JobOutcome::Running,
        ensures
            final(self).wf(),
            final(self).jobs@ == old(self).jobs@.update(
                index as int,
                finished_job(old(self).jobs@[index as int], report),
            ),
            final(self).limiter.held() == old(self).limiter.held() - 1,
            final(self).limiter.capacity() == old(self).limiter.capacity(),
            final(self).started == old(self).started,
            final(self).pacing == old(self).pacing,
            final(self).config == old(self).config,
    {
        let ghost before = self.jobs@;
        proof {
            lemma_count_zero(before, JobOutcome::Running);
            lemma_count_update(
                before,
                index as int,
                finished_job(before[index as int], report),
                JobOutcome::Running,
            );
        }
        mark_finished(&mut self.jobs, index, report);
        self.limiter.release();
    }

    /// Records that the worker of a running job ended without a report:
    /// the job counts as failed, with [`WORKER_FAULT`] as its cause.
    pub fn crashed(&mut self, index: usize)
        requires
            old(self).wf(),
            index < old(self).jobs@.len(),
            old(self).jobs@[index as int].outcome == JobOutcome::Running,
        ensures
            final(self).wf(),
            final(self).jobs@.len() == old(self).jobs@.len(),
            forall|i: int|
                0 <= i < old(self).jobs@.len() && i != index ==> final(self).jobs@[i]
                    == old(self).jobs@[i],
            final(self).jobs@[index as int].outcome == JobOutcome::Failed,
            final(self).jobs@[index as int].error matches Some(cause) && cause@ == WORKER_FAULT@,
            final(self).jobs@[index as int].identity == old(self).jobs@[index as int].identity,
            final(self).limiter.held() == old(self).limiter.held() - 1,
            final(self).limiter.capacity() == old(self).limiter.capacity(),
            final(self).started == old(self).started,
            final(self).pacing == old(self).pacing,
            final(self).config == old(self).config,
    {
        self.complete(index, JobReport::Failed { cause: String::from_str(WORKER_FAULT) });
    }

    /// The summary of a run in which every job has ended: how many
    /// succeeded and what they produced, how many were skipped, and which
    /// failed and why, in the order of submission.
    pub fn summary(&self) -> (summary: BatchSummary)
        requires
            self.wf(),
            self.action() == SchedulerAction::Finished,
        ensures
            summary.succeeded == count_outcome(self.jobs@, JobOutcome::Succeeded),
            summary.skipped == count_outcome(self.jobs@, JobOutcome::Skipped),
            failed_pairs(summary.failed@) == failures(self.jobs@),
            summary.total_artifacts == total_artifacts(self.jobs@),
            summary.succeeded + summary.skipped + summary.failed@.len() == self.jobs@.len(),
    {
        let mut succeeded: usize = 0;
        let mut skipped: usize = 0;
        let mut failed: Vec<FailedJob> = Vec::new();
        let mut total: u128 = 0;
        let mut i: usize = 0;
        while i < self.jobs.len()
            invariant
                i <= self.jobs@.len(),
                succeeded == count_outcome(self.jobs@.take(i as int), JobOutcome::Succeeded),
                skipped == count_outcome(self.jobs@.take(i as int), JobOutcome::Skipped),
                failed_pairs(failed@) =~= failures(self.jobs@.take(i as int)),
                total == total_artifacts(self.jobs@.take(i as int)),
                total <= i * usize::MAX,
            decreases self.jobs@.len() - i,
        {
            proof {
                assert(self.jobs@.take(i + 1).drop_last() =~= self.jobs@.take(i as int));
                lemma_count_bounded(self.jobs@.take(i + 1), JobOutcome::Succeeded);
                lemma_count_bounded(self.jobs@.take(i + 1), JobOutcome::Skipped);
                assert((i + 1) * usize::MAX == i * usize::MAX + usize::MAX) by (nonlinear_arith);
                assert(i * usize::MAX <= 0xffff_ffff_ffff_ffff * 0xffff_ffff_ffff_ffff)
                    by (nonlinear_arith)
                    requires
                        i <= 0xffff_ffff_ffff_ffff,
                        usize::MAX <= 0xffff_ffff_ffff_ffff,
                ;
            }
            let job = &self.jobs[i];
            match job.outcome {
                JobOutcome::Succeeded => {
                    succeeded = succeeded + 1;
                    total = total + job.artifacts as u128;
                },
                JobOutcome::Skipped => {
                    skipped = skipped + 1;
                },
                JobOutcome::Failed => {
                    let cause = match &job.error {
                        Some(cause) => cause.clone(),
                        None => String::from_str("Unknown error"),
                    };
                    let ghost before = failed@;
                    failed.push(FailedJob { identity: job.identity.clone(), cause });
                    proof {
                        assert(failed_pairs(failed@) =~= failed_pairs(before).push(
                            (job.identity@, cause_of(*job)),
                        ));
                    }
                },
                _ => {},
            }
            i = i + 1;
        }
        proof {
            assert(self.jobs@.take(self.jobs@.len() as int) =~= self.jobs@);
            lemma_counts_partition(self.jobs@);
            lemma_count_zero(self.jobs@, JobOutcome::Pending);
        }
        BatchSummary { succeeded, skipped, failed, total_artifacts: total }
    }
}

/// Marks the job at `index` as running.
fn mark_running(jobs: &mut Vec<Job>, index: usize)
    requires
        index < old(jobs)@.len(),
    ensures
        final(jobs)@ == old(jobs)@.update(index as int, started_job(old(jobs)@[index as int])),
{
    let ghost before = jobs@;
    let job = &mut jobs[index];
    job.outcome = JobOutcome::Running;
    proof {
        assert(jobs@ =~= before.update(index as int, started_job(before[index as int])));
    }
}

/// Gives the job at `index` the outcome that its worker reports.
fn mark_finished(jobs: &mut Vec<Job>, index: usize, report: JobReport)
    requires
        index < old(jobs)@.len(),
    ensures
        final(jobs)@ == old(jobs)@.update(
            index as int,
            finished_job(old(jobs)@[index as int], report),
        ),
{
    let ghost before = jobs@;
    let job = &mut jobs[index];
    match report {
        JobReport::Succeeded { artifacts } => {
            job.outcome = JobOutcome::Succeeded;
            job.error = None;
            job.artifacts = artifacts;
        },
        JobReport::Skipped => {
            job.outcome = JobOutcome::Skipped;
            job.error = None;
            job.artifacts = 0;
        },
        JobReport::Failed { cause } => {
            job.outcome = JobOutcome::Failed;
            job.error = Some(cause);
            job.artifacts = 0;
        },
    }
    proof {
        assert(jobs@ =~= before.update(index as int, finished_job(before[index as int], report)));
    }
}

/// At no point of a run do more jobs run than the limiter admits.
pub proof fn lemma_running_within_capacity(run: BatchRun)
    requires
        run.wf(),
    ensures
        count_outcome(run.jobs@, JobOutcome::Running) <= run.limiter.capacity(),
{
    lemma_limiter_bounded(run.limiter);
}

/// When a run has finished, every job that was submitted has ended, and
/// the jobs that succeeded, were skipped and failed add up to all of
/// them.
pub proof fn lemma_finished_accounts_for_all(run: BatchRun)
    requires
        run.wf(),
        run.action() == SchedulerAction::Finished,
    ensures
        forall|i: int| 0 <= i < run.jobs@.len() ==> (#[trigger] run.jobs@[i]).outcome.terminal(),
        count_outcome(run.jobs@, JobOutcome::Succeeded) + count_outcome(
            run.jobs@,
            JobOutcome::Skipped,
        ) + count_outcome(run.jobs@, JobOutcome::Failed) == run.jobs@.len(),
{
    lemma_counts_partition(run.jobs@);
    lemma_count_zero(run.jobs@, JobOutcome::Pending);
    lemma_count_zero(run.jobs@, JobOutcome::Running);
}

/// The scheduler never waits in vain and never starts a job twice: when
/// it says to wait for a completion, some job is running; when it says to
/// start a job, that job is pending and the limiter has room.
pub proof fn lemma_actions_are_enabled(run: BatchRun)
    requires
        run.wf(),
    ensures
        run.action() == SchedulerAction::AwaitCompletion ==> exists|i: int|
            0 <= i < run.jobs@.len() && (#[trigger] run.jobs@[i]).outcome == JobOutcome::Running,
        run.action() matches SchedulerAction::Start(i) ==> i < run.jobs@.len()
            && run.jobs@[i as int].outcome == JobOutcome::Pending && run.limiter.held()
            < run.limiter.capacity(),
{
    lemma_limiter_bounded(run.limiter);
    lemma_count_zero(run.jobs@, JobOutcome::Running);
}

/// The failure of one job is its own: every other job keeps its state,
/// so the jobs that succeeded are as many as before, and whatever runs or
/// waits can still succeed.
pub proof fn lemma_failure_is_isolated(jobs: Seq<Job>, index: int, cause: String)
    requires
        0 <= index < jobs.len(),
        jobs[index].outcome == JobOutcome::Running,
    ensures
        ({
            let after = jobs.update(
                index,
                finished_job(jobs[index], JobReport::Failed { cause }),
            );
            &&& forall|j: int| 0 <= j < jobs.len() && j != index ==> after[j] == jobs[j]
            &&& count_outcome(after, JobOutcome::Succeeded) == count_outcome(
                jobs,
                JobOutcome::Succeeded,
            )
            &&& count_outcome(after, JobOutcome::Pending) == count_outcome(
                jobs,
                JobOutcome::Pending,
            )
            &&& count_outcome(after, JobOutcome::Failed) == count_outcome(
                jobs,
                JobOutcome::Failed,
            ) + 1
            &&& count_outcome(after, JobOutcome::Running) + 1 == count_outcome(
                jobs,
                JobOutcome::Running,
            )
        }),
{
    let job = finished_job(jobs[index], JobReport::Failed { cause });
    lemma_count_update(jobs, index, job, JobOutcome::Succeeded);
    lemma_count_update(jobs, index, job, JobOutcome::Pending);
    lemma_count_update(jobs, index, job, JobOutcome::Failed);
    lemma_count_update(jobs, index, job, JobOutcome::Running);
}

} // verus!
