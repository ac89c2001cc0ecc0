use transcript_tool::batch::{
    AdmissionLimiter, BatchConfig, BatchRun, JobEntry, JobOutcome, JobReport, SchedulerAction,
    WORKER_FAULT,
};

fn config(concurrency: usize, start_delay_secs: u64) -> BatchConfig {
    BatchConfig { concurrency, start_delay_secs, max_attempts: 3, per_call_timeout_secs: 600 }
}

fn run_of(n: usize, concurrency: usize, start_delay_secs: u64) -> BatchRun {
    let mut run = BatchRun::new(config(concurrency, start_delay_secs));
    for i in 0..n {
        let index = run.submit(JobEntry {
            identity: format!("job{}", i),
            destination: format!("out{}", i),
        });
        assert_eq!(index, i);
    }
    run
}

#[test]
fn the_limiter_admits_up_to_its_capacity() {
    let mut limiter = AdmissionLimiter::new(2);
    assert!(limiter.has_room());
    assert!(limiter.try_acquire());
    assert!(limiter.try_acquire());
    assert_eq!(limiter.in_use(), 2);
    assert!(!limiter.has_room());
    assert!(!limiter.try_acquire());
    assert_eq!(limiter.in_use(), 2);
    limiter.release();
    assert_eq!(limiter.in_use(), 1);
    assert!(limiter.try_acquire());
    limiter.release();
    limiter.release();
    assert_eq!(limiter.in_use(), 0);
}

#[test]
fn a_limiter_for_nobody_admits_one() {
    let mut limiter = AdmissionLimiter::new(0);
    assert!(limiter.try_acquire());
    assert!(!limiter.try_acquire());
    let mut run = run_of(2, 0, 0);
    assert_eq!(run.next_action(), SchedulerAction::Start(0));
    run.start_next();
    assert_eq!(run.next_action(), SchedulerAction::AwaitCompletion);
}

#[test]
fn an_empty_batch_is_finished_at_once() {
    let run = BatchRun::new(config(2, 5));
    assert_eq!(run.next_action(), SchedulerAction::Finished);
    let summary = run.summary();
    assert_eq!(summary.succeeded, 0);
    assert_eq!(summary.skipped, 0);
    assert!(summary.failed.is_empty());
    assert_eq!(summary.total_artifacts, 0);
}

#[test]
fn jobs_start_in_order_with_the_delay_between_starts() {
    let mut run = run_of(3, 3, 5);
    assert_eq!(run.next_action(), SchedulerAction::Start(0));
    assert_eq!(run.start_next(), 0);
    assert_eq!(run.jobs[0].outcome, JobOutcome::Running);
    assert_eq!(run.jobs[1].outcome, JobOutcome::Pending);
    assert_eq!(run.next_action(), SchedulerAction::Sleep(5));
    // The delay runs whether or not the first job has ended.
    run.complete(0, JobReport::Succeeded { artifacts: 1 });
    assert_eq!(run.next_action(), SchedulerAction::Sleep(5));
    run.delay_elapsed();
    assert_eq!(run.next_action(), SchedulerAction::Start(1));
    assert_eq!(run.start_next(), 1);
    assert_eq!(run.next_action(), SchedulerAction::Sleep(5));
    run.delay_elapsed();
    assert_eq!(run.start_next(), 2);
    // No delay after the last start.
    assert_eq!(run.next_action(), SchedulerAction::AwaitCompletion);
    run.complete(2, JobReport::Skipped);
    assert_eq!(run.next_action(), SchedulerAction::AwaitCompletion);
    run.complete(1, JobReport::Failed { cause: "boom".to_string() });
    assert_eq!(run.next_action(), SchedulerAction::Finished);
}

#[test]
fn without_a_delay_jobs_start_as_capacity_allows() {
    let mut run = run_of(3, 2, 0);
    assert_eq!(run.start_next(), 0);
    assert_eq!(run.next_action(), SchedulerAction::Start(1));
    assert_eq!(run.start_next(), 1);
    assert_eq!(run.limiter.in_use(), 2);
    assert_eq!(run.next_action(), SchedulerAction::AwaitCompletion);
    run.complete(1, JobReport::Succeeded { artifacts: 4 });
    assert_eq!(run.limiter.in_use(), 1);
    assert_eq!(run.next_action(), SchedulerAction::Start(2));
    assert_eq!(run.start_next(), 2);
    run.complete(0, JobReport::Succeeded { artifacts: 6 });
    run.complete(2, JobReport::Succeeded { artifacts: 0 });
    assert_eq!(run.next_action(), SchedulerAction::Finished);
    let summary = run.summary();
    assert_eq!(summary.succeeded, 3);
    assert_eq!(summary.total_artifacts, 10);
}

#[test]
fn the_summary_lists_failures_in_the_order_of_submission() {
    let mut run = run_of(5, 5, 0);
    for _ in 0..5 {
        run.start_next();
    }
    run.complete(4, JobReport::Failed { cause: "last".to_string() });
    run.complete(3, JobReport::Skipped);
    run.complete(1, JobReport::Failed { cause: "second".to_string() });
    run.complete(0, JobReport::Succeeded { artifacts: 7 });
    run.crashed(2);
    assert_eq!(run.next_action(), SchedulerAction::Finished);
    let summary = run.summary();
    assert_eq!(summary.succeeded, 1);
    assert_eq!(summary.skipped, 1);
    assert_eq!(summary.total_artifacts, 7);
    let failed: Vec<(&str, &str)> =
        summary.failed.iter().map(|f| (f.identity.as_str(), f.cause.as_str())).collect();
    assert_eq!(
        failed,
        vec![("job1", "second"), ("job2", "Job worker ended unexpectedly"), ("job4", "last")]
    );
    assert_eq!(WORKER_FAULT, "Job worker ended unexpectedly");
    assert_eq!(summary.succeeded + summary.skipped + summary.failed.len(), 5);
    assert_eq!(run.jobs[2].outcome, JobOutcome::Failed);
    assert_eq!(run.jobs[0].artifacts, 7);
    assert_eq!(run.jobs[3].destination, "out3");
    assert_eq!(run.jobs[1].error.as_deref(), Some("second"));
}

#[test]
fn artifacts_are_added_without_overflow() {
    let mut run = run_of(3, 3, 0);
    for _ in 0..3 {
        run.start_next();
    }
    for i in 0..3 {
        run.complete(i, JobReport::Succeeded { artifacts: usize::MAX });
    }
    assert_eq!(run.summary().total_artifacts, 3 * (usize::MAX as u128));
}

/// Runs a whole batch: every job that is started ends when `order` says
/// so, with the report that `report` gives. Returns the most jobs that
/// ran at once and the seconds slept.
fn drive(
    run: &mut BatchRun,
    report: impl Fn(usize) -> JobReport,
    pick: impl Fn(&[usize]) -> usize,
) -> (usize, u64, Vec<usize>) {
    let mut running: Vec<usize> = vec![];
    let mut most = 0;
    let mut slept = 0;
    let mut started = vec![];
    loop {
        assert!(run.limiter.in_use() == running.len());
        most = most.max(running.len());
        match run.next_action() {
            SchedulerAction::Start(index) => {
                assert_eq!(run.start_next(), index);
                started.push(index);
                running.push(index);
            }
            SchedulerAction::Sleep(secs) => {
                slept += secs;
                run.delay_elapsed();
            }
            SchedulerAction::AwaitCompletion => {
                let at = pick(&running);
                let index = running.remove(at);
                run.complete(index, report(index));
            }
            SchedulerAction::Finished => return (most, slept, started),
        }
    }
}

#[test]
fn no_more_than_c_jobs_hold_a_slot_at_once() {
    for n in 0..12usize {
        for c in 1..=n.max(1) {
            for delay in [0u64, 3] {
                let mut run = run_of(n, c, delay);
                let (most, slept, started) = drive(
                    &mut run,
                    |_| JobReport::Succeeded { artifacts: 2 },
                    |running| running.len() - 1,
                );
                assert!(most <= c);
                if delay == 0 && n > 0 {
                    assert_eq!(most, c.min(n));
                }
                assert_eq!(started, (0..n).collect::<Vec<_>>());
                assert_eq!(slept, delay * (n.saturating_sub(1) as u64));
                let summary = run.summary();
                assert_eq!(summary.succeeded + summary.skipped + summary.failed.len(), n);
                assert_eq!(summary.succeeded, n);
                assert_eq!(summary.total_artifacts, 2 * n as u128);
            }
        }
    }
}

#[test]
fn a_job_that_always_fails_does_not_keep_the_others_from_succeeding() {
    for n in 1..10usize {
        for bad in 0..n {
            for c in 1..=n {
                let mut run = run_of(n, c, 0);
                let (most, _, _) = drive(
                    &mut run,
                    |index| {
                        if index == bad {
                            JobReport::Failed { cause: "always".to_string() }
                        } else {
                            JobReport::Succeeded { artifacts: 1 }
                        }
                    },
                    |_| 0,
                );
                assert!(most <= c);
                let summary = run.summary();
                assert_eq!(summary.succeeded, n - 1);
                assert_eq!(summary.skipped, 0);
                assert_eq!(summary.failed.len(), 1);
                assert_eq!(summary.failed[0].identity, format!("job{}", bad));
                assert_eq!(summary.failed[0].cause, "always");
            }
        }
    }
}

#[test]
fn a_batch_in_which_every_job_fails_still_ends_with_its_summary() {
    for n in 1..8usize {
        let mut run = run_of(n, 2, 0);
        let (most, _, started) = drive(
            &mut run,
            |index| JobReport::Failed { cause: format!("Gemini API error (400): no {}", index) },
            |_| 0,
        );
        assert!(most <= 2);
        assert_eq!(started.len(), n);
        assert_eq!(run.next_action(), SchedulerAction::Finished);
        let summary = run.summary();
        assert_eq!(summary.succeeded, 0);
        assert_eq!(summary.skipped, 0);
        assert_eq!(summary.total_artifacts, 0);
        assert_eq!(summary.failed.len(), n);
        for (index, failed) in summary.failed.iter().enumerate() {
            assert_eq!(failed.identity, format!("job{}", index));
            assert_eq!(failed.cause, format!("Gemini API error (400): no {}", index));
        }
    }
}

#[test]
fn every_mix_of_outcomes_adds_up() {
    let n = 9;
    let mut run = run_of(n, 4, 1);
    let (_, slept, _) = drive(
        &mut run,
        |index| match index % 3 {
            0 => JobReport::Succeeded { artifacts: index },
            1 => JobReport::Skipped,
            _ => JobReport::Failed { cause: format!("cause {}", index) },
        },
        |running| running.len() / 2,
    );
    assert_eq!(slept, 8);
    let summary = run.summary();
    assert_eq!(summary.succeeded, 3);
    assert_eq!(summary.skipped, 3);
    assert_eq!(summary.failed.len(), 3);
    assert_eq!(summary.total_artifacts, 0 + 3 + 6);
    assert_eq!(summary.failed[2].cause, "cause 8");
}
