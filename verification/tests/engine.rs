use std::collections::{HashMap, HashSet};
use transcript_tool::batch::{BatchConfig, BatchRun, JobEntry, JobReport, SchedulerAction};
use transcript_tool::batch_convert::{
    progress_message, AudioTest, FileAction, FileJob, FileJobOptions, FileParts, FilePhase,
    ProgressEvent, Verdict,
};
use transcript_tool::convert::OutputFormat;
use transcript_tool::file_api::{Elapsed, UploadAction, UploadSession};
use transcript_tool::remote::ReplyFailure;
use transcript_tool::retry::{CallStep, RetryContext};
use transcript_tool::{FileApiError, FileInfo, GeminiError, MAX_INLINE_FILE_SIZE};

/// What the pretended service and disk do for one file.
#[derive(Default, Clone)]
struct Script {
    audio_size: u64,
    unreadable: bool,
    extraction_fails: bool,
    /// The states that the looks at the uploaded file report, after a
    /// transfer that reports `PROCESSING`.
    upload_reports: Vec<&'static str>,
    upload_start_fails: bool,
    /// The failures of the transcription before it succeeds.
    transcription_failures: Vec<&'static str>,
    segments: usize,
    write_fails: bool,
    delete_fails: bool,
}

#[derive(Default)]
struct Log {
    remote_calls: HashMap<String, usize>,
    transcription_attempts: HashMap<String, usize>,
    status_fetches: HashMap<String, usize>,
    deleted: Vec<String>,
    removed_audio: Vec<String>,
    extracted: Vec<String>,
    slept: u64,
    events: Vec<String>,
}

fn failure(kind: &str) -> ReplyFailure {
    match kind {
        "rate" => ReplyFailure::RateLimited,
        "network" => ReplyFailure::Network("connection reset".to_string()),
        "server" => ReplyFailure::Api { status: 503, message: "unavailable".to_string() },
        _ => ReplyFailure::Api { status: 400, message: "bad request".to_string() },
    }
}

fn upload(script: &Script, input: &str, log: &mut Log) -> Result<FileInfo, FileApiError> {
    let info = |state: &str| FileInfo {
        name: format!("files/{}", input),
        uri: format!("https://files.example/{}", input),
        mime_type: "audio/mpeg".to_string(),
        size_bytes: script.audio_size.to_string(),
        state: state.to_string(),
        display_name: None,
    };
    let mut session = UploadSession::new();
    let mut reports = script.upload_reports.iter();
    let mut clock = 0;
    loop {
        match session.next_action() {
            UploadAction::StartUpload => {
                if script.upload_start_fails {
                    session.on_start(Err(FileApiError::MissingUploadUrl));
                } else {
                    session.on_start(Ok("https://upload.example/1".to_string()));
                }
            }
            UploadAction::TransferBytes => session.on_transfer(Ok(info("PROCESSING"))),
            UploadAction::FetchStatus { after_secs } => {
                clock += after_secs;
                *log.status_fetches.entry(input.to_string()).or_default() += 1;
                let state = reports.next().copied().unwrap_or("PROCESSING");
                session.on_status(Ok(info(state)), Elapsed { secs: clock, nanos: 0 });
            }
            UploadAction::Finish => return session.into_result(),
        }
    }
}

fn transcribe(
    script: &Script,
    input: &str,
    max_attempts: u32,
    log: &mut Log,
) -> Result<usize, GeminiError> {
    let mut retry: RetryContext<ReplyFailure> = RetryContext::new(max_attempts);
    if let Some(refusal) = retry.start() {
        return Err(GeminiError::from_failure(refusal));
    }
    let mut failures = script.transcription_failures.iter();
    loop {
        *log.transcription_attempts.entry(input.to_string()).or_default() += 1;
        let attempt = match failures.next() {
            Some(kind) => Err(failure(kind)),
            None => Ok(script.segments),
        };
        match retry.on_result(attempt) {
            CallStep::Finish(result) => return result.map_err(GeminiError::from_failure),
            CallStep::Retry { delay_secs, .. } => log.slept += delay_secs,
        }
    }
}

/// Runs the job of one file to its end against the script.
fn work(
    input: &str,
    options: FileJobOptions,
    script: &Script,
    existing: &HashSet<String>,
    max_attempts: u32,
    log: &mut Log,
) -> JobReport {
    let mut job = FileJob::new(input, options);
    let mut remote = 0;
    loop {
        match job.next_action() {
            FileAction::CheckOutput => {
                let exists = existing.contains(&job.output_path);
                if exists {
                    log.events.push(progress_message(input, ProgressEvent::Skipped));
                } else {
                    log.events.push(progress_message(input, ProgressEvent::Started));
                }
                job.on_output_checked(exists);
            }
            FileAction::ExtractAudio => {
                log.extracted.push(job.audio_path.clone());
                if script.extraction_fails {
                    job.on_audio_extracted(Err("ffmpeg failed: no such codec".to_string()));
                } else {
                    job.on_audio_extracted(Ok(()));
                }
            }
            FileAction::ReadAudio => {
                job.on_audio_read(if script.unreadable { None } else { Some(script.audio_size) })
            }
            FileAction::Upload => {
                remote += 1;
                let result = upload(script, input, log);
                job.on_uploaded(result);
            }
            FileAction::TranscribeInline | FileAction::TranscribeFile => {
                remote += 1;
                let result = transcribe(script, input, max_attempts, log);
                job.on_transcribed(result);
            }
            FileAction::WriteOutput => job.on_output_written(!script.write_fails),
            FileAction::DeleteRemote => {
                remote += 1;
                log.deleted.push(job.uploaded.as_ref().unwrap().name.clone());
                job.on_remote_deleted(!script.delete_fails);
            }
            FileAction::RemoveAudio => {
                log.removed_audio.push(job.audio_path.clone());
                job.on_audio_removed();
            }
            FileAction::Finish => break,
        }
    }
    assert_eq!(job.phase, FilePhase::Done);
    assert_eq!(job.remote_calls as usize, remote);
    log.remote_calls.insert(input.to_string(), remote);
    match &job.verdict {
        Some(Verdict::Succeeded(segments)) => {
            log.events.push(progress_message(input, ProgressEvent::Succeeded { segments: *segments }))
        }
        Some(Verdict::Failed(_)) => log.events.push(progress_message(input, ProgressEvent::Failed)),
        _ => {}
    }
    job.report()
}

fn options() -> FileJobOptions {
    FileJobOptions {
        format: OutputFormat::Json,
        keep_audio: false,
        force_file_api: false,
        keep_remote_file: false,
    }
}

/// Runs a batch of files to its summary, and returns the most jobs that
/// ran at once.
fn run_batch(
    inputs: &[&str],
    scripts: &HashMap<&str, Script>,
    existing: &HashSet<String>,
    config: BatchConfig,
    options: FileJobOptions,
    log: &mut Log,
) -> (BatchRun, usize) {
    let mut run = BatchRun::new(config);
    for input in inputs {
        run.submit(JobEntry {
            identity: input.to_string(),
            destination: FileJob::new(input, options).output_path,
        });
    }
    let mut running: Vec<usize> = vec![];
    let mut most = 0;
    loop {
        most = most.max(running.len());
        match run.next_action() {
            SchedulerAction::Start(_) => running.push(run.start_next()),
            SchedulerAction::Sleep(secs) => {
                log.slept += secs;
                run.delay_elapsed();
            }
            SchedulerAction::AwaitCompletion => {
                let index = running.remove(0);
                let input = inputs[index];
                let script = scripts.get(input).cloned().unwrap_or(Script {
                    audio_size: 1000,
                    segments: 3,
                    ..Script::default()
                });
                let report = work(input, options, &script, existing, config.max_attempts, log);
                run.complete(index, report);
            }
            SchedulerAction::Finished => return (run, most),
        }
    }
}

fn batch_config(concurrency: usize) -> BatchConfig {
    BatchConfig { concurrency, start_delay_secs: 0, max_attempts: 3, per_call_timeout_secs: 600 }
}

#[test]
fn five_jobs_with_one_upload_and_one_retried_call_all_succeed() {
    let inputs = ["a.mp3", "big.mp3", "flaky.mp3", "d.mp3", "e.mp3"];
    let mut scripts = HashMap::new();
    scripts.insert(
        "big.mp3",
        Script {
            audio_size: MAX_INLINE_FILE_SIZE + 1,
            upload_reports: vec!["ACTIVE"],
            segments: 10,
            ..Script::default()
        },
    );
    scripts.insert(
        "flaky.mp3",
        Script {
            audio_size: 1000,
            transcription_failures: vec!["server", "network"],
            segments: 4,
            ..Script::default()
        },
    );
    let mut log = Log::default();
    let (run, most) =
        run_batch(&inputs, &scripts, &HashSet::new(), batch_config(2), options(), &mut log);
    let summary = run.summary();
    assert_eq!(summary.succeeded, 5);
    assert_eq!(summary.skipped, 0);
    assert_eq!(summary.failed.len(), 0);
    assert_eq!(summary.total_artifacts, 3 + 10 + 4 + 3 + 3);
    assert!(most <= 2);
    assert_eq!(log.transcription_attempts["flaky.mp3"], 3);
    assert_eq!(log.transcription_attempts["big.mp3"], 1);
    assert_eq!(log.status_fetches["big.mp3"], 1);
    assert_eq!(log.status_fetches.len(), 1);
    assert_eq!(log.deleted, vec!["files/big.mp3"]);
    // One second, then two, between the attempts of the retried call.
    assert_eq!(log.slept, 3);
    // Upload, transcription and deletion for the large file; one call for the others.
    assert_eq!(log.remote_calls["big.mp3"], 3);
    assert_eq!(log.remote_calls["a.mp3"], 1);
    assert!(log.events.contains(&"  Starting: a.mp3".to_string()));
    assert!(log.events.contains(&"  Done: big.mp3 (10 segments)".to_string()));
}

#[test]
fn a_job_whose_destination_exists_is_skipped_without_a_remote_call() {
    let inputs = ["1.mp3", "2.mp3", "3.mp3", "4.mp3", "5.mp3"];
    let existing: HashSet<String> = ["3.json".to_string()].into_iter().collect();
    let mut log = Log::default();
    let (run, _) =
        run_batch(&inputs, &HashMap::new(), &existing, batch_config(2), options(), &mut log);
    let summary = run.summary();
    assert_eq!(summary.skipped, 1);
    assert_eq!(summary.succeeded, 4);
    assert_eq!(summary.failed.len(), 0);
    assert_eq!(log.remote_calls["3.mp3"], 0);
    assert!(!log.transcription_attempts.contains_key("3.mp3"));
    assert_eq!(log.transcription_attempts.len(), 4);
    assert_eq!(summary.total_artifacts, 12);
    assert!(log.events.contains(&"  Skipped: 3.mp3 (transcript already exists)".to_string()));
    assert!(!log.events.contains(&"  Starting: 3.mp3".to_string()));
}

#[test]
fn should_skip_follows_the_destination() {
    assert!(FileJob::should_skip(true));
    assert!(!FileJob::should_skip(false));
    let mut job = FileJob::new("talk.mp3", options());
    assert_eq!(job.output_path, "talk.json");
    assert_eq!(job.next_action(), FileAction::CheckOutput);
    job.on_output_checked(true);
    assert_eq!(job.next_action(), FileAction::Finish);
    assert_eq!(job.remote_calls, 0);
    assert!(matches!(job.report(), JobReport::Skipped));
    let result = job.into_result();
    assert!(result.success && result.skipped);
    assert_eq!(result.path, "talk.mp3");
    assert_eq!(result.segments, 0);
    assert!(result.error.is_none());

    let mut job = FileJob::new("talk.mp3", options());
    job.on_output_checked(false);
    assert_eq!(job.next_action(), FileAction::ReadAudio);
}

#[test]
fn a_rerun_attempts_only_the_jobs_without_output() {
    let inputs = ["1.mp3", "2.mp3", "3.mp3"];
    let mut scripts = HashMap::new();
    scripts.insert(
        "2.mp3",
        Script { audio_size: 10, transcription_failures: vec!["fatal"], ..Script::default() },
    );
    let mut log = Log::default();
    let (run, _) =
        run_batch(&inputs, &scripts, &HashSet::new(), batch_config(1), options(), &mut log);
    let summary = run.summary();
    assert_eq!((summary.succeeded, summary.skipped, summary.failed.len()), (2, 0, 1));
    assert_eq!(summary.failed[0].identity, "2.mp3");
    assert_eq!(
        summary.failed[0].cause,
        "Transcription failed: Gemini API error (400): bad request"
    );
    // The two transcripts that were written are there at the second run.
    let existing: HashSet<String> = ["1.json".to_string(), "3.json".to_string()].into_iter().collect();
    let mut log = Log::default();
    let (run, _) =
        run_batch(&inputs, &HashMap::new(), &existing, batch_config(1), options(), &mut log);
    let summary = run.summary();
    assert_eq!((summary.succeeded, summary.skipped, summary.failed.len()), (1, 2, 0));
    assert_eq!(log.transcription_attempts.len(), 1);
    assert_eq!(log.transcription_attempts["2.mp3"], 1);
}

#[test]
fn transient_failures_beyond_the_attempts_fail_the_job_only() {
    let inputs = ["a.mp3", "b.mp3", "c.mp3"];
    let mut scripts = HashMap::new();
    scripts.insert(
        "b.mp3",
        Script {
            audio_size: 10,
            transcription_failures: vec!["rate", "rate", "rate", "rate"],
            ..Script::default()
        },
    );
    let mut log = Log::default();
    let (run, _) =
        run_batch(&inputs, &scripts, &HashSet::new(), batch_config(3), options(), &mut log);
    let summary = run.summary();
    assert_eq!((summary.succeeded, summary.skipped, summary.failed.len()), (2, 0, 1));
    assert_eq!(log.transcription_attempts["b.mp3"], 3);
    assert_eq!(log.slept, 30 + 60);
    assert_eq!(
        summary.failed[0].cause,
        "Transcription failed: Rate limited by API. Retry after some time."
    );
}

#[test]
fn an_upload_that_times_out_fails_its_job_with_its_own_reason() {
    let inputs = ["big.mp3", "small.mp3"];
    let mut scripts = HashMap::new();
    scripts.insert(
        "big.mp3",
        Script { audio_size: MAX_INLINE_FILE_SIZE + 1, ..Script::default() },
    );
    let mut log = Log::default();
    let (run, _) =
        run_batch(&inputs, &scripts, &HashSet::new(), batch_config(2), options(), &mut log);
    let summary = run.summary();
    assert_eq!((summary.succeeded, summary.skipped, summary.failed.len()), (1, 0, 1));
    assert_eq!(
        summary.failed[0].cause,
        "File upload failed: File processing timeout after 300 seconds"
    );
    assert_eq!(log.status_fetches["big.mp3"], 152);
    assert!(!log.transcription_attempts.contains_key("big.mp3"));
    assert!(log.deleted.is_empty());
}

#[test]
fn a_video_is_extracted_first_and_its_audio_removed_afterwards() {
    let mut log = Log::default();
    let script = Script { audio_size: 500, segments: 2, ..Script::default() };
    let report = work("clip.mp4", options(), &script, &HashSet::new(), 3, &mut log);
    assert!(matches!(report, JobReport::Succeeded { artifacts: 2 }));
    assert_eq!(log.extracted, vec!["clip.mp3"]);
    assert_eq!(log.removed_audio, vec!["clip.mp3"]);

    let mut log = Log::default();
    let keep = FileJobOptions { keep_audio: true, ..options() };
    work("clip.mp4", keep, &script, &HashSet::new(), 3, &mut log);
    assert_eq!(log.extracted, vec!["clip.mp3"]);
    assert!(log.removed_audio.is_empty());

    let mut log = Log::default();
    work("talk.wav", options(), &script, &HashSet::new(), 3, &mut log);
    assert!(log.extracted.is_empty());
    assert!(log.removed_audio.is_empty());
}

#[test]
fn cleanup_follows_failure_as_it_follows_success() {
    // The transcription fails after the upload: the uploaded file is
    // deleted all the same, and the extracted audio removed.
    let script = Script {
        audio_size: MAX_INLINE_FILE_SIZE + 1,
        upload_reports: vec!["PROCESSING", "ACTIVE"],
        transcription_failures: vec!["fatal"],
        ..Script::default()
    };
    let mut log = Log::default();
    let report = work("clip.mkv", options(), &script, &HashSet::new(), 3, &mut log);
    assert!(matches!(
        report,
        JobReport::Failed { cause } if cause == "Transcription failed: Gemini API error (400): bad request"
    ));
    assert_eq!(log.deleted, vec!["files/clip.mkv"]);
    assert_eq!(log.removed_audio, vec!["clip.mp3"]);
    assert_eq!(log.status_fetches["clip.mkv"], 2);

    // The transcript cannot be written.
    let script = Script {
        audio_size: MAX_INLINE_FILE_SIZE + 1,
        upload_reports: vec!["ACTIVE"],
        write_fails: true,
        ..Script::default()
    };
    let mut log = Log::default();
    let report = work("clip.mkv", options(), &script, &HashSet::new(), 3, &mut log);
    assert!(matches!(report, JobReport::Failed { cause } if cause == "Failed to write output file"));
    assert_eq!(log.deleted, vec!["files/clip.mkv"]);
    assert_eq!(log.removed_audio, vec!["clip.mp3"]);
}

#[test]
fn a_failed_deletion_does_not_fail_the_job() {
    let script = Script {
        audio_size: MAX_INLINE_FILE_SIZE + 1,
        upload_reports: vec!["ACTIVE"],
        segments: 8,
        delete_fails: true,
        ..Script::default()
    };
    let mut log = Log::default();
    let report = work("talk.mp3", options(), &script, &HashSet::new(), 3, &mut log);
    assert!(matches!(report, JobReport::Succeeded { artifacts: 8 }));
    assert_eq!(log.deleted, vec!["files/talk.mp3"]);
}

#[test]
fn the_uploaded_file_is_kept_where_the_options_say_so() {
    let script = Script {
        audio_size: 10,
        upload_reports: vec!["ACTIVE"],
        segments: 1,
        ..Script::default()
    };
    let kept = FileJobOptions { keep_remote_file: true, force_file_api: true, ..options() };
    let mut log = Log::default();
    let report = work("talk.mp3", kept, &script, &HashSet::new(), 3, &mut log);
    assert!(matches!(report, JobReport::Succeeded { artifacts: 1 }));
    assert!(log.deleted.is_empty());
    // The upload was forced although the audio is small.
    assert_eq!(log.status_fetches["talk.mp3"], 1);
    assert_eq!(log.remote_calls["talk.mp3"], 2);
}

#[test]
fn failures_before_any_remote_call() {
    let mut log = Log::default();
    let script = Script { extraction_fails: true, ..Script::default() };
    let report = work("clip.avi", options(), &script, &HashSet::new(), 3, &mut log);
    assert!(matches!(report, JobReport::Failed { cause } if cause == "ffmpeg failed: no such codec"));
    assert_eq!(log.remote_calls["clip.avi"], 0);
    assert!(log.removed_audio.is_empty());

    let mut log = Log::default();
    let script = Script { unreadable: true, ..Script::default() };
    let report = work("clip.avi", options(), &script, &HashSet::new(), 3, &mut log);
    assert!(matches!(report, JobReport::Failed { cause } if cause == "Failed to read audio file"));
    assert_eq!(log.remote_calls["clip.avi"], 0);
    assert_eq!(log.removed_audio, vec!["clip.mp3"]);

    let mut log = Log::default();
    let script = Script {
        audio_size: MAX_INLINE_FILE_SIZE + 1,
        upload_start_fails: true,
        ..Script::default()
    };
    let report = work("talk.flac", options(), &script, &HashSet::new(), 3, &mut log);
    assert!(matches!(
        report,
        JobReport::Failed { cause } if cause == "File upload failed: Missing upload URL in response headers"
    ));
    assert!(log.deleted.is_empty());
}

#[test]
fn the_job_of_a_file_knows_its_paths_and_names() {
    let job = FileJob::new("dir/Talk.MP4", FileJobOptions { format: OutputFormat::Srt, ..options() });
    assert_eq!(job.input, "dir/Talk.MP4");
    assert_eq!(job.output_path, "dir/Talk.srt");
    assert_eq!(job.audio_path, "dir/Talk.mp3");
    assert_eq!(job.display_name, "Talk.mp3");
    assert_eq!(job.mime_type, "audio/mpeg");
    assert!(job.needs_extraction);
    let job = FileJob::new("dir/talk.ogg", FileJobOptions { format: OutputFormat::Txt, ..options() });
    assert_eq!(job.output_path, "dir/talk.txt");
    assert_eq!(job.audio_path, "dir/talk.ogg");
    assert_eq!(job.display_name, "talk.ogg");
    assert_eq!(job.mime_type, "audio/ogg");
    assert!(!job.needs_extraction);
    // In a batch a webm file counts as video.
    assert!(FileJob::new("a.webm", options()).needs_extraction);
}

#[test]
fn the_transcript_can_be_sent_elsewhere() {
    let job = FileJob::new("dir/talk.mp3", options()).with_output_path("out/t.json".to_string());
    assert_eq!(job.output_path, "out/t.json");
    assert_eq!(job.input, "dir/talk.mp3");
    assert_eq!(job.audio_path, "dir/talk.mp3");
    assert_eq!(job.next_action(), FileAction::CheckOutput);
}

fn parts(extension: Option<&str>) -> FileParts {
    FileParts {
        input_name: Some("In.Name".to_string()),
        input_extension: extension.map(|e| e.to_string()),
        extracted_audio: "extracted/path.ogg".to_string(),
        extracted_name: None,
        extracted_extension: Some("OGG".to_string()),
        output_path: "some/where.txt".to_string(),
    }
}

#[test]
fn a_job_is_put_together_from_what_the_paths_tell() {
    let job = FileJob::from_parts("in/put", options(), AudioTest::Batch, parts(Some("WAV")));
    assert_eq!(job.input, "in/put");
    assert_eq!(job.output_path, "some/where.txt");
    assert!(!job.needs_extraction);
    assert_eq!(job.audio_path, "in/put");
    assert_eq!(job.display_name, "In.Name");
    assert_eq!(job.mime_type, "audio/wav");
    assert_eq!(job.phase, FilePhase::CheckingOutput);
    assert_eq!(job.remote_calls, 0);
    assert!(job.verdict.is_none() && job.uploaded.is_none() && !job.temp_audio);

    for extension in [Some("mp4"), Some("webm"), Some(""), None] {
        let job = FileJob::from_parts("in/put", options(), AudioTest::Batch, parts(extension));
        assert!(job.needs_extraction);
        assert_eq!(job.audio_path, "extracted/path.ogg");
        assert_eq!(job.display_name, "audio");
        assert_eq!(job.mime_type, "audio/ogg");
        assert_eq!(job.output_path, "some/where.txt");
    }
}

#[test]
fn a_single_file_takes_webm_for_audio() {
    let single = FileJob::from_parts("a", options(), AudioTest::SingleFile, parts(Some("WebM")));
    assert!(!single.needs_extraction);
    assert_eq!(single.audio_path, "a");
    assert_eq!(single.mime_type, "audio/webm");
    let batch = FileJob::from_parts("a", options(), AudioTest::Batch, parts(Some("WebM")));
    assert!(batch.needs_extraction);

    let single = FileJob::for_single_file("dir/clip.webm", options());
    assert!(!single.needs_extraction);
    assert_eq!(single.audio_path, "dir/clip.webm");
    assert_eq!(single.output_path, "dir/clip.json");
    assert_eq!(single.mime_type, "audio/webm");
    assert_eq!(single.display_name, "clip.webm");
    let single = FileJob::for_single_file("dir/clip.mp4", options());
    assert!(single.needs_extraction);
    assert_eq!(single.audio_path, "dir/clip.mp3");
    assert_eq!(single.display_name, "clip.mp3");
    assert!(!FileJob::for_single_file("dir/talk.MP3", options()).needs_extraction);
}

#[test]
fn a_job_tells_when_it_starts_and_how_it_ends() {
    let mut job = FileJob::new("talk.mp3", options());
    assert_eq!(job.progress_event(), None);
    job.on_output_checked(false);
    assert_eq!(job.progress_event(), Some(ProgressEvent::Started));
    job.on_audio_read(Some(10));
    assert_eq!(job.progress_event(), None);
    job.on_transcribed(Ok(4));
    assert_eq!(job.progress_event(), None);
    job.on_output_written(true);
    assert_eq!(job.progress_event(), Some(ProgressEvent::Succeeded { segments: 4 }));

    let mut job = FileJob::new("clip.mp4", options());
    job.on_output_checked(false);
    assert_eq!(job.progress_event(), Some(ProgressEvent::Started));
    job.on_audio_extracted(Ok(()));
    assert_eq!(job.progress_event(), None);
    job.on_audio_read(None);
    // The extracted audio is still to be removed.
    assert_eq!(job.next_action(), FileAction::RemoveAudio);
    assert_eq!(job.progress_event(), None);
    job.on_audio_removed();
    assert_eq!(job.progress_event(), Some(ProgressEvent::Failed));

    let mut job = FileJob::new("talk.mp3", options());
    job.on_output_checked(true);
    assert_eq!(job.progress_event(), Some(ProgressEvent::Skipped));
}

#[test]
fn progress_lines() {
    assert_eq!(progress_message("a.mp3", ProgressEvent::Started), "  Starting: a.mp3");
    assert_eq!(
        progress_message("a.mp3", ProgressEvent::Skipped),
        "  Skipped: a.mp3 (transcript already exists)"
    );
    assert_eq!(
        progress_message("a.mp3", ProgressEvent::Succeeded { segments: 12 }),
        "  Done: a.mp3 (12 segments)"
    );
    assert_eq!(progress_message("a.mp3", ProgressEvent::Failed), "  Failed: a.mp3");
}
