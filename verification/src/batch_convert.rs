//! Batch transcription of media files: which files count as media, and
//! the life of one file's job from the check of its destination to the
//! last cleanup.

use crate::batch::JobReport;
use crate::convert::{get_output_extension, lemma_output_extension_is_plain, OutputFormat};
use crate::file_api::{FileApiError, FileInfo};
use crate::gemini_api::{
    audio_mime_type, mime_type_for_extension, GeminiError, MAX_INLINE_FILE_SIZE,
};
use crate::text::{
    as_found, concat, decimal, found_text, lowercase, lowered, no_separator, owned_text,
    path_extension, path_file_name, path_with_extension, str_eq, to_lowercase, u64_to_string,
};
use vstd::prelude::*;
use vstd::string::*;

verus! {

/// Whether a lower-case extension is that of a video file.
pub open spec fn video_extension(e: Seq<char>) -> bool {
    e == "mp4"@ || e == "mkv"@ || e == "avi"@ || e == "mov"@ || e == "webm"@ || e == "flv"@ || e
        == "wmv"@ || e == "m4v"@
}

/// Whether a lower-case extension is that of an audio file.
pub open spec fn audio_extension(e: Seq<char>) -> bool {
    e == "mp3"@ || e == "wav"@ || e == "ogg"@ || e == "flac"@ || e == "m4a"@ || e == "aac"@ || e
        == "wma"@
}

/// Whether a file is an audio file, going by the extension that was
/// found in its name: it is when there is one that, in lower case, is an
/// audio extension.
pub open spec fn audio_found(found: Option<Seq<char>>) -> bool {
    found matches Some(e) && audio_extension(lowercase(e))
}

/// Whether a file is a video or an audio file, going by the extension
/// that was found in its name: it is when there is one that, in lower
/// case, is a video or an audio extension.
pub open spec fn media_found(found: Option<Seq<char>>) -> bool {
    found matches Some(e) && (video_extension(lowercase(e)) || audio_extension(lowercase(e)))
}

/// Whether a file with the given extension, in any letter case, is an
/// audio file. A file without extension is not.
pub fn is_audio_extension(extension: Option<&str>) -> (r: bool)
    ensures
        r == audio_found(found_text(extension)),
{
    match extension {
        None => false,
        Some(extension) => {
            let lower = to_lowercase(extension);
            let e = lower.as_str();
            str_eq(e, "mp3") || str_eq(e, "wav") || str_eq(e, "ogg") || str_eq(e, "flac")
                || str_eq(e, "m4a") || str_eq(e, "aac") || str_eq(e, "wma")
        },
    }
}

/// Whether a file with the given extension, in any letter case, is a
/// video or an audio file. A file without extension is neither.
pub fn is_media_extension(extension: Option<&str>) -> (r: bool)
    ensures
        r == media_found(found_text(extension)),
{
    match extension {
        None => false,
        Some(extension) => {
            let lower = to_lowercase(extension);
            let e = lower.as_str();
            str_eq(e, "mp4") || str_eq(e, "mkv") || str_eq(e, "avi") || str_eq(e, "mov")
                || str_eq(e, "webm") || str_eq(e, "flv") || str_eq(e, "wmv") || str_eq(e, "m4v")
                || str_eq(e, "mp3") || str_eq(e, "wav") || str_eq(e, "ogg") || str_eq(e, "flac")
                || str_eq(e, "m4a") || str_eq(e, "aac") || str_eq(e, "wma")
        },
    }
}

/// Whether the file at `path` is a video or an audio file, by the
/// extension of its file name. A file without extension is neither.
pub fn is_media_file(path: &str) -> (r: bool)
    ensures
        exists|found: Option<Seq<char>>| r == media_found(found),
        r ==> exists|extension: Seq<char>|
            video_extension(lowercase(extension)) || audio_extension(lowercase(extension)),
{
    match path_extension(path) {
        Some(extension) => {
            let r = is_media_extension(Some(extension.as_str()));
            assert(r == media_found(Some(extension@)));
            assert(r ==> video_extension(lowercase(extension@)) || audio_extension(
                lowercase(extension@),
            ));
            r
        },
        None => {
            let r = is_media_extension(None);
            assert(r == media_found(None));
            r
        },
    }
}

/// Whether the file at `path` is an audio file, by the extension of its
/// file name. A file without extension is not.
pub fn is_audio_file(path: &str) -> (r: bool)
    ensures
        exists|found: Option<Seq<char>>| r == audio_found(found),
        r ==> exists|extension: Seq<char>| audio_extension(lowercase(extension)),
{
    match path_extension(path) {
        Some(extension) => {
            let r = is_audio_extension(Some(extension.as_str()));
            assert(r == audio_found(Some(extension@)));
            assert(r ==> audio_extension(lowercase(extension@)));
            r
        },
        None => {
            let r = is_audio_extension(None);
            assert(r == audio_found(None));
            r
        },
    }
}

/// What became of one file of a batch.
#[derive(Debug)]
pub struct ProcessResult {
    pub path: String,
    pub success: bool,
    pub skipped: bool,
    pub error: Option<String>,
    pub segments: usize,
}

/// How the files of a batch are treated.
#[derive(Debug, Clone, Copy)]
pub struct FileJobOptions {
    pub format: OutputFormat,
    /// Keep the audio that was extracted from a video.
    pub keep_audio: bool,
    /// Upload even a payload that could travel inline.
    pub force_file_api: bool,
    /// Keep the uploaded file on the service after the transcription.
    pub keep_remote_file: bool,
}

/// How the job of one file ended.
#[derive(Debug)]
pub enum Verdict {
    /// The transcript was there already.
    Skipped,
    /// The transcript was written; it has this many segments.
    Succeeded(usize),
    /// The job failed, for this reason.
    Failed(String),
}

/// Where the job of one file stands.
#[derive(Debug, Clone, Copy, PartialEq, Eq, Structural)]
pub enum FilePhase {
    CheckingOutput,
    ExtractingAudio,
    ReadingAudio,
    Uploading,
    Transcribing,
    WritingOutput,
    ReleasingUpload,
    RemovingAudio,
    Done,
}

/// What the worker of a file does next. It reports back through the
/// method of [`FileJob`] that is named with each action.
#[derive(Debug, Clone, Copy, PartialEq, Eq, Structural)]
pub enum FileAction {
    /// Look whether `output_path` exists: `on_output_checked`.
    CheckOutput,
    /// Extract the audio of `input` to `audio_path`: `on_audio_extracted`.
    ExtractAudio,
    /// Read `audio_path`: `on_audio_read`.
    ReadAudio,
    /// Upload the audio as a file: `on_uploaded`.
    Upload,
    /// Transcribe the audio inline: `on_transcribed`.
    TranscribeInline,
    /// Transcribe the uploaded file: `on_transcribed`.
    TranscribeFile,
    /// Write the transcript to `output_path`: `on_output_written`.
    WriteOutput,
    /// Delete the uploaded file: `on_remote_deleted`.
    DeleteRemote,
    /// Remove the extracted audio: `on_audio_removed`.
    RemoveAudio,
    /// Nothing: the job has ended. Take the report.
    Finish,
}

/// Which files count as audio that is sent as it is.
#[derive(Debug, Clone, Copy, PartialEq, Eq, Structural)]
pub enum AudioTest {
    /// The test of a batch: [`audio_extension`].
    Batch,
    /// The test for a single file: [`crate::convert::audio_extension`],
    /// which takes `webm` for audio too.
    SingleFile,
}

/// What the platform's path functions tell of a media file.
#[derive(Debug)]
pub struct FileParts {
    /// The file name of the input, if it has one.
    pub input_name: Option<String>,
    /// The extension of the input, if it has one.
    pub input_extension: Option<String>,
    /// The input with the extension `mp3`: where its audio is extracted
    /// to.
    pub extracted_audio: String,
    /// The file name of the extracted audio, if it has one.
    pub extracted_name: Option<String>,
    /// The extension of the extracted audio, if it has one.
    pub extracted_extension: Option<String>,
    /// The input with the extension of the output format: where the
    /// transcript goes.
    pub output_path: String,
}

/// The job of one file.
#[derive(Debug)]
pub struct FileJob {
    /// The media file.
    pub input: String,
    /// Where the transcript goes.
    pub output_path: String,
    /// The audio that is sent: the input itself, or what is extracted
    /// from it.
    pub audio_path: String,
    /// The content type of the audio.
    pub mime_type: String,
    /// The name under which the audio is uploaded.
    pub display_name: String,
    /// Whether the input is a video, whose audio has to be extracted.
    pub needs_extraction: bool,
    pub options: FileJobOptions,
    pub phase: FilePhase,
    /// The size of the audio, once it has been read.
    pub audio_size: u64,
    /// The uploaded file, once there is one.
    pub uploaded: Option<FileInfo>,
    /// Whether the extracted audio exists.
    pub temp_audio: bool,
    /// Whether the deletion of the uploaded file has been tried.
    pub release_tried: bool,
    /// Whether the removal of the extracted audio has been tried.
    pub removal_tried: bool,
    /// The segments of the transcript, once there is one.
    pub segments: usize,
    pub verdict: Option<Verdict>,
    /// How many remote operations the job has performed.
    pub remote_calls: u8,
}

impl FileJob {
    /// Whether the audio goes through the file service: where that is
    /// forced, and where the audio is too large to travel inline.
    pub open spec fn uses_file_api(&self) -> bool {
        self.options.force_file_api || self.audio_size > MAX_INLINE_FILE_SIZE
    }

    /// Whether the uploaded file is still to be deleted.
    pub open spec fn release_due(&self) -> bool {
        self.uploaded is Some && !self.options.keep_remote_file && !self.release_tried
    }

    /// Whether the extracted audio is still to be removed.
    pub open spec fn removal_due(&self) -> bool {
        self.temp_audio && !self.options.keep_audio && !self.removal_tried
    }

    /// The phase in which a job with a verdict is: the cleanup that is
    /// due, the uploaded file first, or the end.
    pub open spec fn closing_phase(&self) -> FilePhase {
        if self.release_due() {
            FilePhase::ReleasingUpload
        } else if self.removal_due() {
            FilePhase::RemovingAudio
        } else {
            FilePhase::Done
        }
    }

    /// The bookkeeping of a job fits its phase: a job has a verdict from
    /// the moment on at which only cleanup is left, and is then in the
    /// phase of the cleanup that is due; a skipped job has touched nothing;
    /// there is an uploaded file only once the upload is over, and
    /// extracted audio only for an input that needs extraction.
    pub open spec fn wf(&self) -> bool {
        &&& self.remote_calls <= 3
        &&& self.verdict is Some <==> (self.phase == FilePhase::ReleasingUpload || self.phase
            == FilePhase::RemovingAudio || self.phase == FilePhase::Done)
        &&& self.verdict is Some ==> self.phase == self.closing_phase()
        &&& self.verdict matches Some(Verdict::Skipped) ==> self.remote_calls == 0
            && self.uploaded is None && !self.temp_audio
        &&& self.temp_audio ==> self.needs_extraction
        &&& !self.release_tried ==> self.remote_calls <= 2
        &&& match self.phase {
            FilePhase::CheckingOutput | FilePhase::ExtractingAudio => self.uploaded is None
                && !self.temp_audio && self.remote_calls == 0 && !self.release_tried
                && !self.removal_tried,
            FilePhase::ReadingAudio | FilePhase::Uploading => self.uploaded is None
                && self.remote_calls == 0 && !self.release_tried && !self.removal_tried,
            FilePhase::Transcribing => self.remote_calls <= 1 && !self.release_tried
                && !self.removal_tried && (self.uploaded is Some <==> self.uses_file_api()),
            FilePhase::WritingOutput => !self.release_tried && !self.removal_tried,
            _ => true,
        }
        &&& self.phase == FilePhase::ExtractingAudio ==> self.needs_extraction
        &&& self.phase == FilePhase::Uploading ==> self.uses_file_api()
    }

    /// What is to be done in a given state.
    pub open spec fn action(&self) -> FileAction {
        match self.phase {
            FilePhase::CheckingOutput => FileAction::CheckOutput,
            FilePhase::ExtractingAudio => FileAction::ExtractAudio,
            FilePhase::ReadingAudio => FileAction::ReadAudio,
            FilePhase::Uploading => FileAction::Upload,
            FilePhase::Transcribing => if self.uploaded is Some {
                FileAction::TranscribeFile
            } else {
                FileAction::TranscribeInline
            },
            FilePhase::WritingOutput => FileAction::WriteOutput,
            FilePhase::ReleasingUpload => FileAction::DeleteRemote,
            FilePhase::RemovingAudio => FileAction::RemoveAudio,
            FilePhase::Done => FileAction::Finish,
        }
    }

    /// Whether the input is audio that is sent as it is, by the test that
    /// applies and the extension that was found.
    pub open spec fn sent_as_it_is(test: AudioTest, parts: FileParts) -> bool {
        match test {
            AudioTest::Batch => audio_found(owned_text(parts.input_extension)),
            AudioTest::SingleFile => crate::convert::audio_found(
                owned_text(parts.input_extension),
            ),
        }
    }

    /// The name under which audio is uploaded: its file name, or `audio`
    /// where it has none.
    pub open spec fn upload_name(name: Option<String>) -> Seq<char> {
        match name {
            Some(name) => name@,
            None => "audio"@,
        }
    }

    /// Whether `self` is the job that has not begun of the media file at
    /// `input`, given what the path functions tell of it.
    ///
    /// An input that is audio is sent as it is; the audio of any other
    /// input is extracted first, to `parts.extracted_audio`. Name and
    /// content type go by the audio that is sent. The transcript goes to
    /// `parts.output_path`.
    pub open spec fn assembled(
        &self,
        input: Seq<char>,
        options: FileJobOptions,
        test: AudioTest,
        parts: FileParts,
    ) -> bool {
        let as_it_is = Self::sent_as_it_is(test, parts);
        &&& self.input@ == input
        &&& self.options == options
        &&& self.output_path == parts.output_path
        &&& self.needs_extraction == !as_it_is
        &&& self.audio_path@ == if as_it_is {
            input
        } else {
            parts.extracted_audio@
        }
        &&& self.display_name@ == Self::upload_name(
            if as_it_is {
                parts.input_name
            } else {
                parts.extracted_name
            },
        )
        &&& self.mime_type@ == audio_mime_type(
            lowered(
                owned_text(
                    if as_it_is {
                        parts.input_extension
                    } else {
                        parts.extracted_extension
                    },
                ),
            ),
        )
        &&& self.phase == FilePhase::CheckingOutput
        &&& self.audio_size == 0
        &&& self.uploaded is None
        &&& !self.temp_audio
        &&& !self.release_tried
        &&& !self.removal_tried
        &&& self.segments == 0
        &&& self.verdict is None
        &&& self.remote_calls == 0
    }

    /// The job of the media file at `input`, from what the path functions
    /// tell of it.
    pub fn from_parts(
        input: &str,
        options: FileJobOptions,
        test: AudioTest,
        parts: FileParts,
    ) -> (job: Self)
        ensures
            job.wf(),
            job.assembled(input@, options, test, parts),
    {
        let as_it_is = match test {
            AudioTest::Batch => is_audio_extension(as_found(&parts.input_extension)),
            AudioTest::SingleFile => crate::convert::is_audio_extension(
                as_found(&parts.input_extension),
            ),
        };
        let FileParts {
            input_name,
            input_extension,
            extracted_audio,
            extracted_name,
            extracted_extension,
            output_path,
        } = parts;
        let (audio_path, name, extension) = if as_it_is {
            (String::from_str(input), input_name, input_extension)
        } else {
            (extracted_audio, extracted_name, extracted_extension)
        };
        let mime_type = String::from_str(mime_type_for_extension(as_found(&extension)));
        let display_name = match name {
            Some(name) => name,
            None => String::from_str("audio"),
        };
        FileJob {
            input: String::from_str(input),
            output_path,
            audio_path,
            mime_type,
            display_name,
            needs_extraction: !as_it_is,
            options,
            phase: FilePhase::CheckingOutput,
            audio_size: 0,
            uploaded: None,
            temp_audio: false,
            release_tried: false,
            removal_tried: false,
            segments: 0,
            verdict: None,
            remote_calls: 0,
        }
    }

    /// Asks the path functions of the platform about the media file at
    /// `input`, whose transcript is written in `format`.
    fn read_parts(input: &str, format: OutputFormat) -> (parts: FileParts) {
        proof {
            reveal_strlit("mp3");
            lemma_output_extension_is_plain(format);
        }
        let extracted_audio = path_with_extension(input, "mp3");
        FileParts {
            input_name: path_file_name(input),
            input_extension: path_extension(input),
            extracted_name: path_file_name(extracted_audio.as_str()),
            extracted_extension: path_extension(extracted_audio.as_str()),
            extracted_audio,
            output_path: path_with_extension(input, get_output_extension(format)),
        }
    }

    /// The job of one media file of a batch. The transcript goes beside
    /// the input, under the extension of the output format. An audio file
    /// is sent as it is; the audio of any other file is extracted first,
    /// to an `mp3` beside the input. The job is put together as
    /// [`FileJob::assembled`] says, from what the path functions of the
    /// platform tell of the input.
    pub fn new(input: &str, options: FileJobOptions) -> (job: Self)
        ensures
            job.wf(),
            job.phase == FilePhase::CheckingOutput,
            job.input@ == input@,
            job.options == options,
            !job.needs_extraction ==> job.audio_path@ == input@,
            job.remote_calls == 0,
            exists|parts: FileParts| job.assembled(input@, options, AudioTest::Batch, parts),
    {
        let parts = Self::read_parts(input, options.format);
        let job = Self::from_parts(input, options, AudioTest::Batch, parts);
        assert(job.assembled(input@, options, AudioTest::Batch, parts));
        job
    }

    /// The job of a media file that is transcribed by itself. It differs
    /// from the job of a file of a batch in the test for audio alone: a
    /// `webm` file is sent as it is.
    pub fn for_single_file(input: &str, options: FileJobOptions) -> (job: Self)
        ensures
            job.wf(),
            job.phase == FilePhase::CheckingOutput,
            job.input@ == input@,
            job.options == options,
            !job.needs_extraction ==> job.audio_path@ == input@,
            job.remote_calls == 0,
            exists|parts: FileParts| job.assembled(input@, options, AudioTest::SingleFile, parts),
    {
        let parts = Self::read_parts(input, options.format);
        let job = Self::from_parts(input, options, AudioTest::SingleFile, parts);
        assert(job.assembled(input@, options, AudioTest::SingleFile, parts));
        job
    }

    /// The same job, with the transcript going to `output_path`.
    pub fn with_output_path(self, output_path: String) -> (job: Self)
        requires
            self.wf(),
            self.phase == FilePhase::CheckingOutput,
        ensures
            job.wf(),
            job.phase == FilePhase::CheckingOutput,
            job.output_path == output_path,
            job.input == self.input,
            job.audio_path == self.audio_path,
            job.mime_type == self.mime_type,
            job.display_name == self.display_name,
            job.needs_extraction == self.needs_extraction,
            job.options == self.options,
            job.remote_calls == 0,
    {
        let mut job = self;
        job.output_path = output_path;
        job
    }

    /// What to do next.
    pub fn next_action(&self) -> (action: FileAction)
        ensures
            action == self.action(),
    {
        match self.phase {
            FilePhase::CheckingOutput => FileAction::CheckOutput,
            FilePhase::ExtractingAudio => FileAction::ExtractAudio,
            FilePhase::ReadingAudio => FileAction::ReadAudio,
            FilePhase::Uploading => FileAction::Upload,
            FilePhase::Transcribing => if self.uploaded.is_some() {
                FileAction::TranscribeFile
            } else {
                FileAction::TranscribeInline
            },
            FilePhase::WritingOutput => FileAction::WriteOutput,
            FilePhase::ReleasingUpload => FileAction::DeleteRemote,
            FilePhase::RemovingAudio => FileAction::RemoveAudio,
            FilePhase::Done => FileAction::Finish,
        }
    }

    /// Whether a job is skipped: it is when its destination exists
    /// already.
    pub fn should_skip(output_exists: bool) -> (skip: bool)
        ensures
            skip == output_exists,
    {
        output_exists
    }

    /// Moves to the cleanup that is due, or to the end.
    fn close(&mut self)
        requires
            old(self).verdict is Some,
        ensures
            final(self).phase == old(self).closing_phase(),
            final(self).same_but_phase(*old(self)),
    {
        if self.uploaded.is_some() && !self.options.keep_remote_file && !self.release_tried {
            self.phase = FilePhase::ReleasingUpload;
        } else if self.temp_audio && !self.options.keep_audio && !self.removal_tried {
            self.phase = FilePhase::RemovingAudio;
        } else {
            self.phase = FilePhase::Done;
        }
    }

    /// Whether the job has failed, for the given reason.
    pub open spec fn failed_because(&self, reason: Seq<char>) -> bool {
        self.verdict matches Some(Verdict::Failed(given)) && given@ == reason
    }

    /// Whether two jobs differ in nothing but the phase.
    pub open spec fn same_but_phase(&self, other: FileJob) -> bool {
        &&& self.input == other.input
        &&& self.output_path == other.output_path
        &&& self.audio_path == other.audio_path
        &&& self.mime_type == other.mime_type
        &&& self.display_name == other.display_name
        &&& self.needs_extraction == other.needs_extraction
        &&& self.options == other.options
        &&& self.audio_size == other.audio_size
        &&& self.uploaded == other.uploaded
        &&& self.temp_audio == other.temp_audio
        &&& self.release_tried == other.release_tried
        &&& self.removal_tried == other.removal_tried
        &&& self.segments == other.segments
        &&& self.verdict == other.verdict
        &&& self.remote_calls == other.remote_calls
    }

    /// Whether two jobs have the same cleanup on record: what there is to
    /// clean up, and which cleanup has been tried.
    pub open spec fn same_cleanup(&self, other: FileJob) -> bool {
        &&& self.temp_audio == other.temp_audio
        &&& self.release_tried == other.release_tried
        &&& self.removal_tried == other.removal_tried
    }

    /// Whether two jobs are about the same file in the same way.
    pub open spec fn same_task(&self, other: FileJob) -> bool {
        &&& self.input == other.input
        &&& self.output_path == other.output_path
        &&& self.audio_path == other.audio_path
        &&& self.mime_type == other.mime_type
        &&& self.display_name == other.display_name
        &&& self.needs_extraction == other.needs_extraction
        &&& self.options == other.options
    }

    /// Takes the answer to the check of the destination. A job whose
    /// transcript exists is skipped and ends at once; any other goes on
    /// to its audio.
    pub fn on_output_checked(&mut self, output_exists: bool)
        requires
            old(self).wf(),
            old(self).phase == FilePhase::CheckingOutput,
        ensures
            final(self).wf(),
            final(self).same_task(*old(self)),
            final(self).same_cleanup(*old(self)),
            final(self).uploaded == old(self).uploaded,
            final(self).audio_size == old(self).audio_size,
            final(self).segments == old(self).segments,
            final(self).remote_calls == 0,
            output_exists ==> final(self).phase == FilePhase::Done && final(self).verdict
                matches Some(Verdict::Skipped),
            !output_exists ==> final(self).verdict is None,
            !output_exists && old(self).needs_extraction ==> final(self).phase
                == FilePhase::ExtractingAudio,
            !output_exists && !old(self).needs_extraction ==> final(self).phase
                == FilePhase::ReadingAudio,
    {
        if Self::should_skip(output_exists) {
            self.verdict = Some(Verdict::Skipped);
            self.phase = FilePhase::Done;
        } else if self.needs_extraction {
            self.phase = FilePhase::ExtractingAudio;
        } else {
            self.phase = FilePhase::ReadingAudio;
        }
    }

    /// Takes the outcome of the extraction of the audio. A failure ends
    /// the job with the reason given.
    pub fn on_audio_extracted(&mut self, result: Result<(), String>)
        requires
            old(self).wf(),
            old(self).phase == FilePhase::ExtractingAudio,
        ensures
            final(self).wf(),
            final(self).same_task(*old(self)),
            final(self).release_tried == old(self).release_tried,
            final(self).removal_tried == old(self).removal_tried,
            final(self).uploaded == old(self).uploaded,
            final(self).audio_size == old(self).audio_size,
            final(self).segments == old(self).segments,
            final(self).temp_audio == (result is Ok),
            final(self).remote_calls == 0,
            match result {
                Ok(_) => final(self).phase == FilePhase::ReadingAudio && final(self).temp_audio
                    && final(self).verdict is None,
                Err(reason) => final(self).phase == FilePhase::Done && final(self).verdict == Some(
                    Verdict::Failed(reason),
                ),
            },
    {
        match result {
            Ok(_) => {
                self.temp_audio = true;
                self.phase = FilePhase::ReadingAudio;
            },
            Err(reason) => {
                self.verdict = Some(Verdict::Failed(reason));
                self.close();
            },
        }
    }

    /// Takes the outcome of reading the audio: its size in bytes, or
    /// nothing where it could not be read. Audio that is too large to
    /// travel inline is uploaded first, and so is any audio where the
    /// options force it.
    pub fn on_audio_read(&mut self, size: Option<u64>)
        requires
            old(self).wf(),
            old(self).phase == FilePhase::ReadingAudio,
        ensures
            final(self).wf(),
            final(self).same_task(*old(self)),
            final(self).same_cleanup(*old(self)),
            final(self).uploaded == old(self).uploaded,
            final(self).segments == old(self).segments,
            final(self).remote_calls == 0,
            match size {
                Some(size) => final(self).audio_size == size && final(self).verdict is None
                    && final(self).phase == (if final(self).uses_file_api() {
                    FilePhase::Uploading
                } else {
                    FilePhase::Transcribing
                }),
                None => final(self).phase == final(self).closing_phase()
                    && final(self).failed_because("Failed to read audio file"@),
            },
    {
        match size {
            Some(size) => {
                self.audio_size = size;
                if self.options.force_file_api || size > MAX_INLINE_FILE_SIZE {
                    self.phase = FilePhase::Uploading;
                } else {
                    self.phase = FilePhase::Transcribing;
                }
            },
            None => {
                self.verdict = Some(
                    Verdict::Failed(String::from_str("Failed to read audio file")),
                );
                self.close();
            },
        }
    }

    /// Takes the outcome of the upload: the active file, or the error
    /// that fails the job.
    pub fn on_uploaded(&mut self, result: Result<FileInfo, FileApiError>)
        requires
            old(self).wf(),
            old(self).phase == FilePhase::Uploading,
        ensures
            final(self).wf(),
            final(self).same_task(*old(self)),
            final(self).same_cleanup(*old(self)),
            final(self).remote_calls == 1,
            final(self).audio_size == old(self).audio_size,
            final(self).segments == old(self).segments,
            match result {
                Ok(info) => final(self).phase == FilePhase::Transcribing && final(self).uploaded
                    == Some(info) && final(self).verdict is None,
                Err(e) => final(self).phase == final(self).closing_phase() && final(self).uploaded
                    is None && final(self).failed_because("File upload failed: "@ + e.text()),
            },
    {
        self.remote_calls = 1;
        match result {
            Ok(info) => {
                self.uploaded = Some(info);
                self.phase = FilePhase::Transcribing;
            },
            Err(e) => {
                let reason = concat("File upload failed: ", e.to_string().as_str());
                self.verdict = Some(Verdict::Failed(reason));
                self.close();
            },
        }
    }

    /// Takes the outcome of the transcription: the number of segments of
    /// the transcript, or the error that fails the job.
    pub fn on_transcribed(&mut self, result: Result<usize, GeminiError>)
        requires
            old(self).wf(),
            old(self).phase == FilePhase::Transcribing,
        ensures
            final(self).wf(),
            final(self).same_task(*old(self)),
            final(self).same_cleanup(*old(self)),
            final(self).remote_calls == old(self).remote_calls + 1,
            final(self).uploaded == old(self).uploaded,
            final(self).audio_size == old(self).audio_size,
            match result {
                Ok(segments) => final(self).phase == FilePhase::WritingOutput
                    && final(self).segments == segments && final(self).verdict is None,
                Err(e) => final(self).phase == final(self).closing_phase()
                    && final(self).failed_because("Transcription failed: "@ + e.text()),
            },
    {
        self.remote_calls = self.remote_calls + 1;
        match result {
            Ok(segments) => {
                self.segments = segments;
                self.phase = FilePhase::WritingOutput;
            },
            Err(e) => {
                let reason = concat("Transcription failed: ", e.to_string().as_str());
                self.verdict = Some(Verdict::Failed(reason));
                self.close();
            },
        }
    }

    /// Takes the outcome of writing the transcript. With the transcript
    /// written the job has succeeded, whatever the cleanup brings.
    pub fn on_output_written(&mut self, written: bool)
        requires
            old(self).wf(),
            old(self).phase == FilePhase::WritingOutput,
        ensures
            final(self).wf(),
            final(self).same_task(*old(self)),
            final(self).same_cleanup(*old(self)),
            final(self).remote_calls == old(self).remote_calls,
            final(self).uploaded == old(self).uploaded,
            final(self).audio_size == old(self).audio_size,
            final(self).segments == old(self).segments,
            final(self).phase == final(self).closing_phase(),
            written ==> final(self).verdict == Some(Verdict::Succeeded(old(self).segments)),
            !written ==> final(self).failed_because("Failed to write output file"@),
    {
        if written {
            self.verdict = Some(Verdict::Succeeded(self.segments));
        } else {
            self.verdict = Some(Verdict::Failed(String::from_str("Failed to write output file")));
        }
        self.close();
    }

    /// Takes the outcome of the deletion of the uploaded file. The
    /// verdict stands, whether the deletion succeeded or not.
    pub fn on_remote_deleted(&mut self, deleted: bool)
        requires
            old(self).wf(),
            old(self).phase == FilePhase::ReleasingUpload,
        ensures
            final(self).wf(),
            final(self).same_task(*old(self)),
            final(self).verdict == old(self).verdict,
            final(self).release_tried,
            final(self).temp_audio == old(self).temp_audio,
            final(self).removal_tried == old(self).removal_tried,
            final(self).uploaded == old(self).uploaded,
            final(self).audio_size == old(self).audio_size,
            final(self).segments == old(self).segments,
            final(self).remote_calls == old(self).remote_calls + 1,
            final(self).phase == final(self).closing_phase(),
            final(self).phase != FilePhase::ReleasingUpload,
    {
        self.release_tried = true;
        self.remote_calls = self.remote_calls + 1;
        self.close();
    }

    /// Records that the removal of the extracted audio has been tried.
    /// The verdict stands.
    pub fn on_audio_removed(&mut self)
        requires
            old(self).wf(),
            old(self).phase == FilePhase::RemovingAudio,
        ensures
            final(self).wf(),
            final(self).same_task(*old(self)),
            final(self).verdict == old(self).verdict,
            final(self).remote_calls == old(self).remote_calls,
            final(self).temp_audio == old(self).temp_audio,
            final(self).release_tried == old(self).release_tried,
            final(self).uploaded == old(self).uploaded,
            final(self).audio_size == old(self).audio_size,
            final(self).segments == old(self).segments,
            final(self).removal_tried,
            final(self).phase == FilePhase::Done,
    {
        self.removal_tried = true;
        self.close();
    }
}

impl FileJob {
    /// What the job reports to the scheduler once it has ended.
    pub fn report(&self) -> (report: JobReport)
        requires
            self.wf(),
            self.phase == FilePhase::Done,
        ensures
            match self.verdict {
                Some(Verdict::Skipped) => report matches JobReport::Skipped,
                Some(Verdict::Succeeded(segments)) => report matches JobReport::Succeeded {
                    artifacts,
                } && artifacts == segments,
                Some(Verdict::Failed(reason)) => report matches JobReport::Failed { cause }
                    && cause@ == reason@,
                None => false,
            },
    {
        match &self.verdict {
            Some(Verdict::Skipped) => JobReport::Skipped,
            Some(Verdict::Succeeded(segments)) => JobReport::Succeeded { artifacts: *segments },
            Some(Verdict::Failed(reason)) => JobReport::Failed { cause: reason.clone() },
            None => vstd::pervasive::unreached(),
        }
    }

    /// What became of the file, once its job has ended: a skipped job
    /// counts as a success without segments.
    pub fn into_result(self) -> (result: ProcessResult)
        requires
            self.wf(),
            self.phase == FilePhase::Done,
        ensures
            result.path == self.input,
            match self.verdict {
                Some(Verdict::Skipped) => result.success && result.skipped && result.error is None
                    && result.segments == 0,
                Some(Verdict::Succeeded(segments)) => result.success && !result.skipped
                    && result.error is None && result.segments == segments,
                Some(Verdict::Failed(reason)) => !result.success && !result.skipped
                    && result.error == Some(reason) && result.segments == 0,
                None => false,
            },
    {
        match self.verdict {
            Some(Verdict::Skipped) => ProcessResult {
                path: self.input,
                success: true,
                skipped: true,
                error: None,
                segments: 0,
            },
            Some(Verdict::Succeeded(segments)) => ProcessResult {
                path: self.input,
                success: true,
                skipped: false,
                error: None,
                segments,
            },
            Some(Verdict::Failed(reason)) => ProcessResult {
                path: self.input,
                success: false,
                skipped: false,
                error: Some(reason),
                segments: 0,
            },
            None => vstd::pervasive::unreached(),
        }
    }
}

/// What the worker of a file tells its observers.
#[derive(Debug, Clone, Copy, PartialEq, Eq, Structural)]
pub enum ProgressEvent {
    Started,
    Skipped,
    Succeeded { segments: usize },
    Failed,
}

impl FileJob {
    /// What the observers of a job are told when it is about to take its
    /// next action: that it has started, once the check of its
    /// destination has let it through, and how it ended, once nothing is
    /// left to do. Nothing is told in between.
    pub open spec fn event(&self) -> Option<ProgressEvent> {
        match self.phase {
            FilePhase::ExtractingAudio => Some(ProgressEvent::Started),
            FilePhase::ReadingAudio => if self.needs_extraction {
                None
            } else {
                Some(ProgressEvent::Started)
            },
            FilePhase::Done => match self.verdict {
                Some(Verdict::Skipped) => Some(ProgressEvent::Skipped),
                Some(Verdict::Succeeded(segments)) => Some(ProgressEvent::Succeeded { segments }),
                Some(Verdict::Failed(_)) => Some(ProgressEvent::Failed),
                None => None,
            },
            _ => None,
        }
    }

    /// Computes [`FileJob::event`].
    pub fn progress_event(&self) -> (event: Option<ProgressEvent>)
        ensures
            event == self.event(),
    {
        match self.phase {
            FilePhase::ExtractingAudio => Some(ProgressEvent::Started),
            FilePhase::ReadingAudio => if self.needs_extraction {
                None
            } else {
                Some(ProgressEvent::Started)
            },
            FilePhase::Done => match &self.verdict {
                Some(Verdict::Skipped) => Some(ProgressEvent::Skipped),
                Some(Verdict::Succeeded(segments)) => Some(
                    ProgressEvent::Succeeded { segments: *segments },
                ),
                Some(Verdict::Failed(_)) => Some(ProgressEvent::Failed),
                None => None,
            },
            _ => None,
        }
    }
}

/// The line that tells an event of the file called `file_name`.
pub open spec fn progress_line(file_name: Seq<char>, event: ProgressEvent) -> Seq<char> {
    match event {
        ProgressEvent::Started => "  Starting: "@ + file_name,
        ProgressEvent::Skipped => "  Skipped: "@ + file_name + " (transcript already exists)"@,
        ProgressEvent::Succeeded { segments } => "  Done: "@ + file_name + " ("@ + decimal(
            segments as nat,
        ) + " segments)"@,
        ProgressEvent::Failed => "  Failed: "@ + file_name,
    }
}

/// Computes [`progress_line`].
pub fn progress_message(file_name: &str, event: ProgressEvent) -> (line: String)
    ensures
        line@ == progress_line(file_name@, event),
{
    match event {
        ProgressEvent::Started => concat("  Starting: ", file_name),
        ProgressEvent::Skipped => {
            let mut line = concat("  Skipped: ", file_name);
            line.append(" (transcript already exists)");
            line
        },
        ProgressEvent::Succeeded { segments } => {
            let mut line = concat("  Done: ", file_name);
            line.append(" (");
            line.append(u64_to_string(segments as u64).as_str());
            line.append(" segments)");
            line
        },
        ProgressEvent::Failed => concat("  Failed: ", file_name),
    }
}

/// A job that is skipped has made no remote call and asks for nothing
/// more: neither an upload, nor a transcription, nor a cleanup.
pub proof fn lemma_skipped_job_is_quiet(job: FileJob)
    requires
        job.wf(),
        job.verdict matches Some(Verdict::Skipped),
    ensures
        job.remote_calls == 0,
        job.action() == FileAction::Finish,
{
}

/// A job ends only when its cleanup has been seen to: the uploaded file
/// has been deleted, or at least the deletion tried, unless the options
/// keep it, and likewise the extracted audio. This holds whether the job
/// succeeded or failed.
pub proof fn lemma_cleanup_precedes_end(job: FileJob)
    requires
        job.wf(),
        job.phase == FilePhase::Done,
    ensures
        job.uploaded is Some && !job.options.keep_remote_file ==> job.release_tried,
        job.temp_audio && !job.options.keep_audio ==> job.removal_tried,
{
}

/// A job has a verdict exactly when all that is left to do is cleanup.
pub proof fn lemma_verdict_marks_closing(job: FileJob)
    requires
        job.wf(),
    ensures
        job.verdict is Some <==> (job.action() == FileAction::DeleteRemote || job.action()
            == FileAction::RemoveAudio || job.action() == FileAction::Finish),
{
}

/// Once a job has its verdict, what it asks for next is the cleanup that
/// is due: the deletion of the uploaded file, unless the options keep it
/// or the deletion has been tried, then the removal of the extracted
/// audio, unless the options keep it or the removal has been tried.
pub proof fn lemma_closing_asks_for_cleanup(job: FileJob)
    requires
        job.wf(),
        job.verdict is Some,
    ensures
        job.release_due() ==> job.action() == FileAction::DeleteRemote,
        !job.release_due() && job.removal_due() ==> job.action() == FileAction::RemoveAudio,
        !job.release_due() && !job.removal_due() ==> job.action() == FileAction::Finish,
{
}

/// Until a job has its verdict, no cleanup has been tried.
pub proof fn lemma_no_cleanup_before_verdict(job: FileJob)
    requires
        job.wf(),
        job.verdict is None,
    ensures
        !job.release_tried,
        !job.removal_tried,
{
}

/// A job that has ended has something to tell its observers, and a job is
/// said to have started only before it has made any remote call.
pub proof fn lemma_events_mark_start_and_end(job: FileJob)
    requires
        job.wf(),
    ensures
        job.action() == FileAction::Finish ==> job.event() is Some,
        job.action() == FileAction::ExtractAudio ==> job.event() == Some(ProgressEvent::Started),
        job.event() == Some(ProgressEvent::Started) ==> job.verdict is None && job.remote_calls
            == 0,
{
}

} // verus!
