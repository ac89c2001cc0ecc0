//! Transcripts as subtitles and as plain text.

use crate::gemini_api::{TranscriptResponse, TranscriptSegment};
use crate::text::{
    chars_of, concat, count_char, count_of, decimal, decimal2, found_text, lowercase,
    no_separator, parse_u32, parsed_u32, path_extension, slice_chars, str_eq, string_of,
    to_lowercase, u64_to_string, u64_to_string2,
};
use vstd::prelude::*;
use vstd::string::*;

verus! {

/// The forms in which a transcript can be written.
#[derive(Debug, Clone, Copy, PartialEq, Eq, Structural)]
pub enum OutputFormat {
    Json,
    Srt,
    Vtt,
    Txt,
}

impl Default for OutputFormat {
    fn default() -> (r: Self)
        ensures
            r == OutputFormat::Json,
    {
        OutputFormat::Json
    }
}

/// The file extension of each form.
pub open spec fn output_extension(format: OutputFormat) -> Seq<char> {
    match format {
        OutputFormat::Json => "json"@,
        OutputFormat::Srt => "srt"@,
        OutputFormat::Vtt => "vtt"@,
        OutputFormat::Txt => "txt"@,
    }
}

/// The file extension under which a transcript of the given form is
/// stored.
pub fn get_output_extension(format: OutputFormat) -> (ext: &'static str)
    ensures
        ext@ == output_extension(format),
{
    match format {
        OutputFormat::Json => "json",
        OutputFormat::Srt => "srt",
        OutputFormat::Vtt => "vtt",
        OutputFormat::Txt => "txt",
    }
}

/// No output extension holds a path separator.
pub proof fn lemma_output_extension_is_plain(format: OutputFormat)
    ensures
        no_separator(output_extension(format)),
{
    reveal_strlit("json");
    reveal_strlit("srt");
    reveal_strlit("vtt");
    reveal_strlit("txt");
}

/// Whether a lower-case extension is that of an audio file that can be
/// sent as it is.
pub open spec fn audio_extension(e: Seq<char>) -> bool {
    e == "mp3"@ || e == "wav"@ || e == "ogg"@ || e == "flac"@ || e == "m4a"@ || e == "aac"@ || e
        == "wma"@ || e == "webm"@
}

/// Whether a file is audio that can be sent as it is, going by the
/// extension that was found in its name: it is when there is one that, in
/// lower case, is an audio extension.
pub open spec fn audio_found(found: Option<Seq<char>>) -> bool {
    found matches Some(e) && audio_extension(lowercase(e))
}

/// Whether a file with the given extension, in any letter case, is audio
/// that can be sent as it is. A file without extension is not.
pub fn is_audio_extension(extension: Option<&str>) -> (r: bool)
    ensures
        r == audio_found(found_text(extension)),
{
    match extension {
        None => false,
        Some(extension) => {
            let lower = to_lowercase(extension);
            let e = lower.as_str();
            str_eq(e, "mp3") || str_eq(e, "wav") || str_eq(e, "ogg") || str_eq(e, "flac")
                || str_eq(e, "m4a") || str_eq(e, "aac") || str_eq(e, "wma") || str_eq(e, "webm")
        },
    }
}

/// Whether the file at `path` is audio that can be sent as it is, by the
/// extension of its file name. A file without extension is not.
pub fn is_audio_file(path: &str) -> (r: bool)
    ensures
        exists|found: Option<Seq<char>>| r == audio_found(found),
        r ==> exists|extension: Seq<char>| audio_extension(lowercase(extension)),
{
    match path_extension(path) {
        Some(extension) => {
            let r = is_audio_extension(Some(extension.as_str()));
            assert(r == audio_found(Some(extension@)));
            assert(r ==> audio_extension(lowercase(extension@)));
            r
        },
        None => {
            let r = is_audio_extension(None);
            assert(r == audio_found(None));
            r
        },
    }
}

/// A time of the form `MM:SS` as SubRip writes it: hours in front,
/// milliseconds behind a comma.
pub open spec fn srt_time(timestamp: Seq<char>) -> Seq<char> {
    "00:"@ + timestamp + ",000"@
}

/// A time of the form `MM:SS` as WebVTT writes it: hours in front,
/// milliseconds behind a full stop.
pub open spec fn vtt_time(timestamp: Seq<char>) -> Seq<char> {
    "00:"@ + timestamp + ".000"@
}

/// Computes [`srt_time`].
pub fn format_timestamp_srt(timestamp: &str) -> (r: String)
    ensures
        r@ == srt_time(timestamp@),
{
    let mut r = concat("00:", timestamp);
    r.append(",000");
    r
}

/// Computes [`vtt_time`].
pub fn format_timestamp_vtt(timestamp: &str) -> (r: String)
    ensures
        r@ == vtt_time(timestamp@),
{
    let mut r = concat("00:", timestamp);
    r.append(".000");
    r
}

/// The position of the first `c` in `s`; the length of `s` if there is
/// none.
pub open spec fn position_of(s: Seq<char>, c: char) -> int
    decreases s.len(),
{
    if s.len() == 0 {
        0
    } else if s[0] == c {
        0
    } else {
        1 + position_of(s.skip(1), c)
    }
}

proof fn lemma_position_of(s: Seq<char>, c: char, at: int)
    requires
        0 <= at <= s.len(),
        forall|j: int| 0 <= j < at ==> s[j] != c,
        at < s.len() ==> s[at] == c,
    ensures
        position_of(s, c) == at,
    decreases at,
{
    if at > 0 {
        assert forall|j: int| 0 <= j < at - 1 implies s.skip(1)[j] != c by {
            assert(s.skip(1)[j] == s[j + 1]);
        }
        lemma_position_of(s.skip(1), c, at - 1);
    }
}

/// Finds the first `c` in `chars`.
fn find_char(chars: &Vec<char>, c: char) -> (at: usize)
    ensures
        at == position_of(chars@, c),
        at <= chars@.len(),
{
    let mut i: usize = 0;
    while i < chars.len() && chars[i] != c
        invariant
            i <= chars@.len(),
            forall|j: int| 0 <= j < i ==> chars@[j] != c,
        decreases chars@.len() - i,
    {
        i = i + 1;
    }
    proof {
        lemma_position_of(chars@, c, i as int);
    }
    i
}

/// The number that a text denotes, zero where it denotes none.
pub open spec fn number_or_zero(s: Seq<char>) -> nat {
    match parsed_u32(s) {
        Some(n) => n as nat,
        None => 0,
    }
}

/// The time at which the last segment of a transcript is taken to end:
/// five seconds after it starts, where its start has the form `MM:SS`
/// (a part that is no number counts as zero), and at five seconds
/// otherwise. `mark` is what follows the seconds.
pub open spec fn closing_time(timestamp: Seq<char>, mark: Seq<char>) -> Seq<char> {
    if count_of(timestamp, ':') == 1 {
        let colon = position_of(timestamp, ':');
        let mins = number_or_zero(timestamp.take(colon));
        let secs = number_or_zero(timestamp.skip(colon + 1)) + 5;
        "00:"@ + decimal2(mins + secs / 60) + ":"@ + decimal2(secs % 60) + mark
    } else {
        "00:00:05"@ + mark
    }
}

/// Computes [`closing_time`].
fn closing_timestamp(timestamp: &str, mark: &str) -> (r: String)
    ensures
        r@ == closing_time(timestamp@, mark@),
{
    let chars = chars_of(timestamp);
    if count_char(&chars, ':') == 1 {
        let colon = find_char(&chars, ':');
        proof {
            if colon == chars@.len() {
                lemma_absent_count(chars@, ':');
            }
        }
        let before = string_of(&slice_chars(&chars, 0, colon));
        let after = string_of(&slice_chars(&chars, colon + 1, chars.len()));
        let mins: u64 = match parse_u32(before.as_str()) {
            Some(n) => n as u64,
            None => 0,
        };
        let secs: u64 = match parse_u32(after.as_str()) {
            Some(n) => n as u64 + 5,
            None => 5,
        };
        proof {
            assert(chars@.subrange(0, colon as int) =~= timestamp@.take(colon as int));
            assert(chars@.subrange(colon + 1, chars@.len() as int) =~= timestamp@.skip(colon + 1));
        }
        let mut r = concat("00:", u64_to_string2(mins + secs / 60).as_str());
        r.append(":");
        r.append(u64_to_string2(secs % 60).as_str());
        r.append(mark);
        r
    } else {
        concat("00:00:05", mark)
    }
}

/// A character that does not occur before the end of a text occurs in it
/// zero times.
proof fn lemma_absent_count(s: Seq<char>, c: char)
    requires
        position_of(s, c) == s.len(),
    ensures
        count_of(s, c) == 0,
    decreases s.len(),
{
    if s.len() > 0 {
        lemma_position_bounds(s.skip(1), c);
        lemma_absent_everywhere(s, c);
        assert forall|j: int| 0 <= j < s.len() - 1 implies s.drop_last()[j] != c by {
            assert(s.drop_last()[j] == s[j]);
        }
        lemma_position_of(s.drop_last(), c, s.len() - 1);
        lemma_absent_count(s.drop_last(), c);
    }
}

proof fn lemma_position_bounds(s: Seq<char>, c: char)
    ensures
        0 <= position_of(s, c) <= s.len(),
    decreases s.len(),
{
    if s.len() > 0 && s[0] != c {
        lemma_position_bounds(s.skip(1), c);
    }
}

proof fn lemma_absent_everywhere(s: Seq<char>, c: char)
    requires
        position_of(s, c) == s.len(),
    ensures
        forall|j: int| 0 <= j < s.len() ==> s[j] != c,
    decreases s.len(),
{
    if s.len() > 0 {
        lemma_position_bounds(s.skip(1), c);
        lemma_absent_everywhere(s.skip(1), c);
        assert forall|j: int| 0 <= j < s.len() implies s[j] != c by {
            if j > 0 {
                assert(s.skip(1)[j - 1] == s[j]);
            }
        }
    }
}

/// The time at which segment `i` ends: the start of the next segment,
/// or, for the last, its closing time.
pub open spec fn srt_end(segments: Seq<TranscriptSegment>, i: int) -> Seq<char> {
    if i + 1 < segments.len() {
        srt_time(segments[i + 1].timestamp@)
    } else {
        closing_time(segments[i].timestamp@, ",000"@)
    }
}

/// As [`srt_end`], in WebVTT notation.
pub open spec fn vtt_end(segments: Seq<TranscriptSegment>, i: int) -> Seq<char> {
    if i + 1 < segments.len() {
        vtt_time(segments[i + 1].timestamp@)
    } else {
        closing_time(segments[i].timestamp@, ".000"@)
    }
}

/// The SubRip cue of segment `i`: its number, counted from one, its span
/// of time, and the speaker in brackets before what was said.
pub open spec fn srt_cue(segments: Seq<TranscriptSegment>, i: int) -> Seq<char> {
    decimal((i + 1) as nat) + "\n"@ + srt_time(segments[i].timestamp@) + " --> "@ + srt_end(
        segments,
        i,
    ) + "\n"@ + "["@ + segments[i].speaker@ + "] "@ + segments[i].content@ + "\n\n"@
}

/// The WebVTT cue of segment `i`: its span of time, and what was said
/// behind a voice tag that names the speaker.
pub open spec fn vtt_cue(segments: Seq<TranscriptSegment>, i: int) -> Seq<char> {
    vtt_time(segments[i].timestamp@) + " --> "@ + vtt_end(segments, i) + "\n"@ + "<v "@
        + segments[i].speaker@ + ">"@ + segments[i].content@ + "\n\n"@
}

/// The plain-text paragraph of a segment: time, speaker and emotion,
/// what was said, and the translation where there is one that is not
/// empty.
pub open spec fn txt_paragraph(segment: TranscriptSegment) -> Seq<char> {
    "["@ + segment.timestamp@ + "] "@ + segment.speaker@ + " ("@ + segment.emotion@ + ")\n"@
        + segment.content@ + "\n"@ + (match segment.translation {
        Some(translation) => if translation@.len() > 0 {
            "  Translation: "@ + translation@ + "\n"@
        } else {
            Seq::<char>::empty()
        },
        None => Seq::<char>::empty(),
    }) + "\n"@
}

/// The first `n` SubRip cues, one after the other.
pub open spec fn srt_cues(segments: Seq<TranscriptSegment>, n: int) -> Seq<char>
    decreases n,
{
    if n <= 0 {
        Seq::empty()
    } else {
        srt_cues(segments, n - 1) + srt_cue(segments, n - 1)
    }
}

/// The first `n` WebVTT cues, one after the other.
pub open spec fn vtt_cues(segments: Seq<TranscriptSegment>, n: int) -> Seq<char>
    decreases n,
{
    if n <= 0 {
        Seq::empty()
    } else {
        vtt_cues(segments, n - 1) + vtt_cue(segments, n - 1)
    }
}

/// The paragraphs of the first `n` segments, one after the other.
pub open spec fn txt_paragraphs(segments: Seq<TranscriptSegment>, n: int) -> Seq<char>
    decreases n,
{
    if n <= 0 {
        Seq::empty()
    } else {
        txt_paragraphs(segments, n - 1) + txt_paragraph(segments[n - 1])
    }
}

/// A transcript as a SubRip file: one cue per segment.
pub fn transcript_to_srt(transcript: &TranscriptResponse) -> (r: String)
    ensures
        r@ == srt_cues(transcript.segments@, transcript.segments@.len() as int),
{
    let mut output = String::new();
    let segments = &transcript.segments;
    let mut i: usize = 0;
    while i < segments.len()
        invariant
            i <= segments@.len(),
            output@ == srt_cues(segments@, i as int),
        decreases segments@.len() - i,
    {
        let ghost so_far = output@;
        let segment = &segments[i];
        let start = format_timestamp_srt(segment.timestamp.as_str());
        let end = if i + 1 < segments.len() {
            format_timestamp_srt(segments[i + 1].timestamp.as_str())
        } else {
            closing_timestamp(segment.timestamp.as_str(), ",000")
        };
        output.append(u64_to_string((i + 1) as u64).as_str());
        output.append("\n");
        output.append(start.as_str());
        output.append(" --> ");
        output.append(end.as_str());
        output.append("\n");
        output.append("[");
        output.append(segment.speaker.as_str());
        output.append("] ");
        output.append(segment.content.as_str());
        output.append("\n\n");
        proof {
            assert(output@ =~= so_far + srt_cue(segments@, i as int));
        }
        i = i + 1;
    }
    output
}

/// A transcript as a WebVTT file: the header, then one cue per segment.
pub fn transcript_to_vtt(transcript: &TranscriptResponse) -> (r: String)
    ensures
        r@ == "WEBVTT\n\n"@ + vtt_cues(transcript.segments@, transcript.segments@.len() as int),
{
    let mut output = String::from_str("WEBVTT\n\n");
    let segments = &transcript.segments;
    let mut i: usize = 0;
    proof {
        assert(output@ =~= "WEBVTT\n\n"@ + vtt_cues(segments@, 0));
    }
    while i < segments.len()
        invariant
            i <= segments@.len(),
            output@ == "WEBVTT\n\n"@ + vtt_cues(segments@, i as int),
        decreases segments@.len() - i,
    {
        let ghost so_far = output@;
        let segment = &segments[i];
        let start = format_timestamp_vtt(segment.timestamp.as_str());
        let end = if i + 1 < segments.len() {
            format_timestamp_vtt(segments[i + 1].timestamp.as_str())
        } else {
            closing_timestamp(segment.timestamp.as_str(), ".000")
        };
        output.append(start.as_str());
        output.append(" --> ");
        output.append(end.as_str());
        output.append("\n");
        output.append("<v ");
        output.append(segment.speaker.as_str());
        output.append(">");
        output.append(segment.content.as_str());
        output.append("\n\n");
        proof {
            assert(output@ =~= so_far + vtt_cue(segments@, i as int));
            assert(output@ =~= "WEBVTT\n\n"@ + vtt_cues(segments@, i + 1));
        }
        i = i + 1;
    }
    output
}

/// A transcript as plain text: the summary, a rule, then one paragraph
/// per segment.
pub fn transcript_to_txt(transcript: &TranscriptResponse) -> (r: String)
    ensures
        r@ == "Summary:\n"@ + transcript.summary@ + "\n\n"@ + "---\n\n"@ + txt_paragraphs(
            transcript.segments@,
            transcript.segments@.len() as int,
        ),
{
    let mut output = String::from_str("Summary:\n");
    output.append(transcript.summary.as_str());
    output.append("\n\n");
    output.append("---\n\n");
    let ghost head = output@;
    let segments = &transcript.segments;
    let mut i: usize = 0;
    proof {
        assert(output@ =~= head + txt_paragraphs(segments@, 0));
    }
    while i < segments.len()
        invariant
            i <= segments@.len(),
            output@ == head + txt_paragraphs(segments@, i as int),
        decreases segments@.len() - i,
    {
        let ghost so_far = output@;
        let segment = &segments[i];
        output.append("[");
        output.append(segment.timestamp.as_str());
        output.append("] ");
        output.append(segment.speaker.as_str());
        output.append(" (");
        output.append(segment.emotion.as_str());
        output.append(")\n");
        output.append(segment.content.as_str());
        output.append("\n");
        match &segment.translation {
            Some(translation) => {
                if !translation.as_str().is_empty() {
                    output.append("  Translation: ");
                    output.append(translation.as_str());
                    output.append("\n");
                }
            },
            None => {},
        }
        output.append("\n");
        proof {
            assert(output@ =~= so_far + txt_paragraph(segments@[i as int]));
            assert(output@ =~= head + txt_paragraphs(segments@, i + 1));
        }
        i = i + 1;
    }
    output
}

/// A transcript in one of the textual forms. For `Json` there is none
/// here: that form is the serialised transcript.
pub fn format_output(transcript: &TranscriptResponse, format: OutputFormat) -> (r: Option<String>)
    ensures
        match format {
            OutputFormat::Json => r is None,
            OutputFormat::Srt => r matches Some(text) && text@ == srt_cues(
                transcript.segments@,
                transcript.segments@.len() as int,
            ),
            OutputFormat::Vtt => r matches Some(text) && text@ == "WEBVTT\n\n"@ + vtt_cues(
                transcript.segments@,
                transcript.segments@.len() as int,
            ),
            OutputFormat::Txt => r matches Some(text) && text@ == "Summary:\n"@
                + transcript.summary@ + "\n\n"@ + "---\n\n"@ + txt_paragraphs(
                transcript.segments@,
                transcript.segments@.len() as int,
            ),
        },
{
    match format {
        OutputFormat::Json => None,
        OutputFormat::Srt => Some(transcript_to_srt(transcript)),
        OutputFormat::Vtt => Some(transcript_to_vtt(transcript)),
        OutputFormat::Txt => Some(transcript_to_txt(transcript)),
    }
}

} // verus!
