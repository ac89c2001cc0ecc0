use transcript_tool::batch_convert;
use transcript_tool::convert::{
    format_output, format_timestamp_srt, format_timestamp_vtt, get_output_extension,
    is_audio_extension, is_audio_file, transcript_to_srt, transcript_to_txt, transcript_to_vtt,
    OutputFormat,
};
use transcript_tool::{TranscriptResponse, TranscriptSegment};

fn segment(speaker: &str, timestamp: &str, content: &str, emotion: &str) -> TranscriptSegment {
    TranscriptSegment {
        speaker: speaker.to_string(),
        timestamp: timestamp.to_string(),
        content: content.to_string(),
        language: "English".to_string(),
        language_code: "en".to_string(),
        translation: None,
        emotion: emotion.to_string(),
    }
}

fn create_test_transcript() -> TranscriptResponse {
    TranscriptResponse {
        summary: "Test summary".to_string(),
        segments: vec![
            segment("Speaker 1", "00:05", "Hello world", "neutral"),
            segment("Speaker 2", "00:10", "Hi there", "happy"),
        ],
    }
}

#[test]
fn test_is_media_file() {
    assert!(batch_convert::is_media_file("test.mp4"));
    assert!(batch_convert::is_media_file("test.MP4"));
    assert!(batch_convert::is_media_file("test.mkv"));
    assert!(batch_convert::is_media_file("test.mp3"));
    assert!(batch_convert::is_media_file("test.wav"));
    assert!(!batch_convert::is_media_file("test.txt"));
    assert!(!batch_convert::is_media_file("test.json"));
}

#[test]
fn batch_convert_test_is_audio_file() {
    assert!(batch_convert::is_audio_file("test.mp3"));
    assert!(batch_convert::is_audio_file("test.wav"));
    assert!(!batch_convert::is_audio_file("test.mp4"));
    assert!(!batch_convert::is_audio_file("test.mkv"));
}

#[test]
fn batch_convert_test_get_output_extension() {
    assert_eq!(get_output_extension(OutputFormat::Json), "json");
    assert_eq!(get_output_extension(OutputFormat::Srt), "srt");
    assert_eq!(get_output_extension(OutputFormat::Vtt), "vtt");
    assert_eq!(get_output_extension(OutputFormat::Txt), "txt");
}

#[test]
fn convert_test_is_audio_file() {
    assert!(is_audio_file("test.mp3"));
    assert!(is_audio_file("test.MP3"));
    assert!(is_audio_file("test.wav"));
    assert!(is_audio_file("test.WAV"));
    assert!(is_audio_file("test.flac"));
    assert!(!is_audio_file("test.mp4"));
    assert!(!is_audio_file("test.txt"));
}

#[test]
fn test_format_timestamp_srt() {
    assert_eq!(format_timestamp_srt("05:30"), "00:05:30,000");
    assert_eq!(format_timestamp_srt("00:05"), "00:00:05,000");
}

#[test]
fn test_format_timestamp_vtt() {
    assert_eq!(format_timestamp_vtt("05:30"), "00:05:30.000");
    assert_eq!(format_timestamp_vtt("00:05"), "00:00:05.000");
}

#[test]
fn test_transcript_to_srt() {
    let transcript = create_test_transcript();
    let srt = transcript_to_srt(&transcript);

    assert!(srt.contains("1\n"));
    assert!(srt.contains("00:00:05,000 --> 00:00:10,000"));
    assert!(srt.contains("[Speaker 1] Hello world"));
}

#[test]
fn test_transcript_to_vtt() {
    let transcript = create_test_transcript();
    let vtt = transcript_to_vtt(&transcript);

    assert!(vtt.starts_with("WEBVTT"));
    assert!(vtt.contains("00:00:05.000 --> 00:00:10.000"));
    assert!(vtt.contains("<v Speaker 1>Hello world"));
}

#[test]
fn test_transcript_to_txt() {
    let transcript = create_test_transcript();
    let txt = transcript_to_txt(&transcript);

    assert!(txt.contains("Summary:"));
    assert!(txt.contains("Test summary"));
    assert!(txt.contains("[00:05] Speaker 1 (neutral)"));
    assert!(txt.contains("Hello world"));
}

#[test]
fn convert_test_get_output_extension() {
    assert_eq!(get_output_extension(OutputFormat::Json), "json");
    assert_eq!(get_output_extension(OutputFormat::Srt), "srt");
    assert_eq!(get_output_extension(OutputFormat::Vtt), "vtt");
    assert_eq!(get_output_extension(OutputFormat::Txt), "txt");
}

#[test]
fn srt_is_exact_and_closes_five_seconds_after_the_last_start() {
    let srt = transcript_to_srt(&create_test_transcript());
    assert_eq!(
        srt,
        "1\n00:00:05,000 --> 00:00:10,000\n[Speaker 1] Hello world\n\n\
         2\n00:00:10,000 --> 00:00:15,000\n[Speaker 2] Hi there\n\n"
    );
}

#[test]
fn vtt_is_exact() {
    let vtt = transcript_to_vtt(&create_test_transcript());
    assert_eq!(
        vtt,
        "WEBVTT\n\n00:00:05.000 --> 00:00:10.000\n<v Speaker 1>Hello world\n\n\
         00:00:10.000 --> 00:00:15.000\n<v Speaker 2>Hi there\n\n"
    );
}

#[test]
fn txt_is_exact_and_shows_translations_that_are_not_empty() {
    let mut transcript = create_test_transcript();
    transcript.segments[0].translation = Some("Hallo Welt".to_string());
    transcript.segments[1].translation = Some(String::new());
    let txt = transcript_to_txt(&transcript);
    assert_eq!(
        txt,
        "Summary:\nTest summary\n\n---\n\n[00:05] Speaker 1 (neutral)\nHello world\n  \
         Translation: Hallo Welt\n\n[00:10] Speaker 2 (happy)\nHi there\n\n"
    );
}

#[test]
fn closing_time_carries_seconds_into_minutes() {
    let transcript = TranscriptResponse {
        summary: String::new(),
        segments: vec![segment("A", "01:58", "x", "neutral")],
    };
    assert!(transcript_to_srt(&transcript).contains("00:01:58,000 --> 00:02:03,000"));
    assert!(transcript_to_vtt(&transcript).contains("00:01:58.000 --> 00:02:03.000"));
}

#[test]
fn closing_time_counts_a_part_that_is_no_number_as_zero() {
    let transcript = TranscriptResponse {
        summary: String::new(),
        segments: vec![segment("A", "xx:07", "x", "neutral")],
    };
    assert!(transcript_to_srt(&transcript).contains("00:xx:07,000 --> 00:00:12,000"));
    let transcript = TranscriptResponse {
        summary: String::new(),
        segments: vec![segment("A", "+3:yy", "x", "neutral")],
    };
    assert!(transcript_to_srt(&transcript).contains(" --> 00:03:05,000"));
}

#[test]
fn closing_time_without_a_single_colon_is_five_seconds() {
    for timestamp in ["12", "1:02:03", ""] {
        let transcript = TranscriptResponse {
            summary: String::new(),
            segments: vec![segment("A", timestamp, "x", "neutral")],
        };
        assert!(transcript_to_srt(&transcript).contains(" --> 00:00:05,000\n"));
        assert!(transcript_to_vtt(&transcript).contains(" --> 00:00:05.000\n"));
    }
}

#[test]
fn closing_time_does_not_overflow_on_large_numbers() {
    let transcript = TranscriptResponse {
        summary: String::new(),
        segments: vec![segment("A", "4294967295:4294967295", "x", "neutral")],
    };
    // 4294967295 + 5 seconds are 71582788 minutes and 20 seconds.
    assert!(transcript_to_srt(&transcript).contains(" --> 00:4366550083:20,000"));
}

#[test]
fn closing_time_counts_a_number_beyond_32_bits_as_zero() {
    for (timestamp, end) in [
        ("4294967296:00", "00:00:05,000"),
        ("00:4294967296", "00:00:05,000"),
        ("0000000000000000000001:0000000059", "00:02:04,000"),
        ("+1:+2", "00:01:07,000"),
        ("-1:2", "00:00:07,000"),
        ("1 :2", "00:00:07,000"),
        ("١:2", "00:00:07,000"),
        (":", "00:00:05,000"),
        ("+:+", "00:00:05,000"),
        ("99:99", "00:100:44,000"),
    ] {
        let transcript = TranscriptResponse {
            summary: String::new(),
            segments: vec![segment("A", timestamp, "x", "neutral")],
        };
        let srt = transcript_to_srt(&transcript);
        assert!(srt.contains(&format!(" --> {}\n", end)), "{} gave {}", timestamp, srt);
    }
}

#[test]
fn cues_are_numbered_in_decimal() {
    let transcript = TranscriptResponse {
        summary: String::new(),
        segments: (0..120).map(|i| segment("A", "00:01", &format!("line {}", i), "neutral")).collect(),
    };
    let srt = transcript_to_srt(&transcript);
    assert!(srt.starts_with("1\n00:00:01,000 --> 00:00:01,000\n[A] line 0\n\n2\n"));
    assert!(srt.contains("\n\n10\n00:00:01,000"));
    assert!(srt.contains("\n\n100\n00:00:01,000"));
    assert!(srt.ends_with("120\n00:00:01,000 --> 00:00:06,000\n[A] line 119\n\n"));
}

#[test]
fn empty_transcript_has_no_cues() {
    let transcript = TranscriptResponse { summary: String::new(), segments: vec![] };
    assert_eq!(transcript_to_srt(&transcript), "");
    assert_eq!(transcript_to_vtt(&transcript), "WEBVTT\n\n");
    assert_eq!(transcript_to_txt(&transcript), "Summary:\n\n\n---\n\n");
}

#[test]
fn format_output_leaves_json_to_the_caller() {
    let transcript = create_test_transcript();
    assert_eq!(format_output(&transcript, OutputFormat::Json), None);
    assert_eq!(format_output(&transcript, OutputFormat::Srt), Some(transcript_to_srt(&transcript)));
    assert_eq!(format_output(&transcript, OutputFormat::Vtt), Some(transcript_to_vtt(&transcript)));
    assert_eq!(format_output(&transcript, OutputFormat::Txt), Some(transcript_to_txt(&transcript)));
}

#[test]
fn webm_is_audio_for_a_single_file_but_video_in_a_batch() {
    assert!(is_audio_file("clip.webm"));
    assert!(is_audio_extension(Some("WebM")));
    assert!(!is_audio_extension(Some("mp4")));
    assert!(!is_audio_extension(Some("")));
    assert!(!is_audio_extension(None));
    assert!(!batch_convert::is_audio_file("clip.webm"));
    assert!(!batch_convert::is_audio_extension(Some("webm")));
    assert!(batch_convert::is_audio_extension(Some("FLAC")));
    assert!(!batch_convert::is_audio_extension(None));
    assert!(batch_convert::is_media_file("clip.webm"));
    assert!(batch_convert::is_media_extension(Some("M4V")));
    assert!(batch_convert::is_media_extension(Some("Wma")));
    assert!(!batch_convert::is_media_extension(Some("txt")));
    assert!(!batch_convert::is_media_extension(None));
    assert!(!batch_convert::is_media_file("noextension"));
}

#[test]
fn default_output_format_is_json() {
    assert_eq!(OutputFormat::default(), OutputFormat::Json);
}
