use transcript_tool::file_api::{
    check_reply, Elapsed, Endpoint, UploadAction, UploadSession, UploadState,
    FILE_PROCESSING_POLL_INTERVAL_SECS, FILE_PROCESSING_TIMEOUT_SECS,
};
use transcript_tool::remote::{HttpReply, Transmission};
use transcript_tool::{FileApiClient, FileApiError, FileInfo};

fn info(state: &str) -> FileInfo {
    FileInfo {
        name: "files/abc123".to_string(),
        uri: "https://generativelanguage.googleapis.com/v1beta/files/abc123".to_string(),
        mime_type: "audio/mpeg".to_string(),
        size_bytes: "52428800".to_string(),
        state: state.to_string(),
        display_name: Some("AUDIO".to_string()),
    }
}

fn at(secs: u64) -> Elapsed {
    Elapsed { secs, nanos: 0 }
}

/// Runs an upload against a service that answers the looks at the file
/// with `reports`, two seconds apart, and counts the looks.
fn poll(session: &mut UploadSession, reports: &[&str]) -> (usize, Vec<u64>) {
    let mut fetches = 0;
    let mut waits = vec![];
    let mut clock = 0;
    loop {
        match session.next_action() {
            UploadAction::FetchStatus { after_secs } => {
                waits.push(after_secs);
                clock += after_secs;
                let report = reports.get(fetches).copied().unwrap_or("PROCESSING");
                fetches += 1;
                session.on_status(Ok(info(report)), at(clock));
            }
            UploadAction::Finish => return (fetches, waits),
            other => panic!("unexpected action {:?}", other),
        }
    }
}

fn processing_session() -> UploadSession {
    let mut session = UploadSession::new();
    assert_eq!(session.next_action(), UploadAction::StartUpload);
    session.on_start(Ok("https://upload.example/session".to_string()));
    assert_eq!(session.next_action(), UploadAction::TransferBytes);
    session.on_transfer(Ok(info("PROCESSING")));
    assert_eq!(session.state, UploadState::Processing);
    session
}

#[test]
fn test_extract_file_id() {
    assert_eq!(FileApiClient::extract_file_id("files/abc123"), "abc123");
    assert_eq!(FileApiClient::extract_file_id("abc123"), "abc123");
    assert_eq!(FileApiClient::extract_file_id("files/4knqiglwmyp7"), "4knqiglwmyp7");
}

#[test]
fn processing_for_k_polls_then_active_takes_k_plus_one_fetches() {
    for k in 0..20usize {
        let mut reports = vec!["PROCESSING"; k];
        reports.push("ACTIVE");
        let mut session = processing_session();
        let (fetches, waits) = poll(&mut session, &reports);
        assert_eq!(fetches, k + 1);
        assert_eq!(session.status_fetches, (k + 1) as u64);
        assert_eq!(session.state, UploadState::Active);
        assert_eq!(waits[0], 0);
        assert!(waits[1..].iter().all(|w| *w == FILE_PROCESSING_POLL_INTERVAL_SECS));
        assert_eq!(session.next_action(), UploadAction::Finish);
        let file = session.into_result().unwrap();
        assert_eq!(file.state, "ACTIVE");
        assert_eq!(file.name, "files/abc123");
    }
}

#[test]
fn permanent_processing_times_out_and_polls_no_more() {
    let mut session = processing_session();
    let (fetches, _) = poll(&mut session, &[]);
    // Looks at 0 s, 2 s, ..., 300 s do not exceed the budget; the one at 302 s does.
    assert_eq!(fetches, 152);
    assert_eq!(session.state, UploadState::TimedOut);
    assert_eq!(session.next_action(), UploadAction::Finish);
    assert_eq!(session.next_action(), UploadAction::Finish);
    assert_eq!(session.status_fetches, 152);
    match session.into_result() {
        Err(FileApiError::FileProcessingTimeout(secs)) => {
            assert_eq!(secs, FILE_PROCESSING_TIMEOUT_SECS)
        }
        other => panic!("unexpected result {:?}", other),
    }
}

#[test]
fn the_budget_is_exceeded_by_the_first_nanosecond_beyond_it() {
    assert!(!at(300).is_longer_than(300));
    assert!(Elapsed { secs: 300, nanos: 1 }.is_longer_than(300));
    assert!(!Elapsed { secs: 299, nanos: 999_999_999 }.is_longer_than(300));
    assert!(at(301).is_longer_than(300));

    let mut session = processing_session();
    session.on_status(Ok(info("PROCESSING")), at(300));
    assert_eq!(session.state, UploadState::Processing);
    session.on_status(Ok(info("PROCESSING")), Elapsed { secs: 300, nanos: 1 });
    assert_eq!(session.state, UploadState::TimedOut);
}

#[test]
fn the_word_of_the_service_counts_before_the_clock() {
    let mut session = processing_session();
    session.on_status(Ok(info("ACTIVE")), at(1000));
    assert_eq!(session.state, UploadState::Active);
    let mut session = processing_session();
    session.on_status(Ok(info("FAILED")), at(1000));
    assert_eq!(session.state, UploadState::Failed);
}

#[test]
fn a_file_reported_failed_fails_the_upload() {
    let mut session = processing_session();
    let (fetches, _) = poll(&mut session, &["PROCESSING", "FAILED", "ACTIVE"]);
    assert_eq!(fetches, 2);
    assert_eq!(session.state, UploadState::Failed);
    match session.into_result() {
        Err(FileApiError::UploadFailed(detail)) => {
            assert_eq!(detail, "File processing failed for files/abc123")
        }
        other => panic!("unexpected result {:?}", other),
    }
}

#[test]
fn an_error_while_polling_fails_the_upload() {
    let mut session = processing_session();
    session.on_status(Err(FileApiError::ApiError { status: 404, message: "gone".to_string() }), at(0));
    assert_eq!(session.state, UploadState::Failed);
    assert_eq!(session.status_fetches, 1);
    assert_eq!(session.next_action(), UploadAction::Finish);
    assert!(matches!(
        session.into_result(),
        Err(FileApiError::ApiError { status: 404, message }) if message == "gone"
    ));
}

#[test]
fn a_file_that_is_active_at_once_is_not_polled() {
    let mut session = UploadSession::new();
    session.on_start(Ok("u".to_string()));
    session.on_transfer(Ok(info("ACTIVE")));
    assert_eq!(session.state, UploadState::Active);
    assert_eq!(session.next_action(), UploadAction::Finish);
    assert_eq!(session.status_fetches, 0);
    assert_eq!(session.into_result().unwrap().uri, info("").uri);
}

#[test]
fn a_file_reported_failed_after_the_transfer_is_looked_at_once() {
    let mut session = UploadSession::new();
    session.on_start(Ok("u".to_string()));
    session.on_transfer(Ok(info("FAILED")));
    assert_eq!(session.state, UploadState::Processing);
    assert_eq!(session.file_name(), "files/abc123");
    let (fetches, _) = poll(&mut session, &["FAILED"]);
    assert_eq!(fetches, 1);
    assert_eq!(session.state, UploadState::Failed);
}

#[test]
fn failures_before_processing_end_the_upload() {
    let mut session = UploadSession::new();
    session.on_start(Err(FileApiError::MissingUploadUrl));
    assert_eq!(session.state, UploadState::Failed);
    assert_eq!(session.next_action(), UploadAction::Finish);
    assert!(matches!(session.into_result(), Err(FileApiError::MissingUploadUrl)));

    let mut session = UploadSession::new();
    session.on_start(Ok("u".to_string()));
    assert_eq!(session.upload_url.as_deref(), Some("u"));
    session.on_transfer(Err(FileApiError::UploadFailed("HTTP 500".to_string())));
    assert_eq!(session.state, UploadState::Failed);
    assert!(matches!(session.into_result(), Err(FileApiError::UploadFailed(_))));
}

#[test]
fn start_request_declares_size_type_and_name() {
    let client = FileApiClient::new("KEY".to_string());
    let request = client.start_upload(52428800, "audio/mpeg", "talk.mp3");
    assert_eq!(
        request.url,
        "https://generativelanguage.googleapis.com/upload/v1beta/files?key=KEY"
    );
    let headers: Vec<(&str, &str)> =
        request.headers.iter().map(|h| (h.name.as_str(), h.value.as_str())).collect();
    assert_eq!(
        headers,
        vec![
            ("X-Goog-Upload-Protocol", "resumable"),
            ("X-Goog-Upload-Command", "start"),
            ("X-Goog-Upload-Header-Content-Length", "52428800"),
            ("X-Goog-Upload-Header-Content-Type", "audio/mpeg"),
            ("Content-Type", "application/json"),
        ]
    );
    assert_eq!(request.body.unwrap().to_string(), r#"{"file":{"display_name":"talk.mp3"}}"#);
}

#[test]
fn transfer_request_sends_everything_at_once() {
    let client = FileApiClient::new("KEY".to_string());
    let request = client.upload_bytes("https://upload.example/session", 1234);
    assert_eq!(request.url, "https://upload.example/session");
    let headers: Vec<(&str, &str)> =
        request.headers.iter().map(|h| (h.name.as_str(), h.value.as_str())).collect();
    assert_eq!(
        headers,
        vec![
            ("Content-Length", "1234"),
            ("X-Goog-Upload-Offset", "0"),
            ("X-Goog-Upload-Command", "upload, finalize"),
        ]
    );
    assert!(request.body.is_none());
    assert_eq!(client.upload_bytes("u", 0).headers[0].value, "0");
}

#[test]
fn files_are_looked_up_and_deleted_by_id() {
    let client = FileApiClient::new("KEY".to_string());
    let expected = "https://generativelanguage.googleapis.com/v1beta/files/abc123?key=KEY";
    assert_eq!(client.get_file_info("files/abc123"), expected);
    assert_eq!(client.get_file_info("abc123"), expected);
    assert_eq!(client.delete_file("files/abc123"), expected);
    assert_eq!(FileApiClient::extract_file_id("files/"), "");
    assert_eq!(FileApiClient::extract_file_id("files/files/x"), "files/x");
    assert_eq!(FileApiClient::extract_file_id("Files/x"), "Files/x");
}

fn reply(status: u16, reason: &str, body: &str, upload_url: Option<&str>) -> Transmission {
    Transmission::Replied(HttpReply {
        status,
        reason: reason.to_string(),
        upload_url: upload_url.map(|s| s.to_string()),
        body: body.to_string(),
    })
}

#[test]
fn rejected_replies_become_the_error_of_their_exchange() {
    let rejected = || reply(404, "Not Found", "no such file", None);
    assert!(matches!(
        check_reply(Endpoint::StartUpload, rejected()),
        Err(FileApiError::UploadInitFailed(detail)) if detail == "HTTP 404 Not Found: no such file"
    ));
    assert!(matches!(
        check_reply(Endpoint::UploadBytes, rejected()),
        Err(FileApiError::UploadFailed(detail)) if detail == "HTTP 404 Not Found: no such file"
    ));
    assert!(matches!(
        check_reply(Endpoint::DeleteFile, rejected()),
        Err(FileApiError::DeleteFailed(detail)) if detail == "HTTP 404 Not Found: no such file"
    ));
    assert!(matches!(
        check_reply(Endpoint::FileInfo, rejected()),
        Err(FileApiError::ApiError { status: 404, message }) if message == "no such file"
    ));
    // Rate limiting has no error of its own at the file service.
    assert!(matches!(
        check_reply(Endpoint::FileInfo, reply(429, "Too Many Requests", "", None)),
        Err(FileApiError::ApiError { status: 429, .. })
    ));
}

#[test]
fn replies_in_the_2xx_range_pass() {
    for status in [200, 201, 204, 299] {
        let passed = check_reply(Endpoint::FileInfo, reply(status, "OK", "{}", None)).unwrap();
        assert_eq!(passed.status, status);
        assert_eq!(passed.body, "{}");
    }
    for status in [0, 199, 300, 302, 400, 500] {
        assert!(check_reply(Endpoint::DeleteFile, reply(status, "X", "", None)).is_err());
    }
    assert!(matches!(
        check_reply(Endpoint::UploadBytes, Transmission::Failed("timed out".to_string())),
        Err(FileApiError::NetworkError(detail)) if detail == "timed out"
    ));
}

#[test]
fn the_start_reply_must_carry_the_address_of_the_session() {
    assert_eq!(
        FileApiClient::read_start_reply(reply(200, "OK", "", Some("https://u.example/1"))).unwrap(),
        "https://u.example/1"
    );
    assert!(matches!(
        FileApiClient::read_start_reply(reply(200, "OK", "", None)),
        Err(FileApiError::MissingUploadUrl)
    ));
    assert!(matches!(
        FileApiClient::read_start_reply(reply(403, "Forbidden", "key", Some("https://u.example/1"))),
        Err(FileApiError::UploadInitFailed(detail)) if detail == "HTTP 403 Forbidden: key"
    ));
    assert!(matches!(
        FileApiClient::read_start_reply(Transmission::Failed("dns".to_string())),
        Err(FileApiError::NetworkError(detail)) if detail == "dns"
    ));
}

#[test]
fn file_api_error_messages() {
    let cases = [
        (FileApiError::UploadInitFailed("x".to_string()), "Failed to initiate upload: x"),
        (FileApiError::MissingUploadUrl, "Missing upload URL in response headers"),
        (FileApiError::UploadFailed("y".to_string()), "Failed to upload file bytes: y"),
        (FileApiError::FileProcessingTimeout(300), "File processing timeout after 300 seconds"),
        (FileApiError::DeleteFailed("z".to_string()), "Failed to delete file: z"),
        (FileApiError::NetworkError("n".to_string()), "Network error: n"),
        (FileApiError::JsonError("j".to_string()), "JSON parsing error: j"),
        (FileApiError::ApiError { status: 65535, message: "m".to_string() }, "API error (65535): m"),
    ];
    for (error, message) in cases {
        assert_eq!(error.to_string(), message);
    }
}
