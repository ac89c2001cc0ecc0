use transcript_tool::remote::{
    api_error_message, generate_content_url, max_retries_message, read_document, read_image,
    read_image_reply, read_text, read_text_reply, HttpReply, ImageFailure, ReplyFailure,
    Transmission, GEMINI_API_URL, SERVER_ERROR_FLOOR, TOO_MANY_REQUESTS,
};
use transcript_tool::payload::{
    contents, file_part, image_generation, inline_part, single_member, text_array2, text_members,
    text_part,
};
use transcript_tool::retry::{CallStep, ErrorClass, RemoteError, RetryContext};
use transcript_tool::{AspectRatio, ImageSize};

fn reply(status: u16, body: &str) -> Transmission {
    Transmission::Replied(HttpReply {
        status,
        reason: "R".to_string(),
        upload_url: None,
        body: body.to_string(),
    })
}

fn doc(text: &str) -> serde_json::Value {
    serde_json::from_str(text).unwrap()
}

#[test]
fn a_failed_transmission_is_a_network_failure() {
    assert!(matches!(
        read_document(Transmission::Failed("connection reset".to_string())),
        Err(ReplyFailure::Network(message)) if message == "connection reset"
    ));
}

#[test]
fn status_429_is_rate_limiting() {
    assert_eq!(TOO_MANY_REQUESTS, 429);
    assert_eq!(SERVER_ERROR_FLOOR, 500);
    assert!(matches!(read_document(reply(429, "{}")), Err(ReplyFailure::RateLimited)));
}

#[test]
fn other_statuses_outside_2xx_are_api_errors_with_the_body() {
    for status in [0u16, 100, 199, 300, 301, 400, 404, 428, 430, 500, 503, 999] {
        match read_document(reply(status, "what went wrong")) {
            Err(ReplyFailure::Api { status: reported, message }) => {
                assert_eq!(reported, status);
                assert_eq!(message, "what went wrong");
            }
            other => panic!("unexpected reading {:?}", other),
        }
    }
}

#[test]
fn an_accepted_body_must_be_json() {
    for status in [200u16, 201, 299] {
        let document = read_document(reply(status, r#"{"a":[1,"b",null,true,{"c":2.5}]}"#)).unwrap();
        assert_eq!(document["a"][1], "b");
        assert_eq!(document["a"][4]["c"], 2.5);
    }
    match read_document(reply(200, "<html>")) {
        Err(ReplyFailure::Json(message)) => assert!(!message.is_empty()),
        other => panic!("unexpected reading {:?}", other),
    }
    assert!(matches!(read_document(reply(200, "")), Err(ReplyFailure::Json(_))));
    assert!(matches!(read_document(reply(204, "{\"a\":")), Err(ReplyFailure::Json(_))));
}

#[test]
fn the_text_of_a_reply_is_in_the_first_part_of_the_first_candidate() {
    let document = doc(
        r#"{"candidates":[{"content":{"parts":[{"text":"first"},{"text":"second"}]}},{"content":{"parts":[{"text":"other"}]}}]}"#,
    );
    assert_eq!(read_text(&document).unwrap(), "first");
    for broken in [
        r#"{}"#,
        r#"[]"#,
        r#"null"#,
        r#"{"candidates":[]}"#,
        r#"{"candidates":{"0":{"content":{"parts":[{"text":"x"}]}}}}"#,
        r#"{"candidates":[{"content":{"parts":[]}}]}"#,
        r#"{"candidates":[{"content":{"parts":[{"text":7}]}}]}"#,
        r#"{"candidates":[{"content":{"parts":[{"inlineData":{}}]}}]}"#,
        r#"{"candidates":[{"content":{"parts":{"text":"x"}}}]}"#,
    ] {
        assert!(matches!(
            read_text(&doc(broken)),
            Err(ReplyFailure::InvalidResponse(message)) if message == "Missing text in response"
        ));
    }
    assert_eq!(
        read_text_reply(reply(200, r#"{"candidates":[{"content":{"parts":[{"text":""}]}}]}"#))
            .unwrap(),
        ""
    );
    assert!(matches!(read_text_reply(reply(429, "")), Err(ReplyFailure::RateLimited)));
    assert!(matches!(
        read_text_reply(reply(200, "{}")),
        Err(ReplyFailure::InvalidResponse(_))
    ));
    assert!(matches!(read_text_reply(reply(200, "{")), Err(ReplyFailure::Json(_))));
}

#[test]
fn the_image_is_in_the_first_part_with_inline_data() {
    let document = doc(
        r#"{"candidates":[{"content":{"parts":[{"text":"t"},{"inlineData":{"mimeType":"image/jpeg","data":"aGVsbG8gd29ybGQ="}},{"inlineData":{"mimeType":"image/png","data":"AQIDBA=="}}]}}]}"#,
    );
    let image = read_image(&document).unwrap();
    assert_eq!(image.mime_type, "image/jpeg");
    assert_eq!(image.data, b"hello world");
}

#[test]
fn an_image_without_a_type_counts_as_png() {
    for inline in [r#"{"data":"AQIDBA=="}"#, r#"{"mimeType":5,"data":"AQIDBA=="}"#] {
        let document =
            doc(&format!(r#"{{"candidates":[{{"content":{{"parts":[{{"inlineData":{}}}]}}}}]}}"#, inline));
        let image = read_image(&document).unwrap();
        assert_eq!(image.mime_type, "image/png");
        assert_eq!(image.data, vec![1, 2, 3, 4]);
    }
}

#[test]
fn replies_without_a_usable_image() {
    let in_parts = |parts: &str| {
        doc(&format!(r#"{{"candidates":[{{"content":{{"parts":{}}}}}]}}"#, parts))
    };
    for broken in [r#"{}"#, r#"{"candidates":[{"content":{}}]}"#, r#"{"candidates":[{"content":{"parts":"x"}}]}"#] {
        assert!(matches!(
            read_image(&doc(broken)),
            Err(ImageFailure::Reply(ReplyFailure::InvalidResponse(message)))
                if message == "Missing parts in response"
        ));
    }
    assert!(matches!(read_image(&in_parts("[]")), Err(ImageFailure::NoImageData)));
    assert!(matches!(
        read_image(&in_parts(r#"[{"text":"a"},{"inline_data":{"data":"AQID"}},7]"#)),
        Err(ImageFailure::NoImageData)
    ));
    for inline in [r#"{}"#, r#"null"#, r#"{"data":17}"#, r#"{"mimeType":"image/png"}"#, r#""AQID""#] {
        assert!(matches!(
            read_image(&in_parts(&format!(r#"[{{"inlineData":{}}}]"#, inline))),
            Err(ImageFailure::Reply(ReplyFailure::InvalidResponse(message)))
                if message == "Missing image data"
        ));
    }
    // The first part with inline data decides, also where a later one is sound.
    assert!(matches!(
        read_image(&in_parts(r#"[{"inlineData":{}},{"inlineData":{"data":"AQID"}}]"#)),
        Err(ImageFailure::Reply(ReplyFailure::InvalidResponse(_)))
    ));
    match read_image(&in_parts(r#"[{"inlineData":{"data":"not base64!"}}]"#)) {
        Err(ImageFailure::Base64(message)) => assert!(!message.is_empty()),
        other => panic!("unexpected reading {:?}", other),
    }
    assert!(matches!(
        read_image(&in_parts(r#"[{"inlineData":{"data":"AQIDBA"}}]"#)),
        Err(ImageFailure::Base64(_))
    ));
    assert_eq!(read_image(&in_parts(r#"[{"inlineData":{"data":""}}]"#)).unwrap().data, Vec::<u8>::new());
}

#[test]
fn image_replies_are_read_from_the_transmission() {
    let body = r#"{"candidates":[{"content":{"parts":[{"inlineData":{"data":"AQIDBA=="}}]}}]}"#;
    assert_eq!(read_image_reply(reply(200, body)).unwrap().data, vec![1, 2, 3, 4]);
    assert!(matches!(
        read_image_reply(reply(429, body)),
        Err(ImageFailure::Reply(ReplyFailure::RateLimited))
    ));
    assert!(matches!(
        read_image_reply(reply(500, "x")),
        Err(ImageFailure::Reply(ReplyFailure::Api { status: 500, message })) if message == "x"
    ));
    assert!(matches!(
        read_image_reply(Transmission::Failed("t".to_string())),
        Err(ImageFailure::Reply(ReplyFailure::Network(message))) if message == "t"
    ));
    assert!(matches!(
        read_image_reply(reply(200, "not json")),
        Err(ImageFailure::Reply(ReplyFailure::Json(_)))
    ));
}

#[test]
fn a_malformed_reply_is_never_retried() {
    let malformed = [
        "",
        "not json",
        "{\"candidates\":",
        "{}",
        "{\"candidates\":[{\"content\":{\"parts\":[{\"text\":5}]}}]}",
        "{\"candidates\":[{\"content\":{\"parts\":[{\"inlineData\":{}}]}}]}",
        "{\"candidates\":[{\"content\":{\"parts\":[{\"inlineData\":{\"data\":\"%%\"}}]}}]}",
    ];
    for body in malformed {
        for max_attempts in [1u32, 3, 100] {
            if let Err(failure) = read_text_reply(reply(200, body)) {
                assert_eq!(failure.classify(), ErrorClass::Fatal, "{}", body);
                let mut retry: RetryContext<ReplyFailure> = RetryContext::new(max_attempts);
                assert!(matches!(retry.on_result::<()>(Err(failure)), CallStep::Finish(Err(_))));
                assert_eq!(retry.attempt, 0);
            }
            let failure = read_image_reply(reply(200, body)).unwrap_err();
            assert_eq!(failure.classify(), ErrorClass::Fatal, "{}", body);
            let mut retry: RetryContext<ImageFailure> = RetryContext::new(max_attempts);
            assert!(matches!(retry.on_result::<()>(Err(failure)), CallStep::Finish(Err(_))));
            assert_eq!(retry.attempt, 0);
        }
    }
    assert!(read_text_reply(reply(200, malformed[0])).is_err());
    assert!(read_text_reply(reply(200, malformed[1])).is_err());
    assert!(read_text_reply(reply(200, malformed[4])).is_err());
}

#[test]
fn addresses_and_messages() {
    assert_eq!(GEMINI_API_URL, "https://generativelanguage.googleapis.com/v1beta/models");
    assert_eq!(
        generate_content_url("m", "k"),
        "https://generativelanguage.googleapis.com/v1beta/models/m:generateContent?key=k"
    );
    assert_eq!(api_error_message(0, ""), "Gemini API error (0): ");
    assert_eq!(api_error_message(10, "x"), "Gemini API error (10): x");
    assert_eq!(api_error_message(65535, "x"), "Gemini API error (65535): x");
    assert_eq!(max_retries_message(3), "Max retries (3) exceeded");
    assert_eq!(max_retries_message(100), "Max retries (100) exceeded");
}

#[test]
fn payload_pieces() {
    assert_eq!(text_part("hi \"there\"").to_string(), r#"{"text":"hi \"there\""}"#);
    assert_eq!(
        inline_part("audio/wav", "QUJD").to_string(),
        r#"{"inline_data":{"data":"QUJD","mime_type":"audio/wav"}}"#
    );
    assert_eq!(
        file_part("audio/wav", "u://f").to_string(),
        r#"{"file_data":{"file_uri":"u://f","mime_type":"audio/wav"}}"#
    );
    assert_eq!(contents(vec![]).to_string(), r#"[{"parts":[]}]"#);
    assert_eq!(
        contents(vec![text_part("a"), text_part("b")]).to_string(),
        r#"[{"parts":[{"text":"a"},{"text":"b"}]}]"#
    );
    assert_eq!(single_member("k", text_array2("x", "y")).to_string(), r#"{"k":["x","y"]}"#);
    assert_eq!(text_members("a", "1", "b", "2").to_string(), r#"{"a":"1","b":"2"}"#);
    assert_eq!(text_members("a", "1", "a", "2").to_string(), r#"{"a":"2"}"#);
    assert_eq!(
        image_generation(Some(ImageSize::K2), Some(AspectRatio::Portrait)).to_string(),
        r#"{"imageConfig":{"aspectRatio":"3:4","imageSize":"2K"},"responseModalities":["TEXT","IMAGE"]}"#
    );
    assert_eq!(
        image_generation(None, None).to_string(),
        r#"{"imageConfig":{"aspectRatio":"1:1","imageSize":"1K"},"responseModalities":["TEXT","IMAGE"]}"#
    );
}
