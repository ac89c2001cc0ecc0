//! What comes back from the remote service, read the same way for every
//! capability: the transport's verdict, the HTTP status, and the fields of
//! the JSON document that the callers need.

use crate::codec::{base64_decoding, decode_base64, decode_error_text};
use crate::imagen_api::GeneratedImage;
use crate::json::{
    json_as_array, json_as_str, json_error_text, json_field, json_get, json_item, json_model,
    json_models, json_parse, parsed_json, JsonModel,
};
use crate::retry::{ErrorClass, RemoteError};
use crate::text::{concat, decimal, u64_to_string};
use vstd::prelude::*;
use vstd::string::*;

verus! {

/// The status with which the service refuses a request for rate limiting.
pub const TOO_MANY_REQUESTS: u16 = 429;

/// The least status that reports a fault of the server.
pub const SERVER_ERROR_FLOOR: u16 = 500;

/// An HTTP reply, reduced to what the library reads.
#[derive(Debug, Clone)]
pub struct HttpReply {
    /// The status code.
    pub status: u16,
    /// The reason phrase that goes with the status code.
    pub reason: String,
    /// The value of the `x-goog-upload-url` header, where the reply has
    /// one.
    pub upload_url: Option<String>,
    /// The text of the body.
    pub body: String,
}

/// How one attempt to reach the service ended.
#[derive(Debug, Clone)]
pub enum Transmission {
    /// No reply arrived; the text says what the transport reported.
    Failed(String),
    /// The service replied.
    Replied(HttpReply),
}

/// Why a reply could not be used, whatever was asked of the service.
#[derive(Debug, Clone)]
pub enum ReplyFailure {
    /// The service refused the request for rate limiting.
    RateLimited,
    /// The service answered with a status outside the 2xx range.
    Api { status: u16, message: String },
    /// No reply arrived.
    Network(String),
    /// The document lacks a field that the caller needs.
    InvalidResponse(String),
    /// The body of the reply, or a text inside the document, is not the
    /// JSON it should be.
    Json(String),
    /// No attempt was allowed: the limit on attempts, which is carried
    /// along, is zero.
    MaxRetriesExceeded(u32),
}

/// Why a reply held no usable image.
#[derive(Debug, Clone)]
pub enum ImageFailure {
    Reply(ReplyFailure),
    /// No part of the reply carries inline data.
    NoImageData,
    /// The inline data is no base64 text.
    Base64(String),
}

/// Whether a status lies in the 2xx range.
pub open spec fn is_success(status: u16) -> bool {
    200 <= status <= 299
}

/// The class of a failure that is known by its HTTP status alone.
pub open spec fn status_class(status: u16) -> ErrorClass {
    if status >= SERVER_ERROR_FLOOR {
        ErrorClass::Server
    } else {
        ErrorClass::Fatal
    }
}

/// Computes [`status_class`].
pub fn classify_status(status: u16) -> (c: ErrorClass)
    ensures
        c == status_class(status),
{
    if status >= SERVER_ERROR_FLOOR {
        ErrorClass::Server
    } else {
        ErrorClass::Fatal
    }
}

impl RemoteError for ReplyFailure {
    /// Rate limiting and transport failures are transient, so is a server
    /// fault; the rest is fatal.
    open spec fn class(&self) -> ErrorClass {
        match *self {
            ReplyFailure::RateLimited => ErrorClass::RateLimited,
            ReplyFailure::Network(_) => ErrorClass::Transport,
            ReplyFailure::Api { status, .. } => status_class(status),
            ReplyFailure::InvalidResponse(_) => ErrorClass::Fatal,
            ReplyFailure::Json(_) => ErrorClass::Fatal,
            ReplyFailure::MaxRetriesExceeded(_) => ErrorClass::Fatal,
        }
    }

    fn classify(&self) -> (c: ErrorClass) {
        match self {
            ReplyFailure::RateLimited => ErrorClass::RateLimited,
            ReplyFailure::Network(_) => ErrorClass::Transport,
            ReplyFailure::Api { status, .. } => classify_status(*status),
            ReplyFailure::InvalidResponse(_) => ErrorClass::Fatal,
            ReplyFailure::Json(_) => ErrorClass::Fatal,
            ReplyFailure::MaxRetriesExceeded(_) => ErrorClass::Fatal,
        }
    }

    open spec fn exhausted_spec(max_attempts: u32) -> Self {
        ReplyFailure::MaxRetriesExceeded(max_attempts)
    }

    fn exhausted(max_attempts: u32) -> (e: Self) {
        ReplyFailure::MaxRetriesExceeded(max_attempts)
    }
}

impl RemoteError for ImageFailure {
    /// A reply without a usable image is fatal; the rest goes by the
    /// reply.
    open spec fn class(&self) -> ErrorClass {
        match *self {
            ImageFailure::Reply(failure) => failure.class(),
            _ => ErrorClass::Fatal,
        }
    }

    fn classify(&self) -> (c: ErrorClass) {
        match self {
            ImageFailure::Reply(failure) => failure.classify(),
            _ => ErrorClass::Fatal,
        }
    }

    open spec fn exhausted_spec(max_attempts: u32) -> Self {
        ImageFailure::Reply(ReplyFailure::MaxRetriesExceeded(max_attempts))
    }

    fn exhausted(max_attempts: u32) -> (e: Self) {
        ImageFailure::Reply(ReplyFailure::MaxRetriesExceeded(max_attempts))
    }
}

/// What the status line of a reply says, before its body is looked at.
pub enum StatusReading {
    RateLimited,
    Rejected,
    Accepted,
}

/// Reads a status: 429 is rate limiting, any other status outside 2xx a
/// rejection.
pub open spec fn status_reading(status: u16) -> StatusReading {
    if status == TOO_MANY_REQUESTS {
        StatusReading::RateLimited
    } else if !is_success(status) {
        StatusReading::Rejected
    } else {
        StatusReading::Accepted
    }
}

/// The failure that the transport or the status line alone decides: a
/// failed transmission is a network failure with the transport's text,
/// status 429 is rate limiting, any other status outside 2xx is an API
/// error that carries the status and the body. `None` for an accepted
/// reply.
pub open spec fn early_failure(transmission: Transmission) -> Option<ReplyFailure> {
    match transmission {
        Transmission::Failed(message) => Some(ReplyFailure::Network(message)),
        Transmission::Replied(reply) => match status_reading(reply.status) {
            StatusReading::RateLimited => Some(ReplyFailure::RateLimited),
            StatusReading::Rejected => Some(
                ReplyFailure::Api { status: reply.status, message: reply.body },
            ),
            StatusReading::Accepted => None,
        },
    }
}

/// The body of a reply.
pub open spec fn body_of(transmission: Transmission) -> Seq<char>
    recommends
        transmission is Replied,
{
    transmission->Replied_0.body@
}

/// Turns the outcome of one attempt into the JSON document of the reply.
///
/// Transport and status are read as [`early_failure`] says. The body of an
/// accepted reply must parse as JSON; a body that does not is a malformed
/// reply, which no further attempt would mend.
pub fn read_document(transmission: Transmission) -> (r: Result<serde_json::Value, ReplyFailure>)
    ensures
        match early_failure(transmission) {
            Some(failure) => r == Err::<serde_json::Value, ReplyFailure>(failure),
            None => match parsed_json(body_of(transmission)) {
                Some(model) => r matches Ok(doc) && json_model(doc) == model,
                None => r matches Err(ReplyFailure::Json(_)),
            },
        },
{
    match transmission {
        Transmission::Failed(message) => Err(ReplyFailure::Network(message)),
        Transmission::Replied(reply) => {
            if reply.status == TOO_MANY_REQUESTS {
                Err(ReplyFailure::RateLimited)
            } else if reply.status < 200 || reply.status > 299 {
                Err(ReplyFailure::Api { status: reply.status, message: reply.body })
            } else {
                match json_parse(reply.body.as_str()) {
                    Ok(doc) => Ok(doc),
                    Err(e) => Err(ReplyFailure::Json(json_error_text(&e))),
                }
            }
        },
    }
}

/// The parts of the first candidate of a reply, if it has any.
pub open spec fn reply_parts(doc: JsonModel) -> Option<Seq<JsonModel>> {
    doc.field("candidates"@).item(0).field("content"@).field("parts"@).items()
}

/// The text of the first part of the first candidate, if it is there.
pub open spec fn reply_text(doc: JsonModel) -> Option<Seq<char>> {
    doc.field("candidates"@).item(0).field("content"@).field("parts"@).item(0).field(
        "text"@,
    ).text()
}

/// The inline data of the first part that carries any.
pub open spec fn first_inline_data(parts: Seq<JsonModel>) -> Option<JsonModel>
    decreases parts.len(),
{
    if parts.len() == 0 {
        None
    } else {
        match parts[0].member("inlineData"@) {
            Some(inline) => Some(inline),
            None => first_inline_data(parts.skip(1)),
        }
    }
}

/// What a reply holds for a caller that expects an image.
pub enum ImageReading {
    /// The first candidate has no array of parts.
    MissingParts,
    /// No part carries inline data.
    NoImage,
    /// The first inline data has no text under `data`.
    MissingData,
    /// That text is no base64.
    BadEncoding,
    /// The image: its content type (`image/png` where the reply names
    /// none) and its bytes.
    Image { mime_type: Seq<char>, data: Seq<u8> },
}

/// Reads the image out of a reply: the first part with inline data
/// decides.
pub open spec fn image_reading(doc: JsonModel) -> ImageReading {
    match reply_parts(doc) {
        None => ImageReading::MissingParts,
        Some(parts) => match first_inline_data(parts) {
            None => ImageReading::NoImage,
            Some(inline) => match inline.field("data"@).text() {
                None => ImageReading::MissingData,
                Some(encoded) => match base64_decoding(encoded) {
                    None => ImageReading::BadEncoding,
                    Some(data) => ImageReading::Image {
                        mime_type: match inline.field("mimeType"@).text() {
                            Some(mime_type) => mime_type,
                            None => "image/png"@,
                        },
                        data,
                    },
                },
            },
        },
    }
}

/// Extracts the text that a transcription reply carries. A reply without
/// it is invalid.
pub fn read_text(doc: &serde_json::Value) -> (r: Result<String, ReplyFailure>)
    ensures
        match reply_text(json_model(*doc)) {
            Some(text) => r matches Ok(s) && s@ == text,
            None => r matches Err(ReplyFailure::InvalidResponse(message)) && message@
                == "Missing text in response"@,
        },
{
    let part = json_item(
        json_field(json_field(json_item(json_field(doc, "candidates"), 0), "content"), "parts"),
        0,
    );
    match json_as_str(json_field(part, "text")) {
        Some(text) => Ok(String::from_str(text)),
        None => Err(ReplyFailure::InvalidResponse(String::from_str("Missing text in response"))),
    }
}

/// Extracts the image that a generation or edit reply carries.
///
/// The parts of the first candidate are searched in order for one with
/// inline data. Its `data` is decoded from base64; its `mimeType`, where
/// absent, counts as `image/png`.
pub fn read_image(doc: &serde_json::Value) -> (r: Result<GeneratedImage, ImageFailure>)
    ensures
        match image_reading(json_model(*doc)) {
            ImageReading::MissingParts => r matches Err(
                ImageFailure::Reply(ReplyFailure::InvalidResponse(message)),
            ) && message@ == "Missing parts in response"@,
            ImageReading::NoImage => r matches Err(ImageFailure::NoImageData),
            ImageReading::MissingData => r matches Err(
                ImageFailure::Reply(ReplyFailure::InvalidResponse(message)),
            ) && message@ == "Missing image data"@,
            ImageReading::BadEncoding => r matches Err(ImageFailure::Base64(_)),
            ImageReading::Image { mime_type, data } => r matches Ok(image) && image.mime_type@
                == mime_type && image.data@ == data,
        },
{
    let holder = json_field(
        json_field(json_item(json_field(doc, "candidates"), 0), "content"),
        "parts",
    );
    let parts = match json_as_array(holder) {
        Some(parts) => parts,
        None => {
            return Err(
                ImageFailure::Reply(
                    ReplyFailure::InvalidResponse(String::from_str("Missing parts in response")),
                ),
            );
        },
    };
    let ghost models = json_models(parts@);
    let mut i: usize = 0;
    proof {
        assert(models.skip(0) =~= models);
    }
    while i < parts.len()
        invariant
            i <= parts.len(),
            models == json_models(parts@),
            reply_parts(json_model(*doc)) == Some(models),
            first_inline_data(models) == first_inline_data(models.skip(i as int)),
        decreases parts.len() - i,
    {
        proof {
            assert(models.skip(i as int)[0] == json_model(parts@[i as int]));
            assert(models.skip(i as int).skip(1) =~= models.skip(i + 1));
        }
        match json_get(&parts[i], "inlineData") {
            Some(inline) => {
                let mime_type = match json_as_str(json_field(inline, "mimeType")) {
                    Some(mime_type) => String::from_str(mime_type),
                    None => String::from_str("image/png"),
                };
                let encoded = match json_as_str(json_field(inline, "data")) {
                    Some(encoded) => encoded,
                    None => {
                        return Err(
                            ImageFailure::Reply(
                                ReplyFailure::InvalidResponse(
                                    String::from_str("Missing image data"),
                                ),
                            ),
                        );
                    },
                };
                return match decode_base64(encoded) {
                    Ok(data) => Ok(GeneratedImage { data, mime_type }),
                    Err(e) => Err(ImageFailure::Base64(decode_error_text(&e))),
                };
            },
            None => {},
        }
        i = i + 1;
    }
    Err(ImageFailure::NoImageData)
}

/// What a transcription reply must be for a given outcome of an attempt:
/// the early failure where there is one, else the text of the document.
pub open spec fn text_reply_matches(
    transmission: Transmission,
    r: Result<String, ReplyFailure>,
) -> bool {
    match early_failure(transmission) {
        Some(failure) => r == Err::<String, ReplyFailure>(failure),
        None => match parsed_json(body_of(transmission)) {
            None => r matches Err(ReplyFailure::Json(_)),
            Some(doc) => match reply_text(doc) {
                Some(text) => r matches Ok(s) && s@ == text,
                None => r matches Err(ReplyFailure::InvalidResponse(message)) && message@
                    == "Missing text in response"@,
            },
        },
    }
}

/// What an image reply must be for a given outcome of an attempt: the
/// early failure where there is one, else what the document holds.
pub open spec fn image_reply_matches(
    transmission: Transmission,
    r: Result<GeneratedImage, ImageFailure>,
) -> bool {
    match early_failure(transmission) {
        Some(failure) => r == Err::<GeneratedImage, ImageFailure>(ImageFailure::Reply(failure)),
        None => match parsed_json(body_of(transmission)) {
            None => r matches Err(ImageFailure::Reply(ReplyFailure::Json(_))),
            Some(doc) => match image_reading(doc) {
                ImageReading::MissingParts => r matches Err(
                    ImageFailure::Reply(ReplyFailure::InvalidResponse(message)),
                ) && message@ == "Missing parts in response"@,
                ImageReading::NoImage => r matches Err(ImageFailure::NoImageData),
                ImageReading::MissingData => r matches Err(
                    ImageFailure::Reply(ReplyFailure::InvalidResponse(message)),
                ) && message@ == "Missing image data"@,
                ImageReading::BadEncoding => r matches Err(ImageFailure::Base64(_)),
                ImageReading::Image { mime_type, data } => r matches Ok(image) && image.mime_type@
                    == mime_type && image.data@ == data,
            },
        },
    }
}

/// One attempt at a transcription, from what came back to the text that
/// holds the transcript.
pub fn read_text_reply(transmission: Transmission) -> (r: Result<String, ReplyFailure>)
    ensures
        text_reply_matches(transmission, r),
{
    match read_document(transmission) {
        Ok(doc) => read_text(&doc),
        Err(failure) => Err(failure),
    }
}

/// One attempt at an image, from what came back to the image.
pub fn read_image_reply(transmission: Transmission) -> (r: Result<GeneratedImage, ImageFailure>)
    ensures
        image_reply_matches(transmission, r),
{
    match read_document(transmission) {
        Ok(doc) => read_image(&doc),
        Err(failure) => Err(ImageFailure::Reply(failure)),
    }
}

/// A reply that is accepted but malformed is never retried, whichever way
/// it is malformed: a body that is no JSON, a document without the text or
/// the parts that are asked of it, an image part without data, data that
/// is no base64.
pub proof fn lemma_malformed_reply_is_fatal(
    reply: HttpReply,
    text: Result<String, ReplyFailure>,
    image: Result<GeneratedImage, ImageFailure>,
)
    requires
        is_success(reply.status),
        text_reply_matches(Transmission::Replied(reply), text),
        image_reply_matches(Transmission::Replied(reply), image),
    ensures
        text matches Err(failure) ==> !failure.class().retryable(),
        image matches Err(failure) ==> !failure.class().retryable(),
{
}

/// A failure to get a reply, or a reply that the status line rejects, is
/// retried exactly when no reply arrived or the status reports rate
/// limiting or a fault of the server.
pub proof fn lemma_early_failure_class(transmission: Transmission)
    ensures
        match early_failure(transmission) {
            Some(failure) => failure.class().retryable() <==> (transmission is Failed
                || transmission->Replied_0.status == TOO_MANY_REQUESTS
                || transmission->Replied_0.status >= SERVER_ERROR_FLOOR),
            None => transmission is Replied && is_success(transmission->Replied_0.status),
        },
{
}

/// A reply that the status line rejects is retried exactly when the
/// status reports rate limiting or a fault of the server.
pub proof fn lemma_rejected_status_class(reply: HttpReply)
    requires
        !is_success(reply.status),
    ensures
        early_failure(Transmission::Replied(reply)) matches Some(failure) && (
        failure.class().retryable() <==> reply.status == TOO_MANY_REQUESTS || reply.status
            >= SERVER_ERROR_FLOOR),
{
}

/// Where the generative models of the service live.
pub const GEMINI_API_URL: &'static str = "https://generativelanguage.googleapis.com/v1beta/models";

/// The address to which content for `model_name` is sent, with the API
/// key as a query parameter.
pub open spec fn generate_content_address(model_name: Seq<char>, api_key: Seq<char>) -> Seq<char> {
    GEMINI_API_URL@ + "/"@ + model_name + ":generateContent?key="@ + api_key
}

/// Builds [`generate_content_address`].
pub fn generate_content_url(model_name: &str, api_key: &str) -> (url: String)
    ensures
        url@ == generate_content_address(model_name@, api_key@),
{
    let mut url = concat(GEMINI_API_URL, "/");
    url.append(model_name);
    url.append(":generateContent?key=");
    url.append(api_key);
    url
}

/// The message of an API error: the status in decimal, then what the
/// service said.
pub open spec fn api_error_text(status: u16, message: Seq<char>) -> Seq<char> {
    "Gemini API error ("@ + decimal(status as nat) + "): "@ + message
}

/// Builds [`api_error_text`].
pub fn api_error_message(status: u16, message: &str) -> (r: String)
    ensures
        r@ == api_error_text(status, message@),
{
    let mut r = concat("Gemini API error (", u64_to_string(status as u64).as_str());
    r.append("): ");
    r.append(message);
    r
}

/// The message that reports that the limit on attempts left no attempt.
pub open spec fn max_retries_text(limit: u32) -> Seq<char> {
    "Max retries ("@ + decimal(limit as nat) + ") exceeded"@
}

/// Builds [`max_retries_text`].
pub fn max_retries_message(limit: u32) -> (r: String)
    ensures
        r@ == max_retries_text(limit),
{
    let mut r = concat("Max retries (", u64_to_string(limit as u64).as_str());
    r.append(") exceeded");
    r
}

} // verus!
