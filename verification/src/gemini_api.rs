//! Transcription: audio goes to a Gemini model, inline or by reference to
//! an uploaded file, and a structured transcript comes back.

use crate::codec::{base64_encoding, encodable_len, encode_base64};
use crate::json::{json_array, json_model, json_models, json_object, json_set, json_text, JsonModel};
use crate::payload::{
    contents, contents_model, file_part, file_part_model, inline_part, inline_part_model, single,
    single_member, text_part, text_part_model,
};
use crate::remote::{
    api_error_message, api_error_text, generate_content_address, generate_content_url,
    max_retries_message, max_retries_text, status_class, ReplyFailure,
};
use crate::retry::{ErrorClass, RemoteError, RetryContext};
use crate::text::{
    concat, decimal, found_text, lowered, path_extension, str_eq, to_lowercase, u64_to_string,
};
use vstd::prelude::*;
use vstd::string::*;

verus! {

/// The largest payload, in bytes, that may travel inline in a request.
pub const MAX_INLINE_FILE_SIZE: u64 = 20 * 1024 * 1024;

/// Default time allowed for one call, in seconds. Large files take long.
pub const DEFAULT_TIMEOUT_SECS: u64 = 600;

/// Default number of attempts for one call.
pub const DEFAULT_MAX_RETRIES: u32 = 3;

/// The model that transcribes where the caller names none.
pub const DEFAULT_MODEL: &'static str = "gemini-2.5-flash";

/// What the model is asked to do with the audio.
pub const TRANSCRIPTION_PROMPT: &'static str =
    "Process the audio file and generate a detailed transcription.\n\
     \n\
     Requirements:\n\
     1. Identify distinct speakers (e.g., Speaker 1, Speaker 2, or names if context allows).\n\
     2. Provide accurate timestamps for each segment (Format: MM:SS).\n\
     3. Detect the primary language of each segment.\n\
     4. If the segment is in a language different than English, also provide the English \
     translation.\n\
     5. Identify the primary emotion of the speaker in this segment. You MUST choose exactly \
     one of the following: Happy, Sad, Angry, Neutral.\n\
     6. Provide a brief summary of the entire audio at the beginning.";

/// Why a transcription could not be had.
#[derive(Debug)]
pub enum GeminiError {
    MissingApiKey,
    FileTooLarge { size: u64, max: u64 },
    ApiError { status: u16, message: String },
    RateLimited,
    InvalidResponse(String),
    NetworkError(String),
    JsonError(String),
    MaxRetriesExceeded(u32),
}

impl GeminiError {
    /// The message of the error.
    pub open spec fn text(self) -> Seq<char> {
        match self {
            GeminiError::MissingApiKey =>
                "API key not found in environment (set GEMINI_API_KEY or GOOGLE_AI_KEY)"@,
            GeminiError::FileTooLarge { size, max } => "File too large: "@ + decimal(size as nat)
                + " bytes (max: "@ + decimal(max as nat)
                + " bytes). Consider using shorter audio."@,
            GeminiError::ApiError { status, message } => api_error_text(status, message@),
            GeminiError::RateLimited => "Rate limited by API. Retry after some time."@,
            GeminiError::InvalidResponse(detail) => "Invalid response from Gemini API: "@
                + detail@,
            GeminiError::NetworkError(detail) => "Network error: "@ + detail@,
            GeminiError::JsonError(detail) => "JSON parsing error: "@ + detail@,
            GeminiError::MaxRetriesExceeded(limit) => max_retries_text(limit),
        }
    }

    /// Renders the message of the error.
    pub fn to_string(&self) -> (r: String)
        ensures
            r@ == self.text(),
    {
        match self {
            GeminiError::MissingApiKey => String::from_str(
                "API key not found in environment (set GEMINI_API_KEY or GOOGLE_AI_KEY)",
            ),
            GeminiError::FileTooLarge { size, max } => {
                let mut r = concat("File too large: ", u64_to_string(*size).as_str());
                r.append(" bytes (max: ");
                r.append(u64_to_string(*max).as_str());
                r.append(" bytes). Consider using shorter audio.");
                r
            },
            GeminiError::ApiError { status, message } => api_error_message(
                *status,
                message.as_str(),
            ),
            GeminiError::RateLimited => String::from_str(
                "Rate limited by API. Retry after some time.",
            ),
            GeminiError::InvalidResponse(detail) => concat(
                "Invalid response from Gemini API: ",
                detail.as_str(),
            ),
            GeminiError::NetworkError(detail) => concat("Network error: ", detail.as_str()),
            GeminiError::JsonError(detail) => concat("JSON parsing error: ", detail.as_str()),
            GeminiError::MaxRetriesExceeded(limit) => max_retries_message(*limit),
        }
    }

    /// How the retry policy sees the error: rate limiting, network
    /// failures and API errors with a status of 500 or above are
    /// transient, everything else is fatal.
    pub open spec fn class(self) -> ErrorClass {
        match self {
            GeminiError::RateLimited => ErrorClass::RateLimited,
            GeminiError::NetworkError(_) => ErrorClass::Transport,
            GeminiError::ApiError { status, .. } => status_class(status),
            _ => ErrorClass::Fatal,
        }
    }

    /// The error that stands for a failed exchange with the service.
    pub open spec fn of_failure(failure: ReplyFailure) -> GeminiError {
        match failure {
            ReplyFailure::RateLimited => GeminiError::RateLimited,
            ReplyFailure::Api { status, message } => GeminiError::ApiError { status, message },
            ReplyFailure::Network(detail) => GeminiError::NetworkError(detail),
            ReplyFailure::InvalidResponse(detail) => GeminiError::InvalidResponse(detail),
            ReplyFailure::Json(detail) => GeminiError::JsonError(detail),
            ReplyFailure::MaxRetriesExceeded(limit) => GeminiError::MaxRetriesExceeded(limit),
        }
    }

    /// Computes [`GeminiError::of_failure`].
    pub fn from_failure(failure: ReplyFailure) -> (e: GeminiError)
        ensures
            e == Self::of_failure(failure),
            e.class() == failure.class(),
    {
        match failure {
            ReplyFailure::RateLimited => GeminiError::RateLimited,
            ReplyFailure::Api { status, message } => GeminiError::ApiError { status, message },
            ReplyFailure::Network(detail) => GeminiError::NetworkError(detail),
            ReplyFailure::InvalidResponse(detail) => GeminiError::InvalidResponse(detail),
            ReplyFailure::Json(detail) => GeminiError::JsonError(detail),
            ReplyFailure::MaxRetriesExceeded(limit) => GeminiError::MaxRetriesExceeded(limit),
        }
    }
}

/// How a transcription client is set up.
#[derive(Debug, Clone)]
pub struct GeminiClientConfig {
    pub timeout_secs: u64,
    pub max_retries: u32,
    pub model: String,
}

impl Default for GeminiClientConfig {
    fn default() -> (r: Self)
        ensures
            r.timeout_secs == DEFAULT_TIMEOUT_SECS,
            r.max_retries == DEFAULT_MAX_RETRIES,
            r.model@ == DEFAULT_MODEL@,
    {
        GeminiClientConfig {
            timeout_secs: DEFAULT_TIMEOUT_SECS,
            max_retries: DEFAULT_MAX_RETRIES,
            model: String::from_str(DEFAULT_MODEL),
        }
    }
}

/// Where the audio of a transcription comes from.
#[derive(Debug, Clone)]
pub enum AudioSource {
    /// The bytes themselves, for payloads within the inline limit.
    Inline { mime_type: String, data: Vec<u8> },
    /// A file that was uploaded before, for larger payloads.
    FileUri { mime_type: String, uri: String },
}

/// One stretch of speech in a transcript.
#[derive(Debug)]
pub struct TranscriptSegment {
    pub speaker: String,
    pub timestamp: String,
    pub content: String,
    pub language: String,
    pub language_code: String,
    pub translation: Option<String>,
    pub emotion: String,
}

/// A transcript: a summary and the segments in order.
#[derive(Debug)]
pub struct TranscriptResponse {
    pub summary: String,
    pub segments: Vec<TranscriptSegment>,
}

/// The content type that goes with a lower-case audio file extension;
/// `audio/mpeg` where the extension names no known audio format.
pub open spec fn audio_mime_type(extension: Option<Seq<char>>) -> Seq<char> {
    match extension {
        None => "audio/mpeg"@,
        Some(e) => if e == "mp3"@ {
            "audio/mpeg"@
        } else if e == "wav"@ {
            "audio/wav"@
        } else if e == "ogg"@ {
            "audio/ogg"@
        } else if e == "flac"@ {
            "audio/flac"@
        } else if e == "m4a"@ {
            "audio/mp4"@
        } else if e == "aac"@ {
            "audio/aac"@
        } else if e == "wma"@ {
            "audio/x-ms-wma"@
        } else if e == "webm"@ {
            "audio/webm"@
        } else {
            "audio/mpeg"@
        },
    }
}

/// The content type of an audio file with the given extension, whatever
/// its letter case.
pub fn mime_type_for_extension(extension: Option<&str>) -> (mime_type: &'static str)
    ensures
        mime_type@ == audio_mime_type(lowered(found_text(extension))),
{
    match extension {
        None => "audio/mpeg",
        Some(extension) => {
            let lower = to_lowercase(extension);
            let e = lower.as_str();
            if str_eq(e, "mp3") {
                "audio/mpeg"
            } else if str_eq(e, "wav") {
                "audio/wav"
            } else if str_eq(e, "ogg") {
                "audio/ogg"
            } else if str_eq(e, "flac") {
                "audio/flac"
            } else if str_eq(e, "m4a") {
                "audio/mp4"
            } else if str_eq(e, "aac") {
                "audio/aac"
            } else if str_eq(e, "wma") {
                "audio/x-ms-wma"
            } else if str_eq(e, "webm") {
                "audio/webm"
            } else {
                "audio/mpeg"
            }
        },
    }
}

/// The object `{"type": name}` of a response schema.
pub open spec fn typed(name: Seq<char>) -> JsonModel {
    single("type"@, JsonModel::Text(name))
}

/// The array of the given texts.
pub open spec fn texts(items: Seq<Seq<char>>) -> JsonModel {
    JsonModel::Array(items.map_values(|t: Seq<char>| JsonModel::Text(t)))
}

/// The schema of one segment of a transcript.
pub open spec fn segment_schema() -> JsonModel {
    typed("OBJECT"@).with(
        "properties"@,
        JsonModel::empty_object().with("speaker"@, typed("STRING"@)).with(
            "timestamp"@,
            typed("STRING"@),
        ).with("content"@, typed("STRING"@)).with("language"@, typed("STRING"@)).with(
            "language_code"@,
            typed("STRING"@),
        ).with("translation"@, typed("STRING"@)).with(
            "emotion"@,
            typed("STRING"@).with("enum"@, texts(seq!["happy"@, "sad"@, "angry"@, "neutral"@])),
        ),
    ).with(
        "required"@,
        texts(
            seq!["speaker"@, "timestamp"@, "content"@, "language"@, "language_code"@, "emotion"@],
        ),
    )
}

/// The schema that the model's answer must follow.
pub open spec fn response_schema() -> JsonModel {
    typed("OBJECT"@).with(
        "properties"@,
        JsonModel::empty_object().with(
            "summary"@,
            typed("STRING"@).with(
                "description"@,
                JsonModel::Text("A concise summary of the audio content."@),
            ),
        ).with(
            "segments"@,
            typed("ARRAY"@).with(
                "description"@,
                JsonModel::Text("List of transcribed segments with speaker and timestamp."@),
            ).with("items"@, segment_schema()),
        ),
    ).with("required"@, texts(seq!["summary"@, "segments"@]))
}

/// The generation configuration of a transcription request: the answer
/// is JSON and follows [`response_schema`].
pub open spec fn generation_config_model() -> JsonModel {
    JsonModel::empty_object().with(
        "response_mime_type"@,
        JsonModel::Text("application/json"@),
    ).with("response_schema"@, response_schema())
}

/// The body of a transcription request: the prompt, then the audio, and
/// the generation configuration.
pub open spec fn transcription_payload(audio_part: JsonModel) -> JsonModel {
    single(
        "contents"@,
        contents_model(seq![text_part_model(TRANSCRIPTION_PROMPT@), audio_part]),
    ).with("generation_config"@, generation_config_model())
}

/// The JSON string values of the given texts, in order.
fn text_values(items: Vec<&'static str>) -> (r: serde_json::Value)
    ensures
        json_model(r) == texts(items@.map_values(|t: &'static str| t@)),
{
    let mut values: Vec<serde_json::Value> = Vec::new();
    let mut i: usize = 0;
    while i < items.len()
        invariant
            i <= items.len(),
            json_models(values@) =~= items@.take(i as int).map_values(
                |t: &'static str| JsonModel::Text(t@),
            ),
        decreases items.len() - i,
    {
        let ghost before = values@;
        let value = json_text(items[i]);
        values.push(value);
        proof {
            assert(items@.take(i + 1) =~= items@.take(i as int).push(items@[i as int]));
            assert(json_models(values@) =~= json_models(before).push(json_model(value)));
        }
        i = i + 1;
    }
    proof {
        assert(items@.take(items.len() as int) =~= items@);
        assert(items@.map_values(|t: &'static str| JsonModel::Text(t@)) =~= items@.map_values(
            |t: &'static str| t@,
        ).map_values(|t: Seq<char>| JsonModel::Text(t)));
    }
    json_array(values)
}

/// Builds [`typed`].
fn typed_value(name: &str) -> (r: serde_json::Value)
    ensures
        json_model(r) == typed(name@),
{
    single_member("type", json_text(name))
}

/// Builds [`segment_schema`].
fn segment_schema_value() -> (r: serde_json::Value)
    ensures
        json_model(r) == segment_schema(),
{
    let mut emotion = typed_value("STRING");
    let emotions = text_values(vec!["happy", "sad", "angry", "neutral"]);
    proof {
        assert(seq!["happy", "sad", "angry", "neutral"].map_values(|t: &'static str| t@)
            =~= seq!["happy"@, "sad"@, "angry"@, "neutral"@]);
    }
    json_set(&mut emotion, "enum", emotions);
    let mut properties = json_object();
    json_set(&mut properties, "speaker", typed_value("STRING"));
    json_set(&mut properties, "timestamp", typed_value("STRING"));
    json_set(&mut properties, "content", typed_value("STRING"));
    json_set(&mut properties, "language", typed_value("STRING"));
    json_set(&mut properties, "language_code", typed_value("STRING"));
    json_set(&mut properties, "translation", typed_value("STRING"));
    json_set(&mut properties, "emotion", emotion);
    let required = text_values(
        vec!["speaker", "timestamp", "content", "language", "language_code", "emotion"],
    );
    proof {
        assert(seq![
            "speaker",
            "timestamp",
            "content",
            "language",
            "language_code",
            "emotion",
        ].map_values(|t: &'static str| t@) =~= seq![
            "speaker"@,
            "timestamp"@,
            "content"@,
            "language"@,
            "language_code"@,
            "emotion"@,
        ]);
    }
    let mut schema = typed_value("OBJECT");
    json_set(&mut schema, "properties", properties);
    json_set(&mut schema, "required", required);
    schema
}

/// A transcription call that is ready to be sent: where to, what, and the
/// state of its retries. Each reply goes through
/// [`crate::remote::read_text_reply`] and then to `retry`.
#[derive(Debug)]
pub struct TranscriptionCall {
    pub url: String,
    pub payload: serde_json::Value,
    pub retry: RetryContext<ReplyFailure>,
}

/// A client of the transcription service: the API key and the settings
/// under which requests are made.
#[derive(Debug, Clone)]
pub struct GeminiClient {
    api_key: String,
    config: GeminiClientConfig,
}

impl GeminiClient {
    /// The API key of the client.
    pub closed spec fn key(&self) -> Seq<char> {
        self.api_key@
    }

    /// The settings of the client.
    pub closed spec fn settings(&self) -> GeminiClientConfig {
        self.config
    }

    /// A client with the default settings.
    pub fn new(api_key: String) -> (client: Self)
        ensures
            client.key() == api_key@,
            client.settings().timeout_secs == DEFAULT_TIMEOUT_SECS,
            client.settings().max_retries == DEFAULT_MAX_RETRIES,
            client.settings().model@ == DEFAULT_MODEL@,
    {
        GeminiClient {
            api_key,
            config: GeminiClientConfig {
                timeout_secs: DEFAULT_TIMEOUT_SECS,
                max_retries: DEFAULT_MAX_RETRIES,
                model: String::from_str(DEFAULT_MODEL),
            },
        }
    }

    pub fn with_config(api_key: String, config: GeminiClientConfig) -> (client: Self)
        ensures
            client.key() == api_key@,
            client.settings() == config,
    {
        GeminiClient { api_key, config }
    }

    /// The same client with another model.
    pub fn with_model(self, model: &str) -> (client: Self)
        ensures
            client.key() == self.key(),
            client.settings().model@ == model@,
            client.settings().timeout_secs == self.settings().timeout_secs,
            client.settings().max_retries == self.settings().max_retries,
    {
        GeminiClient {
            api_key: self.api_key,
            config: GeminiClientConfig {
                timeout_secs: self.config.timeout_secs,
                max_retries: self.config.max_retries,
                model: String::from_str(model),
            },
        }
    }

    /// The API key, for the client of the file service.
    pub fn api_key(&self) -> (key: &str)
        ensures
            key@ == self.key(),
    {
        self.api_key.as_str()
    }

    /// The settings of the client.
    pub fn config(&self) -> (config: &GeminiClientConfig)
        ensures
            *config == self.settings(),
    {
        &self.config
    }

    /// Accepts a payload that may travel inline and refuses a larger one.
    pub fn validate_file_size(size: u64) -> (r: Result<(), GeminiError>)
        ensures
            size <= MAX_INLINE_FILE_SIZE ==> r is Ok,
            size > MAX_INLINE_FILE_SIZE ==> (r matches Err(
                GeminiError::FileTooLarge { size: reported, max },
            ) && reported == size && max == MAX_INLINE_FILE_SIZE),
    {
        if size > MAX_INLINE_FILE_SIZE {
            return Err(GeminiError::FileTooLarge { size, max: MAX_INLINE_FILE_SIZE });
        }
        Ok(())
    }

    /// Whether a payload of this size must be uploaded as a file first.
    pub fn requires_file_api(size: u64) -> (r: bool)
        ensures
            r == (size > MAX_INLINE_FILE_SIZE),
    {
        size > MAX_INLINE_FILE_SIZE
    }

    /// The content type of the audio file at `path`, by the extension of
    /// its file name: what [`mime_type_for_extension`] says of it.
    pub fn get_mime_type(path: &str) -> (mime_type: &'static str)
        ensures
            exists|found: Option<Seq<char>>| mime_type@ == audio_mime_type(lowered(found)),
    {
        match path_extension(path) {
            Some(extension) => {
                let r = mime_type_for_extension(Some(extension.as_str()));
                assert(r@ == audio_mime_type(lowered(Some(extension@))));
                r
            },
            None => {
                let r = mime_type_for_extension(None);
                assert(r@ == audio_mime_type(lowered(None)));
                r
            },
        }
    }

    /// The address that transcription requests of this client go to.
    pub fn request_url(&self) -> (url: String)
        ensures
            url@ == generate_content_address(self.settings().model@, self.key()),
    {
        generate_content_url(self.config.model.as_str(), self.api_key.as_str())
    }

    /// Whether a failed call is worth repeating.
    pub fn is_retryable_error(err: &GeminiError) -> (r: bool)
        ensures
            r == err.class().retryable(),
    {
        match err {
            GeminiError::RateLimited => true,
            GeminiError::NetworkError(_) => true,
            GeminiError::ApiError { status, .. } => *status >= 500,
            _ => false,
        }
    }

    /// The generation configuration of every transcription request:
    /// builds [`generation_config_model`].
    pub fn get_generation_config() -> (r: serde_json::Value)
        ensures
            json_model(r) == generation_config_model(),
    {
        let mut summary = typed_value("STRING");
        json_set(
            &mut summary,
            "description",
            json_text("A concise summary of the audio content."),
        );
        let mut segments = typed_value("ARRAY");
        json_set(
            &mut segments,
            "description",
            json_text("List of transcribed segments with speaker and timestamp."),
        );
        json_set(&mut segments, "items", segment_schema_value());
        let mut properties = json_object();
        json_set(&mut properties, "summary", summary);
        json_set(&mut properties, "segments", segments);
        let required = text_values(vec!["summary", "segments"]);
        proof {
            assert(seq!["summary", "segments"].map_values(|t: &'static str| t@) =~= seq![
                "summary"@,
                "segments"@,
            ]);
        }
        let mut schema = typed_value("OBJECT");
        json_set(&mut schema, "properties", properties);
        json_set(&mut schema, "required", required);
        let mut config = json_object();
        json_set(&mut config, "response_mime_type", json_text("application/json"));
        json_set(&mut config, "response_schema", schema);
        config
    }

    /// The bytes as standard base64 text.
    pub fn encode_to_base64(data: &[u8]) -> (r: String)
        requires
            encodable_len(data@.len()),
        ensures
            r@ == base64_encoding(data@),
    {
        encode_base64(data)
    }

    /// The prompt of every transcription request.
    pub fn get_transcription_prompt() -> (prompt: &'static str)
        ensures
            prompt@ == TRANSCRIPTION_PROMPT@,
    {
        TRANSCRIPTION_PROMPT
    }

    /// A call with the given audio part, unless no attempt is allowed.
    fn prepare(&self, audio_part: serde_json::Value) -> (r: Result<TranscriptionCall, GeminiError>)
        ensures
            self.call_prepared(json_model(audio_part), r),
    {
        let retry: RetryContext<ReplyFailure> = RetryContext::new(self.config.max_retries);
        match retry.start() {
            Some(refusal) => Err(GeminiError::from_failure(refusal)),
            None => {
                let mut parts: Vec<serde_json::Value> = Vec::new();
                parts.push(text_part(TRANSCRIPTION_PROMPT));
                parts.push(audio_part);
                proof {
                    assert(json_models(parts@) =~= seq![
                        text_part_model(TRANSCRIPTION_PROMPT@),
                        json_model(audio_part),
                    ]);
                }
                let mut payload = single_member("contents", contents(parts));
                json_set(&mut payload, "generation_config", Self::get_generation_config());
                Ok(TranscriptionCall { url: self.request_url(), payload, retry })
            },
        }
    }

    /// What a prepared transcription is: a refusal where no attempt is
    /// allowed, else the call with its address, its body and fresh retry
    /// state.
    pub open spec fn call_prepared(
        &self,
        audio_part: JsonModel,
        r: Result<TranscriptionCall, GeminiError>,
    ) -> bool {
        if self.settings().max_retries == 0 {
            r matches Err(GeminiError::MaxRetriesExceeded(0))
        } else {
            &&& r matches Ok(call)
            &&& call.url@ == generate_content_address(self.settings().model@, self.key())
            &&& json_model(call.payload) == transcription_payload(audio_part)
            &&& call.retry.wf()
            &&& call.retry.attempt == 0
            &&& call.retry.max_attempts == self.settings().max_retries
        }
    }

    /// Prepares the transcription of audio that travels inline, as base64
    /// text. Audio beyond the inline limit is refused.
    pub fn transcribe_audio(&self, audio_data: &[u8], mime_type: &str) -> (r: Result<
        TranscriptionCall,
        GeminiError,
    >)
        ensures
            audio_data@.len() > MAX_INLINE_FILE_SIZE ==> (r matches Err(
                GeminiError::FileTooLarge { size, max },
            ) && size == audio_data@.len() && max == MAX_INLINE_FILE_SIZE),
            audio_data@.len() <= MAX_INLINE_FILE_SIZE ==> self.call_prepared(
                inline_part_model(mime_type@, base64_encoding(audio_data@)),
                r,
            ),
    {
        if audio_data.len() > 20 * 1024 * 1024 {
            return Err(
                GeminiError::FileTooLarge {
                    size: audio_data.len() as u64,
                    max: MAX_INLINE_FILE_SIZE,
                },
            );
        }
        let encoded = encode_base64(audio_data);
        self.prepare(inline_part(mime_type, encoded.as_str()))
    }

    /// Prepares the transcription of audio that was uploaded as a file.
    pub fn transcribe_file_uri(&self, file_uri: &str, mime_type: &str) -> (r: Result<
        TranscriptionCall,
        GeminiError,
    >)
        ensures
            self.call_prepared(file_part_model(mime_type@, file_uri@), r),
    {
        self.prepare(file_part(mime_type, file_uri))
    }

    /// The audio part that stands for a source.
    pub open spec fn source_part(source: AudioSource) -> JsonModel {
        match source {
            AudioSource::Inline { mime_type, data } => inline_part_model(
                mime_type@,
                base64_encoding(data@),
            ),
            AudioSource::FileUri { mime_type, uri } => file_part_model(mime_type@, uri@),
        }
    }

    /// Prepares the transcription of audio from either source.
    pub fn transcribe_source(&self, source: &AudioSource) -> (r: Result<
        TranscriptionCall,
        GeminiError,
    >)
        ensures
            match *source {
                AudioSource::Inline { mime_type, data } => if data@.len() > MAX_INLINE_FILE_SIZE {
                    r matches Err(GeminiError::FileTooLarge { size, max }) && size == data@.len()
                        && max == MAX_INLINE_FILE_SIZE
                } else {
                    self.call_prepared(Self::source_part(*source), r)
                },
                AudioSource::FileUri { .. } => self.call_prepared(Self::source_part(*source), r),
            },
    {
        match source {
            AudioSource::Inline { mime_type, data } => self.transcribe_audio(
                data.as_slice(),
                mime_type.as_str(),
            ),
            AudioSource::FileUri { mime_type, uri } => self.transcribe_file_uri(
                uri.as_str(),
                mime_type.as_str(),
            ),
        }
    }
}

} // verus!
