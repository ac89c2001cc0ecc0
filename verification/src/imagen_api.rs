//! Image generation: the models and options the service offers, the
//! request it expects and the reply it gives.

use crate::json::{json_model, json_models, json_set, JsonModel};
use crate::payload::{
    contents, contents_model, image_generation, image_generation_model, single, single_member,
    text_part, text_part_model,
};
use crate::remote::{
    api_error_message, api_error_text, generate_content_address, generate_content_url,
    max_retries_message, max_retries_text, ImageFailure, ReplyFailure,
};
use crate::retry::{ErrorClass, RemoteError, RetryContext};
use crate::text::{concat, lowercase, str_eq, to_lowercase};
use vstd::prelude::*;
use vstd::string::*;

verus! {

/// Default time allowed for one call, in seconds.
pub const DEFAULT_TIMEOUT_SECS: u64 = 120;

/// Default number of attempts for one call.
pub const DEFAULT_MAX_RETRIES: u32 = 3;

/// The image generation models the service offers.
#[derive(Debug, Clone, Copy, PartialEq, Eq, Structural)]
pub enum ImageModel {
    /// Gemini 2.5 Flash Image: fast generation.
    Gemini25Flash,
    /// Gemini 3 Pro Image Preview: higher quality, with size and aspect
    /// ratio options.
    Gemini3Pro,
}

impl Default for ImageModel {
    fn default() -> (r: Self)
        ensures
            r == ImageModel::Gemini25Flash,
    {
        ImageModel::Gemini25Flash
    }
}

impl ImageModel {
    /// The name by which the service knows the model.
    pub open spec fn api_name(self) -> Seq<char> {
        match self {
            ImageModel::Gemini25Flash => "gemini-2.5-flash-image"@,
            ImageModel::Gemini3Pro => "gemini-3-pro-image-preview"@,
        }
    }

    /// The short name that users write and read.
    pub open spec fn short_name(self) -> Seq<char> {
        match self {
            ImageModel::Gemini25Flash => "2.5-flash"@,
            ImageModel::Gemini3Pro => "3pro"@,
        }
    }

    /// The model that a lower-case name denotes.
    pub open spec fn named(lower: Seq<char>) -> Option<ImageModel> {
        if lower == "2.5-flash"@ || lower == "flash"@ || lower == "gemini-2.5-flash-image"@ {
            Some(ImageModel::Gemini25Flash)
        } else if lower == "3pro"@ || lower == "3-pro"@ || lower == "pro"@ || lower
            == "gemini-3-pro-image-preview"@ {
            Some(ImageModel::Gemini3Pro)
        } else {
            None
        }
    }

    pub fn api_model_name(&self) -> (name: &'static str)
        ensures
            name@ == self.api_name(),
    {
        match self {
            ImageModel::Gemini25Flash => "gemini-2.5-flash-image",
            ImageModel::Gemini3Pro => "gemini-3-pro-image-preview",
        }
    }

    /// Whether the model takes an image configuration (size, aspect
    /// ratio): only Gemini 3 Pro does.
    pub fn supports_image_config(&self) -> (r: bool)
        ensures
            r == (*self == ImageModel::Gemini3Pro),
    {
        match self {
            ImageModel::Gemini3Pro => true,
            ImageModel::Gemini25Flash => false,
        }
    }

    /// The short name of the model.
    pub fn to_string(&self) -> (r: String)
        ensures
            r@ == self.short_name(),
    {
        match self {
            ImageModel::Gemini25Flash => String::from_str("2.5-flash"),
            ImageModel::Gemini3Pro => String::from_str("3pro"),
        }
    }

    /// Reads a model name, in any letter case: a short name, an alias or
    /// the service's own name. Any other text is rejected with a message
    /// that quotes it.
    pub fn from_str(s: &str) -> (r: Result<ImageModel, String>)
        ensures
            match r {
                Ok(model) => Self::named(lowercase(s@)) == Some(model),
                Err(message) => Self::named(lowercase(s@)) is None && message@
                    == "Unknown model: "@ + s@ + ". Use '2.5-flash' or '3pro'"@,
            },
    {
        let lower_text = to_lowercase(s);
        let lower = lower_text.as_str();
        if str_eq(lower, "2.5-flash") || str_eq(lower, "flash") || str_eq(
            lower,
            "gemini-2.5-flash-image",
        ) {
            Ok(ImageModel::Gemini25Flash)
        } else if str_eq(lower, "3pro") || str_eq(lower, "3-pro") || str_eq(lower, "pro")
            || str_eq(lower, "gemini-3-pro-image-preview") {
            Ok(ImageModel::Gemini3Pro)
        } else {
            let mut message = concat("Unknown model: ", s);
            message.append(". Use '2.5-flash' or '3pro'");
            Err(message)
        }
    }
}

/// Image sizes (Gemini 3 Pro only).
#[derive(Debug, Clone, Copy, PartialEq, Eq, Structural)]
pub enum ImageSize {
    K1,
    K2,
    K4,
}

impl Default for ImageSize {
    fn default() -> (r: Self)
        ensures
            r == ImageSize::K1,
    {
        ImageSize::K1
    }
}

impl ImageSize {
    /// The text by which the service knows the size.
    pub open spec fn api_text(self) -> Seq<char> {
        match self {
            ImageSize::K1 => "1K"@,
            ImageSize::K2 => "2K"@,
            ImageSize::K4 => "4K"@,
        }
    }

    /// The size that a text denotes. The `K` is upper case.
    pub open spec fn named(s: Seq<char>) -> Option<ImageSize> {
        if s == "1K"@ {
            Some(ImageSize::K1)
        } else if s == "2K"@ {
            Some(ImageSize::K2)
        } else if s == "4K"@ {
            Some(ImageSize::K4)
        } else {
            None
        }
    }

    pub fn api_value(&self) -> (value: &'static str)
        ensures
            value@ == self.api_text(),
    {
        match self {
            ImageSize::K1 => "1K",
            ImageSize::K2 => "2K",
            ImageSize::K4 => "4K",
        }
    }

    /// The text of the size, as the service knows it.
    pub fn to_string(&self) -> (r: String)
        ensures
            r@ == self.api_text(),
    {
        String::from_str(self.api_value())
    }

    /// Reads a size, in exactly the case the service uses. Any other text
    /// is rejected with a message that quotes it.
    pub fn from_str(s: &str) -> (r: Result<ImageSize, String>)
        ensures
            match r {
                Ok(size) => Self::named(s@) == Some(size),
                Err(message) => Self::named(s@) is None && message@ == "Invalid image size: "@
                    + s@ + ". Must be 1K, 2K, or 4K (uppercase K required)"@,
            },
    {
        if str_eq(s, "1K") {
            Ok(ImageSize::K1)
        } else if str_eq(s, "2K") {
            Ok(ImageSize::K2)
        } else if str_eq(s, "4K") {
            Ok(ImageSize::K4)
        } else {
            let mut message = concat("Invalid image size: ", s);
            message.append(". Must be 1K, 2K, or 4K (uppercase K required)");
            Err(message)
        }
    }
}

/// Aspect ratios (Gemini 3 Pro only).
#[derive(Debug, Clone, Copy, PartialEq, Eq, Structural)]
pub enum AspectRatio {
    /// 1:1
    Square,
    /// 16:9
    Wide,
    /// 9:16
    Tall,
    /// 4:3
    Standard,
    /// 3:4
    Portrait,
}

impl Default for AspectRatio {
    fn default() -> (r: Self)
        ensures
            r == AspectRatio::Square,
    {
        AspectRatio::Square
    }
}

impl AspectRatio {
    /// The text by which the service knows the ratio.
    pub open spec fn api_text(self) -> Seq<char> {
        match self {
            AspectRatio::Square => "1:1"@,
            AspectRatio::Wide => "16:9"@,
            AspectRatio::Tall => "9:16"@,
            AspectRatio::Standard => "4:3"@,
            AspectRatio::Portrait => "3:4"@,
        }
    }

    /// The ratio that a text denotes: the service's text or the ratio's
    /// lower-case name.
    pub open spec fn named(s: Seq<char>) -> Option<AspectRatio> {
        if s == "1:1"@ || s == "square"@ {
            Some(AspectRatio::Square)
        } else if s == "16:9"@ || s == "wide"@ {
            Some(AspectRatio::Wide)
        } else if s == "9:16"@ || s == "tall"@ {
            Some(AspectRatio::Tall)
        } else if s == "4:3"@ || s == "standard"@ {
            Some(AspectRatio::Standard)
        } else if s == "3:4"@ || s == "portrait"@ {
            Some(AspectRatio::Portrait)
        } else {
            None
        }
    }

    pub fn api_value(&self) -> (value: &'static str)
        ensures
            value@ == self.api_text(),
    {
        match self {
            AspectRatio::Square => "1:1",
            AspectRatio::Wide => "16:9",
            AspectRatio::Tall => "9:16",
            AspectRatio::Standard => "4:3",
            AspectRatio::Portrait => "3:4",
        }
    }

    /// The text of the ratio, as the service knows it.
    pub fn to_string(&self) -> (r: String)
        ensures
            r@ == self.api_text(),
    {
        String::from_str(self.api_value())
    }

    /// Reads an aspect ratio. Any text that denotes none is rejected with
    /// a message that quotes it.
    pub fn from_str(s: &str) -> (r: Result<AspectRatio, String>)
        ensures
            match r {
                Ok(ratio) => Self::named(s@) == Some(ratio),
                Err(message) => Self::named(s@) is None && message@ == "Invalid aspect ratio: "@
                    + s@ + ". Use 1:1, 16:9, 9:16, 4:3, or 3:4"@,
            },
    {
        if str_eq(s, "1:1") || str_eq(s, "square") {
            Ok(AspectRatio::Square)
        } else if str_eq(s, "16:9") || str_eq(s, "wide") {
            Ok(AspectRatio::Wide)
        } else if str_eq(s, "9:16") || str_eq(s, "tall") {
            Ok(AspectRatio::Tall)
        } else if str_eq(s, "4:3") || str_eq(s, "standard") {
            Ok(AspectRatio::Standard)
        } else if str_eq(s, "3:4") || str_eq(s, "portrait") {
            Ok(AspectRatio::Portrait)
        } else {
            let mut message = concat("Invalid aspect ratio: ", s);
            message.append(". Use 1:1, 16:9, 9:16, 4:3, or 3:4");
            Err(message)
        }
    }
}

/// How an image generation client is set up.
#[derive(Debug, Clone)]
pub struct ImagenClientConfig {
    pub timeout_secs: u64,
    pub max_retries: u32,
    pub model: ImageModel,
}

impl Default for ImagenClientConfig {
    fn default() -> (r: Self)
        ensures
            r.timeout_secs == DEFAULT_TIMEOUT_SECS,
            r.max_retries == DEFAULT_MAX_RETRIES,
            r.model == ImageModel::Gemini25Flash,
    {
        ImagenClientConfig {
            timeout_secs: DEFAULT_TIMEOUT_SECS,
            max_retries: DEFAULT_MAX_RETRIES,
            model: ImageModel::Gemini25Flash,
        }
    }
}

/// The options of one generation request.
#[derive(Debug, Clone)]
pub struct ImageGenConfig {
    pub size: Option<ImageSize>,
    pub aspect_ratio: Option<AspectRatio>,
}

impl Default for ImageGenConfig {
    fn default() -> (r: Self)
        ensures
            r.size is None,
            r.aspect_ratio is None,
    {
        ImageGenConfig { size: None, aspect_ratio: None }
    }
}

impl ImageGenConfig {
    pub fn new() -> (r: Self)
        ensures
            r.size is None,
            r.aspect_ratio is None,
    {
        ImageGenConfig { size: None, aspect_ratio: None }
    }

    pub fn with_size(self, size: ImageSize) -> (r: Self)
        ensures
            r.size == Some(size),
            r.aspect_ratio == self.aspect_ratio,
    {
        ImageGenConfig { size: Some(size), aspect_ratio: self.aspect_ratio }
    }

    pub fn with_aspect_ratio(self, ratio: AspectRatio) -> (r: Self)
        ensures
            r.size == self.size,
            r.aspect_ratio == Some(ratio),
    {
        ImageGenConfig { size: self.size, aspect_ratio: Some(ratio) }
    }

    /// Whether any option is set.
    pub open spec fn is_set(self) -> bool {
        self.size is Some || self.aspect_ratio is Some
    }
}

/// Image data as the service inlines it in a reply: base64 text and its
/// content type.
#[derive(Debug, Clone)]
pub struct InlineData {
    pub mime_type: String,
    pub data: String,
}

/// One part of a reply: an image or text.
#[derive(Debug, Clone)]
pub enum ResponsePart {
    Image { inline_data: InlineData },
    Text { text: String },
}

/// A generated image: its bytes and content type.
#[derive(Debug, Clone)]
pub struct GeneratedImage {
    pub data: Vec<u8>,
    pub mime_type: String,
}

/// The file extension that goes with a content type; `png` where the type
/// is not one of the known image types.
pub open spec fn extension_for(mime_type: Seq<char>) -> Seq<char> {
    if mime_type == "image/png"@ {
        "png"@
    } else if mime_type == "image/jpeg"@ || mime_type == "image/jpg"@ {
        "jpg"@
    } else if mime_type == "image/webp"@ {
        "webp"@
    } else if mime_type == "image/gif"@ {
        "gif"@
    } else {
        "png"@
    }
}

impl GeneratedImage {
    /// The file extension to store this image under.
    pub fn extension(&self) -> (ext: &'static str)
        ensures
            ext@ == extension_for(self.mime_type@),
    {
        let mime = self.mime_type.as_str();
        if str_eq(mime, "image/png") {
            "png"
        } else if str_eq(mime, "image/jpeg") || str_eq(mime, "image/jpg") {
            "jpg"
        } else if str_eq(mime, "image/webp") {
            "webp"
        } else if str_eq(mime, "image/gif") {
            "gif"
        } else {
            "png"
        }
    }
}

/// Why an image could not be generated.
#[derive(Debug)]
pub enum ImagenError {
    MissingApiKey,
    ApiError { status: u16, message: String },
    RateLimited,
    InvalidResponse(String),
    NoImageData,
    NetworkError(String),
    JsonError(String),
    MaxRetriesExceeded(u32),
    Base64Error(String),
    ImageConfigNotSupported,
}

impl ImagenError {
    /// The message of the error.
    pub open spec fn text(self) -> Seq<char> {
        match self {
            ImagenError::MissingApiKey =>
                "API key not found in environment (set GEMINI_API_KEY or GOOGLE_AI_KEY)"@,
            ImagenError::ApiError { status, message } => api_error_text(status, message@),
            ImagenError::RateLimited => "Rate limited by API. Retry after some time."@,
            ImagenError::InvalidResponse(detail) => "Invalid response from Gemini API: "@
                + detail@,
            ImagenError::NoImageData => "No image data in response"@,
            ImagenError::NetworkError(detail) => "Network error: "@ + detail@,
            ImagenError::JsonError(detail) => "JSON parsing error: "@ + detail@,
            ImagenError::MaxRetriesExceeded(limit) => max_retries_text(limit),
            ImagenError::Base64Error(detail) => "Base64 decode error: "@ + detail@,
            ImagenError::ImageConfigNotSupported =>
                "Image config (size/aspect) only supported with Gemini 3 Pro model"@,
        }
    }

    /// Renders the message of the error.
    pub fn to_string(&self) -> (r: String)
        ensures
            r@ == self.text(),
    {
        match self {
            ImagenError::MissingApiKey => String::from_str(
                "API key not found in environment (set GEMINI_API_KEY or GOOGLE_AI_KEY)",
            ),
            ImagenError::ApiError { status, message } => api_error_message(
                *status,
                message.as_str(),
            ),
            ImagenError::RateLimited => String::from_str(
                "Rate limited by API. Retry after some time.",
            ),
            ImagenError::InvalidResponse(detail) => concat(
                "Invalid response from Gemini API: ",
                detail.as_str(),
            ),
            ImagenError::NoImageData => String::from_str("No image data in response"),
            ImagenError::NetworkError(detail) => concat("Network error: ", detail.as_str()),
            ImagenError::JsonError(detail) => concat("JSON parsing error: ", detail.as_str()),
            ImagenError::MaxRetriesExceeded(limit) => max_retries_message(*limit),
            ImagenError::Base64Error(detail) => concat("Base64 decode error: ", detail.as_str()),
            ImagenError::ImageConfigNotSupported => String::from_str(
                "Image config (size/aspect) only supported with Gemini 3 Pro model",
            ),
        }
    }

    /// How the retry policy sees the error: rate limiting, network
    /// failures and API errors with a status of 500 or above are
    /// transient, everything else is fatal.
    pub open spec fn class(self) -> ErrorClass {
        match self {
            ImagenError::RateLimited => ErrorClass::RateLimited,
            ImagenError::NetworkError(_) => ErrorClass::Transport,
            ImagenError::ApiError { status, .. } => crate::remote::status_class(status),
            _ => ErrorClass::Fatal,
        }
    }

    /// The error that stands for a failed exchange with the service.
    pub open spec fn of_failure(failure: ImageFailure) -> ImagenError {
        match failure {
            ImageFailure::NoImageData => ImagenError::NoImageData,
            ImageFailure::Base64(detail) => ImagenError::Base64Error(detail),
            ImageFailure::Reply(reply) => match reply {
                ReplyFailure::RateLimited => ImagenError::RateLimited,
                ReplyFailure::Api { status, message } => ImagenError::ApiError { status, message },
                ReplyFailure::Network(detail) => ImagenError::NetworkError(detail),
                ReplyFailure::InvalidResponse(detail) => ImagenError::InvalidResponse(detail),
                ReplyFailure::Json(detail) => ImagenError::JsonError(detail),
                ReplyFailure::MaxRetriesExceeded(limit) => ImagenError::MaxRetriesExceeded(limit),
            },
        }
    }

    /// Computes [`ImagenError::of_failure`].
    pub fn from_failure(failure: ImageFailure) -> (e: ImagenError)
        ensures
            e == Self::of_failure(failure),
            e.class() == failure.class(),
    {
        match failure {
            ImageFailure::NoImageData => ImagenError::NoImageData,
            ImageFailure::Base64(detail) => ImagenError::Base64Error(detail),
            ImageFailure::Reply(reply) => match reply {
                ReplyFailure::RateLimited => ImagenError::RateLimited,
                ReplyFailure::Api { status, message } => ImagenError::ApiError { status, message },
                ReplyFailure::Network(detail) => ImagenError::NetworkError(detail),
                ReplyFailure::InvalidResponse(detail) => ImagenError::InvalidResponse(detail),
                ReplyFailure::Json(detail) => ImagenError::JsonError(detail),
                ReplyFailure::MaxRetriesExceeded(limit) => ImagenError::MaxRetriesExceeded(limit),
            },
        }
    }
}

/// The body of a generation request. Gemini 2.5 Flash takes the prompt
/// alone. Gemini 3 Pro also takes a generation configuration, in which
/// aspect ratio and size default to `1:1` and `1K`.
pub open spec fn generation_payload(
    model: ImageModel,
    prompt: Seq<char>,
    gen_config: Option<&ImageGenConfig>,
) -> JsonModel {
    let body = single("contents"@, contents_model(seq![text_part_model(prompt)]));
    match model {
        ImageModel::Gemini25Flash => body,
        ImageModel::Gemini3Pro => body.with(
            "generationConfig"@,
            match gen_config {
                Some(cfg) => image_generation_model(cfg.size, cfg.aspect_ratio),
                None => image_generation_model(None, None),
            },
        ),
    }
}

/// Whether a request asks for options that the model does not take.
pub open spec fn config_unsupported(
    model: ImageModel,
    gen_config: Option<&ImageGenConfig>,
) -> bool {
    gen_config matches Some(cfg) && cfg.is_set() && model != ImageModel::Gemini3Pro
}

/// A generation call that is ready to be sent: where to, what, and the
/// state of its retries. Each reply goes through
/// [`crate::remote::read_image_reply`] and then to `retry`.
#[derive(Debug)]
pub struct ImageCall {
    pub url: String,
    pub payload: serde_json::Value,
    pub retry: RetryContext<ImageFailure>,
}

/// A client of the image generation service: the API key and the
/// settings under which requests are made.
#[derive(Debug, Clone)]
pub struct ImagenClient {
    api_key: String,
    config: ImagenClientConfig,
}

impl ImagenClient {
    /// The API key of the client.
    pub closed spec fn key(&self) -> Seq<char> {
        self.api_key@
    }

    /// The settings of the client.
    pub closed spec fn settings(&self) -> ImagenClientConfig {
        self.config
    }

    /// A client with the default settings.
    pub fn new(api_key: String) -> (client: Self)
        ensures
            client.key() == api_key@,
            client.settings().timeout_secs == DEFAULT_TIMEOUT_SECS,
            client.settings().max_retries == DEFAULT_MAX_RETRIES,
            client.settings().model == ImageModel::Gemini25Flash,
    {
        ImagenClient {
            api_key,
            config: ImagenClientConfig {
                timeout_secs: DEFAULT_TIMEOUT_SECS,
                max_retries: DEFAULT_MAX_RETRIES,
                model: ImageModel::Gemini25Flash,
            },
        }
    }

    pub fn with_config(api_key: String, config: ImagenClientConfig) -> (client: Self)
        ensures
            client.key() == api_key@,
            client.settings() == config,
    {
        ImagenClient { api_key, config }
    }

    /// The settings of the client.
    pub fn config(&self) -> (config: &ImagenClientConfig)
        ensures
            *config == self.settings(),
    {
        &self.config
    }

    /// The address that generation requests of this client go to.
    pub fn request_url(&self) -> (url: String)
        ensures
            url@ == generate_content_address(self.settings().model.api_name(), self.key()),
    {
        generate_content_url(self.config.model.api_model_name(), self.api_key.as_str())
    }

    /// Builds the body of a generation request.
    pub fn build_payload(&self, prompt: &str, gen_config: Option<&ImageGenConfig>) -> (payload:
        serde_json::Value)
        ensures
            json_model(payload) == generation_payload(self.settings().model, prompt@, gen_config),
    {
        let mut parts: Vec<serde_json::Value> = Vec::new();
        parts.push(text_part(prompt));
        proof {
            assert(json_models(parts@) =~= seq![text_part_model(prompt@)]);
        }
        let mut body = single_member("contents", contents(parts));
        match self.config.model {
            ImageModel::Gemini25Flash => {},
            ImageModel::Gemini3Pro => {
                let generation = match gen_config {
                    Some(cfg) => image_generation(cfg.size, cfg.aspect_ratio),
                    None => image_generation(None, None),
                };
                json_set(&mut body, "generationConfig", generation);
            },
        }
        body
    }

    /// Whether a failed call is worth repeating.
    pub fn is_retryable_error(err: &ImagenError) -> (r: bool)
        ensures
            r == err.class().retryable(),
    {
        match err {
            ImagenError::RateLimited => true,
            ImagenError::NetworkError(_) => true,
            ImagenError::ApiError { status, .. } => *status >= 500,
            _ => false,
        }
    }

    /// Prepares the generation of an image from a text prompt, without
    /// options.
    pub fn generate_image(&self, prompt: &str) -> (r: Result<ImageCall, ImagenError>)
        ensures
            self.call_prepared(prompt@, None, r),
    {
        self.generate_image_with_config(prompt, None)
    }

    /// What [`ImagenClient::generate_image_with_config`] returns: a
    /// refusal where the options do not suit the model, else a refusal
    /// where no attempt is allowed, else the call with its address, its
    /// body and fresh retry state.
    pub open spec fn call_prepared(
        &self,
        prompt: Seq<char>,
        gen_config: Option<&ImageGenConfig>,
        r: Result<ImageCall, ImagenError>,
    ) -> bool {
        if config_unsupported(self.settings().model, gen_config) {
            r matches Err(ImagenError::ImageConfigNotSupported)
        } else if self.settings().max_retries == 0 {
            r matches Err(ImagenError::MaxRetriesExceeded(0))
        } else {
            &&& r matches Ok(call)
            &&& call.url@ == generate_content_address(self.settings().model.api_name(), self.key())
            &&& json_model(call.payload) == generation_payload(
                self.settings().model,
                prompt,
                gen_config,
            )
            &&& call.retry.wf()
            &&& call.retry.attempt == 0
            &&& call.retry.max_attempts == self.settings().max_retries
        }
    }

    /// Prepares the generation of an image with the given options (size,
    /// aspect ratio). Options are refused for a model that takes none.
    pub fn generate_image_with_config(
        &self,
        prompt: &str,
        gen_config: Option<&ImageGenConfig>,
    ) -> (r: Result<ImageCall, ImagenError>)
        ensures
            self.call_prepared(prompt@, gen_config, r),
    {
        match gen_config {
            Some(cfg) => {
                if (cfg.size.is_some() || cfg.aspect_ratio.is_some())
                    && !self.config.model.supports_image_config() {
                    return Err(ImagenError::ImageConfigNotSupported);
                }
            },
            None => {},
        }
        let retry: RetryContext<ImageFailure> = RetryContext::new(self.config.max_retries);
        match retry.start() {
            Some(refusal) => Err(ImagenError::from_failure(refusal)),
            None => Ok(
                ImageCall {
                    url: self.request_url(),
                    payload: self.build_payload(prompt, gen_config),
                    retry,
                },
            ),
        }
    }
}

} // verus!
