//! Image editing: input images and a prompt go to Gemini 3 Pro, an edited
//! image comes back.

use crate::codec::{base64_encoding, encodable_len, encode_base64};
use crate::imagen_api::{AspectRatio, ImageSize};
use crate::json::{json_model, json_models, json_set, JsonModel};
use crate::payload::{
    contents, contents_model, image_generation, image_generation_model, inline_part,
    inline_part_model, single, single_member, text_part, text_part_model,
};
use crate::remote::{
    api_error_message, api_error_text, generate_content_address, generate_content_url,
    max_retries_message, max_retries_text, status_class, ImageFailure, ReplyFailure,
};
use crate::retry::{ErrorClass, RemoteError, RetryContext};
use crate::text::{concat, found_text, lowercase, path_extension, str_eq, to_lowercase};
use vstd::prelude::*;
use vstd::string::*;

verus! {

/// Default time allowed for one call, in seconds.
pub const DEFAULT_TIMEOUT_SECS: u64 = 120;

/// Default number of attempts for one call.
pub const DEFAULT_MAX_RETRIES: u32 = 3;

/// The model that edits images.
pub const MODEL_NAME: &'static str = "gemini-3-pro-image-preview";

/// Why an image could not be edited.
#[derive(Debug)]
pub enum ImageEditError {
    MissingApiKey,
    ApiError { status: u16, message: String },
    RateLimited,
    InvalidResponse(String),
    NoImageData,
    NetworkError(String),
    JsonError(String),
    MaxRetriesExceeded(u32),
    Base64Error(String),
    IoError(String),
    NoInputImages,
    UnsupportedFormat(String),
}

impl ImageEditError {
    /// The message of the error.
    pub open spec fn text(self) -> Seq<char> {
        match self {
            ImageEditError::MissingApiKey =>
                "API key not found in environment (set GEMINI_API_KEY or GOOGLE_AI_KEY)"@,
            ImageEditError::ApiError { status, message } => api_error_text(status, message@),
            ImageEditError::RateLimited => "Rate limited by API. Retry after some time."@,
            ImageEditError::InvalidResponse(detail) => "Invalid response from Gemini API: "@
                + detail@,
            ImageEditError::NoImageData => "No image data in response"@,
            ImageEditError::NetworkError(detail) => "Network error: "@ + detail@,
            ImageEditError::JsonError(detail) => "JSON parsing error: "@ + detail@,
            ImageEditError::MaxRetriesExceeded(limit) => max_retries_text(limit),
            ImageEditError::Base64Error(detail) => "Base64 decode error: "@ + detail@,
            ImageEditError::IoError(detail) => "IO error: "@ + detail@,
            ImageEditError::NoInputImages => "No input images provided"@,
            ImageEditError::UnsupportedFormat(format) => "Unsupported image format: "@ + format@,
        }
    }

    /// Renders the message of the error.
    pub fn to_string(&self) -> (r: String)
        ensures
            r@ == self.text(),
    {
        match self {
            ImageEditError::MissingApiKey => String::from_str(
                "API key not found in environment (set GEMINI_API_KEY or GOOGLE_AI_KEY)",
            ),
            ImageEditError::ApiError { status, message } => api_error_message(
                *status,
                message.as_str(),
            ),
            ImageEditError::RateLimited => String::from_str(
                "Rate limited by API. Retry after some time.",
            ),
            ImageEditError::InvalidResponse(detail) => concat(
                "Invalid response from Gemini API: ",
                detail.as_str(),
            ),
            ImageEditError::NoImageData => String::from_str("No image data in response"),
            ImageEditError::NetworkError(detail) => concat("Network error: ", detail.as_str()),
            ImageEditError::JsonError(detail) => concat("JSON parsing error: ", detail.as_str()),
            ImageEditError::MaxRetriesExceeded(limit) => max_retries_message(*limit),
            ImageEditError::Base64Error(detail) => concat(
                "Base64 decode error: ",
                detail.as_str(),
            ),
            ImageEditError::IoError(detail) => concat("IO error: ", detail.as_str()),
            ImageEditError::NoInputImages => String::from_str("No input images provided"),
            ImageEditError::UnsupportedFormat(format) => concat(
                "Unsupported image format: ",
                format.as_str(),
            ),
        }
    }

    /// How the retry policy sees the error: rate limiting, network
    /// failures and API errors with a status of 500 or above are
    /// transient, everything else is fatal.
    pub open spec fn class(self) -> ErrorClass {
        match self {
            ImageEditError::RateLimited => ErrorClass::RateLimited,
            ImageEditError::NetworkError(_) => ErrorClass::Transport,
            ImageEditError::ApiError { status, .. } => status_class(status),
            _ => ErrorClass::Fatal,
        }
    }

    /// The error that stands for a failed exchange with the service.
    pub open spec fn of_failure(failure: ImageFailure) -> ImageEditError {
        match failure {
            ImageFailure::NoImageData => ImageEditError::NoImageData,
            ImageFailure::Base64(detail) => ImageEditError::Base64Error(detail),
            ImageFailure::Reply(reply) => match reply {
                ReplyFailure::RateLimited => ImageEditError::RateLimited,
                ReplyFailure::Api { status, message } => ImageEditError::ApiError {
                    status,
                    message,
                },
                ReplyFailure::Network(detail) => ImageEditError::NetworkError(detail),
                ReplyFailure::InvalidResponse(detail) => ImageEditError::InvalidResponse(detail),
                ReplyFailure::Json(detail) => ImageEditError::JsonError(detail),
                ReplyFailure::MaxRetriesExceeded(limit) => ImageEditError::MaxRetriesExceeded(
                    limit,
                ),
            },
        }
    }

    /// Computes [`ImageEditError::of_failure`].
    pub fn from_failure(failure: ImageFailure) -> (e: ImageEditError)
        ensures
            e == Self::of_failure(failure),
            e.class() == failure.class(),
    {
        match failure {
            ImageFailure::NoImageData => ImageEditError::NoImageData,
            ImageFailure::Base64(detail) => ImageEditError::Base64Error(detail),
            ImageFailure::Reply(reply) => match reply {
                ReplyFailure::RateLimited => ImageEditError::RateLimited,
                ReplyFailure::Api { status, message } => ImageEditError::ApiError {
                    status,
                    message,
                },
                ReplyFailure::Network(detail) => ImageEditError::NetworkError(detail),
                ReplyFailure::InvalidResponse(detail) => ImageEditError::InvalidResponse(detail),
                ReplyFailure::Json(detail) => ImageEditError::JsonError(detail),
                ReplyFailure::MaxRetriesExceeded(limit) => ImageEditError::MaxRetriesExceeded(
                    limit,
                ),
            },
        }
    }
}

/// How an image editing client is set up.
#[derive(Debug, Clone)]
pub struct ImageEditClientConfig {
    pub timeout_secs: u64,
    pub max_retries: u32,
}

impl Default for ImageEditClientConfig {
    fn default() -> (r: Self)
        ensures
            r.timeout_secs == DEFAULT_TIMEOUT_SECS,
            r.max_retries == DEFAULT_MAX_RETRIES,
    {
        ImageEditClientConfig {
            timeout_secs: DEFAULT_TIMEOUT_SECS,
            max_retries: DEFAULT_MAX_RETRIES,
        }
    }
}

/// The options of one edit request.
#[derive(Debug, Clone)]
pub struct ImageEditConfig {
    pub size: Option<ImageSize>,
    pub aspect_ratio: Option<AspectRatio>,
}

impl Default for ImageEditConfig {
    fn default() -> (r: Self)
        ensures
            r.size is None,
            r.aspect_ratio is None,
    {
        ImageEditConfig { size: None, aspect_ratio: None }
    }
}

impl ImageEditConfig {
    pub fn new() -> (r: Self)
        ensures
            r.size is None,
            r.aspect_ratio is None,
    {
        ImageEditConfig { size: None, aspect_ratio: None }
    }

    pub fn with_size(self, size: ImageSize) -> (r: Self)
        ensures
            r.size == Some(size),
            r.aspect_ratio == self.aspect_ratio,
    {
        ImageEditConfig { size: Some(size), aspect_ratio: self.aspect_ratio }
    }

    pub fn with_aspect_ratio(self, ratio: AspectRatio) -> (r: Self)
        ensures
            r.size == self.size,
            r.aspect_ratio == Some(ratio),
    {
        ImageEditConfig { size: self.size, aspect_ratio: Some(ratio) }
    }
}

/// The content type that goes with a lower-case file extension, for the
/// image formats that can be edited.
pub open spec fn image_mime_type(extension: Seq<char>) -> Option<Seq<char>> {
    if extension == "png"@ {
        Some("image/png"@)
    } else if extension == "jpg"@ || extension == "jpeg"@ {
        Some("image/jpeg"@)
    } else if extension == "webp"@ {
        Some("image/webp"@)
    } else if extension == "gif"@ {
        Some("image/gif"@)
    } else if extension == "heic"@ {
        Some("image/heic"@)
    } else if extension == "heif"@ {
        Some("image/heif"@)
    } else {
        None
    }
}

/// The lower-case form of a file extension; the empty text for a file
/// without one.
pub open spec fn lowered_extension(extension: Option<Seq<char>>) -> Seq<char> {
    match extension {
        Some(extension) => lowercase(extension),
        None => Seq::empty(),
    }
}

/// Whether `r` is the content type of an image file in whose name the
/// extension `found` was found: the type that goes with the extension in
/// lower case, or, where it names no image format or there is none, the
/// refusal that carries the lower-case extension.
pub open spec fn mime_type_read(
    found: Option<Seq<char>>,
    r: Result<String, ImageEditError>,
) -> bool {
    match image_mime_type(lowered_extension(found)) {
        Some(mime_type) => r matches Ok(read) && read@ == mime_type,
        None => r matches Err(ImageEditError::UnsupportedFormat(format)) && format@
            == lowered_extension(found),
    }
}

/// The content type of an image file with the given extension, whatever
/// its letter case. A file without extension, or with one that names no
/// image format, is refused; the refusal carries the lower-case
/// extension.
pub fn mime_type_for_extension(extension: Option<&str>) -> (r: Result<String, ImageEditError>)
    ensures
        mime_type_read(found_text(extension), r),
{
    let lower = match extension {
        Some(extension) => to_lowercase(extension),
        None => String::new(),
    };
    let ext = lower.as_str();
    if str_eq(ext, "png") {
        Ok(String::from_str("image/png"))
    } else if str_eq(ext, "jpg") || str_eq(ext, "jpeg") {
        Ok(String::from_str("image/jpeg"))
    } else if str_eq(ext, "webp") {
        Ok(String::from_str("image/webp"))
    } else if str_eq(ext, "gif") {
        Ok(String::from_str("image/gif"))
    } else if str_eq(ext, "heic") {
        Ok(String::from_str("image/heic"))
    } else if str_eq(ext, "heif") {
        Ok(String::from_str("image/heif"))
    } else {
        Err(ImageEditError::UnsupportedFormat(lower))
    }
}

/// The content type of the image file at `path`, by the extension of its
/// file name: what [`mime_type_for_extension`] says of it.
pub fn mime_type_from_path(path: &str) -> (r: Result<String, ImageEditError>)
    ensures
        exists|found: Option<Seq<char>>| mime_type_read(found, r),
        r matches Ok(read) ==> exists|extension: Seq<char>|
            image_mime_type(lowercase(extension)) == Some(read@),
        r matches Err(e) ==> (e matches ImageEditError::UnsupportedFormat(format)
            && image_mime_type(format@) is None),
{
    match path_extension(path) {
        Some(extension) => {
            let r = mime_type_for_extension(Some(extension.as_str()));
            proof {
                assert(mime_type_read(Some(extension@), r));
                if r is Ok {
                    assert(image_mime_type(lowercase(extension@)) == Some(r->Ok_0@));
                }
            }
            r
        },
        None => {
            let r = mime_type_for_extension(None);
            proof {
                reveal_strlit("png");
                reveal_strlit("jpg");
                reveal_strlit("jpeg");
                reveal_strlit("webp");
                reveal_strlit("gif");
                reveal_strlit("heic");
                reveal_strlit("heif");
                assert(Seq::<char>::empty().len() == 0);
                assert(mime_type_read(None, r));
            }
            r
        },
    }
}

/// An image that goes into an edit: its bytes and content type.
#[derive(Debug, Clone)]
pub struct InputImage {
    pub mime_type: String,
    pub data: Vec<u8>,
}

impl InputImage {
    /// The image read from the file at `path`, whose bytes are `data`. The
    /// content type goes by the path's extension; a file that is no image
    /// by its extension is refused.
    pub fn from_path(path: &str, data: Vec<u8>) -> (r: Result<Self, ImageEditError>)
        ensures
            exists|found: Option<Seq<char>>| Self::read_from(found, data, r),
            r matches Ok(image) ==> image.data == data && exists|extension: Seq<char>|
                image_mime_type(lowercase(extension)) == Some(image.mime_type@),
            r matches Err(e) ==> (e matches ImageEditError::UnsupportedFormat(format)
                && image_mime_type(format@) is None),
    {
        match mime_type_from_path(path) {
            Ok(mime_type) => {
                let r = Ok(InputImage { mime_type, data });
                proof {
                    let found = choose|found: Option<Seq<char>>|
                        mime_type_read(found, Ok::<String, ImageEditError>(mime_type));
                    assert(Self::read_from(found, data, r));
                }
                r
            },
            Err(e) => {
                let r = Err(e);
                proof {
                    let found = choose|found: Option<Seq<char>>|
                        mime_type_read(found, Err::<String, ImageEditError>(e));
                    assert(Self::read_from(found, data, r));
                }
                r
            },
        }
    }

    /// Whether `r` is the image with the bytes `data` from a file in whose
    /// name the extension `found` was found: the image with the content
    /// type that [`mime_type_read`] gives, or its refusal.
    pub open spec fn read_from(
        found: Option<Seq<char>>,
        data: Vec<u8>,
        r: Result<InputImage, ImageEditError>,
    ) -> bool {
        match image_mime_type(lowered_extension(found)) {
            Some(mime_type) => r matches Ok(image) && image.data == data && image.mime_type@
                == mime_type,
            None => r matches Err(ImageEditError::UnsupportedFormat(format)) && format@
                == lowered_extension(found),
        }
    }

    /// An image from raw bytes and their content type.
    pub fn from_bytes(data: Vec<u8>, mime_type: String) -> (image: Self)
        ensures
            image.data == data,
            image.mime_type == mime_type,
    {
        InputImage { mime_type, data }
    }

    /// Whether the image is small enough for its base64 text to exist.
    pub open spec fn encodable(self) -> bool {
        encodable_len(self.data@.len())
    }

    /// The bytes of the image as base64 text.
    pub fn base64_data(&self) -> (r: String)
        requires
            self.encodable(),
        ensures
            r@ == base64_encoding(self.data@),
    {
        encode_base64(self.data.as_slice())
    }

    /// Computes [`InputImage::encodable`].
    pub fn is_encodable(&self) -> (r: bool)
        ensures
            r == self.encodable(),
    {
        self.data.len() / 3 <= (usize::MAX - 4) / 4
    }
}

/// The parts that carry the input images, in order.
pub open spec fn image_parts(images: Seq<InputImage>) -> Seq<JsonModel> {
    images.map_values(
        |image: InputImage| inline_part_model(image.mime_type@, base64_encoding(image.data@)),
    )
}

/// The body of an edit request: the prompt, then every input image
/// inline, and a generation configuration in which aspect ratio and size
/// default to `1:1` and `1K`.
pub open spec fn edit_payload(
    prompt: Seq<char>,
    images: Seq<InputImage>,
    edit_config: Option<&ImageEditConfig>,
) -> JsonModel {
    single("contents"@, contents_model(seq![text_part_model(prompt)] + image_parts(images))).with(
        "generationConfig"@,
        match edit_config {
            Some(cfg) => image_generation_model(cfg.size, cfg.aspect_ratio),
            None => image_generation_model(None, None),
        },
    )
}

/// Whether every image is small enough for its base64 text to exist.
pub open spec fn all_encodable(images: Seq<InputImage>) -> bool {
    forall|i: int| 0 <= i < images.len() ==> (#[trigger] images[i]).encodable()
}

/// An edit call that is ready to be sent: where to, what, and the state
/// of its retries. Each reply goes through
/// [`crate::remote::read_image_reply`] and then to `retry`.
#[derive(Debug)]
pub struct EditCall {
    pub url: String,
    pub payload: serde_json::Value,
    pub retry: RetryContext<ImageFailure>,
}

/// A client of the image editing service: the API key and the settings
/// under which requests are made.
#[derive(Debug, Clone)]
pub struct ImageEditClient {
    api_key: String,
    config: ImageEditClientConfig,
}

impl ImageEditClient {
    /// The API key of the client.
    pub closed spec fn key(&self) -> Seq<char> {
        self.api_key@
    }

    /// The settings of the client.
    pub closed spec fn settings(&self) -> ImageEditClientConfig {
        self.config
    }

    /// A client with the default settings.
    pub fn new(api_key: String) -> (client: Self)
        ensures
            client.key() == api_key@,
            client.settings().timeout_secs == DEFAULT_TIMEOUT_SECS,
            client.settings().max_retries == DEFAULT_MAX_RETRIES,
    {
        ImageEditClient {
            api_key,
            config: ImageEditClientConfig {
                timeout_secs: DEFAULT_TIMEOUT_SECS,
                max_retries: DEFAULT_MAX_RETRIES,
            },
        }
    }

    pub fn with_config(api_key: String, config: ImageEditClientConfig) -> (client: Self)
        ensures
            client.key() == api_key@,
            client.settings() == config,
    {
        ImageEditClient { api_key, config }
    }

    /// The settings of the client.
    pub fn config(&self) -> (config: &ImageEditClientConfig)
        ensures
            *config == self.settings(),
    {
        &self.config
    }

    /// The address that edit requests of this client go to.
    pub fn request_url(&self) -> (url: String)
        ensures
            url@ == generate_content_address(MODEL_NAME@, self.key()),
    {
        generate_content_url(MODEL_NAME, self.api_key.as_str())
    }

    /// Builds the body of an edit request.
    pub fn build_payload(
        &self,
        prompt: &str,
        images: &[InputImage],
        edit_config: Option<&ImageEditConfig>,
    ) -> (payload: serde_json::Value)
        requires
            all_encodable(images@),
        ensures
            json_model(payload) == edit_payload(prompt@, images@, edit_config),
    {
        let mut parts: Vec<serde_json::Value> = Vec::new();
        parts.push(text_part(prompt));
        let mut i: usize = 0;
        while i < images.len()
            invariant
                i <= images.len(),
                all_encodable(images@),
                json_models(parts@) =~= seq![text_part_model(prompt@)] + image_parts(
                    images@.take(i as int),
                ),
            decreases images.len() - i,
        {
            let image = &images[i];
            let encoded = image.base64_data();
            let ghost before = parts@;
            let part = inline_part(image.mime_type.as_str(), encoded.as_str());
            parts.push(part);
            proof {
                assert(images@.take(i + 1) =~= images@.take(i as int).push(images@[i as int]));
                assert(image_parts(images@.take(i + 1)) =~= image_parts(
                    images@.take(i as int),
                ).push(json_model(part)));
                assert(json_models(parts@) =~= json_models(before).push(json_model(part)));
            }
            i = i + 1;
        }
        proof {
            assert(images@.take(images.len() as int) =~= images@);
        }
        let mut body = single_member("contents", contents(parts));
        let generation = match edit_config {
            Some(cfg) => image_generation(cfg.size, cfg.aspect_ratio),
            None => image_generation(None, None),
        };
        json_set(&mut body, "generationConfig", generation);
        body
    }

    /// Whether a failed call is worth repeating.
    pub fn is_retryable_error(err: &ImageEditError) -> (r: bool)
        ensures
            r == err.class().retryable(),
    {
        match err {
            ImageEditError::RateLimited => true,
            ImageEditError::NetworkError(_) => true,
            ImageEditError::ApiError { status, .. } => *status >= 500,
            _ => false,
        }
    }

    /// What [`ImageEditClient::edit_images_with_config`] returns: a
    /// refusal where there is no input image, else a refusal where no
    /// attempt is allowed, else the call with its address, its body and
    /// fresh retry state.
    pub open spec fn call_prepared(
        &self,
        prompt: Seq<char>,
        images: Seq<InputImage>,
        edit_config: Option<&ImageEditConfig>,
        r: Result<EditCall, ImageEditError>,
    ) -> bool {
        if images.len() == 0 {
            r matches Err(ImageEditError::NoInputImages)
        } else if self.settings().max_retries == 0 {
            r matches Err(ImageEditError::MaxRetriesExceeded(0))
        } else {
            &&& r matches Ok(call)
            &&& call.url@ == generate_content_address(MODEL_NAME@, self.key())
            &&& json_model(call.payload) == edit_payload(prompt, images, edit_config)
            &&& call.retry.wf()
            &&& call.retry.attempt == 0
            &&& call.retry.max_attempts == self.settings().max_retries
        }
    }

    /// Prepares an edit of the images by a text prompt, without options.
    pub fn edit_images(&self, prompt: &str, images: &[InputImage]) -> (r: Result<
        EditCall,
        ImageEditError,
    >)
        requires
            all_encodable(images@),
        ensures
            self.call_prepared(prompt@, images@, None, r),
    {
        self.edit_images_with_config(prompt, images, None)
    }

    /// Prepares an edit of the images by a text prompt, with the given
    /// options.
    pub fn edit_images_with_config(
        &self,
        prompt: &str,
        images: &[InputImage],
        edit_config: Option<&ImageEditConfig>,
    ) -> (r: Result<EditCall, ImageEditError>)
        requires
            all_encodable(images@),
        ensures
            self.call_prepared(prompt@, images@, edit_config, r),
    {
        if images.len() == 0 {
            return Err(ImageEditError::NoInputImages);
        }
        let retry: RetryContext<ImageFailure> = RetryContext::new(self.config.max_retries);
        match retry.start() {
            Some(refusal) => Err(ImageEditError::from_failure(refusal)),
            None => Ok(
                EditCall {
                    url: self.request_url(),
                    payload: self.build_payload(prompt, images, edit_config),
                    retry,
                },
            ),
        }
    }
}

} // verus!
