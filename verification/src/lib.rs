//! A resilient batch engine for a remote generative service: retry policy
//! and retried calls, the resumable upload of large payloads, a scheduler
//! that runs many jobs under a concurrency cap, and the requests and
//! replies of transcription, image generation and image editing.

pub mod batch;
pub mod batch_convert;
pub mod codec;
pub mod convert;
pub mod file_api;
pub mod gemini_api;
pub mod imagen;
pub mod imagen_api;
pub mod imagen_edit;
pub mod imagen_edit_api;
pub mod json;
pub mod payload;
pub mod remote;
pub mod retry;
pub mod text;

pub use file_api::{FileApiClient, FileApiError, FileInfo};
pub use gemini_api::{
    GeminiClient, GeminiClientConfig, GeminiError, TranscriptResponse, TranscriptSegment,
    MAX_INLINE_FILE_SIZE,
};
pub use imagen_api::{
    AspectRatio, GeneratedImage, ImageGenConfig, ImageModel, ImageSize, ImagenClient,
    ImagenClientConfig, ImagenError,
};
