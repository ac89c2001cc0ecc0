//! The JSON bodies of the requests that the library sends.

use crate::imagen_api::{AspectRatio, ImageSize};
use crate::json::{json_array, json_model, json_models, json_object, json_set, json_text, JsonModel};
use vstd::prelude::*;

verus! {

/// The object with the single member `key`.
pub open spec fn single(key: Seq<char>, value: JsonModel) -> JsonModel {
    JsonModel::empty_object().with(key, value)
}

/// The object with the two members `key1` and `key2`, each a text.
pub open spec fn text_pair(
    key1: Seq<char>,
    text1: Seq<char>,
    key2: Seq<char>,
    text2: Seq<char>,
) -> JsonModel {
    JsonModel::empty_object().with(key1, JsonModel::Text(text1)).with(key2, JsonModel::Text(text2))
}

/// The part that carries a prompt: `{"text": prompt}`.
pub open spec fn text_part_model(prompt: Seq<char>) -> JsonModel {
    single("text"@, JsonModel::Text(prompt))
}

/// The part that carries a payload inline:
/// `{"inline_data": {"mime_type": .., "data": ..}}`.
pub open spec fn inline_part_model(mime_type: Seq<char>, encoded: Seq<char>) -> JsonModel {
    single("inline_data"@, text_pair("mime_type"@, mime_type, "data"@, encoded))
}

/// The part that refers to an uploaded file:
/// `{"file_data": {"mime_type": .., "file_uri": ..}}`.
pub open spec fn file_part_model(mime_type: Seq<char>, uri: Seq<char>) -> JsonModel {
    single("file_data"@, text_pair("mime_type"@, mime_type, "file_uri"@, uri))
}

/// The `contents` of a request: one entry that holds the parts.
pub open spec fn contents_model(parts: Seq<JsonModel>) -> JsonModel {
    JsonModel::Array(seq![single("parts"@, JsonModel::Array(parts))])
}

/// The aspect ratio sent where the caller chose none.
pub open spec fn aspect_or_default(aspect: Option<AspectRatio>) -> Seq<char> {
    match aspect {
        Some(ratio) => ratio.api_text(),
        None => "1:1"@,
    }
}

/// The image size sent where the caller chose none.
pub open spec fn size_or_default(size: Option<ImageSize>) -> Seq<char> {
    match size {
        Some(size) => size.api_text(),
        None => "1K"@,
    }
}

/// The `generationConfig` of a request for an image: text and image are
/// both allowed in the reply, and the image configuration always names an
/// aspect ratio and a size.
pub open spec fn image_generation_model(
    size: Option<ImageSize>,
    aspect: Option<AspectRatio>,
) -> JsonModel {
    JsonModel::empty_object().with(
        "responseModalities"@,
        JsonModel::Array(seq![JsonModel::Text("TEXT"@), JsonModel::Text("IMAGE"@)]),
    ).with(
        "imageConfig"@,
        text_pair("aspectRatio"@, aspect_or_default(aspect), "imageSize"@, size_or_default(size)),
    )
}

/// Builds [`single`].
pub fn single_member(key: &str, value: serde_json::Value) -> (r: serde_json::Value)
    ensures
        json_model(r) == single(key@, json_model(value)),
{
    let mut r = json_object();
    json_set(&mut r, key, value);
    r
}

/// Builds [`text_pair`].
pub fn text_members(key1: &str, text1: &str, key2: &str, text2: &str) -> (r: serde_json::Value)
    ensures
        json_model(r) == text_pair(key1@, text1@, key2@, text2@),
{
    let mut r = json_object();
    json_set(&mut r, key1, json_text(text1));
    json_set(&mut r, key2, json_text(text2));
    r
}

/// Builds the array of two texts.
pub fn text_array2(first: &str, second: &str) -> (r: serde_json::Value)
    ensures
        json_model(r) == JsonModel::Array(seq![JsonModel::Text(first@), JsonModel::Text(second@)]),
{
    let mut items: Vec<serde_json::Value> = Vec::new();
    items.push(json_text(first));
    items.push(json_text(second));
    proof {
        assert(json_models(items@) =~= seq![JsonModel::Text(first@), JsonModel::Text(second@)]);
    }
    json_array(items)
}

/// Builds [`text_part_model`].
pub fn text_part(prompt: &str) -> (r: serde_json::Value)
    ensures
        json_model(r) == text_part_model(prompt@),
{
    single_member("text", json_text(prompt))
}

/// Builds [`inline_part_model`].
pub fn inline_part(mime_type: &str, encoded: &str) -> (r: serde_json::Value)
    ensures
        json_model(r) == inline_part_model(mime_type@, encoded@),
{
    single_member("inline_data", text_members("mime_type", mime_type, "data", encoded))
}

/// Builds [`file_part_model`].
pub fn file_part(mime_type: &str, uri: &str) -> (r: serde_json::Value)
    ensures
        json_model(r) == file_part_model(mime_type@, uri@),
{
    single_member("file_data", text_members("mime_type", mime_type, "file_uri", uri))
}

/// Builds [`contents_model`] from the parts of a request.
pub fn contents(parts: Vec<serde_json::Value>) -> (r: serde_json::Value)
    ensures
        json_model(r) == contents_model(json_models(parts@)),
{
    let entry = single_member("parts", json_array(parts));
    let mut entries: Vec<serde_json::Value> = Vec::new();
    entries.push(entry);
    proof {
        assert(json_models(entries@) =~= seq![json_model(entry)]);
    }
    json_array(entries)
}

/// Builds [`image_generation_model`].
pub fn image_generation(size: Option<ImageSize>, aspect: Option<AspectRatio>) -> (r:
    serde_json::Value)
    ensures
        json_model(r) == image_generation_model(size, aspect),
{
    let aspect_text = match aspect {
        Some(ratio) => ratio.api_value(),
        None => "1:1",
    };
    let size_text = match size {
        Some(size) => size.api_value(),
        None => "1K",
    };
    let mut r = json_object();
    json_set(&mut r, "responseModalities", text_array2("TEXT", "IMAGE"));
    json_set(
        &mut r,
        "imageConfig",
        text_members("aspectRatio", aspect_text, "imageSize", size_text),
    );
    r
}

} // verus!
