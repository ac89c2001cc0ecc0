//! Batches of image prompts: picking the prompts of a batch, reading the
//! options of a prompt, and naming the file an image goes to.

use crate::codec::{blake3_hex, hash_hex};
use crate::imagen_api::{AspectRatio, GeneratedImage, ImageGenConfig, ImageModel, ImageSize};
use crate::text::{chars_of, concat, lowercase, slice_chars, str_eq, string_of, to_lowercase};
use vstd::prelude::*;
use vstd::string::*;
use vstd::utf8::encode_utf8;

verus! {

/// Reads the name of a model.
pub fn parse_model(model_str: &str) -> (r: Result<ImageModel, String>)
    ensures
        match r {
            Ok(model) => ImageModel::named(lowercase(model_str@)) == Some(model),
            Err(message) => ImageModel::named(lowercase(model_str@)) is None && message@
                == "Unknown model: "@ + model_str@ + ". Use '2.5-flash' or '3pro'"@,
        },
{
    ImageModel::from_str(model_str)
}

/// Reads an image size.
pub fn parse_size(size_str: &str) -> (r: Result<ImageSize, String>)
    ensures
        match r {
            Ok(size) => ImageSize::named(size_str@) == Some(size),
            Err(message) => ImageSize::named(size_str@) is None && message@
                == "Invalid image size: "@ + size_str@
                + ". Must be 1K, 2K, or 4K (uppercase K required)"@,
        },
{
    ImageSize::from_str(size_str)
}

/// Reads an aspect ratio.
pub fn parse_aspect(aspect_str: &str) -> (r: Result<AspectRatio, String>)
    ensures
        match r {
            Ok(ratio) => AspectRatio::named(aspect_str@) == Some(ratio),
            Err(message) => AspectRatio::named(aspect_str@) is None && message@
                == "Invalid aspect ratio: "@ + aspect_str@ + ". Use 1:1, 16:9, 9:16, 4:3, or 3:4"@,
        },
{
    AspectRatio::from_str(aspect_str)
}

/// The message that refuses a text as an image size.
pub open spec fn size_refusal(text: Seq<char>) -> Seq<char> {
    "Invalid image size: "@ + text + ". Must be 1K, 2K, or 4K (uppercase K required)"@
}

/// The message that refuses a text as an aspect ratio.
pub open spec fn aspect_refusal(text: Seq<char>) -> Seq<char> {
    "Invalid aspect ratio: "@ + text + ". Use 1:1, 16:9, 9:16, 4:3, or 3:4"@
}

/// The options that the texts of a size and an aspect ratio stand for:
/// none where neither text is given, else a configuration with what is
/// given. A text that means nothing is refused with its message; the size
/// is read first.
pub open spec fn gen_config_of(size: Option<Seq<char>>, aspect: Option<Seq<char>>) -> Result<
    Option<(Option<ImageSize>, Option<AspectRatio>)>,
    Seq<char>,
> {
    if size is None && aspect is None {
        Ok(None)
    } else if size is Some && ImageSize::named(size->Some_0) is None {
        Err(size_refusal(size->Some_0))
    } else if aspect is Some && AspectRatio::named(aspect->Some_0) is None {
        Err(aspect_refusal(aspect->Some_0))
    } else {
        Ok(
            Some(
                (
                    match size {
                        Some(s) => ImageSize::named(s),
                        None => None,
                    },
                    match aspect {
                        Some(a) => AspectRatio::named(a),
                        None => None,
                    },
                ),
            ),
        )
    }
}

/// The view of an optional text.
pub open spec fn text_of(s: Option<&String>) -> Option<Seq<char>> {
    match s {
        Some(s) => Some(s@),
        None => None,
    }
}

/// Whether `r` holds the options, or the refusal, that `expected` tells.
pub open spec fn gen_config_matches(
    expected: Result<Option<(Option<ImageSize>, Option<AspectRatio>)>, Seq<char>>,
    r: Result<Option<ImageGenConfig>, String>,
) -> bool {
    match expected {
        Ok(None) => r matches Ok(None),
        Ok(Some(options)) => r matches Ok(Some(config)) && config.size == options.0
            && config.aspect_ratio == options.1,
        Err(refusal) => r matches Err(message) && message@ == refusal,
    }
}

/// Builds the options of a generation request from the texts that the
/// user gave for size and aspect ratio.
pub fn build_gen_config(size: Option<&String>, aspect: Option<&String>) -> (r: Result<
    Option<ImageGenConfig>,
    String,
>)
    ensures
        gen_config_matches(gen_config_of(text_of(size), text_of(aspect)), r),
{
    if size.is_none() && aspect.is_none() {
        return Ok(None);
    }
    let mut config = ImageGenConfig::new();
    match size {
        Some(s) => match parse_size(s.as_str()) {
            Ok(parsed) => {
                config.size = Some(parsed);
            },
            Err(message) => {
                return Err(message);
            },
        },
        None => {},
    }
    match aspect {
        Some(a) => match parse_aspect(a.as_str()) {
            Ok(parsed) => {
                config.aspect_ratio = Some(parsed);
            },
            Err(message) => {
                return Err(message);
            },
        },
        None => {},
    }
    Ok(Some(config))
}

/// Whether `c` is an ASCII letter or digit.
pub open spec fn is_slug_char(c: char) -> bool {
    ('a' <= c <= 'z') || ('A' <= c <= 'Z') || ('0' <= c <= '9')
}

/// A text with every character that is no ASCII letter or digit replaced
/// by a hyphen.
pub open spec fn hyphenated(s: Seq<char>) -> Seq<char> {
    s.map_values(
        |c: char|
            if is_slug_char(c) {
                c
            } else {
                '-'
            },
    )
}

/// A text without leading and trailing hyphens and with every run of
/// hyphens inside it reduced to one.
pub open spec fn squeezed(s: Seq<char>) -> Seq<char>
    decreases s.len(),
{
    if s.len() == 0 {
        Seq::empty()
    } else {
        let before = s.drop_last();
        let c = s.last();
        if c == '-' {
            squeezed(before)
        } else if before.len() > 0 && before.last() == '-' && squeezed(before).len() > 0 {
            squeezed(before).push('-').push(c)
        } else {
            squeezed(before).push(c)
        }
    }
}

/// The slug of a text: its lower-case form, with everything but ASCII
/// letters and digits turned into single hyphens between the words that
/// remain. Where nothing remains, the slug is `fallback`.
pub open spec fn slug_of(s: Seq<char>, fallback: Seq<char>) -> Seq<char> {
    let slug = squeezed(hyphenated(lowercase(s)));
    if slug.len() == 0 {
        fallback
    } else {
        slug
    }
}

/// Computes [`slug_of`].
pub fn slugify_or(s: &str, fallback: &str) -> (slug: String)
    ensures
        slug@ == slug_of(s@, fallback@),
{
    let lower = to_lowercase(s);
    let chars = chars_of(lower.as_str());
    let ghost mapped = hyphenated(chars@);
    let mut out: Vec<char> = Vec::new();
    let mut previous_hyphen = false;
    let mut i: usize = 0;
    while i < chars.len()
        invariant
            i <= chars@.len(),
            mapped == hyphenated(chars@),
            out@ == squeezed(mapped.take(i as int)),
            previous_hyphen == (i > 0 && mapped[i - 1] == '-'),
        decreases chars@.len() - i,
    {
        let c = chars[i];
        let keep = (c >= 'a' && c <= 'z') || (c >= 'A' && c <= 'Z') || (c >= '0' && c <= '9');
        proof {
            assert(mapped.take(i + 1).drop_last() =~= mapped.take(i as int));
            assert(mapped.take(i + 1).last() == mapped[i as int]);
            assert(keep ==> c != '-');
        }
        if keep {
            if previous_hyphen && out.len() > 0 {
                out.push('-');
            }
            out.push(c);
            previous_hyphen = false;
        } else {
            previous_hyphen = true;
        }
        i = i + 1;
    }
    proof {
        assert(mapped.take(chars@.len() as int) =~= mapped);
    }
    if out.len() == 0 {
        String::from_str(fallback)
    } else {
        string_of(&out)
    }
}

/// The slug of the name of a prompt; `image` where the name holds no
/// ASCII letter or digit.
pub fn slugify(s: &str) -> (slug: String)
    ensures
        slug@ == slug_of(s@, "image"@),
{
    slugify_or(s, "image")
}

/// The first six digits of the BLAKE3 digest of a name followed by a
/// prompt, both as UTF-8.
pub open spec fn digest_prefix(name: Seq<char>, prompt: Seq<char>) -> Seq<char> {
    blake3_hex(encode_utf8(name + prompt)).take(6)
}

/// Computes [`digest_prefix`].
pub fn hash_prefix(name: &str, prompt: &str) -> (prefix: String)
    ensures
        prefix@ == digest_prefix(name@, prompt@),
        prefix@.len() == 6,
{
    let hash_input = concat(name, prompt);
    let digest = hash_hex(hash_input.as_str().as_bytes());
    let digits = chars_of(digest.as_str());
    let prefix = string_of(&slice_chars(&digits, 0, 6));
    proof {
        assert(digits@.subrange(0, 6) =~= digest@.take(6));
    }
    prefix
}

/// The name of the file that an image goes to where the user names none:
/// the slug of the prompt's name, the digest prefix of name and prompt,
/// and the extension.
pub open spec fn output_filename(
    slug: Seq<char>,
    name: Seq<char>,
    prompt: Seq<char>,
    extension: Seq<char>,
) -> Seq<char> {
    slug + "-"@ + digest_prefix(name, prompt) + "."@ + extension
}

/// Computes [`output_filename`] with the slug of `name`.
pub fn generate_output_filename(name: &str, prompt: &str, extension: &str) -> (filename: String)
    ensures
        filename@ == output_filename(slug_of(name@, "image"@), name@, prompt@, extension@),
{
    let mut filename = slugify(name);
    filename.append("-");
    filename.append(hash_prefix(name, prompt).as_str());
    filename.append(".");
    filename.append(extension);
    filename
}

/// One prompt of a batch, as the prompts file gives it.
#[derive(Debug, Clone)]
pub struct PromptEntry {
    pub name: String,
    pub prompt: String,
    /// The file to write, in the output directory.
    pub output: Option<String>,
    /// The model for this prompt, in place of the batch's.
    pub model: Option<String>,
    /// Image size (Gemini 3 Pro only).
    pub size: Option<String>,
    /// Aspect ratio (Gemini 3 Pro only).
    pub aspect: Option<String>,
}

/// The prompts of a batch.
#[derive(Debug, Clone)]
pub struct PromptsFile {
    pub prompts: Vec<PromptEntry>,
}

/// What a prompt is generated with, once its options have been read.
#[derive(Debug, Clone)]
pub struct PromptPlan {
    pub model: ImageModel,
    pub gen_config: Option<ImageGenConfig>,
}

/// The first of two optional texts that is there.
pub open spec fn first_of(own: Option<String>, default: Option<&String>) -> Option<Seq<char>> {
    match own {
        Some(s) => Some(s@),
        None => text_of(default),
    }
}

/// What [`plan_prompt`] makes of an entry: the model that the entry
/// names, or the batch's where it names none, and the options built from
/// the entry's size and aspect ratio, or the batch's where the entry has
/// none. A model name or an option that means nothing is an error; the
/// model is read first.
pub open spec fn prompt_planned(
    entry: PromptEntry,
    default_model: ImageModel,
    default_size: Option<&String>,
    default_aspect: Option<&String>,
    r: Result<PromptPlan, String>,
) -> bool {
    let model = match entry.model {
        Some(name) => ImageModel::named(lowercase(name@)),
        None => Some(default_model),
    };
    match model {
        None => r matches Err(message) && message@ == "Unknown model: "@ + entry.model->Some_0@
            + ". Use '2.5-flash' or '3pro'"@,
        Some(model) => match gen_config_of(
            first_of(entry.size, default_size),
            first_of(entry.aspect, default_aspect),
        ) {
            Err(refusal) => r matches Err(message) && message@ == refusal,
            Ok(options) => r matches Ok(plan) && plan.model == model && gen_config_matches(
                Ok(options),
                Ok(plan.gen_config),
            ),
        },
    }
}

/// Reads the options of one prompt of a batch.
pub fn plan_prompt(
    entry: &PromptEntry,
    default_model: ImageModel,
    default_size: Option<&String>,
    default_aspect: Option<&String>,
) -> (r: Result<PromptPlan, String>)
    ensures
        prompt_planned(*entry, default_model, default_size, default_aspect, r),
{
    let model = match &entry.model {
        Some(name) => match parse_model(name.as_str()) {
            Ok(model) => model,
            Err(message) => {
                return Err(message);
            },
        },
        None => default_model,
    };
    let size = match &entry.size {
        Some(s) => Some(s),
        None => default_size,
    };
    let aspect = match &entry.aspect {
        Some(a) => Some(a),
        None => default_aspect,
    };
    match build_gen_config(size, aspect) {
        Ok(gen_config) => Ok(PromptPlan { model, gen_config }),
        Err(message) => Err(message),
    }
}

/// The name of the file that the image of a prompt goes to: the one the
/// entry names, or [`output_filename`] with the image's extension.
pub fn prompt_filename(entry: &PromptEntry, image: &GeneratedImage) -> (filename: String)
    ensures
        filename@ == match entry.output {
            Some(output) => output@,
            None => output_filename(
                slug_of(entry.name@, "image"@),
                entry.name@,
                entry.prompt@,
                crate::imagen_api::extension_for(image.mime_type@),
            ),
        },
{
    match &entry.output {
        Some(output) => output.clone(),
        None => generate_output_filename(
            entry.name.as_str(),
            entry.prompt.as_str(),
            image.extension(),
        ),
    }
}

/// The entries called `name`, in order.
pub open spec fn entries_named(prompts: Seq<PromptEntry>, name: Seq<char>) -> Seq<PromptEntry>
    decreases prompts.len(),
{
    if prompts.len() == 0 {
        Seq::empty()
    } else if prompts.last().name@ == name {
        entries_named(prompts.drop_last(), name).push(prompts.last())
    } else {
        entries_named(prompts.drop_last(), name)
    }
}

/// The prompts that a batch runs: those of the given name, or all where
/// no name is given.
pub open spec fn selected_prompts(prompts: Seq<PromptEntry>, name_filter: Option<&str>) -> Seq<
    PromptEntry,
> {
    match name_filter {
        Some(name) => entries_named(prompts, name@),
        None => prompts,
    }
}

fn copy_text(s: &Option<String>) -> (r: Option<String>)
    ensures
        r == *s,
{
    match s {
        Some(s) => Some(s.clone()),
        None => None,
    }
}

fn copy_entry(entry: &PromptEntry) -> (r: PromptEntry)
    ensures
        r == *entry,
{
    PromptEntry {
        name: entry.name.clone(),
        prompt: entry.prompt.clone(),
        output: copy_text(&entry.output),
        model: copy_text(&entry.model),
        size: copy_text(&entry.size),
        aspect: copy_text(&entry.aspect),
    }
}

/// Picks the prompts that a batch runs. A batch without prompts is
/// refused, with a message that quotes the name where one was asked for.
pub fn select_prompts(prompts: &Vec<PromptEntry>, name_filter: Option<&str>) -> (r: Result<
    Vec<PromptEntry>,
    String,
>)
    ensures
        match r {
            Ok(selected) => selected@ == selected_prompts(prompts@, name_filter) && selected@.len()
                > 0,
            Err(message) => selected_prompts(prompts@, name_filter).len() == 0 && message@
                == (match name_filter {
                Some(name) => "No prompt found with name: "@ + name@,
                None => "No prompts found in YAML file"@,
            }),
        },
{
    let mut selected: Vec<PromptEntry> = Vec::new();
    let mut i: usize = 0;
    while i < prompts.len()
        invariant
            i <= prompts@.len(),
            selected@ == selected_prompts(prompts@.take(i as int), name_filter),
        decreases prompts@.len() - i,
    {
        proof {
            assert(prompts@.take(i + 1).drop_last() =~= prompts@.take(i as int));
            assert(prompts@.take(i + 1) =~= prompts@.take(i as int).push(prompts@[i as int]));
        }
        let entry = &prompts[i];
        let wanted = match name_filter {
            Some(name) => crate::text::str_eq(entry.name.as_str(), name),
            None => true,
        };
        if wanted {
            selected.push(copy_entry(entry));
        }
        i = i + 1;
    }
    proof {
        assert(prompts@.take(prompts@.len() as int) =~= prompts@);
    }
    if selected.len() == 0 {
        match name_filter {
            Some(name) => Err(concat("No prompt found with name: ", name)),
            None => Err(String::from_str("No prompts found in YAML file")),
        }
    } else {
        Ok(selected)
    }
}

} // verus!
