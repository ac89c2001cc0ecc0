//! Batches of image edits: picking the edits of a batch, reading the
//! options of an edit, and naming the file the result goes to.

use crate::imagen::{
    aspect_refusal, hash_prefix, output_filename, size_refusal, slug_of, slugify_or, text_of,
};
use crate::imagen_api::{AspectRatio, GeneratedImage, ImageSize};
use crate::imagen_edit_api::ImageEditConfig;
use crate::text::{chars_of, concat, slice_chars, str_eq, string_of};
use vstd::prelude::*;
use vstd::string::*;

verus! {

/// The longest slug that goes into a file name.
pub const MAX_SLUG_CHARS: usize = 40;

/// Reads an image size.
pub fn parse_size(size_str: &str) -> (r: Result<ImageSize, String>)
    ensures
        match r {
            Ok(size) => ImageSize::named(size_str@) == Some(size),
            Err(message) => ImageSize::named(size_str@) is None && message@ == size_refusal(
                size_str@,
            ),
        },
{
    ImageSize::from_str(size_str)
}

/// The aspect ratio that a text denotes for an edit: as for a
/// generation, and `5:4` counts as the standard ratio, the nearest that
/// the service offers.
pub open spec fn edit_aspect(s: Seq<char>) -> Option<AspectRatio> {
    if s == "5:4"@ {
        Some(AspectRatio::Standard)
    } else {
        AspectRatio::named(s)
    }
}

/// Reads an aspect ratio for an edit.
pub fn parse_aspect(aspect_str: &str) -> (r: Result<AspectRatio, String>)
    ensures
        match r {
            Ok(ratio) => edit_aspect(aspect_str@) == Some(ratio),
            Err(message) => edit_aspect(aspect_str@) is None && message@ == aspect_refusal(
                aspect_str@,
            ),
        },
{
    if str_eq(aspect_str, "5:4") {
        return Ok(AspectRatio::Standard);
    }
    AspectRatio::from_str(aspect_str)
}

/// The options that the texts of a size and an aspect ratio stand for:
/// none where neither text is given, else a configuration with what is
/// given. A text that means nothing is refused with its message; the size
/// is read first.
pub open spec fn edit_config_of(size: Option<Seq<char>>, aspect: Option<Seq<char>>) -> Result<
    Option<(Option<ImageSize>, Option<AspectRatio>)>,
    Seq<char>,
> {
    if size is None && aspect is None {
        Ok(None)
    } else if size is Some && ImageSize::named(size->Some_0) is None {
        Err(size_refusal(size->Some_0))
    } else if aspect is Some && edit_aspect(aspect->Some_0) is None {
        Err(aspect_refusal(aspect->Some_0))
    } else {
        Ok(
            Some(
                (
                    match size {
                        Some(s) => ImageSize::named(s),
                        None => None,
                    },
                    match aspect {
                        Some(a) => edit_aspect(a),
                        None => None,
                    },
                ),
            ),
        )
    }
}

/// Whether `r` holds the options, or the refusal, that `expected` tells.
pub open spec fn edit_config_matches(
    expected: Result<Option<(Option<ImageSize>, Option<AspectRatio>)>, Seq<char>>,
    r: Result<Option<ImageEditConfig>, String>,
) -> bool {
    match expected {
        Ok(None) => r matches Ok(None),
        Ok(Some(options)) => r matches Ok(Some(config)) && config.size == options.0
            && config.aspect_ratio == options.1,
        Err(refusal) => r matches Err(message) && message@ == refusal,
    }
}

/// Builds the options of an edit request from the texts that the user
/// gave for size and aspect ratio.
pub fn build_edit_config(size: Option<&String>, aspect: Option<&String>) -> (r: Result<
    Option<ImageEditConfig>,
    String,
>)
    ensures
        edit_config_matches(edit_config_of(text_of(size), text_of(aspect)), r),
{
    if size.is_none() && aspect.is_none() {
        return Ok(None);
    }
    let mut config = ImageEditConfig::new();
    match size {
        Some(s) => match parse_size(s.as_str()) {
            Ok(parsed) => {
                config = config.with_size(parsed);
            },
            Err(message) => {
                return Err(message);
            },
        },
        None => {},
    }
    match aspect {
        Some(a) => match parse_aspect(a.as_str()) {
            Ok(parsed) => {
                config = config.with_aspect_ratio(parsed);
            },
            Err(message) => {
                return Err(message);
            },
        },
        None => {},
    }
    Ok(Some(config))
}

/// The slug of the name of an edit; `edited` where the name holds no
/// ASCII letter or digit.
pub fn slugify(s: &str) -> (slug: String)
    ensures
        slug@ == slug_of(s@, "edited"@),
{
    slugify_or(s, "edited")
}

/// The first `limit` characters of a text; all of it, if it is shorter.
pub open spec fn truncated(s: Seq<char>, limit: int) -> Seq<char> {
    if s.len() <= limit {
        s
    } else {
        s.take(limit)
    }
}

/// The name of the file that an edited image goes to where the user
/// names none: the slug of the edit's name, cut to forty characters, the
/// digest prefix of name and prompt, and the extension.
pub fn generate_output_filename(name: &str, prompt: &str, extension: &str) -> (filename: String)
    ensures
        filename@ == output_filename(
            truncated(slug_of(name@, "edited"@), MAX_SLUG_CHARS as int),
            name@,
            prompt@,
            extension@,
        ),
{
    let slug = slugify(name);
    let chars = chars_of(slug.as_str());
    let mut filename = if chars.len() <= MAX_SLUG_CHARS {
        slug
    } else {
        let cut = string_of(&slice_chars(&chars, 0, MAX_SLUG_CHARS));
        proof {
            assert(chars@.subrange(0, MAX_SLUG_CHARS as int) =~= slug@.take(MAX_SLUG_CHARS as int));
        }
        cut
    };
    filename.append("-");
    filename.append(hash_prefix(name, prompt).as_str());
    filename.append(".");
    filename.append(extension);
    filename
}

/// One edit of a batch, as the edits file gives it.
#[derive(Debug, Clone)]
pub struct EditEntry {
    pub name: String,
    pub prompt: String,
    /// The input images, by path; a relative path starts at the directory
    /// of the edits file.
    pub images: Vec<String>,
    /// The file to write, in the output directory.
    pub output: Option<String>,
    pub size: Option<String>,
    pub aspect: Option<String>,
}

/// The edits of a batch.
#[derive(Debug, Clone)]
pub struct EditsFile {
    pub edits: Vec<EditEntry>,
}

/// The first of two optional texts that is there.
pub open spec fn first_of(own: Option<String>, default: Option<&String>) -> Option<Seq<char>> {
    match own {
        Some(s) => Some(s@),
        None => text_of(default),
    }
}

/// Reads the options of one edit of a batch: those built from the
/// entry's size and aspect ratio, or the batch's where the entry has
/// none.
pub fn plan_edit(
    entry: &EditEntry,
    default_size: Option<&String>,
    default_aspect: Option<&String>,
) -> (r: Result<Option<ImageEditConfig>, String>)
    ensures
        edit_config_matches(
            edit_config_of(
                first_of(entry.size, default_size),
                first_of(entry.aspect, default_aspect),
            ),
            r,
        ),
{
    let size = match &entry.size {
        Some(s) => Some(s),
        None => default_size,
    };
    let aspect = match &entry.aspect {
        Some(a) => Some(a),
        None => default_aspect,
    };
    build_edit_config(size, aspect)
}

/// The name of the file that the result of an edit goes to: the one the
/// entry names, or the generated name with the image's extension.
pub fn edit_filename(entry: &EditEntry, image: &GeneratedImage) -> (filename: String)
    ensures
        filename@ == match entry.output {
            Some(output) => output@,
            None => output_filename(
                truncated(slug_of(entry.name@, "edited"@), MAX_SLUG_CHARS as int),
                entry.name@,
                entry.prompt@,
                crate::imagen_api::extension_for(image.mime_type@),
            ),
        },
{
    match &entry.output {
        Some(output) => output.clone(),
        None => generate_output_filename(
            entry.name.as_str(),
            entry.prompt.as_str(),
            image.extension(),
        ),
    }
}

/// The entries called `name`, in order.
pub open spec fn entries_named(edits: Seq<EditEntry>, name: Seq<char>) -> Seq<EditEntry>
    decreases edits.len(),
{
    if edits.len() == 0 {
        Seq::empty()
    } else if edits.last().name@ == name {
        entries_named(edits.drop_last(), name).push(edits.last())
    } else {
        entries_named(edits.drop_last(), name)
    }
}

/// The edits that a batch runs: those of the given name, or all where no
/// name is given.
pub open spec fn selected_edits(edits: Seq<EditEntry>, name_filter: Option<&str>) -> Seq<
    EditEntry,
> {
    match name_filter {
        Some(name) => entries_named(edits, name@),
        None => edits,
    }
}

fn copy_text(s: &Option<String>) -> (r: Option<String>)
    ensures
        r == *s,
{
    match s {
        Some(s) => Some(s.clone()),
        None => None,
    }
}

fn copy_texts(list: &Vec<String>) -> (r: Vec<String>)
    ensures
        r@ == list@,
{
    let mut r: Vec<String> = Vec::new();
    let mut i: usize = 0;
    while i < list.len()
        invariant
            i <= list@.len(),
            r@ == list@.take(i as int),
        decreases list@.len() - i,
    {
        r.push(list[i].clone());
        proof {
            assert(r@ =~= list@.take(i + 1));
        }
        i = i + 1;
    }
    proof {
        assert(list@.take(list@.len() as int) =~= list@);
    }
    r
}

fn copy_entry(entry: &EditEntry) -> (r: EditEntry)
    ensures
        r.name == entry.name,
        r.prompt == entry.prompt,
        r.images@ == entry.images@,
        r.output == entry.output,
        r.size == entry.size,
        r.aspect == entry.aspect,
{
    EditEntry {
        name: entry.name.clone(),
        prompt: entry.prompt.clone(),
        images: copy_texts(&entry.images),
        output: copy_text(&entry.output),
        size: copy_text(&entry.size),
        aspect: copy_text(&entry.aspect),
    }
}

/// Whether two entries say the same.
pub open spec fn same_entry(a: EditEntry, b: EditEntry) -> bool {
    &&& a.name == b.name
    &&& a.prompt == b.prompt
    &&& a.images@ == b.images@
    &&& a.output == b.output
    &&& a.size == b.size
    &&& a.aspect == b.aspect
}

/// Whether two lists of entries say the same, entry by entry.
pub open spec fn same_entries(a: Seq<EditEntry>, b: Seq<EditEntry>) -> bool {
    a.len() == b.len() && forall|i: int| 0 <= i < a.len() ==> same_entry(#[trigger] a[i], b[i])
}

/// Picks the edits that a batch runs. A batch without edits is refused,
/// with a message that quotes the name where one was asked for.
pub fn select_edits(edits: &Vec<EditEntry>, name_filter: Option<&str>) -> (r: Result<
    Vec<EditEntry>,
    String,
>)
    ensures
        match r {
            Ok(selected) => same_entries(selected@, selected_edits(edits@, name_filter))
                && selected@.len() > 0,
            Err(message) => selected_edits(edits@, name_filter).len() == 0 && message@
                == (match name_filter {
                Some(name) => "No entry found with name: "@ + name@,
                None => "No edits found in YAML file"@,
            }),
        },
{
    let mut selected: Vec<EditEntry> = Vec::new();
    let mut i: usize = 0;
    while i < edits.len()
        invariant
            i <= edits@.len(),
            same_entries(selected@, selected_edits(edits@.take(i as int), name_filter)),
        decreases edits@.len() - i,
    {
        proof {
            assert(edits@.take(i + 1).drop_last() =~= edits@.take(i as int));
            assert(edits@.take(i + 1) =~= edits@.take(i as int).push(edits@[i as int]));
        }
        let entry = &edits[i];
        let wanted = match name_filter {
            Some(name) => str_eq(entry.name.as_str(), name),
            None => true,
        };
        if wanted {
            selected.push(copy_entry(entry));
        }
        i = i + 1;
    }
    proof {
        assert(edits@.take(edits@.len() as int) =~= edits@);
    }
    if selected.len() == 0 {
        match name_filter {
            Some(name) => Err(concat("No entry found with name: ", name)),
            None => Err(String::from_str("No edits found in YAML file")),
        }
    } else {
        Ok(selected)
    }
}

} // verus!
