//! The template engine: the name that a template gives for a media file.

use vstd::prelude::*;
use vstd::string::*;
use crate::error::MediaManagerError;
use crate::media_file::MediaFile;
use crate::metadata::MediaMetadata;
use crate::text::{
    chars_of, contains_reserved, decimal, has_reserved, is_reserved, lemma_decimal_unreserved,
    lemma_replace_keeps_unreserved, lemma_replace_without_first_char, lemma_reserved_concat,
    push_decimal, replace_all, replace_chars, string_of,
};

verus! {

/// The text that stands for a resolution: width, `x`, height, in decimal.
pub open spec fn resolution_text(width: u32, height: u32) -> Seq<char> {
    decimal(width as nat) + seq!['x'] + decimal(height as nat)
}

/// `s` with the placeholders for file name and extension filled in.
pub open spec fn with_name(file: &MediaFile, s: Seq<char>) -> Seq<char> {
    replace_all(
        replace_all(s, "{filename}"@, file.filename@),
        "{extension}"@,
        file.extension@,
    )
}

/// `s` with the resolution filled in, where width and height are both known.
pub open spec fn with_resolution(m: &MediaMetadata, s: Seq<char>) -> Seq<char> {
    match (m.width, m.height) {
        (Some(w), Some(h)) => replace_all(s, "{resolution}"@, resolution_text(w, h)),
        _ => s,
    }
}

/// `s` with the duration filled in, where it is known.
pub open spec fn with_duration(m: &MediaMetadata, s: Seq<char>) -> Seq<char> {
    match m.duration_seconds {
        Some(d) => replace_all(s, "{duration_s}"@, d@),
        None => s,
    }
}

/// `s` with the codec filled in, where it is known.
pub open spec fn with_codec(m: &MediaMetadata, s: Seq<char>) -> Seq<char> {
    match m.codec_name {
        Some(c) => replace_all(s, "{codec}"@, c@),
        None => s,
    }
}

/// The name that `template` gives for `file`: each placeholder whose data
/// the record holds is filled in, in the order file name, extension,
/// resolution, duration, codec; the others stay as they are written.
pub open spec fn rendered(file: &MediaFile, template: Seq<char>) -> Seq<char> {
    match file.metadata {
        Some(m) => with_codec(&m, with_duration(&m, with_resolution(&m, with_name(file, template)))),
        None => with_name(file, template),
    }
}

/// The explanation carried by the error for a name with a reserved character.
pub open spec fn invalid_name_text(name: Seq<char>) -> Seq<char> {
    "Generated filename contains invalid characters: "@ + name
}

/// Whether `r` is the result of rendering `template` for `file`: the rendered
/// name where it holds no reserved character, else the error that carries it.
pub open spec fn is_render_of(
    file: &MediaFile,
    template: Seq<char>,
    r: Result<String, MediaManagerError>,
) -> bool {
    if has_reserved(rendered(file, template)) {
        r matches Err(MediaManagerError::InvalidTemplate(m)) && m@ == invalid_name_text(
            rendered(file, template),
        )
    } else {
        r matches Ok(name) && name@ == rendered(file, template)
    }
}

/// Whether neither the names of `file` nor the texts of its metadata hold a
/// reserved character.
pub open spec fn record_unreserved(file: &MediaFile) -> bool {
    &&& !has_reserved(file.filename@)
    &&& !has_reserved(file.extension@)
    &&& file.metadata matches Some(m) ==> {
        &&& m.duration_seconds matches Some(d) ==> !has_reserved(d@)
        &&& m.codec_name matches Some(c) ==> !has_reserved(c@)
    }
}

/// A template without reserved characters, rendered for a record whose
/// texts hold none, gives a name without reserved characters.
pub proof fn lemma_unreserved_template_gives_unreserved_name(file: &MediaFile, template: Seq<char>)
    requires
        !has_reserved(template),
        record_unreserved(file),
    ensures
        !has_reserved(rendered(file, template)),
{
    let a = replace_all(template, "{filename}"@, file.filename@);
    lemma_replace_keeps_unreserved(template, "{filename}"@, file.filename@);
    lemma_replace_keeps_unreserved(a, "{extension}"@, file.extension@);
    let b = with_name(file, template);
    match file.metadata {
        Some(m) => {
            match (m.width, m.height) {
                (Some(w), Some(h)) => {
                    lemma_decimal_unreserved(w as nat);
                    lemma_decimal_unreserved(h as nat);
                    assert(!has_reserved(seq!['x'])) by {
                        if has_reserved(seq!['x']) {
                            let i = choose|i: int|
                                0 <= i < seq!['x'].len() && is_reserved(
                                    #[trigger] seq!['x'][i],
                                );
                            assert(seq!['x'][i] == 'x');
                        }
                    }
                    lemma_reserved_concat(decimal(w as nat), seq!['x']);
                    lemma_reserved_concat(decimal(w as nat) + seq!['x'], decimal(h as nat));
                    lemma_replace_keeps_unreserved(b, "{resolution}"@, resolution_text(w, h));
                },
                _ => {},
            }
            let c = with_resolution(&m, b);
            match m.duration_seconds {
                Some(d) => {
                    lemma_replace_keeps_unreserved(c, "{duration_s}"@, d@);
                },
                None => {},
            }
            let d = with_duration(&m, c);
            match m.codec_name {
                Some(codec) => {
                    lemma_replace_keeps_unreserved(d, "{codec}"@, codec@);
                },
                None => {},
            }
        },
        None => {},
    }
}

/// Rendering a template without reserved characters, for a record whose
/// texts hold none, succeeds; rendering it again with the same inputs gives
/// the same name.
pub proof fn lemma_unreserved_template_renders(
    file: &MediaFile,
    template: Seq<char>,
    first: Result<String, MediaManagerError>,
    again: Result<String, MediaManagerError>,
)
    requires
        !has_reserved(template),
        record_unreserved(file),
        is_render_of(file, template, first),
        is_render_of(file, template, again),
    ensures
        first matches Ok(name) && name@ == rendered(file, template),
        again matches Ok(name) && name@ == rendered(file, template),
{
    lemma_unreserved_template_gives_unreserved_name(file, template);
}

/// A rendered name in which no placeholder is left, in that it holds no
/// opening brace, renders to itself.
pub proof fn lemma_rendered_name_renders_to_itself(file: &MediaFile, template: Seq<char>)
    requires
        !rendered(file, template).contains('{'),
    ensures
        rendered(file, rendered(file, template)) == rendered(file, template),
{
    reveal_strlit("{filename}");
    reveal_strlit("{extension}");
    reveal_strlit("{resolution}");
    reveal_strlit("{duration_s}");
    reveal_strlit("{codec}");
    let name = rendered(file, template);
    lemma_replace_without_first_char(name, "{filename}"@, file.filename@);
    lemma_replace_without_first_char(name, "{extension}"@, file.extension@);
    match file.metadata {
        Some(m) => {
            match (m.width, m.height) {
                (Some(w), Some(h)) => {
                    lemma_replace_without_first_char(name, "{resolution}"@, resolution_text(w, h));
                },
                _ => {},
            }
            match m.duration_seconds {
                Some(d) => {
                    lemma_replace_without_first_char(name, "{duration_s}"@, d@);
                },
                None => {},
            }
            match m.codec_name {
                Some(c) => {
                    lemma_replace_without_first_char(name, "{codec}"@, c@);
                },
                None => {},
            }
        },
        None => {},
    }
}

/// Renders `template` for `media_file`: fills in each placeholder whose
/// data the record holds, and refuses the name where it holds a reserved
/// character.
pub fn render(media_file: &MediaFile, template: &str) -> (r: Result<String, MediaManagerError>)
    ensures
        is_render_of(media_file, template@, r),
{
    proof {
        reveal_strlit("{filename}");
        reveal_strlit("{extension}");
        reveal_strlit("{resolution}");
        reveal_strlit("{duration_s}");
        reveal_strlit("{codec}");
    }
    let t = chars_of(template);
    let filename = chars_of(media_file.filename.as_str());
    let extension = chars_of(media_file.extension.as_str());
    let mut name = replace_chars(&t, &chars_of("{filename}"), &filename);
    name = replace_chars(&name, &chars_of("{extension}"), &extension);
    assert(name@ == with_name(media_file, template@));
    match &media_file.metadata {
        Some(metadata) => {
            match (metadata.width, metadata.height) {
                (Some(width), Some(height)) => {
                    let mut resolution: Vec<char> = Vec::new();
                    push_decimal(&mut resolution, width as u64);
                    resolution.push('x');
                    push_decimal(&mut resolution, height as u64);
                    assert(resolution@ =~= resolution_text(width, height));
                    name = replace_chars(&name, &chars_of("{resolution}"), &resolution);
                },
                _ => {},
            }
            assert(name@ == with_resolution(metadata, with_name(media_file, template@)));
            match &metadata.duration_seconds {
                Some(duration) => {
                    let d = chars_of(duration.as_str());
                    name = replace_chars(&name, &chars_of("{duration_s}"), &d);
                },
                None => {},
            }
            match &metadata.codec_name {
                Some(codec) => {
                    let c = chars_of(codec.as_str());
                    name = replace_chars(&name, &chars_of("{codec}"), &c);
                },
                None => {},
            }
        },
        None => {},
    }
    assert(name@ == rendered(media_file, template@));
    let text = string_of(&name);
    if contains_reserved(&name) {
        return Err(
            MediaManagerError::InvalidTemplate(
                String::from_str("Generated filename contains invalid characters: ").concat(
                    text.as_str(),
                ),
            ),
        );
    }
    Ok(text)
}

} // verus!
