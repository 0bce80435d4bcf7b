//! What happens around a download: the port of the web driver, the name
//! of the destination file, and what is handed to the post-processing.

use vstd::prelude::*;
use crate::outside::{path_with_extension, with_extension};
use crate::protocol::Failure;
use crate::text::{from_chars, replace_chars, replaced, to_chars, trim, trimmed};

verus! {

/// The port of the web driver: the one given on the command line, else
/// the one found in the environment, else zero, which stands for none.
pub fn automation_port(flag: Option<u16>, environment: Option<u16>) -> (r: u16)
    ensures
        r == match flag {
            Some(p) => p,
            None => match environment {
                Some(p) => p,
                None => 0,
            },
        },
{
    match flag {
        Some(p) => p,
        None => match environment {
            Some(p) => p,
            None => 0,
        },
    }
}

/// The characters that are taken out of a title before it names a file.
pub open spec fn title_invalid() -> Seq<char> {
    seq!['|', '\'', '"', ':', '\'', '\\', '/', '?', '*']
}

/// The file name made from a title and an extension: the title, trimmed
/// and without its invalid characters, a dot, and the extension.
pub open spec fn default_target(title: Seq<char>, extension: Seq<char>) -> Seq<char> {
    replaced(trimmed(title), title_invalid(), Seq::<char>::empty()) + "."@ + extension
}

/// The name of the destination file: the one asked for, or else the one
/// made from the title and the extension.
pub fn target_filename(title: &str, extension: &str, output: Option<String>) -> (r: String)
    ensures
        r@ == match output {
            Some(name) => name@,
            None => default_target(title@, extension@),
        },
{
    match output {
        Some(name) => name,
        None => {
            let mut invalid: Vec<char> = Vec::new();
            invalid.push('|');
            invalid.push('\'');
            invalid.push('"');
            invalid.push(':');
            invalid.push('\'');
            invalid.push('\\');
            invalid.push('/');
            invalid.push('?');
            invalid.push('*');
            assert(invalid@ =~= title_invalid());
            let nothing: Vec<char> = Vec::new();
            let mut name = from_chars(&replace_chars(&trim(&to_chars(title)), &invalid, &nothing));
            name.push_str(".");
            name.push_str(extension);
            name
        },
    }
}

/// What is done to a downloaded file.
#[derive(Clone, Copy, Debug, PartialEq, Eq, Structural)]
pub enum Conversion {
    /// Nothing: the file is the result.
    Keep,
    /// The audio stream is extracted into the requested format.
    ToAudio,
    /// The segments are remuxed into an MP4 container.
    ToMp4,
}

/// What the post-processing needs to know after a download.
#[derive(Debug)]
pub struct PostProcess {
    pub conversion: Conversion,
    /// The downloaded file.
    pub input: String,
    /// The file that is the result: the converted one, or the download.
    pub output: String,
    /// Whether the downloaded file is removed after the conversion.
    pub delete_input: bool,
}

/// The conversion that a download calls for. A segmented download is
/// always converted, whatever format was asked for; a single file only
/// where audio alone is wanted and the file is not in that format yet.
pub open spec fn conversion_for(
    extension: Seq<char>,
    segmented: bool,
    onlyaudio: bool,
    audio_format: Seq<char>,
) -> Conversion {
    if (onlyaudio && extension != audio_format) || segmented {
        if onlyaudio {
            Conversion::ToAudio
        } else {
            Conversion::ToMp4
        }
    } else {
        Conversion::Keep
    }
}

/// Whether `extension` can be the extension of a file name.
pub open spec fn usable_extension(extension: Seq<char>) -> bool {
    !extension.contains('/') && !extension.contains('\\')
}

fn has_separator(extension: &str) -> (r: bool)
    ensures
        r == !usable_extension(extension@),
{
    let chars = to_chars(extension);
    let mut i: usize = 0;
    while i < chars.len()
        invariant
            i <= chars.len(),
            chars@ == extension@,
            forall|k: int| 0 <= k < i ==> chars@[k] != '/' && chars@[k] != '\\',
        decreases chars.len() - i,
    {
        if chars[i] == '/' || chars[i] == '\\' {
            return true;
        }
        i += 1;
    }
    false
}

/// Says what is to be done with the file `target`, downloaded with the
/// extension `extension`, and which file is the result.
///
/// Fails with `BadFormat`, and only then, where audio is to be extracted
/// into a format that cannot be a file extension.
pub fn post_process(
    target: &str,
    extension: &str,
    segmented: bool,
    onlyaudio: bool,
    audio_format: &str,
    keep_temp_file: bool,
) -> (r: Result<PostProcess, Failure>)
    ensures
        match conversion_for(extension@, segmented, onlyaudio, audio_format@) {
            Conversion::Keep => {
                &&& r is Ok
                &&& r->Ok_0.conversion == Conversion::Keep
                &&& r->Ok_0.input@ == target@
                &&& r->Ok_0.output@ == target@
                &&& !r->Ok_0.delete_input
            },
            Conversion::ToMp4 => {
                &&& r is Ok
                &&& r->Ok_0.conversion == Conversion::ToMp4
                &&& r->Ok_0.input@ == target@
                &&& r->Ok_0.output@ == path_with_extension(target@, "mp4"@)
                &&& r->Ok_0.delete_input == !keep_temp_file
            },
            Conversion::ToAudio => if usable_extension(audio_format@) {
                &&& r is Ok
                &&& r->Ok_0.conversion == Conversion::ToAudio
                &&& r->Ok_0.input@ == target@
                &&& r->Ok_0.output@ == path_with_extension(target@, audio_format@)
                &&& r->Ok_0.delete_input == !keep_temp_file
            } else {
                r is Err && r->Err_0 == Failure::BadFormat
            },
        },
{
    let same_format = extension.to_owned() == audio_format.to_owned();
    if (onlyaudio && !same_format) || segmented {
        if onlyaudio {
            if has_separator(audio_format) {
                return Err(Failure::BadFormat);
            }
            Ok(
                PostProcess {
                    conversion: Conversion::ToAudio,
                    input: target.to_owned(),
                    output: with_extension(target, audio_format),
                    delete_input: !keep_temp_file,
                },
            )
        } else {
            proof {
                reveal_strlit("mp4");
            }
            Ok(
                PostProcess {
                    conversion: Conversion::ToMp4,
                    input: target.to_owned(),
                    output: with_extension(target, "mp4"),
                    delete_input: !keep_temp_file,
                },
            )
        }
    } else {
        Ok(
            PostProcess {
                conversion: Conversion::Keep,
                input: target.to_owned(),
                output: target.to_owned(),
                delete_input: false,
            },
        )
    }
}

} // verus!
