//! Spankbang. The file name comes from the URL, not from the page.

use vstd::prelude::*;
use crate::context::{VideoView, VIDEO};
use crate::definitions::SiteDefinition;
use crate::handlers::{existence, existence_after, fetch_page, first_attr, first_attr_of, matches_pattern, page_step, pattern_matches, read_after, result_text, settle};
use crate::outside::{path_of_url, url_path};
use crate::protocol::{opt_reply, Failure, Reply, ReplyView, Step, StepView};
use crate::text::{from_chars, pieces, replace_chars, replaced, slice_chars, split, split_on, to_chars, trim, trimmed};

verus! {

/// The longest description that goes into a file name whole.
pub const MAX_FILENAME_LENGTH: usize = 142;

/// The characters that must not stand in a file name on Linux.
pub open spec fn linux_invalid() -> Seq<char> {
    seq!['|', '\'', '"', ':', '\'', '\\', '/']
}

/// The characters that must not stand in a file name on Windows, and the
/// `+` that this site puts between words.
pub open spec fn windows_invalid() -> Seq<char> {
    seq!['<', '>', ':', '?', '*', '\n', '+']
}

/// `s` as a file name for Linux: trimmed, with `_` for each invalid
/// character.
pub open spec fn linux_name(s: Seq<char>) -> Seq<char> {
    replaced(trimmed(s), linux_invalid(), seq!['_'])
}

/// `s` as a file name for Windows: trimmed, with `_` for each invalid
/// character.
pub open spec fn windows_name(s: Seq<char>) -> Seq<char> {
    replaced(trimmed(s), windows_invalid(), seq!['_'])
}

fn underscore() -> (r: Vec<char>)
    ensures
        r@ == seq!['_'],
{
    let mut v: Vec<char> = Vec::new();
    v.push('_');
    assert(v@ =~= seq!['_']);
    v
}

/// Replaces the characters that are invalid on Linux with `_`.
pub fn linux_filename(in_filename: String) -> (r: String)
    ensures
        r@ == linux_name(in_filename@),
{
    let mut invalid: Vec<char> = Vec::new();
    invalid.push('|');
    invalid.push('\'');
    invalid.push('"');
    invalid.push(':');
    invalid.push('\'');
    invalid.push('\\');
    invalid.push('/');
    assert(invalid@ =~= linux_invalid());
    let chars = to_chars(in_filename.as_str());
    from_chars(&replace_chars(&trim(&chars), &invalid, &underscore()))
}

/// Replaces the characters that are invalid on Windows with `_`.
pub fn windows_filename(in_filename: String) -> (r: String)
    ensures
        r@ == windows_name(in_filename@),
{
    let mut invalid: Vec<char> = Vec::new();
    invalid.push('<');
    invalid.push('>');
    invalid.push(':');
    invalid.push('?');
    invalid.push('*');
    invalid.push('\n');
    invalid.push('+');
    assert(invalid@ =~= windows_invalid());
    let chars = to_chars(in_filename.as_str());
    from_chars(&replace_chars(&trim(&chars), &invalid, &underscore()))
}

/// The base file name for a URL path of the shape
/// `/<id>/video/<description>`: the description, cut to
/// [`MAX_FILENAME_LENGTH`] characters and marked with `...` where it is
/// longer, then `-` and the id. `None` where the path has fewer than
/// four pieces.
pub open spec fn base_name(path: Seq<char>) -> Option<Seq<char>> {
    let parts = split(path, '/');
    if parts.len() < 4 {
        None
    } else if parts[3].len() > MAX_FILENAME_LENGTH {
        Some(parts[3].take(MAX_FILENAME_LENGTH as int) + "...-"@ + parts[1])
    } else {
        Some(parts[3] + "-"@ + parts[1])
    }
}

/// The file name for the video at `url`, valid on Linux and on Windows.
pub open spec fn url_name(url: Seq<char>) -> Result<Seq<char>, Failure> {
    match url_path(url) {
        Some(path) => match base_name(path) {
            Some(base) => Ok(windows_name(linux_name(base))),
            None => Err(Failure::BadUrl),
        },
        None => Err(Failure::BadUrl),
    }
}

/// Converts the path of `url` to a base file name. Fails with `BadUrl`
/// where `url` does not parse or its path is not of the site's shape.
pub fn url_filename(url: String) -> (r: Result<String, Failure>)
    ensures
        result_text(r) == url_name(url@),
{
    let path = match path_of_url(url.as_str()) {
        Some(p) => p,
        None => {
            return Err(Failure::BadUrl);
        },
    };
    let chars = to_chars(path.as_str());
    let parts = split_on(&chars, '/');
    if parts.len() < 4 {
        return Err(Failure::BadUrl);
    }
    assert(pieces(parts@)[1] == parts@[1]@);
    assert(pieces(parts@)[3] == parts@[3]@);
    let id = from_chars(&parts[1]);
    let description = &parts[3];
    let mut base: String;
    if description.len() > MAX_FILENAME_LENGTH {
        base = from_chars(&slice_chars(description, 0, MAX_FILENAME_LENGTH));
        base.push_str("...-");
    } else {
        base = from_chars(description);
        base.push_str("-");
    }
    base.push_str(id.as_str());
    Ok(windows_filename(linux_filename(base)))
}

/// The media URL on a page: the `src` attribute of the first element
/// that `source[type="video/mp4"]` matches.
pub open spec fn media_url_in(doc: Seq<char>) -> Result<Seq<char>, Failure> {
    first_attr_of(doc, "source[type=\"video/mp4\"]"@, "src"@)
}

/// How the page for `url` gets into the context.
pub open spec fn info_step(video: VideoView, url: Seq<char>, port: u16, reply: Option<ReplyView>) -> (
    StepView<()>,
    VideoView,
) {
    page_step(video, url, reply)
}

fn get_video_info(video: &mut VIDEO, url: &str, webdriver_port: u16, reply: Option<Reply>) -> (r: Step<()>)
    ensures
        (r@, final(video)@) == info_step(old(video)@, url@, webdriver_port, opt_reply(reply)),
{
    fetch_page(video, url, reply)
}

/// The site definition.
pub struct SpankbangHandler;

impl SiteDefinition for SpankbangHandler {
    open spec fn handles(&self, url: Seq<char>, port: u16, reply: Option<ReplyView>) -> StepView<bool> {
        StepView::Done(pattern_matches("spankbang.com/.+"@, url))
    }

    fn can_handle_url(&self, url: &str, webdriver_port: u16, reply: Option<Reply>) -> (r: Step<bool>) {
        Step::Done(matches_pattern("spankbang.com/.+", url))
    }

    open spec fn existence(&self, video: VideoView, url: Seq<char>, port: u16, reply: Option<ReplyView>) -> (
        StepView<bool>,
        VideoView,
    ) {
        existence_after(info_step(video, url, port, reply), false)
    }

    fn does_video_exist(&self, video: &mut VIDEO, url: &str, webdriver_port: u16, reply: Option<Reply>) -> (r:
        Step<bool>) {
        let d = get_video_info(video, url, webdriver_port, reply);
        existence(d, video, false)
    }

    open spec fn segmented(&self, url: Seq<char>, port: u16) -> bool {
        false
    }

    fn is_playlist(&self, url: &str, webdriver_port: u16) -> (r: bool) {
        false
    }

    open spec fn title(&self, video: VideoView, url: Seq<char>, port: u16, reply: Option<ReplyView>) -> (
        StepView<Seq<char>>,
        VideoView,
    ) {
        (read_after(StepView::Done(()), url_name(url)), video)
    }

    fn find_video_title(&self, video: &mut VIDEO, url: &str, webdriver_port: u16, reply: Option<Reply>) -> (r:
        Step<String>) {
        settle(url_filename(url.to_owned()))
    }

    open spec fn direct_url(
        &self,
        video: VideoView,
        url: Seq<char>,
        port: u16,
        onlyaudio: bool,
        reply: Option<ReplyView>,
    ) -> (StepView<Seq<char>>, VideoView) {
        let turn = info_step(video, url, port, reply);
        (read_after(turn.0, media_url_in(turn.1.info)), turn.1)
    }

    fn find_video_direct_url(
        &self,
        video: &mut VIDEO,
        url: &str,
        webdriver_port: u16,
        onlyaudio: bool,
        reply: Option<Reply>,
    ) -> (r: Step<String>) {
        match get_video_info(video, url, webdriver_port, reply) {
            Step::Done(_) => settle(first_attr(video.info.as_str(), "source[type=\"video/mp4\"]", "src")),
            Step::Fetch(q) => Step::Fetch(q),
            Step::Failed(f) => Step::Failed(f),
        }
    }

    open spec fn extension(
        &self,
        video: VideoView,
        url: Seq<char>,
        port: u16,
        onlyaudio: bool,
        reply: Option<ReplyView>,
    ) -> (StepView<Seq<char>>, VideoView) {
        (StepView::Done("mp4"@), video)
    }

    fn find_video_file_extension(
        &self,
        video: &mut VIDEO,
        url: &str,
        webdriver_port: u16,
        onlyaudio: bool,
        reply: Option<Reply>,
    ) -> (r: Step<String>) {
        Step::Done("mp4".to_owned())
    }

    open spec fn name(&self) -> Seq<char> {
        "Spankbang"@
    }

    fn display_name(&self) -> (r: String) {
        "Spankbang".to_owned()
    }

    open spec fn needs_web_driver(&self) -> bool {
        false
    }

    fn web_driver_required(&self) -> (r: bool) {
        false
    }
}

} // verus!
