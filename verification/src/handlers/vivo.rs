//! VIVO.

use vstd::prelude::*;
use crate::context::{VideoView, VIDEO};
use crate::definitions::SiteDefinition;
use crate::handlers::{existence, existence_after, fetch_page, first_attr, first_attr_of, matches_pattern, page_step, pattern_matches, read_after, result_text, settle};
use crate::outside::{capture_named, percent_decode, percent_decoded, regex_named_group, rot47, rot47_char};
use crate::protocol::{opt_reply, Failure, Reply, ReplyView, Step, StepView};

verus! {

/// The title on a page: the `data-name` attribute of the first element that
/// `div.stream-content` matches.
pub open spec fn title_in(doc: Seq<char>) -> Result<Seq<char>, Failure> {
    first_attr_of(doc, "div.stream-content"@, "data-name"@)
}

/// The media URL on a page. It stands in the page's script after
/// `source: '`, percent-encoded and put through ROT47. A page without
/// it, or one whose decoded bytes are no text, is malformed.
pub open spec fn media_url_in(doc: Seq<char>) -> Result<Seq<char>, Failure> {
    match regex_named_group("source: '(?P<SOURCE>.+?)',"@, doc, "SOURCE"@) {
        Some(Some(encoded)) => match percent_decoded(encoded) {
            Some(rotated) => Ok(rotated.map_values(|c: char| rot47_char(c))),
            None => Err(Failure::MissingNode),
        },
        _ => Err(Failure::MissingNode),
    }
}

fn media_url(doc: &str) -> (r: Result<String, Failure>)
    ensures
        result_text(r) == media_url_in(doc@),
{
    match capture_named("source: '(?P<SOURCE>.+?)',", doc, "SOURCE") {
        Some(Some(encoded)) => match percent_decode(encoded.as_str()) {
            Some(rotated) => Ok(rot47(rotated.as_str())),
            None => Err(Failure::MissingNode),
        },
        _ => Err(Failure::MissingNode),
    }
}

/// How the page for `url` gets into the context.
pub open spec fn info_step(video: VideoView, url: Seq<char>, port: u16, reply: Option<ReplyView>) -> (
    StepView<()>,
    VideoView,
) {
    page_step(video, url, reply)
}

fn get_video_info(video: &mut VIDEO, url: &str, webdriver_port: u16, reply: Option<Reply>) -> (r: Step<()>)
    ensures
        (r@, final(video)@) == info_step(old(video)@, url@, webdriver_port, opt_reply(reply)),
{
    fetch_page(video, url, reply)
}

/// The site definition.
pub struct VivoHandler;

impl SiteDefinition for VivoHandler {
    open spec fn handles(&self, url: Seq<char>, port: u16, reply: Option<ReplyView>) -> StepView<bool> {
        StepView::Done(pattern_matches("vivo.sx/.+"@, url))
    }

    fn can_handle_url(&self, url: &str, webdriver_port: u16, reply: Option<Reply>) -> (r: Step<bool>) {
        Step::Done(matches_pattern("vivo.sx/.+", url))
    }

    open spec fn existence(&self, video: VideoView, url: Seq<char>, port: u16, reply: Option<ReplyView>) -> (
        StepView<bool>,
        VideoView,
    ) {
        existence_after(info_step(video, url, port, reply), true)
    }

    fn does_video_exist(&self, video: &mut VIDEO, url: &str, webdriver_port: u16, reply: Option<Reply>) -> (r:
        Step<bool>) {
        let d = get_video_info(video, url, webdriver_port, reply);
        existence(d, video, true)
    }

    open spec fn segmented(&self, url: Seq<char>, port: u16) -> bool {
        false
    }

    fn is_playlist(&self, url: &str, webdriver_port: u16) -> (r: bool) {
        false
    }

    open spec fn title(&self, video: VideoView, url: Seq<char>, port: u16, reply: Option<ReplyView>) -> (
        StepView<Seq<char>>,
        VideoView,
    ) {
        let turn = info_step(video, url, port, reply);
        (read_after(turn.0, title_in(turn.1.info)), turn.1)
    }

    fn find_video_title(&self, video: &mut VIDEO, url: &str, webdriver_port: u16, reply: Option<Reply>) -> (r:
        Step<String>) {
        match get_video_info(video, url, webdriver_port, reply) {
            Step::Done(_) => settle(first_attr(video.info.as_str(), "div.stream-content", "data-name")),
            Step::Fetch(q) => Step::Fetch(q),
            Step::Failed(f) => Step::Failed(f),
        }
    }

    open spec fn direct_url(
        &self,
        video: VideoView,
        url: Seq<char>,
        port: u16,
        onlyaudio: bool,
        reply: Option<ReplyView>,
    ) -> (StepView<Seq<char>>, VideoView) {
        (read_after(StepView::Done(()), media_url_in(video.info)), video)
    }

    fn find_video_direct_url(
        &self,
        video: &mut VIDEO,
        url: &str,
        webdriver_port: u16,
        onlyaudio: bool,
        reply: Option<Reply>,
    ) -> (r: Step<String>) {
        settle(media_url(video.info.as_str()))
    }

    open spec fn extension(
        &self,
        video: VideoView,
        url: Seq<char>,
        port: u16,
        onlyaudio: bool,
        reply: Option<ReplyView>,
    ) -> (StepView<Seq<char>>, VideoView) {
        (StepView::Done("mp4"@), video)
    }

    fn find_video_file_extension(
        &self,
        video: &mut VIDEO,
        url: &str,
        webdriver_port: u16,
        onlyaudio: bool,
        reply: Option<Reply>,
    ) -> (r: Step<String>) {
        Step::Done("mp4".to_owned())
    }

    open spec fn name(&self) -> Seq<char> {
        "VIVO"@
    }

    fn display_name(&self) -> (r: String) {
        "VIVO".to_owned()
    }

    open spec fn needs_web_driver(&self) -> bool {
        false
    }

    fn web_driver_required(&self) -> (r: bool) {
        false
    }
}

} // verus!
