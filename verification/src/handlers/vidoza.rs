//! Vidoza.

use vstd::prelude::*;
use crate::context::{VideoView, VIDEO};
use crate::definitions::SiteDefinition;
use crate::handlers::{existence, existence_after, fetch_page, first_attr, first_attr_of, first_text, first_text_of, matches_pattern, page_step, pattern_matches, read_after, settle};
use crate::protocol::{opt_reply, Failure, Reply, ReplyView, Step, StepView};

verus! {

/// The title on a page: the text of the first element that `h1`
/// matches, or the site's name where the page has none.
pub open spec fn title_in(doc: Seq<char>) -> Result<Seq<char>, Failure> {
    match first_text_of(doc, "h1"@) {
        Some(t) => Ok(t),
        None => Ok("Vidoza"@),
    }
}

/// The media URL on a page: the `src` attribute of the first element
/// that `source` matches.
pub open spec fn media_url_in(doc: Seq<char>) -> Result<Seq<char>, Failure> {
    first_attr_of(doc, "source"@, "src"@)
}

/// How the page for `url` gets into the context.
pub open spec fn info_step(video: VideoView, url: Seq<char>, port: u16, reply: Option<ReplyView>) -> (
    StepView<()>,
    VideoView,
) {
    page_step(video, url, reply)
}

fn get_video_info(video: &mut VIDEO, url: &str, webdriver_port: u16, reply: Option<Reply>) -> (r: Step<()>)
    ensures
        (r@, final(video)@) == info_step(old(video)@, url@, webdriver_port, opt_reply(reply)),
{
    fetch_page(video, url, reply)
}

/// The site definition.
pub struct VidozaHandler;

impl SiteDefinition for VidozaHandler {
    open spec fn handles(&self, url: Seq<char>, port: u16, reply: Option<ReplyView>) -> StepView<bool> {
        StepView::Done(pattern_matches("vid(oza|ezz).net/.+"@, url))
    }

    fn can_handle_url(&self, url: &str, webdriver_port: u16, reply: Option<Reply>) -> (r: Step<bool>) {
        Step::Done(matches_pattern("vid(oza|ezz).net/.+", url))
    }

    open spec fn existence(&self, video: VideoView, url: Seq<char>, port: u16, reply: Option<ReplyView>) -> (
        StepView<bool>,
        VideoView,
    ) {
        existence_after(info_step(video, url, port, reply), false)
    }

    fn does_video_exist(&self, video: &mut VIDEO, url: &str, webdriver_port: u16, reply: Option<Reply>) -> (r:
        Step<bool>) {
        let d = get_video_info(video, url, webdriver_port, reply);
        existence(d, video, false)
    }

    open spec fn segmented(&self, url: Seq<char>, port: u16) -> bool {
        false
    }

    fn is_playlist(&self, url: &str, webdriver_port: u16) -> (r: bool) {
        false
    }

    open spec fn title(&self, video: VideoView, url: Seq<char>, port: u16, reply: Option<ReplyView>) -> (
        StepView<Seq<char>>,
        VideoView,
    ) {
        let turn = info_step(video, url, port, reply);
        (read_after(turn.0, title_in(turn.1.info)), turn.1)
    }

    fn find_video_title(&self, video: &mut VIDEO, url: &str, webdriver_port: u16, reply: Option<Reply>) -> (r:
        Step<String>) {
        match get_video_info(video, url, webdriver_port, reply) {
            Step::Done(_) => match first_text(video.info.as_str(), "h1") {
                Some(t) => Step::Done(t),
                None => Step::Done("Vidoza".to_owned()),
            },
            Step::Fetch(q) => Step::Fetch(q),
            Step::Failed(f) => Step::Failed(f),
        }
    }

    open spec fn direct_url(
        &self,
        video: VideoView,
        url: Seq<char>,
        port: u16,
        onlyaudio: bool,
        reply: Option<ReplyView>,
    ) -> (StepView<Seq<char>>, VideoView) {
        let turn = info_step(video, url, port, reply);
        (read_after(turn.0, media_url_in(turn.1.info)), turn.1)
    }

    fn find_video_direct_url(
        &self,
        video: &mut VIDEO,
        url: &str,
        webdriver_port: u16,
        onlyaudio: bool,
        reply: Option<Reply>,
    ) -> (r: Step<String>) {
        match get_video_info(video, url, webdriver_port, reply) {
            Step::Done(_) => settle(first_attr(video.info.as_str(), "source", "src")),
            Step::Fetch(q) => Step::Fetch(q),
            Step::Failed(f) => Step::Failed(f),
        }
    }

    open spec fn extension(
        &self,
        video: VideoView,
        url: Seq<char>,
        port: u16,
        onlyaudio: bool,
        reply: Option<ReplyView>,
    ) -> (StepView<Seq<char>>, VideoView) {
        (StepView::Done("mp4"@), video)
    }

    fn find_video_file_extension(
        &self,
        video: &mut VIDEO,
        url: &str,
        webdriver_port: u16,
        onlyaudio: bool,
        reply: Option<Reply>,
    ) -> (r: Step<String>) {
        Step::Done("mp4".to_owned())
    }

    open spec fn name(&self) -> Seq<char> {
        "Vidoza"@
    }

    fn display_name(&self) -> (r: String) {
        "Vidoza".to_owned()
    }

    open spec fn needs_web_driver(&self) -> bool {
        false
    }

    fn web_driver_required(&self) -> (r: bool) {
        false
    }
}

} // verus!
