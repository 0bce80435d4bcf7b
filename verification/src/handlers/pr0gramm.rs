//! pr0gramm, read from the static page of an upload.

use vstd::prelude::*;
use crate::context::{VideoView, VIDEO};
use crate::definitions::SiteDefinition;
use crate::handlers::{existence, existence_after, fetch_page, first_attr, first_attr_of, first_text, first_text_of, matches_pattern, page_step, pattern_matches, read_after};
use crate::outside::{capture_group, regex_group};
use crate::protocol::{opt_reply, Failure, Reply, ReplyView, Step, StepView};

verus! {

/// The title on a page: the text of the first element that `title`
/// matches, or the site's name where the page has none.
pub open spec fn title_in(doc: Seq<char>) -> Result<Seq<char>, Failure> {
    match first_text_of(doc, "title"@) {
        Some(t) => Ok(t),
        None => Ok("pr0gramm"@),
    }
}

/// The media URL on a page: `https:` followed by the `src` attribute of
/// the first element that `video` matches.
pub open spec fn media_url_in(doc: Seq<char>) -> Result<Seq<char>, Failure> {
    match first_attr_of(doc, "video"@, "src"@) {
        Ok(src) => Ok("https:"@ + src),
        Err(f) => Err(f),
    }
}

/// The static page of the upload that `url` names by the number at its
/// end, after `uploads/`.
pub open spec fn static_url(url: Seq<char>) -> Result<Seq<char>, Failure> {
    match regex_group("(?:uploads/)([0-9]+)$"@, url, 1) {
        Some(Some(id)) => Ok("https://pr0gramm.com/static/"@ + id),
        _ => Err(Failure::BadUrl),
    }
}

/// How the page for `url` gets into the context.
pub open spec fn info_step(video: VideoView, url: Seq<char>, port: u16, reply: Option<ReplyView>) -> (
    StepView<()>,
    VideoView,
) {
    if video.info.len() > 0 {
        (StepView::Done(()), video)
    } else {
        match static_url(url) {
            Ok(page) => page_step(video, page, reply),
            Err(f) => (StepView::Failed(f), video),
        }
    }
}

fn get_video_info(video: &mut VIDEO, url: &str, webdriver_port: u16, reply: Option<Reply>) -> (r: Step<()>)
    ensures
        (r@, final(video)@) == info_step(old(video)@, url@, webdriver_port, opt_reply(reply)),
{
    if video.has_document() {
        return Step::Done(());
    }
    match capture_group("(?:uploads/)([0-9]+)$", url, 1) {
        Some(Some(id)) => {
            let mut page = "https://pr0gramm.com/static/".to_owned();
            page.push_str(id.as_str());
            fetch_page(video, page.as_str(), reply)
        },
        _ => Step::Failed(Failure::BadUrl),
    }
}

/// The site definition.
pub struct Pr0grammHandler;

impl SiteDefinition for Pr0grammHandler {
    open spec fn handles(&self, url: Seq<char>, port: u16, reply: Option<ReplyView>) -> StepView<bool> {
        StepView::Done(pattern_matches("pr0gramm.com/.+"@, url))
    }

    fn can_handle_url(&self, url: &str, webdriver_port: u16, reply: Option<Reply>) -> (r: Step<bool>) {
        Step::Done(matches_pattern("pr0gramm.com/.+", url))
    }

    open spec fn existence(&self, video: VideoView, url: Seq<char>, port: u16, reply: Option<ReplyView>) -> (
        StepView<bool>,
        VideoView,
    ) {
        existence_after(info_step(video, url, port, reply), true)
    }

    fn does_video_exist(&self, video: &mut VIDEO, url: &str, webdriver_port: u16, reply: Option<Reply>) -> (r:
        Step<bool>) {
        let d = get_video_info(video, url, webdriver_port, reply);
        existence(d, video, true)
    }

    open spec fn segmented(&self, url: Seq<char>, port: u16) -> bool {
        false
    }

    fn is_playlist(&self, url: &str, webdriver_port: u16) -> (r: bool) {
        false
    }

    open spec fn title(&self, video: VideoView, url: Seq<char>, port: u16, reply: Option<ReplyView>) -> (
        StepView<Seq<char>>,
        VideoView,
    ) {
        let turn = info_step(video, url, port, reply);
        (read_after(turn.0, title_in(turn.1.info)), turn.1)
    }

    fn find_video_title(&self, video: &mut VIDEO, url: &str, webdriver_port: u16, reply: Option<Reply>) -> (r:
        Step<String>) {
        match get_video_info(video, url, webdriver_port, reply) {
            Step::Done(_) => match first_text(video.info.as_str(), "title") {
                Some(t) => Step::Done(t),
                None => Step::Done("pr0gramm".to_owned()),
            },
            Step::Fetch(q) => Step::Fetch(q),
            Step::Failed(f) => Step::Failed(f),
        }
    }

    open spec fn direct_url(
        &self,
        video: VideoView,
        url: Seq<char>,
        port: u16,
        onlyaudio: bool,
        reply: Option<ReplyView>,
    ) -> (StepView<Seq<char>>, VideoView) {
        let turn = info_step(video, url, port, reply);
        (read_after(turn.0, media_url_in(turn.1.info)), turn.1)
    }

    fn find_video_direct_url(
        &self,
        video: &mut VIDEO,
        url: &str,
        webdriver_port: u16,
        onlyaudio: bool,
        reply: Option<Reply>,
    ) -> (r: Step<String>) {
        match get_video_info(video, url, webdriver_port, reply) {
            Step::Done(_) => match first_attr(video.info.as_str(), "video", "src") {
                Ok(src) => {
                    let mut out = "https:".to_owned();
                    out.push_str(src.as_str());
                    Step::Done(out)
                },
                Err(f) => Step::Failed(f),
            },
            Step::Fetch(q) => Step::Fetch(q),
            Step::Failed(f) => Step::Failed(f),
        }
    }

    open spec fn extension(
        &self,
        video: VideoView,
        url: Seq<char>,
        port: u16,
        onlyaudio: bool,
        reply: Option<ReplyView>,
    ) -> (StepView<Seq<char>>, VideoView) {
        (StepView::Done("mp4"@), video)
    }

    fn find_video_file_extension(
        &self,
        video: &mut VIDEO,
        url: &str,
        webdriver_port: u16,
        onlyaudio: bool,
        reply: Option<Reply>,
    ) -> (r: Step<String>) {
        Step::Done("mp4".to_owned())
    }

    open spec fn name(&self) -> Seq<char> {
        "pr0gramm"@
    }

    fn display_name(&self) -> (r: String) {
        "pr0gramm".to_owned()
    }

    open spec fn needs_web_driver(&self) -> bool {
        false
    }

    fn web_driver_required(&self) -> (r: bool) {
        false
    }
}

} // verus!
