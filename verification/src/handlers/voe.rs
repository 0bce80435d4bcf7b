//! VOE, and the redirectors in front of it.

use vstd::prelude::*;
use crate::context::{VideoView, VIDEO};
use crate::definitions::SiteDefinition;
use crate::handlers::{existence, existence_after, fetch_page, first_text, first_text_of, matches_pattern, page_step, pattern_matches, read_after, result_text, settle};
use crate::outside::{capture_named, normalize_url, regex_named_group, url_normalized};
use crate::protocol::{http_get, opt_reply, Failure, Reply, ReplyView, Request, Step, StepView};

verus! {

/// The title on a page: the text of the first element that `h1.mt-1`
/// matches, or the site's name where the page has none.
pub open spec fn title_in(doc: Seq<char>) -> Result<Seq<char>, Failure> {
    match first_text_of(doc, "h1.mt-1"@) {
        Some(t) => Ok(t),
        None => Ok("VOE"@),
    }
}

/// The media URL on a page: what stands in its script after `Node", "`,
/// up to the next quote. A page without it is malformed.
pub open spec fn media_url_in(doc: Seq<char>) -> Result<Seq<char>, Failure> {
    match regex_named_group("Node\", \"(?P<URL>[^\"]+)"@, doc, "URL"@) {
        Some(Some(found)) => Ok(found),
        _ => Err(Failure::MissingNode),
    }
}

fn media_url(doc: &str) -> (r: Result<String, Failure>)
    ensures
        result_text(r) == media_url_in(doc@),
{
    match capture_named("Node\", \"(?P<URL>[^\"]+)", doc, "URL") {
        Some(Some(found)) => Ok(found),
        _ => Err(Failure::MissingNode),
    }
}

/// Where the page `body`, fetched from `url`, sends the browser on by
/// script: the target that it assigns to `window.location.href`, or
/// `url` itself where it assigns none.
pub open spec fn redirect_target(url: Seq<char>, body: Seq<char>) -> Seq<char> {
    if pattern_matches("window.location.href = '(?P<URL>.*?)'"@, body) {
        match regex_named_group("window.location.href = '(?P<URL>.*?)'"@, body, "URL"@) {
            Some(Some(target)) => target,
            _ => Seq::<char>::empty(),
        }
    } else {
        url
    }
}

/// Finds the actual target URL behind `url`, whose page is `body`.
pub fn resolve_js_redirect(url: &str, body: &str) -> (r: String)
    ensures
        r@ == redirect_target(url@, body@),
{
    if !matches_pattern("window.location.href = '(?P<URL>.*?)'", body) {
        url.to_owned()
    } else {
        match capture_named("window.location.href = '(?P<URL>.*?)'", body, "URL") {
            Some(Some(target)) => target,
            _ => String::new(),
        }
    }
}

/// Whether `url` leads to a VOE player. The page at `url` is fetched,
/// then the page it redirects to; that one must name the player. Any
/// failure on the way is reported, and means "no" to the caller.
pub open spec fn probe(url: Seq<char>, reply: Option<ReplyView>) -> StepView<bool> {
    if url_normalized(url) is None {
        StepView::Failed(Failure::BadUrl)
    } else {
        match reply {
            None => StepView::Fetch(http_get(url, 0)),
            Some(answer) => match answer.body {
                None => StepView::Failed(Failure::Transport),
                Some(body) => if answer.stage == 0 {
                    StepView::Fetch(http_get(redirect_target(url, body), 1))
                } else if answer.stage == 1 {
                    StepView::Done(pattern_matches("VOEPlayer"@, body))
                } else {
                    StepView::Failed(Failure::UnexpectedReply)
                },
            },
        }
    }
}

/// How the page for `url` gets into the context.
pub open spec fn info_step(video: VideoView, url: Seq<char>, port: u16, reply: Option<ReplyView>) -> (
    StepView<()>,
    VideoView,
) {
    page_step(video, url, reply)
}

fn get_video_info(video: &mut VIDEO, url: &str, webdriver_port: u16, reply: Option<Reply>) -> (r: Step<()>)
    ensures
        (r@, final(video)@) == info_step(old(video)@, url@, webdriver_port, opt_reply(reply)),
{
    fetch_page(video, url, reply)
}

/// The site definition.
pub struct VoeHandler;

impl SiteDefinition for VoeHandler {
    open spec fn handles(&self, url: Seq<char>, port: u16, reply: Option<ReplyView>) -> StepView<bool> {
        probe(url, reply)
    }

    fn can_handle_url(&self, url: &str, webdriver_port: u16, reply: Option<Reply>) -> (r: Step<bool>) {
        if normalize_url(url).is_none() {
            return Step::Failed(Failure::BadUrl);
        }
        match reply {
            None => Step::Fetch(Request::get(url, 0)),
            Some(answer) => match answer.body {
                None => Step::Failed(Failure::Transport),
                Some(body) => {
                    if answer.stage == 0 {
                        let target = resolve_js_redirect(url, body.as_str());
                        Step::Fetch(Request::get(target.as_str(), 1))
                    } else if answer.stage == 1 {
                        Step::Done(matches_pattern("VOEPlayer", body.as_str()))
                    } else {
                        Step::Failed(Failure::UnexpectedReply)
                    }
                },
            },
        }
    }

    open spec fn existence(&self, video: VideoView, url: Seq<char>, port: u16, reply: Option<ReplyView>) -> (
        StepView<bool>,
        VideoView,
    ) {
        existence_after(info_step(video, url, port, reply), false)
    }

    fn does_video_exist(&self, video: &mut VIDEO, url: &str, webdriver_port: u16, reply: Option<Reply>) -> (r:
        Step<bool>) {
        let d = get_video_info(video, url, webdriver_port, reply);
        existence(d, video, false)
    }

    open spec fn segmented(&self, url: Seq<char>, port: u16) -> bool {
        true
    }

    fn is_playlist(&self, url: &str, webdriver_port: u16) -> (r: bool) {
        true
    }

    open spec fn title(&self, video: VideoView, url: Seq<char>, port: u16, reply: Option<ReplyView>) -> (
        StepView<Seq<char>>,
        VideoView,
    ) {
        let turn = info_step(video, url, port, reply);
        (read_after(turn.0, title_in(turn.1.info)), turn.1)
    }

    fn find_video_title(&self, video: &mut VIDEO, url: &str, webdriver_port: u16, reply: Option<Reply>) -> (r:
        Step<String>) {
        match get_video_info(video, url, webdriver_port, reply) {
            Step::Done(_) => match first_text(video.info.as_str(), "h1.mt-1") {
                Some(t) => Step::Done(t),
                None => Step::Done("VOE".to_owned()),
            },
            Step::Fetch(q) => Step::Fetch(q),
            Step::Failed(f) => Step::Failed(f),
        }
    }

    open spec fn direct_url(
        &self,
        video: VideoView,
        url: Seq<char>,
        port: u16,
        onlyaudio: bool,
        reply: Option<ReplyView>,
    ) -> (StepView<Seq<char>>, VideoView) {
        let turn = info_step(video, url, port, reply);
        (read_after(turn.0, media_url_in(turn.1.info)), turn.1)
    }

    fn find_video_direct_url(
        &self,
        video: &mut VIDEO,
        url: &str,
        webdriver_port: u16,
        onlyaudio: bool,
        reply: Option<Reply>,
    ) -> (r: Step<String>) {
        match get_video_info(video, url, webdriver_port, reply) {
            Step::Done(_) => settle(media_url(video.info.as_str())),
            Step::Fetch(q) => Step::Fetch(q),
            Step::Failed(f) => Step::Failed(f),
        }
    }

    open spec fn extension(
        &self,
        video: VideoView,
        url: Seq<char>,
        port: u16,
        onlyaudio: bool,
        reply: Option<ReplyView>,
    ) -> (StepView<Seq<char>>, VideoView) {
        (StepView::Done("mp4"@), video)
    }

    fn find_video_file_extension(
        &self,
        video: &mut VIDEO,
        url: &str,
        webdriver_port: u16,
        onlyaudio: bool,
        reply: Option<Reply>,
    ) -> (r: Step<String>) {
        Step::Done("mp4".to_owned())
    }

    open spec fn name(&self) -> Seq<char> {
        "Voe"@
    }

    fn display_name(&self) -> (r: String) {
        "Voe".to_owned()
    }

    open spec fn needs_web_driver(&self) -> bool {
        false
    }

    fn web_driver_required(&self) -> (r: bool) {
        false
    }
}

} // verus!
