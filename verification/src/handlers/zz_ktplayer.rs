//! Any site built on the KT player, read through a web driver. It is the fallback and goes last.

use vstd::prelude::*;
use crate::context::{VideoView, VIDEO};
use crate::definitions::SiteDefinition;
use crate::handlers::{existence, existence_after, first_attr, first_attr_of, read_after, settle};
use crate::context::empty_video;
use crate::outside::{html_attr_values, select_attr};
use crate::protocol::{browse, opt_reply, opt_text, Failure, Reply, ReplyView, Request, Step, StepView};

verus! {

/// The title on a page: the `content` attribute of the first element that
/// `meta[property="og:title"]` matches.
pub open spec fn title_in(doc: Seq<char>) -> Result<Seq<char>, Failure> {
    first_attr_of(doc, "meta[property=\"og:title\"]"@, "content"@)
}

/// The media URL on a page: the `src` attribute of the first element
/// that `video` matches.
pub open spec fn media_url_in(doc: Seq<char>) -> Result<Seq<char>, Failure> {
    first_attr_of(doc, "video"@, "src"@)
}

/// The source of the first `iframe` of the page `body`, if it has one:
/// such sites usually keep the player's embed code there. An `iframe`
/// without a source is malformed.
pub open spec fn frame_in(body: Seq<char>) -> Result<Option<Seq<char>>, Failure> {
    match html_attr_values(body, "iframe"@, "src"@) {
        Some(found) => if found.len() == 0 {
            Ok(None)
        } else {
            match found[0] {
                Some(src) => Ok(Some(src)),
                None => Err(Failure::MissingNode),
            }
        },
        None => Err(Failure::MissingNode),
    }
}

fn frame(body: &str) -> (r: Result<Option<String>, Failure>)
    ensures
        match frame_in(body@) {
            Ok(found) => r is Ok && opt_text(r->Ok_0) == found,
            Err(f) => r is Err && r->Err_0 == f,
        },
{
    match select_attr(body, "iframe", "src") {
        Some(found) => {
            let mut found = found;
            if found.len() == 0 {
                Ok(None)
            } else {
                match found.swap_remove(0) {
                    Some(src) => Ok(Some(src)),
                    None => Err(Failure::MissingNode),
                }
            }
        },
        None => Err(Failure::MissingNode),
    }
}

/// Whether the page `doc` holds a KT player: an element with the id
/// `kt_player`.
pub open spec fn player_in(doc: Seq<char>) -> bool {
    match html_attr_values(doc, "div[id=\"kt_player\"]"@, "id"@) {
        Some(found) => found.len() > 0,
        None => false,
    }
}

/// Whether `url` shows a KT player: the page is read, outside any
/// context, as [`info_step`] reads it, and searched.
pub open spec fn probe(url: Seq<char>, port: u16, reply: Option<ReplyView>) -> StepView<bool> {
    let turn = info_step(empty_video(), url, port, reply);
    match turn.0 {
        StepView::Done(_) => StepView::Done(player_in(turn.1.info)),
        StepView::Fetch(q) => StepView::Fetch(q),
        StepView::Failed(f) => StepView::Failed(f),
    }
}

/// How the page for `url` gets into the context.
pub open spec fn info_step(video: VideoView, url: Seq<char>, port: u16, reply: Option<ReplyView>) -> (
    StepView<()>,
    VideoView,
) {
    if video.info.len() > 0 {
        (StepView::Done(()), video)
    } else {
        match reply {
            None => (StepView::Fetch(browse(url, port, None, 0)), video),
            Some(answer) => match answer.body {
                None => (StepView::Failed(Failure::Transport), video),
                Some(body) => if answer.stage == 0 {
                    match frame_in(body) {
                        Err(f) => (StepView::Failed(f), video),
                        Ok(None) => (StepView::Done(()), VideoView { info: body, ..video }),
                        Ok(Some(src)) => (StepView::Fetch(browse(src, port, None, 1)), video),
                    }
                } else if answer.stage == 1 {
                    (StepView::Done(()), VideoView { info: body, ..video })
                } else {
                    (StepView::Failed(Failure::UnexpectedReply), video)
                },
            },
        }
    }
}

fn get_video_info(video: &mut VIDEO, url: &str, webdriver_port: u16, reply: Option<Reply>) -> (r: Step<()>)
    ensures
        (r@, final(video)@) == info_step(old(video)@, url@, webdriver_port, opt_reply(reply)),
{
    if video.has_document() {
        return Step::Done(());
    }
    match reply {
        None => Step::Fetch(Request::browse(url, webdriver_port, 0)),
        Some(answer) => match answer.body {
            None => Step::Failed(Failure::Transport),
            Some(body) => {
                if answer.stage == 0 {
                    match frame(body.as_str()) {
                        Err(f) => Step::Failed(f),
                        Ok(None) => {
                            video.info = body;
                            Step::Done(())
                        },
                        Ok(Some(src)) => Step::Fetch(Request::browse(src.as_str(), webdriver_port, 1)),
                    }
                } else if answer.stage == 1 {
                    video.info = body;
                    Step::Done(())
                } else {
                    Step::Failed(Failure::UnexpectedReply)
                }
            },
        }
    }
}

/// The site definition.
pub struct ZZKTPlayerHandler;

impl SiteDefinition for ZZKTPlayerHandler {
    open spec fn handles(&self, url: Seq<char>, port: u16, reply: Option<ReplyView>) -> StepView<bool> {
        probe(url, port, reply)
    }

    fn can_handle_url(&self, url: &str, webdriver_port: u16, reply: Option<Reply>) -> (r: Step<bool>) {
        let mut page = VIDEO::new();
        match get_video_info(&mut page, url, webdriver_port, reply) {
            Step::Done(_) => match select_attr(page.info.as_str(), "div[id=\"kt_player\"]", "id") {
                Some(found) => Step::Done(found.len() > 0),
                None => Step::Done(false),
            },
            Step::Fetch(q) => Step::Fetch(q),
            Step::Failed(f) => Step::Failed(f),
        }
    }

    open spec fn existence(&self, video: VideoView, url: Seq<char>, port: u16, reply: Option<ReplyView>) -> (
        StepView<bool>,
        VideoView,
    ) {
        existence_after(info_step(video, url, port, reply), false)
    }

    fn does_video_exist(&self, video: &mut VIDEO, url: &str, webdriver_port: u16, reply: Option<Reply>) -> (r:
        Step<bool>) {
        let d = get_video_info(video, url, webdriver_port, reply);
        existence(d, video, false)
    }

    open spec fn segmented(&self, url: Seq<char>, port: u16) -> bool {
        false
    }

    fn is_playlist(&self, url: &str, webdriver_port: u16) -> (r: bool) {
        false
    }

    open spec fn title(&self, video: VideoView, url: Seq<char>, port: u16, reply: Option<ReplyView>) -> (
        StepView<Seq<char>>,
        VideoView,
    ) {
        let turn = info_step(video, url, port, reply);
        (read_after(turn.0, title_in(turn.1.info)), turn.1)
    }

    fn find_video_title(&self, video: &mut VIDEO, url: &str, webdriver_port: u16, reply: Option<Reply>) -> (r:
        Step<String>) {
        match get_video_info(video, url, webdriver_port, reply) {
            Step::Done(_) => settle(first_attr(video.info.as_str(), "meta[property=\"og:title\"]", "content")),
            Step::Fetch(q) => Step::Fetch(q),
            Step::Failed(f) => Step::Failed(f),
        }
    }

    open spec fn direct_url(
        &self,
        video: VideoView,
        url: Seq<char>,
        port: u16,
        onlyaudio: bool,
        reply: Option<ReplyView>,
    ) -> (StepView<Seq<char>>, VideoView) {
        let turn = info_step(video, url, port, reply);
        (read_after(turn.0, media_url_in(turn.1.info)), turn.1)
    }

    fn find_video_direct_url(
        &self,
        video: &mut VIDEO,
        url: &str,
        webdriver_port: u16,
        onlyaudio: bool,
        reply: Option<Reply>,
    ) -> (r: Step<String>) {
        match get_video_info(video, url, webdriver_port, reply) {
            Step::Done(_) => settle(first_attr(video.info.as_str(), "video", "src")),
            Step::Fetch(q) => Step::Fetch(q),
            Step::Failed(f) => Step::Failed(f),
        }
    }

    open spec fn extension(
        &self,
        video: VideoView,
        url: Seq<char>,
        port: u16,
        onlyaudio: bool,
        reply: Option<ReplyView>,
    ) -> (StepView<Seq<char>>, VideoView) {
        (StepView::Done("mp4"@), video)
    }

    fn find_video_file_extension(
        &self,
        video: &mut VIDEO,
        url: &str,
        webdriver_port: u16,
        onlyaudio: bool,
        reply: Option<Reply>,
    ) -> (r: Step<String>) {
        Step::Done("mp4".to_owned())
    }

    open spec fn name(&self) -> Seq<char> {
        "Generic KT player"@
    }

    fn display_name(&self) -> (r: String) {
        "Generic KT player".to_owned()
    }

    open spec fn needs_web_driver(&self) -> bool {
        true
    }

    fn web_driver_required(&self) -> (r: bool) {
        true
    }
}

} // verus!
