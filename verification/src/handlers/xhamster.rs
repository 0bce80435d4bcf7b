//! xHamster. The media comes as a playlist that the page points to.

use vstd::prelude::*;
use crate::context::{VideoView, VIDEO};
use crate::definitions::SiteDefinition;
use crate::handlers::{existence, existence_after, fetch_page, first_attr, first_attr_of, first_text, first_text_of, page_step, read_after};
use crate::context::empty_video;
use crate::outside::{html_attr_values, media_playlist_uris, normalize_url, playlist_uris, replace_last_segment, select_attr, url_normalized, url_with_last_segment};
use crate::protocol::{http_get, opt_reply, Failure, Reply, ReplyView, Request, Step, StepView};

verus! {

/// The title on a page: the text of the first element that `h1`
/// matches. A page without one is malformed.
pub open spec fn title_in(doc: Seq<char>) -> Result<Seq<char>, Failure> {
    match first_text_of(doc, "h1"@) {
        Some(t) => Ok(t),
        None => Err(Failure::MissingNode),
    }
}

/// Whether the page `doc` says that it belongs to this site: its first
/// `application-name` entry must read `xHamster`. A page without such an
/// entry does not; an entry without content is malformed.
pub open spec fn application_in(doc: Seq<char>) -> StepView<bool> {
    match html_attr_values(doc, "meta[name=\"application-name\"]"@, "content"@) {
        Some(found) => if found.len() == 0 {
            StepView::Done(false)
        } else {
            match found[0] {
                Some(app) => StepView::Done(app == "xHamster"@),
                None => StepView::Failed(Failure::MissingNode),
            }
        },
        None => StepView::Failed(Failure::MissingNode),
    }
}

fn application(doc: &str) -> (r: Step<bool>)
    ensures
        r@ == application_in(doc@),
{
    match select_attr(doc, "meta[name=\"application-name\"]", "content") {
        Some(found) => {
            let mut found = found;
            if found.len() == 0 {
                Step::Done(false)
            } else {
                match found.swap_remove(0) {
                    Some(app) => Step::Done(app == "xHamster".to_owned()),
                    None => Step::Failed(Failure::MissingNode),
                }
            }
        },
        None => Step::Failed(Failure::MissingNode),
    }
}

/// Whether `url` is a page of this site: the page is fetched, outside
/// any context, and asked.
pub open spec fn probe(url: Seq<char>, reply: Option<ReplyView>) -> StepView<bool> {
    let turn = page_step(empty_video(), url, reply);
    match turn.0 {
        StepView::Done(_) => application_in(turn.1.info),
        StepView::Fetch(q) => StepView::Fetch(q),
        StepView::Failed(f) => StepView::Failed(f),
    }
}

/// Where the page `doc` says its playlist is.
pub open spec fn playlist_url_in(doc: Seq<char>) -> Result<Seq<char>, Failure> {
    match first_attr_of(doc, "link[rel=\"preload\"][as=\"fetch\"]"@, "href"@) {
        Ok(href) => match url_normalized(href) {
            Some(u) => Ok(u),
            None => Err(Failure::BadUrl),
        },
        Err(f) => Err(f),
    }
}

/// The media URL that the playlist `text`, fetched from `playlist_url`,
/// leads to: its last entry is the best, and stands relative to the
/// playlist. A text that is no playlist counts as a failed transfer.
pub open spec fn best_in(playlist_url: Seq<char>, text: Seq<char>) -> StepView<Seq<char>> {
    match playlist_uris(text) {
        Some(uris) => if uris.len() == 0 {
            StepView::Failed(Failure::NoStream)
        } else {
            match url_with_last_segment(playlist_url, uris.last()) {
                Some(u) => StepView::Done(u),
                None => StepView::Failed(Failure::BadUrl),
            }
        },
        None => StepView::Failed(Failure::Transport),
    }
}

/// The media URL, with the page `doc` of `url` at hand: the page's
/// playlist is asked for, and on its arrival read.
pub open spec fn media_step(doc: Seq<char>, url: Seq<char>, reply: Option<ReplyView>) -> StepView<Seq<char>> {
    if url_normalized(url) is None {
        StepView::Failed(Failure::BadUrl)
    } else {
        match playlist_url_in(doc) {
            Err(f) => StepView::Failed(f),
            Ok(playlist_url) => if reply is Some && reply->Some_0.stage == 1 {
                match reply->Some_0.body {
                    Some(text) => best_in(playlist_url, text),
                    None => StepView::Failed(Failure::Transport),
                }
            } else {
                StepView::Fetch(http_get(playlist_url, 1))
            },
        }
    }
}

fn media(doc: &str, url: &str, reply: Option<Reply>) -> (r: Step<String>)
    ensures
        r@ == media_step(doc@, url@, opt_reply(reply)),
{
    if normalize_url(url).is_none() {
        return Step::Failed(Failure::BadUrl);
    }
    let href = match first_attr(doc, "link[rel=\"preload\"][as=\"fetch\"]", "href") {
        Ok(h) => h,
        Err(f) => {
            return Step::Failed(f);
        },
    };
    let playlist_url = match normalize_url(href.as_str()) {
        Some(u) => u,
        None => {
            return Step::Failed(Failure::BadUrl);
        },
    };
    match reply {
        Some(answer) => {
            if answer.stage == 1 {
                match answer.body {
                    Some(text) => {
                        let uris = match media_playlist_uris(text.as_str()) {
                            Some(v) => v,
                            None => {
                                return Step::Failed(Failure::Transport);
                            },
                        };
                        if uris.len() == 0 {
                            return Step::Failed(Failure::NoStream);
                        }
                        let last = &uris[uris.len() - 1];
                        match replace_last_segment(playlist_url.as_str(), last.as_str()) {
                            Some(u) => Step::Done(u),
                            None => Step::Failed(Failure::BadUrl),
                        }
                    },
                    None => Step::Failed(Failure::Transport),
                }
            } else {
                Step::Fetch(Request::get(playlist_url.as_str(), 1))
            }
        },
        None => Step::Fetch(Request::get(playlist_url.as_str(), 1)),
    }
}

/// How the page for `url` gets into the context.
pub open spec fn info_step(video: VideoView, url: Seq<char>, port: u16, reply: Option<ReplyView>) -> (
    StepView<()>,
    VideoView,
) {
    page_step(video, url, reply)
}

fn get_video_info(video: &mut VIDEO, url: &str, webdriver_port: u16, reply: Option<Reply>) -> (r: Step<()>)
    ensures
        (r@, final(video)@) == info_step(old(video)@, url@, webdriver_port, opt_reply(reply)),
{
    fetch_page(video, url, reply)
}

/// The site definition.
pub struct XHamsterHandler;

impl SiteDefinition for XHamsterHandler {
    open spec fn handles(&self, url: Seq<char>, port: u16, reply: Option<ReplyView>) -> StepView<bool> {
        probe(url, reply)
    }

    fn can_handle_url(&self, url: &str, webdriver_port: u16, reply: Option<Reply>) -> (r: Step<bool>) {
        let mut page = VIDEO::new();
        match fetch_page(&mut page, url, reply) {
            Step::Done(_) => application(page.info.as_str()),
            Step::Fetch(q) => Step::Fetch(q),
            Step::Failed(f) => Step::Failed(f),
        }
    }

    open spec fn existence(&self, video: VideoView, url: Seq<char>, port: u16, reply: Option<ReplyView>) -> (
        StepView<bool>,
        VideoView,
    ) {
        existence_after(info_step(video, url, port, reply), false)
    }

    fn does_video_exist(&self, video: &mut VIDEO, url: &str, webdriver_port: u16, reply: Option<Reply>) -> (r:
        Step<bool>) {
        let d = get_video_info(video, url, webdriver_port, reply);
        existence(d, video, false)
    }

    open spec fn segmented(&self, url: Seq<char>, port: u16) -> bool {
        true
    }

    fn is_playlist(&self, url: &str, webdriver_port: u16) -> (r: bool) {
        true
    }

    open spec fn title(&self, video: VideoView, url: Seq<char>, port: u16, reply: Option<ReplyView>) -> (
        StepView<Seq<char>>,
        VideoView,
    ) {
        let turn = info_step(video, url, port, reply);
        (read_after(turn.0, title_in(turn.1.info)), turn.1)
    }

    fn find_video_title(&self, video: &mut VIDEO, url: &str, webdriver_port: u16, reply: Option<Reply>) -> (r:
        Step<String>) {
        match get_video_info(video, url, webdriver_port, reply) {
            Step::Done(_) => match first_text(video.info.as_str(), "h1") {
                Some(t) => Step::Done(t),
                None => Step::Failed(Failure::MissingNode),
            },
            Step::Fetch(q) => Step::Fetch(q),
            Step::Failed(f) => Step::Failed(f),
        }
    }

    open spec fn direct_url(
        &self,
        video: VideoView,
        url: Seq<char>,
        port: u16,
        onlyaudio: bool,
        reply: Option<ReplyView>,
    ) -> (StepView<Seq<char>>, VideoView) {
        let turn = info_step(video, url, port, reply);
        (
            match turn.0 {
                StepView::Done(_) => media_step(turn.1.info, url, reply),
                StepView::Fetch(q) => StepView::Fetch(q),
                StepView::Failed(f) => StepView::Failed(f),
            },
            turn.1,
        )
    }

    fn find_video_direct_url(
        &self,
        video: &mut VIDEO,
        url: &str,
        webdriver_port: u16,
        onlyaudio: bool,
        reply: Option<Reply>,
    ) -> (r: Step<String>) {
        if video.has_document() {
            media(video.info.as_str(), url, reply)
        } else {
            match get_video_info(video, url, webdriver_port, reply) {
                Step::Done(_) => media(video.info.as_str(), url, None),
                Step::Fetch(q) => Step::Fetch(q),
                Step::Failed(f) => Step::Failed(f),
            }
        }
    }

    open spec fn extension(
        &self,
        video: VideoView,
        url: Seq<char>,
        port: u16,
        onlyaudio: bool,
        reply: Option<ReplyView>,
    ) -> (StepView<Seq<char>>, VideoView) {
        (StepView::Done("ts"@), video)
    }

    fn find_video_file_extension(
        &self,
        video: &mut VIDEO,
        url: &str,
        webdriver_port: u16,
        onlyaudio: bool,
        reply: Option<Reply>,
    ) -> (r: Step<String>) {
        Step::Done("ts".to_owned())
    }

    open spec fn name(&self) -> Seq<char> {
        "xHamster"@
    }

    fn display_name(&self) -> (r: String) {
        "xHamster".to_owned()
    }

    open spec fn needs_web_driver(&self) -> bool {
        false
    }

    fn web_driver_required(&self) -> (r: bool) {
        false
    }
}

} // verus!
