//! A single video file, addressed directly.

use vstd::prelude::*;
use crate::context::{VideoView, VIDEO};
use crate::definitions::SiteDefinition;
use crate::handlers::{matches_pattern, pattern_matches};
use crate::outside::{file_stem, normalize_url, path_file_stem, url_normalized};
use crate::protocol::{http_probe, Failure, Reply, ReplyView, Request, Step, StepView};
use crate::text::{from_chars, pieces, split, split_on, to_chars};

verus! {

/// What follows the last `.` of `url`; all of it where it has none.
pub open spec fn extension_in(url: Seq<char>) -> Seq<char> {
    split(url, '.').last()
}

/// Whether a file answers at `url`: a GET that succeeds says so.
pub open spec fn probe(url: Seq<char>, reply: Option<ReplyView>) -> StepView<bool> {
    if url_normalized(url) is None {
        StepView::Failed(Failure::BadUrl)
    } else {
        match reply {
            None => StepView::Fetch(http_probe(url, 0)),
            Some(answer) => if answer.stage != 0 {
                StepView::Failed(Failure::UnexpectedReply)
            } else {
                StepView::Done(answer.body is Some)
            },
        }
    }
}

/// The site definition.
pub struct GenericFileHandler;

impl SiteDefinition for GenericFileHandler {
    open spec fn handles(&self, url: Seq<char>, port: u16, reply: Option<ReplyView>) -> StepView<bool> {
        StepView::Done(pattern_matches("\\.mp(4|g)$"@, url))
    }

    fn can_handle_url(&self, url: &str, webdriver_port: u16, reply: Option<Reply>) -> (r: Step<bool>) {
        Step::Done(matches_pattern("\\.mp(4|g)$", url))
    }

    open spec fn existence(&self, video: VideoView, url: Seq<char>, port: u16, reply: Option<ReplyView>) -> (
        StepView<bool>,
        VideoView,
    ) {
        (probe(url, reply), video)
    }

    fn does_video_exist(&self, video: &mut VIDEO, url: &str, webdriver_port: u16, reply: Option<Reply>) -> (r:
        Step<bool>) {
        if normalize_url(url).is_none() {
            return Step::Failed(Failure::BadUrl);
        }
        match reply {
            None => Step::Fetch(Request::probe(url, 0)),
            Some(answer) => {
                if answer.stage != 0 {
                    Step::Failed(Failure::UnexpectedReply)
                } else {
                    Step::Done(answer.body.is_some())
                }
            },
        }
    }

    open spec fn segmented(&self, url: Seq<char>, port: u16) -> bool {
        false
    }

    fn is_playlist(&self, url: &str, webdriver_port: u16) -> (r: bool) {
        false
    }

    open spec fn title(&self, video: VideoView, url: Seq<char>, port: u16, reply: Option<ReplyView>) -> (
        StepView<Seq<char>>,
        VideoView,
    ) {
        (
            match file_stem(url) {
                Some(stem) => StepView::Done(stem),
                None => StepView::Failed(Failure::BadUrl),
            },
            video,
        )
    }

    fn find_video_title(&self, video: &mut VIDEO, url: &str, webdriver_port: u16, reply: Option<Reply>) -> (r:
        Step<String>) {
        match path_file_stem(url) {
            Some(stem) => Step::Done(stem),
            None => Step::Failed(Failure::BadUrl),
        }
    }

    open spec fn direct_url(
        &self,
        video: VideoView,
        url: Seq<char>,
        port: u16,
        onlyaudio: bool,
        reply: Option<ReplyView>,
    ) -> (StepView<Seq<char>>, VideoView) {
        (StepView::Done(url), video)
    }

    fn find_video_direct_url(
        &self,
        video: &mut VIDEO,
        url: &str,
        webdriver_port: u16,
        onlyaudio: bool,
        reply: Option<Reply>,
    ) -> (r: Step<String>) {
        Step::Done(url.to_owned())
    }

    open spec fn extension(
        &self,
        video: VideoView,
        url: Seq<char>,
        port: u16,
        onlyaudio: bool,
        reply: Option<ReplyView>,
    ) -> (StepView<Seq<char>>, VideoView) {
        (StepView::Done(extension_in(url)), video)
    }

    fn find_video_file_extension(
        &self,
        video: &mut VIDEO,
        url: &str,
        webdriver_port: u16,
        onlyaudio: bool,
        reply: Option<Reply>,
    ) -> (r: Step<String>) {
        let chars = to_chars(url);
        let parts = split_on(&chars, '.');
        assert(pieces(parts@).last() == parts@.last()@);
        Step::Done(from_chars(&parts[parts.len() - 1]))
    }

    open spec fn name(&self) -> Seq<char> {
        "(direct)"@
    }

    fn display_name(&self) -> (r: String) {
        "(direct)".to_owned()
    }

    open spec fn needs_web_driver(&self) -> bool {
        false
    }

    fn web_driver_required(&self) -> (r: bool) {
        false
    }
}

} // verus!
