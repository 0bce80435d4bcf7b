//! The interface of a site definition: the extraction protocol that every
//! supported site implements.
//!
//! No method performs I/O. A method that needs remote data is resumable:
//! called without a reply it answers with the request to make, and called
//! again with the reply to that request it goes on. What each method
//! returns, and what it leaves in the context, is a function of its
//! arguments alone, which the implementation states beside it.

use vstd::prelude::*;
use crate::context::{VideoView, VIDEO};
use crate::protocol::{opt_reply, Reply, ReplyView, Step, StepView};

verus! {

pub trait SiteDefinition {
    /// What [`Self::can_handle_url`] answers.
    spec fn handles(&self, url: Seq<char>, port: u16, reply: Option<ReplyView>) -> StepView<bool>;

    /// True, if this site can handle `url`. A probe that fails counts as
    /// "does not handle" with the caller.
    fn can_handle_url(&self, url: &str, webdriver_port: u16, reply: Option<Reply>) -> (r: Step<bool>)
        ensures
            r@ == self.handles(url@, webdriver_port, opt_reply(reply)),
    ;

    /// What [`Self::does_video_exist`] answers, and the context after it.
    spec fn existence(&self, video: VideoView, url: Seq<char>, port: u16, reply: Option<ReplyView>) -> (
        StepView<bool>,
        VideoView,
    );

    /// True, if the video exists.
    fn does_video_exist(&self, video: &mut VIDEO, url: &str, webdriver_port: u16, reply: Option<Reply>) -> (r:
        Step<bool>)
        ensures
            (r@, final(video)@) == self.existence(old(video)@, url@, webdriver_port, opt_reply(reply)),
    ;

    /// What [`Self::is_playlist`] answers.
    spec fn segmented(&self, url: Seq<char>, port: u16) -> bool;

    /// True, if the content comes as a segmented playlist.
    fn is_playlist(&self, url: &str, webdriver_port: u16) -> (r: bool)
        ensures
            r == self.segmented(url@, webdriver_port),
    ;

    /// What [`Self::find_video_title`] answers, and the context after it.
    spec fn title(&self, video: VideoView, url: Seq<char>, port: u16, reply: Option<ReplyView>) -> (
        StepView<Seq<char>>,
        VideoView,
    );

    /// Returns the title of the video.
    fn find_video_title(&self, video: &mut VIDEO, url: &str, webdriver_port: u16, reply: Option<Reply>) -> (r:
        Step<String>)
        ensures
            (r@, final(video)@) == self.title(old(video)@, url@, webdriver_port, opt_reply(reply)),
    ;

    /// What [`Self::find_video_direct_url`] answers, and the context
    /// after it.
    spec fn direct_url(
        &self,
        video: VideoView,
        url: Seq<char>,
        port: u16,
        onlyaudio: bool,
        reply: Option<ReplyView>,
    ) -> (StepView<Seq<char>>, VideoView);

    /// Returns the download URL of the video or playlist.
    fn find_video_direct_url(
        &self,
        video: &mut VIDEO,
        url: &str,
        webdriver_port: u16,
        onlyaudio: bool,
        reply: Option<Reply>,
    ) -> (r: Step<String>)
        ensures
            (r@, final(video)@) == self.direct_url(
                old(video)@,
                url@,
                webdriver_port,
                onlyaudio,
                opt_reply(reply),
            ),
    ;

    /// What [`Self::find_video_file_extension`] answers, and the context
    /// after it.
    spec fn extension(
        &self,
        video: VideoView,
        url: Seq<char>,
        port: u16,
        onlyaudio: bool,
        reply: Option<ReplyView>,
    ) -> (StepView<Seq<char>>, VideoView);

    /// Returns the file extension of the video (e.g. "mp4").
    fn find_video_file_extension(
        &self,
        video: &mut VIDEO,
        url: &str,
        webdriver_port: u16,
        onlyaudio: bool,
        reply: Option<Reply>,
    ) -> (r: Step<String>)
        ensures
            (r@, final(video)@) == self.extension(
                old(video)@,
                url@,
                webdriver_port,
                onlyaudio,
                opt_reply(reply),
            ),
    ;

    /// The name of the site.
    spec fn name(&self) -> Seq<char>;

    /// Returns the name of the site (e.g. "YouTube").
    fn display_name(&self) -> (r: String)
        ensures
            r@ == self.name(),
    ;

    /// Whether the site can only be read through a web driver.
    spec fn needs_web_driver(&self) -> bool;

    /// True, if this site needs a web driver.
    fn web_driver_required(&self) -> (r: bool)
        ensures
            r == self.needs_web_driver(),
    ;
}

} // verus!
