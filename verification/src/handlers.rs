//! The site definitions, and what they share: fetching the page into the
//! context, and reading the first match of a selector.

use vstd::prelude::*;
use crate::context::{document_step, VideoView, VIDEO};
use crate::definitions::SiteDefinition;
use crate::outside::{html_attr_values, html_texts, is_match, regex_match, select_attr, select_text, url_normalized, normalize_url};
use crate::protocol::{browse, http_get, opt_reply, opt_text, Failure, Reply, ReplyView, Request, Step, StepView};

pub mod generic_videofile;
pub mod porndoe;
pub mod pr0gramm;
pub mod spankbang;
pub mod vidoza;
pub mod vimeo;
pub mod vivo;
pub mod voe;
pub mod watchmdh;
pub mod xhamster;
pub mod youtube;
pub mod zz_ktplayer;

verus! {

/// The view of a result that holds a string.
pub open spec fn result_text(r: Result<String, Failure>) -> Result<Seq<char>, Failure> {
    match r {
        Ok(s) => Ok(s@),
        Err(f) => Err(f),
    }
}

/// Whether `pattern` is a valid expression that matches in `text`.
pub open spec fn pattern_matches(pattern: Seq<char>, text: Seq<char>) -> bool {
    regex_match(pattern, text) == Some(true)
}

/// Whether `pattern` is a valid expression that matches in `text`.
pub fn matches_pattern(pattern: &str, text: &str) -> (r: bool)
    ensures
        r == pattern_matches(pattern@, text@),
{
    match is_match(pattern, text) {
        Some(b) => b,
        None => false,
    }
}

/// Having the page at `url` in the context as its document: nothing to
/// do where a document is there; else a plain GET of `url`, which must
/// be a URL.
pub open spec fn page_step(video: VideoView, url: Seq<char>, reply: Option<ReplyView>) -> (
    StepView<()>,
    VideoView,
) {
    if video.info.len() > 0 {
        (StepView::Done(()), video)
    } else if url_normalized(url) is None {
        (StepView::Failed(Failure::BadUrl), video)
    } else {
        let d = document_step(video.info, http_get(url, 0), reply);
        (d.0, VideoView { info: d.1, ..video })
    }
}

/// Has the page at `url` in the context as its document.
pub fn fetch_page(video: &mut VIDEO, url: &str, reply: Option<Reply>) -> (r: Step<()>)
    ensures
        (r@, final(video)@) == page_step(old(video)@, url@, opt_reply(reply)),
{
    if video.has_document() {
        return Step::Done(());
    }
    if normalize_url(url).is_none() {
        return Step::Failed(Failure::BadUrl);
    }
    video.ensure_document(Request::get(url, 0), reply)
}

/// Having the page at `url`, as a browser renders it, in the context as
/// its document: nothing to do where a document is there; else one round
/// trip through the automation endpoint at `port`, which runs `script`,
/// if any, before the source is read.
pub open spec fn rendered_step(
    video: VideoView,
    url: Seq<char>,
    port: u16,
    script: Option<Seq<char>>,
    reply: Option<ReplyView>,
) -> (StepView<()>, VideoView) {
    let d = document_step(video.info, browse(url, port, script, 0), reply);
    (d.0, VideoView { info: d.1, ..video })
}

/// Has the page at `url`, as a browser renders it, in the context as its
/// document.
pub fn fetch_rendered(video: &mut VIDEO, url: &str, port: u16, script: Option<&str>, reply: Option<Reply>) -> (r:
    Step<()>)
    ensures
        (r@, final(video)@) == rendered_step(
            old(video)@,
            url@,
            port,
            match script {
                Some(s) => Some(s@),
                None => None,
            },
            opt_reply(reply),
        ),
{
    let request = match script {
        Some(s) => Request::browse_with_script(url, port, s, 0),
        None => Request::browse(url, port, 0),
    };
    video.ensure_document(request, reply)
}

/// Whether the video exists, once the attempt to have its document has
/// ended as `turn` says: it does where the document has content. A URL
/// that is none means "no"; so does a failed transfer where the rule is
/// `lenient`, and otherwise it is a failure.
pub open spec fn existence_after(turn: (StepView<()>, VideoView), lenient: bool) -> (StepView<bool>, VideoView) {
    (
        match turn.0 {
            StepView::Done(_) => StepView::Done(turn.1.info.len() > 0),
            StepView::Fetch(q) => StepView::Fetch(q),
            StepView::Failed(f) => if lenient || f == Failure::BadUrl {
                StepView::Done(false)
            } else {
                StepView::Failed(f)
            },
        },
        turn.1,
    )
}

/// Whether the video exists, once the attempt to have its document has
/// ended with `d`.
pub fn existence(d: Step<()>, video: &VIDEO, lenient: bool) -> (r: Step<bool>)
    ensures
        (r@, video@) == existence_after((d@, video@), lenient),
{
    match d {
        Step::Done(_) => Step::Done(video.has_document()),
        Step::Fetch(q) => Step::Fetch(q),
        Step::Failed(f) => {
            if lenient || f == Failure::BadUrl {
                Step::Done(false)
            } else {
                Step::Failed(f)
            }
        },
    }
}

/// A value read from the document, once the attempt to have the document
/// has ended as `d` says.
pub open spec fn read_after<T>(d: StepView<()>, value: Result<T, Failure>) -> StepView<T> {
    match d {
        StepView::Done(_) => match value {
            Ok(t) => StepView::Done(t),
            Err(f) => StepView::Failed(f),
        },
        StepView::Fetch(q) => StepView::Fetch(q),
        StepView::Failed(f) => StepView::Failed(f),
    }
}

/// The step that ends with `value`.
pub fn settle(value: Result<String, Failure>) -> (r: Step<String>)
    ensures
        r@ == read_after(StepView::Done(()), result_text(value)),
{
    match value {
        Ok(t) => Step::Done(t),
        Err(f) => Step::Failed(f),
    }
}

/// The value of attribute `attr` of the first element of `doc` that
/// `selector` matches. A document without such an element, or whose
/// first such element lacks the attribute, is malformed.
pub open spec fn first_attr_of(doc: Seq<char>, selector: Seq<char>, attr: Seq<char>) -> Result<
    Seq<char>,
    Failure,
> {
    match html_attr_values(doc, selector, attr) {
        Some(values) => if values.len() > 0 && values[0] is Some {
            Ok(values[0]->Some_0)
        } else {
            Err(Failure::MissingNode)
        },
        None => Err(Failure::MissingNode),
    }
}

/// The value of attribute `attr` of the first element of `doc` that
/// `selector` matches.
pub fn first_attr(doc: &str, selector: &str, attr: &str) -> (r: Result<String, Failure>)
    ensures
        result_text(r) == first_attr_of(doc@, selector@, attr@),
{
    match select_attr(doc, selector, attr) {
        Some(values) => {
            let mut values = values;
            if values.len() > 0 {
                match values.swap_remove(0) {
                    Some(v) => Ok(v),
                    None => Err(Failure::MissingNode),
                }
            } else {
                Err(Failure::MissingNode)
            }
        },
        None => Err(Failure::MissingNode),
    }
}

/// The text of the first element of `doc` that `selector` matches, if
/// there is one.
pub open spec fn first_text_of(doc: Seq<char>, selector: Seq<char>) -> Option<Seq<char>> {
    match html_texts(doc, selector) {
        Some(found) => if found.len() > 0 {
            Some(found[0])
        } else {
            None
        },
        None => None,
    }
}

/// The text of the first element of `doc` that `selector` matches, if
/// there is one.
pub fn first_text(doc: &str, selector: &str) -> (r: Option<String>)
    ensures
        opt_text(r) == first_text_of(doc@, selector@),
{
    match select_text(doc, selector) {
        Some(found) => {
            let mut found = found;
            if found.len() > 0 {
                Some(found.swap_remove(0))
            } else {
                None
            }
        },
        None => None,
    }
}

/// A supported site: one of the rules that this library knows.
pub enum Site {
    Generic(generic_videofile::GenericFileHandler),
    PornDoe(porndoe::PornDoeHandler),
    Pr0gramm(pr0gramm::Pr0grammHandler),
    Spankbang(spankbang::SpankbangHandler),
    Vidoza(vidoza::VidozaHandler),
    Vimeo(vimeo::VimeoHandler),
    Vivo(vivo::VivoHandler),
    Voe(voe::VoeHandler),
    WatchMDH(watchmdh::WatchMDHHandler),
    XHamster(xhamster::XHamsterHandler),
    YouTube(youtube::YouTubeHandler),
    KTPlayer(zz_ktplayer::ZZKTPlayerHandler),
}

impl SiteDefinition for Site {
    open spec fn handles(&self, url: Seq<char>, port: u16, reply: Option<ReplyView>) -> StepView<bool> {
        match self {
            Site::Generic(h) => h.handles(url, port, reply),
            Site::PornDoe(h) => h.handles(url, port, reply),
            Site::Pr0gramm(h) => h.handles(url, port, reply),
            Site::Spankbang(h) => h.handles(url, port, reply),
            Site::Vidoza(h) => h.handles(url, port, reply),
            Site::Vimeo(h) => h.handles(url, port, reply),
            Site::Vivo(h) => h.handles(url, port, reply),
            Site::Voe(h) => h.handles(url, port, reply),
            Site::WatchMDH(h) => h.handles(url, port, reply),
            Site::XHamster(h) => h.handles(url, port, reply),
            Site::YouTube(h) => h.handles(url, port, reply),
            Site::KTPlayer(h) => h.handles(url, port, reply),
        }
    }

    fn can_handle_url(&self, url: &str, webdriver_port: u16, reply: Option<Reply>) -> (r: Step<bool>) {
        match self {
            Site::Generic(h) => h.can_handle_url(url, webdriver_port, reply),
            Site::PornDoe(h) => h.can_handle_url(url, webdriver_port, reply),
            Site::Pr0gramm(h) => h.can_handle_url(url, webdriver_port, reply),
            Site::Spankbang(h) => h.can_handle_url(url, webdriver_port, reply),
            Site::Vidoza(h) => h.can_handle_url(url, webdriver_port, reply),
            Site::Vimeo(h) => h.can_handle_url(url, webdriver_port, reply),
            Site::Vivo(h) => h.can_handle_url(url, webdriver_port, reply),
            Site::Voe(h) => h.can_handle_url(url, webdriver_port, reply),
            Site::WatchMDH(h) => h.can_handle_url(url, webdriver_port, reply),
            Site::XHamster(h) => h.can_handle_url(url, webdriver_port, reply),
            Site::YouTube(h) => h.can_handle_url(url, webdriver_port, reply),
            Site::KTPlayer(h) => h.can_handle_url(url, webdriver_port, reply),
        }
    }

    open spec fn existence(&self, video: VideoView, url: Seq<char>, port: u16, reply: Option<ReplyView>) -> (
        StepView<bool>,
        VideoView,
    ) {
        match self {
            Site::Generic(h) => h.existence(video, url, port, reply),
            Site::PornDoe(h) => h.existence(video, url, port, reply),
            Site::Pr0gramm(h) => h.existence(video, url, port, reply),
            Site::Spankbang(h) => h.existence(video, url, port, reply),
            Site::Vidoza(h) => h.existence(video, url, port, reply),
            Site::Vimeo(h) => h.existence(video, url, port, reply),
            Site::Vivo(h) => h.existence(video, url, port, reply),
            Site::Voe(h) => h.existence(video, url, port, reply),
            Site::WatchMDH(h) => h.existence(video, url, port, reply),
            Site::XHamster(h) => h.existence(video, url, port, reply),
            Site::YouTube(h) => h.existence(video, url, port, reply),
            Site::KTPlayer(h) => h.existence(video, url, port, reply),
        }
    }

    fn does_video_exist(&self, video: &mut VIDEO, url: &str, webdriver_port: u16, reply: Option<Reply>) -> (r:
        Step<bool>) {
        match self {
            Site::Generic(h) => h.does_video_exist(video, url, webdriver_port, reply),
            Site::PornDoe(h) => h.does_video_exist(video, url, webdriver_port, reply),
            Site::Pr0gramm(h) => h.does_video_exist(video, url, webdriver_port, reply),
            Site::Spankbang(h) => h.does_video_exist(video, url, webdriver_port, reply),
            Site::Vidoza(h) => h.does_video_exist(video, url, webdriver_port, reply),
            Site::Vimeo(h) => h.does_video_exist(video, url, webdriver_port, reply),
            Site::Vivo(h) => h.does_video_exist(video, url, webdriver_port, reply),
            Site::Voe(h) => h.does_video_exist(video, url, webdriver_port, reply),
            Site::WatchMDH(h) => h.does_video_exist(video, url, webdriver_port, reply),
            Site::XHamster(h) => h.does_video_exist(video, url, webdriver_port, reply),
            Site::YouTube(h) => h.does_video_exist(video, url, webdriver_port, reply),
            Site::KTPlayer(h) => h.does_video_exist(video, url, webdriver_port, reply),
        }
    }

    open spec fn segmented(&self, url: Seq<char>, port: u16) -> bool {
        match self {
            Site::Generic(h) => h.segmented(url, port),
            Site::PornDoe(h) => h.segmented(url, port),
            Site::Pr0gramm(h) => h.segmented(url, port),
            Site::Spankbang(h) => h.segmented(url, port),
            Site::Vidoza(h) => h.segmented(url, port),
            Site::Vimeo(h) => h.segmented(url, port),
            Site::Vivo(h) => h.segmented(url, port),
            Site::Voe(h) => h.segmented(url, port),
            Site::WatchMDH(h) => h.segmented(url, port),
            Site::XHamster(h) => h.segmented(url, port),
            Site::YouTube(h) => h.segmented(url, port),
            Site::KTPlayer(h) => h.segmented(url, port),
        }
    }

    fn is_playlist(&self, url: &str, webdriver_port: u16) -> (r: bool) {
        match self {
            Site::Generic(h) => h.is_playlist(url, webdriver_port),
            Site::PornDoe(h) => h.is_playlist(url, webdriver_port),
            Site::Pr0gramm(h) => h.is_playlist(url, webdriver_port),
            Site::Spankbang(h) => h.is_playlist(url, webdriver_port),
            Site::Vidoza(h) => h.is_playlist(url, webdriver_port),
            Site::Vimeo(h) => h.is_playlist(url, webdriver_port),
            Site::Vivo(h) => h.is_playlist(url, webdriver_port),
            Site::Voe(h) => h.is_playlist(url, webdriver_port),
            Site::WatchMDH(h) => h.is_playlist(url, webdriver_port),
            Site::XHamster(h) => h.is_playlist(url, webdriver_port),
            Site::YouTube(h) => h.is_playlist(url, webdriver_port),
            Site::KTPlayer(h) => h.is_playlist(url, webdriver_port),
        }
    }

    open spec fn title(&self, video: VideoView, url: Seq<char>, port: u16, reply: Option<ReplyView>) -> (
        StepView<Seq<char>>,
        VideoView,
    ) {
        match self {
            Site::Generic(h) => h.title(video, url, port, reply),
            Site::PornDoe(h) => h.title(video, url, port, reply),
            Site::Pr0gramm(h) => h.title(video, url, port, reply),
            Site::Spankbang(h) => h.title(video, url, port, reply),
            Site::Vidoza(h) => h.title(video, url, port, reply),
            Site::Vimeo(h) => h.title(video, url, port, reply),
            Site::Vivo(h) => h.title(video, url, port, reply),
            Site::Voe(h) => h.title(video, url, port, reply),
            Site::WatchMDH(h) => h.title(video, url, port, reply),
            Site::XHamster(h) => h.title(video, url, port, reply),
            Site::YouTube(h) => h.title(video, url, port, reply),
            Site::KTPlayer(h) => h.title(video, url, port, reply),
        }
    }

    fn find_video_title(&self, video: &mut VIDEO, url: &str, webdriver_port: u16, reply: Option<Reply>) -> (r:
        Step<String>) {
        match self {
            Site::Generic(h) => h.find_video_title(video, url, webdriver_port, reply),
            Site::PornDoe(h) => h.find_video_title(video, url, webdriver_port, reply),
            Site::Pr0gramm(h) => h.find_video_title(video, url, webdriver_port, reply),
            Site::Spankbang(h) => h.find_video_title(video, url, webdriver_port, reply),
            Site::Vidoza(h) => h.find_video_title(video, url, webdriver_port, reply),
            Site::Vimeo(h) => h.find_video_title(video, url, webdriver_port, reply),
            Site::Vivo(h) => h.find_video_title(video, url, webdriver_port, reply),
            Site::Voe(h) => h.find_video_title(video, url, webdriver_port, reply),
            Site::WatchMDH(h) => h.find_video_title(video, url, webdriver_port, reply),
            Site::XHamster(h) => h.find_video_title(video, url, webdriver_port, reply),
            Site::YouTube(h) => h.find_video_title(video, url, webdriver_port, reply),
            Site::KTPlayer(h) => h.find_video_title(video, url, webdriver_port, reply),
        }
    }

    open spec fn direct_url(
        &self,
        video: VideoView,
        url: Seq<char>,
        port: u16,
        onlyaudio: bool,
        reply: Option<ReplyView>,
    ) -> (StepView<Seq<char>>, VideoView) {
        match self {
            Site::Generic(h) => h.direct_url(video, url, port, onlyaudio, reply),
            Site::PornDoe(h) => h.direct_url(video, url, port, onlyaudio, reply),
            Site::Pr0gramm(h) => h.direct_url(video, url, port, onlyaudio, reply),
            Site::Spankbang(h) => h.direct_url(video, url, port, onlyaudio, reply),
            Site::Vidoza(h) => h.direct_url(video, url, port, onlyaudio, reply),
            Site::Vimeo(h) => h.direct_url(video, url, port, onlyaudio, reply),
            Site::Vivo(h) => h.direct_url(video, url, port, onlyaudio, reply),
            Site::Voe(h) => h.direct_url(video, url, port, onlyaudio, reply),
            Site::WatchMDH(h) => h.direct_url(video, url, port, onlyaudio, reply),
            Site::XHamster(h) => h.direct_url(video, url, port, onlyaudio, reply),
            Site::YouTube(h) => h.direct_url(video, url, port, onlyaudio, reply),
            Site::KTPlayer(h) => h.direct_url(video, url, port, onlyaudio, reply),
        }
    }

    fn find_video_direct_url(
        &self,
        video: &mut VIDEO,
        url: &str,
        webdriver_port: u16,
        onlyaudio: bool,
        reply: Option<Reply>,
    ) -> (r: Step<String>) {
        match self {
            Site::Generic(h) => h.find_video_direct_url(video, url, webdriver_port, onlyaudio, reply),
            Site::PornDoe(h) => h.find_video_direct_url(video, url, webdriver_port, onlyaudio, reply),
            Site::Pr0gramm(h) => h.find_video_direct_url(video, url, webdriver_port, onlyaudio, reply),
            Site::Spankbang(h) => h.find_video_direct_url(video, url, webdriver_port, onlyaudio, reply),
            Site::Vidoza(h) => h.find_video_direct_url(video, url, webdriver_port, onlyaudio, reply),
            Site::Vimeo(h) => h.find_video_direct_url(video, url, webdriver_port, onlyaudio, reply),
            Site::Vivo(h) => h.find_video_direct_url(video, url, webdriver_port, onlyaudio, reply),
            Site::Voe(h) => h.find_video_direct_url(video, url, webdriver_port, onlyaudio, reply),
            Site::WatchMDH(h) => h.find_video_direct_url(video, url, webdriver_port, onlyaudio, reply),
            Site::XHamster(h) => h.find_video_direct_url(video, url, webdriver_port, onlyaudio, reply),
            Site::YouTube(h) => h.find_video_direct_url(video, url, webdriver_port, onlyaudio, reply),
            Site::KTPlayer(h) => h.find_video_direct_url(video, url, webdriver_port, onlyaudio, reply),
        }
    }

    open spec fn extension(
        &self,
        video: VideoView,
        url: Seq<char>,
        port: u16,
        onlyaudio: bool,
        reply: Option<ReplyView>,
    ) -> (StepView<Seq<char>>, VideoView) {
        match self {
            Site::Generic(h) => h.extension(video, url, port, onlyaudio, reply),
            Site::PornDoe(h) => h.extension(video, url, port, onlyaudio, reply),
            Site::Pr0gramm(h) => h.extension(video, url, port, onlyaudio, reply),
            Site::Spankbang(h) => h.extension(video, url, port, onlyaudio, reply),
            Site::Vidoza(h) => h.extension(video, url, port, onlyaudio, reply),
            Site::Vimeo(h) => h.extension(video, url, port, onlyaudio, reply),
            Site::Vivo(h) => h.extension(video, url, port, onlyaudio, reply),
            Site::Voe(h) => h.extension(video, url, port, onlyaudio, reply),
            Site::WatchMDH(h) => h.extension(video, url, port, onlyaudio, reply),
            Site::XHamster(h) => h.extension(video, url, port, onlyaudio, reply),
            Site::YouTube(h) => h.extension(video, url, port, onlyaudio, reply),
            Site::KTPlayer(h) => h.extension(video, url, port, onlyaudio, reply),
        }
    }

    fn find_video_file_extension(
        &self,
        video: &mut VIDEO,
        url: &str,
        webdriver_port: u16,
        onlyaudio: bool,
        reply: Option<Reply>,
    ) -> (r: Step<String>) {
        match self {
            Site::Generic(h) => h.find_video_file_extension(video, url, webdriver_port, onlyaudio, reply),
            Site::PornDoe(h) => h.find_video_file_extension(video, url, webdriver_port, onlyaudio, reply),
            Site::Pr0gramm(h) => h.find_video_file_extension(video, url, webdriver_port, onlyaudio, reply),
            Site::Spankbang(h) => h.find_video_file_extension(video, url, webdriver_port, onlyaudio, reply),
            Site::Vidoza(h) => h.find_video_file_extension(video, url, webdriver_port, onlyaudio, reply),
            Site::Vimeo(h) => h.find_video_file_extension(video, url, webdriver_port, onlyaudio, reply),
            Site::Vivo(h) => h.find_video_file_extension(video, url, webdriver_port, onlyaudio, reply),
            Site::Voe(h) => h.find_video_file_extension(video, url, webdriver_port, onlyaudio, reply),
            Site::WatchMDH(h) => h.find_video_file_extension(video, url, webdriver_port, onlyaudio, reply),
            Site::XHamster(h) => h.find_video_file_extension(video, url, webdriver_port, onlyaudio, reply),
            Site::YouTube(h) => h.find_video_file_extension(video, url, webdriver_port, onlyaudio, reply),
            Site::KTPlayer(h) => h.find_video_file_extension(video, url, webdriver_port, onlyaudio, reply),
        }
    }

    open spec fn name(&self) -> Seq<char> {
        match self {
            Site::Generic(h) => h.name(),
            Site::PornDoe(h) => h.name(),
            Site::Pr0gramm(h) => h.name(),
            Site::Spankbang(h) => h.name(),
            Site::Vidoza(h) => h.name(),
            Site::Vimeo(h) => h.name(),
            Site::Vivo(h) => h.name(),
            Site::Voe(h) => h.name(),
            Site::WatchMDH(h) => h.name(),
            Site::XHamster(h) => h.name(),
            Site::YouTube(h) => h.name(),
            Site::KTPlayer(h) => h.name(),
        }
    }

    fn display_name(&self) -> (r: String) {
        match self {
            Site::Generic(h) => h.display_name(),
            Site::PornDoe(h) => h.display_name(),
            Site::Pr0gramm(h) => h.display_name(),
            Site::Spankbang(h) => h.display_name(),
            Site::Vidoza(h) => h.display_name(),
            Site::Vimeo(h) => h.display_name(),
            Site::Vivo(h) => h.display_name(),
            Site::Voe(h) => h.display_name(),
            Site::WatchMDH(h) => h.display_name(),
            Site::XHamster(h) => h.display_name(),
            Site::YouTube(h) => h.display_name(),
            Site::KTPlayer(h) => h.display_name(),
        }
    }

    open spec fn needs_web_driver(&self) -> bool {
        match self {
            Site::Generic(h) => h.needs_web_driver(),
            Site::PornDoe(h) => h.needs_web_driver(),
            Site::Pr0gramm(h) => h.needs_web_driver(),
            Site::Spankbang(h) => h.needs_web_driver(),
            Site::Vidoza(h) => h.needs_web_driver(),
            Site::Vimeo(h) => h.needs_web_driver(),
            Site::Vivo(h) => h.needs_web_driver(),
            Site::Voe(h) => h.needs_web_driver(),
            Site::WatchMDH(h) => h.needs_web_driver(),
            Site::XHamster(h) => h.needs_web_driver(),
            Site::YouTube(h) => h.needs_web_driver(),
            Site::KTPlayer(h) => h.needs_web_driver(),
        }
    }

    fn web_driver_required(&self) -> (r: bool) {
        match self {
            Site::Generic(h) => h.web_driver_required(),
            Site::PornDoe(h) => h.web_driver_required(),
            Site::Pr0gramm(h) => h.web_driver_required(),
            Site::Spankbang(h) => h.web_driver_required(),
            Site::Vidoza(h) => h.web_driver_required(),
            Site::Vimeo(h) => h.web_driver_required(),
            Site::Vivo(h) => h.web_driver_required(),
            Site::Voe(h) => h.web_driver_required(),
            Site::WatchMDH(h) => h.web_driver_required(),
            Site::XHamster(h) => h.web_driver_required(),
            Site::YouTube(h) => h.web_driver_required(),
            Site::KTPlayer(h) => h.web_driver_required(),
        }
    }
}

/// The registered rules, in registration order. The order decides: the
/// first rule that accepts a URL gets it. The fallback for sites built
/// on the KT player goes last.
pub open spec fn registry(instance: String) -> Seq<Site> {
    seq![
        Site::Generic(generic_videofile::GenericFileHandler),
        Site::PornDoe(porndoe::PornDoeHandler),
        Site::Pr0gramm(pr0gramm::Pr0grammHandler),
        Site::Spankbang(spankbang::SpankbangHandler),
        Site::Vidoza(vidoza::VidozaHandler),
        Site::Vimeo(vimeo::VimeoHandler),
        Site::Vivo(vivo::VivoHandler),
        Site::Voe(voe::VoeHandler),
        Site::WatchMDH(watchmdh::WatchMDHHandler),
        Site::XHamster(xhamster::XHamsterHandler),
        Site::YouTube(youtube::YouTubeHandler { instance }),
        Site::KTPlayer(zz_ktplayer::ZZKTPlayerHandler),
    ]
}

/// The registered rules, in registration order. `instance` is the
/// Invidious instance that YouTube is read through.
pub fn registered(instance: String) -> (r: Vec<Site>)
    ensures
        r@ == registry(instance),
{
    let mut rules: Vec<Site> = Vec::new();
    rules.push(Site::Generic(generic_videofile::GenericFileHandler));
    rules.push(Site::PornDoe(porndoe::PornDoeHandler));
    rules.push(Site::Pr0gramm(pr0gramm::Pr0grammHandler));
    rules.push(Site::Spankbang(spankbang::SpankbangHandler));
    rules.push(Site::Vidoza(vidoza::VidozaHandler));
    rules.push(Site::Vimeo(vimeo::VimeoHandler));
    rules.push(Site::Vivo(vivo::VivoHandler));
    rules.push(Site::Voe(voe::VoeHandler));
    rules.push(Site::WatchMDH(watchmdh::WatchMDHHandler));
    rules.push(Site::XHamster(xhamster::XHamsterHandler));
    rules.push(Site::YouTube(youtube::YouTubeHandler { instance }));
    rules.push(Site::KTPlayer(zz_ktplayer::ZZKTPlayerHandler));
    assert(rules@ =~= registry(instance));
    rules
}

/// Fetch-once, rule by rule: with a document in the context, no step
/// of any registered rule asks for the document again, and none changes
/// it. The video then exists, and title and extension are read from
/// what is there. Two steps fetch something else than the document:
/// the direct file is asked for itself to see whether it exists, and
/// xHamster's direct URL stands in a playlist that is fetched.
pub proof fn lemma_document_is_kept(
    site: Site,
    video: VideoView,
    url: Seq<char>,
    port: u16,
    onlyaudio: bool,
    reply: Option<ReplyView>,
)
    requires
        video.info.len() > 0,
    ensures
        !(site is Generic) ==> site.existence(video, url, port, reply) == (StepView::Done(true), video),
        site.existence(video, url, port, reply).1 == video,
        !(site.title(video, url, port, reply).0 is Fetch),
        site.title(video, url, port, reply).1 == video,
        !(site is XHamster) ==> !(site.direct_url(video, url, port, onlyaudio, reply).0 is Fetch),
        site.direct_url(video, url, port, onlyaudio, reply).1.info == video.info,
        !(site.extension(video, url, port, onlyaudio, reply).0 is Fetch),
        site.extension(video, url, port, onlyaudio, reply).1 == video,
{
}

} // verus!
