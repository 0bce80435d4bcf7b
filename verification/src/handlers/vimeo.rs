//! Vimeo. The streams are listed in a configuration document that the
//! page points to.

use vstd::prelude::*;
use crate::context::{VideoView, VIDEO};
use crate::definitions::SiteDefinition;
use crate::handlers::{existence, existence_after, matches_pattern, pattern_matches, settle};
use crate::outside::{capture_group, capture_named, json_array_numbers, json_array_strings, json_numbers, json_strings, normalize_url, opt_texts, regex_group, regex_named_group, texts, url_normalized};
use crate::protocol::{http_get, opt_reply, Failure, Reply, ReplyView, Request, Step, StepView};
use crate::text::{from_chars, replace_chars, replaced, to_chars};

verus! {

/// Where the page `body` says the player's configuration is, with the
/// backslashes taken out. A page that does not say is malformed.
pub open spec fn config_url_in(body: Seq<char>) -> Result<Seq<char>, Failure> {
    match regex_named_group(
        "window.vimeo.clip_page_config.player = .\"config_url\":\"(?P<URL>.+?)\""@,
        body,
        "URL"@,
    ) {
        Some(Some(found)) => Ok(replaced(found, seq!['\\'], Seq::<char>::empty())),
        _ => Err(Failure::MissingNode),
    }
}

/// The title that the page `body` declares. A page that declares none is
/// malformed.
pub open spec fn page_title_in(body: Seq<char>) -> Result<Seq<char>, Failure> {
    match regex_named_group("<meta property=\"og:title\" content=\"(?P<TITLE>.+?)\""@, body, "TITLE"@) {
        Some(Some(found)) => Ok(found),
        _ => Err(Failure::MissingNode),
    }
}

fn config_url(body: &str) -> (r: Result<String, Failure>)
    ensures
        crate::handlers::result_text(r) == config_url_in(body@),
{
    match capture_named("window.vimeo.clip_page_config.player = .\"config_url\":\"(?P<URL>.+?)\"", body, "URL") {
        Some(Some(raw)) => {
            let mut backslash: Vec<char> = Vec::new();
            backslash.push('\\');
            assert(backslash@ =~= seq!['\\']);
            let nothing: Vec<char> = Vec::new();
            Ok(from_chars(&replace_chars(&to_chars(raw.as_str()), &backslash, &nothing)))
        },
        _ => Err(Failure::MissingNode),
    }
}

fn page_title(body: &str) -> (r: Result<String, Failure>)
    ensures
        crate::handlers::result_text(r) == page_title_in(body@),
{
    match capture_named("<meta property=\"og:title\" content=\"(?P<TITLE>.+?)\"", body, "TITLE") {
        Some(Some(t)) => Ok(t),
        _ => Err(Failure::MissingNode),
    }
}

/// How the configuration document gets into the context. The page at
/// `url` is fetched first; it gives the title, which is kept, and says
/// where the configuration is; that is fetched next and becomes the
/// document.
pub open spec fn info_step(video: VideoView, url: Seq<char>, reply: Option<ReplyView>) -> (
    StepView<()>,
    VideoView,
) {
    if video.info.len() > 0 {
        (StepView::Done(()), video)
    } else if url_normalized(url) is None {
        (StepView::Failed(Failure::BadUrl), video)
    } else {
        match reply {
            None => (StepView::Fetch(http_get(url, 0)), video),
            Some(answer) => match answer.body {
                None => (StepView::Failed(Failure::Transport), video),
                Some(body) => if answer.stage == 0 {
                    match config_url_in(body) {
                        Err(f) => (StepView::Failed(f), video),
                        Ok(config) => match page_title_in(body) {
                            Err(f) => (StepView::Failed(f), video),
                            Ok(title) => (
                                StepView::Fetch(http_get(config, 1)),
                                VideoView { title, ..video },
                            ),
                        },
                    }
                } else if answer.stage == 1 {
                    (StepView::Done(()), VideoView { info: body, ..video })
                } else {
                    (StepView::Failed(Failure::UnexpectedReply), video)
                },
            },
        }
    }
}

fn get_video_info(video: &mut VIDEO, url: &str, reply: Option<Reply>) -> (r: Step<()>)
    ensures
        (r@, final(video)@) == info_step(old(video)@, url@, opt_reply(reply)),
{
    if video.has_document() {
        return Step::Done(());
    }
    if normalize_url(url).is_none() {
        return Step::Failed(Failure::BadUrl);
    }
    match reply {
        None => Step::Fetch(Request::get(url, 0)),
        Some(answer) => match answer.body {
            None => Step::Failed(Failure::Transport),
            Some(body) => {
                if answer.stage == 0 {
                    let config = match config_url(body.as_str()) {
                        Ok(c) => c,
                        Err(f) => {
                            return Step::Failed(f);
                        },
                    };
                    match page_title(body.as_str()) {
                        Ok(title) => {
                            video.title = title;
                            Step::Fetch(Request::get(config.as_str(), 1))
                        },
                        Err(f) => Step::Failed(f),
                    }
                } else if answer.stage == 1 {
                    video.info = body;
                    Step::Done(())
                } else {
                    Step::Failed(Failure::UnexpectedReply)
                }
            },
        }
    }
}

/// The width of a stream; zero where it declares none.
pub open spec fn width_of(w: Option<u64>) -> u64 {
    match w {
        Some(n) => n,
        None => 0,
    }
}

/// The widest of the first `n` streams, each given by its width and its
/// URL: the width and the URL of the first stream that is wider than
/// all before it and wider than zero. A stream that is taken must have a
/// URL. Before any is taken the width is zero and the URL empty.
pub open spec fn widest(widths: Seq<Option<u64>>, urls: Seq<Option<Seq<char>>>, n: nat) -> Result<
    (u64, Seq<char>),
    Failure,
>
    recommends
        n <= widths.len() == urls.len(),
    decreases n,
{
    if n == 0 {
        Ok((0u64, Seq::<char>::empty()))
    } else {
        match widest(widths, urls, (n - 1) as nat) {
            Err(f) => Err(f),
            Ok(best) => if width_of(widths[n - 1]) > best.0 {
                match urls[n - 1] {
                    Some(u) => Ok((width_of(widths[n - 1]), u)),
                    None => Err(Failure::MissingNode),
                }
            } else {
                Ok(best)
            },
        }
    }
}

/// The URL of the widest stream among those given by `widths` and
/// `urls`, position by position. Where none of them is wider than zero,
/// and so where there are none, no stream is found.
pub open spec fn widest_url(widths: Seq<Option<u64>>, urls: Seq<Option<Seq<char>>>) -> Result<
    Seq<char>,
    Failure,
> {
    if widths.len() != urls.len() {
        Err(Failure::MissingNode)
    } else {
        match widest(widths, urls, widths.len()) {
            Ok(best) => if best.0 == 0 {
                Err(Failure::NoStream)
            } else {
                Ok(best.1)
            },
            Err(f) => Err(f),
        }
    }
}

/// Picks the stream of the best quality: as the size grows with the
/// quality, the widest one. Of two equally wide streams the earlier one
/// stays.
pub fn pick_widest(widths: &Vec<Option<u64>>, urls: &Vec<Option<String>>) -> (r: Result<String, Failure>)
    ensures
        crate::handlers::result_text(r) == widest_url(widths@, opt_texts(urls@)),
{
    if widths.len() != urls.len() {
        return Err(Failure::MissingNode);
    }
    let ghost us = opt_texts(urls@);
    let mut url = String::new();
    let mut width: u64 = 0;
    let mut i: usize = 0;
    while i < widths.len()
        invariant
            i <= widths.len(),
            widths.len() == urls.len(),
            us == opt_texts(urls@),
            widest(widths@, us, i as nat) == Ok::<(u64, Seq<char>), Failure>((width, url@)),
        decreases widths.len() - i,
    {
        let this_width: u64 = match widths[i] {
            Some(n) => n,
            None => 0,
        };
        if this_width > width {
            match &urls[i] {
                Some(u) => {
                    assert(us[i as int] == Some(u@));
                    width = this_width;
                    url = u.clone();
                },
                None => {
                    assert(us[i as int] is None);
                    assert(widest(widths@, us, (i + 1) as nat) is Err);
                    proof {
                        lemma_widest_fails(widths@, us, (i + 1) as nat, widths.len() as nat);
                    }
                    return Err(Failure::MissingNode);
                },
            }
        }
        i += 1;
    }
    if width == 0 {
        Err(Failure::NoStream)
    } else {
        Ok(url)
    }
}

proof fn lemma_widest_fails(widths: Seq<Option<u64>>, urls: Seq<Option<Seq<char>>>, n: nat, m: nat)
    requires
        n <= m,
        widest(widths, urls, n) == Err::<(u64, Seq<char>), Failure>(Failure::MissingNode),
    ensures
        widest(widths, urls, m) == Err::<(u64, Seq<char>), Failure>(Failure::MissingNode),
    decreases m - n,
{
    if n < m {
        assert(widest(widths, urls, n + 1) == Err::<(u64, Seq<char>), Failure>(Failure::MissingNode));
        lemma_widest_fails(widths, urls, n + 1, m);
    }
}

/// The stream that is picked is as wide as any candidate, and it is the
/// first of that width: every earlier candidate is narrower. No
/// candidate that comes later replaces it unless it is strictly wider.
pub proof fn lemma_widest_is_best(widths: Seq<Option<u64>>, urls: Seq<Option<Seq<char>>>, n: nat)
    requires
        n <= widths.len(),
        widths.len() == urls.len(),
        widest(widths, urls, n) is Ok,
    ensures
        forall|i: int| 0 <= i < n ==> width_of(#[trigger] widths[i]) <= widest(widths, urls, n)->Ok_0.0,
        widest(widths, urls, n)->Ok_0.0 > 0 ==> exists|k: int|
            {
                &&& 0 <= k < n
                &&& width_of(#[trigger] widths[k]) == widest(widths, urls, n)->Ok_0.0
                &&& urls[k] == Some(widest(widths, urls, n)->Ok_0.1)
                &&& forall|j: int| 0 <= j < k ==> width_of(#[trigger] widths[j]) < width_of(widths[k])
            },
    decreases n,
{
    if n > 0 {
        let before = widest(widths, urls, (n - 1) as nat);
        assert(before is Ok);
        lemma_widest_is_best(widths, urls, (n - 1) as nat);
        let best = before->Ok_0;
        if width_of(widths[n - 1]) > best.0 {
            let k = (n - 1) as int;
            assert(width_of(widths[k]) == widest(widths, urls, n)->Ok_0.0);
            assert(forall|j: int| 0 <= j < k ==> width_of(#[trigger] widths[j]) < width_of(widths[k]));
        } else if best.0 > 0 {
            let k = choose|k: int|
                {
                    &&& 0 <= k < n - 1
                    &&& width_of(#[trigger] widths[k]) == best.0
                    &&& urls[k] == Some(best.1)
                    &&& forall|j: int| 0 <= j < k ==> width_of(#[trigger] widths[j]) < width_of(widths[k])
                };
            assert(width_of(widths[k]) == widest(widths, urls, n)->Ok_0.0);
        }
    }
}

/// Where the progressive streams stand in the configuration document.
pub open spec fn streams_path() -> Seq<Seq<char>> {
    seq!["request"@, "files"@, "progressive"@]
}

/// The media URL that the configuration document `doc` gives: that of
/// its widest progressive stream. A document that is not JSON, or that
/// holds no list of progressive streams, is malformed.
pub open spec fn media_url_in(doc: Seq<char>) -> Result<Seq<char>, Failure> {
    match (json_numbers(doc, streams_path(), "width"@), json_strings(doc, streams_path(), "url"@)) {
        (Some(Some(widths)), Some(Some(urls))) => widest_url(widths, urls),
        _ => Err(Failure::MissingNode),
    }
}

fn media_url(doc: &str) -> (r: Result<String, Failure>)
    ensures
        crate::handlers::result_text(r) == media_url_in(doc@),
{
    let mut path: Vec<String> = Vec::new();
    path.push("request".to_owned());
    path.push("files".to_owned());
    path.push("progressive".to_owned());
    assert(texts(path@) =~= streams_path());
    let widths = match json_array_numbers(doc, &path, "width") {
        Some(w) => w,
        None => {
            return Err(Failure::MissingNode);
        },
    };
    let urls = match json_array_strings(doc, &path, "url") {
        Some(u) => u,
        None => {
            return Err(Failure::MissingNode);
        },
    };
    match (widths, urls) {
        (Some(w), Some(u)) => pick_widest(&w, &u),
        _ => Err(Failure::MissingNode),
    }
}

/// The part of `url` that names the video: what follows `vimeo.com/`.
pub open spec fn video_id(url: Seq<char>) -> Result<Seq<char>, Failure> {
    match regex_group("(?:vimeo.com/)(.*$)"@, url, 1) {
        Some(Some(id)) => Ok(id),
        _ => Err(Failure::BadUrl),
    }
}

/// The site definition.
pub struct VimeoHandler;

impl SiteDefinition for VimeoHandler {
    open spec fn handles(&self, url: Seq<char>, port: u16, reply: Option<ReplyView>) -> StepView<bool> {
        StepView::Done(pattern_matches("(?:www\\.)?vimeo.com/.+"@, url))
    }

    fn can_handle_url(&self, url: &str, webdriver_port: u16, reply: Option<Reply>) -> (r: Step<bool>) {
        Step::Done(matches_pattern("(?:www\\.)?vimeo.com/.+", url))
    }

    open spec fn existence(&self, video: VideoView, url: Seq<char>, port: u16, reply: Option<ReplyView>) -> (
        StepView<bool>,
        VideoView,
    ) {
        existence_after(info_step(video, url, reply), false)
    }

    fn does_video_exist(&self, video: &mut VIDEO, url: &str, webdriver_port: u16, reply: Option<Reply>) -> (r:
        Step<bool>) {
        let d = get_video_info(video, url, reply);
        existence(d, video, false)
    }

    open spec fn segmented(&self, url: Seq<char>, port: u16) -> bool {
        false
    }

    fn is_playlist(&self, url: &str, webdriver_port: u16) -> (r: bool) {
        false
    }

    open spec fn title(&self, video: VideoView, url: Seq<char>, port: u16, reply: Option<ReplyView>) -> (
        StepView<Seq<char>>,
        VideoView,
    ) {
        (StepView::Done(video.title), video)
    }

    fn find_video_title(&self, video: &mut VIDEO, url: &str, webdriver_port: u16, reply: Option<Reply>) -> (r:
        Step<String>) {
        Step::Done(video.title.clone())
    }

    open spec fn direct_url(
        &self,
        video: VideoView,
        url: Seq<char>,
        port: u16,
        onlyaudio: bool,
        reply: Option<ReplyView>,
    ) -> (StepView<Seq<char>>, VideoView) {
        match video_id(url) {
            Err(f) => (StepView::Failed(f), video),
            Ok(id) => {
                let turn = info_step(video, id, reply);
                (crate::handlers::read_after(turn.0, media_url_in(turn.1.info)), turn.1)
            },
        }
    }

    fn find_video_direct_url(
        &self,
        video: &mut VIDEO,
        url: &str,
        webdriver_port: u16,
        onlyaudio: bool,
        reply: Option<Reply>,
    ) -> (r: Step<String>) {
        let id = match capture_group("(?:vimeo.com/)(.*$)", url, 1) {
            Some(Some(id)) => id,
            _ => {
                return Step::Failed(Failure::BadUrl);
            },
        };
        match get_video_info(video, id.as_str(), reply) {
            Step::Done(_) => settle(media_url(video.info.as_str())),
            Step::Fetch(q) => Step::Fetch(q),
            Step::Failed(f) => Step::Failed(f),
        }
    }

    open spec fn extension(
        &self,
        video: VideoView,
        url: Seq<char>,
        port: u16,
        onlyaudio: bool,
        reply: Option<ReplyView>,
    ) -> (StepView<Seq<char>>, VideoView) {
        (StepView::Done("mp4"@), video)
    }

    fn find_video_file_extension(
        &self,
        video: &mut VIDEO,
        url: &str,
        webdriver_port: u16,
        onlyaudio: bool,
        reply: Option<Reply>,
    ) -> (r: Step<String>) {
        Step::Done("mp4".to_owned())
    }

    open spec fn name(&self) -> Seq<char> {
        "Vimeo"@
    }

    fn display_name(&self) -> (r: String) {
        "Vimeo".to_owned()
    }

    open spec fn needs_web_driver(&self) -> bool {
        false
    }

    fn web_driver_required(&self) -> (r: bool) {
        false
    }
}

} // verus!
