//! YouTube, read through an Invidious instance.

use vstd::prelude::*;
use crate::context::{VideoView, VIDEO};
use crate::definitions::SiteDefinition;
use crate::handlers::{existence, existence_after, fetch_page, first_attr, first_attr_of, matches_pattern, page_step, pattern_matches, read_after, settle};
use crate::outside::{capture_group, html_attr_values, opt_texts, regex_group, select_attr};
use crate::protocol::{opt_reply, opt_text, Failure, Reply, ReplyView, Step, StepView};
use crate::text::{contains, contains_text, from_chars, pieces, split, split_on, to_chars};

verus! {

/// The instance that is used where none is configured.
pub const INVIDIOUS_INSTANCE: &'static str = "https://invidious.privacyredirect.com";

/// The instance to use: the configured one, or the default.
pub fn get_invidious_instance(configured: Option<String>) -> (r: String)
    ensures
        r@ == match configured {
            Some(s) => s@,
            None => INVIDIOUS_INSTANCE@,
        },
{
    match configured {
        Some(s) => s,
        None => INVIDIOUS_INSTANCE.to_owned(),
    }
}

/// The watch page on `instance` for the video that `url` names.
pub open spec fn watch_url(instance: Seq<char>, url: Seq<char>) -> Result<Seq<char>, Failure> {
    match regex_group("(?:v=|\\.be/|shorts/)(.*?)(&.*)*$"@, url, 1) {
        Some(Some(id)) => Ok(instance + "/watch?v="@ + id),
        _ => Err(Failure::BadUrl),
    }
}

/// How the watch page for `url` gets into the context.
pub open spec fn info_step(instance: Seq<char>, video: VideoView, url: Seq<char>, reply: Option<ReplyView>) -> (
    StepView<()>,
    VideoView,
) {
    if video.info.len() > 0 {
        (StepView::Done(()), video)
    } else {
        match watch_url(instance, url) {
            Ok(page) => page_step(video, page, reply),
            Err(f) => (StepView::Failed(f), video),
        }
    }
}

fn get_video_info(instance: &str, video: &mut VIDEO, url: &str, reply: Option<Reply>) -> (r: Step<()>)
    ensures
        (r@, final(video)@) == info_step(instance@, old(video)@, url@, opt_reply(reply)),
{
    if video.has_document() {
        return Step::Done(());
    }
    match capture_group("(?:v=|\\.be/|shorts/)(.*?)(&.*)*$", url, 1) {
        Some(Some(id)) => {
            let mut page = instance.to_owned();
            page.push_str("/watch?v=");
            page.push_str(id.as_str());
            fetch_page(video, page.as_str(), reply)
        },
        _ => Step::Failed(Failure::BadUrl),
    }
}

/// Whether `c` is a decimal digit.
pub open spec fn is_digit(c: char) -> bool {
    '0' <= c && c <= '9'
}

/// The number `number` with the digit `c` written behind it; the largest
/// number that fits where that one does not.
pub open spec fn with_digit(number: u64, c: char) -> u64 {
    if number * 10 + ((c as u8) - 48) > u64::MAX {
        u64::MAX
    } else {
        (number * 10 + ((c as u8) - 48)) as u64
    }
}

/// The number that the digits at the start of `s` write behind those of
/// `number`.
pub open spec fn leading_number(s: Seq<char>, number: u64) -> u64
    decreases s.len(),
{
    if s.len() > 0 && is_digit(s[0]) {
        leading_number(s.drop_first(), with_digit(number, s[0]))
    } else {
        number
    }
}

/// The quality that a label stands for: the number written by its first
/// run of digits, as in `hd720` or `1080p`; zero where it has none.
pub open spec fn quality_of(label: Seq<char>) -> u64
    decreases label.len(),
{
    if label.len() == 0 {
        0
    } else if is_digit(label[0]) {
        leading_number(label, 0)
    } else {
        quality_of(label.drop_first())
    }
}

/// The quality that `label` stands for.
pub fn label_quality(label: &str) -> (r: u64)
    ensures
        r == quality_of(label@),
{
    let chars = to_chars(label);
    let mut i: usize = 0;
    assert(chars@.skip(0) =~= chars@);
    while i < chars.len() && !(chars[i] >= '0' && chars[i] <= '9')
        invariant
            i <= chars.len(),
            chars@ == label@,
            quality_of(label@) == quality_of(chars@.skip(i as int)),
        decreases chars.len() - i,
    {
        proof {
            assert(chars@.skip(i as int).drop_first() == chars@.skip(i + 1));
        }
        i += 1;
    }
    let mut number: u64 = 0;
    while i < chars.len() && chars[i] >= '0' && chars[i] <= '9'
        invariant
            i <= chars.len(),
            chars@ == label@,
            quality_of(label@) == leading_number(chars@.skip(i as int), number),
        decreases chars.len() - i,
    {
        proof {
            assert(chars@.skip(i as int).drop_first() == chars@.skip(i + 1));
        }
        let digit: u64 = ((chars[i] as u8) - 48) as u64;
        number = if number > (u64::MAX - digit) / 10 {
            u64::MAX
        } else {
            number * 10 + digit
        };
        i += 1;
    }
    number
}

/// A candidate stream, as it is chosen.
pub struct Choice {
    /// The quality that its label stands for.
    pub quality: u64,
    /// Its MIME type: its type up to the first `;`.
    pub mime: Seq<char>,
    /// Its URL on the instance.
    pub url: Seq<char>,
}

/// The text of an optional value, empty where there is none.
pub open spec fn or_empty(s: Option<Seq<char>>) -> Seq<char> {
    match s {
        Some(t) => t,
        None => Seq::<char>::empty(),
    }
}

/// The best of the first `n` candidates, each given by its quality
/// label, its type and its source, which stands relative to `instance`;
/// none before the first. The first candidate is taken, and a later one
/// takes its place only where its quality is strictly higher. A
/// candidate that is taken must have a type and a source.
pub open spec fn best(
    instance: Seq<char>,
    labels: Seq<Option<Seq<char>>>,
    types: Seq<Option<Seq<char>>>,
    sources: Seq<Option<Seq<char>>>,
    n: nat,
) -> Result<Option<Choice>, Failure>
    recommends
        n <= labels.len() == types.len() == sources.len(),
    decreases n,
{
    if n == 0 {
        Ok(None)
    } else {
        match best(instance, labels, types, sources, (n - 1) as nat) {
            Err(f) => Err(f),
            Ok(so_far) => {
                let quality = quality_of(or_empty(labels[n - 1]));
                if so_far is None || quality > so_far->Some_0.quality {
                    match (types[n - 1], sources[n - 1]) {
                        (Some(t), Some(s)) => Ok(
                            Some(Choice { quality, mime: split(t, ';')[0], url: instance + s }),
                        ),
                        _ => Err(Failure::MissingNode),
                    }
                } else {
                    Ok(so_far)
                }
            },
        }
    }
}

/// The stream that the watch page `doc` offers: the URL on `instance`
/// and the MIME type of its best candidate. A page without a candidate
/// offers none, and neither does one whose best candidate has no URL.
pub open spec fn stream_in(instance: Seq<char>, doc: Seq<char>) -> Result<(Seq<char>, Seq<char>), Failure> {
    match (
        html_attr_values(doc, "source"@, "label"@),
        html_attr_values(doc, "source"@, "type"@),
        html_attr_values(doc, "source"@, "src"@),
    ) {
        (Some(labels), Some(types), Some(sources)) => if labels.len() != types.len() || labels.len()
            != sources.len() {
            Err(Failure::MissingNode)
        } else {
            match best(instance, labels, types, sources, labels.len()) {
                Err(f) => Err(f),
                Ok(None) => Err(Failure::NoStream),
                Ok(Some(chosen)) => if chosen.url.len() == 0 {
                    Err(Failure::NoStream)
                } else {
                    Ok((chosen.url, chosen.mime))
                },
            }
        },
        _ => Err(Failure::MissingNode),
    }
}

fn text_or_empty(s: &Option<String>) -> (r: String)
    ensures
        r@ == or_empty(opt_text(*s)),
{
    match s {
        Some(t) => t.clone(),
        None => String::new(),
    }
}

fn find_stream(instance: &str, doc: &str) -> (r: Result<(String, String), Failure>)
    ensures
        match stream_in(instance@, doc@) {
            Ok(found) => r is Ok && r->Ok_0.0@ == found.0 && r->Ok_0.1@ == found.1,
            Err(f) => r is Err && r->Err_0 == f,
        },
{
    let labels = match select_attr(doc, "source", "label") {
        Some(v) => v,
        None => {
            return Err(Failure::MissingNode);
        },
    };
    let types = match select_attr(doc, "source", "type") {
        Some(v) => v,
        None => {
            return Err(Failure::MissingNode);
        },
    };
    let sources = match select_attr(doc, "source", "src") {
        Some(v) => v,
        None => {
            return Err(Failure::MissingNode);
        },
    };
    if labels.len() != types.len() || labels.len() != sources.len() {
        return Err(Failure::MissingNode);
    }
    let ghost ls = opt_texts(labels@);
    let ghost ts = opt_texts(types@);
    let ghost ss = opt_texts(sources@);
    let mut taken = false;
    let mut quality: u64 = 0;
    let mut mime = String::new();
    let mut chosen = String::new();
    let mut i: usize = 0;
    while i < labels.len()
        invariant
            i <= labels.len(),
            labels.len() == types.len(),
            labels.len() == sources.len(),
            ls == opt_texts(labels@),
            ts == opt_texts(types@),
            ss == opt_texts(sources@),
            html_attr_values(doc@, "source"@, "label"@) == Some(ls),
            html_attr_values(doc@, "source"@, "type"@) == Some(ts),
            html_attr_values(doc@, "source"@, "src"@) == Some(ss),
            best(instance@, ls, ts, ss, i as nat) == Ok::<Option<Choice>, Failure>(
                if taken {
                    Some(Choice { quality, mime: mime@, url: chosen@ })
                } else {
                    None
                },
            ),
        decreases labels.len() - i,
    {
        let label = text_or_empty(&labels[i]);
        assert(label@ == or_empty(ls[i as int]));
        let this_quality = label_quality(label.as_str());
        if !taken || this_quality > quality {
            match (&types[i], &sources[i]) {
                (Some(t), Some(s)) => {
                    assert(ts[i as int] == Some(t@));
                    assert(ss[i as int] == Some(s@));
                    let chars = to_chars(t.as_str());
                    let parts = split_on(&chars, ';');
                    assert(pieces(parts@)[0] == parts@[0]@);
                    mime = from_chars(&parts[0]);
                    chosen = instance.to_owned();
                    chosen.push_str(s.as_str());
                    quality = this_quality;
                    taken = true;
                },
                _ => {
                    assert(ts[i as int] is None || ss[i as int] is None);
                    assert(best(instance@, ls, ts, ss, (i + 1) as nat) is Err);
                    proof {
                        lemma_best_fails(instance@, ls, ts, ss, (i + 1) as nat, labels.len() as nat);
                    }
                    return Err(Failure::MissingNode);
                },
            }
        }
        i += 1;
    }
    if !taken || chosen.as_str().is_empty() {
        Err(Failure::NoStream)
    } else {
        Ok((chosen, mime))
    }
}

proof fn lemma_best_fails(
    instance: Seq<char>,
    labels: Seq<Option<Seq<char>>>,
    types: Seq<Option<Seq<char>>>,
    sources: Seq<Option<Seq<char>>>,
    n: nat,
    m: nat,
)
    requires
        n <= m,
        best(instance, labels, types, sources, n) == Err::<Option<Choice>, Failure>(Failure::MissingNode),
    ensures
        best(instance, labels, types, sources, m) == Err::<Option<Choice>, Failure>(Failure::MissingNode),
    decreases m - n,
{
    if n < m {
        assert(best(instance, labels, types, sources, n + 1) == Err::<Option<Choice>, Failure>(
            Failure::MissingNode,
        ));
        lemma_best_fails(instance, labels, types, sources, n + 1, m);
    }
}

/// The stream that is chosen is of the highest quality among the
/// candidates, and it is the first of that quality: every earlier
/// candidate is of a lower one. Its URL and its MIME type are those of
/// that candidate. Among no candidates none is chosen.
pub proof fn lemma_best_is_highest(
    instance: Seq<char>,
    labels: Seq<Option<Seq<char>>>,
    types: Seq<Option<Seq<char>>>,
    sources: Seq<Option<Seq<char>>>,
    n: nat,
)
    requires
        n <= labels.len(),
        labels.len() == types.len(),
        labels.len() == sources.len(),
        best(instance, labels, types, sources, n) is Ok,
    ensures
        best(instance, labels, types, sources, n)->Ok_0 is None <==> n == 0,
        n > 0 ==> exists|k: int|
            {
                &&& 0 <= k < n
                &&& quality_of(or_empty(#[trigger] labels[k])) == best(
                    instance,
                    labels,
                    types,
                    sources,
                    n,
                )->Ok_0->Some_0.quality
                &&& sources[k] is Some
                &&& types[k] is Some
                &&& best(instance, labels, types, sources, n)->Ok_0->Some_0.url == instance
                    + sources[k]->Some_0
                &&& best(instance, labels, types, sources, n)->Ok_0->Some_0.mime == split(
                    types[k]->Some_0,
                    ';',
                )[0]
                &&& forall|j: int|
                    0 <= j < k ==> quality_of(or_empty(#[trigger] labels[j])) < quality_of(
                        or_empty(labels[k]),
                    )
                &&& forall|j: int|
                    0 <= j < n ==> quality_of(or_empty(#[trigger] labels[j])) <= quality_of(
                        or_empty(labels[k]),
                    )
            },
    decreases n,
{
    if n > 0 {
        let before = best(instance, labels, types, sources, (n - 1) as nat);
        assert(before is Ok);
        lemma_best_is_highest(instance, labels, types, sources, (n - 1) as nat);
        let last = (n - 1) as int;
        let quality = quality_of(or_empty(labels[last]));
        if before->Ok_0 is None {
            assert(n == 1);
            assert(quality_of(or_empty(labels[last])) == quality);
        } else if quality > before->Ok_0->Some_0.quality {
            assert(quality_of(or_empty(labels[last])) == quality);
        } else {
            let so_far = before->Ok_0->Some_0;
            let k = choose|k: int|
                {
                    &&& 0 <= k < n - 1
                    &&& quality_of(or_empty(#[trigger] labels[k])) == so_far.quality
                    &&& sources[k] is Some
                    &&& types[k] is Some
                    &&& so_far.url == instance + sources[k]->Some_0
                    &&& so_far.mime == split(types[k]->Some_0, ';')[0]
                    &&& forall|j: int|
                        0 <= j < k ==> quality_of(or_empty(#[trigger] labels[j])) < quality_of(
                            or_empty(labels[k]),
                        )
                    &&& forall|j: int|
                        0 <= j < n - 1 ==> quality_of(or_empty(#[trigger] labels[j])) <= quality_of(
                            or_empty(labels[k]),
                        )
                };
            assert(quality_of(or_empty(labels[k])) == so_far.quality);
        }
    }
}

/// The file extension that goes with the MIME type `mime`.
pub open spec fn extension_for(mime: Seq<char>) -> Seq<char> {
    if contains_text(mime, "/webm"@) {
        "webm"@
    } else if contains_text(mime, "audio/mp4"@) {
        "m4a"@
    } else {
        "mp4"@
    }
}

/// The site definition.
pub struct YouTubeHandler {
    /// The Invidious instance that pages are read from.
    pub instance: String,
}

impl SiteDefinition for YouTubeHandler {
    open spec fn handles(&self, url: Seq<char>, port: u16, reply: Option<ReplyView>) -> StepView<bool> {
        StepView::Done(pattern_matches("invidious\\.|(?:www\\.)?youtu(?:be\\.com|\\.be)/"@, url))
    }

    fn can_handle_url(&self, url: &str, webdriver_port: u16, reply: Option<Reply>) -> (r: Step<bool>) {
        Step::Done(matches_pattern("invidious\\.|(?:www\\.)?youtu(?:be\\.com|\\.be)/", url))
    }

    open spec fn existence(&self, video: VideoView, url: Seq<char>, port: u16, reply: Option<ReplyView>) -> (
        StepView<bool>,
        VideoView,
    ) {
        existence_after(info_step(self.instance@, video, url, reply), true)
    }

    fn does_video_exist(&self, video: &mut VIDEO, url: &str, webdriver_port: u16, reply: Option<Reply>) -> (r:
        Step<bool>) {
        let d = get_video_info(self.instance.as_str(), video, url, reply);
        existence(d, video, true)
    }

    open spec fn segmented(&self, url: Seq<char>, port: u16) -> bool {
        false
    }

    fn is_playlist(&self, url: &str, webdriver_port: u16) -> (r: bool) {
        false
    }

    open spec fn title(&self, video: VideoView, url: Seq<char>, port: u16, reply: Option<ReplyView>) -> (
        StepView<Seq<char>>,
        VideoView,
    ) {
        let turn = info_step(self.instance@, video, url, reply);
        (read_after(turn.0, first_attr_of(turn.1.info, "meta[property=\"og:title\"]"@, "content"@)), turn.1)
    }

    fn find_video_title(&self, video: &mut VIDEO, url: &str, webdriver_port: u16, reply: Option<Reply>) -> (r:
        Step<String>) {
        match get_video_info(self.instance.as_str(), video, url, reply) {
            Step::Done(_) => settle(first_attr(video.info.as_str(), "meta[property=\"og:title\"]", "content")),
            Step::Fetch(q) => Step::Fetch(q),
            Step::Failed(f) => Step::Failed(f),
        }
    }

    open spec fn direct_url(
        &self,
        video: VideoView,
        url: Seq<char>,
        port: u16,
        onlyaudio: bool,
        reply: Option<ReplyView>,
    ) -> (StepView<Seq<char>>, VideoView) {
        let turn = info_step(self.instance@, video, url, reply);
        match turn.0 {
            StepView::Done(_) => match stream_in(self.instance@, turn.1.info) {
                Ok(found) => (StepView::Done(found.0), VideoView { mime: found.1, ..turn.1 }),
                Err(f) => (StepView::Failed(f), turn.1),
            },
            StepView::Fetch(q) => (StepView::Fetch(q), turn.1),
            StepView::Failed(f) => (StepView::Failed(f), turn.1),
        }
    }

    fn find_video_direct_url(
        &self,
        video: &mut VIDEO,
        url: &str,
        webdriver_port: u16,
        onlyaudio: bool,
        reply: Option<Reply>,
    ) -> (r: Step<String>) {
        match get_video_info(self.instance.as_str(), video, url, reply) {
            Step::Done(_) => match find_stream(self.instance.as_str(), video.info.as_str()) {
                Ok(found) => {
                    video.mime = found.1;
                    Step::Done(found.0)
                },
                Err(f) => Step::Failed(f),
            },
            Step::Fetch(q) => Step::Fetch(q),
            Step::Failed(f) => Step::Failed(f),
        }
    }

    open spec fn extension(
        &self,
        video: VideoView,
        url: Seq<char>,
        port: u16,
        onlyaudio: bool,
        reply: Option<ReplyView>,
    ) -> (StepView<Seq<char>>, VideoView) {
        (StepView::Done(extension_for(video.mime)), video)
    }

    fn find_video_file_extension(
        &self,
        video: &mut VIDEO,
        url: &str,
        webdriver_port: u16,
        onlyaudio: bool,
        reply: Option<Reply>,
    ) -> (r: Step<String>) {
        let mime = to_chars(video.mime.as_str());
        if contains(&mime, &to_chars("/webm")) {
            Step::Done("webm".to_owned())
        } else if contains(&mime, &to_chars("audio/mp4")) {
            Step::Done("m4a".to_owned())
        } else {
            Step::Done("mp4".to_owned())
        }
    }

    open spec fn name(&self) -> Seq<char> {
        "Invidious"@
    }

    fn display_name(&self) -> (r: String) {
        "Invidious".to_owned()
    }

    open spec fn needs_web_driver(&self) -> bool {
        false
    }

    fn web_driver_required(&self) -> (r: bool) {
        false
    }
}

} // verus!
