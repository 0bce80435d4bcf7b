//! The values exchanged between the library and whoever performs its I/O.
//!
//! The library never touches the network. A step that needs remote data
//! answers with a [`Request`]; the caller performs it and calls the same
//! step again with the [`Reply`].

use vstd::prelude::*;

verus! {

/// How a request is carried out.
#[derive(Clone, Copy, Debug, PartialEq, Eq, Structural)]
pub enum Via {
    /// A plain HTTP GET.
    Http,
    /// A plain HTTP GET of which only the success matters: the body is
    /// not read, and the reply to it carries an empty one.
    Probe,
    /// One round trip through the remote browser automation endpoint:
    /// navigate, optionally run a script, read the rendered source.
    Browser,
}

/// One fetch that the caller is asked to perform.
#[derive(Clone, Debug)]
pub struct Request {
    pub via: Via,
    pub url: String,
    /// Value of the `Referer` header, if one is sent.
    pub referer: Option<String>,
    /// First byte asked for with a `Range` header, if one is sent.
    pub range_start: Option<u64>,
    /// Script run in the page before its source is read (browser only).
    pub script: Option<String>,
    /// Port of the automation endpoint (browser only).
    pub port: u16,
    /// Which step of a multi-step exchange this request belongs to.
    pub stage: u8,
}

/// Mathematical content of a [`Request`].
pub struct RequestView {
    pub via: Via,
    pub url: Seq<char>,
    pub referer: Option<Seq<char>>,
    pub range_start: Option<u64>,
    pub script: Option<Seq<char>>,
    pub port: u16,
    pub stage: u8,
}

/// The view of an optional string.
pub open spec fn opt_text(s: Option<String>) -> Option<Seq<char>> {
    match s {
        Some(t) => Some(t@),
        None => None,
    }
}

impl View for Request {
    type V = RequestView;

    open spec fn view(&self) -> RequestView {
        RequestView {
            via: self.via,
            url: self.url@,
            referer: opt_text(self.referer),
            range_start: self.range_start,
            script: opt_text(self.script),
            port: self.port,
            stage: self.stage,
        }
    }
}

/// A plain GET of `url` at `stage`, without headers.
pub open spec fn http_get(url: Seq<char>, stage: u8) -> RequestView {
    RequestView {
        via: Via::Http,
        url,
        referer: None,
        range_start: None,
        script: None,
        port: 0,
        stage,
    }
}

/// A GET of `url` at `stage` of which only the success matters.
pub open spec fn http_probe(url: Seq<char>, stage: u8) -> RequestView {
    RequestView { via: Via::Probe, ..http_get(url, stage) }
}

/// A browser round trip to `url` at `stage` through the endpoint at `port`.
pub open spec fn browse(url: Seq<char>, port: u16, script: Option<Seq<char>>, stage: u8) -> RequestView {
    RequestView { via: Via::Browser, url, referer: None, range_start: None, script, port, stage }
}

impl Request {
    /// A plain GET of `url`.
    pub fn get(url: &str, stage: u8) -> (r: Request)
        ensures
            r@ == http_get(url@, stage),
    {
        Request {
            via: Via::Http,
            url: url.to_owned(),
            referer: None,
            range_start: None,
            script: None,
            port: 0,
            stage,
        }
    }

    /// A GET of `url` of which only the success matters.
    pub fn probe(url: &str, stage: u8) -> (r: Request)
        ensures
            r@ == http_probe(url@, stage),
    {
        Request {
            via: Via::Probe,
            url: url.to_owned(),
            referer: None,
            range_start: None,
            script: None,
            port: 0,
            stage,
        }
    }

    /// A browser round trip to `url`, without a script.
    pub fn browse(url: &str, port: u16, stage: u8) -> (r: Request)
        ensures
            r@ == browse(url@, port, None, stage),
    {
        Request {
            via: Via::Browser,
            url: url.to_owned(),
            referer: None,
            range_start: None,
            script: None,
            port,
            stage,
        }
    }

    /// A browser round trip to `url` that runs `script` before the source
    /// is read.
    pub fn browse_with_script(url: &str, port: u16, script: &str, stage: u8) -> (r: Request)
        ensures
            r@ == browse(url@, port, Some(script@), stage),
    {
        Request {
            via: Via::Browser,
            url: url.to_owned(),
            referer: None,
            range_start: None,
            script: Some(script.to_owned()),
            port,
            stage,
        }
    }
}

/// What came back for a [`Request`].
#[derive(Clone, Debug)]
pub struct Reply {
    /// The `stage` of the request that this answers.
    pub stage: u8,
    /// The body as text; `None` when the transfer failed.
    pub body: Option<String>,
}

/// Mathematical content of a [`Reply`].
pub struct ReplyView {
    pub stage: u8,
    pub body: Option<Seq<char>>,
}

impl View for Reply {
    type V = ReplyView;

    open spec fn view(&self) -> ReplyView {
        ReplyView { stage: self.stage, body: opt_text(self.body) }
    }
}

/// The view of an optional reply.
pub open spec fn opt_reply(r: Option<Reply>) -> Option<ReplyView> {
    match r {
        Some(x) => Some(x@),
        None => None,
    }
}

/// Why a step could not produce its value.
#[derive(Clone, Copy, Debug, PartialEq, Eq, Structural)]
pub enum Failure {
    /// The input URL could not be parsed, or lacks the part a rule needs.
    BadUrl,
    /// A fetch failed, or a fetched playlist could not be parsed.
    Transport,
    /// The fetched document lacks the node or pattern a rule looks for.
    MissingNode,
    /// No usable stream was found among the candidates.
    NoStream,
    /// A reply arrived that answers no request of the step.
    UnexpectedReply,
    /// The requested audio format cannot be a file extension.
    BadFormat,
}

/// Result of one call of a resumable step.
#[derive(Debug)]
pub enum Step<T> {
    /// The step is complete.
    Done(T),
    /// The step needs this fetched first.
    Fetch(Request),
    /// The step failed for good.
    Failed(Failure),
}

/// Mathematical content of a [`Step`].
pub enum StepView<V> {
    Done(V),
    Fetch(RequestView),
    Failed(Failure),
}

impl<T: View> View for Step<T> {
    type V = StepView<T::V>;

    open spec fn view(&self) -> StepView<T::V> {
        match self {
            Step::Done(t) => StepView::Done(t@),
            Step::Fetch(q) => StepView::Fetch(q@),
            Step::Failed(f) => StepView::Failed(*f),
        }
    }
}

} // verus!
