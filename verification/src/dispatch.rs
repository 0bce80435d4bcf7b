//! The dispatcher: which rule gets to resolve a URL, and the fixed order
//! in which its extraction steps are taken.
//!
//! The rules are tried in registration order and the first that accepts
//! the URL is final, whatever happens to it afterwards. A rule that needs
//! a web driver is passed over, with a notice, where no port is
//! configured. The dispatcher performs no I/O: it runs until a step asks
//! for a fetch, and goes on when it is called again with the reply.

use vstd::prelude::*;
use crate::context::{VideoView, VIDEO};
use crate::definitions::SiteDefinition;
use crate::protocol::{opt_reply, Failure, Reply, ReplyView, Request, RequestView, Step, StepView};

verus! {

/// Where a resolution stands.
#[derive(Clone, Copy, Debug, PartialEq, Eq, Structural)]
pub enum Phase {
    /// Looking for a rule that accepts the URL.
    Probing,
    /// Committed to a rule; asking whether the video exists.
    Exists,
    /// Asking for the title.
    Title,
    /// Asking for the direct URL.
    DirectUrl,
    /// Asking for the file extension.
    Extension,
    /// Over.
    Finished,
}

/// Something to tell the user, about the rule at the given position.
#[derive(Clone, Copy, Debug, PartialEq, Eq, Structural)]
pub enum Notice {
    /// The rule accepted the URL and is being used.
    Selected(usize),
    /// The rule accepted the URL but needs a web driver, and no port is
    /// configured: it was passed over.
    NeedsWebDriver(usize),
}

/// The result of extraction: what the retrieval engine needs.
#[derive(Clone, Debug)]
pub struct MediaReference {
    pub direct_url: String,
    pub file_extension: String,
    pub is_segmented: bool,
}

/// Mathematical content of a [`MediaReference`].
pub struct MediaReferenceView {
    pub direct_url: Seq<char>,
    pub file_extension: Seq<char>,
    pub is_segmented: bool,
}

impl View for MediaReference {
    type V = MediaReferenceView;

    open spec fn view(&self) -> MediaReferenceView {
        MediaReferenceView {
            direct_url: self.direct_url@,
            file_extension: self.file_extension@,
            is_segmented: self.is_segmented,
        }
    }
}

/// How a resolution ended.
#[derive(Debug)]
pub enum Outcome {
    /// No rule accepts the URL. A normal end.
    NoHandler,
    /// The rule ran, and the video does not exist. A normal end.
    NotFound,
    /// The title could not be extracted, or is empty.
    TitleFailed,
    /// An extraction step failed.
    Failed(Failure),
    /// The media was found: its reference, and its title.
    Resolved(MediaReference, String),
    /// The resolution had ended before.
    Over,
}

/// Mathematical content of an [`Outcome`].
pub enum OutcomeView {
    NoHandler,
    NotFound,
    TitleFailed,
    Failed(Failure),
    Resolved(MediaReferenceView, Seq<char>),
    Over,
}

impl View for Outcome {
    type V = OutcomeView;

    open spec fn view(&self) -> OutcomeView {
        match self {
            Outcome::NoHandler => OutcomeView::NoHandler,
            Outcome::NotFound => OutcomeView::NotFound,
            Outcome::TitleFailed => OutcomeView::TitleFailed,
            Outcome::Failed(f) => OutcomeView::Failed(*f),
            Outcome::Resolved(m, t) => OutcomeView::Resolved(m@, t@),
            Outcome::Over => OutcomeView::Over,
        }
    }
}

/// What the caller is to do next.
#[derive(Debug)]
pub enum Action {
    /// Perform the request, and call again with the reply.
    Fetch(Request),
    /// The resolution is over.
    Stop(Outcome),
}

/// Mathematical content of an [`Action`], and of no action at all.
pub enum Turn {
    /// Nothing for the caller to do: the dispatcher goes on by itself.
    Continue,
    Fetch(RequestView),
    Stop(OutcomeView),
}

impl View for Action {
    type V = Turn;

    open spec fn view(&self) -> Turn {
        match self {
            Action::Fetch(q) => Turn::Fetch(q@),
            Action::Stop(o) => Turn::Stop(o@),
        }
    }
}

/// The view of an optional action; none means that the dispatcher goes
/// on by itself.
pub open spec fn turn_of(a: Option<Action>) -> Turn {
    match a {
        Some(x) => x@,
        None => Turn::Continue,
    }
}

/// The state of one resolution.
#[derive(Debug)]
pub struct Progress {
    /// Position of the rule that is being tried or used.
    pub rule: usize,
    pub phase: Phase,
    /// The title, once it is known.
    pub title: String,
    /// The direct URL, once it is known.
    pub direct_url: String,
    /// What there is to tell the user, oldest first.
    pub notices: Vec<Notice>,
}

/// Mathematical content of a [`Progress`].
pub struct ProgressView {
    pub rule: nat,
    pub phase: Phase,
    pub title: Seq<char>,
    pub direct_url: Seq<char>,
    pub notices: Seq<Notice>,
}

impl View for Progress {
    type V = ProgressView;

    open spec fn view(&self) -> ProgressView {
        ProgressView {
            rule: self.rule as nat,
            phase: self.phase,
            title: self.title@,
            direct_url: self.direct_url@,
            notices: self.notices@,
        }
    }
}

/// The state in which a resolution starts: at the first rule, with
/// nothing known and nothing to tell.
pub open spec fn start() -> ProgressView {
    ProgressView {
        rule: 0,
        phase: Phase::Probing,
        title: Seq::empty(),
        direct_url: Seq::empty(),
        notices: Seq::empty(),
    }
}

impl Progress {
    /// The state in which a resolution starts.
    pub fn new() -> (r: Progress)
        ensures
            r@ == start(),
    {
        Progress {
            rule: 0,
            phase: Phase::Probing,
            title: String::new(),
            direct_url: String::new(),
            notices: Vec::new(),
        }
    }

    /// Hands out the notices gathered so far, oldest first, and forgets
    /// them.
    pub fn take_notices(&mut self) -> (r: Vec<Notice>)
        ensures
            r@ == old(self)@.notices,
            final(self)@ == (ProgressView { notices: Seq::empty(), ..old(self)@ }),
    {
        let mut out: Vec<Notice> = Vec::new();
        std::mem::swap(&mut out, &mut self.notices);
        out
    }
}

/// The same state, over.
pub open spec fn finished(st: ProgressView) -> ProgressView {
    ProgressView { phase: Phase::Finished, ..st }
}

/// One step of a resolution: the state and the context after it, and
/// what it leaves for the caller to do.
pub open spec fn step<H: SiteDefinition>(
    handlers: Seq<H>,
    st: ProgressView,
    video: VideoView,
    url: Seq<char>,
    port: u16,
    onlyaudio: bool,
    reply: Option<ReplyView>,
) -> (ProgressView, VideoView, Turn) {
    if st.phase == Phase::Finished {
        (st, video, Turn::Stop(OutcomeView::Over))
    } else if st.rule >= handlers.len() {
        (finished(st), video, Turn::Stop(OutcomeView::NoHandler))
    } else {
        let h = handlers[st.rule as int];
        match st.phase {
            Phase::Probing => match h.handles(url, port, reply) {
                StepView::Fetch(q) => (st, video, Turn::Fetch(q)),
                StepView::Done(true) => if h.needs_web_driver() && port == 0 {
                    (
                        ProgressView {
                            rule: st.rule + 1,
                            notices: st.notices.push(Notice::NeedsWebDriver(st.rule as usize)),
                            ..st
                        },
                        video,
                        Turn::Continue,
                    )
                } else {
                    (
                        ProgressView {
                            phase: Phase::Exists,
                            notices: st.notices.push(Notice::Selected(st.rule as usize)),
                            ..st
                        },
                        video,
                        Turn::Continue,
                    )
                },
                _ => (ProgressView { rule: st.rule + 1, ..st }, video, Turn::Continue),
            },
            Phase::Exists => {
                let found = h.existence(video, url, port, reply);
                match found.0 {
                    StepView::Fetch(q) => (st, found.1, Turn::Fetch(q)),
                    StepView::Done(true) => (ProgressView { phase: Phase::Title, ..st }, found.1, Turn::Continue),
                    StepView::Done(false) => (finished(st), found.1, Turn::Stop(OutcomeView::NotFound)),
                    StepView::Failed(f) => (finished(st), found.1, Turn::Stop(OutcomeView::Failed(f))),
                }
            },
            Phase::Title => {
                let found = h.title(video, url, port, reply);
                match found.0 {
                    StepView::Fetch(q) => (st, found.1, Turn::Fetch(q)),
                    StepView::Done(t) => if t.len() == 0 {
                        (finished(st), found.1, Turn::Stop(OutcomeView::TitleFailed))
                    } else {
                        (ProgressView { phase: Phase::DirectUrl, title: t, ..st }, found.1, Turn::Continue)
                    },
                    StepView::Failed(_) => (finished(st), found.1, Turn::Stop(OutcomeView::TitleFailed)),
                }
            },
            Phase::DirectUrl => {
                let found = h.direct_url(video, url, port, onlyaudio, reply);
                match found.0 {
                    StepView::Fetch(q) => (st, found.1, Turn::Fetch(q)),
                    StepView::Done(u) => (
                        ProgressView { phase: Phase::Extension, direct_url: u, ..st },
                        found.1,
                        Turn::Continue,
                    ),
                    StepView::Failed(f) => (finished(st), found.1, Turn::Stop(OutcomeView::Failed(f))),
                }
            },
            Phase::Extension => {
                let found = h.extension(video, url, port, onlyaudio, reply);
                match found.0 {
                    StepView::Fetch(q) => (st, found.1, Turn::Fetch(q)),
                    StepView::Done(e) => (
                        finished(st),
                        found.1,
                        Turn::Stop(
                            OutcomeView::Resolved(
                                MediaReferenceView {
                                    direct_url: st.direct_url,
                                    file_extension: e,
                                    is_segmented: h.segmented(url, port),
                                },
                                st.title,
                            ),
                        ),
                    ),
                    StepView::Failed(f) => (finished(st), found.1, Turn::Stop(OutcomeView::Failed(f))),
                }
            },
            Phase::Finished => (st, video, Turn::Stop(OutcomeView::Over)),
        }
    }
}

/// How many steps a resolution in state `st` over `rules` rules can
/// still take by itself, at most.
pub open spec fn budget(st: ProgressView, rules: nat) -> nat {
    if st.phase == Phase::Finished {
        0
    } else if st.rule >= rules {
        1
    } else {
        ((rules - st.rule) * 6 + match st.phase {
            Phase::Probing => 5int,
            Phase::Exists => 4int,
            Phase::Title => 3int,
            Phase::DirectUrl => 2int,
            Phase::Extension => 1int,
            Phase::Finished => 0int,
        }) as nat
    }
}

/// A resolution from state `st` up to the point where the caller has
/// something to do: step after step, the first with `reply`, the others
/// without one.
pub open spec fn run<H: SiteDefinition>(
    handlers: Seq<H>,
    st: ProgressView,
    video: VideoView,
    url: Seq<char>,
    port: u16,
    onlyaudio: bool,
    reply: Option<ReplyView>,
) -> (ProgressView, VideoView, Turn)
    decreases budget(st, handlers.len()),
{
    let next = step(handlers, st, video, url, port, onlyaudio, reply);
    if next.2 is Continue && budget(next.0, handlers.len()) < budget(st, handlers.len()) {
        run(handlers, next.0, next.1, url, port, onlyaudio, None)
    } else {
        next
    }
}

/// A step that leaves nothing to the caller brings the resolution
/// closer to its end.
pub proof fn lemma_step_progress<H: SiteDefinition>(
    handlers: Seq<H>,
    st: ProgressView,
    video: VideoView,
    url: Seq<char>,
    port: u16,
    onlyaudio: bool,
    reply: Option<ReplyView>,
)
    ensures
        step(handlers, st, video, url, port, onlyaudio, reply).2 is Continue ==> budget(
            step(handlers, st, video, url, port, onlyaudio, reply).0,
            handlers.len(),
        ) < budget(st, handlers.len()),
{
}

/// Whether the rule `h` turns `url` down straight away: it says "no",
/// or fails, without asking for anything to be fetched.
pub open spec fn refuses<H: SiteDefinition>(h: H, url: Seq<char>, port: u16) -> bool {
    h.handles(url, port, None) == StepView::Done(false) || h.handles(url, port, None) is Failed
}

/// Rules that turn the URL down are passed one after the other: where
/// every rule from the current one up to, not including, position `to`
/// refuses, the resolution goes on at `to` as if it had started there.
pub proof fn lemma_refusals_are_passed<H: SiteDefinition>(
    handlers: Seq<H>,
    st: ProgressView,
    video: VideoView,
    url: Seq<char>,
    port: u16,
    onlyaudio: bool,
    to: nat,
)
    requires
        st.phase == Phase::Probing,
        st.rule <= to <= handlers.len(),
        forall|i: int| st.rule <= i < to ==> refuses(#[trigger] handlers[i], url, port),
    ensures
        run(handlers, st, video, url, port, onlyaudio, None) == run(
            handlers,
            ProgressView { rule: to, ..st },
            video,
            url,
            port,
            onlyaudio,
            None,
        ),
    decreases to - st.rule,
{
    if st.rule < to {
        let next = ProgressView { rule: st.rule + 1, ..st };
        assert(refuses(handlers[st.rule as int], url, port));
        assert(step(handlers, st, video, url, port, onlyaudio, None) == (next, video, Turn::Continue));
        lemma_step_progress(handlers, st, video, url, port, onlyaudio, None);
        lemma_refusals_are_passed(handlers, next, video, url, port, onlyaudio, to);
    } else {
        assert(st == ProgressView { rule: to, ..st });
    }
}

/// No match: where no rule accepts the URL, the resolution ends with
/// "no handler". It asks for no fetch on the way, makes no notice, and
/// leaves the context as it was.
pub proof fn lemma_no_match<H: SiteDefinition>(
    handlers: Seq<H>,
    video: VideoView,
    url: Seq<char>,
    port: u16,
    onlyaudio: bool,
)
    requires
        forall|i: int| 0 <= i < handlers.len() ==> refuses(#[trigger] handlers[i], url, port),
    ensures
        run(handlers, start(), video, url, port, onlyaudio, None) == (
            ProgressView { rule: handlers.len(), phase: Phase::Finished, ..start() },
            video,
            Turn::Stop(OutcomeView::NoHandler),
        ),
{
    lemma_refusals_are_passed(handlers, start(), video, url, port, onlyaudio, handlers.len());
    let last = ProgressView { rule: handlers.len(), ..start() };
    assert(step(handlers, last, video, url, port, onlyaudio, None) == (
        finished(last),
        video,
        Turn::Stop(OutcomeView::NoHandler),
    ));
}

/// Gating: a rule that accepts the URL but needs a web driver, where no
/// port is configured, does not end the resolution. It is passed over
/// with a notice, and the resolution goes on with the next rule as if
/// it had started there.
pub proof fn lemma_gated_rule_is_skipped<H: SiteDefinition>(
    handlers: Seq<H>,
    st: ProgressView,
    video: VideoView,
    url: Seq<char>,
    onlyaudio: bool,
    reply: Option<ReplyView>,
)
    requires
        st.phase == Phase::Probing,
        st.rule < handlers.len(),
        handlers[st.rule as int].handles(url, 0, reply) == StepView::Done(true),
        handlers[st.rule as int].needs_web_driver(),
    ensures
        run(handlers, st, video, url, 0, onlyaudio, reply) == run(
            handlers,
            ProgressView {
                rule: st.rule + 1,
                notices: st.notices.push(Notice::NeedsWebDriver(st.rule as usize)),
                ..st
            },
            video,
            url,
            0,
            onlyaudio,
            None,
        ),
{
    lemma_step_progress(handlers, st, video, url, 0, onlyaudio, reply);
}

/// Gating, with a later match: after a rule was passed over for want of
/// a web driver, the first later rule that accepts the URL and needs
/// none is committed to, and asked whether the video exists.
pub proof fn lemma_later_rule_is_tried<H: SiteDefinition>(
    handlers: Seq<H>,
    st: ProgressView,
    video: VideoView,
    url: Seq<char>,
    onlyaudio: bool,
    later: nat,
)
    requires
        st.phase == Phase::Probing,
        st.rule < later < handlers.len(),
        handlers[st.rule as int].handles(url, 0, None) == StepView::Done(true),
        handlers[st.rule as int].needs_web_driver(),
        forall|i: int| st.rule < i < later ==> refuses(#[trigger] handlers[i], url, 0),
        handlers[later as int].handles(url, 0, None) == StepView::Done(true),
        !handlers[later as int].needs_web_driver(),
    ensures
        run(handlers, st, video, url, 0, onlyaudio, None) == run(
            handlers,
            ProgressView {
                rule: later,
                phase: Phase::Exists,
                notices: st.notices.push(Notice::NeedsWebDriver(st.rule as usize)).push(
                    Notice::Selected(later as usize),
                ),
                ..st
            },
            video,
            url,
            0,
            onlyaudio,
            None,
        ),
{
    let skipped = ProgressView {
        rule: st.rule + 1,
        notices: st.notices.push(Notice::NeedsWebDriver(st.rule as usize)),
        ..st
    };
    lemma_gated_rule_is_skipped(handlers, st, video, url, onlyaudio, None);
    lemma_refusals_are_passed(handlers, skipped, video, url, 0, onlyaudio, later);
    let at = ProgressView { rule: later, ..skipped };
    lemma_step_progress(handlers, at, video, url, 0, onlyaudio, None);
}

/// Takes one step of the resolution. `None` means that nothing is left
/// to the caller and the next step can follow at once.
pub fn tick<H: SiteDefinition>(
    handlers: &Vec<H>,
    progress: &mut Progress,
    video: &mut VIDEO,
    url: &str,
    webdriver_port: u16,
    onlyaudio: bool,
    reply: Option<Reply>,
) -> (r: Option<Action>)
    ensures
        (final(progress)@, final(video)@, turn_of(r)) == step(
            handlers@,
            old(progress)@,
            old(video)@,
            url@,
            webdriver_port,
            onlyaudio,
            opt_reply(reply),
        ),
{
    if progress.phase == Phase::Finished {
        return Some(Action::Stop(Outcome::Over));
    }
    if progress.rule >= handlers.len() {
        progress.phase = Phase::Finished;
        return Some(Action::Stop(Outcome::NoHandler));
    }
    let h = &handlers[progress.rule];
    match progress.phase {
        Phase::Probing => match h.can_handle_url(url, webdriver_port, reply) {
            Step::Fetch(q) => Some(Action::Fetch(q)),
            Step::Done(true) => {
                if h.web_driver_required() && webdriver_port == 0 {
                    progress.notices.push(Notice::NeedsWebDriver(progress.rule));
                    progress.rule = progress.rule + 1;
                } else {
                    progress.notices.push(Notice::Selected(progress.rule));
                    progress.phase = Phase::Exists;
                }
                None
            },
            _ => {
                progress.rule = progress.rule + 1;
                None
            },
        },
        Phase::Exists => match h.does_video_exist(video, url, webdriver_port, reply) {
            Step::Fetch(q) => Some(Action::Fetch(q)),
            Step::Done(true) => {
                progress.phase = Phase::Title;
                None
            },
            Step::Done(false) => {
                progress.phase = Phase::Finished;
                Some(Action::Stop(Outcome::NotFound))
            },
            Step::Failed(f) => {
                progress.phase = Phase::Finished;
                Some(Action::Stop(Outcome::Failed(f)))
            },
        },
        Phase::Title => match h.find_video_title(video, url, webdriver_port, reply) {
            Step::Fetch(q) => Some(Action::Fetch(q)),
            Step::Done(t) => {
                if t.as_str().is_empty() {
                    progress.phase = Phase::Finished;
                    Some(Action::Stop(Outcome::TitleFailed))
                } else {
                    progress.title = t;
                    progress.phase = Phase::DirectUrl;
                    None
                }
            },
            Step::Failed(_) => {
                progress.phase = Phase::Finished;
                Some(Action::Stop(Outcome::TitleFailed))
            },
        },
        Phase::DirectUrl => match h.find_video_direct_url(video, url, webdriver_port, onlyaudio, reply) {
            Step::Fetch(q) => Some(Action::Fetch(q)),
            Step::Done(u) => {
                progress.direct_url = u;
                progress.phase = Phase::Extension;
                None
            },
            Step::Failed(f) => {
                progress.phase = Phase::Finished;
                Some(Action::Stop(Outcome::Failed(f)))
            },
        },
        Phase::Extension => match h.find_video_file_extension(video, url, webdriver_port, onlyaudio, reply) {
            Step::Fetch(q) => Some(Action::Fetch(q)),
            Step::Done(e) => {
                let is_segmented = h.is_playlist(url, webdriver_port);
                progress.phase = Phase::Finished;
                let media = MediaReference {
                    direct_url: progress.direct_url.clone(),
                    file_extension: e,
                    is_segmented,
                };
                Some(Action::Stop(Outcome::Resolved(media, progress.title.clone())))
            },
            Step::Failed(f) => {
                progress.phase = Phase::Finished;
                Some(Action::Stop(Outcome::Failed(f)))
            },
        },
        Phase::Finished => Some(Action::Stop(Outcome::Over)),
    }
}

/// Runs the resolution of `url` until the caller has something to do:
/// a request to perform, after which it calls again with the reply, or
/// the end. The first call is made on a fresh [`Progress`] and a fresh
/// context, with no reply.
pub fn advance<H: SiteDefinition>(
    handlers: &Vec<H>,
    progress: &mut Progress,
    video: &mut VIDEO,
    url: &str,
    webdriver_port: u16,
    onlyaudio: bool,
    reply: Option<Reply>,
) -> (r: Action)
    ensures
        (final(progress)@, final(video)@, r@) == run(
            handlers@,
            old(progress)@,
            old(video)@,
            url@,
            webdriver_port,
            onlyaudio,
            opt_reply(reply),
        ),
{
    let ghost goal = run(
        handlers@,
        progress@,
        video@,
        url@,
        webdriver_port,
        onlyaudio,
        opt_reply(reply),
    );
    let ghost first = opt_reply(reply);
    let mut pending = reply;
    loop
        invariant
            goal == run(handlers@, old(progress)@, old(video)@, url@, webdriver_port, onlyaudio, first),
            first == opt_reply(reply),
            goal == run(handlers@, progress@, video@, url@, webdriver_port, onlyaudio, opt_reply(pending)),
        decreases budget(progress@, handlers@.len()),
    {
        let ghost before = progress@;
        let ghost seen = video@;
        let ghost answer = opt_reply(pending);
        proof {
            lemma_step_progress(handlers@, before, seen, url@, webdriver_port, onlyaudio, answer);
        }
        let ghost next = step(handlers@, before, seen, url@, webdriver_port, onlyaudio, answer);
        match tick(handlers, progress, video, url, webdriver_port, onlyaudio, pending) {
            Some(action) => {
                assert(!(next.2 is Continue));
                assert(goal == next);
                assert(progress@ == next.0 && video@ == next.1 && action@ == next.2);
                return action;
            },
            None => {
                assert(next.2 is Continue);
                assert(goal == run(handlers@, next.0, next.1, url@, webdriver_port, onlyaudio, None));
                pending = None;
            },
        }
    }
}

} // verus!
