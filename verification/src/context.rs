//! The per-resolution context: what has been fetched for the one URL that
//! is being resolved, shared by all extraction steps for that URL.

use vstd::prelude::*;
use crate::protocol::{opt_reply, Failure, Reply, ReplyView, Request, RequestView, Step, StepView};

verus! {

/// The context of one resolution. It is created empty when the resolution
/// starts and dropped when it ends.
#[derive(Debug)]
pub struct VIDEO {
    /// The raw document most recently fetched; empty until there is one.
    pub info: String,
    /// The display title, where a rule found it while fetching.
    pub title: String,
    /// The MIME type of the chosen stream, where a rule recorded it.
    pub mime: String,
}

/// Mathematical content of a [`VIDEO`].
pub struct VideoView {
    pub info: Seq<char>,
    pub title: Seq<char>,
    pub mime: Seq<char>,
}

impl View for VIDEO {
    type V = VideoView;

    open spec fn view(&self) -> VideoView {
        VideoView { info: self.info@, title: self.title@, mime: self.mime@ }
    }
}

/// The context in which nothing has been fetched.
pub open spec fn empty_video() -> VideoView {
    VideoView { info: Seq::empty(), title: Seq::empty(), mime: Seq::empty() }
}

/// One attempt to have the raw document in a context whose document is
/// `info`: the step's result and the document afterwards.
///
/// A document that is there is never fetched again. Without one, the
/// step asks for `request`; on the reply to it, the body becomes the
/// document; a failed transfer fails the step.
pub open spec fn document_step(info: Seq<char>, request: RequestView, reply: Option<ReplyView>) -> (
    StepView<()>,
    Seq<char>,
) {
    if info.len() > 0 {
        (StepView::Done(()), info)
    } else {
        match reply {
            None => (StepView::Fetch(request), info),
            Some(answer) => if answer.stage != request.stage {
                (StepView::Failed(Failure::UnexpectedReply), info)
            } else {
                match answer.body {
                    Some(body) => (StepView::Done(()), body),
                    None => (StepView::Failed(Failure::Transport), info),
                }
            },
        }
    }
}

impl VIDEO {
    /// A context in which nothing has been fetched.
    pub fn new() -> (r: VIDEO)
        ensures
            r@ == empty_video(),
    {
        VIDEO { info: String::new(), title: String::new(), mime: String::new() }
    }

    /// Whether the raw document is there.
    pub fn has_document(&self) -> (r: bool)
        ensures
            r == (self@.info.len() > 0),
    {
        !self.info.as_str().is_empty()
    }

    /// Makes sure the raw document is there, fetching it with `request`
    /// only where it is absent.
    pub fn ensure_document(&mut self, request: Request, reply: Option<Reply>) -> (r: Step<()>)
        ensures
            r@ == document_step(old(self)@.info, request@, opt_reply(reply)).0,
            final(self)@.info == document_step(old(self)@.info, request@, opt_reply(reply)).1,
            final(self)@.title == old(self)@.title,
            final(self)@.mime == old(self)@.mime,
    {
        if self.has_document() {
            return Step::Done(());
        }
        match reply {
            None => Step::Fetch(request),
            Some(answer) => {
                if answer.stage != request.stage {
                    Step::Failed(Failure::UnexpectedReply)
                } else {
                    match answer.body {
                        Some(body) => {
                            self.info = body;
                            Step::Done(())
                        },
                        None => Step::Failed(Failure::Transport),
                    }
                }
            },
        }
    }
}

/// Fetch-once: as soon as a fetch has put a document with any content
/// into the context, no later step asks for the document again, whatever
/// request it would have made and whatever reply it is handed, and the
/// document stays as it is.
pub proof fn lemma_fetch_once(
    request: RequestView,
    body: Seq<char>,
    later_request: RequestView,
    later_reply: Option<ReplyView>,
)
    requires
        body.len() > 0,
    ensures
        ({
            let asked = document_step(Seq::empty(), request, None);
            let fetched = document_step(
                asked.1,
                request,
                Some(ReplyView { stage: request.stage, body: Some(body) }),
            );
            let later = document_step(fetched.1, later_request, later_reply);
            &&& asked.0 == StepView::<()>::Fetch(request)
            &&& fetched.0 == StepView::Done(())
            &&& fetched.1 == body
            &&& later.0 == StepView::Done(())
            &&& later.1 == body
        }),
{
}

} // verus!
