//! Planning the retrieval of a resolved media reference.
//!
//! Nothing here reads or writes: the functions say which requests to make,
//! in which order, and which bytes go to the end of the destination file.
//! All writes are appends, so a run that resumes never destroys what is
//! already on disk.

use vstd::prelude::*;
use crate::outside::{media_playlist_uris, normalize_url, playlist_uris, replace_last_segment, texts, url_normalized, url_with_last_segment};
use crate::protocol::{Failure, Request, RequestView, Via};
use crate::text::{decimal, decimal_chars, from_chars};

verus! {

/// Where a download goes, and how much of it is already there.
#[derive(Clone, Debug)]
pub struct DownloadTarget {
    pub path: String,
    /// Size of the file already at `path`; zero where there is none.
    pub resumable_offset: u64,
}

impl DownloadTarget {
    /// The target at `path`, where a file of `existing_size` bytes was
    /// found, or none.
    pub fn new(path: &str, existing_size: Option<u64>) -> (r: DownloadTarget)
        ensures
            r.path@ == path@,
            r.resumable_offset == match existing_size {
                Some(n) => n,
                None => 0,
            },
    {
        let resumable_offset: u64 = match existing_size {
            Some(n) => n,
            None => 0,
        };
        DownloadTarget { path: path.to_owned(), resumable_offset }
    }
}

/// The value of a `Range` header that asks for everything from byte
/// `start` on.
pub open spec fn range_value(start: u64) -> Seq<char> {
    "bytes="@ + decimal(start as nat) + "-"@
}

/// The value of the `Range` header for a request with
/// `range_start == Some(start)`.
pub fn range_header(start: u64) -> (r: String)
    ensures
        r@ == range_value(start),
{
    let digits = from_chars(&decimal_chars(start));
    let mut out = "bytes=".to_owned();
    out.push_str(digits.as_str());
    out.push_str("-");
    out
}

/// The byte at which a download resumes onto a file of `existing` bytes:
/// one byte before its end. An empty file is not resumed.
pub open spec fn resume_start(existing: u64) -> Option<u64> {
    if existing > 0 {
        Some((existing - 1) as u64)
    } else {
        None
    }
}

/// The GET that downloads `url`, with `url` as its own referer.
pub open spec fn download_request(url: Seq<char>, range_start: Option<u64>, stage: u8) -> RequestView {
    RequestView {
        via: Via::Http,
        url,
        referer: Some(url),
        range_start,
        script: None,
        port: 0,
        stage,
    }
}

fn make_download_request(url: &str, range_start: Option<u64>, stage: u8) -> (r: Request)
    ensures
        r@ == download_request(url@, range_start, stage),
{
    Request {
        via: Via::Http,
        url: url.to_owned(),
        referer: Some(url.to_owned()),
        range_start,
        script: None,
        port: 0,
        stage,
    }
}

/// The requests of a single-stream download.
#[derive(Debug)]
pub struct DownloadPlan {
    /// Always made first; its length header gives the total size.
    pub first: Request,
    /// Made after `first` where a file is resumed; its body is what gets
    /// appended. Where it is `None`, the body of `first` is appended.
    pub resume: Option<Request>,
    /// Bytes that count as already transferred when progress is shown.
    pub progress_start: u64,
}

/// The total size shown for a download whose response carried the length
/// header `content_length`: zero stands for an unknown length.
pub fn total_size(content_length: Option<u64>) -> (r: u64)
    ensures
        r == match content_length {
            Some(n) => n,
            None => 0,
        },
{
    match content_length {
        Some(n) => n,
        None => 0,
    }
}

/// Plans the single-stream download of `url` onto `target`.
///
/// The first request is a GET of the URL as the `url` crate writes it,
/// with itself as referer. Onto a file that already holds bytes, a second
/// GET follows with a range that starts one byte before the file's end.
pub fn download(url: &str, target: &DownloadTarget) -> (r: Result<DownloadPlan, Failure>)
    ensures
        match url_normalized(url@) {
            None => r == Err::<DownloadPlan, Failure>(Failure::BadUrl),
            Some(u) => {
                &&& r is Ok
                &&& r->Ok_0.first@ == download_request(u, None, 0)
                &&& match resume_start(target.resumable_offset) {
                    Some(from) => {
                        &&& r->Ok_0.resume is Some
                        &&& r->Ok_0.resume->Some_0@ == download_request(u, Some(from), 1)
                        &&& r->Ok_0.progress_start == from
                    },
                    None => r->Ok_0.resume is None && r->Ok_0.progress_start == 0,
                }
            },
        },
{
    let parsed = match normalize_url(url) {
        Some(u) => u,
        None => {
            return Err(Failure::BadUrl);
        },
    };
    let first = make_download_request(parsed.as_str(), None, 0);
    if target.resumable_offset > 0 {
        let from: u64 = target.resumable_offset - 1;
        let again = make_download_request(parsed.as_str(), Some(from), 1);
        Ok(DownloadPlan { first, resume: Some(again), progress_start: from })
    } else {
        Ok(DownloadPlan { first, resume: None, progress_start: 0 })
    }
}

/// What a server that honours range requests sends for `content` from
/// byte `start` on.
pub open spec fn served_from(content: Seq<u8>, start: int) -> Seq<u8> {
    content.subrange(start, content.len() as int)
}

/// The destination file after a single-stream download of `content` onto
/// a file that held `existing`: the body that the plan asks for, appended.
pub open spec fn file_after_download(existing: Seq<u8>, content: Seq<u8>) -> Seq<u8> {
    if existing.len() > 0 {
        existing + served_from(content, existing.len() - 1)
    } else {
        content
    }
}

/// Resuming keeps every byte already on disk and appends the rest, with
/// the one byte of overlap that the resume offset asks for: after a
/// download was cut to its first `p` bytes, the resumed file is those
/// bytes, then the content from byte `p - 1` on. Without the repeated
/// byte at position `p` it is the content itself.
pub proof fn lemma_resume_overlap(content: Seq<u8>, p: int)
    requires
        0 < p < content.len(),
    ensures
        file_after_download(content.take(p), content) == content.take(p) + content.skip(p - 1),
        file_after_download(content.take(p), content).len() == content.len() + 1,
        file_after_download(content.take(p), content).remove(p) == content,
        file_after_download(content.take(p), content)[p] == content[p - 1],
{
    let f = file_after_download(content.take(p), content);
    assert(served_from(content, p - 1) == content.skip(p - 1));
    assert(f == content.take(p) + content.skip(p - 1));
    assert(f.remove(p) =~= content);
}

/// A download onto no file, or onto an empty one, yields the content.
pub proof fn lemma_fresh_download(content: Seq<u8>)
    ensures
        file_after_download(Seq::<u8>::empty(), content) == content,
{
}

/// The fetch of the playlist document of a segmented download: a GET of
/// the playlist URL as the `url` crate writes it, with itself as referer.
pub fn download_from_playlist(url: &str) -> (r: Result<Request, Failure>)
    ensures
        match url_normalized(url@) {
            None => r == Err::<Request, Failure>(Failure::BadUrl),
            Some(u) => r is Ok && r->Ok_0@ == download_request(u, None, 0),
        },
{
    match normalize_url(url) {
        Some(u) => Ok(make_download_request(u.as_str(), None, 0)),
        None => Err(Failure::BadUrl),
    }
}

/// The fetch URL of each segment: the playlist URL `base` with its last
/// path segment replaced by the segment's URI, in playlist order. `None`
/// where one of them cannot be formed.
pub open spec fn segment_urls(base: Seq<char>, uris: Seq<Seq<char>>) -> Option<Seq<Seq<char>>>
    decreases uris.len(),
{
    if uris.len() == 0 {
        Some(Seq::<Seq<char>>::empty())
    } else {
        match (segment_urls(base, uris.drop_last()), url_with_last_segment(base, uris.last())) {
            (Some(front), Some(u)) => Some(front.push(u)),
            _ => None,
        }
    }
}

/// The segment bodies `bodies` laid end to end, first to last.
pub open spec fn concat(bodies: Seq<Seq<u8>>) -> Seq<u8>
    decreases bodies.len(),
{
    if bodies.len() == 0 {
        Seq::<u8>::empty()
    } else {
        concat(bodies.drop_last()) + bodies.last()
    }
}

/// A segmented download in progress: the segment requests in playlist
/// order, how many of them are complete, and what has gone to the
/// destination file so far.
pub struct SegmentedDownload {
    requests: Vec<Request>,
    completed: usize,
    accepted: Ghost<Seq<Seq<u8>>>,
    written: Ghost<Seq<u8>>,
}

impl SegmentedDownload {
    /// The URLs of the segment requests, in order.
    pub closed spec fn urls(&self) -> Seq<Seq<char>> {
        self.requests@.map_values(|q: Request| q.url@)
    }

    /// The number of segments whose bytes have been handed out.
    pub closed spec fn done(&self) -> nat {
        self.completed as nat
    }

    /// The bodies accepted so far, in the order in which they came.
    pub closed spec fn accepted(&self) -> Seq<Seq<u8>> {
        self.accepted@
    }

    /// Every byte handed out for appending so far, in order.
    pub closed spec fn written(&self) -> Seq<u8> {
        self.written@
    }

    /// The request at position `i`.
    pub closed spec fn request(&self, i: int) -> RequestView {
        self.requests@[i]@
    }

    /// What holds of every segmented download: one body was accepted per
    /// completed segment, and the bytes written are those bodies end to
    /// end, in playlist order.
    pub closed spec fn wf(&self) -> bool {
        &&& self.completed <= self.requests@.len()
        &&& self.accepted@.len() == self.completed
        &&& self.written@ == concat(self.accepted@)
        &&& forall|i: int|
            0 <= i < self.requests@.len() ==> (#[trigger] self.requests@[i])@ == download_request(
                self.requests@[i].url@,
                None,
                0,
            )
    }

    /// Starts the segmented download of the playlist at `url`, whose
    /// fetched document is `playlist`.
    ///
    /// Fails with `BadUrl` where `url` does not parse, with `Transport`
    /// where `playlist` is no media playlist, and with `BadUrl` where a
    /// segment's URL cannot be formed from `url`.
    pub fn begin(url: &str, playlist: &str) -> (r: Result<SegmentedDownload, Failure>)
        ensures
            match url_normalized(url@) {
                None => r is Err && r->Err_0 == Failure::BadUrl,
                Some(base) => match playlist_uris(playlist@) {
                    None => r is Err && r->Err_0 == Failure::Transport,
                    Some(uris) => match segment_urls(base, uris) {
                        None => r is Err && r->Err_0 == Failure::BadUrl,
                        Some(urls) => {
                            &&& r is Ok
                            &&& r->Ok_0.wf()
                            &&& r->Ok_0.urls() == urls
                            &&& r->Ok_0.done() == 0
                            &&& r->Ok_0.accepted() == Seq::<Seq<u8>>::empty()
                            &&& r->Ok_0.written() == Seq::<u8>::empty()
                        },
                    },
                },
            },
    {
        let base = match normalize_url(url) {
            Some(u) => u,
            None => {
                return Err(Failure::BadUrl);
            },
        };
        let uris = match media_playlist_uris(playlist) {
            Some(v) => v,
            None => {
                return Err(Failure::Transport);
            },
        };
        let ghost all = texts(uris@);
        let mut requests: Vec<Request> = Vec::new();
        let mut i: usize = 0;
        while i < uris.len()
            invariant
                i <= uris.len(),
                all == texts(uris@),
                url_normalized(url@) == Some(base@),
                playlist_uris(playlist@) == Some(all),
                requests@.len() == i,
                segment_urls(base@, all.take(i as int)) == Some(
                    requests@.map_values(|q: Request| q.url@),
                ),
                forall|k: int|
                    0 <= k < requests@.len() ==> (#[trigger] requests@[k])@ == download_request(
                        requests@[k].url@,
                        None,
                        0,
                    ),
            decreases uris.len() - i,
        {
            let ghost before = requests@.map_values(|q: Request| q.url@);
            proof {
                assert(all.take(i + 1).drop_last() == all.take(i as int));
                assert(all.take(i + 1).last() == uris@[i as int]@);
            }
            match replace_last_segment(base.as_str(), uris[i].as_str()) {
                Some(u) => {
                    let q = make_download_request(u.as_str(), None, 0);
                    requests.push(q);
                    proof {
                        assert(requests@.map_values(|q: Request| q.url@) == before.push(u@));
                    }
                },
                None => {
                    proof {
                        assert(segment_urls(base@, all.take(i + 1)) is None);
                        lemma_segment_urls_prefix(base@, all, i + 1);
                    }
                    return Err(Failure::BadUrl);
                },
            }
            i += 1;
        }
        proof {
            assert(all.take(i as int) == all);
        }
        Ok(SegmentedDownload { requests, completed: 0, accepted: Ghost(Seq::empty()), written: Ghost(Seq::empty()) })
    }

    /// The number of segments in the playlist.
    pub fn total(&self) -> (r: usize)
        ensures
            r == self.urls().len(),
    {
        self.requests.len()
    }

    /// The number of segments completed: the progress of the download.
    pub fn completed(&self) -> (r: usize)
        ensures
            r == self.done(),
    {
        self.completed
    }

    /// The one request to make next: that of the first segment not yet
    /// complete. `None` once every segment is.
    pub fn next_request(&self) -> (r: Option<&Request>)
        requires
            self.wf(),
        ensures
            self.done() < self.urls().len() ==> r is Some && r->Some_0@ == self.request(self.done() as int)
                && r->Some_0@ == download_request(self.urls()[self.done() as int], None, 0),
            self.done() >= self.urls().len() ==> r is None,
    {
        if self.completed < self.requests.len() {
            Some(&self.requests[self.completed])
        } else {
            None
        }
    }

    /// Takes the outcome of the request that [`Self::next_request`] gave:
    /// the segment's whole body, or `None` where the fetch failed.
    ///
    /// On a body, hands it back as the bytes to append to the destination
    /// file now, and counts the segment as complete. A failed fetch ends
    /// the download with `Transport`: nothing is retried or skipped. With
    /// no request outstanding the answer is `UnexpectedReply`. On failure
    /// nothing changes.
    pub fn accept(&mut self, body: Option<Vec<u8>>) -> (r: Result<Vec<u8>, Failure>)
        requires
            old(self).wf(),
        ensures
            final(self).wf(),
            final(self).urls() == old(self).urls(),
            old(self).done() >= old(self).urls().len() ==> r is Err && r->Err_0 == Failure::UnexpectedReply,
            old(self).done() < old(self).urls().len() && body is None ==> r is Err && r->Err_0
                == Failure::Transport,
            r is Err ==> final(self).done() == old(self).done() && final(self).written() == old(
                self,
            ).written() && final(self).accepted() == old(self).accepted(),
            old(self).done() < old(self).urls().len() && body is Some ==> {
                &&& r is Ok
                &&& r->Ok_0@ == body->Some_0@
                &&& final(self).done() == old(self).done() + 1
                &&& final(self).accepted() == old(self).accepted().push(body->Some_0@)
                &&& final(self).written() == old(self).written() + body->Some_0@
            },
    {
        if self.completed >= self.requests.len() {
            return Err(Failure::UnexpectedReply);
        }
        match body {
            None => Err(Failure::Transport),
            Some(bytes) => {
                proof {
                    let prev = self.accepted@;
                    let next = prev.push(bytes@);
                    assert(next.drop_last() =~= prev);
                    assert(next.last() == bytes@);
                    self.accepted@ = next;
                    self.written@ = self.written@ + bytes@;
                }
                self.completed = self.completed + 1;
                Ok(bytes)
            },
        }
    }
}

proof fn lemma_segment_urls_prefix(base: Seq<char>, uris: Seq<Seq<char>>, n: int)
    requires
        0 <= n <= uris.len(),
        segment_urls(base, uris.take(n)) is None,
    ensures
        segment_urls(base, uris) is None,
    decreases uris.len() - n,
{
    if n < uris.len() {
        assert(uris.take(n + 1).drop_last() == uris.take(n));
        lemma_segment_urls_prefix(base, uris, n + 1);
    } else {
        assert(uris.take(n) == uris);
    }
}

/// Segment ordering: once every segment of a playlist has been accepted,
/// the bytes written are the bodies in playlist order, whatever the order
/// in which a server would have been ready to send them. For three
/// segments that is the first, then the second, then the third.
pub proof fn lemma_concat_three(a: Seq<u8>, b: Seq<u8>, c: Seq<u8>)
    ensures
        concat(seq![a, b, c]) == a + b + c,
{
    let s3 = seq![a, b, c];
    let s2 = seq![a, b];
    let s1 = seq![a];
    assert(s3.drop_last() =~= s2);
    assert(s2.drop_last() =~= s1);
    assert(s1.drop_last() =~= Seq::<Seq<u8>>::empty());
    assert(concat(s1.drop_last()) =~= Seq::<u8>::empty());
    assert(concat(s1) =~= a);
    assert(concat(s2) =~= a + b);
}

/// Appending one more body to a run of bodies appends its bytes to what
/// they make end to end.
pub proof fn lemma_concat_push(bodies: Seq<Seq<u8>>, body: Seq<u8>)
    ensures
        concat(bodies.push(body)) == concat(bodies) + body,
{
    assert(bodies.push(body).drop_last() =~= bodies);
}

} // verus!
