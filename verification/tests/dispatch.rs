use yaydl::context::VIDEO;
use yaydl::dispatch::{advance, tick, Action, Notice, Outcome, Phase, Progress};
use yaydl::download::{download, DownloadTarget};
use yaydl::handlers::generic_videofile::GenericFileHandler;
use yaydl::handlers::porndoe::PornDoeHandler;
use yaydl::handlers::vidoza::VidozaHandler;
use yaydl::handlers::vimeo::VimeoHandler;
use yaydl::handlers::{registered, Site};
use yaydl::output::{post_process, target_filename, Conversion};
use yaydl::protocol::{Failure, Reply, Request, Via};

// Runs a resolution to its end against a server that answers every
// request with what `serve` gives; says how it ended and what was asked.
fn resolve(rules: &Vec<Site>, url: &str, port: u16, serve: &dyn Fn(&Request) -> Option<String>) -> (Outcome, Vec<Request>, Vec<Notice>, VIDEO) {
    let mut progress = Progress::new();
    let mut video = VIDEO::new();
    let mut asked: Vec<Request> = Vec::new();
    let mut notices: Vec<Notice> = Vec::new();
    let mut reply: Option<Reply> = None;
    loop {
        let action = advance(rules, &mut progress, &mut video, url, port, false, reply.take());
        notices.extend(progress.take_notices());
        match action {
            Action::Stop(outcome) => return (outcome, asked, notices, video),
            Action::Fetch(q) => {
                assert!(asked.len() < 50, "the resolution does not end");
                reply = Some(Reply { stage: q.stage, body: serve(&q) });
                asked.push(q);
            }
        }
    }
}

const PAGE: &str = "<html><body><h1>My Clip</h1><video><source src=\"https://cdn/first.mp4\"></video></body></html>";

#[test]
fn new_progress_starts_at_the_first_rule() {
    let mut p = Progress::new();
    assert_eq!(p.rule, 0);
    assert_eq!(p.phase, Phase::Probing);
    assert_eq!(p.title, "");
    assert_eq!(p.direct_url, "");
    assert!(p.take_notices().is_empty());
}

#[test]
fn no_rule_matches_and_nothing_is_fetched() {
    let rules = vec![Site::Vidoza(VidozaHandler), Site::Vimeo(VimeoHandler), Site::Generic(GenericFileHandler)];
    let (outcome, asked, notices, video) = resolve(&rules, "https://nothing.example/page.html", 0, &|_| panic!("a request was made"));
    assert!(matches!(outcome, Outcome::NoHandler));
    assert!(asked.is_empty());
    assert!(notices.is_empty());
    assert_eq!(video.info, "");
}

#[test]
fn no_rules_at_all_is_no_handler() {
    let (outcome, asked, _, _) = resolve(&Vec::new(), "https://host/clip.mp4", 0, &|_| None);
    assert!(matches!(outcome, Outcome::NoHandler));
    assert!(asked.is_empty());
}

#[test]
fn finished_resolution_stays_over() {
    let rules: Vec<Site> = Vec::new();
    let mut progress = Progress::new();
    let mut video = VIDEO::new();
    assert!(matches!(advance(&rules, &mut progress, &mut video, "u", 0, false, None), Action::Stop(Outcome::NoHandler)));
    assert_eq!(progress.phase, Phase::Finished);
    assert!(matches!(advance(&rules, &mut progress, &mut video, "u", 0, false, None), Action::Stop(Outcome::Over)));
}

#[test]
fn first_match_wins() {
    // both rules accept the URL; the first one registered is used
    let url = "https://vidoza.net/clip.mp4";
    let rules = vec![Site::Vidoza(VidozaHandler), Site::Generic(GenericFileHandler)];
    let (outcome, _, notices, _) = resolve(&rules, url, 0, &|_| Some(PAGE.to_string()));
    assert_eq!(notices, vec![Notice::Selected(0)]);
    match outcome {
        Outcome::Resolved(media, title) => {
            assert_eq!(title, "My Clip");
            assert_eq!(media.direct_url, "https://cdn/first.mp4");
        }
        other => panic!("{:?}", other),
    }
    let rules = vec![Site::Generic(GenericFileHandler), Site::Vidoza(VidozaHandler)];
    let (outcome, _, notices, _) = resolve(&rules, url, 0, &|_| Some(PAGE.to_string()));
    assert_eq!(notices, vec![Notice::Selected(1 - 1)]);
    match outcome {
        Outcome::Resolved(media, title) => {
            assert_eq!(title, "clip");
            assert_eq!(media.direct_url, url);
        }
        other => panic!("{:?}", other),
    }
}

#[test]
fn first_match_is_final_even_when_it_fails() {
    let url = "https://vidoza.net/clip.mp4";
    let rules = vec![Site::Vidoza(VidozaHandler), Site::Generic(GenericFileHandler)];
    let (outcome, asked, notices, _) = resolve(&rules, url, 0, &|_| None);
    assert!(matches!(outcome, Outcome::Failed(Failure::Transport)));
    assert_eq!(asked.len(), 1);
    assert_eq!(notices, vec![Notice::Selected(0)]);
}

#[test]
fn document_is_fetched_once_for_all_steps() {
    let rules = vec![Site::Vidoza(VidozaHandler)];
    let (outcome, asked, _, video) = resolve(&rules, "https://vidoza.net/abc", 0, &|_| Some(PAGE.to_string()));
    assert!(matches!(outcome, Outcome::Resolved(_, _)));
    assert_eq!(asked.len(), 1);
    assert_eq!(asked[0].url, "https://vidoza.net/abc");
    assert_eq!(video.info, PAGE);
}

#[test]
fn rule_without_web_driver_is_skipped_not_fatal() {
    let url = "https://porndoe.com/watch/clip.mp4";
    let rules = vec![Site::PornDoe(PornDoeHandler), Site::Vidoza(VidozaHandler), Site::Generic(GenericFileHandler)];
    let (outcome, asked, notices, _) = resolve(&rules, url, 0, &|_| Some(String::new()));
    assert_eq!(notices, vec![Notice::NeedsWebDriver(0), Notice::Selected(2)]);
    assert_eq!(asked.len(), 1);
    match outcome {
        Outcome::Resolved(media, title) => {
            assert_eq!(title, "clip");
            assert_eq!(media.direct_url, url);
            assert_eq!(media.file_extension, "mp4");
            assert!(!media.is_segmented);
        }
        other => panic!("{:?}", other),
    }
}

#[test]
fn skipped_rule_without_a_later_match_is_no_handler() {
    let rules = vec![Site::PornDoe(PornDoeHandler), Site::Vidoza(VidozaHandler)];
    let (outcome, asked, notices, _) = resolve(&rules, "https://porndoe.com/watch/x", 0, &|_| panic!("a request was made"));
    assert!(matches!(outcome, Outcome::NoHandler));
    assert!(asked.is_empty());
    assert_eq!(notices, vec![Notice::NeedsWebDriver(0)]);
}

#[test]
fn rule_with_web_driver_is_used_when_a_port_is_there() {
    let page = "<html><head><meta itemprop=\"contentUrl\" content=\"https://cdn/c.mp4\"></head><body><h1 class=\"-heading\">Doe</h1></body></html>";
    let rules = vec![Site::PornDoe(PornDoeHandler), Site::Generic(GenericFileHandler)];
    let (outcome, asked, notices, _) = resolve(&rules, "https://porndoe.com/watch/clip.mp4", 4444, &|_| Some(page.to_string()));
    assert_eq!(notices, vec![Notice::Selected(0)]);
    assert_eq!(asked.len(), 1);
    assert_eq!(asked[0].port, 4444);
    match outcome {
        Outcome::Resolved(media, title) => {
            assert_eq!(title, "Doe");
            assert_eq!(media.direct_url, "https://cdn/c.mp4");
        }
        other => panic!("{:?}", other),
    }
}

#[test]
fn missing_video_is_not_found() {
    let rules = vec![Site::Generic(GenericFileHandler), Site::Vidoza(VidozaHandler)];
    let (outcome, asked, _, _) = resolve(&rules, "https://vidoza.net/clip.mp4", 0, &|_| None);
    assert!(matches!(outcome, Outcome::NotFound));
    assert_eq!(asked.len(), 1);
}

#[test]
fn empty_title_ends_the_resolution() {
    let rules = vec![Site::Vidoza(VidozaHandler)];
    let (outcome, _, _, _) = resolve(&rules, "https://vidoza.net/abc", 0, &|_| Some("<html><body><h1></h1></body></html>".to_string()));
    assert!(matches!(outcome, Outcome::TitleFailed));
}

#[test]
fn failed_direct_url_ends_the_resolution() {
    let rules = vec![Site::Vidoza(VidozaHandler)];
    let (outcome, _, _, _) = resolve(&rules, "https://vidoza.net/abc", 0, &|_| Some("<html><body><h1>T</h1></body></html>".to_string()));
    assert!(matches!(outcome, Outcome::Failed(Failure::MissingNode)));
}

#[test]
fn failed_probe_counts_as_no() {
    // the probing rules fail on what is no URL; nothing handles it
    let rules = registered("https://inv.example".to_string());
    let (outcome, asked, notices, _) = resolve(&rules, "this is no url", 0, &|_| None);
    assert!(matches!(outcome, Outcome::NoHandler));
    assert_eq!(asked.len(), 1);
    assert!(notices.is_empty());
}

#[test]
fn one_tick_is_one_step() {
    let rules = vec![Site::Vidoza(VidozaHandler), Site::Generic(GenericFileHandler)];
    let mut progress = Progress::new();
    let mut video = VIDEO::new();
    let url = "https://host/clip.mp4";
    assert!(tick(&rules, &mut progress, &mut video, url, 0, false, None).is_none());
    assert_eq!((progress.rule, progress.phase), (1, Phase::Probing));
    assert!(tick(&rules, &mut progress, &mut video, url, 0, false, None).is_none());
    assert_eq!((progress.rule, progress.phase), (1, Phase::Exists));
    assert!(matches!(tick(&rules, &mut progress, &mut video, url, 0, false, None), Some(Action::Fetch(_))));
    assert_eq!((progress.rule, progress.phase), (1, Phase::Exists));
}

#[test]
fn single_file_is_resolved_and_downloaded_whole() {
    let url = "https://host/clip.mp4";
    let rules = registered("https://inv.example".to_string());
    let (outcome, asked, notices, _) = resolve(&rules, url, 0, &|_| Some(String::new()));
    assert_eq!(notices, vec![Notice::Selected(0)]);
    assert_eq!(asked.len(), 1);
    assert_eq!(asked[0].url, url);
    assert_eq!(asked[0].via, Via::Probe);
    let (media, title) = match outcome {
        Outcome::Resolved(media, title) => (media, title),
        other => panic!("{:?}", other),
    };
    assert_eq!(title, "clip");
    assert_eq!(media.direct_url, "https://host/clip.mp4");
    assert_eq!(media.file_extension, "mp4");
    assert!(!media.is_segmented);
    let target = target_filename(&title, &media.file_extension, None);
    assert_eq!(target, "clip.mp4");
    // nothing is on disk yet: one request, whose whole body is the file
    let plan = download(&media.direct_url, &DownloadTarget::new(&target, None)).unwrap();
    assert_eq!(plan.first.url, "https://host/clip.mp4");
    assert!(plan.resume.is_none());
    let after = post_process(&target, &media.file_extension, media.is_segmented, false, "mp3", false).unwrap();
    assert_eq!(after.conversion, Conversion::Keep);
    assert_eq!(after.output, "clip.mp4");
}
