use yaydl::context::VIDEO;
use yaydl::definitions::SiteDefinition;
use yaydl::handlers::generic_videofile::GenericFileHandler;
use yaydl::handlers::porndoe::PornDoeHandler;
use yaydl::handlers::pr0gramm::Pr0grammHandler;
use yaydl::handlers::spankbang::{linux_filename, url_filename, windows_filename, SpankbangHandler, MAX_FILENAME_LENGTH};
use yaydl::handlers::vidoza::VidozaHandler;
use yaydl::handlers::vimeo::{pick_widest, VimeoHandler};
use yaydl::handlers::vivo::VivoHandler;
use yaydl::handlers::voe::{resolve_js_redirect, VoeHandler};
use yaydl::handlers::watchmdh::WatchMDHHandler;
use yaydl::handlers::xhamster::XHamsterHandler;
use yaydl::handlers::youtube::{get_invidious_instance, label_quality, YouTubeHandler, INVIDIOUS_INSTANCE};
use yaydl::handlers::zz_ktplayer::ZZKTPlayerHandler;
use yaydl::handlers::{first_attr, first_text, matches_pattern, registered, Site};
use yaydl::protocol::{Failure, Reply, Request, Step, Via};

fn done<T>(s: Step<T>) -> T {
    match s {
        Step::Done(t) => t,
        Step::Fetch(q) => panic!("asked for {}", q.url),
        Step::Failed(f) => panic!("failed with {:?}", f),
    }
}

fn asked<T>(s: Step<T>) -> Request {
    match s {
        Step::Fetch(q) => q,
        Step::Done(_) => panic!("was done"),
        Step::Failed(f) => panic!("failed with {:?}", f),
    }
}

fn failed<T>(s: Step<T>) -> Failure {
    match s {
        Step::Failed(f) => f,
        Step::Fetch(q) => panic!("asked for {}", q.url),
        Step::Done(_) => panic!("was done"),
    }
}

fn body(stage: u8, text: &str) -> Option<Reply> {
    Some(Reply { stage, body: Some(text.to_string()) })
}

fn lost(stage: u8) -> Option<Reply> {
    Some(Reply { stage, body: None })
}

fn with_document(doc: &str) -> VIDEO {
    let mut v = VIDEO::new();
    v.info = doc.to_string();
    v
}

const PAGE: &str = "<html><head><title>The Page</title><meta property=\"og:title\" content=\"Og Title\"><meta itemprop=\"contentUrl\" content=\"https://cdn/content.mp4\"></head><body><h1 class=\"-heading mt-1\">My <b>Clip</b></h1><div class=\"stream-content\" data-name=\"Stream Name\"></div><video src=\"//cdn/video.mp4\"><source src=\"https://cdn/first.mp4\" type=\"video/mp4\"><source src=\"https://cdn/second.mp4\" type=\"video/mp4\"></video></body></html>";

const PLAYLIST: &str = "#EXTM3U\n#EXT-X-VERSION:3\n#EXT-X-TARGETDURATION:10\n#EXTINF:10.0,\nseg1.ts\n#EXTINF:10.0,\nseg2.ts\n#EXTINF:10.0,\nseg3.ts\n#EXT-X-ENDLIST\n";

#[test]
fn new_context_is_empty() {
    let v = VIDEO::new();
    assert_eq!(v.info, "");
    assert_eq!(v.title, "");
    assert_eq!(v.mime, "");
    assert!(!v.has_document());
}

#[test]
fn ensure_document_fetches_only_when_absent() {
    let mut v = VIDEO::new();
    let q = asked(v.ensure_document(Request::get("https://a/", 0), None));
    assert_eq!(q.url, "https://a/");
    done(v.ensure_document(Request::get("https://a/", 0), body(0, "<p>doc</p>")));
    assert_eq!(v.info, "<p>doc</p>");
    assert!(v.has_document());
    // a later step neither asks again nor takes another body
    done(v.ensure_document(Request::get("https://b/", 0), None));
    done(v.ensure_document(Request::get("https://b/", 0), body(0, "other")));
    assert_eq!(v.info, "<p>doc</p>");
}

#[test]
fn ensure_document_reports_failures() {
    let mut v = VIDEO::new();
    assert_eq!(failed(v.ensure_document(Request::get("https://a/", 0), lost(0))), Failure::Transport);
    assert_eq!(failed(v.ensure_document(Request::get("https://a/", 0), body(3, "x"))), Failure::UnexpectedReply);
    assert_eq!(v.info, "");
}

#[test]
fn pattern_matching_goes_through_the_regex_engine() {
    assert!(matches_pattern("vid(oza|ezz).net/.+", "https://videzz.net/x"));
    assert!(!matches_pattern("vid(oza|ezz).net/.+", "vid(oza|ezz).net/.+"));
    assert!(!matches_pattern("(unclosed", "(unclosed"));
}

#[test]
fn first_attr_reads_the_first_match() {
    assert_eq!(first_attr(PAGE, "source", "src"), Ok("https://cdn/first.mp4".to_string()));
    assert_eq!(first_attr(PAGE, "audio", "src"), Err(Failure::MissingNode));
    assert_eq!(first_attr(PAGE, "source", "label"), Err(Failure::MissingNode));
    assert_eq!(first_attr(PAGE, "][", "src"), Err(Failure::MissingNode));
}

#[test]
fn first_text_reads_the_first_match() {
    assert_eq!(first_text(PAGE, "h1"), Some("My Clip".to_string()));
    assert_eq!(first_text(PAGE, "h2"), None);
}

#[test]
fn generic_handles_video_files() {
    let h = GenericFileHandler;
    assert!(done(h.can_handle_url("https://host/clip.mp4", 0, None)));
    assert!(done(h.can_handle_url("https://host/clip.mpg", 0, None)));
    assert!(!done(h.can_handle_url("https://host/clip.mp4?download", 0, None)));
    assert!(!done(h.can_handle_url("https://host/clip.webm", 0, None)));
    assert_eq!(h.display_name(), "(direct)");
    assert!(!h.web_driver_required());
    assert!(!h.is_playlist("https://host/clip.mp4", 0));
}

#[test]
fn generic_exists_when_the_get_succeeds() {
    let h = GenericFileHandler;
    let mut v = VIDEO::new();
    let q = asked(h.does_video_exist(&mut v, "https://host/clip.mp4", 0, None));
    assert_eq!(q.via, Via::Probe);
    assert_eq!(q.url, "https://host/clip.mp4");
    assert_eq!(q.stage, 0);
    assert!(done(h.does_video_exist(&mut v, "https://host/clip.mp4", 0, body(0, ""))));
    assert!(!done(h.does_video_exist(&mut v, "https://host/clip.mp4", 0, lost(0))));
    assert_eq!(failed(h.does_video_exist(&mut v, "https://host/clip.mp4", 0, body(5, ""))), Failure::UnexpectedReply);
    assert_eq!(failed(h.does_video_exist(&mut v, "clip.mp4", 0, None)), Failure::BadUrl);
    assert_eq!(v.info, "");
}

#[test]
fn generic_reads_everything_from_the_url() {
    let h = GenericFileHandler;
    let mut v = VIDEO::new();
    assert_eq!(done(h.find_video_title(&mut v, "https://host/dir/clip.mp4", 0, None)), "clip");
    assert_eq!(done(h.find_video_direct_url(&mut v, "https://host/dir/clip.mp4", 0, false, None)), "https://host/dir/clip.mp4");
    assert_eq!(done(h.find_video_file_extension(&mut v, "https://host/dir/clip.v2.mp4", 0, false, None)), "mp4");
    assert_eq!(done(h.find_video_file_extension(&mut v, "nodots", 0, false, None)), "nodots");
    assert_eq!(failed(h.find_video_title(&mut v, "..", 0, None)), Failure::BadUrl);
}

#[test]
fn vidoza_fetches_once() {
    let h = VidozaHandler;
    let url = "https://vidoza.net/abc.html";
    assert!(done(h.can_handle_url(url, 0, None)));
    assert!(done(h.can_handle_url("https://videzz.net/abc.html", 0, None)));
    assert!(!done(h.can_handle_url("https://vidoza.org/abc.html", 0, None)));
    let mut v = VIDEO::new();
    let mut fetches = 0;
    let mut reply = None;
    let exists = loop {
        match h.does_video_exist(&mut v, url, 0, reply.take()) {
            Step::Done(b) => break b,
            Step::Fetch(q) => {
                assert_eq!(q.url, url);
                assert_eq!(q.via, Via::Http);
                fetches += 1;
                reply = body(q.stage, PAGE);
            }
            Step::Failed(f) => panic!("{:?}", f),
        }
    };
    assert!(exists);
    assert_eq!(done(h.find_video_title(&mut v, url, 0, None)), "My Clip");
    assert_eq!(done(h.find_video_direct_url(&mut v, url, 0, false, None)), "https://cdn/first.mp4");
    assert_eq!(done(h.find_video_file_extension(&mut v, url, 0, false, None)), "mp4");
    assert_eq!(fetches, 1);
    assert_eq!(v.info, PAGE);
    assert_eq!(h.display_name(), "Vidoza");
}

#[test]
fn vidoza_falls_back_to_its_name() {
    let mut v = with_document("<html><body><p>nothing</p></body></html>");
    assert_eq!(done(VidozaHandler.find_video_title(&mut v, "https://vidoza.net/a", 0, None)), "Vidoza");
    assert_eq!(failed(VidozaHandler.find_video_direct_url(&mut v, "https://vidoza.net/a", 0, false, None)), Failure::MissingNode);
}

#[test]
fn vidoza_failures() {
    let h = VidozaHandler;
    let mut v = VIDEO::new();
    assert!(!done(h.does_video_exist(&mut v, "no url", 0, None)));
    assert_eq!(failed(h.does_video_exist(&mut v, "https://vidoza.net/a", 0, lost(0))), Failure::Transport);
    assert_eq!(failed(h.find_video_title(&mut v, "no url", 0, None)), Failure::BadUrl);
    // an empty page is no video, and is asked for again by the next step
    assert!(!done(h.does_video_exist(&mut v, "https://vidoza.net/a", 0, body(0, ""))));
    assert_eq!(asked(h.find_video_title(&mut v, "https://vidoza.net/a", 0, None)).url, "https://vidoza.net/a");
}

#[test]
fn porndoe_reads_through_the_web_driver() {
    let h = PornDoeHandler;
    let url = "https://porndoe.com/watch/x";
    assert!(done(h.can_handle_url(url, 0, None)));
    assert!(h.web_driver_required());
    let mut v = VIDEO::new();
    let q = asked(h.does_video_exist(&mut v, url, 4444, None));
    assert_eq!(q.via, Via::Browser);
    assert_eq!(q.port, 4444);
    assert_eq!(q.url, url);
    assert_eq!(q.script.as_deref(), Some("document.getElementsByClassName('age-btn')[0].click();"));
    assert!(done(h.does_video_exist(&mut v, url, 4444, body(0, PAGE))));
    assert_eq!(done(h.find_video_title(&mut v, url, 4444, None)), "My Clip");
    assert_eq!(done(h.find_video_direct_url(&mut v, url, 4444, false, None)), "https://cdn/content.mp4");
    assert_eq!(done(h.find_video_file_extension(&mut v, url, 4444, false, None)), "mp4");
    assert_eq!(h.display_name(), "PornDoe");
}

#[test]
fn porndoe_without_heading_fails() {
    let mut v = with_document("<html><body><h1>plain</h1></body></html>");
    assert_eq!(failed(PornDoeHandler.find_video_title(&mut v, "https://porndoe.com/x", 1, None)), Failure::MissingNode);
}

#[test]
fn pr0gramm_reads_the_static_page() {
    let h = Pr0grammHandler;
    let url = "https://pr0gramm.com/top/uploads/12345";
    assert!(done(h.can_handle_url(url, 0, None)));
    let mut v = VIDEO::new();
    let q = asked(h.does_video_exist(&mut v, url, 0, None));
    assert_eq!(q.url, "https://pr0gramm.com/static/12345");
    assert!(done(h.does_video_exist(&mut v, url, 0, body(0, PAGE))));
    assert_eq!(done(h.find_video_title(&mut v, url, 0, None)), "The Page");
    assert_eq!(done(h.find_video_direct_url(&mut v, url, 0, false, None)), "https://cdn/video.mp4");
    assert_eq!(h.display_name(), "pr0gramm");
}

#[test]
fn pr0gramm_is_lenient_about_existence() {
    let h = Pr0grammHandler;
    let mut v = VIDEO::new();
    assert!(!done(h.does_video_exist(&mut v, "https://pr0gramm.com/new/abc", 0, None)));
    assert!(!done(h.does_video_exist(&mut v, "https://pr0gramm.com/top/uploads/1", 0, lost(0))));
    assert_eq!(failed(h.find_video_title(&mut v, "https://pr0gramm.com/new/abc", 0, None)), Failure::BadUrl);
    let mut w = with_document("<html><body></body></html>");
    assert_eq!(done(h.find_video_title(&mut w, "https://pr0gramm.com/new/abc", 0, None)), "pr0gramm");
}

#[test]
fn linux_filename_replaces_invalid_characters() {
    assert_eq!(linux_filename("  a|b'c\"d:e\\f/g  ".to_string()), "a_b_c_d_e_f_g");
    assert_eq!(linux_filename("plain".to_string()), "plain");
    assert_eq!(linux_filename("a<b>".to_string()), "a<b>");
}

#[test]
fn windows_filename_replaces_invalid_characters() {
    assert_eq!(windows_filename(" a<b>c:d?e*f\ng+h ".to_string()), "a_b_c_d_e_f_g_h");
    assert_eq!(windows_filename("a|b".to_string()), "a|b");
}

#[test]
fn url_filename_is_description_dash_id() {
    assert_eq!(
        url_filename("https://spankbang.com/12345/video/description+for+this+video".to_string()),
        Ok("description_for_this_video-12345".to_string())
    );
}

#[test]
fn url_filename_cuts_long_descriptions() {
    let long = "x".repeat(MAX_FILENAME_LENGTH + 1);
    let exact = "y".repeat(MAX_FILENAME_LENGTH);
    assert_eq!(MAX_FILENAME_LENGTH, 142);
    assert_eq!(
        url_filename(format!("https://spankbang.com/7/video/{}", long)),
        Ok(format!("{}...-7", "x".repeat(142)))
    );
    assert_eq!(url_filename(format!("https://spankbang.com/7/video/{}", exact)), Ok(format!("{}-7", exact)));
}

#[test]
fn url_filename_rejects_other_shapes() {
    assert_eq!(url_filename("no url".to_string()), Err(Failure::BadUrl));
    assert_eq!(url_filename("https://spankbang.com/12345".to_string()), Err(Failure::BadUrl));
}

#[test]
fn spankbang_names_the_file_after_the_url() {
    let h = SpankbangHandler;
    let url = "https://spankbang.com/12345/video/some+title";
    assert!(done(h.can_handle_url(url, 0, None)));
    let mut v = VIDEO::new();
    assert_eq!(done(h.find_video_title(&mut v, url, 0, None)), "some_title-12345");
    assert_eq!(v.info, "");
    let doc = "<video><source src=\"https://cdn/a.webm\" type=\"video/webm\"><source src=\"https://cdn/a.mp4\" type=\"video/mp4\"></video>";
    assert_eq!(asked(h.find_video_direct_url(&mut v, url, 0, false, None)).url, url);
    assert_eq!(done(h.find_video_direct_url(&mut v, url, 0, false, body(0, doc))), "https://cdn/a.mp4");
    assert_eq!(h.display_name(), "Spankbang");
}

#[test]
fn widest_stream_wins() {
    let urls = vec![Some("u720".to_string()), Some("u1080".to_string()), Some("u480".to_string())];
    assert_eq!(pick_widest(&vec![Some(720), Some(1080), Some(480)], &urls), Ok("u1080".to_string()));
}

#[test]
fn earlier_stream_stays_on_a_tie() {
    let urls = vec![Some("a".to_string()), Some("b".to_string())];
    assert_eq!(pick_widest(&vec![Some(1080), Some(1080)], &urls), Ok("a".to_string()));
}

#[test]
fn widest_stream_edge_cases() {
    assert_eq!(pick_widest(&vec![], &vec![]), Err(Failure::NoStream));
    assert_eq!(pick_widest(&vec![None, Some(0)], &vec![Some("a".to_string()), None]), Err(Failure::NoStream));
    assert_eq!(pick_widest(&vec![Some(5)], &vec![None]), Err(Failure::MissingNode));
    assert_eq!(pick_widest(&vec![Some(5)], &vec![]), Err(Failure::MissingNode));
    // a stream without a URL does no harm where it is not taken
    assert_eq!(pick_widest(&vec![Some(9), Some(5)], &vec![Some("a".to_string()), None]), Ok("a".to_string()));
}

#[test]
fn vimeo_goes_through_page_and_configuration() {
    let h = VimeoHandler;
    let url = "https://vimeo.com/123456";
    assert!(done(h.can_handle_url(url, 0, None)));
    assert!(done(h.can_handle_url("https://www.vimeo.com/123456", 0, None)));
    let page = "<html><head><meta property=\"og:title\" content=\"My Title\"></head><script>window.vimeo.clip_page_config.player = {\"config_url\":\"https:\\/\\/player.vimeo.com\\/video\\/1\\/config\",\"x\":1}</script></html>";
    let config = "{\"request\":{\"files\":{\"progressive\":[{\"width\":720,\"url\":\"https://cdn/720.mp4\"},{\"width\":1080,\"url\":\"https://cdn/1080.mp4\"},{\"width\":480,\"url\":\"https://cdn/480.mp4\"}]}}}";
    let mut v = VIDEO::new();
    let q = asked(h.does_video_exist(&mut v, url, 0, None));
    assert_eq!((q.url.as_str(), q.stage), (url, 0));
    let q = asked(h.does_video_exist(&mut v, url, 0, body(0, page)));
    assert_eq!((q.url.as_str(), q.stage), ("https://player.vimeo.com/video/1/config", 1));
    assert_eq!(v.title, "My Title");
    assert_eq!(v.info, "");
    assert!(done(h.does_video_exist(&mut v, url, 0, body(1, config))));
    assert_eq!(v.info, config);
    assert_eq!(done(h.find_video_title(&mut v, url, 0, None)), "My Title");
    assert_eq!(done(h.find_video_direct_url(&mut v, url, 0, false, None)), "https://cdn/1080.mp4");
    assert_eq!(done(h.find_video_file_extension(&mut v, url, 0, false, None)), "mp4");
    assert_eq!(h.display_name(), "Vimeo");
}

#[test]
fn vimeo_failures() {
    let h = VimeoHandler;
    let url = "https://vimeo.com/123456";
    let mut v = VIDEO::new();
    assert_eq!(failed(h.does_video_exist(&mut v, url, 0, body(0, "<html>nothing</html>"))), Failure::MissingNode);
    assert_eq!(failed(h.does_video_exist(&mut v, url, 0, lost(0))), Failure::Transport);
    assert_eq!(failed(h.does_video_exist(&mut v, url, 0, body(2, "x"))), Failure::UnexpectedReply);
    assert_eq!(failed(h.find_video_direct_url(&mut v, "https://example.com/1", 0, false, None)), Failure::BadUrl);
    let mut w = with_document("this is no json");
    assert_eq!(failed(h.find_video_direct_url(&mut w, url, 0, false, None)), Failure::MissingNode);
    let mut x = with_document("{\"request\":{}}");
    assert_eq!(failed(h.find_video_direct_url(&mut x, url, 0, false, None)), Failure::MissingNode);
    let mut y = with_document("{\"request\":{\"files\":{\"progressive\":\"none\"}}}");
    assert_eq!(failed(h.find_video_direct_url(&mut y, url, 0, false, None)), Failure::MissingNode);
    let mut z = with_document("{\"request\":{\"files\":{\"progressive\":[]}}}");
    assert_eq!(failed(h.find_video_direct_url(&mut z, url, 0, false, None)), Failure::NoStream);
    let mut flat = with_document("{\"request\":{\"files\":{\"progressive\":[{\"url\":\"https://cdn/a.mp4\"}]}}}");
    assert_eq!(failed(h.find_video_direct_url(&mut flat, url, 0, false, None)), Failure::NoStream);
}

#[test]
fn vivo_decodes_the_source() {
    let h = VivoHandler;
    let url = "https://vivo.sx/abc";
    assert!(done(h.can_handle_url(url, 0, None)));
    let doc = format!("{}<script>source: 'w6%3D%3D@',\n</script>", PAGE);
    let mut v = VIDEO::new();
    assert!(done(h.does_video_exist(&mut v, url, 0, body(0, &doc))));
    assert_eq!(done(h.find_video_title(&mut v, url, 0, None)), "Stream Name");
    assert_eq!(done(h.find_video_direct_url(&mut v, url, 0, false, None)), "Hello");
    assert_eq!(h.display_name(), "VIVO");
}

#[test]
fn vivo_failures() {
    let h = VivoHandler;
    let mut v = VIDEO::new();
    assert_eq!(failed(h.find_video_direct_url(&mut v, "https://vivo.sx/abc", 0, false, None)), Failure::MissingNode);
    let mut w = with_document("source: '%ff',");
    assert_eq!(failed(h.find_video_direct_url(&mut w, "https://vivo.sx/abc", 0, false, None)), Failure::MissingNode);
    assert!(!done(h.does_video_exist(&mut v, "https://vivo.sx/abc", 0, lost(0))));
}

#[test]
fn redirect_is_read_from_the_script() {
    assert_eq!(
        resolve_js_redirect("https://a/x", "<script>window.location.href = 'https://voe.sx/e/abc';</script>"),
        "https://voe.sx/e/abc"
    );
    assert_eq!(resolve_js_redirect("https://a/x", "<html>no redirect</html>"), "https://a/x");
    assert_eq!(resolve_js_redirect("https://a/x", "window.location.href = ''"), "");
}

#[test]
fn voe_probes_behind_the_redirect() {
    let h = VoeHandler;
    let url = "https://redirector.example/e/abc";
    let q = asked(h.can_handle_url(url, 0, None));
    assert_eq!((q.url.as_str(), q.stage, q.via), (url, 0, Via::Http));
    let q = asked(h.can_handle_url(url, 0, body(0, "window.location.href = 'https://voe.sx/e/abc'")));
    assert_eq!((q.url.as_str(), q.stage), ("https://voe.sx/e/abc", 1));
    let q = asked(h.can_handle_url(url, 0, body(0, "plain page")));
    assert_eq!((q.url.as_str(), q.stage), (url, 1));
    assert!(done(h.can_handle_url(url, 0, body(1, "<div class=\"VOEPlayer\"></div>"))));
    assert!(!done(h.can_handle_url(url, 0, body(1, "<div></div>"))));
    assert_eq!(failed(h.can_handle_url(url, 0, lost(0))), Failure::Transport);
    assert_eq!(failed(h.can_handle_url(url, 0, body(2, "x"))), Failure::UnexpectedReply);
    assert_eq!(failed(h.can_handle_url("no url", 0, None)), Failure::BadUrl);
}

#[test]
fn voe_reads_the_playlist_url() {
    let h = VoeHandler;
    let url = "https://voe.sx/e/abc";
    let doc = "<html><body><h1 class=\"mt-1\">Voe Clip</h1><script>var sources = [\"Node\", \"https://cdn/master.m3u8\"];</script></body></html>";
    let mut v = VIDEO::new();
    assert!(done(h.does_video_exist(&mut v, url, 0, body(0, doc))));
    assert_eq!(done(h.find_video_title(&mut v, url, 0, None)), "Voe Clip");
    assert_eq!(done(h.find_video_direct_url(&mut v, url, 0, false, None)), "https://cdn/master.m3u8");
    assert!(h.is_playlist(url, 0));
    assert_eq!(done(h.find_video_file_extension(&mut v, url, 0, false, None)), "mp4");
    assert_eq!(h.display_name(), "Voe");
    let mut w = with_document("<html><body><h1>other</h1></body></html>");
    assert_eq!(done(h.find_video_title(&mut w, url, 0, None)), "VOE");
    assert_eq!(failed(h.find_video_direct_url(&mut w, url, 0, false, None)), Failure::MissingNode);
}

#[test]
fn watchmdh_reads_through_the_web_driver() {
    let h = WatchMDHHandler;
    let url = "https://watchmdh.to/video/x";
    assert!(done(h.can_handle_url(url, 0, None)));
    assert!(done(h.can_handle_url("https://watchdirty.to/video/x", 0, None)));
    assert!(h.web_driver_required());
    let mut v = VIDEO::new();
    let q = asked(h.does_video_exist(&mut v, url, 9515, None));
    assert_eq!((q.via, q.port, q.script.clone()), (Via::Browser, 9515, None));
    assert!(done(h.does_video_exist(&mut v, url, 9515, body(0, PAGE))));
    assert_eq!(done(h.find_video_title(&mut v, url, 9515, None)), "Og Title");
    assert_eq!(done(h.find_video_direct_url(&mut v, url, 9515, false, None)), "//cdn/video.mp4");
    assert_eq!(failed(h.does_video_exist(&mut VIDEO::new(), url, 9515, lost(0))), Failure::Transport);
    assert_eq!(h.display_name(), "WatchMDH");
}

#[test]
fn xhamster_asks_the_page_who_it_is() {
    let h = XHamsterHandler;
    let url = "https://somewhere.example/videos/x";
    assert_eq!(asked(h.can_handle_url(url, 0, None)).url, url);
    assert!(done(h.can_handle_url(url, 0, body(0, "<html><head><meta name=\"application-name\" content=\"xHamster\"></head></html>"))));
    assert!(!done(h.can_handle_url(url, 0, body(0, "<html><head><meta name=\"application-name\" content=\"Other\"></head></html>"))));
    assert!(!done(h.can_handle_url(url, 0, body(0, PAGE))));
    assert_eq!(failed(h.can_handle_url(url, 0, body(0, "<meta name=\"application-name\">"))), Failure::MissingNode);
    assert_eq!(failed(h.can_handle_url(url, 0, lost(0))), Failure::Transport);
    assert_eq!(failed(h.can_handle_url("no url", 0, None)), Failure::BadUrl);
}

#[test]
fn xhamster_follows_the_playlist() {
    let h = XHamsterHandler;
    let url = "https://xhamster.example/videos/x";
    let doc = "<html><head><link rel=\"preload\" as=\"fetch\" href=\"https://cdn.x/key/master.m3u8\"></head><body><h1>Ham Clip</h1></body></html>";
    let mut v = VIDEO::new();
    assert_eq!(asked(h.find_video_direct_url(&mut v, url, 0, false, None)).url, url);
    let q = asked(h.find_video_direct_url(&mut v, url, 0, false, body(0, doc)));
    assert_eq!((q.url.as_str(), q.stage), ("https://cdn.x/key/master.m3u8", 1));
    assert_eq!(v.info, doc);
    let q = asked(h.find_video_direct_url(&mut v, url, 0, false, None));
    assert_eq!((q.url.as_str(), q.stage), ("https://cdn.x/key/master.m3u8", 1));
    assert_eq!(done(h.find_video_direct_url(&mut v, url, 0, false, body(1, PLAYLIST))), "https://cdn.x/key/seg3.ts");
    assert_eq!(done(h.find_video_title(&mut v, url, 0, None)), "Ham Clip");
    assert_eq!(done(h.find_video_file_extension(&mut v, url, 0, false, None)), "ts");
    assert!(h.is_playlist(url, 0));
    assert_eq!(h.display_name(), "xHamster");
}

#[test]
fn xhamster_failures() {
    let h = XHamsterHandler;
    let url = "https://xhamster.example/videos/x";
    let doc = "<html><head><link rel=\"preload\" as=\"fetch\" href=\"https://cdn.x/key/master.m3u8\"></head></html>";
    let mut v = with_document(doc);
    assert_eq!(failed(h.find_video_direct_url(&mut v, url, 0, false, lost(1))), Failure::Transport);
    assert_eq!(failed(h.find_video_direct_url(&mut v, url, 0, false, body(1, "no playlist"))), Failure::Transport);
    assert_eq!(failed(h.find_video_direct_url(&mut v, url, 0, false, body(1, "#EXTM3U\n#EXT-X-ENDLIST\n"))), Failure::NoStream);
    assert_eq!(failed(h.find_video_title(&mut v, url, 0, None)), Failure::MissingNode);
    let mut w = with_document("<html><head><link rel=\"preload\" as=\"fetch\" href=\"relative.m3u8\"></head></html>");
    assert_eq!(failed(h.find_video_direct_url(&mut w, url, 0, false, None)), Failure::BadUrl);
    let mut x = with_document(PAGE);
    assert_eq!(failed(h.find_video_direct_url(&mut x, url, 0, false, None)), Failure::MissingNode);
}

#[test]
fn invidious_instance_defaults() {
    assert_eq!(INVIDIOUS_INSTANCE, "https://invidious.privacyredirect.com");
    assert_eq!(get_invidious_instance(None), "https://invidious.privacyredirect.com");
    assert_eq!(get_invidious_instance(Some("https://inv.example".to_string())), "https://inv.example");
}

#[test]
fn youtube_reads_the_watch_page_of_the_instance() {
    let h = YouTubeHandler { instance: "https://inv.example".to_string() };
    assert!(done(h.can_handle_url("https://www.youtube.com/watch?v=abc123", 0, None)));
    assert!(done(h.can_handle_url("https://youtu.be/abc123", 0, None)));
    assert!(done(h.can_handle_url("https://invidious.example/watch?v=abc123", 0, None)));
    assert!(!done(h.can_handle_url("https://example.com/watch?v=abc123", 0, None)));
    let mut v = VIDEO::new();
    assert_eq!(asked(h.does_video_exist(&mut v, "https://www.youtube.com/watch?v=abc123&t=5", 0, None)).url, "https://inv.example/watch?v=abc123");
    assert_eq!(asked(h.does_video_exist(&mut v, "https://youtu.be/xyz", 0, None)).url, "https://inv.example/watch?v=xyz");
    assert_eq!(asked(h.does_video_exist(&mut v, "https://www.youtube.com/shorts/s1", 0, None)).url, "https://inv.example/watch?v=s1");
    assert!(!done(h.does_video_exist(&mut v, "https://www.youtube.com/", 0, None)));
    assert!(!done(h.does_video_exist(&mut v, "https://youtu.be/xyz", 0, lost(0))));
    assert_eq!(h.display_name(), "Invidious");
}

#[test]
fn youtube_takes_the_stream_of_the_highest_quality() {
    let h = YouTubeHandler { instance: get_invidious_instance(None) };
    let mut v = with_document("<video><source src='/a' type='video/mp4' label='720p'><source src='/b' type='video/webm' label='1080p'><source src='/c' type='video/mp4' label='480p'></video>");
    assert_eq!(
        done(h.find_video_direct_url(&mut v, "https://youtu.be/x", 0, false, None)),
        "https://invidious.privacyredirect.com/b"
    );
    assert_eq!(v.mime, "video/webm");
    assert_eq!(done(h.find_video_file_extension(&mut v, "https://youtu.be/x", 0, false, None)), "webm");
}

#[test]
fn youtube_keeps_the_earlier_stream_on_a_tie() {
    let h = YouTubeHandler { instance: "https://inv.example".to_string() };
    let mut v = with_document("<video><source src='/a' type='video/mp4' label='hd720'><source src='/b' type='video/webm' label='720p'></video>");
    assert_eq!(done(h.find_video_direct_url(&mut v, "https://youtu.be/x", 0, false, None)), "https://inv.example/a");
    assert_eq!(v.mime, "video/mp4");
}

#[test]
fn youtube_never_goes_back_to_a_lower_quality() {
    let h = YouTubeHandler { instance: "https://inv.example".to_string() };
    let url = "https://youtu.be/xyz";
    let doc = "<html><head><meta property=\"og:title\" content=\"Tube Title\"></head><body><video><source src=\"/v?itag=22\" type='video/mp4; codecs=\"avc1.64001F, mp4a.40.2\"' label=\"hd720\"><source src=\"/v?itag=18\" type=\"video/webm\" label=\"medium\"><source src=\"/v?itag=17\" type=\"video/3gpp\" label=\"small\"></video></body></html>";
    let mut v = VIDEO::new();
    assert!(done(h.does_video_exist(&mut v, url, 0, body(0, doc))));
    assert_eq!(done(h.find_video_title(&mut v, url, 0, None)), "Tube Title");
    assert_eq!(done(h.find_video_direct_url(&mut v, url, 0, false, None)), "https://inv.example/v?itag=22");
    assert_eq!(v.mime, "video/mp4");
    assert_eq!(done(h.find_video_file_extension(&mut v, url, 0, false, None)), "mp4");
}

#[test]
fn youtube_takes_the_first_stream_where_no_label_tells() {
    let h = YouTubeHandler { instance: "https://inv.example".to_string() };
    let mut v = with_document("<video><source src='/m' type='video/webm' label='medium'><source src='/s' type='video/mp4' label='small'></video>");
    assert_eq!(done(h.find_video_direct_url(&mut v, "https://youtu.be/x", 0, false, None)), "https://inv.example/m");
    let mut unlabelled = with_document("<video><source src=\"/a\" type=\"video/mp4\"></video>");
    assert_eq!(done(h.find_video_direct_url(&mut unlabelled, "https://youtu.be/x", 0, false, None)), "https://inv.example/a");
}

#[test]
fn quality_is_the_first_number_in_the_label() {
    assert_eq!(label_quality("hd720"), 720);
    assert_eq!(label_quality("1080p"), 1080);
    assert_eq!(label_quality("1080p60"), 1080);
    assert_eq!(label_quality("medium"), 0);
    assert_eq!(label_quality(""), 0);
    assert_eq!(label_quality("q007"), 7);
    assert_eq!(label_quality("18446744073709551615"), u64::MAX);
    assert_eq!(label_quality("18446744073709551616"), u64::MAX);
    assert_eq!(label_quality("99999999999999999999999p"), u64::MAX);
}

#[test]
fn youtube_cuts_the_codecs_off_the_type() {
    let h = YouTubeHandler { instance: "https://inv.example".to_string() };
    let doc = "<video><source src=\"/v?itag=22\" type='video/mp4; codecs=\"avc1\"' label=\"hd720\"></video>";
    let mut v = with_document(doc);
    assert_eq!(done(h.find_video_direct_url(&mut v, "https://youtu.be/xyz", 0, false, None)), "https://inv.example/v?itag=22");
    assert_eq!(v.mime, "video/mp4");
    assert_eq!(done(h.find_video_file_extension(&mut v, "https://youtu.be/xyz", 0, false, None)), "mp4");
}

#[test]
fn youtube_extension_follows_the_type() {
    let h = YouTubeHandler { instance: String::new() };
    let mut v = VIDEO::new();
    assert_eq!(done(h.find_video_file_extension(&mut v, "u", 0, false, None)), "mp4");
    v.mime = "audio/mp4".to_string();
    assert_eq!(done(h.find_video_file_extension(&mut v, "u", 0, false, None)), "m4a");
    v.mime = "audio/webm".to_string();
    assert_eq!(done(h.find_video_file_extension(&mut v, "u", 0, false, None)), "webm");
}

#[test]
fn youtube_failures() {
    let h = YouTubeHandler { instance: "https://inv.example".to_string() };
    let url = "https://youtu.be/xyz";
    let mut none = with_document("<html><body>no video</body></html>");
    assert_eq!(failed(h.find_video_direct_url(&mut none, url, 0, false, None)), Failure::NoStream);
    // a stream that is passed over may lack its type
    let mut passed = with_document("<video><source src=\"/a\" type=\"video/mp4\" label=\"hd720\"><source src=\"/b\" label=\"small\"></video>");
    assert_eq!(done(h.find_video_direct_url(&mut passed, url, 0, false, None)), "https://inv.example/a");
    let mut sourceless = with_document("<video><source type=\"video/mp4\" label=\"hd720\"></video>");
    assert_eq!(failed(h.find_video_direct_url(&mut sourceless, url, 0, false, None)), Failure::MissingNode);
    let mut untyped = with_document("<video><source src=\"/a\" label=\"hd720\"></video>");
    assert_eq!(failed(h.find_video_direct_url(&mut untyped, url, 0, false, None)), Failure::MissingNode);
    assert_eq!(untyped.mime, "");
    assert_eq!(failed(h.find_video_title(&mut none, url, 0, None)), Failure::MissingNode);
}

#[test]
fn ktplayer_follows_the_iframe() {
    let h = ZZKTPlayerHandler;
    let url = "https://site.example/video/1";
    assert!(h.web_driver_required());
    let mut v = VIDEO::new();
    let q = asked(h.does_video_exist(&mut v, url, 4444, None));
    assert_eq!((q.via, q.url.as_str(), q.port, q.stage), (Via::Browser, url, 4444, 0));
    let q = asked(h.does_video_exist(&mut v, url, 4444, body(0, "<html><body><iframe src=\"https://embed.example/1\"></iframe></body></html>")));
    assert_eq!((q.via, q.url.as_str(), q.port, q.stage), (Via::Browser, "https://embed.example/1", 4444, 1));
    assert_eq!(v.info, "");
    assert!(done(h.does_video_exist(&mut v, url, 4444, body(1, PAGE))));
    assert_eq!(v.info, PAGE);
    assert_eq!(done(h.find_video_title(&mut v, url, 4444, None)), "Og Title");
    assert_eq!(done(h.find_video_direct_url(&mut v, url, 4444, false, None)), "//cdn/video.mp4");
    assert_eq!(h.display_name(), "Generic KT player");
}

#[test]
fn ktplayer_without_iframe_keeps_the_page() {
    let h = ZZKTPlayerHandler;
    let mut v = VIDEO::new();
    assert!(done(h.does_video_exist(&mut v, "https://site.example/video/1", 4444, body(0, PAGE))));
    assert_eq!(v.info, PAGE);
    let mut w = VIDEO::new();
    assert_eq!(failed(h.does_video_exist(&mut w, "https://site.example/video/1", 4444, body(0, "<iframe></iframe>"))), Failure::MissingNode);
    assert_eq!(failed(h.does_video_exist(&mut w, "https://site.example/video/1", 4444, lost(0))), Failure::Transport);
    assert_eq!(failed(h.does_video_exist(&mut w, "https://site.example/video/1", 4444, body(7, "x"))), Failure::UnexpectedReply);
}

#[test]
fn ktplayer_looks_for_the_player() {
    let h = ZZKTPlayerHandler;
    let url = "https://site.example/video/1";
    assert_eq!(asked(h.can_handle_url(url, 4444, None)).via, Via::Browser);
    assert!(done(h.can_handle_url(url, 4444, body(0, "<html><body><div id=\"kt_player\"></div></body></html>"))));
    assert!(!done(h.can_handle_url(url, 4444, body(0, PAGE))));
    assert_eq!(failed(h.can_handle_url(url, 0, lost(0))), Failure::Transport);
}

#[test]
fn registry_keeps_registration_order() {
    let names: Vec<String> = registered("https://inv.example".to_string()).iter().map(|s| s.display_name()).collect();
    assert_eq!(
        names,
        vec![
            "(direct)",
            "PornDoe",
            "pr0gramm",
            "Spankbang",
            "Vidoza",
            "Vimeo",
            "VIVO",
            "Voe",
            "WatchMDH",
            "xHamster",
            "Invidious",
            "Generic KT player"
        ]
    );
}

#[test]
fn registry_passes_the_instance_on() {
    let rules = registered("https://inv.example".to_string());
    match &rules[10] {
        Site::YouTube(h) => assert_eq!(h.instance, "https://inv.example"),
        _ => panic!("not the YouTube rule"),
    }
    let gated: Vec<bool> = rules.iter().map(|s| s.web_driver_required()).collect();
    assert_eq!(gated, vec![false, true, false, false, false, false, false, false, true, false, false, true]);
}
