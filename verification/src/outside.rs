//! The calls this library makes into other crates.
//!
//! Each function here is believed, not proved: its body makes the call and
//! its contract says what the library relies on. Where the result of a call
//! is too intricate to write down, it is given a name, and the contract says
//! that the call returns what the name stands for.

use vstd::prelude::*;
use crate::protocol::opt_text;

verus! {

/// The views of a list of strings.
pub open spec fn texts(v: Seq<String>) -> Seq<Seq<char>> {
    v.map_values(|s: String| s@)
}

/// The views of a list of optional strings.
pub open spec fn opt_texts(v: Seq<Option<String>>) -> Seq<Option<Seq<char>>> {
    v.map_values(|s: Option<String>| opt_text(s))
}

/// The serialization that the `url` crate gives the URL written as `s`;
/// `None` where `s` does not parse as a URL.
pub uninterp spec fn url_normalized(s: Seq<char>) -> Option<Seq<char>>;

/// `url::Url::parse` followed by `Url::as_str`: parses `s` and hands back
/// the parsed URL's serialization, or `None` where parsing fails.
#[verifier::external_body]
pub(crate) fn normalize_url(s: &str) -> (r: Option<String>)
    ensures
        opt_text(r) == url_normalized(s@),
{
    url::Url::parse(s).ok().map(|u| u.as_str().to_string())
}

/// The path component of the URL written as `s`; `None` where `s` does
/// not parse as a URL.
pub uninterp spec fn url_path(s: Seq<char>) -> Option<Seq<char>>;

/// `url::Url::parse` followed by `Url::path`: the path of the parsed URL,
/// or `None` where parsing fails.
#[verifier::external_body]
pub(crate) fn path_of_url(s: &str) -> (r: Option<String>)
    ensures
        opt_text(r) == url_path(s@),
{
    url::Url::parse(s).ok().map(|u| u.path().to_string())
}

/// The URL written as `base` with its last path segment replaced by
/// `segment`; `None` where `base` does not parse or cannot be a base.
pub uninterp spec fn url_with_last_segment(base: Seq<char>, segment: Seq<char>) -> Option<Seq<char>>;

/// `url::Url::parse`, then `Url::path_segments_mut` with `pop` and `push`:
/// drops the last path segment of `base` and appends `segment` in its place.
/// `None` where `base` does not parse or has no path segments to edit.
#[verifier::external_body]
pub(crate) fn replace_last_segment(base: &str, segment: &str) -> (r: Option<String>)
    ensures
        opt_text(r) == url_with_last_segment(base@, segment@),
{
    let mut u = url::Url::parse(base).ok()?;
    u.path_segments_mut().ok()?.pop().push(segment);
    Some(u.as_str().to_string())
}

/// Whether the regular expression `pattern` matches somewhere in `text`;
/// `None` where `pattern` is not a valid expression.
pub uninterp spec fn regex_match(pattern: Seq<char>, text: Seq<char>) -> Option<bool>;

/// `regex::Regex::new` followed by `Regex::is_match`.
#[verifier::external_body]
pub(crate) fn is_match(pattern: &str, text: &str) -> (r: Option<bool>)
    ensures
        r == regex_match(pattern@, text@),
{
    regex::Regex::new(pattern).ok().map(|re| re.is_match(text))
}

/// What capture group number `group` holds in the leftmost match of
/// `pattern` in `text`. The outer `None`: no match, or an invalid
/// pattern. The inner `None`: the group took no part in the match.
pub uninterp spec fn regex_group(pattern: Seq<char>, text: Seq<char>, group: usize) -> Option<Option<Seq<char>>>;

/// `regex::Regex::new`, `Regex::captures` and `Captures::get`.
#[verifier::external_body]
pub(crate) fn capture_group(pattern: &str, text: &str, group: usize) -> (r: Option<Option<String>>)
    ensures
        match r {
            Some(g) => regex_group(pattern@, text@, group) == Some(opt_text(g)),
            None => regex_group(pattern@, text@, group) is None,
        },
{
    let re = regex::Regex::new(pattern).ok()?;
    re.captures(text).map(|c| c.get(group).map(|m| m.as_str().to_string()))
}

/// What the capture group called `name` holds in the leftmost match of
/// `pattern` in `text`. The outer `None`: no match, or an invalid
/// pattern. The inner `None`: no such group, or it took no part.
pub uninterp spec fn regex_named_group(pattern: Seq<char>, text: Seq<char>, name: Seq<char>) -> Option<Option<Seq<char>>>;

/// `regex::Regex::new`, `Regex::captures` and `Captures::name`.
#[verifier::external_body]
pub(crate) fn capture_named(pattern: &str, text: &str, name: &str) -> (r: Option<Option<String>>)
    ensures
        match r {
            Some(g) => regex_named_group(pattern@, text@, name@) == Some(opt_text(g)),
            None => regex_named_group(pattern@, text@, name@) is None,
        },
{
    let re = regex::Regex::new(pattern).ok()?;
    re.captures(text).map(|c| c.name(name).map(|m| m.as_str().to_string()))
}

/// For each element of the HTML document `doc` that the CSS selector
/// `selector` matches, in the order in which the parser made them, the
/// value of its attribute `attr` if it has one. `None` where `selector`
/// is not a valid selector.
pub uninterp spec fn html_attr_values(doc: Seq<char>, selector: Seq<char>, attr: Seq<char>) -> Option<Seq<Option<Seq<char>>>>;

/// `scraper::Selector::parse`, `Html::parse_document`, `Html::select` and,
/// on each element found, `Element::attr`.
#[verifier::external_body]
pub(crate) fn select_attr(doc: &str, selector: &str, attr: &str) -> (r: Option<Vec<Option<String>>>)
    ensures
        match r {
            Some(v) => html_attr_values(doc@, selector@, attr@) == Some(opt_texts(v@)),
            None => html_attr_values(doc@, selector@, attr@) is None,
        },
{
    let sel = scraper::Selector::parse(selector).ok()?;
    let html = scraper::Html::parse_document(doc);
    Some(html.select(&sel).map(|e| e.value().attr(attr).map(|v| v.to_string())).collect())
}

/// For each element of the HTML document `doc` that the CSS selector
/// `selector` matches, in the order in which the parser made them, the
/// concatenated text of its descendants. `None` where `selector` is not
/// a valid selector.
pub uninterp spec fn html_texts(doc: Seq<char>, selector: Seq<char>) -> Option<Seq<Seq<char>>>;

/// `scraper::Selector::parse`, `Html::parse_document`, `Html::select` and,
/// on each element found, `ElementRef::text` collected into one string.
#[verifier::external_body]
pub(crate) fn select_text(doc: &str, selector: &str) -> (r: Option<Vec<String>>)
    ensures
        match r {
            Some(v) => html_texts(doc@, selector@) == Some(texts(v@)),
            None => html_texts(doc@, selector@) is None,
        },
{
    let sel = scraper::Selector::parse(selector).ok()?;
    let html = scraper::Html::parse_document(doc);
    Some(html.select(&sel).map(|e| e.text().collect::<String>()).collect())
}

/// The segment URIs of the media playlist written as `text`, in playlist
/// order; `None` where `text` is not a media playlist.
pub uninterp spec fn playlist_uris(text: Seq<char>) -> Option<Seq<Seq<char>>>;

/// `m3u8_rs::parse_media_playlist` on the bytes of `text`, finished with
/// `nom::Finish::finish`; of each parsed segment the `uri` field.
#[verifier::external_body]
pub(crate) fn media_playlist_uris(text: &str) -> (r: Option<Vec<String>>)
    ensures
        match r {
            Some(v) => playlist_uris(text@) == Some(texts(v@)),
            None => playlist_uris(text@) is None,
        },
{
    let parsed = nom::Finish::finish(m3u8_rs::parse_media_playlist(text.as_bytes())).ok()?;
    Some(parsed.1.segments.iter().map(|s| s.uri.clone()).collect())
}

/// In the JSON document `json`, the array found by following the object
/// keys `path` from the root, and of each of its elements the member
/// `field` as an unsigned number, if it is one. The outer `None`: `json`
/// is not valid JSON. The inner `None`: no array is found there.
pub uninterp spec fn json_numbers(json: Seq<char>, path: Seq<Seq<char>>, field: Seq<char>) -> Option<Option<Seq<Option<u64>>>>;

/// `serde_json::from_str`, indexing of `Value` by key along `path`,
/// `Value::as_array` and, on each element's `field`, `Value::as_u64`.
#[verifier::external_body]
pub(crate) fn json_array_numbers(json: &str, path: &Vec<String>, field: &str) -> (r: Option<Option<Vec<Option<u64>>>>)
    ensures
        match r {
            Some(Some(v)) => json_numbers(json@, texts(path@), field@) == Some(Some(v@)),
            Some(None) => json_numbers(json@, texts(path@), field@) == Some(None::<Seq<Option<u64>>>),
            None => json_numbers(json@, texts(path@), field@) is None,
        },
{
    let v: serde_json::Value = serde_json::from_str(json).ok()?;
    let node = path.iter().fold(&v, |n, k| &n[k.as_str()]);
    Some(node.as_array().map(|a| a.iter().map(|e| e[field].as_u64()).collect()))
}

/// As [`json_numbers`], with the member `field` of each element as a
/// string, if it is one.
pub uninterp spec fn json_strings(json: Seq<char>, path: Seq<Seq<char>>, field: Seq<char>) -> Option<Option<Seq<Option<Seq<char>>>>>;

/// `serde_json::from_str`, indexing of `Value` by key along `path`,
/// `Value::as_array` and, on each element's `field`, `Value::as_str`.
#[verifier::external_body]
pub(crate) fn json_array_strings(json: &str, path: &Vec<String>, field: &str) -> (r: Option<Option<Vec<Option<String>>>>)
    ensures
        match r {
            Some(Some(v)) => json_strings(json@, texts(path@), field@) == Some(Some(opt_texts(v@))),
            Some(None) => json_strings(json@, texts(path@), field@) == Some(None::<Seq<Option<Seq<char>>>>),
            None => json_strings(json@, texts(path@), field@) is None,
        },
{
    let v: serde_json::Value = serde_json::from_str(json).ok()?;
    let node = path.iter().fold(&v, |n, k| &n[k.as_str()]);
    Some(node.as_array().map(|a| a.iter().map(|e| e[field].as_str().map(|s| s.to_string())).collect()))
}

/// `s` with its percent escapes decoded and the bytes read as UTF-8;
/// `None` where they are not valid UTF-8.
pub uninterp spec fn percent_decoded(s: Seq<char>) -> Option<Seq<char>>;

/// `urlencoding::decode`.
#[verifier::external_body]
pub(crate) fn percent_decode(s: &str) -> (r: Option<String>)
    ensures
        opt_text(r) == percent_decoded(s@),
{
    urlencoding::decode(s).ok().map(|c| c.into_owned())
}

/// ROT47 of one character: the 94 printable ASCII characters from `!` to
/// `~` are rotated by 47 places; every other character stays.
pub open spec fn rot47_char(c: char) -> char {
    if '!' <= c && c <= 'O' {
        ((c as u8) + 47) as char
    } else if 'P' <= c && c <= '~' {
        ((c as u8) - 47) as char
    } else {
        c
    }
}

/// `cienli::ciphers::rot::Rot::new` with `RotType::Rot47`, then
/// `Rot::decipher`: every character of `s` goes through ROT47.
#[verifier::external_body]
pub(crate) fn rot47(s: &str) -> (r: String)
    ensures
        r@ == s@.map_values(|c: char| rot47_char(c)),
{
    cienli::ciphers::rot::Rot::new(s, cienli::ciphers::rot::RotType::Rot47).decipher()
}

/// The file stem of `path` read as a file system path: its last
/// component without the extension. `None` where there is none.
pub uninterp spec fn file_stem(path: Seq<char>) -> Option<Seq<char>>;

/// `std::path::Path::file_stem`, converted to a string.
#[verifier::external_body]
pub(crate) fn path_file_stem(path: &str) -> (r: Option<String>)
    ensures
        opt_text(r) == file_stem(path@),
{
    std::path::Path::new(path).file_stem().map(|s| s.to_string_lossy().into_owned())
}

/// `path`, read as a file system path, with `extension` as the
/// extension of its last component, in place of the one it has, if any.
pub uninterp spec fn path_with_extension(path: Seq<char>, extension: Seq<char>) -> Seq<char>;

/// `std::path::PathBuf::set_extension` on the path `path`, converted
/// back to a string. The extension must hold no path separator.
#[verifier::external_body]
pub(crate) fn with_extension(path: &str, extension: &str) -> (r: String)
    requires
        !extension@.contains('/'),
        !extension@.contains('\\'),
    ensures
        r@ == path_with_extension(path@, extension@),
{
    let mut buf = std::path::PathBuf::from(path);
    buf.set_extension(extension);
    buf.into_os_string().into_string().unwrap_or_else(|_| path.to_string())
}

} // verus!
