//! Reading what the media downloader reported about the track it fetched.

use vstd::prelude::*;
use vstd::string::StringExecFns;

verus! {

/// The text stored under `key` in the JSON object that `doc` encodes; none
/// where `doc` is no JSON, or no object, or holds no text under `key`.
pub uninterp spec fn json_text(doc: Seq<u8>, key: Seq<char>) -> Option<Seq<char>>;

/// Relies on serde_json::from_slice (parse `doc` as one JSON value),
/// Value::get (the member `key` of an object) and Value::as_str (its text):
/// a result that depends on `doc` and `key` alone.
#[verifier::external_body]
fn text_field(doc: &[u8], key: &str) -> (r: Option<String>)
    ensures
        r matches Some(t) ==> json_text(doc@, key@) == Some(t@),
        r is None ==> json_text(doc@, key@) is None,
{
    match serde_json::from_slice::<serde_json::Value>(doc) {
        Ok(v) => v.get(key).and_then(|f| f.as_str()).map(|t| t.to_string()),
        Err(_) => None,
    }
}

/// A fetched track: its title, the page it came from, and the local file.
#[derive(Debug)]
pub struct Track {
    pub title: String,
    pub webpage_url: String,
    pub filename: String,
}

/// The title, page and file that the downloader's description `doc` gives,
/// when it gives all three.
pub open spec fn track_of(doc: Seq<u8>) -> Option<(Seq<char>, Seq<char>, Seq<char>)> {
    match (json_text(doc, "title"@), json_text(doc, "webpage_url"@), json_text(doc, "_filename"@)) {
        (Some(t), Some(u), Some(f)) => Some((t, u, f)),
        _ => None,
    }
}

/// The text reported when the downloader's description cannot be read.
pub open spec fn unreadable_text() -> Seq<char> {
    "the downloader's output could not be read"@
}

/// What a download came to: the track, or the text of the failure. A failed
/// run reports what it wrote to its error stream.
pub open spec fn media_outcome(success: bool, out: Seq<u8>, err: Seq<char>) -> Result<
    (Seq<char>, Seq<char>, Seq<char>),
    Seq<char>,
> {
    if !success {
        Err(err)
    } else {
        match track_of(out) {
            Some(t) => Ok(t),
            None => Err(unreadable_text()),
        }
    }
}

/// The track that the downloader's description `doc` gives.
pub fn read_track(doc: &[u8]) -> (r: Option<Track>)
    ensures
        r matches Some(t) ==> track_of(doc@) == Some((t.title@, t.webpage_url@, t.filename@)),
        r is None ==> track_of(doc@) is None,
{
    proof {
        reveal_strlit("title");
        reveal_strlit("webpage_url");
        reveal_strlit("_filename");
    }
    let title = text_field(doc, "title");
    let url = text_field(doc, "webpage_url");
    let file = text_field(doc, "_filename");
    match (title, url, file) {
        (Some(title), Some(webpage_url), Some(filename)) => Some(
            Track { title, webpage_url, filename },
        ),
        _ => None,
    }
}

/// What a run of the downloader came to, from whether it succeeded, what it
/// wrote to its output and what it wrote to its error stream.
pub fn resolve_media(success: bool, out: &[u8], err: &str) -> (r: Result<Track, String>)
    ensures
        match media_outcome(success, out@, err@) {
            Ok((t, u, f)) => r matches Ok(k) && k.title@ == t && k.webpage_url@ == u
                && k.filename@ == f,
            Err(e) => r matches Err(m) && m@ == e,
        },
{
    if !success {
        return Err(String::from_str(err));
    }
    match read_track(out) {
        Some(t) => Ok(t),
        None => {
            proof {
                reveal_strlit("the downloader's output could not be read");
            }
            Err(String::from_str("the downloader's output could not be read"))
        },
    }
}

} // verus!
