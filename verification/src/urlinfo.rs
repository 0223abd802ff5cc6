//! Trusted access to the `url` crate: host extraction and the last path
//! segment of a URL. Both are pure functions of the input string, so their
//! results are given names that the rest of the library reasons with.

use vstd::prelude::*;

verus! {

/// The host component of `s`, if `s` parses as a URL and has one.
pub uninterp spec fn url_host_of(s: Seq<char>) -> Option<Seq<char>>;

/// The last path segment of `s`, if `s` parses as a URL whose path has
/// segments.
pub uninterp spec fn url_last_segment_of(s: Seq<char>) -> Option<Seq<char>>;

/// Relies on `url::Url::parse` and `url::Url::host_str`: parsing is a pure
/// function of the input string, and `host_str` returns the parsed URL's
/// host component, if any.
#[verifier::external_body]
pub(crate) fn url_host(s: &str) -> (r: Option<String>)
    ensures
        r matches Some(h) ==> url_host_of(s@) == Some(h@),
        r is None ==> url_host_of(s@) is None,
{
    match url::Url::parse(s) {
        Ok(u) => u.host_str().map(|h| h.to_string()),
        Err(_) => None,
    }
}

/// Relies on `url::Url::parse` and `url::Url::path_segments`: parsing is a
/// pure function of the input string, and `path_segments` yields the
/// `/`-separated segments of the URL's path, of which this returns the
/// last. A segment is the percent-encoded text between two slashes, so it
/// never contains a slash itself; and the parser percent-encodes every
/// control character in a path, so a segment never holds a NUL either.
#[verifier::external_body]
pub(crate) fn url_last_segment(s: &str) -> (r: Option<String>)
    ensures
        r matches Some(seg) ==> url_last_segment_of(s@) == Some(seg@),
        r is None ==> url_last_segment_of(s@) is None,
        r matches Some(seg) ==> forall|i: int|
            0 <= i < seg@.len() ==> (#[trigger] seg@[i]) != '/' && seg@[i] as u32 != 0,
{
    match url::Url::parse(s) {
        Ok(u) => match u.path_segments() {
            Some(segs) => segs.last().map(|x| x.to_string()),
            None => None,
        },
        Err(_) => None,
    }
}

} // verus!
