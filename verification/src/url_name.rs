use vstd::prelude::*;

verus! {

/// The last path segment of `s` read as an absolute URL: `None` where `s`
/// is no absolute URL or where the URL cannot carry path segments.
pub uninterp spec fn url_last_segment(s: Seq<char>) -> Option<Seq<char>>;

/// Relies on url::Url::parse and url::Url::path_segments: parsing is a
/// function of the URL text alone; `path_segments` is `None` exactly for
/// cannot-be-a-base URLs and otherwise yields at least one segment, of
/// which the last is taken.
#[verifier::external_body]
fn get_file_name_from_url(url_str: &str) -> (r: Option<String>)
    ensures
        match r {
            Some(name) => url_last_segment(url_str@) == Some(name@),
            None => url_last_segment(url_str@) is None,
        },
{
    let url = match url::Url::parse(url_str) {
        Ok(u) => u,
        Err(_) => return None,
    };
    match url.path_segments() {
        Some(segments) => segments.last().map(|s| s.to_string()),
        None => None,
    }
}

/// The name the URL suggests for the output file: its last path segment.
/// The second component is true when the URL yields no name; the name is
/// then empty and stands in as the sentinel the resolver substitutes for.
pub fn derive_default_name(url: &String) -> (r: (String, bool))
    ensures
        match url_last_segment(url@) {
            Some(seg) => r.0@ == seg && !r.1,
            None => r.0@ == Seq::<char>::empty() && r.1,
        },
{
    match get_file_name_from_url(url.as_str()) {
        Some(name) => (name, false),
        None => (String::new(), true),
    }
}

} // verus!
