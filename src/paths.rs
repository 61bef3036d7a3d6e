//! File names of document URIs.

use vstd::prelude::*;
use crate::syntax::opt_view;

verus! {

/// The final component of a path, as std::path::Path reads it; `None` where
/// the path has none (it is empty, is a root such as `/`, or ends in `..`).
pub uninterp spec fn file_name_of(path: Seq<char>) -> Option<Seq<char>>;

/// `s` with every leading repetition of `prefix` taken off.
pub open spec fn trim_leading(s: Seq<char>, prefix: Seq<char>) -> Seq<char>
    decreases s.len(),
{
    if prefix.len() > 0 && prefix.len() <= s.len() && s.subrange(0, prefix.len() as int) == prefix {
        trim_leading(s.subrange(prefix.len() as int, s.len() as int), prefix)
    } else {
        s
    }
}

/// Relies on str::trim_start_matches with a string pattern: the text with
/// every leading repetition of `prefix` removed.
#[verifier::external_body]
fn trim_prefix<'a>(s: &'a str, prefix: &str) -> (r: &'a str)
    ensures
        r@ == trim_leading(s@, prefix@),
{
    s.trim_start_matches(prefix)
}

/// Relies on std::path::Path::file_name, read back as UTF-8 text (the path
/// is a str, so that always succeeds).
#[verifier::external_body]
fn path_file_name(path: &str) -> (r: Option<String>)
    ensures
        opt_view(r) == file_name_of(path@),
{
    std::path::Path::new(path).file_name().and_then(|n| n.to_str()).map(|n| n.to_string())
}

/// The file name of a URI: its path with the `file://` scheme taken off,
/// read by std::path::Path; empty where the path has no final component.
pub fn get_basename_from_uri(uri: &str) -> (r: String)
    ensures
        r@ == match file_name_of(trim_leading(uri@, "file://"@)) {
            Some(n) => n,
            None => Seq::empty(),
        },
{
    let path = trim_prefix(uri, "file://");
    match path_file_name(path) {
        Some(n) => n,
        None => String::new(),
    }
}

} // verus!
