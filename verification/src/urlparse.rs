//! The parse of a resource URL into the parts the router reads.

use vstd::prelude::*;

verus! {

/// The parts of a well-formed absolute URL that routing reads: its host when
/// it has one, its path, and its normalized text.
#[derive(Debug, PartialEq)]
pub struct UrlParts {
    pub host: Option<String>,
    pub path: String,
    pub text: String,
}

/// What `s` parses to as an absolute URL: its parts, or the parser's error
/// text.
pub uninterp spec fn parsed_url(s: Seq<char>) -> Result<UrlParts, String>;

/// Relies on url::Url::parse, and on its host_str, path and as_str
/// accessors: the parse is decided by the input text alone, and yields the
/// normalized host, path and text of the URL.
#[verifier::external_body]
pub(crate) fn parse_url(s: &str) -> (r: Result<UrlParts, String>)
    ensures
        r == parsed_url(s@),
{
    match url::Url::parse(s) {
        Ok(u) => {
            let host = match u.host_str() {
                Some(h) => Some(h.to_string()),
                None => None,
            };
            Ok(UrlParts { host, path: u.path().to_string(), text: u.as_str().to_string() })
        },
        Err(e) => Err(e.to_string()),
    }
}

} // verus!
