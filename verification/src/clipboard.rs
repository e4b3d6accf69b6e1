//! Clipboard monitoring decisions.
//!
//! The platform polls the clipboard; this module decides whether what it
//! read is a change worth reporting, and what kind of content it is. The
//! report goes out as a direct send, not through a batching channel.

use vstd::prelude::*;
use vstd::string::StrSliceExecFns;

use crate::text::contains;
use crate::text::ends_with;
use crate::text::starts_with;
use crate::text::str_eq;
use crate::text::spec_contains;
use crate::text::spec_ends_with;
use crate::text::spec_starts_with;

verus! {

/// Whether the text parses as JSON: what `serde_json::from_str` for a
/// generic value decides, a function of the text alone.
pub uninterp spec fn json_parses(s: Seq<char>) -> bool;

/// Relies on serde_json::from_str for `serde_json::Value`: whether the
/// text is well-formed JSON is a deterministic function of the text.
#[verifier::external_body]
fn is_valid_json(s: &str) -> (r: bool)
    ensures
        r == json_parses(s@),
{
    serde_json::from_str::<serde_json::Value>(s).is_ok()
}

/// Whether the text looks like code: it holds one of these keywords.
pub open spec fn spec_looks_like_code(s: Seq<char>) -> bool {
    ||| spec_contains(s, "function "@)
    ||| spec_contains(s, "def "@)
    ||| spec_contains(s, "class "@)
    ||| spec_contains(s, "import "@)
    ||| spec_contains(s, "const "@)
    ||| spec_contains(s, "let "@)
    ||| spec_contains(s, "var "@)
    ||| spec_contains(s, "fn "@)
    ||| spec_contains(s, "pub "@)
}

/// The kind of clipboard content: an address, an email address, a file
/// path, well-formed JSON, code, or plain text — the first that fits.
pub open spec fn spec_content_type(s: Seq<char>) -> Seq<char> {
    if spec_starts_with(s, "http://"@) || spec_starts_with(s, "https://"@)
        || spec_starts_with(s, "ftp://"@) {
        "url"@
    } else if spec_contains(s, "@"@) && spec_contains(s, "."@) && !spec_contains(s, " "@) {
        "email"@
    } else if spec_starts_with(s, "/"@) || spec_starts_with(s, "~"@)
        || spec_contains(s, ":\\"@) {
        "path"@
    } else if ((spec_starts_with(s, "{"@) && spec_ends_with(s, "}"@))
        || (spec_starts_with(s, "["@) && spec_ends_with(s, "]"@))) && json_parses(s) {
        "json"@
    } else if spec_looks_like_code(s) {
        "code"@
    } else {
        "text"@
    }
}

/// Detects the type of clipboard content.
pub fn detect_content_type(content: &str) -> (r: String)
    ensures
        r@ == spec_content_type(content@),
{
    if starts_with(content, "http://") || starts_with(content, "https://")
        || starts_with(content, "ftp://") {
        return "url".to_owned();
    }
    if contains(content, "@") && contains(content, ".") && !contains(content, " ") {
        return "email".to_owned();
    }
    if starts_with(content, "/") || starts_with(content, "~") || contains(content, ":\\") {
        return "path".to_owned();
    }
    if ((starts_with(content, "{") && ends_with(content, "}")) || (starts_with(content, "[")
        && ends_with(content, "]"))) && is_valid_json(content) {
        return "json".to_owned();
    }
    if contains(content, "function ") || contains(content, "def ") || contains(
        content,
        "class ",
    ) || contains(content, "import ") || contains(content, "const ") || contains(
        content,
        "let ",
    ) || contains(content, "var ") || contains(content, "fn ") || contains(content, "pub ") {
        return "code".to_owned();
    }
    "text".to_owned()
}

/// One clipboard poll: a non-empty text that differs from the last
/// reported content is owed to the server, typed; everything else is not a
/// change. The returned pair is the new content and its detected type.
pub fn check_clipboard(last_content: &str, text: Option<String>) -> (r: Option<(String, String)>)
    ensures
        match text {
            Some(t) => {
                if t@ != last_content@ && t@.len() > 0 {
                    r matches Some(p) && p.0 == t && p.1@ == spec_content_type(t@)
                } else {
                    r is None
                }
            },
            None => r is None,
        },
{
    match text {
        Some(t) => {
            if !str_eq(t.as_str(), last_content) && t.unicode_len() > 0 {
                let kind = detect_content_type(t.as_str());
                Some((t, kind))
            } else {
                None
            }
        },
        None => None,
    }
}

} // verus!
