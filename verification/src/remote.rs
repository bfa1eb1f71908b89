//! Decisions over remote responses and JSON texts.
//!
//! The network itself stays with the caller; these functions take the
//! status and body already received and decide what the caller reports.
//! JSON parsing is delegated to serde_json behind one trusted lookup;
//! what a given text parses to depends on the text alone, so its result
//! is named, never restated.

use vstd::prelude::*;
use vstd::string::*;
use crate::text::dec_str;
use crate::text::u16_to_string;

verus! {

/// Whether a text is a well-formed JSON document, as serde_json decides
/// it. A function of the text alone.
pub uninterp spec fn json_parses(text: Seq<char>) -> bool;

/// The string value at a top-level key of a JSON document, if the
/// document has that key and its value is a string. A function of the
/// text and key alone.
pub uninterp spec fn json_str_field(text: Seq<char>, key: Seq<char>) -> Option<Seq<char>>;

/// Relies on serde_json::from_str for parsing and on Value::get and
/// Value::as_str for the lookup: parsing succeeds or fails, and the key
/// holds a string value or not, depending on the text and key alone.
#[verifier::external_body]
fn lookup_json_string(text: &str, key: &str) -> (r: Result<Option<String>, String>)
    ensures
        r is Ok <==> json_parses(text@),
        r matches Ok(f) ==> match f {
            Some(s) => json_str_field(text@, key@) == Some(s@),
            None => json_str_field(text@, key@) is None,
        },
{
    match serde_json::from_str::<serde_json::Value>(text) {
        Ok(v) => Ok(v.get(key).and_then(|x| x.as_str()).map(|s| s.to_string())),
        Err(e) => Err(e.to_string()),
    }
}

/// The installation path recorded in a configuration file's JSON text,
/// when the text parses and carries one as a string.
pub fn install_path_in_config_text(text: &str) -> (r: Option<String>)
    ensures
        r matches Some(p) ==> (json_parses(text@) && json_str_field(text@, "install_path"@)
            == Some(p@)),
        r is None ==> !json_parses(text@) || json_str_field(text@, "install_path"@) is None,
{
    match lookup_json_string(text, "install_path") {
        Ok(Some(p)) => Some(p),
        _ => None,
    }
}

/// A release tag without its optional `v` prefix.
pub open spec fn strip_v_prefix(tag: Seq<char>) -> Seq<char> {
    if tag.len() > 0 && tag[0] == 'v' {
        tag.skip(1)
    } else {
        tag
    }
}

/// Strips the single optional `v` prefix from a release tag.
pub fn version_from_tag(tag: &str) -> (r: String)
    ensures
        r@ == strip_v_prefix(tag@),
{
    let n = tag.unicode_len();
    if n > 0 && tag.get_char(0) == 'v' {
        let rest = tag.substring_char(1, n);
        assert(rest@ =~= tag@.skip(1));
        rest.to_owned()
    } else {
        tag.to_owned()
    }
}

/// Decides what a plain proxied request reports: the body on a
/// successful status, otherwise an error naming the status.
pub fn proxy_response_decision(status: u16, body: String) -> (r: Result<String, String>)
    ensures
        200 <= status < 300 ==> (r matches Ok(b) && b@ == body@),
        !(200 <= status < 300) ==> (r matches Err(m) && m@ == "Request failed with status: "@
            + dec_str(status as nat)),
{
    if 200 <= status && status < 300 {
        Ok(body)
    } else {
        let mut m = "Request failed with status: ".to_owned();
        let num = u16_to_string(status);
        m.append(num.as_str());
        Err(m)
    }
}

/// Decides what the released-version query reports from the forge's
/// response: the tag without its `v` prefix on success; a distinct
/// message for the rate limit, for other failing statuses, for a body
/// that is not JSON, and for a response without a tag name.
pub fn latest_release_decision(status: u16, body: &str) -> (r: Result<String, String>)
    ensures
        status == 403 ==> (r matches Err(m) && m@
            == "GitHub API rate limit exceeded. Cannot check for updates."@),
        status != 403 && !(200 <= status < 300) ==> (r matches Err(m) && m@
            == "GitHub API request failed with status: "@ + dec_str(status as nat)),
        200 <= status < 300 && !json_parses(body@) ==> (r matches Err(m) && m@
            == "Failed to parse GitHub API response"@),
        200 <= status < 300 && json_parses(body@) ==> match json_str_field(
            body@,
            "tag_name"@,
        ) {
            Some(tag) => (r matches Ok(v) && v@ == strip_v_prefix(tag)),
            None => (r matches Err(m) && m@ == "Could not find tag_name in GitHub API response"@),
        },
{
    if status == 403 {
        return Err("GitHub API rate limit exceeded. Cannot check for updates.".to_owned());
    }
    if !(200 <= status && status < 300) {
        let mut m = "GitHub API request failed with status: ".to_owned();
        let num = u16_to_string(status);
        m.append(num.as_str());
        return Err(m);
    }
    match lookup_json_string(body, "tag_name") {
        Err(_) => Err("Failed to parse GitHub API response".to_owned()),
        Ok(None) => Err("Could not find tag_name in GitHub API response".to_owned()),
        Ok(Some(tag)) => Ok(version_from_tag(tag.as_str())),
    }
}

} // verus!
