//! Parsing the settings document.  The host reads the file's text and hands
//! it over; parsing itself is delegated to a JSON parser behind a trusted
//! wrapper.

use vstd::prelude::*;
use crate::model::AppSettings;

verus! {

/// The active-profile field that a settings document's text parses to:
/// `None` where the text is not a valid settings document, else the parsed
/// `active_profile` value (itself optional).  Parsing depends on the text
/// alone.
pub uninterp spec fn parsed_settings(text: Seq<char>) -> Option<Option<i64>>;

/// Relies on serde_json::from_str and serde_json::Value: a well-formed JSON
/// object parses to its `active_profile` integer (absent or null reads as
/// no profile); anything else is a parse failure.
#[verifier::external_body]
fn parse_active_profile(content: &str) -> (r: Option<Option<i64>>)
    ensures
        r == parsed_settings(content@),
{
    match serde_json::from_str::<serde_json::Value>(content) {
        Ok(serde_json::Value::Object(doc)) => match doc.get("active_profile") {
            None | Some(serde_json::Value::Null) => Some(None),
            Some(v) => v.as_i64().map(|n| Some(n)),
        },
        _ => None,
    }
}

/// Parse a settings document: `Some` exactly where the text parses, with
/// the parsed active profile inside.
pub fn settings_of_text(content: &str) -> (r: Option<AppSettings>)
    ensures
        match r {
            Some(st) => parsed_settings(content@) == Some(st.active_profile),
            None => parsed_settings(content@) is None,
        },
{
    match parse_active_profile(content) {
        Some(p) => Some(AppSettings { active_profile: p }),
        None => None,
    }
}

} // verus!
