//! The configurable archive source, the status report, and small
//! user-facing decisions: the browser-URL scheme check and the menu
//! labels.

use vstd::prelude::*;
use crate::text::has_prefix;
use crate::text::starts_with;
use crate::resolver::ResolveError;

verus! {

/// The string under the key `zip_url` of the configuration content, when
/// the content is a JSON object carrying one.
pub uninterp spec fn config_zip_url_of(content: Seq<char>) -> Option<Seq<char>>;

/// Relies on serde_json::from_str, Value::get and Value::as_str: parses
/// the configuration content and hands out the string under the `zip_url`
/// key, if the content is valid JSON holding one.
#[verifier::external_body]
fn zip_url_override(content: &str) -> (r: Option<String>)
    ensures
        r is Some <==> config_zip_url_of(content@) is Some,
        r is Some ==> r->0@ == config_zip_url_of(content@)->0,
{
    match serde_json::from_str::<serde_json::Value>(content) {
        Ok(json) => match json.get("zip_url") {
            Some(v) => v.as_str().map(|s| s.to_string()),
            None => None,
        },
        Err(_) => None,
    }
}

/// The built-in archive source used when no override is configured.
pub open spec fn spec_default_zip_url() -> Seq<char> {
    "https://github.com/mccoy88f/PlanarAllyPlus/archive/refs/heads/dev.zip"@
}

/// The built-in archive source.
pub fn default_zip_url() -> (r: String)
    ensures
        r@ == spec_default_zip_url(),
{
    String::from_str("https://github.com/mccoy88f/PlanarAllyPlus/archive/refs/heads/dev.zip")
}

/// The archive source a given configuration content selects: the
/// configured override when the content is a JSON object with a `zip_url`
/// string, the built-in source otherwise.
pub open spec fn spec_selected_zip_url(config: Option<Seq<char>>) -> Seq<char> {
    match config {
        Some(c) => match config_zip_url_of(c) {
            Some(u) => u,
            None => spec_default_zip_url(),
        },
        None => spec_default_zip_url(),
    }
}

/// Selects the archive source from the configuration file's content, read
/// fresh by the shell on every call: the override when one is configured,
/// the built-in source when the file is absent, unreadable or malformed.
pub fn select_zip_url(config: Option<&str>) -> (r: String)
    ensures
        config is Some ==> r@ == spec_selected_zip_url(Some(config->0@)),
        config is None ==> r@ == spec_default_zip_url(),
{
    match config {
        Some(content) => match zip_url_override(content) {
            Some(url) => url,
            None => default_zip_url(),
        },
        None => default_zip_url(),
    }
}

/// The installation status reported to the caller: readiness, the resolved
/// path or the diagnostic in its place, and the currently configured
/// archive source.
pub struct AppStatus {
    pub ready: bool,
    pub path: String,
    pub zip_url: String,
}

/// Assembles the status report from the resolver's outcome and the
/// configured archive source: ready with the root's path, or not ready
/// with the diagnostic message.
pub fn build_status(resolved: &Result<String, ResolveError>, zip_url: String) -> (r: AppStatus)
    ensures
        r.ready == resolved is Ok,
        resolved is Ok ==> r.path@ == resolved->Ok_0@,
        resolved matches Err(e) ==> (e is NotDownloaded ==> r.path@
            == "App not downloaded. Click Start or Update."@) && (e is InvalidStructure ==> r.path@
            == "Invalid app structure. Click Update."@),
        r.zip_url@ == zip_url@,
{
    match resolved {
        Ok(root) => AppStatus { ready: true, path: root.clone(), zip_url },
        Err(e) => AppStatus { ready: false, path: e.message(), zip_url },
    }
}

/// A URL the launcher will open in the external browser: only web schemes
/// are allowed.
pub fn browser_url_allowed(url: &str) -> (r: bool)
    ensures
        r == (has_prefix(url@, "http://"@) || has_prefix(url@, "https://"@)),
{
    starts_with(url, "http://") || starts_with(url, "https://")
}

/// The window-menu labels for the given locale string: Italian when the
/// locale starts with "it", English otherwise. The submenu carries the
/// application's name in either case.
pub fn menu_labels(lang: &str) -> (r: (String, String))
    ensures
        has_prefix(lang@, "it"@) ==> r.0@ == "Mostra finestra"@,
        !has_prefix(lang@, "it"@) ==> r.0@ == "Show Window"@,
        r.1@ == "PlanarAlly Plus Launcher"@,
{
    if starts_with(lang, "it") {
        (String::from_str("Mostra finestra"), String::from_str("PlanarAlly Plus Launcher"))
    } else {
        (String::from_str("Show Window"), String::from_str("PlanarAlly Plus Launcher"))
    }
}

} // verus!
