//! The browser-open tool: an allowlist-only gate in front of a local
//! browser. The tool validates the URL and decides; launching the
//! browser process is I/O and runs in the embedding layer.

use vstd::prelude::*;

use crate::security::SecurityPolicy;
use crate::url_validation::{
    holds_domain, normalize_allowed_domains, normalizes_to, spec_normalize_domain,
    spec_url_verdict, validate_url, DomainPolicy, UrlSchemePolicy, UrlVerdictKind,
};

verus! {

/// The browser-open tool's state.
pub struct BrowserOpenTool {
    pub security: SecurityPolicy,
    pub allowed_domains: Vec<String>,
    pub browser_name: String,
}

/// What one tool call asks the embedding layer to do.
pub enum BrowserAction {
    /// Refused; the result to answer with.
    Refused { error: String },
    /// Open this validated URL in the configured browser.
    Open { url: String },
}

impl BrowserOpenTool {
    /// Create the tool; the configured domains are normalised and
    /// deduplicated: the stored allowlist holds exactly the distinct
    /// normalised forms of the configured values.
    pub fn new(security: SecurityPolicy, allowed_domains: Vec<String>, browser_name: String) -> (r:
        BrowserOpenTool)
        ensures
            r.security == security,
            r.browser_name == browser_name,
            forall|a: int, b: int|
                0 <= a < b < r.allowed_domains@.len() ==> #[trigger] r.allowed_domains@[a]@
                    != #[trigger] r.allowed_domains@[b]@,
            forall|k: int|
                0 <= k < r.allowed_domains@.len() ==> normalizes_to(
                    allowed_domains@,
                    #[trigger] r.allowed_domains@[k]@,
                ),
            forall|i: int|
                0 <= i < allowed_domains@.len() ==> (match spec_normalize_domain(
                    #[trigger] allowed_domains@[i]@,
                ) {
                    Some(h) => holds_domain(r.allowed_domains@, h),
                    None => true,
                }),
    {
        BrowserOpenTool {
            security,
            allowed_domains: normalize_allowed_domains(allowed_domains),
            browser_name,
        }
    }

    pub fn name(&self) -> (r: &'static str)
        ensures
            r@ == "browser_open"@,
    {
        "browser_open"
    }

    pub fn description(&self) -> (r: &'static str)
        ensures
            r@
                == "Open an approved HTTPS URL in a browser. Security constraints: allowlist-only domains, no local/private hosts, no scraping."@,
    {
        "Open an approved HTTPS URL in a browser. Security constraints: allowlist-only domains, no local/private hosts, no scraping."
    }

    /// The tool's JSON parameter schema.
    pub fn parameters_schema(&self) -> (r: String) {
        let mut out = String::new();
        out.append("{\"type\":\"object\",\"properties\":{\"url\":{\"type\":\"string\",");
        out.append("\"description\":\"HTTPS URL to open in browser\"}},\"required\":[\"url\"]}");
        out
    }

    /// Validate a URL against the browser's domain policy.
    pub fn validate_url(&self, raw_url: &str) -> (r: Result<String, String>)
        ensures
            ({
                let verdict = spec_url_verdict(
                    raw_url@,
                    self.allowed_domains@,
                    Seq::<String>::empty(),
                    UrlSchemePolicy::HttpsOnly,
                );
                match r {
                    Ok(u) => verdict == UrlVerdictKind::Accepted && u@ == crate::text::trim_chars(
                        raw_url@,
                    ),
                    Err(_) => verdict != UrlVerdictKind::Accepted,
                }
            }),
    {
        let empty_blocked: Vec<String> = Vec::new();
        let policy = DomainPolicy {
            allowed_domains: &self.allowed_domains,
            blocked_domains: &empty_blocked,
            allowed_field_name: "browser.allowed_domains",
            blocked_field_name: None,
            empty_allowed_message:
                "Browser tool is enabled but no allowed_domains are configured. Add [browser].allowed_domains in config.toml",
            scheme_policy: UrlSchemePolicy::HttpsOnly,
            ipv6_error_context: "browser_open",
        };
        validate_url(raw_url, &policy)
    }

    /// Gate one tool call: the URL must be present, the security policy
    /// must admit the action, and the URL must pass validation. Only
    /// then is the embedding layer asked to open it.
    pub fn plan_execute(&mut self, url: Option<&str>) -> (r: Result<BrowserAction, String>)
        ensures
            url is None ==> (r matches Err(e) && e@ == "Missing 'url' parameter"@),
            (url is Some && old(self).security.autonomy == crate::security::AutonomyLevel::ReadOnly)
                ==> (r matches Ok(a) && a matches BrowserAction::Refused { error } && error@
                == "Action blocked: autonomy is read-only"@),
            (url is Some && old(self).security.autonomy != crate::security::AutonomyLevel::ReadOnly
                && old(self).security.actions_recorded >= old(self).security.max_actions_per_hour)
                ==> (r matches Ok(a) && a matches BrowserAction::Refused { error } && error@
                == "Action blocked: rate limit exceeded"@),
            r matches Ok(a) ==> (a matches BrowserAction::Open { url: opened } ==> (
            url matches Some(raw) && spec_url_verdict(
                raw@,
                old(self).allowed_domains@,
                Seq::<String>::empty(),
                UrlSchemePolicy::HttpsOnly,
            ) == UrlVerdictKind::Accepted && opened@ == crate::text::trim_chars(raw@))),
    {
        let raw = match url {
            Some(u) => u,
            None => {
                return Err("Missing 'url' parameter".to_owned());
            },
        };
        if !self.security.can_act() {
            return Ok(
                BrowserAction::Refused {
                    error: "Action blocked: autonomy is read-only".to_owned(),
                },
            );
        }
        if !self.security.record_action() {
            return Ok(
                BrowserAction::Refused {
                    error: "Action blocked: rate limit exceeded".to_owned(),
                },
            );
        }
        match self.validate_url(raw) {
            Ok(valid) => Ok(BrowserAction::Open { url: valid }),
            Err(e) => Ok(BrowserAction::Refused { error: e }),
        }
    }
}

/// The user-facing name a configured browser is rendered with.
pub open spec fn spec_display_browser_name(s: Seq<char>) -> Seq<char> {
    if s == "brave"@ {
        "Brave"@
    } else if s == "chrome"@ {
        "Chrome"@
    } else if s == "firefox"@ {
        "Firefox"@
    } else if s == "default"@ || s == ""@ {
        "system default browser"@
    } else {
        s
    }
}

/// The user-facing name of a configured browser.
pub fn display_browser_name(browser_name: &str) -> (r: &str)
    ensures
        r@ == spec_display_browser_name(browser_name@),
{
    if crate::text::str_eq(browser_name, "brave") {
        "Brave"
    } else if crate::text::str_eq(browser_name, "chrome") {
        "Chrome"
    } else if crate::text::str_eq(browser_name, "firefox") {
        "Firefox"
    } else if crate::text::str_eq(browser_name, "default") || crate::text::str_eq(
        browser_name,
        "",
    ) {
        "system default browser"
    } else {
        browser_name
    }
}

} // verus!
