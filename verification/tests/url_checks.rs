use zeroclaw::browser::BrowserOpenTool;
use zeroclaw::security::{AutonomyLevel, SecurityPolicy};
use zeroclaw::url_validation::{normalize_allowed_domains, normalize_domain};

fn test_tool(allowed_domains: Vec<&str>) -> BrowserOpenTool {
    let security = SecurityPolicy {
        autonomy: AutonomyLevel::Supervised,
        ..SecurityPolicy::default()
    };
    BrowserOpenTool::new(
        security,
        allowed_domains.into_iter().map(String::from).collect(),
        "default".into(),
    )
}

#[test]
fn normalize_domain_strips_scheme_path_and_case() {
    let got = normalize_domain("  HTTPS://Docs.Example.com/path ").unwrap();
    assert_eq!(got, "docs.example.com");
}

#[test]
fn normalize_allowed_domains_deduplicates() {
    let got = normalize_allowed_domains(vec![
        "example.com".into(),
        "EXAMPLE.COM".into(),
        "https://example.com/".into(),
    ]);
    assert_eq!(got, vec!["example.com".to_string()]);
}

#[test]
fn validate_accepts_exact_domain() {
    let tool = test_tool(vec!["example.com"]);
    let got = tool.validate_url("https://example.com/docs").unwrap();
    assert_eq!(got, "https://example.com/docs");
}

#[test]
fn validate_accepts_subdomain() {
    let tool = test_tool(vec!["example.com"]);
    assert!(tool.validate_url("https://api.example.com/v1").is_ok());
}

#[test]
fn validate_accepts_wildcard_allowlist_for_public_host() {
    let tool = test_tool(vec!["*"]);
    assert!(tool.validate_url("https://www.rust-lang.org").is_ok());
}

#[test]
fn validate_wildcard_allowlist_still_rejects_private_host() {
    let tool = test_tool(vec!["*"]);
    let err = tool
        .validate_url("https://localhost:8443")
        .unwrap_err()
        .to_string();
    assert!(err.contains("local/private"));
}

#[test]
fn validate_accepts_wildcard_subdomain_pattern() {
    let tool = test_tool(vec!["*.example.com"]);
    assert!(tool.validate_url("https://example.com").is_ok());
    assert!(tool.validate_url("https://sub.example.com").is_ok());
    assert!(tool.validate_url("https://other.com").is_err());
}

#[test]
fn validate_rejects_http() {
    let tool = test_tool(vec!["example.com"]);
    let err = tool
        .validate_url("http://example.com")
        .unwrap_err()
        .to_string();
    assert!(err.contains("https://"));
}

#[test]
fn validate_rejects_localhost() {
    let tool = test_tool(vec!["localhost"]);
    let err = tool
        .validate_url("https://localhost:8080")
        .unwrap_err()
        .to_string();
    assert!(err.contains("local/private"));
}

#[test]
fn validate_rejects_private_ipv4() {
    let tool = test_tool(vec!["192.168.1.5"]);
    let err = tool
        .validate_url("https://192.168.1.5")
        .unwrap_err()
        .to_string();
    assert!(err.contains("local/private"));
}

#[test]
fn validate_rejects_allowlist_miss() {
    let tool = test_tool(vec!["example.com"]);
    let err = tool
        .validate_url("https://google.com")
        .unwrap_err()
        .to_string();
    assert!(err.contains("allowed_domains"));
}

#[test]
fn validate_rejects_whitespace() {
    let tool = test_tool(vec!["example.com"]);
    let err = tool
        .validate_url("https://example.com/hello world")
        .unwrap_err()
        .to_string();
    assert!(err.contains("whitespace"));
}

#[test]
fn validate_rejects_userinfo() {
    let tool = test_tool(vec!["example.com"]);
    let err = tool
        .validate_url("https://user@example.com")
        .unwrap_err()
        .to_string();
    assert!(err.contains("userinfo"));
}

#[test]
fn validate_requires_allowlist() {
    let security = SecurityPolicy::default();
    let tool = BrowserOpenTool::new(security, vec![], "default".into());
    let err = tool
        .validate_url("https://example.com")
        .unwrap_err()
        .to_string();
    assert!(err.contains("allowed_domains"));
}

#[test]
fn execute_blocks_readonly_mode() {
    let security = SecurityPolicy {
        autonomy: AutonomyLevel::ReadOnly,
        ..SecurityPolicy::default()
    };
    let mut tool = BrowserOpenTool::new(security, vec!["example.com".into()], "default".into());
    match tool.plan_execute(Some("https://example.com")).unwrap() {
        zeroclaw::browser::BrowserAction::Refused { error } => {
            assert!(error.contains("read-only"));
        }
        zeroclaw::browser::BrowserAction::Open { .. } => panic!("read-only mode must not open"),
    }
}

#[test]
fn execute_blocks_when_rate_limited() {
    let security = SecurityPolicy {
        max_actions_per_hour: 0,
        ..SecurityPolicy::default()
    };
    let mut tool = BrowserOpenTool::new(security, vec!["example.com".into()], "default".into());
    match tool.plan_execute(Some("https://example.com")).unwrap() {
        zeroclaw::browser::BrowserAction::Refused { error } => {
            assert!(error.contains("rate limit"));
        }
        zeroclaw::browser::BrowserAction::Open { .. } => panic!("rate-limited call must not open"),
    }
}

#[test]
fn display_browser_name_maps_known_browsers() {
    assert_eq!(zeroclaw::browser::display_browser_name("brave"), "Brave");
    assert_eq!(zeroclaw::browser::display_browser_name("chrome"), "Chrome");
    assert_eq!(
        zeroclaw::browser::display_browser_name(""),
        "system default browser"
    );
    assert_eq!(zeroclaw::browser::display_browser_name("lynx"), "lynx");
}
