use zeroclaw::security::{AutonomyLevel, SecurityPolicy};
use zeroclaw::web_search::{
    decode_ddg_redirect_url, format_results, parse_duckduckgo_results, strip_tags, SearchProvider,
    SearchRefusal, WebSearchTool,
};

fn test_security() -> SecurityPolicy {
    SecurityPolicy {
        autonomy: AutonomyLevel::Supervised,
        ..SecurityPolicy::default()
    }
}

fn make_tool(provider: &str, api_key: Option<&str>) -> WebSearchTool {
    WebSearchTool::new(
        test_security(),
        provider.to_string(),
        api_key.map(String::from),
        None,
        5,
        15,
        "test".to_string(),
    )
}

#[test]
fn test_tool_name() {
    let tool = make_tool("duckduckgo", None);
    assert_eq!(tool.name(), "web_search_tool");
}

#[test]
fn test_tool_description() {
    let tool = make_tool("duckduckgo", None);
    assert!(tool.description().contains("Search the web"));
}

#[test]
fn test_parameters_schema() {
    let tool = make_tool("duckduckgo", None);
    let schema: serde_json::Value = serde_json::from_str(&tool.parameters_schema()).unwrap();
    assert_eq!(schema["type"], "object");
    assert!(schema["properties"]["query"].is_object());
}

#[test]
fn test_strip_tags() {
    let html = "<b>Hello</b> <i>World</i>";
    assert_eq!(strip_tags(html), "Hello World");
}

#[test]
fn test_parse_duckduckgo_results_empty() {
    let result = parse_duckduckgo_results("<html>No results here</html>", "test", 5);
    assert!(result.contains("No results found"));
}

#[test]
fn test_parse_duckduckgo_results_with_data() {
    let html = r#"
        <a class="result__a" href="https://example.com">Example Title</a>
        <a class="result__snippet">This is a description</a>
    "#;
    let result = parse_duckduckgo_results(html, "test", 5);
    assert!(result.contains("Example Title"));
    assert!(result.contains("https://example.com"));
}

#[test]
fn test_parse_duckduckgo_results_decodes_redirect_url() {
    let html = r#"
        <a class="result__a" href="https://duckduckgo.com/l/?uddg=https%3A%2F%2Fexample.com%2Fpath%3Fa%3D1&amp;rut=test">Example Title</a>
        <a class="result__snippet">This is a description</a>
    "#;
    let result = parse_duckduckgo_results(html, "test", 5);
    assert!(result.contains("https://example.com/path?a=1"));
    assert!(!result.contains("rut=test"));
}

#[test]
fn test_constructor_clamps_web_search_limits() {
    let tool = WebSearchTool::new(
        test_security(),
        "duckduckgo".to_string(),
        None,
        None,
        0,
        0,
        "test".to_string(),
    );
    assert_eq!(tool.max_results, 1);
    assert_eq!(tool.timeout_secs, 1);
    let html = r#"
        <a class="result__a" href="https://example.com">Example Title</a>
        <a class="result__snippet">This is a description</a>
    "#;
    let result = parse_duckduckgo_results(html, "test", tool.max_results);
    assert!(result.contains("Example Title"));
}

#[test]
fn test_execute_missing_query() {
    let mut tool = make_tool("duckduckgo", None);
    let result = tool.prepare_search(None);
    assert!(result.is_err());
}

#[test]
fn test_execute_empty_query() {
    let mut tool = make_tool("duckduckgo", None);
    let result = tool.prepare_search(Some(""));
    assert!(result.is_err());
}

#[test]
fn test_execute_brave_without_api_key() {
    let mut tool = make_tool("brave", None);
    match tool.prepare_search(Some("test")) {
        Err(SearchRefusal::Invalid { message }) => assert!(message.contains("API key")),
        _ => panic!("expected a refusal naming the missing API key"),
    }
}

#[test]
fn test_execute_firecrawl_without_api_key() {
    let mut tool = make_tool("firecrawl", None);
    match tool.prepare_search(Some("test")) {
        Err(SearchRefusal::Invalid { message }) => assert!(message.contains("api_key")),
        _ => panic!("expected a refusal naming the missing api_key"),
    }
}

#[test]
fn test_execute_blocked_in_read_only_mode() {
    let security = SecurityPolicy {
        autonomy: AutonomyLevel::ReadOnly,
        ..SecurityPolicy::default()
    };
    let mut tool = WebSearchTool::new(
        security,
        "duckduckgo".to_string(),
        None,
        None,
        5,
        15,
        "test".to_string(),
    );
    match tool.prepare_search(Some("rust")) {
        Err(SearchRefusal::Blocked { message }) => assert!(message.contains("read-only")),
        _ => panic!("expected the read-only block"),
    }
}

#[test]
fn test_execute_tavily_without_api_key() {
    let mut tool = make_tool("tavily", None);
    match tool.prepare_search(Some("test")) {
        Err(SearchRefusal::Invalid { message }) => assert!(message.contains("api_key")),
        _ => panic!("expected a refusal naming the missing api_key"),
    }
}

#[test]
fn test_multiple_api_keys_parsing() {
    let tool = make_tool("tavily", Some("key1,key2,key3"));
    assert_eq!(tool.api_keys.len(), 3);
    assert_eq!(tool.api_keys[0], "key1");
    assert_eq!(tool.api_keys[1], "key2");
    assert_eq!(tool.api_keys[2], "key3");
}

#[test]
fn test_multiple_api_keys_with_spaces() {
    let tool = make_tool("tavily", Some("key1, key2 , key3"));
    assert_eq!(tool.api_keys.len(), 3);
    assert_eq!(tool.api_keys[0], "key1");
    assert_eq!(tool.api_keys[1], "key2");
    assert_eq!(tool.api_keys[2], "key3");
}

#[test]
fn test_round_robin_api_key_selection() {
    let mut tool = make_tool("tavily", Some("key1,key2,key3"));

    assert_eq!(tool.get_next_api_key().unwrap(), "key1");
    assert_eq!(tool.get_next_api_key().unwrap(), "key2");
    assert_eq!(tool.get_next_api_key().unwrap(), "key3");
    assert_eq!(tool.get_next_api_key().unwrap(), "key1");
}

#[test]
fn test_empty_api_key_returns_none() {
    let mut tool = make_tool("tavily", None);
    assert!(tool.get_next_api_key().is_none());
}

#[test]
fn test_single_api_key_works() {
    let mut tool = make_tool("tavily", Some("single-key"));
    assert_eq!(tool.api_keys.len(), 1);
    assert_eq!(tool.get_next_api_key().unwrap(), "single-key");
}

#[test]
fn prepared_search_routes_the_provider_and_draws_a_key() {
    let mut tool = make_tool("brave", Some("k1"));
    let d = match tool.prepare_search(Some("rust verus")) {
        Ok(d) => d,
        Err(_) => panic!("expected a directive"),
    };
    assert_eq!(d.provider, SearchProvider::Brave);
    assert_eq!(d.query, "rust verus");
    assert_eq!(d.api_key.as_deref(), Some("k1"));
}

#[test]
fn decode_redirect_leaves_plain_urls_alone() {
    assert_eq!(
        decode_ddg_redirect_url("https://example.com/a"),
        "https://example.com/a"
    );
}

#[test]
fn format_results_numbers_and_caps_entries() {
    let results = vec![
        ("One".to_string(), "https://a".to_string(), "first".to_string()),
        ("Two".to_string(), "https://b".to_string(), "".to_string()),
        ("Three".to_string(), "https://c".to_string(), "third".to_string()),
    ];
    let text = format_results("Brave", "q", &results, 2);
    assert!(text.contains("1. One"));
    assert!(text.contains("2. Two"));
    assert!(!text.contains("Three"));

    let empty = format_results("Brave", "q", &Vec::new(), 5);
    assert_eq!(empty, "No results found for: q");
}
