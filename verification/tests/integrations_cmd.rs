use zeroclaw::config::Config;
use zeroclaw::integrations::{
    all_integrations, filtered_integrations, handle_command, parse_category_filter,
    parse_status_filter, IntegrationCategory, IntegrationCommands, IntegrationEntry,
    IntegrationStatus,
};

#[test]
fn integration_category_all_includes_every_variant_once() {
    let all = IntegrationCategory::all();
    assert_eq!(all.len(), 9);

    let labels: Vec<&str> = all.iter().map(|cat| cat.label()).collect();
    assert!(labels.contains(&"Chat Providers"));
    assert!(labels.contains(&"AI Models"));
    assert!(labels.contains(&"Productivity"));
    assert!(labels.contains(&"Music & Audio"));
    assert!(labels.contains(&"Smart Home"));
    assert!(labels.contains(&"Tools & Automation"));
    assert!(labels.contains(&"Media & Creative"));
    assert!(labels.contains(&"Social"));
    assert!(labels.contains(&"Platforms"));
}

#[test]
fn handle_command_info_is_case_insensitive_for_known_integrations() {
    let config = Config::default();
    let first_name = all_integrations(&config)
        .first()
        .expect("catalogue should define at least one integration")
        .name
        .to_lowercase();

    let result = handle_command(IntegrationCommands::Info { name: first_name }, &config);

    assert!(result.is_ok());
}

#[test]
fn handle_command_info_returns_error_for_unknown_integration() {
    let config = Config::default();
    let result = handle_command(
        IntegrationCommands::Info {
            name: "definitely-not-a-real-integration".into(),
        },
        &config,
    );

    assert!(result.is_err());
    let err = result.unwrap_err().to_string();
    assert!(err.contains("Unknown integration"));
}

#[test]
fn parse_category_filter_accepts_common_aliases() {
    assert_eq!(
        parse_category_filter("ai").expect("ai should parse"),
        IntegrationCategory::AiModel
    );
    assert_eq!(
        parse_category_filter("models").expect("models should parse"),
        IntegrationCategory::AiModel
    );
    assert_eq!(
        parse_category_filter("ai-models").expect("ai-models should parse"),
        IntegrationCategory::AiModel
    );
    assert_eq!(
        parse_category_filter("tools").expect("tools should parse"),
        IntegrationCategory::ToolsAutomation
    );
    assert_eq!(
        parse_category_filter("chat").expect("chat should parse"),
        IntegrationCategory::Chat
    );
}

#[test]
fn parse_category_filter_rejects_unknown_value_with_options() {
    let err = parse_category_filter("unknown-category")
        .expect_err("unknown category should return an error")
        .to_string();
    assert!(err.contains("Unknown category filter"));
    assert!(err.contains("Valid options"));
}

#[test]
fn parse_status_filter_accepts_supported_values() {
    assert_eq!(
        parse_status_filter("active").expect("active should parse"),
        IntegrationStatus::Active
    );
    assert_eq!(
        parse_status_filter("available").expect("available should parse"),
        IntegrationStatus::Available
    );
    assert_eq!(
        parse_status_filter("coming-soon").expect("coming-soon should parse"),
        IntegrationStatus::ComingSoon
    );
}

#[test]
fn parse_status_filter_rejects_unknown_value_with_options() {
    let err = parse_status_filter("beta")
        .expect_err("unknown status should return an error")
        .to_string();
    assert!(err.contains("Unknown status filter"));
    assert!(err.contains("Valid options"));
}

#[test]
fn filtered_integrations_apply_category_status_and_keyword_filters() {
    let entries = vec![
        IntegrationEntry {
            name: "Alpha Chat",
            description: "chat integration",
            category: IntegrationCategory::Chat,
            status: IntegrationStatus::Available,
        },
        IntegrationEntry {
            name: "Beta Model",
            description: "model tooling",
            category: IntegrationCategory::AiModel,
            status: IntegrationStatus::Active,
        },
        IntegrationEntry {
            name: "Gamma Tools",
            description: "automation workbench",
            category: IntegrationCategory::ToolsAutomation,
            status: IntegrationStatus::ComingSoon,
        },
    ];

    let active = filtered_integrations(&entries, None, Some(IntegrationStatus::Active), None);
    assert_eq!(active.len(), 1);
    assert_eq!(active[0].name, "Beta Model");

    let ai_only = filtered_integrations(&entries, Some(IntegrationCategory::AiModel), None, None);
    assert_eq!(ai_only.len(), 1);
    assert_eq!(ai_only[0].name, "Beta Model");

    let searched = filtered_integrations(&entries, None, None, Some("AUTOMATION"));
    assert_eq!(searched.len(), 1);
    assert_eq!(searched[0].name, "Gamma Tools");
}

#[test]
fn search_command_handles_no_results_gracefully() {
    let config = Config::default();
    let result = handle_command(
        IntegrationCommands::Search {
            query: "definitely-no-match".into(),
        },
        &config,
    );

    assert!(result.is_ok());
}

#[test]
fn list_command_rejects_invalid_filters() {
    let config = Config::default();
    let bad_category = handle_command(
        IntegrationCommands::List {
            category: Some("not-real".into()),
            status: None,
        },
        &config,
    )
    .expect_err("invalid category should error")
    .to_string();
    assert!(bad_category.contains("Unknown category filter"));

    let bad_status = handle_command(
        IntegrationCommands::List {
            category: None,
            status: Some("not-real".into()),
        },
        &config,
    )
    .expect_err("invalid status should error")
    .to_string();
    assert!(bad_status.contains("Unknown status filter"));
}
