use zeroclaw::security::{AutonomyLevel, SecurityPolicy};
use zeroclaw::tasks::{TaskPlanTool, ToolResult};

fn parse_output_json(result: &ToolResult) -> serde_json::Value {
    serde_json::from_str(&result.output).unwrap_or(serde_json::Value::Null)
}

fn tool_with_security(security: SecurityPolicy) -> TaskPlanTool {
    TaskPlanTool::new(security)
}

#[test]
fn name_and_schema() {
    let tool = tool_with_security(SecurityPolicy::default());
    assert_eq!(tool.name(), "task_plan");
    let schema: serde_json::Value = serde_json::from_str(&tool.parameters_schema()).unwrap();
    assert_eq!(schema["required"][0], "action");
    assert!(schema["properties"]["tasks"].is_object());
}

#[test]
fn create_replaces_existing_list() {
    let mut tool = tool_with_security(SecurityPolicy::default());
    let first = tool.execute(r#"{"action":"create","tasks":["step one","step two"]}"#);
    assert!(first.success);

    let second = tool.execute(r#"{"action":"create","tasks":["new only"]}"#);
    assert!(second.success);
    let payload = parse_output_json(&second);
    assert_eq!(payload["plan"]["summary"]["total"], 1);
    assert_eq!(payload["plan"]["tasks"][0]["title"], "new only");
}

#[test]
fn create_rejects_empty_tasks() {
    let mut tool = tool_with_security(SecurityPolicy::default());
    let result = tool.execute(r#"{"action":"create","tasks":[]}"#);
    assert!(!result.success);
    assert!(result.error.as_deref().unwrap_or("").contains("at least one"));
}

#[test]
fn add_appends_pending_task() {
    let mut tool = tool_with_security(SecurityPolicy::default());
    let result = tool.execute(r#"{"action":"add","title":"write tests"}"#);
    assert!(result.success);

    let listed = tool.execute(r#"{"action":"list"}"#);
    let payload = parse_output_json(&listed);
    assert_eq!(payload["plan"]["summary"]["total"], 1);
    assert_eq!(payload["plan"]["tasks"][0]["status"], "pending");
}

#[test]
fn update_changes_status() {
    let mut tool = tool_with_security(SecurityPolicy::default());
    let created = tool.execute(r#"{"action":"create","tasks":["api wiring"]}"#);
    let task_id = parse_output_json(&created)["plan"]["tasks"][0]["id"]
        .as_u64()
        .unwrap_or(0);
    assert!(task_id > 0);

    let updated = tool.execute(
        &format!(r#"{{"action":"update","task_id":{task_id},"status":"in_progress"}}"#),
    );
    assert!(updated.success);
    let payload = parse_output_json(&updated);
    assert_eq!(payload["status"], "in_progress");
}

#[test]
fn list_returns_summary_counts() {
    let mut tool = tool_with_security(SecurityPolicy::default());
    let created = tool.execute(
        r#"{"action":"create","tasks":[
            {"title":"one","status":"pending"},
            {"title":"two","status":"in_progress"},
            {"title":"three","status":"completed"}
        ]}"#,
    );
    assert!(created.success);

    let listed = tool.execute(r#"{"action":"list"}"#);
    assert!(listed.success);
    let payload = parse_output_json(&listed);
    assert_eq!(payload["plan"]["summary"]["total"], 3);
    assert_eq!(payload["plan"]["summary"]["pending"], 1);
    assert_eq!(payload["plan"]["summary"]["in_progress"], 1);
    assert_eq!(payload["plan"]["summary"]["completed"], 1);
}

#[test]
fn delete_clears_tasks() {
    let mut tool = tool_with_security(SecurityPolicy::default());
    let created = tool.execute(r#"{"action":"create","tasks":["a","b"]}"#);
    assert!(created.success);

    let deleted = tool.execute(r#"{"action":"delete"}"#);
    assert!(deleted.success);
    let payload = parse_output_json(&deleted);
    assert_eq!(payload["plan"]["summary"]["total"], 0);
}

#[test]
fn readonly_blocks_all_mutation_actions() {
    let readonly = SecurityPolicy {
        autonomy: AutonomyLevel::ReadOnly,
        ..SecurityPolicy::default()
    };
    let mut tool = tool_with_security(readonly);

    let mutation_calls = [
        r#"{"action":"create","tasks":["x"]}"#,
        r#"{"action":"add","title":"x"}"#,
        r#"{"action":"update","task_id":1,"status":"completed"}"#,
        r#"{"action":"delete"}"#,
    ];

    for args in mutation_calls {
        let result = tool.execute(args);
        assert!(!result.success);
        assert!(result.error.as_deref().unwrap_or("").contains("read-only"));
    }
}

#[test]
fn list_allowed_in_readonly_mode() {
    let readonly = SecurityPolicy {
        autonomy: AutonomyLevel::ReadOnly,
        ..SecurityPolicy::default()
    };
    let mut tool = tool_with_security(readonly);
    let result = tool.execute(r#"{"action":"list"}"#);
    assert!(result.success);
    let payload = parse_output_json(&result);
    assert_eq!(payload["plan"]["summary"]["total"], 0);
}

#[test]
fn mutation_blocked_when_rate_limited() {
    let limited = SecurityPolicy {
        max_actions_per_hour: 0,
        ..SecurityPolicy::default()
    };
    let mut tool = tool_with_security(limited);
    let result = tool.execute(r#"{"action":"add","title":"should fail"}"#);
    assert!(!result.success);
    assert!(result
        .error
        .as_deref()
        .unwrap_or("")
        .contains("Rate limit exceeded"));
}

#[test]
fn unknown_action_rejected() {
    let mut tool = tool_with_security(SecurityPolicy::default());
    let result = tool.execute(r#"{"action":"archive"}"#);
    assert!(!result.success);
    assert!(result.error.as_deref().unwrap_or("").contains("Unknown action"));
}

#[test]
fn missing_action_rejected() {
    let mut tool = tool_with_security(SecurityPolicy::default());
    let result = tool.execute(r#"{"title":"x"}"#);
    assert!(!result.success);
    assert!(result
        .error
        .as_deref()
        .unwrap_or("")
        .contains("Missing 'action'"));
}

#[test]
fn add_requires_non_empty_title() {
    let mut tool = tool_with_security(SecurityPolicy::default());
    let result = tool.execute(r#"{"action":"add","title":"   "}"#);
    assert!(!result.success);
    assert!(result
        .error
        .as_deref()
        .unwrap_or("")
        .contains("must not be empty"));
}

#[test]
fn update_requires_task_id_and_status() {
    let mut tool = tool_with_security(SecurityPolicy::default());
    let missing_id = tool.execute(r#"{"action":"update","status":"completed"}"#);
    assert!(!missing_id.success);
    assert!(missing_id.error.as_deref().unwrap_or("").contains("task_id"));

    let missing_status = tool.execute(r#"{"action":"update","task_id":1}"#);
    assert!(!missing_status.success);
    assert!(missing_status
        .error
        .as_deref()
        .unwrap_or("")
        .contains("status"));
}

#[test]
fn update_rejects_invalid_status_value() {
    let mut tool = tool_with_security(SecurityPolicy::default());
    let created = tool.execute(r#"{"action":"create","tasks":["x"]}"#);
    assert!(created.success);
    let result = tool.execute(r#"{"action":"update","task_id":1,"status":"done"}"#);
    assert!(!result.success);
    assert!(result
        .error
        .as_deref()
        .unwrap_or("")
        .contains("Invalid status"));
}
