use zeroclaw::security::{
    apply_overrides, apply_security_plugins, sanitize_string_list, AutonomyLevel, SecurityPolicy,
    SecurityPolicyOverrides, ToolOperation,
};

#[test]
fn apply_overrides_updates_policy_fields() {
    let workspace = "/tmp/zeroclaw-workspace";
    let mut policy = SecurityPolicy::default();
    let overrides = SecurityPolicyOverrides {
        autonomy: Some(AutonomyLevel::Full),
        workspace_only: Some(false),
        allowed_commands: Some(vec!["echo".into(), "  ls  ".into()]),
        forbidden_paths: Some(vec!["/etc".into()]),
        allowed_roots: Some(vec!["data".into()]),
        max_actions_per_hour: Some(100),
        max_cost_per_day_cents: Some(42),
        require_approval_for_medium_risk: Some(false),
        block_high_risk_commands: Some(true),
        shell_env_passthrough: Some(vec!["TOKEN".into()]),
    };

    apply_overrides(&mut policy, overrides, workspace, None);

    assert_eq!(policy.autonomy, AutonomyLevel::Full);
    assert!(!policy.workspace_only);
    assert_eq!(policy.allowed_commands, vec!["echo", "ls"]);
    assert_eq!(policy.forbidden_paths, vec!["/etc"]);
    assert_eq!(policy.max_actions_per_hour, 100);
    assert_eq!(policy.max_cost_per_day_cents, 42);
    assert!(!policy.require_approval_for_medium_risk);
    assert!(policy.block_high_risk_commands);
    assert_eq!(policy.shell_env_passthrough, vec!["TOKEN"]);
    assert_eq!(policy.allowed_roots.len(), 1);
    assert!(policy.allowed_roots[0].ends_with("data"));
}

#[test]
fn zero_action_limit_override_is_ignored() {
    let mut policy = SecurityPolicy::default();
    let overrides = SecurityPolicyOverrides {
        max_actions_per_hour: Some(0),
        ..SecurityPolicyOverrides::default()
    };
    apply_overrides(&mut policy, overrides, "/w", None);
    assert_eq!(policy.max_actions_per_hour, 100);
}

#[test]
fn overrides_fold_in_order() {
    let policy = SecurityPolicy::default();
    let first = SecurityPolicyOverrides {
        max_cost_per_day_cents: Some(5),
        ..SecurityPolicyOverrides::default()
    };
    let second = SecurityPolicyOverrides {
        max_cost_per_day_cents: Some(9),
        autonomy: Some(AutonomyLevel::ReadOnly),
        ..SecurityPolicyOverrides::default()
    };
    let folded = apply_security_plugins(policy, vec![first, second], "/w", None);
    assert_eq!(folded.max_cost_per_day_cents, 9);
    assert_eq!(folded.autonomy, AutonomyLevel::ReadOnly);
}

#[test]
fn tilde_roots_expand_against_the_given_home() {
    let mut policy = SecurityPolicy::default();
    let overrides = SecurityPolicyOverrides {
        allowed_roots: Some(vec!["~/data".into(), "/abs".into(), "rel".into(), "  ".into()]),
        ..SecurityPolicyOverrides::default()
    };
    apply_overrides(&mut policy, overrides, "/ws", Some("/home/me"));
    assert_eq!(
        policy.allowed_roots,
        vec!["/home/me/data", "/abs", "/ws/rel"]
    );
}

#[test]
fn an_all_absent_override_leaves_the_policy_unchanged() {
    let policy = SecurityPolicy::default();
    let folded = apply_security_plugins(
        policy.clone(),
        vec![SecurityPolicyOverrides::default()],
        "/w",
        None,
    );
    assert_eq!(folded.autonomy, policy.autonomy);
    assert_eq!(folded.allowed_commands, policy.allowed_commands);
    assert_eq!(folded.max_actions_per_hour, policy.max_actions_per_hour);
    assert_eq!(folded.allowed_roots, policy.allowed_roots);
}

#[test]
fn sanitize_drops_blank_values() {
    let got = sanitize_string_list(vec!["  a ".into(), "".into(), " \t".into(), "b".into()]);
    assert_eq!(got, vec!["a", "b"]);
}

#[test]
fn rate_limit_and_read_only_gate_tool_operations() {
    let mut readonly = SecurityPolicy {
        autonomy: AutonomyLevel::ReadOnly,
        ..SecurityPolicy::default()
    };
    assert!(!readonly.can_act());
    assert!(readonly
        .enforce_tool_operation(ToolOperation::Act, "task_plan.add")
        .unwrap_err()
        .contains("read-only"));
    assert!(readonly
        .enforce_tool_operation(ToolOperation::Read, "task_plan.list")
        .is_ok());

    let mut limited = SecurityPolicy {
        max_actions_per_hour: 1,
        ..SecurityPolicy::default()
    };
    assert!(limited.record_action());
    assert!(!limited.record_action());
    assert!(limited
        .enforce_tool_operation(ToolOperation::Act, "task_plan.add")
        .unwrap_err()
        .contains("Rate limit exceeded"));
}

#[test]
fn command_allowlist_and_high_risk_blocking() {
    let policy = SecurityPolicy::default();
    assert!(policy.is_command_allowed("echo safe"));
    assert!(!policy.is_command_allowed("rm -rf /"));

    let allowlisted = SecurityPolicy {
        allowed_commands: vec!["git ".into()],
        ..SecurityPolicy::default()
    };
    assert!(allowlisted.is_command_allowed("git status"));
    assert!(!allowlisted.is_command_allowed("echo safe"));
}
