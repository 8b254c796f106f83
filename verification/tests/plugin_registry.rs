use zeroclaw::plugins::{
    is_valid_plugin_id, normalize_plugin_id, validate_plugin_shape, PluginDefinition, PluginKind,
    PluginRegistry, PluginsConfig,
};

fn definition(kind: PluginKind) -> PluginDefinition {
    PluginDefinition {
        enabled: true,
        kind,
        command: "echo".into(),
        args: vec!["ok".into()],
        env: Vec::new(),
        timeout_secs: 10,
    }
}

#[test]
fn disabled_plugins_return_empty_registry() {
    let cfg = PluginsConfig::default();
    let reg = PluginRegistry::from_config(&cfg, ".").unwrap();
    assert_eq!(reg.total(), 0);
}

#[test]
fn registry_plugins_are_loaded_and_sorted_by_kind() {
    let mut cfg = PluginsConfig {
        enabled: true,
        directory: None,
        registry: Vec::new(),
    };
    cfg.registry
        .push(("mem_alpha".into(), definition(PluginKind::Memory)));
    cfg.registry
        .push(("sec_guard".into(), definition(PluginKind::Security)));

    let reg = PluginRegistry::from_config(&cfg, ".").unwrap();
    assert_eq!(reg.total(), 2);
    assert_eq!(
        reg.ids_by_kind(PluginKind::Memory),
        vec!["mem_alpha".to_string()]
    );
    assert_eq!(
        reg.ids_by_kind(PluginKind::Security),
        vec!["sec_guard".to_string()]
    );
}

#[test]
fn ids_by_kind_sorts_ascending() {
    let mut cfg = PluginsConfig {
        enabled: true,
        directory: None,
        registry: Vec::new(),
    };
    cfg.registry
        .push(("zeta".into(), definition(PluginKind::Channel)));
    cfg.registry
        .push(("alpha".into(), definition(PluginKind::Channel)));
    cfg.registry
        .push(("mid".into(), definition(PluginKind::Channel)));

    let reg = PluginRegistry::from_config(&cfg, ".").unwrap();
    assert_eq!(
        reg.ids_by_kind(PluginKind::Channel),
        vec!["alpha".to_string(), "mid".to_string(), "zeta".to_string()]
    );
}

#[test]
fn lookup_normalizes_the_id() {
    let mut cfg = PluginsConfig {
        enabled: true,
        directory: None,
        registry: Vec::new(),
    };
    cfg.registry
        .push(("Probe".into(), definition(PluginKind::Memory)));
    let reg = PluginRegistry::from_config(&cfg, ".").unwrap();
    assert!(reg.get("  probe ").is_some());
    assert!(reg.memory("PROBE").is_some());
    assert!(reg.get("other").is_none());
    assert_eq!(normalize_plugin_id("  MiXeD-Id "), "mixed-id");
}

#[test]
fn memory_lookup_refuses_other_kinds() {
    let mut cfg = PluginsConfig {
        enabled: true,
        directory: None,
        registry: Vec::new(),
    };
    cfg.registry
        .push(("chan".into(), definition(PluginKind::Channel)));
    let reg = PluginRegistry::from_config(&cfg, ".").unwrap();
    assert!(reg.get("chan").is_some());
    assert!(reg.memory("chan").is_none());
}

#[test]
fn disabled_entries_are_skipped_and_later_entries_override() {
    let mut off = definition(PluginKind::Memory);
    off.enabled = false;
    let mut cfg = PluginsConfig {
        enabled: true,
        directory: None,
        registry: Vec::new(),
    };
    cfg.registry.push(("ghost".into(), off));
    let reg = PluginRegistry::from_config(&cfg, ".").unwrap();
    assert_eq!(reg.total(), 0);

    let mut first = definition(PluginKind::Memory);
    first.command = "echo-one".into();
    let mut second = definition(PluginKind::Security);
    second.command = "echo-two".into();
    let mut cfg = PluginsConfig {
        enabled: true,
        directory: None,
        registry: Vec::new(),
    };
    cfg.registry.push(("Dup".into(), first));
    cfg.registry.push(("dup".into(), second));
    let reg = PluginRegistry::from_config(&cfg, ".").unwrap();
    assert_eq!(reg.total(), 1);
    let winner = reg.get("dup").unwrap();
    assert_eq!(winner.command, "echo-two");
    assert_eq!(winner.kind, PluginKind::Security);
}

#[test]
fn malformed_registry_entry_fails_the_build() {
    let mut bad = definition(PluginKind::Memory);
    bad.timeout_secs = 0;
    let mut cfg = PluginsConfig {
        enabled: true,
        directory: None,
        registry: Vec::new(),
    };
    cfg.registry.push(("mem".into(), bad));
    let err = PluginRegistry::from_config(&cfg, ".").unwrap_err();
    assert!(err.contains("timeout_secs"));
}

#[test]
fn plugin_shape_validation_reports_each_fault() {
    assert!(is_valid_plugin_id("ok-id_1"));
    assert!(!is_valid_plugin_id("   "));
    assert!(!is_valid_plugin_id("no spaces"));

    let good = definition(PluginKind::Memory);
    assert!(validate_plugin_shape("mem", &good).is_ok());

    let err = validate_plugin_shape("bad id", &good).unwrap_err();
    assert!(err.contains("invalid plugin ID"));

    let mut blank_cmd = definition(PluginKind::Memory);
    blank_cmd.command = "   ".into();
    let err = validate_plugin_shape("mem", &blank_cmd).unwrap_err();
    assert!(err.contains("command must not be empty"));

    let mut blank_arg = definition(PluginKind::Memory);
    blank_arg.args = vec!["ok".into(), "  ".into()];
    let err = validate_plugin_shape("mem", &blank_arg).unwrap_err();
    assert!(err.contains("args[1]"));
}
