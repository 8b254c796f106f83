//! The slice of the gateway's configuration that the verified components
//! read: provider and composio credentials, secrets handling, autonomy
//! limits, channel presence, memory knobs and the Signal PIN policy.

use vstd::prelude::*;

verus! {

#[derive(Clone, Debug)]
pub struct ComposioConfig {
    pub enabled: bool,
    pub api_key: Option<String>,
    pub entity_id: String,
}

#[derive(Clone, Copy, Debug)]
pub struct SecretsConfig {
    pub encrypt: bool,
}

#[derive(Clone, Debug)]
pub struct RuntimeSettings {
    pub reasoning_enabled: Option<bool>,
}

#[derive(Clone, Debug)]
pub struct ProviderSettings {
    pub reasoning_level: Vec<(String, String)>,
}

/// Autonomy limits feeding the security policy.
#[derive(Clone, Debug)]
pub struct AutonomyConfig {
    pub level: crate::security::AutonomyLevel,
    pub workspace_only: bool,
    pub allowed_commands: Vec<String>,
    pub forbidden_paths: Vec<String>,
    pub allowed_roots: Vec<String>,
    pub max_actions_per_hour: u32,
    pub max_cost_per_day_cents: u32,
    pub require_approval_for_medium_risk: bool,
    pub block_high_risk_commands: bool,
    pub shell_env_passthrough: Vec<String>,
    pub non_cli_excluded_tools: Vec<String>,
}

#[derive(Clone, Debug)]
pub struct MemoryConfig {
    pub auto_save: bool,
    pub backend: String,
}

#[derive(Clone, Debug)]
pub struct AgentConfig {
    pub max_tool_iterations: u64,
    pub compact_context: bool,
}

/// The Signal channel's settings, including its PIN gate policy.
#[derive(Clone, Debug)]
pub struct SignalConfig {
    pub http_url: String,
    pub account: String,
    pub group_id: Option<String>,
    pub allowed_from: Vec<String>,
    pub ignore_attachments: bool,
    pub ignore_stories: bool,
    pub pin_verification: bool,
    pub pin_reverify_days: u32,
    pub pin_adaptive_schedule: bool,
    pub pin_reminder_hours_before: u32,
    pub pin_max_failed_attempts: u32,
    pub pin_lockout_minutes: u32,
    pub pin_min_length: u32,
    pub pin_allow_alphanumeric: bool,
}

#[derive(Clone, Debug)]
pub struct TelegramConfig {
    pub bot_token: String,
    pub interrupt_on_new_message: bool,
}

/// Which channels are configured. Only presence and the knobs the core
/// reads are modelled; each connector's own settings live with it.
#[derive(Clone, Debug)]
pub struct ChannelsConfig {
    pub telegram: Option<TelegramConfig>,
    pub discord: bool,
    pub slack: bool,
    pub signal: Option<SignalConfig>,
    pub imessage: bool,
    pub whatsapp: bool,
    pub irc: bool,
    pub email: bool,
    pub webhook: bool,
    pub message_timeout_secs: u64,
}

#[derive(Clone, Debug)]
pub struct Config {
    pub workspace_dir: String,
    pub config_path: String,
    pub api_key: Option<String>,
    pub api_url: Option<String>,
    pub default_temperature: Option<u32>,
    pub composio: ComposioConfig,
    pub secrets: SecretsConfig,
    pub runtime: RuntimeSettings,
    pub provider: ProviderSettings,
    pub autonomy: AutonomyConfig,
    pub memory: MemoryConfig,
    pub agent: AgentConfig,
    pub channels_config: ChannelsConfig,
    pub plugins: crate::plugins::PluginsConfig,
}

impl Default for Config {
    /// No channel, provider or plugin is configured; composio is off,
    /// secrets are encrypted, autonomy is supervised.
    fn default() -> (r: Config)
        ensures
            !r.composio.enabled,
            r.composio.api_key is None,
            r.composio.entity_id@ == "default"@,
            r.secrets.encrypt,
            r.runtime.reasoning_enabled is None,
            r.provider.reasoning_level@.len() == 0,
            r.autonomy.level == crate::security::AutonomyLevel::Supervised,
            r.autonomy.allowed_commands@.len() == 0,
            r.autonomy.max_actions_per_hour == 100,
            r.channels_config.telegram is None,
            r.channels_config.signal is None,
            !r.memory.auto_save,
            r.agent.max_tool_iterations == 10,
            !r.plugins.enabled,
    {
        Config {
            workspace_dir: String::new(),
            config_path: String::new(),
            api_key: None,
            api_url: None,
            default_temperature: None,
            composio: ComposioConfig {
                enabled: false,
                api_key: None,
                entity_id: "default".to_owned(),
            },
            secrets: SecretsConfig { encrypt: true },
            runtime: RuntimeSettings { reasoning_enabled: None },
            provider: ProviderSettings { reasoning_level: Vec::new() },
            autonomy: AutonomyConfig {
                level: crate::security::AutonomyLevel::Supervised,
                workspace_only: true,
                allowed_commands: Vec::new(),
                forbidden_paths: Vec::new(),
                allowed_roots: Vec::new(),
                max_actions_per_hour: 100,
                max_cost_per_day_cents: 1000,
                require_approval_for_medium_risk: true,
                block_high_risk_commands: true,
                shell_env_passthrough: Vec::new(),
                non_cli_excluded_tools: Vec::new(),
            },
            memory: MemoryConfig { auto_save: false, backend: "sqlite".to_owned() },
            agent: AgentConfig { max_tool_iterations: 10, compact_context: false },
            channels_config: ChannelsConfig {
                telegram: None,
                discord: false,
                slack: false,
                signal: None,
                imessage: false,
                whatsapp: false,
                irc: false,
                email: false,
                webhook: false,
                message_timeout_secs: 0,
            },
            plugins: crate::plugins::PluginsConfig {
                enabled: false,
                directory: None,
                registry: Vec::new(),
            },
        }
    }
}

} // verus!
