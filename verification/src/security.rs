//! The security policy: autonomy level, command allowlisting, action
//! rate limiting, and the application of overrides returned by security
//! plugins.

use vstd::prelude::*;

use crate::text::{str_eq, str_trim, trim_chars};

verus! {

/// How much the agent may do on its own.
#[derive(Clone, Copy, Debug, PartialEq, Eq, Structural)]
pub enum AutonomyLevel {
    ReadOnly,
    Supervised,
    Full,
}

/// What a tool is about to do.
#[derive(Clone, Copy, Debug, PartialEq, Eq, Structural)]
pub enum ToolOperation {
    Read,
    Act,
}

/// The process-wide security policy.
#[derive(Clone, Debug)]
pub struct SecurityPolicy {
    pub autonomy: AutonomyLevel,
    pub workspace_only: bool,
    pub allowed_commands: Vec<String>,
    pub forbidden_paths: Vec<String>,
    pub allowed_roots: Vec<String>,
    pub max_actions_per_hour: u32,
    pub max_cost_per_day_cents: u32,
    pub require_approval_for_medium_risk: bool,
    pub block_high_risk_commands: bool,
    pub shell_env_passthrough: Vec<String>,
    /// Actions recorded in the current window.
    pub actions_recorded: u32,
}

impl Default for SecurityPolicy {
    /// Supervised autonomy, workspace confinement, and a moderate rate
    /// limit.
    fn default() -> (r: SecurityPolicy)
        ensures
            r.autonomy == AutonomyLevel::Supervised,
            r.workspace_only,
            r.allowed_commands@.len() == 0,
            r.forbidden_paths@.len() == 0,
            r.allowed_roots@.len() == 0,
            r.max_actions_per_hour == 100,
            r.max_cost_per_day_cents == 1000,
            r.require_approval_for_medium_risk,
            r.block_high_risk_commands,
            r.shell_env_passthrough@.len() == 0,
            r.actions_recorded == 0,
    {
        SecurityPolicy {
            autonomy: AutonomyLevel::Supervised,
            workspace_only: true,
            allowed_commands: Vec::new(),
            forbidden_paths: Vec::new(),
            allowed_roots: Vec::new(),
            max_actions_per_hour: 100,
            max_cost_per_day_cents: 1000,
            require_approval_for_medium_risk: true,
            block_high_risk_commands: true,
            shell_env_passthrough: Vec::new(),
            actions_recorded: 0,
        }
    }
}

impl SecurityPolicy {
    /// Build the policy from the autonomy configuration. Relative
    /// allowed roots are anchored at the workspace.
    pub fn from_config(autonomy: &crate::config::AutonomyConfig, workspace_dir: &str) -> (r:
        SecurityPolicy)
        ensures
            r.autonomy == autonomy.level,
            r.workspace_only == autonomy.workspace_only,
            r.allowed_commands@ == autonomy.allowed_commands@,
            r.forbidden_paths@ == autonomy.forbidden_paths@,
            r.max_actions_per_hour == autonomy.max_actions_per_hour,
            r.max_cost_per_day_cents == autonomy.max_cost_per_day_cents,
            r.require_approval_for_medium_risk == autonomy.require_approval_for_medium_risk,
            r.block_high_risk_commands == autonomy.block_high_risk_commands,
            r.shell_env_passthrough@ == autonomy.shell_env_passthrough@,
            r.actions_recorded == 0,
            r.allowed_roots@.len() <= autonomy.allowed_roots@.len(),
    {
        let mut roots: Vec<String> = Vec::new();
        let mut i: usize = 0;
        while i < autonomy.allowed_roots.len()
            invariant
                i <= autonomy.allowed_roots@.len(),
                roots@.len() <= i,
            decreases autonomy.allowed_roots@.len() - i,
        {
            match normalize_allowed_root(workspace_dir, autonomy.allowed_roots[i].as_str(), None) {
                Some(root) => roots.push(root),
                None => {},
            }
            i = i + 1;
        }
        SecurityPolicy {
            autonomy: autonomy.level,
            workspace_only: autonomy.workspace_only,
            allowed_commands: clone_string_vec(&autonomy.allowed_commands),
            forbidden_paths: clone_string_vec(&autonomy.forbidden_paths),
            allowed_roots: roots,
            max_actions_per_hour: autonomy.max_actions_per_hour,
            max_cost_per_day_cents: autonomy.max_cost_per_day_cents,
            require_approval_for_medium_risk: autonomy.require_approval_for_medium_risk,
            block_high_risk_commands: autonomy.block_high_risk_commands,
            shell_env_passthrough: clone_string_vec(&autonomy.shell_env_passthrough),
            actions_recorded: 0,
        }
    }

    /// Whether acting tools may run at all.
    pub fn can_act(&self) -> (r: bool)
        ensures
            r == (self.autonomy != AutonomyLevel::ReadOnly),
    {
        !matches!(self.autonomy, AutonomyLevel::ReadOnly)
    }

    /// Record one action against the hourly budget; refuse once the
    /// budget is spent.
    pub fn record_action(&mut self) -> (r: bool)
        ensures
            r == (old(self).actions_recorded < old(self).max_actions_per_hour),
            r ==> *final(self) == (SecurityPolicy {
                actions_recorded: (old(self).actions_recorded + 1) as u32,
                ..*old(self)
            }),
            !r ==> *final(self) == *old(self),
    {
        if self.actions_recorded < self.max_actions_per_hour {
            self.actions_recorded = self.actions_recorded + 1;
            true
        } else {
            false
        }
    }

    /// Gate one tool operation: an acting operation is refused under
    /// read-only autonomy and once the rate limit is spent.
    pub fn enforce_tool_operation(&mut self, op: ToolOperation, operation_name: &str) -> (r:
        Result<(), String>)
        ensures
            op == ToolOperation::Read ==> (r is Ok && *final(self) == *old(self)),
            (op == ToolOperation::Act && old(self).autonomy == AutonomyLevel::ReadOnly) ==> (r
                matches Err(e) && e@ == "Action '"@ + operation_name@
                + "' blocked: autonomy is read-only"@ && *final(self) == *old(self)),
            (op == ToolOperation::Act && old(self).autonomy != AutonomyLevel::ReadOnly
                && old(self).actions_recorded >= old(self).max_actions_per_hour) ==> (r
                matches Err(e) && e@ == "Action '"@ + operation_name@
                + "' blocked: Rate limit exceeded"@ && *final(self) == *old(self)),
            (op == ToolOperation::Act && old(self).autonomy != AutonomyLevel::ReadOnly
                && old(self).actions_recorded < old(self).max_actions_per_hour) ==> (r is Ok
                && *final(self) == (SecurityPolicy {
                actions_recorded: (old(self).actions_recorded + 1) as u32,
                ..*old(self)
            })),
    {
        if matches!(op, ToolOperation::Read) {
            return Ok(());
        }
        if !self.can_act() {
            let e = "Action '".to_owned().concat(operation_name).concat(
                "' blocked: autonomy is read-only",
            );
            proof {
                assert(e@ =~= "Action '"@ + operation_name@ + "' blocked: autonomy is read-only"@);
            }
            return Err(e);
        }
        if !self.record_action() {
            let e = "Action '".to_owned().concat(operation_name).concat(
                "' blocked: Rate limit exceeded",
            );
            proof {
                assert(e@ =~= "Action '"@ + operation_name@ + "' blocked: Rate limit exceeded"@);
            }
            return Err(e);
        }
        Ok(())
    }

    /// Whether a shell command passes the policy: with an allowlist the
    /// command must start with an allowed entry; without one, commands
    /// carrying a high-risk prefix are refused when high-risk blocking
    /// is on.
    pub fn is_command_allowed(&self, command: &str) -> (r: bool)
        ensures
            r == spec_command_allowed(*self, command@),
    {
        let trimmed = str_trim(command);
        if self.allowed_commands.len() > 0 {
            let mut i: usize = 0;
            while i < self.allowed_commands.len()
                invariant
                    i <= self.allowed_commands@.len(),
                    trimmed@ == trim_chars(command@),
                    forall|k: int|
                        0 <= k < i ==> !command_starts_with_entry(
                            trim_chars(command@),
                            (#[trigger] self.allowed_commands@[k])@,
                        ),
                decreases self.allowed_commands@.len() - i,
            {
                if crate::text::str_starts_with(trimmed, self.allowed_commands[i].as_str()) {
                    return true;
                }
                i = i + 1;
            }
            return false;
        }
        if self.block_high_risk_commands && command_is_high_risk(trimmed) {
            return false;
        }
        true
    }
}

/// Whether the policy admits one more acting operation: not read-only,
/// and the hourly action budget not yet spent.
pub open spec fn gate_admits(p: SecurityPolicy) -> bool {
    p.autonomy != AutonomyLevel::ReadOnly && p.actions_recorded < p.max_actions_per_hour
}

/// Whether the policy admits a shell command: with a configured
/// allowlist the trimmed command must start with one of its entries;
/// without one, only high-risk prefixes are refused, and only while
/// high-risk blocking is on.
pub open spec fn spec_command_allowed(policy: SecurityPolicy, command: Seq<char>) -> bool {
    if policy.allowed_commands@.len() > 0 {
        exists|i: int|
            0 <= i < policy.allowed_commands@.len() && command_starts_with_entry(
                trim_chars(command),
                (#[trigger] policy.allowed_commands@[i])@,
            )
    } else {
        !(policy.block_high_risk_commands && is_high_risk_command(trim_chars(command)))
    }
}

/// A command is admitted by an allowlist entry when it starts with it.
pub open spec fn command_starts_with_entry(command: Seq<char>, entry: Seq<char>) -> bool {
    crate::url_validation::spec_has_prefix(command, entry)
}

/// Prefixes treated as destructive.
pub open spec fn is_high_risk_command(command: Seq<char>) -> bool {
    ||| crate::url_validation::spec_has_prefix(command, "rm -rf"@)
    ||| crate::url_validation::spec_has_prefix(command, "mkfs"@)
    ||| crate::url_validation::spec_has_prefix(command, "dd if="@)
    ||| crate::url_validation::spec_has_prefix(command, "shutdown"@)
    ||| crate::url_validation::spec_has_prefix(command, "reboot"@)
    ||| crate::url_validation::spec_has_prefix(command, ":(){"@)
}

fn command_is_high_risk(command: &str) -> (r: bool)
    ensures
        r == is_high_risk_command(command@),
{
    crate::text::str_starts_with(command, "rm -rf") || crate::text::str_starts_with(
        command,
        "mkfs",
    ) || crate::text::str_starts_with(command, "dd if=") || crate::text::str_starts_with(
        command,
        "shutdown",
    ) || crate::text::str_starts_with(command, "reboot") || crate::text::str_starts_with(
        command,
        ":(){",
    )
}

/// Overrides a security plugin may return; absent members leave the
/// policy's value in place.
pub struct SecurityPolicyOverrides {
    pub autonomy: Option<AutonomyLevel>,
    pub workspace_only: Option<bool>,
    pub allowed_commands: Option<Vec<String>>,
    pub forbidden_paths: Option<Vec<String>>,
    pub allowed_roots: Option<Vec<String>>,
    pub max_actions_per_hour: Option<u32>,
    pub max_cost_per_day_cents: Option<u32>,
    pub require_approval_for_medium_risk: Option<bool>,
    pub block_high_risk_commands: Option<bool>,
    pub shell_env_passthrough: Option<Vec<String>>,
}

impl Default for SecurityPolicyOverrides {
    /// No member overridden.
    fn default() -> (r: SecurityPolicyOverrides)
        ensures
            r.autonomy is None,
            r.workspace_only is None,
            r.allowed_commands is None,
            r.forbidden_paths is None,
            r.allowed_roots is None,
            r.max_actions_per_hour is None,
            r.max_cost_per_day_cents is None,
            r.require_approval_for_medium_risk is None,
            r.block_high_risk_commands is None,
            r.shell_env_passthrough is None,
    {
        SecurityPolicyOverrides {
            autonomy: None,
            workspace_only: None,
            allowed_commands: None,
            forbidden_paths: None,
            allowed_roots: None,
            max_actions_per_hour: None,
            max_cost_per_day_cents: None,
            require_approval_for_medium_risk: None,
            block_high_risk_commands: None,
            shell_env_passthrough: None,
        }
    }
}

/// What a string list looks like after sanitisation: each value trimmed,
/// blank values dropped, order kept.
pub open spec fn spec_sanitized_list(s: Seq<String>) -> Seq<Seq<char>>
    decreases s.len(),
{
    if s.len() == 0 {
        Seq::empty()
    } else {
        let rest = spec_sanitized_list(s.drop_last());
        if trim_chars(s.last()@).len() > 0 {
            rest.push(trim_chars(s.last()@))
        } else {
            rest
        }
    }
}

/// Trim every value and drop the blanks.
pub fn sanitize_string_list(values: Vec<String>) -> (r: Vec<String>)
    ensures
        r@.map_values(|x: String| x@) == spec_sanitized_list(values@),
{
    let mut out: Vec<String> = Vec::new();
    let mut i: usize = 0;
    while i < values.len()
        invariant
            i <= values@.len(),
            out@.map_values(|x: String| x@) == spec_sanitized_list(values@.subrange(0, i as int)),
        decreases values@.len() - i,
    {
        let trimmed = str_trim(values[i].as_str());
        if trimmed.unicode_len() > 0 {
            out.push(trimmed.to_owned());
        }
        i = i + 1;
        proof {
            let pre = values@.subrange(0, i as int);
            assert(pre.drop_last() =~= values@.subrange(0, i as int - 1));
            assert(pre.last() == values@[i as int - 1]);
            assert(out@.map_values(|x: String| x@) =~= spec_sanitized_list(pre));
        }
    }
    proof {
        assert(values@.subrange(0, values@.len() as int) == values@);
    }
    out
}

/// What a configured root becomes: `~` expands against the given home
/// directory, absolute paths stand, relative paths are anchored at the
/// workspace; a blank value is dropped.
pub open spec fn spec_normalized_root(
    workspace_dir: Seq<char>,
    value: Seq<char>,
    home: Option<Seq<char>>,
) -> Option<Seq<char>> {
    let t = trim_chars(value);
    if t.len() == 0 {
        None
    } else {
        let expanded = match home {
            Some(h) => if t == "~"@ {
                h
            } else if crate::url_validation::spec_has_prefix(t, "~/"@) {
                h + "/"@ + t.skip(2)
            } else {
                t
            },
            None => t,
        };
        if expanded.len() > 0 && expanded[0] == '/' {
            Some(expanded)
        } else {
            Some(workspace_dir + "/"@ + expanded)
        }
    }
}

/// Normalise one configured root. The home directory, when known, is
/// read by the embedding layer and handed in.
pub fn normalize_allowed_root(workspace_dir: &str, value: &str, home: Option<&str>) -> (r: Option<
    String,
>)
    ensures
        match r {
            Some(p) => spec_normalized_root(
                workspace_dir@,
                value@,
                match home {
                    Some(h) => Some(h@),
                    None => None,
                },
            ) == Some(p@),
            None => spec_normalized_root(
                workspace_dir@,
                value@,
                match home {
                    Some(h) => Some(h@),
                    None => None,
                },
            ) is None,
        },
{
    let trimmed = str_trim(value);
    if trimmed.unicode_len() == 0 {
        return None;
    }
    proof {
        reveal_strlit("~/");
    }
    let expanded: String = if str_eq(trimmed, "~") && home.is_some() {
        match home {
            Some(h) => h.to_owned(),
            None => String::new(),
        }
    } else if crate::text::str_starts_with(trimmed, "~/") && home.is_some() {
        match home {
            Some(h) => {
                let n = trimmed.unicode_len();
                let tail = trimmed.substring_char(2, n);
                let joined = h.to_owned().concat("/").concat(tail);
                proof {
                    assert(joined@ =~= h@ + "/"@ + trimmed@.skip(2));
                }
                joined
            },
            None => String::new(),
        }
    } else {
        trimmed.to_owned()
    };
    if expanded.as_str().unicode_len() > 0 && expanded.as_str().get_char(0) == '/' {
        Some(expanded)
    } else {
        let joined = workspace_dir.to_owned().concat("/").concat(expanded.as_str());
        proof {
            assert(joined@ =~= workspace_dir@ + "/"@ + expanded@);
        }
        Some(joined)
    }
}

/// What a configured root list becomes: each value normalised by
/// [`spec_normalized_root`], blanks dropped, order kept.
pub open spec fn spec_normalized_roots(
    workspace_dir: Seq<char>,
    roots: Seq<String>,
    home: Option<Seq<char>>,
) -> Seq<Seq<char>>
    decreases roots.len(),
{
    if roots.len() == 0 {
        Seq::empty()
    } else {
        let rest = spec_normalized_roots(workspace_dir, roots.drop_last(), home);
        match spec_normalized_root(workspace_dir, roots.last()@, home) {
            Some(p) => rest.push(p),
            None => rest,
        }
    }
}

/// The mathematical view of a policy: every member the overrides can
/// touch, with the string lists as character sequences.
#[verifier::ext_equal]
pub struct PolicyModel {
    pub autonomy: AutonomyLevel,
    pub workspace_only: bool,
    pub allowed_commands: Seq<Seq<char>>,
    pub forbidden_paths: Seq<Seq<char>>,
    pub allowed_roots: Seq<Seq<char>>,
    pub max_actions_per_hour: u32,
    pub max_cost_per_day_cents: u32,
    pub require_approval_for_medium_risk: bool,
    pub block_high_risk_commands: bool,
    pub shell_env_passthrough: Seq<Seq<char>>,
    pub actions_recorded: u32,
}

/// The view of a policy value.
pub open spec fn policy_model(p: SecurityPolicy) -> PolicyModel {
    PolicyModel {
        autonomy: p.autonomy,
        workspace_only: p.workspace_only,
        allowed_commands: p.allowed_commands@.map_values(|x: String| x@),
        forbidden_paths: p.forbidden_paths@.map_values(|x: String| x@),
        allowed_roots: p.allowed_roots@.map_values(|x: String| x@),
        max_actions_per_hour: p.max_actions_per_hour,
        max_cost_per_day_cents: p.max_cost_per_day_cents,
        require_approval_for_medium_risk: p.require_approval_for_medium_risk,
        block_high_risk_commands: p.block_high_risk_commands,
        shell_env_passthrough: p.shell_env_passthrough@.map_values(|x: String| x@),
        actions_recorded: p.actions_recorded,
    }
}

/// What applying one overrides document does to a policy's view:
/// present members replace the view's values, string lists sanitised,
/// roots normalised, and a zero action limit ignored.
pub open spec fn spec_apply_overrides(
    m: PolicyModel,
    o: SecurityPolicyOverrides,
    workspace_dir: Seq<char>,
    home: Option<Seq<char>>,
) -> PolicyModel {
    PolicyModel {
        autonomy: (match o.autonomy {
            Some(a) => a,
            None => m.autonomy,
        }),
        workspace_only: (match o.workspace_only {
            Some(w) => w,
            None => m.workspace_only,
        }),
        allowed_commands: (match o.allowed_commands {
            Some(v) => spec_sanitized_list(v@),
            None => m.allowed_commands,
        }),
        forbidden_paths: (match o.forbidden_paths {
            Some(v) => spec_sanitized_list(v@),
            None => m.forbidden_paths,
        }),
        allowed_roots: (match o.allowed_roots {
            Some(v) => spec_normalized_roots(workspace_dir, v@, home),
            None => m.allowed_roots,
        }),
        max_actions_per_hour: (match o.max_actions_per_hour {
            Some(limit) => if limit == 0 {
                m.max_actions_per_hour
            } else {
                limit
            },
            None => m.max_actions_per_hour,
        }),
        max_cost_per_day_cents: (match o.max_cost_per_day_cents {
            Some(limit) => limit,
            None => m.max_cost_per_day_cents,
        }),
        require_approval_for_medium_risk: (match o.require_approval_for_medium_risk {
            Some(v) => v,
            None => m.require_approval_for_medium_risk,
        }),
        block_high_risk_commands: (match o.block_high_risk_commands {
            Some(v) => v,
            None => m.block_high_risk_commands,
        }),
        shell_env_passthrough: (match o.shell_env_passthrough {
            Some(v) => spec_sanitized_list(v@),
            None => m.shell_env_passthrough,
        }),
        actions_recorded: m.actions_recorded,
    }
}

/// The in-order fold of a list of overrides over a policy's view.
pub open spec fn spec_apply_all(
    m: PolicyModel,
    os: Seq<SecurityPolicyOverrides>,
    workspace_dir: Seq<char>,
    home: Option<Seq<char>>,
) -> PolicyModel
    decreases os.len(),
{
    if os.len() == 0 {
        m
    } else {
        spec_apply_all(
            spec_apply_overrides(m, os[0], workspace_dir, home),
            os.drop_first(),
            workspace_dir,
            home,
        )
    }
}

/// Apply one plugin's overrides to the policy: present members replace
/// the policy's values; string lists are sanitised, roots normalised,
/// and a zero action limit is ignored rather than adopted.
pub fn apply_overrides(
    policy: &mut SecurityPolicy,
    overrides: SecurityPolicyOverrides,
    workspace_dir: &str,
    home: Option<&str>,
)
    ensures
        policy_model(*final(policy)) == spec_apply_overrides(
            policy_model(*old(policy)),
            overrides,
            workspace_dir@,
            match home {
                Some(h) => Some(h@),
                None => None,
            },
        ),
{
    let ghost ghome: Option<Seq<char>> = match home {
        Some(h) => Some(h@),
        None => None,
    };
    let updated = SecurityPolicy {
        autonomy: match overrides.autonomy {
            Some(a) => a,
            None => policy.autonomy,
        },
        workspace_only: match overrides.workspace_only {
            Some(w) => w,
            None => policy.workspace_only,
        },
        allowed_commands: match overrides.allowed_commands {
            Some(v) => sanitize_string_list(v),
            None => clone_string_vec(&policy.allowed_commands),
        },
        forbidden_paths: match overrides.forbidden_paths {
            Some(v) => sanitize_string_list(v),
            None => clone_string_vec(&policy.forbidden_paths),
        },
        allowed_roots: match &overrides.allowed_roots {
            Some(v) => normalize_roots_vec(workspace_dir, v, home),
            None => clone_string_vec(&policy.allowed_roots),
        },
        max_actions_per_hour: match overrides.max_actions_per_hour {
            Some(limit) => if limit == 0 {
                policy.max_actions_per_hour
            } else {
                limit
            },
            None => policy.max_actions_per_hour,
        },
        max_cost_per_day_cents: match overrides.max_cost_per_day_cents {
            Some(limit) => limit,
            None => policy.max_cost_per_day_cents,
        },
        require_approval_for_medium_risk: match overrides.require_approval_for_medium_risk {
            Some(v) => v,
            None => policy.require_approval_for_medium_risk,
        },
        block_high_risk_commands: match overrides.block_high_risk_commands {
            Some(v) => v,
            None => policy.block_high_risk_commands,
        },
        shell_env_passthrough: match overrides.shell_env_passthrough {
            Some(v) => sanitize_string_list(v),
            None => clone_string_vec(&policy.shell_env_passthrough),
        },
        actions_recorded: policy.actions_recorded,
    };
    *policy = updated;
    proof {
        assert(policy_model(*policy) =~= spec_apply_overrides(
            policy_model(*old(policy)),
            overrides,
            workspace_dir@,
            ghome,
        ));
    }
}

/// Normalise a configured root list against the workspace and home.
fn normalize_roots_vec(workspace_dir: &str, roots: &Vec<String>, home: Option<&str>) -> (r: Vec<
    String,
>)
    ensures
        r@.map_values(|x: String| x@) == spec_normalized_roots(
            workspace_dir@,
            roots@,
            match home {
                Some(h) => Some(h@),
                None => None,
            },
        ),
{
    let ghost ghome: Option<Seq<char>> = match home {
        Some(h) => Some(h@),
        None => None,
    };
    let mut normalized: Vec<String> = Vec::new();
    let mut i: usize = 0;
    while i < roots.len()
        invariant
            i <= roots@.len(),
            ghome == (match home {
                Some(h) => Some(h@),
                None => None,
            }),
            normalized@.map_values(|x: String| x@) == spec_normalized_roots(
                workspace_dir@,
                roots@.subrange(0, i as int),
                ghome,
            ),
        decreases roots@.len() - i,
    {
        match normalize_allowed_root(workspace_dir, roots[i].as_str(), home) {
            Some(root) => normalized.push(root),
            None => {},
        }
        i = i + 1;
        proof {
            let pre = roots@.subrange(0, i as int);
            assert(pre.drop_last() =~= roots@.subrange(0, i as int - 1));
            assert(pre.last() == roots@[i as int - 1]);
            assert(normalized@.map_values(|x: String| x@) =~= spec_normalized_roots(
                workspace_dir@,
                pre,
                ghome,
            ));
        }
    }
    proof {
        assert(roots@.subrange(0, roots@.len() as int) == roots@);
    }
    normalized
}

/// Fold every security plugin's overrides into the policy, in order:
/// the result's view is exactly [`spec_apply_all`] of the inputs.
/// Collecting the overrides runs the plugin subprocesses and happens in
/// the embedding layer; a plugin whose invocation failed contributes
/// nothing to the list.
pub fn apply_security_plugins(
    policy: SecurityPolicy,
    override_results: Vec<SecurityPolicyOverrides>,
    workspace_dir: &str,
    home: Option<&str>,
) -> (r: SecurityPolicy)
    ensures
        override_results@.len() == 0 ==> r == policy,
        policy_model(r) == spec_apply_all(
            policy_model(policy),
            override_results@,
            workspace_dir@,
            match home {
                Some(h) => Some(h@),
                None => None,
            },
        ),
{
    let ghost ghome: Option<Seq<char>> = match home {
        Some(h) => Some(h@),
        None => None,
    };
    let ghost goal = spec_apply_all(policy_model(policy), override_results@, workspace_dir@, ghome);
    let mut current = policy;
    let mut overrides = override_results;
    if overrides.len() == 0 {
        return current;
    }
    while overrides.len() > 0
        invariant
            ghome == (match home {
                Some(h) => Some(h@),
                None => None,
            }),
            goal == spec_apply_all(policy_model(current), overrides@, workspace_dir@, ghome),
        decreases overrides@.len(),
    {
        let ghost before = overrides@;
        let o = overrides.remove(0);
        proof {
            assert(overrides@ =~= before.drop_first());
            assert(o == before[0]);
        }
        apply_overrides(&mut current, o, workspace_dir, home);
    }
    current
}

fn clone_string_vec(v: &Vec<String>) -> (r: Vec<String>)
    ensures
        r@ == v@,
{
    let mut out: Vec<String> = Vec::new();
    let mut i: usize = 0;
    while i < v.len()
        invariant
            i <= v@.len(),
            out@ == v@.subrange(0, i as int),
        decreases v@.len() - i,
    {
        out.push(v[i].clone());
        i = i + 1;
        proof {
            assert(v@.subrange(0, i as int) =~= v@.subrange(0, i as int - 1).push(
                v@[i as int - 1],
            ));
        }
    }
    proof {
        assert(v@.subrange(0, v@.len() as int) == v@);
    }
    out
}

} // verus!
