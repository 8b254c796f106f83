//! The plugin registry: out-of-process plugins declared in configuration
//! or discovered as manifests, resolved to the command lines that the
//! subprocess protocol spawns. Keys are normalised plugin ids; the
//! registry behaves as a last-write-wins map.

use vstd::prelude::*;

use crate::text::{
    lower_char, spec_str_le, str_le, str_trim, to_ascii_lowercase_str, trim_chars,
};

verus! {

/// Which subsystem a plugin implements.
#[derive(Clone, Copy, Debug, PartialEq, Eq, Structural)]
pub enum PluginKind {
    Channel,
    Memory,
    Security,
}

/// Where a resolved plugin came from.
#[derive(Clone, Debug)]
pub enum PluginSource {
    /// Declared in the configuration's registry table.
    Config,
    /// Discovered as a manifest file at this path.
    Manifest(String),
}

/// A plugin resolved to something the subprocess protocol can spawn.
#[derive(Clone, Debug)]
pub struct ResolvedPlugin {
    pub id: String,
    pub kind: PluginKind,
    pub command: String,
    pub args: Vec<String>,
    pub env: Vec<(String, String)>,
    pub timeout_secs: u64,
    pub source: PluginSource,
}

/// A plugin declaration from the configuration's registry table.
#[derive(Clone, Debug)]
pub struct PluginDefinition {
    pub enabled: bool,
    pub kind: PluginKind,
    pub command: String,
    pub args: Vec<String>,
    pub env: Vec<(String, String)>,
    pub timeout_secs: u64,
}

/// The `[plugins]` section of the configuration.
#[derive(Clone, Debug)]
pub struct PluginsConfig {
    pub enabled: bool,
    /// Directory scanned for plugin manifests, if any. Reading it is file
    /// I/O and happens outside the library; the discovered manifests are
    /// handed to [`PluginRegistry::from_entries`].
    pub directory: Option<String>,
    pub registry: Vec<(String, PluginDefinition)>,
}

impl Default for PluginsConfig {
    /// Plugins are disabled unless configured.
    fn default() -> (r: PluginsConfig)
        ensures
            !r.enabled,
            r.directory is None,
            r.registry@.len() == 0,
    {
        PluginsConfig { enabled: false, directory: None, registry: Vec::new() }
    }
}

/// A normalised plugin id: trimmed and ASCII-lowercased.
pub open spec fn spec_normalize_id(s: Seq<char>) -> Seq<char> {
    trim_chars(s).map_values(|c: char| lower_char(c))
}

/// Normalise a plugin id for use as a registry key.
pub fn normalize_plugin_id(plugin_id: &str) -> (r: String)
    ensures
        r@ == spec_normalize_id(plugin_id@),
{
    to_ascii_lowercase_str(str_trim(plugin_id))
}

/// Characters allowed in a plugin id.
pub open spec fn is_id_char(c: char) -> bool {
    (48 <= c as u32 && c as u32 <= 57) || (65 <= c as u32 && c as u32 <= 90) || (97 <= c as u32
        && c as u32 <= 122) || c == '-' || c == '_'
}

pub open spec fn spec_valid_plugin_id(s: Seq<char>) -> bool {
    trim_chars(s).len() > 0 && forall|i: int| 0 <= i < s.len() ==> is_id_char(#[trigger] s[i])
}

/// A plugin id is valid when it is non-blank and uses only letters,
/// digits, `-` or `_`.
pub fn is_valid_plugin_id(plugin_id: &str) -> (r: bool)
    ensures
        r == spec_valid_plugin_id(plugin_id@),
{
    let trimmed = str_trim(plugin_id);
    if trimmed.unicode_len() == 0 {
        return false;
    }
    let n = plugin_id.unicode_len();
    let mut i: usize = 0;
    while i < n
        invariant
            n == plugin_id@.len(),
            i <= n,
            forall|k: int| 0 <= k < i ==> is_id_char(#[trigger] plugin_id@[k]),
        decreases n - i,
    {
        let c = plugin_id.get_char(i);
        let v = c as u32;
        let ok = (48 <= v && v <= 57) || (65 <= v && v <= 90) || (97 <= v && v <= 122) || c == '-'
            || c == '_';
        if !ok {
            return false;
        }
        i = i + 1;
    }
    true
}

/// The shape conditions a plugin declaration must meet.
pub open spec fn spec_valid_plugin_shape(id: Seq<char>, p: PluginDefinition) -> bool {
    &&& spec_valid_plugin_id(id)
    &&& trim_chars(p.command@).len() > 0
    &&& forall|i: int| 0 <= i < p.args@.len() ==> trim_chars(#[trigger] p.args@[i]@).len() > 0
    &&& p.timeout_secs > 0
}

/// Check a plugin declaration: a valid id, a non-blank command, no blank
/// argument, and a positive timeout.
pub fn validate_plugin_shape(plugin_id: &str, plugin: &PluginDefinition) -> (r: Result<
    (),
    String,
>)
    ensures
        r is Ok <==> spec_valid_plugin_shape(plugin_id@, *plugin),
{
    if !is_valid_plugin_id(plugin_id) {
        return Err(
            "invalid plugin ID '".to_owned().concat(plugin_id).concat(
                "'; use only letters, digits, '-' or '_'",
            ),
        );
    }
    if str_trim(plugin.command.as_str()).unicode_len() == 0 {
        return Err("plugin command must not be empty".to_owned());
    }
    let mut i: usize = 0;
    while i < plugin.args.len()
        invariant
            i <= plugin.args@.len(),
            forall|k: int| 0 <= k < i ==> trim_chars(#[trigger] plugin.args@[k]@).len() > 0,
        decreases plugin.args@.len() - i,
    {
        if str_trim(plugin.args[i].as_str()).unicode_len() == 0 {
            let msg = "plugin args[".to_owned().concat(
                crate::text::u64_to_string(i as u64).as_str(),
            ).concat("] must not be empty");
            return Err(msg);
        }
        i = i + 1;
    }
    if plugin.timeout_secs == 0 {
        return Err("plugin timeout_secs must be greater than 0".to_owned());
    }
    Ok(())
}

/// Some plugin before `upto` has this kind and exactly this id.
pub open spec fn id_of_kind_in_prefix(
    ps: Seq<(String, ResolvedPlugin)>,
    kind: PluginKind,
    id: Seq<char>,
    upto: int,
) -> bool {
    exists|t: int|
        0 <= t < upto && t < ps.len() && (#[trigger] ps[t]).1.kind == kind && ps[t].1.id@ == id
}

/// Some plugin of this kind carries exactly this id.
pub open spec fn id_of_kind_listed(
    ps: Seq<(String, ResolvedPlugin)>,
    kind: PluginKind,
    id: Seq<char>,
) -> bool {
    exists|i: int| 0 <= i < ps.len() && (#[trigger] ps[i]).1.kind == kind && ps[i].1.id@ == id
}

/// Some entry of the vector views as this character sequence.
pub open spec fn seq_has_string(r: Seq<String>, id: Seq<char>) -> bool {
    exists|k: int| 0 <= k < r.len() && (#[trigger] r[k])@ == id
}

/// A key is present in an association list.
pub open spec fn key_present(s: Seq<(String, ResolvedPlugin)>, key: Seq<char>) -> bool {
    exists|t: int| 0 <= t < s.len() && (#[trigger] s[t]).0@ == key
}

/// A key originates from a manifest plugin or an enabled registry entry.
pub open spec fn key_has_source(
    manifests: Seq<ResolvedPlugin>,
    entries: Seq<(String, PluginDefinition)>,
    key: Seq<char>,
) -> bool {
    ||| exists|t: int|
        0 <= t < manifests.len() && spec_normalize_id((#[trigger] manifests[t]).id@) == key
    ||| exists|t: int|
        0 <= t < entries.len() && (#[trigger] entries[t]).1.enabled && spec_normalize_id(
            entries[t].0@,
        ) == key
}

/// Index of the last enabled registry entry whose normalised id is the
/// given key, or -1.
pub open spec fn last_enabled_with_key(
    entries: Seq<(String, PluginDefinition)>,
    key: Seq<char>,
) -> int
    decreases entries.len(),
{
    if entries.len() == 0 {
        -1
    } else if entries.last().1.enabled && spec_normalize_id(entries.last().0@) == key {
        entries.len() - 1
    } else {
        last_enabled_with_key(entries.drop_last(), key)
    }
}

/// The registry's answer for a key reflects the last enabled entry with
/// that key: same id, kind, args, env and timeout, the command trimmed,
/// and the configuration as its source.
pub open spec fn lookup_reflects_entry(
    ps: Seq<(String, ResolvedPlugin)>,
    entries: Seq<(String, PluginDefinition)>,
    key: Seq<char>,
) -> bool {
    let e = last_enabled_with_key(entries, key);
    &&& e >= 0
    &&& spec_lookup(ps, key) matches Some(p) && p.id == entries[e].0 && p.kind == entries[e].1.kind
        && p.command@ == trim_chars(entries[e].1.command@) && p.args@ == entries[e].1.args@
        && p.env@ == entries[e].1.env@ && p.timeout_secs == entries[e].1.timeout_secs && p.source
        is Config
}

/// First entry of an association list with the given key.
pub open spec fn spec_lookup(s: Seq<(String, ResolvedPlugin)>, key: Seq<char>) -> Option<
    ResolvedPlugin,
>
    decreases s.len(),
{
    if s.len() == 0 {
        None
    } else if s[0].0@ == key {
        Some(s[0].1)
    } else {
        spec_lookup(s.drop_first(), key)
    }
}

proof fn lemma_last_enabled_bound(entries: Seq<(String, PluginDefinition)>, key: Seq<char>)
    ensures
        -1 <= last_enabled_with_key(entries, key) < entries.len(),
    decreases entries.len(),
{
    if entries.len() > 0 && !(entries.last().1.enabled && spec_normalize_id(entries.last().0@)
        == key) {
        lemma_last_enabled_bound(entries.drop_last(), key);
    }
}

proof fn lemma_subrange_step(entries: Seq<(String, PluginDefinition)>, j: int)
    requires
        0 <= j < entries.len(),
    ensures
        entries.subrange(0, j + 1).drop_last() == entries.subrange(0, j),
        entries.subrange(0, j + 1).last() == entries[j],
        entries.subrange(0, j + 1).len() == j + 1,
{
    assert(entries.subrange(0, j + 1).drop_last() =~= entries.subrange(0, j));
}

proof fn lemma_lookup_found(s: Seq<(String, ResolvedPlugin)>, key: Seq<char>, i: int)
    requires
        0 <= i < s.len(),
        s[i].0@ == key,
        forall|k: int| 0 <= k < i ==> #[trigger] s[k].0@ != key,
    ensures
        spec_lookup(s, key) == Some(s[i].1),
    decreases i,
{
    if i > 0 {
        lemma_lookup_found(s.drop_first(), key, i - 1);
    }
}

proof fn lemma_lookup_none(s: Seq<(String, ResolvedPlugin)>, key: Seq<char>)
    requires
        forall|k: int| 0 <= k < s.len() ==> #[trigger] s[k].0@ != key,
    ensures
        spec_lookup(s, key) is None,
    decreases s.len(),
{
    if s.len() > 0 {
        lemma_lookup_none(s.drop_first(), key);
    }
}

/// The registry of resolved plugins, keyed by normalised id.
#[derive(Clone, Debug)]
pub struct PluginRegistry {
    pub plugins: Vec<(String, ResolvedPlugin)>,
}

impl PluginRegistry {
    /// Keys are unique and each is the normalised id of its plugin.
    pub open spec fn wf(&self) -> bool {
        &&& forall|i: int, j: int|
            0 <= i < self.plugins@.len() && 0 <= j < self.plugins@.len() && i != j
                ==> #[trigger] self.plugins@[i].0@ != #[trigger] self.plugins@[j].0@
        &&& forall|i: int|
            0 <= i < self.plugins@.len() ==> #[trigger] self.plugins@[i].0@ == spec_normalize_id(
                self.plugins@[i].1.id@,
            )
    }

    /// An empty registry.
    pub fn empty() -> (r: PluginRegistry)
        ensures
            r.wf(),
            r.plugins@.len() == 0,
    {
        PluginRegistry { plugins: Vec::new() }
    }

    /// Insert a plugin under its normalised id, replacing any earlier
    /// entry with that key.
    fn upsert(&mut self, plugin: ResolvedPlugin)
        requires
            old(self).wf(),
        ensures
            final(self).wf(),
            spec_lookup(final(self).plugins@, spec_normalize_id(plugin.id@)) == Some(plugin),
            forall|k: Seq<char>|
                k != spec_normalize_id(plugin.id@) ==> #[trigger] spec_lookup(
                    final(self).plugins@,
                    k,
                ) == spec_lookup(old(self).plugins@, k),
            forall|k: int|
                0 <= k < final(self).plugins@.len() ==> ((#[trigger] final(self).plugins@[k]).0@
                    == spec_normalize_id(plugin.id@) || key_present(
                    old(self).plugins@,
                    final(self).plugins@[k].0@,
                )),
    {
        let key = normalize_plugin_id(plugin.id.as_str());
        let n = self.plugins.len();
        let mut i: usize = 0;
        while i < n
            invariant
                old(self).wf(),
                *self == *old(self),
                n == self.plugins@.len(),
                i <= n,
                key@ == spec_normalize_id(plugin.id@),
                forall|k: int| 0 <= k < i ==> #[trigger] self.plugins@[k].0@ != key@,
            decreases n - i,
        {
            if crate::text::str_eq(self.plugins[i].0.as_str(), key.as_str()) {
                let ghost before = self.plugins@;
                self.plugins.set(i, (key, plugin));
                proof {
                    assert forall|k2: Seq<char>|
                        k2 != spec_normalize_id(plugin.id@) implies #[trigger] spec_lookup(
                        self.plugins@,
                        k2,
                    ) == spec_lookup(before, k2) by {
                        lemma_lookup_update_other(before, i as int, (self.plugins@[i as int]), k2);
                    }
                    lemma_lookup_found(self.plugins@, key@, i as int);
                    assert forall|k: int|
                        0 <= k < self.plugins@.len() && k != i as int implies key_present(
                        before,
                        (#[trigger] self.plugins@[k]).0@,
                    ) by {
                        assert(before[k].0@ == self.plugins@[k].0@);
                    }
                }
                return ;
            }
            i = i + 1;
        }
        let ghost before = self.plugins@;
        self.plugins.push((key, plugin));
        proof {
            lemma_lookup_found(self.plugins@, spec_normalize_id(plugin.id@), n as int);
            assert forall|k2: Seq<char>|
                k2 != spec_normalize_id(plugin.id@) implies #[trigger] spec_lookup(
                self.plugins@,
                k2,
            ) == spec_lookup(before, k2) by {
                lemma_lookup_push_other(before, (self.plugins@[n as int]), k2);
            }
            assert forall|k: int|
                0 <= k < self.plugins@.len() && k != n as int implies key_present(
                before,
                (#[trigger] self.plugins@[k]).0@,
            ) by {
                assert(before[k].0@ == self.plugins@[k].0@);
            }
        }
    }

    /// Build a registry from already-discovered manifest plugins and the
    /// configuration's registry table. Manifests come first; each
    /// enabled registry entry then overrides any same-key plugin, later
    /// entries winning, so a key's answer reflects the last enabled
    /// entry with it. Disabled entries contribute nothing: every key of
    /// the result names a manifest or an enabled entry. With plugins
    /// disabled the registry is empty. A malformed enabled entry fails
    /// the whole build.
    pub fn from_entries(manifest_plugins: Vec<ResolvedPlugin>, config: &PluginsConfig) -> (r:
        Result<PluginRegistry, String>)
        ensures
            !config.enabled ==> (r matches Ok(reg) && reg.plugins@.len() == 0),
            r matches Ok(reg) ==> reg.wf(),
            r matches Ok(reg) ==> forall|k: int|
                0 <= k < reg.plugins@.len() ==> key_has_source(
                    manifest_plugins@,
                    config.registry@,
                    (#[trigger] reg.plugins@[k]).0@,
                ),
            (r is Ok && config.enabled) ==> forall|k: int|
                0 <= k < config.registry@.len() && (#[trigger] config.registry@[k]).1.enabled
                    ==> lookup_reflects_entry(
                    (r->Ok_0).plugins@,
                    config.registry@,
                    spec_normalize_id(config.registry@[k].0@),
                ),
            (config.enabled && r is Err) ==> exists|k: int|
                0 <= k < config.registry@.len() && (#[trigger] config.registry@[k]).1.enabled
                    && !spec_valid_plugin_shape(
                    config.registry@[k].0@,
                    config.registry@[k].1,
                ),
    {
        if !config.enabled {
            return Ok(PluginRegistry::empty());
        }
        let mut reg = PluginRegistry::empty();
        let manifests = manifest_plugins;
        let mut i: usize = 0;
        let n = manifests.len();
        while i < n
            invariant
                reg.wf(),
                i <= n,
                n == manifests@.len(),
                forall|k: int|
                    0 <= k < reg.plugins@.len() ==> exists|t: int|
                        0 <= t < manifests@.len() && spec_normalize_id(
                            (#[trigger] manifests@[t]).id@,
                        ) == (#[trigger] reg.plugins@[k]).0@,
            decreases n - i,
        {
            let ghost before = reg.plugins@;
            let p = clone_plugin(&manifests[i]);
            reg.upsert(p);
            proof {
                assert forall|k: int|
                    0 <= k < reg.plugins@.len() implies exists|t: int|
                    0 <= t < manifests@.len() && spec_normalize_id((#[trigger] manifests@[t]).id@)
                        == (#[trigger] reg.plugins@[k]).0@ by {
                    if reg.plugins@[k].0@ == spec_normalize_id(p.id@) {
                        assert(spec_normalize_id(manifests@[i as int].id@) == reg.plugins@[k].0@);
                    } else {
                        assert(key_present(before, reg.plugins@[k].0@));
                        let t0 = choose|t0: int|
                            0 <= t0 < before.len() && (#[trigger] before[t0]).0@
                                == reg.plugins@[k].0@;
                    }
                }
            }
            i = i + 1;
        }
        let ghost entries = config.registry@;
        let m = config.registry.len();
        let mut j: usize = 0;
        while j < m
            invariant
                config.enabled,
                reg.wf(),
                j <= m,
                m == entries.len(),
                entries == config.registry@,
                forall|k: int|
                    0 <= k < reg.plugins@.len() ==> key_has_source(
                        manifests@,
                        entries,
                        (#[trigger] reg.plugins@[k]).0@,
                    ),
                forall|k: int|
                    0 <= k < j && (#[trigger] entries[k]).1.enabled ==> lookup_reflects_entry(
                        reg.plugins@,
                        entries.subrange(0, j as int),
                        spec_normalize_id(entries[k].0@),
                    ),
                forall|k: int|
                    0 <= k < j && (#[trigger] entries[k]).1.enabled ==> spec_valid_plugin_shape(
                        entries[k].0@,
                        entries[k].1,
                    ),
            decreases m - j,
        {
            let ghost before = reg.plugins@;
            let enabled = config.registry[j].1.enabled;
            if enabled {
                let plugin_id = &config.registry[j].0;
                let def = &config.registry[j].1;
                match validate_plugin_shape(plugin_id.as_str(), def) {
                    Ok(_) => {},
                    Err(e) => {
                        let msg = "Invalid plugins.registry.".to_owned().concat(
                            plugin_id.as_str(),
                        ).concat(" definition: ").concat(e.as_str());
                        return Err(msg);
                    },
                }
                let resolved = ResolvedPlugin {
                    id: plugin_id.clone(),
                    kind: def.kind,
                    command: str_trim(def.command.as_str()).to_owned(),
                    args: clone_strings(&def.args),
                    env: clone_pairs(&def.env),
                    timeout_secs: def.timeout_secs,
                    source: PluginSource::Config,
                };
                let ghost newkey = spec_normalize_id(entries[j as int].0@);
                proof {
                    assert(spec_normalize_id(resolved.id@) == newkey);
                }
                reg.upsert(resolved);
                proof {
                    lemma_subrange_step(entries, j as int);
                    assert forall|k: int|
                        0 <= k < reg.plugins@.len() implies key_has_source(
                        manifests@,
                        entries,
                        (#[trigger] reg.plugins@[k]).0@,
                    ) by {
                        if reg.plugins@[k].0@ == newkey {
                            assert((#[trigger] entries[j as int]).1.enabled);
                        } else {
                            assert(key_present(before, reg.plugins@[k].0@));
                            let t0 = choose|t0: int|
                                0 <= t0 < before.len() && (#[trigger] before[t0]).0@
                                    == reg.plugins@[k].0@;
                        }
                    }
                    assert forall|k: int|
                        0 <= k < j + 1 && (#[trigger] entries[k]).1.enabled
                            implies lookup_reflects_entry(
                        reg.plugins@,
                        entries.subrange(0, j as int + 1),
                        spec_normalize_id(entries[k].0@),
                    ) by {
                        let key = spec_normalize_id(entries[k].0@);
                        let sub0 = entries.subrange(0, j as int);
                        let sub1 = entries.subrange(0, j as int + 1);
                        if key == newkey {
                            assert(sub1.last() == entries[j as int]);
                            assert(last_enabled_with_key(sub1, key) == j as int);
                            assert(sub1[j as int] == entries[j as int]);
                            assert(spec_lookup(reg.plugins@, key) == Some(resolved));
                            assert(resolved.id == entries[j as int].0);
                            assert(resolved.kind == entries[j as int].1.kind);
                        } else {
                            assert(k < j);
                            assert(lookup_reflects_entry(before, sub0, key));
                            lemma_last_enabled_bound(sub0, key);
                            let e = last_enabled_with_key(sub0, key);
                            assert(last_enabled_with_key(sub1, key) == e);
                            assert(0 <= e < j);
                            assert(sub0[e] == entries[e]);
                            assert(sub1[e] == entries[e]);
                            assert(spec_lookup(reg.plugins@, key) == spec_lookup(before, key));
                        }
                    }
                }
            } else {
                proof {
                    lemma_subrange_step(entries, j as int);
                    assert forall|k: int|
                        0 <= k < j + 1 && (#[trigger] entries[k]).1.enabled
                            implies lookup_reflects_entry(
                        reg.plugins@,
                        entries.subrange(0, j as int + 1),
                        spec_normalize_id(entries[k].0@),
                    ) by {
                        let key = spec_normalize_id(entries[k].0@);
                        let sub0 = entries.subrange(0, j as int);
                        let sub1 = entries.subrange(0, j as int + 1);
                        assert(sub1.last() == entries[j as int]);
                        assert(last_enabled_with_key(sub1, key) == last_enabled_with_key(
                            sub0,
                            key,
                        ));
                        assert(k < j);
                        assert(lookup_reflects_entry(reg.plugins@, sub0, key));
                        lemma_last_enabled_bound(sub0, key);
                        let e = last_enabled_with_key(sub0, key);
                        assert(0 <= e < j);
                        assert(sub0[e] == entries[e]);
                        assert(sub1[e] == entries[e]);
                    }
                }
            }
            j = j + 1;
        }
        proof {
            assert(entries.subrange(0, entries.len() as int) == entries);
        }
        Ok(reg)
    }

    /// Build a registry from the configuration's registry table alone.
    /// Manifest discovery reads the file system and is done by the
    /// embedding layer, which then calls [`PluginRegistry::from_entries`];
    /// the workspace directory only anchors that discovery.
    pub fn from_config(config: &PluginsConfig, _workspace_dir: &str) -> (r: Result<
        PluginRegistry,
        String,
    >)
        ensures
            !config.enabled ==> (r matches Ok(reg) && reg.plugins@.len() == 0),
            r matches Ok(reg) ==> reg.wf(),
            r matches Ok(reg) ==> forall|k: int|
                0 <= k < reg.plugins@.len() ==> key_has_source(
                    Seq::<ResolvedPlugin>::empty(),
                    config.registry@,
                    (#[trigger] reg.plugins@[k]).0@,
                ),
            (r is Ok && config.enabled) ==> forall|k: int|
                0 <= k < config.registry@.len() && (#[trigger] config.registry@[k]).1.enabled
                    ==> lookup_reflects_entry(
                    (r->Ok_0).plugins@,
                    config.registry@,
                    spec_normalize_id(config.registry@[k].0@),
                ),
            (config.enabled && r is Err) ==> exists|k: int|
                0 <= k < config.registry@.len() && (#[trigger] config.registry@[k]).1.enabled
                    && !spec_valid_plugin_shape(
                    config.registry@[k].0@,
                    config.registry@[k].1,
                ),
    {
        let empty: Vec<ResolvedPlugin> = Vec::new();
        proof {
            assert(empty@ =~= Seq::<ResolvedPlugin>::empty());
        }
        PluginRegistry::from_entries(empty, config)
    }

    /// Build a registry from the runtime's plugin configuration. The
    /// process-global configuration copy is owned by the embedding
    /// layer, which hands it in here together with any discovered
    /// manifests.
    pub fn from_runtime(
        config: &PluginsConfig,
        manifest_plugins: Vec<ResolvedPlugin>,
    ) -> (r: Result<PluginRegistry, String>)
        ensures
            !config.enabled ==> (r matches Ok(reg) && reg.plugins@.len() == 0),
            r matches Ok(reg) ==> reg.wf(),
            r matches Ok(reg) ==> forall|k: int|
                0 <= k < reg.plugins@.len() ==> key_has_source(
                    manifest_plugins@,
                    config.registry@,
                    (#[trigger] reg.plugins@[k]).0@,
                ),
            (r is Ok && config.enabled) ==> forall|k: int|
                0 <= k < config.registry@.len() && (#[trigger] config.registry@[k]).1.enabled
                    ==> lookup_reflects_entry(
                    (r->Ok_0).plugins@,
                    config.registry@,
                    spec_normalize_id(config.registry@[k].0@),
                ),
    {
        PluginRegistry::from_entries(manifest_plugins, config)
    }

    /// Look a plugin up by id (normalised before the lookup).
    pub fn get(&self, plugin_id: &str) -> (r: Option<&ResolvedPlugin>)
        ensures
            match r {
                Some(p) => spec_lookup(self.plugins@, spec_normalize_id(plugin_id@)) == Some(*p),
                None => spec_lookup(self.plugins@, spec_normalize_id(plugin_id@)) is None,
            },
    {
        let key = normalize_plugin_id(plugin_id);
        let n = self.plugins.len();
        let mut i: usize = 0;
        while i < n
            invariant
                n == self.plugins@.len(),
                i <= n,
                key@ == spec_normalize_id(plugin_id@),
                forall|k: int| 0 <= k < i ==> #[trigger] self.plugins@[k].0@ != key@,
            decreases n - i,
        {
            if crate::text::str_eq(self.plugins[i].0.as_str(), key.as_str()) {
                proof {
                    lemma_lookup_found(self.plugins@, key@, i as int);
                }
                return Some(&self.plugins[i].1);
            }
            i = i + 1;
        }
        proof {
            lemma_lookup_none(self.plugins@, key@);
        }
        None
    }

    /// Look a memory plugin up: a plugin of another kind is not returned.
    pub fn memory(&self, plugin_id: &str) -> (r: Option<&ResolvedPlugin>)
        ensures
            match r {
                Some(p) => spec_lookup(self.plugins@, spec_normalize_id(plugin_id@)) == Some(*p)
                    && p.kind == PluginKind::Memory,
                None => match spec_lookup(self.plugins@, spec_normalize_id(plugin_id@)) {
                    Some(q) => q.kind != PluginKind::Memory,
                    None => true,
                },
            },
    {
        match self.get(plugin_id) {
            Some(p) => {
                if matches!(p.kind, PluginKind::Memory) {
                    Some(p)
                } else {
                    None
                }
            },
            None => None,
        }
    }

    /// The ids of every plugin of a kind: exactly those ids, each once,
    /// in ascending order.
    pub fn ids_by_kind(&self, kind: PluginKind) -> (r: Vec<String>)
        requires
            self.wf(),
        ensures
            forall|a: int, b: int|
                0 <= a < b < r@.len() ==> spec_str_le(#[trigger] r@[a]@, #[trigger] r@[b]@),
            forall|a: int, b: int|
                0 <= a < b < r@.len() ==> #[trigger] r@[a]@ != #[trigger] r@[b]@,
            forall|k: int|
                0 <= k < r@.len() ==> id_of_kind_listed(self.plugins@, kind, #[trigger] r@[k]@),
            forall|i: int|
                0 <= i < self.plugins@.len() && (#[trigger] self.plugins@[i]).1.kind == kind
                    ==> seq_has_string(r@, self.plugins@[i].1.id@),
    {
        let mut out: Vec<String> = Vec::new();
        let n = self.plugins.len();
        let mut i: usize = 0;
        while i < n
            invariant
                self.wf(),
                n == self.plugins@.len(),
                i <= n,
                forall|a: int, b: int|
                    0 <= a < b < out@.len() ==> spec_str_le(#[trigger] out@[a]@, #[trigger] out@[b]@),
                forall|a: int, b: int|
                    0 <= a < b < out@.len() ==> #[trigger] out@[a]@ != #[trigger] out@[b]@,
                forall|k: int|
                    0 <= k < out@.len() ==> id_of_kind_in_prefix(
                        self.plugins@,
                        kind,
                        #[trigger] out@[k]@,
                        i as int,
                    ),
                forall|t: int|
                    0 <= t < i && (#[trigger] self.plugins@[t]).1.kind == kind ==> seq_has_string(
                        out@,
                        self.plugins@[t].1.id@,
                    ),
            decreases n - i,
        {
            if matches_kind(&self.plugins[i].1, kind) {
                let id = self.plugins[i].1.id.clone();
                proof {
                    assert forall|k: int|
                        0 <= k < out@.len() implies #[trigger] out@[k]@ != id@ by {
                        let t = choose|t: int|
                            0 <= t < i as int && (#[trigger] self.plugins@[t]).1.kind == kind
                                && self.plugins@[t].1.id@ == out@[k]@;
                        if out@[k]@ == id@ {
                            assert(self.plugins@[t].0@ == spec_normalize_id(
                                self.plugins@[t].1.id@,
                            ));
                            assert(self.plugins@[i as int].0@ == spec_normalize_id(
                                self.plugins@[i as int].1.id@,
                            ));
                            assert(self.plugins@[t].0@ == self.plugins@[i as int].0@);
                        }
                    }
                }
                insert_sorted(&mut out, id);
            }
            i = i + 1;
        }
        proof {
            assert forall|k: int|
                0 <= k < out@.len() implies id_of_kind_listed(
                self.plugins@,
                kind,
                #[trigger] out@[k]@,
            ) by {
                assert(id_of_kind_in_prefix(self.plugins@, kind, out@[k]@, n as int));
            }
        }
        out
    }

    /// How many plugins are registered.
    pub fn total(&self) -> (r: usize)
        ensures
            r == self.plugins@.len(),
    {
        self.plugins.len()
    }
}

fn matches_kind(p: &ResolvedPlugin, kind: PluginKind) -> (r: bool)
    ensures
        r == (p.kind == kind),
{
    match (p.kind, kind) {
        (PluginKind::Channel, PluginKind::Channel) => true,
        (PluginKind::Memory, PluginKind::Memory) => true,
        (PluginKind::Security, PluginKind::Security) => true,
        _ => false,
    }
}

/// Insert a string into an ascending vector, keeping it ascending; the
/// set of held views grows by exactly the new one.
fn insert_sorted(out: &mut Vec<String>, id: String)
    requires
        forall|a: int, b: int|
            0 <= a < b < old(out)@.len() ==> spec_str_le(
                #[trigger] old(out)@[a]@,
                #[trigger] old(out)@[b]@,
            ),
        forall|a: int, b: int|
            0 <= a < b < old(out)@.len() ==> #[trigger] old(out)@[a]@ != #[trigger] old(out)@[b]@,
        forall|k: int| 0 <= k < old(out)@.len() ==> #[trigger] old(out)@[k]@ != id@,
    ensures
        forall|a: int, b: int|
            0 <= a < b < final(out)@.len() ==> #[trigger] final(out)@[a]@
                != #[trigger] final(out)@[b]@,
        forall|a: int, b: int|
            0 <= a < b < final(out)@.len() ==> spec_str_le(
                #[trigger] final(out)@[a]@,
                #[trigger] final(out)@[b]@,
            ),
        final(out)@.len() == old(out)@.len() + 1,
        forall|k: int|
            0 <= k < final(out)@.len() ==> (#[trigger] final(out)@[k]@ == id@ || seq_has_string(
                old(out)@,
                final(out)@[k]@,
            )),
        seq_has_string(final(out)@, id@),
        forall|t: int|
            0 <= t < old(out)@.len() ==> seq_has_string(final(out)@, #[trigger] old(out)@[t]@),
    {
    let p = lower_insert_pos(out, id.as_str());
    let ghost before = out@;
    out.insert(p, id);
    proof {
        assert forall|a: int, b: int|
            0 <= a < b < out@.len() implies spec_str_le(
            #[trigger] out@[a]@,
            #[trigger] out@[b]@,
        ) by {
            if b < p {
                assert(out@[a]@ == before[a]@);
                assert(out@[b]@ == before[b]@);
            } else if a < p && b == p {
                assert(out@[a]@ == before[a]@);
                assert(out@[b]@ == id@);
            } else if a < p && b > p {
                assert(out@[a]@ == before[a]@);
                assert(out@[b]@ == before[b - 1]@);
            } else if a == p && b > p {
                assert(out@[a]@ == id@);
                assert(out@[b]@ == before[b - 1]@);
                assert(spec_str_le(id@, before[p as int]@));
                if p < b - 1 {
                    assert(spec_str_le(before[p as int]@, before[b - 1]@));
                    crate::text::lemma_str_le_trans(id@, before[p as int]@, before[b - 1]@);
                }
            } else {
                assert(out@[a]@ == before[a - 1]@);
                assert(out@[b]@ == before[b - 1]@);
            }
        }
        assert forall|a: int, b: int|
            0 <= a < b < out@.len() implies #[trigger] out@[a]@ != #[trigger] out@[b]@ by {
            if b < p {
                assert(out@[a]@ == before[a]@);
                assert(out@[b]@ == before[b]@);
            } else if a < p && b == p {
                assert(out@[a]@ == before[a]@);
                assert(out@[b]@ == id@);
            } else if a < p && b > p {
                assert(out@[a]@ == before[a]@);
                assert(out@[b]@ == before[b - 1]@);
            } else if a == p && b > p {
                assert(out@[a]@ == id@);
                assert(out@[b]@ == before[b - 1]@);
            } else {
                assert(out@[a]@ == before[a - 1]@);
                assert(out@[b]@ == before[b - 1]@);
            }
        }
        assert(out@[p as int]@ == id@);
        assert(seq_has_string(out@, id@));
        assert forall|t: int|
            0 <= t < before.len() implies seq_has_string(out@, #[trigger] before[t]@) by {
            if t < p {
                assert(out@[t]@ == before[t]@);
            } else {
                assert(out@[t + 1]@ == before[t]@);
            }
        }
    }
}

/// The first position whose entry is not below `id`, in an ascending
/// vector.
fn lower_insert_pos(out: &Vec<String>, id: &str) -> (p: usize)
    requires
        forall|a: int, b: int|
            0 <= a < b < out@.len() ==> spec_str_le(#[trigger] out@[a]@, #[trigger] out@[b]@),
    ensures
        p <= out@.len(),
        forall|k: int| 0 <= k < p ==> spec_str_le(#[trigger] out@[k]@, id@),
        p < out@.len() ==> spec_str_le(id@, out@[p as int]@),
{
    let n = out.len();
    let mut p: usize = 0;
    while p < n
        invariant
            n == out@.len(),
            p <= n,
            forall|k: int| 0 <= k < p ==> spec_str_le(#[trigger] out@[k]@, id@),
        decreases n - p,
    {
        if str_le(id, out[p].as_str()) {
            return p;
        }
        proof {
            crate::text::lemma_str_le_total(id@, out@[p as int]@);
        }
        p = p + 1;
    }
    p
}

proof fn lemma_lookup_update_other(
    s: Seq<(String, ResolvedPlugin)>,
    i: int,
    v: (String, ResolvedPlugin),
    key: Seq<char>,
)
    requires
        0 <= i < s.len(),
        s[i].0@ != key,
        v.0@ != key,
    ensures
        spec_lookup(s.update(i, v), key) == spec_lookup(s, key),
    decreases s.len(),
{
    let u = s.update(i, v);
    if i == 0 {
        assert(u.drop_first() =~= s.drop_first());
    } else {
        assert(u[0] == s[0]);
        if s[0].0@ == key {
        } else {
            assert(u.drop_first() =~= s.drop_first().update(i - 1, v));
            lemma_lookup_update_other(s.drop_first(), i - 1, v, key);
        }
    }
}

proof fn lemma_lookup_push_other(
    s: Seq<(String, ResolvedPlugin)>,
    v: (String, ResolvedPlugin),
    key: Seq<char>,
)
    requires
        v.0@ != key,
    ensures
        spec_lookup(s.push(v), key) == spec_lookup(s, key),
    decreases s.len(),
{
    let u = s.push(v);
    if s.len() == 0 {
        assert(u.len() == 1);
        assert(u[0] == v);
        assert(u[0].0@ != key);
        assert(u.drop_first() =~= Seq::<(String, ResolvedPlugin)>::empty());
        assert(spec_lookup(u.drop_first(), key) is None);
    } else {
        assert(u[0] == s[0]);
        if s[0].0@ == key {
        } else {
            assert(u.drop_first() =~= s.drop_first().push(v));
            lemma_lookup_push_other(s.drop_first(), v, key);
        }
    }
}

/// A field-for-field copy of a resolved plugin.
pub fn clone_plugin(p: &ResolvedPlugin) -> (r: ResolvedPlugin)
    ensures
        r.id@ == p.id@,
        r.kind == p.kind,
        r.command@ == p.command@,
        r.args@ == p.args@,
        r.env@ == p.env@,
        r.timeout_secs == p.timeout_secs,
    {
    ResolvedPlugin {
        id: p.id.clone(),
        kind: p.kind,
        command: p.command.clone(),
        args: clone_strings(&p.args),
        env: clone_pairs(&p.env),
        timeout_secs: p.timeout_secs,
        source: match &p.source {
            PluginSource::Config => PluginSource::Config,
            PluginSource::Manifest(path) => PluginSource::Manifest(path.clone()),
        },
    }
}

fn clone_strings(v: &Vec<String>) -> (r: Vec<String>)
    ensures
        r@ == v@,
{
    let mut out: Vec<String> = Vec::new();
    let mut i: usize = 0;
    while i < v.len()
        invariant
            i <= v@.len(),
            out@ == v@.subrange(0, i as int),
        decreases v@.len() - i,
    {
        out.push(v[i].clone());
        i = i + 1;
        proof {
            assert(v@.subrange(0, i as int) =~= v@.subrange(0, i as int - 1).push(
                v@[i as int - 1],
            ));
        }
    }
    proof {
        assert(v@.subrange(0, v@.len() as int) == v@);
    }
    out
}

fn clone_pairs(v: &Vec<(String, String)>) -> (r: Vec<(String, String)>)
    ensures
        r@ == v@,
{
    let mut out: Vec<(String, String)> = Vec::new();
    let mut i: usize = 0;
    while i < v.len()
        invariant
            i <= v@.len(),
            out@ == v@.subrange(0, i as int),
        decreases v@.len() - i,
    {
        out.push((v[i].0.clone(), v[i].1.clone()));
        i = i + 1;
        proof {
            assert(v@[i as int - 1] == (v@[i as int - 1].0, v@[i as int - 1].1));
            assert(v@.subrange(0, i as int) =~= v@.subrange(0, i as int - 1).push(
                v@[i as int - 1],
            ));
        }
    }
    proof {
        assert(v@.subrange(0, v@.len() as int) == v@);
    }
    out
}

} // verus!
