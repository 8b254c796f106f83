//! Composition helpers shared by the gateway's entrypoints: credential
//! extraction and provider runtime options. The construction of the
//! runtime services themselves (observer, runtime adapter, memory
//! backend) performs I/O and lives in the embedding layer.

use vstd::prelude::*;

use crate::config::Config;
use crate::text::seek_last_char;

verus! {

/// Options handed to the provider factory.
#[derive(Clone, Debug)]
pub struct ProviderRuntimeOptions {
    pub auth_profile_override: Option<String>,
    pub zeroclaw_dir: Option<String>,
    pub secrets_encrypt: bool,
    pub reasoning_enabled: Option<bool>,
    pub reasoning_level: Vec<(String, String)>,
}

/// Composio credentials, exactly as the entrypoints read them: the key
/// and entity id when composio is enabled, nothing otherwise.
pub fn composio_credentials(config: &Config) -> (r: (Option<&str>, Option<&str>))
    ensures
        config.composio.enabled ==> {
            &&& (match (r.0, config.composio.api_key) {
                (Some(k), Some(ref ck)) => k@ == ck@,
                (None, None) => true,
                _ => false,
            })
            &&& r.1 matches Some(e) && e@ == config.composio.entity_id@
        },
        !config.composio.enabled ==> r.0 is None && r.1 is None,
{
    if config.composio.enabled {
        let key = match &config.composio.api_key {
            Some(k) => Some(k.as_str()),
            None => None,
        };
        (key, Some(config.composio.entity_id.as_str()))
    } else {
        (None, None)
    }
}

/// The directory holding a configuration file: everything before the
/// last path separator, or nothing for a bare file name.
pub open spec fn spec_parent_dir(path: Seq<char>) -> Option<Seq<char>> {
    let j = seek_last_char(path, '/');
    if j < 0 {
        None
    } else {
        Some(path.subrange(0, j))
    }
}

/// The parent directory of a path.
pub fn parent_dir(path: &str) -> (r: Option<String>)
    ensures
        match r {
            Some(p) => spec_parent_dir(path@) == Some(p@),
            None => spec_parent_dir(path@) is None,
        },
{
    match crate::text::rfind_char(path, '/') {
        Some(j) => Some(path.substring_char(0, j).to_owned()),
        None => None,
    }
}

/// Build provider runtime options from the configuration: no profile
/// override, the configuration file's directory, and the secrets and
/// reasoning knobs copied over.
pub fn provider_runtime_options(config: &Config) -> (r: ProviderRuntimeOptions)
    ensures
        r.auth_profile_override is None,
        (match r.zeroclaw_dir {
            Some(ref d) => spec_parent_dir(config.config_path@) == Some(d@),
            None => spec_parent_dir(config.config_path@) is None,
        }),
        r.secrets_encrypt == config.secrets.encrypt,
        r.reasoning_enabled == config.runtime.reasoning_enabled,
        r.reasoning_level@ == config.provider.reasoning_level@,
{
    ProviderRuntimeOptions {
        auth_profile_override: None,
        zeroclaw_dir: parent_dir(config.config_path.as_str()),
        secrets_encrypt: config.secrets.encrypt,
        reasoning_enabled: config.runtime.reasoning_enabled,
        reasoning_level: clone_pairs(&config.provider.reasoning_level),
    }
}

fn clone_pairs(v: &Vec<(String, String)>) -> (r: Vec<(String, String)>)
    ensures
        r@ == v@,
{
    let mut out: Vec<(String, String)> = Vec::new();
    let mut i: usize = 0;
    while i < v.len()
        invariant
            i <= v@.len(),
            out@ == v@.subrange(0, i as int),
        decreases v@.len() - i,
    {
        out.push((v[i].0.clone(), v[i].1.clone()));
        i = i + 1;
        proof {
            assert(v@[i as int - 1] == (v@[i as int - 1].0, v@[i as int - 1].1));
            assert(v@.subrange(0, i as int) =~= v@.subrange(0, i as int - 1).push(
                v@[i as int - 1],
            ));
        }
    }
    proof {
        assert(v@.subrange(0, v@.len() as int) == v@);
    }
    out
}

} // verus!
