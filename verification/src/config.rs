//! The configuration store: cached, lazily filled, explicitly reloadable.
//!
//! File discovery, reading and YAML decoding are outside work; the
//! surrounding program hands this store an already-decoded [`Config`] (or
//! nothing, when no candidate file was readable), and the store decides what
//! is cached and what every caller sees. A failed reload never clobbers a
//! previously cached configuration; with nothing cached it falls back to the
//! hard-coded defaults. Environment overrides are applied once per install
//! and upsert the synthetic endpoint by name, so repeated loads never
//! accumulate copies of it.

use vstd::prelude::*;
use vstd::pervasive::unreached;
use vstd::pervasive::VecAdditionalExecFns;
use crate::color::hash64;
use crate::color::spec_hash64;
use crate::textutil::ends_with_str;
use crate::textutil::spec_ends_with;
use crate::textutil::str_eq;
use crate::types::Config;
use crate::types::FeishuConfig;
use crate::types::ForwardConfig;
use crate::types::WebhookConfig;
use crate::types::WebhookRuntimeConfig;
use crate::types::spec_is_default_runtime_config;

verus! {

/// Index of the first endpoint named `name`, at or after position `i`.
pub open spec fn spec_find_webhook_from(ws: Seq<WebhookConfig>, name: Seq<char>, i: int) -> Option<
    int,
>
    decreases ws.len() - i,
{
    if i < 0 || i >= ws.len() {
        None
    } else if ws[i].name@ == name {
        Some(i)
    } else {
        spec_find_webhook_from(ws, name, i + 1)
    }
}

/// Index of the first endpoint named `name`, if any.
pub open spec fn spec_find_webhook(ws: Seq<WebhookConfig>, name: Seq<char>) -> Option<int> {
    spec_find_webhook_from(ws, name, 0)
}

/// Find the first endpoint named `name`.
pub fn find_webhook(webhooks: &Vec<WebhookConfig>, name: &str) -> (r: Option<usize>)
    ensures
        match r {
            Some(i) => spec_find_webhook(webhooks@, name@) == Some(i as int) && i < webhooks@.len()
                && webhooks@[i as int].name@ == name@,
            None => spec_find_webhook(webhooks@, name@) is None,
        },
{
    let n = webhooks.len();
    for i in 0..n
        invariant
            n == webhooks@.len(),
            spec_find_webhook(webhooks@, name@) == spec_find_webhook_from(webhooks@, name@, i as int),
    {
        if str_eq(webhooks[i].name.as_str(), name) {
            proof {
                assert(spec_find_webhook_from(webhooks@, name@, i as int) == Some(i as int));
            }
            return Some(i);
        }
        proof {
            assert(spec_find_webhook_from(webhooks@, name@, i as int) == spec_find_webhook_from(
                webhooks@,
                name@,
                i + 1,
            ));
        }
    }
    None
}

/// The synthetic endpoint an environment-variable URL stands up: named
/// `env_webhook`, enabled, one URL, Feishu card variant, default policy.
pub open spec fn spec_is_env_entry(w: WebhookConfig, u: Seq<char>) -> bool {
    &&& w.name@ == "env_webhook"@
    &&& w.url@.len() == 1
    &&& w.url@[0]@ == u
    &&& w.enabled
    &&& w.forward_config matches ForwardConfig::FeishuRobotMsg(f) && f.card_theme is None
        && f.mention_all is None && f.buttons is None && f.color_mapping is None
    &&& spec_is_default_runtime_config(w.config)
}

/// How an endpoint list reads after upserting the synthetic environment
/// endpoint with URL `u`: replaced in place when one of that name exists,
/// appended otherwise. Never appended twice.
pub open spec fn spec_upsert_env_entry(before: Seq<WebhookConfig>, after: Seq<WebhookConfig>, u: Seq<char>) -> bool {
    match spec_find_webhook(before, "env_webhook"@) {
        Some(i) => {
            &&& after.len() == before.len()
            &&& forall|j: int| 0 <= j < before.len() && j != i ==> after[j] == before[j]
            &&& spec_is_env_entry(after[i], u)
        },
        None => {
            &&& after.len() == before.len() + 1
            &&& forall|j: int| 0 <= j < before.len() ==> after[j] == before[j]
            &&& spec_is_env_entry(after.last(), u)
        },
    }
}

/// How a configuration reads after the environment overrides: the port
/// replaced when one is given, the endpoint list upserted when a non-empty
/// URL is given, everything else untouched.
pub open spec fn spec_overrides_rel(base: Config, out: Config, port: Option<u16>, url: Option<
    String,
>) -> bool {
    &&& out.server_host == base.server_host
    &&& out.template_dir == base.template_dir
    &&& out.server_port == (match port {
        Some(p) => p,
        None => base.server_port,
    })
    &&& match url {
        Some(u) => if u@.len() > 0 {
            spec_upsert_env_entry(base.webhooks@, out.webhooks@, u@)
        } else {
            out.webhooks == base.webhooks
        },
        None => out.webhooks == base.webhooks,
    }
}

/// How a configuration reads when built from the hard-coded defaults and
/// the environment overrides alone.
pub open spec fn spec_default_with_overrides(out: Config, port: Option<u16>, url: Option<
    String,
>) -> bool {
    &&& out.server_host@ == "127.0.0.1"@
    &&& out.template_dir is None
    &&& out.server_port == (match port {
        Some(p) => p,
        None => 7876u16,
    })
    &&& match url {
        Some(u) => if u@.len() > 0 {
            out.webhooks@.len() == 1 && spec_is_env_entry(out.webhooks@[0], u@)
        } else {
            out.webhooks@.len() == 0
        },
        None => out.webhooks@.len() == 0,
    }
}

/// The synthetic environment endpoint for URL `u`.
fn make_env_entry(u: String) -> (w: WebhookConfig)
    ensures
        spec_is_env_entry(w, u@),
{
    let mut urls: Vec<String> = Vec::new();
    urls.push(u);
    WebhookConfig {
        name: String::from_str("env_webhook"),
        url: urls,
        enabled: true,
        forward_config: ForwardConfig::FeishuRobotMsg(
            FeishuConfig { card_theme: None, mention_all: None, buttons: None, color_mapping: None },
        ),
        config: WebhookRuntimeConfig { n_par: 1, timeout: 30, retry: 3 },
    }
}

impl Config {
    /// Apply the environment overrides: replace the port when one is given,
    /// and upsert the synthetic `env_webhook` endpoint by name when a
    /// non-empty URL is given. Upserting, not appending, keeps repeated
    /// applications from accumulating copies.
    pub fn apply_env_overrides(&mut self, port: Option<u16>, webhook_url: Option<String>)
        ensures
            spec_overrides_rel(*old(self), *final(self), port, webhook_url),
    {
        if let Some(p) = port {
            self.server_port = p;
        }
        match webhook_url {
            Some(u) => {
                if u.unicode_len() > 0 {
                    let entry = make_env_entry(u);
                    match find_webhook(&self.webhooks, "env_webhook") {
                        Some(i) => {
                            self.webhooks.set(i, entry);
                        },
                        None => {
                            self.webhooks.push(entry);
                        },
                    }
                }
            },
            None => {},
        }
    }
}

/// Tracks which file the cached configuration came from and a fingerprint
/// of its content, so a reload can skip re-decoding an unchanged file.
#[derive(Debug, Clone)]
pub struct ConfigMetadata {
    /// Path of the last-loaded configuration file.
    pub path: String,
    /// Content fingerprint of that file.
    pub fingerprint: u64,
}

impl ConfigMetadata {
    /// Record a loaded file's path and content fingerprint.
    pub fn of(path: &str, content: &str) -> (r: Self)
        ensures
            r.path@ == path@,
            r.fingerprint == spec_hash64(content@),
    {
        ConfigMetadata { path: String::from_str(path), fingerprint: hash64(content) }
    }

    /// Whether a candidate file differs from the recorded one, by path or by
    /// content, and so needs re-decoding.
    pub fn needs_reload(&self, path: &str, content: &str) -> (r: bool)
        ensures
            r == !(self.path@ == path@ && self.fingerprint == spec_hash64(content@)),
    {
        !(str_eq(self.path.as_str(), path) && self.fingerprint == hash64(content))
    }
}

/// Whether a candidate configuration path names a YAML document, the one
/// decodable format.
pub fn is_yaml_path(path: &str) -> (r: bool)
    ensures
        r == (spec_ends_with(path@, ".yaml"@) || spec_ends_with(path@, ".yml"@)),
{
    ends_with_str(path, ".yaml") || ends_with_str(path, ".yml")
}

/// The process-wide configuration store: empty until first use, then a
/// cached [`Config`] that explicit reloads replace atomically.
#[derive(Debug)]
pub struct LazyConfigManager {
    /// The cached configuration, if one was installed.
    pub cached: Option<Config>,
}

impl LazyConfigManager {
    /// An empty store: nothing cached yet.
    pub fn new() -> (r: Self)
        ensures
            r.cached is None,
    {
        LazyConfigManager { cached: None }
    }

    /// The current configuration. A cached one is returned as it is;
    /// otherwise `loaded` (the decoded configuration file, when one was
    /// readable) with the environment overrides applied is installed and
    /// returned, falling back to the defaults when `loaded` is absent.
    pub fn get_config(&mut self, loaded: Option<Config>, port: Option<u16>, webhook_url: Option<
        String,
    >) -> (r: &Config)
        ensures
            final(self).cached == Some(*r),
            old(self).cached is Some ==> final(self).cached == old(self).cached,
            old(self).cached is None ==> match loaded {
                Some(c) => spec_overrides_rel(c, *r, port, webhook_url),
                None => spec_default_with_overrides(*r, port, webhook_url),
            },
    {
        if self.cached.is_some() {
            match &self.cached {
                Some(c) => c,
                None => {
                    proof {
                        assert(false);
                    }
                    unreached()
                },
            }
        } else {
            self.force_reload(loaded, port, webhook_url)
        }
    }

    /// Replace the cached configuration with `loaded` (plus environment
    /// overrides). With nothing to install, a previously cached
    /// configuration is left untouched; only an empty store falls back to
    /// the defaults.
    pub fn force_reload(&mut self, loaded: Option<Config>, port: Option<u16>, webhook_url: Option<
        String,
    >) -> (r: &Config)
        ensures
            final(self).cached == Some(*r),
            match loaded {
                Some(c) => spec_overrides_rel(c, *r, port, webhook_url),
                None => match old(self).cached {
                    Some(_) => final(self).cached == old(self).cached,
                    None => spec_default_with_overrides(*r, port, webhook_url),
                },
            },
    {
        match loaded {
            Some(c) => {
                let mut installed = c;
                installed.apply_env_overrides(port, webhook_url);
                self.cached = Some(installed);
            },
            None => {
                if self.cached.is_none() {
                    let mut installed = Config::default();
                    installed.apply_env_overrides(port, webhook_url);
                    self.cached = Some(installed);
                }
            },
        }
        match &self.cached {
            Some(c) => c,
            None => {
                proof {
                    assert(false);
                }
                unreached()
            },
        }
    }
}

impl Default for LazyConfigManager {
    /// An empty store.
    fn default() -> (r: Self)
        ensures
            r.cached is None,
    {
        LazyConfigManager::new()
    }
}

/// One-shot configuration loading, for callers that keep no store.
pub struct ConfigManager;

impl ConfigManager {
    /// Build the effective configuration from an already-decoded file (when
    /// one was readable) and the environment overrides.
    pub fn load(loaded: Option<Config>, port: Option<u16>, webhook_url: Option<String>) -> (r:
        Config)
        ensures
            match loaded {
                Some(c) => spec_overrides_rel(c, r, port, webhook_url),
                None => spec_default_with_overrides(r, port, webhook_url),
            },
    {
        let mut c = match loaded {
            Some(c) => c,
            None => Config::default(),
        };
        c.apply_env_overrides(port, webhook_url);
        c
    }
}

} // verus!
