//! The application configuration model: the selected provider, stored API
//! keys, and the catalog of model providers.
//!
//! Keyed collections are association lists with unique keys, looked up by
//! character-for-character key equality.  Reading the keys from disk and
//! from the process environment is the surrounding application's business;
//! this model only answers questions about what is stored.

use vstd::prelude::*;

use crate::text::seq_le;
use crate::text::str_eq;
use crate::text::str_le;
use crate::text::lemma_le_total;
use crate::text::run_end;
use crate::text::trim_trailing;
use crate::text::lemma_le_trans;
use vstd::seq_lib::lemma_multiset_commutative;

verus! {

/// The canonical base URL of the aggregator's API.
pub const OPENROUTER_BASE_URL: &'static str = "https://openrouter.ai/api";

/// The base URL older configuration files carry for the aggregator.
pub const LEGACY_OPENROUTER_BASE_URL: &'static str = "https://openrouter.ai/api/v1";

/// One model a provider offers.
#[derive(Debug, Clone)]
pub struct ModelInfo {
    /// The model's identifier at its provider.
    pub id: String,
    /// The model's display name.
    pub name: String,
    /// A one-line description.
    pub description: String,
    /// Whether the model is paid-tier.
    pub is_premium: bool,
}

/// One model provider.
#[derive(Debug, Clone)]
pub struct ModelProvider {
    /// The provider's display name.
    pub name: String,
    /// The base URL of its API.
    pub base_url: String,
    /// The environment variable its API key may come from, if any.
    pub api_key_env: Option<String>,
    /// The models it offers.
    pub models: Vec<ModelInfo>,
}

/// Interface preferences.
#[derive(Debug, Clone)]
pub struct UiConfig {
    /// The color theme.
    pub theme: String,
    /// Whether to show the usage counter.
    pub show_usage_counter: bool,
    /// Seconds between automatic saves.
    pub auto_save_interval: u64,
}

/// The on-disk shape of the configuration file.
#[derive(Debug, Clone)]
pub struct ConfigToml {
    /// Selected provider.
    pub selected_provider: Option<String>,
    /// Default model to use.
    pub default_model: Option<String>,
    /// API keys for different providers.
    pub api_keys: Option<Vec<(String, String)>>,
    /// Model provider configuration.
    pub model_providers: Option<Vec<(String, ModelProviderToml)>>,
    /// Interface preferences.
    pub ui: Option<UiConfigToml>,
}

/// The on-disk shape of one provider.
#[derive(Debug, Clone)]
pub struct ModelProviderToml {
    /// The provider's display name.
    pub name: String,
    /// The base URL of its API.
    pub base_url: String,
    /// The environment variable its API key may come from, if any.
    pub api_key_env: Option<String>,
    /// The models it offers.
    pub models: Vec<ModelInfoToml>,
}

/// The on-disk shape of one model.
#[derive(Debug, Clone)]
pub struct ModelInfoToml {
    /// The model's identifier at its provider.
    pub id: String,
    /// The model's display name.
    pub name: String,
    /// A one-line description, if any.
    pub description: Option<String>,
}

/// The on-disk shape of the interface preferences.
#[derive(Debug, Clone)]
pub struct UiConfigToml {
    /// The color theme.
    pub theme: Option<String>,
    /// Whether to show emojis.
    pub show_emojis: Option<bool>,
    /// How many history lines to keep.
    pub max_history_lines: Option<usize>,
}

/// The first position at or after `i` whose key reads `k`, or the length
/// of `m`.
pub open spec fn key_index_from<V>(m: Seq<(String, V)>, k: Seq<char>, i: int) -> int
    decreases m.len() - i when 0 <= i <= m.len()
{
    if i >= m.len() {
        m.len() as int
    } else if m[i].0@ == k {
        i
    } else {
        key_index_from(m, k, i + 1)
    }
}

/// The position of the key `k` in `m`, or the length of `m` when absent.
pub open spec fn key_index<V>(m: Seq<(String, V)>, k: Seq<char>) -> int {
    key_index_from(m, k, 0)
}

/// Whether `m` holds the key `k`.
pub open spec fn has_key<V>(m: Seq<(String, V)>, k: Seq<char>) -> bool {
    key_index(m, k) < m.len()
}

/// The value stored under the key `k`.
pub open spec fn value_of<V>(m: Seq<(String, V)>, k: Seq<char>) -> V
    recommends
        has_key(m, k),
{
    m[key_index(m, k)].1
}

/// `key_index_from` stays in bounds, skips only other keys, and stops on
/// `k` when it is there.
pub proof fn lemma_key_index_from<V>(m: Seq<(String, V)>, k: Seq<char>, i: int)
    requires
        0 <= i <= m.len(),
    ensures
        i <= key_index_from(m, k, i) <= m.len(),
        forall|j: int| i <= j < key_index_from(m, k, i) ==> (#[trigger] m[j]).0@ != k,
        key_index_from(m, k, i) < m.len() ==> m[key_index_from(m, k, i)].0@ == k,
    decreases m.len() - i,
{
    if i < m.len() && m[i].0@ != k {
        lemma_key_index_from(m, k, i + 1);
    }
}

/// No key occurs twice.
pub open spec fn unique_keys<V>(m: Seq<(String, V)>) -> bool {
    forall|i: int, j: int| 0 <= i < j < m.len() ==> (#[trigger] m[i]).0@ != (#[trigger] m[j]).0@
}

/// The main application configuration.
#[derive(Debug, Clone)]
pub struct Config {
    /// The selected provider's identifier.
    pub selected_provider: String,
    /// Stored API keys, by provider identifier.
    pub api_keys: Vec<(String, String)>,
    /// The default model to use.
    pub default_model: String,
    /// The provider catalog, by provider identifier.
    pub model_providers: Vec<(String, ModelProvider)>,
    /// User instructions loaded from the project, if any.
    pub user_instructions: Option<String>,
    /// The application's home directory.
    pub bindr_home: String,
    /// The projects directory.
    pub projects_dir: String,
    /// The current working directory.
    pub cwd: String,
    /// Interface preferences.
    pub ui: UiConfig,
}

impl Config {
    /// Both keyed collections hold each key at most once.
    pub open spec fn wf(self) -> bool {
        &&& unique_keys(self.api_keys@)
        &&& unique_keys(self.model_providers@)
    }

    /// The catalog entry of the selected provider, if there is one.
    pub fn get_current_provider(&self) -> (r: Option<&ModelProvider>)
        ensures
            r is Some <==> has_key(self.model_providers@, self.selected_provider@),
            r matches Some(p) ==> *p == value_of(self.model_providers@, self.selected_provider@),
    {
        assoc_get(&self.model_providers, self.selected_provider.as_str())
    }

    /// Whether an API key is stored for the selected provider.  A key held
    /// only in the process environment is the caller's to check.
    pub fn has_api_key(&self) -> (r: bool)
        ensures
            r == has_key(self.api_keys@, self.selected_provider@),
    {
        assoc_get(&self.api_keys, self.selected_provider.as_str()).is_some()
    }

    /// The stored API key of the selected provider, if there is one.
    pub fn get_api_key(&self) -> (r: Option<String>)
        ensures
            r is Some <==> has_key(self.api_keys@, self.selected_provider@),
            r matches Some(s) ==> s@ == value_of(self.api_keys@, self.selected_provider@)@,
    {
        match assoc_get(&self.api_keys, self.selected_provider.as_str()) {
            Some(key) => Some(key.clone()),
            None => None,
        }
    }

    /// Stores `key` as the API key of `provider`, replacing any key stored
    /// for it before.
    pub fn set_api_key(&mut self, provider: String, key: String)
        requires
            old(self).wf(),
        ensures
            final(self).wf(),
            has_key(old(self).api_keys@, provider@) ==> final(self).api_keys@ == old(
                self,
            ).api_keys@.update(key_index(old(self).api_keys@, provider@), (provider, key)),
            !has_key(old(self).api_keys@, provider@) ==> final(self).api_keys@ == old(
                self,
            ).api_keys@.push((provider, key)),
            *final(self) == (Config { api_keys: final(self).api_keys, ..*old(self) }),
    {
        let ghost m = self.api_keys@;
        let ghost k = provider@;
        let mut i: usize = 0;
        while i < self.api_keys.len()
            invariant
                i <= m.len(),
                self.api_keys@ == m,
                m == old(self).api_keys@,
                old(self).wf(),
                unique_keys(m),
                k == provider@,
                key_index(m, k) == key_index_from(m, k, i as int),
                *self == (Config { api_keys: self.api_keys, ..*old(self) }),
            decreases m.len() - i,
        {
            let hit = str_eq(self.api_keys[i].0.as_str(), provider.as_str());
            proof {
                assert(m[i as int].0@ == self.api_keys@[i as int].0@);
            }
            if hit {
                proof {
                    assert(m[i as int].0@ == k);
                    assert(key_index_from(m, k, i as int) == i as int);
                    assert(key_index(m, k) == i as int);
                }
                self.api_keys.set(i, (provider, key));
                proof {
                    assert forall|a: int, b: int|
                        0 <= a < b < self.api_keys@.len() implies (#[trigger] self.api_keys@[a]).0@
                        != (#[trigger] self.api_keys@[b]).0@ by {
                        if a == i as int {
                            assert(self.api_keys@[a].0@ == provider@);
                        } else {
                            assert(self.api_keys@[a].0@ == m[a].0@);
                        }
                        if b == i as int {
                            assert(self.api_keys@[b].0@ == provider@);
                        } else {
                            assert(self.api_keys@[b].0@ == m[b].0@);
                        }
                        assert(m[a].0@ != m[b].0@);
                        assert(m[i as int].0@ == provider@);
                    }
                }
                return ;
            }
            proof {
                assert(m[i as int].0@ != k);
                assert(key_index_from(m, k, i as int) == key_index_from(m, k, i + 1 as int));
            }
            i += 1;
        }
        proof {
            assert(!has_key(m, k));
            lemma_key_index_from(m, k, 0);
        }
        self.api_keys.push((provider, key));
        proof {
            assert forall|a: int, b: int|
                0 <= a < b < self.api_keys@.len() implies (#[trigger] self.api_keys@[a]).0@ != (
            #[trigger] self.api_keys@[b]).0@ by {
                if b < m.len() {
                } else {
                    assert(self.api_keys@[b].0@ == k);
                    assert(self.api_keys@[a].0@ != k);
                }
            }
        }
    }

    /// Selects a provider.
    pub fn set_selected_provider(&mut self, provider: String)
        ensures
            final(self).selected_provider == provider,
            *final(self) == (Config { selected_provider: provider, ..*old(self) }),
    {
        self.selected_provider = provider;
    }

    /// Makes `model_name` the default model.
    pub fn set_custom_model(&mut self, model_name: String)
        ensures
            final(self).default_model == model_name,
            *final(self) == (Config { default_model: model_name, ..*old(self) }),
    {
        self.default_model = model_name;
    }

    /// The usage counter: requests used and the request limit.  Usage is
    /// not tracked yet, so the count is always zero of one hundred.
    pub fn get_usage_info(&self) -> (r: (u32, u32))
        ensures
            r == (0u32, 100u32),
    {
        (0, 100)
    }
}

/// The value stored in `m` under the key `k`, if any.
fn assoc_get<'a, V>(m: &'a Vec<(String, V)>, k: &str) -> (r: Option<&'a V>)
    ensures
        r is Some <==> has_key(m@, k@),
        r matches Some(v) ==> *v == value_of(m@, k@),
{
    let ghost ms = m@;
    let mut i: usize = 0;
    while i < m.len()
        invariant
            i <= ms.len(),
            m@ == ms,
            key_index(ms, k@) == key_index_from(ms, k@, i as int),
        decreases ms.len() - i,
    {
        if str_eq(m[i].0.as_str(), k) {
            proof {
                assert(key_index(ms, k@) == i as int);
            }
            return Some(&m[i].1);
        }
        i += 1;
    }
    proof {
        lemma_key_index_from(ms, k@, 0);
    }
    None
}

/// Each catalog entry as its key's characters and its provider.
pub open spec fn provider_views(m: Seq<(String, ModelProvider)>) -> Seq<(Seq<char>, ModelProvider)> {
    m.map_values(|e: (String, ModelProvider)| (e.0@, e.1))
}

/// Each borrowed catalog entry as its key's characters and its provider.
pub open spec fn ref_provider_views(m: Seq<(&String, &ModelProvider)>) -> Seq<
    (Seq<char>, ModelProvider),
> {
    m.map_values(|e: (&String, &ModelProvider)| (e.0@, *e.1))
}

/// Whether the entries are ordered by provider display name.
pub open spec fn sorted_by_name(s: Seq<(Seq<char>, ModelProvider)>) -> bool {
    forall|i: int, j: int| 0 <= i < j < s.len() ==> seq_le(
        (#[trigger] s[i]).1.name@,
        (#[trigger] s[j]).1.name@,
    )
}

/// Inserting an element anywhere adds it to the sequence's multiset.
proof fn lemma_insert_to_multiset<A>(s: Seq<A>, j: int, v: A)
    requires
        0 <= j <= s.len(),
    ensures
        s.insert(j, v).to_multiset() == s.to_multiset().insert(v),
{
    broadcast use vstd::seq_lib::group_to_multiset_ensures;

    let pre = s.take(j);
    let post = s.skip(j);
    assert(s.insert(j, v) =~= pre.push(v) + post);
    assert(s =~= pre + post);
    lemma_multiset_commutative(pre.push(v), post);
    lemma_multiset_commutative(pre, post);
    assert(pre.push(v).to_multiset() =~= pre.to_multiset().insert(v));
    assert(s.insert(j, v).to_multiset() =~= s.to_multiset().insert(v));
}

impl Config {
    /// The catalog's entries, ordered by provider display name (entries
    /// with the same name keep their stored order).
    pub fn get_providers(&self) -> (r: Vec<(&String, &ModelProvider)>)
        ensures
            ref_provider_views(r@).to_multiset() == provider_views(
                self.model_providers@,
            ).to_multiset(),
            sorted_by_name(ref_provider_views(r@)),
    {
        let ghost m = self.model_providers@;
        let mut out: Vec<(&String, &ModelProvider)> = Vec::new();
        proof {
            assert(ref_provider_views(out@) =~= provider_views(m.take(0)));
        }
        let mut i: usize = 0;
        while i < self.model_providers.len()
            invariant
                i <= m.len(),
                m == self.model_providers@,
                ref_provider_views(out@).to_multiset() == provider_views(
                    m.take(i as int),
                ).to_multiset(),
                sorted_by_name(ref_provider_views(out@)),
                out@.len() == i,
            decreases m.len() - i,
        {
            let entry_key: &String = &self.model_providers[i].0;
            let entry_val: &ModelProvider = &self.model_providers[i].1;
            let ghost xv = (entry_key@, *entry_val);
            let mut j: usize = 0;
            while j < out.len() && str_le(out[j].1.name.as_str(), entry_val.name.as_str())
                invariant
                    j <= out@.len(),
                    xv == (entry_key@, *entry_val),
                    forall|t: int| 0 <= t < j ==> seq_le(
                        (#[trigger] ref_provider_views(out@)[t]).1.name@,
                        xv.1.name@,
                    ),
                decreases out@.len() - j,
            {
                proof {
                    assert(ref_provider_views(out@)[j as int].1.name@ == out@[j as int].1.name@);
                }
                j += 1;
            }
            proof {
                let ov = ref_provider_views(out@);
                if j < out@.len() {
                    assert(!seq_le(out@[j as int].1.name@, xv.1.name@));
                    lemma_le_total(out@[j as int].1.name@, xv.1.name@, 0);
                    assert(seq_le(xv.1.name@, ov[j as int].1.name@));
                }
                assert forall|t: int| j <= t < ov.len() implies seq_le(
                    xv.1.name@,
                    (#[trigger] ov[t]).1.name@,
                ) by {
                    if t > j {
                        lemma_le_trans(xv.1.name@, ov[j as int].1.name@, ov[t].1.name@, 0);
                    }
                }
            }
            let ghost pre = out@;
            out.insert(j, (entry_key, entry_val));
            proof {
                broadcast use vstd::seq_lib::group_to_multiset_ensures;

                lemma_sorted_after_insert(pre, j as int, (entry_key, entry_val), xv);
                assert forall|t: int| 0 <= t < out@.len() implies #[trigger] ref_provider_views(
                    out@,
                )[t] == ref_provider_views(pre).insert(j as int, xv)[t] by {
                    if t < j {
                        assert(out@[t] == pre[t]);
                    } else if t == j {
                        assert(out@[t] == (entry_key, entry_val));
                    } else {
                        assert(out@[t] == pre[t - 1]);
                    }
                }
                assert(ref_provider_views(out@) =~= ref_provider_views(pre).insert(j as int, xv));
                lemma_insert_to_multiset(ref_provider_views(pre), j as int, xv);
                assert(provider_views(m.take(i + 1)) =~= provider_views(m.take(i as int)).push(
                    (m[i as int].0@, m[i as int].1),
                ));
                assert(xv == (m[i as int].0@, m[i as int].1));
                assert(provider_views(m.take(i + 1)).to_multiset() =~= provider_views(
                    m.take(i as int),
                ).to_multiset().insert(xv));
                assert(ref_provider_views(out@).to_multiset() =~= provider_views(
                    m.take(i + 1),
                ).to_multiset());
            }
            i += 1;
        }
        proof {
            assert(m.take(m.len() as int) =~= m);
        }
        out
    }
}

/// Inserting an entry at a position that every earlier entry sorts at or
/// before, and that sorts at or before every later entry, keeps the
/// sequence sorted.
proof fn lemma_sorted_after_insert<'a>(
    s: Seq<(&'a String, &'a ModelProvider)>,
    j: int,
    v: (&'a String, &'a ModelProvider),
    vv: (Seq<char>, ModelProvider),
)
    requires
        0 <= j <= s.len(),
        vv == (v.0@, *v.1),
        sorted_by_name(ref_provider_views(s)),
        forall|t: int| 0 <= t < j ==> seq_le(
            (#[trigger] ref_provider_views(s)[t]).1.name@,
            vv.1.name@,
        ),
        forall|t: int| j <= t < s.len() ==> seq_le(
            vv.1.name@,
            (#[trigger] ref_provider_views(s)[t]).1.name@,
        ),
    ensures
        sorted_by_name(ref_provider_views(s.insert(j, v))),
{
    let ov = ref_provider_views(s);
    let nv = ref_provider_views(s.insert(j, v));
    assert(nv =~= ov.insert(j, vv));
    assert forall|a: int, b: int| 0 <= a < b < nv.len() implies seq_le(
        (#[trigger] nv[a]).1.name@,
        (#[trigger] nv[b]).1.name@,
    ) by {
        let oa = if a < j { a } else { a - 1 };
        let ob = if b < j { b } else { b - 1 };
        if a == j {
            assert(nv[a] == vv);
            assert(nv[b] == ov[ob]);
        } else if b == j {
            assert(nv[b] == vv);
            assert(nv[a] == ov[oa]);
        } else {
            assert(nv[a] == ov[oa]);
            assert(nv[b] == ov[ob]);
            if oa == ob {
                assert(a < j && b > j);
                assert(seq_le(ov[oa].1.name@, vv.1.name@));
                assert(seq_le(vv.1.name@, ov[ob].1.name@));
                lemma_le_trans(ov[oa].1.name@, vv.1.name@, ov[ob].1.name@, 0);
            }
        }
    }
}

/// Whether the model `m` holds exactly the given identifying data.
pub open spec fn model_is(
    m: ModelInfo,
    id: Seq<char>,
    name: Seq<char>,
    description: Seq<char>,
    premium: bool,
) -> bool {
    &&& m.id@ == id
    &&& m.name@ == name
    &&& m.description@ == description
    &&& m.is_premium == premium
}

/// Builds one model entry.
fn model_info(id: &str, name: &str, description: &str, is_premium: bool) -> (r: ModelInfo)
    ensures
        r.id@ == id@,
        r.name@ == name@,
        r.description@ == description@,
        r.is_premium == is_premium,
{
    ModelInfo {
        id: id.to_owned(),
        name: name.to_owned(),
        description: description.to_owned(),
        is_premium,
    }
}

/// The catalog's stock `OpenAI` entry, field for field.
pub open spec fn openai_defaults(p: ModelProvider) -> bool {
    &&& p.name@ == "OpenAI"@
    &&& openai_core(p)
}

/// The stock `OpenAI` entry, except its display name.
pub open spec fn openai_core(p: ModelProvider) -> bool {
    &&& p.base_url@ == "https://api.openai.com/v1"@
    &&& p.api_key_env matches Some(e) && e@ == "OPENAI_API_KEY"@
    &&& p.models@.len() == 4
    &&& model_is(p.models@[0], "gpt-5"@, "GPT-5"@, "Latest flagship model with advanced reasoning"@, true)
    &&& model_is(p.models@[1], "gpt-5-codex"@, "GPT-5 Codex"@, "Specialized for code generation and analysis"@, true)
    &&& model_is(p.models@[2], "gpt-4.1"@, "GPT-4.1"@, "Previous generation flagship"@, true)
    &&& model_is(p.models@[3], "gpt-3.5-turbo"@, "GPT-3.5 Turbo"@, "Fast and efficient model"@, false)
}

/// The catalog's stock `Anthropic` entry, field for field.
pub open spec fn anthropic_defaults(p: ModelProvider) -> bool {
    &&& p.name@ == "Anthropic"@
    &&& anthropic_core(p)
}

/// The stock `Anthropic` entry, except its display name.
pub open spec fn anthropic_core(p: ModelProvider) -> bool {
    &&& p.base_url@ == "https://api.anthropic.com"@
    &&& p.api_key_env matches Some(e) && e@ == "ANTHROPIC_API_KEY"@
    &&& p.models@.len() == 3
    &&& model_is(p.models@[0], "sonnet-4.5"@, "Sonnet 4.5"@, "Latest flagship with advanced reasoning"@, true)
    &&& model_is(p.models@[1], "opus-4"@, "Opus 4"@, "Most capable model for complex tasks"@, true)
    &&& model_is(p.models@[2], "haiku-3"@, "Haiku 3"@, "Fast and efficient model"@, false)
}

/// The catalog's stock `Google` entry, field for field.
pub open spec fn google_defaults(p: ModelProvider) -> bool {
    &&& p.name@ == "Google"@
    &&& google_core(p)
}

/// The stock `Google` entry, except its display name.
pub open spec fn google_core(p: ModelProvider) -> bool {
    &&& p.base_url@ == "https://generativelanguage.googleapis.com/v1beta"@
    &&& p.api_key_env matches Some(e) && e@ == "GOOGLE_API_KEY"@
    &&& p.models@.len() == 2
    &&& model_is(p.models@[0], "gemini-2.5-pro"@, "Gemini 2.5 Pro"@, "Latest flagship with advanced capabilities"@, true)
    &&& model_is(p.models@[1], "gemini-2.5-flash"@, "Gemini 2.5 Flash"@, "Fast and efficient latest model"@, false)
}

/// The catalog's stock `xAI` entry, field for field.
pub open spec fn xai_defaults(p: ModelProvider) -> bool {
    &&& p.name@ == "xAI"@
    &&& xai_core(p)
}

/// The stock `xAI` entry, except its display name.
pub open spec fn xai_core(p: ModelProvider) -> bool {
    &&& p.base_url@ == "https://api.x.ai/v1"@
    &&& p.api_key_env matches Some(e) && e@ == "XAI_API_KEY"@
    &&& p.models@.len() == 3
    &&& model_is(p.models@[0], "grok-4"@, "Grok-4"@, "Latest Grok with advanced reasoning"@, true)
    &&& model_is(p.models@[1], "grok-3"@, "Grok-3"@, "Previous generation flagship"@, true)
    &&& model_is(p.models@[2], "grok-beta"@, "Grok Beta"@, "Experimental Grok model"@, true)
}

/// The catalog's stock `OpenRouter` entry, field for field.
pub open spec fn openrouter_defaults(p: ModelProvider) -> bool {
    &&& p.name@ == "OpenRouter"@
    &&& openrouter_core(p)
}

/// The stock `OpenRouter` entry, except its display name.
pub open spec fn openrouter_core(p: ModelProvider) -> bool {
    &&& p.base_url@ == OPENROUTER_BASE_URL@
    &&& p.api_key_env matches Some(e) && e@ == "OPENROUTER_API_KEY"@
    &&& p.models@.len() == 10
    &&& model_is(p.models@[0], "openai/gpt-5"@, "GPT-5 (via OpenRouter)"@, "Latest flagship via OpenRouter"@, true)
    &&& model_is(p.models@[1], "openai/gpt-oss-120b:free"@, "GPT-OSS 120B (free) (via OpenRouter)"@, "Open-source GPT-class model available on the free tier."@, false)
    &&& model_is(p.models@[2], "anthropic/sonnet-4.5"@, "Sonnet 4.5 (via OpenRouter)"@, "Latest Anthropic model via OpenRouter"@, true)
    &&& model_is(p.models@[3], "google/gemini-2.5-pro"@, "Gemini 2.5 Pro (via OpenRouter)"@, "Latest Google model via OpenRouter"@, true)
    &&& model_is(p.models@[4], "x-ai/grok-4-fast:free"@, "Grok-4-fast (free) (via OpenRouter)"@, "Latest Grok via OpenRouter"@, true)
    &&& model_is(p.models@[5], "meta-llama/llama-3.1-405b-instruct"@, "Llama 3.1 405B (via OpenRouter)"@, "Open source powerhouse"@, true)
    &&& model_is(p.models@[6], "mistralai/mistral-large"@, "Mistral Large (via OpenRouter)"@, "Most capable Mistral model"@, true)
    &&& model_is(p.models@[7], "z-ai/glm-4.5-air:free"@, "Z.AI GLM 4.5 Air (free) (via OpenRouter)"@, "Purpose-built for agent-centric applications."@, false)
    &&& model_is(p.models@[8], "mistralai/mistral-small-3.2-24b-instruct:free"@, "Mistral 24B Instruct (free) (via OpenRouter)"@, "Mistral optimized for instruction following, repetition reduction, and improved function calling."@, false)
    &&& model_is(p.models@[9], "custom-model"@, "Custom Model"@, "Enter any OpenRouter model name"@, false)
}

/// The catalog's stock `Mistral AI` entry, field for field.
pub open spec fn mistral_defaults(p: ModelProvider) -> bool {
    &&& p.name@ == "Mistral AI"@
    &&& mistral_core(p)
}

/// The stock `Mistral AI` entry, except its display name.
pub open spec fn mistral_core(p: ModelProvider) -> bool {
    &&& p.base_url@ == "https://api.mistral.ai/v1"@
    &&& p.api_key_env matches Some(e) && e@ == "MISTRAL_API_KEY"@
    &&& p.models@.len() == 2
    &&& model_is(p.models@[0], "mistral-large"@, "Mistral Large"@, "Most capable Mistral model"@, true)
    &&& model_is(p.models@[1], "mistral-7b-instruct"@, "Mistral 7B Instruct"@, "Fast and efficient model"@, false)
}

/// Builds the stock `OpenAI` catalog entry.
fn openai_provider() -> (r: ModelProvider)
    ensures
        openai_defaults(r),
{
    let mut models: Vec<ModelInfo> = Vec::new();
    models.push(model_info("gpt-5", "GPT-5", "Latest flagship model with advanced reasoning", true));
    models.push(model_info("gpt-5-codex", "GPT-5 Codex", "Specialized for code generation and analysis", true));
    models.push(model_info("gpt-4.1", "GPT-4.1", "Previous generation flagship", true));
    models.push(model_info("gpt-3.5-turbo", "GPT-3.5 Turbo", "Fast and efficient model", false));
    ModelProvider {
        name: "OpenAI".to_owned(),
        base_url: "https://api.openai.com/v1".to_owned(),
        api_key_env: Some("OPENAI_API_KEY".to_owned()),
        models,
    }
}

/// Builds the stock `Anthropic` catalog entry.
fn anthropic_provider() -> (r: ModelProvider)
    ensures
        anthropic_defaults(r),
{
    let mut models: Vec<ModelInfo> = Vec::new();
    models.push(model_info("sonnet-4.5", "Sonnet 4.5", "Latest flagship with advanced reasoning", true));
    models.push(model_info("opus-4", "Opus 4", "Most capable model for complex tasks", true));
    models.push(model_info("haiku-3", "Haiku 3", "Fast and efficient model", false));
    ModelProvider {
        name: "Anthropic".to_owned(),
        base_url: "https://api.anthropic.com".to_owned(),
        api_key_env: Some("ANTHROPIC_API_KEY".to_owned()),
        models,
    }
}

/// Builds the stock `Google` catalog entry.
fn google_provider() -> (r: ModelProvider)
    ensures
        google_defaults(r),
{
    let mut models: Vec<ModelInfo> = Vec::new();
    models.push(model_info("gemini-2.5-pro", "Gemini 2.5 Pro", "Latest flagship with advanced capabilities", true));
    models.push(model_info("gemini-2.5-flash", "Gemini 2.5 Flash", "Fast and efficient latest model", false));
    ModelProvider {
        name: "Google".to_owned(),
        base_url: "https://generativelanguage.googleapis.com/v1beta".to_owned(),
        api_key_env: Some("GOOGLE_API_KEY".to_owned()),
        models,
    }
}

/// Builds the stock `xAI` catalog entry.
fn xai_provider() -> (r: ModelProvider)
    ensures
        xai_defaults(r),
{
    let mut models: Vec<ModelInfo> = Vec::new();
    models.push(model_info("grok-4", "Grok-4", "Latest Grok with advanced reasoning", true));
    models.push(model_info("grok-3", "Grok-3", "Previous generation flagship", true));
    models.push(model_info("grok-beta", "Grok Beta", "Experimental Grok model", true));
    ModelProvider {
        name: "xAI".to_owned(),
        base_url: "https://api.x.ai/v1".to_owned(),
        api_key_env: Some("XAI_API_KEY".to_owned()),
        models,
    }
}

/// Builds the stock `OpenRouter` catalog entry.
fn openrouter_provider() -> (r: ModelProvider)
    ensures
        openrouter_defaults(r),
{
    let mut models: Vec<ModelInfo> = Vec::new();
    models.push(model_info("openai/gpt-5", "GPT-5 (via OpenRouter)", "Latest flagship via OpenRouter", true));
    models.push(model_info("openai/gpt-oss-120b:free", "GPT-OSS 120B (free) (via OpenRouter)", "Open-source GPT-class model available on the free tier.", false));
    models.push(model_info("anthropic/sonnet-4.5", "Sonnet 4.5 (via OpenRouter)", "Latest Anthropic model via OpenRouter", true));
    models.push(model_info("google/gemini-2.5-pro", "Gemini 2.5 Pro (via OpenRouter)", "Latest Google model via OpenRouter", true));
    models.push(model_info("x-ai/grok-4-fast:free", "Grok-4-fast (free) (via OpenRouter)", "Latest Grok via OpenRouter", true));
    models.push(model_info("meta-llama/llama-3.1-405b-instruct", "Llama 3.1 405B (via OpenRouter)", "Open source powerhouse", true));
    models.push(model_info("mistralai/mistral-large", "Mistral Large (via OpenRouter)", "Most capable Mistral model", true));
    models.push(model_info("z-ai/glm-4.5-air:free", "Z.AI GLM 4.5 Air (free) (via OpenRouter)", "Purpose-built for agent-centric applications.", false));
    models.push(model_info("mistralai/mistral-small-3.2-24b-instruct:free", "Mistral 24B Instruct (free) (via OpenRouter)", "Mistral optimized for instruction following, repetition reduction, and improved function calling.", false));
    models.push(model_info("custom-model", "Custom Model", "Enter any OpenRouter model name", false));
    ModelProvider {
        name: "OpenRouter".to_owned(),
        base_url: OPENROUTER_BASE_URL.to_owned(),
        api_key_env: Some("OPENROUTER_API_KEY".to_owned()),
        models,
    }
}

/// Builds the stock `Mistral AI` catalog entry.
fn mistral_provider() -> (r: ModelProvider)
    ensures
        mistral_defaults(r),
{
    let mut models: Vec<ModelInfo> = Vec::new();
    models.push(model_info("mistral-large", "Mistral Large", "Most capable Mistral model", true));
    models.push(model_info("mistral-7b-instruct", "Mistral 7B Instruct", "Fast and efficient model", false));
    ModelProvider {
        name: "Mistral AI".to_owned(),
        base_url: "https://api.mistral.ai/v1".to_owned(),
        api_key_env: Some("MISTRAL_API_KEY".to_owned()),
        models,
    }
}

impl Config {
    /// Builds the stock provider catalog: the six built-in providers and
    /// their model lists, in catalog order.
    pub fn create_default_model_providers() -> (r: Vec<(String, ModelProvider)>)
        ensures
            r@.len() == 6,
            r@[0].0@ == "openai"@ && openai_defaults(r@[0].1),
            r@[1].0@ == "anthropic"@ && anthropic_defaults(r@[1].1),
            r@[2].0@ == "google"@ && google_defaults(r@[2].1),
            r@[3].0@ == "xai"@ && xai_defaults(r@[3].1),
            r@[4].0@ == "openrouter"@ && openrouter_defaults(r@[4].1),
            r@[5].0@ == "mistral"@ && mistral_defaults(r@[5].1),
            unique_keys(r@),
    {
        let mut model_providers: Vec<(String, ModelProvider)> = Vec::new();
        model_providers.push(("openai".to_owned(), openai_provider()));
        model_providers.push(("anthropic".to_owned(), anthropic_provider()));
        model_providers.push(("google".to_owned(), google_provider()));
        model_providers.push(("xai".to_owned(), xai_provider()));
        model_providers.push(("openrouter".to_owned(), openrouter_provider()));
        model_providers.push(("mistral".to_owned(), mistral_provider()));
        proof {
            reveal_strlit("openai");
            reveal_strlit("anthropic");
            reveal_strlit("google");
            reveal_strlit("xai");
            reveal_strlit("openrouter");
            reveal_strlit("mistral");
            assert("openai"@.len() == 6);
            assert("anthropic"@.len() == 9);
            assert("google"@.len() == 6);
            assert("xai"@.len() == 3);
            assert("openrouter"@.len() == 10);
            assert("mistral"@.len() == 7);
            assert("openai"@[0] == 'o');
            assert("google"@[0] == 'g');
            assert("openai"@ != "anthropic"@);
            assert("openai"@ != "google"@);
            assert("openai"@ != "xai"@);
            assert("openai"@ != "openrouter"@);
            assert("openai"@ != "mistral"@);
            assert("anthropic"@ != "google"@);
            assert("anthropic"@ != "xai"@);
            assert("anthropic"@ != "openrouter"@);
            assert("anthropic"@ != "mistral"@);
            assert("google"@ != "xai"@);
            assert("google"@ != "openrouter"@);
            assert("google"@ != "mistral"@);
            assert("xai"@ != "openrouter"@);
            assert("xai"@ != "mistral"@);
            assert("openrouter"@ != "mistral"@);
            assert(unique_keys(model_providers@));
        }
        model_providers
    }
}


/// Whether the on-disk model `t` carries exactly the data of `m`.
pub open spec fn toml_model_matches(t: ModelInfoToml, m: ModelInfo) -> bool {
    &&& t.id == m.id
    &&& t.name == m.name
    &&& t.description == Some(m.description)
}

/// Whether the on-disk provider `t` carries exactly the data of `p`.
pub open spec fn toml_provider_matches(t: ModelProviderToml, p: ModelProvider) -> bool {
    &&& t.name == p.name
    &&& t.base_url == p.base_url
    &&& t.api_key_env == p.api_key_env
    &&& t.models@.len() == p.models@.len()
    &&& forall|j: int| 0 <= j < p.models@.len() ==> toml_model_matches(
        #[trigger] t.models@[j],
        p.models@[j],
    )
}

impl Config {
    /// The configuration in its on-disk shape, every field carried over.
    pub fn to_config_toml(&self) -> (r: ConfigToml)
        ensures
            r.selected_provider == Some(self.selected_provider),
            r.default_model == Some(self.default_model),
            r.api_keys matches Some(ks) && ks@ == self.api_keys@,
            r.model_providers matches Some(mp) && mp@.len() == self.model_providers@.len() && (
            forall|i: int| 0 <= i < mp@.len() ==> (#[trigger] mp@[i]).0
                == self.model_providers@[i].0 && toml_provider_matches(
                mp@[i].1,
                self.model_providers@[i].1,
            )),
            r.ui matches Some(u) && u.theme == Some(self.ui.theme) && u.show_emojis == Some(
                self.ui.show_usage_counter,
            ) && u.max_history_lines == Some(self.ui.auto_save_interval as usize),
    {
        let mut api_keys: Vec<(String, String)> = Vec::new();
        let mut i: usize = 0;
        while i < self.api_keys.len()
            invariant
                i <= self.api_keys@.len(),
                api_keys@.len() == i,
                forall|k: int| 0 <= k < i ==> #[trigger] api_keys@[k] == self.api_keys@[k],
            decreases self.api_keys@.len() - i,
        {
            api_keys.push((self.api_keys[i].0.clone(), self.api_keys[i].1.clone()));
            i += 1;
        }
        proof {
            assert(api_keys@ =~= self.api_keys@);
        }

        let mut model_providers: Vec<(String, ModelProviderToml)> = Vec::new();
        let mut i: usize = 0;
        while i < self.model_providers.len()
            invariant
                i <= self.model_providers@.len(),
                model_providers@.len() == i,
                forall|k: int| 0 <= k < i ==> (#[trigger] model_providers@[k]).0
                    == self.model_providers@[k].0 && toml_provider_matches(
                    model_providers@[k].1,
                    self.model_providers@[k].1,
                ),
            decreases self.model_providers@.len() - i,
        {
            let provider = &self.model_providers[i].1;
            let mut models: Vec<ModelInfoToml> = Vec::new();
            let mut j: usize = 0;
            while j < provider.models.len()
                invariant
                    j <= provider.models@.len(),
                    models@.len() == j,
                    forall|k: int| 0 <= k < j ==> toml_model_matches(
                        #[trigger] models@[k],
                        provider.models@[k],
                    ),
                decreases provider.models@.len() - j,
            {
                let model = &provider.models[j];
                models.push(ModelInfoToml {
                    id: model.id.clone(),
                    name: model.name.clone(),
                    description: Some(model.description.clone()),
                });
                j += 1;
            }
            let api_key_env = match &provider.api_key_env {
                Some(env) => Some(env.clone()),
                None => None,
            };
            model_providers.push((
                self.model_providers[i].0.clone(),
                ModelProviderToml {
                    name: provider.name.clone(),
                    base_url: provider.base_url.clone(),
                    api_key_env,
                    models,
                },
            ));
            i += 1;
        }

        ConfigToml {
            selected_provider: Some(self.selected_provider.clone()),
            default_model: Some(self.default_model.clone()),
            api_keys: Some(api_keys),
            model_providers: Some(model_providers),
            ui: Some(UiConfigToml {
                theme: Some(self.ui.theme.clone()),
                show_emojis: Some(self.ui.show_usage_counter),
                max_history_lines: Some(self.ui.auto_save_interval as usize),
            }),
        }
    }
}

impl Default for ConfigToml {
    /// An empty configuration file: every field absent.
    fn default() -> (r: Self)
        ensures
            r.selected_provider is None,
            r.default_model is None,
            r.api_keys is None,
            r.model_providers is None,
            r.ui is None,
    {
        ConfigToml {
            selected_provider: None,
            default_model: None,
            api_keys: None,
            model_providers: None,
            ui: None,
        }
    }
}

/// Two key-value sequences with the same key at every position find any
/// key at the same place.
proof fn lemma_key_index_same_keys<V>(
    m1: Seq<(String, V)>,
    m2: Seq<(String, V)>,
    k: Seq<char>,
    i: int,
)
    requires
        0 <= i <= m1.len(),
        m1.len() == m2.len(),
        forall|j: int| 0 <= j < m1.len() ==> (#[trigger] m1[j]).0@ == m2[j].0@,
    ensures
        key_index_from(m1, k, i) == key_index_from(m2, k, i),
    decreases m1.len() - i,
{
    if i < m1.len() && m1[i].0@ != k {
        lemma_key_index_same_keys(m1, m2, k, i + 1);
    }
}

/// Appending an entry under another key leaves the position of `k`
/// untouched, except that an absent key stays absent one position further.
proof fn lemma_key_index_push<V>(m: Seq<(String, V)>, x: (String, V), k: Seq<char>, i: int)
    requires
        0 <= i <= m.len(),
        x.0@ != k,
    ensures
        key_index_from(m, k, i) < m.len() ==> key_index_from(m.push(x), k, i) == key_index_from(
            m,
            k,
            i,
        ),
        key_index_from(m, k, i) == m.len() ==> key_index_from(m.push(x), k, i) == m.len() + 1,
    decreases m.len() - i,
{
    lemma_key_index_from(m, k, i);
    if i < m.len() {
        if m[i].0@ != k {
            lemma_key_index_push(m, x, k, i + 1);
        }
    } else {
        assert(m.push(x)[i].0@ == x.0@);
        assert(key_index_from(m.push(x), k, i + 1) == m.len() + 1);
    }
}

/// Replaces the catalog entry of `key` with the built-in one, keeping the
/// stored display name; a missing key is appended with the built-in entry
/// whole.  Every other key keeps its value.
fn merge_one(m: &mut Vec<(String, ModelProvider)>, key: &str, builtin: ModelProvider)
    requires
        unique_keys(old(m)@),
    ensures
        unique_keys(final(m)@),
        has_key(final(m)@, key@),
        value_of(final(m)@, key@).base_url == builtin.base_url,
        value_of(final(m)@, key@).api_key_env == builtin.api_key_env,
        value_of(final(m)@, key@).models == builtin.models,
        has_key(old(m)@, key@) ==> value_of(final(m)@, key@).name == value_of(
            old(m)@,
            key@,
        ).name,
        !has_key(old(m)@, key@) ==> value_of(final(m)@, key@).name == builtin.name,
        forall|k2: Seq<char>| k2 != key@ ==> has_key(final(m)@, k2) == has_key(old(m)@, k2) && (
        has_key(old(m)@, k2) ==> value_of(final(m)@, k2) == value_of(old(m)@, k2)),
        final(m)@.len() == old(m)@.len() + (if has_key(old(m)@, key@) {
            0int
        } else {
            1int
        }),
{
    let ghost m0 = m@;
    let ghost k = key@;
    let mut i: usize = 0;
    while i < m.len()
        invariant
            i <= m0.len(),
            m@ == m0,
            m0 == old(m)@,
            unique_keys(m0),
            k == key@,
            key_index(m0, k) == key_index_from(m0, k, i as int),
        decreases m0.len() - i,
    {
        let hit = str_eq(m[i].0.as_str(), key);
        if hit {
            proof {
                assert(key_index_from(m0, k, i as int) == i as int);
            }
            let kept_key = m[i].0.clone();
            let kept_name = m[i].1.name.clone();
            m.set(
                i,
                (
                    kept_key,
                    ModelProvider {
                        name: kept_name,
                        base_url: builtin.base_url,
                        api_key_env: builtin.api_key_env,
                        models: builtin.models,
                    },
                ),
            );
            proof {
                assert(m@.len() == m0.len());
                assert forall|j: int| 0 <= j < m0.len() implies (#[trigger] m0[j]).0@
                    == m@[j].0@ by {}
                assert forall|k2: Seq<char>| true implies key_index(m@, k2) == key_index(
                    m0,
                    k2,
                ) by {
                    lemma_key_index_same_keys(m0, m@, k2, 0);
                }
                assert forall|k2: Seq<char>| k2 != k && has_key(m0, k2) implies value_of(m@, k2)
                    == value_of(m0, k2) by {
                    lemma_key_index_from(m0, k2, 0);
                    assert(m0[key_index(m0, k2)].0@ == k2);
                    assert(key_index(m0, k2) != i as int);
                }
                assert(value_of(m@, k) == m@[i as int].1);
            }
            return ;
        }
        proof {
            assert(m0[i as int].0@ != k);
            assert(key_index_from(m0, k, i as int) == key_index_from(m0, k, i + 1 as int));
        }
        i += 1;
    }
    proof {
        assert(!has_key(m0, k));
        lemma_key_index_from(m0, k, 0);
    }
    m.push((key.to_owned(), builtin));
    proof {
        let mn = m@;
        assert(mn.len() == m0.len() + 1);
        assert(mn[m0.len() as int].0@ == k);
        assert forall|a: int, b: int| 0 <= a < b < mn.len() implies (#[trigger] mn[a]).0@ != (
        #[trigger] mn[b]).0@ by {
            if b < m0.len() {
            } else {
                assert(mn[b].0@ == k);
                assert(mn[a].0@ == m0[a].0@);
                assert(m0[a].0@ != k);
            }
        }
        lemma_key_index_from(mn, k, 0);
        assert(key_index(mn, k) == m0.len()) by {
            assert(key_index(mn, k) <= m0.len());
            if key_index(mn, k) < m0.len() {
                assert(mn[key_index(mn, k)].0@ == k);
                assert(m0[key_index(mn, k)].0@ != k);
            }
        }
        assert(has_key(mn, k));
        assert(value_of(mn, k) == mn[m0.len() as int].1);
        assert forall|k2: Seq<char>| k2 != k implies has_key(mn, k2) == has_key(m0, k2) && (
        has_key(m0, k2) ==> value_of(mn, k2) == value_of(m0, k2)) by {
            assert(mn[m0.len() as int].0@ != k2);
            lemma_key_index_push(m0, (mn[m0.len() as int].0, mn[m0.len() as int].1), k2, 0);
            assert(mn =~= m0.push((mn[m0.len() as int].0, mn[m0.len() as int].1)));
            lemma_key_index_from(m0, k2, 0);
        }
    }
}

/// Whether `k` names one of the six built-in providers.
pub open spec fn builtin_key(k: Seq<char>) -> bool {
    ||| k == "openai"@
    ||| k == "anthropic"@
    ||| k == "google"@
    ||| k == "xai"@
    ||| k == "openrouter"@
    ||| k == "mistral"@
}

/// `n` holds the built-in entry of `k`: its core data is the stock data,
/// and its display name is the one `o` stored, or the stock name `name`
/// when `o` had no entry.
pub open spec fn builtin_refreshed(
    o: Seq<(String, ModelProvider)>,
    n: Seq<(String, ModelProvider)>,
    k: Seq<char>,
    name: Seq<char>,
) -> bool {
    &&& has_key(n, k)
    &&& (has_key(o, k) ==> value_of(n, k).name == value_of(o, k).name)
    &&& (!has_key(o, k) ==> value_of(n, k).name@ == name)
}

impl Config {
    /// Ensures the six built-in providers are present and carry the stock
    /// base URL, key variable and model list, keeping any display name the
    /// stored catalog already gave them; entries of other providers are
    /// untouched.
    pub fn merge_builtin_provider_catalog(model_providers: &mut Vec<(String, ModelProvider)>)
        requires
            unique_keys(old(model_providers)@),
        ensures
            unique_keys(final(model_providers)@),
            builtin_refreshed(old(model_providers)@, final(model_providers)@, "openai"@, "OpenAI"@)
                && openai_core(value_of(final(model_providers)@, "openai"@)),
            builtin_refreshed(
                old(model_providers)@,
                final(model_providers)@,
                "anthropic"@,
                "Anthropic"@,
            ) && anthropic_core(value_of(final(model_providers)@, "anthropic"@)),
            builtin_refreshed(old(model_providers)@, final(model_providers)@, "google"@, "Google"@)
                && google_core(value_of(final(model_providers)@, "google"@)),
            builtin_refreshed(old(model_providers)@, final(model_providers)@, "xai"@, "xAI"@)
                && xai_core(value_of(final(model_providers)@, "xai"@)),
            builtin_refreshed(
                old(model_providers)@,
                final(model_providers)@,
                "openrouter"@,
                "OpenRouter"@,
            ) && openrouter_core(value_of(final(model_providers)@, "openrouter"@)),
            builtin_refreshed(
                old(model_providers)@,
                final(model_providers)@,
                "mistral"@,
                "Mistral AI"@,
            ) && mistral_core(value_of(final(model_providers)@, "mistral"@)),
            forall|k2: Seq<char>| !builtin_key(k2) ==> has_key(final(model_providers)@, k2)
                == has_key(old(model_providers)@, k2) && (has_key(old(model_providers)@, k2)
                ==> value_of(final(model_providers)@, k2) == value_of(old(model_providers)@, k2)),
    {
        proof {
            reveal_strlit("openai");
            reveal_strlit("anthropic");
            reveal_strlit("google");
            reveal_strlit("xai");
            reveal_strlit("openrouter");
            reveal_strlit("mistral");
            assert("openai"@.len() == 6);
            assert("anthropic"@.len() == 9);
            assert("google"@.len() == 6);
            assert("xai"@.len() == 3);
            assert("openrouter"@.len() == 10);
            assert("mistral"@.len() == 7);
            assert("openai"@[0] == 'o');
            assert("google"@[0] == 'g');
        }
        merge_one(model_providers, "openai", openai_provider());
        merge_one(model_providers, "anthropic", anthropic_provider());
        merge_one(model_providers, "google", google_provider());
        merge_one(model_providers, "xai", xai_provider());
        merge_one(model_providers, "openrouter", openrouter_provider());
        merge_one(model_providers, "mistral", mistral_provider());
    }
}

/// How one on-disk model becomes a catalog model: loaded models carry no
/// premium flag, and a missing description becomes empty.
pub open spec fn model_from_toml_ok(m: ModelInfo, t: ModelInfoToml) -> bool {
    &&& m.id == t.id
    &&& m.name == t.name
    &&& (t.description matches Some(d) ==> m.description == d)
    &&& (t.description is None ==> m.description@ == Seq::<char>::empty())
    &&& m.is_premium == false
}

/// The stored base URL, with the aggregator's legacy URL rewritten to the
/// canonical one.  The rule applies to the `openrouter` entry only, and
/// recognizes the legacy URL with any number of trailing slashes.
pub open spec fn normalized_base_url(id: Seq<char>, base_url: Seq<char>) -> Seq<char> {
    if id == "openrouter"@ && base_url.take(run_end(base_url, '/', base_url.len() as int))
        == LEGACY_OPENROUTER_BASE_URL@ {
        OPENROUTER_BASE_URL@
    } else {
        base_url
    }
}

/// How one on-disk provider becomes a catalog provider.
pub open spec fn provider_from_toml_ok(
    p: ModelProvider,
    t: ModelProviderToml,
    id: Seq<char>,
) -> bool {
    &&& p.name == t.name
    &&& p.api_key_env == t.api_key_env
    &&& p.base_url@ == normalized_base_url(id, t.base_url@)
    &&& p.models@.len() == t.models@.len()
    &&& forall|j: int| 0 <= j < t.models@.len() ==> model_from_toml_ok(
        #[trigger] p.models@[j],
        t.models@[j],
    )
}

/// Under unique keys, every entry is found at its own position.
proof fn lemma_key_index_self<V>(m: Seq<(String, V)>, i: int)
    requires
        unique_keys(m),
        0 <= i < m.len(),
    ensures
        key_index(m, m[i].0@) == i,
        has_key(m, m[i].0@),
        value_of(m, m[i].0@) == m[i].1,
{
    let k = m[i].0@;
    lemma_key_index_from(m, k, 0);
    let ki = key_index(m, k);
    if ki > i {
        assert(m[i].0@ != k);
    }
    if ki < i {
        assert(m[ki].0@ == k);
    }
}

/// Two key-value sequences with the same key at every position find any
/// key at the same place, whatever their value types.
proof fn lemma_key_index_two<V1, V2>(
    m1: Seq<(String, V1)>,
    m2: Seq<(String, V2)>,
    k: Seq<char>,
    i: int,
)
    requires
        0 <= i <= m1.len(),
        m1.len() == m2.len(),
        forall|j: int| 0 <= j < m1.len() ==> (#[trigger] m1[j]).0@ == m2[j].0@,
    ensures
        key_index_from(m1, k, i) == key_index_from(m2, k, i),
    decreases m1.len() - i,
{
    if i < m1.len() && m1[i].0@ != k {
        lemma_key_index_two(m1, m2, k, i + 1);
    }
}

impl Config {
    /// Builds the configuration from its on-disk shape, given the home
    /// directory and the working directory the caller determined.  Absent
    /// fields take their defaults, the aggregator's legacy base URL is
    /// rewritten, and the built-in provider catalog is merged in.
    pub fn from_config_toml(config_toml: ConfigToml, bindr_home: String, cwd: String) -> (r:
        Config)
        requires
            config_toml.api_keys matches Some(ks) ==> unique_keys(ks@),
            config_toml.model_providers matches Some(ps) ==> unique_keys(ps@),
        ensures
            r.wf(),
            r.bindr_home == bindr_home,
            r.cwd == cwd,
            r.projects_dir@ == bindr_home@ + "/projects"@,
            r.user_instructions is None,
            config_toml.selected_provider matches Some(s) ==> r.selected_provider == s,
            config_toml.selected_provider is None ==> r.selected_provider@ == "openai"@,
            config_toml.default_model matches Some(s) ==> r.default_model == s,
            config_toml.default_model is None ==> r.default_model@ == "gpt-5"@,
            config_toml.api_keys matches Some(ks) ==> r.api_keys == ks,
            config_toml.api_keys is None ==> r.api_keys@ == Seq::<(String, String)>::empty(),
            config_toml.ui matches Some(u) ==> (u.theme matches Some(t) ==> r.ui.theme == t) && (
            u.theme is None ==> r.ui.theme@ == "default"@) && (u.show_emojis matches Some(b)
                ==> r.ui.show_usage_counter == b) && (u.show_emojis is None
                ==> r.ui.show_usage_counter == true) && (u.max_history_lines matches Some(n)
                ==> r.ui.auto_save_interval == n as u64) && (u.max_history_lines is None
                ==> r.ui.auto_save_interval == 1000u64),
            config_toml.ui is None ==> r.ui.theme@ == "default"@ && r.ui.show_usage_counter
                && r.ui.auto_save_interval == 30u64,
            has_key(r.model_providers@, "openai"@) && openai_core(
                value_of(r.model_providers@, "openai"@),
            ),
            has_key(r.model_providers@, "anthropic"@) && anthropic_core(
                value_of(r.model_providers@, "anthropic"@),
            ),
            has_key(r.model_providers@, "google"@) && google_core(
                value_of(r.model_providers@, "google"@),
            ),
            has_key(r.model_providers@, "xai"@) && xai_core(
                value_of(r.model_providers@, "xai"@),
            ),
            has_key(r.model_providers@, "openrouter"@) && openrouter_core(
                value_of(r.model_providers@, "openrouter"@),
            ),
            has_key(r.model_providers@, "mistral"@) && mistral_core(
                value_of(r.model_providers@, "mistral"@),
            ),
            config_toml.model_providers matches Some(ps) ==> (forall|i: int|
                0 <= i < ps@.len() && !builtin_key((#[trigger] ps@[i]).0@) ==> has_key(
                    r.model_providers@,
                    ps@[i].0@,
                ) && provider_from_toml_ok(
                    value_of(r.model_providers@, ps@[i].0@),
                    ps@[i].1,
                    ps@[i].0@,
                )),
            config_toml.model_providers matches Some(ps) ==> (forall|i: int|
                0 <= i < ps@.len() && builtin_key((#[trigger] ps@[i]).0@) ==> has_key(
                    r.model_providers@,
                    ps@[i].0@,
                ) && value_of(r.model_providers@, ps@[i].0@).name == ps@[i].1.name),
            config_toml.model_providers matches Some(ps) ==> (forall|k2: Seq<char>|
                !builtin_key(k2) ==> has_key(r.model_providers@, k2) == has_key(ps@, k2)),
            config_toml.model_providers is None ==> (forall|k2: Seq<char>|
                !builtin_key(k2) ==> !has_key(r.model_providers@, k2)),
    {
        let ghost toml_providers = config_toml.model_providers;
        let projects_dir = {
            let mut p = bindr_home.clone();
            p.append("/projects");
            p
        };
        let selected_provider = match config_toml.selected_provider {
            Some(s) => s,
            None => String::from_str("openai"),
        };
        let default_model = match config_toml.default_model {
            Some(s) => s,
            None => String::from_str("gpt-5"),
        };
        let api_keys = match config_toml.api_keys {
            Some(ks) => ks,
            None => Vec::new(),
        };

        let mut model_providers: Vec<(String, ModelProvider)> = match config_toml.model_providers {
            Some(providers_toml) => map_providers_from_toml(providers_toml),
            None => Self::create_default_model_providers(),
        };
        proof {
            match toml_providers {
                Some(ps) => {
                    assert forall|k2: Seq<char>| true implies has_key(model_providers@, k2)
                        == has_key(ps@, k2) by {
                        lemma_key_index_two(ps@, model_providers@, k2, 0);
                    }
                },
                None => {},
            }
        }
        let ghost mapped = model_providers@;
        Self::merge_builtin_provider_catalog(&mut model_providers);
        proof {
            match toml_providers {
                Some(ps) => {
                    assert forall|i: int|
                        0 <= i < ps@.len() && !builtin_key((#[trigger] ps@[i]).0@) implies has_key(
                        model_providers@,
                        ps@[i].0@,
                    ) && provider_from_toml_ok(
                        value_of(model_providers@, ps@[i].0@),
                        ps@[i].1,
                        ps@[i].0@,
                    ) by {
                        lemma_key_index_self(mapped, i);
                        assert(value_of(model_providers@, ps@[i].0@) == value_of(
                            mapped,
                            ps@[i].0@,
                        ));
                    }
                    assert forall|i: int|
                        0 <= i < ps@.len() && builtin_key((#[trigger] ps@[i]).0@) implies has_key(
                        model_providers@,
                        ps@[i].0@,
                    ) && value_of(model_providers@, ps@[i].0@).name == ps@[i].1.name by {
                        lemma_key_index_self(mapped, i);
                    }
                },
                None => {
                    assert forall|k2: Seq<char>| !builtin_key(k2) implies !has_key(
                        mapped,
                        k2,
                    ) by {
                        lemma_key_index_from(mapped, k2, 0);
                        if has_key(mapped, k2) {
                            assert(mapped[key_index(mapped, k2)].0@ == k2);
                        }
                    }
                },
            }
        }

        let ui = match config_toml.ui {
            Some(ui_toml) => UiConfig {
                theme: match ui_toml.theme {
                    Some(t) => t,
                    None => String::from_str("default"),
                },
                show_usage_counter: match ui_toml.show_emojis {
                    Some(b) => b,
                    None => true,
                },
                auto_save_interval: match ui_toml.max_history_lines {
                    Some(n) => n as u64,
                    None => 1000,
                },
            },
            None => UiConfig {
                theme: String::from_str("default"),
                show_usage_counter: true,
                auto_save_interval: 30,
            },
        };

        Config {
            selected_provider,
            api_keys,
            default_model,
            model_providers,
            user_instructions: None,
            bindr_home,
            projects_dir,
            cwd,
            ui,
        }
    }
}

/// Maps each stored provider entry to a catalog entry, key for key and in
/// order.
fn map_providers_from_toml(providers_toml: Vec<(String, ModelProviderToml)>) -> (r: Vec<
    (String, ModelProvider),
>)
    ensures
        r@.len() == providers_toml@.len(),
        forall|i: int| 0 <= i < r@.len() ==> (#[trigger] r@[i]).0 == providers_toml@[i].0
            && provider_from_toml_ok(r@[i].1, providers_toml@[i].1, providers_toml@[i].0@),
{
    let ghost orig = providers_toml@;
    let mut remaining = providers_toml;
    let mut out: Vec<(String, ModelProvider)> = Vec::new();
    while remaining.len() > 0
        invariant
            out@.len() <= orig.len(),
            remaining@ == orig.skip(out@.len() as int),
            forall|i: int| 0 <= i < out@.len() ==> (#[trigger] out@[i]).0 == orig[i].0
                && provider_from_toml_ok(out@[i].1, orig[i].1, orig[i].0@),
        decreases remaining@.len(),
    {
        let ghost done = out@.len() as int;
        let (id, provider_toml) = remaining.remove(0);
        proof {
            assert(orig.skip(done)[0] == orig[done]);
            assert(orig.skip(done).remove(0) =~= orig.skip(done + 1));
        }
        let mut base_url = provider_toml.base_url;
        if crate::text::str_eq(id.as_str(), "openrouter") {
            let is_legacy = {
                let trimmed = trim_trailing(base_url.as_str(), '/');
                crate::text::str_eq(trimmed, LEGACY_OPENROUTER_BASE_URL)
            };
            if is_legacy {
                base_url = OPENROUTER_BASE_URL.to_owned();
            }
        }
        let models = map_models_from_toml(provider_toml.models);
        out.push(
            (
                id,
                ModelProvider {
                    name: provider_toml.name,
                    base_url,
                    api_key_env: provider_toml.api_key_env,
                    models,
                },
            ),
        );
    }
    out
}

/// Maps each stored model entry to a catalog model, in order.
fn map_models_from_toml(models_toml: Vec<ModelInfoToml>) -> (r: Vec<ModelInfo>)
    ensures
        r@.len() == models_toml@.len(),
        forall|j: int| 0 <= j < r@.len() ==> model_from_toml_ok(
            #[trigger] r@[j],
            models_toml@[j],
        ),
{
    let ghost orig = models_toml@;
    let mut remaining = models_toml;
    let mut out: Vec<ModelInfo> = Vec::new();
    while remaining.len() > 0
        invariant
            out@.len() <= orig.len(),
            remaining@ == orig.skip(out@.len() as int),
            forall|j: int| 0 <= j < out@.len() ==> model_from_toml_ok(
                #[trigger] out@[j],
                orig[j],
            ),
        decreases remaining@.len(),
    {
        let ghost done = out@.len() as int;
        let model_toml = remaining.remove(0);
        proof {
            assert(orig.skip(done)[0] == orig[done]);
            assert(orig.skip(done).remove(0) =~= orig.skip(done + 1));
        }
        let description = match model_toml.description {
            Some(d) => d,
            None => String::new(),
        };
        out.push(
            ModelInfo { id: model_toml.id, name: model_toml.name, description, is_premium: false },
        );
    }
    out
}

} // verus!
