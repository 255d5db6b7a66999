//! Settings of the language-model client: saved keys, the endpoint in use,
//! and the rules that pick a provider from a URL.

use crate::chars::{trim, trim_end_matches, trimmed, without_trailing};
use crate::memory_model::{select, select_prefix};
use crate::text::{
    copy_opt_text, str_contains, str_ends_with, str_eq, text_contains, text_ends_with,
};
use crate::trusted::{lowercase, to_lowercase};
use vstd::prelude::*;

verus! {

/// The endpoint that a user saved.
#[derive(Debug, Clone)]
pub struct LlmUserConfig {
    pub base_url: Option<String>,
    pub model: Option<String>,
    /// When set, this URL is used as a proxy and takes precedence.
    pub proxy_url: Option<String>,
    pub active_provider: Option<String>,
}

/// The mathematical form of an `LlmUserConfig`.
pub ghost struct LlmUserConfigView {
    pub base_url: Option<Seq<char>>,
    pub model: Option<Seq<char>>,
    pub proxy_url: Option<Seq<char>>,
    pub active_provider: Option<Seq<char>>,
}

impl View for LlmUserConfig {
    type V = LlmUserConfigView;

    open spec fn view(&self) -> LlmUserConfigView {
        LlmUserConfigView {
            base_url: self.base_url.deep_view(),
            model: self.model.deep_view(),
            proxy_url: self.proxy_url.deep_view(),
            active_provider: self.active_provider.deep_view(),
        }
    }
}

/// The saved API keys, one slot for each provider.
#[derive(Debug, Clone)]
pub struct ApiKeysConfig {
    pub openrouter: Option<String>,
    pub openai: Option<String>,
    pub anthropic: Option<String>,
    pub google: Option<String>,
    pub groq: Option<String>,
    pub together: Option<String>,
    pub deepseek: Option<String>,
}

/// The names of the providers, in the order of their slots.
pub open spec fn provider_names() -> Seq<Seq<char>> {
    seq![
        "openrouter"@,
        "openai"@,
        "anthropic"@,
        "google"@,
        "groq"@,
        "together"@,
        "deepseek"@,
    ]
}

/// The slot of the provider with the given lower-case name.
pub open spec fn provider_slot(name: Seq<char>) -> Option<int> {
    if name == "openrouter"@ {
        Some(0)
    } else if name == "openai"@ {
        Some(1)
    } else if name == "anthropic"@ {
        Some(2)
    } else if name == "google"@ {
        Some(3)
    } else if name == "groq"@ {
        Some(4)
    } else if name == "together"@ {
        Some(5)
    } else if name == "deepseek"@ {
        Some(6)
    } else {
        None
    }
}

/// For each slot, whether it holds a key.
pub open spec fn key_flags(keys: Seq<Option<Seq<char>>>) -> Seq<bool> {
    Seq::new(keys.len(), |k: int| keys[k] is Some)
}

/// The names of the providers whose slot holds a key, in slot order.
pub open spec fn configured_names(keys: Seq<Option<Seq<char>>>) -> Seq<Seq<char>> {
    Seq::new(
        select(key_flags(keys)).len(),
        |j: int| provider_names()[select(key_flags(keys))[j]],
    )
}

impl Default for ApiKeysConfig {
    fn default() -> (r: ApiKeysConfig)
        ensures
            forall|k: int| 0 <= k < 7 ==> r.keys()[k] is None,
    {
        ApiKeysConfig {
            openrouter: None,
            openai: None,
            anthropic: None,
            google: None,
            groq: None,
            together: None,
            deepseek: None,
        }
    }
}

impl ApiKeysConfig {
    /// The seven slots, in order.
    pub open spec fn keys(&self) -> Seq<Option<Seq<char>>> {
        seq![
            self.openrouter.deep_view(),
            self.openai.deep_view(),
            self.anthropic.deep_view(),
            self.google.deep_view(),
            self.groq.deep_view(),
            self.together.deep_view(),
            self.deepseek.deep_view(),
        ]
    }

    /// The key in the slot of the provider with the given lower-case name;
    /// none for a name that is no provider's.
    pub open spec fn slot_key(&self, name: Seq<char>) -> Option<Seq<char>> {
        match provider_slot(name) {
            Some(k) => self.keys()[k],
            None => None,
        }
    }

    /// The key saved for a provider, whose name is matched without regard to
    /// case; none for an unknown provider.
    pub open spec fn key_of(&self, provider: Seq<char>) -> Option<Seq<char>> {
        self.slot_key(lowercase(provider))
    }

    /// The slots once the one of the provider with the given lower-case name
    /// holds `key`; unchanged for a name that is no provider's.
    pub open spec fn keys_with(&self, name: Seq<char>, key: Option<Seq<char>>) -> Seq<Option<Seq<char>>> {
        match provider_slot(name) {
            Some(k) => self.keys().update(k, key),
            None => self.keys(),
        }
    }

    /// The key in the slot of the provider with the given lower-case name.
    pub fn get_key_by_name(&self, name: &str) -> (r: Option<String>)
        ensures
            r.deep_view() == self.slot_key(name@),
    {
        if str_eq(name, "openrouter") {
            copy_opt_text(&self.openrouter)
        } else if str_eq(name, "openai") {
            copy_opt_text(&self.openai)
        } else if str_eq(name, "anthropic") {
            copy_opt_text(&self.anthropic)
        } else if str_eq(name, "google") {
            copy_opt_text(&self.google)
        } else if str_eq(name, "groq") {
            copy_opt_text(&self.groq)
        } else if str_eq(name, "together") {
            copy_opt_text(&self.together)
        } else if str_eq(name, "deepseek") {
            copy_opt_text(&self.deepseek)
        } else {
            None
        }
    }

    /// Saves or clears the key in the slot of the provider with the given
    /// lower-case name; a name that is no provider's changes nothing.
    pub fn set_key_by_name(&mut self, name: &str, key: Option<String>)
        ensures
            final(self).keys() == old(self).keys_with(name@, key.deep_view()),
    {
        if str_eq(name, "openrouter") {
            self.openrouter = key;
        } else if str_eq(name, "openai") {
            self.openai = key;
        } else if str_eq(name, "anthropic") {
            self.anthropic = key;
        } else if str_eq(name, "google") {
            self.google = key;
        } else if str_eq(name, "groq") {
            self.groq = key;
        } else if str_eq(name, "together") {
            self.together = key;
        } else if str_eq(name, "deepseek") {
            self.deepseek = key;
        }
        assert(final(self).keys() =~= old(self).keys_with(name@, key.deep_view()));
    }

    /// The key saved for a provider.
    pub fn get_key(&self, provider: &str) -> (r: Option<String>)
        ensures
            r.deep_view() == self.key_of(provider@),
    {
        let name = to_lowercase(provider);
        self.get_key_by_name(name.as_str())
    }

    /// Saves or clears the key of a provider; an unknown provider changes
    /// nothing.
    pub fn set_key(&mut self, provider: &str, key: Option<String>)
        ensures
            final(self).keys() == old(self).keys_with(lowercase(provider@), key.deep_view()),
    {
        let name = to_lowercase(provider);
        self.set_key_by_name(name.as_str(), key);
    }

    /// A key that is saved for a provider is the key found for it, and the
    /// keys of the other providers are what they were.
    pub proof fn lemma_set_then_get(&self, name: Seq<char>, key: Option<Seq<char>>, other: Seq<char>)
        requires
            provider_slot(name) is Some,
        ensures
            self.keys_with(name, key)[provider_slot(name)->0] == key,
            provider_slot(other) is Some && provider_slot(other) != provider_slot(name)
                ==> self.keys_with(name, key)[provider_slot(other)->0] == self.slot_key(other),
            provider_slot(other) is None ==> self.keys_with(other, key) == self.keys(),
    {
    }

    /// Whether any provider has a key.
    pub fn has_any_key(&self) -> (r: bool)
        ensures
            r == exists|k: int| 0 <= k < 7 && self.keys()[k] is Some,
    {
        let r = self.openrouter.is_some() || self.openai.is_some() || self.anthropic.is_some()
            || self.google.is_some() || self.groq.is_some() || self.together.is_some()
            || self.deepseek.is_some();
        proof {
            if r {
                let k: int = if self.openrouter is Some {
                    0
                } else if self.openai is Some {
                    1
                } else if self.anthropic is Some {
                    2
                } else if self.google is Some {
                    3
                } else if self.groq is Some {
                    4
                } else if self.together is Some {
                    5
                } else {
                    6
                };
                assert(self.keys()[k] is Some);
            }
        }
        r
    }

    /// The names of the providers that have a key, in slot order.
    pub fn configured_providers(&self) -> (r: Vec<String>)
        ensures
            r.deep_view() == configured_names(self.keys()),
    {
        let mut providers: Vec<String> = Vec::new();
        if self.openrouter.is_some() {
            providers.push(String::from_str("openrouter"));
        }
        if self.openai.is_some() {
            providers.push(String::from_str("openai"));
        }
        if self.anthropic.is_some() {
            providers.push(String::from_str("anthropic"));
        }
        if self.google.is_some() {
            providers.push(String::from_str("google"));
        }
        if self.groq.is_some() {
            providers.push(String::from_str("groq"));
        }
        if self.together.is_some() {
            providers.push(String::from_str("together"));
        }
        if self.deepseek.is_some() {
            providers.push(String::from_str("deepseek"));
        }
        proof {
            reveal_with_fuel(select_prefix, 8);
            assert(key_flags(self.keys()).len() == 7);
            assert(providers.deep_view() =~= configured_names(self.keys()));
        }
        providers
    }
}

/// Whether a lower-case URL names a server on this machine.
pub open spec fn names_local_host(lower: Seq<char>) -> bool {
    text_contains(lower, "localhost"@) || text_contains(lower, "127.0.0.1"@)
}

/// The label of the provider that a lower-case URL points to.
pub open spec fn provider_label(lower: Seq<char>) -> Seq<char> {
    if text_contains(lower, "openai.com"@) {
        "OpenAI"@
    } else if text_contains(lower, "openrouter"@) {
        "OpenRouter"@
    } else if text_contains(lower, "together"@) {
        "Together AI"@
    } else if text_contains(lower, "groq"@) {
        "Groq"@
    } else if text_contains(lower, "deepinfra"@) {
        "DeepInfra"@
    } else if text_contains(lower, "anthropic"@) {
        "Anthropic"@
    } else if names_local_host(lower) {
        "Local (Ollama/LM Studio)"@
    } else {
        "Custom"@
    }
}

/// The name under which the key for a lower-case URL is saved; empty where
/// the URL points to no known provider.
pub open spec fn key_provider(lower: Seq<char>) -> Seq<char> {
    if text_contains(lower, "openrouter"@) {
        "openrouter"@
    } else if text_contains(lower, "openai.com"@) {
        "openai"@
    } else if text_contains(lower, "anthropic"@) {
        "anthropic"@
    } else if text_contains(lower, "generativelanguage.googleapis.com"@) || text_contains(
        lower,
        "google"@,
    ) {
        "google"@
    } else if text_contains(lower, "groq"@) {
        "groq"@
    } else if text_contains(lower, "together"@) {
        "together"@
    } else if text_contains(lower, "deepseek"@) {
        "deepseek"@
    } else {
        ""@
    }
}

/// A URL without surrounding white space and trailing slashes.
pub open spec fn bare_url(url: Seq<char>) -> Seq<char> {
    without_trailing(trimmed(url), '/')
}

/// The base URL as the OpenAI-style API wants it: bare, and with `/v1` added
/// where it names a server on this machine and does not end so already. A URL
/// that is empty once bare is given back untouched.
pub open spec fn normalized_base_url(base: Seq<char>) -> Seq<char> {
    let bare = bare_url(base);
    if bare.len() == 0 {
        base
    } else {
        with_api_version(bare, lowercase(bare))
    }
}

/// A URL without surrounding white space and trailing slashes.
pub fn strip_url(url: &str) -> (r: String)
    ensures
        r@ == bare_url(url@),
{
    let t = trim(url);
    trim_end_matches(t.as_str(), '/')
}

/// Whether a URL, given in lower case, names a server on this machine.
pub fn names_local_server(lower: &str) -> (r: bool)
    ensures
        r == names_local_host(lower@),
{
    str_contains(lower, "localhost") || str_contains(lower, "127.0.0.1")
}

/// The label of the provider that a URL, given in lower case, points to.
pub fn provider_label_for(lower: &str) -> (r: String)
    ensures
        r@ == provider_label(lower@),
{
    if str_contains(lower, "openai.com") {
        String::from_str("OpenAI")
    } else if str_contains(lower, "openrouter") {
        String::from_str("OpenRouter")
    } else if str_contains(lower, "together") {
        String::from_str("Together AI")
    } else if str_contains(lower, "groq") {
        String::from_str("Groq")
    } else if str_contains(lower, "deepinfra") {
        String::from_str("DeepInfra")
    } else if str_contains(lower, "anthropic") {
        String::from_str("Anthropic")
    } else if names_local_server(lower) {
        String::from_str("Local (Ollama/LM Studio)")
    } else {
        String::from_str("Custom")
    }
}

/// The label of the provider that a URL points to.
pub fn detect_provider(base_url: &str) -> (r: String)
    ensures
        r@ == provider_label(lowercase(base_url@)),
{
    let lower = to_lowercase(base_url);
    provider_label_for(lower.as_str())
}

/// Whether the base URL names a server on this machine, which needs no key.
pub fn is_local_llm_base_url(url: &str) -> (r: bool)
    ensures
        r == names_local_host(lowercase(url@)),
{
    let lower = to_lowercase(url);
    names_local_server(lower.as_str())
}

/// A bare URL as the OpenAI-style API wants it, given the URL in lower case
/// beside it: with `/v1` added where it names a server on this machine and
/// does not end so already.
pub open spec fn with_api_version(bare: Seq<char>, lower: Seq<char>) -> Seq<char> {
    if names_local_host(lower) && !text_ends_with(lower, "/v1"@) {
        bare + "/v1"@
    } else {
        bare
    }
}

/// A bare URL as the OpenAI-style API wants it, given the URL in lower case
/// beside it.
pub fn normalized_from(bare: &str, lower: &str) -> (r: String)
    ensures
        r@ == with_api_version(bare@, lower@),
{
    if names_local_server(lower) && !str_ends_with(lower, "/v1") {
        String::from_str(bare).concat("/v1")
    } else {
        String::from_str(bare)
    }
}

/// The base URL as the OpenAI-style API wants it.
pub fn normalize_base_url_for_openai_api(base: &str) -> (r: String)
    ensures
        r@ == normalized_base_url(base@),
{
    let bare = strip_url(base);
    if bare.as_str().unicode_len() == 0 {
        return String::from_str(base);
    }
    let lower = to_lowercase(bare.as_str());
    normalized_from(bare.as_str(), lower.as_str())
}

/// The saved key for a provider.
pub fn get_api_key_internal(keys: &ApiKeysConfig, provider: &str) -> (r: Option<String>)
    ensures
        r.deep_view() == keys.key_of(provider@),
{
    keys.get_key(provider)
}

/// The key to use for a base URL given in lower case: the saved key of the
/// provider that the URL points to, and the configured key where none is
/// saved or the provider is unknown.
pub open spec fn effective_key_for(
    keys: &ApiKeysConfig,
    config_api_key: Option<Seq<char>>,
    lower: Seq<char>,
) -> Option<Seq<char>> {
    let provider = key_provider(lower);
    if provider.len() > 0 && keys.slot_key(provider) is Some {
        keys.slot_key(provider)
    } else {
        config_api_key
    }
}

/// The key to use for a base URL, which is matched without regard to case.
pub open spec fn effective_key(
    keys: &ApiKeysConfig,
    config_api_key: Option<Seq<char>>,
    base_url: Seq<char>,
) -> Option<Seq<char>> {
    effective_key_for(keys, config_api_key, lowercase(base_url))
}

/// The name under which the key for a URL, given in lower case, is saved.
pub fn key_provider_for(lower: &str) -> (r: &'static str)
    ensures
        r@ == key_provider(lower@),
{
    if str_contains(lower, "openrouter") {
        "openrouter"
    } else if str_contains(lower, "openai.com") {
        "openai"
    } else if str_contains(lower, "anthropic") {
        "anthropic"
    } else if str_contains(lower, "generativelanguage.googleapis.com") || str_contains(
        lower,
        "google",
    ) {
        "google"
    } else if str_contains(lower, "groq") {
        "groq"
    } else if str_contains(lower, "together") {
        "together"
    } else if str_contains(lower, "deepseek") {
        "deepseek"
    } else {
        ""
    }
}

/// The key to use for a base URL given in lower case, saved keys first.
pub fn effective_api_key_for(keys: &ApiKeysConfig, config_api_key: Option<String>, lower: &str) -> (r:
    Option<String>)
    ensures
        r.deep_view() == effective_key_for(keys, config_api_key.deep_view(), lower@),
{
    let provider = key_provider_for(lower);
    if provider.unicode_len() > 0 {
        match keys.get_key_by_name(provider) {
            Some(key) => {
                return Some(key);
            },
            None => {},
        }
    }
    config_api_key
}

/// The key to use for a base URL, saved keys first.
pub fn get_effective_api_key(keys: &ApiKeysConfig, config_api_key: Option<String>, base_url: &str) -> (r:
    Option<String>)
    ensures
        r.deep_view() == effective_key(keys, config_api_key.deep_view(), base_url@),
{
    let lower = to_lowercase(base_url);
    effective_api_key_for(keys, config_api_key, lower.as_str())
}

/// The endpoint of the language model: where it is, how to reach it and
/// which model to ask for.
#[derive(Debug, Clone)]
pub struct LlmEndpoint {
    pub base_url: String,
    pub api_key: Option<String>,
    pub proxy_url: Option<String>,
    pub model: String,
    pub provider: String,
}

/// The mathematical form of an `LlmEndpoint`.
pub ghost struct LlmEndpointView {
    pub base_url: Seq<char>,
    pub api_key: Option<Seq<char>>,
    pub proxy_url: Option<Seq<char>>,
    pub model: Seq<char>,
    pub provider: Seq<char>,
}

impl View for LlmEndpoint {
    type V = LlmEndpointView;

    open spec fn view(&self) -> LlmEndpointView {
        LlmEndpointView {
            base_url: self.base_url@,
            api_key: self.api_key.deep_view(),
            proxy_url: self.proxy_url.deep_view(),
            model: self.model@,
            provider: self.provider@,
        }
    }
}

/// What the environment says of the endpoint: the values of the variables
/// for the proxy URL, the base URL, the API key and the model, each absent
/// where the variable is not set.
#[derive(Debug, Clone)]
pub struct LlmEnv {
    pub proxy_url: Option<String>,
    pub base_url: Option<String>,
    pub api_key: Option<String>,
    pub model: Option<String>,
}

/// The mathematical form of an `LlmEnv`.
pub ghost struct LlmEnvView {
    pub proxy_url: Option<Seq<char>>,
    pub base_url: Option<Seq<char>>,
    pub api_key: Option<Seq<char>>,
    pub model: Option<Seq<char>>,
}

impl View for LlmEnv {
    type V = LlmEnvView;

    open spec fn view(&self) -> LlmEnvView {
        LlmEnvView {
            proxy_url: self.proxy_url.deep_view(),
            base_url: self.base_url.deep_view(),
            api_key: self.api_key.deep_view(),
            model: self.model.deep_view(),
        }
    }
}

/// The proxy used where the environment names none and no local server.
pub open spec fn default_proxy_url() -> Seq<char> {
    "https://sentinelops.onrender.com"@
}

/// The model asked of a remote endpoint where none is named.
pub open spec fn default_remote_model() -> Seq<char> {
    "meta-llama/llama-3.1-8b-instruct"@
}

/// The model asked of a local server where none is named.
pub open spec fn default_local_model() -> Seq<char> {
    "llama3.2"@
}

/// The value, where it is present and not empty.
pub open spec fn non_empty(o: Option<Seq<char>>) -> Option<Seq<char>> {
    match o {
        Some(text) => if text.len() > 0 {
            Some(text)
        } else {
            None
        },
        None => None,
    }
}

/// The proxy to go through, given whether the base URL names a server on
/// this machine: the proxy that is named; otherwise the default proxy,
/// unless a base URL is named and is on this machine.
pub open spec fn chosen_proxy(
    proxy_url: Option<Seq<char>>,
    base_url: Option<Seq<char>>,
    local: bool,
) -> Option<Seq<char>> {
    match non_empty(proxy_url) {
        Some(proxy) => Some(proxy),
        None => if non_empty(base_url) is Some && local {
            None
        } else {
            Some(default_proxy_url())
        },
    }
}

/// Whether the environment names a base URL on this machine.
pub open spec fn env_is_local(env: LlmEnvView) -> bool {
    match non_empty(env.base_url) {
        Some(base) => names_local_host(lowercase(base)),
        None => false,
    }
}

/// The proxy that the environment asks for: the one it names; otherwise the
/// default proxy, unless it names a base URL on this machine.
pub open spec fn env_proxy(env: LlmEnvView) -> Option<Seq<char>> {
    chosen_proxy(env.proxy_url, env.base_url, env_is_local(env))
}

/// The model to ask for, given whether the endpoint is on this machine: the
/// one that is named, or the default for a local or a remote endpoint.
pub open spec fn chosen_model(model: Option<Seq<char>>, local: bool) -> Seq<char> {
    match model {
        Some(name) => name,
        None => if local {
            default_local_model()
        } else {
            default_remote_model()
        },
    }
}

/// The model for a base URL: the one the environment names, or the default
/// for a local or a remote endpoint.
pub open spec fn env_model(model: Option<Seq<char>>, base_url: Seq<char>) -> Seq<char> {
    chosen_model(model, names_local_host(lowercase(base_url)))
}

/// The endpoint that the environment alone gives.
pub open spec fn env_endpoint(env: LlmEnvView) -> LlmEndpointView {
    match env_proxy(env) {
        Some(proxy) => {
            let base = without_trailing(proxy, '/');
            LlmEndpointView {
                base_url: base,
                api_key: None,
                proxy_url: Some(proxy),
                model: env_model(env.model, base),
                provider: "Proxy"@,
            }
        },
        None => {
            let base = match env.base_url {
                Some(url) => url,
                None => "https://openrouter.ai/api/v1"@,
            };
            LlmEndpointView {
                base_url: base,
                api_key: env.api_key,
                proxy_url: None,
                model: env_model(env.model, base),
                provider: provider_label(lowercase(base)),
            }
        },
    }
}

/// The model that a saved local endpoint asks for: the saved name without
/// surrounding white space, or the default where that is empty.
pub open spec fn saved_model(model: Option<Seq<char>>) -> Seq<char> {
    match model {
        Some(name) => if trimmed(name).len() == 0 {
            default_local_model()
        } else {
            trimmed(name)
        },
        None => default_local_model(),
    }
}

/// The endpoint that a saved configuration gives, if it names one: its proxy
/// first, then its base URL; an address that is empty once bare names none.
pub open spec fn saved_endpoint(user: LlmUserConfigView, env: LlmEnvView) -> Option<LlmEndpointView> {
    if user.proxy_url is Some && bare_url(user.proxy_url->0).len() > 0 {
        let base = bare_url(user.proxy_url->0);
        Some(
            LlmEndpointView {
                base_url: base,
                api_key: None,
                proxy_url: Some(base),
                model: match env.model {
                    Some(name) => name,
                    None => default_remote_model(),
                },
                provider: "Proxy"@,
            },
        )
    } else if user.base_url is Some && bare_url(user.base_url->0).len() > 0 {
        let base = bare_url(user.base_url->0);
        Some(
            LlmEndpointView {
                base_url: base,
                api_key: None,
                proxy_url: None,
                model: saved_model(user.model),
                provider: provider_label(lowercase(base)),
            },
        )
    } else {
        None
    }
}

/// The endpoint in use: the saved one where there is one, that of the
/// environment otherwise.
pub open spec fn resolved_endpoint(user: Option<&LlmUserConfig>, env: LlmEnvView) -> LlmEndpointView {
    match user {
        Some(saved) => match saved_endpoint(saved@, env) {
            Some(endpoint) => endpoint,
            None => env_endpoint(env),
        },
        None => env_endpoint(env),
    }
}

fn keep_non_empty(o: &Option<String>) -> (r: Option<String>)
    ensures
        r.deep_view() == non_empty(o.deep_view()),
{
    match o {
        Some(text) => if text.as_str().unicode_len() > 0 {
            Some(text.clone())
        } else {
            None
        },
        None => None,
    }
}

/// The model to ask for, given whether the endpoint is on this machine.
pub fn model_choice(model: &Option<String>, local: bool) -> (r: String)
    ensures
        r@ == chosen_model(model.deep_view(), local),
{
    match model {
        Some(name) => name.clone(),
        None => if local {
            String::from_str("llama3.2")
        } else {
            String::from_str("meta-llama/llama-3.1-8b-instruct")
        },
    }
}

/// The proxy to go through, given whether the base URL names a server on
/// this machine.
pub fn proxy_choice(proxy_url: &Option<String>, base_url: &Option<String>, local: bool) -> (r: Option<
    String,
>)
    ensures
        r.deep_view() == chosen_proxy(proxy_url.deep_view(), base_url.deep_view(), local),
{
    match keep_non_empty(proxy_url) {
        Some(proxy) => Some(proxy),
        None => if keep_non_empty(base_url).is_some() && local {
            None
        } else {
            Some(String::from_str("https://sentinelops.onrender.com"))
        },
    }
}

/// The endpoint that the environment alone gives.
pub fn endpoint_from_env(env: &LlmEnv) -> (r: LlmEndpoint)
    ensures
        r@ == env_endpoint(env@),
{
    let local = match keep_non_empty(&env.base_url) {
        Some(base) => is_local_llm_base_url(base.as_str()),
        None => false,
    };
    match proxy_choice(&env.proxy_url, &env.base_url, local) {
        Some(proxy) => {
            let base = trim_end_matches(proxy.as_str(), '/');
            let model = model_choice(&env.model, is_local_llm_base_url(base.as_str()));
            LlmEndpoint {
                base_url: base,
                api_key: None,
                proxy_url: Some(proxy),
                model,
                provider: String::from_str("Proxy"),
            }
        },
        None => {
            let base = match &env.base_url {
                Some(url) => url.clone(),
                None => String::from_str("https://openrouter.ai/api/v1"),
            };
            let model = model_choice(&env.model, is_local_llm_base_url(base.as_str()));
            let provider = detect_provider(base.as_str());
            LlmEndpoint {
                base_url: base,
                api_key: copy_opt_text(&env.api_key),
                proxy_url: None,
                model,
                provider,
            }
        },
    }
}

/// The endpoint that a saved configuration gives, if it names one.
pub fn endpoint_from_saved(user: &LlmUserConfig, env: &LlmEnv) -> (r: Option<LlmEndpoint>)
    ensures
        match r {
            Some(endpoint) => saved_endpoint(user@, env@) == Some(endpoint@),
            None => saved_endpoint(user@, env@) is None,
        },
{
    if let Some(proxy) = &user.proxy_url {
        let base = strip_url(proxy.as_str());
        if base.as_str().unicode_len() > 0 {
            return Some(
                LlmEndpoint {
                    base_url: base.clone(),
                    api_key: None,
                    proxy_url: Some(base),
                    model: match &env.model {
                        Some(name) => name.clone(),
                        None => String::from_str("meta-llama/llama-3.1-8b-instruct"),
                    },
                    provider: String::from_str("Proxy"),
                },
            );
        }
    }
    if let Some(url) = &user.base_url {
        let base = strip_url(url.as_str());
        if base.as_str().unicode_len() > 0 {
            let model = match &user.model {
                Some(name) => {
                    let t = trim(name.as_str());
                    if t.as_str().unicode_len() == 0 {
                        String::from_str("llama3.2")
                    } else {
                        t
                    }
                },
                None => String::from_str("llama3.2"),
            };
            let provider = detect_provider(base.as_str());
            return Some(
                LlmEndpoint { base_url: base, api_key: None, proxy_url: None, model, provider },
            );
        }
    }
    None
}

/// The configuration of the application.
#[derive(Debug, Clone)]
pub struct Config {
    pub workspace_root: String,
    pub llm_base_url: String,
    pub llm_api_key: Option<String>,
    pub llm_proxy_url: Option<String>,
    pub llm_model: String,
    pub llm_provider: String,
    pub brave_api_key: Option<String>,
    pub max_read_size: usize,
    pub max_search_results: usize,
}

/// What the interface shows of the configuration.
#[derive(Debug, Clone)]
pub struct ConfigInfo {
    pub workspace_root: String,
    pub llm_configured: bool,
    pub llm_provider: String,
    pub llm_model: String,
    pub llm_base_url: String,
}

/// What the interface shows of the saved keys.
#[derive(Debug, Clone)]
pub struct ApiKeysInfo {
    pub configured_providers: Vec<String>,
    pub has_any_key: bool,
}

/// A request to save or clear the key of a provider.
#[derive(Debug, Clone)]
pub struct SetApiKeyRequest {
    pub provider: String,
    pub api_key: Option<String>,
}

/// What the application says of itself.
#[derive(Debug, Clone)]
pub struct AppInfo {
    pub version: String,
    pub name: String,
    pub platform: String,
}

impl AppInfo {
    /// The description of the application at a version, on a platform.
    pub fn new(version: &str, platform: &str) -> (r: AppInfo)
        ensures
            r.version@ == version@,
            r.name@ == "SentinelOps"@,
            r.platform@ == platform@,
    {
        AppInfo {
            version: String::from_str(version),
            name: String::from_str("SentinelOps"),
            platform: String::from_str(platform),
        }
    }
}

impl ApiKeysConfig {
    /// What the interface shows of the saved keys.
    pub fn info(&self) -> (r: ApiKeysInfo)
        ensures
            r.configured_providers.deep_view() == configured_names(self.keys()),
            r.has_any_key == exists|k: int| 0 <= k < 7 && self.keys()[k] is Some,
    {
        ApiKeysInfo {
            configured_providers: self.configured_providers(),
            has_any_key: self.has_any_key(),
        }
    }

    /// Carries out a request: a key that is blank counts as none, so it
    /// clears the slot.
    pub fn apply_request(&mut self, request: SetApiKeyRequest) -> (r: ApiKeysInfo)
        ensures
            final(self).keys() == old(self).keys_with(
                lowercase(request.provider@),
                match request.api_key {
                    Some(key) => if trimmed(key@).len() == 0 {
                        None
                    } else {
                        Some(key@)
                    },
                    None => None,
                },
            ),
            r.configured_providers.deep_view() == configured_names(final(self).keys()),
            r.has_any_key == exists|k: int| 0 <= k < 7 && final(self).keys()[k] is Some,
    {
        let key = match request.api_key {
            Some(key) => if trim(key.as_str()).as_str().unicode_len() == 0 {
                None
            } else {
                Some(key)
            },
            None => None,
        };
        self.set_key(request.provider.as_str(), key);
        self.info()
    }
}

/// The mathematical form of a `Config`.
pub ghost struct ConfigView {
    pub workspace_root: Seq<char>,
    pub endpoint: LlmEndpointView,
    pub brave_api_key: Option<Seq<char>>,
    pub max_read_size: usize,
    pub max_search_results: usize,
}

impl View for Config {
    type V = ConfigView;

    open spec fn view(&self) -> ConfigView {
        ConfigView {
            workspace_root: self.workspace_root@,
            endpoint: LlmEndpointView {
                base_url: self.llm_base_url@,
                api_key: self.llm_api_key.deep_view(),
                proxy_url: self.llm_proxy_url.deep_view(),
                model: self.llm_model@,
                provider: self.llm_provider@,
            },
            brave_api_key: self.brave_api_key.deep_view(),
            max_read_size: self.max_read_size,
            max_search_results: self.max_search_results,
        }
    }
}

/// The endpoint that saving a local server sets.
pub open spec fn local_endpoint(base_url: Seq<char>, model: Seq<char>) -> LlmEndpointView {
    LlmEndpointView {
        base_url: normalized_base_url(base_url),
        api_key: None,
        proxy_url: None,
        model: trimmed(model),
        provider: provider_label(lowercase(normalized_base_url(base_url))),
    }
}

/// The endpoint that saving a proxy sets.
pub open spec fn proxy_endpoint(proxy_url: Seq<char>, model: Option<Seq<char>>) -> LlmEndpointView {
    LlmEndpointView {
        base_url: bare_url(proxy_url),
        api_key: None,
        proxy_url: Some(bare_url(proxy_url)),
        model: match model {
            Some(name) => name,
            None => default_remote_model(),
        },
        provider: "Proxy"@,
    }
}

impl Config {
    /// The configuration at start: the given workspace and search key, the
    /// saved endpoint where there is one and the endpoint of the environment
    /// otherwise, reads of at most two mebibytes and searches of at most two
    /// hundred results.
    pub fn new(
        workspace_root: String,
        brave_api_key: Option<String>,
        user: Option<&LlmUserConfig>,
        env: &LlmEnv,
    ) -> (r: Config)
        ensures
            r@ == (ConfigView {
                workspace_root: workspace_root@,
                endpoint: resolved_endpoint(user, env@),
                brave_api_key: brave_api_key.deep_view(),
                max_read_size: 2097152,
                max_search_results: 200,
            }),
    {
        let saved = match user {
            Some(saved) => endpoint_from_saved(saved, env),
            None => None,
        };
        let endpoint = match saved {
            Some(endpoint) => endpoint,
            None => endpoint_from_env(env),
        };
        Config {
            workspace_root,
            llm_base_url: endpoint.base_url,
            llm_api_key: endpoint.api_key,
            llm_proxy_url: endpoint.proxy_url,
            llm_model: endpoint.model,
            llm_provider: endpoint.provider,
            brave_api_key,
            max_read_size: 2097152,
            max_search_results: 200,
        }
    }

    fn set_endpoint(&mut self, endpoint: LlmEndpoint)
        ensures
            final(self)@ == (ConfigView { endpoint: endpoint@, ..old(self)@ }),
    {
        self.llm_base_url = endpoint.base_url;
        self.llm_api_key = endpoint.api_key;
        self.llm_proxy_url = endpoint.proxy_url;
        self.llm_model = endpoint.model;
        self.llm_provider = endpoint.provider;
    }

    /// Points the configuration at a local server and returns what is to be
    /// saved. An address or a model name that is empty is refused, and then
    /// nothing changes.
    pub fn set_local_llm(&mut self, base_url: String, model: String) -> (r: Result<LlmUserConfig, String>)
        ensures
            normalized_base_url(base_url@).len() == 0 ==> (r matches Err(e) && e@
                == "URL cannot be empty"@) && final(self)@ == old(self)@,
            normalized_base_url(base_url@).len() > 0 && trimmed(model@).len() == 0 ==> (r matches Err(e)
                && e@ == "Model name cannot be empty"@) && final(self)@ == old(self)@,
            normalized_base_url(base_url@).len() > 0 && trimmed(model@).len() > 0 ==> (r matches Ok(saved)
                && saved@ == (LlmUserConfigView {
                base_url: Some(normalized_base_url(base_url@)),
                model: Some(trimmed(model@)),
                proxy_url: None,
                active_provider: None,
            })) && final(self)@ == (ConfigView {
                endpoint: local_endpoint(base_url@, model@),
                ..old(self)@
            }),
    {
        let base = normalize_base_url_for_openai_api(base_url.as_str());
        let model = trim(model.as_str());
        if base.as_str().unicode_len() == 0 {
            return Err(String::from_str("URL cannot be empty"));
        }
        if model.as_str().unicode_len() == 0 {
            return Err(String::from_str("Model name cannot be empty"));
        }
        let provider = detect_provider(base.as_str());
        self.set_endpoint(
            LlmEndpoint {
                base_url: base.clone(),
                api_key: None,
                proxy_url: None,
                model: model.clone(),
                provider,
            },
        );
        Ok(
            LlmUserConfig {
                base_url: Some(base),
                model: Some(model),
                proxy_url: None,
                active_provider: None,
            },
        )
    }

    /// Points the configuration at a proxy and returns what is to be saved;
    /// `model` is the model that the environment names, if any. An address
    /// that is empty is refused, and then nothing changes.
    pub fn set_proxy_url(&mut self, proxy_url: String, model: Option<String>) -> (r: Result<
        LlmUserConfig,
        String,
    >)
        ensures
            bare_url(proxy_url@).len() == 0 ==> (r matches Err(e) && e@
                == "Proxy URL cannot be empty"@) && final(self)@ == old(self)@,
            bare_url(proxy_url@).len() > 0 ==> (r matches Ok(saved) && saved@ == (LlmUserConfigView {
                base_url: None,
                model: None,
                proxy_url: Some(bare_url(proxy_url@)),
                active_provider: None,
            })) && final(self)@ == (ConfigView {
                endpoint: proxy_endpoint(proxy_url@, model.deep_view()),
                ..old(self)@
            }),
    {
        let url = strip_url(proxy_url.as_str());
        if url.as_str().unicode_len() == 0 {
            return Err(String::from_str("Proxy URL cannot be empty"));
        }
        self.set_endpoint(
            LlmEndpoint {
                base_url: url.clone(),
                api_key: None,
                proxy_url: Some(url.clone()),
                model: match model {
                    Some(name) => name,
                    None => String::from_str("meta-llama/llama-3.1-8b-instruct"),
                },
                provider: String::from_str("Proxy"),
            },
        );
        Ok(LlmUserConfig { base_url: None, model: None, proxy_url: Some(url), active_provider: None })
    }

    /// Moves the configuration to another workspace.
    pub fn set_workspace(&mut self, path: String)
        ensures
            final(self)@ == (ConfigView { workspace_root: path@, ..old(self)@ }),
    {
        self.workspace_root = path;
    }

    /// Sets the endpoint to that of the environment, as after the saved
    /// endpoint is cleared.
    pub fn apply_env_llm_config(&mut self, env: &LlmEnv)
        ensures
            final(self)@ == (ConfigView { endpoint: env_endpoint(env@), ..old(self)@ }),
    {
        let endpoint = endpoint_from_env(env);
        self.set_endpoint(endpoint);
    }

    /// What the interface shows of the configuration. The model counts as
    /// configured where there is a key or a proxy, or the base URL names a
    /// server on this machine.
    pub fn info(&self) -> (r: ConfigInfo)
        ensures
            r.workspace_root@ == self@.workspace_root,
            r.llm_configured == (self@.endpoint.api_key is Some || self@.endpoint.proxy_url is Some
                || names_local_host(lowercase(self@.endpoint.base_url))),
            r.llm_provider@ == self@.endpoint.provider,
            r.llm_model@ == self@.endpoint.model,
            r.llm_base_url@ == self@.endpoint.base_url,
    {
        ConfigInfo {
            workspace_root: self.workspace_root.clone(),
            llm_configured: self.llm_api_key.is_some() || self.llm_proxy_url.is_some()
                || is_local_llm_base_url(self.llm_base_url.as_str()),
            llm_provider: self.llm_provider.clone(),
            llm_model: self.llm_model.clone(),
            llm_base_url: self.llm_base_url.clone(),
        }
    }
}

} // verus!
