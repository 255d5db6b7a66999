use sentinelops::config::{
    detect_provider, endpoint_from_env, endpoint_from_saved, get_api_key_internal,
    get_effective_api_key, is_local_llm_base_url, normalize_base_url_for_openai_api, strip_url,
    ApiKeysConfig, AppInfo, Config, LlmEnv, LlmUserConfig, SetApiKeyRequest,
};

fn env() -> LlmEnv {
    LlmEnv { proxy_url: None, base_url: None, api_key: None, model: None }
}

fn saved() -> LlmUserConfig {
    LlmUserConfig { base_url: None, model: None, proxy_url: None, active_provider: None }
}

fn some(s: &str) -> Option<String> {
    Some(s.to_string())
}

#[test]
fn keys_are_found_without_regard_to_case() {
    let mut keys = ApiKeysConfig::default();
    assert!(!keys.has_any_key());
    assert!(keys.configured_providers().is_empty());
    keys.set_key("OpenAI", some("sk-1"));
    keys.set_key("groq", some("gk-2"));
    keys.set_key("nobody", some("x"));
    assert_eq!(keys.get_key("openai"), some("sk-1"));
    assert_eq!(keys.get_key("OPENAI"), some("sk-1"));
    assert_eq!(keys.get_key("Groq"), some("gk-2"));
    assert_eq!(keys.get_key("anthropic"), None);
    assert_eq!(keys.get_key("nobody"), None);
    assert_eq!(keys.openai, some("sk-1"));
    assert_eq!(keys.openrouter, None);
    assert!(keys.has_any_key());
    assert_eq!(keys.configured_providers(), vec!["openai", "groq"]);
    keys.set_key("openai", None);
    assert_eq!(keys.get_key("openai"), None);
    assert_eq!(keys.configured_providers(), vec!["groq"]);
    assert_eq!(get_api_key_internal(&keys, "GROQ"), some("gk-2"));
}

#[test]
fn every_provider_has_its_slot() {
    let names = ["openrouter", "openai", "anthropic", "google", "groq", "together", "deepseek"];
    let mut keys = ApiKeysConfig::default();
    for (i, name) in names.iter().enumerate() {
        keys.set_key(name, Some(format!("key-{}", i)));
    }
    for (i, name) in names.iter().enumerate() {
        assert_eq!(keys.get_key(name), Some(format!("key-{}", i)));
    }
    assert_eq!(keys.configured_providers(), names.to_vec());
    let info = keys.info();
    assert!(info.has_any_key);
    assert_eq!(info.configured_providers.len(), 7);
}

#[test]
fn blank_key_in_a_request_clears_the_slot() {
    let mut keys = ApiKeysConfig::default();
    let info = keys.apply_request(SetApiKeyRequest {
        provider: "Anthropic".to_string(),
        api_key: some("  secret "),
    });
    assert_eq!(keys.anthropic, some("  secret "));
    assert_eq!(info.configured_providers, vec!["anthropic"]);
    assert!(info.has_any_key);
    let info = keys.apply_request(SetApiKeyRequest {
        provider: "anthropic".to_string(),
        api_key: some(" \t\n"),
    });
    assert_eq!(keys.anthropic, None);
    assert!(!info.has_any_key);
    keys.apply_request(SetApiKeyRequest { provider: "google".to_string(), api_key: some("g") });
    let info = keys.apply_request(SetApiKeyRequest { provider: "google".to_string(), api_key: None });
    assert!(info.configured_providers.is_empty());
}

#[test]
fn local_urls_are_recognised() {
    assert!(is_local_llm_base_url("http://localhost:11434"));
    assert!(is_local_llm_base_url("http://LocalHost:1234/v1"));
    assert!(is_local_llm_base_url("http://127.0.0.1:8080"));
    assert!(!is_local_llm_base_url("https://openrouter.ai/api/v1"));
    assert!(!is_local_llm_base_url("http://127.0.0.2"));
    assert!(!is_local_llm_base_url(""));
}

#[test]
fn base_urls_are_normalised() {
    assert_eq!(normalize_base_url_for_openai_api("http://localhost:11434"), "http://localhost:11434/v1");
    assert_eq!(normalize_base_url_for_openai_api("  http://localhost:11434/// "), "http://localhost:11434/v1");
    assert_eq!(normalize_base_url_for_openai_api("http://localhost:1234/v1"), "http://localhost:1234/v1");
    assert_eq!(normalize_base_url_for_openai_api("http://localhost:1234/V1/"), "http://localhost:1234/V1");
    assert_eq!(normalize_base_url_for_openai_api("http://127.0.0.1:1/api"), "http://127.0.0.1:1/api/v1");
    assert_eq!(normalize_base_url_for_openai_api("https://api.openai.com/"), "https://api.openai.com");
    assert_eq!(normalize_base_url_for_openai_api(""), "");
    assert_eq!(normalize_base_url_for_openai_api("   "), "   ");
    assert_eq!(normalize_base_url_for_openai_api(" /// "), " /// ");
    assert_eq!(strip_url("\t https://x.y/ / "), "https://x.y/ ");
    assert_eq!(strip_url("https://x.y"), "https://x.y");
}

#[test]
fn providers_are_detected_in_order() {
    assert_eq!(detect_provider("https://api.openai.com/v1"), "OpenAI");
    assert_eq!(detect_provider("https://OpenRouter.ai/api/v1"), "OpenRouter");
    assert_eq!(detect_provider("https://api.together.xyz"), "Together AI");
    assert_eq!(detect_provider("https://api.groq.com"), "Groq");
    assert_eq!(detect_provider("https://api.deepinfra.com"), "DeepInfra");
    assert_eq!(detect_provider("https://api.anthropic.com"), "Anthropic");
    assert_eq!(detect_provider("http://localhost:11434"), "Local (Ollama/LM Studio)");
    assert_eq!(detect_provider("http://127.0.0.1:11434"), "Local (Ollama/LM Studio)");
    assert_eq!(detect_provider("https://example.org"), "Custom");
    assert_eq!(detect_provider("http://localhost/openai.com"), "OpenAI");
    assert_eq!(detect_provider("https://openrouter.ai/together"), "OpenRouter");
}

#[test]
fn saved_keys_come_before_the_configured_key() {
    let mut keys = ApiKeysConfig::default();
    keys.set_key("openrouter", some("or-key"));
    keys.set_key("google", some("g-key"));
    assert_eq!(get_effective_api_key(&keys, some("cfg"), "https://openrouter.ai/api/v1"), some("or-key"));
    assert_eq!(
        get_effective_api_key(&keys, some("cfg"), "https://generativelanguage.googleapis.com"),
        some("g-key")
    );
    assert_eq!(get_effective_api_key(&keys, some("cfg"), "https://api.openai.com"), some("cfg"));
    assert_eq!(get_effective_api_key(&keys, None, "https://api.openai.com"), None);
    assert_eq!(get_effective_api_key(&keys, some("cfg"), "https://example.org"), some("cfg"));
    assert_eq!(get_effective_api_key(&keys, None, "https://OPENROUTER.ai/openai.com"), some("or-key"));
}

#[test]
fn environment_alone_gives_the_default_proxy() {
    let e = endpoint_from_env(&env());
    assert_eq!(e.base_url, "https://sentinelops.onrender.com");
    assert_eq!(e.proxy_url, some("https://sentinelops.onrender.com"));
    assert_eq!(e.api_key, None);
    assert_eq!(e.provider, "Proxy");
    assert_eq!(e.model, "meta-llama/llama-3.1-8b-instruct");
}

#[test]
fn environment_proxy_and_local_base() {
    let mut with_proxy = env();
    with_proxy.proxy_url = some("https://proxy.example/");
    with_proxy.base_url = some("http://localhost:1234");
    with_proxy.api_key = some("k");
    with_proxy.model = some("m");
    let e = endpoint_from_env(&with_proxy);
    assert_eq!(e.base_url, "https://proxy.example");
    assert_eq!(e.proxy_url, some("https://proxy.example/"));
    assert_eq!(e.api_key, None);
    assert_eq!(e.model, "m");
    assert_eq!(e.provider, "Proxy");

    let mut local = env();
    local.proxy_url = some("");
    local.base_url = some("http://localhost:1234");
    local.api_key = some("k");
    let e = endpoint_from_env(&local);
    assert_eq!(e.base_url, "http://localhost:1234");
    assert_eq!(e.proxy_url, None);
    assert_eq!(e.api_key, some("k"));
    assert_eq!(e.model, "llama3.2");
    assert_eq!(e.provider, "Local (Ollama/LM Studio)");

    let mut remote = env();
    remote.base_url = some("https://api.openai.com/v1");
    let e = endpoint_from_env(&remote);
    assert_eq!(e.base_url, "https://sentinelops.onrender.com");
    assert_eq!(e.provider, "Proxy");
}

#[test]
fn saved_endpoint_proxy_first_then_base() {
    let mut both = saved();
    both.proxy_url = some(" https://proxy.example// ");
    both.base_url = some("http://localhost:1234");
    let e = endpoint_from_saved(&both, &env()).unwrap();
    assert_eq!(e.base_url, "https://proxy.example");
    assert_eq!(e.proxy_url, some("https://proxy.example"));
    assert_eq!(e.provider, "Proxy");
    assert_eq!(e.model, "meta-llama/llama-3.1-8b-instruct");

    let mut blank_proxy = saved();
    blank_proxy.proxy_url = some(" / ");
    blank_proxy.base_url = some("http://localhost:1234/");
    blank_proxy.model = some("  qwen ");
    let e = endpoint_from_saved(&blank_proxy, &env()).unwrap();
    assert_eq!(e.base_url, "http://localhost:1234");
    assert_eq!(e.proxy_url, None);
    assert_eq!(e.model, "qwen");
    assert_eq!(e.provider, "Local (Ollama/LM Studio)");

    let mut no_model = saved();
    no_model.base_url = some("https://api.groq.com");
    no_model.model = some("   ");
    let e = endpoint_from_saved(&no_model, &env()).unwrap();
    assert_eq!(e.model, "llama3.2");
    assert_eq!(e.provider, "Groq");

    assert!(endpoint_from_saved(&saved(), &env()).is_none());
    let mut empty = saved();
    empty.base_url = some("  ");
    assert!(endpoint_from_saved(&empty, &env()).is_none());
}

#[test]
fn config_resolves_saved_before_environment() {
    let mut user = saved();
    user.base_url = some("http://localhost:11434");
    let c = Config::new("/home/me".to_string(), some("brave"), Some(&user), &env());
    assert_eq!(c.workspace_root, "/home/me");
    assert_eq!(c.brave_api_key, some("brave"));
    assert_eq!(c.llm_base_url, "http://localhost:11434");
    assert_eq!(c.llm_provider, "Local (Ollama/LM Studio)");
    assert_eq!(c.llm_model, "llama3.2");
    assert_eq!(c.llm_api_key, None);
    assert_eq!(c.llm_proxy_url, None);
    assert_eq!(c.max_read_size, 2 * 1024 * 1024);
    assert_eq!(c.max_search_results, 200);
    let fallback = Config::new("/home/me".to_string(), None, Some(&saved()), &env());
    assert_eq!(fallback.llm_provider, "Proxy");
    let none = Config::new("/home/me".to_string(), None, None, &env());
    assert_eq!(none.llm_base_url, "https://sentinelops.onrender.com");
}

#[test]
fn config_changes_endpoint_and_workspace() {
    let mut c = Config::new("/home/me".to_string(), None, None, &env());
    assert_eq!(c.set_local_llm("".to_string(), "m".to_string()).unwrap_err(), "URL cannot be empty");
    assert_eq!(
        c.set_local_llm("http://localhost:1".to_string(), "  ".to_string()).unwrap_err(),
        "Model name cannot be empty"
    );
    assert_eq!(c.llm_provider, "Proxy");
    let to_save = c.set_local_llm(" http://localhost:1234/ ".to_string(), " llava ".to_string()).unwrap();
    assert_eq!(to_save.base_url, some("http://localhost:1234/v1"));
    assert_eq!(to_save.model, some("llava"));
    assert_eq!(to_save.proxy_url, None);
    assert_eq!(to_save.active_provider, None);
    assert_eq!(c.llm_base_url, "http://localhost:1234/v1");
    assert_eq!(c.llm_model, "llava");
    assert_eq!(c.llm_provider, "Local (Ollama/LM Studio)");
    assert_eq!(c.llm_api_key, None);
    assert_eq!(c.llm_proxy_url, None);
    assert!(c.info().llm_configured);

    assert_eq!(c.set_proxy_url(" // ".to_string(), None).unwrap_err(), "Proxy URL cannot be empty");
    let to_save = c.set_proxy_url("https://p.example/".to_string(), some("gpt")).unwrap();
    assert_eq!(to_save.proxy_url, some("https://p.example"));
    assert_eq!(to_save.base_url, None);
    assert_eq!(c.llm_base_url, "https://p.example");
    assert_eq!(c.llm_proxy_url, some("https://p.example"));
    assert_eq!(c.llm_provider, "Proxy");
    assert_eq!(c.llm_model, "gpt");
    c.set_proxy_url("https://q.example".to_string(), None).unwrap();
    assert_eq!(c.llm_model, "meta-llama/llama-3.1-8b-instruct");

    c.set_workspace("/elsewhere".to_string());
    assert_eq!(c.workspace_root, "/elsewhere");
    assert_eq!(c.llm_base_url, "https://q.example");

    let mut e = env();
    e.proxy_url = some("");
    e.base_url = some("http://127.0.0.1:9");
    c.apply_env_llm_config(&e);
    assert_eq!(c.llm_base_url, "http://127.0.0.1:9");
    assert_eq!(c.llm_proxy_url, None);
    assert_eq!(c.workspace_root, "/elsewhere");
    let info = c.info();
    assert_eq!(info.workspace_root, "/elsewhere");
    assert!(info.llm_configured);
    assert_eq!(info.llm_provider, "Local (Ollama/LM Studio)");
    assert_eq!(info.llm_model, "llama3.2");
    assert_eq!(info.llm_base_url, "http://127.0.0.1:9");
}

#[test]
fn config_without_key_proxy_or_local_server_is_not_configured() {
    let mut c = Config::new("/w".to_string(), None, None, &env());
    c.llm_proxy_url = None;
    c.llm_base_url = "https://api.openai.com/v1".to_string();
    assert!(!c.info().llm_configured);
    c.llm_api_key = some("k");
    assert!(c.info().llm_configured);
}

#[test]
fn app_info_names_the_application() {
    let info = AppInfo::new("1.2.3", "linux");
    assert_eq!(info.version, "1.2.3");
    assert_eq!(info.name, "SentinelOps");
    assert_eq!(info.platform, "linux");
}
