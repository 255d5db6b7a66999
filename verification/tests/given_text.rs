use sentinelops::chars::trim;
use sentinelops::config::{
    effective_api_key_for, key_provider_for, model_choice, names_local_server, normalized_from,
    provider_label_for, proxy_choice, ApiKeysConfig,
};
use sentinelops::extensions::data_url_of;
use sentinelops::file_service::{match_in_line, media_type_for, ReadBinaryResult};
use sentinelops::llm::lacks_api_key_for;
use sentinelops::memory_rows::{memory_to_row_with, row_to_memory_with, MemoryRow};
use sentinelops::memory_service::{id_from_digest, MemoryManager};
use sentinelops::memory_types::{CreateMemoryInput, MemoryType};
use sentinelops::sqlite_browser::is_read_statement;
use sentinelops::terminal::distro_shell_for;

fn text(s: &str) -> Option<String> {
    Some(s.to_string())
}

#[test]
fn local_server_is_told_from_the_lowered_url() {
    assert!(names_local_server("http://localhost:11434"));
    assert!(names_local_server("http://127.0.0.1:8080/v1"));
    assert!(!names_local_server("https://api.openai.com/v1"));
    assert!(!names_local_server("http://LOCALHOST:11434"));
    assert!(!names_local_server(""));
}

#[test]
fn provider_label_goes_by_the_first_known_name() {
    assert_eq!(provider_label_for("https://api.openai.com/v1"), "OpenAI");
    assert_eq!(provider_label_for("https://openrouter.ai/api/v1"), "OpenRouter");
    assert_eq!(provider_label_for("https://api.together.xyz"), "Together AI");
    assert_eq!(provider_label_for("https://api.groq.com/openai"), "Groq");
    assert_eq!(provider_label_for("https://openai.com/openrouter"), "OpenAI");
    assert_eq!(provider_label_for("https://api.deepinfra.com"), "DeepInfra");
    assert_eq!(provider_label_for("https://api.anthropic.com"), "Anthropic");
    assert_eq!(provider_label_for("http://localhost:11434"), "Local (Ollama/LM Studio)");
    assert_eq!(provider_label_for("http://127.0.0.1:1234"), "Local (Ollama/LM Studio)");
    assert_eq!(provider_label_for("https://example.org"), "Custom");
    assert_eq!(provider_label_for("https://API.OPENAI.COM"), "Custom");
}

#[test]
fn api_version_is_added_to_a_local_url_only() {
    assert_eq!(
        normalized_from("http://LocalHost:11434", "http://localhost:11434"),
        "http://LocalHost:11434/v1"
    );
    assert_eq!(
        normalized_from("http://localhost:11434/V1", "http://localhost:11434/v1"),
        "http://localhost:11434/V1"
    );
    assert_eq!(
        normalized_from("https://api.openai.com", "https://api.openai.com"),
        "https://api.openai.com"
    );
    assert_eq!(normalized_from("http://127.0.0.1:1", "http://127.0.0.1:1"), "http://127.0.0.1:1/v1");
    assert_eq!(normalized_from("", ""), "");
}

#[test]
fn key_is_saved_under_the_name_of_the_lowered_url() {
    assert_eq!(key_provider_for("https://openrouter.ai/api/v1"), "openrouter");
    assert_eq!(key_provider_for("https://api.openai.com/v1"), "openai");
    assert_eq!(key_provider_for("https://api.anthropic.com"), "anthropic");
    assert_eq!(key_provider_for("https://generativelanguage.googleapis.com/v1"), "google");
    assert_eq!(key_provider_for("https://api.groq.com"), "groq");
    assert_eq!(key_provider_for("https://api.together.xyz"), "together");
    assert_eq!(key_provider_for("https://api.deepseek.com"), "deepseek");
    assert_eq!(key_provider_for("https://example.org"), "");
    assert_eq!(key_provider_for("https://API.GROQ.COM"), "");
}

#[test]
fn slots_are_reached_by_lower_case_names_only() {
    let mut keys = ApiKeysConfig::default();
    keys.set_key_by_name("groq", text("gk"));
    keys.set_key_by_name("Groq", text("other"));
    keys.set_key_by_name("nobody", text("x"));
    assert_eq!(keys.get_key_by_name("groq"), text("gk"));
    assert_eq!(keys.get_key_by_name("Groq"), None);
    assert_eq!(keys.get_key_by_name("nobody"), None);
    assert_eq!(keys.get_key_by_name("openai"), None);
    keys.set_key_by_name("groq", None);
    assert_eq!(keys.get_key_by_name("groq"), None);
    assert!(!keys.has_any_key());
}

#[test]
fn saved_key_comes_before_the_given_one() {
    let mut keys = ApiKeysConfig::default();
    keys.set_key_by_name("openai", text("saved"));
    assert_eq!(effective_api_key_for(&keys, text("given"), "https://api.openai.com/v1"), text("saved"));
    assert_eq!(effective_api_key_for(&keys, text("given"), "https://api.groq.com"), text("given"));
    assert_eq!(effective_api_key_for(&keys, None, "https://api.groq.com"), None);
    assert_eq!(effective_api_key_for(&keys, text("given"), "https://example.org"), text("given"));
}

#[test]
fn model_defaults_by_where_the_endpoint_is() {
    assert_eq!(model_choice(&text("mine"), true), "mine");
    assert_eq!(model_choice(&text("mine"), false), "mine");
    assert_eq!(model_choice(&text(""), false), "");
    assert_eq!(model_choice(&None, true), "llama3.2");
    assert_eq!(model_choice(&None, false), "meta-llama/llama-3.1-8b-instruct");
}

#[test]
fn proxy_is_the_named_one_or_the_default_unless_local() {
    let default = text("https://sentinelops.onrender.com");
    assert_eq!(proxy_choice(&text("https://p/"), &text("http://localhost:1"), true), text("https://p/"));
    assert_eq!(proxy_choice(&text("https://p/"), &None, false), text("https://p/"));
    assert_eq!(proxy_choice(&None, &text("http://localhost:1"), true), None);
    assert_eq!(proxy_choice(&text(""), &text("http://localhost:1"), true), None);
    assert_eq!(proxy_choice(&None, &text("https://api.openai.com"), false), default);
    assert_eq!(proxy_choice(&None, &None, false), default);
    assert_eq!(proxy_choice(&None, &text(""), true), default);
    assert_eq!(proxy_choice(&None, &None, true), default);
}

#[test]
fn missing_key_is_told_from_the_lowered_url() {
    assert!(lacks_api_key_for(false, &None, "https://api.openai.com"));
    assert!(!lacks_api_key_for(true, &None, "https://api.openai.com"));
    assert!(!lacks_api_key_for(false, &text("k"), "https://api.openai.com"));
    assert!(!lacks_api_key_for(false, &None, "http://localhost:11434"));
    assert!(lacks_api_key_for(false, &None, "http://LOCALHOST:11434"));
}

#[test]
fn media_type_goes_by_the_ending_of_the_lowered_path() {
    assert_eq!(media_type_for("a/b/photo.png"), "image/png");
    assert_eq!(media_type_for("photo.jpeg"), "image/jpeg");
    assert_eq!(media_type_for("photo.jpg"), "image/jpeg");
    assert_eq!(media_type_for("anim.gif"), "image/gif");
    assert_eq!(media_type_for("p.webp"), "image/webp");
    assert_eq!(media_type_for("p.bmp"), "image/bmp");
    assert_eq!(media_type_for("p.ico"), "image/x-icon");
    assert_eq!(media_type_for("p.avif"), "image/avif");
    assert_eq!(media_type_for("doc.pdf"), "application/octet-stream");
    assert_eq!(media_type_for("PHOTO.PNG"), "application/octet-stream");
    assert_eq!(media_type_for("png"), "application/octet-stream");
    assert_eq!(media_type_for(""), "application/octet-stream");
}

#[test]
fn binary_result_keeps_content_and_size() {
    let r = ReadBinaryResult::from_encoded("AAEC".to_string(), 3, "icon.svg");
    assert_eq!(r.content, "AAEC");
    assert_eq!(r.size, 3);
    assert_eq!(r.mime_type, "image/svg+xml");
}

#[test]
fn match_shows_the_line_and_counts_the_column_from_one() {
    let found = match_in_line("src/a.rs", 7, "Let X = 1;", "let x = 1;", "x").unwrap();
    assert_eq!(found.path, "src/a.rs");
    assert_eq!(found.line, 7);
    assert_eq!(found.column, 5);
    assert_eq!(found.text, "Let X = 1;");
    let first = match_in_line("p", 1, "abcabc", "abcabc", "bc").unwrap();
    assert_eq!(first.column, 2);
    let whole = match_in_line("p", 1, "abc", "abc", "").unwrap();
    assert_eq!(whole.column, 1);
    assert!(match_in_line("p", 1, "abc", "abc", "abcd").is_none());
    assert!(match_in_line("p", 1, "ABC", "ABC", "abc").is_none());
    let bytes = match_in_line("p", 1, "\u{e9}x", "\u{e9}x", "x").unwrap();
    assert_eq!(bytes.column, 3);
}

#[test]
fn read_statement_starts_with_one_of_three_words() {
    assert!(is_read_statement("SELECT * FROM T"));
    assert!(is_read_statement("PRAGMA TABLE_INFO(T)"));
    assert!(is_read_statement("EXPLAIN QUERY PLAN SELECT 1"));
    assert!(is_read_statement("SELECTED"));
    assert!(!is_read_statement("select 1"));
    assert!(!is_read_statement(" SELECT 1"));
    assert!(!is_read_statement("INSERT INTO T SELECT 1"));
    assert!(!is_read_statement(""));
}

#[test]
fn distribution_shell_is_named_after_the_distribution() {
    let shell = distro_shell_for("Ubuntu 22.04 LTS", "ubuntu 22.04 lts");
    assert_eq!(shell.id, "wsl-ubuntu-22.04-lts");
    assert_eq!(shell.name, "WSL: Ubuntu 22.04 LTS");
    assert_eq!(shell.path, "wsl.exe");
    assert_eq!(shell.args, vec!["-d".to_string(), "Ubuntu 22.04 LTS".to_string()]);
    let plain = distro_shell_for("Debian", "debian");
    assert_eq!(plain.id, "wsl-debian");
}

#[test]
fn data_url_joins_type_and_content() {
    assert_eq!(data_url_of("image/png", "AAEC"), "data:image/png;base64,AAEC");
    assert_eq!(data_url_of("", ""), "data:;base64,");
}

#[test]
fn id_is_the_head_of_the_digest_in_hexadecimal() {
    let digest: Vec<u8> = (0u8..32).map(|b| b.wrapping_mul(17)).collect();
    assert_eq!(id_from_digest(&digest), "0011223344556677");
    assert_eq!(id_from_digest(&[0xab, 0x01]), "ab01");
    assert_eq!(id_from_digest(&[]), "");
    assert_eq!(id_from_digest(&[1, 2, 3, 4, 5, 6, 7, 8]), "0102030405060708");
}

fn stored() -> MemoryRow {
    MemoryRow {
        id: "id-1".to_string(),
        workspace_id: "ws".to_string(),
        content: "content".to_string(),
        summary: None,
        memory_type: "auto".to_string(),
        source_conversation_id: None,
        source_message_ids: text("not read here"),
        embedding: None,
        embedding_model: None,
        tags: text("nor this"),
        importance: 4,
        access_count: 2,
        last_accessed_at: None,
        created_at: "t0".to_string(),
        updated_at: "t1".to_string(),
        expires_at: None,
        is_pinned: 0,
        metadata: text("{\"k\": 1}"),
    }
}

#[test]
fn row_reads_with_the_lists_it_is_given() {
    let tags = vec!["a".to_string(), "b".to_string()];
    let kept = row_to_memory_with(&stored(), None, Some(tags.clone()), true);
    assert_eq!(kept.id, "id-1");
    assert_eq!(kept.memory_type, MemoryType::Auto);
    assert_eq!(kept.source_message_ids, None);
    assert_eq!(kept.tags, Some(tags));
    assert_eq!(kept.importance, 4);
    assert_eq!(kept.access_count, 2);
    assert!(!kept.is_pinned);
    assert_eq!(kept.metadata, text("{\"k\": 1}"));
    let dropped = row_to_memory_with(&stored(), Some(Vec::new()), None, false);
    assert_eq!(dropped.source_message_ids, Some(Vec::new()));
    assert_eq!(dropped.tags, None);
    assert_eq!(dropped.metadata, None);
}

#[test]
fn row_is_written_with_the_columns_it_is_given() {
    let memory = row_to_memory_with(&stored(), None, None, true);
    let row = memory_to_row_with(&memory, &Some(vec![9, 8, 7, 6]), text("[\"m\"]"), None);
    assert_eq!(row.id, "id-1");
    assert_eq!(row.memory_type, "auto");
    assert_eq!(row.source_message_ids, text("[\"m\"]"));
    assert_eq!(row.tags, None);
    assert_eq!(row.embedding, Some(vec![9, 8, 7, 6]));
    assert_eq!(row.is_pinned, 0);
    assert_eq!(row.metadata, text("{\"k\": 1}"));
}

#[test]
fn trim_takes_every_white_space_character() {
    assert_eq!(trim("\u{2003}\u{a0}\u{3000}x y\u{85}\u{1680}\u{2028}\u{205f}"), "x y");
    assert_eq!(trim("\t\n\u{b}\u{c}\r x\u{202f}\u{2029}\u{200a}"), "x");
    assert_eq!(trim("\u{200b}x\u{feff}"), "\u{200b}x\u{feff}");
    assert_eq!(trim("\u{1c}x\u{1f}"), "\u{1c}x\u{1f}");
    assert_eq!(trim("\u{180e}x"), "\u{180e}x");
}

#[test]
fn create_on_an_empty_store_succeeds_with_a_fresh_id() {
    let mut store = MemoryManager::new("/work/space");
    let input = CreateMemoryInput {
        content: "remember".to_string(),
        summary: None,
        memory_type: None,
        source_conversation_id: None,
        source_message_ids: None,
        tags: None,
        importance: None,
        is_pinned: None,
        metadata: None,
    };
    let made = store.create_memory(input).unwrap();
    assert_eq!(made.id.chars().count(), 36);
    for (i, c) in made.id.chars().enumerate() {
        if i == 8 || i == 13 || i == 18 || i == 23 {
            assert_eq!(c, '-');
        } else {
            assert!(c.is_ascii_digit() || ('a'..='f').contains(&c), "{} at {}", c, i);
        }
    }
    assert_eq!(store.get_memory(&made.id).map(|m| m.content), text("remember"));
    assert_eq!(store.get_stats().total_count, 1);
}
