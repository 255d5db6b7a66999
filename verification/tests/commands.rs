use sentinelops::chars::{decimal_text, replace_char, split_lines, trim_matches};
use sentinelops::extensions::{
    data_url, deprecated_flag, encode_base64, extension_dir_name, extension_id,
    grammar_contribution, holds_extension, icon_mime, icon_theme_contribution, is_directory_entry,
    language_contribution, localization_key, manifest_icon_mime, openvsx_search_url, openvsx_url,
    package_target, resolve_localization, snippet_contribution, split_extension_id,
    theme_contribution, window_label, window_label_for,
};
use sentinelops::git::{
    checkout_args, log_args, parse_branch_line, parse_branches, parse_log, parse_log_line,
    parse_status, parse_status_line, GitStatusResult,
};
use sentinelops::llm::{
    chat_completions_url, classify_line, completion_result, embedding_model, embeddings_url,
    image_count, image_generations_url, image_result, lacks_api_key, local_model_urls, take_line,
    CompletionReply, ImageReply, LlmConnectionResult, StreamChunk, StreamEvent, StreamLine,
    StreamState, TokenUsage, ToolCallDelta, ToolCallReply,
};
use sentinelops::sqlite_browser::{
    blob_literal, count_query, counts_rows, index_info_query, index_list_query, is_read_query,
    quote_identifier, table_data_query, table_info_query, SqliteColumn,
};
use sentinelops::terminal::{plan_launch, plan_launch_with, wsl_shells};
use sentinelops::web_search::{search_count, search_key, search_response, search_url, WebSearchHit};

fn some(s: &str) -> Option<String> {
    Some(s.to_string())
}

#[test]
fn lines_split_as_the_standard_library_does() {
    let samples = [
        "",
        "a",
        "a\n",
        "a\nb",
        "a\n\nb\n",
        "\n",
        "\n\n",
        "a\r\nb\r\n",
        "a\rb\n",
        "a\r",
        "\r\n",
        "x\n\r\ny",
        " M src/a.rs\n?? b\n",
        "h\u{e9}\nl\u{1F600}",
    ];
    for s in samples {
        let expected: Vec<String> = s.lines().map(String::from).collect();
        assert_eq!(split_lines(s), expected, "{:?}", s);
    }
}

#[test]
fn numbers_are_written_in_decimal() {
    for n in [0i64, 1, 9, 10, 11, 99, 100, 12345, -1, -10, -999, i64::MAX, i64::MIN, i64::MIN + 1] {
        assert_eq!(decimal_text(n), n.to_string());
    }
}

#[test]
fn characters_are_replaced_and_trimmed() {
    assert_eq!(replace_char("a\"b\"", '"', "\"\""), "a\"\"b\"\"");
    assert_eq!(replace_char("a b  c", ' ', "-"), "a-b--c");
    assert_eq!(replace_char("", 'x', "y"), "");
    assert_eq!(replace_char("xxx", 'x', ""), "");
    assert_eq!(trim_matches("\0\0Ubuntu\0", '\0'), "Ubuntu");
    assert_eq!(trim_matches("\0\0", '\0'), "");
    assert_eq!(trim_matches("a\0b", '\0'), "a\0b");
    assert_eq!(trim_matches("", '\0'), "");
}

#[test]
fn git_status_lines_are_read() {
    let cases = [
        ("M  src/a.rs", "modified", true),
        (" M src/a.rs", "modified", false),
        ("MM src/a.rs", "modified", true),
        ("A  new.rs", "added", true),
        ("AM new.rs", "modified", false),
        ("D  gone.rs", "deleted", true),
        (" D gone.rs", "deleted", false),
        ("R  old -> new", "renamed", true),
        ("?? untracked.txt", "untracked", false),
        ("!! ignored", "unknown", false),
        ("?A x", "unknown", false),
        ("A? x", "added", true),
    ];
    for (line, status, staged) in cases {
        let change = parse_status_line(line).unwrap();
        assert_eq!(change.path, &line[3..], "{:?}", line);
        assert_eq!(change.status, status, "{:?}", line);
        assert_eq!(change.staged, staged, "{:?}", line);
    }
    assert!(parse_status_line("M  ").is_none());
    assert!(parse_status_line("").is_none());
    assert!(parse_status_line("abc").is_none());
    assert_eq!(parse_status_line("M  \u{e9}.txt").unwrap().path, "\u{e9}.txt");
    assert!(parse_status_line("\u{e9}M file").is_none());
}

#[test]
fn git_status_is_read() {
    let changes = parse_status(" M src/lib.rs\nA  src/new.rs\n\n?? notes.md\nxx\n");
    assert_eq!(changes.len(), 3);
    assert_eq!(changes[0].path, "src/lib.rs");
    assert!(!changes[0].staged);
    assert_eq!(changes[1].status, "added");
    assert_eq!(changes[2].status, "untracked");
    assert!(parse_status("").is_empty());
    let status = GitStatusResult::new(Some("main\n"), "?? a\n");
    assert_eq!(status.branch, some("main"));
    assert_eq!(status.changes.len(), 1);
    let detached = GitStatusResult::new(None, "");
    assert_eq!(detached.branch, None);
    assert!(detached.changes.is_empty());
}

#[test]
fn git_branches_are_read() {
    let current = parse_branch_line("* main");
    assert_eq!(current.name, "main");
    assert!(current.current);
    assert!(!current.remote);
    let other = parse_branch_line("  feature/x  ");
    assert_eq!(other.name, "feature/x");
    assert!(!other.current);
    let remote = parse_branch_line("  remotes/origin/main");
    assert_eq!(remote.name, "main");
    assert!(remote.remote);
    let upstream = parse_branch_line("  remotes/upstream/dev");
    assert_eq!(upstream.name, "remotes/upstream/dev");
    assert!(upstream.remote);
    let head = parse_branch_line("  remotes/origin/HEAD -> origin/main");
    assert_eq!(head.name, "HEAD -> origin/main");
    let detached = parse_branch_line("* (HEAD detached at 1a2b3c4)");
    assert_eq!(detached.name, "(HEAD detached at 1a2b3c4)");
    assert!(detached.current);
    let doubled = parse_branch_line("* * odd");
    assert_eq!(doubled.name, "odd");
    let star = parse_branch_line("*main");
    assert_eq!(star.name, "*main");
    assert!(star.current);
    let branches = parse_branches("* main\n  dev\n\n   \n  remotes/origin/dev\n");
    assert_eq!(branches.len(), 3);
    assert_eq!(branches[1].name, "dev");
    assert_eq!(branches[2].name, "dev");
    assert!(branches[2].remote);
}

#[test]
fn git_log_is_read() {
    let commit = parse_log_line("1a2b3c4|1a2b3c4d5e6f|Fix a|b bug").unwrap();
    assert_eq!(commit.hash, "1a2b3c4");
    assert_eq!(commit.full_hash, "1a2b3c4d5e6f");
    assert_eq!(commit.message, "Fix a|b bug");
    let empty = parse_log_line("a|b|").unwrap();
    assert_eq!(empty.message, "");
    let bars = parse_log_line("||").unwrap();
    assert_eq!(bars.hash, "");
    assert_eq!(bars.full_hash, "");
    assert!(parse_log_line("a|b").is_none());
    assert!(parse_log_line("nothing").is_none());
    assert!(parse_log_line("").is_none());
    let commits = parse_log("a|aa|first\nbroken\nb|bb|second\n");
    assert_eq!(commits.len(), 2);
    assert_eq!(commits[1].message, "second");
}

#[test]
fn git_arguments() {
    assert_eq!(checkout_args("dev", None), vec!["checkout", "dev"]);
    assert_eq!(checkout_args("dev", Some(false)), vec!["checkout", "dev"]);
    assert_eq!(checkout_args("dev", Some(true)), vec!["checkout", "-b", "dev"]);
    assert_eq!(log_args(None), vec!["log", "--oneline", "-n", "50", "--format=%h|%H|%s"]);
    assert_eq!(log_args(Some(7)), vec!["log", "--oneline", "-n", "7", "--format=%h|%H|%s"]);
    assert_eq!(log_args(Some(0))[3], "0");
}

#[test]
fn requests_need_a_key_unless_local_or_proxied() {
    assert!(lacks_api_key(false, &None, "https://openrouter.ai/api/v1"));
    assert!(!lacks_api_key(true, &None, "https://openrouter.ai/api/v1"));
    assert!(!lacks_api_key(false, &some("k"), "https://openrouter.ai/api/v1"));
    assert!(!lacks_api_key(false, &None, "http://LOCALHOST:11434"));
}

#[test]
fn request_urls() {
    assert_eq!(chat_completions_url("https://api.openai.com/v1/"), "https://api.openai.com/v1/chat/completions");
    assert_eq!(chat_completions_url("http://localhost:11434"), "http://localhost:11434/v1/chat/completions");
    assert_eq!(chat_completions_url(""), "/chat/completions");
    assert_eq!(chat_completions_url("//"), "/chat/completions");
    assert_eq!(image_generations_url(true, "https://p.example//"), "https://p.example/images/generations");
    assert_eq!(image_generations_url(false, "https://p.example"), "https://openrouter.ai/api/v1/images/generations");
    assert_eq!(
        local_model_urls("http://localhost:11434"),
        Some(("http://localhost:11434/api/tags".to_string(), "http://localhost:11434/v1/models".to_string()))
    );
    assert_eq!(
        local_model_urls("https://server.example/api/"),
        Some(("https://server.example/api/api/tags".to_string(), "https://server.example/api/models".to_string()))
    );
    assert_eq!(
        local_model_urls("  "),
        Some(("  /api/tags".to_string(), "  /models".to_string()))
    );
    assert_eq!(local_model_urls(""), None);
    assert_eq!(image_count(2), 2);
    assert_eq!(image_count(4), 4);
    assert_eq!(image_count(9), 4);
    assert_eq!(image_count(0), 0);
}

#[test]
fn stream_lines_are_taken_and_classified() {
    let (line, rest) = take_line("  data: {\"a\":1} \r\ndata: [DONE]\npartial").unwrap();
    assert_eq!(line, "data: {\"a\":1}");
    assert_eq!(rest, "data: [DONE]\npartial");
    let (line, rest) = take_line(&rest).unwrap();
    assert_eq!(line, "data: [DONE]");
    assert_eq!(rest, "partial");
    assert!(take_line(&rest).is_none());
    assert!(take_line("").is_none());
    assert_eq!(take_line("\n"), Some((String::new(), String::new())));
    assert!(matches!(classify_line("data: [DONE]"), StreamLine::Done));
    match classify_line("data: {\"x\": 1}") {
        StreamLine::Data(d) => assert_eq!(d, "{\"x\": 1}"),
        other => panic!("unexpected {:?}", other),
    }
    match classify_line("data: ") {
        StreamLine::Data(d) => assert_eq!(d, ""),
        other => panic!("unexpected {:?}", other),
    }
    assert!(matches!(classify_line("data:{}"), StreamLine::Other));
    assert!(matches!(classify_line(": keep-alive"), StreamLine::Other));
    assert!(matches!(classify_line(""), StreamLine::Other));
    assert!(matches!(classify_line("event: data: x"), StreamLine::Other));
}

fn chunk() -> StreamChunk {
    StreamChunk {
        content: None,
        tool_calls: vec![],
        id: None,
        model: None,
        finish_reason: None,
        usage: None,
    }
}

#[test]
fn streamed_content_adds_up() {
    let mut state = StreamState::new("asked-model");
    let mut first = chunk();
    first.content = some("Hel");
    first.id = some("resp-1");
    let events = state.apply(&first);
    assert_eq!(events.len(), 1);
    match &events[0] {
        StreamEvent::Content { delta, full } => {
            assert_eq!(delta, "Hel");
            assert_eq!(full, "Hel");
        }
        other => panic!("unexpected {:?}", other),
    }
    let mut second = chunk();
    second.content = some("lo");
    second.model = some("real-model");
    second.id = some("");
    let events = state.apply(&second);
    match &events[0] {
        StreamEvent::Content { delta, full } => {
            assert_eq!(delta, "lo");
            assert_eq!(full, "Hello");
        }
        other => panic!("unexpected {:?}", other),
    }
    let mut empty = chunk();
    empty.content = some("");
    empty.finish_reason = some("length");
    empty.usage = Some(TokenUsage { prompt_tokens: 3, completion_tokens: 2, total_tokens: 5 });
    assert!(state.apply(&empty).is_empty());
    assert!(state.apply(&chunk()).is_empty());
    assert_eq!(state.full_content, "Hello");
    assert_eq!(state.response_id, "resp-1");
    assert_eq!(state.response_model, "real-model");
    assert_eq!(state.finish_reason, "length");
    let done = state.finish(false);
    assert_eq!(done.id, "resp-1");
    assert_eq!(done.model, "real-model");
    assert_eq!(done.content, some("Hello"));
    assert_eq!(done.finish_reason, "length");
    assert_eq!(done.usage.unwrap().total_tokens, 5);
    assert!(done.tool_calls.is_none());
    let nothing = StreamState::new("m").finish(false);
    assert_eq!(nothing.content, some(""));
    assert_eq!(nothing.finish_reason, "stop");
    assert_eq!(nothing.model, "m");
    assert_eq!(nothing.id, "");
    assert_eq!(StreamState::new("m").finish(true).content, None);
}

#[test]
fn streamed_tool_calls_add_up() {
    let mut state = StreamState::new("m");
    let mut open = chunk();
    open.tool_calls = vec![ToolCallDelta {
        index: 0,
        id: some("call-1"),
        name: some("read_file"),
        arguments: some("{\"pa"),
    }];
    let events = state.apply(&open);
    assert_eq!(events.len(), 1);
    match &events[0] {
        StreamEvent::ToolStarted { index, name } => {
            assert_eq!(*index, 0);
            assert_eq!(name, "read_file");
        }
        other => panic!("unexpected {:?}", other),
    }
    let mut more = chunk();
    more.tool_calls = vec![
        ToolCallDelta { index: 0, id: None, name: None, arguments: some("th\":1}") },
        ToolCallDelta { index: 1, id: None, name: None, arguments: None },
        ToolCallDelta { index: 5, id: some("far"), name: some("late"), arguments: some("lost") },
        ToolCallDelta { index: 2, id: None, name: None, arguments: some("x") },
    ];
    more.finish_reason = some("tool_calls");
    let events = state.apply(&more);
    assert_eq!(events.len(), 3);
    assert!(matches!(&events[0], StreamEvent::ToolStarted { index: 1, .. }));
    assert!(matches!(&events[1], StreamEvent::ToolStarted { index: 5, .. }));
    assert!(matches!(&events[2], StreamEvent::ToolsCompleted));
    assert_eq!(state.tool_calls.len(), 3);
    assert_eq!(state.tool_calls[0].id, "call-1");
    assert_eq!(state.tool_calls[0].call_type, "function");
    assert_eq!(state.tool_calls[0].function.name, "read_file");
    assert_eq!(state.tool_calls[0].function.arguments, "{\"path\":1}");
    assert_eq!(state.tool_calls[1].id, "");
    assert_eq!(state.tool_calls[1].function.arguments, "");
    assert_eq!(state.tool_calls[2].id, "far");
    assert_eq!(state.tool_calls[2].function.arguments, "x");
    let done = state.finish(true);
    assert_eq!(done.content, None);
    assert_eq!(done.finish_reason, "tool_calls");
    assert_eq!(done.tool_calls.unwrap().len(), 3);
}

#[test]
fn replies_become_results() {
    let reply = CompletionReply {
        id: None,
        model: None,
        content: some("hi"),
        finish_reason: None,
        usage: None,
        tool_calls: Some(vec![
            ToolCallReply { id: some("a"), call_type: None, name: some("f"), arguments: None },
            ToolCallReply { id: None, call_type: None, name: some("g"), arguments: some("{}") },
            ToolCallReply { id: some("c"), call_type: some("tool"), name: some("h"), arguments: some("[1]") },
            ToolCallReply { id: some("d"), call_type: None, name: None, arguments: None },
        ]),
    };
    let with = completion_result(&reply, "asked", true);
    assert_eq!(with.id, "");
    assert_eq!(with.model, "asked");
    assert_eq!(with.content, some("hi"));
    assert_eq!(with.finish_reason, "stop");
    let calls = with.tool_calls.unwrap();
    assert_eq!(calls.len(), 2);
    assert_eq!(calls[0].id, "a");
    assert_eq!(calls[0].call_type, "function");
    assert_eq!(calls[0].function.arguments, "{}");
    assert_eq!(calls[1].call_type, "tool");
    assert_eq!(calls[1].function.arguments, "[1]");
    assert!(completion_result(&reply, "asked", false).tool_calls.is_none());
    let bare = CompletionReply {
        id: some("r"),
        model: some("m"),
        content: None,
        finish_reason: some("length"),
        usage: Some(TokenUsage { prompt_tokens: 1, completion_tokens: 2, total_tokens: 3 }),
        tool_calls: Some(vec![]),
    };
    let r = completion_result(&bare, "asked", true);
    assert_eq!(r.id, "r");
    assert_eq!(r.model, "m");
    assert_eq!(r.content, None);
    assert_eq!(r.finish_reason, "length");
    assert_eq!(r.usage.unwrap().completion_tokens, 2);
    assert!(r.tool_calls.is_none());
}

#[test]
fn images_are_addressed() {
    let replies = vec![
        ImageReply { url: some("https://img/1"), b64_json: some("ignored") },
        ImageReply { url: None, b64_json: None },
        ImageReply { url: None, b64_json: some("QUJD") },
    ];
    let result = image_result(&replies, "painter".to_string()).unwrap();
    assert_eq!(result.images, vec!["https://img/1", "data:image/png;base64,QUJD"]);
    assert_eq!(result.model, "painter");
    assert!(image_result(&vec![], "m".to_string()).is_none());
    assert!(image_result(&vec![ImageReply { url: None, b64_json: None }], "m".to_string()).is_none());
}

#[test]
fn database_queries_are_written() {
    assert_eq!(quote_identifier("users"), "\"users\"");
    assert_eq!(quote_identifier("we\"ird"), "\"we\"\"ird\"");
    assert_eq!(quote_identifier(""), "\"\"");
    assert_eq!(count_query("t\"x"), "SELECT COUNT(*) FROM \"t\"\"x\"");
    assert_eq!(table_info_query("t"), "PRAGMA table_info(\"t\")");
    assert_eq!(index_list_query("t"), "PRAGMA index_list(\"t\")");
    assert_eq!(index_info_query("i"), "PRAGMA index_info(\"i\")");
    assert_eq!(table_data_query("t", None, None), "SELECT * FROM \"t\" LIMIT 100 OFFSET 0");
    assert_eq!(table_data_query("t", Some(5), Some(10)), "SELECT * FROM \"t\" LIMIT 5 OFFSET 10");
    assert_eq!(table_data_query("t", Some(-1), Some(-7)), "SELECT * FROM \"t\" LIMIT -1 OFFSET -7");
    assert!(is_read_query("  select 1"));
    assert!(is_read_query("Pragma table_info(x)"));
    assert!(is_read_query("\nEXPLAIN QUERY PLAN SELECT 1"));
    assert!(is_read_query("SELECTED"));
    assert!(!is_read_query("insert into t values (1)"));
    assert!(!is_read_query("-- select\nDELETE FROM t"));
    assert!(!is_read_query(""));
    assert!(counts_rows("table"));
    assert!(!counts_rows("view"));
    assert_eq!(blob_literal(&[0, 15, 16, 255]), "x'000f10ff'");
    assert_eq!(blob_literal(&[]), "x''");
    let column = SqliteColumn::new(2, "name".to_string(), None, 1, some("''"), 0);
    assert_eq!(column.cid, 2);
    assert_eq!(column.column_type, "");
    assert!(column.notnull);
    assert!(!column.pk);
    assert_eq!(column.dflt_value, some("''"));
    let typed = SqliteColumn::new(0, "id".to_string(), some("INTEGER"), 0, None, 2);
    assert_eq!(typed.column_type, "INTEGER");
    assert!(typed.pk);
}

#[test]
fn web_searches_are_asked_and_read() {
    assert_eq!(search_key(&some("k")), some("k"));
    assert_eq!(search_key(&some("")), None);
    assert_eq!(search_key(&None), None);
    assert_eq!(search_count(None), 10);
    assert_eq!(search_count(Some(3)), 3);
    assert_eq!(search_count(Some(20)), 20);
    assert_eq!(search_count(Some(21)), 20);
    assert_eq!(search_count(Some(0)), 0);
    assert_eq!(
        search_url("rust verus", None),
        "https://api.search.brave.com/res/v1/web/search?q=rust%20verus&count=10"
    );
    assert_eq!(
        search_url("a&b=c/\u{e9}~_-.", Some(50)),
        "https://api.search.brave.com/res/v1/web/search?q=a%26b%3Dc%2F%C3%A9~_-.&count=20"
    );
    let hits = vec![
        WebSearchHit { title: some("T"), url: some("U"), description: None, age: some("1d") },
        WebSearchHit { title: None, url: some("U2"), description: some("d"), age: None },
        WebSearchHit { title: some("T3"), url: None, description: None, age: None },
        WebSearchHit { title: some("T4"), url: some("U4"), description: some("d4"), age: None },
    ];
    let response = search_response("q".to_string(), &hits);
    assert_eq!(response.query, "q");
    assert_eq!(response.count, 2);
    assert_eq!(response.results[0].title, "T");
    assert_eq!(response.results[0].description, "");
    assert_eq!(response.results[0].age, some("1d"));
    assert_eq!(response.results[1].url, "U4");
    assert_eq!(response.results[1].description, "d4");
}

#[test]
fn wsl_listings_become_shells() {
    let shells = wsl_shells("Ubuntu\r\n\0\0\r\nDebian GNU Linux\0\n\n  openSUSE  \n");
    let ids: Vec<&str> = shells.iter().map(|s| s.id.as_str()).collect();
    assert_eq!(ids, vec!["wsl-ubuntu", "wsl-debian-gnu-linux", "wsl-opensuse"]);
    assert_eq!(shells[1].name, "WSL: Debian GNU Linux");
    assert_eq!(shells[1].path, "wsl.exe");
    assert_eq!(shells[1].args, vec!["-d", "Debian GNU Linux"]);
    let generic = wsl_shells("\n \n");
    assert_eq!(generic.len(), 1);
    assert_eq!(generic[0].id, "wsl");
    assert_eq!(generic[0].name, "WSL");
    assert!(generic[0].args.is_empty());
    assert_eq!(wsl_shells("").len(), 1);
}

#[test]
fn launches_are_planned() {
    let plan = plan_launch_with("t1", None, None, false);
    assert_eq!(plan.terminal_id, "t1");
    assert_eq!(plan.working_dir, ".");
    assert_eq!(plan.shell, "sh");
    assert_eq!(plan.shell_arg, "-c");
    let windows = plan_launch_with("t1", Some("C:\\work"), None, true);
    assert_eq!(windows.working_dir, "C:\\work");
    assert_eq!(windows.shell, "cmd");
    assert_eq!(windows.shell_arg, "/C");
    let chosen = plan_launch(Some("mine"), Some("/tmp"), Some("zsh"), false);
    assert_eq!(chosen.terminal_id, "mine");
    assert_eq!(chosen.shell, "zsh");
    let fresh = plan_launch(None, None, None, false);
    assert_eq!(fresh.terminal_id.len(), 36);
    assert_ne!(fresh.terminal_id, plan_launch(None, None, None, false).terminal_id);
}

#[test]
fn extension_ids_and_paths() {
    assert_eq!(extension_id(&some("acme"), &some("tool")), "acme.tool");
    assert_eq!(extension_id(&None, &some("tool")), "unknown.tool");
    assert_eq!(extension_id(&some("acme"), &None), "acme.unknown");
    assert_eq!(split_extension_id("acme.tool"), Some(("acme".to_string(), "tool".to_string())));
    assert_eq!(split_extension_id("acme.tool.extra"), Some(("acme".to_string(), "tool.extra".to_string())));
    assert_eq!(split_extension_id(".x"), Some((String::new(), "x".to_string())));
    assert_eq!(split_extension_id("acme."), Some(("acme".to_string(), String::new())));
    assert_eq!(split_extension_id("acme"), None);
    assert_eq!(split_extension_id(""), None);
    assert_eq!(openvsx_url("acme", "tool"), "https://open-vsx.org/api/acme/tool");
    assert_eq!(extension_dir_name("acme", "tool", "1.2.3"), "acme.tool-1.2.3");
    assert_eq!(package_target("extension/package.json"), some("package.json"));
    assert_eq!(package_target("extension/"), some(""));
    assert_eq!(package_target("extension.vsixmanifest"), None);
    assert_eq!(package_target("[Content_Types].xml"), None);
    assert!(is_directory_entry("extension/dist/"));
    assert!(!is_directory_entry("extension/dist"));
    assert!(holds_extension("Acme.Tool-1.2.3", "acme.tool"));
    assert!(holds_extension("acme.tool", "ACME.TOOL"));
    assert!(!holds_extension("acme.too", "acme.tool"));
    assert!(holds_extension("anything", ""));
}

#[test]
fn manifest_values_are_localised() {
    assert_eq!(localization_key("%displayName%"), some("displayName"));
    assert_eq!(localization_key("%a%"), some("a"));
    assert_eq!(localization_key("%%"), None);
    assert_eq!(localization_key("%"), None);
    assert_eq!(localization_key("plain"), None);
    assert_eq!(localization_key("%open"), None);
    assert_eq!(localization_key("%\u{e9}%"), some("\u{e9}"));
    assert_eq!(resolve_localization("%name%", &some("Nice Name")), "Nice Name");
    assert_eq!(resolve_localization("%name%", &None), "%name%");
    assert_eq!(resolve_localization("plain", &some("other")), "plain");
}

#[test]
fn icons_become_data_urls() {
    assert_eq!(manifest_icon_mime("icon.svg"), "image/svg+xml");
    assert_eq!(manifest_icon_mime("icon.png"), "image/png");
    assert_eq!(manifest_icon_mime("icon.jpeg"), "image/jpeg");
    assert_eq!(manifest_icon_mime("icon.gif"), "image/png");
    assert_eq!(manifest_icon_mime("icon.PNG"), "image/png");
    assert_eq!(icon_mime("icon.svg"), "image/svg+xml");
    assert_eq!(icon_mime("icon.jpg"), "image/jpeg");
    assert_eq!(icon_mime("icon.gif"), "image/gif");
    assert_eq!(icon_mime("icon.webp"), "image/webp");
    assert_eq!(icon_mime("icon.PNG"), "application/octet-stream");
    assert_eq!(encode_base64(b"hello world~"), some("aGVsbG8gd29ybGR+"));
    assert_eq!(encode_base64(b""), some(""));
    assert_eq!(encode_base64(&[0xfb, 0xff]), some("+/8="));
    assert_eq!(data_url("image/png", b"abc"), some("data:image/png;base64,YWJj"));
}

#[test]
fn contributions_take_their_defaults() {
    let theme = theme_contribution(&some("Dark+"), &None, &None, "/p/t.json".to_string(), "acme.tool");
    assert_eq!(theme.id, "Dark+");
    assert_eq!(theme.label, "Dark+");
    assert_eq!(theme.ui_theme, "vs-dark");
    assert_eq!(theme.path, "/p/t.json");
    assert_eq!(theme.extension_id, "acme.tool");
    let named = theme_contribution(&None, &some("id"), &some("vs"), "p".to_string(), "e");
    assert_eq!(named.id, "id");
    assert_eq!(named.label, "");
    assert_eq!(named.ui_theme, "vs");
    let icons = icon_theme_contribution(&None, &None, "p".to_string(), "e");
    assert_eq!(icons.id, "");
    assert_eq!(icons.label, "");
    let language = language_contribution(
        &some("rust"),
        vec![".rs".to_string()],
        vec!["Rust".to_string()],
        some("/p/lang.json"),
        "e",
    )
    .unwrap();
    assert_eq!(language.id, "rust");
    assert_eq!(language.extensions, vec![".rs"]);
    assert_eq!(language.configuration, some("/p/lang.json"));
    assert!(language_contribution(&some(""), vec![], vec![], None, "e").is_none());
    assert!(language_contribution(&None, vec![], vec![], None, "e").is_none());
    assert_eq!(deprecated_flag(true, Some(false)), Some(true));
    assert_eq!(deprecated_flag(false, Some(false)), Some(false));
    assert_eq!(deprecated_flag(false, None), None);
}

#[test]
fn connection_results() {
    let ok = LlmConnectionResult::connected("m".to_string(), "p".to_string());
    assert!(ok.connected);
    assert_eq!(ok.message, None);
    let failed = LlmConnectionResult::failed("m".to_string(), "p".to_string(), "HTTP 500".to_string());
    assert!(!failed.connected);
    assert_eq!(failed.message, some("HTTP 500"));
    assert_eq!(failed.model, "m");
    assert_eq!(failed.provider, "p");
    let none = LlmConnectionResult::unconfigured("m".to_string(), "p".to_string());
    assert!(!none.connected);
    assert!(none.message.unwrap().starts_with("No API key configured."));
    assert_eq!(embeddings_url("https://api.openai.com/v1/"), "https://api.openai.com/v1/embeddings");
    assert_eq!(embedding_model(&None), "openai/text-embedding-3-small");
    assert_eq!(embedding_model(&some("other")), "other");
    assert_eq!(
        openvsx_search_url("rust analyzer"),
        "https://open-vsx.org/api/-/search?query=rust%20analyzer&size=100"
    );
    let grammar = grammar_contribution(None, &None, "g.json".to_string(), "e", None);
    assert_eq!(grammar.scope_name, "");
    assert_eq!(grammar.path, "g.json");
    let snippet = snippet_contribution(&some("rust"), "s.json".to_string(), "e");
    assert_eq!(snippet.language, "rust");
    assert_eq!(snippet_contribution(&None, "s".to_string(), "e").language, "");
}

#[test]
fn window_labels() {
    assert_eq!(window_label_for("1a2b3c4d-aaaa-bbbb"), "main-1a2b3c4d");
    assert_eq!(window_label_for("nohyphen"), "main-nohyphen");
    assert_eq!(window_label_for(""), "main-");
    let label = window_label();
    assert!(label.starts_with("main-"));
    assert_eq!(label.len(), 13);
}
