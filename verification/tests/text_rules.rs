use sentinelops::api::ApiResponse;
use sentinelops::chars::{chars_of, string_of, trim, trim_end_matches};
use sentinelops::file_service::{
    check_creatable, check_listable, check_readable, check_source, check_target, check_writable,
    file_type_name, hash_content, is_hidden, match_line, mime_type_for, resolve_path,
    search_content, to_forward_slashes, FileEntry, FileError, FileStat, ListResult, PathFacts,
    ReadBinaryResult, ReadResult, SearchMatch, SearchResult, WriteResult,
};
use sentinelops::json_comments::strip_json_comments;
use sentinelops::ranking::{rank, RankKey};
use sentinelops::text::{str_before, str_contains, str_ends_with, str_eq};
use sentinelops::trash_service::{
    check_found, check_restore, item_type_name, restore_target, should_purge, sort_newest_first,
    Instant, TrashError, TrashListResult, TrashManager, TrashMetadata,
};

#[test]
fn comments_are_stripped_outside_strings() {
    assert_eq!(strip_json_comments("{\"a\": 1} // tail"), "{\"a\": 1} ");
    assert_eq!(strip_json_comments("{ // one\n\"a\": 1 }"), "{ \n\"a\": 1 }");
    assert_eq!(strip_json_comments("{ /* x */ \"a\": /* y\n z */ 1 }"), "{  \"a\":  1 }");
    assert_eq!(
        strip_json_comments("{\"url\": \"http://x/y\", \"c\": \"/* no */\"}"),
        "{\"url\": \"http://x/y\", \"c\": \"/* no */\"}"
    );
    assert_eq!(
        strip_json_comments("{\"q\": \"a \\\" // still text\"} // gone"),
        "{\"q\": \"a \\\" // still text\"} "
    );
    assert_eq!(strip_json_comments("{\"b\": \"\\\\\"} // c"), "{\"b\": \"\\\\\"} ");
    assert_eq!(strip_json_comments("/**/1"), "1");
    assert_eq!(strip_json_comments("/***/1"), "1");
    assert_eq!(strip_json_comments("1 /* never closed"), "1 ");
    assert_eq!(strip_json_comments("1 /* almost *"), "1 ");
    assert_eq!(strip_json_comments("a / b"), "a / b");
    assert_eq!(strip_json_comments("a /"), "a /");
    assert_eq!(strip_json_comments("//"), "");
    assert_eq!(strip_json_comments("//\n"), "\n");
    assert_eq!(strip_json_comments("/*/ x */y"), "y");
    assert_eq!(strip_json_comments(""), "");
    assert_eq!(strip_json_comments("\"open // string"), "\"open // string");
    assert_eq!(strip_json_comments("\u{e9}/*\u{1F600}*/\u{4e2d}"), "\u{e9}\u{4e2d}");
    assert_eq!(strip_json_comments("a\\\"b//c"), "a\\\"b//c");
}

#[test]
fn strings_compare_by_bytes() {
    assert!(str_eq("abc", "abc"));
    assert!(!str_eq("abc", "abd"));
    assert!(!str_eq("abc", "ab"));
    assert!(str_eq("", ""));
    assert!(str_eq("\u{e9}", "\u{e9}"));
    let samples = ["", "a", "ab", "b", "B", "2024-01-02", "2024-01-10", "\u{e9}", "z", "\u{1F600}"];
    for a in samples {
        for b in samples {
            assert_eq!(str_before(a, b), a < b, "{:?} < {:?}", a, b);
            assert_eq!(str_eq(a, b), a == b);
            assert_eq!(str_contains(a, b), a.contains(b), "{:?} contains {:?}", a, b);
            assert_eq!(str_ends_with(a, b), a.ends_with(b), "{:?} ends with {:?}", a, b);
        }
    }
    assert!(str_contains("http://localhost:1", "localhost"));
    assert!(!str_contains("http://localhos", "localhost"));
    assert!(str_contains("aab", "ab"));
    assert!(str_ends_with("x/v1", "/v1"));
    assert!(!str_ends_with("v1", "/v1"));
}

#[test]
fn trimming_matches_the_standard_library() {
    let samples = [
        "",
        " ",
        "  a  ",
        "\t\na b\r\n",
        "a",
        "\u{a0}x\u{2003}",
        "x\u{200b}",
        " // ",
        "a///",
        "///",
        "a/b/",
    ];
    for s in samples {
        assert_eq!(trim(s), s.trim(), "{:?}", s);
        assert_eq!(trim_end_matches(s, '/'), s.trim_end_matches('/'), "{:?}", s);
        let chars = chars_of(s);
        assert_eq!(chars, s.chars().collect::<Vec<char>>());
        assert_eq!(string_of(&chars, 0, chars.len()), s);
    }
    assert_eq!(string_of(&chars_of("h\u{e9}llo"), 1, 3), "\u{e9}l");
    assert_eq!(string_of(&chars_of("hello"), 2, 2), "");
}

#[test]
fn ranking_is_stable_and_best_first() {
    let keys = vec![
        RankKey { major: 1, minor: "b" },
        RankKey { major: 2, minor: "a" },
        RankKey { major: 1, minor: "c" },
        RankKey { major: 1, minor: "b" },
        RankKey { major: -5, minor: "z" },
        RankKey { major: 2, minor: "a" },
    ];
    assert_eq!(rank(&keys), vec![1, 5, 2, 0, 3, 4]);
    assert_eq!(rank(&vec![]), Vec::<usize>::new());
    let extremes = vec![
        RankKey { major: i64::MIN, minor: "" },
        RankKey { major: i64::MAX, minor: "" },
        RankKey { major: 0, minor: "" },
    ];
    assert_eq!(rank(&extremes), vec![1, 2, 0]);
}

#[test]
fn content_hash_is_sha256_in_hex() {
    assert_eq!(
        hash_content(b"hello"),
        "2cf24dba5fb0a30e26e83b2ac5b9e29e1b161e5c1fa7425e73043362938b9824"
    );
    assert_eq!(
        hash_content(b""),
        "e3b0c44298fc1c149afbf4c8996fb92427ae41e4649b934ca495991b7852b855"
    );
}

#[test]
fn paths_with_nul_are_invalid() {
    match resolve_path("/ws", "a\0b") {
        Err(FileError::InvalidPath(p)) => assert_eq!(p, "a\0b"),
        other => panic!("unexpected {:?}", other),
    }
    let joined = resolve_path("/ws", "src/main.rs").unwrap();
    assert_eq!(std::path::PathBuf::from(joined), std::path::Path::new("/ws").join("src/main.rs"));
    let absolute = resolve_path("/ws", "/etc/hosts").unwrap();
    assert_eq!(std::path::PathBuf::from(absolute), std::path::Path::new("/ws").join("/etc/hosts"));
    assert!(resolve_path("/ws", "").is_ok());
}

#[test]
fn file_kinds_and_media_types() {
    assert_eq!(file_type_name(true, false), "directory");
    assert_eq!(file_type_name(true, true), "directory");
    assert_eq!(file_type_name(false, true), "symlink");
    assert_eq!(file_type_name(false, false), "file");
    assert_eq!(mime_type_for("a.png"), "image/png");
    assert_eq!(mime_type_for("A.JPG"), "image/jpeg");
    assert_eq!(mime_type_for("a.jpeg"), "image/jpeg");
    assert_eq!(mime_type_for("a.gif"), "image/gif");
    assert_eq!(mime_type_for("a.webp"), "image/webp");
    assert_eq!(mime_type_for("a.svg"), "image/svg+xml");
    assert_eq!(mime_type_for("a.bmp"), "image/bmp");
    assert_eq!(mime_type_for("a.ico"), "image/x-icon");
    assert_eq!(mime_type_for("a.avif"), "image/avif");
    assert_eq!(mime_type_for("a.txt"), "application/octet-stream");
    assert_eq!(mime_type_for("png"), "application/octet-stream");
    assert_eq!(to_forward_slashes("a\\b\\c/d"), "a/b/c/d");
    assert_eq!(to_forward_slashes(""), "");
}

#[test]
fn lines_are_searched() {
    let found = match_line("src/a.rs", 7, "let Value = 1; // value", "value", false).unwrap();
    assert_eq!(found.path, "src/a.rs");
    assert_eq!(found.line, 7);
    assert_eq!(found.column, 5);
    assert_eq!(found.text, "let Value = 1; // value");
    let exact = match_line("p", 1, "let Value = 1; // value", "value", true).unwrap();
    assert_eq!(exact.column, 19);
    assert!(match_line("p", 1, "nothing here", "value", false).is_none());
    assert!(match_line("p", 1, "VALUE", "value", true).is_none());
    assert_eq!(match_line("p", 1, "VALUE", "Value", false).unwrap().column, 1);
    assert_eq!(match_line("p", 1, "\u{e9}\u{e9}x", "x", true).unwrap().column, 5);
    assert_eq!(match_line("p", 1, "abc", "", true).unwrap().column, 1);
    assert!(is_hidden(".git"));
    assert!(!is_hidden("src"));
    assert!(!is_hidden(""));
}

#[test]
fn content_is_searched_up_to_the_limit() {
    let content = "alpha\nbeta ALPHA\r\n\ngamma\nalpha again";
    let mut matches = Vec::new();
    search_content("f.txt", content, "alpha", false, 10, &mut matches);
    let lines: Vec<usize> = matches.iter().map(|m| m.line).collect();
    assert_eq!(lines, vec![1, 2, 5]);
    assert_eq!(matches[1].column, 6);
    assert_eq!(matches[1].text, "beta ALPHA");
    search_content("g.txt", content, "alpha", true, 4, &mut matches);
    assert_eq!(matches.len(), 4);
    assert_eq!(matches[3].path, "g.txt");
    assert_eq!(matches[3].line, 1);
    search_content("h.txt", content, "alpha", true, 4, &mut matches);
    assert_eq!(matches.len(), 4);
    let mut none = Vec::new();
    search_content("f.txt", content, "alpha", false, 0, &mut none);
    assert!(none.is_empty());
    search_content("f.txt", "", "alpha", false, 5, &mut none);
    assert!(none.is_empty());
}

#[test]
fn file_operations_are_checked() {
    let missing = PathFacts { exists: false, is_dir: false, size: 0 };
    let file = PathFacts { exists: true, is_dir: false, size: 100 };
    let dir = PathFacts { exists: true, is_dir: true, size: 0 };
    assert!(matches!(check_readable("p", missing, 10), Err(FileError::NotFound(p)) if p == "p"));
    assert!(matches!(check_readable("p", dir, 10), Err(FileError::IsDirectory(p)) if p == "p"));
    assert!(
        matches!(check_readable("p", file, 99), Err(FileError::TooLarge(p, n)) if p == "p" && n == 99)
    );
    assert!(check_readable("p", file, 100).is_ok());
    assert!(check_writable("p", missing, false).is_ok());
    assert!(check_writable("p", file, true).is_ok());
    assert!(matches!(check_writable("p", file, false), Err(FileError::AlreadyExists(p)) if p == "p"));
    assert!(matches!(check_writable("p", dir, false), Err(FileError::AlreadyExists(_))));
    assert!(matches!(check_writable("p", dir, true), Err(FileError::IsDirectory(p)) if p == "p"));
    assert!(matches!(check_listable("p", missing), Err(FileError::NotFound(_))));
    assert!(matches!(check_listable("p", file), Err(FileError::NotDirectory(p)) if p == "p"));
    assert!(check_listable("p", dir).is_ok());
    assert!(matches!(check_creatable("p", missing), Ok(true)));
    assert!(matches!(check_creatable("p", dir), Ok(false)));
    assert!(matches!(check_creatable("p", file), Err(FileError::AlreadyExists(_))));
    assert!(matches!(check_source("p", missing), Err(FileError::NotFound(_))));
    assert!(check_source("p", dir).is_ok());
    assert!(check_target("p", missing, false).is_ok());
    assert!(check_target("p", dir, true).is_ok());
    assert!(matches!(check_target("p", file, false), Err(FileError::AlreadyExists(_))));
}

#[test]
fn entries_and_stats_are_described() {
    let entry = FileEntry::new("a.rs".to_string(), "src\\a.rs", false, false, 3, "t".to_string());
    assert_eq!(entry.name, "a.rs");
    assert_eq!(entry.path, "src/a.rs");
    assert_eq!(entry.file_type, "file");
    assert_eq!(entry.size, 3);
    assert_eq!(entry.modified_at, "t");
    let link = FileEntry::new("l".to_string(), "l", false, true, 0, String::new());
    assert_eq!(link.file_type, "symlink");
    let stat = FileStat::new(
        "d".to_string(),
        "d".to_string(),
        true,
        false,
        0,
        "c".to_string(),
        "m".to_string(),
        "a".to_string(),
        Some("hash".to_string()),
    );
    assert_eq!(stat.file_type, "directory");
    assert_eq!(stat.sha256, None);
    assert_eq!(stat.mode, 0o644);
    assert_eq!(stat.created_at, "c");
    let file = FileStat::new(
        "f".to_string(),
        "f".to_string(),
        false,
        false,
        9,
        String::new(),
        String::new(),
        String::new(),
        Some("hash".to_string()),
    );
    assert_eq!(file.sha256, Some("hash".to_string()));
    assert_eq!(file.size, 9);
}

#[test]
fn trash_operations_are_checked() {
    let item = trashed("a", "t");
    assert_eq!(restore_target(&item, None), "p");
    assert_eq!(restore_target(&item, Some("elsewhere")), "elsewhere");
    assert!(check_restore("p", false).is_ok());
    assert!(matches!(check_restore("p", true), Err(TrashError::AlreadyExists(p)) if p == "p"));
    assert!(check_found("id", true).is_ok());
    assert!(matches!(check_found("id", false), Err(TrashError::NotFound(n)) if n == "id"));
    assert_eq!(item_type_name(true), "directory");
    assert_eq!(item_type_name(false), "file");
}

#[test]
fn purging_goes_by_age() {
    let now = Instant { seconds: 10 * 86400, nanos: 500 };
    let at = |seconds: i64, nanos: u32| Some(Instant { seconds, nanos });
    assert!(should_purge(None, now, None));
    assert!(should_purge(at(0, 0), now, None));
    assert!(!should_purge(None, now, Some(3)));
    assert!(should_purge(at(7 * 86400, 499), now, Some(3)));
    assert!(!should_purge(at(7 * 86400, 500), now, Some(3)));
    assert!(!should_purge(at(7 * 86400, 501), now, Some(3)));
    assert!(should_purge(at(7 * 86400 - 1, 999_999_999), now, Some(3)));
    assert!(should_purge(at(10 * 86400, 499), now, Some(0)));
    assert!(!should_purge(at(10 * 86400, 500), now, Some(0)));
    assert!(should_purge(at(11 * 86400, 0), now, Some(-2)));
    assert!(!should_purge(at(0, 0), now, Some(i64::MAX)));
    assert!(should_purge(at(i64::MAX, 0), now, Some(i64::MIN)));
}

#[test]
fn results_are_summed_up() {
    let entry = FileEntry::new("a".to_string(), "a", false, false, 1, String::new());
    let listing = ListResult::new(vec![entry.clone(), entry]);
    assert_eq!(listing.count, 2);
    let m = SearchMatch { path: "a".to_string(), line: 1, column: 2, text: "t".to_string() };
    let cut = SearchResult::new(vec![m.clone(), m.clone()], 2);
    assert_eq!(cut.count, 2);
    assert!(cut.truncated);
    let whole = SearchResult::new(vec![m], 2);
    assert_eq!(whole.count, 1);
    assert!(!whole.truncated);
    let read = ReadResult::new("hello".to_string(), 5);
    assert_eq!(read.sha256, "2cf24dba5fb0a30e26e83b2ac5b9e29e1b161e5c1fa7425e73043362938b9824");
    assert_eq!(read.size, 5);
    let written = WriteResult::new("p".to_string(), "h\u{e9}", true);
    assert_eq!(written.bytes_written, 3);
    assert!(!written.created);
    assert_eq!(written.path, "p");
    let binary = ReadBinaryResult::new(&[0, 0, 0], "Pic.PNG").unwrap();
    assert_eq!(binary.mime_type, "image/png");
    assert_eq!(binary.content, "AAAA");
    assert_eq!(binary.size, 3);
    let text = ReadBinaryResult::new(b"hello world~", "notes.bin").unwrap();
    assert_eq!(text.content, "aGVsbG8gd29ybGR+");
    assert_eq!(text.mime_type, "application/octet-stream");
}

#[test]
fn responses_carry_data_or_an_error() {
    let ok = ApiResponse::success(7);
    assert!(ok.ok);
    assert_eq!(ok.data, Some(7));
    assert!(ok.error.is_none());
    assert_eq!(ok.request_id.len(), 36);
    let failed: ApiResponse<i32> = ApiResponse::error("NOT_FOUND", "Memory not found");
    assert!(!failed.ok);
    assert_eq!(failed.data, None);
    let e = failed.error.unwrap();
    assert_eq!(e.code, "NOT_FOUND");
    assert_eq!(e.message, "Memory not found");
    assert_ne!(failed.request_id, ok.request_id);
}

fn trashed(id: &str, deleted_at: &str) -> TrashMetadata {
    TrashMetadata {
        trash_id: id.to_string(),
        original_path: "p".to_string(),
        deleted_at: deleted_at.to_string(),
        item_type: "file".to_string(),
        size: 1,
        sha256: None,
        request_id: "r".to_string(),
    }
}

#[test]
fn trash_lists_latest_first() {
    let items = vec![
        trashed("a", "2024-01-02T00:00:00+00:00"),
        trashed("b", "2024-03-01T00:00:00+00:00"),
        trashed("c", "2024-01-02T00:00:00+00:00"),
        trashed("d", "2023-12-31T00:00:00+00:00"),
    ];
    let sorted = sort_newest_first(&items);
    let ids: Vec<&str> = sorted.iter().map(|m| m.trash_id.as_str()).collect();
    assert_eq!(ids, vec!["b", "a", "c", "d"]);
    let listing = TrashListResult::new(&items);
    assert_eq!(listing.count, 4);
    assert_eq!(listing.items[0].trash_id, "b");
}

#[test]
fn confirmation_tokens_are_good_once_and_for_five_minutes() {
    let mut trash = TrashManager::new("/ws");
    assert_eq!(trash.workspace(), "/ws");
    assert_eq!(TrashManager::directory_name(), ".trash");
    let token = trash.generate_confirm_token_with("a.txt", "tok-1", 1000);
    assert_eq!(token, "tok-1");
    assert!(trash.validate_confirm_token_at("tok-1", "a.txt", 1299));
    assert!(!trash.validate_confirm_token_at("tok-1", "a.txt", 1299));

    trash.generate_confirm_token_with("a.txt", "tok-2", 1000);
    assert!(!trash.validate_confirm_token_at("tok-2", "a.txt", 1300));
    trash.generate_confirm_token_with("a.txt", "tok-3", 1000);
    assert!(!trash.validate_confirm_token_at("tok-3", "b.txt", 1000));
    assert!(!trash.validate_confirm_token_at("tok-3", "a.txt", 1000));
    assert!(!trash.validate_confirm_token_at("never", "a.txt", 0));

    trash.generate_confirm_token_with("a.txt", "tok-4", 1000);
    trash.generate_confirm_token_with("b.txt", "tok-4", 2000);
    assert!(trash.validate_confirm_token_at("tok-4", "b.txt", 2299));

    trash.generate_confirm_token_with("a.txt", "late", i64::MAX);
    assert!(trash.validate_confirm_token_at("late", "a.txt", i64::MAX - 1));
}

#[test]
fn expired_tokens_are_cleaned() {
    let mut trash = TrashManager::new("/ws");
    trash.generate_confirm_token_with("a", "t1", 0);
    trash.generate_confirm_token_with("b", "t2", 100);
    trash.generate_confirm_token_with("c", "t3", 200);
    trash.clean_expired_tokens_at(400);
    assert!(!trash.validate_confirm_token_at("t1", "a", 0));
    assert!(!trash.validate_confirm_token_at("t2", "b", 0));
    assert!(trash.validate_confirm_token_at("t3", "c", 0));
}

#[test]
fn fresh_tokens_confirm_their_path() {
    let mut trash = TrashManager::new("/ws");
    let a = trash.generate_confirm_token("a.txt");
    let b = trash.generate_confirm_token("b.txt");
    assert_ne!(a, b);
    assert_eq!(a.len(), 36);
    trash.clean_expired_tokens();
    assert!(trash.validate_confirm_token(&a, "a.txt"));
    assert!(!trash.validate_confirm_token(&a, "a.txt"));
    assert!(!trash.validate_confirm_token(&b, "a.txt"));
    trash.update_workspace("/other");
    assert_eq!(trash.workspace(), "/other");
}
