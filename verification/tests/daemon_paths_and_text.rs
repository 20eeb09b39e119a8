use game_server_manager::daemon::config::parse_u16;
use game_server_manager::daemon::error::AppError;
use game_server_manager::daemon::paths::{
    join_path, map_fs_error, normalize_path, normalize_relative_path, resolve_server_path,
    FsErrorKind, PathRejection,
};
use game_server_manager::string_map::StringMap;
use game_server_manager::text::{
    blank, chars_of, i64_to_string, split_fields, string_of, trim_chars, u64_to_string, Separator,
};

fn ok_path(p: &str) -> String {
    match normalize_relative_path(p) {
        Ok(s) => s,
        Err(e) => panic!("unexpected error {} {}", e.status, e.message),
    }
}

fn err_path(p: &str) -> AppError {
    match normalize_relative_path(p) {
        Ok(s) => panic!("unexpected success {}", s),
        Err(e) => e,
    }
}

#[test]
fn decimal_rendering() {
    assert_eq!(i64_to_string(0), "0");
    assert_eq!(i64_to_string(-42), "-42");
    assert_eq!(i64_to_string(25575), "25575");
    assert_eq!(i64_to_string(i64::MIN), i64::MIN.to_string());
    assert_eq!(i64_to_string(i64::MAX), i64::MAX.to_string());
    assert_eq!(u64_to_string(u64::MAX), u64::MAX.to_string());
}

#[test]
fn trimming_and_blankness() {
    let t = trim_chars(&chars_of("\t  hello world \u{3000}\n"));
    assert_eq!(string_of(&t), "hello world");
    assert!(blank(" \t\n\u{a0}"));
    assert!(blank(""));
    assert!(!blank("  x "));
}

#[test]
fn word_splitting_matches_split_whitespace() {
    let text = "  sleep   infinity\t now ";
    let words: Vec<String> = split_fields(Separator::WhiteSpace, &chars_of(text))
        .iter()
        .map(|w| string_of(w))
        .collect();
    let expected: Vec<String> = text.split_whitespace().map(|w| w.to_string()).collect();
    assert_eq!(words, expected);
    assert!(split_fields(Separator::WhiteSpace, &chars_of("   ")).is_empty());
}

#[test]
fn normalizes_requested_paths() {
    assert_eq!(ok_path(""), "");
    assert_eq!(ok_path("   "), "");
    assert_eq!(ok_path("."), "");
    assert_eq!(ok_path("./"), "");
    assert_eq!(ok_path(" a\\b/./c "), "a/b/c");
    assert_eq!(ok_path("a//b/"), "a/b");
    assert_eq!(ok_path("config/server.properties"), "config/server.properties");
}

#[test]
fn refuses_absolute_paths() {
    let e = err_path("/etc/passwd");
    assert_eq!(e.status, 400);
    assert_eq!(e.message, "absolute paths are not allowed");
    let e = err_path("\\windows");
    assert_eq!(e.message, "absolute paths are not allowed");
    assert_eq!(normalize_path("/x"), Err(PathRejection::Absolute));
}

#[test]
fn refuses_path_traversal() {
    let e = err_path("../secrets");
    assert_eq!(e.status, 400);
    assert_eq!(e.message, "path traversal is not allowed");
    let e = err_path("logs/../../x");
    assert_eq!(e.message, "path traversal is not allowed");
    assert_eq!(normalize_path("a\\..\\b"), Err(PathRejection::Traversal));
}

#[test]
fn normalized_path_stays_inside_volume() {
    assert_eq!(err_path("./world/../world2").message, "path traversal is not allowed");
    let rel = ok_path(" ./plugins//a ");
    let host = resolve_server_path("/srv/volumes", "server-1", &rel);
    assert_eq!(host, "/srv/volumes/server-1/plugins/a");
    assert!(host.starts_with("/srv/volumes/server-1"));
}

#[test]
fn joins_paths_like_pathbuf() {
    assert_eq!(join_path("/srv", "a"), "/srv/a");
    assert_eq!(join_path("/srv/", "a"), "/srv/a");
    assert_eq!(join_path("", "a"), "a");
    assert_eq!(join_path("/srv", "/abs"), "/abs");
    assert_eq!(join_path("/srv", ""), "/srv/");
    assert_eq!(resolve_server_path("/srv", "id", ""), "/srv/id");
    assert_eq!(resolve_server_path("/srv", "id", "a/b"), "/srv/id/a/b");
}

#[test]
fn maps_file_system_errors() {
    let e = map_fs_error(FsErrorKind::NotFound, "failed to read file", "gone");
    assert_eq!((e.status, e.message.as_str()), (404, "resource not found"));
    let e = map_fs_error(FsErrorKind::PermissionDenied, "failed to read file", "no");
    assert_eq!((e.status, e.message.as_str()), (403, "permission denied"));
    let e = map_fs_error(FsErrorKind::Other, "failed to read file", "disk on fire");
    assert_eq!((e.status, e.message.as_str()), (500, "failed to read file: disk on fire"));
}

#[test]
fn string_map_reads_back_writes() {
    let mut m = StringMap::new();
    m.insert("a".to_string(), "1".to_string());
    m.insert("b".to_string(), "2".to_string());
    m.insert("a".to_string(), "3".to_string());
    assert_eq!(m.len(), 2);
    assert_eq!(m.get("a"), Some("3".to_string()));
    assert_eq!(m.get("b"), Some("2".to_string()));
    assert_eq!(m.remove("a"), Some("3".to_string()));
    assert_eq!(m.get("a"), None);
    assert!(!m.contains_key("a"));
    assert_eq!(m.remove("a"), None);
    let copy = m.copy();
    assert_eq!(copy.pair_at(0), ("b".to_string(), "2".to_string()));
}

#[test]
fn normalizing_twice_changes_nothing() {
    for p in ["a//./b\\c ", "./x/./y/", "  logs/latest.log", "world\\region", "."] {
        let once = ok_path(p);
        assert_eq!(ok_path(&once), once);
    }
    assert_eq!(ok_path("a//./b\\c "), "a/b/c");
}

#[test]
fn port_text_round_trip() {
    for n in [0u16, 7, 8080, 25565, 65535] {
        assert_eq!(parse_u16(&u64_to_string(n as u64)), Some(n));
    }
    assert_eq!(parse_u16("+80"), Some(80));
    assert_eq!(parse_u16("65536"), None);
    assert_eq!(parse_u16(""), None);
}
