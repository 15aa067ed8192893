use adjutant::project::{
    timestamp_from_reading, current_unix_timestamp,
    cache_home, hash_query_text, path_to_posix_string, project_cache_db_path,
    resolve_workspace_path, resolve_workspace_path_bounded,
};

const ROOT: &str = "/work/repo";

#[test]
fn resolve_workspace_path_joins_relative_and_keeps_absolute() {
    assert_eq!(resolve_workspace_path(ROOT, "./src/lib.rs"), "/work/repo/src/lib.rs");
    assert_eq!(resolve_workspace_path(ROOT, "src/lib.rs"), "/work/repo/src/lib.rs");
    assert_eq!(resolve_workspace_path(ROOT, "/etc/hosts"), "/etc/hosts");
    assert_eq!(resolve_workspace_path("/work/repo/", "a"), "/work/repo/a");
}

#[test]
fn bounded_path_walks_names_and_parent_dirs() {
    assert_eq!(resolve_workspace_path_bounded(ROOT, "./src/./lib.rs"), Ok("/work/repo/src/lib.rs".to_string()));
    assert_eq!(resolve_workspace_path_bounded(ROOT, "src/agent/../lib.rs"), Ok("/work/repo/src/lib.rs".to_string()));
    assert_eq!(resolve_workspace_path_bounded(ROOT, "src//x/"), Ok("/work/repo/src/x".to_string()));
    assert_eq!(resolve_workspace_path_bounded(ROOT, "src/.."), Ok(ROOT.to_string()));
    assert_eq!(resolve_workspace_path_bounded(ROOT, ""), Ok(ROOT.to_string()));
}

#[test]
fn bounded_path_refuses_escapes() {
    let err = Err("file_path must stay within the workspace".to_string());
    assert_eq!(resolve_workspace_path_bounded(ROOT, "../secrets"), err);
    assert_eq!(resolve_workspace_path_bounded(ROOT, "src/../../x"), err);
    assert_eq!(resolve_workspace_path_bounded(ROOT, "./a/../.."), err);
}

#[test]
fn bounded_path_keeps_absolute_paths() {
    assert_eq!(resolve_workspace_path_bounded(ROOT, "/tmp/x/../y"), Ok("/tmp/x/../y".to_string()));
}

#[test]
fn hash_query_text_is_sha256_hex() {
    assert_eq!(
        hash_query_text("abc"),
        "ba7816bf8f01cfea414140de5dae2223b00361a396177a9cb410ff61f20015ad"
    );
    assert_eq!(hash_query_text("abc").len(), 64);
}

#[test]
fn cache_home_prefers_xdg_then_home() {
    assert_eq!(cache_home(Some("/xdg"), Some("/home/u")), "/xdg");
    assert_eq!(cache_home(Some(""), Some("/home/u")), "/home/u/.cache");
    assert_eq!(cache_home(None, None), ".cache");
}

#[test]
fn project_cache_db_path_uses_hashed_root() {
    let key = &hash_query_text("/work/repo")[..16];
    assert_eq!(
        project_cache_db_path("/c", "/work/repo"),
        format!("/c/mcp-adjutant/projects/{key}/cache.db")
    );
}

#[test]
fn path_to_posix_string_keeps_slashes() {
    assert_eq!(path_to_posix_string("a/b/c.rs"), "a/b/c.rs");
}

#[test]
fn timestamp_reads_clock() {
    assert_eq!(timestamp_from_reading(Ok(1_700_000_000)), Ok(1_700_000_000));
    assert_eq!(
        timestamp_from_reading(Err("x".to_string())),
        Err("system clock is before UNIX epoch: x".to_string())
    );
    assert!(current_unix_timestamp().unwrap() > 1_600_000_000);
}
