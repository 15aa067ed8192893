use adjutant::triage::{
    assert_edit_allowed, insert_cargo_test_filter, is_assertion_test_failure,
    is_protected_test_infra, is_setup_test_failure, paths_equivalent, resolve_edit_path,
    scope_test_command_for_paths, split_check_and_test_commands,
};

fn strings(v: &[&str]) -> Vec<String> {
    v.iter().map(|s| s.to_string()).collect()
}

#[test]
fn assert_edit_allowed_blocks_shared_test_infra() {
    let err = assert_edit_allowed(
        "/repo/tests/common/mod.rs",
        &strings(&["/repo/tests/new_integration_test.rs"]),
        &None,
        &[None],
    )
    .expect_err("shared infra must be protected");
    assert!(err.contains("shared test infrastructure"));
}

#[test]
fn assert_edit_allowed_scopes_builder_edits_to_target_test() {
    let target = "/repo/tests/new_integration_test.rs".to_string();
    assert!(assert_edit_allowed(&target, std::slice::from_ref(&target), &None, &[None]).is_ok());

    let err = assert_edit_allowed(
        "/repo/tests/other.rs",
        &strings(&["/repo/tests/new_integration_test.rs"]),
        &None,
        &[None],
    )
    .expect_err("out-of-scope edit");
    assert!(err.contains("outside builder triage scope"));
}

#[test]
fn assert_edit_allowed_allows_standalone_triage_outside_denylist() {
    assert!(
        assert_edit_allowed("/repo/src/lib.rs", &[], &None, &[]).is_ok(),
        "empty editable_paths keeps standalone triage behavior"
    );
}

#[test]
fn assert_edit_allowed_accepts_same_canonical_file() {
    let editable = strings(&["./tests/t.rs"]);
    assert!(assert_edit_allowed(
        "/repo/tests/t.rs",
        &editable,
        &Some("/repo/tests/t.rs".to_string()),
        &[Some("/repo//tests/t.rs".to_string())],
    )
    .is_ok());
    assert_eq!(
        assert_edit_allowed("/repo/tests/u.rs", &editable, &None, &[None]).unwrap_err(),
        "/repo/tests/u.rs is outside builder triage scope (editable: ./tests/t.rs)"
    );
}

#[test]
fn resolve_edit_path_accepts_absolute_paths_under_module_root() {
    let allowed = strings(&["/repo/backend"]);
    let resolved = resolve_edit_path("/repo/backend/src/main.rs", &allowed).expect("absolute");
    assert_eq!(resolved, "/repo/backend/src/main.rs");
}

#[test]
fn resolve_edit_path_rejects_traversal_and_outside_roots() {
    let allowed = strings(&["/repo/backend"]);

    let resolved = resolve_edit_path("src/main.rs", &allowed).expect("relative");
    assert_eq!(resolved, "/repo/backend/src/main.rs");

    assert!(resolve_edit_path("../etc/passwd", &allowed).is_err());
    assert!(resolve_edit_path("/etc/passwd", &allowed).is_err());
}

#[test]
fn resolve_edit_path_rejects_escape_via_empty_module_root() {
    let allowed = strings(&[""]);
    assert!(resolve_edit_path("/etc/passwd", &allowed).is_err());
}

#[test]
fn resolve_edit_path_reports_exact_errors() {
    let allowed = strings(&["", "/repo"]);
    assert_eq!(
        resolve_edit_path("a/../b", &allowed).unwrap_err(),
        "edit path must not contain ..: a/../b"
    );
    assert_eq!(
        resolve_edit_path("/etc/x", &allowed).unwrap_err(),
        "edit path must be relative to a triage module root: /etc/x"
    );
    assert_eq!(
        resolve_edit_path("x.rs", &strings(&[""])).unwrap_err(),
        "edit path must be inside a triage module root: x.rs"
    );
    assert_eq!(resolve_edit_path("x.rs", &allowed).unwrap(), "/repo/x.rs");
}

#[test]
fn scope_test_command_for_paths_targets_cargo_integration_test() {
    let scoped = scope_test_command_for_paths("cargo test", &strings(&["tests/red_phase.rs"]));
    assert_eq!(scoped, "cargo test --test red_phase");
}

#[test]
fn scope_test_command_for_paths_preserves_existing_cargo_flags() {
    let scoped = scope_test_command_for_paths(
        "cargo test -p demo --features json",
        &strings(&["tests/red_phase.rs"]),
    );
    assert_eq!(scoped, "cargo test -p demo --features json --test red_phase");
}

#[test]
fn scope_test_command_for_paths_preserves_double_dash_separator() {
    let scoped = scope_test_command_for_paths(
        "cargo test -p demo -- --nocapture",
        &strings(&["tests/red_phase.rs"]),
    );
    assert_eq!(scoped, "cargo test -p demo --test red_phase -- --nocapture");
}

#[test]
fn scope_test_command_leaves_other_commands_alone() {
    assert_eq!(
        scope_test_command_for_paths("npm test", &strings(&["tests/a.rs"])),
        "npm test"
    );
    assert_eq!(
        scope_test_command_for_paths("cargo test", &strings(&["src/a.rs"])),
        "cargo test"
    );
    assert_eq!(
        scope_test_command_for_paths("cargo test", &strings(&["tests/a.rs", "tests/b.rs"])),
        "cargo test"
    );
    assert_eq!(
        insert_cargo_test_filter("cargo test --test x -- -q", "y"),
        "cargo test --test x -- -q"
    );
}

#[test]
fn is_assertion_test_failure_requires_generated_test_name_when_unscoped() {
    let output = "assertion `left == right` failed\nfailures:\n    red_phase_case\n";
    assert!(is_assertion_test_failure(output, &strings(&["tests/red_phase.rs"]), false));
    assert!(!is_assertion_test_failure(output, &strings(&["tests/other.rs"]), false));
}

#[test]
fn is_assertion_test_failure_accepts_scoped_command_without_name_match() {
    let output = "assertion `left == right` failed\ntest result: FAILED";
    assert!(is_assertion_test_failure(output, &strings(&["tests/relative_red.rs"]), true));
}

#[test]
fn is_assertion_test_failure_rejects_setup_panic() {
    let output = "panicked at tests/cache_manager_integration_tests.rs:15:10:\n\
        Failed to create ProjectCacheManager: \"failed to canonicalize /tmp/x: \
        No such file or directory (os error 2)\"\n\
        test result: FAILED. 0 passed; 1 failed";
    assert!(!is_assertion_test_failure(
        output,
        &strings(&["tests/cache_manager_integration_tests.rs"]),
        true,
    ));
}

#[test]
fn is_assertion_test_failure_rejects_panic_without_assertion_signal() {
    assert!(!is_assertion_test_failure(
        "thread 'worker' panicked at 'boom'",
        &strings(&["tests/red_phase.rs"]),
        false
    ));
}

#[test]
fn setup_failures_and_protected_files_are_recognised() {
    assert!(is_setup_test_failure("E0433: failed to resolve"));
    assert!(is_setup_test_failure("error: unresolved import `crate::x`"));
    assert!(!is_setup_test_failure("error[E0433]: failed to resolve"));
    assert!(!is_setup_test_failure("assertion failed"));
    assert!(is_protected_test_infra("/repo/tests/common/mod.rs"));
    assert!(is_protected_test_infra("tests//cache_manager_tests.rs"));
    assert!(!is_protected_test_infra("/repo/tests/common/other.rs"));
    assert!(paths_equivalent("a/b", "a//b/", &None, &None));
    assert!(!paths_equivalent("./a", "a", &None, &None));
}

#[test]
fn split_check_and_test_commands_derives_test_step() {
    assert_eq!(
        split_check_and_test_commands("cargo check --all"),
        ("cargo check".to_string(), "cargo test".to_string())
    );
    assert_eq!(
        split_check_and_test_commands("npm run typecheck"),
        ("npm run typecheck".to_string(), "npm run test".to_string())
    );
    assert_eq!(
        split_check_and_test_commands("make"),
        ("make".to_string(), "make".to_string())
    );
}
