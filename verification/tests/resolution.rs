use arturo_ext::{ArturoExtension, ProbedPath};

fn probed(path: &str, exists: bool) -> ProbedPath {
    ProbedPath { path: String::from(path), exists }
}

#[test]
fn new_has_no_cache() {
    let ext = ArturoExtension::new();
    assert!(ext.cached_binary_path.is_none());
}

#[test]
fn cached_path_still_existing_wins() {
    let mut ext = ArturoExtension::new();
    ext.cached_binary_path = Some(String::from("/cache/bundle.js"));
    let candidates = vec![probed("/cwd/bundle.js", true), probed("/elsewhere/bundle.js", true)];
    let r = ext.language_server_script_path(true, &candidates);
    assert_eq!(r, Ok(String::from("/cache/bundle.js")));
    assert_eq!(ext.cached_binary_path, Some(String::from("/cache/bundle.js")));
}

#[test]
fn cached_path_wins_whatever_the_candidates_hold() {
    let mut ext = ArturoExtension::new();
    ext.cached_binary_path = Some(String::from("/cache/bundle.js"));
    let r = ext.language_server_script_path(true, &vec![]);
    assert_eq!(r, Ok(String::from("/cache/bundle.js")));

    let mut ext2 = ArturoExtension::new();
    ext2.cached_binary_path = Some(String::from("/cache/bundle.js"));
    let candidates = vec![probed("/other/bundle.js", false)];
    let r2 = ext2.language_server_script_path(true, &candidates);
    assert_eq!(r, r2);
}

#[test]
fn sole_existing_candidate_is_chosen() {
    let mut ext = ArturoExtension::new();
    let candidates = vec![
        probed("/cwd/bundle.js", false),
        probed("/cwd/language-server/bundle.js", true),
        probed("/exe/bundle.js", false),
    ];
    let r = ext.language_server_script_path(false, &candidates);
    assert_eq!(r, Ok(String::from("/cwd/language-server/bundle.js")));
    assert_eq!(ext.cached_binary_path, Some(String::from("/cwd/language-server/bundle.js")));
}

#[test]
fn first_of_two_existing_candidates_wins() {
    let mut ext = ArturoExtension::new();
    let candidates = vec![probed("/cwd/bundle.js", true), probed("/exe/bundle.js", true)];
    let r = ext.language_server_script_path(false, &candidates);
    assert_eq!(r, Ok(String::from("/cwd/bundle.js")));
}

#[test]
fn stale_cache_falls_back_to_search() {
    let mut ext = ArturoExtension::new();
    ext.cached_binary_path = Some(String::from("/gone/bundle.js"));
    let candidates = vec![probed("/cwd/bundle.js", true)];
    let r = ext.language_server_script_path(false, &candidates);
    assert_eq!(r, Ok(String::from("/cwd/bundle.js")));
    assert_eq!(ext.cached_binary_path, Some(String::from("/cwd/bundle.js")));
}

#[test]
fn missing_bundle_error_lists_every_path() {
    let mut ext = ArturoExtension::new();
    let candidates = vec![
        probed("/cwd/bundle.js", false),
        probed("/cwd/language-server/bundle.js", false),
        probed("/exe/bundle.js", false),
    ];
    let r = ext.language_server_script_path(false, &candidates);
    let message = r.expect_err("no candidate exists, so resolution must fail");
    for c in &candidates {
        assert!(message.contains(&c.path));
    }
    assert_eq!(
        message,
        "Language server bundle not found. Searched:\n  - /cwd/bundle.js\n  - /cwd/language-server/bundle.js\n  - /exe/bundle.js\n"
    );
}

#[test]
fn search_failure_leaves_cache_alone() {
    let mut ext = ArturoExtension::new();
    ext.cached_binary_path = Some(String::from("/gone/bundle.js"));
    let candidates = vec![probed("/cwd/bundle.js", false)];
    let r = ext.language_server_script_path(false, &candidates);
    assert!(r.is_err());
    assert_eq!(ext.cached_binary_path, Some(String::from("/gone/bundle.js")));
}

#[test]
fn empty_candidate_list_fails_with_bare_message() {
    let mut ext = ArturoExtension::new();
    let r = ext.language_server_script_path(false, &vec![]);
    assert_eq!(r, Err(String::from("Language server bundle not found. Searched:\n")));
}

#[test]
fn embedded_write_success_caches_path() {
    let mut ext = ArturoExtension::new();
    ext.cached_binary_path = Some(String::from("/stale/bundle.js"));
    let r = ext.finish_embedded_write(String::from("/work/arturo-lsp-bundle.js"), None);
    assert_eq!(r, Ok(String::from("/work/arturo-lsp-bundle.js")));
    assert_eq!(ext.cached_binary_path, Some(String::from("/work/arturo-lsp-bundle.js")));
}

#[test]
fn embedded_write_failure_reports_detail() {
    let mut ext = ArturoExtension::new();
    let r = ext.finish_embedded_write(
        String::from("/work/arturo-lsp-bundle.js"),
        Some(String::from("disk full")),
    );
    assert_eq!(r, Err(String::from("Failed to write language server bundle: disk full")));
    assert_eq!(ext.cached_binary_path, None);
}
