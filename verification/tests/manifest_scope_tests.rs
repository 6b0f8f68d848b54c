use std::path::PathBuf;

use hop_server::manifest_scope::{
    expand_manifest_scope, is_glob_pattern, manifest_format, sort_distinct_paths, GlobScan, ManifestFormat,
    ScopeError, ScopeErrorCode, EMPTY_SCOPE, GLOB_MATCHED_NOTHING, GLOB_SCAN_FAILED, INVALID_GLOB_PATTERN,
    UNKNOWN_MANIFEST_EXTENSION, UNREADABLE_SCOPE,
};

fn strings(items: &[&str]) -> Vec<String> {
    items.iter().map(|s| s.to_string()).collect()
}

fn std_sorted(items: &[&str]) -> Vec<String> {
    let mut paths: Vec<PathBuf> = items.iter().map(PathBuf::from).collect();
    paths.sort();
    paths.dedup();
    paths.into_iter().map(|p| p.to_str().unwrap().to_string()).collect()
}

#[test]
fn path_order_matches_std_component_order() {
    let cases: Vec<Vec<&str>> = vec![
        vec!["b.yaml", "a.yaml", "a.yaml"],
        vec!["a/b", "a-b", "a.b", "a"],
        vec!["./x", "x", "/x", "../x", "x/"],
        vec!["a//b", "a/b", "a/./b", "a/b/"],
        vec!["conf/z.toml", "conf/a.yaml", "conf.d/a.yaml", "/etc/hop/a.yml"],
        vec!["Z", "a", "é", "_"],
    ];
    for case in cases {
        assert_eq!(sort_distinct_paths(&strings(&case)), std_sorted(&case), "case {:?}", case);
    }
}

#[test]
fn extension_matches_std_extension() {
    for path in ["a.yaml", "dir/a.yml", "a.toml", ".yaml", "a.json", "a", "a.YAML", "x/..", "dir.yaml/", "a.b.toml"] {
        let expected = match PathBuf::from(path).extension().and_then(|e| e.to_str()) {
            Some("yaml" | "yml") => Some(ManifestFormat::Yaml),
            Some("toml") => Some(ManifestFormat::Toml),
            _ => None,
        };
        assert_eq!(manifest_format(path).ok(), expected, "path {path}");
    }
}

#[test]
fn unknown_extension_is_refused_with_the_path() {
    let error = manifest_format("resources.json").unwrap_err();
    assert_eq!(error.code, ScopeErrorCode::ApplyFailed);
    assert_eq!(error.path.as_deref(), Some("resources.json"));
    assert_eq!(error.message, UNKNOWN_MANIFEST_EXTENSION);
}

#[test]
fn glob_characters_mark_patterns() {
    assert!(is_glob_pattern("conf/*.yaml"));
    assert!(is_glob_pattern("a?.toml"));
    assert!(is_glob_pattern("[ab].yaml"));
    assert!(!is_glob_pattern("conf/resources.yaml"));
}

#[test]
fn scope_merges_paths_and_matches_sorted_once() {
    let inputs = strings(&["z.yaml", "conf/*.yaml", "a.toml"]);
    let scans = vec![
        GlobScan::Entries(vec![]),
        GlobScan::Entries(vec![Some("conf/b.yaml".to_string()), Some("conf/a.yaml".to_string())]),
        GlobScan::InvalidPattern,
    ];
    let paths = expand_manifest_scope(&inputs, &scans).unwrap();
    assert_eq!(paths, vec!["a.toml", "conf/a.yaml", "conf/b.yaml", "z.yaml"]);
    let repeated = expand_manifest_scope(&strings(&["a.yaml", "./b.yaml", "a.yaml"]), &vec![
        GlobScan::InvalidPattern,
        GlobScan::InvalidPattern,
        GlobScan::InvalidPattern,
    ])
    .unwrap();
    assert_eq!(repeated, vec!["./b.yaml", "a.yaml"]);
}

fn refusal(result: Result<Vec<String>, ScopeError>) -> (ScopeErrorCode, Option<String>, String) {
    let error = result.unwrap_err();
    (error.code, error.path, error.message)
}

#[test]
fn scope_refusals_name_the_pattern() {
    let incomplete = ScopeErrorCode::SourceScanIncomplete;
    assert_eq!(
        refusal(expand_manifest_scope(&strings(&["*.yaml"]), &vec![GlobScan::InvalidPattern])),
        (incomplete, Some("*.yaml".to_string()), INVALID_GLOB_PATTERN.to_string())
    );
    assert_eq!(
        refusal(expand_manifest_scope(
            &strings(&["*.yaml"]),
            &vec![GlobScan::Entries(vec![Some("a.yaml".to_string()), None])]
        )),
        (incomplete, Some("*.yaml".to_string()), GLOB_SCAN_FAILED.to_string())
    );
    assert_eq!(
        refusal(expand_manifest_scope(&strings(&["a.yaml", "*.toml"]), &vec![
            GlobScan::InvalidPattern,
            GlobScan::Entries(vec![])
        ])),
        (incomplete, Some("*.toml".to_string()), GLOB_MATCHED_NOTHING.to_string())
    );
    assert_eq!(refusal(expand_manifest_scope(&vec![], &vec![])), (incomplete, None, EMPTY_SCOPE.to_string()));
}

#[test]
fn unreadable_file_names_the_file() {
    let error = ScopeError::unreadable("conf/a.yaml");
    assert_eq!(error.code, ScopeErrorCode::SourceScanIncomplete);
    assert_eq!(error.path.as_deref(), Some("conf/a.yaml"));
    assert_eq!(error.message, UNREADABLE_SCOPE);
}

#[test]
fn sorting_a_sorted_scope_gives_it_back() {
    let once = sort_distinct_paths(&strings(&["b.yaml", "./a.yaml", "a.yaml", "conf/x.toml", "b.yaml"]));
    assert_eq!(sort_distinct_paths(&once), once);
}
