use repo2file::default_ignore::DefaultIgnore;
use repo2file::rules::{decide, resolve, should_include, ConfigError, Mode, Overrides, RuleSet};
use repo2file::source::is_github_url;

fn no_overrides() -> Overrides {
    Overrides { ignore_files: None, ignore_dirs: None, include_files: None }
}

fn strings(items: &[&str]) -> Vec<String> {
    items.iter().map(|s| s.to_string()).collect()
}

fn default_rules() -> RuleSet {
    resolve(&DefaultIgnore::default(), &no_overrides()).unwrap()
}

#[test]
fn default_policy_lists() {
    let d = DefaultIgnore::default();
    assert_eq!(d.ignore_dirs, strings(&["node_modules", ".git", ".idea", ".vscode"]));
    assert_eq!(d.ignore_files.len(), 41);
    assert_eq!(d.ignore_files[0], "*LICENCE.md");
    assert_eq!(d.ignore_files[12], "*.log");
    assert_eq!(d.ignore_files[40], "CMakeLists.txt");
}

#[test]
fn log_file_excluded_by_default_glob() {
    assert!(!decide("src/app.log", &default_rules()));
}

#[test]
fn node_modules_excluded_at_any_depth() {
    assert!(!decide("src/node_modules/lib/index.js", &default_rules()));
}

#[test]
fn source_file_included_by_default() {
    assert!(decide("src/main.go", &default_rules()));
}

#[test]
fn include_only_keeps_listed_suffix() {
    let o = Overrides { ignore_files: None, ignore_dirs: None, include_files: Some(strings(&["main.go"])) };
    let rules = resolve(&DefaultIgnore::default(), &o).unwrap();
    assert_eq!(rules.mode, Mode::IncludeOnly);
    assert!(decide("src/main.go", &rules));
    assert!(!decide("src/other.go", &rules));
}

#[test]
fn user_ignore_dir_override() {
    let o = Overrides { ignore_files: None, ignore_dirs: Some(strings(&["vendor"])), include_files: None };
    let rules = resolve(&DefaultIgnore::default(), &o).unwrap();
    assert!(!decide("vendor/pkg/file.go", &rules));
    assert!(decide("vendor/pkg/file.go", &default_rules()));
}

#[test]
fn include_with_ignore_files_is_refused() {
    let o = Overrides {
        ignore_files: Some(strings(&["*.md"])),
        ignore_dirs: None,
        include_files: Some(strings(&["main.go"])),
    };
    assert!(matches!(resolve(&DefaultIgnore::default(), &o), Err(ConfigError::ConflictingOptions)));
}

#[test]
fn include_with_ignore_dirs_is_refused() {
    let o = Overrides {
        ignore_files: None,
        ignore_dirs: Some(strings(&["vendor"])),
        include_files: Some(strings(&["main.go"])),
    };
    assert!(matches!(
        should_include("src/main.go", &o, &DefaultIgnore::default()),
        Err(ConfigError::ConflictingOptions)
    ));
}

#[test]
fn malformed_glob_is_refused() {
    let o = Overrides { ignore_files: Some(strings(&["a[b"])), ignore_dirs: None, include_files: None };
    match resolve(&DefaultIgnore::default(), &o) {
        Err(ConfigError::InvalidGlob(p)) => assert_eq!(p, "a[b"),
        _ => panic!("expected an invalid glob"),
    }
}

#[test]
fn malformed_glob_ignored_in_include_mode_defaults() {
    let d = DefaultIgnore { ignore_files: strings(&["a[b"]), ignore_dirs: vec![] };
    let o = Overrides { ignore_files: None, ignore_dirs: None, include_files: Some(strings(&["x.rs"])) };
    assert_eq!(should_include("src/x.rs", &o, &d).unwrap(), true);
}

#[test]
fn include_only_ignores_default_lists() {
    let o = Overrides {
        ignore_files: None,
        ignore_dirs: None,
        include_files: Some(strings(&["app.log"])),
    };
    let rules = resolve(&DefaultIgnore::default(), &o).unwrap();
    assert!(rules.ignore_files.is_empty());
    assert!(decide("node_modules/app.log", &rules));
}

#[test]
fn include_only_matches_whole_components() {
    let o = Overrides { ignore_files: None, ignore_dirs: None, include_files: Some(strings(&["main.go"])) };
    let rules = resolve(&DefaultIgnore::default(), &o).unwrap();
    assert!(!decide("src/xmain.go", &rules));
    let o = Overrides { ignore_files: None, ignore_dirs: None, include_files: Some(strings(&["src/main.go"])) };
    let rules = resolve(&DefaultIgnore::default(), &o).unwrap();
    assert!(decide("a//src/./main.go", &rules));
    assert!(!decide("main.go", &rules));
}

#[test]
fn glob_matches_whole_path_text() {
    let rules = default_rules();
    assert!(!decide("a/b/c/config.yaml", &rules));
    assert!(!decide(".prettierrc.js", &rules));
    assert!(decide("deep/dir/.prettierrc.js", &rules));
}

#[test]
fn literal_file_rule_matches_as_suffix() {
    let o = Overrides { ignore_files: Some(strings(&["docs/notes.md"])), ignore_dirs: None, include_files: None };
    let rules = resolve(&DefaultIgnore::default(), &o).unwrap();
    assert!(!decide("repo/docs/notes.md", &rules));
    assert!(decide("repo/other/notes.md", &rules));
}

#[test]
fn dir_rule_is_case_sensitive_and_exact() {
    let rules = default_rules();
    assert!(decide("src/Node_Modules/index.js", &rules));
    assert!(decide("src/node_modules_x/index.js", &rules));
    assert!(!decide("/home/u/.git/config.rs", &rules));
}

#[test]
fn decide_twice_gives_same_verdict() {
    let rules = default_rules();
    for p in ["src/app.log", "src/main.go", "x/.idea/a.rs"] {
        assert_eq!(decide(p, &rules), decide(p, &rules));
    }
}

#[test]
fn resolved_lists_put_defaults_first() {
    let o = Overrides {
        ignore_files: Some(strings(&["*.md"])),
        ignore_dirs: Some(strings(&["vendor"])),
        include_files: None,
    };
    let rules = resolve(&DefaultIgnore::default(), &o).unwrap();
    assert_eq!(rules.mode, Mode::IgnoreBased);
    assert_eq!(rules.ignore_files.len(), 42);
    assert_eq!(rules.ignore_files[41], "*.md");
    assert_eq!(rules.ignore_dirs, strings(&["node_modules", ".git", ".idea", ".vscode", "vendor"]));
    assert!(rules.include_paths.is_empty());
}

#[test]
fn github_url_edge_cases() {
    assert!(is_github_url("https://github.com/"));
    assert!(!is_github_url("https://github.com"));
    assert!(!is_github_url(""));
}

#[test]
fn deeply_nested_glob_never_panics() {
    for core in ["a", "*a", "x*y"] {
        let pattern = format!("{}{}{}", "{".repeat(300), core, "}".repeat(300));
        let o = Overrides { ignore_files: Some(vec![pattern.clone()]), ignore_dirs: None, include_files: None };
        match resolve(&DefaultIgnore::default(), &o) {
            Ok(rules) => {
                let _ = decide("src/a", &rules);
            }
            Err(ConfigError::InvalidGlob(p)) => assert_eq!(p, pattern),
            Err(ConfigError::ConflictingOptions) => panic!("no conflict was given"),
        }
    }
}

#[test]
fn first_malformed_glob_is_reported() {
    let o = Overrides { ignore_files: Some(strings(&["ok*", "a[b", "c[d"])), ignore_dirs: None, include_files: None };
    match should_include("src/main.go", &o, &DefaultIgnore::default()) {
        Err(ConfigError::InvalidGlob(p)) => assert_eq!(p, "a[b"),
        _ => panic!("expected an invalid glob"),
    }
}

#[test]
fn glob_over_brace_limit_is_refused() {
    for depth in [251usize, 1_000_000] {
        let pattern = format!("{}a{}", "{".repeat(depth), "}".repeat(depth));
        let o = Overrides { ignore_files: Some(vec![pattern.clone()]), ignore_dirs: None, include_files: None };
        match resolve(&DefaultIgnore::default(), &o) {
            Err(ConfigError::InvalidGlob(p)) => assert_eq!(p, pattern),
            _ => panic!("expected an invalid glob"),
        }
    }
}

#[test]
fn many_sibling_groups_within_limit_are_accepted() {
    let pattern = "{a,b}".repeat(250);
    let o = Overrides { ignore_files: Some(vec![pattern]), ignore_dirs: None, include_files: None };
    let rules = resolve(&DefaultIgnore::default(), &o).unwrap();
    assert!(decide("src/main.go", &rules));
}
