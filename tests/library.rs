use dotter::discover::{select_listed, select_manifests, DirEntry};
use dotter::error::DootError;
use dotter::install::{any_needs_home, plan_install, step_report, Plan, Step};
use dotter::manifest::Rules;
use dotter::package::{
    check_tag, new_manifest_path, package_dir, package_root, removal_target, DEFAULT_MANIFEST,
    DEFAULT_TAG,
};
use dotter::prompt::{answer_meaning, prompt_text, read_answer, RETRY_HINT};
use dotter::text::{contains_char, ends_with, join, replace_char};

fn strings(v: &[&str]) -> Vec<String> {
    v.iter().map(|s| s.to_string()).collect()
}

fn rules(sources: &[&str], targets: &[&str]) -> Rules {
    Rules {
        sources: strings(sources),
        targets: strings(targets),
        symlink: None,
        ask: None,
        debug: None,
    }
}

fn entry(path: &str, name: &str, is_dir: bool) -> DirEntry {
    DirEntry { path: path.to_string(), name: name.to_string(), is_dir }
}

fn pairs(plan: &Plan) -> Vec<(bool, String, String)> {
    match plan {
        Plan::Skipped => panic!("expected steps"),
        Plan::Run(steps) => steps
            .iter()
            .map(|s| match s {
                Step::Copy { source, target } => (false, source.clone(), target.clone()),
                Step::DryRun { source, target } => (true, source.clone(), target.clone()),
            })
            .collect(),
    }
}

#[test]
fn text_contains_char() {
    assert!(contains_char("vim.toml", '.'));
    assert!(!contains_char("vim", '.'));
    assert!(!contains_char("", '.'));
}

#[test]
fn text_ends_with() {
    assert!(ends_with("a.toml", ".toml"));
    assert!(ends_with(".toml", ".toml"));
    assert!(!ends_with("toml", ".toml"));
    assert!(!ends_with("a.toml.bak", ".toml"));
}

#[test]
fn text_replace_char() {
    assert_eq!(replace_char("~/.config/~x", '~', "/home/u"), "/home/u/.config//home/ux");
    assert_eq!(replace_char("plain", '~', "/home/u"), "plain");
    assert_eq!(replace_char("", '~', "/home/u"), "");
}

#[test]
fn text_join() {
    assert_eq!(join("/work/demo", "a.txt"), "/work/demo/a.txt");
    assert_eq!(join("/work/demo/", "a.txt"), "/work/demo/a.txt");
    assert_eq!(join("/work/demo", "/etc/x"), "/etc/x");
    assert_eq!(join("", "a.txt"), "a.txt");
}

#[test]
fn tag_with_dot_is_refused() {
    match check_tag("vim.toml") {
        Err(DootError::InvalidTag(t)) => assert_eq!(t, "vim.toml"),
        other => panic!("unexpected {:?}", other),
    }
    match new_manifest_path("a.b") {
        Err(DootError::InvalidTag(t)) => assert_eq!(t, "a.b"),
        other => panic!("unexpected {:?}", other),
    }
    assert!(check_tag("vim").is_ok());
}

#[test]
fn new_manifest_lies_in_package_dir() {
    assert_eq!(new_manifest_path("vim").unwrap(), "./vim/vim.toml");
    assert_eq!(new_manifest_path(DEFAULT_TAG).unwrap(), "./default/default.toml");
    assert_eq!(package_dir("vim"), "./vim");
    assert!(DEFAULT_MANIFEST.starts_with("[doot]\n"));
}

#[test]
fn package_root_joins_cwd_and_tag() {
    assert_eq!(package_root("/work", "demo"), "/work/demo");
}

#[test]
fn removal_only_when_confirmed() {
    assert_eq!(removal_target("vim", true), Some("./vim".to_string()));
    assert_eq!(removal_target("vim", false), None);
}

#[test]
fn discovery_keeps_manifest_files_in_order() {
    let entries = vec![
        entry("demo/b.toml", "b.toml", false),
        entry("demo/a.txt", "a.txt", false),
        entry("demo/sub.toml", "sub.toml", true),
        entry("demo/a.toml", "a.toml", false),
    ];
    assert_eq!(select_manifests(&entries), strings(&["demo/b.toml", "demo/a.toml"]));
    assert_eq!(
        select_listed(&entries),
        strings(&["demo/b.toml", "demo/sub.toml", "demo/a.toml"])
    );
    assert!(select_manifests(&Vec::new()).is_empty());
}

#[test]
fn prompt_shows_default_in_capitals() {
    assert_eq!(prompt_text("Install?", true), "Install? [Y, n]: ");
    assert_eq!(prompt_text("Remove?", false), "Remove? [y, N]: ");
    assert_eq!(RETRY_HINT, "Please use 'y', or 'n'!");
}

#[test]
fn answers_are_read() {
    assert_eq!(answer_meaning("", true), Some(true));
    assert_eq!(answer_meaning("", false), Some(false));
    assert_eq!(answer_meaning("y", false), Some(true));
    assert_eq!(answer_meaning("Y", false), Some(true));
    assert_eq!(answer_meaning("n", true), Some(false));
    assert_eq!(answer_meaning("N", true), Some(false));
    assert_eq!(answer_meaning("yes", true), None);
    assert_eq!(answer_meaning("x", true), None);
}

#[test]
fn answer_lines_are_trimmed() {
    assert_eq!(read_answer("  Y \n", false), Some(true));
    assert_eq!(read_answer("\tn\r\n", true), Some(false));
    assert_eq!(read_answer("\n", false), Some(false));
    assert_eq!(read_answer("   \n", true), Some(true));
    assert_eq!(read_answer(" maybe \n", true), None);
}

#[test]
fn rule_flags_default() {
    let mut r = rules(&["a"], &["b"]);
    assert!(r.asks());
    assert!(!r.is_debug());
    assert!(!r.wants_symlink());
    r.ask = Some(false);
    r.debug = Some(true);
    r.symlink = Some(true);
    assert!(!r.asks());
    assert!(r.is_debug());
    assert!(r.wants_symlink());
}

#[test]
fn declined_install_is_skipped() {
    let r = rules(&["a", "b"], &["c"]);
    assert!(matches!(plan_install(&r, "/w", false, &None), Ok(Plan::Skipped)));
}

#[test]
fn count_mismatch_reports_both_counts() {
    let r = rules(&["a", "b"], &["c"]);
    match plan_install(&r, "/w", true, &None) {
        Err(DootError::RuleCountMismatch { sources, targets }) => {
            assert_eq!((sources, targets), (2, 1))
        }
        other => panic!("unexpected {:?}", other),
    }
}

#[test]
fn empty_rules_are_refused() {
    let r = rules(&[], &[]);
    assert!(matches!(plan_install(&r, "/w", true, &None), Err(DootError::EmptyRuleSet)));
}

#[test]
fn symlink_is_not_implemented() {
    let mut r = rules(&["a"], &["b"]);
    r.symlink = Some(true);
    assert!(matches!(plan_install(&r, "/w", true, &None), Err(DootError::NotImplemented)));
}

#[test]
fn tilde_without_home_is_refused() {
    let r = rules(&["a", "b"], &["x", "~/.b"]);
    assert!(any_needs_home(&r.targets));
    assert!(matches!(plan_install(&r, "/w", true, &None), Err(DootError::HomeUnset)));
    let plain = rules(&["a"], &["x"]);
    assert!(!any_needs_home(&plain.targets));
    assert!(plan_install(&plain, "/w", true, &None).is_ok());
}

#[test]
fn tilde_becomes_home() {
    let r = rules(&["vimrc"], &["~/.vimrc"]);
    let plan = plan_install(&r, "/w/vim", true, &Some("/home/u".to_string())).unwrap();
    assert_eq!(
        pairs(&plan),
        vec![(false, "/w/vim/vimrc".to_string(), "/home/u/.vimrc".to_string())]
    );
}

#[test]
fn debug_plan_only_reports() {
    let mut r = rules(&["a", "b", "c"], &["x", "y", "z"]);
    r.debug = Some(true);
    let plan = plan_install(&r, "/w", true, &None).unwrap();
    assert_eq!(
        pairs(&plan),
        vec![
            (true, "/w/a".to_string(), "/w/x".to_string()),
            (true, "/w/b".to_string(), "/w/y".to_string()),
            (true, "/w/c".to_string(), "/w/z".to_string()),
        ]
    );
}

#[test]
fn step_reports() {
    assert_eq!(step_report(true, "/s", "/t"), "DEBUG: /s -> /t");
    assert_eq!(step_report(false, "/s", "/t"), "COPY: /s -> /t");
}

#[test]
fn demo_package_installs_without_prompt() {
    let mut r = rules(&["a.txt", "b.txt"], &["out/a.txt", "out/b.txt"]);
    r.ask = Some(false);
    assert!(!r.asks());
    let root = package_root("/work", "demo");
    let plan = plan_install(&r, &root, true, &None).unwrap();
    assert_eq!(
        pairs(&plan),
        vec![
            (false, "/work/demo/a.txt".to_string(), "/work/demo/out/a.txt".to_string()),
            (false, "/work/demo/b.txt".to_string(), "/work/demo/out/b.txt".to_string()),
        ]
    );
}
