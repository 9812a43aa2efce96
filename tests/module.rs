use zotfile::{
    position_of,
    get_text, module_config_path, target_config_path, AfterCommitHook, Config, ConfigTree, ErrorKind, HostConfig, Module, OpenOutcome,
    RepoConfig, SyncAction,
};

fn table(entries: Vec<(&str, ConfigTree)>) -> ConfigTree {
    ConfigTree::Table(entries.into_iter().map(|(k, v)| (k.to_string(), v)).collect())
}

fn text(s: &str) -> ConfigTree {
    ConfigTree::Str(s.to_string())
}

fn host() -> HostConfig {
    HostConfig::default("alice", "box", "GNU/Linux")
}

#[test]
fn paths() {
    assert_eq!(target_config_path("manjaro"), "targets/manjaro.toml");
    assert_eq!(module_config_path("git"), "modules/git/config.toml");
    let m = Module::new("shell", None, host(), None);
    assert_eq!(m.config_path(), "modules/shell/config.toml");
    assert_eq!(m.templates_dir(), "modules/shell/templates/");
}

#[test]
fn no_module_config_means_no_repos_or_hooks() {
    let m = Module::new("shell", None, host(), None);
    assert!(m.repos().unwrap().is_empty());
    assert!(m.after_commit_hooks().unwrap().is_empty());
    let m = Module::new("shell", None, host(), Some(table(vec![("repos", text("nope"))])));
    assert!(m.repos().unwrap().is_empty());
}

#[test]
fn repos_are_read() {
    let cfg = table(vec![(
        "repos",
        ConfigTree::Array(vec![
            table(vec![("path", text("vendor/a")), ("url", text("https://example.com/a.git"))]),
            table(vec![("path", text("vendor/b")), ("url", text("https://example.com/b.git")), ("sha", text("abc123"))]),
        ]),
    )]);
    let m = Module::new("shell", None, host(), Some(cfg));
    let repos = m.repos().unwrap();
    assert_eq!(repos.len(), 2);
    assert_eq!(repos[0].path(), "vendor/a");
    assert_eq!(repos[0].url(), "https://example.com/a.git");
    assert_eq!(repos[0].sha(), None);
    assert_eq!(repos[1].sha(), Some("abc123"));
}

#[test]
fn malformed_repo_is_an_error() {
    let cfg = table(vec![("repos", ConfigTree::Array(vec![table(vec![("path", text("vendor/a"))])]))]);
    let m = Module::new("shell", None, host(), Some(cfg));
    let e = m.repos().unwrap_err();
    assert!(matches!(e.kind(), ErrorKind::Malformed(k) if k == "repos"));
    let bad_sha = table(vec![("path", text("p")), ("url", text("u")), ("sha", ConfigTree::Integer(1))]);
    assert!(RepoConfig::from_config(&bad_sha).is_err());
}

#[test]
fn sync_fetches_existing_repository() {
    let repo = RepoConfig::new("vendor/a".to_string(), "https://example.com/a.git".to_string(), None);
    match repo.sync_action(OpenOutcome::Opened).unwrap() {
        SyncAction::Fetch { remote, branch } => {
            assert_eq!(remote, "origin");
            assert_eq!(branch, "master");
        }
        other => panic!("unexpected {:?}", other),
    }
}

#[test]
fn sync_clones_missing_repository() {
    let repo = RepoConfig::new("vendor/a".to_string(), "https://example.com/a.git".to_string(), Some("abc".to_string()));
    match repo.sync_action(OpenOutcome::NotFound).unwrap() {
        SyncAction::Clone { url, path } => {
            assert_eq!(url, "https://example.com/a.git");
            assert_eq!(path, "vendor/a");
        }
        other => panic!("unexpected {:?}", other),
    }
}

#[test]
fn sync_fails_on_other_open_errors() {
    let repo = RepoConfig::new("p".to_string(), "u".to_string(), None);
    let e = repo.sync_action(OpenOutcome::Failed("corrupt".to_string())).unwrap_err();
    assert!(matches!(e.kind(), ErrorKind::Git(m) if m == "corrupt"));
}

#[test]
fn hooks_are_read_and_split() {
    let cfg = table(vec![(
        "after_commit",
        ConfigTree::Array(vec![
            table(vec![("shell", text("nvim +PlugUpdate +qa"))]),
            table(vec![]),
            table(vec![("shell", text("a  b"))]),
            table(vec![("shell", text(""))]),
        ]),
    )]);
    let m = Module::new("editor", None, host(), Some(cfg));
    let hooks = m.after_commit_hooks().unwrap();
    assert_eq!(hooks.len(), 4);
    assert_eq!(hooks[0].command().unwrap(), vec!["nvim", "+PlugUpdate", "+qa"]);
    assert!(hooks[1].command().is_none());
    assert_eq!(hooks[2].command().unwrap(), vec!["a", "", "b"]);
    assert!(hooks[3].command().is_none());
    assert_eq!(AfterCommitHook::new(Some("ls".to_string())).command().unwrap(), vec!["ls"]);
}

#[test]
fn malformed_hook_is_an_error() {
    let cfg = table(vec![("after_commit", ConfigTree::Array(vec![table(vec![("shell", ConfigTree::Boolean(true))])]))]);
    let m = Module::new("editor", None, host(), Some(cfg));
    assert!(matches!(m.after_commit_hooks().unwrap_err().kind(), ErrorKind::Malformed(k) if k == "after_commit"));
}

#[test]
fn module_templates_share_its_scopes() {
    let target: Config = Some(table(vec![("clipboard", text("xclip"))]));
    let m = Module::new("shell", target, host(), Some(table(vec![("alias", text("ll"))])));
    let fm = m.render_frontmatter("target_path = \"/home/{{host.username}}/.{{module.alias}}\"\n").unwrap();
    assert_eq!(fm, "target_path = \"/home/alice/.ll\"\n");
    let t = m.template("{{module.alias}} | {{copy_command}}\n", Some(table(vec![("target_path", text("/x"))])));
    assert_eq!(t.render().unwrap(), "ll | xclip -i -selection clipboard\n");
    assert_eq!(t.target_path(), Some("/x"));
}

#[test]
fn lookups_take_the_first_matching_key() {
    let c: Config = Some(table(vec![("k", text("one")), ("k", text("two"))]));
    assert_eq!(get_text(&c, "k"), Some("one"));
    assert_eq!(get_text(&c, "missing"), None);
    assert_eq!(get_text(&None, "k"), None);
    let nested = table(vec![("t", table(vec![]))]);
    assert!(nested.get("t").is_some());
    assert!(nested.get("t").unwrap().as_str().is_none());
}

#[test]
fn positions_count_characters() {
    assert_eq!(position_of("a = 1\nb = ?", 10), (1, 4));
    assert_eq!(position_of("", 0), (0, 0));
    assert_eq!(position_of("é = x\n", 4), (0, 3));
    assert_eq!(position_of("é", 1), (0, 0));
    assert_eq!(position_of("ab\n", 100), (1, 0));
}

#[test]
fn well_formed_tables_have_distinct_keys() {
    assert!(table(vec![("a", text("1")), ("b", ConfigTree::Array(vec![table(vec![("c", text("2"))])]))]).is_well_formed());
    assert!(!table(vec![("a", text("1")), ("a", text("2"))]).is_well_formed());
    assert!(!ConfigTree::Array(vec![table(vec![("k", text("1")), ("k", text("1"))])]).is_well_formed());
    assert!(text("x").is_well_formed());
}
