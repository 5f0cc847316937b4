use devme_tui::worktree::{
    add_args, add_worktree, created_message, default_dir_name, destination, discovered,
    docker_to_start, git_ahead_behind, git_branch, git_common_dir, git_failure, hook_unresolved, hook_values,
    label_for,
    list_worktrees, list_worktrees_detailed, main_root, mentions_devme_toml, on_create_to_run,
    remove_args, removed_message, resolve_target, shutdown_shared_if_last, slot_for_cwd,
    spawn_order, worktree_report, AddReport, KnownPaths, Removal, RemovalStep, TargetError,
    WorktreeEvent, WorktreeMeta,
};

const LISTING: &str = "worktree /tmp/wt/main\nHEAD 0123\nbranch refs/heads/main\n\n\
                       worktree /tmp/wt/linked\nHEAD 0123\nbranch refs/heads/feature/foo\n\n";

fn both() -> Vec<WorktreeMeta> {
    list_worktrees_detailed(Some(LISTING))
}

#[test]
fn list_worktrees_returns_cwd_for_non_git_dir() {
    let wts = list_worktrees("/tmp/nowhere", None);
    assert_eq!(wts.len(), 1);
    assert_eq!(wts[0].path, "/tmp/nowhere");
}

#[test]
fn list_worktrees_finds_main_and_linked_worktrees() {
    let wts = list_worktrees("/tmp/wt/main", Some(LISTING));
    let paths: Vec<&str> = wts.iter().map(|w| w.path.as_str()).collect();
    assert!(paths.contains(&"/tmp/wt/main"), "missing main: {paths:?}");
    assert!(paths.contains(&"/tmp/wt/linked"), "missing linked: {paths:?}");
}

#[test]
fn detailed_listing_reads_branches() {
    let wts = both();
    assert_eq!(wts.len(), 2);
    assert_eq!(wts[0].branch.as_deref(), Some("main"));
    assert!(wts[0].is_main);
    assert_eq!(wts[1].branch.as_deref(), Some("feature/foo"));
    assert!(!wts[1].is_main);
    let detached = list_worktrees_detailed(Some("worktree /a\nHEAD 1\ndetached\n"));
    assert_eq!(detached[0].branch, None);
    assert!(list_worktrees_detailed(None).is_empty());
    assert_eq!(main_root(&wts).as_deref(), Some("/tmp/wt/main"));
    assert_eq!(main_root(&vec![]), None);
}

#[test]
fn resolve_target_matches_by_name_then_branch() {
    let wts = both();
    let linked = "/tmp/wt/linked";

    // by directory name
    let by_dir = resolve_target(&wts, "linked", None).unwrap();
    assert_eq!(by_dir.path, linked);
    assert!(!by_dir.is_main);
    // by full branch name
    assert_eq!(resolve_target(&wts, "feature/foo", None).unwrap().path, linked);
    // by branch tail
    assert_eq!(resolve_target(&wts, "foo", None).unwrap().path, linked);
    // no match
    assert!(resolve_target(&wts, "does-not-exist", None).is_err());
}

#[test]
fn targets_that_name_no_single_worktree_are_refused() {
    let wts = both();
    assert_eq!(
        resolve_target(&wts, "../x", Some("/tmp/wt/linked")).unwrap().path,
        "/tmp/wt/linked"
    );
    let none = resolve_target(&vec![], "x", None).unwrap_err();
    assert_eq!(none, TargetError::NoWorktrees);
    assert_eq!(none.message("x"), "no git worktrees found (is this a git repo?)");
    let missing = resolve_target(&wts, "x", None).unwrap_err();
    assert_eq!(missing, TargetError::NoMatch);
    assert_eq!(
        missing.message("x"),
        "no worktree matches 'x' (try a path, directory name, or branch)"
    );
    let twice = list_worktrees_detailed(Some(
        "worktree /a/x\nbranch refs/heads/b\n\nworktree /b/x\nbranch refs/heads/c\n",
    ));
    let many = resolve_target(&twice, "x", None).unwrap_err();
    assert_eq!(many, TargetError::Ambiguous(vec!["/a/x".into(), "/b/x".into()]));
    assert_eq!(many.message("x"), "'x' is ambiguous — matches: /a/x, /b/x");
}

#[test]
fn remove_worktree_runs_on_destroy_then_removes() {
    let mut removal = Removal::begin(&both(), "linked", None, "/tmp/wt/main").unwrap();
    assert_eq!(removal.path(), "/tmp/wt/linked");
    assert_eq!(removal.step(), RemovalStep::ResolveHook);
    removal.hook_resolved(None, Ok(Some("touch destroyed.marker".into())));
    assert_eq!(removal.step(), RemovalStep::StopInstance);
    removal.instance_stopped(false);
    assert_eq!(removal.step(), RemovalStep::RemoveWorktree);
    removal.worktree_removed(None);
    assert_eq!(removal.step(), RemovalStep::ReleaseSlot);
    removal.slot_released();
    assert_eq!(removal.step(), RemovalStep::RunHook);
    // The hook runs where the worktree's files no longer matter.
    assert_eq!(removal.hook(), Some(("touch destroyed.marker", "/tmp/wt/main")));
    assert!(removal.report().is_none());
    removal.hook_finished(true);
    assert_eq!(removal.step(), RemovalStep::Done);
    let report = removal.report().unwrap();
    assert_eq!(report.on_destroy_ran, Some(true));
    assert!(!report.instance_stopped, "no daemon was running");
    assert_eq!(report.branch.as_deref(), Some("feature/foo"));
    assert_eq!(removed_message(&report), "removed /tmp/wt/linked — branch feature/foo kept");
}

#[test]
fn a_worktree_without_a_hook_is_done_when_released() {
    let mut removal = Removal::begin(&both(), "foo", None, "/x").unwrap();
    removal.hook_resolved(Some(3), Ok(None));
    removal.instance_stopped(true);
    removal.worktree_removed(None);
    removal.slot_released();
    let report = removal.report().unwrap();
    assert_eq!(report.slot, Some(3));
    assert!(report.instance_stopped);
    assert_eq!(report.on_destroy_ran, None);
}

#[test]
fn a_failed_removal_never_runs_the_hook() {
    let mut removal = Removal::begin(&both(), "foo", None, "/x").unwrap();
    removal.hook_resolved(Some(3), Ok(Some("dropdb slot3".into())));
    removal.instance_stopped(true);
    removal.worktree_removed(Some("fatal: dirty\n"));
    assert_eq!(removal.step(), RemovalStep::Failed);
    assert_eq!(removal.error(), Some("git worktree remove failed: fatal: dirty"));
    assert!(removal.report().is_none());
}

#[test]
fn remove_worktree_refuses_main_worktree() {
    let err = match Removal::begin(&both(), "main", None, "/tmp/wt/main") {
        Ok(_) => panic!("began"),
        Err(e) => e,
    };
    assert!(err.contains("main worktree"), "got: {err}");
    assert_eq!(err, "refusing to remove the main worktree (/tmp/wt/main)");
    assert!(Removal::begin(&both(), "nope", None, "/x").is_err());
}

#[test]
fn remove_worktree_fails_closed_when_slot_unresolved() {
    let mut removal = Removal::begin(&both(), "linked", None, "/tmp/wt/main").unwrap();
    assert_eq!(hook_values(removal.path(), None, Some("b")).len(), 2);
    let unresolved = hook_unresolved(removal.path(), "unknown name slot");
    removal.hook_resolved(None, Err(unresolved));
    assert_eq!(removal.step(), RemovalStep::Failed);
    let err = removal.error().unwrap();
    assert!(err.contains("on_destroy"), "got: {err}");
    assert!(err.starts_with(
        "cannot resolve on_destroy for /tmp/wt/linked: unknown name slot\n(hint: {slot} needs"
    ));
    assert_eq!(
        hook_values("/w", Some(3), None),
        [
            ("worktree".to_string(), "/w".to_string()),
            ("branch".to_string(), String::new()),
            ("slot".to_string(), "3".to_string()),
        ]
    );
    assert!(removal.report().is_none());
}

#[test]
fn git_output_is_read() {
    assert_eq!(git_branch(Some("main\n")).as_deref(), Some("main"));
    assert_eq!(git_branch(Some("HEAD\n")), None);
    assert_eq!(git_branch(Some(" \n")), None);
    assert_eq!(git_branch(None), None);
    assert_eq!(git_ahead_behind(Some("2\t5\n")), Some((5, 2)));
    assert_eq!(git_ahead_behind(Some("2\n")), None);
    assert_eq!(git_ahead_behind(Some("x 5")), None);
    assert_eq!(git_ahead_behind(Some("99999999999999999999 5")), None);
    assert_eq!(git_ahead_behind(None), None);
    assert_eq!(git_common_dir(Some(".git\n"), "/repo").as_deref(), Some("/repo/.git"));
    assert_eq!(git_common_dir(Some("/main/.git\n"), "/repo").as_deref(), Some("/main/.git"));
    assert_eq!(git_common_dir(Some(""), "/repo"), None);
    assert_eq!(git_failure("add", " \n"), "git worktree add failed: (no stderr)");
}

#[test]
fn labels_prefer_the_branch() {
    assert_eq!(label_for("/tmp/x", Some("dev")), "dev");
    assert_eq!(label_for("/tmp/x", None), "x");
    assert_eq!(
        discovered("id", "/tmp/x", None),
        WorktreeEvent::Discovered { id: "id".into(), label: "x".into(), cwd: "/tmp/x".into() }
    );
    let meta = WorktreeMeta { path: "/tmp/x".into(), branch: None, is_main: false };
    let here = worktree_report(&meta, "/tmp/x", Some(2), Some(vec![]));
    assert!(here.is_cwd);
    assert_eq!(here.label, "x");
    let there = worktree_report(&meta, "/tmp/y", None, Some(vec![]));
    let gone = worktree_report(&meta, "/tmp/y", None, None);
    assert!(shutdown_shared_if_last(&vec![here, gone]));
    assert!(!shutdown_shared_if_last(&vec![there]));
}

#[test]
fn the_home_worktree_starts_first() {
    let paths = vec!["/b".to_string(), "/a".to_string(), "/home".to_string()];
    assert_eq!(spawn_order(&paths, "/home"), ["/home", "/a", "/b"]);
    assert_eq!(spawn_order(&paths, "/none"), ["/a", "/b", "/home"]);
}

#[test]
fn rescans_announce_a_path_once() {
    let mut known = KnownPaths::new();
    assert!(known.note("/a"));
    assert!(!known.note("/a"));
    assert!(known.note("/b"));
    assert!(mentions_devme_toml(&vec!["/a/x".into(), "/a/devme.toml".into()]));
    assert!(!mentions_devme_toml(&vec!["/a/devme.toml.bak".into()]));
    assert_eq!(slot_for_cwd(&vec![("x".into(), 1), ("y".into(), 2)], "y"), Some(2));
    assert_eq!(slot_for_cwd(&vec![("x".into(), 1)], "z"), None);
}

#[test]
fn hooks_and_docker_run_when_due() {
    assert_eq!(on_create_to_run(false, Some("make")).as_deref(), Some("make"));
    assert_eq!(on_create_to_run(true, Some("make")), None);
    assert_eq!(docker_to_start(true, false, Some("colima")).as_deref(), Some("colima"));
    assert_eq!(docker_to_start(true, true, Some("colima")), None);
    assert_eq!(docker_to_start(false, false, Some("colima")), None);
}

#[test]
fn adding_a_worktree_picks_branch_and_place() {
    assert_eq!(default_dir_name(Some("repo"), "feature/foo"), "repo-foo");
    assert_eq!(default_dir_name(None, "x"), "worktree-x");
    assert_eq!(destination("/c", "/p/repo", "feature/foo", None), "/p/repo-foo");
    assert_eq!(destination("/c", "/p//repo/./", "feature/foo", None), "/p/repo-foo");
    assert_eq!(destination("/c", "/repo", "x", None), "/repo-x");
    assert_eq!(destination("/c", "repo", "x", None), "repo-x");
    assert_eq!(destination("/c", "./repo", "x", None), "./repo-x");
    assert_eq!(destination("/c", "/", "x", None), "/worktree-x");
    assert_eq!(destination("/c", "/p/..", "x", None), "/p/worktree-x");
    assert_eq!(destination("/c", "/p/repo", "x", Some("d")), "/c/d");
    assert_eq!(destination("/c", "/p/repo", "x", Some("/d")), "/d");
    assert_eq!(add_args(true, "b", "/p"), ["worktree", "add", "-b", "b", "/p"]);
    assert_eq!(add_args(false, "b", "/p"), ["worktree", "add", "/p", "b"]);
    assert_eq!(remove_args(true, "/p"), ["worktree", "remove", "--force", "/p"]);
    assert_eq!(remove_args(false, "/p"), ["worktree", "remove", "/p"]);
    assert!(add_worktree("/p", false, "b", false).unwrap().1);
    assert_eq!(
        add_worktree("/p", true, "b", true).unwrap_err(),
        "destination already exists: /p"
    );
    let report = AddReport {
        path: "/p".into(),
        branch: "b".into(),
        created_branch: true,
        on_create_ran: false,
    };
    assert_eq!(created_message(&report), "created /p on b");
}

#[test]
fn paths_are_told_apart_by_their_components() {
    let meta = |path: &str| WorktreeMeta {
        path: path.to_string(),
        branch: None,
        is_main: false,
    };
    assert!(worktree_report(&meta("/w/a/"), "/w/a", None, None).is_cwd);
    assert!(worktree_report(&meta("/w//./a"), "/w/a", None, None).is_cwd);
    assert!(!worktree_report(&meta("/w/a"), "w/a", None, None).is_cwd);
    assert!(!worktree_report(&meta("./w/a"), "w/a", None, None).is_cwd);
    assert!(!worktree_report(&meta("/w/a/.."), "/w", None, None).is_cwd);

    let wts = vec![meta("/w/a/"), meta("/w/b")];
    assert_eq!(resolve_target(&wts, "x", Some("/w/a")).unwrap().path, "/w/a/");

    let mut known = KnownPaths::new();
    assert!(known.note("/w/a"));
    assert!(!known.note("/w/a/"));
    assert!(known.note("/w/ab"));
}
