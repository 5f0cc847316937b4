use devme_tui::home::{
    already_running, HomeState, RecentResult, RunPlan, TaskDef, TaskKind, TaskUpdate,
};

fn task(name: &str, kind: TaskKind) -> TaskDef {
    TaskDef { name: name.to_string(), description: None, kind }
}

#[test]
fn actions_group_run_then_check_then_utility() {
    let tasks = vec![
        task("z", TaskKind::Utility),
        task("verify", TaskKind::Check),
        task("ios", TaskKind::Launch),
    ];
    let home = HomeState::from_stack(&tasks, vec![]);
    assert_eq!(
        home.actions
            .iter()
            .map(|a| a.task.as_str())
            .collect::<Vec<_>>(),
        ["ios", "verify", "z"]
    );
}

#[test]
fn launch_history_never_claims_runtime_observation() {
    let result = RecentResult {
        task: "ios".into(),
        kind: TaskKind::Launch,
        status: "passed".into(),
        finished_at: 1,
    };
    assert_eq!(result.wording(), "last launch succeeded");
}

#[test]
fn root_workspace_labels_keep_member_names() {
    let tasks = vec![
        task("backend::launch", TaskKind::Launch),
        task("backend::test", TaskKind::Check),
        task("ios::e2e", TaskKind::Check),
        task("android::e2e", TaskKind::Check),
    ];

    let home = HomeState::from_stack(&tasks, vec![]);
    assert_eq!(
        home.actions
            .iter()
            .map(|action| action.label.as_str())
            .collect::<Vec<_>>(),
        ["backend launch", "backend test", "ios e2e", "android e2e"]
    );
}

#[test]
fn member_workspace_labels_remove_only_the_focused_namespace() {
    let tasks = vec![
        task("ios::simulator", TaskKind::Launch),
        task("ios::test", TaskKind::Check),
    ];

    let home = HomeState::from_stack_with_member_focus(&tasks, Some("ios"), vec![]);
    assert_eq!(
        home.actions
            .iter()
            .map(|action| action.label.as_str())
            .collect::<Vec<_>>(),
        ["simulator", "test"]
    );
    assert_eq!(home.task_label("ios::device-e2e"), "device e2e");
}

#[test]
fn recent_results_keep_only_the_latest_run_per_task() {
    let tasks = vec![task("simulator", TaskKind::Utility)];
    let result = |task: &str, finished_at| RecentResult {
        task: task.to_string(),
        kind: TaskKind::Launch,
        status: "passed".into(),
        finished_at,
    };
    let mut home = HomeState::from_stack(
        &tasks,
        vec![
            result("simulator", 1),
            result("test", 2),
            result("simulator", 3),
        ],
    );

    assert_eq!(
        home.recent
            .iter()
            .map(|recent| (recent.task.as_str(), recent.finished_at))
            .collect::<Vec<_>>(),
        [("test", 2), ("simulator", 3)]
    );

    home.record_result(result("test", 4));
    assert_eq!(
        home.recent
            .iter()
            .map(|recent| (recent.task.as_str(), recent.finished_at))
            .collect::<Vec<_>>(),
        [("simulator", 3), ("test", 4)]
    );
}

#[test]
fn only_five_results_stay() {
    let mut home = HomeState::from_stack(&vec![], vec![]);
    for i in 0..7u64 {
        home.record_result(RecentResult {
            task: format!("t{i}"),
            kind: TaskKind::Check,
            status: "failed".into(),
            finished_at: i,
        });
    }
    let tasks: Vec<&str> = home.recent.iter().map(|r| r.task.as_str()).collect();
    assert_eq!(tasks, ["t2", "t3", "t4", "t5", "t6"]);
}

#[test]
fn selection_wraps_both_ways() {
    let tasks = vec![task("a", TaskKind::Launch), task("b", TaskKind::Launch)];
    let mut home = HomeState::from_stack(&tasks, vec![]);
    assert_eq!(home.selected_task(), Some("a".to_string()));
    home.move_previous();
    assert_eq!(home.selected_task(), Some("b".to_string()));
    home.move_next();
    assert_eq!(home.selected_task(), Some("a".to_string()));
    let mut empty = HomeState::from_stack(&vec![], vec![]);
    empty.move_next();
    empty.move_previous();
    assert_eq!(empty.selected_task(), None);
}

#[test]
fn statuses_read_in_words() {
    let with = |kind, status: &str| {
        RecentResult { task: "t".into(), kind, status: status.into(), finished_at: 0 }.wording()
    };
    assert_eq!(with(TaskKind::Check, "cancelled"), "last check cancelled");
    assert_eq!(with(TaskKind::Utility, "timed_out"), "last run timed out");
    assert_eq!(with(TaskKind::Utility, "boom"), "last run failed");
}

#[test]
fn tasks_run_one_after_the_other() {
    let task = |name: &str, kind| TaskDef { name: name.into(), description: None, kind };
    let tasks = vec![task("lint", TaskKind::Check), task("app", TaskKind::Launch)];
    let mut home = HomeState::from_stack(&tasks, vec![]);
    assert_eq!(home.begin_selected(false), RunPlan::Idle);
    assert_eq!(home.running, None);

    home.logs = vec!["old".into()];
    let run = RunPlan::Run { task: "app".into(), kind: TaskKind::Launch };
    assert_eq!(home.begin_selected(true), run);
    assert_eq!(home.running.as_deref(), Some("app"));
    assert!(home.logs.is_empty());

    home.move_next();
    assert!(!home.update(TaskUpdate::Output("building".into())));
    assert!(!home.update(TaskUpdate::Progress("half way".into())));
    assert_eq!(home.begin_selected(true), RunPlan::Busy("app".into()));
    assert_eq!(home.begin_selected(false), RunPlan::Busy("app".into()));
    assert_eq!(home.logs, vec!["building".to_string(), "half way".to_string()]);
    assert_eq!(already_running("main", "app"), "main / app is already running");

    let result = RecentResult {
        task: "app".into(),
        kind: TaskKind::Launch,
        status: "passed".into(),
        finished_at: 7,
    };
    assert!(home.update(TaskUpdate::Finished(result)));
    assert_eq!(home.running, None);
    assert_eq!(home.recent.len(), 1);
    assert_eq!(home.logs.len(), 2);
    assert_eq!(
        home.begin_selected(true),
        RunPlan::Run { task: "lint".into(), kind: TaskKind::Check }
    );

    let mut empty = HomeState::from_stack(&vec![], vec![]);
    assert_eq!(empty.begin_selected(true), RunPlan::Idle);
}
