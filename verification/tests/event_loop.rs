use std::time::Instant;

use devme_tui::codec::{decode_payload, encode_payload};
use devme_tui::config::GlobalConfig;
use devme_tui::event_loop::clipboard::{
    copy_native, copy_to_clipboard, is_wsl, osc52, prefer_osc52, CopyStep,
};
use devme_tui::event_loop::keys::{
    dispatch, mode, Command, LogCommand, Mode, OuterCommand, OverlayCommand, SelectCommand,
    ServiceCommand, SessionCommand, Surround, TaskApproval,
};
use devme_tui::event_loop::perform::{copied_lines_msg, Effect, Request, Setup};
use devme_tui::event_loop::pointer::{
    disable_mouse, enable_mouse, handle_mouse_at, pointer_shape_at, reshape, set_pointer_shape, MouseEvent,
    MouseKind, PointerEffect, PointerShape,
};
use devme_tui::event_loop::prompt::build_debug_prompt;
use devme_tui::event_loop::session::{
    perform, remediated_at, run_port_remediation, setting_persisted_at, url_opened_at, Remedied,
};
use devme_tui::event_loop::startup::{
    absorb_at, fetches_prs, initial_start_message, push_task_line, select_home,
    try_open_worktree_remove_at, Started, StartupRailChoice,
};
use devme_tui::event_loop::urls::resolve_service_url;
use devme_tui::keymap::{KeyCode, KeyEvent};
use devme_tui::protocol::{
    ClientMessage, Holder, InstanceInfo, ServerMessage, ServiceSnapshot, ServiceState,
    StepSnapshot, StepState,
};
use devme_tui::state::settings::SettingWrite;
use devme_tui::state::skill::SkillJob;
use devme_tui::state::{ClickTarget, PortConflictAction, ToastKind, TuiState};

fn running(name: &str) -> ServiceSnapshot {
    ServiceSnapshot {
        name: name.into(),
        state: ServiceState::Running { degraded: false, started_without: vec![] },
        pid: None,
        port: None,
        url: None,
        restart_count: 0,
    }
}

fn info(id: &str) -> InstanceInfo {
    InstanceInfo { id: id.into(), label: id.into(), cwd: "/tmp".into() }
}

fn subscribed(id: &str, services: Vec<ServiceSnapshot>) -> ServerMessage {
    ServerMessage::Subscribed { instance: info(id), services, steps: vec![] }
}

fn with_services(services: Vec<ServiceSnapshot>) -> TuiState {
    let mut state = TuiState::default();
    state.apply(subscribed("inst", services));
    state
}

fn nothing_around() -> Surround {
    Surround {
        approval: false,
        panel: false,
        running: false,
        worktree_remove: false,
        worktree_add: false,
        stack_info: false,
    }
}

fn setup() -> Setup {
    Setup { no_shutdown: false, cwd_known: true }
}

fn key(code: KeyCode) -> KeyEvent {
    KeyEvent { code, ctrl: false }
}

fn press(state: &mut TuiState, code: KeyCode) -> Effect {
    let m = mode(state, nothing_around());
    let c = dispatch(m, nothing_around(), key(code));
    perform(state, c, setup())
}

fn ch(c: char) -> KeyCode {
    KeyCode::Char(c)
}

fn last_toast(state: &TuiState) -> (ToastKind, String, String) {
    let t = state.toasts().last().unwrap();
    (t.kind, t.title.clone(), t.body.clone())
}

#[test]
fn debug_prompt_includes_shared_services_on_a_placeholder_stack() {
    let mut state = TuiState::default();
    state.apply(ServerMessage::Subscribed {
        instance: InstanceInfo {
            id: "shared::repo".into(),
            label: "shared".into(),
            cwd: "/tmp/a".into(),
        },
        services: vec![running("proxy"), running("postgres")],
        steps: vec![],
    });
    state.add_placeholder_instance("inst", "feature/x", "/tmp");

    let prompt = build_debug_prompt(&state, false, None);
    // The owned side is empty, but the shared deps are folded in (flagged).
    assert!(prompt.contains("No devme.toml"), "{prompt}");
    assert!(prompt.contains("**proxy** (shared)"), "shared service missing:\n{prompt}");
    assert!(prompt.contains("**postgres** (shared)"), "shared service missing:\n{prompt}");
}

#[test]
fn empty_home_targets_attach_without_starting_any_services() {
    assert_eq!(
        initial_start_message(true, Some(&vec![])),
        ClientMessage::StartTargets { services: Vec::new() }
    );
}

#[test]
fn explicit_action_intent_overrides_the_warm_start_default() {
    let mut startup = StartupRailChoice::new(true);
    startup.user_chose_rail();

    assert!(!startup.take_for_subscription(true));
}

#[test]
fn unrelated_input_leaves_the_warm_start_default_pending() {
    let mut startup = StartupRailChoice::new(true);

    assert!(startup.take_for_subscription(true));
    assert!(!startup.take_for_subscription(true));
}

#[test]
fn a_full_debug_prompt_reads_as_written() {
    let mut state = TuiState::default();
    state.apply(ServerMessage::Subscribed {
        instance: InstanceInfo { id: "a".into(), label: "main".into(), cwd: "/repo".into() },
        services: vec![ServiceSnapshot {
            state: ServiceState::Running {
                degraded: true,
                started_without: vec!["d\"b".into(), "x".into()],
            },
            pid: Some(7),
            port: Some(80),
            restart_count: 2,
            ..running("api")
        }],
        steps: vec![
            StepSnapshot { name: "uv".into(), state: StepState::Passed },
            StepSnapshot { name: "gcloud".into(), state: StepState::ProvisionFailed },
        ],
    });
    for i in 0..31 {
        state.apply(ServerMessage::LogChunk {
            service: "api".into(),
            bytes: encode_payload(&format!("l{i}")),
            ts: 0,
        });
    }
    let mut lines = String::new();
    for i in 1..31 {
        lines.push_str(&format!("l{i}\n"));
    }
    let expected = format!(
        "My devme dev environment (main).\n\nWorking directory: /repo\n\n\
         ## Service states\n\n- **api**: Running {{ degraded: true, started_without: \
         [\"d\\\"b\", \"x\"] }} (pid 7) (port 80) (2 restarts)\n\n\
         ## api logs (last 30)\n\n```\n{lines}```\n\n\
         Step `gcloud` is ProvisionFailed.\n\
         ## devme.toml\n\n```toml\n[x]\n```\n\n\
         Inspect the environment and help me diagnose any issues."
    );
    assert_eq!(build_debug_prompt(&state, true, Some("[x]\n")), expected);
}

#[test]
fn states_read_as_debug_output() {
    let states = vec![
        ServiceState::Stopped,
        ServiceState::Starting,
        ServiceState::Running { degraded: false, started_without: vec![] },
        ServiceState::WaitingOnDependency { waiting_on: vec!["db\n".into()] },
        ServiceState::Restarting { attempt: 3 },
        ServiceState::CrashLoop { restarts: 4 },
        ServiceState::Failed { exit_code: Some(-9) },
        ServiceState::Failed { exit_code: None },
        ServiceState::External { healthy: true },
    ];
    for s in states {
        let text = format!("- **api**: {s:?}\n");
        let state = with_services(vec![ServiceSnapshot { state: s, ..running("api") }]);
        let prompt = build_debug_prompt(&state, true, None);
        assert!(prompt.contains(&text), "{text} not in {prompt}");
    }
}

#[test]
fn keys_go_to_what_is_on_top() {
    let mut state = with_services(vec![running("api")]);
    let around = nothing_around();
    assert_eq!(mode(&state, around), Mode::Main);
    state.toggle_help();
    assert_eq!(mode(&state, around), Mode::Help);
    state.toggle_notifications();
    assert_eq!(mode(&state, around), Mode::Notifications);
    assert_eq!(mode(&state, Surround { stack_info: true, ..around }), Mode::StackInfo);
    assert_eq!(mode(&state, Surround { worktree_add: true, ..around }), Mode::WorktreeAdd);
    assert_eq!(mode(&state, Surround { worktree_remove: true, ..around }), Mode::WorktreeRemove);
    state.open_settings();
    assert_eq!(mode(&state, around), Mode::Settings);
    state.open_quit_confirm();
    assert_eq!(mode(&state, around), Mode::QuitConfirm);
    state.toggle_zoom();
    assert_eq!(mode(&state, around), Mode::Zoom);
    state.open_port_conflict("i".into(), "s".into(), 1, Holder::Unknown);
    assert_eq!(mode(&state, around), Mode::PortConflict);
    state.enter_stopped(None);
    assert_eq!(mode(&state, around), Mode::Stopped);
    state.enter_copy_mode();
    assert_eq!(mode(&state, around), Mode::CopyMode);
    assert_eq!(mode(&state, Surround { approval: true, ..around }), Mode::Approval);
    let mut state = TuiState::new(true);
    state.check_skill_prompt(false, false, &vec![], false);
    assert!(matches!(mode(&state, Surround { approval: true, ..around }), Mode::Skill(_)));
}

#[test]
fn keys_mean_what_the_mode_says() {
    let a = nothing_around();
    let at = |m: Mode, c: KeyCode| dispatch(m, a, key(c));
    assert_eq!(at(Mode::Main, ch('j')), Command::Select(SelectCommand::NextStack));
    assert_eq!(at(Mode::Main, KeyCode::Esc), Command::Session(SessionCommand::Quit));
    assert_eq!(at(Mode::Help, KeyCode::Esc), Command::Overlay(OverlayCommand::HideHelp));
    assert_eq!(at(Mode::Help, ch('j')), Command::Select(SelectCommand::NextStack));
    assert_eq!(at(Mode::CopyMode, ch('j')), Command::Logs(LogCommand::Down(1)));
    assert_eq!(at(Mode::CopyMode, ch('f')), Command::Ignore);
    assert_eq!(at(Mode::Zoom, ch('f')), Command::Logs(LogCommand::PageDown));
    assert_eq!(at(Mode::Stopped, ch('u')), Command::Session(SessionCommand::StartStack));
    assert_eq!(at(Mode::Stopped, ch('c')), Command::Ignore);
    assert_eq!(
        dispatch(Mode::Stopped, a, KeyEvent { code: ch('c'), ctrl: true }),
        Command::Session(SessionCommand::Leave)
    );
    assert_eq!(at(Mode::PortConflict, ch('k')), Command::Overlay(OverlayCommand::MoveConflict(-1)));
    assert_eq!(at(Mode::QuitConfirm, ch('q')), Command::Session(SessionCommand::StopAndQuit));
    assert_eq!(at(Mode::QuitConfirm, ch('d')), Command::Session(SessionCommand::Detach));
    assert_eq!(at(Mode::Settings, ch(' ')), Command::Overlay(OverlayCommand::ChangeSetting(1)));
    assert_eq!(
        at(Mode::WorktreeRemove, ch('f')),
        Command::Outer(OuterCommand::Remove { force: true })
    );
    assert_eq!(at(Mode::WorktreeAdd, ch('q')), Command::Outer(OuterCommand::Input('q')));
    assert_eq!(
        dispatch(Mode::WorktreeAdd, a, KeyEvent { code: ch('q'), ctrl: true }),
        Command::Ignore
    );
    assert_eq!(at(Mode::StackInfo, ch('b')), Command::Outer(OuterCommand::CopyBranch));
    assert_eq!(
        at(Mode::Notifications, ch('Y')),
        Command::Overlay(OverlayCommand::CopyAllNotifications)
    );
    assert_eq!(
        at(Mode::Approval, KeyCode::Esc),
        Command::Outer(OuterCommand::Answer(TaskApproval::Cancel))
    );
    // The action panel takes its keys first, and leaves the others.
    let panel = Surround { panel: true, ..a };
    assert_eq!(
        dispatch(Mode::Main, panel, key(ch('j'))),
        Command::Outer(OuterCommand::PanelNext)
    );
    assert_eq!(
        dispatch(Mode::Main, panel, key(ch('c'))),
        Command::Service(ServiceCommand::CopyUrl)
    );
    assert_eq!(
        dispatch(Mode::Main, Surround { running: true, ..panel }, key(ch('c'))),
        Command::Outer(OuterCommand::CancelTask)
    );
}

#[test]
fn quitting_asks_first_unless_told_otherwise() {
    let mut state = with_services(vec![running("api")]);
    assert_eq!(press(&mut state, ch('q')).request, Request::Nothing);
    assert!(state.quit_confirm_visible());
    assert_eq!(press(&mut state, KeyCode::Esc).request, Request::Nothing);
    assert!(!state.quit_confirm_visible());
    press(&mut state, ch('q'));
    assert_eq!(
        press(&mut state, ch('q')).request,
        Request::Quit { shutdown: true, cancel_task: true }
    );
    assert_eq!(
        press(&mut state, ch('d')).request,
        Request::Quit { shutdown: false, cancel_task: true }
    );
    // Without shutdown there is nothing to ask.
    let mut state = with_services(vec![running("api")]);
    let quit = Command::Session(SessionCommand::Quit);
    let keep = Setup { no_shutdown: true, ..setup() };
    assert_eq!(
        perform(&mut state, quit, keep).request,
        Request::Quit { shutdown: false, cancel_task: true }
    );
    // Nor where the configuration says so.
    let mut config = GlobalConfig::default();
    config.set("tui.confirm_quit", "false");
    state.set_config(config);
    assert_eq!(
        perform(&mut state, quit, setup()).request,
        Request::Quit { shutdown: true, cancel_task: true }
    );
    // The stopped screen has nothing to stop.
    state.enter_stopped(None);
    assert_eq!(
        press(&mut state, ch('q')).request,
        Request::Quit { shutdown: false, cancel_task: false }
    );
    assert_eq!(press(&mut state, ch('u')).request, Request::StartStack);
    assert_eq!(last_toast(&state).2, "starting the stack…");
}

#[test]
fn copying_logs_tells_how_many() {
    let mut state = with_services(vec![running("api")]);
    let e = press(&mut state, ch('y'));
    assert_eq!(e.copy, None);
    assert_eq!(last_toast(&state).2, "copied 0 visible log lines");
    for t in ["one", "two"] {
        state.apply(ServerMessage::LogChunk {
            service: "api".into(),
            bytes: encode_payload(t),
            ts: 0,
        });
    }
    let e = press(&mut state, ch('Y'));
    assert_eq!(e.copy.as_deref(), Some("one\ntwo"));
    assert_eq!(last_toast(&state).2, "copied 2 all log lines");
    assert!(state.notifications().is_empty());
    assert_eq!(copied_lines_msg("all", 1), "copied 1 all log line");
    // Copy mode lets the mouse go, and a copy takes it back.
    assert_eq!(press(&mut state, ch('v')).mouse, Some(false));
    assert!(state.copy_mode());
    let e = press(&mut state, ch('y'));
    assert_eq!(e.mouse, Some(true));
    assert!(!state.copy_mode());
    // Zoom copies without a word.
    press(&mut state, ch('z'));
    let before = state.toasts().len();
    assert_eq!(press(&mut state, ch('Y')).copy.as_deref(), Some("one\ntwo"));
    assert_eq!(state.toasts().len(), before);
    press(&mut state, KeyCode::Esc);
    assert!(!state.zoom());
}

#[test]
fn service_commands_go_to_the_daemon_that_runs_it() {
    let mut state = with_services(vec![running("api")]);
    let send = |message: ClientMessage| Request::Send { id: "inst".into(), message };
    assert_eq!(
        press(&mut state, ch('S')).request,
        send(ClientMessage::Start { service: "api".into(), skip_deps: false })
    );
    assert_eq!(
        press(&mut state, ch('s')).request,
        send(ClientMessage::Stop { service: "api".into() })
    );
    assert_eq!(
        press(&mut state, ch('r')).request,
        send(ClientMessage::Restart { service: "api".into() })
    );
    assert_eq!(press(&mut TuiState::default(), ch('r')).request, Request::Nothing);
}

#[test]
fn urls_open_or_copy() {
    let mut state = with_services(vec![running("api")]);
    assert_eq!(press(&mut state, ch('o')).request, Request::Nothing);
    assert_eq!(last_toast(&state).2, "api has no URL");
    let with_url = |url: &str, port: Option<u16>| {
        with_services(vec![ServiceSnapshot { url: Some(url.into()), port, ..running("api") }])
    };
    let mut state = with_url("http://{host}:{port}/", None);
    press(&mut state, ch('o'));
    assert_eq!(last_toast(&state).2, "api has no port yet");
    let mut state = with_url("http://{host}:{port}/", Some(80));
    assert_eq!(
        press(&mut state, ch('o')).request,
        Request::OpenUrl("http://localhost:80/".into())
    );
    url_opened_at(&mut state, "http://localhost:80/", None, Instant::now());
    assert_eq!(last_toast(&state).2, "http://localhost:80/");
    url_opened_at(&mut state, "http://localhost:80/", Some("no browser"), Instant::now());
    assert_eq!(last_toast(&state).2, "couldn't open: no browser");
    let mut state = with_url("{host}:{port}", Some(5432));
    assert_eq!(press(&mut state, ch('o')).copy.as_deref(), Some("localhost:5432"));
    assert_eq!(
        last_toast(&state).2,
        "api: no open URL — copied localhost:5432 (set url= to open)"
    );
    assert_eq!(press(&mut state, ch('c')).copy.as_deref(), Some("localhost:5432"));
    assert_eq!(last_toast(&state).2, "copied localhost:5432");
    assert_eq!(resolve_service_url("https://x.test", None, "h").as_deref(), Some("https://x.test"));
    assert_eq!(resolve_service_url("{host}:{port}", None, "h"), None);
}

#[test]
fn settings_are_written_back() {
    let mut state = TuiState::default();
    press(&mut state, ch(','));
    let e = press(&mut state, KeyCode::Right);
    let write = SettingWrite::Assign { key: "tui.theme", value: "latte".into() };
    assert_eq!(e.request, Request::Persist(SettingWrite::Assign {
        key: "tui.theme",
        value: "latte".into(),
    }));
    setting_persisted_at(&mut state, &write, None, Instant::now());
    assert!(state.toasts().is_empty());
    setting_persisted_at(&mut state, &write, Some("read-only"), Instant::now());
    let (kind, title, body) = last_toast(&state);
    assert_eq!(kind, ToastKind::Failed);
    assert_eq!(title, "config");
    assert_eq!(body, "couldn't save tui.theme: read-only");
}

#[test]
fn a_remedied_conflict_restarts_the_service() {
    let mut state = TuiState::default();
    state.open_port_conflict(
        "inst".into(),
        "web".into(),
        3000,
        Holder::Process(vec![(9, None)]),
    );
    let e = press(&mut state, KeyCode::Enter);
    assert_eq!(
        e.request,
        Request::Remediate {
            id: "inst".into(),
            service: "web".into(),
            action: PortConflictAction::KillProcess(vec![9]),
        }
    );
    let action = PortConflictAction::KillProcess(vec![9]);
    let label = run_port_remediation(&action, &vec![]).unwrap();
    assert_eq!(label, "killed process");
    let r = remediated_at(
        &mut state,
        "inst".into(),
        "web".into(),
        &Remedied::Worked(label),
        Instant::now(),
    );
    assert_eq!(
        r,
        Request::Send {
            id: "inst".into(),
            message: ClientMessage::Restart { service: "web".into() },
        }
    );
    assert_eq!(last_toast(&state).2, "killed process — restarting web");
    let e = run_port_remediation(&action, &vec!["a".into(), "b".into()]).unwrap_err();
    assert_eq!(e, "a; b");
    let r = remediated_at(
        &mut state,
        "inst".into(),
        "web".into(),
        &Remedied::Failed(e),
        Instant::now(),
    );
    assert_eq!(r, Request::Nothing);
    assert_eq!(last_toast(&state).0, ToastKind::Failed);
    remediated_at(&mut state, "i".into(), "w".into(), &Remedied::NotRun, Instant::now());
    assert_eq!(last_toast(&state).2, "remediation failed to run");
    assert_eq!(
        run_port_remediation(&PortConflictAction::StopContainer("pg".into()), &vec![]).unwrap(),
        "stopped pg"
    );
    assert_eq!(
        run_port_remediation(&PortConflictAction::ComposeDown("p".into()), &vec![]).unwrap(),
        "composed down p"
    );
    // Skipping closes the modal and does nothing.
    state.open_port_conflict("inst".into(), "web".into(), 3000, Holder::Unknown);
    assert_eq!(press(&mut state, KeyCode::Enter).request, Request::Nothing);
    assert!(!state.port_conflict_visible());
}

#[test]
fn skill_keys_start_the_job() {
    let mut state = TuiState::new(true);
    state.check_skill_prompt(false, false, &vec![], false);
    assert_eq!(press(&mut state, ch('u')).request, Request::Nothing);
    assert_eq!(
        press(&mut state, ch('g')).request,
        Request::Skill(SkillJob::Install { global: true })
    );
    assert!(!state.skill_dialog_visible());
}

#[test]
fn notifications_copy() {
    let mut state = TuiState::default();
    state.notify("open", "first");
    state.notify("open", "second");
    press(&mut state, ch('n'));
    press(&mut state, ch('j'));
    assert_eq!(press(&mut state, ch('c')).copy.as_deref(), Some("[0s ago] open: first"));
    assert_eq!(
        press(&mut state, ch('Y')).copy.as_deref(),
        Some("[0s ago] open: second\n[0s ago] open: first")
    );
    assert_eq!(last_toast(&state).2, "all notifications copied");
    press(&mut state, KeyCode::Esc);
    assert!(!state.notifications_visible());
    // An empty history copies nothing.
    let mut state = TuiState::default();
    press(&mut state, ch('n'));
    assert_eq!(press(&mut state, ch('Y')).copy, None);
    assert_eq!(press(&mut state, ch('c')).copy, None);
    assert!(state.toasts().is_empty());
}

#[test]
fn the_last_goodbye_parks_the_dashboard() {
    let mut state = TuiState::default();
    let mut rail = StartupRailChoice::new(true);
    let mut started = Started::new();
    let now = Instant::now();
    let r = absorb_at(
        &mut state,
        &mut rail,
        &mut started,
        "inst",
        "inst",
        subscribed("inst", vec![running("api")]),
        None,
        now,
    );
    assert!(r.close_actions && r.probe.is_none());
    assert!(select_home(&mut state, "inst", false));
    assert_eq!(started.due(&state.attached_instance_ids()), ["inst"]);
    assert!(started.due(&state.attached_instance_ids()).is_empty());
    absorb_at(
        &mut state,
        &mut rail,
        &mut started,
        "inst",
        "inst",
        ServerMessage::Goodbye { reason: "down".into() },
        Some("repo".into()),
        now,
    );
    assert!(state.stopped());
    assert_eq!(state.stopped_repo(), Some("repo"));
    // A daemon attaches again: back to the dashboard, and it is told to start.
    let r = absorb_at(
        &mut state,
        &mut rail,
        &mut started,
        "inst",
        "inst",
        subscribed("inst", vec![running("api")]),
        None,
        now,
    );
    assert!(!r.close_actions);
    assert!(!state.stopped());
    assert_eq!(started.due(&state.attached_instance_ids()), ["inst"]);
}

#[test]
fn a_crash_on_bind_asks_for_a_probe() {
    let mut state = with_services(vec![running("db")]);
    let mut rail = StartupRailChoice::new(false);
    let mut started = Started::new();
    let now = Instant::now();
    let mut absorb = |message: ServerMessage| {
        absorb_at(&mut state, &mut rail, &mut started, "x", "inst", message, None, now).probe
    };
    assert!(absorb(ServerMessage::LogChunk {
        service: "db".into(),
        bytes: encode_payload("bind: address already in use"),
        ts: 0,
    })
    .is_none());
    let failed = ServerMessage::StatusUpdate {
        service: "db".into(),
        state: ServiceState::Failed { exit_code: Some(1) },
        pid: None,
        port: Some(5432),
        restart_count: 0,
    };
    assert_eq!(absorb(failed), Some(("inst".into(), "db".into(), 5432)));
}

#[test]
fn start_messages_name_the_home_targets() {
    let all = ClientMessage::Start { service: String::new(), skip_deps: false };
    assert_eq!(initial_start_message(true, None), all);
    assert_eq!(initial_start_message(false, Some(&vec!["api".into()])), all);
    assert_eq!(
        initial_start_message(true, Some(&vec!["api".into()])),
        ClientMessage::StartTargets { services: vec!["api".into()] }
    );
    assert!(fetches_prs(0) && !fetches_prs(11) && fetches_prs(24));
}

#[test]
fn removal_is_vetoed_with_a_reason() {
    let now = Instant::now();
    let mut state = TuiState::default();
    assert!(!try_open_worktree_remove_at(&mut state, false, None, None, now));
    assert!(state.toasts().is_empty());
    let mut state = with_services(vec![running("api")]);
    assert!(!try_open_worktree_remove_at(&mut state, true, None, None, now));
    assert_eq!(last_toast(&state).2, "main worktree — can't be removed");
    assert!(!try_open_worktree_remove_at(&mut state, false, Some("/w"), Some("/w"), now));
    assert_eq!(last_toast(&state).2, "this is the worktree the TUI runs in");
    assert!(try_open_worktree_remove_at(&mut state, false, Some("/w"), Some("/v"), now));
    assert!(try_open_worktree_remove_at(&mut state, false, None, None, now));
    state.apply(subscribed("shared::r", vec![running("db")]));
    state.push_click_region(0, 0, 5, 1, ClickTarget::Shared);
    state.click_at(1, 0);
    assert!(!try_open_worktree_remove_at(&mut state, false, None, None, now));
    assert_eq!(last_toast(&state).2, "shared services aren't a worktree");
}

#[test]
fn task_output_is_capped() {
    let mut lines: Vec<String> = Vec::new();
    for i in 0..1002 {
        push_task_line(&mut lines, format!("{i}"));
    }
    assert_eq!(lines.len(), 1000);
    assert_eq!(lines[0], "2");
    assert_eq!(lines[999], "1001");
}

#[test]
fn the_wheel_and_the_buttons_act() {
    let mut state = with_services(vec![running("api")]);
    for i in 0..50 {
        state.apply(ServerMessage::LogChunk {
            service: "api".into(),
            bytes: encode_payload(&format!("{i}")),
            ts: 0,
        });
    }
    let now = Instant::now();
    let at = |kind: MouseKind, col: u16, row: u16| MouseEvent {
        kind,
        col,
        row,
        on_tabs: false,
        tab_page: 40,
    };
    handle_mouse_at(&mut state, at(MouseKind::ScrollUp, 50, 5), now);
    assert_eq!(state.log_scroll_offset(), 3);
    handle_mouse_at(&mut state, at(MouseKind::ScrollDown, 50, 5), now);
    assert_eq!(state.log_scroll_offset(), 0);
    let tabs = MouseEvent { on_tabs: true, ..at(MouseKind::ScrollDown, 50, 1) };
    assert_eq!(handle_mouse_at(&mut state, tabs, now), PointerEffect::ScrollTabs(4));
    let left = MouseEvent { kind: MouseKind::ScrollLeft, ..tabs };
    assert_eq!(handle_mouse_at(&mut state, left, now), PointerEffect::ScrollTabs(-4));
    // Dragging the divider resizes the sidebar until the button is released.
    state.set_sidebar_divider(28, 0, 24, 100);
    handle_mouse_at(&mut state, at(MouseKind::LeftDown, 28, 5), now);
    handle_mouse_at(&mut state, at(MouseKind::LeftDrag, 40, 9), now);
    assert_eq!(state.sidebar_width(), 40);
    assert_eq!(pointer_shape_at(&state, 28, 5), PointerShape::ColResize);
    assert_eq!(pointer_shape_at(&state, 60, 5), PointerShape::Arrow);
    let mut shape = PointerShape::Arrow;
    assert_eq!(
        reshape(&state, &mut shape, PointerShape::Pointer).as_deref(),
        Some("\x1b]22;ew-resize\x1b\\")
    );
    assert_eq!(reshape(&state, &mut shape, PointerShape::Pointer), None);
    handle_mouse_at(&mut state, at(MouseKind::LeftUp, 40, 9), now);
    handle_mouse_at(&mut state, at(MouseKind::LeftDrag, 50, 9), now);
    assert_eq!(state.sidebar_width(), 40);
    assert_eq!(
        reshape(&state, &mut shape, PointerShape::Pointer).as_deref(),
        Some("\x1b]22;pointer\x1b\\")
    );
    // The scrollbar too.
    state.set_scrollbar_hit(90, 0, 10, 50, 20);
    handle_mouse_at(&mut state, at(MouseKind::LeftDown, 90, 0), now);
    assert_eq!(state.log_scroll_offset(), 30);
    handle_mouse_at(&mut state, at(MouseKind::LeftDrag, 10, 9), now);
    assert_eq!(state.log_scroll_offset(), 0);
    handle_mouse_at(&mut state, at(MouseKind::LeftUp, 10, 9), now);
    // Clicks under a modal do nothing, but in the notifications they copy.
    state.notify("open", "hello");
    state.toggle_notifications();
    state.push_click_region(0, 0, 10, 1, ClickTarget::Notif(0));
    assert_eq!(
        handle_mouse_at(&mut state, at(MouseKind::LeftDown, 1, 0), now),
        PointerEffect::Copy("[0s ago] open: hello".into())
    );
    assert_eq!(set_pointer_shape(PointerShape::RowResize), "\x1b]22;ns-resize\x1b\\");
    assert_eq!(enable_mouse(), "\x1b[?1003h\x1b[?1006h");
    assert!(disable_mouse().ends_with("\x1b]22;default\x1b\\"));
}

#[test]
fn the_terminal_carries_copies_that_must_travel() {
    assert_eq!(osc52("hi"), "\x1b]52;c;aGk=\x07");
    assert_eq!(encode_payload("hi"), "aGk=");
    assert_eq!(decode_payload("aGk=").as_deref(), Some("hi"));
    assert_eq!(decode_payload("!"), None);
    assert_eq!(decode_payload("/w=="), None);
    assert!(is_wsl(false, false, Some("5.15-Microsoft-standard")));
    assert!(is_wsl(true, false, None));
    assert!(!is_wsl(false, false, Some("6.1.0-generic")));
    assert!(prefer_osc52(false, true, false) && !prefer_osc52(false, false, false));
    assert_eq!(copy_to_clipboard(None, false, None), CopyStep::Done);
    assert_eq!(copy_to_clipboard(Some("hi"), false, None), CopyStep::Native);
    assert_eq!(copy_to_clipboard(Some("hi"), false, Some(true)), CopyStep::Done);
    assert_eq!(
        copy_to_clipboard(Some("hi"), false, Some(false)),
        CopyStep::Terminal("\x1b]52;c;aGk=\x07".into())
    );
    assert!(matches!(copy_to_clipboard(Some("hi"), true, None), CopyStep::Terminal(_)));
    let tools = copy_native(false);
    assert_eq!(tools[0].program, "wl-copy");
    assert_eq!(tools[1].args, ["-selection", "clipboard"]);
    assert_eq!(copy_native(true).len(), 1);
}

#[test]
fn outer_commands_are_handed_on() {
    let mut state = TuiState::default();
    let e = press(&mut state, ch('w'));
    assert_eq!(e.request, Request::Outer(OuterCommand::AskAdd));
    assert_eq!(press(&mut state, ch('R')).request, Request::ReloadConfig);
    assert_eq!(press(&mut state, ch('p')).request, Request::DebugPrompt);
    assert_eq!(last_toast(&state).2, "debug prompt copied to clipboard");
}

#[test]
fn escape_leaves_every_overlay() {
    let mut state = with_services(vec![running("api")]);
    state.toggle_help();
    state.toggle_notifications();
    state.open_settings();
    state.open_quit_confirm();
    state.toggle_zoom();
    state.open_port_conflict("i".into(), "s".into(), 1, Holder::Unknown);
    state.enter_copy_mode();
    for _ in 0..7 {
        assert_eq!(press(&mut state, KeyCode::Esc).request, Request::Nothing);
    }
    assert!(!state.any_modal_open() && !state.zoom() && !state.copy_mode());
    assert_eq!(mode(&state, nothing_around()), Mode::Main);
    // The next one means to quit.
    press(&mut state, KeyCode::Esc);
    assert!(state.quit_confirm_visible());
}

#[test]
fn overlays_keep_the_mouse_from_what_is_below() {
    let mut state = with_services(vec![running("api"), running("web")]);
    state.push_click_region(0, 0, 5, 1, ClickTarget::Tab(1));
    state.open_quit_confirm();
    let press = MouseEvent {
        kind: MouseKind::LeftDown,
        col: 1,
        row: 0,
        on_tabs: false,
        tab_page: 40,
    };
    assert_eq!(handle_mouse_at(&mut state, press, Instant::now()), PointerEffect::Nothing);
    assert_eq!(state.selected_service().unwrap().name, "api");
    state.cancel_quit_confirm();
    handle_mouse_at(&mut state, press, Instant::now());
    assert_eq!(state.selected_service().unwrap().name, "web");
}

#[test]
fn a_second_conflict_waits() {
    let mut state = TuiState::default();
    state.open_port_conflict("i".into(), "first".into(), 1, Holder::Unknown);
    state.open_port_conflict("i".into(), "second".into(), 2, Holder::Unknown);
    assert_eq!(state.port_conflict().unwrap().service, "first");
}

#[test]
fn a_dashboard_that_keeps_its_stacks_never_stops_them() {
    let keep = Setup { no_shutdown: true, cwd_known: true };
    for c in [SessionCommand::Quit, SessionCommand::StopAndQuit, SessionCommand::Detach] {
        let mut state = with_services(vec![running("api")]);
        assert_eq!(
            perform(&mut state, Command::Session(c), keep).request,
            Request::Quit { shutdown: false, cancel_task: true }
        );
    }
}
