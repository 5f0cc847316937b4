use std::collections::VecDeque;

use base64::Engine;
use devme_tui::config::GlobalConfig;
use devme_tui::protocol::{
    Holder, InstanceInfo, ServerMessage, ServiceSnapshot, ServiceState, StepSnapshot, StepState,
};
use devme_tui::state::conflict::logs_show_addr_in_use;
use devme_tui::state::settings::{settings_table, SettingWrite};
use devme_tui::state::skill::{
    check_skill_hint_eligible, config_dir, hint_count_of, record_skill_hint_shown,
};
use devme_tui::state::toasts::age_label_for;
use devme_tui::state::double::share;
use devme_tui::state::{
    ClickTarget, PortConflictAction, PortConflictDialog, StackHealth, StackSummary, ToastKind,
    TuiState, DEFAULT_SIDEBAR_WIDTH, LOG_CAP, MAX_TOASTS, MIN_MAIN_WIDTH, MIN_SIDEBAR_WIDTH,
};
use devme_tui::theme::Palette;

fn test_instance() -> InstanceInfo {
    InstanceInfo {
        id: "test-id".into(),
        label: "test".into(),
        cwd: "/tmp/test".into(),
    }
}

fn svc(name: &str) -> ServiceSnapshot {
    ServiceSnapshot {
        name: name.into(),
        state: ServiceState::Stopped,
        pid: None,
        port: None,
        url: None,
        restart_count: 0,
    }
}

fn snapshot_msg(names: &[&str]) -> ServerMessage {
    ServerMessage::Subscribed {
        instance: test_instance(),
        services: names.iter().map(|n| svc(n)).collect(),
        steps: vec![],
    }
}

#[test]
fn default_state_has_no_selection() {
    let s = TuiState::default();
    assert!(s.services().is_empty());
    assert!(s.selected_service().is_none());
}

fn running(name: &str) -> ServiceSnapshot {
    ServiceSnapshot {
        name: name.into(),
        state: ServiceState::Running { degraded: false, started_without: vec![] },
        pid: None,
        port: None,
        url: None,
        restart_count: 0,
    }
}

/// A stack with 3 owned services that also depends on 2 repo-scoped
/// shared services. The instance daemon reports all 5 (the 2 shared ones
/// as stubs); the shared daemon reports the 2 shared ones.
fn stack_with_shared() -> TuiState {
    let mut s = TuiState::default();
    // Shared daemon first, so the instance's stub names are recognised.
    s.apply(ServerMessage::Subscribed {
        instance: InstanceInfo {
            id: "shared::repo".into(),
            label: "shared".into(),
            cwd: "/tmp/a".into(),
        },
        services: vec![running("db"), running("cache")],
        steps: vec![],
    });
    s.apply(ServerMessage::Subscribed {
        instance: InstanceInfo {
            id: "inst".into(),
            label: "feature/a".into(),
            cwd: "/tmp/a".into(),
        },
        services: vec![
            running("api"),
            running("web"),
            running("worker"),
            running("db"),
            running("cache"),
        ],
        steps: vec![],
    });
    s
}

#[test]
fn stack_count_excludes_shared_services() {
    let s = stack_with_shared();
    // Owned-only: 3/3, not 5/5.
    assert_eq!(
        s.instance_service_summary(0),
        StackSummary::Counted { up: 3, total: 3 }
    );
}

#[test]
fn stack_owning_only_shared_services_reads_shared_only() {
    let mut s = TuiState::default();
    s.apply(ServerMessage::Subscribed {
        instance: InstanceInfo {
            id: "shared::repo".into(),
            label: "shared".into(),
            cwd: "/tmp/a".into(),
        },
        services: vec![running("db"), running("cache")],
        steps: vec![],
    });
    // Worktree's daemon reports only the two shared stubs — owns nothing.
    s.apply(ServerMessage::Subscribed {
        instance: InstanceInfo {
            id: "inst".into(),
            label: "feature/a".into(),
            cwd: "/tmp/a".into(),
        },
        services: vec![running("db"), running("cache")],
        steps: vec![],
    });
    assert_eq!(s.instance_service_summary(0), StackSummary::SharedOnly);
}

#[test]
fn worktree_without_devme_toml_leads_with_placeholder_tab() {
    let mut s = TuiState::default();
    s.apply(ServerMessage::Subscribed {
        instance: InstanceInfo {
            id: "shared::repo".into(),
            label: "shared".into(),
            cwd: "/tmp/a".into(),
        },
        services: vec![running("proxy"), running("postgres")],
        steps: vec![],
    });
    // A discovered worktree with no devme.toml: a placeholder row, no daemon.
    s.add_placeholder_instance("inst", "feature/x", "/tmp/a");

    let tabs = s.tab_services();
    let labels: Vec<&str> = tabs.iter().map(|t| t.label.as_str()).collect();
    assert_eq!(labels, ["no devme.toml", "proxy", "postgres"]);
    assert!(tabs[0].is_placeholder());
    assert!(tabs[1].is_shared() && tabs[2].is_shared());

    // The placeholder is the default focus and backs no service.
    assert!(s.selected_tab_is_placeholder());
    assert!(s.selected_service().is_none());
    assert_eq!(s.selected_tab_index(), 0);

    // One step right leaves the placeholder for the first shared service.
    s.select_next_service();
    assert!(!s.selected_tab_is_placeholder());
    assert_eq!(s.selected_service().unwrap().name, "proxy");
    // Acting on it routes to the shared daemon.
    assert_eq!(
        s.selected_instance_and_service(),
        Some(("shared::repo".into(), "proxy".into()))
    );
}

#[test]
fn placeholder_explanation_mentions_shared_tabs_only_when_present() {
    // No devme.toml and no shared services: just the "add one" line.
    let mut s = TuiState::default();
    s.add_placeholder_instance("inst", "feature/x", "/tmp/x");
    let without = s.placeholder_explanation();
    assert!(without.contains("add one to start services"), "{without}");
    assert!(
        !without.contains("tabs to the right"),
        "should not mention shared tabs when there are none:\n{without}"
    );

    // With shared services, the trailing-tabs hint is appended.
    let mut s2 = TuiState::default();
    s2.apply(ServerMessage::Subscribed {
        instance: InstanceInfo {
            id: "shared::repo".into(),
            label: "shared".into(),
            cwd: "/tmp/x".into(),
        },
        services: vec![running("proxy")],
        steps: vec![],
    });
    s2.add_placeholder_instance("inst", "feature/x", "/tmp/x");
    let with = s2.placeholder_explanation();
    assert!(with.contains("tabs to the right"), "{with}");
}

#[test]
fn placeholder_instance_summary_reads_no_daemon_but_is_flagged_placeholder() {
    let mut s = TuiState::default();
    s.add_placeholder_instance("inst", "feature/x", "/tmp/x");
    assert_eq!(s.instance_service_summary(0), StackSummary::NoDaemon);
    assert!(s.instance_is_placeholder(0));
}

#[test]
fn stack_owning_only_shared_services_labels_placeholder_no_services() {
    let mut s = TuiState::default();
    s.apply(ServerMessage::Subscribed {
        instance: InstanceInfo {
            id: "shared::repo".into(),
            label: "shared".into(),
            cwd: "/tmp/a".into(),
        },
        services: vec![running("db")],
        steps: vec![],
    });
    // Daemon is up but reports only the shared stub — has a devme.toml.
    s.apply(ServerMessage::Subscribed {
        instance: InstanceInfo {
            id: "inst".into(),
            label: "feature/a".into(),
            cwd: "/tmp/a".into(),
        },
        services: vec![running("db")],
        steps: vec![],
    });
    let tabs = s.tab_services();
    assert!(tabs[0].is_placeholder());
    assert_eq!(tabs[0].label, "no services");
}

#[test]
fn stack_tabs_list_owned_then_shared_group() {
    let s = stack_with_shared();
    let tabs = s.tab_services();
    let names: Vec<&str> = tabs.iter().map(|t| t.label.as_str()).collect();
    assert_eq!(names, ["api", "web", "worker", "db", "cache"]);
    let shared: Vec<bool> = tabs.iter().map(|t| t.is_shared()).collect();
    assert_eq!(shared, [false, false, false, true, true]);
}

#[test]
fn shared_tabs_are_reachable_and_route_to_shared_daemon() {
    let mut s = stack_with_shared();
    // selection starts on the first owned service
    assert_eq!(s.selected_service().unwrap().name, "api");
    // step into the shared group (indices 3, 4)
    for _ in 0..3 {
        s.select_next_service();
    }
    assert_eq!(s.selected_service().unwrap().name, "db");
    // commands for a shared tab route to the shared daemon, not the stack
    let (id, name) = s.selected_instance_and_service().unwrap();
    assert_eq!(id, "shared::repo");
    assert_eq!(name, "db");
    // and wrap-around spans the whole 5-tab row
    s.select_next_service();
    assert_eq!(s.selected_service().unwrap().name, "cache");
    s.select_next_service();
    assert_eq!(s.selected_service().unwrap().name, "api");
}

#[test]
fn owned_tab_still_routes_to_instance_daemon() {
    let s = stack_with_shared();
    let (id, name) = s.selected_instance_and_service().unwrap();
    assert_eq!(id, "inst");
    assert_eq!(name, "api");
}

#[test]
fn steps_persist_when_switching_onto_a_placeholder_stack() {
    // A subscribed stack with dependency checks, plus a placeholder
    // worktree (discovered, no daemon yet → no steps of its own).
    let mut s = TuiState::default();
    s.apply(ServerMessage::Subscribed {
        instance: InstanceInfo {
            id: "real".into(),
            label: "feature/a".into(),
            cwd: "/tmp/a".into(),
        },
        services: vec![svc("db")],
        steps: vec![StepSnapshot { name: "uv".into(), state: StepState::Passed }],
    });
    s.add_placeholder_instance("place", "feature/b", "/tmp/b");

    // Switch onto the placeholder. Its own steps are empty…
    s.select_instance_by_id("place");
    assert!(s.current_instance().unwrap().steps.is_empty());
    // …but the tools pane still shows the repo's checks (the sibling's),
    // rather than blinking out of existence.
    assert_eq!(s.steps().len(), 1);
    assert_eq!(s.steps()[0].name, "uv");

    // The placeholder reports as such for its status dot.
    let place_idx = s.find_instance("place").unwrap();
    assert_eq!(s.instance_health(place_idx), StackHealth::Placeholder);
}

#[test]
fn crash_and_recovery_raise_toasts() {
    let running = || ServiceState::Running { degraded: false, started_without: vec![] };
    let status = |state: ServiceState| ServerMessage::StatusUpdate {
        service: "api".into(),
        state,
        pid: None,
        port: None,
        restart_count: 0,
    };
    let mut s = TuiState::default();
    // Start the service already up so the first transition is a crash.
    s.apply(ServerMessage::Subscribed {
        instance: test_instance(),
        services: vec![ServiceSnapshot { state: running(), ..svc("api") }],
        steps: vec![],
    });
    assert!(s.toasts().is_empty());

    // Running → Failed surfaces a crash toast…
    s.apply(status(ServiceState::Failed { exit_code: Some(2) }));
    assert_eq!(s.toasts().last().map(|t| t.kind), Some(ToastKind::Failed));
    // …and Failed → Running a recovery toast.
    s.apply(status(running()));
    assert_eq!(s.toasts().last().map(|t| t.kind), Some(ToastKind::Ready));
    assert_eq!(s.toasts().len(), 2);
    // A routine stopped→starting move stays quiet.
    let before = s.toasts().len();
    s.apply(status(ServiceState::Starting));
    assert_eq!(s.toasts().len(), before);
}

#[test]
fn notification_history_outlives_corner_toasts() {
    let mut s = TuiState::default();
    // More than MAX_TOASTS notifications: the corner stack is capped, but
    // the history modal's scrollback retains all of them.
    for i in 0..(MAX_TOASTS + 3) {
        s.notify("open", &format!("note {i}"));
    }
    assert_eq!(s.toasts().len(), MAX_TOASTS);
    assert_eq!(s.notifications().len(), MAX_TOASTS + 3);
    // Newest is last in history; rendered reversed by the modal.
    assert_eq!(s.notifications().last().unwrap().body, format!("note {}", MAX_TOASTS + 2));
}

#[test]
fn notification_modal_cursor_clamps_and_copies() {
    let mut s = TuiState::default();
    for i in 0..3 {
        s.notify("svc", &format!("event {i}"));
    }
    assert!(!s.notifications_visible());
    s.toggle_notifications();
    assert!(s.notifications_visible());
    // Cursor starts on the newest entry (display index 0). Copied text
    // carries the relative age for context, e.g. "[0s ago] svc: event 2".
    assert_eq!(s.notif_cursor(), 0);
    let newest = s.notif_selected_text().unwrap();
    assert!(newest.contains("svc: event 2"), "got {newest:?}");
    assert!(newest.starts_with("[0s ago]"), "missing age prefix: {newest:?}");

    // Cursor never runs past the oldest…
    s.notif_cursor_down(99);
    assert_eq!(s.notif_cursor(), 2); // len 3 → max index 2
    assert!(s.notif_selected_text().unwrap().contains("svc: event 0"));
    // …and never before the newest.
    s.notif_cursor_up(99);
    assert_eq!(s.notif_cursor(), 0);

    // Copy-all is newest-first, one line each.
    let all = s.notif_all_text();
    let bodies: Vec<&str> = all.lines().map(|l| l.trim()).collect();
    assert_eq!(bodies.len(), 3);
    assert!(bodies[0].contains("svc: event 2"));
    assert!(bodies[1].contains("svc: event 1"));
    assert!(bodies[2].contains("svc: event 0"));

    s.close_notifications();
    assert!(!s.notifications_visible());
}

#[test]
fn transient_notifications_show_but_are_not_recorded() {
    let mut s = TuiState::default();
    s.notify("config", "parse warning"); // durable event
    s.notify_transient("copy", "copied url"); // ephemeral ack
    // Both appear as corner toasts…
    assert_eq!(s.toasts().len(), 2);
    // …but only the durable one enters the scrollback the modal shows.
    assert_eq!(s.notifications().len(), 1);
    assert_eq!(s.notifications()[0].body, "parse warning");
}

#[test]
fn notif_click_copies_the_clicked_row() {
    let mut s = TuiState::default();
    for i in 0..3 {
        s.notify("svc", &format!("event {i}"));
    }
    s.toggle_notifications();
    // Simulate the renderer registering rows: display index 0 (newest) at
    // row 1, index 1 at row 2, index 2 at row 3.
    s.push_click_region(0, 1, 60, 1, ClickTarget::Notif(0));
    s.push_click_region(0, 2, 60, 1, ClickTarget::Notif(1));
    s.push_click_region(0, 3, 60, 1, ClickTarget::Notif(2));

    // Click the middle row → copies it and moves the cursor there.
    let copied = s.notif_copy_at(10, 2).unwrap();
    assert!(copied.contains("svc: event 1"), "got {copied:?}");
    assert_eq!(s.notif_cursor(), 1);
    // A click that misses every row copies nothing.
    assert_eq!(s.notif_copy_at(10, 9), None);
}

#[test]
fn status_update_carries_port_onto_the_snapshot() {
    // The daemon often doesn't know a service's port in the initial
    // `Subscribed` snapshot (not spawned yet) and sends it on the first
    // StatusUpdate. The TUI must persist that port on the snapshot so
    // `o`/`c`/`url` resolve a real port — regression for the bug where the
    // handler used the port only for its toast and dropped it.
    let mut s = TuiState::default();
    s.apply(snapshot_msg(&["web"]));
    assert_eq!(s.selected_service().unwrap().port, None);

    s.apply(ServerMessage::StatusUpdate {
        service: "web".into(),
        state: ServiceState::Running { degraded: false, started_without: vec![] },
        pid: Some(123),
        port: Some(3030),
        restart_count: 0,
    });
    assert_eq!(s.selected_service().unwrap().port, Some(3030));

    // A later update that omits the port (e.g. a plain state change) must
    // not wipe the known port back to None.
    s.apply(ServerMessage::StatusUpdate {
        service: "web".into(),
        state: ServiceState::Stopped,
        pid: None,
        port: None,
        restart_count: 0,
    });
    assert_eq!(s.selected_service().unwrap().port, Some(3030));
}

#[test]
fn sidebar_scroll_keeps_selection_in_view() {
    let mut s = TuiState::default();
    for i in 0..6 {
        s.add_instance(&format!("stack-{i}"));
    }
    // A 3-row window: selecting the last stack scrolls it into view.
    s.select_instance_by_id("local::stack-5");
    s.ensure_stack_visible(3);
    assert_eq!(s.sidebar_scroll(), 3); // shows 3,4,5
    // Selecting the first scrolls back to the top.
    s.select_instance_by_id("local::stack-0");
    s.ensure_stack_visible(3);
    assert_eq!(s.sidebar_scroll(), 0);
}

#[test]
fn toggle_sidebar_flips_collapsed() {
    let mut s = TuiState::default();
    assert!(!s.sidebar_collapsed());
    s.toggle_sidebar();
    assert!(s.sidebar_collapsed());
    s.toggle_sidebar();
    assert!(!s.sidebar_collapsed());
}

#[test]
fn sidebar_divider_drag_resizes_within_bounds() {
    let mut s = TuiState::default();
    assert_eq!(s.sidebar_width(), DEFAULT_SIDEBAR_WIDTH);
    // Divider recorded for an 80-col frame, divider at column 28.
    s.set_sidebar_divider(28, 0, 24, 80);
    // The hit zone is two columns wide (divider + gutter to its left).
    assert!(s.sidebar_divider_at(28, 5));
    assert!(s.sidebar_divider_at(27, 5));
    assert!(!s.sidebar_divider_at(26, 5));
    assert!(!s.sidebar_divider_at(28, 30)); // outside the vertical track

    // Dragging the divider sets the width to the pointer column.
    s.sidebar_drag_to(40);
    assert_eq!(s.sidebar_width(), 40);

    // Clamped at the narrow end…
    s.sidebar_drag_to(2);
    assert_eq!(s.sidebar_width(), MIN_SIDEBAR_WIDTH);
    // …and at the wide end, leaving the main pane room.
    s.sidebar_drag_to(79);
    assert_eq!(s.sidebar_width(), 80 - MIN_MAIN_WIDTH);
}

#[test]
fn settings_overlay_cycles_and_toggles() {
    let mut s = TuiState::default();
    s.open_settings();
    assert!(s.settings_visible());

    // Row 0 is the theme choice (mocha → latte → auto → mocha).
    assert_eq!(s.settings().unwrap().values[0], "mocha");
    let change = s.settings_change(1).unwrap();
    assert_eq!(change, SettingWrite::Assign { key: "tui.theme", value: "latte".into() });
    assert_eq!(s.settings().unwrap().values[0], "latte");
    // Live application swaps the palette.
    assert_eq!(*s.palette(), Palette::latte());

    // Row 1 is the notifications toggle (default on → off).
    s.settings_move(1);
    assert_eq!(s.settings().unwrap().cursor, 1);
    let change = s.settings_change(1).unwrap();
    assert_eq!(change, SettingWrite::Assign { key: "tui.toasts", value: "false".into() });

    s.close_settings();
    assert!(!s.settings_visible());
}

#[test]
fn docker_daemon_auto_choice_unsets_the_key() {
    let mut s = TuiState::default();
    s.open_settings();
    // Jump to the docker.daemon row (last setting).
    s.settings_move(-1);
    assert_eq!(s.settings().unwrap().cursor, settings_table().len() - 1);
    // Defaults to `auto` (the unset sentinel).
    let row = s.settings().unwrap().cursor;
    assert_eq!(s.settings().unwrap().values[row], "auto");
    // Forward to a real daemon → a Set.
    let change = s.settings_change(1).unwrap();
    assert_eq!(change, SettingWrite::Assign { key: "docker.daemon", value: "orbstack".into() });
    // Back to `auto` → an Unset.
    let change = s.settings_change(-1).unwrap();
    assert_eq!(change, SettingWrite::Unset { key: "docker.daemon" });
}

#[test]
fn disabling_toasts_suppresses_transition_notifications() {
    let running = || ServiceState::Running { degraded: false, started_without: vec![] };
    let mut s = TuiState::default();
    s.set_config({
        let mut c = GlobalConfig::default();
        c.set("tui.toasts", "false");
        c
    });
    s.apply(ServerMessage::Subscribed {
        instance: test_instance(),
        services: vec![ServiceSnapshot { state: running(), ..svc("api") }],
        steps: vec![],
    });
    // A crash that would normally raise a toast stays silent.
    s.apply(ServerMessage::StatusUpdate {
        service: "api".into(),
        state: ServiceState::Failed { exit_code: Some(1) },
        pid: None,
        port: None,
        restart_count: 0,
    });
    assert!(s.toasts().is_empty(), "toasts should be suppressed when disabled");
    // But a config-parse warning still surfaces (it is never held back).
    s.push_config_warning("broken");
    assert_eq!(s.toasts().len(), 1);
}

#[test]
fn confirm_quit_reads_config_and_toggles_modal() {
    let mut s = TuiState::default();
    // Default-on: an unset key means "confirm before quitting".
    assert!(s.confirm_quit_enabled());
    // Explicit opt-out disables it.
    s.set_config({
        let mut c = GlobalConfig::default();
        c.set("tui.confirm_quit", "false");
        c
    });
    assert!(!s.confirm_quit_enabled());
    // Re-enabling asks again.
    s.set_config({
        let mut c = GlobalConfig::default();
        c.set("tui.confirm_quit", "true");
        c
    });
    assert!(s.confirm_quit_enabled());
    assert!(!s.quit_confirm_visible());
    s.open_quit_confirm();
    assert!(s.quit_confirm_visible());
    s.cancel_quit_confirm();
    assert!(!s.quit_confirm_visible());
}

#[test]
fn toggle_zoom_flips_fullscreen_logs() {
    let mut s = TuiState::default();
    assert!(!s.zoom());
    s.toggle_zoom();
    assert!(s.zoom());
    s.exit_zoom();
    assert!(!s.zoom());
}

#[test]
fn settings_move_wraps() {
    let mut s = TuiState::default();
    s.open_settings();
    s.settings_move(-1);
    assert_eq!(s.settings().unwrap().cursor, settings_table().len() - 1);
}

#[test]
fn git_ahead_behind_attaches_to_instance() {
    let mut s = TuiState::default();
    s.apply(snapshot_msg(&["api"]));
    let idx = s.find_instance("test-id").unwrap();
    assert_eq!(s.instance_ahead_behind(idx), None);
    s.set_git_ahead_behind("test-id", 3, 1);
    assert_eq!(s.instance_ahead_behind(idx), Some((3, 1)));
}

#[test]
fn git_refresh_relabels_on_branch_checkout() {
    // The worktree row starts labelled "test"; a background refresh that
    // reports a new branch re-labels it in place and updates the counts.
    let mut s = TuiState::default();
    s.apply(snapshot_msg(&["api"]));
    let idx = s.find_instance("test-id").unwrap();
    assert_eq!(s.instances()[idx], "test");

    s.apply_git_refresh("test-id", Some("feature/x".into()), Some((2, 0)));
    assert_eq!(s.instances()[idx], "feature/x");
    assert_eq!(s.instance_ahead_behind(idx), Some((2, 0)));

    // Switching to a branch with no upstream clears the stale counts but
    // still re-labels.
    s.apply_git_refresh("test-id", Some("main".into()), None);
    assert_eq!(s.instances()[idx], "main");
    assert_eq!(s.instance_ahead_behind(idx), None);
}

#[test]
fn git_refresh_keeps_label_when_branch_unknown() {
    // A detached HEAD / transient git failure (branch = None) must not
    // blank the last-known label.
    let mut s = TuiState::default();
    s.apply(snapshot_msg(&["api"]));
    let idx = s.find_instance("test-id").unwrap();
    s.apply_git_refresh("test-id", None, None);
    assert_eq!(s.instances()[idx], "test");
}

#[test]
fn subscribed_message_populates_services_and_selects_first() {
    let mut s = TuiState::default();
    s.apply(snapshot_msg(&["db", "backend"]));
    assert_eq!(s.services().len(), 2);
    assert_eq!(s.selected_service().unwrap().name, "db");
}

#[test]
fn empty_subscribed_clears_selection() {
    let mut s = TuiState::default();
    s.apply(snapshot_msg(&["db"]));
    s.apply(snapshot_msg(&[]));
    assert!(s.selected_service().is_none());
}

#[test]
fn status_update_replaces_service_state() {
    let mut s = TuiState::default();
    s.apply(snapshot_msg(&["db"]));
    s.apply(ServerMessage::StatusUpdate {
        service: "db".into(),
        state: ServiceState::Running {
            degraded: false,
            started_without: vec![],
        },
        pid: Some(1234),
        port: Some(5432),
        restart_count: 0,
    });
    assert!(matches!(
        s.services()[0].state,
        ServiceState::Running { .. }
    ));
}

#[test]
fn status_update_for_unknown_service_is_ignored() {
    let mut s = TuiState::default();
    s.apply(snapshot_msg(&["db"]));
    s.apply(ServerMessage::StatusUpdate {
        service: "ghost".into(),
        state: ServiceState::Running {
            degraded: false,
            started_without: vec![],
        },
        pid: None,
        port: None,
        restart_count: 0,
    });
    // No new service was added; "db" is unchanged.
    assert_eq!(s.services().len(), 1);
    assert!(matches!(s.services()[0].state, ServiceState::Stopped));
}

#[test]
fn step_status_update_replaces_step_state() {
    let mut s = TuiState::default();
    s.apply(ServerMessage::Subscribed {
        instance: test_instance(),
        services: vec![],
        steps: vec![StepSnapshot {
            name: "tools".into(),
            state: StepState::Unknown,
        }],
    });
    s.apply(ServerMessage::StepStatusUpdate {
        step: "tools".into(),
        state: StepState::Passed,
    });
    assert_eq!(s.steps()[0].state, StepState::Passed);
}

#[test]
fn select_next_service_wraps_around_at_end() {
    let mut s = TuiState::default();
    s.apply(snapshot_msg(&["a", "b", "c"]));
    s.select_next_service();
    s.select_next_service();
    assert_eq!(s.selected_service().unwrap().name, "c");
    s.select_next_service(); // wraps to "a"
    assert_eq!(s.selected_service().unwrap().name, "a");
}

#[test]
fn select_prev_service_wraps_around_at_start() {
    let mut s = TuiState::default();
    s.apply(snapshot_msg(&["a", "b", "c"]));
    s.select_prev_service();
    assert_eq!(s.selected_service().unwrap().name, "c");
}

#[test]
fn log_scroll_pages_back_then_returns_to_tail() {
    let mut s = TuiState::default();
    s.apply(snapshot_msg(&["api"]));
    let enc = |t: &str| base64::engine::general_purpose::STANDARD.encode(t.as_bytes());
    for i in 0..50 {
        s.apply(ServerMessage::LogChunk {
            service: "api".into(),
            bytes: enc(&format!("line {i}")),
            ts: i as u64,
        });
    }
    assert_eq!(s.log_scroll_offset(), 0);
    s.log_page_up(10);
    assert_eq!(s.log_scroll_offset(), 10);
    s.log_page_up(10);
    assert_eq!(s.log_scroll_offset(), 20);
    s.log_page_down(15);
    assert_eq!(s.log_scroll_offset(), 5);
    s.log_scroll_top();
    // Default viewport_height is 20, so max scroll = 50 - 20 = 30.
    assert_eq!(s.log_scroll_offset(), 30);
    s.log_scroll_bottom();
    assert_eq!(s.log_scroll_offset(), 0);
}

#[test]
fn click_selects_stack_and_shared() {
    let mut s = TuiState::default();
    // Two stack rows (2 tall each) then a shared row, as the sidebar lays
    // them out.
    s.push_click_region(0, 1, 22, 2, ClickTarget::Stack(0));
    s.push_click_region(0, 3, 22, 2, ClickTarget::Stack(1));
    s.push_click_region(0, 6, 22, 2, ClickTarget::Shared);

    assert!(s.click_at(5, 4)); // inside Stack(1)
    assert_eq!(s.selected_instance_index(), Some(1));
    assert!(!s.shared_selected());

    assert!(s.click_at(0, 6)); // shared row
    assert!(s.shared_selected());

    assert!(!s.click_at(50, 50)); // nothing there
}

#[test]
fn begin_frame_hits_clears_hit_map() {
    let mut s = TuiState::default();
    s.push_click_region(0, 0, 10, 2, ClickTarget::Stack(0));
    s.set_scrollbar_hit(40, 0, 10, 100, 20);
    s.begin_frame_hits();
    assert!(!s.click_at(1, 1)); // region gone
    assert!(!s.scrollbar_at(40, 3)); // scrollbar gone
}

#[test]
fn scrollbar_at_matches_track_column_and_rows() {
    let mut s = TuiState::default();
    s.set_scrollbar_hit(40, 2, 10, 100, 20);
    assert!(s.scrollbar_at(40, 2)); // top of track
    assert!(s.scrollbar_at(40, 11)); // bottom of track (y+h-1)
    assert!(!s.scrollbar_at(40, 12)); // just below
    assert!(!s.scrollbar_at(41, 5)); // wrong column
    assert!(!s.scrollbar_at(40, 1)); // just above
}

#[test]
fn scrollbar_drag_maps_top_to_oldest_bottom_to_tail() {
    let mut s = TuiState::default();
    s.apply(snapshot_msg(&["api"]));
    let enc = |t: &str| base64::engine::general_purpose::STANDARD.encode(t.as_bytes());
    for i in 0..50 {
        s.apply(ServerMessage::LogChunk {
            service: "api".into(),
            bytes: enc(&format!("line {i}")),
            ts: i as u64,
        });
    }
    // 50 lines, viewport 20 → max scroll 30. Track spans rows 0..10.
    s.set_scrollbar_hit(40, 0, 10, 50, 20);

    s.scrollbar_drag_to(0); // top → oldest
    assert_eq!(s.log_scroll_offset(), 30);
    s.scrollbar_drag_to(9); // bottom → live tail
    assert_eq!(s.log_scroll_offset(), 0);
    s.scrollbar_drag_to(4); // ~middle, lands between the ends
    let mid = s.log_scroll_offset();
    assert!((1..30).contains(&mid), "mid offset {mid} not strictly between ends");
}

#[test]
fn scrolled_viewport_stays_stable_when_new_logs_arrive() {
    // Once the user has scrolled up, new lines must NOT push the window
    // forward — they should accumulate behind the user. The visible
    // "end" of the logs (logs.len() - scroll_offset) must point to the
    // same line before and after.
    let mut s = TuiState::default();
    s.apply(snapshot_msg(&["api"]));
    let enc = |t: &str| base64::engine::general_purpose::STANDARD.encode(t.as_bytes());
    for i in 0..30 {
        s.apply(ServerMessage::LogChunk {
            service: "api".into(),
            bytes: enc(&format!("line {i}")),
            ts: i as u64,
        });
    }
    s.log_page_up(10);
    // Visible "end" line index right after page-up.
    let end_before =
        s.service_logs("api").len() - s.log_scroll_offset();
    let line_before = s
        .service_logs("api")
        .get(end_before - 1)
        .cloned()
        .unwrap();
    for i in 30..40 {
        s.apply(ServerMessage::LogChunk {
            service: "api".into(),
            bytes: enc(&format!("line {i}")),
            ts: i as u64,
        });
    }
    let end_after = s.service_logs("api").len() - s.log_scroll_offset();
    let line_after = s
        .service_logs("api")
        .get(end_after - 1)
        .cloned()
        .unwrap();
    assert_eq!(
        line_before, line_after,
        "viewport bottom drifted while user was scrolled off-tail"
    );
}

#[test]
fn scroll_at_tail_keeps_following_new_logs() {
    // The complement of the above: when offset == 0, new lines should
    // continue to be visible (auto-follow), i.e., offset stays at 0.
    let mut s = TuiState::default();
    s.apply(snapshot_msg(&["api"]));
    let enc = |t: &str| base64::engine::general_purpose::STANDARD.encode(t.as_bytes());
    for i in 0..10 {
        s.apply(ServerMessage::LogChunk {
            service: "api".into(),
            bytes: enc(&format!("line {i}")),
            ts: i as u64,
        });
    }
    assert_eq!(s.log_scroll_offset(), 0);
}

#[test]
fn log_scroll_clamps_to_buffer_length() {
    let mut s = TuiState::default();
    s.apply(snapshot_msg(&["api"]));
    let enc = |t: &str| base64::engine::general_purpose::STANDARD.encode(t.as_bytes());
    for i in 0..5 {
        s.apply(ServerMessage::LogChunk {
            service: "api".into(),
            bytes: enc(&format!("line {i}")),
            ts: i as u64,
        });
    }
    s.log_page_up(100);
    // 5 lines, viewport 20 → all lines fit, max scroll = 0.
    assert_eq!(s.log_scroll_offset(), 0, "should clamp: all lines fit viewport");
}

#[test]
fn log_scroll_is_independent_per_service() {
    let mut s = TuiState::default();
    s.set_viewport_height(10);
    s.apply(snapshot_msg(&["a", "b"]));
    let enc = |t: &str| base64::engine::general_purpose::STANDARD.encode(t.as_bytes());
    for n in 0..30 {
        s.apply(ServerMessage::LogChunk {
            service: "a".into(),
            bytes: enc(&format!("a-{n}")),
            ts: n,
        });
        s.apply(ServerMessage::LogChunk {
            service: "b".into(),
            bytes: enc(&format!("b-{n}")),
            ts: n,
        });
    }
    s.log_page_up(5); // scrolling "a"
    assert_eq!(s.log_scroll_offset(), 5);
    s.select_next_service(); // now "b" is selected
    assert_eq!(s.log_scroll_offset(), 0, "b should not inherit a's scroll");
    s.select_prev_service(); // back to "a"
    assert_eq!(s.log_scroll_offset(), 5, "a's scroll should persist");
}

#[test]
fn instance_navigation_wraps_through_added_instances() {
    let mut s = TuiState::default();
    s.add_instance("first");
    s.add_instance("second");
    s.add_instance("third");
    assert_eq!(s.instance_label(), "first");
    s.select_next_instance();
    assert_eq!(s.instance_label(), "second");
    s.select_next_instance();
    s.select_next_instance(); // wraps back to first
    assert_eq!(s.instance_label(), "first");
    s.select_prev_instance(); // wraps to last
    assert_eq!(s.instance_label(), "third");
}

#[test]
fn instance_navigation_is_a_noop_with_a_single_instance() {
    let mut s = TuiState::default();
    s.set_instance_label("only");
    s.select_next_instance();
    s.select_prev_instance();
    assert_eq!(s.instance_label(), "only");
}

#[test]
fn service_and_instance_navigation_are_independent() {
    // Multi-instance semantics: each instance carries its own
    // services + selected_service. Switching between instances must
    // not reset the per-instance service selection.
    let mut s = TuiState::default();

    let info_a = InstanceInfo {
        id: "a".into(),
        label: "repo-a".into(),
        cwd: "/a".into(),
    };
    let info_b = InstanceInfo {
        id: "b".into(),
        label: "repo-b".into(),
        cwd: "/b".into(),
    };
    s.apply(ServerMessage::Subscribed {
        instance: info_a,
        services: vec![svc("api"), svc("db")],
        steps: vec![],
    });
    s.apply(ServerMessage::Subscribed {
        instance: info_b,
        services: vec![svc("api"), svc("db")],
        steps: vec![],
    });

    // Both instances exist; we're still on the first (repo-a).
    assert_eq!(s.instance_label(), "repo-a");
    s.select_next_service();
    assert_eq!(s.selected_service().unwrap().name, "db");

    // Switch to repo-b — its own selected_service starts at index 0.
    s.select_next_instance();
    assert_eq!(s.instance_label(), "repo-b");
    assert_eq!(s.selected_service().unwrap().name, "api");

    // Switch back — repo-a's selection survived.
    s.select_prev_instance();
    assert_eq!(s.instance_label(), "repo-a");
    assert_eq!(s.selected_service().unwrap().name, "db");
}

#[test]
fn log_chunks_append_to_per_service_buffer() {
    let mut s = TuiState::default();
    s.apply(snapshot_msg(&["db", "api"]));
    let enc = |t: &str| base64::engine::general_purpose::STANDARD.encode(t.as_bytes());

    s.apply(ServerMessage::LogChunk {
        service: "db".into(),
        bytes: enc("postgres ready"),
        ts: 1,
    });
    s.apply(ServerMessage::LogChunk {
        service: "api".into(),
        bytes: enc("listening on 8080"),
        ts: 2,
    });
    s.apply(ServerMessage::LogChunk {
        service: "db".into(),
        bytes: enc("connection accepted"),
        ts: 3,
    });

    let db_logs: Vec<_> = s.service_logs("db").iter().cloned().collect();
    let api_logs: Vec<_> = s.service_logs("api").iter().cloned().collect();
    assert_eq!(db_logs, vec!["postgres ready", "connection accepted"]);
    assert_eq!(api_logs, vec!["listening on 8080"]);
    assert!(s.service_logs("ghost").is_empty());
}

#[test]
fn apply_from_routes_log_chunks_to_the_source_instance_only() {
    // Two instances subscribed; log chunks tagged with each instance's
    // id must land in that instance's buffer, not the currently-
    // selected one.
    let mut s = TuiState::default();
    let a = InstanceInfo { id: "A".into(), label: "a".into(), cwd: "/a".into() };
    let b = InstanceInfo { id: "B".into(), label: "b".into(), cwd: "/b".into() };
    s.apply_from(
        "A",
        ServerMessage::Subscribed {
            instance: a.clone(),
            services: vec![svc("api")],
            steps: vec![],
        },
    );
    s.apply_from(
        "B",
        ServerMessage::Subscribed {
            instance: b.clone(),
            services: vec![svc("api")],
            steps: vec![],
        },
    );
    // Even though instance "B" is the second one added, route a log
    // chunk tagged from "A" — it must land in A.
    let enc = |t: &str| base64::engine::general_purpose::STANDARD.encode(t.as_bytes());
    s.apply_from(
        "A",
        ServerMessage::LogChunk {
            service: "api".into(),
            bytes: enc("only for A"),
            ts: 0,
        },
    );

    // Switch selection to A, read its logs — should see the line.
    s.select_instance_by_id("A");
    let a_logs: Vec<_> = s.service_logs("api").iter().cloned().collect();
    assert_eq!(a_logs, vec!["only for A"]);

    // Switch selection to B, read its logs — should be empty.
    s.select_instance_by_id("B");
    let b_logs: Vec<_> = s.service_logs("api").iter().cloned().collect();
    assert!(b_logs.is_empty(), "log chunk leaked to B: {b_logs:?}");
}

#[test]
fn selected_instance_and_service_returns_id_and_service_name() {
    let mut s = TuiState::default();
    s.apply(snapshot_msg(&["db", "api"]));
    let (id, name) = s.selected_instance_and_service().unwrap();
    assert_eq!(id, "test-id");
    assert_eq!(name, "db");
    s.select_next_service();
    let (_, name) = s.selected_instance_and_service().unwrap();
    assert_eq!(name, "api");
}

#[test]
fn log_buffer_drops_oldest_when_capacity_reached() {
    let mut s = TuiState::default();
    s.apply(snapshot_msg(&["svc"]));
    let enc = |t: &str| base64::engine::general_purpose::STANDARD.encode(t.as_bytes());
    // Push more than TUI_LOG_CAP lines.
    for i in 0..(LOG_CAP + 5) {
        s.apply(ServerMessage::LogChunk {
            service: "svc".into(),
            bytes: enc(&format!("line {i}")),
            ts: i as u64,
        });
    }
    let buf: Vec<_> = s.service_logs("svc").iter().cloned().collect();
    assert_eq!(buf.len(), LOG_CAP);
    // Oldest survivor should be line 5 (lines 0..=4 evicted).
    assert_eq!(buf.first().unwrap(), "line 5");
    assert_eq!(buf.last().unwrap(), &format!("line {}", LOG_CAP + 4));
}


#[test]
fn addr_in_use_detected_in_logs() {
    let mut logs = VecDeque::new();
    logs.push_back("Error: listen EADDRINUSE: address already in use :::3000".to_string());
    assert!(logs_show_addr_in_use(&logs));

    let mut pg = VecDeque::new();
    pg.push_back("FATAL: could not create lock file: Address already in use".to_string());
    assert!(logs_show_addr_in_use(&pg));

    let mut clean = VecDeque::new();
    clean.push_back("server listening on 3000".to_string());
    assert!(!logs_show_addr_in_use(&clean));
}

#[test]
fn options_from_container_with_project() {
    let h = Holder::Container { name: "pg-1".into(), project: Some("proj".into()) };
    let d = PortConflictDialog::from_holder("id".into(), "db".into(), 5432, h);
    assert_eq!(d.options.len(), 3);
    assert!(d.options[0].label.contains("Stop container pg-1"));
    assert!(d.options[1].label.contains("Compose down proj"));
    assert_eq!(d.options[2].action, PortConflictAction::Skip);
    assert_eq!(d.holder_desc, "container pg-1 (compose: proj)");
}

#[test]
fn options_from_process_offer_kill_then_skip() {
    let h = Holder::Process(vec![(123, Some("node".into()))]);
    let d = PortConflictDialog::from_holder("id".into(), "web".into(), 3000, h);
    assert_eq!(d.options.len(), 2);
    assert!(d.options[0].label.contains("Kill node (123)"));
    assert_eq!(d.options[0].action, PortConflictAction::KillProcess(vec![123]));
    assert_eq!(d.options[1].action, PortConflictAction::Skip);
}

#[test]
fn port_conflict_move_wraps_both_ways() {
    let mut s = TuiState::default();
    s.open_port_conflict(
        "id".into(),
        "db".into(),
        5432,
        Holder::Container { name: "c".into(), project: None },
    );
    // options: [Stop, Skip]
    assert_eq!(s.port_conflict().unwrap().selected, 0);
    s.port_conflict_move(-1);
    assert_eq!(s.port_conflict().unwrap().selected, 1);
    s.port_conflict_move(1);
    assert_eq!(s.port_conflict().unwrap().selected, 0);
}

#[test]
fn take_choice_returns_selection_and_closes() {
    let mut s = TuiState::default();
    s.open_port_conflict("inst".into(), "db".into(), 5432, Holder::Process(vec![(9, None)]));
    let (id, svc, action) = s.take_port_conflict_choice().unwrap();
    assert_eq!(id, "inst");
    assert_eq!(svc, "db");
    assert_eq!(action, PortConflictAction::KillProcess(vec![9]));
    assert!(!s.port_conflict_visible());
}

#[test]
fn crash_with_addr_in_use_log_queues_a_probe() {
    let mut s = TuiState::default();
    s.apply(snapshot_msg(&["db"]));
    // A log line showing the bind failure arrives first…
    let enc = |t: &str| base64::engine::general_purpose::STANDARD.encode(t.as_bytes());
    s.apply(ServerMessage::LogChunk {
        service: "db".into(),
        bytes: enc("Error: bind: address already in use"),
        ts: 1,
    });
    // …then the daemon marks the service Failed, carrying the port.
    s.apply(ServerMessage::StatusUpdate {
        service: "db".into(),
        state: ServiceState::Failed { exit_code: Some(1) },
        pid: None,
        port: Some(5432),
        restart_count: 0,
    });
    assert_eq!(
        s.take_pending_port_conflict(),
        Some((test_instance().id, "db".to_string(), 5432)),
    );
}

#[test]
fn crash_without_addr_in_use_does_not_queue() {
    let mut s = TuiState::default();
    s.apply(snapshot_msg(&["db"]));
    let enc = |t: &str| base64::engine::general_purpose::STANDARD.encode(t.as_bytes());
    s.apply(ServerMessage::LogChunk {
        service: "db".into(),
        bytes: enc("panic: nil pointer dereference"),
        ts: 1,
    });
    s.apply(ServerMessage::StatusUpdate {
        service: "db".into(),
        state: ServiceState::Failed { exit_code: Some(2) },
        pid: None,
        port: Some(5432),
        restart_count: 0,
    });
    assert_eq!(s.take_pending_port_conflict(), None);
}

#[test]
fn fresh_state_never_signals_shutdown() {
    // No daemon ever attached → nothing to shut down, never auto-exit.
    let s = TuiState::default();
    assert!(!s.all_daemons_shut_down());
}

#[test]
fn placeholder_only_sidebar_does_not_signal_shutdown() {
    // A discovered worktree with no daemon doesn't count as a live daemon,
    // so the TUI stays up waiting rather than exiting on launch.
    let mut s = TuiState::default();
    s.add_placeholder_instance("place", "feature/b", "/tmp/b");
    assert!(!s.all_daemons_shut_down());
}

#[test]
fn goodbye_removes_instance_and_signals_shutdown_when_last() {
    let mut s = TuiState::default();
    s.apply_from(
        "A",
        ServerMessage::Subscribed {
            instance: InstanceInfo { id: "A".into(), label: "a".into(), cwd: "/a".into() },
            services: vec![svc("api")],
            steps: vec![],
        },
    );
    assert!(s.has_instance("A"));
    assert!(!s.all_daemons_shut_down(), "live daemon present");

    // The daemon shuts down deliberately → Goodbye drops the row, and
    // with no daemon left the TUI should exit.
    s.apply_from("A", ServerMessage::Goodbye { reason: "shutdown requested".into() });
    assert!(!s.has_instance("A"), "Goodbye should drop the instance row");
    assert!(s.all_daemons_shut_down());
}

#[test]
fn goodbye_for_one_worktree_keeps_tui_up_while_another_lives() {
    let mut s = TuiState::default();
    for id in ["A", "B"] {
        s.apply_from(
            id,
            ServerMessage::Subscribed {
                instance: InstanceInfo { id: id.into(), label: id.into(), cwd: format!("/{id}") },
                services: vec![svc("api")],
                steps: vec![],
            },
        );
    }
    // Down one worktree — the other is still live, so don't exit.
    s.apply_from("A", ServerMessage::Goodbye { reason: "shutdown requested".into() });
    assert!(!s.has_instance("A"));
    assert!(s.has_instance("B"));
    assert!(!s.all_daemons_shut_down());

    // Down the last one — now exit.
    s.apply_from("B", ServerMessage::Goodbye { reason: "shutdown requested".into() });
    assert!(s.all_daemons_shut_down());
}

#[test]
fn crashed_daemon_does_not_signal_shutdown() {
    // A crash closes the socket without a Goodbye: the row stays, its
    // service keeps a (failed) state, and the TUI keeps running so it can
    // re-attach when the daemon restarts.
    let mut s = TuiState::default();
    s.apply_from(
        "A",
        ServerMessage::Subscribed {
            instance: InstanceInfo { id: "A".into(), label: "a".into(), cwd: "/a".into() },
            services: vec![svc("api")],
            steps: vec![],
        },
    );
    s.apply_from(
        "A",
        ServerMessage::StatusUpdate {
            service: "api".into(),
            state: ServiceState::Failed { exit_code: Some(1) },
            pid: None,
            port: None,
            restart_count: 0,
        },
    );
    // No Goodbye was sent — instance remains, so we keep watching.
    assert!(s.has_instance("A"));
    assert!(!s.all_daemons_shut_down());
}

#[test]
fn external_down_parks_in_stopped_then_clears_on_reattach() {
    let mut s = TuiState::default();
    // A live daemon attaches…
    s.apply_from(
        "A",
        ServerMessage::Subscribed {
            instance: InstanceInfo { id: "A".into(), label: "a".into(), cwd: "/a".into() },
            services: vec![svc("api")],
            steps: vec![],
        },
    );
    // …then `devme down` elsewhere drains it.
    s.apply_from("A", ServerMessage::Goodbye { reason: "down".into() });
    assert!(s.all_daemons_shut_down());
    assert!(!s.stopped(), "not stopped until the event loop enters it");

    s.enter_stopped(Some("kpi-dash".into()));
    assert!(s.stopped());
    assert_eq!(s.stopped_repo(), Some("kpi-dash"));

    // A fresh `devme up` reattaches a daemon → no longer all-shut-down,
    // and the event loop clears the stopped state.
    s.apply_from(
        "A",
        ServerMessage::Subscribed {
            instance: InstanceInfo { id: "A".into(), label: "a".into(), cwd: "/a".into() },
            services: vec![svc("api")],
            steps: vec![],
        },
    );
    assert!(!s.all_daemons_shut_down());
    s.clear_stopped();
    assert!(!s.stopped());
    assert_eq!(s.stopped_repo(), None);
}

#[test]
fn entering_stopped_dismisses_open_overlays() {
    let mut s = TuiState::default();
    s.open_settings();
    s.toggle_help();
    assert!(s.settings_visible() || s.help_visible());
    s.enter_stopped(None);
    assert!(!s.settings_visible());
    assert!(!s.help_visible());
    assert!(s.stopped());
}

#[test]
fn the_configuration_directory_follows_the_environment() {
    assert_eq!(config_dir(Some("/x"), Some("/h")).as_deref(), Some("/x/devme"));
    assert_eq!(config_dir(None, Some("/h")).as_deref(), Some("/h/.config/devme"));
    assert_eq!(config_dir(None, None), None);
}

#[test]
fn the_install_hint_backs_off() {
    assert!(check_skill_hint_eligible(None, false, false, true, None));
    assert!(!check_skill_hint_eligible(Some("false"), false, false, true, None));
    assert!(!check_skill_hint_eligible(None, true, false, true, None));
    assert!(!check_skill_hint_eligible(None, false, true, true, None));
    assert!(!check_skill_hint_eligible(None, false, false, false, None));
    let mut file: Option<String> = None;
    for shown in 1..5u64 {
        assert!(check_skill_hint_eligible(None, false, false, true, file.as_deref()));
        let next = record_skill_hint_shown(file.as_deref(), 17);
        assert_eq!(next, format!("{shown}\n17"));
        assert_eq!(hint_count_of(&next), shown);
        file = Some(next);
    }
    assert!(!check_skill_hint_eligible(None, false, false, true, file.as_deref()));
    assert_eq!(hint_count_of("junk"), 0);
}

fn log(s: &mut TuiState, source: &str, service: &str, text: &str) {
    s.apply_from(
        source,
        ServerMessage::LogChunk {
            service: service.into(),
            bytes: base64::engine::general_purpose::STANDARD.encode(text),
            ts: 0,
        },
    );
}

#[test]
fn logs_of_an_unknown_daemon_or_a_bad_payload_are_dropped() {
    let mut s = TuiState::default();
    s.apply(snapshot_msg(&["api"]));
    log(&mut s, "nobody", "api", "x");
    s.apply_from(
        "test-id",
        ServerMessage::LogChunk { service: "api".into(), bytes: "!!".into(), ts: 0 },
    );
    assert!(s.service_logs("api").is_empty());
    log(&mut s, "test-id", "api", "a\r\n\n\nb");
    assert_eq!(s.service_logs("api").len(), 2);
    assert_eq!(s.service_logs("api")[0], "a");
}

#[test]
fn a_daemon_has_one_row() {
    let mut s = TuiState::default();
    s.add_placeholder_instance("test-id", "test", "/tmp");
    s.apply(snapshot_msg(&["api"]));
    s.apply(snapshot_msg(&["api", "web"]));
    s.add_placeholder_instance("test-id", "test", "/tmp");
    assert_eq!(s.instances().len(), 1);
    log(&mut s, "test-id", "api", "kept");
    s.apply(snapshot_msg(&["api"]));
    assert_eq!(s.service_logs("api").len(), 1);
}

#[test]
fn moving_back_undoes_a_move() {
    let mut s = TuiState::default();
    s.apply(snapshot_msg(&["a", "b", "c"]));
    s.select_next_service();
    s.select_prev_service();
    assert_eq!(s.selected_service().unwrap().name, "a");
    s.select_prev_service();
    assert_eq!(s.selected_service().unwrap().name, "c");
    s.select_next_service();
    assert_eq!(s.selected_service().unwrap().name, "a");
    s.open_settings();
    for _ in 0..3 {
        let before = s.settings().unwrap().values[0].clone();
        s.settings_change(1);
        s.settings_change(-1);
        assert_eq!(s.settings().unwrap().values[0], before);
        s.settings_change(1);
    }
    s.settings_move(5);
    s.settings_move(-5);
    assert_eq!(s.settings().unwrap().cursor, 0);
}

#[test]
fn settings_read_back_when_the_overlay_opens_again() {
    let mut s = TuiState::default();
    for row in 0..settings_table().len() {
        s.open_settings();
        s.settings_move(row as i32);
        s.settings_change(1);
        let shown = s.settings().unwrap().values.clone();
        s.close_settings();
        s.open_settings();
        assert_eq!(s.settings().unwrap().values, shown);
    }
}

#[test]
fn old_toasts_leave_the_corner() {
    let mut s = TuiState::default();
    s.notify("a", "old");
    s.notify("b", "young");
    s.tick_at(&vec![5, 4]);
    assert_eq!(s.toasts().len(), 1);
    assert_eq!(s.toasts()[0].body, "young");
    assert_eq!(s.notifications().len(), 2);
}

#[test]
fn the_oldest_notification_makes_room() {
    let mut s = TuiState::default();
    for i in 0..201 {
        s.notify("n", &format!("{i}"));
    }
    assert_eq!(s.notifications().len(), 200);
    assert_eq!(s.notifications()[0].body, "1");
    assert_eq!(s.toasts().len(), MAX_TOASTS);
}

#[test]
fn a_click_beside_everything_does_nothing() {
    let mut s = TuiState::default();
    s.apply(snapshot_msg(&["a", "b"]));
    s.push_click_region(0, 0, 5, 1, ClickTarget::Tab(1));
    assert!(!s.click_at(5, 0));
    assert_eq!(s.selected_service().unwrap().name, "a");
    assert!(s.click_at(4, 0));
    assert_eq!(s.selected_service().unwrap().name, "b");
}

#[test]
fn ages_read_in_the_largest_unit() {
    assert_eq!(age_label_for(59), "59s");
    assert_eq!(age_label_for(60), "1m");
    assert_eq!(age_label_for(3_600), "1h");
    assert_eq!(age_label_for(90_000), "1d");
}

#[test]
fn scrolled_viewport_stays_stable_in_a_full_buffer() {
    let enc = |t: &str| base64::engine::general_purpose::STANDARD.encode(t.as_bytes());
    let push = |s: &mut TuiState, from: usize, to: usize| {
        let text: Vec<String> = (from..to).map(|i| format!("line {i}")).collect();
        s.apply(ServerMessage::LogChunk {
            service: "api".into(),
            bytes: enc(&text.join("\n")),
            ts: to as u64,
        });
    };
    let shown = |s: &TuiState| -> Vec<String> {
        s.visible_log_lines().into_iter().map(|l| l.to_string()).collect()
    };
    let mut s = TuiState::default();
    s.apply(snapshot_msg(&["api"]));
    s.set_viewport_height(10);
    push(&mut s, 0, 1000);
    s.log_page_up(100);
    let before = shown(&s);
    assert_eq!(before.last().map(String::as_str), Some("line 899"));

    // The buffer is full: one line comes, one goes.
    push(&mut s, 1000, 1001);
    assert_eq!(s.service_logs("api").len(), 1000);
    assert_eq!(s.log_scroll_offset(), 101);
    assert_eq!(shown(&s), before);

    // A chunk of several lines, with blank ones that do not count.
    s.apply(ServerMessage::LogChunk {
        service: "api".into(),
        bytes: enc("a\n\r\n\nb\n"),
        ts: 1,
    });
    assert_eq!(s.log_scroll_offset(), 103);
    assert_eq!(shown(&s), before);

    // Until the lines on screen are dropped themselves.
    push(&mut s, 2000, 2887);
    assert_eq!(shown(&s), before);
    push(&mut s, 3000, 3005);
    assert_eq!(shown(&s), before[5..].to_vec());
    push(&mut s, 4000, 4100);
    assert_eq!(s.log_scroll_offset(), 1000);
    assert!(shown(&s).is_empty());
}

#[test]
fn scrolled_viewport_stays_stable_while_the_buffer_fills_up() {
    let enc = |t: &str| base64::engine::general_purpose::STANDARD.encode(t.as_bytes());
    let lines = |from: usize, to: usize| -> String {
        (from..to).map(|i| format!("line {i}")).collect::<Vec<_>>().join("\n")
    };
    let mut s = TuiState::default();
    s.apply(snapshot_msg(&["api"]));
    s.apply(ServerMessage::LogChunk {
        service: "api".into(),
        bytes: enc(&lines(0, 990)),
        ts: 1,
    });
    s.log_page_up(40);
    // Ten lines find room and ten more push old ones out.
    s.apply(ServerMessage::LogChunk {
        service: "api".into(),
        bytes: enc(&lines(990, 1010)),
        ts: 2,
    });
    assert_eq!(s.log_scroll_offset(), 60);
    let logs = s.service_logs("api");
    assert_eq!(logs.len(), 1000);
    assert_eq!(logs[logs.len() - 61], "line 949");
}

#[test]
fn removed_worktrees_lose_their_row() {
    let mut s = TuiState::default();
    s.apply(snapshot_msg(&["api"]));
    s.add_placeholder_instance("other", "feature", "/tmp/feature");
    assert_eq!(s.instances().len(), 2);
    s.remove_instance_by_id("other");
    assert_eq!(s.instances().len(), 1);
    s.remove_instance_by_id("never seen");
    assert_eq!(s.instances().len(), 1);
    assert!(s.selected_service().is_some());
}

fn in_doubles(max: usize, rel: u16, span: u16) -> u128 {
    let frac = f64::from(rel) / f64::from(span);
    ((max as f64) * (1.0 - frac)).round() as u128
}

#[test]
fn track_shares_are_those_of_doubles() {
    for span in 1..=60u16 {
        for rel in 0..=span {
            for max in 1..=120usize {
                assert_eq!(share(max, rel, span), in_doubles(max, rel, span), "{max} {rel}/{span}");
            }
        }
    }
    let large = [
        999,
        1_000_001,
        (1 << 53) - 1,
        1 << 53,
        (1 << 53) + 1,
        (1 << 53) + 3,
        usize::MAX / 3,
        usize::MAX - 1024,
        usize::MAX,
    ];
    for max in large {
        for span in [1u16, 2, 3, 7, 10, 49, 255, 1000, 32_769, 65_534] {
            for step in 0..=50u16 {
                let rel = (u32::from(span) * u32::from(step) / 50) as u16;
                assert_eq!(share(max, rel, span), in_doubles(max, rel, span), "{max} {rel}/{span}");
            }
        }
    }
}

#[test]
fn scrollbar_ties_go_as_doubles_round() {
    let mut s = TuiState::default();
    s.apply(snapshot_msg(&["api"]));
    // Three lines beyond the viewport: the sixth of seven rows stands for just
    // under half a line, the fourth for one and a half.
    s.set_scrollbar_hit(79, 0, 7, 10, 7);
    s.scrollbar_drag_to(5);
    assert_eq!(s.log_scroll_offset(), 0);
    s.scrollbar_drag_to(3);
    assert_eq!(s.log_scroll_offset(), 2);
}
