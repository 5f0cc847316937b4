use std::time::Instant;

use devme_tui::codec::encode_payload;
use devme_tui::event_loop::pointer::{
    handle_mouse_at, pointer_shape_at, MouseEvent, MouseKind, PointerEffect, PointerShape,
};
use devme_tui::protocol::{
    Holder, InstanceInfo, ServerMessage, ServiceSnapshot, ServiceState, StepSnapshot, StepState,
};
use devme_tui::render::dialogs::{skill_places, SkillPlaces};
use devme_tui::render::frame::{divide, render, render_footer, Division, Panes, Surroundings};
use devme_tui::render::viewport::render_log_viewport;
use devme_tui::render::paint::{Draw, Flow, Ink, Line, LogLine, Rect, Style};
use devme_tui::render::panels::{InfoField, StackInfo};
use devme_tui::render::tabs::TabRow;
use devme_tui::keymap::bindings;
use devme_tui::state::{ClickTarget, TuiState};
use devme_tui::theme::Color;
use ratatui::backend::TestBackend;
use ratatui::buffer::Buffer;
use ratatui::layout::Alignment;
use ratatui::style::Modifier;
use ratatui::text::Text;
use ratatui::widgets::{
    Block, BorderType, Borders, Clear, Paragraph, Scrollbar, ScrollbarOrientation, ScrollbarState,
    Wrap,
};
use ratatui::{Frame, Terminal};

fn area_of(r: &Rect) -> ratatui::layout::Rect {
    ratatui::layout::Rect { x: r.x, y: r.y, width: r.width, height: r.height }
}

fn ink_of(ink: &Ink) -> ratatui::style::Color {
    match ink {
        Ink::Theme(Color::Rgb(r, g, b)) => ratatui::style::Color::Rgb(*r, *g, *b),
        Ink::Black => ratatui::style::Color::Black,
        Ink::Red => ratatui::style::Color::Red,
        Ink::Yellow => ratatui::style::Color::Yellow,
        Ink::Cyan => ratatui::style::Color::Cyan,
        Ink::Gray => ratatui::style::Color::Gray,
        Ink::DarkGray => ratatui::style::Color::DarkGray,
        Ink::White => ratatui::style::Color::White,
    }
}

fn style_of(s: &Style) -> ratatui::style::Style {
    let mut r = ratatui::style::Style::default();
    if let Some(fg) = &s.fg {
        r = r.fg(ink_of(fg));
    }
    if let Some(bg) = &s.bg {
        r = r.bg(ink_of(bg));
    }
    if s.bold {
        r = r.add_modifier(Modifier::BOLD);
    }
    if s.italic {
        r = r.add_modifier(Modifier::ITALIC);
    }
    r
}

fn line_of(l: &Line) -> ratatui::text::Line<'static> {
    let spans: Vec<ratatui::text::Span<'static>> = l
        .spans
        .iter()
        .map(|s| ratatui::text::Span::styled(s.text.clone(), style_of(&s.style)))
        .collect();
    ratatui::text::Line::from(spans)
}

fn log_line_of(l: &LogLine) -> ratatui::text::Line<'static> {
    let spans: Vec<ratatui::text::Span<'static>> = l
        .runs
        .iter()
        .map(|r| {
            let style = ratatui::style::Style {
                fg: r.fg.as_ref().and_then(|c| c.parse().ok()),
                bg: r.bg.as_ref().and_then(|c| c.parse().ok()),
                add_modifier: Modifier::from_bits_truncate(r.add),
                sub_modifier: Modifier::from_bits_truncate(r.sub),
                ..ratatui::style::Style::default()
            };
            ratatui::text::Span::styled(r.text.clone(), style)
        })
        .collect();
    ratatui::text::Line::from(spans)
}

fn play(frame: &mut Frame<'_>, scene: &[Draw]) {
    for draw in scene {
        match draw {
            Draw::Clear(area) => frame.render_widget(Clear, area_of(area)),
            Draw::Fill { area, style } => {
                frame.render_widget(Block::default().style(style_of(style)), area_of(area))
            }
            Draw::Frame { area, title, border, background } => {
                let mut block = Block::default()
                    .borders(Borders::ALL)
                    .border_type(BorderType::Rounded)
                    .border_style(ratatui::style::Style::default().fg(ink_of(border)));
                if !title.spans.is_empty() {
                    block = block.title(line_of(title));
                }
                if let Some(bg) = background {
                    block = block.style(ratatui::style::Style::default().bg(ink_of(bg)));
                }
                frame.render_widget(block, area_of(area));
            }
            Draw::Text { area, lines, flow, fill } => {
                let text: Vec<ratatui::text::Line<'static>> = lines.iter().map(line_of).collect();
                let para = Paragraph::new(text).style(style_of(fill));
                let para = match flow {
                    Flow::Cut { scroll } => para.scroll((0, *scroll)),
                    Flow::Centred => para.alignment(Alignment::Center),
                    Flow::CentredWrapped => {
                        para.alignment(Alignment::Center).wrap(Wrap { trim: true })
                    }
                    Flow::Wrapped => para.wrap(Wrap { trim: false }),
                };
                frame.render_widget(para, area_of(area));
            }
            Draw::Logs { area, lines } => {
                let text: Vec<ratatui::text::Line<'static>> =
                    lines.iter().map(log_line_of).collect();
                let para = Paragraph::new(Text::from(text)).wrap(Wrap { trim: false });
                frame.render_widget(para, area_of(area));
            }
            Draw::Scrollbar { area, steps, position, paused } => {
                let mut state = ScrollbarState::new(*steps).position(*position);
                let thumb = if *paused {
                    ratatui::style::Color::Yellow
                } else {
                    ratatui::style::Color::Gray
                };
                let bar = Scrollbar::new(ScrollbarOrientation::VerticalRight)
                    .style(ratatui::style::Style::default().fg(ratatui::style::Color::DarkGray))
                    .thumb_style(ratatui::style::Style::default().fg(thumb))
                    .thumb_symbol("┃")
                    .track_symbol(Some("│"))
                    .begin_symbol(None)
                    .end_symbol(None);
                frame.render_stateful_widget(bar, area_of(area), &mut state);
            }
        }
    }
}

fn buffer_to_text(buf: &Buffer) -> String {
    let mut s = String::new();
    for y in 0..buf.area.height {
        for x in 0..buf.area.width {
            s.push_str(buf[(x, y)].symbol());
        }
        s.push('\n');
    }
    s
}

fn local() -> Surroundings<'static> {
    Surroundings {
        version: "0.1.3",
        host: None,
        info: None,
        skill: false,
        places: SkillPlaces { project: ".agent/skills/devme", global: "~/.agent/..." },
    }
}

fn draw_with(
    state: &mut TuiState,
    row: &mut TabRow,
    around: &Surroundings<'_>,
    w: u16,
    h: u16,
) -> String {
    let scene = render(Rect { x: 0, y: 0, width: w, height: h }, state, row, around);
    let mut terminal = Terminal::new(TestBackend::new(w, h)).unwrap();
    terminal.draw(|f| play(f, &scene)).unwrap();
    buffer_to_text(terminal.backend().buffer())
}

fn render_to_text(state: &mut TuiState, w: u16, h: u16) -> String {
    draw_with(state, &mut TabRow::new(), &local(), w, h)
}

fn test_instance() -> InstanceInfo {
    InstanceInfo { id: "test-id".into(), label: "test".into(), cwd: "/tmp/test".into() }
}

fn svc(name: &str, state: ServiceState) -> ServiceSnapshot {
    ServiceSnapshot {
        name: name.into(),
        state,
        pid: None,
        port: None,
        url: None,
        restart_count: 0,
    }
}

fn running() -> ServiceState {
    ServiceState::Running { degraded: false, started_without: vec![] }
}

fn subscribed(instance: InstanceInfo, services: Vec<ServiceSnapshot>) -> ServerMessage {
    ServerMessage::Subscribed { instance, services, steps: vec![] }
}

fn log(service: &str, text: &str, ts: u64) -> ServerMessage {
    ServerMessage::LogChunk { service: service.into(), bytes: encode_payload(text), ts }
}

fn shared_instance() -> InstanceInfo {
    InstanceInfo { id: "shared::repo".into(), label: "shared".into(), cwd: "/tmp/a".into() }
}

#[test]
fn stopped_state_renders_hero_card() {
    let mut state = TuiState::default();
    state.enter_stopped(Some("kpi-dash".into()));
    let text = render_to_text(&mut state, 80, 24);
    assert!(text.contains("All services stopped"), "missing title:\n{text}");
    assert!(text.contains("kpi-dash"), "missing repo name:\n{text}");
    assert!(text.contains("start the stack again"), "missing start hint:\n{text}");
    assert!(text.contains("quit devme"), "missing quit hint:\n{text}");
}

#[test]
fn tabs_row_has_visual_separators_between_services() {
    let mut state = TuiState::default();
    state.apply(subscribed(
        test_instance(),
        vec![svc("a", ServiceState::Stopped), svc("b", ServiceState::Stopped)],
    ));
    let text = render_to_text(&mut state, 80, 12);
    assert!(text.contains("│"), "expected tab divider somewhere:\n{text}");
}

#[test]
fn tabs_row_shows_every_service_name() {
    let mut state = TuiState::default();
    state.apply(subscribed(
        test_instance(),
        vec![
            svc("db", ServiceState::Stopped),
            svc("backend", ServiceState::Stopped),
            svc("frontend", ServiceState::Stopped),
        ],
    ));
    let text = render_to_text(&mut state, 100, 14);
    // All three names must appear on the same row.
    let lines: Vec<&str> = text.lines().collect();
    let tab_line = lines
        .iter()
        .find(|l| l.contains("db") && l.contains("backend") && l.contains("frontend"))
        .unwrap_or_else(|| panic!("no row had all three service names:\n{text}"));
    let i_db = tab_line.find("db").unwrap();
    let i_be = tab_line.find("backend").unwrap();
    let i_fe = tab_line.find("frontend").unwrap();
    assert!(i_db < i_be && i_be < i_fe);
}

fn twelve_services() -> TuiState {
    let mut state = TuiState::default();
    let services: Vec<_> =
        (0..12).map(|i| svc(&format!("service-{i:02}"), ServiceState::Stopped)).collect();
    state.apply(subscribed(test_instance(), services));
    state
}

#[test]
fn tabs_scroll_horizontally_when_overflowing() {
    let mut state = twelve_services();
    let mut row = TabRow::new();
    let first = draw_with(&mut state, &mut row, &local(), 60, 12);
    assert!(first.contains("service-00"), "first tab visible:\n{first}");
    assert!(!first.contains("service-11"), "last tab off-screen initially:\n{first}");

    // Scroll the row right (clamped to the content width): the tail shows.
    row.scroll_tabs(500);
    let scrolled = draw_with(&mut state, &mut row, &local(), 60, 12);
    assert!(scrolled.contains("service-11"), "last tab revealed after scrolling:\n{scrolled}");
}

#[test]
fn selected_tab_scrolls_into_view() {
    let mut state = twelve_services();
    let mut row = TabRow::new();
    let _ = draw_with(&mut state, &mut row, &local(), 60, 12); // prime the tab context

    for _ in 0..11 {
        state.select_next_service();
    }
    let text = draw_with(&mut state, &mut row, &local(), 60, 12);
    assert!(text.contains("service-11"), "selected last tab scrolled into view:\n{text}");
}

#[test]
fn shared_services_render_as_trailing_group_on_a_stack() {
    let mut state = TuiState::default();
    // Shared daemon first so the instance's stubs are recognised as shared.
    state.apply(subscribed(
        shared_instance(),
        vec![svc("postgres", ServiceState::Stopped), svc("redis", ServiceState::Stopped)],
    ));
    state.apply(subscribed(
        InstanceInfo { id: "inst".into(), label: "feature/a".into(), cwd: "/tmp/a".into() },
        vec![
            svc("api", ServiceState::Stopped),
            svc("web", ServiceState::Stopped),
            svc("postgres", ServiceState::Stopped),
            svc("redis", ServiceState::Stopped),
        ],
    ));

    let text = render_to_text(&mut state, 100, 14);
    // Owned services, the shared-group label, and shared services all on the
    // tab row, shared sorted last, behind the labelled divider.
    let tab_line = text
        .lines()
        .find(|l| l.contains("api") && l.contains("postgres"))
        .unwrap_or_else(|| panic!("no tab row with owned + shared services:\n{text}"));
    let i_web = tab_line.find("web").unwrap();
    let i_shared = tab_line.find("shared").unwrap();
    let i_pg = tab_line.find("postgres").unwrap();
    let i_redis = tab_line.find("redis").unwrap();
    assert!(
        i_web < i_shared && i_shared < i_pg && i_pg < i_redis,
        "expected owned, 'shared' label, shared services, got:\n{tab_line}"
    );
}

#[test]
fn worktree_without_devme_toml_shows_placeholder_tab_and_explanation() {
    let mut state = TuiState::default();
    state.apply(subscribed(
        shared_instance(),
        vec![svc("proxy", ServiceState::Stopped), svc("postgres", ServiceState::Stopped)],
    ));
    // Discovered worktree, no devme.toml: placeholder row, no daemon.
    state.add_placeholder_instance("inst", "feature/x", "/tmp/a");

    let text = render_to_text(&mut state, 100, 14);
    let tab_line = text
        .lines()
        .find(|l| l.contains("proxy"))
        .unwrap_or_else(|| panic!("no tab row:\n{text}"));
    let i_label = tab_line
        .find("no devme.toml")
        .unwrap_or_else(|| panic!("placeholder label missing:\n{tab_line}"));
    let i_proxy = tab_line.find("proxy").unwrap();
    let i_pg = tab_line.find("postgres").unwrap();
    assert!(
        i_label < i_proxy && i_proxy < i_pg,
        "placeholder tab should lead, then shared services:\n{tab_line}"
    );
    // The viewport explains the empty state rather than showing logs.
    assert!(
        text.contains("add one to start services"),
        "placeholder explanation missing from viewport:\n{text}"
    );
    // A worktree that owns nothing shows no "N/N running" count in the title.
    assert!(
        !text.contains("running"),
        "title should omit the count for a stack that owns no services:\n{text}"
    );
}

#[test]
fn title_shows_count_when_stack_owns_services() {
    let mut state = TuiState::default();
    state.apply(subscribed(test_instance(), vec![svc("api", ServiceState::Stopped)]));
    let text = render_to_text(&mut state, 100, 14);
    assert!(text.contains("0/1 running"), "count missing:\n{text}");
}

#[test]
fn sidebar_groups_shared_services_under_a_header() {
    let mut state = TuiState::default();
    state.apply(subscribed(
        shared_instance(),
        vec![svc("proxy", ServiceState::Stopped), svc("postgres", ServiceState::Stopped)],
    ));
    state.apply(subscribed(test_instance(), vec![svc("api", ServiceState::Stopped)]));
    let text = render_to_text(&mut state, 100, 16);
    let lines: Vec<&str> = text.lines().collect();
    // The shared row lists its services joined, unique to the sidebar.
    let row_idx = lines
        .iter()
        .position(|l| l.contains("proxy, postgres"))
        .unwrap_or_else(|| panic!("shared services row missing from sidebar:\n{text}"));
    // Directly above: a "shared" header, and a divider rule above that.
    assert!(
        lines[row_idx - 1].contains("shared"),
        "expected a 'shared' header just above the shared row:\n{text}"
    );
    assert!(
        lines[row_idx - 2].contains('┈'),
        "expected a dotted divider rule above the shared header:\n{text}"
    );
    // With a single stack, the shared section flows just beneath it.
    assert!(
        row_idx < lines.len() / 2,
        "shared section should sit just beneath the stacks (row {row_idx} of {}):\n{text}",
        lines.len()
    );
}

#[test]
fn tab_row_scrolls_to_keep_selected_tab_visible() {
    let mut state = TuiState::default();
    let names = ["alpha", "bravo", "charlie", "delta", "echo", "foxtrot", "golf", "hotel"];
    state.apply(subscribed(
        test_instance(),
        names.iter().map(|n| svc(n, ServiceState::Stopped)).collect(),
    ));
    // Select the last tab: it sits well off the right edge of a narrow pane.
    for _ in 0..names.len() - 1 {
        state.select_next_service();
    }
    let text = render_to_text(&mut state, 60, 14);
    let tab_line = text
        .lines()
        .find(|l| l.contains("hotel"))
        .unwrap_or_else(|| panic!("selected (last) tab must be visible:\n{text}"));
    assert!(tab_line.contains('‹'), "left overflow marker expected:\n{tab_line}");
    assert!(!tab_line.contains("alpha"), "first tab should be clipped:\n{tab_line}");
}

#[test]
fn steps_render_in_sidebar_with_status_glyphs() {
    let mut state = TuiState::default();
    state.apply(ServerMessage::Subscribed {
        instance: test_instance(),
        services: vec![],
        steps: vec![
            StepSnapshot { name: "gcloud_auth".into(), state: StepState::Passed },
            StepSnapshot { name: "uv".into(), state: StepState::Unknown },
            StepSnapshot { name: "redis".into(), state: StepState::Failed },
        ],
    });
    let text = render_to_text(&mut state, 80, 14);
    assert!(text.contains("✓"), "passed glyph missing:\n{text}");
    assert!(text.contains("✗"), "failed glyph missing:\n{text}");
    assert!(text.contains("·"), "unknown glyph missing:\n{text}");
    assert!(text.contains("gcloud"), "step name missing:\n{text}");
}

#[test]
fn install_modal_offers_install_keys() {
    let mut state = TuiState::new(true);
    state.check_skill_prompt(false, false, &vec![], false);
    let text = render_to_text(&mut state, 80, 20);
    assert!(text.contains("Install it"), "missing install prompt:\n{text}");
    assert!(text.contains("install globally"), "missing global option:\n{text}");
    assert!(text.contains("not now"), "missing dismiss option:\n{text}");
}

#[test]
fn update_modal_offers_update_keys() {
    let mut state = TuiState::default();
    state.check_skill_prompt(true, false, &vec![("0.1.2".into(), "0.1.3".into())], false);
    let text = render_to_text(&mut state, 80, 20);
    assert!(text.contains("out of date"), "missing update prompt:\n{text}");
    assert!(text.contains("auto-update"), "missing always option:\n{text}");
}

#[test]
fn port_conflict_modal_lists_remediations() {
    let mut state = TuiState::default();
    state.open_port_conflict(
        "inst".into(),
        "postgres".into(),
        5432,
        Holder::Container { name: "kpi-shared-db-1".into(), project: Some("kpi-shared".into()) },
    );
    let text = render_to_text(&mut state, 80, 20);
    assert!(text.contains("Port conflict"), "missing title:\n{text}");
    assert!(text.contains("postgres"), "missing service:\n{text}");
    assert!(text.contains("5432"), "missing port:\n{text}");
    assert!(text.contains("kpi-shared-db-1"), "missing holder:\n{text}");
    assert!(text.contains("Stop container"), "missing stop option:\n{text}");
    assert!(text.contains("Compose down"), "missing compose option:\n{text}");
    assert!(text.contains("Skip"), "missing skip option:\n{text}");
}

#[test]
fn port_conflict_modal_outranks_skill_dialog() {
    let mut state = TuiState::new(true);
    state.check_skill_prompt(false, false, &vec![], false);
    state.open_port_conflict(
        "inst".into(),
        "web".into(),
        3000,
        Holder::Process(vec![(123, Some("node".into()))]),
    );
    let text = render_to_text(&mut state, 80, 20);
    // The port-conflict modal wins; the skill prompt is suppressed.
    assert!(text.contains("Port conflict"), "port modal not on top:\n{text}");
    assert!(text.contains("Kill node (123)"), "missing kill option:\n{text}");
    assert!(!text.contains("Install it"), "skill prompt leaked through:\n{text}");
}

#[test]
fn footer_lists_basic_key_bindings() {
    let mut state = TuiState::default();
    state.suppress_skill_hint();
    // 140 wide so the centre hints all fit without truncation.
    let text = render_to_text(&mut state, 140, 12);
    let last = text.lines().last().unwrap_or("");
    assert!(last.contains("help"), "footer missing 'help' (was: {last})");
    assert!(last.contains("stack"), "footer missing stack nav (was: {last})");
    assert!(last.contains("svc"), "footer missing svc nav (was: {last})");
    assert!(last.contains("quit"), "footer missing quit (was: {last})");
}

#[test]
fn help_overlay_renders_when_toggled() {
    let mut state = TuiState::default();
    let text = render_to_text(&mut state, 100, 30);
    assert!(!text.contains("toggle this overlay"), "overlay leaked when hidden");
    state.toggle_help();
    let text = render_to_text(&mut state, 100, 30);
    assert!(text.contains("toggle this overlay"), "overlay help text missing");
    state.toggle_help();
    let text = render_to_text(&mut state, 100, 30);
    assert!(!text.contains("toggle this overlay"), "overlay should hide again");
}

#[test]
fn notifications_overlay_renders_history_when_toggled() {
    let mut state = TuiState::default();
    state.notify("open", "https://example.test opened");
    state.notify("logs", "copied 12 log lines");

    // The corner toasts still show their bodies while live, so the modal's own
    // footer is the reliable discriminator.
    let text = render_to_text(&mut state, 100, 30);
    assert!(!text.contains("n/esc close"), "modal leaked when hidden:\n{text}");

    state.toggle_notifications();
    let text = render_to_text(&mut state, 100, 30);
    assert!(text.contains("notifications"), "modal title missing:\n{text}");
    assert!(text.contains("copied 12 log lines"), "newest entry missing:\n{text}");
    assert!(text.contains("example.test opened"), "older entry missing:\n{text}");
    assert!(text.contains("of 2"), "scroll footer missing:\n{text}");
    assert!(text.contains("c copy"), "copy affordance missing from footer:\n{text}");

    state.close_notifications();
    let text = render_to_text(&mut state, 100, 30);
    assert!(!text.contains("n/esc close"), "modal should hide again:\n{text}");
}

#[test]
fn notifications_overlay_handles_empty_history() {
    let mut state = TuiState::default();
    state.toggle_notifications();
    let text = render_to_text(&mut state, 100, 30);
    assert!(text.contains("no notifications yet"), "empty state missing:\n{text}");
}

#[test]
fn sidebar_badges_remote_host() {
    let mut state = TuiState::default();
    state.apply(subscribed(
        InstanceInfo { id: "id".into(), label: "main".into(), cwd: "/srv/app".into() },
        vec![],
    ));

    // Local: a plain header, no badge.
    let text = render_to_text(&mut state, 100, 20);
    assert!(!text.contains("⇅"), "remote badge leaked locally:\n{text}");

    // Remote: the stacks header gains a badge with the short host.
    let remote = Surroundings { host: Some("vps.tail069899.ts.net"), ..local() };
    let text = draw_with(&mut state, &mut TabRow::new(), &remote, 100, 20);
    assert!(text.contains("⇅"), "remote badge missing:\n{text}");
    assert!(text.contains("vps"), "short host missing from badge:\n{text}");
    // The long DNS suffix is dropped: only the first label shows.
    assert!(!text.contains("tail069899"), "badge should shorten the host:\n{text}");
}

#[test]
fn stack_info_overlay_renders_fields_when_open() {
    let mut state = TuiState::default();
    state.apply(subscribed(
        InstanceInfo { id: "id".into(), label: "feature/x".into(), cwd: "/tmp/wt-x".into() },
        vec![svc("api", ServiceState::Stopped)],
    ));

    let text = render_to_text(&mut state, 100, 30);
    assert!(!text.contains("Instance id"), "modal leaked when hidden:\n{text}");

    let field = |label: &str, value: &str, copyable: bool| InfoField {
        label: label.into(),
        value: value.into(),
        copyable,
    };
    let info = StackInfo {
        title: "feature/x".into(),
        fields: vec![
            field("Branch", "feature/x", true),
            field("Path", "/tmp/wt-x", true),
            field("Slot", "2", true),
            field("Instance id", "id", true),
            field("Status", "0/1 up", false),
        ],
        cursor: 0,
    };
    let open = Surroundings { info: Some(&info), ..local() };
    let text = draw_with(&mut state, &mut TabRow::new(), &open, 100, 30);
    assert!(text.contains("feature/x"), "branch/title missing:\n{text}");
    assert!(text.contains("/tmp/wt-x"), "worktree path missing:\n{text}");
    assert!(text.contains("Slot"), "slot row missing:\n{text}");
    assert!(text.contains("branch/path"), "footer hint missing:\n{text}");

    let text = render_to_text(&mut state, 100, 30);
    assert!(!text.contains("Instance id"), "modal should hide again:\n{text}");
}

#[test]
fn selected_service_meta_shows_state_and_pid_and_port() {
    let mut state = TuiState::default();
    state.apply(subscribed(
        test_instance(),
        vec![ServiceSnapshot {
            name: "db".into(),
            state: running(),
            pid: Some(1234),
            port: Some(5432),
            url: Some("{host}:{port}".into()),
            restart_count: 0,
        }],
    ));

    let text = render_to_text(&mut state, 80, 14);
    assert!(text.contains("running"), "expected 'running':\n{text}");
    assert!(text.contains("1234"), "pid missing:\n{text}");
    assert!(text.contains("5432"), "port missing:\n{text}");
}

#[test]
fn log_lines_appear_in_viewport_for_selected_service() {
    let mut state = TuiState::default();
    state.apply(subscribed(test_instance(), vec![svc("api", ServiceState::Stopped)]));
    state.apply(log("api", "listening on :8080", 1));
    state.apply(log("api", "GET /health 200", 2));

    let text = render_to_text(&mut state, 100, 20);
    assert!(text.contains("listening on :8080"), "missing first log line:\n{text}");
    assert!(text.contains("GET /health 200"), "missing second log line:\n{text}");
}

#[test]
fn scrollbar_hidden_when_logs_fit_but_shown_when_they_overflow() {
    // A handful of lines fits in the viewport: no thumb should render.
    let mut fits = TuiState::default();
    fits.apply(subscribed(test_instance(), vec![svc("api", ServiceState::Stopped)]));
    for i in 0..3 {
        fits.apply(log("api", &format!("line {i}"), i as u64));
    }
    let text = render_to_text(&mut fits, 100, 20);
    assert!(!text.contains('┃'), "scrollbar thumb shown when logs fit:\n{text}");

    // Far more lines than the viewport: the thumb must appear.
    let mut overflow = TuiState::default();
    overflow.apply(subscribed(test_instance(), vec![svc("api", ServiceState::Stopped)]));
    for i in 0..200 {
        overflow.apply(log("api", &format!("line {i}"), i as u64));
    }
    let text = render_to_text(&mut overflow, 100, 20);
    assert!(text.contains('┃'), "scrollbar thumb missing when logs overflow:\n{text}");
}

#[test]
fn tools_label_uses_reclaimed_prefix_column() {
    // At the 28-column default sidebar (less a 1-column gutter) the label
    // budget is 24. A 24-character name must render whole.
    let name = "abcdefghij_klmnop_qrstuv";
    assert_eq!(name.chars().count(), 24);
    let mut state = TuiState::default();
    state.apply(ServerMessage::Subscribed {
        instance: test_instance(),
        services: vec![svc("api", ServiceState::Stopped)],
        steps: vec![StepSnapshot { name: name.into(), state: StepState::Passed }],
    });
    let text = render_to_text(&mut state, 100, 24);
    assert!(text.contains(name), "tool label clipped despite fitting the sidebar:\n{text}");
}

#[test]
fn title_bar_marks_remote() {
    let mut state = TuiState::default();
    state.apply(subscribed(
        InstanceInfo { id: "id".into(), label: "main".into(), cwd: "/srv/app".into() },
        vec![],
    ));
    // Collapse the sidebar so the header badge is gone: the title must still
    // carry the remote marker.
    state.toggle_sidebar();
    let remote = Surroundings { host: Some("vps.tail069899.ts.net"), ..local() };
    let text = draw_with(&mut state, &mut TabRow::new(), &remote, 100, 20);
    assert!(text.contains("⇅ vps"), "title-bar remote marker missing:\n{text}");
}

#[test]
fn header_shows_running_count() {
    let mut state = TuiState::default();
    state.apply(subscribed(
        test_instance(),
        vec![svc("db", running()), svc("api", ServiceState::Stopped)],
    ));
    let text = render_to_text(&mut state, 100, 14);
    assert!(text.contains("1/2 running"), "header count missing:\n{text}");
}

#[test]
fn paused_indicator_shows_when_scrolled_off_tail() {
    let mut state = TuiState::default();
    state.apply(subscribed(test_instance(), vec![svc("api", running())]));
    for i in 0..50 {
        state.apply(log("api", &format!("line {i}"), i));
    }
    // At tail: no PAUSED.
    let text = render_to_text(&mut state, 100, 14);
    assert!(!text.contains("PAUSED"), "PAUSED visible at tail:\n{text}");

    // Scroll up; pill must appear.
    state.log_page_up(10);
    let text = render_to_text(&mut state, 100, 14);
    assert!(text.contains("PAUSED"), "PAUSED missing while scrolled:\n{text}");
    assert!(text.contains("G to follow"), "hint missing:\n{text}");
}

#[test]
fn header_shows_failed_count_when_nonzero() {
    let mut state = TuiState::default();
    state.apply(subscribed(
        test_instance(),
        vec![
            svc("boom", ServiceState::Failed { exit_code: Some(7) }),
            svc("tick", running()),
        ],
    ));
    let text = render_to_text(&mut state, 100, 14);
    assert!(text.contains("1 failed"), "failed count missing:\n{text}");
}

#[test]
fn escape_sequences_become_styles() {
    let mut state = TuiState::default();
    state.apply(subscribed(test_instance(), vec![svc("api", running())]));
    state.apply(log("api", "\x1b[31mred\x1b[0m plain", 1));
    let mut row = TabRow::new();
    let area = Rect { x: 0, y: 0, width: 100, height: 20 };
    let scene = render(area, &mut state, &mut row, &local());
    let logs: Vec<&Vec<LogLine>> = scene
        .iter()
        .filter_map(|d| match d {
            Draw::Logs { lines, .. } => Some(lines),
            _ => None,
        })
        .collect();
    assert_eq!(logs.len(), 1);
    assert_eq!(logs[0].len(), 1);
    let runs = &logs[0][0].runs;
    assert_eq!(runs[0].text, "red");
    assert_eq!(runs[0].fg.as_deref(), Some("Red"));
    assert_eq!(runs.last().unwrap().text, " plain");
}

#[test]
fn panes_divide_the_screen() {
    let mut state = TuiState::default();
    state.apply(subscribed(test_instance(), vec![svc("api", running())]));
    state.apply(log("api", "one", 1));
    let mut row = TabRow::new();
    let area = Rect { x: 0, y: 0, width: 100, height: 20 };
    let scene = render(area, &mut state, &mut row, &local());
    // The main pane is what the 28 columns of the sidebar and the footer leave.
    assert!(scene.iter().any(|d| matches!(
        d,
        Draw::Frame { area: Rect { x: 28, y: 0, width: 72, height: 19 }, .. }
    )));
    // Its divider can be dragged, its tab and its stack clicked.
    assert!(state.sidebar_divider_at(28, 5));
    assert!(state.click_at(30, 1));
    assert!(state.click_at(2, 1));
    assert!(!state.click_at(2, 12));
    // The scrollbar's track is at the right of the log text.
    assert!(state.scrollbar_at(98, 5));
    assert_eq!(row.area, Some(Rect { x: 29, y: 1, width: 70, height: 2 }));
    assert!(row.tab_row_at(40, 2));
    assert!(!row.tab_row_at(40, 3));
}

#[test]
fn clicking_a_notification_row_finds_it() {
    let mut state = TuiState::default();
    state.notify("open", "first");
    state.notify("open", "second");
    state.toggle_notifications();
    let _ = render_to_text(&mut state, 100, 30);
    // The modal is 64 by 18 in the middle; its first row is the newest.
    let text = state.notif_copy_at(20, 7).unwrap();
    assert!(text.contains("second"), "{text}");
    let text = state.notif_copy_at(20, 8).unwrap();
    assert!(text.contains("first"), "{text}");
    assert!(state.notif_copy_at(20, 9).is_none());
}

#[test]
fn zoom_and_copy_mode_own_the_screen() {
    let mut state = TuiState::default();
    state.apply(subscribed(test_instance(), vec![svc("api", running())]));
    state.apply(log("api", "hello", 1));
    state.toggle_zoom();
    let text = render_to_text(&mut state, 80, 10);
    assert!(text.contains("zoom") && text.contains("hello") && text.contains("exit zoom"));
    assert!(!text.contains("stacks"));
    assert!(!state.click_at(2, 1));
    state.exit_zoom();
    state.enter_copy_mode();
    let text = render_to_text(&mut state, 80, 10);
    assert!(text.contains("COPY MODE") && text.contains("hello") && text.contains("copy all"));
    assert!(!text.contains("zoom"));
}

#[test]
fn settings_overlay_shows_values() {
    let mut state = TuiState::default();
    state.open_settings();
    let text = render_to_text(&mut state, 100, 30);
    assert!(text.contains("settings"), "{text}");
    assert!(text.contains("‹ mocha ›"), "{text}");
    assert!(text.contains("● on"), "{text}");
    assert!(text.contains("Colour palette for the TUI"), "{text}");
}

#[test]
fn overflowing_stacks_say_how_many_more() {
    let mut state = TuiState::default();
    for i in 0..10 {
        state.add_placeholder_instance(&format!("id{i}"), &format!("wt{i}"), "/tmp");
    }
    // 12 rows: a footer, a header, and ten rows for five stacks.
    let text = render_to_text(&mut state, 100, 13);
    assert!(text.contains("wt0") && text.contains("wt4"), "{text}");
    assert!(!text.contains("wt5"), "{text}");
    assert!(text.contains("▾ 5 more"), "{text}");
    assert_eq!(state.click_at(2, 3), true);
    assert_eq!(state.selected_instance_index(), Some(1));
}

#[test]
fn help_explains_every_binding() {
    let mut state = TuiState::default();
    state.toggle_help();
    for height in [34u16, 60] {
        let text = render_to_text(&mut state, 100, height);
        for b in bindings() {
            assert!(text.contains(b.desc), "{} missing:\n{text}", b.desc);
        }
    }
}

#[test]
fn what_is_copied_is_what_was_drawn() {
    let mut state = TuiState::default();
    state.apply(subscribed(test_instance(), vec![svc("api", running())]));
    for i in 0..50 {
        state.apply(log("api", &format!("line {i}."), i));
    }
    state.log_scroll_up(7);
    let text = render_to_text(&mut state, 100, 14);
    let lines: Vec<String> = state.visible_log_lines().iter().map(|l| l.to_string()).collect();
    assert_eq!(lines.last().unwrap(), "line 42.");
    for l in &lines {
        assert!(text.contains(l.as_str()), "{l} missing:\n{text}");
    }
    assert!(!text.contains("line 43."));
    assert_eq!(state.notifications().len(), 0);
}

#[test]
fn edge_markers_page_the_tab_row() {
    let mut state = twelve_services();
    let mut row = TabRow::new();
    let _ = draw_with(&mut state, &mut row, &local(), 70, 12);
    let area = row.area.unwrap();
    let first = state.selected_service().unwrap().name.clone();
    let right = area.x + area.width - 1;
    assert_eq!(state.target_at(right, area.y), Some(ClickTarget::TabScrollRight));
    assert_ne!(state.target_at(area.x, area.y), Some(ClickTarget::TabScrollLeft));
    assert_eq!(pointer_shape_at(&state, right, area.y), PointerShape::Pointer);

    let press = |state: &mut TuiState, row: &mut TabRow, col: u16| {
        let event = MouseEvent {
            kind: MouseKind::LeftDown,
            col,
            row: area.y,
            on_tabs: row.tab_row_at(col, area.y),
            tab_page: row.width(),
        };
        let effect = handle_mouse_at(state, event, Instant::now());
        if let PointerEffect::ScrollTabs(columns) = effect {
            row.scroll_tabs(columns);
        }
        effect
    };
    let page = i32::from(area.width);
    assert_eq!(press(&mut state, &mut row, right), PointerEffect::ScrollTabs(page));
    assert_eq!(row.scroll, usize::from(area.width));
    let text = draw_with(&mut state, &mut row, &local(), 70, 12);
    assert!(text.contains("‹"), "left marker missing:\n{text}");
    assert_eq!(state.target_at(area.x, area.y), Some(ClickTarget::TabScrollLeft));
    assert_eq!(press(&mut state, &mut row, area.x), PointerEffect::ScrollTabs(-page));
    assert_eq!(row.scroll, 0);
    assert_eq!(state.selected_service().unwrap().name, first);
    assert!(!state.click_at(right, area.y));
}

fn rect(x: u16, y: u16, width: u16, height: u16) -> Rect {
    Rect { x, y, width, height }
}

fn panes_in(area: Rect, state: &TuiState) -> Panes {
    match divide(area, state) {
        Division::Dashboard(panes) => panes,
        other => panic!("expected the dashboard, got {other:?}"),
    }
}

#[test]
fn panes_cover_the_screen() {
    let state = TuiState::default();
    let w = state.sidebar_width();
    let panes = panes_in(rect(3, 5, 100, 30), &state);
    assert_eq!(panes.body, rect(3, 5, 100, 29));
    assert_eq!(panes.footer, rect(3, 34, 100, 1));
    assert_eq!(panes.sidebar, Some(rect(3, 5, w, 29)));
    assert_eq!(panes.main, rect(3 + w, 5, 100 - w, 29));
    assert_eq!(panes.tabs, rect(4 + w, 6, 98 - w, 2));
    assert_eq!(panes.logs, rect(4 + w, 8, 98 - w, 24));
    assert_eq!(panes.meta, rect(4 + w, 32, 98 - w, 1));
}

#[test]
fn narrow_screens_give_the_sidebar_what_there_is() {
    let state = TuiState::default();
    let w = state.sidebar_width();
    let panes = panes_in(rect(0, 0, w - 2, 1), &state);
    assert_eq!(panes.body, rect(0, 0, w - 2, 0));
    assert_eq!(panes.footer, rect(0, 0, w - 2, 1));
    assert_eq!(panes.sidebar, Some(rect(0, 0, w - 2, 0)));
    assert_eq!(panes.main, rect(w - 2, 0, 0, 0));
}

#[test]
fn collapsed_sidebar_leaves_all_to_the_main_pane() {
    let mut state = TuiState::default();
    state.toggle_sidebar();
    let panes = panes_in(rect(0, 0, 80, 24), &state);
    assert_eq!(panes.sidebar, None);
    assert_eq!(panes.main, rect(0, 0, 80, 23));
}

#[test]
fn low_screens_keep_every_pane_inside() {
    let state = TuiState::default();
    for h in 0..7 {
        let panes = panes_in(rect(0, 0, 80, h), &state);
        for r in [panes.main, panes.tabs, panes.logs, panes.meta, panes.footer] {
            assert!(r.x + r.width <= 80 && r.y + r.height <= h, "{r:?} in {h} rows");
        }
        assert_eq!(panes.logs.y, panes.tabs.y + panes.tabs.height);
        assert_eq!(panes.meta.y, panes.logs.y + panes.logs.height);
        let room = panes.main.height.saturating_sub(2);
        let rows = panes.tabs.height + panes.logs.height + panes.meta.height;
        assert_eq!(rows, room, "{h} rows");
    }
}

#[test]
fn zoom_takes_the_whole_screen() {
    let mut state = TuiState::default();
    state.toggle_zoom();
    assert_eq!(
        divide(rect(0, 0, 80, 24), &state),
        Division::Full {
            header: rect(0, 0, 80, 1),
            text: rect(0, 1, 80, 22),
            footer: rect(0, 23, 80, 1),
        }
    );
    assert_eq!(
        divide(rect(0, 0, 80, 2), &state),
        Division::Full {
            header: rect(0, 0, 80, 1),
            text: rect(0, 1, 80, 0),
            footer: rect(0, 1, 80, 1),
        }
    );
}

#[test]
fn stopped_screen_is_undivided() {
    let mut state = TuiState::default();
    state.enter_stopped(Some("repo".into()));
    assert_eq!(divide(rect(0, 0, 80, 24), &state), Division::Whole);
}

#[test]
fn footer_keeps_its_left_part_first() {
    let state = TuiState::default();
    for (width, left) in [(100, 24), (24, 24), (10, 10)] {
        let scene = render_footer(rect(0, 9, width, 1), &state, false);
        match (&scene[0], &scene[1]) {
            (Draw::Text { area: a, .. }, Draw::Text { area: b, .. }) => {
                assert_eq!(*a, rect(0, 9, left, 1));
                assert_eq!(*b, rect(left, 9, width - left, 1));
            }
            other => panic!("expected two texts, got {other:?}"),
        }
    }
}

#[test]
fn viewport_keeps_columns_for_the_scrollbar() {
    for (width, text, bar) in [
        (80, rect(1, 0, 77, 10), Some(rect(79, 0, 1, 10))),
        (5, rect(1, 0, 2, 10), Some(rect(4, 0, 1, 10))),
        (4, rect(0, 0, 3, 10), Some(rect(3, 0, 1, 10))),
        (3, rect(0, 0, 2, 10), Some(rect(2, 0, 1, 10))),
        (2, rect(0, 0, 2, 10), None),
    ] {
        let mut state = TuiState::default();
        state.apply(subscribed(test_instance(), vec![svc("web", running())]));
        state.apply(log("web", "hello", 1));
        let scene = render_log_viewport(rect(0, 0, width, 10), &mut state);
        let mut texts = Vec::new();
        let mut bars = Vec::new();
        for d in &scene {
            match d {
                Draw::Logs { area, .. } => texts.push(*area),
                Draw::Scrollbar { area, .. } => bars.push(*area),
                _ => {}
            }
        }
        assert_eq!(texts, vec![text], "width {width}");
        assert_eq!(bars.first().copied(), bar, "width {width}");
    }
}

#[test]
fn skill_places_are_named_as_the_user_sees_them() {
    let (project, global) = skill_places(
        "/w/repo/.agent/skills/devme/SKILL.md",
        "/w/repo/",
        "/home/u/.agent/skills/devme/SKILL.md",
        "/home/u",
    );
    assert_eq!(project, ".agent/skills/devme");
    assert_eq!(global, "~/.agent/...");
    let (project, global) = skill_places("/x/SKILL.md", "/w/repo", "/x/SKILL.md", "/home/u");
    assert_eq!(project, "/x/SKILL.md");
    assert_eq!(global, "/x/SKILL.md");
}

#[test]
fn install_modal_names_the_places() {
    let mut state = TuiState::new(true);
    state.check_skill_prompt(false, false, &vec![], false);
    let text = render_to_text(&mut state, 80, 20);
    assert!(text.contains("install (.agent/skills/devme)"), "missing project place:\n{text}");
    assert!(text.contains("install globally (~/.agent/...)"), "missing user place:\n{text}");
}
