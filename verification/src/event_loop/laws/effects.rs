//! Effects: what each command does to the dashboard, and what it asks for
//! outside.
use std::time::Instant;

use vstd::prelude::*;

use crate::event_loop::keys::{
    Command, LogCommand, OuterCommand, OverlayCommand, SelectCommand, ServiceCommand,
    SessionCommand,
};
use crate::event_loop::perform::{RequestView, Setup};
use crate::event_loop::session::{
    copy_done, copy_effect, open_done, open_effect, remedy_label, write_key,
};
use crate::event_loop::urls::{filled, openable, planned, PlanView};
use crate::protocol::{ClientView, ServiceView};
use crate::state::laws::lines::scrolling_counts_lines;
use crate::state::laws::logs::{scroll_is_kept, scrollable};
use crate::state::settings::WriteView;
use crate::state::skill::SkillJob;
use crate::state::toasts::{age_text, outcome_kind};
use crate::state::{
    ActionView, Layout, ModalsView, NoticesView, SettingsView, ToastKind, ToastView, TuiView,
};
use crate::text::laws::replacing_goes_from_the_front;
use crate::text::{contains, decimal, joined, occurs_at};

verus! {

// ── services ────────────────────────────────────────────────────────────

/// Law: starting, stopping and restarting each send their own message, naming the
/// selected service, to the daemon that owns it, and change nothing on the
/// screen. Without a service to name nothing is sent.
pub proof fn service_commands_go_out(
    v: TuiView,
    setup: Setup,
    now: Instant,
    ages: Seq<u64>,
    id: Seq<char>,
    name: Seq<char>,
)
    ensures
        v.stacks.command_target() == Some((id, name)) ==> {
            &&& v.effect(Command::Service(ServiceCommand::Start), setup, ages).request
                == RequestView::Send {
                id,
                message: ClientView::Start { service: name, skip_deps: false },
            }
            &&& v.effect(Command::Service(ServiceCommand::Stop), setup, ages).request
                == RequestView::Send { id, message: ClientView::Stop { service: name } }
            &&& v.effect(Command::Service(ServiceCommand::Restart), setup, ages).request
                == RequestView::Send { id, message: ClientView::Restart { service: name } }
        },
        forall|c: ServiceCommand|
            c is Start || c is Stop || c is Restart ==> {
                &&& #[trigger] v.performed(Command::Service(c), setup, now, ages) == v
                &&& v.stacks.command_target() is None ==> v.effect(
                    Command::Service(c),
                    setup,
                    ages,
                ).request is Nothing
                &&& v.effect(Command::Service(c), setup, ages).copy is None
            },
{
}

/// Law: the address of a service with `{port}` once in it is the address with the
/// port in its place, and there is none while the port is not known.
pub proof fn ports_are_filled_in(a: Seq<char>, b: Seq<char>, port: u16, host: Seq<char>)
    requires
        forall|i: int| 0 <= i < a.len() ==> !#[trigger] occurs_at(a + "{port}"@ + b, "{port}"@, i),
        !contains(a + "{port}"@ + b, "{host}"@),
        !contains(b, "{port}"@),
    ensures
        filled(a + "{port}"@ + b, Some(port), host) == Some(a + decimal(port as nat) + b),
        filled(a + "{port}"@ + b, None, host) is None,
{
    reveal_strlit("{port}");
    reveal_strlit("{host}");
    let t = a + "{port}"@ + b;
    replacing_goes_from_the_front(t, "{host}"@, Seq::empty(), host);
    replacing_goes_from_the_front(a, "{port}"@, b, decimal(port as nat));
    replacing_goes_from_the_front(b, "{port}"@, Seq::empty(), decimal(port as nat));
    assert(t.subrange(a.len() as int, a.len() as int + "{port}"@.len()) =~= "{port}"@);
    assert(occurs_at(t, "{port}"@, a.len() as int));
}

/// Law: the address of a service with `{host}` in it is the address with the host
/// in its place.
pub proof fn hosts_are_filled_in(a: Seq<char>, b: Seq<char>, host: Seq<char>)
    requires
        forall|i: int| 0 <= i < a.len() ==> !#[trigger] occurs_at(a + "{host}"@ + b, "{host}"@, i),
        !contains(a + "{host}"@ + b, "{port}"@),
        !contains(b, "{host}"@),
    ensures
        filled(a + "{host}"@ + b, None, host) == Some(a + host + b),
{
    reveal_strlit("{host}");
    replacing_goes_from_the_front(a, "{host}"@, b, host);
    replacing_goes_from_the_front(b, "{host}"@, Seq::empty(), host);
}

/// The address is one for a browser.
pub open spec fn for_a_browser(url: Seq<char>) -> bool {
    (url.len() >= 7 && url.take(7) == "http://"@) || (url.len() >= 8 && url.take(8) == "https://"@)
}

/// Law: what opening and copying an address do. A service whose address is for a
/// browser is opened there; any other address is copied instead; one without an
/// address, or whose port is not known yet, is neither. Copying takes the
/// address whatever it is for.
pub proof fn addresses_are_opened_or_copied(s: ServiceView)
    ensures
        ({
            let plan = planned(Some(s));
            let url = match s.url {
                Some(template) => filled(template, s.port, "localhost"@),
                None => None,
            };
            match url {
                None => {
                    &&& open_effect(plan).request is Nothing && open_effect(plan).copy is None
                    &&& copy_effect(plan).copy is None
                    &&& plan is NoUrl <==> s.url is None
                    &&& plan is NoPort <==> s.url is Some
                },
                Some(url) => {
                    &&& for_a_browser(url) ==> open_effect(plan).request == RequestView::OpenUrl(
                        url,
                    ) && open_effect(plan).copy is None
                    &&& !for_a_browser(url) ==> open_effect(plan).request is Nothing
                        && open_effect(plan).copy == Some(url)
                    &&& copy_effect(plan).copy == Some(url) && copy_effect(plan).request is Nothing
                },
            }
        }),
        open_effect(planned(None)).request is Nothing && open_effect(planned(None)).copy is None,
        copy_effect(planned(None)).copy is None,
{
    reveal_strlit("http://");
    reveal_strlit("https://");
    assert forall|url: Seq<char>| #[trigger] for_a_browser(url) == openable(url) by {
        if url.len() >= 7 {
            assert(url.take(7) =~= url.subrange(0, 7));
        }
        if url.len() >= 8 {
            assert(url.take(8) =~= url.subrange(0, 8));
        }
    }
}

// ── quitting ────────────────────────────────────────────────────────────

/// The settings do not turn the question off.
pub open spec fn quitting_is_asked(config: Map<Seq<char>, Seq<char>>) -> bool {
    !(config.dom().contains("tui.confirm_quit"@) && config["tui.confirm_quit"@] == "false"@)
}

/// Law: quitting asks first, unless the settings turn the question off or the
/// stacks are to be left running; asking opens the question and does nothing
/// else. Where it does not ask, it quits at once, and stops everything exactly
/// where the stacks are not to be left running and the directory is known.
pub proof fn quitting_asks_or_quits(v: TuiView, setup: Setup, now: Instant, ages: Seq<u64>)
    ensures
        ({
            let c = Command::Session(SessionCommand::Quit);
            let after = v.performed(c, setup, now, ages);
            let effect = v.effect(c, setup, ages);
            if quitting_is_asked(v.session.config) && !setup.no_shutdown {
                &&& effect.request is Nothing
                &&& after == TuiView {
                    modals: ModalsView { quit_confirm: true, ..v.modals },
                    ..v
                }
            } else {
                &&& after == v
                &&& effect.request == RequestView::Quit {
                    shutdown: !setup.no_shutdown && setup.cwd_known,
                    cancel_task: true,
                }
            }
        }),
{
}

/// Law: once asked, stopping quits and stops everything, where the stacks are not
/// to be left running and the directory is known; detaching quits and stops
/// nothing but the running task; and leaving the stopped screen stops not even
/// that.
pub proof fn ways_to_quit(v: TuiView, setup: Setup, ages: Seq<u64>)
    ensures
        v.effect(Command::Session(SessionCommand::StopAndQuit), setup, ages).request
            == (RequestView::Quit {
            shutdown: !setup.no_shutdown && setup.cwd_known,
            cancel_task: true,
        }),
        v.effect(Command::Session(SessionCommand::Detach), setup, ages).request
            == (RequestView::Quit { shutdown: false, cancel_task: true }),
        v.effect(Command::Session(SessionCommand::Leave), setup, ages).request
            == (RequestView::Quit { shutdown: false, cancel_task: false }),
{
}

/// Law: nothing quits but the commands that are meant to.
pub proof fn nothing_else_quits(v: TuiView, c: Command, setup: Setup, ages: Seq<u64>)
    ensures
        v.effect(c, setup, ages).request is Quit ==> (c matches Command::Session(s) && (s is Quit
            || s is StopAndQuit || s is Detach || s is Leave)),
        v.effect(c, setup, ages).request is Send ==> (c matches Command::Service(s) && (s is Start
            || s is Stop || s is Restart)),
        v.effect(c, setup, ages).request is StartStack ==> c == Command::Session(
            SessionCommand::StartStack,
        ),
        v.effect(c, setup, ages).request is Remediate ==> c == Command::Overlay(
            OverlayCommand::TakeConflict,
        ),
        v.effect(c, setup, ages).request is Persist ==> (c matches Command::Overlay(o) && o
            is ChangeSetting),
{
}

/// Law: the stacks are brought up again from the stopped screen, and that is
/// said, exactly where the directory is known.
pub proof fn starting_needs_a_directory(v: TuiView, setup: Setup, now: Instant, ages: Seq<u64>)
    ensures
        ({
            let c = Command::Session(SessionCommand::StartStack);
            let after = v.performed(c, setup, now, ages);
            if setup.cwd_known {
                &&& v.effect(c, setup, ages).request is StartStack
                &&& after.notices.toasts.len() > 0 && after.notices.toasts.last() == ToastView {
                    kind: ToastKind::Info,
                    title: "devme"@,
                    body: "starting the stack…"@,
                    born: now,
                }
                &&& after.stacks == v.stacks
            } else {
                after == v && v.effect(c, setup, ages).request is Nothing
            }
        }),
{
}

/// Law: reading the configuration again, and the debug prompt, are asked for
/// outside; the latter is announced.
pub proof fn outside_work_is_asked_for(
    v: TuiView,
    setup: Setup,
    now: Instant,
    ages: Seq<u64>,
    o: OuterCommand,
)
    ensures
        v.effect(Command::Session(SessionCommand::ReloadConfig), setup, ages).request is ReloadConfig,
        v.effect(Command::Session(SessionCommand::CopyDebugPrompt), setup, ages).request
            is DebugPrompt,
        v.effect(Command::Outer(o), setup, ages).request == RequestView::Outer(o),
        v.performed(Command::Outer(o), setup, now, ages) == v,
        v.performed(Command::Ignore, setup, now, ages) == v,
        v.effect(Command::Ignore, setup, ages).request is Nothing,
{
}

// ── logs ────────────────────────────────────────────────────────────────

/// Law: copying takes what the viewport shows, or the whole log, its lines one
/// below the other; nothing is copied where there is no line. It says how many
/// lines where it is to, and leaves copy mode where it is to.
pub proof fn copying_takes_the_lines(
    v: TuiView,
    all: bool,
    announce: bool,
    leave: bool,
    setup: Setup,
    now: Instant,
    ages: Seq<u64>,
)
    ensures
        ({
            let c = Command::Logs(LogCommand::Copy { all, announce, leave });
            let lines = if all {
                v.stacks.selected_lines()
            } else {
                v.visible_lines()
            };
            let after = v.performed(c, setup, now, ages);
            let effect = v.effect(c, setup, ages);
            let news = "copied "@ + decimal(lines.len()) + " "@ + (if all {
                "all"@
            } else {
                "visible"@
            }) + " log line"@ + (if lines.len() == 1 {
                ""@
            } else {
                "s"@
            });
            &&& effect.copy == if lines.len() > 0 {
                Some(joined(lines, "\n"@))
            } else {
                None
            }
            &&& effect.request is Nothing
            &&& announce ==> after.notices.toasts.len() > 0 && after.notices.toasts.last()
                == ToastView { kind: ToastKind::Info, title: "copy"@, body: news, born: now }
            &&& !announce ==> after.notices == v.notices
            &&& after.notices.history == v.notices.history
            &&& after.layout.copy_mode == (v.layout.copy_mode && !leave)
            &&& after.stacks == v.stacks && after.modals == v.modals
        }),
{
}

/// Law: a line scrolls one line, a page twenty; the top is as far back as there
/// are older lines than the viewport shows, and the bottom is the newest line.
pub proof fn scroll_commands_count_lines(
    v: TuiView,
    n: usize,
    setup: Setup,
    now: Instant,
    ages: Seq<u64>,
)
    requires
        scrollable(v.stacks),
        v.stacks.selected_lines().len() <= usize::MAX,
    ensures
        ({
            let older = v.stacks.selected_lines().len() - v.layout.viewport_height;
            let most = if older > 0 {
                older
            } else {
                0
            };
            let at = v.stacks.offset();
            let up = v.performed(Command::Logs(LogCommand::Up(n)), setup, now, ages).stacks;
            let down = v.performed(Command::Logs(LogCommand::Down(n)), setup, now, ages).stacks;
            let page_up = v.performed(Command::Logs(LogCommand::PageUp), setup, now, ages).stacks;
            let page_down = v.performed(
                Command::Logs(LogCommand::PageDown),
                setup,
                now,
                ages,
            ).stacks;
            let top = v.performed(Command::Logs(LogCommand::Top), setup, now, ages).stacks;
            let bottom = v.performed(Command::Logs(LogCommand::Bottom), setup, now, ages).stacks;
            &&& up.offset() == if at + n < most {
                at + n
            } else {
                most
            }
            &&& down.offset() == if at > n {
                at - n
            } else {
                0
            }
            &&& page_up.offset() == if at + 20 < most {
                at + 20
            } else {
                most
            }
            &&& page_down.offset() == if at > 20 {
                at - 20
            } else {
                0
            }
            &&& top.offset() == most
            &&& bottom.offset() == 0
        }),
{
    scrolling_counts_lines(v.stacks, n, v.layout.viewport_height);
    scrolling_counts_lines(v.stacks, 20, v.layout.viewport_height);
    scroll_is_kept(v.stacks, v.stacks.max_offset(v.layout.viewport_height) as usize);
    scroll_is_kept(v.stacks, 0);
}

// ── the screen ──────────────────────────────────────────────────────────

/// Law: what is toggled is toggled and nothing else is: the zoom, copy mode, the
/// sidebar and the help. Toggling twice changes nothing.
pub proof fn toggles_toggle(v: TuiView, setup: Setup, now: Instant, ages: Seq<u64>)
    ensures
        ({
            let zoom = Command::Logs(LogCommand::ToggleZoom);
            let sidebar = Command::Select(SelectCommand::ToggleSidebar);
            let help = Command::Overlay(OverlayCommand::ToggleHelp);
            &&& v.performed(zoom, setup, now, ages) == TuiView {
                layout: Layout { zoom: !v.layout.zoom, ..v.layout },
                ..v
            }
            &&& v.performed(sidebar, setup, now, ages) == TuiView {
                layout: Layout { sidebar_collapsed: !v.layout.sidebar_collapsed, ..v.layout },
                ..v
            }
            &&& v.performed(help, setup, now, ages) == TuiView {
                modals: ModalsView { help_visible: !v.modals.help_visible, ..v.modals },
                ..v
            }
            &&& v.performed(Command::Logs(LogCommand::EnterCopyMode), setup, now, ages) == TuiView {
                layout: Layout { copy_mode: true, ..v.layout },
                ..v
            }
            &&& v.performed(Command::Logs(LogCommand::LeaveCopyMode), setup, now, ages) == TuiView {
                layout: Layout { copy_mode: false, ..v.layout },
                ..v
            }
            &&& v.performed(Command::Logs(LogCommand::LeaveZoom), setup, now, ages) == TuiView {
                layout: Layout { zoom: false, ..v.layout },
                ..v
            }
        }),
{
}

/// Law: what is closed is closed and nothing else is: the skill prompt, a port
/// conflict, the settings, the notices, the help and the question whether to
/// quit. Closing asks for nothing outside.
pub proof fn closing_closes_one(v: TuiView, setup: Setup, now: Instant, ages: Seq<u64>)
    ensures
        ({
            let m = v.modals;
            let skill = Command::Overlay(OverlayCommand::DismissSkill);
            let conflict = Command::Overlay(OverlayCommand::DismissConflict);
            let settings = Command::Overlay(OverlayCommand::CloseSettings);
            let notices = Command::Overlay(OverlayCommand::CloseNotifications);
            let help = Command::Overlay(OverlayCommand::HideHelp);
            let quit = Command::Overlay(OverlayCommand::CancelQuit);
            &&& v.performed(skill, setup, now, ages) == TuiView {
                modals: ModalsView { skill_dialog: None, ..m },
                ..v
            }
            &&& v.performed(conflict, setup, now, ages) == TuiView {
                modals: ModalsView { port_conflict: None, ..m },
                ..v
            }
            &&& v.performed(settings, setup, now, ages) == TuiView {
                modals: ModalsView { settings: None, ..m },
                ..v
            }
            &&& v.performed(notices, setup, now, ages) == TuiView {
                notices: NoticesView { visible: false, ..v.notices },
                ..v
            }
            &&& v.performed(help, setup, now, ages) == TuiView {
                modals: ModalsView { help_visible: false, ..m },
                ..v
            }
            &&& v.performed(quit, setup, now, ages) == TuiView {
                modals: ModalsView { quit_confirm: false, ..m },
                ..v
            }
            &&& v.effect(skill, setup, ages).request is Nothing
            &&& v.effect(conflict, setup, ages).request is Nothing
            &&& v.effect(settings, setup, ages).request is Nothing
            &&& v.effect(notices, setup, ages).request is Nothing
            &&& v.effect(help, setup, ages).request is Nothing
            &&& v.effect(quit, setup, ages).request is Nothing
        }),
{
}

/// Law: taking the highlighted remedy closes the conflict and asks for that
/// remedy, for the service and the daemon of the conflict, unless it is to leave
/// things alone.
pub proof fn the_highlighted_remedy_is_taken(
    v: TuiView,
    setup: Setup,
    now: Instant,
    ages: Seq<u64>,
)
    ensures
        ({
            let c = Command::Overlay(OverlayCommand::TakeConflict);
            let request = v.effect(c, setup, ages).request;
            &&& v.performed(c, setup, now, ages) == TuiView {
                modals: ModalsView { port_conflict: None, ..v.modals },
                ..v
            }
            &&& match v.modals.port_conflict {
                None => request is Nothing,
                Some(d) => {
                    let action = d.options[d.selected as int].action;
                    if action is Skip {
                        request is Nothing
                    } else {
                        request == RequestView::Remediate {
                            id: d.instance_id,
                            service: d.service,
                            action,
                        }
                    }
                },
            }
        }),
{
}

/// Law: the skill is installed here or everywhere, and updated once or from now
/// on, as was chosen; either way its prompt closes.
pub proof fn the_skill_prompt_is_answered(
    v: TuiView,
    flag: bool,
    setup: Setup,
    now: Instant,
    ages: Seq<u64>,
)
    ensures
        ({
            let install = Command::Overlay(OverlayCommand::InstallSkill { global: flag });
            let update = Command::Overlay(OverlayCommand::UpdateSkill { always: flag });
            let closed = TuiView { modals: ModalsView { skill_dialog: None, ..v.modals }, ..v };
            &&& v.effect(install, setup, ages).request == RequestView::Skill(
                SkillJob::Install { global: flag },
            )
            &&& v.effect(update, setup, ages).request == RequestView::Skill(
                SkillJob::Update { always: flag },
            )
            &&& v.performed(install, setup, now, ages) == closed
            &&& v.performed(update, setup, now, ages) == closed
        }),
{
}

/// What is copied of a notice: its age, its title and its words.
pub open spec fn copied_notice(t: ToastView, secs: u64) -> Seq<char> {
    "["@ + age_text(secs) + " ago] "@ + t.title + ": "@ + t.body
}

/// Law: copying from the history takes the selected notice, or all of them, one
/// below the other and the newest first; an empty history has nothing to copy.
/// Nothing is recorded of it.
pub proof fn copying_takes_the_notices(v: TuiView, setup: Setup, now: Instant, ages: Seq<u64>)
    requires
        v.notices.cursor < v.notices.history.len() || v.notices.history.len() == 0,
        ages.len() == v.notices.history.len(),
    ensures
        ({
            let one = Command::Overlay(OverlayCommand::CopyNotification);
            let every = Command::Overlay(OverlayCommand::CopyAllNotifications);
            let h = v.notices.history;
            let at = v.notices.cursor as int;
            let lines = Seq::new(h.len(), |d: int| copied_notice(h[h.len() - 1 - d], ages[d]));
            &&& h.len() == 0 ==> {
                &&& v.effect(one, setup, ages).copy is None
                &&& v.effect(every, setup, ages).copy is None
                &&& v.performed(one, setup, now, ages) == v
                &&& v.performed(every, setup, now, ages) == v
            }
            &&& h.len() > 0 ==> {
                &&& v.effect(one, setup, ages).copy == Some(lines[at])
                &&& v.effect(every, setup, ages).copy == Some(joined(lines, "\n"@))
                &&& v.performed(one, setup, now, ages).notices.history == h
                &&& v.performed(every, setup, now, ages).notices.history == h
            }
        }),
{
    let h = v.notices.history;
    let lines = Seq::new(h.len(), |d: int| copied_notice(h[h.len() - 1 - d], ages[d]));
    assert(v.notices.lines(ages) =~= lines);
    if h.len() > 0 {
        joined_is_longer(lines, "\n"@);
        reveal_strlit("[");
        assert(lines[0].len() > 0);
    }
}

/// Joined texts are at least as long as the first of them.
proof fn joined_is_longer(parts: Seq<Seq<char>>, sep: Seq<char>)
    requires
        parts.len() > 0,
    ensures
        joined(parts, sep).len() >= parts[0].len(),
    decreases parts.len(),
{
    if parts.len() > 1 {
        joined_is_longer(parts.drop_last(), sep);
    }
}

/// Law: what opening an address says: why it could not be opened, or that it was
/// copied instead; an address that opens needs no word.
pub proof fn opening_says_what_happened(v: TuiView, plan: PlanView, now: Instant)
    ensures
        ({
            let after = open_done(v, plan, now);
            let said = after.notices.toasts.last();
            let title = "open"@;
            match plan {
                PlanView::Nothing => after == v,
                PlanView::Web { .. } => after == v,
                PlanView::NoUrl { name } => after.notices.toasts.len() > 0 && said == (ToastView {
                    kind: ToastKind::Info,
                    title,
                    body: name + " has no URL"@,
                    born: now,
                }),
                PlanView::NoPort { name } => after.notices.toasts.len() > 0 && said == (ToastView {
                    kind: ToastKind::Info,
                    title,
                    body: name + " has no port yet"@,
                    born: now,
                }),
                PlanView::Address { name, url } => after.notices.toasts.len() > 0 && said == (
                ToastView {
                    kind: ToastKind::Info,
                    title,
                    body: name + ": no open URL — copied "@ + url + " (set url= to open)"@,
                    born: now,
                }),
            }
        }),
{
}

/// Law: what copying an address says: the address, or why there is none.
pub proof fn copying_says_what_happened(v: TuiView, plan: PlanView, now: Instant)
    ensures
        ({
            let after = copy_done(v, plan, now);
            let body = match plan {
                PlanView::Nothing => Seq::empty(),
                PlanView::NoUrl { name } => name + " has no URL"@,
                PlanView::NoPort { name } => name + " has no port yet"@,
                PlanView::Web { url, .. } => "copied "@ + url,
                PlanView::Address { url, .. } => "copied "@ + url,
            };
            if plan is Nothing {
                after == v
            } else {
                &&& after.notices.toasts.len() > 0 && after.notices.toasts.last() == (ToastView {
                    kind: ToastKind::Info,
                    title: "copy"@,
                    body,
                    born: now,
                })
                &&& after.stacks == v.stacks && after.modals == v.modals
            }
        }),
{
}

/// Law: what a remedy that worked is called, and under which key a setting that could
/// not be saved was to stand.
pub proof fn outcomes_have_names(
    name: Seq<char>,
    pids: Seq<u32>,
    key: Seq<char>,
    value: Seq<char>,
)
    ensures
        remedy_label(ActionView::StopContainer(name)) == "stopped "@ + name,
        remedy_label(ActionView::ComposeDown(name)) == "composed down "@ + name,
        remedy_label(ActionView::KillProcess(pids)) == "killed process"@,
        remedy_label(ActionView::Skip) == "skipped"@,
        write_key(WriteView::Assign { key, value }) == key,
        write_key(WriteView::Unset { key }) == key,
        outcome_kind(true) == ToastKind::Info,
        outcome_kind(false) == ToastKind::Failed,
{
}

/// Law: selecting goes to the neighbour and changes nothing but what is selected.
pub proof fn selecting_only_selects(v: TuiView, setup: Setup, now: Instant, ages: Seq<u64>)
    ensures
        v.performed(Command::Select(SelectCommand::NextService), setup, now, ages) == (TuiView {
            stacks: v.stacks.next_service(),
            ..v
        }),
        v.performed(Command::Select(SelectCommand::PrevService), setup, now, ages) == (TuiView {
            stacks: v.stacks.prev_service(),
            ..v
        }),
        v.performed(Command::Select(SelectCommand::NextStack), setup, now, ages) == (TuiView {
            stacks: v.stacks.next_instance(),
            ..v
        }),
        v.performed(Command::Select(SelectCommand::PrevStack), setup, now, ages) == (TuiView {
            stacks: v.stacks.prev_instance(),
            ..v
        }),
{
}

/// Law: the settings open on the first of them with what the configuration says, and
/// moving and changing act on the overlay; the history of notices opens, closes and
/// steps.
pub proof fn overlay_commands_act(
    v: TuiView,
    d: i32,
    setup: Setup,
    now: Instant,
    ages: Seq<u64>,
)
    ensures
        v.performed(Command::Overlay(OverlayCommand::OpenSettings), setup, now, ages).modals.settings
            == Some(SettingsView::opened(v.session.config)),
        v.performed(Command::Overlay(OverlayCommand::MoveSetting(d)), setup, now, ages).modals
            == v.modals.settings_moved(d),
        v.performed(Command::Overlay(OverlayCommand::MoveConflict(d)), setup, now, ages).modals
            == v.modals.conflict_moved(d),
        v.performed(Command::Overlay(OverlayCommand::ChangeSetting(d)), setup, now, ages)
            == v.setting_changed(d),
        v.modals.settings matches Some(s) ==> v.effect(
            Command::Overlay(OverlayCommand::ChangeSetting(d)),
            setup,
            ages,
        ).request == RequestView::Persist(s.write(d)),
        v.performed(Command::Overlay(OverlayCommand::ToggleNotifications), setup, now, ages).notices
            == v.notices.toggled(),
        v.performed(Command::Overlay(OverlayCommand::NewerNotification), setup, now, ages).notices
            == v.notices.cursor_up(1),
        v.performed(Command::Overlay(OverlayCommand::OlderNotification), setup, now, ages).notices
            == v.notices.cursor_down(1),
{
}

} // verus!
