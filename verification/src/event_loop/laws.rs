//! What holds of the loop whatever is pressed: overlays keep keys from what
//! is below them, Esc leaves them, and nothing stops the stacks unasked.
pub mod effects;
pub mod keys;
pub mod pointer;
pub mod prompt;
pub mod startup;

use std::time::Instant;

use vstd::prelude::*;

use crate::event_loop::keys::{
    key_means, mode_of, Command, Mode, OuterCommand, SessionCommand, Surround, TaskApproval,
};
use crate::event_loop::perform::{EffectView, RequestView, Setup};
use crate::event_loop::pointer::{tab_columns, MouseEvent, MouseKind};
use crate::event_loop::prompt::{log_sections, state_line, state_lines, step_sections};
use crate::event_loop::startup::{task_output, TASK_LINES};
use crate::event_loop::urls::filled;
use crate::keymap::{KeyCode, KeyEvent};
use crate::protocol::ServiceView;
use crate::state::tabs::{named_in, not_among};
use crate::state::{ClickTarget, StacksView, TuiView};
use crate::text::{contains, decimal, occurs_at, replaced};

verus! {

/// Law: Esc leaves whatever has the keyboard: each overlay closes, the
/// worktree modals are told to, and a task that asks is cancelled. Over the
/// dashboard itself it means to quit.
pub proof fn escape_leaves(
    v: TuiView,
    around: Surround,
    ctrl: bool,
    setup: Setup,
    now: Instant,
    ages: Seq<u64>,
)
    requires
        !around.panel,
    ensures
        ({
            let m = mode_of(v, around);
            let c = key_means(m, around, KeyEvent { code: KeyCode::Esc, ctrl });
            let after = v.performed(c, setup, now, ages);
            match m {
                Mode::Skill(_) => after.modals.skill_dialog is None,
                Mode::Approval => c == Command::Outer(OuterCommand::Answer(TaskApproval::Cancel)),
                Mode::CopyMode => !after.layout.copy_mode,
                Mode::Stopped => c == Command::Session(SessionCommand::Leave),
                Mode::PortConflict => after.modals.port_conflict is None,
                Mode::Zoom => !after.layout.zoom,
                Mode::QuitConfirm => !after.modals.quit_confirm,
                Mode::Settings => after.modals.settings is None,
                Mode::WorktreeRemove => c == Command::Outer(OuterCommand::CloseRemove),
                Mode::WorktreeAdd => c == Command::Outer(OuterCommand::CloseAdd),
                Mode::StackInfo => c == Command::Outer(OuterCommand::CloseInfo),
                Mode::Notifications => !after.notices.visible,
                Mode::Help => !after.modals.help_visible,
                Mode::Main => !ctrl ==> c == Command::Session(SessionCommand::Quit),
            }
        }),
{
}

/// Law: what has the keyboard keeps it. Unless the dashboard or its help is on
/// top, no key reaches a service, quits over the dashboard, reloads the
/// configuration or copies the debug prompt.
pub proof fn overlays_keep_keys_from_below(mode: Mode, around: Surround, key: KeyEvent)
    requires
        !(mode is Main),
        !(mode is Help),
    ensures
        !(key_means(mode, around, key) is Service),
        key_means(mode, around, key) matches Command::Session(s) ==> {
            ||| mode is Stopped && (s is StartStack || s is Leave)
            ||| mode is QuitConfirm && (s is StopAndQuit || s is Detach)
        },
{
}

/// The request asks for every service to be stopped.
pub open spec fn stops_everything(e: EffectView) -> bool {
    e.request matches RequestView::Quit { shutdown, .. } && shutdown
}

/// Law: a dashboard that was told to leave the stacks running never stops
/// them, whatever is asked of it.
pub proof fn kept_stacks_keep_running(v: TuiView, c: Command, setup: Setup, ages: Seq<u64>)
    requires
        setup.no_shutdown,
    ensures
        !stops_everything(v.effect(c, setup, ages)),
{
}

/// Law: detaching leaves every service running, and so does leaving the
/// stopped screen.
pub proof fn detaching_stops_nothing(v: TuiView, setup: Setup)
    ensures
        v.session_effect(SessionCommand::Detach, setup).request is Quit,
        !stops_everything(v.session_effect(SessionCommand::Detach, setup)),
        v.session_effect(SessionCommand::Leave, setup).request is Quit,
        !stops_everything(v.session_effect(SessionCommand::Leave, setup)),
{
}

/// Law: where quitting is to be confirmed, no key stops the stacks but one that
/// is pressed in the confirmation.
pub proof fn stopping_is_confirmed(
    v: TuiView,
    around: Surround,
    key: KeyEvent,
    setup: Setup,
    ages: Seq<u64>,
)
    requires
        v.asks_to_quit(setup),
        stops_everything(v.effect(key_means(mode_of(v, around), around, key), setup, ages)),
    ensures
        mode_of(v, around) is QuitConfirm,
        v.modals.quit_confirm,
{
    let m = mode_of(v, around);
    let c = key_means(m, around, key);
    assert(c is Session);
}

/// Law: the mouse is given to the terminal exactly while copy mode is on.
pub proof fn mouse_is_free_in_copy_mode(
    v: TuiView,
    c: Command,
    setup: Setup,
    now: Instant,
    ages: Seq<u64>,
)
    ensures
        v.performed(c, setup, now, ages).layout.copy_mode == match v.effect(
            c,
            setup,
            ages,
        ).mouse {
            Some(captured) => !captured,
            None => v.layout.copy_mode,
        },
{
}

/// Law: under an overlay a click does nothing, except that it copies in the
/// list of notifications.
pub proof fn overlays_keep_clicks_from_below(v: TuiView, col: u16, row: u16, now: Instant)
    requires
        v.modal_open(),
    ensures
        v.pressed(col, row, now).stacks == v.stacks,
        v.pressed(col, row, now).layout == v.layout,
        v.pressed(col, row, now).hits == v.hits,
        !v.notices.visible ==> v.pressed(col, row, now) == v,
{
}

/// Law: a press on an edge marker of the tab row pages the row, backward at the
/// left and forward at the right, and selects nothing.
pub proof fn edge_markers_page_the_row(v: TuiView, e: MouseEvent, now: Instant)
    requires
        e.kind == MouseKind::LeftDown,
        !v.modal_open(),
        !v.on_divider(e.col, e.row),
        !v.on_scrollbar(e.col, e.row),
    ensures
        v.hits.region_at(e.col, e.row) == Some(ClickTarget::TabScrollLeft) ==> tab_columns(v, e)
            == Some((-(e.tab_page as int)) as i32) && v.pointed(e, now) == v,
        v.hits.region_at(e.col, e.row) == Some(ClickTarget::TabScrollRight) ==> tab_columns(v, e)
            == Some(e.tab_page as i32) && v.pointed(e, now) == v,
{
}

/// Law: releasing the button ends every drag, after which moving the pointer
/// with the button down changes nothing until something is grabbed anew.
pub proof fn releasing_ends_drags(v: TuiView, up: MouseEvent, drag: MouseEvent, now: Instant)
    requires
        up.kind == MouseKind::LeftUp,
        drag.kind == MouseKind::LeftDrag,
    ensures
        v.pointed(up, now).pointed(drag, now) == v.pointed(up, now),
        v.pointed(up, now).stacks == v.stacks,
        v.pointed(up, now).layout == v.layout,
{
}

/// Law: the stopped screen shows exactly while every daemon is gone.
pub proof fn stopped_follows_the_daemons(v: TuiView, repo: Option<Seq<char>>)
    ensures
        v.settled(repo).session.stopped == v.stacks.all_shut_down(),
        v.settled(repo).stacks == v.stacks,
        v.settled(repo).settled(repo) == v.settled(repo),
{
}

/// Law: a task's output keeps its newest lines, and the last one always.
pub proof fn task_output_keeps_the_newest(lines: Seq<Seq<char>>, line: Seq<char>)
    requires
        lines.len() <= TASK_LINES,
    ensures
        task_output(lines, line).len() <= TASK_LINES,
        task_output(lines, line).last() == line,
        lines.len() < TASK_LINES ==> task_output(lines, line) == lines.push(line),
{
}

/// Nothing is replaced where nothing occurs.
proof fn replaced_nothing(s: Seq<char>, from: Seq<char>, to: Seq<char>)
    requires
        !contains(s, from),
    ensures
        replaced(s, from, to) == s,
    decreases s.len(),
{
    if s.len() > 0 && from.len() > 0 {
        let rest = s.skip(1);
        assert(!occurs_at(s, from, 0));
        if contains(rest, from) {
            let i = choose|i: int| occurs_at(rest, from, i);
            assert(rest.subrange(i, i + from.len()) =~= s.subrange(i + 1, i + 1 + from.len()));
            assert(occurs_at(s, from, i + 1));
        }
        replaced_nothing(rest, from, to);
        assert(seq![s[0]] + rest =~= s);
    }
}

/// Law: a URL without placeholders is used as it is written, whether the
/// service has a port or not.
pub proof fn plain_urls_are_left_alone(url: Seq<char>, port: Option<u16>, host: Seq<char>)
    requires
        !contains(url, "{host}"@),
        !contains(url, "{port}"@),
    ensures
        filled(url, port, host) == Some(url),
{
    replaced_nothing(url, "{host}"@, host);
    match port {
        Some(p) => {
            replaced_nothing(url, "{port}"@, decimal(p as nat));
        },
        None => {},
    }
}

/// What stands in a part stands in the whole.
proof fn part_in_whole(before: Seq<char>, part: Seq<char>, after: Seq<char>, x: Seq<char>)
    requires
        contains(part, x),
    ensures
        contains(before + part + after, x),
{
    let whole = before + part + after;
    let i = choose|i: int| occurs_at(part, x, i);
    let j = before.len() + i;
    assert(whole.subrange(j, j + x.len()) =~= part.subrange(i, i + x.len()));
    assert(occurs_at(whole, x, j));
}

/// What stands in one of two texts stands in both together.
proof fn in_sum(a: Seq<char>, b: Seq<char>, x: Seq<char>)
    ensures
        contains(a, x) || contains(b, x) ==> contains(a + b, x),
{
    if contains(a, x) {
        part_in_whole(Seq::empty(), a, b, x);
        assert(Seq::empty() + a + b =~= a + b);
    } else if contains(b, x) {
        part_in_whole(a, b, Seq::empty(), x);
        assert(a + b + Seq::empty() =~= a + b);
    }
}

/// The list of states has a line for each service.
proof fn state_lines_hold(services: Seq<ServiceView>, shared: bool, i: int)
    requires
        0 <= i < services.len(),
    ensures
        contains(state_lines(services, shared), state_line(services[i], shared)),
    decreases services.len(),
{
    let rest = services.drop_last();
    let line = state_line(services[i], shared);
    let last = state_line(services.last(), shared);
    if i == rest.len() {
        assert(line.subrange(0, line.len() as int) =~= line);
        assert(occurs_at(line, line, 0));
        part_in_whole(state_lines(rest, shared), line, Seq::empty(), line);
        assert(state_lines(rest, shared) + line + Seq::<char>::empty() =~= state_lines(
            services,
            shared,
        ));
    } else {
        assert(rest[i] == services[i]);
        state_lines_hold(rest, shared, i);
        part_in_whole(Seq::empty(), state_lines(rest, shared), last, line);
        assert(Seq::<char>::empty() + state_lines(rest, shared) + last =~= state_lines(
            services,
            shared,
        ));
    }
}

/// The prompt holds what its list of states holds.
proof fn prompt_holds(s: StacksView, toml_exists: bool, toml: Option<Seq<char>>, line: Seq<char>)
    requires
        contains(state_lines(s.services(), false), line) || contains(
            state_lines(s.shared_extras(), true),
            line,
        ),
        s.services().len() > 0 || s.shared_extras().len() > 0,
    ensures
        contains(s.debug_prompt(toml_exists, toml), line),
{
    let own = state_lines(s.services(), false);
    let extra = state_lines(s.shared_extras(), true);
    let states = "## Service states\n\n"@ + own;
    in_sum("## Service states\n\n"@, own, line);
    in_sum(states, extra, line);
    in_sum(states + extra, "\n"@, line);
    let listed = states + extra + "\n"@;
    let logs = log_sections(s, s.services(), false);
    in_sum(listed, logs, line);
    in_sum(listed + logs, log_sections(s, s.shared_extras(), true), line);
    assert(contains(s.services_part(), line));
    let first = "My devme dev environment ("@ + s.prompt_label()
        + ").\n\nWorking directory: "@ + s.current_cwd() + "\n\n"@ + (if s.services().len() > 0 {
        ""@
    } else if toml_exists {
        "devme.toml exists but no services are running (daemon may not have started yet).\n\n"@
    } else {
        "No devme.toml found in this directory.\n\n"@
    });
    let steps = step_sections(s, s.steps());
    let file = match toml {
        Some(text) => "## devme.toml\n\n```toml\n"@ + text + "```\n\n"@,
        None => ""@,
    };
    in_sum(first, s.services_part(), line);
    in_sum(first + s.services_part(), steps, line);
    in_sum(first + s.services_part() + steps, file, line);
    in_sum(
        first + s.services_part() + steps + file,
        "Inspect the environment and help me diagnose any issues."@,
        line,
    );
}

/// Law: the debug prompt gives the state of every service of the selected row.
pub proof fn prompt_names_every_service(
    s: StacksView,
    toml_exists: bool,
    toml: Option<Seq<char>>,
    i: int,
)
    requires
        0 <= i < s.services().len(),
    ensures
        contains(s.debug_prompt(toml_exists, toml), state_line(s.services()[i], false)),
{
    state_lines_hold(s.services(), false, i);
    prompt_holds(s, toml_exists, toml, state_line(s.services()[i], false));
}

/// Law: on a stack, whether it has services of its own or not, the debug
/// prompt gives the state of every shared service, marked as shared.
pub proof fn prompt_names_every_shared_service(
    s: StacksView,
    toml_exists: bool,
    toml: Option<Seq<char>>,
    i: int,
)
    requires
        !s.shared_selected,
        0 <= i < s.shared.services.len(),
    ensures
        contains(s.debug_prompt(toml_exists, toml), state_line(s.shared.services[i], true)),
{
    let shared = s.shared.services;
    let extras = s.shared_extras();
    let p = not_among(s.services());
    assert forall|j: int| 0 <= j < shared.len() implies p(#[trigger] shared[j]) by {
        if named_in(s.services(), shared[j].name) {
            let k = choose|k: int|
                0 <= k < s.services().len() && (#[trigger] s.services()[k]).name == shared[j].name;
            s.current()->0.services.lemma_filter_pred(not_among(shared), k);
            assert(shared[j].name == s.services()[k].name);
            assert(named_in(shared, s.services()[k].name));
        }
    }
    all_pass(shared, p);
    state_lines_hold(extras, true, i);
    prompt_holds(s, toml_exists, toml, state_line(shared[i], true));
}

/// A filter that everything passes leaves the list as it is.
proof fn all_pass(s: Seq<ServiceView>, p: spec_fn(ServiceView) -> bool)
    requires
        forall|j: int| 0 <= j < s.len() ==> p(#[trigger] s[j]),
    ensures
        s.filter(p) == s,
    decreases s.len(),
{
    reveal(Seq::filter);
    if s.len() > 0 {
        let t = s.drop_last();
        assert forall|j: int| 0 <= j < t.len() implies p(#[trigger] t[j]) by {
            assert(t[j] == s[j]);
        }
        all_pass(t, p);
        assert(p(s[s.len() - 1]));
        assert(t.push(s.last()) =~= s);
    } else {
        assert(s.filter(p) =~= s);
    }
}

} // verus!
