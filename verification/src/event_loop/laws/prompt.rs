//! The debug prompt: which lines, steps and files it quotes, and where.
use vstd::prelude::*;

use crate::event_loop::prompt::{
    ended, log_section, log_sections, quoted, quoted_list, state_debug, state_line, state_lines,
    step_section, step_sections,
};
use crate::protocol::{ServiceView, StateView, StepState, StepView};
use crate::state::StacksView;
use crate::text::{contains, decimal, ends_with, joined, occurs_at, signed_decimal, starts_with};

use super::in_sum;

verus! {

/// Lines one after the other, each with a newline behind it.
pub open spec fn one_per_line(lines: Seq<Seq<char>>) -> Seq<char> {
    lines.fold_left(Seq::empty(), |text: Seq<char>, line: Seq<char>| text + line + "\n"@)
}

proof fn ended_one_per_line(lines: Seq<Seq<char>>)
    ensures
        ended(lines) == one_per_line(lines),
    decreases lines.len(),
{
    if lines.len() > 0 {
        ended_one_per_line(lines.drop_last());
    }
}

/// Law: the block of a service with log lines quotes the last of them, at most
/// thirty and otherwise all, in their order; its heading names the service and
/// says how many. What stands before those leaves no trace, and a service
/// without lines has no block.
pub proof fn log_blocks_quote_the_last_lines(
    name: Seq<char>,
    shared: bool,
    lines: Seq<Seq<char>>,
)
    ensures
        lines.len() == 0 ==> log_section(name, shared, lines).len() == 0,
        lines.len() > 0 ==> ({
            let k: int = if lines.len() < 30 {
                lines.len() as int
            } else {
                30
            };
            let newest = lines.subrange(lines.len() - k, lines.len() as int);
            &&& newest.len() == k && newest.is_suffix_of(lines)
            &&& log_section(name, shared, lines) == "## "@ + name + (if shared {
                " (shared)"@
            } else {
                ""@
            }) + " logs (last "@ + decimal(k as nat) + ")\n\n```\n"@ + one_per_line(newest)
                + "```\n\n"@
        }),
{
    if lines.len() > 0 {
        let k: int = if lines.len() < 30 {
            lines.len() as int
        } else {
            30
        };
        let newest = lines.subrange(lines.len() - k, lines.len() as int);
        if lines.len() > 30 {
            assert(newest =~= lines.skip(lines.len() - 30));
        } else {
            assert(newest =~= lines);
        }
        ended_one_per_line(newest);
    }
}

/// Law: lines older than the newest thirty do not change the block of a service.
pub proof fn older_lines_are_not_quoted(
    name: Seq<char>,
    shared: bool,
    older: Seq<Seq<char>>,
    newest: Seq<Seq<char>>,
)
    requires
        newest.len() >= 30,
    ensures
        log_section(name, shared, older + newest) == log_section(name, shared, newest),
{
    let all = older + newest;
    assert(all.skip(all.len() - 30) =~= newest.skip(newest.len() - 30));
    assert(newest.skip(0) =~= newest);
}

proof fn whole_in_whole(x: Seq<char>)
    ensures
        contains(x, x),
{
    assert(x.subrange(0, x.len() as int) =~= x);
    assert(occurs_at(x, x, 0));
}

proof fn log_sections_hold(v: StacksView, services: Seq<ServiceView>, shared: bool, i: int)
    requires
        0 <= i < services.len(),
    ensures
        contains(
            log_sections(v, services, shared),
            log_section(services[i].name, shared, v.lines(services[i].name)),
        ),
    decreases services.len(),
{
    let rest = services.drop_last();
    let block = log_section(services[i].name, shared, v.lines(services[i].name));
    let last = log_section(services.last().name, shared, v.lines(services.last().name));
    if i == rest.len() {
        whole_in_whole(block);
    } else {
        assert(rest[i] == services[i]);
        log_sections_hold(v, rest, shared, i);
    }
    in_sum(log_sections(v, rest, shared), last, block);
}

proof fn step_sections_hold(v: StacksView, steps: Seq<StepView>, i: int)
    requires
        0 <= i < steps.len(),
    ensures
        contains(step_sections(v, steps), step_section(steps[i], v.lines(steps[i].name))),
    decreases steps.len(),
{
    let rest = steps.drop_last();
    let block = step_section(steps[i], v.lines(steps[i].name));
    let last = step_section(steps.last(), v.lines(steps.last().name));
    if i == rest.len() {
        whole_in_whole(block);
    } else {
        assert(rest[i] == steps[i]);
        step_sections_hold(v, rest, i);
    }
    in_sum(step_sections(v, rest), last, block);
}

proof fn prompt_parts(s: StacksView, toml_exists: bool, toml: Option<Seq<char>>, x: Seq<char>)
    ensures
        contains(s.services_part(), x) ==> contains(s.debug_prompt(toml_exists, toml), x),
        contains(step_sections(s, s.steps()), x) ==> contains(s.debug_prompt(toml_exists, toml), x),
        toml is Some && contains(toml->0, x) ==> contains(s.debug_prompt(toml_exists, toml), x),
{
    let first = "My devme dev environment ("@ + s.prompt_label()
        + ").\n\nWorking directory: "@ + s.current_cwd() + "\n\n"@ + (if s.services().len() > 0 {
        ""@
    } else if toml_exists {
        "devme.toml exists but no services are running (daemon may not have started yet).\n\n"@
    } else {
        "No devme.toml found in this directory.\n\n"@
    });
    let steps = step_sections(s, s.steps());
    let file = match toml {
        Some(text) => "## devme.toml\n\n```toml\n"@ + text + "```\n\n"@,
        None => ""@,
    };
    if toml is Some {
        in_sum("## devme.toml\n\n```toml\n"@, toml->0, x);
        in_sum("## devme.toml\n\n```toml\n"@ + toml->0, "```\n\n"@, x);
    }
    in_sum(first, s.services_part(), x);
    in_sum(first + s.services_part(), steps, x);
    in_sum(first + s.services_part() + steps, file, x);
    in_sum(
        first + s.services_part() + steps + file,
        "Inspect the environment and help me diagnose any issues."@,
        x,
    );
}

/// Law: the prompt quotes the log of every service of the selected row, and on a
/// stack that of every shared service that the row does not list.
pub proof fn every_log_is_quoted(
    s: StacksView,
    toml_exists: bool,
    toml: Option<Seq<char>>,
    i: int,
)
    ensures
        0 <= i < s.services().len() ==> contains(
            s.debug_prompt(toml_exists, toml),
            log_section(s.services()[i].name, false, s.lines(s.services()[i].name)),
        ),
        0 <= i < s.shared_extras().len() ==> contains(
            s.debug_prompt(toml_exists, toml),
            log_section(s.shared_extras()[i].name, true, s.lines(s.shared_extras()[i].name)),
        ),
{
    let own = s.services();
    let extras = s.shared_extras();
    let before = "## Service states\n\n"@ + state_lines(own, false) + state_lines(extras, true)
        + "\n"@;
    let a = log_sections(s, own, false);
    let b = log_sections(s, extras, true);
    if 0 <= i < own.len() {
        let x = log_section(own[i].name, false, s.lines(own[i].name));
        log_sections_hold(s, own, false, i);
        in_sum(before, a, x);
        in_sum(before + a, b, x);
        prompt_parts(s, toml_exists, toml, x);
    }
    if 0 <= i < extras.len() {
        let x = log_section(extras[i].name, true, s.lines(extras[i].name));
        log_sections_hold(s, extras, true, i);
        in_sum(before + a, b, x);
        prompt_parts(s, toml_exists, toml, x);
    }
}

/// Law: the prompt names every dependency check that failed, says how, and
/// quotes all that it printed. A check that did not fail has no part in it.
pub proof fn failed_checks_are_quoted(
    s: StacksView,
    toml_exists: bool,
    toml: Option<Seq<char>>,
    i: int,
)
    requires
        0 <= i < s.steps().len(),
    ensures
        ({
            let step = s.steps()[i];
            let lines = s.lines(step.name);
            let quoted = if lines.len() == 0 {
                ""@
            } else {
                "\n```\n"@ + one_per_line(lines) + "```\n\n"@
            };
            let block = step_section(step, lines);
            &&& contains(s.debug_prompt(toml_exists, toml), block)
            &&& match step.state {
                StepState::Failed => block == "Step `"@ + step.name + "` is Failed.\n"@ + quoted,
                StepState::ProvisionFailed => block == "Step `"@ + step.name
                    + "` is ProvisionFailed.\n"@ + quoted,
                _ => block.len() == 0,
            }
        }),
{
    let step = s.steps()[i];
    let lines = s.lines(step.name);
    step_sections_hold(s, s.steps(), i);
    prompt_parts(s, toml_exists, toml, step_section(step, lines));
    ended_one_per_line(lines);
    reveal_strlit("` is ");
    reveal_strlit("Failed");
    reveal_strlit("ProvisionFailed");
    reveal_strlit(".\n");
    reveal_strlit("` is Failed.\n");
    reveal_strlit("` is ProvisionFailed.\n");
    assert("` is "@ + "Failed"@ + ".\n"@ =~= "` is Failed.\n"@);
    assert("` is "@ + "ProvisionFailed"@ + ".\n"@ =~= "` is ProvisionFailed.\n"@);
    let head = "Step `"@ + step.name;
    assert(head + "` is "@ + "Failed"@ + ".\n"@ =~= head + ("` is "@ + "Failed"@ + ".\n"@));
    assert(head + "` is "@ + "ProvisionFailed"@ + ".\n"@ =~= head + ("` is "@ + "ProvisionFailed"@
        + ".\n"@));
}

/// Law: the prompt opens with the stack's name and directory, closes with what
/// is asked, and quotes the configuration file word for word where there is
/// one.
pub proof fn prompt_says_where_and_what(
    s: StacksView,
    toml_exists: bool,
    toml: Option<Seq<char>>,
)
    ensures
        ({
            let text = s.debug_prompt(toml_exists, toml);
            let label = if s.shared_selected {
                "shared"@
            } else {
                match s.current() {
                    Some(row) => row.info.label,
                    None => Seq::empty(),
                }
            };
            let opening = "My devme dev environment ("@ + label + ").\n\nWorking directory: "@
                + s.current_cwd() + "\n\n"@;
            &&& starts_with(text, opening)
            &&& s.services().len() == 0 && toml_exists ==> starts_with(
                text,
                opening
                    + "devme.toml exists but no services are running (daemon may not have started yet).\n\n"@,
            )
            &&& s.services().len() == 0 && !toml_exists ==> starts_with(
                text,
                opening + "No devme.toml found in this directory.\n\n"@,
            )
            &&& ends_with(text, "Inspect the environment and help me diagnose any issues."@)
            &&& toml matches Some(file) ==> contains(text, file)
        }),
{
    let label = s.prompt_label();
    let opening = "My devme dev environment ("@ + label + ").\n\nWorking directory: "@
        + s.current_cwd() + "\n\n"@;
    let note = if s.services().len() > 0 {
        ""@
    } else if toml_exists {
        "devme.toml exists but no services are running (daemon may not have started yet).\n\n"@
    } else {
        "No devme.toml found in this directory.\n\n"@
    };
    let services = s.services_part();
    let steps = step_sections(s, s.steps());
    let file = match toml {
        Some(text) => "## devme.toml\n\n```toml\n"@ + text + "```\n\n"@,
        None => ""@,
    };
    let closing = "Inspect the environment and help me diagnose any issues."@;
    begins_itself(opening);
    begins_sum(opening, note, opening);
    begins_sum(opening + note, services, opening);
    begins_sum(opening + note + services, steps, opening);
    begins_sum(opening + note + services + steps, file, opening);
    begins_sum(opening + note + services + steps + file, closing, opening);
    begins_itself(opening + note);
    begins_sum(opening + note, services, opening + note);
    begins_sum(opening + note + services, steps, opening + note);
    begins_sum(opening + note + services + steps, file, opening + note);
    begins_sum(opening + note + services + steps + file, closing, opening + note);
    ends_sum(opening + note + services + steps + file, closing);
    match toml {
        Some(text) => {
            whole_in_whole(text);
            prompt_parts(s, toml_exists, toml, text);
        },
        None => {},
    }
}

proof fn begins_itself(a: Seq<char>)
    ensures
        starts_with(a, a),
{
    assert(a.subrange(0, a.len() as int) =~= a);
}

/// What begins with a text begins with it however it goes on.
proof fn begins_sum(a: Seq<char>, b: Seq<char>, x: Seq<char>)
    requires
        starts_with(a, x),
    ensures
        starts_with(a + b, x),
{
    assert((a + b).subrange(0, x.len() as int) =~= a.subrange(0, x.len() as int));
}

proof fn ends_sum(a: Seq<char>, b: Seq<char>)
    ensures
        ends_with(a + b, b),
{
    let s = a + b;
    assert(s.subrange(s.len() - b.len(), s.len() as int) =~= b);
}

/// Law: a service's line names it, marked where it is shared, and then gives its
/// state. Its process, its port and its restarts follow exactly where there are
/// any.
pub proof fn state_lines_give_what_is_known(s: ServiceView, shared: bool)
    ensures
        ({
            let line = state_line(s, shared);
            let tag = if shared {
                " (shared)"@
            } else {
                ""@
            };
            let bare = ServiceView { pid: None, port: None, restart_count: 0, ..s };
            let pid = match s.pid {
                Some(n) => " (pid "@ + decimal(n as nat) + ")"@,
                None => ""@,
            };
            let port = match s.port {
                Some(n) => " (port "@ + decimal(n as nat) + ")"@,
                None => ""@,
            };
            let restarts = if s.restart_count == 0 {
                ""@
            } else {
                " ("@ + decimal(s.restart_count as nat) + " restarts)"@
            };
            &&& starts_with(line, "- **"@ + s.name + "**"@ + tag + ": "@ + state_debug(s.state))
            &&& state_line(bare, shared) == "- **"@ + s.name + "**"@ + tag + ": "@ + state_debug(
                s.state,
            ) + "\n"@
            &&& line == "- **"@ + s.name + "**"@ + tag + ": "@ + state_debug(s.state) + pid + port
                + restarts + "\n"@
        }),
{
    let tag = if shared {
        " (shared)"@
    } else {
        ""@
    };
    let head = "- **"@ + s.name + "**"@ + tag + ": "@ + state_debug(s.state);
    let line = state_line(s, shared);
    assert(line.subrange(0, head.len() as int) =~= head);
    reveal_strlit("");
    assert(head + ""@ + ""@ + ""@ + "\n"@ =~= head + "\n"@);
}

/// Law: the prompt calls each state by its name.
pub proof fn states_are_called_by_name(s: StateView)
    ensures
        starts_with(
            state_debug(s),
            match s {
                StateView::Stopped => "Stopped"@,
                StateView::Starting => "Starting"@,
                StateView::Running { .. } => "Running"@,
                StateView::WaitingOnDependency { .. } => "WaitingOnDependency"@,
                StateView::Restarting { .. } => "Restarting"@,
                StateView::CrashLoop { .. } => "CrashLoop"@,
                StateView::Failed { .. } => "Failed"@,
                StateView::External { .. } => "External"@,
            },
        ),
{
    reveal_strlit("Stopped");
    reveal_strlit("Starting");
    reveal_strlit("Running");
    reveal_strlit("WaitingOnDependency");
    reveal_strlit("Restarting");
    reveal_strlit("CrashLoop");
    reveal_strlit("Failed");
    reveal_strlit("External");
    reveal_strlit("Running { degraded: ");
    reveal_strlit("WaitingOnDependency { waiting_on: ");
    reveal_strlit("Restarting { attempt: ");
    reveal_strlit("CrashLoop { restarts: ");
    reveal_strlit("Failed { exit_code: ");
    reveal_strlit("External { healthy: ");
    let text = state_debug(s);
    match s {
        StateView::Stopped => {
            assert(text.subrange(0, 7) =~= "Stopped"@);
        },
        StateView::Starting => {
            assert(text.subrange(0, 8) =~= "Starting"@);
        },
        StateView::Running { .. } => {
            assert(text.subrange(0, 7) =~= "Running"@);
        },
        StateView::WaitingOnDependency { .. } => {
            assert(text.subrange(0, 19) =~= "WaitingOnDependency"@);
        },
        StateView::Restarting { .. } => {
            assert(text.subrange(0, 10) =~= "Restarting"@);
        },
        StateView::CrashLoop { .. } => {
            assert(text.subrange(0, 9) =~= "CrashLoop"@);
        },
        StateView::Failed { .. } => {
            assert(text.subrange(0, 6) =~= "Failed"@);
        },
        StateView::External { .. } => {
            assert(text.subrange(0, 8) =~= "External"@);
        },
    }
}

/// Law: the prompt gives all that is known of a state: whether a service that runs is
/// degraded, which attempt a restart is, how often it crashed, with which code it
/// failed, and whether an external one is healthy.
pub proof fn states_are_given_in_full(n: u32, code: i32, without: Seq<Seq<char>>)
    ensures
        state_debug(StateView::Stopped) == "Stopped"@,
        state_debug(StateView::Starting) == "Starting"@,
        state_debug(StateView::Running { degraded: true, started_without: without })
            == "Running { degraded: "@ + "true"@ + ", started_without: "@ + quoted_list(without)
            + " }"@,
        state_debug(StateView::Running { degraded: false, started_without: without })
            == "Running { degraded: "@ + "false"@ + ", started_without: "@ + quoted_list(without)
            + " }"@,
        state_debug(StateView::WaitingOnDependency { waiting_on: without })
            == "WaitingOnDependency { waiting_on: "@ + quoted_list(without) + " }"@,
        state_debug(StateView::Restarting { attempt: n }) == "Restarting { attempt: "@ + decimal(
            n as nat,
        ) + " }"@,
        state_debug(StateView::CrashLoop { restarts: n }) == "CrashLoop { restarts: "@ + decimal(
            n as nat,
        ) + " }"@,
        state_debug(StateView::Failed { exit_code: Some(code) }) == "Failed { exit_code: "@ + (
        "Some("@ + signed_decimal(code as int) + ")"@) + " }"@,
        state_debug(StateView::Failed { exit_code: None }) == "Failed { exit_code: "@ + "None"@
            + " }"@,
        state_debug(StateView::External { healthy: true }) == "External { healthy: "@ + "true"@
            + " }"@,
        state_debug(StateView::External { healthy: false }) == "External { healthy: "@ + "false"@
            + " }"@,
{
}

/// Law: a list of names stands in brackets, each quoted, with commas between.
pub proof fn lists_stand_in_brackets(names: Seq<Seq<char>>, name: Seq<char>)
    ensures
        quoted_list(Seq::empty()) == "["@ + Seq::empty() + "]"@,
        quoted_list(seq![name]) == "["@ + quoted(name) + "]"@,
        quoted_list(names) == "["@ + joined(
            Seq::new(names.len(), |i: int| quoted(names[i])),
            ", "@,
        ) + "]"@,
{
    assert(Seq::new(1, |i: int| quoted(seq![name][i])) =~= seq![quoted(name)]);
    assert(Seq::new(0, |i: int| quoted(Seq::<Seq<char>>::empty()[i])) =~= Seq::<Seq<char>>::empty());
}

/// Law: the configuration file stands last, right before what is asked; the rest of the
/// prompt does not turn on it.
pub proof fn the_file_stands_last(s: StacksView, toml_exists: bool, file: Seq<char>)
    ensures
        ({
            let closing = "Inspect the environment and help me diagnose any issues."@;
            let without = s.debug_prompt(toml_exists, None);
            let before = without.take(without.len() - closing.len());
            s.debug_prompt(toml_exists, Some(file)) == before + (
            "## devme.toml\n\n```toml\n"@ + file + "```\n\n"@) + closing
        }),
{
    let closing = "Inspect the environment and help me diagnose any issues."@;
    let without = s.debug_prompt(toml_exists, None);
    let before = "My devme dev environment ("@ + s.prompt_label()
        + ").\n\nWorking directory: "@ + s.current_cwd() + "\n\n"@ + (if s.services().len() > 0 {
        ""@
    } else if toml_exists {
        "devme.toml exists but no services are running (daemon may not have started yet).\n\n"@
    } else {
        "No devme.toml found in this directory.\n\n"@
    }) + s.services_part() + step_sections(s, s.steps());
    reveal_strlit("");
    assert(before + ""@ =~= before);
    assert(without == before + closing);
    assert(without.take(without.len() - closing.len()) =~= before);
}

} // verus!
