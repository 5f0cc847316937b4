//! Marks: what the dots, colours, words and counts on the screen say.
use vstd::prelude::*;

use crate::lists::count;
use crate::protocol::{ServiceView, StateView, StepState};
use crate::render::glyphs::{
    color_of, dot_of, host_label, label_of, step_color, step_mark, toast_color,
};
use crate::render::paint::{
    badge, bold, chip, coloured, filled, inked, italic, plain, slanted, strong, DrawView, Ink, Rect,
    SpanView,
};
use crate::render::sidebar::{
    distance_spans, shared_draws, stack_draws, stacks_scroll, stacks_shown, summary_span,
};
use crate::render::tabs::{is_running, tab_spans, title_line};
use crate::render::viewport::meta_line;
use crate::state::laws::health::{
    a_stack_is_as_well_as_its_own_services, answers, gave_up, health_sums_up, own_service,
};
use crate::state::tabs::{is_broken, is_up};
use crate::state::{StackSummary, TabView, ToastKind, TuiView};
use crate::text::decimal;
use crate::theme::{Color, Palette};

verus! {

/// The marks of a stack or a service are told apart.
proof fn marks_differ()
    ensures
        "●"@ != "◐"@,
        "●"@ != "○"@,
        "●"@ != "✗"@,
        "●"@ != "◇"@,
        "◐"@ != "○"@,
        "◐"@ != "✗"@,
        "◐"@ != "◇"@,
        "○"@ != "✗"@,
        "○"@ != "◇"@,
        "✗"@ != "◇"@,
{
    reveal_strlit("●");
    reveal_strlit("◐");
    reveal_strlit("○");
    reveal_strlit("✗");
    reveal_strlit("◇");
    assert("●"@[0] == '●');
    assert("◐"@[0] == '◐');
    assert("○"@[0] == '○');
    assert("✗"@[0] == '✗');
    assert("◇"@[0] == '◇');
}

/// The dot at the head of a row, with its colour.
pub open spec fn row_dot(row: DrawView) -> SpanView {
    row->Text_lines[0][1]
}

/// Law: a stack's dot is full, and green, exactly when it has services of its
/// own and each of them answers; a cross, and red, exactly when one gave up;
/// half full, and yellow, exactly when some answer and some do not but none
/// gave up; and otherwise empty.
pub proof fn a_full_dot_means_all_is_up(p: Palette, v: TuiView, area: Rect, k: int)
    requires
        0 <= k < stacks_shown(v, area),
        0 <= stacks_scroll(v, area),
        stacks_scroll(v, area) + k < v.stacks.instances.len(),
    ensures
        ({
            let i = stacks_scroll(v, area) + k;
            let all = v.stacks.instances[i].services;
            let some = exists|n: int| #[trigger] own_service(v.stacks, i, n);
            let crashed = exists|n: int| #[trigger]
                own_service(v.stacks, i, n) && gave_up(all[n].state);
            let all_up = forall|n: int| #[trigger]
                own_service(v.stacks, i, n) ==> answers(all[n].state);
            let none_up = forall|n: int| #[trigger]
                own_service(v.stacks, i, n) ==> !answers(all[n].state);
            let dot = row_dot(stack_draws(p, v, area, k)[0]);
            &&& dot.text == "●"@ <==> some && all_up
            &&& dot.text == "✗"@ <==> crashed
            &&& dot.text == "◐"@ <==> !crashed && !all_up && !none_up
            &&& dot.text == "○"@ <==> !some || (!crashed && none_up)
            &&& dot.text == "●"@ ==> dot.style.fg == Some(Ink::Theme(p.green))
            &&& dot.text == "✗"@ ==> dot.style.fg == Some(Ink::Theme(p.red))
            &&& dot.text == "◐"@ ==> dot.style.fg == Some(Ink::Theme(p.yellow))
            &&& dot.text == "○"@ ==> dot.style.fg == Some(
                Ink::Theme(
                    if some {
                        p.overlay0
                    } else {
                        p.surface1
                    },
                ),
            )
        }),
{
    marks_differ();
    let i = stacks_scroll(v, area) + k;
    a_stack_is_as_well_as_its_own_services(v.stacks, i);
    let all = v.stacks.instances[i].services;
    assert forall|n: int| #[trigger] own_service(v.stacks, i, n) && gave_up(
        all[n].state,
    ) implies !answers(all[n].state) by {}
}

/// Law: the dot of the shared row goes by all shared services in the same way,
/// and its row names each of them and counts those that answer.
pub proof fn the_shared_row_sums_up(p: Palette, v: TuiView, area: Rect)
    requires
        v.stacks.shared.services.len() > 0,
    ensures
        ({
            let all = v.stacks.shared.services;
            let draws = shared_draws(p, v, area);
            let dot = row_dot(draws[2]);
            let up = all.filter(|s: ServiceView| answers(s.state)).len();
            &&& draws.len() == 4
            &&& dot.text == "●"@ <==> forall|n: int|
                0 <= n < all.len() ==> answers((#[trigger] all[n]).state)
            &&& dot.text == "✗"@ <==> exists|n: int|
                0 <= n < all.len() && gave_up((#[trigger] all[n]).state)
            &&& dot.text == "●"@ ==> dot.style.fg == Some(Ink::Theme(p.green))
            &&& dot.text == "✗"@ ==> dot.style.fg == Some(Ink::Theme(p.red))
            &&& draws[3]->Text_lines[0][0].text == "   "@ + decimal(up) + "/"@ + decimal(all.len())
                + " up"@
        }),
{
    marks_differ();
    let all = v.stacks.shared.services;
    health_sums_up(all);
    assert forall|n: int| 0 <= n < all.len() && gave_up((#[trigger] all[n]).state) implies !answers(
        all[n].state,
    ) by {}
    assert(all[0].state == all[0].state);
    counted_is_filtered(all, is_up(), |s: ServiceView| answers(s.state));
}

/// A count is the length of what passes.
proof fn counted_is_filtered(
    s: Seq<ServiceView>,
    p: spec_fn(ServiceView) -> bool,
    q: spec_fn(ServiceView) -> bool,
)
    requires
        forall|x: ServiceView| p(x) == #[trigger] q(x),
    ensures
        count(s, p) == s.filter(q).len(),
    decreases s.len(),
{
    reveal(Seq::filter);
    if s.len() > 0 {
        counted_is_filtered(s.drop_last(), p, q);
        assert(p(s.last()) == q(s.last()));
    }
}

/// Law: the title counts every service and those that run, well or degraded,
/// green exactly where all do; it names how many gave up only where some did,
/// and counts nothing without services.
pub proof fn the_title_counts_the_services(
    p: Palette,
    services: Seq<ServiceView>,
    version: Seq<char>,
    host: Option<Seq<char>>,
)
    ensures
        ({
            let line = title_line(p, services, version, host);
            let runs = services.filter(|s: ServiceView| s.state is Running).len();
            let failed = services.filter(|s: ServiceView| gave_up(s.state)).len();
            &&& line[0].text == " devme v"@ + version + " "@
            &&& services.len() > 0 ==> line[1].text == "• "@ + decimal(runs) + "/"@ + decimal(
                services.len(),
            ) + " running"@ && line[1].style == inked(
                if runs == services.len() {
                    p.green
                } else if runs == 0 {
                    p.overlay0
                } else {
                    p.yellow
                },
            )
            &&& services.len() > 0 && failed > 0 ==> line[3].text == "• "@ + decimal(failed)
                + " failed"@ && line[3].style == inked(p.red)
            &&& line.len() == 2 + (if services.len() > 0 {
                1int
            } else {
                0
            }) + (if failed > 0 {
                2int
            } else {
                0
            }) + (if host is Some {
                2int
            } else {
                0
            })
            &&& host matches Some(h) ==> line[line.len() - 2].text == "⇅ "@ + host_label(h)
        }),
{
    counted_is_filtered(services, is_running(), |s: ServiceView| s.state is Running);
    counted_is_filtered(services, is_broken(), |s: ServiceView| gave_up(s.state));
}

/// Law: a service's dot. It is full exactly for one that runs well, half for one
/// that runs degraded, a diamond for a healthy external one, a cross for one
/// that gave up or an unhealthy external one, the spinner for one that starts
/// or restarts, and empty for one that is stopped or waits.
pub proof fn dots_of_services(s: StateView, spinner: char)
    requires
        seq![spinner] != "●"@,
        seq![spinner] != "◐"@,
        seq![spinner] != "○"@,
        seq![spinner] != "✗"@,
        seq![spinner] != "◇"@,
    ensures
        ({
            let dot = dot_of(s, spinner);
            &&& dot == "●"@ <==> (s matches StateView::Running { degraded, .. } && !degraded)
            &&& dot == "◐"@ <==> (s matches StateView::Running { degraded, .. } && degraded)
            &&& dot == "◇"@ <==> s == StateView::External { healthy: true }
            &&& dot == "✗"@ <==> gave_up(s) || s == StateView::External { healthy: false }
            &&& dot == seq![spinner] <==> s is Starting || s is Restarting
            &&& dot == "○"@ <==> s is Stopped || s is WaitingOnDependency
        }),
{
    marks_differ();
}

/// Law: a service's colour goes with its dot: green where it is full, yellow
/// where it is half or spins, teal at the diamond, red at the cross, and dim
/// where it is empty.
pub proof fn colours_go_with_dots(p: Palette, s: StateView, spinner: char)
    requires
        seq![spinner] != "●"@,
        seq![spinner] != "◐"@,
        seq![spinner] != "○"@,
        seq![spinner] != "✗"@,
        seq![spinner] != "◇"@,
    ensures
        ({
            let dot = dot_of(s, spinner);
            color_of(p, s) == if dot == "●"@ {
                p.green
            } else if dot == "◇"@ {
                p.teal
            } else if dot == "✗"@ {
                p.red
            } else if dot == "○"@ {
                p.overlay0
            } else {
                p.yellow
            }
        }),
{
    marks_differ();
}

/// Law: every state has words of its own, which say what it is.
pub proof fn words_for_states(s: StateView)
    ensures
        s is Stopped ==> label_of(s) == "stopped"@,
        s is Starting ==> label_of(s) == "starting"@,
        s is Restarting ==> label_of(s) == "restarting"@,
        s is WaitingOnDependency ==> label_of(s) == "waiting on deps"@,
        s is CrashLoop ==> label_of(s) == "crash loop"@,
        s is Failed ==> label_of(s) == "failed"@,
        s matches StateView::Running { degraded, .. } ==> label_of(s) == if degraded {
            "running (degraded)"@
        } else {
            "running"@
        },
        s matches StateView::External { healthy } ==> label_of(s) == if healthy {
            "external (healthy)"@
        } else {
            "external (unhealthy)"@
        },
{
}

/// Law: a dependency check that passed, or was skipped for this run, is ticked in
/// green; one that failed, or whose repair did, is crossed out in red; one that
/// was overridden warns in yellow; and one not yet known is a dim point.
pub proof fn marks_of_checks(p: Palette, s: StepState)
    ensures
        step_mark(s) == "✓"@ <==> s == StepState::Passed || s == StepState::SkippedThisRun,
        step_mark(s) == "✗"@ <==> s == StepState::Failed || s == StepState::ProvisionFailed,
        step_mark(s) == "!"@ <==> s == StepState::Overridden,
        step_mark(s) == "·"@ <==> s == StepState::Unknown,
        step_color(&p, s) == if step_mark(s) == "✓"@ {
            p.green
        } else if step_mark(s) == "✗"@ {
            p.red
        } else if step_mark(s) == "!"@ {
            p.yellow
        } else {
            p.overlay0
        },
{
    reveal_strlit("✓");
    reveal_strlit("✗");
    reveal_strlit("!");
    reveal_strlit("·");
    assert("✓"@[0] == '✓');
    assert("✗"@[0] == '✗');
    assert("!"@[0] == '!');
    assert("·"@[0] == '·');
}

/// Law: the dot of a toast is red for a failure, green for a service that is
/// ready, and in the accent colour for everything else.
pub proof fn dots_of_toasts(p: Palette)
    ensures
        toast_color(&p, ToastKind::Failed) == p.red,
        toast_color(&p, ToastKind::Ready) == p.green,
        toast_color(&p, ToastKind::Info) == p.accent,
{
}

/// Law: a stack's counts read as so many up of so many, in green exactly when
/// none is missing and dim when none is up.
pub proof fn counts_are_spelled_out(p: Palette, up: usize, total: usize, placeholder: bool)
    ensures
        ({
            let s = summary_span(p, StackSummary::Counted { up, total }, placeholder);
            &&& s.text == decimal(up as nat) + "/"@ + decimal(total as nat) + " up"@
            &&& up == total ==> s.style == inked(p.green)
            &&& 0 < up < total ==> s.style == inked(p.yellow)
            &&& 0 == up < total ==> s.style == inked(p.overlay0)
            &&& summary_span(p, StackSummary::SharedOnly, placeholder).text == "shared only"@
            &&& summary_span(p, StackSummary::NoDaemon, true).text == "no devme.toml"@
            &&& summary_span(p, StackSummary::NoDaemon, false).text == "no daemon"@
        }),
{
}

/// Law: how far a branch is ahead and behind is shown where it is known and not
/// zero, ahead first.
pub proof fn distances_are_spelled_out(p: Palette, ahead: usize, behind: usize)
    ensures
        ({
            let spans = distance_spans(p, Some((ahead, behind)));
            &&& spans.len() == (if ahead > 0 {
                1int
            } else {
                0
            }) + (if behind > 0 {
                1int
            } else {
                0
            })
            &&& ahead > 0 ==> spans[0].text == " ↑"@ + decimal(ahead as nat)
            &&& behind > 0 ==> spans.last().text == " ↓"@ + decimal(behind as nat)
            &&& distance_spans(p, None).len() == 0
        }),
{
}

/// Law: the line below the logs names the service and gives its state in words
/// and colour; its process, its port and its restarts stand there exactly where
/// there are any.
pub proof fn the_line_below_the_logs(p: Palette, s: ServiceView)
    ensures
        ({
            let line = meta_line(p, s);
            let bare = ServiceView { pid: None, port: None, restart_count: 0, ..s };
            let a: int = if s.pid is Some {
                2
            } else {
                0
            };
            let b: int = if s.port is Some {
                2
            } else {
                0
            };
            &&& line.take(3) == meta_line(p, bare)
            &&& line[0].text == " "@ + s.name
            &&& line[2].text == label_of(s.state)
            &&& line[2].style == bold(color_of(p, s.state))
            &&& s.pid matches Some(n) ==> line[3].text == "  · pid "@ && line[4].text == decimal(
                n as nat,
            )
            &&& s.port matches Some(n) ==> line[3 + a].text == "  · port "@ && line[4 + a].text
                == decimal(n as nat)
            &&& s.restart_count > 0 ==> line[3 + a + b].text == "  · restarts "@ && line[4 + a
                + b].text == decimal(s.restart_count as nat)
            &&& line.len() == 3 + a + b + if s.restart_count > 0 {
                2int
            } else {
                0
            }
        }),
{
    let bare = ServiceView { pid: None, port: None, restart_count: 0, ..s };
    assert(meta_line(p, s).take(3) =~= meta_line(p, bare));
}

/// Law: a tab shows its service's dot and name; the selected one stands out in
/// bold on a background of its own, and no other has one. A tab without a
/// service warns, in italics.
pub proof fn looks_of_tabs(p: Palette, t: TabView, spinner: char, selected: bool)
    ensures
        ({
            let spans = tab_spans(p, t, spinner, selected);
            &&& spans.len() == 5
            &&& spans[3].text == t.label
            &&& forall|i: int|
                0 <= i < 5 ==> ((#[trigger] spans[i]).style.bg == if selected {
                    Some(Ink::Theme(p.surface0))
                } else {
                    None
                })
            &&& spans[3].style.bold == selected && spans[1].style.bold == selected
            &&& spans[3].style.italic <==> t.snapshot is None
            &&& t.snapshot matches Some(s) ==> spans[1].text == dot_of(s.state, spinner)
                && spans[1].style.fg == Some(Ink::Theme(color_of(p, s.state)))
            &&& t.snapshot is None ==> spans[1].text == "⚠"@ && spans[1].style.fg == Some(
                Ink::Theme(p.yellow),
            )
        }),
{
}

/// Law: a style colours the text, its ground or both, and is bold or slanted exactly
/// where it says so.
pub proof fn styles_do_what_they_say(c: Color, ground: Color, ink: Ink)
    ensures
        plain().fg is None && plain().bg is None && !plain().bold && !plain().italic,
        inked(c).fg == Some(Ink::Theme(c)) && inked(c).bg is None && !inked(c).bold
            && !inked(c).italic,
        bold(c).fg == Some(Ink::Theme(c)) && bold(c).bg is None && bold(c).bold && !bold(c).italic,
        italic(c).fg == Some(Ink::Theme(c)) && italic(c).bg is None && !italic(c).bold
            && italic(c).italic,
        filled(c).fg is None && filled(c).bg == Some(Ink::Theme(c)),
        chip(c, ground).fg == Some(Ink::Theme(c)) && chip(c, ground).bg == Some(Ink::Theme(ground)),
        coloured(ink).fg == Some(ink) && coloured(ink).bg is None && !coloured(ink).bold,
        strong(ink).fg == Some(ink) && strong(ink).bg is None && strong(ink).bold,
        slanted(ink).fg == Some(ink) && slanted(ink).italic && !slanted(ink).bold,
        badge(ink).bg == Some(ink) && badge(ink).fg == Some(Ink::Black) && badge(ink).bold,
{
}

} // verus!
