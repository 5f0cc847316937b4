//! Coming and going: what a daemon is told first, which worktrees may be
//! removed, and how text reaches the clipboard.
use vstd::prelude::*;

use crate::event_loop::clipboard::{prefer_osc52, tools, wsl};
use crate::event_loop::startup::{
    fetches_prs, first_message, newcomers, some_running, task_output, vetoed, RemovalVeto,
};
use crate::protocol::{ClientView, ServiceView};
use crate::state::{ModalsView, TuiView};
use crate::text::{contains, lowered, occurs_at, same_path};

verus! {

/// Law: a daemon at home is told to start what was asked for, where something was;
/// every other one, and one at home without a wish, is told to start everything.
pub proof fn first_messages_start_things(is_home: bool, targets: Option<Seq<Seq<char>>>)
    ensures
        is_home && targets is Some ==> first_message(is_home, targets) == (
        ClientView::StartTargets { services: targets->0 }),
        !is_home || targets is None ==> first_message(is_home, targets) == (ClientView::Start {
            service: Seq::empty(),
            skip_deps: false,
        }),
{
}

/// Law: a daemon is told once. Those to tell are those attached that were not told
/// before, each once and in the order in which they are attached.
pub proof fn newcomers_are_told_once(known: Seq<Seq<char>>, ids: Seq<Seq<char>>, id: Seq<char>)
    ensures
        newcomers(known, Seq::empty()) == Seq::<Seq<char>>::empty(),
        newcomers(known, ids.push(id)) == if known.contains(id) || ids.contains(id) {
            newcomers(known, ids)
        } else {
            newcomers(known, ids).push(id)
        },
        newcomers(known, ids).contains(id) <==> ids.contains(id) && !known.contains(id),
{
    who_is_new(known, ids);
    assert(ids.push(id).drop_last() =~= ids);
    let before = newcomers(known, ids);
    let all = known + before;
    if known.contains(id) {
        let i = choose|i: int| 0 <= i < known.len() && known[i] == id;
        assert(all[i] == id);
    }
    if before.contains(id) {
        let i = choose|i: int| 0 <= i < before.len() && before[i] == id;
        assert(all[known.len() + i] == id);
    }
    if all.contains(id) {
        let i = choose|i: int| 0 <= i < all.len() && all[i] == id;
        if i < known.len() {
            assert(known[i] == id);
        } else {
            assert(before[i - known.len()] == id);
        }
    }
}

proof fn who_is_new(known: Seq<Seq<char>>, ids: Seq<Seq<char>>)
    ensures
        forall|x: Seq<char>| #[trigger]
            newcomers(known, ids).contains(x) <==> ids.contains(x) && !known.contains(x),
    decreases ids.len(),
{
    if ids.len() > 0 {
        let rest = ids.drop_last();
        who_is_new(known, rest);
        let before = newcomers(known, rest);
        let after = newcomers(known, ids);
        let all = known + before;
        assert(rest.push(ids.last()) =~= ids);
        assert forall|x: Seq<char>| #[trigger] after.contains(x) <==> ids.contains(x)
            && !known.contains(x) by {
            assert(before.contains(x) <==> rest.contains(x) && !known.contains(x));
            if known.contains(x) {
                let i = choose|i: int| 0 <= i < known.len() && known[i] == x;
                assert(all[i] == x);
            }
            if before.contains(x) {
                let i = choose|i: int| 0 <= i < before.len() && before[i] == x;
                assert(all[known.len() + i] == x);
                assert(after[i] == x);
            }
            if all.contains(x) {
                let i = choose|i: int| 0 <= i < all.len() && all[i] == x;
                if i < known.len() {
                    assert(known[i] == x);
                } else {
                    assert(before[i - known.len()] == x);
                }
            }
            if rest.contains(x) {
                let i = choose|i: int| 0 <= i < rest.len() && rest[i] == x;
                assert(ids[i] == x);
            }
            if ids.contains(x) {
                let i = choose|i: int| 0 <= i < ids.len() && ids[i] == x;
                if i < rest.len() {
                    assert(rest[i] == x);
                } else {
                    assert(x == ids.last());
                    if !all.contains(x) {
                        assert(after[after.len() - 1] == x);
                    }
                }
            }
            if after.contains(x) {
                let i = choose|i: int| 0 <= i < after.len() && after[i] == x;
                if i < before.len() {
                    assert(before[i] == x);
                } else {
                    assert(ids[ids.len() - 1] == x);
                }
            }
        }
    }
}

/// Law: a worktree may be removed unless it is the shared row, which is none; its
/// directory is not known; it is the main one; or the dashboard runs in it. Each
/// of these is the reason only where no earlier one is.
pub proof fn some_worktrees_stay(
    v: TuiView,
    is_main: bool,
    own: Option<Seq<char>>,
    target: Option<Seq<char>>,
)
    ensures
        ({
            let shared = v.stacks.shared_selected;
            let unknown = v.stacks.current_cwd().len() == 0;
            let here = own is Some && target is Some && same_path(own->0, target->0);
            let veto = vetoed(v, is_main, own, target);
            &&& veto == Some(RemovalVeto::Shared) <==> shared
            &&& veto == Some(RemovalVeto::Unknown) <==> !shared && unknown
            &&& veto == Some(RemovalVeto::Main) <==> !shared && !unknown && is_main
            &&& veto == Some(RemovalVeto::Own) <==> !shared && !unknown && !is_main && here
            &&& veto is None <==> !shared && !unknown && !is_main && !here
        }),
{
}

/// Law: the reason is told, but for a directory that is not known.
pub proof fn vetoes_are_explained()
    ensures
        RemovalVeto::Shared.reason() == Some("shared services aren't a worktree"@),
        RemovalVeto::Unknown.reason() is None,
        RemovalVeto::Main.reason() == Some("main worktree — can't be removed"@),
        RemovalVeto::Own.reason() == Some("this is the worktree the TUI runs in"@),
{
}

/// Law: of a task's output the newest thousand lines stay.
pub proof fn a_thousand_task_lines_stay(lines: Seq<Seq<char>>, line: Seq<char>)
    requires
        lines.len() <= 1000,
    ensures
        ({
            let all = lines.push(line);
            task_output(lines, line) == if all.len() <= 1000 {
                all
            } else {
                all.subrange(all.len() - 1000, all.len() as int)
            }
        }),
{
    let all = lines.push(line);
    if all.len() > 1000 {
        assert(all.skip(1) =~= all.subrange(all.len() - 1000, all.len() as int));
    }
}

/// Law: something runs exactly when one of the services runs, well or degraded.
pub proof fn something_runs(services: Seq<ServiceView>)
    ensures
        some_running(services) <==> exists|i: int|
            0 <= i < services.len() && (#[trigger] services[i]).state is Running,
{
}

/// Law: the dashboard is under the Windows subsystem exactly when its environment
/// says so, or when the kernel's name holds one of its two marks, in any case.
pub proof fn the_subsystem_is_recognised(
    distro: bool,
    interop: bool,
    before: Seq<char>,
    mark: Seq<char>,
    after: Seq<char>,
)
    ensures
        distro || interop ==> wsl(distro, interop, None),
        !wsl(false, false, None),
        lowered(mark) == "microsoft"@ || lowered(mark) == "wsl"@ ==> wsl(
            distro,
            interop,
            Some(before + mark + after),
        ),
        !contains(lowered(before), "microsoft"@) && !contains(lowered(before), "wsl"@) ==> !wsl(
            false,
            false,
            Some(before),
        ),
{
    let name = before + mark + after;
    let low = lowered(name);
    let n = before.len() as int;
    assert(low.subrange(n, n + lowered(mark).len()) =~= lowered(mark));
    assert(occurs_at(low, lowered(mark), n));
}

/// Law: text is handed to the clipboard's own tool on a Mac, and elsewhere to the
/// first of three that is there: for Wayland, and then two for X.
pub proof fn clipboard_tools_in_order()
    ensures
        tools(true).len() == 1 && tools(true)[0].program == "pbcopy"@ && tools(true)[0].args.len()
            == 0,
        tools(false).len() == 3,
        tools(false)[0].program == "wl-copy"@ && tools(false)[0].args.len() == 0,
        tools(false)[1].program == "xclip"@ && tools(false)[1].args == seq![
            "-selection"@,
            "clipboard"@,
        ],
        tools(false)[2].program == "xsel"@ && tools(false)[2].args == seq![
            "--clipboard"@,
            "--input"@,
        ],
{
}

/// Law: pull requests are looked up at the first refresh and at every twelfth after
/// it, and at no other.
pub proof fn pull_requests_come_every_twelfth(round: u64, tick: u64)
    requires
        tick < 12,
        round * 12 + tick <= u64::MAX,
    ensures
        fetches_prs((round * 12 + tick) as u64) <==> tick == 0,
{
    assert((round * 12 + tick) % 12 == tick) by (nonlinear_arith)
        requires
            tick < 12,
    ;
}

/// Law: text goes through the terminal in any remote session and under the Windows
/// subsystem, where the machine's own clipboard is not the user's, and nowhere else.
pub proof fn remote_text_goes_through_the_terminal(connection: bool, tty: bool, subsystem: bool)
    ensures
        connection || tty || subsystem ==> prefer_osc52(connection, tty, subsystem),
        !connection && !tty && !subsystem ==> !prefer_osc52(connection, tty, subsystem),
{
}

/// Law: a port that is to be looked into is handed out once: it is taken off the queue,
/// and nothing else changes.
pub proof fn queued_ports_are_handed_out_once(v: TuiView)
    ensures
        v.unqueued() == (TuiView {
            modals: ModalsView { pending_port_conflict: None, ..v.modals },
            ..v
        }),
        v.unqueued().unqueued() == v.unqueued(),
{
}

} // verus!
