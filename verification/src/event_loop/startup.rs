//! What happens once: which rail a warm start shows, which daemons are told to
//! start, and what a daemon's message sets off beside the state that it
//! updates.
use std::time::Instant;

use vstd::prelude::*;

use crate::lists::views;
use crate::protocol::{ClientMessage, ClientView, ServerMessage, ServiceState, ServiceView};
use crate::state::{
    pending_view, ModalsView, SessionView, StacksView, ToastKind, TuiState, TuiView,
};
use crate::text::{copy_texts, is_same_path, opt_str, opt_text, same, same_path, texts};

verus! {

/// Whether the first subscription still decides what the rail shows.
#[derive(Debug, Clone, Copy, PartialEq, Eq, Structural)]
pub struct StartupRailChoice {
    pub pending: bool,
}

impl StartupRailChoice {
    pub fn new(actions_visible: bool) -> (r: Self)
        ensures
            r.pending == actions_visible,
    {
        StartupRailChoice { pending: actions_visible }
    }

    /// The user chose, so the first subscription no longer does.
    pub fn user_chose_rail(&mut self)
        ensures
            !final(self).pending,
    {
        self.pending = false;
    }

    /// Whether this subscription decides: only the home stack's does, and only
    /// the first.
    pub fn take_for_subscription(&mut self, is_home_subscription: bool) -> (r: bool)
        ensures
            r == (is_home_subscription && old(self).pending),
            final(self).pending == (old(self).pending && !is_home_subscription),
    {
        if !is_home_subscription || !self.pending {
            return false;
        }
        self.pending = false;
        true
    }
}

/// What a daemon is told when it attaches: the home stack starts its targets
/// where some were named, and every other stack all of its services.
pub open spec fn first_message(is_home: bool, targets: Option<Seq<Seq<char>>>) -> ClientView {
    if is_home && targets is Some {
        ClientView::StartTargets { services: targets->0 }
    } else {
        ClientView::Start { service: Seq::empty(), skip_deps: false }
    }
}

pub open spec fn opt_texts(v: Option<&Vec<String>>) -> Option<Seq<Seq<char>>> {
    match v {
        Some(v) => Some(texts(v@)),
        None => None,
    }
}

/// The message with which a daemon's services are started.
pub fn initial_start_message(is_home: bool, home_targets: Option<&Vec<String>>) -> (r:
    ClientMessage)
    ensures
        r@ == first_message(is_home, opt_texts(home_targets)),
{
    if is_home {
        match home_targets {
            Some(services) => {
                return ClientMessage::StartTargets { services: copy_texts(services) };
            },
            None => {},
        }
    }
    let service = String::new();
    assert(service@ =~= Seq::empty());
    ClientMessage::Start { service, skip_deps: false }
}

/// The ids that have been told to start.
pub struct Started {
    ids: Vec<String>,
}

impl View for Started {
    type V = Seq<Seq<char>>;

    closed spec fn view(&self) -> Seq<Seq<char>> {
        texts(self.ids@)
    }
}

/// Those of `ids` that are not among `known`, each once, in order.
pub open spec fn newcomers(known: Seq<Seq<char>>, ids: Seq<Seq<char>>) -> Seq<Seq<char>>
    decreases ids.len(),
{
    if ids.len() == 0 {
        Seq::empty()
    } else {
        let before = newcomers(known, ids.drop_last());
        if (known + before).contains(ids.last()) {
            before
        } else {
            before.push(ids.last())
        }
    }
}

impl Started {
    pub fn new() -> (r: Self)
        ensures
            r@ == Seq::<Seq<char>>::empty(),
    {
        let r = Started { ids: Vec::new() };
        assert(r@ =~= Seq::empty());
        r
    }

    /// Forgets who was told, so that the next daemons are told again.
    pub fn clear(&mut self)
        ensures
            final(self)@ == Seq::<Seq<char>>::empty(),
    {
        self.ids = Vec::new();
        assert(self@ =~= Seq::empty());
    }

    fn knows(&self, id: &str) -> (r: bool)
        ensures
            r == self@.contains(id@),
    {
        let mut i: usize = 0;
        while i < self.ids.len()
            invariant
                i <= self.ids.len(),
                forall|j: int| 0 <= j < i ==> self@[j] != id@,
            decreases self.ids.len() - i,
        {
            if same(self.ids[i].as_str(), id) {
                assert(self@[i as int] == id@);
                return true;
            }
            i = i + 1;
        }
        false
    }

    /// The attached daemons that have not been told to start yet, which from
    /// now on count as told.
    pub fn due(&mut self, attached: &Vec<String>) -> (r: Vec<String>)
        ensures
            texts(r@) == newcomers(old(self)@, texts(attached@)),
            final(self)@ == old(self)@ + newcomers(old(self)@, texts(attached@)),
    {
        let ghost known = self@;
        let ghost all = texts(attached@);
        let mut r: Vec<String> = Vec::new();
        let mut i: usize = 0;
        assert(texts(r@) =~= newcomers(known, all.take(0)));
        assert(self@ =~= known + newcomers(known, all.take(0)));
        while i < attached.len()
            invariant
                i <= attached.len(),
                all == texts(attached@),
                texts(r@) == newcomers(known, all.take(i as int)),
                self@ == known + newcomers(known, all.take(i as int)),
            decreases attached.len() - i,
        {
            let ghost before = texts(r@);
            let ghost told = self@;
            assert(all.take(i + 1).drop_last() =~= all.take(i as int));
            assert(all.take(i + 1).last() == attached@[i as int]@);
            if !self.knows(attached[i].as_str()) {
                self.ids.push(attached[i].clone());
                r.push(attached[i].clone());
                assert(texts(r@) =~= before.push(all[i as int]));
                assert(self@ =~= told.push(all[i as int]));
                assert(self@ =~= known + before.push(all[i as int]));
            }
            i = i + 1;
        }
        assert(all.take(i as int) =~= all);
        r
    }
}

/// Law: an attached daemon is told to start once, until the memory of it is
/// cleared.
pub proof fn told_once(known: Seq<Seq<char>>, ids: Seq<Seq<char>>)
    ensures
        newcomers(known + newcomers(known, ids), ids) == Seq::<Seq<char>>::empty(),
{
    told_covers(known, ids);
    nobody_new(known + newcomers(known, ids), ids);
}

proof fn told_covers(known: Seq<Seq<char>>, ids: Seq<Seq<char>>)
    ensures
        forall|i: int|
            0 <= i < ids.len() ==> (known + newcomers(known, ids)).contains(#[trigger] ids[i]),
    decreases ids.len(),
{
    if ids.len() > 0 {
        let rest = ids.drop_last();
        told_covers(known, rest);
        let before = known + newcomers(known, rest);
        let after = known + newcomers(known, ids);
        assert forall|i: int| 0 <= i < ids.len() implies after.contains(#[trigger] ids[i]) by {
            if i < rest.len() {
                assert(rest[i] == ids[i]);
                let j = choose|j: int| 0 <= j < before.len() && before[j] == ids[i];
                assert(after[j] == ids[i]);
            } else if !before.contains(ids.last()) {
                assert(after.last() == ids.last());
            }
        }
    }
}

proof fn nobody_new(known: Seq<Seq<char>>, ids: Seq<Seq<char>>)
    requires
        forall|i: int| 0 <= i < ids.len() ==> known.contains(#[trigger] ids[i]),
    ensures
        newcomers(known, ids) == Seq::<Seq<char>>::empty(),
    decreases ids.len(),
{
    if ids.len() > 0 {
        let rest = ids.drop_last();
        assert forall|i: int| 0 <= i < rest.len() implies known.contains(#[trigger] rest[i]) by {
            assert(rest[i] == ids[i]);
        }
        nobody_new(known, rest);
        assert(known.contains(ids[ids.len() - 1]));
        assert(known + Seq::<Seq<char>>::empty() =~= known);
    }
}

/// Selects the home stack once it is there. Returns whether it has been
/// selected.
pub fn select_home(state: &mut TuiState, home_id: &str, already: bool) -> (r: bool)
    requires
        old(state).wf(),
    ensures
        final(state).wf(),
        r == (already || old(state)@.stacks.find(home_id@) is Some),
        final(state)@ == if !already && old(state)@.stacks.find(home_id@) is Some {
            old(state)@.with_stacks(
                (StacksView {
                    selected_instance: Some(old(state)@.stacks.find(home_id@)->0 as usize),
                    ..old(state)@.stacks
                }),
            )
        } else {
            old(state)@
        },
{
    if already {
        return true;
    }
    if state.has_instance(home_id) {
        state.select_instance_by_id(home_id);
        return true;
    }
    false
}

/// Every twelfth refresh also asks for pull requests, the first included.
pub const PR_EVERY_TICKS: u64 = 12;

/// Whether a git refresh also looks up pull requests.
#[verifier::allow_in_spec]
pub fn fetches_prs(tick: u64) -> (r: bool)
    ensures
        r == (tick as int % 12 == 0),
    returns
        tick % 12 == 0,
{
    tick % PR_EVERY_TICKS == 0
}

impl TuiView {
    pub open spec fn with_stacks(self, stacks: StacksView) -> TuiView {
        TuiView { stacks, ..self }
    }

    /// After a message was absorbed: with every daemon gone the stopped screen
    /// shows, and goes away again when one attaches.
    pub open spec fn settled(self, repo: Option<Seq<char>>) -> TuiView {
        if self.stacks.all_shut_down() {
            if self.session.stopped {
                self
            } else {
                self.entered_stopped(repo)
            }
        } else if self.session.stopped {
            TuiView {
                session: SessionView { stopped: false, stopped_repo: None, ..self.session },
                ..self
            }
        } else {
            self
        }
    }

    /// No port-conflict probe is queued any more.
    pub open spec fn unqueued(self) -> TuiView {
        TuiView { modals: ModalsView { pending_port_conflict: None, ..self.modals }, ..self }
    }
}

/// Some service is running.
pub open spec fn some_running(services: Seq<ServiceView>) -> bool {
    exists|i: int| 0 <= i < services.len() && (#[trigger] services[i]).state is Running
}

fn any_running(state: &TuiState) -> (r: bool)
    ensures
        r == some_running(state@.stacks.services()),
{
    let services = state.services();
    let mut i: usize = 0;
    while i < services.len()
        invariant
            i <= services.len(),
            views(services@) == state@.stacks.services(),
            forall|j: int| 0 <= j < i ==> !((#[trigger] views(services@)[j]).state is Running),
        decreases services.len() - i,
    {
        assert(views(services@)[i as int] == services@[i as int]@);
        if matches!(services[i].state, ServiceState::Running { .. }) {
            return true;
        }
        i = i + 1;
    }
    false
}

/// What a daemon's message sets off beside the state.
pub struct Absorbed {
    /// The action panel gives way to the logs of a warm start.
    pub close_actions: bool,
    /// Identify who holds this port, and raise the port-conflict modal.
    pub probe: Option<(String, String, u16)>,
}

/// Absorbs a daemon's message. `repo` labels the stopped screen, in case the
/// message was the last daemon's goodbye.
pub fn absorb_at(
    state: &mut TuiState,
    rail: &mut StartupRailChoice,
    started: &mut Started,
    home_id: &str,
    source: &str,
    message: ServerMessage,
    repo: Option<String>,
    now: Instant,
) -> (r: Absorbed)
    requires
        old(state).wf(),
    ensures
        final(state).wf(),
        ({
            let home = source@ == home_id@ && message@ is Subscribed;
            let applied = old(state)@.applied(source@, message@, now);
            let settled = applied.settled(opt_text(repo));
            let drained = applied.stacks.all_shut_down() && !applied.session.stopped;
            &&& final(state)@ == settled.unqueued()
            &&& final(rail).pending == (old(rail).pending && !home)
            &&& r.close_actions == (home && old(rail).pending && some_running(
                applied.stacks.services(),
            ))
            &&& pending_view(r.probe) == settled.modals.pending_port_conflict
            &&& final(started)@ == if drained {
                Seq::empty()
            } else {
                old(started)@
            }
        }),
{
    let home = same(source, home_id) && matches!(message, ServerMessage::Subscribed { .. });
    let taken = rail.take_for_subscription(home);
    state.apply_from_at(source, message, now);
    let close_actions = taken && any_running(state);
    if state.all_daemons_shut_down() {
        if !state.stopped() {
            state.enter_stopped(repo);
            started.clear();
        }
    } else if state.stopped() {
        state.clear_stopped();
    }
    let probe = state.take_pending_port_conflict();
    Absorbed { close_actions, probe }
}

/// Why a worktree's removal is not even offered.
#[derive(Debug, Clone, Copy, PartialEq, Eq, Structural)]
pub enum RemovalVeto {
    /// The shared row is no worktree.
    Shared,
    /// Nothing is known of where the stack lives.
    Unknown,
    /// The main worktree cannot be removed.
    Main,
    /// The dashboard runs in it.
    Own,
}

impl RemovalVeto {
    /// The toast that says so.
    pub open spec fn reason(self) -> Option<Seq<char>> {
        match self {
            RemovalVeto::Shared => Some("shared services aren't a worktree"@),
            RemovalVeto::Unknown => None,
            RemovalVeto::Main => Some("main worktree — can't be removed"@),
            RemovalVeto::Own => Some("this is the worktree the TUI runs in"@),
        }
    }
}

/// The first reason that stands against removing the selected worktree.
/// `own` and `target` are the canonical paths of the dashboard's directory and
/// of the worktree, where they could be had.
pub open spec fn vetoed(
    v: TuiView,
    is_main: bool,
    own: Option<Seq<char>>,
    target: Option<Seq<char>>,
) -> Option<RemovalVeto> {
    if v.stacks.shared_selected {
        Some(RemovalVeto::Shared)
    } else if v.stacks.current_cwd().len() == 0 {
        Some(RemovalVeto::Unknown)
    } else if is_main {
        Some(RemovalVeto::Main)
    } else if own matches Some(a) && target matches Some(b) && same_path(a, b) {
        Some(RemovalVeto::Own)
    } else {
        None
    }
}

/// Guards the removal confirmation. Returns whether it is to be opened; where
/// it is not, a toast says why.
pub fn try_open_worktree_remove_at(
    state: &mut TuiState,
    is_main: bool,
    own: Option<&str>,
    target: Option<&str>,
    now: Instant,
) -> (r: bool)
    requires
        old(state).wf(),
    ensures
        final(state).wf(),
        ({
            let veto = vetoed(
                old(state)@,
                is_main,
                opt_str(own),
                opt_str(target),
            );
            &&& r == (veto is None)
            &&& final(state)@ == match veto {
                Some(why) => match why.reason() {
                    Some(text) => old(state)@.notified("worktree"@, text, now),
                    None => old(state)@,
                },
                None => old(state)@,
            }
        }),
{
    if state.shared_selected() {
        state.push_toast_at(
            ToastKind::Info,
            "worktree",
            "shared services aren't a worktree",
            true,
            now,
        );
        return false;
    }
    if state.current_instance_cwd().is_empty() {
        return false;
    }
    if is_main {
        state.push_toast_at(
            ToastKind::Info,
            "worktree",
            "main worktree — can't be removed",
            true,
            now,
        );
        return false;
    }
    let own_tree = match (own, target) {
        (Some(a), Some(b)) => is_same_path(a, b),
        _ => false,
    };
    if own_tree {
        state.push_toast_at(
            ToastKind::Info,
            "worktree",
            "this is the worktree the TUI runs in",
            true,
            now,
        );
        return false;
    }
    true
}

/// How many lines of a task's output the action panel keeps.
pub const TASK_LINES: usize = 1000;

/// A task's output after one more line.
pub open spec fn task_output(lines: Seq<Seq<char>>, line: Seq<char>) -> Seq<Seq<char>> {
    let all = lines.push(line);
    if all.len() > TASK_LINES {
        all.skip(1)
    } else {
        all
    }
}

/// Appends a line of a task's output; the oldest line goes once there are too
/// many.
pub fn push_task_line(lines: &mut Vec<String>, line: String)
    ensures
        texts(final(lines)@) == task_output(texts(old(lines)@), line@),
{
    let ghost before = texts(lines@);
    let ghost v = line@;
    lines.push(line);
    assert(texts(lines@) =~= before.push(v));
    if lines.len() > TASK_LINES {
        let _oldest = lines.remove(0);
        assert(texts(lines@) =~= before.push(v).skip(1));
    }
}

} // verus!
