//! Port conflicts: recognising a crash on `address already in use`, and the
//! modal that offers to free the port.
use std::collections::VecDeque;

use vstd::prelude::*;
use vstd::string::*;

use crate::lists::views;
use crate::protocol::{Holder, ServiceState, StateView};
use crate::text::{contains, decimal, has, join, joined, lowered, number, texts, to_lower};

use super::ingest::{is_shared_id, shared_id};
use super::logs::buffered;
use super::{
    ActionView, ConflictView, Modals, ModalsView, OptionView, PortConflictAction, PortConflictDialog,
    PortConflictOption, Stacks, StacksView, TuiState, TuiView,
};

verus! {

/// A log line that reports a port as taken: Node writes `EADDRINUSE`, others
/// `address already in use`.
pub open spec fn mentions_addr_in_use(line: Seq<char>) -> bool {
    contains(lowered(line), "address already in use"@) || contains(lowered(line), "eaddrinuse"@)
}

/// One of the newest forty lines reports a port as taken.
pub open spec fn shows_addr_in_use(lines: Seq<Seq<char>>) -> bool {
    exists|i: int|
        0 <= i < lines.len() && lines.len() - 40 <= i && mentions_addr_in_use(#[trigger] lines[i])
}

/// True if any of the last few log lines look like a port-already-in-use
/// error.
pub fn logs_show_addr_in_use(logs: &VecDeque<String>) -> (r: bool)
    ensures
        r == shows_addr_in_use(texts(logs@)),
{
    let n: usize = logs.len();
    let mut i: usize = n.saturating_sub(40);
    let ghost start = i;
    while i < n
        invariant
            n == logs@.len(),
            start <= i <= n,
            start == if n >= 40 {
                n - 40
            } else {
                0
            },
            forall|j: int| start <= j < i ==> !mentions_addr_in_use(#[trigger] texts(logs@)[j]),
        decreases n - i,
    {
        assert(texts(logs@)[i as int] == logs@[i as int]@);
        let low = to_lower(logs[i].as_str());
        if has(low.as_str(), "address already in use") || has(low.as_str(), "eaddrinuse") {
            assert(mentions_addr_in_use(texts(logs@)[i as int]));
            return true;
        }
        i = i + 1;
    }
    false
}

/// How a listening process is named: by its name and pid, or its pid alone.
pub open spec fn process_label(p: (u32, Option<String>)) -> Seq<char> {
    match p.1 {
        Some(n) => n@ + " ("@ + decimal(p.0 as nat) + ")"@,
        None => "pid "@ + decimal(p.0 as nat),
    }
}

/// The processes that hold a port, in one line.
pub open spec fn processes_label(pids: Seq<(u32, Option<String>)>) -> Seq<char> {
    joined(pids.map_values(|p: (u32, Option<String>)| process_label(p)), ", "@)
}

/// One line on who holds a port.
pub open spec fn holder_description(h: Holder) -> Seq<char> {
    match h {
        Holder::Container { name, project } => match project {
            Some(p) => "container "@ + name@ + " (compose: "@ + p@ + ")"@,
            None => "container "@ + name@,
        },
        Holder::Process(pids) => processes_label(pids@),
        Holder::Unknown => "an unknown process"@,
    }
}

/// The last row of every port-conflict modal.
pub open spec fn skip_option() -> OptionView {
    OptionView { label: "Skip"@, action: ActionView::Skip }
}

/// What can be done about a holder: stop a container, tear down its compose
/// project, kill a process; and always, last, nothing.
pub open spec fn remedies(h: Holder) -> Seq<OptionView> {
    match h {
        Holder::Container { name, project } => {
            let stop = OptionView {
                label: "Stop container "@ + name@,
                action: ActionView::StopContainer(name@),
            };
            match project {
                Some(p) => seq![
                    stop,
                    OptionView {
                        label: "Compose down "@ + p@ + " (stops the whole project)"@,
                        action: ActionView::ComposeDown(p@),
                    },
                    skip_option(),
                ],
                None => seq![stop, skip_option()],
            }
        },
        Holder::Process(pids) => seq![
            OptionView {
                label: "Kill "@ + processes_label(pids@),
                action: ActionView::KillProcess(
                    pids@.map_values(|p: (u32, Option<String>)| p.0),
                ),
            },
            skip_option(),
        ],
        Holder::Unknown => seq![skip_option()],
    }
}

impl ConflictView {
    /// The modal for a service that could not bind its port.
    pub open spec fn opened(
        instance_id: Seq<char>,
        service: Seq<char>,
        port: u16,
        holder: Holder,
    ) -> ConflictView {
        ConflictView {
            instance_id,
            service,
            port,
            holder_desc: holder_description(holder),
            options: remedies(holder),
            selected: 0,
        }
    }
}

fn process_text(p: &(u32, Option<String>)) -> (r: String)
    ensures
        r@ == process_label(*p),
{
    match &p.1 {
        Some(n) => {
            let mut s = n.clone();
            s.append(" (");
            s.append(number(p.0 as u64).as_str());
            s.append(")");
            s
        },
        None => {
            let mut s = "pid ".to_owned();
            s.append(number(p.0 as u64).as_str());
            s
        },
    }
}

fn processes_text(pids: &Vec<(u32, Option<String>)>) -> (r: String)
    ensures
        r@ == processes_label(pids@),
{
    let ghost all = pids@.map_values(|p: (u32, Option<String>)| process_label(p));
    let mut parts: Vec<String> = Vec::new();
    let mut i: usize = 0;
    while i < pids.len()
        invariant
            i <= pids.len(),
            all == pids@.map_values(|p: (u32, Option<String>)| process_label(p)),
            texts(parts@) == all.take(i as int),
        decreases pids.len() - i,
    {
        let ghost before = texts(parts@);
        parts.push(process_text(&pids[i]));
        assert(texts(parts@) =~= before.push(all[i as int]));
        i = i + 1;
        assert(all.take(i as int) =~= before.push(all[i - 1]));
    }
    assert(all.take(i as int) =~= all);
    join(&parts, ", ")
}

fn pid_numbers(pids: &Vec<(u32, Option<String>)>) -> (r: Vec<u32>)
    ensures
        r@ == pids@.map_values(|p: (u32, Option<String>)| p.0),
{
    let ghost all = pids@.map_values(|p: (u32, Option<String>)| p.0);
    let mut r: Vec<u32> = Vec::new();
    let mut i: usize = 0;
    while i < pids.len()
        invariant
            i <= pids.len(),
            all == pids@.map_values(|p: (u32, Option<String>)| p.0),
            r@ == all.take(i as int),
        decreases pids.len() - i,
    {
        r.push(pids[i].0);
        i = i + 1;
        assert(r@ =~= all.take(i as int));
    }
    assert(all.take(i as int) =~= all);
    r
}

impl PortConflictAction {
    fn dup(&self) -> (r: Self)
        ensures
            r@ == self@,
    {
        match self {
            PortConflictAction::StopContainer(n) => PortConflictAction::StopContainer(n.clone()),
            PortConflictAction::ComposeDown(p) => PortConflictAction::ComposeDown(p.clone()),
            PortConflictAction::KillProcess(pids) => {
                let mut v: Vec<u32> = Vec::new();
                let mut i: usize = 0;
                while i < pids.len()
                    invariant
                        i <= pids.len(),
                        v@ == pids@.take(i as int),
                    decreases pids.len() - i,
                {
                    v.push(pids[i]);
                    i = i + 1;
                    assert(v@ =~= pids@.take(i as int));
                }
                assert(pids@.take(i as int) =~= pids@);
                PortConflictAction::KillProcess(v)
            },
            PortConflictAction::Skip => PortConflictAction::Skip,
        }
    }
}

impl PortConflictDialog {
    /// Builds the modal from an identified port holder, with the remedies that
    /// fit it and "Skip" always last.
    pub fn from_holder(instance_id: String, service: String, port: u16, holder: Holder) -> (r: Self)
        ensures
            r@ == ConflictView::opened(instance_id@, service@, port, holder),
            r@.wf(),
    {
        let mut options: Vec<PortConflictOption> = Vec::new();
        let ghost remedied = remedies(holder);
        let holder_desc: String;
        match holder {
            Holder::Container { name, project } => {
                let mut desc = "container ".to_owned();
                desc.append(name.as_str());
                let mut label = "Stop container ".to_owned();
                label.append(name.as_str());
                options.push(
                    PortConflictOption { label, action: PortConflictAction::StopContainer(name) },
                );
                match project {
                    Some(p) => {
                        desc.append(" (compose: ");
                        desc.append(p.as_str());
                        desc.append(")");
                        let mut down = "Compose down ".to_owned();
                        down.append(p.as_str());
                        down.append(" (stops the whole project)");
                        options.push(
                            PortConflictOption {
                                label: down,
                                action: PortConflictAction::ComposeDown(p),
                            },
                        );
                    },
                    None => {},
                }
                holder_desc = desc;
            },
            Holder::Process(pids) => {
                holder_desc = processes_text(&pids);
                let mut label = "Kill ".to_owned();
                label.append(holder_desc.as_str());
                let ids = pid_numbers(&pids);
                options.push(
                    PortConflictOption { label, action: PortConflictAction::KillProcess(ids) },
                );
            },
            Holder::Unknown => {
                holder_desc = "an unknown process".to_owned();
            },
        }
        options.push(
            PortConflictOption { label: "Skip".to_owned(), action: PortConflictAction::Skip },
        );
        assert(views(options@) =~= remedied);
        PortConflictDialog { instance_id, service, port, holder_desc, options, selected: 0 }
    }
}

impl StacksView {
    /// The lines that the daemon `source` logged for `service`.
    pub open spec fn lines_of(self, source: Seq<char>, service: Seq<char>) -> Seq<Seq<char>> {
        if shared_id(source) {
            buffered(self.shared.logs, service)
        } else {
            match self.find(source) {
                Some(i) => buffered(self.instances[i].logs, service),
                None => Seq::empty(),
            }
        }
    }
}

impl TuiView {
    /// The state after a move from `old` to `new` was looked at for a port
    /// conflict: a fresh crash of a service with a known port whose recent
    /// lines report the port as taken queues a probe, unless one is queued or
    /// a modal is up.
    pub open spec fn flagged(
        self,
        source: Seq<char>,
        service: Seq<char>,
        old: StateView,
        new: StateView,
        port: Option<u16>,
    ) -> TuiView {
        if new.broken() && !old.broken() && self.modals.port_conflict is None
            && self.modals.pending_port_conflict is None && port is Some && shows_addr_in_use(
            self.stacks.lines_of(source, service),
        ) {
            TuiView {
                modals: ModalsView {
                    pending_port_conflict: Some((source, service, port->0)),
                    ..self.modals
                },
                ..self
            }
        } else {
            self
        }
    }
}

/// `i` moved by `delta` places around a ring of `n`.
pub open spec fn wrapped(i: usize, delta: i32, n: nat) -> usize {
    ((i + delta) % (n as int)) as usize
}

pub(crate) fn wrap(i: usize, delta: i32, n: usize) -> (r: usize)
    requires
        0 < n <= 1000,
        i < n,
    ensures
        r == wrapped(i, delta, n as nat),
        r < n,
{
    let m: i64 = n as i64;
    let x: i64 = i as i64 + delta as i64;
    let k: i64 = if x >= 0 {
        x % m
    } else {
        let y: i64 = (-x) % m;
        if y == 0 {
            0
        } else {
            m - y
        }
    };
    proof {
        let xi = x as int;
        let mi = m as int;
        if x < 0 {
            let q = (-xi) / mi;
            let y = (-xi) % mi;
            vstd::arithmetic::div_mod::lemma_fundamental_div_mod(-xi, mi);
            if y == 0 {
                assert(xi == (-q) * mi) by (nonlinear_arith)
                    requires
                        -xi == mi * q + y,
                        y == 0,
                ;
                vstd::arithmetic::div_mod::lemma_fundamental_div_mod_converse(xi, mi, -q, 0);
            } else {
                assert(xi == (-q - 1) * mi + (mi - y)) by (nonlinear_arith)
                    requires
                        -xi == mi * q + y,
                ;
                vstd::arithmetic::div_mod::lemma_fundamental_div_mod_converse(
                    xi,
                    mi,
                    -q - 1,
                    mi - y,
                );
            }
        }
    }
    k as usize
}

impl Stacks {
    fn shows_addr_in_use_for(&self, source_id: &str, service: &str) -> (r: bool)
        ensures
            r == shows_addr_in_use(self@.lines_of(source_id@, service@)),
    {
        if is_shared_id(source_id) {
            match self.shared.logs.get(service) {
                Some(buf) => logs_show_addr_in_use(&buf.lines),
                None => false,
            }
        } else {
            match self.find_instance(source_id) {
                Some(i) => {
                    assert(self@.instances[i as int] == self.instances@[i as int]@);
                    match self.instances[i].logs.get(service) {
                        Some(buf) => logs_show_addr_in_use(&buf.lines),
                        None => false,
                    }
                },
                None => false,
            }
        }
    }
}

impl Modals {
    fn move_conflict(&mut self, delta: i32)
        requires
            old(self)@.wf(),
        ensures
            final(self)@.wf(),
            final(self)@ == old(self)@.conflict_moved(delta),
    {
        match self.port_conflict.take() {
            Some(mut d) => {
                d.selected = wrap(d.selected, delta, d.options.len());
                self.port_conflict = Some(d);
            },
            None => {},
        }
    }

    fn take_choice(&mut self) -> (r: Option<(String, String, PortConflictAction)>)
        requires
            old(self)@.wf(),
        ensures
            final(self)@.wf(),
            final(self)@ == (ModalsView { port_conflict: None, ..old(self)@ }),
            match r {
                Some((id, service, action)) => old(self)@.port_conflict matches Some(d) && id@
                    == d.instance_id && service@ == d.service && action@
                    == d.options[d.selected as int].action,
                None => old(self)@.port_conflict is None,
            },
    {
        match self.port_conflict.take() {
            Some(d) => {
                assert(views(d.options@)[d.selected as int] == d.options@[d.selected as int]@);
                let action = d.options[d.selected].action.dup();
                Some((d.instance_id, d.service, action))
            },
            None => None,
        }
    }
}

impl ModalsView {
    /// The highlight of the port-conflict modal moved by `delta`, wrapping.
    pub open spec fn conflict_moved(self, delta: i32) -> ModalsView {
        ModalsView {
            port_conflict: match self.port_conflict {
                Some(d) => Some(
                    ConflictView { selected: wrapped(d.selected, delta, d.options.len()), ..d },
                ),
                None => None,
            },
            ..self
        }
    }

    /// The port-conflict modal opened, unless one is open already.
    pub open spec fn conflict_opened(
        self,
        instance_id: Seq<char>,
        service: Seq<char>,
        port: u16,
        holder: Holder,
    ) -> ModalsView {
        if self.port_conflict is Some {
            self
        } else {
            ModalsView {
                port_conflict: Some(ConflictView::opened(instance_id, service, port, holder)),
                ..self
            }
        }
    }
}

impl TuiState {
    /// On a fresh crash, queues a port-conflict probe if the service's recent
    /// logs look like an `address already in use` error and its port is known.
    /// Never stacks a second prompt.
    pub(crate) fn flag_port_conflict_if_addr_in_use(
        &mut self,
        source_id: &str,
        service: &str,
        old_state: &ServiceState,
        new_state: &ServiceState,
        port: Option<u16>,
    )
        requires
            old(self).wf(),
        ensures
            final(self).wf(),
            final(self)@ == old(self)@.flagged(
                source_id@,
                service@,
                old_state@,
                new_state@,
                port,
            ),
    {
        if !new_state.is_broken() || old_state.is_broken() {
            return;
        }
        if self.modals.port_conflict.is_some() || self.modals.pending_port_conflict.is_some() {
            return;
        }
        match port {
            Some(p) => {
                if self.stacks.shows_addr_in_use_for(source_id, service) {
                    self.modals.pending_port_conflict = Some(
                        (source_id.to_owned(), service.to_owned(), p),
                    );
                }
            },
            None => {},
        }
    }

    /// Takes the queued port-conflict probe, if any.
    pub fn take_pending_port_conflict(&mut self) -> (r: Option<(String, String, u16)>)
        requires
            old(self).wf(),
        ensures
            final(self).wf(),
            super::pending_view(r) == old(self)@.modals.pending_port_conflict,
            final(self)@ == (TuiView {
                modals: ModalsView { pending_port_conflict: None, ..old(self)@.modals },
                ..old(self)@
            }),
    {
        self.modals.pending_port_conflict.take()
    }

    /// Opens the modal once the holder is known. Won't replace an open one.
    pub fn open_port_conflict(
        &mut self,
        instance_id: String,
        service: String,
        port: u16,
        holder: Holder,
    )
        requires
            old(self).wf(),
        ensures
            final(self).wf(),
            final(self)@ == (TuiView {
                modals: old(self)@.modals.conflict_opened(instance_id@, service@, port, holder),
                ..old(self)@
            }),
    {
        if self.modals.port_conflict.is_some() {
            return;
        }
        self.modals.port_conflict = Some(
            PortConflictDialog::from_holder(instance_id, service, port, holder),
        );
    }

    pub fn port_conflict(&self) -> (r: Option<&PortConflictDialog>)
        ensures
            match r {
                Some(d) => self@.modals.port_conflict == Some(d@),
                None => self@.modals.port_conflict is None,
            },
    {
        self.modals.port_conflict.as_ref()
    }

    pub fn port_conflict_visible(&self) -> (r: bool)
        ensures
            r == (self@.modals.port_conflict is Some),
    {
        self.modals.port_conflict.is_some()
    }

    /// Moves the highlighted option by `delta`, wrapping.
    pub fn port_conflict_move(&mut self, delta: i32)
        requires
            old(self).wf(),
        ensures
            final(self).wf(),
            final(self)@ == (TuiView {
                modals: old(self)@.modals.conflict_moved(delta),
                ..old(self)@
            }),
    {
        self.modals.move_conflict(delta);
    }

    pub fn dismiss_port_conflict(&mut self)
        requires
            old(self).wf(),
        ensures
            final(self).wf(),
            final(self)@ == (TuiView {
                modals: ModalsView { port_conflict: None, ..old(self)@.modals },
                ..old(self)@
            }),
    {
        self.modals.port_conflict = None;
    }

    /// Takes the highlighted choice and closes the modal. Returns the instance
    /// id, the service and the action to carry out.
    pub fn take_port_conflict_choice(&mut self) -> (r: Option<
        (String, String, PortConflictAction),
    >)
        requires
            old(self).wf(),
        ensures
            final(self).wf(),
            final(self)@ == (TuiView {
                modals: ModalsView { port_conflict: None, ..old(self)@.modals },
                ..old(self)@
            }),
            match r {
                Some((id, service, action)) => old(self)@.modals.port_conflict matches Some(d)
                    && id@ == d.instance_id && service@ == d.service && action@
                    == d.options[d.selected as int].action,
                None => old(self)@.modals.port_conflict is None,
            },
    {
        self.modals.take_choice()
    }
}

} // verus!
