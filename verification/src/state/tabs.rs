//! The main pane's tab row: which services a stack owns, which shared ones
//! trail them, and which one is selected.
use vstd::prelude::*;
use vstd::string::*;

use crate::lists::{count, first_index, views};
use crate::protocol::{copy_services, ServiceSnapshot, ServiceView, StepSnapshot, StepView};
use crate::text::same;

use super::{
    InstanceData, InstanceView, SharedView, StackHealth, StackSummary, Stacks, StacksView, TabEntry,
    TabKind, TabView, TuiState, TuiView,
};

verus! {

/// Some service of the list has this name.
pub open spec fn named_in(services: Seq<ServiceView>, name: Seq<char>) -> bool {
    exists|i: int| 0 <= i < services.len() && (#[trigger] services[i]).name == name
}

/// The services that the shared daemon does not report.
pub open spec fn not_among(shared: Seq<ServiceView>) -> spec_fn(ServiceView) -> bool {
    |s: ServiceView| !named_in(shared, s.name)
}

/// The services that a stack owns: those it reports, without the stubs of
/// shared ones.
pub open spec fn owned(services: Seq<ServiceView>, shared: Seq<ServiceView>) -> Seq<ServiceView> {
    services.filter(not_among(shared))
}

pub open spec fn service_tab(kind: TabKind) -> spec_fn(ServiceView) -> TabView {
    |s: ServiceView| TabView { label: s.name, kind, snapshot: Some(s) }
}

/// One tab per service.
pub open spec fn service_tabs(services: Seq<ServiceView>, kind: TabKind) -> Seq<TabView> {
    services.map_values(service_tab(kind))
}

/// The services that count as up.
pub open spec fn is_up() -> spec_fn(ServiceView) -> bool {
    |s: ServiceView| s.state.up()
}

/// The services that crashed.
pub open spec fn is_broken() -> spec_fn(ServiceView) -> bool {
    |s: ServiceView| s.state.broken()
}

/// The health that a list of services adds up to.
pub open spec fn health_of(services: Seq<ServiceView>) -> StackHealth {
    if services.len() == 0 {
        StackHealth::Placeholder
    } else if exists|i: int| 0 <= i < services.len() && (#[trigger] services[i]).state.broken() {
        StackHealth::Failed
    } else if forall|i: int| 0 <= i < services.len() ==> !(#[trigger] services[i]).state.up() {
        StackHealth::Idle
    } else if forall|i: int| 0 <= i < services.len() ==> (#[trigger] services[i]).state.up() {
        StackHealth::AllRunning
    } else {
        StackHealth::SomeRunning
    }
}

impl StacksView {
    /// The services that the selected stack owns.
    pub open spec fn current_owned(self) -> Seq<ServiceView> {
        match self.current() {
            Some(i) => owned(i.services, self.shared.services),
            None => Seq::empty(),
        }
    }

    /// The services that the selected row owns.
    pub open spec fn services(self) -> Seq<ServiceView> {
        if self.shared_selected {
            self.shared.services
        } else {
            self.current_owned()
        }
    }

    /// Whether nothing was reported for the selected row.
    pub open spec fn current_vacant(self) -> bool {
        if self.shared_selected {
            self.shared.services.len() == 0
        } else {
            match self.current() {
                Some(i) => i.vacant(),
                None => false,
            }
        }
    }

    /// The directory of the selected instance.
    pub open spec fn current_cwd(self) -> Seq<char> {
        match self.current() {
            Some(i) => i.info.cwd,
            None => Seq::empty(),
        }
    }

    /// The tab row leads with an explanation: the worktree owns no services
    /// but shared ones exist.
    pub open spec fn has_placeholder_tab(self) -> bool {
        !self.shared_selected && self.shared.services.len() > 0 && self.current_owned().len() == 0
    }

    /// Why the worktree owns no services, in short.
    pub open spec fn placeholder_label(self) -> Seq<char> {
        if self.current_vacant() {
            "no devme.toml"@
        } else {
            "no services"@
        }
    }

    pub open spec fn placeholder_tab(self) -> TabView {
        TabView { label: self.placeholder_label(), kind: TabKind::Placeholder, snapshot: None }
    }

    /// The tab row: on the shared row its services; on a stack the services
    /// that it owns, or the placeholder, and then the shared ones.
    pub open spec fn tabs(self) -> Seq<TabView> {
        let shared_tabs = service_tabs(self.shared.services, TabKind::Shared);
        if self.shared_selected {
            shared_tabs
        } else if self.has_placeholder_tab() {
            seq![self.placeholder_tab()] + shared_tabs
        } else {
            service_tabs(self.current_owned(), TabKind::Owned) + shared_tabs
        }
    }

    /// The stored selection of the selected row.
    pub open spec fn selected_index(self) -> Option<usize> {
        if self.shared_selected {
            self.shared.selected_service
        } else {
            match self.current() {
                Some(i) => i.selected_service,
                None => None,
            }
        }
    }

    /// The selected service: what the selected tab stands for.
    pub open spec fn selected(self) -> Option<ServiceView> {
        match self.selected_index() {
            Some(i) => if i < self.tabs().len() {
                self.tabs()[i as int].snapshot
            } else {
                None
            },
            None => None,
        }
    }

    /// The selected service belongs to the shared daemon.
    pub open spec fn selected_shared(self) -> bool {
        self.shared_selected || match self.selected() {
            Some(s) => named_in(self.shared.services, s.name),
            None => false,
        }
    }

    /// The row with a given selection.
    pub open spec fn with_selected(self, idx: Option<usize>) -> StacksView {
        if self.shared_selected {
            StacksView { shared: SharedView { selected_service: idx, ..self.shared }, ..self }
        } else {
            match self.current() {
                Some(inst) => StacksView {
                    instances: self.instances.update(
                        self.selected_instance->0 as int,
                        InstanceView { selected_service: idx, ..inst },
                    ),
                    ..self
                },
                None => self,
            }
        }
    }

    /// The selection one tab to the right, wrapping. No selection counts as
    /// the first tab.
    pub open spec fn next_service(self) -> StacksView {
        let n = self.tabs().len();
        if n == 0 {
            self
        } else {
            let cur = match self.selected_index() {
                Some(i) => i as int,
                None => 0,
            };
            self.with_selected(Some(((cur + 1) % (n as int)) as usize))
        }
    }

    /// The selection one tab to the left, wrapping.
    pub open spec fn prev_service(self) -> StacksView {
        let n = self.tabs().len();
        if n == 0 {
            self
        } else {
            let cur = match self.selected_index() {
                Some(i) => i as int,
                None => 0,
            };
            self.with_selected(
                Some(
                    (if cur == 0 {
                        n - 1
                    } else {
                        cur - 1
                    }) as usize,
                ),
            )
        }
    }

    /// The dependency checks to show: those of the selected stack, else those
    /// of the first stack that reports any.
    pub open spec fn steps(self) -> Seq<StepView> {
        let own = match self.current() {
            Some(i) => i.steps,
            None => Seq::empty(),
        };
        if own.len() > 0 {
            own
        } else {
            match first_index(self.instances, has_steps()) {
                Some(i) => self.instances[i].steps,
                None => Seq::empty(),
            }
        }
    }

    /// The health of the stack at `idx`, by the services that it owns.
    pub open spec fn health(self, idx: int) -> StackHealth {
        if 0 <= idx < self.instances.len() {
            health_of(owned(self.instances[idx].services, self.shared.services))
        } else {
            StackHealth::Placeholder
        }
    }

    /// The counts shown for the stack at `idx`.
    pub open spec fn summary(self, idx: int) -> StackSummary {
        if !(0 <= idx < self.instances.len()) || self.instances[idx].services.len() == 0 {
            StackSummary::NoDaemon
        } else {
            let own = owned(self.instances[idx].services, self.shared.services);
            if own.len() == 0 {
                StackSummary::SharedOnly
            } else {
                StackSummary::Counted {
                    up: count(own, is_up()) as usize,
                    total: own.len() as usize,
                }
            }
        }
    }

    /// The explanation behind the placeholder tab.
    pub open spec fn explanation(self) -> Seq<char> {
        let cause = if self.current_vacant() {
            "No devme.toml in "@ + self.current_cwd() + " — add one to start services."@
        } else {
            "No services declared in this worktree's devme.toml."@
        };
        if self.shared.services.len() > 0 {
            cause
                + "\n\nThe tabs to the right are repo-scoped shared services this worktree can use."@
        } else {
            cause
        }
    }
}

/// The instances that report dependency checks.
pub open spec fn has_steps() -> spec_fn(InstanceView) -> bool {
    |i: InstanceView| i.steps.len() > 0
}

pub(crate) fn is_named_in(services: &Vec<ServiceSnapshot>, name: &str) -> (r: bool)
    ensures
        r == named_in(views(services@), name@),
{
    let mut i: usize = 0;
    while i < services.len()
        invariant
            i <= services.len(),
            forall|j: int| 0 <= j < i ==> (#[trigger] views(services@)[j]).name != name@,
        decreases services.len() - i,
    {
        assert(views(services@)[i as int] == services@[i as int]@);
        if same(services[i].name.as_str(), name) {
            return true;
        }
        i = i + 1;
    }
    false
}

/// The services of a stack without the stubs of shared ones.
pub(crate) fn owned_services<'a>(
    services: &'a Vec<ServiceSnapshot>,
    shared: &Vec<ServiceSnapshot>,
) -> (r: Vec<&'a ServiceSnapshot>)
    ensures
        views(r@) == owned(views(services@), views(shared@)),
{
    let ghost all = views(services@);
    let ghost p = not_among(views(shared@));
    let mut r: Vec<&'a ServiceSnapshot> = Vec::new();
    let mut i: usize = 0;
    proof {
        reveal(Seq::filter);
        assert(views(r@) =~= all.take(0).filter(p));
    }
    while i < services.len()
        invariant
            i <= services.len(),
            all == views(services@),
            p == not_among(views(shared@)),
            views(r@) == all.take(i as int).filter(p),
        decreases services.len() - i,
    {
        let ghost before = views(r@);
        proof {
            reveal(Seq::filter);
            assert(all[i as int] == services@[i as int]@);
            assert(all.take(i + 1).drop_last() =~= all.take(i as int));
            assert(all.take(i + 1).last() == all[i as int]);
        }
        if !is_named_in(shared, services[i].name.as_str()) {
            r.push(&services[i]);
            assert(views(r@) =~= before.push(all[i as int]));
        }
        i = i + 1;
    }
    assert(all.take(i as int) =~= all);
    r
}

fn copy_all(services: &Vec<&ServiceSnapshot>) -> (r: Vec<ServiceSnapshot>)
    ensures
        views(r@) == views(services@),
{
    let mut r: Vec<ServiceSnapshot> = Vec::new();
    let mut i: usize = 0;
    while i < services.len()
        invariant
            i <= services.len(),
            views(r@) == views(services@).take(i as int),
        decreases services.len() - i,
    {
        let ghost before = views(r@);
        let one = services[i].clone();
        r.push(one);
        i = i + 1;
        assert(views(r@) =~= before.push(one@));
        assert(views(services@).take(i as int) =~= before.push(one@));
    }
    assert(views(services@).take(i as int) =~= views(services@));
    r
}

fn push_tabs(tabs: &mut Vec<TabEntry>, services: &Vec<ServiceSnapshot>, kind: TabKind)
    ensures
        views(final(tabs)@) == views(old(tabs)@) + service_tabs(views(services@), kind),
{
    let ghost start = views(tabs@);
    let ghost all = service_tabs(views(services@), kind);
    let mut i: usize = 0;
    assert(start + all.take(0) =~= start);
    while i < services.len()
        invariant
            i <= services.len(),
            all == service_tabs(views(services@), kind),
            views(tabs@) == start + all.take(i as int),
        decreases services.len() - i,
    {
        let ghost before = views(tabs@);
        let t = TabEntry {
            label: services[i].name.clone(),
            kind,
            snapshot: Some(services[i].clone()),
        };
        assert(t@ =~= all[i as int]);
        tabs.push(t);
        assert(views(tabs@) =~= before.push(all[i as int]));
        i = i + 1;
        assert(start + all.take(i as int) =~= before.push(all[i - 1]));
    }
    assert(all.take(i as int) =~= all);
}

/// Aggregates the states of services into one health.
fn aggregate_health(services: &Vec<&ServiceSnapshot>) -> (r: StackHealth)
    ensures
        r == health_of(views(services@)),
{
    let ghost all = views(services@);
    if services.len() == 0 {
        return StackHealth::Placeholder;
    }
    let mut any_up = false;
    let mut any_down = false;
    let mut i: usize = 0;
    while i < services.len()
        invariant
            i <= services.len(),
            all == views(services@),
            forall|j: int| 0 <= j < i ==> !(#[trigger] all[j]).state.broken(),
            any_up <==> exists|j: int| 0 <= j < i && (#[trigger] all[j]).state.up(),
            any_down <==> exists|j: int| 0 <= j < i && !(#[trigger] all[j]).state.up(),
        decreases services.len() - i,
    {
        assert(all[i as int] == services@[i as int]@);
        if services[i].state.is_broken() {
            return StackHealth::Failed;
        }
        if services[i].state.is_up() {
            any_up = true;
        } else {
            any_down = true;
        }
        i = i + 1;
    }
    if !any_up {
        StackHealth::Idle
    } else if !any_down {
        StackHealth::AllRunning
    } else {
        StackHealth::SomeRunning
    }
}

fn count_up(services: &Vec<&ServiceSnapshot>) -> (r: usize)
    ensures
        r == count(views(services@), is_up()),
{
    let ghost all = views(services@);
    let mut n: usize = 0;
    let mut i: usize = 0;
    while i < services.len()
        invariant
            i <= services.len(),
            all == views(services@),
            n == count(all.take(i as int), is_up()),
            n <= i,
        decreases services.len() - i,
    {
        assert(all.take(i + 1).drop_last() =~= all.take(i as int));
        assert(all.take(i + 1).last() == services@[i as int]@);
        if services[i].state.is_up() {
            n = n + 1;
        }
        i = i + 1;
    }
    assert(all.take(i as int) =~= all);
    n
}

impl Stacks {
    pub(crate) fn current_row(&self) -> (r: Option<&InstanceData>)
        ensures
            opt_view_ref(r) == self@.current(),
            r is Some ==> self@.selected_instance is Some && self@.selected_instance->0
                < self@.instances.len(),
    {
        match self.selected_instance {
            Some(i) => {
                if i < self.instances.len() {
                    assert(self@.instances[i as int] == self.instances@[i as int]@);
                    Some(&self.instances[i])
                } else {
                    None
                }
            },
            None => None,
        }
    }

    /// Instance services excluding stubs for repo-scoped services.
    pub(crate) fn instance_only_services(&self) -> (r: Vec<&ServiceSnapshot>)
        ensures
            views(r@) == self@.current_owned(),
    {
        match self.current_row() {
            Some(i) => owned_services(&i.services, &self.shared.services),
            None => {
                let r: Vec<&ServiceSnapshot> = Vec::new();
                assert(views(r@) =~= Seq::empty());
                r
            },
        }
    }

    pub(crate) fn is_current_vacant(&self) -> (r: bool)
        ensures
            r == self@.current_vacant(),
    {
        if self.shared_selected {
            return self.shared.services.is_empty();
        }
        match self.current_row() {
            Some(i) => i.services.len() == 0 && i.steps.len() == 0,
            None => false,
        }
    }

    pub(crate) fn leads_with_placeholder(&self) -> (r: bool)
        ensures
            r == self@.has_placeholder_tab(),
    {
        let n: usize = self.instance_only_services().len();
        !self.shared_selected && self.shared.services.len() > 0 && n == 0
    }

    fn placeholder_tab_label(&self) -> (r: String)
        ensures
            r@ == self@.placeholder_label(),
    {
        if self.is_current_vacant() {
            "no devme.toml".to_owned()
        } else {
            "no services".to_owned()
        }
    }

    pub(crate) fn tab_entries(&self) -> (r: Vec<TabEntry>)
        ensures
            views(r@) == self@.tabs(),
    {
        let mut tabs: Vec<TabEntry> = Vec::new();
        assert(views(tabs@) =~= Seq::empty());
        if !self.shared_selected {
            if self.leads_with_placeholder() {
                let t = TabEntry {
                    label: self.placeholder_tab_label(),
                    kind: TabKind::Placeholder,
                    snapshot: None,
                };
                tabs.push(t);
                assert(views(tabs@) =~= seq![self@.placeholder_tab()]);
            } else {
                let own = copy_all(&self.instance_only_services());
                push_tabs(&mut tabs, &own, TabKind::Owned);
                assert(views(tabs@) =~= service_tabs(self@.current_owned(), TabKind::Owned));
            }
        }
        push_tabs(&mut tabs, &self.shared.services, TabKind::Shared);
        assert(views(tabs@) =~= self@.tabs());
        tabs
    }

    pub(crate) fn active_service_count(&self) -> (r: usize)
        ensures
            r == self@.tabs().len(),
    {
        self.tab_entries().len()
    }

    pub(crate) fn active_selected_service_idx(&self) -> (r: Option<usize>)
        ensures
            r == self@.selected_index(),
    {
        if self.shared_selected {
            self.shared.selected_service
        } else {
            match self.current_row() {
                Some(i) => i.selected_service,
                None => None,
            }
        }
    }

    pub(crate) fn set_active_selected_service(&mut self, idx: Option<usize>)
        requires
            old(self)@.wf(),
        ensures
            final(self)@.wf(),
            final(self)@ == old(self)@.with_selected(idx),
    {
        let ghost before = self@;
        if self.shared_selected {
            self.shared.selected_service = idx;
        } else {
            match self.selected_instance {
                Some(i) => {
                    if i < self.instances.len() {
                        assert(before.instances[i as int] == self.instances@[i as int]@);
                        assert(before.instances[i as int].wf());
                        self.instances[i].selected_service = idx;
                        assert(views(self.instances@) =~= before.with_selected(idx).instances);
                    }
                },
                None => {},
            }
        }
    }

    pub(crate) fn selected_snapshot(&self) -> (r: Option<&ServiceSnapshot>)
        ensures
            opt_view_ref(r) == self@.selected(),
    {
        let ghost sh = self@.shared.services;
        let ghost own = self@.current_owned();
        let idx: usize = match self.active_selected_service_idx() {
            Some(i) => i,
            None => {
                return None;
            },
        };
        if self.shared_selected {
            if idx < self.shared.services.len() {
                assert(sh[idx as int] == self.shared.services@[idx as int]@);
                return Some(&self.shared.services[idx]);
            }
            return None;
        }
        if self.leads_with_placeholder() {
            if idx >= 1 && idx - 1 < self.shared.services.len() {
                assert(sh[idx - 1] == self.shared.services@[idx - 1]@);
                assert(self@.tabs()[idx as int].snapshot == Some(sh[idx - 1]));
                return Some(&self.shared.services[idx - 1]);
            }
            return None;
        }
        let inst_only = self.instance_only_services();
        let n: usize = inst_only.len();
        assert(own.len() == n);
        if idx < n {
            assert(own[idx as int] == inst_only@[idx as int]@);
            assert(self@.tabs()[idx as int].snapshot == Some(own[idx as int]));
            Some(inst_only[idx])
        } else if idx - n < self.shared.services.len() {
            assert(sh[idx - n] == self.shared.services@[idx - n]@);
            assert(self@.tabs()[idx as int].snapshot == Some(sh[idx - n]));
            Some(&self.shared.services[idx - n])
        } else {
            None
        }
    }

    pub(crate) fn is_selected_shared(&self) -> (r: bool)
        ensures
            r == self@.selected_shared(),
    {
        if self.shared_selected {
            return true;
        }
        match self.selected_snapshot() {
            Some(s) => is_named_in(&self.shared.services, s.name.as_str()),
            None => false,
        }
    }
}

/// The view of an optional reference.
pub open spec fn opt_view_ref<T: View>(v: Option<&T>) -> Option<T::V> {
    match v {
        Some(t) => Some(t@),
        None => None,
    }
}

impl TuiState {
    /// The currently selected row, if any.
    pub fn current_instance(&self) -> (r: Option<&InstanceData>)
        ensures
            opt_view_ref(r) == self@.stacks.current(),
    {
        self.stacks.current_row()
    }

    /// True when the sidebar "shared" row is focused.
    pub fn shared_selected(&self) -> (r: bool)
        ensures
            r == self@.stacks.shared_selected,
    {
        self.stacks.shared_selected
    }

    /// The repo-scoped services.
    pub fn shared_services(&self) -> (r: &Vec<ServiceSnapshot>)
        ensures
            views(r@) == self@.stacks.shared.services,
    {
        &self.stacks.shared.services
    }

    /// True if the selected row has nothing reported for it.
    pub fn current_instance_is_placeholder(&self) -> (r: bool)
        ensures
            r == self@.stacks.current_vacant(),
    {
        self.stacks.is_current_vacant()
    }

    /// As [`current_instance_is_placeholder`](Self::current_instance_is_placeholder)
    /// but for the stack at `idx`.
    pub fn instance_is_placeholder(&self, idx: usize) -> (r: bool)
        ensures
            r == (idx < self@.stacks.instances.len() && self@.stacks.instances[idx as int].vacant()),
    {
        if idx < self.stacks.instances.len() {
            assert(self@.stacks.instances[idx as int] == self.stacks.instances@[idx as int]@);
            self.stacks.instances[idx].services.len() == 0 && self.stacks.instances[idx].steps.len()
                == 0
        } else {
            false
        }
    }

    /// Directory of the selected instance.
    pub fn current_instance_cwd(&self) -> (r: &str)
        ensures
            r@ == self@.stacks.current_cwd(),
    {
        match self.stacks.current_row() {
            Some(i) => i.info.cwd.as_str(),
            None => {
                proof {
                    reveal_strlit("");
                    assert(""@ =~= Seq::empty());
                }
                ""
            },
        }
    }

    /// The services that a row owns: on a stack the worktree's own, on the
    /// shared row the repo-scoped ones. Not the tab list: shared services
    /// appear as access-only tabs on a stack but never inflate its count.
    pub fn services(&self) -> (r: Vec<ServiceSnapshot>)
        ensures
            views(r@) == self@.stacks.services(),
    {
        if self.stacks.shared_selected {
            copy_services(&self.stacks.shared.services)
        } else {
            copy_all(&self.stacks.instance_only_services())
        }
    }

    /// The ordered main-pane tab list. On a stack: the worktree's own services
    /// first, then the repo-scoped shared ones; where it owns none but shared
    /// ones exist, a leading placeholder explains why. On the shared row: the
    /// shared services.
    pub fn tab_services(&self) -> (r: Vec<TabEntry>)
        ensures
            views(r@) == self@.stacks.tabs(),
    {
        self.stacks.tab_entries()
    }

    /// The explanation shown when the placeholder tab is focused.
    pub fn placeholder_explanation(&self) -> (r: String)
        ensures
            r@ == self@.stacks.explanation(),
    {
        let mut msg: String;
        if self.stacks.is_current_vacant() {
            msg = "No devme.toml in ".to_owned();
            msg.append(self.current_instance_cwd());
            msg.append(" — add one to start services.");
        } else {
            msg = "No services declared in this worktree's devme.toml.".to_owned();
        }
        if self.stacks.shared.services.len() > 0 {
            msg.append(
                "\n\nThe tabs to the right are repo-scoped shared services this worktree can use.",
            );
        }
        msg
    }

    /// Dependency checks to show in the sidebar. Every worktree of a repo has
    /// the same checks, so a worktree without a daemon shows those of a
    /// sibling.
    pub fn steps(&self) -> (r: Vec<StepSnapshot>)
        ensures
            views(r@) == self@.stacks.steps(),
    {
        match self.stacks.current_row() {
            Some(i) => {
                if i.steps.len() > 0 {
                    return copy_steps(&i.steps);
                }
            },
            None => {},
        }
        let ghost s = self@.stacks.instances;
        let mut i: usize = 0;
        while i < self.stacks.instances.len()
            invariant
                i <= self.stacks.instances@.len(),
                s == views(self.stacks.instances@),
                self@.stacks.current() matches Some(row) ==> row.steps.len() == 0,
                forall|j: int| 0 <= j < i ==> !has_steps()(s[j]),
            decreases self.stacks.instances.len() - i,
        {
            assert(s[i as int] == self.stacks.instances@[i as int]@);
            if self.stacks.instances[i].steps.len() > 0 {
                proof {
                    crate::lists::first_index_at(s, has_steps(), i as int);
                }
                return copy_steps(&self.stacks.instances[i].steps);
            }
            i = i + 1;
        }
        proof {
            crate::lists::first_index_none(s, has_steps());
        }
        let r: Vec<StepSnapshot> = Vec::new();
        assert(views(r@) =~= Seq::empty());
        r
    }

    /// Aggregate health of the stack at `idx`, for its sidebar dot.
    pub fn instance_health(&self, idx: usize) -> (r: StackHealth)
        ensures
            r == self@.stacks.health(idx as int),
    {
        if idx < self.stacks.instances.len() {
            assert(self@.stacks.instances[idx as int] == self.stacks.instances@[idx as int]@);
            aggregate_health(
                &owned_services(
                    &self.stacks.instances[idx].services,
                    &self.stacks.shared.services,
                ),
            )
        } else {
            StackHealth::Placeholder
        }
    }

    /// Aggregate health of the shared services.
    pub fn shared_health(&self) -> (r: StackHealth)
        ensures
            r == health_of(self@.stacks.shared.services),
    {
        let none: Vec<ServiceSnapshot> = Vec::new();
        let all = owned_services(&self.stacks.shared.services, &none);
        proof {
            filter_all(self@.stacks.shared.services, not_among(views(none@)));
        }
        aggregate_health(&all)
    }

    /// Running and total counts of the services that the stack at `idx` owns.
    pub fn instance_service_summary(&self, idx: usize) -> (r: StackSummary)
        ensures
            r == self@.stacks.summary(idx as int),
    {
        if idx >= self.stacks.instances.len() {
            return StackSummary::NoDaemon;
        }
        assert(self@.stacks.instances[idx as int] == self.stacks.instances@[idx as int]@);
        if self.stacks.instances[idx].services.len() == 0 {
            return StackSummary::NoDaemon;
        }
        let own = owned_services(
            &self.stacks.instances[idx].services,
            &self.stacks.shared.services,
        );
        if own.len() == 0 {
            return StackSummary::SharedOnly;
        }
        StackSummary::Counted { up: count_up(&own), total: own.len() }
    }

    pub fn selected_service(&self) -> (r: Option<&ServiceSnapshot>)
        ensures
            opt_view_ref(r) == self@.stacks.selected(),
    {
        self.stacks.selected_snapshot()
    }

    /// True when the focused tab is the placeholder. It is the default focus,
    /// so no selection counts as being on it.
    pub fn selected_tab_is_placeholder(&self) -> (r: bool)
        ensures
            r == (self@.stacks.has_placeholder_tab() && (self@.stacks.selected_index() is None
                || self@.stacks.selected_index() == Some(0usize))),
    {
        self.stacks.leads_with_placeholder() && match self.stacks.active_selected_service_idx() {
            None => true,
            Some(i) => i == 0,
        }
    }

    /// Index of the highlighted tab: the first where the selection is unset or
    /// out of range.
    pub fn selected_tab_index(&self) -> (r: usize)
        ensures
            r == match self@.stacks.selected_index() {
                Some(i) => if i < self@.stacks.tabs().len() {
                    i
                } else {
                    0
                },
                None => 0,
            },
    {
        match self.stacks.active_selected_service_idx() {
            Some(i) => if i < self.stacks.active_service_count() {
                i
            } else {
                0
            },
            None => 0,
        }
    }

    /// Instance id and name of the selected service, for routing commands to
    /// the right daemon.
    pub fn selected_instance_and_service(&self) -> (r: Option<(String, String)>)
        ensures
            match r {
                Some((id, name)) => self@.stacks.command_target() == Some((id@, name@)),
                None => self@.stacks.command_target() is None,
            },
    {
        match self.stacks.selected_snapshot() {
            Some(s) => {
                if self.stacks.is_selected_shared() {
                    match &self.stacks.shared.id {
                        Some(id) => Some((id.clone(), s.name.clone())),
                        None => None,
                    }
                } else {
                    match self.stacks.current_row() {
                        Some(i) => Some((i.info.id.clone(), s.name.clone())),
                        None => None,
                    }
                }
            },
            None => None,
        }
    }

    /// Selects the tab to the right, wrapping. An unset selection counts as
    /// the first tab, so the first press steps off it.
    pub fn select_next_service(&mut self)
        requires
            old(self).wf(),
        ensures
            final(self).wf(),
            final(self)@ == (TuiView {
                stacks: old(self)@.stacks.next_service(),
                ..old(self)@
            }),
    {
        let total: usize = self.stacks.active_service_count();
        if total == 0 {
            return;
        }
        let cur: usize = match self.stacks.active_selected_service_idx() {
            Some(i) => i,
            None => 0,
        };
        let next: usize = (cur % total + 1) % total;
        proof {
            vstd::arithmetic::div_mod::lemma_add_mod_noop(cur as int, 1, total as int);
            vstd::arithmetic::div_mod::lemma_mod_twice(cur as int, total as int);
            if total == 1 {
                assert((cur as int % 1 + 1) % 1 == 0);
                assert((cur + 1) % 1 == 0);
            } else {
                vstd::arithmetic::div_mod::lemma_small_mod(1, total as nat);
            }
        }
        self.stacks.set_active_selected_service(Some(next));
    }

    /// Selects the tab to the left, wrapping.
    pub fn select_prev_service(&mut self)
        requires
            old(self).wf(),
        ensures
            final(self).wf(),
            final(self)@ == (TuiView {
                stacks: old(self)@.stacks.prev_service(),
                ..old(self)@
            }),
    {
        let total: usize = self.stacks.active_service_count();
        if total == 0 {
            return;
        }
        let cur: usize = match self.stacks.active_selected_service_idx() {
            Some(i) => i,
            None => 0,
        };
        let prev: usize = if cur == 0 {
            total - 1
        } else {
            cur - 1
        };
        self.stacks.set_active_selected_service(Some(prev));
    }
}

impl StacksView {
    /// Where a command for the selected service goes: daemon and service.
    pub open spec fn command_target(self) -> Option<(Seq<char>, Seq<char>)> {
        match self.selected() {
            Some(s) => if self.selected_shared() {
                match self.shared.id {
                    Some(id) => Some((id, s.name)),
                    None => None,
                }
            } else {
                match self.current() {
                    Some(i) => Some((i.info.id, s.name)),
                    None => None,
                }
            },
            None => None,
        }
    }
}

/// A filter that everything passes changes nothing.
proof fn filter_all<A>(s: Seq<A>, p: spec_fn(A) -> bool)
    requires
        forall|i: int| 0 <= i < s.len() ==> p(s[i]),
    ensures
        s.filter(p) == s,
    decreases s.len(),
{
    reveal(Seq::filter);
    if s.len() > 0 {
        assert(forall|i: int| 0 <= i < s.drop_last().len() ==> s.drop_last()[i] == s[i]);
        filter_all(s.drop_last(), p);
        assert(s.drop_last().push(s.last()) =~= s);
    }
}

fn copy_steps(v: &Vec<StepSnapshot>) -> (r: Vec<StepSnapshot>)
    ensures
        views(r@) == views(v@),
{
    let mut r: Vec<StepSnapshot> = Vec::new();
    let mut i: usize = 0;
    while i < v.len()
        invariant
            i <= v.len(),
            views(r@) == views(v@).take(i as int),
        decreases v.len() - i,
    {
        let ghost before = views(r@);
        let one = v[i].clone();
        r.push(one);
        i = i + 1;
        assert(views(r@) =~= before.push(one@));
        assert(views(v@).take(i as int) =~= before.push(one@));
    }
    assert(views(v@).take(i as int) =~= views(v@));
    r
}

} // verus!
