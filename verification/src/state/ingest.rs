//! Absorbing what daemons report: which instances exist, what state their
//! services and checks are in, what they log.
use std::time::Instant;

use vstd::prelude::*;

use crate::codec::{decode_payload, payload_text};
use crate::lists::{first_index, first_index_at, first_index_none, views};
use crate::protocol::{
    InfoView, InstanceInfo, MessageView, ServerMessage, ServiceSnapshot, ServiceState, ServiceView,
    StateView, StepSnapshot, StepState, StepView,
};
use crate::text::{begins, starts_with};

use super::logs::{absorb, logs_after, scroll_after};
use super::{
    InstanceData, InstanceView, SharedData, SharedView, Stacks, StacksView, TuiState, TuiView,
};

verus! {

/// The id of a repo-scoped shared daemon.
pub open spec fn shared_id(id: Seq<char>) -> bool {
    starts_with(id, "shared::"@)
}

/// Returns true if the instance id belongs to the shared supervisor.
pub fn is_shared_id(id: &str) -> (r: bool)
    ensures
        r == shared_id(id@),
{
    begins(id, "shared::")
}

/// The instances with a given id.
pub open spec fn with_id(id: Seq<char>) -> spec_fn(InstanceView) -> bool {
    |i: InstanceView| i.info.id == id
}

/// The services with a given name.
pub open spec fn with_name(name: Seq<char>) -> spec_fn(ServiceView) -> bool {
    |s: ServiceView| s.name == name
}

/// The checks with a given name.
pub open spec fn step_named(name: Seq<char>) -> spec_fn(StepView) -> bool {
    |s: StepView| s.name == name
}

/// The first port that is known.
pub open spec fn known_port(reported: Option<u16>, held: Option<u16>) -> Option<u16> {
    match reported {
        Some(p) => Some(p),
        None => held,
    }
}

/// The services after one of them reported a new state: its state is
/// replaced, and a port once known is never forgotten.
pub open spec fn reported(
    services: Seq<ServiceView>,
    i: int,
    state: StateView,
    port: Option<u16>,
) -> Seq<ServiceView> {
    services.update(
        i,
        ServiceView { state, port: known_port(port, services[i].port), ..services[i] },
    )
}

impl StacksView {
    /// Where the instance with this id stands.
    pub open spec fn find(self, id: Seq<char>) -> Option<int> {
        first_index(self.instances, with_id(id))
    }

    /// Where a daemon's report is put: the row of its id, or a new row at the
    /// end.
    pub open spec fn row_for(self, id: Seq<char>) -> int {
        match self.find(id) {
            Some(i) => i,
            None => self.instances.len() as int,
        }
    }

    /// The stacks with a row for `info`: an existing row takes over the new
    /// label and directory, a new one is selected only if none was.
    pub open spec fn upserted(self, info: InfoView) -> StacksView {
        match self.find(info.id) {
            Some(i) => StacksView {
                instances: self.instances.update(i, InstanceView { info, ..self.instances[i] }),
                ..self
            },
            None => StacksView {
                instances: self.instances.push(InstanceView::fresh(info)),
                selected_instance: match self.selected_instance {
                    Some(s) => Some(s),
                    None => Some(self.instances.len() as usize),
                },
                ..self
            },
        }
    }

    /// The stacks without the row of `id`, the selection kept on a row.
    pub open spec fn without(self, id: Seq<char>) -> StacksView {
        match self.find(id) {
            Some(i) => {
                let left = self.instances.remove(i);
                StacksView {
                    instances: left,
                    selected_instance: if left.len() == 0 {
                        None
                    } else {
                        match self.selected_instance {
                            Some(s) => if s >= left.len() {
                                Some((left.len() - 1) as usize)
                            } else {
                                Some(s)
                            },
                            None => None,
                        }
                    },
                    ..self
                }
            },
            None => self,
        }
    }

    /// The stacks after a daemon attached.
    pub open spec fn subscribed(
        self,
        info: InfoView,
        services: Seq<ServiceView>,
        steps: Seq<StepView>,
    ) -> StacksView {
        let i = self.row_for(info.id);
        let up = self.upserted(info);
        let row = up.instances[i];
        StacksView {
            had_live_daemon: true,
            instances: up.instances.update(
                i,
                InstanceView {
                    services,
                    steps,
                    selected_service: if row.selected_service is None && services.len() > 0 {
                        Some(0)
                    } else {
                        row.selected_service
                    },
                    ..row
                },
            ),
            ..up
        }
    }

    /// The last report on a service of the daemon `source`.
    pub open spec fn last_report(self, source: Seq<char>, service: Seq<char>) -> Option<
        ServiceView,
    > {
        if shared_id(source) {
            match first_index(self.shared.services, with_name(service)) {
                Some(k) => Some(self.shared.services[k]),
                None => None,
            }
        } else {
            match self.find(source) {
                Some(i) => match first_index(self.instances[i].services, with_name(service)) {
                    Some(k) => Some(self.instances[i].services[k]),
                    None => None,
                },
                None => None,
            }
        }
    }

    /// The stacks after a service reported a new state. A service that is not
    /// known is ignored.
    pub open spec fn status_updated(
        self,
        source: Seq<char>,
        service: Seq<char>,
        state: StateView,
        port: Option<u16>,
    ) -> StacksView {
        if shared_id(source) {
            match first_index(self.shared.services, with_name(service)) {
                Some(k) => StacksView {
                    shared: SharedView {
                        services: reported(self.shared.services, k, state, port),
                        ..self.shared
                    },
                    ..self
                },
                None => self,
            }
        } else {
            match self.find(source) {
                Some(i) => match first_index(self.instances[i].services, with_name(service)) {
                    Some(k) => StacksView {
                        instances: self.instances.update(
                            i,
                            InstanceView {
                                services: reported(self.instances[i].services, k, state, port),
                                ..self.instances[i]
                            },
                        ),
                        ..self
                    },
                    None => self,
                },
                None => self,
            }
        }
    }

    /// The stacks after a check of an instance reported its outcome.
    pub open spec fn step_updated(
        self,
        source: Seq<char>,
        step: Seq<char>,
        state: StepState,
    ) -> StacksView {
        match self.find(source) {
            Some(i) => match first_index(self.instances[i].steps, step_named(step)) {
                Some(k) => StacksView {
                    instances: self.instances.update(
                        i,
                        InstanceView {
                            steps: self.instances[i].steps.update(
                                k,
                                StepView { state, ..self.instances[i].steps[k] },
                            ),
                            ..self.instances[i]
                        },
                    ),
                    ..self
                },
                None => self,
            },
            None => self,
        }
    }

    /// The stacks after the daemon `source` logged.
    pub open spec fn logged(
        self,
        source: Seq<char>,
        service: Seq<char>,
        payload: Seq<char>,
    ) -> StacksView {
        if shared_id(source) {
            StacksView { shared: self.shared.with_chunk(service, payload), ..self }
        } else {
            match self.find(source) {
                Some(i) => StacksView {
                    instances: self.instances.update(
                        i,
                        self.instances[i].with_chunk(service, payload),
                    ),
                    ..self
                },
                None => self,
            }
        }
    }

    /// The stacks after a message from the daemon `source`. The shared daemon
    /// has a row of its own and no checks.
    pub open spec fn absorbed(self, source: Seq<char>, msg: MessageView) -> StacksView {
        match msg {
            MessageView::Subscribed { instance, services, steps } => if shared_id(source) {
                StacksView { shared: self.shared.subscribed(instance.id, services), ..self }
            } else {
                self.subscribed(instance, services, steps)
            },
            MessageView::Goodbye { .. } => if shared_id(source) {
                StacksView { shared: SharedView::absent(), ..self }
            } else {
                self.without(source)
            },
            MessageView::StatusUpdate { service, state, port, .. } => self.status_updated(
                source,
                service,
                state,
                port,
            ),
            MessageView::StepStatusUpdate { step, state } => if shared_id(source) {
                self
            } else {
                self.step_updated(source, step, state)
            },
            MessageView::LogChunk { service, bytes, .. } => self.logged(source, service, bytes),
            MessageView::Other => self,
        }
    }

    /// The selected instance's row.
    pub open spec fn current(self) -> Option<InstanceView> {
        match self.selected_instance {
            Some(i) => if i < self.instances.len() {
                Some(self.instances[i as int])
            } else {
                None
            },
            None => None,
        }
    }

    /// Which daemon a message counts as coming from when nothing says so: the
    /// one that it introduces, else the selected one.
    pub open spec fn presumed_source(self, msg: MessageView) -> Seq<char> {
        match msg {
            MessageView::Subscribed { instance, .. } => instance.id,
            _ => match self.current() {
                Some(i) => i.info.id,
                None => Seq::empty(),
            },
        }
    }
}

impl SharedView {
    /// The shared row after its daemon attached.
    pub open spec fn subscribed(self, id: Seq<char>, services: Seq<ServiceView>) -> SharedView {
        SharedView {
            id: Some(id),
            services,
            selected_service: if self.selected_service is None && services.len() > 0 {
                Some(0)
            } else {
                self.selected_service
            },
            ..self
        }
    }

    /// The shared row after a chunk for `service` arrived. A payload that
    /// carries no text changes nothing.
    pub open spec fn with_chunk(self, service: Seq<char>, payload: Seq<char>) -> SharedView {
        match payload_text(payload) {
            Some(text) => SharedView {
                logs: logs_after(self.logs, service, text),
                log_scroll: scroll_after(self.logs, self.log_scroll, service, text),
                ..self
            },
            None => self,
        }
    }
}

impl TuiView {
    /// The state after a message from the daemon `source`: the stacks absorb
    /// it, and a service that changed state is announced and looked at for a
    /// port conflict.
    pub open spec fn applied(self, source: Seq<char>, msg: MessageView, now: Instant) -> TuiView {
        let next = TuiView { stacks: self.stacks.absorbed(source, msg), ..self };
        match msg {
            MessageView::StatusUpdate { service, state, port, .. } => match self.stacks.last_report(
                source,
                service,
            ) {
                Some(was) => next.announced(service, was.state, state, now).flagged(
                    source,
                    service,
                    was.state,
                    state,
                    known_port(port, was.port),
                ),
                None => next,
            },
            _ => next,
        }
    }
}

pub(crate) fn find_service(services: &Vec<ServiceSnapshot>, name: &str) -> (r: Option<usize>)
    ensures
        match r {
            Some(i) => first_index(views(services@), with_name(name@)) == Some(i as int) && i
                < services@.len(),
            None => first_index(views(services@), with_name(name@)) is None,
        },
{
    let ghost s = views(services@);
    let ghost p = with_name(name@);
    let mut i: usize = 0;
    while i < services.len()
        invariant
            i <= services.len(),
            s == views(services@),
            p == with_name(name@),
            forall|j: int| 0 <= j < i ==> !p(s[j]),
        decreases services.len() - i,
    {
        assert(s[i as int] == services@[i as int]@);
        if crate::text::same(services[i].name.as_str(), name) {
            proof {
                first_index_at(s, p, i as int);
            }
            return Some(i);
        }
        i = i + 1;
    }
    proof {
        first_index_none(s, p);
    }
    None
}

fn find_step(steps: &Vec<StepSnapshot>, name: &str) -> (r: Option<usize>)
    ensures
        match r {
            Some(i) => first_index(views(steps@), step_named(name@)) == Some(i as int) && i
                < steps@.len(),
            None => first_index(views(steps@), step_named(name@)) is None,
        },
{
    let ghost s = views(steps@);
    let ghost p = step_named(name@);
    let mut i: usize = 0;
    while i < steps.len()
        invariant
            i <= steps.len(),
            s == views(steps@),
            p == step_named(name@),
            forall|j: int| 0 <= j < i ==> !p(s[j]),
        decreases steps.len() - i,
    {
        assert(s[i as int] == steps@[i as int]@);
        if crate::text::same(steps[i].name.as_str(), name) {
            proof {
                first_index_at(s, p, i as int);
            }
            return Some(i);
        }
        i = i + 1;
    }
    proof {
        first_index_none(s, p);
    }
    None
}

/// Writes a reported state into the snapshot of a service; gives back the
/// state it had and the port now known.
fn report(services: &mut Vec<ServiceSnapshot>, k: usize, state: &ServiceState, port: Option<u16>)
    -> (r: (ServiceState, Option<u16>))
    requires
        k < old(services)@.len(),
    ensures
        views(final(services)@) == reported(views(old(services)@), k as int, state@, port),
        r.0@ == views(old(services)@)[k as int].state,
        r.1 == known_port(port, views(old(services)@)[k as int].port),
{
    let ghost before = views(services@);
    assert(before[k as int] == services@[k as int]@);
    let old_state = services[k].state.clone();
    let known = match port {
        Some(p) => Some(p),
        None => services[k].port,
    };
    services[k].port = known;
    services[k].state = state.clone();
    assert(views(services@) =~= reported(before, k as int, state@, port));
    (old_state, known)
}

impl Stacks {
    /// Find an instance by id. Returns its index.
    pub(crate) fn find_instance(&self, id: &str) -> (r: Option<usize>)
        ensures
            match r {
                Some(i) => self@.find(id@) == Some(i as int) && i < self@.instances.len(),
                None => self@.find(id@) is None,
            },
    {
        let ghost s = self@.instances;
        let ghost p = with_id(id@);
        let mut i: usize = 0;
        while i < self.instances.len()
            invariant
                i <= self.instances.len(),
                s == views(self.instances@),
                p == with_id(id@),
                forall|j: int| 0 <= j < i ==> !p(s[j]),
            decreases self.instances.len() - i,
        {
            assert(s[i as int] == self.instances@[i as int]@);
            if crate::text::same(self.instances[i].info.id.as_str(), id) {
                proof {
                    first_index_at(s, p, i as int);
                }
                return Some(i);
            }
            i = i + 1;
        }
        proof {
            first_index_none(s, p);
        }
        None
    }

    /// Drops the instance row for `id`, keeping the selection on a valid row.
    pub(crate) fn remove_instance(&mut self, id: &str)
        requires
            old(self)@.wf(),
        ensures
            final(self)@.wf(),
            final(self)@ == old(self)@.without(id@),
    {
        let ghost before = self@;
        match self.find_instance(id) {
            Some(i) => {
                let _gone = self.instances.remove(i);
                assert(views(self.instances@) =~= before.instances.remove(i as int));
                let len: usize = self.instances.len();
                if len == 0 {
                    self.selected_instance = None;
                } else {
                    match self.selected_instance {
                        Some(sel) => {
                            if sel >= len {
                                self.selected_instance = Some(len - 1);
                            }
                        },
                        None => {},
                    }
                }
            },
            None => {},
        }
    }

    /// Ensures a row for `info` and returns its index. A new row becomes the
    /// selected one only if none is selected.
    pub(crate) fn upsert_instance(&mut self, info: InstanceInfo) -> (r: usize)
        requires
            old(self)@.wf(),
        ensures
            final(self)@.wf(),
            final(self)@ == old(self)@.upserted(info@),
            r == old(self)@.row_for(info@.id),
            r < final(self)@.instances.len(),
    {
        let ghost before = self@;
        let ghost iv = info@;
        match self.find_instance(info.id.as_str()) {
            Some(i) => {
                assert(before.instances[i as int] == self.instances@[i as int]@);
                self.instances[i].info = info;
                assert(views(self.instances@) =~= before.upserted(iv).instances);
                i
            },
            None => {
                self.instances.push(InstanceData::new(info));
                assert(views(self.instances@) =~= before.instances.push(InstanceView::fresh(iv)));
                let i: usize = self.instances.len() - 1;
                if self.selected_instance.is_none() {
                    self.selected_instance = Some(i);
                }
                i
            },
        }
    }

    fn apply_subscribed(
        &mut self,
        info: InstanceInfo,
        services: Vec<ServiceSnapshot>,
        steps: Vec<StepSnapshot>,
    )
        requires
            old(self)@.wf(),
        ensures
            final(self)@.wf(),
            final(self)@ == old(self)@.subscribed(info@, views(services@), views(steps@)),
    {
        let ghost before = self@;
        let ghost iv = info@;
        let i: usize = self.upsert_instance(info);
        let ghost up = self@;
        assert(up.instances[i as int] == self.instances@[i as int]@);
        let unset = self.instances[i].selected_service.is_none() && services.len() > 0;
        self.had_live_daemon = true;
        self.instances[i].services = services;
        self.instances[i].steps = steps;
        if unset {
            self.instances[i].selected_service = Some(0);
        }
        let ghost after = before.subscribed(iv, views(services@), views(steps@));
        assert(views(self.instances@) =~= after.instances);
    }

    /// Writes a reported state; gives back the state that the service had and
    /// the port now known.
    fn apply_status(
        &mut self,
        source_id: &str,
        service: &str,
        state: &ServiceState,
        port: Option<u16>,
    ) -> (r: Option<(ServiceState, Option<u16>)>)
        requires
            old(self)@.wf(),
        ensures
            final(self)@.wf(),
            final(self)@ == old(self)@.status_updated(source_id@, service@, state@, port),
            match r {
                Some((was, known)) => old(self)@.last_report(source_id@, service@) matches Some(s)
                    && was@ == s.state && known == known_port(port, s.port),
                None => old(self)@.last_report(source_id@, service@) is None,
            },
    {
        let ghost before = self@;
        if is_shared_id(source_id) {
            match find_service(&self.shared.services, service) {
                Some(k) => Some(report(&mut self.shared.services, k, state, port)),
                None => None,
            }
        } else {
            match self.find_instance(source_id) {
                Some(i) => {
                    assert(before.instances[i as int] == self.instances@[i as int]@);
                    match find_service(&self.instances[i].services, service) {
                        Some(k) => {
                            let r = report(&mut self.instances[i].services, k, state, port);
                            assert(views(self.instances@) =~= before.status_updated(
                                source_id@,
                                service@,
                                state@,
                                port,
                            ).instances);
                            Some(r)
                        },
                        None => None,
                    }
                },
                None => None,
            }
        }
    }

    fn apply_step(&mut self, source_id: &str, step: &str, state: StepState)
        requires
            old(self)@.wf(),
        ensures
            final(self)@.wf(),
            final(self)@ == old(self)@.step_updated(source_id@, step@, state),
    {
        let ghost before = self@;
        match self.find_instance(source_id) {
            Some(i) => {
                let ghost row = before.instances[i as int];
                assert(row == self.instances@[i as int]@);
                match find_step(&self.instances[i].steps, step) {
                    Some(k) => {
                        assert(row.steps[k as int] == self.instances@[i as int].steps@[k as int]@);
                        self.instances[i].steps[k].state = state;
                        assert(views(self.instances@[i as int].steps@) =~= row.steps.update(
                            k as int,
                            StepView { state, ..row.steps[k as int] },
                        ));
                        assert(views(self.instances@) =~= before.step_updated(
                            source_id@,
                            step@,
                            state,
                        ).instances);
                    },
                    None => {},
                }
            },
            None => {},
        }
    }

    fn apply_log(&mut self, source_id: &str, service: &str, bytes: &str)
        requires
            old(self)@.wf(),
        ensures
            final(self)@.wf(),
            final(self)@ == old(self)@.logged(source_id@, service@, bytes@),
    {
        let ghost before = self@;
        if is_shared_id(source_id) {
            self.shared.apply_log_chunk_to(service, bytes);
        } else {
            match self.find_instance(source_id) {
                Some(i) => {
                    assert(before.instances[i as int] == self.instances@[i as int]@);
                    assert(before.instances[i as int].wf());
                    self.instances[i].apply_log_chunk_to(service, bytes);
                    assert(views(self.instances@) =~= before.logged(
                        source_id@,
                        service@,
                        bytes@,
                    ).instances);
                },
                None => {},
            }
        }
    }
}

impl SharedData {
    fn apply_subscribed(&mut self, id: String, services: Vec<ServiceSnapshot>)
        requires
            old(self)@.wf(),
        ensures
            final(self)@.wf(),
            final(self)@ == old(self)@.subscribed(id@, views(services@)),
    {
        if self.selected_service.is_none() && services.len() > 0 {
            self.selected_service = Some(0);
        }
        self.id = Some(id);
        self.services = services;
    }

    /// Absorbs a base64 log chunk for `service`.
    fn apply_log_chunk_to(&mut self, service: &str, bytes: &str)
        requires
            old(self)@.wf(),
        ensures
            final(self)@.wf(),
            final(self)@ == old(self)@.with_chunk(service@, bytes@),
    {
        match decode_payload(bytes) {
            Some(text) => absorb(&mut self.logs, &mut self.log_scroll, service, text.as_str()),
            None => {},
        }
    }
}

impl TuiState {
    /// Absorbs a message tagged with the id of the daemon that sent it.
    /// Messages from the shared daemon go to the shared row, everything else
    /// to the matching instance.
    pub fn apply_from(&mut self, source_id: &str, msg: ServerMessage)
        requires
            old(self).wf(),
        ensures
            final(self).wf(),
            exists|now: Instant|
                final(self)@ == #[trigger] old(self)@.applied(source_id@, msg@, now),
    {
        self.apply_from_at(source_id, msg, Instant::now());
    }

    /// [`apply_from`](Self::apply_from), any toast being raised at `now`.
    pub fn apply_from_at(&mut self, source_id: &str, msg: ServerMessage, now: Instant)
        requires
            old(self).wf(),
        ensures
            final(self).wf(),
            final(self)@ == old(self)@.applied(source_id@, msg@, now),
    {
        if is_shared_id(source_id) {
            self.apply_shared(source_id, msg, now);
            return;
        }
        match msg {
            ServerMessage::Subscribed { services, steps, instance } => {
                self.stacks.apply_subscribed(instance, services, steps);
            },
            ServerMessage::Goodbye { .. } => {
                self.stacks.remove_instance(source_id);
            },
            ServerMessage::StatusUpdate { service, state, port, .. } => {
                self.apply_status(source_id, service.as_str(), &state, port, now);
            },
            ServerMessage::StepStatusUpdate { step, state } => {
                self.stacks.apply_step(source_id, step.as_str(), state);
            },
            ServerMessage::LogChunk { service, bytes, .. } => {
                self.stacks.apply_log(source_id, service.as_str(), bytes.as_str());
            },
            ServerMessage::Other => {},
        }
    }

    fn apply_shared(&mut self, source_id: &str, msg: ServerMessage, now: Instant)
        requires
            old(self).wf(),
            shared_id(source_id@),
        ensures
            final(self).wf(),
            final(self)@ == old(self)@.applied(source_id@, msg@, now),
    {
        match msg {
            ServerMessage::Subscribed { services, instance, .. } => {
                self.stacks.shared.apply_subscribed(instance.id, services);
            },
            ServerMessage::StatusUpdate { service, state, port, .. } => {
                self.apply_status(source_id, service.as_str(), &state, port, now);
            },
            ServerMessage::LogChunk { service, bytes, .. } => {
                self.stacks.apply_log(source_id, service.as_str(), bytes.as_str());
            },
            ServerMessage::Goodbye { .. } => {
                self.stacks.shared = SharedData::default();
            },
            _ => {},
        }
    }

    fn apply_status(
        &mut self,
        source_id: &str,
        service: &str,
        state: &ServiceState,
        port: Option<u16>,
        now: Instant,
    )
        requires
            old(self).wf(),
        ensures
            final(self).wf(),
            forall|pid: Option<u32>, restart_count: u32|
                final(self)@ == #[trigger] old(self)@.applied(
                    source_id@,
                    MessageView::StatusUpdate {
                        service: service@,
                        state: state@,
                        pid,
                        port,
                        restart_count,
                    },
                    now,
                ),
    {
        match self.stacks.apply_status(source_id, service, state, port) {
            Some((was, known)) => {
                self.toast_for_transition(service, &was, state, now);
                self.flag_port_conflict_if_addr_in_use(source_id, service, &was, state, known);
            },
            None => {},
        }
    }

    /// Absorbs a message from a single source: the daemon that the message
    /// introduces, else the selected one.
    pub fn apply(&mut self, msg: ServerMessage)
        requires
            old(self).wf(),
        ensures
            final(self).wf(),
            exists|now: Instant|
                final(self)@ == #[trigger] old(self)@.applied(
                    old(self)@.stacks.presumed_source(msg@),
                    msg@,
                    now,
                ),
    {
        let source: String = match &msg {
            ServerMessage::Subscribed { instance, .. } => instance.id.clone(),
            _ => self.stacks.current_id(),
        };
        assert(source@ == self@.stacks.presumed_source(msg@));
        self.apply_from(source.as_str(), msg);
    }
}

impl Stacks {
    /// The id of the selected instance, empty where none is selected.
    fn current_id(&self) -> (r: String)
        ensures
            r@ == match self@.current() {
                Some(i) => i.info.id,
                None => Seq::empty(),
            },
    {
        match self.selected_instance {
            Some(i) => {
                if i < self.instances.len() {
                    assert(self@.instances[i as int] == self.instances@[i as int]@);
                    self.instances[i].info.id.clone()
                } else {
                    String::new()
                }
            },
            None => String::new(),
        }
    }
}

} // verus!
