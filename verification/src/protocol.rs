//! The data that daemons report and accept: instances, services, setup steps,
//! and the messages that carry them.
use vstd::prelude::*;

use crate::lists::views;
use crate::text::{copy_texts, opt_text, texts};

verus! {

/// Identity of one daemon: a worktree of a repository.
#[derive(Debug, PartialEq, Eq)]
pub struct InstanceInfo {
    pub id: String,
    pub label: String,
    pub cwd: String,
}

#[verifier::ext_equal]
pub ghost struct InfoView {
    pub id: Seq<char>,
    pub label: Seq<char>,
    pub cwd: Seq<char>,
}

impl View for InstanceInfo {
    type V = InfoView;

    open spec fn view(&self) -> InfoView {
        InfoView { id: self.id@, label: self.label@, cwd: self.cwd@ }
    }
}

impl Clone for InstanceInfo {
    fn clone(&self) -> (r: Self)
        ensures
            r@ == self@,
    {
        InstanceInfo { id: self.id.clone(), label: self.label.clone(), cwd: self.cwd.clone() }
    }
}

/// Life-cycle state of a service.
#[derive(Debug, PartialEq, Eq)]
pub enum ServiceState {
    Stopped,
    Starting,
    Running { degraded: bool, started_without: Vec<String> },
    WaitingOnDependency { waiting_on: Vec<String> },
    Restarting { attempt: u32 },
    CrashLoop { restarts: u32 },
    Failed { exit_code: Option<i32> },
    External { healthy: bool },
}

#[verifier::ext_equal]
pub ghost enum StateView {
    Stopped,
    Starting,
    Running { degraded: bool, started_without: Seq<Seq<char>> },
    WaitingOnDependency { waiting_on: Seq<Seq<char>> },
    Restarting { attempt: u32 },
    CrashLoop { restarts: u32 },
    Failed { exit_code: Option<i32> },
    External { healthy: bool },
}

impl View for ServiceState {
    type V = StateView;

    open spec fn view(&self) -> StateView {
        match *self {
            ServiceState::Stopped => StateView::Stopped,
            ServiceState::Starting => StateView::Starting,
            ServiceState::Running { degraded, started_without } => StateView::Running {
                degraded,
                started_without: texts(started_without@),
            },
            ServiceState::WaitingOnDependency { waiting_on } => StateView::WaitingOnDependency {
                waiting_on: texts(waiting_on@),
            },
            ServiceState::Restarting { attempt } => StateView::Restarting { attempt },
            ServiceState::CrashLoop { restarts } => StateView::CrashLoop { restarts },
            ServiceState::Failed { exit_code } => StateView::Failed { exit_code },
            ServiceState::External { healthy } => StateView::External { healthy },
        }
    }
}

impl Clone for ServiceState {
    fn clone(&self) -> (r: Self)
        ensures
            r@ == self@,
    {
        match self {
            ServiceState::Stopped => ServiceState::Stopped,
            ServiceState::Starting => ServiceState::Starting,
            ServiceState::Running { degraded, started_without } => ServiceState::Running {
                degraded: *degraded,
                started_without: copy_texts(started_without),
            },
            ServiceState::WaitingOnDependency { waiting_on } => ServiceState::WaitingOnDependency {
                waiting_on: copy_texts(waiting_on),
            },
            ServiceState::Restarting { attempt } => ServiceState::Restarting { attempt: *attempt },
            ServiceState::CrashLoop { restarts } => ServiceState::CrashLoop { restarts: *restarts },
            ServiceState::Failed { exit_code } => ServiceState::Failed { exit_code: *exit_code },
            ServiceState::External { healthy } => ServiceState::External { healthy: *healthy },
        }
    }
}

impl StateView {
    /// The service crashed, once or over and over.
    pub open spec fn broken(self) -> bool {
        self is Failed || self is CrashLoop
    }

    /// The service counts as up: running (degraded or not), or an external
    /// dependency that answers.
    pub open spec fn up(self) -> bool {
        self is Running || self == (StateView::External { healthy: true })
    }

    /// The service is on its way up, so its glyph is animated.
    pub open spec fn animated(self) -> bool {
        self is Starting || self is Restarting
    }
}

impl ServiceState {
    pub fn is_broken(&self) -> (r: bool)
        ensures
            r == self@.broken(),
    {
        matches!(self, ServiceState::Failed { .. } | ServiceState::CrashLoop { .. })
    }

    pub fn is_up(&self) -> (r: bool)
        ensures
            r == self@.up(),
    {
        matches!(self, ServiceState::Running { .. } | ServiceState::External { healthy: true })
    }

    pub fn is_animated(&self) -> (r: bool)
        ensures
            r == self@.animated(),
    {
        matches!(self, ServiceState::Starting | ServiceState::Restarting { .. })
    }
}

/// What a daemon reports of one service.
#[derive(Debug, PartialEq, Eq)]
pub struct ServiceSnapshot {
    pub name: String,
    pub state: ServiceState,
    pub pid: Option<u32>,
    pub port: Option<u16>,
    pub url: Option<String>,
    pub restart_count: u32,
}

#[verifier::ext_equal]
pub ghost struct ServiceView {
    pub name: Seq<char>,
    pub state: StateView,
    pub pid: Option<u32>,
    pub port: Option<u16>,
    pub url: Option<Seq<char>>,
    pub restart_count: u32,
}

impl View for ServiceSnapshot {
    type V = ServiceView;

    open spec fn view(&self) -> ServiceView {
        ServiceView {
            name: self.name@,
            state: self.state@,
            pid: self.pid,
            port: self.port,
            url: opt_text(self.url),
            restart_count: self.restart_count,
        }
    }
}

impl Clone for ServiceSnapshot {
    fn clone(&self) -> (r: Self)
        ensures
            r@ == self@,
    {
        ServiceSnapshot {
            name: self.name.clone(),
            state: self.state.clone(),
            pid: self.pid,
            port: self.port,
            url: match &self.url {
                Some(u) => Some(u.clone()),
                None => None,
            },
            restart_count: self.restart_count,
        }
    }
}

/// Copies a list of snapshots.
pub fn copy_services(v: &Vec<ServiceSnapshot>) -> (r: Vec<ServiceSnapshot>)
    ensures
        views(r@) == views(v@),
{
    let mut r: Vec<ServiceSnapshot> = Vec::new();
    let mut i: usize = 0;
    while i < v.len()
        invariant
            i <= v.len(),
            views(r@) == views(v@).take(i as int),
        decreases v.len() - i,
    {
        let ghost before = views(r@);
        let one = v[i].clone();
        r.push(one);
        i = i + 1;
        assert(views(r@) =~= before.push(one@));
        assert(views(v@).take(i as int) =~= before.push(one@));
    }
    assert(views(v@).take(i as int) =~= views(v@));
    r
}

/// Outcome of a dependency check.
#[derive(Debug, Clone, Copy, PartialEq, Eq, Structural)]
pub enum StepState {
    Unknown,
    Passed,
    Failed,
    ProvisionFailed,
    SkippedThisRun,
    Overridden,
}

/// What a daemon reports of one dependency check.
#[derive(Debug, PartialEq, Eq)]
pub struct StepSnapshot {
    pub name: String,
    pub state: StepState,
}

#[verifier::ext_equal]
pub ghost struct StepView {
    pub name: Seq<char>,
    pub state: StepState,
}

impl View for StepSnapshot {
    type V = StepView;

    open spec fn view(&self) -> StepView {
        StepView { name: self.name@, state: self.state }
    }
}

impl Clone for StepSnapshot {
    fn clone(&self) -> (r: Self)
        ensures
            r@ == self@,
    {
        StepSnapshot { name: self.name.clone(), state: self.state }
    }
}

/// What a daemon sends. A message of any other kind is `Other`.
#[allow(inconsistent_fields)]
#[derive(Debug, PartialEq, Eq)]
pub enum ServerMessage {
    Subscribed { instance: InstanceInfo, services: Vec<ServiceSnapshot>, steps: Vec<StepSnapshot> },
    Goodbye { reason: String },
    StatusUpdate {
        service: String,
        state: ServiceState,
        pid: Option<u32>,
        port: Option<u16>,
        restart_count: u32,
    },
    StepStatusUpdate { step: String, state: StepState },
    LogChunk { service: String, bytes: String, ts: u64 },
    Other,
}

#[allow(inconsistent_fields)]
#[verifier::ext_equal]
pub ghost enum MessageView {
    Subscribed { instance: InfoView, services: Seq<ServiceView>, steps: Seq<StepView> },
    Goodbye { reason: Seq<char> },
    StatusUpdate {
        service: Seq<char>,
        state: StateView,
        pid: Option<u32>,
        port: Option<u16>,
        restart_count: u32,
    },
    StepStatusUpdate { step: Seq<char>, state: StepState },
    LogChunk { service: Seq<char>, bytes: Seq<char>, ts: u64 },
    Other,
}

impl View for ServerMessage {
    type V = MessageView;

    open spec fn view(&self) -> MessageView {
        match *self {
            ServerMessage::Subscribed { instance, services, steps } => MessageView::Subscribed {
                instance: instance@,
                services: views(services@),
                steps: views(steps@),
            },
            ServerMessage::Goodbye { reason } => MessageView::Goodbye { reason: reason@ },
            ServerMessage::StatusUpdate { service, state, pid, port, restart_count } =>
                MessageView::StatusUpdate {
                service: service@,
                state: state@,
                pid,
                port,
                restart_count,
            },
            ServerMessage::StepStatusUpdate { step, state } => MessageView::StepStatusUpdate {
                step: step@,
                state,
            },
            ServerMessage::LogChunk { service, bytes, ts } => MessageView::LogChunk {
                service: service@,
                bytes: bytes@,
                ts,
            },
            ServerMessage::Other => MessageView::Other,
        }
    }
}

/// What the dashboard sends to a daemon.
#[derive(Debug, PartialEq, Eq)]
pub enum ClientMessage {
    Subscribe { services: Vec<String> },
    Start { service: String, skip_deps: bool },
    StartTargets { services: Vec<String> },
    Stop { service: String },
    Restart { service: String },
    Shutdown,
}

#[allow(inconsistent_fields)]
#[verifier::ext_equal]
pub ghost enum ClientView {
    Subscribe { services: Seq<Seq<char>> },
    Start { service: Seq<char>, skip_deps: bool },
    StartTargets { services: Seq<Seq<char>> },
    Stop { service: Seq<char> },
    Restart { service: Seq<char> },
    Shutdown,
}

impl View for ClientMessage {
    type V = ClientView;

    open spec fn view(&self) -> ClientView {
        match *self {
            ClientMessage::Subscribe { services } => ClientView::Subscribe {
                services: texts(services@),
            },
            ClientMessage::Start { service, skip_deps } => ClientView::Start {
                service: service@,
                skip_deps,
            },
            ClientMessage::StartTargets { services } => ClientView::StartTargets {
                services: texts(services@),
            },
            ClientMessage::Stop { service } => ClientView::Stop { service: service@ },
            ClientMessage::Restart { service } => ClientView::Restart { service: service@ },
            ClientMessage::Shutdown => ClientView::Shutdown,
        }
    }
}

/// Who holds a port that a service wants.
#[derive(Debug, PartialEq, Eq)]
pub enum Holder {
    Container { name: String, project: Option<String> },
    Process(Vec<(u32, Option<String>)>),
    Unknown,
}

} // verus!
