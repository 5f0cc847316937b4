//! The dashboard's state. Pure data: absorb what daemons report, expose what
//! the renderer draws, turn navigation into selection and scroll updates.
//!
//! The state holds one entry per daemon. Accessors return the data of the
//! selected one, so that drawing can treat the dashboard as if it had a single
//! stack.
use std::collections::VecDeque;
use std::time::Instant;

use vstd::prelude::*;

use crate::config::GlobalConfig;
use crate::lists::{opt_view, views, Table};
use crate::protocol::{
    InfoView, InstanceInfo, ServiceSnapshot, ServiceView, StepSnapshot, StepView,
};
use crate::text::{opt_text, texts};
use crate::theme::{mocha_palette, Palette};

pub mod chrome;
pub mod conflict;
pub mod double;
pub mod hits;
pub mod ingest;
pub mod laws;
pub mod logs;
pub mod nav;
pub mod scroll;
pub mod settings;
pub mod skill;
pub mod tabs;
pub mod toasts;

verus! {

/// How many log lines are kept per service. The daemon's ring is the source of
/// truth; the dashboard keeps a smaller working buffer.
pub const LOG_CAP: usize = 1000;

/// How long a toast stays on screen, in seconds.
pub const TOAST_TTL: u64 = 5;

/// How many toasts are visible at once.
pub const MAX_TOASTS: usize = 4;

/// How many notifications the history keeps.
pub const MAX_NOTIF_HISTORY: usize = 200;

/// Default sidebar width in columns.
pub const DEFAULT_SIDEBAR_WIDTH: u16 = 28;

/// Narrowest the sidebar may be dragged.
pub const MIN_SIDEBAR_WIDTH: u16 = 16;

/// Columns the main pane must keep.
pub const MIN_MAIN_WIDTH: u16 = 24;

/// How many settings the overlay shows.
pub const SETTING_COUNT: usize = 7;

/// Which top-level focus the user has. Drives keybinding behavior.
#[derive(Debug, Clone, Copy, PartialEq, Eq, Structural)]
pub enum Focus {
    /// Sidebar: choosing among worktrees.
    Sidebar,
    /// Top tabs: choosing among services within the current worktree.
    Tabs,
    /// Main viewport: the log pane scrolls.
    Viewport,
}

/// The buffered log lines of one service, oldest first.
pub struct LogBuffer {
    lines: VecDeque<String>,
}

impl View for LogBuffer {
    type V = Seq<Seq<char>>;

    closed spec fn view(&self) -> Seq<Seq<char>> {
        texts(self.lines@)
    }
}

/// Buffered lines per service.
pub type LogsView = Map<Seq<char>, Seq<Seq<char>>>;

/// Lines scrolled back from the tail, per service.
pub type ScrollView = Map<Seq<char>, usize>;

/// One daemon's worth of state.
pub struct InstanceData {
    pub info: InstanceInfo,
    pub services: Vec<ServiceSnapshot>,
    pub steps: Vec<StepSnapshot>,
    pub selected_service: Option<usize>,
    pub logs: Table<LogBuffer>,
    /// How many lines from the bottom we're scrolled back, per service. No
    /// entry means pinned to the tail; an entry freezes the viewport so that
    /// new lines accumulate behind it.
    pub log_scroll: Table<usize>,
    /// Commits this worktree's branch is ahead/behind its upstream.
    pub git_ahead_behind: Option<(usize, usize)>,
}

pub ghost struct InstanceView {
    pub info: InfoView,
    pub services: Seq<ServiceView>,
    pub steps: Seq<StepView>,
    pub selected_service: Option<usize>,
    pub logs: LogsView,
    pub log_scroll: ScrollView,
    pub git_ahead_behind: Option<(usize, usize)>,
}

impl View for InstanceData {
    type V = InstanceView;

    open spec fn view(&self) -> InstanceView {
        InstanceView {
            info: self.info@,
            services: views(self.services@),
            steps: views(self.steps@),
            selected_service: self.selected_service,
            logs: self.logs@,
            log_scroll: self.log_scroll@,
            git_ahead_behind: self.git_ahead_behind,
        }
    }
}

impl InstanceView {
    /// An instance of which nothing is known but its identity.
    pub open spec fn fresh(info: InfoView) -> InstanceView {
        InstanceView {
            info,
            services: Seq::empty(),
            steps: Seq::empty(),
            selected_service: None,
            logs: Map::empty(),
            log_scroll: Map::empty(),
            git_ahead_behind: None,
        }
    }

    /// No daemon has reported for this worktree.
    pub open spec fn vacant(self) -> bool {
        self.services.len() == 0 && self.steps.len() == 0
    }
}

impl InstanceData {
    pub(crate) fn new(info: InstanceInfo) -> (r: Self)
        ensures
            r@ == InstanceView::fresh(info@),
    {
        let r = InstanceData {
            info,
            services: Vec::new(),
            steps: Vec::new(),
            selected_service: None,
            logs: Table::new(),
            log_scroll: Table::new(),
            git_ahead_behind: None,
        };
        assert(views(r.services@) =~= Seq::empty());
        assert(views(r.steps@) =~= Seq::empty());
        r
    }
}

#[derive(Debug, Clone, Copy, PartialEq, Eq, Structural)]
pub enum ToastKind {
    /// A service failed or entered a crash loop.
    Failed,
    /// A service became healthy.
    Ready,
    /// Neutral information.
    Info,
}

/// A transient corner notification. Expires after [`TOAST_TTL`] seconds.
pub struct Toast {
    pub kind: ToastKind,
    pub title: String,
    pub body: String,
    born: Instant,
}

#[verifier::ext_equal]
pub ghost struct ToastView {
    pub kind: ToastKind,
    pub title: Seq<char>,
    pub body: Seq<char>,
    pub born: Instant,
}

impl View for Toast {
    type V = ToastView;

    closed spec fn view(&self) -> ToastView {
        ToastView { kind: self.kind, title: self.title@, body: self.body@, born: self.born }
    }
}

/// What the repo-scoped shared daemon reported. Shown as a sidebar row of its
/// own.
pub struct SharedData {
    /// Instance id of the shared daemon (such as `shared::<repo_id>`).
    id: Option<String>,
    services: Vec<ServiceSnapshot>,
    logs: Table<LogBuffer>,
    log_scroll: Table<usize>,
    selected_service: Option<usize>,
}

pub ghost struct SharedView {
    pub id: Option<Seq<char>>,
    pub services: Seq<ServiceView>,
    pub logs: LogsView,
    pub log_scroll: ScrollView,
    pub selected_service: Option<usize>,
}

impl View for SharedData {
    type V = SharedView;

    closed spec fn view(&self) -> SharedView {
        SharedView {
            id: opt_text(self.id),
            services: views(self.services@),
            logs: self.logs@,
            log_scroll: self.log_scroll@,
            selected_service: self.selected_service,
        }
    }
}

impl SharedView {
    /// No shared daemon is attached.
    pub open spec fn absent() -> SharedView {
        SharedView {
            id: None,
            services: Seq::empty(),
            logs: Map::empty(),
            log_scroll: Map::empty(),
            selected_service: None,
        }
    }
}

impl Default for SharedData {
    fn default() -> (r: Self)
        ensures
            r@ == SharedView::absent(),
    {
        let r = SharedData {
            id: None,
            services: Vec::new(),
            logs: Table::new(),
            log_scroll: Table::new(),
            selected_service: None,
        };
        assert(views(r.services@) =~= Seq::empty());
        r
    }
}

/// Which group a main-pane tab belongs to.
#[derive(Debug, Clone, Copy, PartialEq, Eq, Structural)]
pub enum TabKind {
    /// One of the worktree's own services.
    Owned,
    /// A repo-scoped shared service (access-only on a stack).
    Shared,
    /// Leading tab shown when the worktree owns no services; selecting it
    /// explains why.
    Placeholder,
}

/// One entry in the main-pane tab row.
pub struct TabEntry {
    /// A service's name, or a short status for the placeholder.
    pub label: String,
    pub kind: TabKind,
    /// Backing service snapshot; `None` for the placeholder tab.
    pub snapshot: Option<ServiceSnapshot>,
}

#[verifier::ext_equal]
pub ghost struct TabView {
    pub label: Seq<char>,
    pub kind: TabKind,
    pub snapshot: Option<ServiceView>,
}

impl View for TabEntry {
    type V = TabView;

    open spec fn view(&self) -> TabView {
        TabView { label: self.label@, kind: self.kind, snapshot: opt_view(self.snapshot) }
    }
}

impl TabEntry {
    pub fn is_shared(&self) -> (r: bool)
        ensures
            r == (self.kind == TabKind::Shared),
    {
        matches!(self.kind, TabKind::Shared)
    }

    pub fn is_placeholder(&self) -> (r: bool)
        ensures
            r == (self.kind == TabKind::Placeholder),
    {
        matches!(self.kind, TabKind::Placeholder)
    }
}

/// Aggregate health of a stack, summarised into a single sidebar dot: any
/// failure dominates, then a mix, then all-up, then idle, then "no daemon yet".
#[derive(Debug, Clone, Copy, PartialEq, Eq, Structural)]
pub enum StackHealth {
    /// Discovered worktree with no daemon bound yet (no services).
    Placeholder,
    /// Every service is up and healthy.
    AllRunning,
    /// Some services up, some not.
    SomeRunning,
    /// Services exist but none are running.
    Idle,
    /// At least one service has failed or is crash-looping.
    Failed,
}

/// What a stack's secondary sidebar line shows for its service counts.
#[derive(Debug, Clone, Copy, PartialEq, Eq, Structural)]
pub enum StackSummary {
    /// No daemon has reported for this worktree yet.
    NoDaemon,
    /// The daemon is up but the worktree owns no services of its own.
    SharedOnly,
    /// `up`/`total` of the worktree's own services.
    Counted { up: usize, total: usize },
}

/// Live state of the settings overlay: which row is focused and the current
/// value of each setting.
#[derive(Debug, PartialEq, Eq)]
pub struct SettingsState {
    pub cursor: usize,
    pub values: Vec<String>,
}

#[verifier::ext_equal]
pub ghost struct SettingsView {
    pub cursor: usize,
    pub values: Seq<Seq<char>>,
}

impl View for SettingsState {
    type V = SettingsView;

    open spec fn view(&self) -> SettingsView {
        SettingsView { cursor: self.cursor, values: texts(self.values@) }
    }
}

/// Which flavour of skill prompt the startup modal is showing.
#[derive(Debug, Clone, Copy, PartialEq, Eq, Structural)]
pub enum SkillPrompt {
    /// No devme-managed skill is installed yet: offer to install it.
    Install,
    /// A devme-managed install is out of date: offer to refresh it.
    Update,
}

/// A pending skill prompt, shown as a modal when the dashboard starts.
#[derive(Debug, PartialEq, Eq)]
pub struct SkillDialog {
    pub kind: SkillPrompt,
    /// Versions for an update (`from` to `to`). Empty for an install.
    pub from: String,
    pub to: String,
    /// How many devme-managed installs are stale.
    pub count: usize,
}

#[verifier::ext_equal]
pub ghost struct SkillView {
    pub kind: SkillPrompt,
    pub from: Seq<char>,
    pub to: Seq<char>,
    pub count: usize,
}

impl View for SkillDialog {
    type V = SkillView;

    open spec fn view(&self) -> SkillView {
        SkillView { kind: self.kind, from: self.from@, to: self.to@, count: self.count }
    }
}

/// What the user can do about a port conflict.
#[derive(Debug, PartialEq, Eq)]
pub enum PortConflictAction {
    /// `docker stop <name>`: graceful, restartable.
    StopContainer(String),
    /// `docker compose -p <project> down`: tear down the whole project.
    ComposeDown(String),
    /// `kill <pids>`: SIGTERM the listening host processes.
    KillProcess(Vec<u32>),
    /// Leave it; just close the modal.
    Skip,
}

#[verifier::ext_equal]
pub ghost enum ActionView {
    StopContainer(Seq<char>),
    ComposeDown(Seq<char>),
    KillProcess(Seq<u32>),
    Skip,
}

impl View for PortConflictAction {
    type V = ActionView;

    open spec fn view(&self) -> ActionView {
        match *self {
            PortConflictAction::StopContainer(name) => ActionView::StopContainer(name@),
            PortConflictAction::ComposeDown(project) => ActionView::ComposeDown(project@),
            PortConflictAction::KillProcess(pids) => ActionView::KillProcess(pids@),
            PortConflictAction::Skip => ActionView::Skip,
        }
    }
}

/// One selectable remediation row in the port-conflict modal.
#[derive(Debug, PartialEq, Eq)]
pub struct PortConflictOption {
    pub label: String,
    pub action: PortConflictAction,
}

#[verifier::ext_equal]
pub ghost struct OptionView {
    pub label: Seq<char>,
    pub action: ActionView,
}

impl View for PortConflictOption {
    type V = OptionView;

    open spec fn view(&self) -> OptionView {
        OptionView { label: self.label@, action: self.action@ }
    }
}

/// A port-conflict modal: a running service crashed on `address already in
/// use`.
#[derive(Debug, PartialEq, Eq)]
pub struct PortConflictDialog {
    /// The daemon that reported the crash, where a restart is sent.
    pub instance_id: String,
    /// The crashing service.
    pub service: String,
    /// The port it couldn't bind.
    pub port: u16,
    /// One-line description of who's holding the port.
    pub holder_desc: String,
    /// Remediation rows; "Skip" is always last.
    pub options: Vec<PortConflictOption>,
    /// Currently highlighted row.
    pub selected: usize,
}

#[verifier::ext_equal]
pub ghost struct ConflictView {
    pub instance_id: Seq<char>,
    pub service: Seq<char>,
    pub port: u16,
    pub holder_desc: Seq<char>,
    pub options: Seq<OptionView>,
    pub selected: usize,
}

impl View for PortConflictDialog {
    type V = ConflictView;

    open spec fn view(&self) -> ConflictView {
        ConflictView {
            instance_id: self.instance_id@,
            service: self.service@,
            port: self.port,
            holder_desc: self.holder_desc@,
            options: views(self.options@),
            selected: self.selected,
        }
    }
}

impl ConflictView {
    /// The highlighted row exists, and the last row is to leave things alone.
    pub open spec fn wf(self) -> bool {
        &&& 1 <= self.options.len() <= 3
        &&& self.selected < self.options.len()
        &&& self.options.last().action is Skip
    }
}

/// A clickable element that the renderer records each frame. Coordinates are
/// screen cells.
#[derive(Debug, Clone, Copy, PartialEq, Eq, Structural)]
pub enum ClickTarget {
    /// Select the stack at this index in the sidebar.
    Stack(usize),
    /// Select the "shared" sidebar row.
    Shared,
    /// Select the service tab at this index.
    Tab(usize),
    /// Copy the notification at this display index (newest first).
    Notif(usize),
    /// Page the tab row backward.
    TabScrollLeft,
    /// Page the tab row forward.
    TabScrollRight,
}

/// A recorded clickable region: a screen rectangle and what clicking it does.
#[derive(Debug, Clone, Copy, PartialEq, Eq, Structural)]
pub struct ClickRegion {
    pub x: u16,
    pub y: u16,
    pub w: u16,
    pub h: u16,
    pub target: ClickTarget,
}

/// Geometry of the log scrollbar's track: one column at `x`, rows
/// `[y, y + h)`.
#[derive(Debug, Clone, Copy, PartialEq, Eq, Structural)]
pub struct ScrollbarHit {
    pub x: u16,
    pub y: u16,
    pub h: u16,
    /// Total log lines (the track represents the whole buffer).
    pub content_len: usize,
    /// Visible rows (the thumb's span).
    pub viewport: usize,
}

/// Geometry of the sidebar/main divider: one column at `x`, rows `[y, y + h)`,
/// in a frame `total_width` wide.
#[derive(Debug, Clone, Copy, PartialEq, Eq, Structural)]
pub struct SidebarDivider {
    pub x: u16,
    pub y: u16,
    pub h: u16,
    pub total_width: u16,
}

/// What the daemons reported and which part of it is selected.
pub struct Stacks {
    instances: Vec<InstanceData>,
    selected_instance: Option<usize>,
    shared: SharedData,
    /// When true, the sidebar focus is on the "shared" row and the main pane
    /// shows repo-scoped services.
    shared_selected: bool,
    /// True once at least one instance daemon has attached.
    had_live_daemon: bool,
    /// What a service without a log buffer is shown as.
    no_log: LogBuffer,
}

pub ghost struct StacksView {
    pub instances: Seq<InstanceView>,
    pub selected_instance: Option<usize>,
    pub shared: SharedView,
    pub shared_selected: bool,
    pub had_live_daemon: bool,
    pub no_log: Seq<Seq<char>>,
}

impl View for Stacks {
    type V = StacksView;

    closed spec fn view(&self) -> StacksView {
        StacksView {
            instances: views(self.instances@),
            selected_instance: self.selected_instance,
            shared: self.shared@,
            shared_selected: self.shared_selected,
            had_live_daemon: self.had_live_daemon,
            no_log: self.no_log@,
        }
    }
}

/// Every buffer is within the cap.
pub open spec fn capped(logs: LogsView) -> bool {
    forall|k: Seq<char>| #[trigger] logs.dom().contains(k) ==> logs[k].len() <= LOG_CAP
}

/// No offset is stored for a service that follows its tail.
pub open spec fn offsets_positive(scroll: ScrollView) -> bool {
    forall|k: Seq<char>| #[trigger] scroll.dom().contains(k) ==> scroll[k] > 0
}

impl InstanceView {
    pub open spec fn wf(self) -> bool {
        capped(self.logs) && offsets_positive(self.log_scroll)
    }
}

impl SharedView {
    pub open spec fn wf(self) -> bool {
        capped(self.logs) && offsets_positive(self.log_scroll)
    }
}

impl StacksView {
    pub open spec fn initial() -> StacksView {
        StacksView {
            instances: Seq::empty(),
            selected_instance: None,
            shared: SharedView::absent(),
            shared_selected: false,
            had_live_daemon: false,
            no_log: Seq::empty(),
        }
    }

    /// No buffer is over the cap, no stored offset is zero.
    pub open spec fn wf(self) -> bool {
        &&& forall|i: int| 0 <= i < self.instances.len() ==> (#[trigger] self.instances[i]).wf()
        &&& self.shared.wf()
        &&& self.no_log.len() == 0
    }
}

/// Corner toasts and the history behind them.
pub struct Notices {
    /// Live corner notifications, newest last.
    toasts: Vec<Toast>,
    /// Every recorded notification of the session, newest last.
    history: Vec<Toast>,
    /// The notifications modal is open.
    visible: bool,
    /// Selected row in the notifications modal (0 = newest).
    cursor: usize,
}

pub ghost struct NoticesView {
    pub toasts: Seq<ToastView>,
    pub history: Seq<ToastView>,
    pub visible: bool,
    pub cursor: usize,
}

impl View for Notices {
    type V = NoticesView;

    closed spec fn view(&self) -> NoticesView {
        NoticesView {
            toasts: views(self.toasts@),
            history: views(self.history@),
            visible: self.visible,
            cursor: self.cursor,
        }
    }
}

impl NoticesView {
    pub open spec fn initial() -> NoticesView {
        NoticesView { toasts: Seq::empty(), history: Seq::empty(), visible: false, cursor: 0 }
    }

    /// Neither list is over its cap.
    pub open spec fn wf(self) -> bool {
        self.toasts.len() <= MAX_TOASTS && self.history.len() <= MAX_NOTIF_HISTORY
    }
}

/// Overlays that take the keyboard.
pub struct Modals {
    help_visible: bool,
    skill_dialog: Option<SkillDialog>,
    /// A "really quit?" confirmation is up.
    quit_confirm: bool,
    settings: Option<SettingsState>,
    /// A port-conflict crash awaiting identification of the holder:
    /// instance id, service, port.
    pending_port_conflict: Option<(String, String, u16)>,
    port_conflict: Option<PortConflictDialog>,
}

pub ghost struct ModalsView {
    pub help_visible: bool,
    pub skill_dialog: Option<SkillView>,
    pub quit_confirm: bool,
    pub settings: Option<SettingsView>,
    pub pending_port_conflict: Option<(Seq<char>, Seq<char>, u16)>,
    pub port_conflict: Option<ConflictView>,
}

/// The characters of a queued port-conflict probe.
pub open spec fn pending_view(p: Option<(String, String, u16)>) -> Option<
    (Seq<char>, Seq<char>, u16),
> {
    match p {
        Some((id, service, port)) => Some((id@, service@, port)),
        None => None,
    }
}

impl View for Modals {
    type V = ModalsView;

    closed spec fn view(&self) -> ModalsView {
        ModalsView {
            help_visible: self.help_visible,
            skill_dialog: opt_view(self.skill_dialog),
            quit_confirm: self.quit_confirm,
            settings: opt_view(self.settings),
            pending_port_conflict: pending_view(self.pending_port_conflict),
            port_conflict: opt_view(self.port_conflict),
        }
    }
}

impl ModalsView {
    /// No overlay is up and none is pending.
    pub open spec fn closed_all() -> ModalsView {
        ModalsView {
            help_visible: false,
            skill_dialog: None,
            quit_confirm: false,
            settings: None,
            pending_port_conflict: None,
            port_conflict: None,
        }
    }

    /// The settings overlay shows every setting with the cursor on one of
    /// them; the port-conflict modal highlights one of its rows.
    pub open spec fn wf(self) -> bool {
        &&& self.settings matches Some(s) ==> s.cursor < SETTING_COUNT && s.values.len()
            == SETTING_COUNT
        &&& self.port_conflict matches Some(d) ==> d.wf()
    }
}

/// How the screen is divided.
#[derive(Clone, Copy)]
pub struct Layout {
    /// Last-known log viewport height, in rows.
    pub viewport_height: usize,
    /// Full-screen log view for native text selection.
    pub copy_mode: bool,
    /// The selected service's logs fill the screen.
    pub zoom: bool,
    /// Index of the first stack row painted in the sidebar.
    pub sidebar_scroll: usize,
    pub sidebar_collapsed: bool,
    pub sidebar_width: u16,
}

impl Layout {
    pub open spec fn initial() -> Layout {
        Layout {
            viewport_height: 20,
            copy_mode: false,
            zoom: false,
            sidebar_scroll: 0,
            sidebar_collapsed: false,
            sidebar_width: DEFAULT_SIDEBAR_WIDTH,
        }
    }

    /// The log viewport has a row, and the sidebar its least width.
    pub open spec fn wf(self) -> bool {
        self.viewport_height >= 1 && self.sidebar_width >= MIN_SIDEBAR_WIDTH
    }
}

/// What the renderer recorded for the mouse this frame, and the drags that
/// are under way.
pub struct Hits {
    click_regions: Vec<ClickRegion>,
    scrollbar_hit: Option<ScrollbarHit>,
    scrollbar_dragging: bool,
    sidebar_divider: Option<SidebarDivider>,
    sidebar_dragging: bool,
}

pub ghost struct HitsView {
    pub click_regions: Seq<ClickRegion>,
    pub scrollbar_hit: Option<ScrollbarHit>,
    pub scrollbar_dragging: bool,
    pub sidebar_divider: Option<SidebarDivider>,
    pub sidebar_dragging: bool,
}

impl View for Hits {
    type V = HitsView;

    closed spec fn view(&self) -> HitsView {
        HitsView {
            click_regions: self.click_regions@,
            scrollbar_hit: self.scrollbar_hit,
            scrollbar_dragging: self.scrollbar_dragging,
            sidebar_divider: self.sidebar_divider,
            sidebar_dragging: self.sidebar_dragging,
        }
    }
}

impl HitsView {
    pub open spec fn initial() -> HitsView {
        HitsView {
            click_regions: Seq::empty(),
            scrollbar_hit: None,
            scrollbar_dragging: false,
            sidebar_divider: None,
            sidebar_dragging: false,
        }
    }
}

/// Configuration and what holds of the session as a whole.
pub struct Session {
    focus: Focus,
    /// Whether the skill install hint may show in the footer.
    skill_hint_eligible: bool,
    /// When the dashboard started, to time hint rotation.
    started_at: Instant,
    palette: Palette,
    /// Animation counter, bumped each tick.
    spinner_tick: u64,
    config: GlobalConfig,
    /// Every daemon went away, and the dashboard waits for the next one.
    stopped: bool,
    /// Friendly repo label shown while stopped.
    stopped_repo: Option<String>,
}

pub ghost struct SessionView {
    pub focus: Focus,
    pub skill_hint_eligible: bool,
    pub started_at: Instant,
    pub palette: Palette,
    pub spinner_tick: u64,
    pub config: Map<Seq<char>, Seq<char>>,
    pub stopped: bool,
    pub stopped_repo: Option<Seq<char>>,
}

impl View for Session {
    type V = SessionView;

    closed spec fn view(&self) -> SessionView {
        SessionView {
            focus: self.focus,
            skill_hint_eligible: self.skill_hint_eligible,
            started_at: self.started_at,
            palette: self.palette,
            spinner_tick: self.spinner_tick,
            config: self.config@,
            stopped: self.stopped,
            stopped_repo: opt_text(self.stopped_repo),
        }
    }
}

impl SessionView {
    pub open spec fn initial(eligible: bool, now: Instant) -> SessionView {
        SessionView {
            focus: Focus::Tabs,
            skill_hint_eligible: eligible,
            started_at: now,
            palette: mocha_palette(),
            spinner_tick: 0,
            config: Map::empty(),
            stopped: false,
            stopped_repo: None,
        }
    }
}

/// The whole dashboard.
pub struct TuiState {
    stacks: Stacks,
    notices: Notices,
    modals: Modals,
    layout: Layout,
    hits: Hits,
    session: Session,
}

pub ghost struct TuiView {
    pub stacks: StacksView,
    pub notices: NoticesView,
    pub modals: ModalsView,
    pub layout: Layout,
    pub hits: HitsView,
    pub session: SessionView,
}

impl View for TuiState {
    type V = TuiView;

    closed spec fn view(&self) -> TuiView {
        TuiView {
            stacks: self.stacks@,
            notices: self.notices@,
            modals: self.modals@,
            layout: self.layout,
            hits: self.hits@,
            session: self.session@,
        }
    }
}

impl TuiView {
    /// The state at startup, before any daemon has reported.
    pub open spec fn initial(eligible: bool, now: Instant) -> TuiView {
        TuiView {
            stacks: StacksView::initial(),
            notices: NoticesView::initial(),
            modals: ModalsView::closed_all(),
            layout: Layout::initial(),
            hits: HitsView::initial(),
            session: SessionView::initial(eligible, now),
        }
    }

    /// What every operation keeps.
    pub open spec fn wf(self) -> bool {
        &&& self.stacks.wf()
        &&& self.notices.wf()
        &&& self.modals.wf()
        &&& self.layout.wf()
    }
}

impl TuiState {
    /// A valid dashboard state.
    pub open spec fn wf(&self) -> bool {
        self@.wf()
    }

    /// The state at startup. `eligible` says whether the skill install hint
    /// may show.
    pub fn new(eligible: bool) -> (r: Self)
        ensures
            r.wf(),
            exists|now: Instant| r@ == #[trigger] TuiView::initial(eligible, now),
    {
        let now = Instant::now();
        let stacks = Stacks {
            instances: Vec::new(),
            selected_instance: None,
            shared: SharedData::default(),
            shared_selected: false,
            had_live_daemon: false,
            no_log: LogBuffer { lines: VecDeque::new() },
        };
        assert(views(stacks.instances@) =~= Seq::empty());
        assert(stacks.no_log@ =~= Seq::empty());
        let notices = Notices {
            toasts: Vec::new(),
            history: Vec::new(),
            visible: false,
            cursor: 0,
        };
        assert(views(notices.toasts@) =~= Seq::empty());
        assert(views(notices.history@) =~= Seq::empty());
        let modals = Modals {
            help_visible: false,
            skill_dialog: None,
            quit_confirm: false,
            settings: None,
            pending_port_conflict: None,
            port_conflict: None,
        };
        let layout = Layout {
            viewport_height: 20,
            copy_mode: false,
            zoom: false,
            sidebar_scroll: 0,
            sidebar_collapsed: false,
            sidebar_width: DEFAULT_SIDEBAR_WIDTH,
        };
        let hits = Hits {
            click_regions: Vec::new(),
            scrollbar_hit: None,
            scrollbar_dragging: false,
            sidebar_divider: None,
            sidebar_dragging: false,
        };
        let session = Session {
            focus: Focus::Tabs,
            skill_hint_eligible: eligible,
            started_at: now,
            palette: Palette::mocha(),
            spinner_tick: 0,
            config: GlobalConfig::default(),
            stopped: false,
            stopped_repo: None,
        };
        let r = TuiState { stacks, notices, modals, layout, hits, session };
        assert(r@ == TuiView::initial(eligible, now));
        r
    }
}

impl Default for TuiState {
    /// The state at startup without the skill install hint.
    fn default() -> (r: Self)
        ensures
            r.wf(),
            exists|now: Instant| r@ == #[trigger] TuiView::initial(false, now),
    {
        TuiState::new(false)
    }
}

} // verus!
