//! Key dispatch: which overlay or screen has the keyboard, and what a key
//! means there.
use vstd::prelude::*;

use crate::keymap::{bound, resolve, Action, KeyCode, KeyEvent};
use crate::state::{SkillPrompt, TuiState, TuiView};

use super::LOG_PAGE;

verus! {

/// The answer to a task that asks before it acts.
#[derive(Debug, Clone, Copy, PartialEq, Eq, Structural)]
pub enum TaskApproval {
    Approve,
    Skip,
    Cancel,
}

/// What is up beside the dashboard's own state: the action panel and the
/// worktree modals.
#[derive(Debug, Clone, Copy, PartialEq, Eq, Structural)]
pub struct Surround {
    /// A task waits for an answer.
    pub approval: bool,
    /// The action panel is shown.
    pub panel: bool,
    /// A task of the action panel is running.
    pub running: bool,
    /// The confirmation of a worktree's removal is up.
    pub worktree_remove: bool,
    /// The prompt for a new worktree is up.
    pub worktree_add: bool,
    /// The stack-info modal is up.
    pub stack_info: bool,
}

/// What has the keyboard.
#[derive(Debug, Clone, Copy, PartialEq, Eq, Structural)]
pub enum Mode {
    Skill(SkillPrompt),
    Approval,
    CopyMode,
    Stopped,
    PortConflict,
    Zoom,
    QuitConfirm,
    Settings,
    WorktreeRemove,
    WorktreeAdd,
    StackInfo,
    Notifications,
    Help,
    Main,
}

/// Commands of the log viewport.
#[derive(Debug, Clone, Copy, PartialEq, Eq, Structural)]
pub enum LogCommand {
    Down(usize),
    Up(usize),
    PageDown,
    PageUp,
    Top,
    Bottom,
    /// Copy the visible lines or all of them, say so in a toast, and leave copy
    /// mode.
    Copy { all: bool, announce: bool, leave: bool },
    EnterCopyMode,
    LeaveCopyMode,
    ToggleZoom,
    LeaveZoom,
}

/// Commands that move the selection or the sidebar.
#[derive(Debug, Clone, Copy, PartialEq, Eq, Structural)]
pub enum SelectCommand {
    PrevService,
    NextService,
    PrevStack,
    NextStack,
    ToggleSidebar,
}

/// Commands of the overlays.
#[derive(Debug, Clone, Copy, PartialEq, Eq, Structural)]
pub enum OverlayCommand {
    InstallSkill { global: bool },
    UpdateSkill { always: bool },
    DismissSkill,
    MoveConflict(i32),
    TakeConflict,
    DismissConflict,
    OpenSettings,
    MoveSetting(i32),
    ChangeSetting(i32),
    CloseSettings,
    ToggleNotifications,
    NewerNotification,
    OlderNotification,
    CopyNotification,
    CopyAllNotifications,
    CloseNotifications,
    ToggleHelp,
    HideHelp,
    CancelQuit,
}

/// Commands on the selected service.
#[derive(Debug, Clone, Copy, PartialEq, Eq, Structural)]
pub enum ServiceCommand {
    Start,
    Stop,
    Restart,
    OpenUrl,
    CopyUrl,
}

/// Commands on the session as a whole.
#[derive(Debug, Clone, Copy, PartialEq, Eq, Structural)]
pub enum SessionCommand {
    /// Bring every stack up again from the stopped screen.
    StartStack,
    /// Leave the stopped screen: there is nothing to stop.
    Leave,
    /// Leave every service running.
    Detach,
    /// Stop every service of every stack.
    StopAndQuit,
    /// Ask first where that is configured.
    Quit,
    ReloadConfig,
    CopyDebugPrompt,
}

/// Commands to what is up beside the dashboard's own state.
#[derive(Debug, Clone, Copy, PartialEq, Eq, Structural)]
pub enum OuterCommand {
    Answer(TaskApproval),
    PanelPrevious,
    PanelNext,
    RunSelected,
    ClosePanel,
    CancelTask,
    AskRemove,
    Remove { force: bool },
    CloseRemove,
    AskAdd,
    Create,
    CloseAdd,
    Erase,
    Input(char),
    OpenInfo,
    /// Hand over from the info modal to the removal confirmation.
    InfoRemove,
    MoveInfo(i32),
    CopyInfo,
    CopyBranch,
    CopyPath,
    CloseInfo,
}

/// What a key asks for.
#[derive(Debug, Clone, Copy, PartialEq, Eq, Structural)]
pub enum Command {
    Ignore,
    Logs(LogCommand),
    Select(SelectCommand),
    Overlay(OverlayCommand),
    Service(ServiceCommand),
    Session(SessionCommand),
    Outer(OuterCommand),
}

/// What has the keyboard, the first in this order that is up.
pub open spec fn mode_of(v: TuiView, around: Surround) -> Mode {
    if v.modals.skill_dialog is Some {
        Mode::Skill(v.modals.skill_dialog->0.kind)
    } else if around.approval {
        Mode::Approval
    } else if v.layout.copy_mode {
        Mode::CopyMode
    } else if v.session.stopped {
        Mode::Stopped
    } else if v.modals.port_conflict is Some {
        Mode::PortConflict
    } else if v.layout.zoom {
        Mode::Zoom
    } else if v.modals.quit_confirm {
        Mode::QuitConfirm
    } else if v.modals.settings is Some {
        Mode::Settings
    } else if around.worktree_remove {
        Mode::WorktreeRemove
    } else if around.worktree_add {
        Mode::WorktreeAdd
    } else if around.stack_info {
        Mode::StackInfo
    } else if v.notices.visible {
        Mode::Notifications
    } else if v.modals.help_visible {
        Mode::Help
    } else {
        Mode::Main
    }
}

/// Finds what has the keyboard.
pub fn mode(state: &TuiState, around: Surround) -> (r: Mode)
    ensures
        r == mode_of(state@, around),
{
    match state.skill_dialog() {
        Some(d) => {
            return Mode::Skill(d.kind);
        },
        None => {},
    }
    if around.approval {
        Mode::Approval
    } else if state.copy_mode() {
        Mode::CopyMode
    } else if state.stopped() {
        Mode::Stopped
    } else if state.port_conflict_visible() {
        Mode::PortConflict
    } else if state.zoom() {
        Mode::Zoom
    } else if state.quit_confirm_visible() {
        Mode::QuitConfirm
    } else if state.settings_visible() {
        Mode::Settings
    } else if around.worktree_remove {
        Mode::WorktreeRemove
    } else if around.worktree_add {
        Mode::WorktreeAdd
    } else if around.stack_info {
        Mode::StackInfo
    } else if state.notifications_visible() {
        Mode::Notifications
    } else if state.help_visible() {
        Mode::Help
    } else {
        Mode::Main
    }
}

/// Install offers `i` and `g`, update `u` and `a`; `n` and Esc dismiss either.
pub open spec fn skill_key(kind: SkillPrompt, code: KeyCode) -> Command {
    if kind == SkillPrompt::Install && code == KeyCode::Char('i') {
        Command::Overlay(OverlayCommand::InstallSkill { global: false })
    } else if kind == SkillPrompt::Install && code == KeyCode::Char('g') {
        Command::Overlay(OverlayCommand::InstallSkill { global: true })
    } else if kind == SkillPrompt::Update && code == KeyCode::Char('u') {
        Command::Overlay(OverlayCommand::UpdateSkill { always: false })
    } else if kind == SkillPrompt::Update && code == KeyCode::Char('a') {
        Command::Overlay(OverlayCommand::UpdateSkill { always: true })
    } else if code == KeyCode::Char('n') || code == KeyCode::Esc {
        Command::Overlay(OverlayCommand::DismissSkill)
    } else {
        Command::Ignore
    }
}

/// What a key does in the skill prompt.
pub fn handle_skill_dialog_key(kind: SkillPrompt, code: KeyCode) -> (r: Command)
    ensures
        r == skill_key(kind, code),
{
    match (kind, code) {
        (SkillPrompt::Install, KeyCode::Char('i')) => Command::Overlay(
            OverlayCommand::InstallSkill { global: false },
        ),
        (SkillPrompt::Install, KeyCode::Char('g')) => Command::Overlay(
            OverlayCommand::InstallSkill { global: true },
        ),
        (SkillPrompt::Update, KeyCode::Char('u')) => Command::Overlay(
            OverlayCommand::UpdateSkill { always: false },
        ),
        (SkillPrompt::Update, KeyCode::Char('a')) => Command::Overlay(
            OverlayCommand::UpdateSkill { always: true },
        ),
        (_, KeyCode::Char('n')) => Command::Overlay(OverlayCommand::DismissSkill),
        (_, KeyCode::Esc) => Command::Overlay(OverlayCommand::DismissSkill),
        _ => Command::Ignore,
    }
}

/// Enter and `y` approve, `n` and `s` skip, Esc cancels.
pub open spec fn approval_key(code: KeyCode) -> Command {
    match code {
        KeyCode::Enter | KeyCode::Char('y') => Command::Outer(
            OuterCommand::Answer(TaskApproval::Approve),
        ),
        KeyCode::Char('n') | KeyCode::Char('s') => Command::Outer(
            OuterCommand::Answer(TaskApproval::Skip),
        ),
        KeyCode::Esc => Command::Outer(OuterCommand::Answer(TaskApproval::Cancel)),
        _ => Command::Ignore,
    }
}

fn approval_command(code: KeyCode) -> (r: Command)
    ensures
        r == approval_key(code),
{
    match code {
        KeyCode::Enter | KeyCode::Char('y') => Command::Outer(
            OuterCommand::Answer(TaskApproval::Approve),
        ),
        KeyCode::Char('n') | KeyCode::Char('s') => Command::Outer(
            OuterCommand::Answer(TaskApproval::Skip),
        ),
        KeyCode::Esc => Command::Outer(OuterCommand::Answer(TaskApproval::Cancel)),
        _ => Command::Ignore,
    }
}

/// The keys that the action panel takes while it is shown; the rest go on to
/// what is below it. `c` is taken only while a task runs.
pub open spec fn panel_key(code: KeyCode, running: bool) -> Option<Command> {
    match code {
        KeyCode::Up | KeyCode::Char('k') => Some(Command::Outer(OuterCommand::PanelPrevious)),
        KeyCode::Down | KeyCode::Char('j') => Some(Command::Outer(OuterCommand::PanelNext)),
        KeyCode::Enter => Some(Command::Outer(OuterCommand::RunSelected)),
        KeyCode::Char('a') | KeyCode::Esc => Some(Command::Outer(OuterCommand::ClosePanel)),
        KeyCode::Char('h') | KeyCode::Left => Some(Command::Select(SelectCommand::PrevService)),
        KeyCode::Char('l') | KeyCode::Right => Some(Command::Select(SelectCommand::NextService)),
        _ => if running && code == KeyCode::Char('c') {
            Some(Command::Outer(OuterCommand::CancelTask))
        } else {
            None
        },
    }
}

fn panel_command(code: KeyCode, running: bool) -> (r: Option<Command>)
    ensures
        r == panel_key(code, running),
{
    match code {
        KeyCode::Up | KeyCode::Char('k') => Some(Command::Outer(OuterCommand::PanelPrevious)),
        KeyCode::Down | KeyCode::Char('j') => Some(Command::Outer(OuterCommand::PanelNext)),
        KeyCode::Enter => Some(Command::Outer(OuterCommand::RunSelected)),
        KeyCode::Char('a') | KeyCode::Esc => Some(Command::Outer(OuterCommand::ClosePanel)),
        KeyCode::Char('h') | KeyCode::Left => Some(Command::Select(SelectCommand::PrevService)),
        KeyCode::Char('l') | KeyCode::Right => Some(Command::Select(SelectCommand::NextService)),
        KeyCode::Char(c) => {
            if running && c == 'c' {
                Some(Command::Outer(OuterCommand::CancelTask))
            } else {
                None
            }
        },
        _ => None,
    }
}

/// The scroll keys that copy mode and zoom share.
pub open spec fn viewer_key(code: KeyCode) -> Command {
    match code {
        KeyCode::Char('j') | KeyCode::Down => Command::Logs(LogCommand::Down(1)),
        KeyCode::Char('k') | KeyCode::Up => Command::Logs(LogCommand::Up(1)),
        KeyCode::Char('g') => Command::Logs(LogCommand::Top),
        KeyCode::Char('G') => Command::Logs(LogCommand::Bottom),
        KeyCode::PageUp | KeyCode::Char('b') => Command::Logs(LogCommand::PageUp),
        KeyCode::PageDown | KeyCode::Char(' ') => Command::Logs(LogCommand::PageDown),
        _ => Command::Ignore,
    }
}

fn viewer_command(code: KeyCode) -> (r: Command)
    ensures
        r == viewer_key(code),
{
    match code {
        KeyCode::Char('j') | KeyCode::Down => Command::Logs(LogCommand::Down(1)),
        KeyCode::Char('k') | KeyCode::Up => Command::Logs(LogCommand::Up(1)),
        KeyCode::Char('g') => Command::Logs(LogCommand::Top),
        KeyCode::Char('G') => Command::Logs(LogCommand::Bottom),
        KeyCode::PageUp | KeyCode::Char('b') => Command::Logs(LogCommand::PageUp),
        KeyCode::PageDown | KeyCode::Char(' ') => Command::Logs(LogCommand::PageDown),
        _ => Command::Ignore,
    }
}

/// Copy mode: a copy is announced and ends the mode, Esc and `q` end it too.
pub open spec fn copy_mode_key(code: KeyCode) -> Command {
    match code {
        KeyCode::Esc | KeyCode::Char('q') => Command::Logs(LogCommand::LeaveCopyMode),
        KeyCode::Char('y') => Command::Logs(
            LogCommand::Copy { all: false, announce: true, leave: true },
        ),
        KeyCode::Char('Y') => Command::Logs(
            LogCommand::Copy { all: true, announce: true, leave: true },
        ),
        _ => viewer_key(code),
    }
}

fn copy_mode_command(code: KeyCode) -> (r: Command)
    ensures
        r == copy_mode_key(code),
{
    match code {
        KeyCode::Esc | KeyCode::Char('q') => Command::Logs(LogCommand::LeaveCopyMode),
        KeyCode::Char('y') => Command::Logs(
            LogCommand::Copy { all: false, announce: true, leave: true },
        ),
        KeyCode::Char('Y') => Command::Logs(
            LogCommand::Copy { all: true, announce: true, leave: true },
        ),
        _ => viewer_command(code),
    }
}

/// Zoom captures navigation so that what it hides does not move unseen.
pub open spec fn zoom_key(code: KeyCode) -> Command {
    match code {
        KeyCode::Char('z') | KeyCode::Esc | KeyCode::Char('q') => Command::Logs(
            LogCommand::LeaveZoom,
        ),
        KeyCode::Char('f') => Command::Logs(LogCommand::PageDown),
        KeyCode::Char('h') | KeyCode::Left => Command::Select(SelectCommand::PrevService),
        KeyCode::Char('l') | KeyCode::Right => Command::Select(SelectCommand::NextService),
        KeyCode::Char('y') => Command::Logs(
            LogCommand::Copy { all: false, announce: false, leave: false },
        ),
        KeyCode::Char('Y') => Command::Logs(
            LogCommand::Copy { all: true, announce: false, leave: false },
        ),
        _ => viewer_key(code),
    }
}

fn zoom_command(code: KeyCode) -> (r: Command)
    ensures
        r == zoom_key(code),
{
    match code {
        KeyCode::Char('z') | KeyCode::Esc | KeyCode::Char('q') => Command::Logs(
            LogCommand::LeaveZoom,
        ),
        KeyCode::Char('f') => Command::Logs(LogCommand::PageDown),
        KeyCode::Char('h') | KeyCode::Left => Command::Select(SelectCommand::PrevService),
        KeyCode::Char('l') | KeyCode::Right => Command::Select(SelectCommand::NextService),
        KeyCode::Char('y') => Command::Logs(
            LogCommand::Copy { all: false, announce: false, leave: false },
        ),
        KeyCode::Char('Y') => Command::Logs(
            LogCommand::Copy { all: true, announce: false, leave: false },
        ),
        _ => viewer_command(code),
    }
}

/// The stopped screen: bring the stack up again, or leave.
pub open spec fn stopped_key(key: KeyEvent) -> Command {
    match key.code {
        KeyCode::Char('u') | KeyCode::Char('U') | KeyCode::Char('S') | KeyCode::Enter =>
            Command::Session(SessionCommand::StartStack),
        KeyCode::Char('q') | KeyCode::Char('Q') | KeyCode::Esc => Command::Session(
            SessionCommand::Leave,
        ),
        _ => if key.ctrl && key.code == KeyCode::Char('c') {
            Command::Session(SessionCommand::Leave)
        } else {
            Command::Ignore
        },
    }
}

fn stopped_command(key: KeyEvent) -> (r: Command)
    ensures
        r == stopped_key(key),
{
    match key.code {
        KeyCode::Char('u') | KeyCode::Char('U') | KeyCode::Char('S') | KeyCode::Enter =>
            Command::Session(SessionCommand::StartStack),
        KeyCode::Char('q') | KeyCode::Char('Q') | KeyCode::Esc => Command::Session(
            SessionCommand::Leave,
        ),
        KeyCode::Char(c) => {
            if key.ctrl && c == 'c' {
                Command::Session(SessionCommand::Leave)
            } else {
                Command::Ignore
            }
        },
        _ => Command::Ignore,
    }
}

pub open spec fn conflict_key(code: KeyCode) -> Command {
    match code {
        KeyCode::Up | KeyCode::Char('k') => Command::Overlay(OverlayCommand::MoveConflict((-1) as i32)),
        KeyCode::Down | KeyCode::Char('j') => Command::Overlay(OverlayCommand::MoveConflict(1)),
        KeyCode::Enter => Command::Overlay(OverlayCommand::TakeConflict),
        KeyCode::Char('n') | KeyCode::Esc => Command::Overlay(OverlayCommand::DismissConflict),
        _ => Command::Ignore,
    }
}

fn conflict_command(code: KeyCode) -> (r: Command)
    ensures
        r == conflict_key(code),
{
    match code {
        KeyCode::Up | KeyCode::Char('k') => Command::Overlay(OverlayCommand::MoveConflict(-1)),
        KeyCode::Down | KeyCode::Char('j') => Command::Overlay(OverlayCommand::MoveConflict(1)),
        KeyCode::Enter => Command::Overlay(OverlayCommand::TakeConflict),
        KeyCode::Char('n') | KeyCode::Esc => Command::Overlay(OverlayCommand::DismissConflict),
        _ => Command::Ignore,
    }
}

/// The quit confirmation: stop everything, detach, or stay.
pub open spec fn quit_key(code: KeyCode) -> Command {
    match code {
        KeyCode::Char('q') | KeyCode::Char('s') | KeyCode::Char('y') | KeyCode::Enter =>
            Command::Session(SessionCommand::StopAndQuit),
        KeyCode::Char('d') | KeyCode::Char('D') => Command::Session(SessionCommand::Detach),
        KeyCode::Char('n') | KeyCode::Esc => Command::Overlay(OverlayCommand::CancelQuit),
        _ => Command::Ignore,
    }
}

fn quit_command(code: KeyCode) -> (r: Command)
    ensures
        r == quit_key(code),
{
    match code {
        KeyCode::Char('q') | KeyCode::Char('s') | KeyCode::Char('y') | KeyCode::Enter =>
            Command::Session(SessionCommand::StopAndQuit),
        KeyCode::Char('d') | KeyCode::Char('D') => Command::Session(SessionCommand::Detach),
        KeyCode::Char('n') | KeyCode::Esc => Command::Overlay(OverlayCommand::CancelQuit),
        _ => Command::Ignore,
    }
}

pub open spec fn settings_key(code: KeyCode) -> Command {
    match code {
        KeyCode::Up | KeyCode::Char('k') => Command::Overlay(OverlayCommand::MoveSetting((-1) as i32)),
        KeyCode::Down | KeyCode::Char('j') => Command::Overlay(OverlayCommand::MoveSetting(1)),
        KeyCode::Left | KeyCode::Char('h') => Command::Overlay(OverlayCommand::ChangeSetting((-1) as i32)),
        KeyCode::Right | KeyCode::Char('l') | KeyCode::Char(' ') | KeyCode::Enter =>
            Command::Overlay(OverlayCommand::ChangeSetting(1)),
        KeyCode::Esc | KeyCode::Char(',') | KeyCode::Char('q') => Command::Overlay(
            OverlayCommand::CloseSettings,
        ),
        _ => Command::Ignore,
    }
}

fn settings_command(code: KeyCode) -> (r: Command)
    ensures
        r == settings_key(code),
{
    match code {
        KeyCode::Up | KeyCode::Char('k') => Command::Overlay(OverlayCommand::MoveSetting(-1)),
        KeyCode::Down | KeyCode::Char('j') => Command::Overlay(OverlayCommand::MoveSetting(1)),
        KeyCode::Left | KeyCode::Char('h') => Command::Overlay(OverlayCommand::ChangeSetting(-1)),
        KeyCode::Right | KeyCode::Char('l') | KeyCode::Char(' ') | KeyCode::Enter =>
            Command::Overlay(OverlayCommand::ChangeSetting(1)),
        KeyCode::Esc | KeyCode::Char(',') | KeyCode::Char('q') => Command::Overlay(
            OverlayCommand::CloseSettings,
        ),
        _ => Command::Ignore,
    }
}

/// The removal confirmation: remove, force, or cancel.
pub open spec fn remove_key(code: KeyCode) -> Command {
    match code {
        KeyCode::Char('y') | KeyCode::Enter => Command::Outer(
            OuterCommand::Remove { force: false },
        ),
        KeyCode::Char('f') => Command::Outer(OuterCommand::Remove { force: true }),
        KeyCode::Char('n') | KeyCode::Char('q') | KeyCode::Esc => Command::Outer(
            OuterCommand::CloseRemove,
        ),
        _ => Command::Ignore,
    }
}

fn remove_command(code: KeyCode) -> (r: Command)
    ensures
        r == remove_key(code),
{
    match code {
        KeyCode::Char('y') | KeyCode::Enter => Command::Outer(
            OuterCommand::Remove { force: false },
        ),
        KeyCode::Char('f') => Command::Outer(OuterCommand::Remove { force: true }),
        KeyCode::Char('n') | KeyCode::Char('q') | KeyCode::Esc => Command::Outer(
            OuterCommand::CloseRemove,
        ),
        _ => Command::Ignore,
    }
}

/// The prompt for a new worktree: plain characters are input.
pub open spec fn add_key(key: KeyEvent) -> Command {
    match key.code {
        KeyCode::Enter => Command::Outer(OuterCommand::Create),
        KeyCode::Esc => Command::Outer(OuterCommand::CloseAdd),
        KeyCode::Backspace => Command::Outer(OuterCommand::Erase),
        KeyCode::Char(c) => if key.ctrl {
            Command::Ignore
        } else {
            Command::Outer(OuterCommand::Input(c))
        },
        _ => Command::Ignore,
    }
}

fn add_command(key: KeyEvent) -> (r: Command)
    ensures
        r == add_key(key),
{
    match key.code {
        KeyCode::Enter => Command::Outer(OuterCommand::Create),
        KeyCode::Esc => Command::Outer(OuterCommand::CloseAdd),
        KeyCode::Backspace => Command::Outer(OuterCommand::Erase),
        KeyCode::Char(c) => {
            if key.ctrl {
                Command::Ignore
            } else {
                Command::Outer(OuterCommand::Input(c))
            }
        },
        _ => Command::Ignore,
    }
}

/// The stack-info modal: move between fields, copy one, or close.
pub open spec fn info_key(code: KeyCode) -> Command {
    match code {
        KeyCode::Char('x') => Command::Outer(OuterCommand::InfoRemove),
        KeyCode::Up | KeyCode::Char('k') => Command::Outer(OuterCommand::MoveInfo((-1) as i32)),
        KeyCode::Down | KeyCode::Char('j') => Command::Outer(OuterCommand::MoveInfo(1)),
        KeyCode::Char('c') | KeyCode::Enter => Command::Outer(OuterCommand::CopyInfo),
        KeyCode::Char('b') => Command::Outer(OuterCommand::CopyBranch),
        KeyCode::Char('w') => Command::Outer(OuterCommand::CopyPath),
        KeyCode::Esc | KeyCode::Char('i') | KeyCode::Char('q') => Command::Outer(
            OuterCommand::CloseInfo,
        ),
        _ => Command::Ignore,
    }
}

fn info_command(code: KeyCode) -> (r: Command)
    ensures
        r == info_key(code),
{
    match code {
        KeyCode::Char('x') => Command::Outer(OuterCommand::InfoRemove),
        KeyCode::Up | KeyCode::Char('k') => Command::Outer(OuterCommand::MoveInfo(-1)),
        KeyCode::Down | KeyCode::Char('j') => Command::Outer(OuterCommand::MoveInfo(1)),
        KeyCode::Char('c') | KeyCode::Enter => Command::Outer(OuterCommand::CopyInfo),
        KeyCode::Char('b') => Command::Outer(OuterCommand::CopyBranch),
        KeyCode::Char('w') => Command::Outer(OuterCommand::CopyPath),
        KeyCode::Esc | KeyCode::Char('i') | KeyCode::Char('q') => Command::Outer(
            OuterCommand::CloseInfo,
        ),
        _ => Command::Ignore,
    }
}

pub open spec fn notifications_key(code: KeyCode) -> Command {
    match code {
        KeyCode::Up | KeyCode::Char('k') => Command::Overlay(OverlayCommand::NewerNotification),
        KeyCode::Down | KeyCode::Char('j') => Command::Overlay(OverlayCommand::OlderNotification),
        KeyCode::Char('c') | KeyCode::Enter => Command::Overlay(OverlayCommand::CopyNotification),
        KeyCode::Char('Y') => Command::Overlay(OverlayCommand::CopyAllNotifications),
        KeyCode::Esc | KeyCode::Char('n') | KeyCode::Char('q') => Command::Overlay(
            OverlayCommand::CloseNotifications,
        ),
        _ => Command::Ignore,
    }
}

fn notifications_command(code: KeyCode) -> (r: Command)
    ensures
        r == notifications_key(code),
{
    match code {
        KeyCode::Up | KeyCode::Char('k') => Command::Overlay(OverlayCommand::NewerNotification),
        KeyCode::Down | KeyCode::Char('j') => Command::Overlay(OverlayCommand::OlderNotification),
        KeyCode::Char('c') | KeyCode::Enter => Command::Overlay(OverlayCommand::CopyNotification),
        KeyCode::Char('Y') => Command::Overlay(OverlayCommand::CopyAllNotifications),
        KeyCode::Esc | KeyCode::Char('n') | KeyCode::Char('q') => Command::Overlay(
            OverlayCommand::CloseNotifications,
        ),
        _ => Command::Ignore,
    }
}

/// What a main-view action does.
pub open spec fn action_does(action: Action) -> Command {
    match action {
        Action::NextService => Command::Select(SelectCommand::NextService),
        Action::PrevService => Command::Select(SelectCommand::PrevService),
        Action::NextStack => Command::Select(SelectCommand::NextStack),
        Action::PrevStack => Command::Select(SelectCommand::PrevStack),
        Action::ToggleSidebar => Command::Select(SelectCommand::ToggleSidebar),
        Action::PageUp => Command::Logs(LogCommand::PageUp),
        Action::PageDown => Command::Logs(LogCommand::PageDown),
        Action::HalfPageUp => Command::Logs(LogCommand::Up((LOG_PAGE / 2) as usize)),
        Action::HalfPageDown => Command::Logs(LogCommand::Down((LOG_PAGE / 2) as usize)),
        Action::LineDown => Command::Logs(LogCommand::Down(1)),
        Action::LineUp => Command::Logs(LogCommand::Up(1)),
        Action::ScrollTop => Command::Logs(LogCommand::Top),
        Action::ScrollBottom => Command::Logs(LogCommand::Bottom),
        Action::CopyVisibleLogs => Command::Logs(
            LogCommand::Copy { all: false, announce: true, leave: false },
        ),
        Action::CopyAllLogs => Command::Logs(
            LogCommand::Copy { all: true, announce: true, leave: false },
        ),
        Action::CopyDebugPrompt => Command::Session(SessionCommand::CopyDebugPrompt),
        Action::CopyMode => Command::Logs(LogCommand::EnterCopyMode),
        Action::ZoomLogs => Command::Logs(LogCommand::ToggleZoom),
        Action::StartService => Command::Service(ServiceCommand::Start),
        Action::StopService => Command::Service(ServiceCommand::Stop),
        Action::RestartService => Command::Service(ServiceCommand::Restart),
        Action::OpenUrl => Command::Service(ServiceCommand::OpenUrl),
        Action::CopyUrl => Command::Service(ServiceCommand::CopyUrl),
        Action::AddWorktree => Command::Outer(OuterCommand::AskAdd),
        Action::RemoveWorktree => Command::Outer(OuterCommand::AskRemove),
        Action::StackInfo => Command::Outer(OuterCommand::OpenInfo),
        Action::Settings => Command::Overlay(OverlayCommand::OpenSettings),
        Action::Notifications => Command::Overlay(OverlayCommand::ToggleNotifications),
        Action::ReloadConfig => Command::Session(SessionCommand::ReloadConfig),
        Action::Detach => Command::Session(SessionCommand::Detach),
        Action::Quit => Command::Session(SessionCommand::Quit),
        Action::ToggleHelp => Command::Overlay(OverlayCommand::ToggleHelp),
    }
}

fn action_command(action: Action) -> (r: Command)
    ensures
        r == action_does(action),
{
    match action {
        Action::NextService => Command::Select(SelectCommand::NextService),
        Action::PrevService => Command::Select(SelectCommand::PrevService),
        Action::NextStack => Command::Select(SelectCommand::NextStack),
        Action::PrevStack => Command::Select(SelectCommand::PrevStack),
        Action::ToggleSidebar => Command::Select(SelectCommand::ToggleSidebar),
        Action::PageUp => Command::Logs(LogCommand::PageUp),
        Action::PageDown => Command::Logs(LogCommand::PageDown),
        Action::HalfPageUp => Command::Logs(LogCommand::Up(LOG_PAGE / 2)),
        Action::HalfPageDown => Command::Logs(LogCommand::Down(LOG_PAGE / 2)),
        Action::LineDown => Command::Logs(LogCommand::Down(1)),
        Action::LineUp => Command::Logs(LogCommand::Up(1)),
        Action::ScrollTop => Command::Logs(LogCommand::Top),
        Action::ScrollBottom => Command::Logs(LogCommand::Bottom),
        Action::CopyVisibleLogs => Command::Logs(
            LogCommand::Copy { all: false, announce: true, leave: false },
        ),
        Action::CopyAllLogs => Command::Logs(
            LogCommand::Copy { all: true, announce: true, leave: false },
        ),
        Action::CopyDebugPrompt => Command::Session(SessionCommand::CopyDebugPrompt),
        Action::CopyMode => Command::Logs(LogCommand::EnterCopyMode),
        Action::ZoomLogs => Command::Logs(LogCommand::ToggleZoom),
        Action::StartService => Command::Service(ServiceCommand::Start),
        Action::StopService => Command::Service(ServiceCommand::Stop),
        Action::RestartService => Command::Service(ServiceCommand::Restart),
        Action::OpenUrl => Command::Service(ServiceCommand::OpenUrl),
        Action::CopyUrl => Command::Service(ServiceCommand::CopyUrl),
        Action::AddWorktree => Command::Outer(OuterCommand::AskAdd),
        Action::RemoveWorktree => Command::Outer(OuterCommand::AskRemove),
        Action::StackInfo => Command::Outer(OuterCommand::OpenInfo),
        Action::Settings => Command::Overlay(OverlayCommand::OpenSettings),
        Action::Notifications => Command::Overlay(OverlayCommand::ToggleNotifications),
        Action::ReloadConfig => Command::Session(SessionCommand::ReloadConfig),
        Action::Detach => Command::Session(SessionCommand::Detach),
        Action::Quit => Command::Session(SessionCommand::Quit),
        Action::ToggleHelp => Command::Overlay(OverlayCommand::ToggleHelp),
    }
}

/// The main view goes by the keymap.
pub open spec fn main_key(key: KeyEvent) -> Command {
    match bound(key) {
        Some(action) => action_does(action),
        None => Command::Ignore,
    }
}

/// What a key means in a mode, the action panel left aside.
pub open spec fn mode_key(mode: Mode, key: KeyEvent) -> Command {
    match mode {
        Mode::Skill(kind) => skill_key(kind, key.code),
        Mode::Approval => approval_key(key.code),
        Mode::CopyMode => copy_mode_key(key.code),
        Mode::Stopped => stopped_key(key),
        Mode::PortConflict => conflict_key(key.code),
        Mode::Zoom => zoom_key(key.code),
        Mode::QuitConfirm => quit_key(key.code),
        Mode::Settings => settings_key(key.code),
        Mode::WorktreeRemove => remove_key(key.code),
        Mode::WorktreeAdd => add_key(key),
        Mode::StackInfo => info_key(key.code),
        Mode::Notifications => notifications_key(key.code),
        Mode::Help => if key.code == KeyCode::Esc {
            Command::Overlay(OverlayCommand::HideHelp)
        } else {
            main_key(key)
        },
        Mode::Main => main_key(key),
    }
}

/// The action panel comes before every mode but these.
pub open spec fn above_panel(mode: Mode) -> bool {
    mode is Skill || mode is Approval
}

/// What a key means.
pub open spec fn key_means(mode: Mode, around: Surround, key: KeyEvent) -> Command {
    if around.panel && !above_panel(mode) {
        match panel_key(key.code, around.running) {
            Some(c) => c,
            None => mode_key(mode, key),
        }
    } else {
        mode_key(mode, key)
    }
}

/// Decides what a key press asks for. Esc closes the help overlay first;
/// otherwise the main view's keymap gives it its meaning.
pub fn dispatch(mode: Mode, around: Surround, key: KeyEvent) -> (r: Command)
    ensures
        r == key_means(mode, around, key),
{
    match mode {
        Mode::Skill(kind) => {
            return handle_skill_dialog_key(kind, key.code);
        },
        Mode::Approval => {
            return approval_command(key.code);
        },
        _ => {},
    }
    if around.panel {
        match panel_command(key.code, around.running) {
            Some(c) => {
                return c;
            },
            None => {},
        }
    }
    match mode {
        Mode::CopyMode => copy_mode_command(key.code),
        Mode::Stopped => stopped_command(key),
        Mode::PortConflict => conflict_command(key.code),
        Mode::Zoom => zoom_command(key.code),
        Mode::QuitConfirm => quit_command(key.code),
        Mode::Settings => settings_command(key.code),
        Mode::WorktreeRemove => remove_command(key.code),
        Mode::WorktreeAdd => add_command(key),
        Mode::StackInfo => info_command(key.code),
        Mode::Notifications => notifications_command(key.code),
        _ => {
            if matches!(mode, Mode::Help) && matches!(key.code, KeyCode::Esc) {
                return Command::Overlay(OverlayCommand::HideHelp);
            }
            match resolve(&key) {
                Some(action) => action_command(action),
                None => Command::Ignore,
            }
        },
    }
}

} // verus!
