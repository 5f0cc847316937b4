//! Keys: which ones ask for what, and that no others do.
use vstd::prelude::*;

use crate::event_loop::keys::{
    key_means, mode_of, Command, LogCommand, Mode, OuterCommand, OverlayCommand, SelectCommand,
    ServiceCommand, SessionCommand, Surround, TaskApproval,
};
use crate::keymap::{KeyCode, KeyEvent};
use crate::state::{SkillPrompt, TuiView};

verus! {

/// The key with this character, with or without control.
pub open spec fn typed(key: KeyEvent, c: char) -> bool {
    key.code == KeyCode::Char(c)
}

/// The key with this character, without control.
pub open spec fn plainly(key: KeyEvent, c: char) -> bool {
    key.code == KeyCode::Char(c) && !key.ctrl
}

/// The key with this character, with control.
pub open spec fn chord(key: KeyEvent, c: char) -> bool {
    key.code == KeyCode::Char(c) && key.ctrl
}

/// Law: while a task asks, Enter and y approve, n and s skip, Esc cancels, and
/// no other key answers, whether or not the action panel is open.
pub proof fn answers_to_a_task(around: Surround, key: KeyEvent)
    ensures
        ({
            let c = key_means(Mode::Approval, around, key);
            let approve = Command::Outer(OuterCommand::Answer(TaskApproval::Approve));
            let skip = Command::Outer(OuterCommand::Answer(TaskApproval::Skip));
            let cancel = Command::Outer(OuterCommand::Answer(TaskApproval::Cancel));
            &&& c == approve <==> key.code == KeyCode::Enter || typed(key, 'y')
            &&& c == skip <==> typed(key, 'n') || typed(key, 's')
            &&& c == cancel <==> key.code == KeyCode::Esc
            &&& c == approve || c == skip || c == cancel || c == Command::Ignore
        }),
{
}

/// Law: a task is answered only while it asks and no prompt covers it; while it
/// does, whatever else is open, its answers come first.
pub proof fn only_an_asking_task_is_answered(v: TuiView, around: Surround, key: KeyEvent)
    ensures
        ({
            let c = key_means(mode_of(v, around), around, key);
            &&& mode_of(v, around) == Mode::Approval <==> around.approval
                && v.modals.skill_dialog is None
            &&& c matches Command::Outer(OuterCommand::Answer(_)) ==> around.approval
                && v.modals.skill_dialog is None
        }),
{
}

/// Law: the prompt for the skill offers to install it, here with i or everywhere
/// with g, or to update it, once with u or from now on with a; n and Esc
/// dismiss it; and no other key does anything.
pub proof fn answers_to_the_skill_prompt(kind: SkillPrompt, around: Surround, key: KeyEvent)
    ensures
        ({
            let c = key_means(Mode::Skill(kind), around, key);
            let installs = kind == SkillPrompt::Install;
            let updates = kind == SkillPrompt::Update;
            &&& c == Command::Overlay(OverlayCommand::InstallSkill { global: false }) <==> installs
                && typed(key, 'i')
            &&& c == Command::Overlay(OverlayCommand::InstallSkill { global: true }) <==> installs
                && typed(key, 'g')
            &&& c == Command::Overlay(OverlayCommand::UpdateSkill { always: false }) <==> updates
                && typed(key, 'u')
            &&& c == Command::Overlay(OverlayCommand::UpdateSkill { always: true }) <==> updates
                && typed(key, 'a')
            &&& c == Command::Overlay(OverlayCommand::DismissSkill) <==> typed(key, 'n')
                || key.code == KeyCode::Esc
            &&& c is Ignore || c is Overlay
        }),
{
}

/// Law: while quitting is to be confirmed, q, s, y and Enter stop everything, d
/// and D leave it running, n and Esc stay, and no other key does anything.
pub proof fn answers_to_the_quit_question(around: Surround, key: KeyEvent)
    requires
        !around.panel,
    ensures
        ({
            let c = key_means(Mode::QuitConfirm, around, key);
            &&& c == Command::Session(SessionCommand::StopAndQuit) <==> key.code == KeyCode::Enter
                || typed(key, 'q') || typed(key, 's') || typed(key, 'y')
            &&& c == Command::Session(SessionCommand::Detach) <==> typed(key, 'd') || typed(
                key,
                'D',
            )
            &&& c == Command::Overlay(OverlayCommand::CancelQuit) <==> typed(key, 'n')
                || key.code == KeyCode::Esc
            &&& c is Ignore || c is Session || c is Overlay
        }),
{
}

/// Law: on the stopped screen u, U, S and Enter bring the stacks up again; q, Q,
/// Esc and control with c leave; no other key does anything.
pub proof fn keys_of_the_stopped_screen(around: Surround, key: KeyEvent)
    requires
        !around.panel,
    ensures
        ({
            let c = key_means(Mode::Stopped, around, key);
            &&& c == Command::Session(SessionCommand::StartStack) <==> key.code == KeyCode::Enter
                || typed(key, 'u') || typed(key, 'U') || typed(key, 'S')
            &&& c == Command::Session(SessionCommand::Leave) <==> key.code == KeyCode::Esc || typed(
                key,
                'q',
            ) || typed(key, 'Q') || chord(key, 'c')
            &&& c is Ignore || c is Session
        }),
{
}

/// Law: over a port conflict the arrows, and j and k, move the highlight by one,
/// down and up; Enter takes the highlighted remedy; n and Esc dismiss it.
pub proof fn keys_of_a_port_conflict(around: Surround, key: KeyEvent, d: i32)
    requires
        !around.panel,
    ensures
        ({
            let c = key_means(Mode::PortConflict, around, key);
            &&& c == Command::Overlay(OverlayCommand::MoveConflict(d)) <==> (d == -1 && (
                key.code == KeyCode::Up || typed(key, 'k'))) || (d == 1 && (key.code
                    == KeyCode::Down || typed(key, 'j')))
            &&& c == Command::Overlay(OverlayCommand::TakeConflict) <==> key.code == KeyCode::Enter
            &&& c == Command::Overlay(OverlayCommand::DismissConflict) <==> typed(key, 'n')
                || key.code == KeyCode::Esc
            &&& c is Ignore || c is Overlay
        }),
{
}

/// Law: in the settings up and down move the highlight by one, left and right
/// the value, forward too with the space and Enter, and Esc, the comma and q
/// close them.
pub proof fn keys_of_the_settings(around: Surround, key: KeyEvent, d: i32)
    requires
        !around.panel,
    ensures
        ({
            let c = key_means(Mode::Settings, around, key);
            &&& c == Command::Overlay(OverlayCommand::MoveSetting(d)) <==> (d == -1 && (
                key.code == KeyCode::Up || typed(key, 'k'))) || (d == 1 && (key.code
                    == KeyCode::Down || typed(key, 'j')))
            &&& c == Command::Overlay(OverlayCommand::ChangeSetting(d)) <==> (d == -1
                    && (key.code == KeyCode::Left || typed(key, 'h'))) || (d == 1 && (key.code
                    == KeyCode::Right || typed(key, 'l') || typed(key, ' ') || key.code
                    == KeyCode::Enter))
            &&& c == Command::Overlay(OverlayCommand::CloseSettings) <==> key.code == KeyCode::Esc
                || typed(key, ',') || typed(key, 'q')
            &&& c is Ignore || c is Overlay
        }),
{
}

/// Law: a worktree is removed by y or Enter, by force only by f, and kept by n,
/// q and Esc; no other key answers.
pub proof fn answers_to_a_removal(around: Surround, key: KeyEvent)
    requires
        !around.panel,
    ensures
        ({
            let c = key_means(Mode::WorktreeRemove, around, key);
            &&& c == Command::Outer(OuterCommand::Remove { force: false }) <==> typed(key, 'y')
                || key.code == KeyCode::Enter
            &&& c == Command::Outer(OuterCommand::Remove { force: true }) <==> typed(key, 'f')
            &&& c == Command::Outer(OuterCommand::CloseRemove) <==> typed(key, 'n') || typed(
                key,
                'q',
            ) || key.code == KeyCode::Esc
            &&& c is Ignore || c is Outer
        }),
{
}

/// Law: in the prompt for a new worktree every character typed without control
/// is taken as it is; Backspace erases, Enter creates, Esc closes.
pub proof fn keys_of_the_worktree_prompt(around: Surround, key: KeyEvent, x: char)
    requires
        !around.panel,
    ensures
        ({
            let c = key_means(Mode::WorktreeAdd, around, key);
            &&& c == Command::Outer(OuterCommand::Input(x)) <==> plainly(key, x)
            &&& c == Command::Outer(OuterCommand::Erase) <==> key.code == KeyCode::Backspace
            &&& c == Command::Outer(OuterCommand::Create) <==> key.code == KeyCode::Enter
            &&& c == Command::Outer(OuterCommand::CloseAdd) <==> key.code == KeyCode::Esc
            &&& c is Ignore || c is Outer
        }),
{
}

/// Law: the keys of the stack-info modal: x asks to remove the worktree, c and
/// Enter copy the highlighted row, b the branch and w the path, up and down
/// move by one row, and Esc, i and q close it.
pub proof fn keys_of_the_stack_info(around: Surround, key: KeyEvent, d: i32)
    requires
        !around.panel,
    ensures
        ({
            let c = key_means(Mode::StackInfo, around, key);
            &&& c == Command::Outer(OuterCommand::InfoRemove) <==> typed(key, 'x')
            &&& c == Command::Outer(OuterCommand::MoveInfo(d)) <==> (d == -1 && (key.code
                    == KeyCode::Up || typed(key, 'k'))) || (d == 1 && (key.code == KeyCode::Down
                    || typed(key, 'j')))
            &&& c == Command::Outer(OuterCommand::CopyInfo) <==> typed(key, 'c') || key.code
                == KeyCode::Enter
            &&& c == Command::Outer(OuterCommand::CopyBranch) <==> typed(key, 'b')
            &&& c == Command::Outer(OuterCommand::CopyPath) <==> typed(key, 'w')
            &&& c == Command::Outer(OuterCommand::CloseInfo) <==> key.code == KeyCode::Esc || typed(
                key,
                'i',
            ) || typed(key, 'q')
            &&& c is Ignore || c is Outer
        }),
{
}

/// Law: in the history of notices up goes to a newer one and down to an older
/// one, c and Enter copy the selected one and Y all of them, and Esc, n and q
/// close it.
pub proof fn keys_of_the_notices(around: Surround, key: KeyEvent)
    requires
        !around.panel,
    ensures
        ({
            let c = key_means(Mode::Notifications, around, key);
            &&& c == Command::Overlay(OverlayCommand::NewerNotification) <==> key.code
                == KeyCode::Up || typed(key, 'k')
            &&& c == Command::Overlay(OverlayCommand::OlderNotification) <==> key.code
                == KeyCode::Down || typed(key, 'j')
            &&& c == Command::Overlay(OverlayCommand::CopyNotification) <==> typed(key, 'c')
                || key.code == KeyCode::Enter
            &&& c == Command::Overlay(OverlayCommand::CopyAllNotifications) <==> typed(key, 'Y')
            &&& c == Command::Overlay(OverlayCommand::CloseNotifications) <==> key.code
                == KeyCode::Esc || typed(key, 'n') || typed(key, 'q')
            &&& c is Ignore || c is Overlay
        }),
{
}

/// The keys that scroll the logs wherever they fill the screen.
pub open spec fn scrolls_the_logs(c: Command, key: KeyEvent, n: usize) -> bool {
    &&& c == Command::Logs(LogCommand::Down(n)) <==> n == 1 && (key.code == KeyCode::Down
            || typed(key, 'j'))
    &&& c == Command::Logs(LogCommand::Up(n)) <==> n == 1 && (key.code == KeyCode::Up
            || typed(key, 'k'))
    &&& c == Command::Logs(LogCommand::Top) <==> typed(key, 'g')
    &&& c == Command::Logs(LogCommand::Bottom) <==> typed(key, 'G')
    &&& c == Command::Logs(LogCommand::PageUp) <==> key.code == KeyCode::PageUp || typed(key, 'b')
}

/// Law: in copy mode y copies what is visible and Y everything, say so and
/// leave; Esc and q leave; the logs scroll; nothing else happens.
pub proof fn keys_of_copy_mode(
    around: Surround,
    key: KeyEvent,
    n: usize,
    all: bool,
    announce: bool,
    leave: bool,
)
    requires
        !around.panel,
    ensures
        ({
            let c = key_means(Mode::CopyMode, around, key);
            &&& scrolls_the_logs(c, key, n)
            &&& c == Command::Logs(LogCommand::PageDown) <==> key.code == KeyCode::PageDown
                || typed(key, ' ')
            &&& c == Command::Logs(LogCommand::Copy { all, announce, leave }) <==> typed(
                    key,
                    if all {
                        'Y'
                    } else {
                        'y'
                    },
                ) && announce && leave
            &&& c == Command::Logs(LogCommand::LeaveCopyMode) <==> key.code == KeyCode::Esc
                || typed(key, 'q')
            &&& c is Ignore || c is Logs
        }),
{
}

/// Law: over the zoomed logs y and Y copy without a word and stay, z, Esc and q
/// leave, left and right go from service to service, and the logs scroll.
pub proof fn keys_of_the_zoomed_logs(
    around: Surround,
    key: KeyEvent,
    n: usize,
    all: bool,
    announce: bool,
    leave: bool,
)
    requires
        !around.panel,
    ensures
        ({
            let c = key_means(Mode::Zoom, around, key);
            &&& scrolls_the_logs(c, key, n)
            &&& c == Command::Logs(LogCommand::PageDown) <==> key.code == KeyCode::PageDown
                || typed(key, ' ') || typed(key, 'f')
            &&& c == Command::Logs(LogCommand::Copy { all, announce, leave }) <==> typed(
                    key,
                    if all {
                        'Y'
                    } else {
                        'y'
                    },
                ) && !announce && !leave
            &&& c == Command::Logs(LogCommand::LeaveZoom) <==> key.code == KeyCode::Esc || typed(
                key,
                'z',
            ) || typed(key, 'q')
            &&& c == Command::Select(SelectCommand::PrevService) <==> key.code == KeyCode::Left
                || typed(key, 'h')
            &&& c == Command::Select(SelectCommand::NextService) <==> key.code == KeyCode::Right
                || typed(key, 'l')
            &&& c is Ignore || c is Logs || c is Select
        }),
{
}

/// Law: over the dashboard S starts the selected service, s stops it and r
/// restarts it, o opens its address and c copies it: each only without control,
/// and no other key reaches a service.
pub proof fn keys_of_the_selected_service(around: Surround, key: KeyEvent)
    requires
        !around.panel,
    ensures
        ({
            let c = key_means(Mode::Main, around, key);
            &&& c == Command::Service(ServiceCommand::Start) <==> plainly(key, 'S')
            &&& c == Command::Service(ServiceCommand::Stop) <==> plainly(key, 's')
            &&& c == Command::Service(ServiceCommand::Restart) <==> plainly(key, 'r')
            &&& c == Command::Service(ServiceCommand::OpenUrl) <==> plainly(key, 'o')
            &&& c == Command::Service(ServiceCommand::CopyUrl) <==> plainly(key, 'c')
        }),
{
}

/// Law: over the dashboard q, Esc and control with c ask to quit, D detaches, R
/// reads the configuration again and p copies the debug prompt; no other key
/// touches the session.
pub proof fn keys_of_the_session(around: Surround, key: KeyEvent)
    requires
        !around.panel,
    ensures
        ({
            let c = key_means(Mode::Main, around, key);
            &&& c == Command::Session(SessionCommand::Quit) <==> plainly(key, 'q') || chord(
                key,
                'c',
            ) || (key.code == KeyCode::Esc && !key.ctrl)
            &&& c == Command::Session(SessionCommand::Detach) <==> plainly(key, 'D')
            &&& c == Command::Session(SessionCommand::ReloadConfig) <==> plainly(key, 'R')
            &&& c == Command::Session(SessionCommand::CopyDebugPrompt) <==> plainly(key, 'p')
            &&& c != Command::Session(SessionCommand::StopAndQuit)
            &&& c != Command::Session(SessionCommand::StartStack)
            &&& c != Command::Session(SessionCommand::Leave)
        }),
{
}

/// Law: over the dashboard right and left, or l and h, go from service to
/// service, down and up, or j and k, from stack to stack, and the backquote
/// folds the sidebar.
pub proof fn keys_of_the_selection(around: Surround, key: KeyEvent)
    requires
        !around.panel,
    ensures
        ({
            let c = key_means(Mode::Main, around, key);
            &&& c == Command::Select(SelectCommand::NextService) <==> !key.ctrl && (key.code
                == KeyCode::Right || typed(key, 'l'))
            &&& c == Command::Select(SelectCommand::PrevService) <==> !key.ctrl && (key.code
                == KeyCode::Left || typed(key, 'h'))
            &&& c == Command::Select(SelectCommand::NextStack) <==> !key.ctrl && (key.code
                == KeyCode::Down || typed(key, 'j'))
            &&& c == Command::Select(SelectCommand::PrevStack) <==> !key.ctrl && (key.code
                == KeyCode::Up || typed(key, 'k'))
            &&& c == Command::Select(SelectCommand::ToggleSidebar) <==> plainly(key, '`')
        }),
{
}

/// Law: over the dashboard J and K scroll the logs by a line, control with d and
/// u by ten, f, the space and PageDown by a page down and b and PageUp up, g to
/// the oldest line and G to the newest; y and Y copy and say so, v starts copy
/// mode and z zooms.
pub proof fn keys_of_the_logs(
    around: Surround,
    key: KeyEvent,
    n: usize,
    all: bool,
    announce: bool,
    leave: bool,
)
    requires
        !around.panel,
    ensures
        ({
            let c = key_means(Mode::Main, around, key);
            &&& c == Command::Logs(LogCommand::Down(n)) <==> (n == 1 && plainly(key, 'J'))
                    || (n == 10 && chord(key, 'd'))
            &&& c == Command::Logs(LogCommand::Up(n)) <==> (n == 1 && plainly(key, 'K'))
                    || (n == 10 && chord(key, 'u'))
            &&& c == Command::Logs(LogCommand::PageDown) <==> !key.ctrl && (key.code
                == KeyCode::PageDown || typed(key, ' ') || typed(key, 'f'))
            &&& c == Command::Logs(LogCommand::PageUp) <==> !key.ctrl && (key.code
                == KeyCode::PageUp || typed(key, 'b'))
            &&& c == Command::Logs(LogCommand::Top) <==> plainly(key, 'g')
            &&& c == Command::Logs(LogCommand::Bottom) <==> plainly(key, 'G')
            &&& c == Command::Logs(LogCommand::Copy { all, announce, leave })
                    <==> plainly(
                    key,
                    if all {
                        'Y'
                    } else {
                        'y'
                    },
                ) && announce && !leave
            &&& c == Command::Logs(LogCommand::EnterCopyMode) <==> plainly(key, 'v')
            &&& c == Command::Logs(LogCommand::ToggleZoom) <==> plainly(key, 'z')
            &&& c != Command::Logs(LogCommand::LeaveCopyMode)
            &&& c != Command::Logs(LogCommand::LeaveZoom)
        }),
{
}

/// Law: over the dashboard w asks for a new worktree and x to remove one, i
/// opens the stack's details, the comma the settings, n the notices and ? the
/// help: each only without control, and no other key opens one of them.
pub proof fn keys_of_the_overlays(around: Surround, key: KeyEvent)
    requires
        !around.panel,
    ensures
        ({
            let c = key_means(Mode::Main, around, key);
            &&& c == Command::Outer(OuterCommand::AskAdd) <==> plainly(key, 'w')
            &&& c == Command::Outer(OuterCommand::AskRemove) <==> plainly(key, 'x')
            &&& c == Command::Outer(OuterCommand::OpenInfo) <==> plainly(key, 'i')
            &&& c == Command::Overlay(OverlayCommand::OpenSettings) <==> plainly(key, ',')
            &&& c == Command::Overlay(OverlayCommand::ToggleNotifications) <==> plainly(key, 'n')
            &&& c == Command::Overlay(OverlayCommand::ToggleHelp) <==> plainly(key, '?')
            &&& c matches Command::Outer(o) ==> o is AskAdd || o is AskRemove || o is OpenInfo
            &&& c matches Command::Overlay(o) ==> o is OpenSettings || o is ToggleNotifications
                || o is ToggleHelp
        }),
{
}

/// Law: the help covers no key but Esc, which hides it: every other one does
/// what it does over the dashboard.
pub proof fn help_lets_keys_through(around: Surround, key: KeyEvent)
    requires
        !around.panel,
    ensures
        key_means(Mode::Help, around, key) == if key.code == KeyCode::Esc {
            Command::Overlay(OverlayCommand::HideHelp)
        } else {
            key_means(Mode::Main, around, key)
        },
{
}

/// The keys that the open action panel takes for itself.
pub open spec fn panel_takes(around: Surround, key: KeyEvent) -> bool {
    match key.code {
        KeyCode::Up | KeyCode::Down | KeyCode::Left | KeyCode::Right => true,
        KeyCode::Enter | KeyCode::Esc => true,
        KeyCode::Char(c) => c == 'j' || c == 'k' || c == 'h' || c == 'l' || c == 'a' || (c == 'c'
            && around.running),
        _ => false,
    }
}

/// Law: the open action panel takes up and down to move, Enter to run, a and Esc
/// to close, left and right to go from service to service and, while a task
/// runs, c to cancel it. Every other key does what it does without the panel,
/// and so does every key while a task or the skill prompt asks.
pub proof fn keys_of_the_action_panel(mode: Mode, around: Surround, key: KeyEvent)
    requires
        around.panel,
    ensures
        ({
            let c = key_means(mode, around, key);
            let without = key_means(mode, Surround { panel: false, ..around }, key);
            let up = key.code == KeyCode::Up || typed(key, 'k');
            let down = key.code == KeyCode::Down || typed(key, 'j');
            let left = key.code == KeyCode::Left || typed(key, 'h');
            let right = key.code == KeyCode::Right || typed(key, 'l');
            if mode is Skill || mode is Approval || !panel_takes(around, key) {
                c == without
            } else {
                &&& c == Command::Outer(OuterCommand::PanelPrevious) <==> up
                &&& c == Command::Outer(OuterCommand::PanelNext) <==> down
                &&& c == Command::Outer(OuterCommand::RunSelected) <==> key.code == KeyCode::Enter
                &&& c == Command::Outer(OuterCommand::ClosePanel) <==> typed(key, 'a') || key.code
                    == KeyCode::Esc
                &&& c == Command::Select(SelectCommand::PrevService) <==> left
                &&& c == Command::Select(SelectCommand::NextService) <==> right
                &&& c == Command::Outer(OuterCommand::CancelTask) <==> typed(key, 'c')
            }
        }),
{
}

/// Law: what has the keyboard. The skill prompt comes before everything, a task
/// that asks before the rest; copy mode before the stopped screen, that before
/// a port conflict, that before the zoomed logs, those before the question
/// whether to quit, that before the settings, those before the worktree
/// prompts, the removal before the addition, these before the stack's details,
/// those before the notices, and those before the help. The dashboard has it
/// exactly when none of them is up.
pub proof fn overlays_have_an_order(v: TuiView, around: Surround)
    ensures
        ({
            let m = mode_of(v, around);
            let skill = v.modals.skill_dialog is Some;
            let ask = skill || around.approval;
            let copy = ask || v.layout.copy_mode;
            let stopped = copy || v.session.stopped;
            let conflict = stopped || v.modals.port_conflict is Some;
            let zoom = conflict || v.layout.zoom;
            let quit = zoom || v.modals.quit_confirm;
            let settings = quit || v.modals.settings is Some;
            let remove = settings || around.worktree_remove;
            let add = remove || around.worktree_add;
            let info = add || around.stack_info;
            let notices = info || v.notices.visible;
            let help = notices || v.modals.help_visible;
            &&& m is Skill <==> skill
            &&& m matches Mode::Skill(kind) ==> kind == v.modals.skill_dialog->0.kind
            &&& m is Approval <==> ask && !skill
            &&& m is CopyMode <==> copy && !ask
            &&& m is Stopped <==> stopped && !copy
            &&& m is PortConflict <==> conflict && !stopped
            &&& m is Zoom <==> zoom && !conflict
            &&& m is QuitConfirm <==> quit && !zoom
            &&& m is Settings <==> settings && !quit
            &&& m is WorktreeRemove <==> remove && !settings
            &&& m is WorktreeAdd <==> add && !remove
            &&& m is StackInfo <==> info && !add
            &&& m is Notifications <==> notices && !info
            &&& m is Help <==> help && !notices
            &&& m is Main <==> !help
        }),
{
}

} // verus!
