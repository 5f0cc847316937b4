//! Commands carried out: what each does to the dashboard's state, and what it
//! leaves to be done outside.
use std::time::Instant;

use vstd::prelude::*;

use crate::lists::views;
use crate::protocol::{ClientMessage, ClientView};
use crate::state::settings::{SettingWrite, WriteView};
use crate::state::skill::SkillJob;
use crate::state::toasts::notif_line;
use crate::state::{
    ActionView, Layout, ModalsView, NoticesView, PortConflictAction, SettingsView, ToastKind,
    TuiState, TuiView,
};
use crate::text::{decimal, joined, number, opt_text};

use super::keys::{LogCommand, OuterCommand, OverlayCommand, SelectCommand};
use super::LOG_PAGE;

verus! {

/// What the loop was started with.
#[derive(Debug, Clone, Copy, PartialEq, Eq, Structural)]
pub struct Setup {
    /// Quitting leaves the daemons running.
    pub no_shutdown: bool,
    /// The working directory could be determined.
    pub cwd_known: bool,
}

/// Work that is left to be done outside.
#[derive(Debug, PartialEq, Eq)]
pub enum Request {
    Nothing,
    Send { id: String, message: ClientMessage },
    StartStack,
    Remediate { id: String, service: String, action: PortConflictAction },
    Persist(SettingWrite),
    OpenUrl(String),
    ReloadConfig,
    Skill(SkillJob),
    DebugPrompt,
    Quit { shutdown: bool, cancel_task: bool },
    Outer(OuterCommand),
}

#[allow(inconsistent_fields)]
#[verifier::ext_equal]
pub ghost enum RequestView {
    Nothing,
    Send { id: Seq<char>, message: ClientView },
    StartStack,
    Remediate { id: Seq<char>, service: Seq<char>, action: ActionView },
    Persist(WriteView),
    OpenUrl(Seq<char>),
    ReloadConfig,
    Skill(SkillJob),
    DebugPrompt,
    Quit { shutdown: bool, cancel_task: bool },
    Outer(OuterCommand),
}

impl View for Request {
    type V = RequestView;

    open spec fn view(&self) -> RequestView {
        match *self {
            Request::Nothing => RequestView::Nothing,
            Request::Send { id, message } => RequestView::Send { id: id@, message: message@ },
            Request::StartStack => RequestView::StartStack,
            Request::Remediate { id, service, action } => RequestView::Remediate {
                id: id@,
                service: service@,
                action: action@,
            },
            Request::Persist(write) => RequestView::Persist(write@),
            Request::OpenUrl(url) => RequestView::OpenUrl(url@),
            Request::ReloadConfig => RequestView::ReloadConfig,
            Request::Skill(job) => RequestView::Skill(job),
            Request::DebugPrompt => RequestView::DebugPrompt,
            Request::Quit { shutdown, cancel_task } => RequestView::Quit { shutdown, cancel_task },
            Request::Outer(c) => RequestView::Outer(c),
        }
    }
}

/// What a command leaves to be done: text for the clipboard, mouse capture to
/// be switched on or off, and a request.
#[derive(Debug, PartialEq, Eq)]
pub struct Effect {
    pub copy: Option<String>,
    pub mouse: Option<bool>,
    pub request: Request,
}

#[verifier::ext_equal]
pub ghost struct EffectView {
    pub copy: Option<Seq<char>>,
    pub mouse: Option<bool>,
    pub request: RequestView,
}

impl View for Effect {
    type V = EffectView;

    open spec fn view(&self) -> EffectView {
        EffectView { copy: opt_text(self.copy), mouse: self.mouse, request: self.request@ }
    }
}

impl EffectView {
    pub open spec fn none() -> EffectView {
        EffectView { copy: None, mouse: None, request: RequestView::Nothing }
    }

    pub open spec fn copying(text: Option<Seq<char>>) -> EffectView {
        EffectView { copy: text, mouse: None, request: RequestView::Nothing }
    }

    pub open spec fn asking(request: RequestView) -> EffectView {
        EffectView { copy: None, mouse: None, request }
    }
}

pub(crate) fn no_effect() -> (r: Effect)
    ensures
        r@ == EffectView::none(),
{
    Effect { copy: None, mouse: None, request: Request::Nothing }
}

pub(crate) fn copying(text: Option<String>) -> (r: Effect)
    ensures
        r@ == EffectView::copying(opt_text(text)),
{
    Effect { copy: text, mouse: None, request: Request::Nothing }
}

pub(crate) fn asking(request: Request) -> (r: Effect)
    ensures
        r@ == EffectView::asking(request@),
{
    Effect { copy: None, mouse: None, request }
}

/// Toast body for a log-copy action, pluralised.
pub open spec fn copied_lines(scope: Seq<char>, n: nat) -> Seq<char> {
    "copied "@ + decimal(n) + " "@ + scope + " log line"@ + if n == 1 {
        ""@
    } else {
        "s"@
    }
}

/// Toast body for a log-copy action, pluralised. `scope` is "visible" or
/// "all".
pub fn copied_lines_msg(scope: &str, n: usize) -> (r: String)
    ensures
        r@ == copied_lines(scope@, n as nat),
{
    let mut r = "copied ".to_owned();
    r.append(number(n as u64).as_str());
    r.append(" ");
    r.append(scope);
    r.append(" log line");
    r.append(
        if n == 1 {
            ""
        } else {
            "s"
        },
    );
    r
}

/// Lines as clipboard text; no lines leave the clipboard alone.
pub open spec fn clip(lines: Seq<Seq<char>>) -> Option<Seq<char>> {
    if lines.len() == 0 {
        None
    } else {
        Some(joined(lines, "\n"@))
    }
}

/// Puts lines together as clipboard text.
pub fn clipboard_text(lines: &Vec<&str>) -> (r: Option<String>)
    ensures
        opt_text(r) == clip(views(lines@)),
{
    if lines.len() == 0 {
        return None;
    }
    let ghost all = views(lines@);
    let mut r = String::new();
    let mut i: usize = 0;
    while i < lines.len()
        invariant
            i <= lines.len(),
            all == views(lines@),
            r@ == joined(all.take(i as int), "\n"@),
        decreases lines.len() - i,
    {
        assert(all.take(i + 1).drop_last() =~= all.take(i as int));
        assert(all[i as int] == lines@[i as int]@);
        if i > 0 {
            r.append("\n");
        }
        r.append(lines[i]);
        i = i + 1;
        assert(i == 1 ==> r@ =~= all[0]);
    }
    assert(all.take(i as int) =~= all);
    Some(r)
}

pub open spec fn scope_name(all: bool) -> Seq<char> {
    if all {
        "all"@
    } else {
        "visible"@
    }
}

impl TuiView {
    /// The log lines that a copy takes.
    pub open spec fn copied(self, all: bool) -> Seq<Seq<char>> {
        if all {
            self.stacks.selected_lines()
        } else {
            self.visible_lines()
        }
    }

    /// A toast that stays out of the history.
    pub open spec fn passing(self, title: Seq<char>, body: Seq<char>, now: Instant) -> TuiView {
        self.toasted(ToastKind::Info, title, body, false, now)
    }

    /// A recorded toast.
    pub open spec fn notified(self, title: Seq<char>, body: Seq<char>, now: Instant) -> TuiView {
        self.toasted(ToastKind::Info, title, body, true, now)
    }

    pub open spec fn with_copy_mode(self, on: bool) -> TuiView {
        TuiView { layout: Layout { copy_mode: on, ..self.layout }, ..self }
    }

    pub open spec fn with_zoom(self, on: bool) -> TuiView {
        TuiView { layout: Layout { zoom: on, ..self.layout }, ..self }
    }

    /// The state after a command of the log viewport.
    pub open spec fn logs_done(self, c: LogCommand, now: Instant) -> TuiView {
        match c {
            LogCommand::Down(n) => TuiView { stacks: self.stacks.scrolled_down(n as int), ..self },
            LogCommand::Up(n) => TuiView {
                stacks: self.stacks.scrolled_up(n as int, self.layout.viewport_height),
                ..self
            },
            LogCommand::PageDown => TuiView {
                stacks: self.stacks.scrolled_down(LOG_PAGE as int),
                ..self
            },
            LogCommand::PageUp => TuiView {
                stacks: self.stacks.scrolled_up(LOG_PAGE as int, self.layout.viewport_height),
                ..self
            },
            LogCommand::Top => TuiView {
                stacks: self.stacks.scrolled(
                    self.stacks.max_offset(self.layout.viewport_height) as usize,
                ),
                ..self
            },
            LogCommand::Bottom => TuiView { stacks: self.stacks.scrolled(0), ..self },
            LogCommand::Copy { all, announce, leave } => {
                let said = if announce {
                    self.passing(
                        "copy"@,
                        copied_lines(scope_name(all), self.copied(all).len()),
                        now,
                    )
                } else {
                    self
                };
                if leave {
                    said.with_copy_mode(false)
                } else {
                    said
                }
            },
            LogCommand::EnterCopyMode => self.with_copy_mode(true),
            LogCommand::LeaveCopyMode => self.with_copy_mode(false),
            LogCommand::ToggleZoom => self.with_zoom(!self.layout.zoom),
            LogCommand::LeaveZoom => self.with_zoom(false),
        }
    }

    /// What a command of the log viewport leaves to be done. The mouse is let
    /// go in copy mode, so that the terminal's own selection works.
    pub open spec fn logs_effect(self, c: LogCommand) -> EffectView {
        match c {
            LogCommand::Copy { all, leave, .. } => EffectView {
                copy: clip(self.copied(all)),
                mouse: if leave {
                    Some(true)
                } else {
                    None
                },
                request: RequestView::Nothing,
            },
            LogCommand::EnterCopyMode => EffectView {
                copy: None,
                mouse: Some(false),
                request: RequestView::Nothing,
            },
            LogCommand::LeaveCopyMode => EffectView {
                copy: None,
                mouse: Some(true),
                request: RequestView::Nothing,
            },
            _ => EffectView::none(),
        }
    }

    /// The state after a command that moves the selection.
    pub open spec fn selection_done(self, c: SelectCommand) -> TuiView {
        match c {
            SelectCommand::PrevService => TuiView { stacks: self.stacks.prev_service(), ..self },
            SelectCommand::NextService => TuiView { stacks: self.stacks.next_service(), ..self },
            SelectCommand::PrevStack => TuiView { stacks: self.stacks.prev_instance(), ..self },
            SelectCommand::NextStack => TuiView { stacks: self.stacks.next_instance(), ..self },
            SelectCommand::ToggleSidebar => TuiView {
                layout: Layout {
                    sidebar_collapsed: !self.layout.sidebar_collapsed,
                    ..self.layout
                },
                ..self
            },
        }
    }
}

/// Carries out a command of the log viewport.
pub fn perform_logs(state: &mut TuiState, c: LogCommand, now: Instant) -> (r: Effect)
    requires
        old(state).wf(),
    ensures
        final(state).wf(),
        final(state)@ == old(state)@.logs_done(c, now),
        r@ == old(state)@.logs_effect(c),
{
    match c {
        LogCommand::Down(n) => state.log_scroll_down(n),
        LogCommand::Up(n) => state.log_scroll_up(n),
        LogCommand::PageDown => state.log_page_down(LOG_PAGE),
        LogCommand::PageUp => state.log_page_up(LOG_PAGE),
        LogCommand::Top => state.log_scroll_top(),
        LogCommand::Bottom => state.log_scroll_bottom(),
        LogCommand::Copy { all, announce, leave } => {
            let lines = if all {
                state.all_log_lines()
            } else {
                state.visible_log_lines()
            };
            let n: usize = lines.len();
            let copy = clipboard_text(&lines);
            assert(views(lines@).len() == n);
            if announce {
                let body = copied_lines_msg(
                    if all {
                        "all"
                    } else {
                        "visible"
                    },
                    n,
                );
                state.push_toast_at(ToastKind::Info, "copy", body.as_str(), false, now);
            }
            if leave {
                state.exit_copy_mode();
                return Effect { copy, mouse: Some(true), request: Request::Nothing };
            }
            return copying(copy);
        },
        LogCommand::EnterCopyMode => {
            state.enter_copy_mode();
            return Effect { copy: None, mouse: Some(false), request: Request::Nothing };
        },
        LogCommand::LeaveCopyMode => {
            state.exit_copy_mode();
            return Effect { copy: None, mouse: Some(true), request: Request::Nothing };
        },
        LogCommand::ToggleZoom => state.toggle_zoom(),
        LogCommand::LeaveZoom => state.exit_zoom(),
    }
    no_effect()
}

/// Carries out a command that moves the selection.
pub fn perform_selection(state: &mut TuiState, c: SelectCommand)
    requires
        old(state).wf(),
    ensures
        final(state).wf(),
        final(state)@ == old(state)@.selection_done(c),
{
    match c {
        SelectCommand::PrevService => state.select_prev_service(),
        SelectCommand::NextService => state.select_next_service(),
        SelectCommand::PrevStack => state.select_prev_instance(),
        SelectCommand::NextStack => state.select_next_instance(),
        SelectCommand::ToggleSidebar => state.toggle_sidebar(),
    }
}

impl TuiView {
    pub open spec fn with_modals(self, modals: ModalsView) -> TuiView {
        TuiView { modals, ..self }
    }

    pub open spec fn with_notices(self, notices: NoticesView) -> TuiView {
        TuiView { notices, ..self }
    }

    /// The clipboard text of the selected notification, `ages` holding the ages
    /// of the history in seconds, newest first.
    pub open spec fn selected_notice(self, ages: Seq<u64>) -> Option<Seq<char>> {
        if self.notices.history.len() == 0 {
            None
        } else {
            Some(
                notif_line(
                    self.notices.at(self.notices.selected()),
                    ages[self.notices.selected()],
                ),
            )
        }
    }

    /// The clipboard text of the whole history; nothing where it is empty.
    pub open spec fn all_notices(self, ages: Seq<u64>) -> Option<Seq<char>> {
        let text = joined(self.notices.lines(ages), "\n"@);
        if text.len() == 0 {
            None
        } else {
            Some(text)
        }
    }

    /// The state after an overlay's command.
    pub open spec fn overlay_done(
        self,
        c: OverlayCommand,
        now: Instant,
        ages: Seq<u64>,
    ) -> TuiView {
        let modals = self.modals;
        match c {
            OverlayCommand::InstallSkill { .. } | OverlayCommand::UpdateSkill { .. }
            | OverlayCommand::DismissSkill => self.with_modals(
                ModalsView { skill_dialog: None, ..modals },
            ),
            OverlayCommand::MoveConflict(d) => self.with_modals(modals.conflict_moved(d)),
            OverlayCommand::TakeConflict | OverlayCommand::DismissConflict => self.with_modals(
                ModalsView { port_conflict: None, ..modals },
            ),
            OverlayCommand::OpenSettings => self.with_modals(
                ModalsView { settings: Some(SettingsView::opened(self.session.config)), ..modals },
            ),
            OverlayCommand::MoveSetting(d) => self.with_modals(modals.settings_moved(d)),
            OverlayCommand::ChangeSetting(d) => self.setting_changed(d),
            OverlayCommand::CloseSettings => self.with_modals(
                ModalsView { settings: None, ..modals },
            ),
            OverlayCommand::ToggleNotifications => self.with_notices(self.notices.toggled()),
            OverlayCommand::NewerNotification => self.with_notices(self.notices.cursor_up(1)),
            OverlayCommand::OlderNotification => self.with_notices(self.notices.cursor_down(1)),
            OverlayCommand::CopyNotification => match self.selected_notice(ages) {
                Some(_) => self.passing("copy"@, "notification copied"@, now),
                None => self,
            },
            OverlayCommand::CopyAllNotifications => match self.all_notices(ages) {
                Some(_) => self.passing("copy"@, "all notifications copied"@, now),
                None => self,
            },
            OverlayCommand::CloseNotifications => self.with_notices(
                NoticesView { visible: false, ..self.notices },
            ),
            OverlayCommand::ToggleHelp => self.with_modals(
                ModalsView { help_visible: !modals.help_visible, ..modals },
            ),
            OverlayCommand::HideHelp => self.with_modals(
                ModalsView { help_visible: false, ..modals },
            ),
            OverlayCommand::CancelQuit => self.with_modals(
                ModalsView { quit_confirm: false, ..modals },
            ),
        }
    }

    /// What an overlay's command leaves to be done.
    pub open spec fn overlay_effect(self, c: OverlayCommand, ages: Seq<u64>) -> EffectView {
        match c {
            OverlayCommand::InstallSkill { global } => EffectView::asking(
                RequestView::Skill(SkillJob::Install { global }),
            ),
            OverlayCommand::UpdateSkill { always } => EffectView::asking(
                RequestView::Skill(SkillJob::Update { always }),
            ),
            OverlayCommand::TakeConflict => match self.modals.port_conflict {
                Some(d) => {
                    let action = d.options[d.selected as int].action;
                    if action is Skip {
                        EffectView::none()
                    } else {
                        EffectView::asking(
                            RequestView::Remediate {
                                id: d.instance_id,
                                service: d.service,
                                action,
                            },
                        )
                    }
                },
                None => EffectView::none(),
            },
            OverlayCommand::ChangeSetting(d) => match self.modals.settings {
                Some(s) => EffectView::asking(RequestView::Persist(s.write(d))),
                None => EffectView::none(),
            },
            OverlayCommand::CopyNotification => EffectView::copying(self.selected_notice(ages)),
            OverlayCommand::CopyAllNotifications => EffectView::copying(self.all_notices(ages)),
            _ => EffectView::none(),
        }
    }
}

/// Carries out an overlay's command. `ages` holds the ages of the notification
/// history in seconds, newest first.
pub fn perform_overlay(
    state: &mut TuiState,
    c: OverlayCommand,
    now: Instant,
    ages: &Vec<u64>,
) -> (r: Effect)
    requires
        old(state).wf(),
        ages@.len() == old(state)@.notices.history.len(),
    ensures
        final(state).wf(),
        final(state)@ == old(state)@.overlay_done(c, now, ages@),
        r@ == old(state)@.overlay_effect(c, ages@),
{
    match c {
        OverlayCommand::InstallSkill { global } => {
            let job = state.apply_skill_install(global);
            return asking(Request::Skill(job));
        },
        OverlayCommand::UpdateSkill { always } => {
            let job = state.apply_skill_update(always);
            return asking(Request::Skill(job));
        },
        OverlayCommand::DismissSkill => state.dismiss_skill_dialog(),
        OverlayCommand::MoveConflict(d) => state.port_conflict_move(d),
        OverlayCommand::TakeConflict => {
            match state.take_port_conflict_choice() {
                Some((id, service, action)) => {
                    if !matches!(action, PortConflictAction::Skip) {
                        return asking(Request::Remediate { id, service, action });
                    }
                },
                None => {},
            }
        },
        OverlayCommand::DismissConflict => state.dismiss_port_conflict(),
        OverlayCommand::OpenSettings => state.open_settings(),
        OverlayCommand::MoveSetting(d) => state.settings_move(d),
        OverlayCommand::ChangeSetting(d) => {
            match state.settings_change(d) {
                Some(write) => {
                    return asking(Request::Persist(write));
                },
                None => {},
            }
        },
        OverlayCommand::CloseSettings => state.close_settings(),
        OverlayCommand::ToggleNotifications => state.toggle_notifications(),
        OverlayCommand::NewerNotification => state.notif_cursor_up(1),
        OverlayCommand::OlderNotification => state.notif_cursor_down(1),
        OverlayCommand::CopyNotification => {
            return copy_notice(state, now, ages);
        },
        OverlayCommand::CopyAllNotifications => {
            let text = state.notif_all_text_at(ages);
            if !text.as_str().is_empty() {
                state.push_toast_at(
                    ToastKind::Info,
                    "copy",
                    "all notifications copied",
                    false,
                    now,
                );
                return copying(Some(text));
            }
        },
        OverlayCommand::CloseNotifications => state.close_notifications(),
        OverlayCommand::ToggleHelp => state.toggle_help(),
        OverlayCommand::HideHelp => state.hide_help(),
        OverlayCommand::CancelQuit => state.cancel_quit_confirm(),
    }
    no_effect()
}

fn copy_notice(state: &mut TuiState, now: Instant, ages: &Vec<u64>) -> (r: Effect)
    requires
        old(state).wf(),
        ages@.len() == old(state)@.notices.history.len(),
    ensures
        final(state).wf(),
        final(state)@ == old(state)@.overlay_done(OverlayCommand::CopyNotification, now, ages@),
        r@ == old(state)@.overlay_effect(OverlayCommand::CopyNotification, ages@),
{
    let n: usize = ages.len();
    if n == 0 {
        return no_effect();
    }
    let cursor: usize = state.notif_cursor();
    let at: usize = if cursor < n {
        cursor
    } else {
        n - 1
    };
    match state.notif_selected_text_at(ages[at]) {
        Some(text) => {
            state.push_toast_at(ToastKind::Info, "copy", "notification copied", false, now);
            copying(Some(text))
        },
        None => no_effect(),
    }
}

} // verus!
