//! Commands on the selected service and on the session, and what follows when
//! outside work has been done.
use std::time::Instant;

use vstd::prelude::*;

use crate::protocol::{ClientMessage, ClientView};
use crate::state::settings::{SettingWrite, WriteView};
use crate::state::toasts::outcome_kind;
use crate::state::{ActionView, ModalsView, PortConflictAction, ToastKind, TuiState, TuiView};
use crate::text::{join, joined, opt_str, texts};

use super::keys::{Command, ServiceCommand, SessionCommand};
use super::perform::{
    asking, copying, no_effect, perform_logs, perform_overlay, perform_selection, Effect,
    EffectView, Request, RequestView, Setup,
};
use super::urls::{plan_url, planned, PlanView, UrlPlan};

verus! {

/// The state after the URL of the selected service was to be opened.
pub open spec fn open_done(v: TuiView, plan: PlanView, now: Instant) -> TuiView {
    match plan {
        PlanView::Nothing => v,
        PlanView::NoUrl { name } => v.notified("open"@, name + " has no URL"@, now),
        PlanView::NoPort { name } => v.notified("open"@, name + " has no port yet"@, now),
        PlanView::Web { .. } => v,
        PlanView::Address { name, url } => v.notified(
            "open"@,
            name + ": no open URL — copied "@ + url + " (set url= to open)"@,
            now,
        ),
    }
}

pub open spec fn open_effect(plan: PlanView) -> EffectView {
    match plan {
        PlanView::Web { url, .. } => EffectView::asking(RequestView::OpenUrl(url)),
        PlanView::Address { url, .. } => EffectView::copying(Some(url)),
        _ => EffectView::none(),
    }
}

/// The state after the URL of the selected service was to be copied.
pub open spec fn copy_done(v: TuiView, plan: PlanView, now: Instant) -> TuiView {
    match plan {
        PlanView::Nothing => v,
        PlanView::NoUrl { name } => v.passing("copy"@, name + " has no URL"@, now),
        PlanView::NoPort { name } => v.notified("copy"@, name + " has no port yet"@, now),
        PlanView::Web { url, .. } => v.passing("copy"@, "copied "@ + url, now),
        PlanView::Address { url, .. } => v.passing("copy"@, "copied "@ + url, now),
    }
}

pub open spec fn copy_effect(plan: PlanView) -> EffectView {
    match plan {
        PlanView::Web { url, .. } => EffectView::copying(Some(url)),
        PlanView::Address { url, .. } => EffectView::copying(Some(url)),
        _ => EffectView::none(),
    }
}

/// The message that a command sends for the service `name`.
pub open spec fn service_message(c: ServiceCommand, name: Seq<char>) -> ClientView {
    match c {
        ServiceCommand::Stop => ClientView::Stop { service: name },
        ServiceCommand::Restart => ClientView::Restart { service: name },
        _ => ClientView::Start { service: name, skip_deps: false },
    }
}

impl TuiView {
    /// The state after a command on the selected service.
    pub open spec fn service_done(self, c: ServiceCommand, now: Instant) -> TuiView {
        match c {
            ServiceCommand::OpenUrl => open_done(self, planned(self.stacks.selected()), now),
            ServiceCommand::CopyUrl => copy_done(self, planned(self.stacks.selected()), now),
            _ => self,
        }
    }

    /// Start, stop and restart go to the daemon that runs the selected service.
    pub open spec fn service_effect(self, c: ServiceCommand) -> EffectView {
        match c {
            ServiceCommand::OpenUrl => open_effect(planned(self.stacks.selected())),
            ServiceCommand::CopyUrl => copy_effect(planned(self.stacks.selected())),
            _ => match self.stacks.command_target() {
                Some((id, name)) => EffectView::asking(
                    RequestView::Send { id, message: service_message(c, name) },
                ),
                None => EffectView::none(),
            },
        }
    }

    /// Quitting asks first, where it would stop services and is configured to
    /// ask.
    pub open spec fn asks_to_quit(self, setup: Setup) -> bool {
        self.session.confirms_quit() && !setup.no_shutdown
    }

    /// The state after a command on the session.
    pub open spec fn session_done(self, c: SessionCommand, setup: Setup, now: Instant) -> TuiView {
        match c {
            SessionCommand::StartStack => if setup.cwd_known {
                self.notified("devme"@, "starting the stack…"@, now)
            } else {
                self
            },
            SessionCommand::Quit => if self.asks_to_quit(setup) {
                self.with_modals(ModalsView { quit_confirm: true, ..self.modals })
            } else {
                self
            },
            SessionCommand::CopyDebugPrompt => self.passing(
                "copy"@,
                "debug prompt copied to clipboard"@,
                now,
            ),
            _ => self,
        }
    }

    /// What a command on the session leaves to be done.
    pub open spec fn session_effect(self, c: SessionCommand, setup: Setup) -> EffectView {
        match c {
            SessionCommand::StartStack => if setup.cwd_known {
                EffectView::asking(RequestView::StartStack)
            } else {
                EffectView::none()
            },
            SessionCommand::Leave => EffectView::asking(
                RequestView::Quit { shutdown: false, cancel_task: false },
            ),
            SessionCommand::Detach => EffectView::asking(
                RequestView::Quit { shutdown: false, cancel_task: true },
            ),
            SessionCommand::StopAndQuit => EffectView::asking(
                RequestView::Quit {
                    shutdown: !setup.no_shutdown && setup.cwd_known,
                    cancel_task: true,
                },
            ),
            SessionCommand::Quit => if self.asks_to_quit(setup) {
                EffectView::none()
            } else {
                EffectView::asking(
                    RequestView::Quit {
                        shutdown: !setup.no_shutdown && setup.cwd_known,
                        cancel_task: true,
                    },
                )
            },
            SessionCommand::ReloadConfig => EffectView::asking(RequestView::ReloadConfig),
            SessionCommand::CopyDebugPrompt => EffectView::asking(RequestView::DebugPrompt),
        }
    }

    /// The state after a command.
    pub open spec fn performed(
        self,
        c: Command,
        setup: Setup,
        now: Instant,
        ages: Seq<u64>,
    ) -> TuiView {
        match c {
            Command::Ignore => self,
            Command::Logs(c) => self.logs_done(c, now),
            Command::Select(c) => self.selection_done(c),
            Command::Overlay(c) => self.overlay_done(c, now, ages),
            Command::Service(c) => self.service_done(c, now),
            Command::Session(c) => self.session_done(c, setup, now),
            Command::Outer(_) => self,
        }
    }

    /// What a command leaves to be done.
    pub open spec fn effect(self, c: Command, setup: Setup, ages: Seq<u64>) -> EffectView {
        match c {
            Command::Ignore => EffectView::none(),
            Command::Logs(c) => self.logs_effect(c),
            Command::Select(_) => EffectView::none(),
            Command::Overlay(c) => self.overlay_effect(c, ages),
            Command::Service(c) => self.service_effect(c),
            Command::Session(c) => self.session_effect(c, setup),
            Command::Outer(c) => EffectView::asking(RequestView::Outer(c)),
        }
    }
}

fn two(a: &str, b: &str) -> (r: String)
    ensures
        r@ == a@ + b@,
{
    let mut r = a.to_owned();
    r.append(b);
    r
}

fn open_planned(state: &mut TuiState, plan: UrlPlan, now: Instant) -> (r: Effect)
    requires
        old(state).wf(),
    ensures
        final(state).wf(),
        final(state)@ == open_done(old(state)@, plan@, now),
        r@ == open_effect(plan@),
{
    match plan {
        UrlPlan::Nothing => no_effect(),
        UrlPlan::NoUrl { name } => {
            let body = two(name.as_str(), " has no URL");
            state.push_toast_at(ToastKind::Info, "open", body.as_str(), true, now);
            no_effect()
        },
        UrlPlan::NoPort { name } => {
            let body = two(name.as_str(), " has no port yet");
            state.push_toast_at(ToastKind::Info, "open", body.as_str(), true, now);
            no_effect()
        },
        UrlPlan::Web { name: _, url } => asking(Request::OpenUrl(url)),
        UrlPlan::Address { name, url } => {
            let mut body = two(name.as_str(), ": no open URL — copied ");
            body.append(url.as_str());
            body.append(" (set url= to open)");
            state.push_toast_at(ToastKind::Info, "open", body.as_str(), true, now);
            copying(Some(url))
        },
    }
}

fn copy_planned(state: &mut TuiState, plan: UrlPlan, now: Instant) -> (r: Effect)
    requires
        old(state).wf(),
    ensures
        final(state).wf(),
        final(state)@ == copy_done(old(state)@, plan@, now),
        r@ == copy_effect(plan@),
{
    match plan {
        UrlPlan::Nothing => no_effect(),
        UrlPlan::NoUrl { name } => {
            let body = two(name.as_str(), " has no URL");
            state.push_toast_at(ToastKind::Info, "copy", body.as_str(), false, now);
            no_effect()
        },
        UrlPlan::NoPort { name } => {
            let body = two(name.as_str(), " has no port yet");
            state.push_toast_at(ToastKind::Info, "copy", body.as_str(), true, now);
            no_effect()
        },
        UrlPlan::Web { name: _, url } => {
            let body = two("copied ", url.as_str());
            state.push_toast_at(ToastKind::Info, "copy", body.as_str(), false, now);
            copying(Some(url))
        },
        UrlPlan::Address { name: _, url } => {
            let body = two("copied ", url.as_str());
            state.push_toast_at(ToastKind::Info, "copy", body.as_str(), false, now);
            copying(Some(url))
        },
    }
}

/// Carries out a command on the selected service.
pub fn perform_service(state: &mut TuiState, c: ServiceCommand, now: Instant) -> (r: Effect)
    requires
        old(state).wf(),
    ensures
        final(state).wf(),
        final(state)@ == old(state)@.service_done(c, now),
        r@ == old(state)@.service_effect(c),
{
    match c {
        ServiceCommand::OpenUrl => {
            let plan = plan_url(state.selected_service());
            return open_planned(state, plan, now);
        },
        ServiceCommand::CopyUrl => {
            let plan = plan_url(state.selected_service());
            return copy_planned(state, plan, now);
        },
        _ => {},
    }
    match state.selected_instance_and_service() {
        Some((id, service)) => {
            let message = match c {
                ServiceCommand::Stop => ClientMessage::Stop { service },
                ServiceCommand::Restart => ClientMessage::Restart { service },
                _ => ClientMessage::Start { service, skip_deps: false },
            };
            asking(Request::Send { id, message })
        },
        None => no_effect(),
    }
}

/// Carries out a command on the session.
pub fn perform_session(
    state: &mut TuiState,
    c: SessionCommand,
    setup: Setup,
    now: Instant,
) -> (r: Effect)
    requires
        old(state).wf(),
    ensures
        final(state).wf(),
        final(state)@ == old(state)@.session_done(c, setup, now),
        r@ == old(state)@.session_effect(c, setup),
{
    match c {
        SessionCommand::StartStack => {
            if !setup.cwd_known {
                return no_effect();
            }
            state.push_toast_at(ToastKind::Info, "devme", "starting the stack…", true, now);
            asking(Request::StartStack)
        },
        SessionCommand::Leave => asking(Request::Quit { shutdown: false, cancel_task: false }),
        SessionCommand::Detach => asking(Request::Quit { shutdown: false, cancel_task: true }),
        SessionCommand::StopAndQuit => asking(
            Request::Quit { shutdown: !setup.no_shutdown && setup.cwd_known, cancel_task: true },
        ),
        SessionCommand::Quit => {
            if state.confirm_quit_enabled() && !setup.no_shutdown {
                state.open_quit_confirm();
                return no_effect();
            }
            asking(
                Request::Quit {
                    shutdown: !setup.no_shutdown && setup.cwd_known,
                    cancel_task: true,
                },
            )
        },
        SessionCommand::ReloadConfig => asking(Request::ReloadConfig),
        SessionCommand::CopyDebugPrompt => {
            state.push_toast_at(
                ToastKind::Info,
                "copy",
                "debug prompt copied to clipboard",
                false,
                now,
            );
            asking(Request::DebugPrompt)
        },
    }
}

/// Carries out a command at `now`. `ages` holds the ages of the notification
/// history in seconds, newest first.
pub fn perform_at(
    state: &mut TuiState,
    c: Command,
    setup: Setup,
    now: Instant,
    ages: &Vec<u64>,
) -> (r: Effect)
    requires
        old(state).wf(),
        ages@.len() == old(state)@.notices.history.len(),
    ensures
        final(state).wf(),
        final(state)@ == old(state)@.performed(c, setup, now, ages@),
        r@ == old(state)@.effect(c, setup, ages@),
{
    match c {
        Command::Ignore => no_effect(),
        Command::Logs(c) => perform_logs(state, c, now),
        Command::Select(c) => {
            perform_selection(state, c);
            no_effect()
        },
        Command::Overlay(c) => perform_overlay(state, c, now, ages),
        Command::Service(c) => perform_service(state, c, now),
        Command::Session(c) => perform_session(state, c, setup, now),
        Command::Outer(c) => asking(Request::Outer(c)),
    }
}

/// Carries out a command.
pub fn perform(state: &mut TuiState, c: Command, setup: Setup) -> (r: Effect)
    requires
        old(state).wf(),
    ensures
        final(state).wf(),
        exists|now: Instant, ages: Seq<u64>|
            ages.len() == old(state)@.notices.history.len() && final(state)@
                == #[trigger] old(state)@.performed(c, setup, now, ages) && r@ == old(
                state,
            )@.effect(c, setup, ages),
{
    let ages = state.notif_ages();
    let now = Instant::now();
    let ghost before = state@;
    let r = perform_at(state, c, setup, now, &ages);
    assert(state@ == before.performed(c, setup, now, ages@));
    r
}

/// Tells how opening `url` in the browser went.
pub fn url_opened_at(state: &mut TuiState, url: &str, error: Option<&str>, now: Instant)
    requires
        old(state).wf(),
    ensures
        final(state).wf(),
        final(state)@ == old(state)@.notified(
            "open"@,
            match opt_str(error) {
                Some(e) => "couldn't open: "@ + e,
                None => url@,
            },
            now,
        ),
{
    match error {
        Some(e) => {
            let body = two("couldn't open: ", e);
            state.push_toast_at(ToastKind::Info, "open", body.as_str(), true, now);
        },
        None => state.push_toast_at(ToastKind::Info, "open", url, true, now),
    }
}

pub open spec fn write_key(w: WriteView) -> Seq<char> {
    match w {
        WriteView::Assign { key, .. } => key,
        WriteView::Unset { key } => key,
    }
}

/// Tells that a setting could not be saved; a setting that was saved needs no
/// word.
pub fn setting_persisted_at(
    state: &mut TuiState,
    write: &SettingWrite,
    error: Option<&str>,
    now: Instant,
)
    requires
        old(state).wf(),
    ensures
        final(state).wf(),
        final(state)@ == match opt_str(error) {
            Some(e) => old(state)@.toasted(
                ToastKind::Failed,
                "config"@,
                "couldn't save "@ + write_key(write@) + ": "@ + e,
                true,
                now,
            ),
            None => old(state)@,
        },
{
    match error {
        Some(e) => {
            let mut body = two("couldn't save ", write.key());
            body.append(": ");
            body.append(e);
            state.push_toast_at(ToastKind::Failed, "config", body.as_str(), true, now);
        },
        None => {},
    }
}

/// What a remediation that worked is called.
pub open spec fn remedy_label(action: ActionView) -> Seq<char> {
    match action {
        ActionView::StopContainer(name) => "stopped "@ + name,
        ActionView::ComposeDown(project) => "composed down "@ + project,
        ActionView::KillProcess(_) => "killed process"@,
        ActionView::Skip => "skipped"@,
    }
}

/// How a port-conflict remediation went, by the errors of its steps: a short
/// label where there were none, and all of them otherwise.
pub fn run_port_remediation(action: &PortConflictAction, errors: &Vec<String>) -> (r: Result<
    String,
    String,
>)
    ensures
        match r {
            Ok(label) => errors@.len() == 0 && label@ == remedy_label(action@),
            Err(e) => errors@.len() > 0 && e@ == joined(texts(errors@), "; "@),
        },
{
    if errors.len() > 0 {
        return Err(join(errors, "; "));
    }
    Ok(
        match action {
            PortConflictAction::StopContainer(name) => two("stopped ", name.as_str()),
            PortConflictAction::ComposeDown(project) => two("composed down ", project.as_str()),
            PortConflictAction::KillProcess(_) => "killed process".to_owned(),
            PortConflictAction::Skip => "skipped".to_owned(),
        },
    )
}

/// How a remediation went: it worked, it failed, or it could not be run.
pub enum Remedied {
    Worked(String),
    Failed(String),
    NotRun,
}

/// Tells how a remediation went. Where it worked, the service is to be
/// restarted by the daemon that reported the crash.
pub fn remediated_at(
    state: &mut TuiState,
    id: String,
    service: String,
    outcome: &Remedied,
    now: Instant,
) -> (r: Request)
    requires
        old(state).wf(),
    ensures
        final(state).wf(),
        match *outcome {
            Remedied::Worked(label) => {
                &&& final(state)@ == old(state)@.toasted(
                    outcome_kind(true),
                    "port"@,
                    label@ + " — restarting "@ + service@,
                    true,
                    now,
                )
                &&& r@ == (RequestView::Send {
                    id: id@,
                    message: ClientView::Restart { service: service@ },
                })
            },
            Remedied::Failed(e) => {
                &&& final(state)@ == old(state)@.toasted(
                    outcome_kind(false),
                    "port"@,
                    e@,
                    true,
                    now,
                )
                &&& r@ is Nothing
            },
            Remedied::NotRun => {
                &&& final(state)@ == old(state)@.toasted(
                    outcome_kind(false),
                    "port"@,
                    "remediation failed to run"@,
                    true,
                    now,
                )
                &&& r@ is Nothing
            },
        },
{
    match outcome {
        Remedied::Worked(label) => {
            let mut body = two(label.as_str(), " — restarting ");
            body.append(service.as_str());
            state.push_toast_at(ToastKind::Info, "port", body.as_str(), true, now);
            Request::Send { id, message: ClientMessage::Restart { service } }
        },
        Remedied::Failed(e) => {
            state.push_toast_at(ToastKind::Failed, "port", e.as_str(), true, now);
            Request::Nothing
        },
        Remedied::NotRun => {
            state.push_toast_at(
                ToastKind::Failed,
                "port",
                "remediation failed to run",
                true,
                now,
            );
            Request::Nothing
        },
    }
}

} // verus!
