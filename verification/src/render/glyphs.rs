//! Glyphs, colours and labels of states.
use vstd::prelude::*;

use crate::protocol::{ServiceState, StateView, StepState};
use crate::state::{StackHealth, ToastKind};
use crate::text::{pieces, pieces_nonempty, split};
use crate::theme::{truncate, truncated, Color, Palette};

use super::paint::{inked, Style};

verus! {

/// The colour of a dependency check.
#[verifier::allow_in_spec]
pub fn step_color(p: &Palette, state: StepState) -> Color
    returns
        (match state {
            StepState::Passed | StepState::SkippedThisRun => p.green,
            StepState::Overridden => p.yellow,
            StepState::Failed | StepState::ProvisionFailed => p.red,
            StepState::Unknown => p.overlay0,
        }),
{
    match state {
        StepState::Passed | StepState::SkippedThisRun => p.green,
        StepState::Overridden => p.yellow,
        StepState::Failed | StepState::ProvisionFailed => p.red,
        StepState::Unknown => p.overlay0,
    }
}

/// The style of a dependency check's name.
#[verifier::allow_in_spec]
pub fn step_text_style(p: &Palette, state: StepState) -> Style
    returns
        (match state {
            StepState::Unknown => inked(p.overlay0),
            _ => inked(p.subtext0),
        }),
{
    match state {
        StepState::Unknown => inked(p.overlay0),
        _ => inked(p.subtext0),
    }
}

pub open spec fn step_mark(state: StepState) -> Seq<char> {
    match state {
        StepState::Passed | StepState::SkippedThisRun => "✓"@,
        StepState::Overridden => "!"@,
        StepState::Failed | StepState::ProvisionFailed => "✗"@,
        StepState::Unknown => "·"@,
    }
}

/// The glyph of a dependency check.
pub fn step_glyph(state: StepState) -> (r: &'static str)
    ensures
        r@ == step_mark(state),
{
    match state {
        StepState::Passed | StepState::SkippedThisRun => "✓",
        StepState::Overridden => "!",
        StepState::Failed | StepState::ProvisionFailed => "✗",
        StepState::Unknown => "·",
    }
}

/// The glyph of a service. One that is starting or restarting shows the
/// spinner.
pub open spec fn dot_of(state: StateView, spinner: char) -> Seq<char> {
    match state {
        StateView::Running { degraded, .. } => if degraded {
            "◐"@
        } else {
            "●"@
        },
        StateView::Starting | StateView::Restarting { .. } => seq![spinner],
        StateView::Failed { .. } | StateView::CrashLoop { .. } => "✗"@,
        StateView::External { healthy } => if healthy {
            "◇"@
        } else {
            "✗"@
        },
        StateView::Stopped | StateView::WaitingOnDependency { .. } => "○"@,
    }
}

/// Status glyph for a service. Starting and restarting services animate with
/// the `spinner` frame so that the row reads as live.
pub fn service_dot(state: &ServiceState, spinner: char) -> (r: String)
    ensures
        r@ == dot_of(state@, spinner),
{
    match state {
        ServiceState::Running { degraded, .. } => {
            if *degraded {
                "◐".to_owned()
            } else {
                "●".to_owned()
            }
        },
        ServiceState::Starting | ServiceState::Restarting { .. } => {
            let mut r = String::new();
            r.push(spinner);
            assert(r@ =~= seq![spinner]);
            r
        },
        ServiceState::Failed { .. } | ServiceState::CrashLoop { .. } => "✗".to_owned(),
        ServiceState::External { healthy } => {
            if *healthy {
                "◇".to_owned()
            } else {
                "✗".to_owned()
            }
        },
        ServiceState::Stopped | ServiceState::WaitingOnDependency { .. } => "○".to_owned(),
    }
}

pub open spec fn color_of(p: Palette, state: StateView) -> Color {
    match state {
        StateView::Running { degraded, .. } => if degraded {
            p.yellow
        } else {
            p.green
        },
        StateView::Starting | StateView::Restarting { .. } => p.yellow,
        StateView::Failed { .. } | StateView::CrashLoop { .. } => p.red,
        StateView::External { healthy } => if healthy {
            p.teal
        } else {
            p.red
        },
        StateView::Stopped | StateView::WaitingOnDependency { .. } => p.overlay0,
    }
}

/// The colour of a service.
pub fn service_color(p: &Palette, state: &ServiceState) -> (r: Color)
    ensures
        r == color_of(*p, state@),
{
    match state {
        ServiceState::Running { degraded, .. } => {
            if *degraded {
                p.yellow
            } else {
                p.green
            }
        },
        ServiceState::Starting | ServiceState::Restarting { .. } => p.yellow,
        ServiceState::Failed { .. } | ServiceState::CrashLoop { .. } => p.red,
        ServiceState::External { healthy } => {
            if *healthy {
                p.teal
            } else {
                p.red
            }
        },
        ServiceState::Stopped | ServiceState::WaitingOnDependency { .. } => p.overlay0,
    }
}

pub open spec fn label_of(state: StateView) -> Seq<char> {
    match state {
        StateView::Stopped => "stopped"@,
        StateView::Starting => "starting"@,
        StateView::Running { degraded, .. } => if degraded {
            "running (degraded)"@
        } else {
            "running"@
        },
        StateView::WaitingOnDependency { .. } => "waiting on deps"@,
        StateView::Restarting { .. } => "restarting"@,
        StateView::CrashLoop { .. } => "crash loop"@,
        StateView::Failed { .. } => "failed"@,
        StateView::External { healthy } => if healthy {
            "external (healthy)"@
        } else {
            "external (unhealthy)"@
        },
    }
}

/// A service's state in words.
pub fn state_label(state: &ServiceState) -> (r: &'static str)
    ensures
        r@ == label_of(state@),
{
    match state {
        ServiceState::Stopped => "stopped",
        ServiceState::Starting => "starting",
        ServiceState::Running { degraded, .. } => {
            if *degraded {
                "running (degraded)"
            } else {
                "running"
            }
        },
        ServiceState::WaitingOnDependency { .. } => "waiting on deps",
        ServiceState::Restarting { .. } => "restarting",
        ServiceState::CrashLoop { .. } => "crash loop",
        ServiceState::Failed { .. } => "failed",
        ServiceState::External { healthy } => {
            if *healthy {
                "external (healthy)"
            } else {
                "external (unhealthy)"
            }
        },
    }
}

pub open spec fn health_mark(p: Palette, health: StackHealth) -> (Seq<char>, Color) {
    match health {
        StackHealth::AllRunning => ("●"@, p.green),
        StackHealth::SomeRunning => ("◐"@, p.yellow),
        StackHealth::Idle => ("○"@, p.overlay0),
        StackHealth::Failed => ("✗"@, p.red),
        StackHealth::Placeholder => ("○"@, p.surface1),
    }
}

/// A single status dot (glyph and colour) summarising a stack's health.
pub fn health_dot(p: &Palette, health: StackHealth) -> (r: (&'static str, Color))
    ensures
        (r.0@, r.1) == health_mark(*p, health),
{
    match health {
        StackHealth::AllRunning => ("●", p.green),
        StackHealth::SomeRunning => ("◐", p.yellow),
        StackHealth::Idle => ("○", p.overlay0),
        StackHealth::Failed => ("✗", p.red),
        StackHealth::Placeholder => ("○", p.surface1),
    }
}

/// The colour of a toast's dot.
#[verifier::allow_in_spec]
pub fn toast_color(p: &Palette, kind: ToastKind) -> Color
    returns
        (match kind {
            ToastKind::Failed => p.red,
            ToastKind::Ready => p.green,
            ToastKind::Info => p.accent,
        }),
{
    match kind {
        ToastKind::Failed => p.red,
        ToastKind::Ready => p.green,
        ToastKind::Info => p.accent,
    }
}

/// A remote host as the sidebar names it: without a user, the first label of
/// its name, cut to fourteen columns.
pub open spec fn host_label(host: Seq<char>) -> Seq<char> {
    truncated(pieces(pieces(host, '@').last(), '.')[0], 14)
}

/// Shortens a remote host for the sidebar badge: drops any `user@`, keeps the
/// first DNS label, capped so that a long name can't crowd the sidebar.
pub fn short_host(host: &str) -> (r: String)
    ensures
        r@ == host_label(host@),
{
    proof {
        pieces_nonempty(host@, '@');
    }
    let users = split(host, '@');
    let after_at = &users[users.len() - 1];
    proof {
        pieces_nonempty(after_at@, '.');
    }
    let labels = split(after_at.as_str(), '.');
    truncate(labels[0].as_str(), 14)
}

} // verus!
