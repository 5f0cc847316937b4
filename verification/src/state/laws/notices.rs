//! Notices: what the history keeps, and what the corner shows.
use std::time::Instant;

use vstd::prelude::*;

use crate::protocol::MessageView;
use crate::state::toasts::{age_text, pushed, unexpired};
use crate::state::{NoticesView, ToastKind, ToastView, TuiView, MAX_NOTIF_HISTORY, TOAST_TTL};
use crate::text::decimal;

verus! {

/// Law: every toast is shown, and it is the newest. Only a recorded one enters
/// the history, where it is the newest too; a passing one leaves the history
/// as it was.
pub proof fn recorded_toasts_enter_the_history(
    n: NoticesView,
    kind: ToastKind,
    title: Seq<char>,
    body: Seq<char>,
    record: bool,
    born: Instant,
)
    requires
        n.wf(),
    ensures
        ({
            let t = ToastView { kind, title, body, born };
            let after = n.toasted(kind, title, body, record, born);
            &&& after.wf()
            &&& after.toasts.len() > 0 && after.toasts.last() == t
            &&& record ==> after.history.len() > 0 && after.history.last() == t && after.at(0) == t
            &&& !record ==> after.history == n.history
        }),
{
}

/// Law: the history forgets nothing until it is full, and then only its
/// oldest entry.
pub proof fn history_keeps_the_newest(n: NoticesView, t: ToastView)
    requires
        n.wf(),
    ensures
        ({
            let after = n.toasted(t.kind, t.title, t.body, true, t.born);
            &&& after.history.is_suffix_of(n.history.push(t))
            &&& n.history.len() < MAX_NOTIF_HISTORY ==> after.history == n.history.push(t)
            &&& n.history.len() == MAX_NOTIF_HISTORY ==> after.history == n.history.skip(1).push(t)
        }),
{
    let all = n.history.push(t);
    let after = pushed(n.history, t, MAX_NOTIF_HISTORY as nat);
    assert(ToastView { kind: t.kind, title: t.title, body: t.body, born: t.born } == t);
    assert(after =~= all.skip(all.len() - after.len()));
    if n.history.len() == MAX_NOTIF_HISTORY {
        assert(after =~= n.history.skip(1).push(t));
    }
}

/// Law: the history outlives the toasts. A tick takes expired toasts off the
/// corner, keeps the younger ones in their order, and leaves the history
/// alone.
pub proof fn history_outlives_toasts(v: TuiView, ages: Seq<u64>)
    requires
        ages.len() == v.notices.toasts.len(),
    ensures
        v.ticked(ages).notices.history == v.notices.history,
        (forall|i: int| 0 <= i < ages.len() ==> ages[i] < TOAST_TTL) ==> v.ticked(
            ages,
        ).notices.toasts == v.notices.toasts,
        (forall|i: int| 0 <= i < ages.len() ==> ages[i] >= TOAST_TTL) ==> v.ticked(
            ages,
        ).notices.toasts.len() == 0,
        forall|t: ToastView|
            #![trigger v.ticked(ages).notices.toasts.contains(t)]
            v.ticked(ages).notices.toasts.contains(t) ==> v.notices.toasts.contains(t),
        forall|i: int|
            0 <= i < ages.len() && ages[i] < TOAST_TTL ==> v.ticked(
                ages,
            ).notices.toasts.contains(#[trigger] v.notices.toasts[i]),
{
    expiry(v.notices.toasts, ages);
}

proof fn expiry(toasts: Seq<ToastView>, ages: Seq<u64>)
    requires
        ages.len() >= toasts.len(),
    ensures
        (forall|i: int| 0 <= i < toasts.len() ==> ages[i] < TOAST_TTL) ==> unexpired(toasts, ages)
            == toasts,
        (forall|i: int| 0 <= i < toasts.len() ==> ages[i] >= TOAST_TTL) ==> unexpired(
            toasts,
            ages,
        ).len() == 0,
        forall|t: ToastView| #[trigger]
            unexpired(toasts, ages).contains(t) ==> toasts.contains(t),
        forall|i: int|
            0 <= i < toasts.len() && ages[i] < TOAST_TTL ==> unexpired(toasts, ages).contains(
                #[trigger] toasts[i],
            ),
    decreases toasts.len(),
{
    if toasts.len() > 0 {
        let rest = toasts.drop_last();
        expiry(rest, ages);
        assert(rest.push(toasts.last()) =~= toasts);
        assert forall|i: int| 0 <= i < toasts.len() && ages[i] < TOAST_TTL implies unexpired(
            toasts,
            ages,
        ).contains(#[trigger] toasts[i]) by {
            let u = unexpired(toasts, ages);
            let r = unexpired(rest, ages);
            if i < rest.len() {
                assert(rest[i] == toasts[i]);
                assert(r.contains(rest[i]));
                let j = choose|j: int| 0 <= j < r.len() && r[j] == toasts[i];
                assert(u[j] == toasts[i]);
            } else {
                assert(u[u.len() - 1] == toasts[i]);
            }
        }
        assert forall|t: ToastView| #[trigger] unexpired(toasts, ages).contains(t) implies toasts.contains(
            t,
        ) by {
            let u = unexpired(toasts, ages);
            let i = choose|i: int| 0 <= i < u.len() && u[i] == t;
            if i < unexpired(rest, ages).len() {
                assert(unexpired(rest, ages)[i] == t);
                assert(unexpired(rest, ages).contains(t));
                let j = choose|j: int| 0 <= j < rest.len() && rest[j] == t;
                assert(toasts[j] == t);
            } else {
                assert(toasts[toasts.len() - 1] == t);
            }
        }
    }
}

/// Law: with notifications configured away, nothing that a daemon reports
/// raises a toast.
pub proof fn muted_means_silent(v: TuiView, source: Seq<char>, msg: MessageView, now: Instant)
    requires
        !v.session.toasts_on(),
    ensures
        v.applied(source, msg, now).notices == v.notices,
{
}

/// Law: only a service that crashes, or that comes up, is announced: never one
/// that stays broken, and never one that stays up.
pub proof fn only_crashes_and_recoveries_are_announced(
    v: TuiView,
    source: Seq<char>,
    msg: MessageView,
    now: Instant,
)
    requires
        v.applied(source, msg, now).notices != v.notices,
    ensures
        match msg {
            MessageView::StatusUpdate { service, state, .. } => {
                let was = v.stacks.last_report(source, service);
                was is Some && if state.broken() {
                    !was->0.state.broken()
                } else {
                    state is Running && !was->0.state.up()
                }
            },
            _ => false,
        },
{
}

/// Law: the cursor stays on an entry however far it is moved, and opening the
/// history puts it on the newest.
pub proof fn cursor_stays_on_an_entry(n: NoticesView, down: usize, up: usize)
    requires
        n.wf(),
        n.cursor < n.history.len(),
    ensures
        n.cursor_down(down).cursor < n.history.len(),
        n.cursor_up(up).cursor < n.history.len(),
        n.cursor_down(down).cursor >= n.cursor,
        n.cursor_up(up).cursor <= n.cursor,
        !n.visible ==> n.toggled().visible && n.toggled().cursor == 0,
        n.visible ==> !n.toggled().visible,
{
}

/// Law: an age is given in whole seconds below a minute, in whole minutes below an
/// hour, in whole hours below a day, and in whole days from there on.
pub proof fn ages_are_in_whole_units(secs: u64, n: u64)
    ensures
        secs < 60 ==> age_text(secs) == decimal(secs as nat) + "s"@,
        60 <= secs < 3600 && n * 60 <= secs < (n + 1) * 60 ==> age_text(secs) == decimal(n as nat)
            + "m"@,
        3600 <= secs < 86400 && n * 3600 <= secs < (n + 1) * 3600 ==> age_text(secs) == decimal(
            n as nat,
        ) + "h"@,
        86400 <= secs && n * 86400 <= secs < (n + 1) * 86400 ==> age_text(secs) == decimal(n as nat)
            + "d"@,
{
}

/// Law: the corner holds the newest four toasts, and the history the newest two
/// hundred recorded ones, each in the order in which they came.
pub proof fn the_newest_notices_are_kept(
    n: NoticesView,
    kind: ToastKind,
    title: Seq<char>,
    body: Seq<char>,
    record: bool,
    born: Instant,
)
    requires
        n.wf(),
    ensures
        ({
            let t = ToastView { kind, title, body, born };
            let after = n.toasted(kind, title, body, record, born);
            let shown = n.toasts.push(t);
            let told = n.history.push(t);
            &&& after.toasts == if shown.len() <= 4 {
                shown
            } else {
                shown.subrange(shown.len() - 4, shown.len() as int)
            }
            &&& record ==> after.history == if told.len() <= 200 {
                told
            } else {
                told.subrange(told.len() - 200, told.len() as int)
            }
            &&& !record ==> after.history == n.history
            &&& after.visible == n.visible && after.cursor == n.cursor
        }),
{
    let t = ToastView { kind, title, body, born };
    let shown = n.toasts.push(t);
    let told = n.history.push(t);
    if shown.len() > 4 {
        assert(shown.skip(1) =~= shown.subrange(shown.len() - 4, shown.len() as int));
    }
    if told.len() > 200 {
        assert(told.skip(1) =~= told.subrange(told.len() - 200, told.len() as int));
    }
}

/// Law: a toast stands for five seconds: a tick keeps exactly the toasts that are
/// younger, in their order, and counts one tick of the spinner.
pub proof fn toasts_stand_for_five_seconds(v: TuiView, ages: Seq<u64>)
    requires
        ages.len() == v.notices.toasts.len(),
    ensures
        v.notices.toasts.len() > 0 ==> ({
            let rest = TuiView {
                notices: NoticesView { toasts: v.notices.toasts.drop_last(), ..v.notices },
                ..v
            };
            let kept = rest.ticked(ages.drop_last()).notices.toasts;
            v.ticked(ages).notices.toasts == if ages.last() < 5 {
                kept.push(v.notices.toasts.last())
            } else {
                kept
            }
        }),
        v.notices.toasts.len() == 0 ==> v.ticked(ages).notices.toasts.len() == 0,
        v.session.spinner_tick < u64::MAX ==> v.ticked(ages).session.spinner_tick
            == v.session.spinner_tick + 1,
        v.session.spinner_tick == u64::MAX ==> v.ticked(ages).session.spinner_tick == 0,
{
    if v.notices.toasts.len() > 0 {
        same_ages(v.notices.toasts.drop_last(), ages, ages.drop_last());
    }
}

proof fn same_ages(toasts: Seq<ToastView>, a: Seq<u64>, b: Seq<u64>)
    requires
        toasts.len() <= a.len(),
        toasts.len() <= b.len(),
        forall|i: int| 0 <= i < toasts.len() ==> a[i] == b[i],
    ensures
        unexpired(toasts, a) == unexpired(toasts, b),
    decreases toasts.len(),
{
    if toasts.len() > 0 {
        same_ages(toasts.drop_last(), a, b);
    }
}

/// Law: in the history the cursor goes one entry older or newer, as far as there
/// are entries, and opening the history puts it on the newest.
pub proof fn the_cursor_goes_by_one(n: NoticesView)
    requires
        n.wf(),
        n.cursor < n.history.len(),
    ensures
        n.cursor_down(1).cursor == if n.cursor + 1 < n.history.len() {
            n.cursor + 1
        } else {
            n.cursor as int
        },
        n.cursor_up(1).cursor == if n.cursor > 0 {
            n.cursor - 1
        } else {
            0
        },
        n.cursor_down(1).history == n.history && n.cursor_up(1).history == n.history,
        forall|d: int|
            0 <= d < n.history.len() ==> #[trigger] n.at(d) == n.history[n.history.len() - 1 - d],
        n.selected() == n.cursor,
        n.toggled().visible == !n.visible,
        !n.visible ==> n.toggled().cursor == 0,
{
}

} // verus!
