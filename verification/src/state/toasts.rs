//! Notifications: corner toasts that expire, the durable history behind them,
//! and the animation tick.
use std::time::Instant;

use vstd::prelude::*;
use vstd::string::*;

use crate::clock::elapsed_secs;
use crate::lists::{looked_up, views};
use crate::protocol::{ServiceSnapshot, ServiceState, ServiceView, StateView};
use crate::text::{decimal, join, joined, number, signed_decimal, signed_number, texts};

use super::{
    ClickTarget, Notices, NoticesView, SessionView, Stacks, StacksView, Toast, ToastKind, ToastView,
    TuiState, TuiView, MAX_NOTIF_HISTORY, MAX_TOASTS, TOAST_TTL,
};

verus! {

/// A relative age for display: seconds, minutes, hours or days.
pub open spec fn age_text(secs: u64) -> Seq<char> {
    if secs < 60 {
        decimal(secs as nat) + "s"@
    } else if secs < 3600 {
        decimal((secs / 60) as nat) + "m"@
    } else if secs < 86_400 {
        decimal((secs / 3600) as nat) + "h"@
    } else {
        decimal((secs / 86_400) as nat) + "d"@
    }
}

/// Compact age of something that happened `secs` seconds ago: `3s`, `12m`,
/// `2h`, `1d`.
pub fn age_label_for(secs: u64) -> (r: String)
    ensures
        r@ == age_text(secs),
{
    let mut r: String;
    if secs < 60 {
        r = number(secs);
        r.append("s");
    } else if secs < 3600 {
        r = number(secs / 60);
        r.append("m");
    } else if secs < 86_400 {
        r = number(secs / 3600);
        r.append("h");
    } else {
        r = number(secs / 86_400);
        r.append("d");
    }
    r
}

impl Toast {
    /// A notification raised at `born`.
    pub fn new(kind: ToastKind, title: &str, body: &str, born: Instant) -> (r: Self)
        ensures
            r@ == (ToastView { kind, title: title@, body: body@, born }),
    {
        Toast { kind, title: title.to_owned(), body: body.to_owned(), born }
    }

    pub fn kind(&self) -> (r: ToastKind)
        ensures
            r == self@.kind,
    {
        self.kind
    }

    pub fn title(&self) -> (r: &str)
        ensures
            r@ == self@.title,
    {
        self.title.as_str()
    }

    pub fn body(&self) -> (r: &str)
        ensures
            r@ == self@.body,
    {
        self.body.as_str()
    }

    /// Whole seconds since this notification was raised. The clock decides;
    /// nothing is promised of the number.
    pub fn age(&self) -> (r: u64) {
        elapsed_secs(&self.born)
    }

    /// Compact relative age for display: `3s`, `12m`, `2h`, `1d`.
    pub fn age_label(&self) -> (r: String)
        ensures
            exists|secs: u64| r@ == age_text(secs),
    {
        let secs: u64 = self.age();
        let r = age_label_for(secs);
        assert(r@ == age_text(secs));
        r
    }

    fn dup(&self) -> (r: Self)
        ensures
            r@ == self@,
    {
        Toast {
            kind: self.kind,
            title: self.title.clone(),
            body: self.body.clone(),
            born: self.born,
        }
    }
}

/// `s` with `x` at its end, the oldest element dropped where there would be
/// more than `n`.
pub open spec fn pushed<A>(s: Seq<A>, x: A, n: nat) -> Seq<A> {
    if s.len() + 1 > n {
        s.push(x).skip(1)
    } else {
        s.push(x)
    }
}

/// The line that copying a notification gives.
pub open spec fn notif_line(t: ToastView, secs: u64) -> Seq<char> {
    "["@ + age_text(secs) + " ago] "@ + t.title + ": "@ + t.body
}

/// The toasts that are younger than their time to live.
pub open spec fn unexpired(toasts: Seq<ToastView>, ages: Seq<u64>) -> Seq<ToastView>
    decreases toasts.len(),
{
    if toasts.len() == 0 {
        Seq::empty()
    } else if ages[toasts.len() - 1] < TOAST_TTL {
        unexpired(toasts.drop_last(), ages).push(toasts.last())
    } else {
        unexpired(toasts.drop_last(), ages)
    }
}

/// One of the services is on its way up.
pub open spec fn any_animated(services: Seq<ServiceView>) -> bool {
    exists|i: int| 0 <= i < services.len() && (#[trigger] services[i]).state.animated()
}

/// What the crash or recovery from `old` to `new` is announced as. Routine
/// moves are not announced.
pub open spec fn transition_toast(old: StateView, new: StateView) -> Option<(ToastKind, Seq<char>)> {
    if new.broken() && !old.broken() {
        Some(
            (
                ToastKind::Failed,
                match new {
                    StateView::Failed { exit_code: Some(c) } => "crashed (exit "@ + signed_decimal(
                        c as int,
                    ) + ")"@,
                    StateView::CrashLoop { .. } => "crash-looping"@,
                    _ => "crashed"@,
                },
            ),
        )
    } else if (new matches StateView::Running { degraded, .. } && !degraded) && !old.up() {
        Some((ToastKind::Ready, "ready"@))
    } else {
        None
    }
}

/// How the outcome of a remediation is announced.
pub open spec fn outcome_kind(ok: bool) -> ToastKind {
    if ok {
        ToastKind::Info
    } else {
        ToastKind::Failed
    }
}

/// The ten frames of the spinner.
pub open spec fn spinner_frames() -> Seq<char> {
    seq!['⠋', '⠙', '⠹', '⠸', '⠼', '⠴', '⠦', '⠧', '⠇', '⠏']
}

impl NoticesView {
    /// The notices after a toast was raised at `born`. Only a recorded one
    /// reaches the history.
    pub open spec fn toasted(
        self,
        kind: ToastKind,
        title: Seq<char>,
        body: Seq<char>,
        record: bool,
        born: Instant,
    ) -> NoticesView {
        let t = ToastView { kind, title, body, born };
        NoticesView {
            history: if record {
                pushed(self.history, t, MAX_NOTIF_HISTORY as nat)
            } else {
                self.history
            },
            toasts: pushed(self.toasts, t, MAX_TOASTS as nat),
            ..self
        }
    }

    /// The notification at display index `d`, the newest being 0.
    pub open spec fn at(self, d: int) -> ToastView {
        self.history[self.history.len() - 1 - d]
    }

    /// The display index that the cursor selects.
    pub open spec fn selected(self) -> int {
        if self.cursor < self.history.len() {
            self.cursor as int
        } else {
            self.history.len() - 1
        }
    }

    /// The whole history as lines, newest first, the line at display index
    /// `d` being `ages[d]` seconds old.
    pub open spec fn lines(self, ages: Seq<u64>) -> Seq<Seq<char>> {
        Seq::new(self.history.len(), |d: int| notif_line(self.at(d), ages[d]))
    }

    /// The cursor after a move of `n` entries toward the oldest.
    pub open spec fn cursor_down(self, n: usize) -> NoticesView {
        let oldest = if self.history.len() == 0 {
            0
        } else {
            self.history.len() - 1
        };
        let moved = self.cursor + n;
        NoticesView {
            cursor: (if moved < oldest {
                moved
            } else {
                oldest
            }) as usize,
            ..self
        }
    }

    /// The cursor after a move of `n` entries toward the newest.
    pub open spec fn cursor_up(self, n: usize) -> NoticesView {
        NoticesView {
            cursor: (if self.cursor >= n {
                self.cursor - n
            } else {
                0
            }) as usize,
            ..self
        }
    }

    /// The modal opened, on the newest entry, or closed.
    pub open spec fn toggled(self) -> NoticesView {
        NoticesView {
            visible: !self.visible,
            cursor: if self.visible {
                self.cursor
            } else {
                0
            },
            ..self
        }
    }
}

impl StacksView {
    /// Some service, of an instance or shared, is animated.
    pub open spec fn animated(self) -> bool {
        (exists|i: int|
            0 <= i < self.instances.len() && any_animated(#[trigger] self.instances[i].services))
            || any_animated(self.shared.services)
    }
}

impl SessionView {
    /// Crash and recovery toasts are shown unless configured away.
    pub open spec fn toasts_on(self) -> bool {
        looked_up(self.config, "tui.toasts"@) != Some("false"@)
    }

    /// The spinner one frame on.
    pub open spec fn spun(self) -> SessionView {
        SessionView {
            spinner_tick: if self.spinner_tick == u64::MAX {
                0
            } else {
                (self.spinner_tick + 1) as u64
            },
            ..self
        }
    }
}

impl TuiView {
    /// The state after a toast was raised at `born`.
    pub open spec fn toasted(
        self,
        kind: ToastKind,
        title: Seq<char>,
        body: Seq<char>,
        record: bool,
        born: Instant,
    ) -> TuiView {
        TuiView { notices: self.notices.toasted(kind, title, body, record, born), ..self }
    }

    /// The state after the move of `service` from `old` to `new` was
    /// announced.
    pub open spec fn announced(
        self,
        service: Seq<char>,
        old: StateView,
        new: StateView,
        now: Instant,
    ) -> TuiView {
        match transition_toast(old, new) {
            Some((kind, body)) => if self.session.toasts_on() {
                self.toasted(kind, service, body, true, now)
            } else {
                self
            },
            None => self,
        }
    }

    /// The state after one animation tick, the toasts being `ages` seconds
    /// old.
    pub open spec fn ticked(self, ages: Seq<u64>) -> TuiView {
        TuiView {
            session: self.session.spun(),
            notices: NoticesView { toasts: unexpired(self.notices.toasts, ages), ..self.notices },
            ..self
        }
    }
}

/// No more toasts are left than there were.
proof fn unexpired_len(toasts: Seq<ToastView>, ages: Seq<u64>)
    ensures
        unexpired(toasts, ages).len() <= toasts.len(),
    decreases toasts.len(),
{
    if toasts.len() > 0 {
        unexpired_len(toasts.drop_last(), ages);
    }
}

/// Appends to a list that holds at most `cap` toasts, dropping the oldest.
fn push_capped(list: &mut Vec<Toast>, toast: Toast, cap: usize)
    requires
        old(list)@.len() <= cap,
    ensures
        views(final(list)@) == pushed(views(old(list)@), toast@, cap as nat),
        final(list)@.len() <= cap,
{
    let ghost before = views(list@);
    list.push(toast);
    assert(views(list@) =~= before.push(toast@));
    if list.len() > cap {
        let _oldest = list.remove(0);
        assert(views(list@) =~= before.push(toast@).skip(1));
    }
}

fn has_animated(services: &Vec<ServiceSnapshot>) -> (r: bool)
    ensures
        r == any_animated(views(services@)),
{
    let mut i: usize = 0;
    while i < services.len()
        invariant
            i <= services.len(),
            forall|j: int| 0 <= j < i ==> !(#[trigger] views(services@)[j]).state.animated(),
        decreases services.len() - i,
    {
        assert(views(services@)[i as int] == services@[i as int]@);
        if services[i].state.is_animated() {
            return true;
        }
        i = i + 1;
    }
    false
}

fn notif_line_text(t: &Toast, secs: u64) -> (r: String)
    ensures
        r@ == notif_line(t@, secs),
{
    let mut r = "[".to_owned();
    r.append(age_label_for(secs).as_str());
    r.append(" ago] ");
    r.append(t.title.as_str());
    r.append(": ");
    r.append(t.body.as_str());
    r
}

impl Stacks {
    fn has_animated_service(&self) -> (r: bool)
        ensures
            r == self@.animated(),
    {
        let mut i: usize = 0;
        while i < self.instances.len()
            invariant
                i <= self.instances.len(),
                forall|j: int| 0 <= j < i ==> !any_animated(#[trigger] self@.instances[j].services),
            decreases self.instances.len() - i,
        {
            assert(self@.instances[i as int] == self.instances@[i as int]@);
            if has_animated(&self.instances[i].services) {
                assert(any_animated(self@.instances[i as int].services));
                return true;
            }
            i = i + 1;
        }
        has_animated(&self.shared.services)
    }
}

impl Notices {
    fn push(&mut self, kind: ToastKind, title: &str, body: &str, record: bool, now: Instant)
        requires
            old(self)@.wf(),
        ensures
            final(self)@.wf(),
            final(self)@ == old(self)@.toasted(kind, title@, body@, record, now),
    {
        let toast = Toast::new(kind, title, body, now);
        if record {
            push_capped(&mut self.history, toast.dup(), MAX_NOTIF_HISTORY);
        }
        push_capped(&mut self.toasts, toast, MAX_TOASTS);
    }

    /// Drops the toasts that are past their time to live.
    fn expire(&mut self, ages: &Vec<u64>)
        requires
            ages@.len() == old(self)@.toasts.len(),
        ensures
            final(self)@ == (NoticesView {
                toasts: unexpired(old(self)@.toasts, ages@),
                ..old(self)@
            }),
            final(self)@.toasts.len() <= old(self)@.toasts.len(),
    {
        let ghost all = self@.toasts;
        let ghost mid = *self;
        let before: usize = self.toasts.len();
        let mut seen: usize = 0;
        let mut at: usize = 0;
        assert(views(self.toasts@) =~= unexpired(all.take(0), ages@) + all.skip(0));
        while seen < before
            invariant
                at <= seen <= before,
                before == all.len() == ages@.len(),
                at == unexpired(all.take(seen as int), ages@).len(),
                views(self.toasts@) == unexpired(all.take(seen as int), ages@) + all.skip(
                    seen as int,
                ),
                *self == (Notices { toasts: self.toasts, ..mid }),
            decreases before - seen,
        {
            let ghost kept = unexpired(all.take(seen as int), ages@);
            let ghost cur = views(self.toasts@);
            assert(all.take(seen + 1).drop_last() =~= all.take(seen as int));
            assert(all.take(seen + 1).last() == all[seen as int]);
            assert(cur[at as int] == all[seen as int]);
            assert(cur.len() == self.toasts@.len());
            if ages[seen] < TOAST_TTL {
                at = at + 1;
                assert(kept.push(all[seen as int]) + all.skip(seen + 1) =~= kept + all.skip(
                    seen as int,
                ));
            } else {
                let _expired = self.toasts.remove(at);
                assert(views(self.toasts@) =~= cur.remove(at as int));
                assert(views(self.toasts@) =~= kept + all.skip(seen + 1));
            }
            seen = seen + 1;
        }
        proof {
            assert(all.take(before as int) =~= all);
            assert(views(self.toasts@) =~= unexpired(all, ages@));
            unexpired_len(all, ages@);
        }
    }

    fn selected_toast(&self) -> (r: Option<&Toast>)
        ensures
            match r {
                Some(t) => self@.history.len() > 0 && t@ == self@.at(self@.selected()),
                None => self@.history.len() == 0,
            },
    {
        let len: usize = self.history.len();
        if len == 0 {
            return None;
        }
        let d: usize = if self.cursor < len {
            self.cursor
        } else {
            len - 1
        };
        assert(views(self.history@)[len - 1 - d] == self.history@[len - 1 - d]@);
        Some(&self.history[len - 1 - d])
    }

    fn all_text(&self, ages: &Vec<u64>) -> (r: String)
        requires
            ages@.len() == self@.history.len(),
        ensures
            r@ == joined(self@.lines(ages@), "\n"@),
    {
        let n: usize = self.history.len();
        let mut lines: Vec<String> = Vec::new();
        let mut d: usize = 0;
        while d < n
            invariant
                d <= n == self.history@.len() == ages@.len(),
                texts(lines@) == self@.lines(ages@).take(d as int),
            decreases n - d,
        {
            let ghost before = texts(lines@);
            assert(views(self.history@)[n - 1 - d] == self.history@[n - 1 - d]@);
            lines.push(notif_line_text(&self.history[n - 1 - d], ages[d]));
            assert(texts(lines@) =~= before.push(self@.lines(ages@)[d as int]));
            d = d + 1;
            assert(self@.lines(ages@).take(d as int) =~= before.push(self@.lines(ages@)[d - 1]));
        }
        assert(self@.lines(ages@).take(d as int) =~= self@.lines(ages@));
        join(&lines, "\n")
    }
}

impl TuiState {
    /// Current spinner frame for animated (starting/restarting) glyphs.
    pub fn spinner_frame(&self) -> (r: char)
        ensures
            r == spinner_frames()[self@.session.spinner_tick as int % 10],
    {
        let n: u64 = self.session.spinner_tick % 10;
        if n == 0 {
            '⠋'
        } else if n == 1 {
            '⠙'
        } else if n == 2 {
            '⠹'
        } else if n == 3 {
            '⠸'
        } else if n == 4 {
            '⠼'
        } else if n == 5 {
            '⠴'
        } else if n == 6 {
            '⠦'
        } else if n == 7 {
            '⠧'
        } else if n == 8 {
            '⠇'
        } else {
            '⠏'
        }
    }

    /// Advances one animation tick: bumps the spinner and drops expired
    /// toasts. Returns true if anything visible changed.
    pub fn tick(&mut self) -> (r: bool)
        requires
            old(self).wf(),
        ensures
            final(self).wf(),
            exists|ages: Seq<u64>|
                ages.len() == old(self)@.notices.toasts.len() && final(self)@ == #[trigger] old(self)@.ticked(ages),
            r == (final(self)@.notices.toasts.len() != old(self)@.notices.toasts.len() || final(self)@.stacks.animated()),
    {
        let mut ages: Vec<u64> = Vec::new();
        let mut i: usize = 0;
        while i < self.notices.toasts.len()
            invariant
                i <= self.notices.toasts.len(),
                ages.len() == i,
                *self == *old(self),
            decreases self.notices.toasts.len() - i,
        {
            ages.push(self.notices.toasts[i].age());
            i = i + 1;
        }
        self.tick_at(&ages)
    }

    /// [`tick`](Self::tick) with the ages of the toasts given, in seconds.
    pub fn tick_at(&mut self, ages: &Vec<u64>) -> (r: bool)
        requires
            old(self).wf(),
            ages@.len() == old(self)@.notices.toasts.len(),
        ensures
            final(self).wf(),
            final(self)@ == old(self)@.ticked(ages@),
            r == (final(self)@.notices.toasts.len() != old(self)@.notices.toasts.len() || final(self)@.stacks.animated()),
    {
        self.session.spinner_tick = self.session.spinner_tick.wrapping_add(1);
        let before: usize = self.notices.toasts.len();
        self.notices.expire(ages);
        self.notices.toasts.len() != before || self.stacks.has_animated_service()
    }

    pub fn toasts(&self) -> (r: &Vec<Toast>)
        ensures
            views(r@) == self@.notices.toasts,
    {
        &self.notices.toasts
    }

    /// Raises a neutral toast for a deliberate user action and records it.
    pub fn notify(&mut self, title: &str, body: &str)
        requires
            old(self).wf(),
        ensures
            final(self).wf(),
            exists|now: Instant|
                final(self)@ == #[trigger] old(self)@.toasted(
                    ToastKind::Info,
                    title@,
                    body@,
                    true,
                    now,
                ),
    {
        self.push_toast_at(ToastKind::Info, title, body, true, Instant::now());
    }

    /// Like [`notify`](Self::notify) but not recorded in the history: used for
    /// clipboard acknowledgements, which would pollute it.
    pub fn notify_transient(&mut self, title: &str, body: &str)
        requires
            old(self).wf(),
        ensures
            final(self).wf(),
            exists|now: Instant|
                final(self)@ == #[trigger] old(self)@.toasted(
                    ToastKind::Info,
                    title@,
                    body@,
                    false,
                    now,
                ),
    {
        self.push_toast_at(ToastKind::Info, title, body, false, Instant::now());
    }

    /// Raises a toast born at `now`. `record` decides whether it also lands in
    /// the durable history.
    pub fn push_toast_at(
        &mut self,
        kind: ToastKind,
        title: &str,
        body: &str,
        record: bool,
        now: Instant,
    )
        requires
            old(self).wf(),
        ensures
            final(self).wf(),
            final(self)@ == old(self)@.toasted(kind, title@, body@, record, now),
    {
        self.notices.push(kind, title, body, record, now);
    }

    /// The full notification history, oldest first.
    pub fn notifications(&self) -> (r: &Vec<Toast>)
        ensures
            views(r@) == self@.notices.history,
    {
        &self.notices.history
    }

    pub fn notifications_visible(&self) -> (r: bool)
        ensures
            r == self@.notices.visible,
    {
        self.notices.visible
    }

    /// The selected row as a display index (0 = newest).
    pub fn notif_cursor(&self) -> (r: usize)
        ensures
            r == self@.notices.cursor,
    {
        self.notices.cursor
    }

    /// Toggles the notifications modal. Opening resets the cursor to the
    /// newest entry.
    pub fn toggle_notifications(&mut self)
        requires
            old(self).wf(),
        ensures
            final(self).wf(),
            final(self)@ == (TuiView { notices: old(self)@.notices.toggled(), ..old(self)@ }),
    {
        self.notices.visible = !self.notices.visible;
        if self.notices.visible {
            self.notices.cursor = 0;
        }
    }

    pub fn close_notifications(&mut self)
        requires
            old(self).wf(),
        ensures
            final(self).wf(),
            final(self)@ == (TuiView {
                notices: NoticesView { visible: false, ..old(self)@.notices },
                ..old(self)@
            }),
    {
        self.notices.visible = false;
    }

    /// Moves the cursor toward older entries, clamped to the oldest.
    pub fn notif_cursor_down(&mut self, n: usize)
        requires
            old(self).wf(),
        ensures
            final(self).wf(),
            final(self)@ == (TuiView { notices: old(self)@.notices.cursor_down(n), ..old(self)@ }),
    {
        let max: usize = self.notices.history.len().saturating_sub(1);
        let moved: usize = self.notices.cursor.saturating_add(n);
        self.notices.cursor = if moved < max {
            moved
        } else {
            max
        };
    }

    /// Moves the cursor back toward the newest entry.
    pub fn notif_cursor_up(&mut self, n: usize)
        requires
            old(self).wf(),
        ensures
            final(self).wf(),
            final(self)@ == (TuiView { notices: old(self)@.notices.cursor_up(n), ..old(self)@ }),
    {
        self.notices.cursor = self.notices.cursor.saturating_sub(n);
    }

    /// The selected notification as copy text, or `None` when the history is
    /// empty. Includes the relative age for context once pasted elsewhere.
    pub fn notif_selected_text(&self) -> (r: Option<String>)
        ensures
            match r {
                Some(s) => self@.notices.history.len() > 0 && exists|secs: u64|
                    s@ == #[trigger] notif_line(self@.notices.at(self@.notices.selected()), secs),
                None => self@.notices.history.len() == 0,
            },
    {
        match self.notices.selected_toast() {
            Some(t) => Some(notif_line_text(t, t.age())),
            None => None,
        }
    }

    /// [`notif_selected_text`](Self::notif_selected_text) with the age of the
    /// notification given, in seconds.
    pub fn notif_selected_text_at(&self, secs: u64) -> (r: Option<String>)
        ensures
            match r {
                Some(s) => self@.notices.history.len() > 0 && s@ == notif_line(
                    self@.notices.at(self@.notices.selected()),
                    secs,
                ),
                None => self@.notices.history.len() == 0,
            },
    {
        match self.notices.selected_toast() {
            Some(t) => Some(notif_line_text(t, secs)),
            None => None,
        }
    }

    /// The whole history as copy text, newest first, one line each.
    pub fn notif_all_text(&self) -> (r: String)
        ensures
            exists|ages: Seq<u64>|
                ages.len() == self@.notices.history.len() && r@ == #[trigger] joined(
                    self@.notices.lines(ages),
                    "\n"@,
                ),
    {
        let ages = self.notif_ages();
        self.notif_all_text_at(&ages)
    }

    /// How old each notification of the history is, in seconds, newest first.
    pub(crate) fn notif_ages(&self) -> (ages: Vec<u64>)
        ensures
            ages@.len() == self@.notices.history.len(),
    {
        let n: usize = self.notices.history.len();
        let mut ages: Vec<u64> = Vec::new();
        let mut d: usize = 0;
        while d < n
            invariant
                d <= n == self.notices.history@.len(),
                ages.len() == d,
            decreases n - d,
        {
            ages.push(self.notices.history[n - 1 - d].age());
            d = d + 1;
        }
        ages
    }

    /// [`notif_all_text`](Self::notif_all_text) with the ages given, newest
    /// first.
    pub fn notif_all_text_at(&self, ages: &Vec<u64>) -> (r: String)
        requires
            ages@.len() == self@.notices.history.len(),
        ensures
            r@ == joined(self@.notices.lines(ages@), "\n"@),
    {
        self.notices.all_text(ages)
    }

    pub(crate) fn toasts_enabled(&self) -> (r: bool)
        ensures
            r == self@.session.toasts_on(),
    {
        match self.session.config.get("tui.toasts") {
            Some(v) => !crate::text::same(v.as_str(), "false"),
            None => true,
        }
    }

    /// Raises a toast for a noteworthy service transition: crashes and
    /// recoveries only, and none where they are configured away.
    pub(crate) fn toast_for_transition(
        &mut self,
        service: &str,
        old_state: &ServiceState,
        new_state: &ServiceState,
        now: Instant,
    )
        requires
            old(self).wf(),
        ensures
            final(self).wf(),
            final(self)@ == old(self)@.announced(service@, old_state@, new_state@, now),
    {
        if !self.toasts_enabled() {
            return;
        }
        let was_broken = old_state.is_broken();
        let was_up = old_state.is_up();
        let now_running = matches!(new_state, ServiceState::Running { degraded: false, .. });
        if new_state.is_broken() && !was_broken {
            let detail = match new_state {
                ServiceState::Failed { exit_code: Some(c) } => {
                    let mut s = "crashed (exit ".to_owned();
                    s.append(signed_number(*c).as_str());
                    s.append(")");
                    s
                },
                ServiceState::CrashLoop { .. } => "crash-looping".to_owned(),
                _ => "crashed".to_owned(),
            };
            self.push_toast_at(ToastKind::Failed, service, detail.as_str(), true, now);
        } else if now_running && !was_up {
            self.push_toast_at(ToastKind::Ready, service, "ready", true, now);
        }
    }

    /// Surfaces a config warning as a toast, whatever the toast setting.
    pub fn push_config_warning(&mut self, message: &str)
        requires
            old(self).wf(),
        ensures
            final(self).wf(),
            exists|now: Instant|
                final(self)@ == #[trigger] old(self)@.toasted(
                    ToastKind::Failed,
                    "config"@,
                    message@,
                    true,
                    now,
                ),
    {
        self.push_toast_at(ToastKind::Failed, "config", message, true, Instant::now());
    }

    /// Surfaces the outcome of a remediation as a toast.
    pub fn push_port_conflict_result(&mut self, ok: bool, detail: &str)
        requires
            old(self).wf(),
        ensures
            final(self).wf(),
            exists|now: Instant|
                final(self)@ == #[trigger] old(self)@.toasted(
                    outcome_kind(ok),
                    "port"@,
                    detail@,
                    true,
                    now,
                ),
    {
        let kind = if ok {
            ToastKind::Info
        } else {
            ToastKind::Failed
        };
        self.push_toast_at(kind, "port", detail, true, Instant::now());
    }

    /// A click at `(col, row)` in the notifications modal: on a row, moves the
    /// cursor there and returns its text to copy.
    pub fn notif_copy_at(&mut self, col: u16, row: u16) -> (r: Option<String>)
        requires
            old(self).wf(),
        ensures
            final(self).wf(),
            match old(self)@.hits.region_at(col, row) {
                Some(ClickTarget::Notif(d)) => final(self)@ == (TuiView {
                    notices: NoticesView { cursor: d, ..old(self)@.notices },
                    ..old(self)@
                }) && match r {
                    Some(s) => final(self)@.notices.history.len() > 0 && exists|secs: u64|
                        s@ == #[trigger] notif_line(
                            final(self)@.notices.at(final(self)@.notices.selected()),
                            secs,
                        ),
                    None => final(self)@.notices.history.len() == 0,
                },
                _ => final(self)@ == old(self)@ && r is None,
            },
    {
        match self.hits.target_at(col, row) {
            Some(ClickTarget::Notif(d)) => {
                self.notices.cursor = d;
                self.notif_selected_text()
            },
            _ => None,
        }
    }
}

} // verus!
