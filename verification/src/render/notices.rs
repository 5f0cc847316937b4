//! Corner toasts and the notifications modal.
use vstd::prelude::*;

use crate::lists::views;
use crate::state::toasts::{age_label_for, age_text};
use crate::state::{
    ClickRegion, ClickTarget, HitsView, NoticesView, Toast, ToastView, TuiState, TuiView,
};
use crate::text::{decimal, number};
use crate::theme::{truncate, truncated, truncated_fits, Palette};

use super::dialogs::{frame, framed};
use super::glyphs::toast_color;
use super::layout::{at_most, inner, inside, less, modal, modal_in};
use super::paint::{
    bold, columns, draw_line, draw_lines, filled, four, gap, gap_text, inked, joined2, line_at,
    lines_at, one, plain, sp, span, span_of, three, Draw, DrawView, Ink, Line, LineView, Rect,
};

verus! {

/// One row of the notifications modal, `secs` old.
pub open spec fn notice_row(p: Palette, t: ToastView, secs: u64, width: int) -> LineView {
    let age = age_text(secs);
    let title = truncated(t.title, 12);
    seq![
        sp("● "@, inked(toast_color(&p, t.kind))),
        sp(gap(4, age.len() as int) + age + " "@, inked(p.overlay0)),
        sp(title, bold(p.text)),
        sp(
            " "@ + truncated(t.body, less(width, (title.len() + age.len() + 5) as int) as nat),
            inked(p.subtext0),
        ),
    ]
}

/// How many notifications the modal has room for; the last row is a footer.
pub open spec fn notice_rows(inner: Rect) -> int {
    if inner.height < 2 {
        1
    } else {
        inner.height - 1
    }
}

/// The first notification shown: the list scrolls so that the selected one is
/// always visible.
pub open spec fn notice_offset(n: NoticesView, inner: Rect) -> int {
    less(n.selected() + 1, notice_rows(inner))
}

/// How many notifications are shown.
pub open spec fn notices_shown(n: NoticesView, inner: Rect) -> int {
    at_most(n.history.len() - notice_offset(n, inner), notice_rows(inner))
}

/// The `i`-th row that is shown.
pub open spec fn notice_draw(
    p: Palette,
    n: NoticesView,
    ages: Seq<u64>,
    inner: Rect,
    i: int,
) -> DrawView {
    let d = notice_offset(n, inner) + i;
    line_at(
        inner.row(inner.y + i),
        notice_row(p, n.at(d), ages[d], inner.width as int),
        if d == n.selected() {
            filled(p.surface0)
        } else {
            plain()
        },
    )
}

/// Clicking a row copies its notification.
pub open spec fn notice_region(n: NoticesView, inner: Rect, i: int) -> ClickRegion {
    ClickRegion {
        x: inner.x,
        y: (inner.y + i) as u16,
        w: inner.width,
        h: 1,
        target: ClickTarget::Notif((notice_offset(n, inner) + i) as usize),
    }
}

/// The modal's footer: where the cursor is, and the keys.
pub open spec fn notices_footer(p: Palette, n: NoticesView) -> LineView {
    seq![
        sp(
            " "@ + decimal((n.selected() + 1) as nat) + " of "@ + decimal(n.history.len())
                + "   j/k select · c copy · Y all · n/esc close"@,
            inked(p.overlay0),
        ),
    ]
}

pub open spec fn notices_modal(area: Rect) -> Rect {
    modal_in(area, 64, 18, 4, 2)
}

/// The notifications modal.
pub open spec fn notices_scene(
    area: Rect,
    p: Palette,
    n: NoticesView,
    ages: Seq<u64>,
) -> Seq<DrawView> {
    let m = notices_modal(area);
    let head = framed(
        m,
        " notifications "@,
        bold(p.text),
        Ink::Theme(p.accent),
        Some(Ink::Theme(p.panel_bg)),
    );
    let room = inside(m);
    if room.height == 0 {
        head
    } else if n.history.len() == 0 {
        head.push(lines_at(room, seq![seq![sp(" no notifications yet"@, inked(p.subtext0))]]))
    } else {
        (head + Seq::new(
            notices_shown(n, room) as nat,
            |i: int| notice_draw(p, n, ages, room, i),
        )).push(line_at(room.row(room.y + room.height - 1), notices_footer(p, n), plain()))
    }
}

/// The click regions of the notifications modal.
pub open spec fn notices_regions(area: Rect, n: NoticesView) -> Seq<ClickRegion> {
    let room = inside(notices_modal(area));
    if room.height == 0 || n.history.len() == 0 {
        Seq::empty()
    } else {
        Seq::new(notices_shown(n, room) as nat, |i: int| notice_region(n, room, i))
    }
}

impl TuiView {
    /// With more click regions.
    pub open spec fn with_regions(self, more: Seq<ClickRegion>) -> TuiView {
        TuiView {
            hits: HitsView { click_regions: self.hits.click_regions + more, ..self.hits },
            ..self
        }
    }
}

fn notice_line(p: &Palette, t: &Toast, secs: u64, width: usize) -> (r: Line)
    requires
        width <= u16::MAX,
    ensures
        r@ == notice_row(*p, t@, secs, width as int),
{
    let age = age_label_for(secs);
    let title = truncate(t.title(), 12);
    proof {
        truncated_fits(t@.title, 12);
    }
    let used: usize = columns(title.as_str()).saturating_add(columns(age.as_str())).saturating_add(
        5,
    );
    let budget: usize = width.saturating_sub(used);
    let mut when = gap_text(4, columns(age.as_str()));
    when.append(age.as_str());
    when.append(" ");
    let body = joined2(" ", truncate(t.body(), budget).as_str());
    four(
        span("● ", inked(toast_color(p, t.kind()))),
        span_of(when, inked(p.overlay0)),
        span_of(title, bold(p.text)),
        span_of(body, inked(p.subtext0)),
    )
}

/// Draws the notifications modal: the scrollback of the session's toasts,
/// newest first. `ages` holds their ages in seconds, newest first.
pub fn render_notifications_overlay(area: Rect, state: &mut TuiState, ages: &Vec<u64>) -> (r: Vec<
    Draw,
>)
    requires
        area.fits(),
        old(state).wf(),
        ages@.len() == old(state)@.notices.history.len(),
    ensures
        final(state).wf(),
        final(state)@ == old(state)@.with_regions(notices_regions(area, old(state)@.notices)),
        views(r@) == notices_scene(area, old(state)@.session.palette, old(state)@.notices, ages@),
{
    let p = *state.palette();
    let ghost n = state@.notices;
    let len: usize = state.notifications().len();
    assert(len == n.history.len());
    let m = modal(area, 64, 18, 4, 2);
    let room = inner(m);
    let mut r = frame(
        m,
        " notifications ",
        bold(p.text),
        Ink::Theme(p.accent),
        Some(Ink::Theme(p.panel_bg)),
    );
    let ghost head = views(r@);
    if room.height == 0 || len == 0 {
        if room.height > 0 {
            let mut lines: Vec<Line> = Vec::new();
            lines.push(one(" no notifications yet", inked(p.subtext0)));
            assert(views(lines@) =~= seq![seq![sp(" no notifications yet"@, inked(p.subtext0))]]);
            r.push(draw_lines(room, lines));
            assert(views(r@) =~= head.push(
                lines_at(room, seq![seq![sp(" no notifications yet"@, inked(p.subtext0))]]),
            ));
        }
        assert(state@.hits.click_regions + Seq::empty() =~= state@.hits.click_regions);
        return r;
    }
    let rows: usize = if room.height < 2 {
        1
    } else {
        room.height as usize - 1
    };
    let at: usize = state.notif_cursor();
    let cursor: usize = if at < len {
        at
    } else {
        len - 1
    };
    let offset: usize = if cursor < rows {
        0
    } else {
        cursor - rows + 1
    };
    let shown: usize = if len - offset < rows {
        len - offset
    } else {
        rows
    };
    assert(cursor == n.selected());
    assert(offset == notice_offset(n, room));
    assert(shown == notices_shown(n, room));
    let ghost all = Seq::new(
        shown as nat,
        |i: int| notice_draw(p, n, ages@, room, i),
    );
    let ghost regions = Seq::new(shown as nat, |i: int| notice_region(n, room, i));
    let ghost v = state@;
    assert(views(r@) =~= head + all.take(0));
    assert(state@.hits.click_regions =~= v.hits.click_regions + regions.take(0));
    let mut i: usize = 0;
    while i < shown
        invariant
            i <= shown <= rows <= 18,
            offset + shown <= len == n.history.len() == ages@.len(),
            room.fits(),
            rows <= room.height,
            cursor == n.selected(),
            offset == notice_offset(n, room),
            all == Seq::new(shown as nat, |i: int| notice_draw(p, n, ages@, room, i)),
            regions == Seq::new(shown as nat, |i: int| notice_region(n, room, i)),
            views(r@) == head + all.take(i as int),
            state.wf(),
            state@.notices == n,
            state@ == v.with_regions(regions.take(i as int)),
        decreases shown - i,
    {
        let ghost before = views(r@);
        let d: usize = offset + i;
        let history = state.notifications();
        assert(n.at(d as int) == history@[len - 1 - d]@);
        let text = notice_line(&p, &history[len - 1 - d], ages[d], room.width as usize);
        let y: u16 = room.y + i as u16;
        let fill = if d == cursor {
            filled(p.surface0)
        } else {
            plain()
        };
        let drawn = draw_line(room.row_at(y), text, fill);
        r.push(drawn);
        assert(views(r@) =~= before.push(all[i as int]));
        let ghost had = state@.hits.click_regions;
        state.push_click_region(room.x, y, room.width, 1, ClickTarget::Notif(d));
        i = i + 1;
        assert(views(r@) =~= head + all.take(i as int));
        assert(state@.hits.click_regions =~= had.push(regions[i - 1]));
        assert(state@.hits.click_regions =~= v.hits.click_regions + regions.take(i as int));
    }
    assert(all.take(i as int) =~= all);
    assert(regions.take(i as int) =~= regions);
    let mut footer = joined2(" ", number((cursor + 1) as u64).as_str());
    footer.append(" of ");
    footer.append(number(len as u64).as_str());
    footer.append("   j/k select · c copy · Y all · n/esc close");
    let ghost before = views(r@);
    r.push(
        draw_line(
            room.row_at(room.y + room.height - 1),
            one(footer.as_str(), inked(p.overlay0)),
            plain(),
        ),
    );
    assert(views(r@) =~= before.push(
        line_at(room.row(room.y + room.height - 1), notices_footer(p, n), plain()),
    ));
    r
}

/// Where the toasts stack: at the bottom right, clear of the tab row.
pub open spec fn toast_rect(area: Rect, i: int) -> Rect {
    let width = at_most(36, less(area.width as int, 4));
    Rect {
        x: (area.x + less(area.width as int, width + 2)) as u16,
        y: (area.y + less(area.height as int, 2) - 3 * (i + 1)) as u16,
        width: width as u16,
        height: 3,
    }
}

/// A toast's text.
pub open spec fn toast_line(p: Palette, t: ToastView, width: int) -> LineView {
    let title = truncated(t.title, 14);
    seq![
        sp("● "@, inked(toast_color(&p, t.kind))),
        sp(title, bold(p.text)),
        sp(
            " "@ + truncated(t.body, less(width, title.len() as int + 3) as nat),
            inked(p.subtext0),
        ),
    ]
}

/// A toast's card, the newest being 0.
pub open spec fn toast_card(area: Rect, p: Palette, toasts: Seq<ToastView>, i: int) -> Seq<
    DrawView,
> {
    let card = toast_rect(area, i);
    let t = toasts[toasts.len() - 1 - i];
    seq![
        DrawView::Clear(card),
        DrawView::Frame {
            area: card,
            title: Seq::empty(),
            border: Ink::Theme(p.surface1),
            background: Some(Ink::Theme(p.panel_bg)),
        },
        line_at(inside(card), toast_line(p, t, inside(card).width as int), plain()),
    ]
}

/// The newest `n` cards, the newest at the bottom.
pub open spec fn toast_cards(area: Rect, p: Palette, toasts: Seq<ToastView>, n: nat) -> Seq<
    DrawView,
>
    decreases n,
{
    if n == 0 {
        Seq::empty()
    } else {
        toast_cards(area, p, toasts, (n - 1) as nat) + toast_card(area, p, toasts, n - 1)
    }
}

/// The toasts: as many as there is room for, none where the pane is small.
pub open spec fn toasts_scene(area: Rect, p: Palette, toasts: Seq<ToastView>) -> Seq<DrawView> {
    if area.width < 24 || area.height < 4 {
        Seq::empty()
    } else {
        toast_cards(
            area,
            p,
            toasts,
            at_most(toasts.len() as int, (area.height - 2) / 3) as nat,
        )
    }
}

fn toast_text(p: &Palette, t: &Toast, width: usize) -> (r: Line)
    requires
        width <= u16::MAX,
    ensures
        r@ == toast_line(*p, t@, width as int),
{
    let title = truncate(t.title(), 14);
    proof {
        truncated_fits(t@.title, 14);
    }
    let budget: usize = width.saturating_sub(columns(title.as_str()) + 3);
    let body = joined2(" ", truncate(t.body(), budget).as_str());
    three(
        span("● ", inked(toast_color(p, t.kind()))),
        span_of(title, bold(p.text)),
        span_of(body, inked(p.subtext0)),
    )
}

/// Draws the stack of expiring toasts at the bottom right of the main pane,
/// newest at the bottom.
pub fn render_toasts(area: Rect, p: &Palette, toasts: &Vec<Toast>) -> (r: Vec<Draw>)
    requires
        area.fits(),
    ensures
        views(r@) == toasts_scene(area, *p, views(toasts@)),
{
    let ghost all = views(toasts@);
    let mut r: Vec<Draw> = Vec::new();
    if area.width < 24 || area.height < 4 {
        assert(views(r@) =~= Seq::empty());
        return r;
    }
    let len: usize = toasts.len();
    let width: u16 = if area.width - 4 > 36 {
        36
    } else {
        area.width - 4
    };
    let x: u16 = area.x + (area.width - (width + 2));
    let room: usize = (area.height as usize - 2) / 3;
    let shown: usize = if len < room {
        len
    } else {
        room
    };
    assert(views(r@) =~= toast_cards(area, *p, all, 0));
    let mut i: usize = 0;
    while i < shown
        invariant
            i <= shown <= len == all.len(),
            all == views(toasts@),
            area.fits(),
            area.width >= 24,
            area.height >= 4,
            3 * shown <= area.height - 2,
            width == at_most(36, less(area.width as int, 4)),
            x == area.x + less(area.width as int, width + 2),
            views(r@) == toast_cards(area, *p, all, i as nat),
        decreases shown - i,
    {
        let ghost before = views(r@);
        let y: u16 = area.y + (area.height - 2 - 3 * (i as u16 + 1));
        let card = Rect { x, y, width, height: 3 };
        assert(card == toast_rect(area, i as int));
        let t = &toasts[len - 1 - i];
        assert(all[len - 1 - i] == t@);
        let room = inner(card);
        r.push(Draw::Clear(card));
        r.push(
            Draw::Frame {
                area: card,
                title: super::paint::blank(),
                border: Ink::Theme(p.surface1),
                background: Some(Ink::Theme(p.panel_bg)),
            },
        );
        r.push(draw_line(room, toast_text(p, t, room.width as usize), plain()));
        assert(views(r@) =~= before + toast_card(area, *p, all, i as int));
        i = i + 1;
    }
    r
}

} // verus!
