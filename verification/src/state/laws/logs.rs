//! Logs: what buffers keep, where chunks go, and that a viewport which is
//! scrolled back holds still.
use std::time::Instant;

use vstd::arithmetic::power2::{lemma_pow2_pos, pow2};
use vstd::prelude::*;

use crate::codec::payload_text;
use crate::lists::first_index_is_least;
use crate::protocol::MessageView;
use crate::state::double::{
    scaled_ends, scaled_is_monotone, scaled_rounds_to_the_nearest, MANTISSA,
};
use crate::state::ingest::{shared_id, with_id};
use crate::state::logs::{buffered, chunk_lines, kept, logs_after, offset_of, scroll_after};
use crate::state::scroll::{minus, track_offset, window};
use crate::state::tabs::{named_in, service_tabs};
use crate::state::{LogsView, ScrollView, ScrollbarHit, StacksView, TabKind, TuiView, LOG_CAP};

verus! {

/// Law: a buffer never holds more than the cap. It drops nothing while there
/// is room, and then only its oldest lines.
pub proof fn buffers_keep_the_newest(logs: LogsView, service: Seq<char>, text: Seq<char>)
    ensures
        ({
            let all = buffered(logs, service) + chunk_lines(text);
            let after = buffered(logs_after(logs, service, text), service);
            &&& after.len() <= LOG_CAP
            &&& after.is_suffix_of(all)
            &&& all.len() <= LOG_CAP ==> after == all
            &&& all.len() > LOG_CAP ==> after.len() == LOG_CAP
        }),
{
    let all = buffered(logs, service) + chunk_lines(text);
    let after = buffered(logs_after(logs, service, text), service);
    assert(after == kept(all));
    assert(after =~= all.skip(all.len() - after.len()));
}

/// Law: output for one service leaves the buffers and offsets of the others
/// alone.
pub proof fn services_log_apart(
    logs: LogsView,
    scroll: ScrollView,
    service: Seq<char>,
    text: Seq<char>,
    other: Seq<char>,
)
    requires
        other != service,
    ensures
        buffered(logs_after(logs, service, text), other) == buffered(logs, other),
        offset_of(scroll_after(logs, scroll, service, text), other) == offset_of(scroll, other),
{
}

/// Law: a log chunk reaches the daemon that sent it and no other. One from a
/// daemon without a row is dropped, and no chunk from an instance touches the
/// shared row, nor one from the shared daemon an instance.
pub proof fn logs_go_to_their_source(
    s: StacksView,
    source: Seq<char>,
    service: Seq<char>,
    payload: Seq<char>,
)
    ensures
        ({
            let after = s.logged(source, service, payload);
            &&& after.instances.len() == s.instances.len()
            &&& shared_id(source) ==> after.instances == s.instances
            &&& !shared_id(source) ==> after.shared == s.shared
            &&& !shared_id(source) && s.find(source) is None ==> after == s
            &&& forall|i: int|
                0 <= i < s.instances.len() && s.find(source) != Some(i)
                    ==> #[trigger] after.instances[i] == s.instances[i]
        }),
{
    first_index_is_least(s.instances, with_id(source));
}

/// What a chunk leaves of what is selected.
proof fn logging_keeps_the_selection(
    s: StacksView,
    source: Seq<char>,
    service: Seq<char>,
    payload: Seq<char>,
)
    ensures
        ({
            let after = s.logged(source, service, payload);
            &&& after.shared.services == s.shared.services
            &&& after.tabs() == s.tabs()
            &&& after.selected() == s.selected()
            &&& after.selected_shared() == s.selected_shared()
            &&& after.command_target() == s.command_target()
        }),
{
    first_index_is_least(s.instances, with_id(source));
    let after = s.logged(source, service, payload);
    assert(after.shared.services == s.shared.services);
    match s.current() {
        Some(i) => {
            assert(after.current() is Some);
            assert(after.current()->0.services == i.services);
            assert(after.current()->0.info == i.info);
        },
        None => {},
    }
    assert(after.current_owned() == s.current_owned());
    assert(after.has_placeholder_tab() == s.has_placeholder_tab());
    assert(after.current_vacant() == s.current_vacant());
    assert(after.tabs() =~= s.tabs());
}

/// On the shared row every tab is a shared service.
proof fn shared_row_is_shared(s: StacksView)
    requires
        s.shared_selected,
        s.selected() is Some,
    ensures
        named_in(s.shared.services, s.selected()->0.name),
{
    let i = s.selected_index()->0 as int;
    assert(s.tabs() == service_tabs(s.shared.services, TabKind::Shared));
    assert(s.selected() == Some(s.shared.services[i]));
}

/// How many of its oldest lines the buffer of `service` drops when `text`
/// arrives.
pub open spec fn dropped(logs: LogsView, service: Seq<char>, text: Seq<char>) -> int {
    minus(
        buffered(logs, service).len() as int + chunk_lines(text).len() as int,
        LOG_CAP as int,
    )
}

/// How many of the lines that the viewport scrolls over a chunk drops: none
/// where it is for another buffer, or carries no text.
pub open spec fn lost(
    s: StacksView,
    source: Seq<char>,
    service: Seq<char>,
    payload: Seq<char>,
) -> int {
    match (s.selected(), payload_text(payload)) {
        (Some(tab), Some(text)) => if tab.name != service {
            0
        } else if s.selected_shared() {
            if shared_id(source) {
                dropped(s.shared.logs, service, text)
            } else {
                0
            }
        } else if !shared_id(source) && s.current() is Some && s.find(source) == Some(
            s.selected_instance->0 as int,
        ) {
            dropped(s.current()->0.logs, service, text)
        } else {
            0
        },
        _ => 0,
    }
}

/// How a chunk moves a buffer and its offset.
proof fn window_holds(
    logs: LogsView,
    scroll: ScrollView,
    service: Seq<char>,
    text: Seq<char>,
    height: int,
)
    requires
        offset_of(scroll, service) > 0,
        height >= 0,
    ensures
        ({
            let before = buffered(logs, service);
            let after = buffered(logs_after(logs, service, text), service);
            let o = offset_of(scroll, service) as int;
            let p = offset_of(scroll_after(logs, scroll, service, text), service) as int;
            let end = minus(before.len() as int, o);
            let lost = dropped(logs, service, text);
            &&& window(before, o, height).len() == 0 || lost <= minus(end, height) ==> window(
                after,
                p,
                height,
            ) == window(before, o, height)
            &&& lost < end ==> 0 <= after.len() - p - 1 < after.len() && after[after.len() - p - 1]
                == before[before.len() - o - 1]
        }),
{
    let before = buffered(logs, service);
    let arrived = chunk_lines(text);
    let all = before + arrived;
    let after = buffered(logs_after(logs, service, text), service);
    let o = offset_of(scroll, service) as int;
    let p = offset_of(scroll_after(logs, scroll, service, text), service) as int;
    let lost = dropped(logs, service, text);
    let end = minus(before.len() as int, o);
    let start = minus(end, height);
    assert(after == kept(all));
    assert(after =~= all.skip(lost));
    assert(arrived.len() == 0 ==> p == o);
    if lost < end || lost <= start && end > 0 {
        assert(minus(after.len() as int, p) == end - lost);
    }
    if start < end && lost <= start {
        assert(after.subrange(start - lost, end - lost) =~= before.subrange(start, end));
    } else if start >= end {
        assert(height == 0 || end == 0);
        assert(window(after, p, height) =~= window(before, o, height));
    }
}

/// What a chunk does to the selected buffer and its offset.
proof fn selected_window_holds(
    v: TuiView,
    source: Seq<char>,
    service: Seq<char>,
    payload: Seq<char>,
)
    requires
        v.stacks.offset() > 0,
    ensures
        ({
            let before = v.stacks.selected_lines();
            let s = v.stacks.logged(source, service, payload);
            let after = s.selected_lines();
            let o = v.stacks.offset() as int;
            let p = s.offset() as int;
            let h = v.layout.viewport_height as int;
            let end = minus(before.len() as int, o);
            let lost = lost(v.stacks, source, service, payload);
            &&& window(before, o, h).len() == 0 || lost <= minus(end, h) ==> window(after, p, h)
                == window(before, o, h)
            &&& lost < end ==> 0 <= after.len() - p - 1 < after.len() && after[after.len() - p - 1]
                == before[before.len() - o - 1]
        }),
{
    let s = v.stacks;
    let after = s.logged(source, service, payload);
    logging_keeps_the_selection(s, source, service, payload);
    first_index_is_least(s.instances, with_id(source));
    let name = s.selected()->0.name;
    let h = v.layout.viewport_height as int;
    if s.shared_selected {
        shared_row_is_shared(s);
    }
    if payload_text(payload) is Some {
        let text = payload_text(payload)->0;
        if s.selected_shared() {
            if shared_id(source) && name == service {
                window_holds(s.shared.logs, s.shared.log_scroll, service, text, h);
            }
        } else if !shared_id(source) && name == service {
            let k = s.selected_instance->0 as int;
            if s.find(source) == Some(k) {
                window_holds(
                    s.instances[k].logs,
                    s.instances[k].log_scroll,
                    service,
                    text,
                    h,
                );
            } else {
                assert(after.current() == s.current());
            }
        } else {
            assert(after.current() is Some);
        }
    } else {
        assert(after.current() is Some ==> after.current()->0.logs == s.current()->0.logs);
    }
}

/// Law: a viewport that is scrolled back shows the same lines when output
/// arrives, from whichever daemon and for whichever service, as long as the
/// lines on screen are still buffered.
pub proof fn scrolled_viewport_holds_still(
    v: TuiView,
    source: Seq<char>,
    service: Seq<char>,
    payload: Seq<char>,
    ts: u64,
    now: Instant,
)
    requires
        v.stacks.offset() > 0,
        v.visible_lines().len() > 0 ==> lost(v.stacks, source, service, payload) <= minus(
            minus(v.stacks.selected_lines().len() as int, v.stacks.offset() as int),
            v.layout.viewport_height as int,
        ),
    ensures
        v.applied(source, MessageView::LogChunk { service, bytes: payload, ts }, now).visible_lines()
            == v.visible_lines(),
{
    selected_window_holds(v, source, service, payload);
}

/// Law: the line at the bottom of a viewport that is scrolled back stays there
/// when output arrives, as long as that line is still buffered.
pub proof fn bottom_line_holds_still(
    v: TuiView,
    source: Seq<char>,
    service: Seq<char>,
    payload: Seq<char>,
    ts: u64,
    now: Instant,
)
    requires
        v.stacks.offset() > 0,
        lost(v.stacks, source, service, payload) < v.stacks.selected_lines().len()
            - v.stacks.offset(),
    ensures
        ({
            let after = v.applied(
                source,
                MessageView::LogChunk { service, bytes: payload, ts },
                now,
            ).stacks;
            let at = after.selected_lines().len() - after.offset() - 1;
            &&& 0 <= at < after.selected_lines().len()
            &&& after.selected_lines()[at] == v.stacks.selected_lines()[v.stacks.selected_lines().len()
                - v.stacks.offset() - 1]
        }),
{
    selected_window_holds(v, source, service, payload);
}

/// Law: a viewport at the tail stays there when output arrives, and so shows
/// the newest lines.
pub proof fn tail_is_followed(
    v: TuiView,
    source: Seq<char>,
    service: Seq<char>,
    payload: Seq<char>,
    ts: u64,
    now: Instant,
)
    requires
        v.stacks.offset() == 0,
    ensures
        ({
            let after = v.applied(
                source,
                MessageView::LogChunk { service, bytes: payload, ts },
                now,
            );
            let lines = after.stacks.selected_lines();
            &&& after.stacks.offset() == 0
            &&& after.visible_lines() == lines.skip(
                minus(lines.len() as int, v.layout.viewport_height as int),
            )
        }),
{
    let s = v.stacks;
    let after = s.logged(source, service, payload);
    logging_keeps_the_selection(s, source, service, payload);
    first_index_is_least(s.instances, with_id(source));
    let lines = after.selected_lines();
    assert(after.offset() == 0);
    assert(window(lines, 0, v.layout.viewport_height as int) =~= lines.skip(
        minus(lines.len() as int, v.layout.viewport_height as int),
    ));
}

/// Law: the viewport never shows more lines than it has rows, and always lines
/// that are buffered one after another.
pub proof fn viewport_is_a_window(v: TuiView)
    ensures
        v.visible_lines().len() <= v.layout.viewport_height,
        v.stacks.offset() == 0 && v.stacks.selected_lines().len() >= v.layout.viewport_height
            ==> v.visible_lines().len() == v.layout.viewport_height,
        exists|at: int|
            0 <= at <= v.stacks.selected_lines().len() - v.visible_lines().len()
                && v.visible_lines() == #[trigger] v.stacks.selected_lines().subrange(
                at,
                at + v.visible_lines().len(),
            ),
{
    let lines = v.stacks.selected_lines();
    let end = minus(lines.len() as int, v.stacks.offset() as int);
    let at = minus(end, v.layout.viewport_height as int);
    assert(v.visible_lines() == lines.subrange(at, at + v.visible_lines().len()));
}

/// What scrolling leaves of what is selected.
proof fn scrolling_keeps_the_selection(s: StacksView, value: usize)
    ensures
        s.scrolled(value).tabs() == s.tabs(),
        s.scrolled(value).selected() == s.selected(),
        s.scrolled(value).selected_shared() == s.selected_shared(),
        s.scrolled(value).selected_lines() == s.selected_lines(),
{
    let after = s.scrolled(value);
    assert(after.shared.services == s.shared.services);
    match s.current() {
        Some(i) => {
            assert(after.current() is Some);
            assert(after.current()->0.services == i.services);
        },
        None => {},
    }
    assert(after.current_owned() == s.current_owned());
    assert(after.tabs() =~= s.tabs());
}

/// A service is selected and has a row to remember its offset in.
pub open spec fn scrollable(s: StacksView) -> bool {
    s.selected() is Some && (s.selected_shared() || s.current() is Some)
}

/// Law: scrolling moves the selected service's viewport and nothing else. No
/// lines are lost, and scrolling back by what was scrolled up restores the
/// offset, unless the top was in the way.
pub proof fn scrolling_undoes_itself(s: StacksView, n: usize, height: usize)
    requires
        scrollable(s),
    ensures
        s.scrolled_up(n as int, height).selected() == s.selected(),
        s.scrolled_up(n as int, height).selected_lines() == s.selected_lines(),
        s.offset() + n <= s.max_offset(height) && s.selected_lines().len() <= usize::MAX ==> {
            &&& s.scrolled_up(n as int, height).offset() == s.offset() + n
            &&& s.scrolled_up(n as int, height).scrolled_down(n as int).offset() == s.offset()
        },
        s.selected_lines().len() <= usize::MAX ==> s.scrolled_up(n as int, height).offset()
            <= s.max_offset(height),
        n >= s.offset() ==> s.scrolled_down(n as int).offset() == 0,
{
    let up = s.scrolled_up(n as int, height);
    let to = crate::state::scroll::least(s.offset() + n, s.max_offset(height)) as usize;
    scroll_is_kept(s, to);
    scrolling_keeps_the_selection(s, to);
    scroll_is_kept(up, minus(up.offset() as int, n as int) as usize);
    scroll_is_kept(s, minus(s.offset() as int, n as int) as usize);
}

/// Law: the offset that the selected service is scrolled to is the one that it
/// then has.
pub proof fn scroll_is_kept(s: StacksView, value: usize)
    requires
        scrollable(s),
    ensures
        s.scrolled(value).offset() == value,
        scrollable(s.scrolled(value)),
{
    scrolling_keeps_the_selection(s, value);
}

/// Law: the top of the scrollbar's track stands for the oldest lines and its
/// bottom for the tail; a lower row never shows older lines. No more lines than
/// an `f64` can count are exact at the top.
pub proof fn track_runs_from_oldest_to_tail(hit: ScrollbarHit, row: u16, lower: u16)
    requires
        row <= lower,
        hit.content_len < MANTISSA,
    ensures
        ({
            let max = minus(hit.content_len as int, hit.viewport as int);
            &&& 0 <= track_offset(hit, row) <= max
            &&& track_offset(hit, lower) <= track_offset(hit, row)
            &&& row <= hit.y ==> track_offset(hit, row) == max
            &&& hit.h > 1 && row >= hit.y + hit.h - 1 ==> track_offset(hit, row) == 0
            &&& hit.h <= 1 && row > hit.y ==> track_offset(hit, row) == 0
        }),
{
    if hit.h > 1 {
        let max = minus(hit.content_len as int, hit.viewport as int) as nat;
        let span = (hit.h - 1) as nat;
        let r = crate::state::scroll::least(minus(row as int, hit.y as int), span as int) as nat;
        let l = crate::state::scroll::least(minus(lower as int, hit.y as int), span as int) as nat;
        scaled_is_monotone(max, r, l, span);
        scaled_ends(max, span);
    }
}

/// Law: the dragged scrollbar scrolls the selected log to where the track stands for,
/// where there are more lines than rows; otherwise it does nothing.
pub proof fn the_dragged_bar_scrolls(v: TuiView, hit: ScrollbarHit, row: u16)
    requires
        v.hits.scrollbar_hit == Some(hit),
        scrollable(v.stacks),
        hit.content_len < MANTISSA,
    ensures
        hit.content_len > hit.viewport ==> v.scrollbar_dragged(row).stacks.offset() == track_offset(
            hit,
            row,
        ),
        hit.content_len <= hit.viewport ==> v.scrollbar_dragged(row) == v,
{
    track_runs_from_oldest_to_tail(hit, row, row);
    scroll_is_kept(v.stacks, track_offset(hit, row) as usize);
}

/// Law: the rows of the track share the lines evenly: a row stands for its part of
/// them, counted from the tail and rounded to the nearest line. This is exact where
/// the track has as many steps as a power of two.
pub proof fn rows_of_the_track_share_the_lines(hit: ScrollbarHit, rel: nat, j: nat)
    requires
        j <= 15,
        hit.h - 1 == pow2(j),
        rel <= pow2(j),
        hit.y + rel <= u16::MAX,
        hit.viewport <= hit.content_len < MANTISSA,
        (hit.content_len - hit.viewport) * (pow2(j) - rel) < MANTISSA,
    ensures
        ({
            let lines = hit.content_len - hit.viewport;
            let share = lines * (pow2(j) - rel);
            track_offset(hit, (hit.y + rel) as u16) == (2 * share + pow2(j)) / (2 * pow2(j) as int)
        }),
{
    let span = pow2(j);
    let max = (hit.content_len - hit.viewport) as nat;
    lemma_pow2_pos(j);
    scaled_rounds_to_the_nearest(max, rel, j);
    let share = max * (span - rel);
    let q = (2 * share + span) / (2 * span as int);
    assert(0 <= q <= max) by (nonlinear_arith)
        requires
            q == (2 * share + span) / (2 * span as int),
            share == max * (span - rel),
            0 <= rel <= span,
            span > 0,
            max >= 0,
    ;
}

} // verus!
