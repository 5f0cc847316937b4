//! The log viewport of the selected service: its lines, how far it is scrolled
//! back, and the scrollbar.
use std::collections::VecDeque;

use vstd::prelude::*;

use crate::lists::{views, Table};
use crate::text::texts;

use super::double::{scaled, share};
use super::logs::{buffered, offset_of};
use super::tabs::{is_named_in, named_in};
use super::{
    offsets_positive, InstanceView, Layout, LogBuffer, ScrollView, ScrollbarHit, SharedView,
    Stacks, StacksView, TuiState, TuiView,
};

verus! {

/// The smaller of two numbers.
pub open spec fn least(a: int, b: int) -> int {
    if a < b {
        a
    } else {
        b
    }
}

/// `a - b`, or 0 where `b` is larger.
pub open spec fn minus(a: int, b: int) -> int {
    if a > b {
        a - b
    } else {
        0
    }
}

/// The lines that a viewport of `height` rows shows, `offset` lines back from
/// the tail.
pub open spec fn window(lines: Seq<Seq<char>>, offset: int, height: int) -> Seq<Seq<char>> {
    let end = minus(lines.len() as int, offset);
    lines.subrange(minus(end, height), end)
}

/// The offsets with that of `service` replaced; following the tail needs none.
pub open spec fn with_offset(scroll: ScrollView, service: Seq<char>, value: usize) -> ScrollView {
    if value == 0 {
        scroll.remove(service)
    } else {
        scroll.insert(service, value)
    }
}

/// The offset that a row of the scrollbar's track stands for: the oldest line
/// at the top, the tail at the bottom, and in between the share of the lines
/// that `f64` arithmetic gives, rounded to the nearest line.
pub open spec fn track_offset(hit: ScrollbarHit, row: u16) -> int {
    let max = minus(hit.content_len as int, hit.viewport as int);
    if hit.h <= 1 {
        if row <= hit.y {
            max
        } else {
            0
        }
    } else {
        let span = hit.h - 1;
        let rel = least(minus(row as int, hit.y as int), span);
        least(scaled(max as nat, rel as nat, span as nat) as int, max)
    }
}

impl StacksView {
    /// The buffered lines of `service`: those of the shared daemon for a
    /// service that it reports, else those of the selected instance.
    pub open spec fn lines(self, service: Seq<char>) -> Seq<Seq<char>> {
        if named_in(self.shared.services, service) {
            buffered(self.shared.logs, service)
        } else {
            match self.current() {
                Some(i) => buffered(i.logs, service),
                None => Seq::empty(),
            }
        }
    }

    /// The lines of the selected service.
    pub open spec fn selected_lines(self) -> Seq<Seq<char>> {
        match self.selected() {
            Some(s) => self.lines(s.name),
            None => Seq::empty(),
        }
    }

    /// How far the selected service is scrolled back.
    pub open spec fn offset(self) -> usize {
        match self.selected() {
            Some(s) => if self.selected_shared() {
                offset_of(self.shared.log_scroll, s.name)
            } else {
                match self.current() {
                    Some(i) => offset_of(i.log_scroll, s.name),
                    None => 0,
                }
            },
            None => 0,
        }
    }

    /// The furthest that the selected service can be scrolled back in a
    /// viewport of `height` rows.
    pub open spec fn max_offset(self, height: usize) -> int {
        minus(self.selected_lines().len() as int, height as int)
    }

    /// The stacks with the selected service scrolled back by `value` lines.
    pub open spec fn scrolled(self, value: usize) -> StacksView {
        match self.selected() {
            Some(s) => if self.selected_shared() {
                StacksView {
                    shared: SharedView {
                        log_scroll: with_offset(self.shared.log_scroll, s.name, value),
                        ..self.shared
                    },
                    ..self
                }
            } else {
                match self.current() {
                    Some(i) => StacksView {
                        instances: self.instances.update(
                            self.selected_instance->0 as int,
                            InstanceView {
                                log_scroll: with_offset(i.log_scroll, s.name, value),
                                ..i
                            },
                        ),
                        ..self
                    },
                    None => self,
                }
            },
            None => self,
        }
    }

    /// Scrolled back by `n` more lines, as far as the buffer goes.
    pub open spec fn scrolled_up(self, n: int, height: usize) -> StacksView {
        self.scrolled(least(self.offset() + n, self.max_offset(height)) as usize)
    }

    /// Scrolled forward by `n` lines, at most to the tail.
    pub open spec fn scrolled_down(self, n: int) -> StacksView {
        self.scrolled(minus(self.offset() as int, n) as usize)
    }
}

impl TuiView {
    /// What the log viewport shows.
    pub open spec fn visible_lines(self) -> Seq<Seq<char>> {
        window(
            self.stacks.selected_lines(),
            self.stacks.offset() as int,
            self.layout.viewport_height as int,
        )
    }

    /// The state after the pointer was on `row` of the scrollbar's track.
    pub open spec fn scrollbar_dragged(self, row: u16) -> TuiView {
        match self.hits.scrollbar_hit {
            Some(hit) => if hit.content_len > hit.viewport {
                TuiView { stacks: self.stacks.scrolled(track_offset(hit, row) as usize), ..self }
            } else {
                self
            },
            None => self,
        }
    }
}

/// A page is at least one line.
pub open spec fn page(viewport: usize) -> int {
    if viewport == 0 {
        1
    } else {
        viewport as int
    }
}

fn set_offset(scroll: &mut Table<usize>, name: &str, value: usize)
    ensures
        final(scroll)@ == with_offset(old(scroll)@, name@, value),
        offsets_positive(old(scroll)@) ==> offsets_positive(final(scroll)@),
{
    if value == 0 {
        let _dropped = scroll.remove(name);
    } else {
        scroll.insert(name, value);
    }
}

fn get_offset(scroll: &Table<usize>, name: &str) -> (r: usize)
    ensures
        r == offset_of(scroll@, name@),
{
    match scroll.get(name) {
        Some(v) => *v,
        None => 0,
    }
}

impl Stacks {
    fn log_buffer(&self, service: &str) -> (r: &LogBuffer)
        requires
            self@.wf(),
        ensures
            r@ == self@.lines(service@),
    {
        let found: Option<&LogBuffer> = if is_named_in(&self.shared.services, service) {
            self.shared.logs.get(service)
        } else {
            match self.current_row() {
                Some(i) => i.logs.get(service),
                None => None,
            }
        };
        match found {
            Some(b) => b,
            None => {
                assert(self.no_log@ =~= Seq::empty());
                &self.no_log
            },
        }
    }

    fn scroll_offset(&self) -> (r: usize)
        ensures
            r == self@.offset(),
    {
        match self.selected_snapshot() {
            Some(s) => {
                if self.is_selected_shared() {
                    get_offset(&self.shared.log_scroll, s.name.as_str())
                } else {
                    match self.current_row() {
                        Some(i) => get_offset(&i.log_scroll, s.name.as_str()),
                        None => 0,
                    }
                }
            },
            None => 0,
        }
    }

    fn selected_buffer(&self) -> (r: &LogBuffer)
        requires
            self@.wf(),
        ensures
            r@ == self@.selected_lines(),
    {
        match self.selected_snapshot() {
            Some(s) => self.log_buffer(s.name.as_str()),
            None => {
                assert(self.no_log@ =~= Seq::empty());
                &self.no_log
            },
        }
    }

    fn max_scroll(&self, height: usize) -> (r: usize)
        requires
            self@.wf(),
        ensures
            r == self@.max_offset(height),
    {
        self.selected_buffer().len().saturating_sub(height)
    }

    fn set_scroll(&mut self, value: usize)
        requires
            old(self)@.wf(),
        ensures
            final(self)@.wf(),
            final(self)@ == old(self)@.scrolled(value),
    {
        let ghost before = self@;
        let name: String = match self.selected_snapshot() {
            Some(s) => s.name.clone(),
            None => {
                return;
            },
        };
        if self.is_selected_shared() {
            set_offset(&mut self.shared.log_scroll, name.as_str(), value);
        } else {
            match self.selected_instance {
                Some(i) => {
                    if i < self.instances.len() {
                        assert(before.instances[i as int] == self.instances@[i as int]@);
                        assert(before.instances[i as int].wf());
                        set_offset(&mut self.instances[i].log_scroll, name.as_str(), value);
                        assert(views(self.instances@) =~= before.scrolled(value).instances);
                    }
                },
                None => {},
            }
        }
    }
}

impl TuiState {
    /// Buffered log lines for `service`, oldest first. A repo-scoped service
    /// always resolves to the shared daemon's buffer.
    pub fn service_logs(&self, service: &str) -> (r: &VecDeque<String>)
        requires
            self.wf(),
        ensures
            texts(r@) == self@.stacks.lines(service@),
    {
        self.stacks.log_buffer(service).lines()
    }

    /// Lines-from-bottom scroll offset for the selected service. 0 = tail.
    pub fn log_scroll_offset(&self) -> (r: usize)
        ensures
            r == self@.stacks.offset(),
    {
        self.stacks.scroll_offset()
    }

    pub fn log_page_up(&mut self, viewport: usize)
        requires
            old(self).wf(),
        ensures
            final(self).wf(),
            final(self)@ == (TuiView {
                stacks: old(self)@.stacks.scrolled_up(
                    page(viewport),
                    old(self)@.layout.viewport_height,
                ),
                ..old(self)@
            }),
    {
        let n: usize = if viewport == 0 {
            1
        } else {
            viewport
        };
        self.log_scroll_up(n);
    }

    pub fn log_page_down(&mut self, viewport: usize)
        requires
            old(self).wf(),
        ensures
            final(self).wf(),
            final(self)@ == (TuiView {
                stacks: old(self)@.stacks.scrolled_down(page(viewport)),
                ..old(self)@
            }),
    {
        let n: usize = if viewport == 0 {
            1
        } else {
            viewport
        };
        self.log_scroll_down(n);
    }

    pub fn log_scroll_up(&mut self, lines: usize)
        requires
            old(self).wf(),
        ensures
            final(self).wf(),
            final(self)@ == (TuiView {
                stacks: old(self)@.stacks.scrolled_up(
                    lines as int,
                    old(self)@.layout.viewport_height,
                ),
                ..old(self)@
            }),
    {
        let max: usize = self.stacks.max_scroll(self.layout.viewport_height);
        let moved: usize = self.stacks.scroll_offset().saturating_add(lines);
        let next: usize = if moved < max {
            moved
        } else {
            max
        };
        self.stacks.set_scroll(next);
    }

    pub fn log_scroll_down(&mut self, lines: usize)
        requires
            old(self).wf(),
        ensures
            final(self).wf(),
            final(self)@ == (TuiView {
                stacks: old(self)@.stacks.scrolled_down(lines as int),
                ..old(self)@
            }),
    {
        let next: usize = self.stacks.scroll_offset().saturating_sub(lines);
        self.stacks.set_scroll(next);
    }

    pub fn log_scroll_top(&mut self)
        requires
            old(self).wf(),
        ensures
            final(self).wf(),
            final(self)@ == (TuiView {
                stacks: old(self)@.stacks.scrolled(
                    old(self)@.stacks.max_offset(old(self)@.layout.viewport_height) as usize,
                ),
                ..old(self)@
            }),
    {
        let max: usize = self.stacks.max_scroll(self.layout.viewport_height);
        self.stacks.set_scroll(max);
    }

    pub fn log_scroll_bottom(&mut self)
        requires
            old(self).wf(),
        ensures
            final(self).wf(),
            final(self)@ == (TuiView { stacks: old(self)@.stacks.scrolled(0), ..old(self)@ }),
    {
        self.stacks.set_scroll(0);
    }

    /// Maps a pointer `row` on the scrollbar track to a scroll offset and
    /// applies it. Top of the track is the oldest line, bottom the live tail.
    pub fn scrollbar_drag_to(&mut self, row: u16)
        requires
            old(self).wf(),
        ensures
            final(self).wf(),
            final(self)@ == old(self)@.scrollbar_dragged(row),
    {
        let hit = match self.hits.scrollbar_hit {
            Some(h) => h,
            None => {
                return;
            },
        };
        let max: usize = hit.content_len.saturating_sub(hit.viewport);
        if max == 0 {
            return;
        }
        let offset: usize = if hit.h <= 1 {
            if row <= hit.y {
                max
            } else {
                0
            }
        } else {
            let span: u16 = hit.h - 1;
            let below: u16 = row.saturating_sub(hit.y);
            let rel: u16 = if below < span {
                below
            } else {
                span
            };
            let lines: u128 = share(max, rel, span);
            if lines < max as u128 {
                lines as usize
            } else {
                max
            }
        };
        self.stacks.set_scroll(offset);
    }

    /// The log lines in the viewport; none if nothing is selected.
    pub fn visible_log_lines(&self) -> (r: Vec<&str>)
        requires
            self.wf(),
        ensures
            views(r@) == self@.visible_lines(),
    {
        let buf = self.stacks.selected_buffer().lines();
        let ghost lines = self@.stacks.selected_lines();
        let offset: usize = self.stacks.scroll_offset();
        let end: usize = buf.len().saturating_sub(offset);
        let start: usize = end.saturating_sub(self.layout.viewport_height);
        let r = lines_between(buf, start, end);
        assert(views(r@) =~= self@.visible_lines());
        r
    }

    /// All log lines for the selected service.
    pub fn all_log_lines(&self) -> (r: Vec<&str>)
        requires
            self.wf(),
        ensures
            views(r@) == self@.stacks.selected_lines(),
    {
        let buf = self.stacks.selected_buffer().lines();
        let r = lines_between(buf, 0, buf.len());
        assert(views(r@) =~= self@.stacks.selected_lines());
        r
    }

    /// Takes over the viewport height of the last render pass, at least one
    /// row.
    pub fn set_viewport_height(&mut self, h: usize)
        requires
            old(self).wf(),
        ensures
            final(self).wf(),
            final(self)@ == (TuiView {
                layout: Layout { viewport_height: page(h) as usize, ..old(self)@.layout },
                ..old(self)@
            }),
    {
        self.layout.viewport_height = if h == 0 {
            1
        } else {
            h
        };
    }
}

fn lines_between<'a>(buf: &'a VecDeque<String>, start: usize, end: usize) -> (r: Vec<&'a str>)
    requires
        start <= end <= buf@.len(),
    ensures
        views(r@) == texts(buf@).subrange(start as int, end as int),
{
    let mut r: Vec<&'a str> = Vec::new();
    let mut i: usize = start;
    assert(views(r@) =~= texts(buf@).subrange(start as int, i as int));
    while i < end
        invariant
            start <= i <= end <= buf@.len(),
            views(r@) == texts(buf@).subrange(start as int, i as int),
        decreases end - i,
    {
        let ghost before = views(r@);
        let line = buf[i].as_str();
        r.push(line);
        i = i + 1;
        assert(views(r@) =~= before.push(line@));
        assert(texts(buf@).subrange(start as int, i as int) =~= before.push(texts(buf@)[i - 1]));
    }
    r
}

} // verus!
