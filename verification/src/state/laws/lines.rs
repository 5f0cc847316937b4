//! Lines: how output becomes lines, how many are kept, and which of them the
//! viewport shows.
use vstd::prelude::*;

use crate::state::logs::{
    buffered, chunk_lines, kept, logs_after, nonempty, scroll_after, stripped,
};
use crate::state::scroll::{least, minus};
use crate::state::{LogsView, ScrollView, StacksView, TuiView};
use crate::text::laws::{free_of, pieces_stand_between_separators};
use crate::text::{pieces, trimmed_end_of};

use super::logs::{scroll_is_kept, scrollable};

verus! {

proof fn filtered_sum(a: Seq<Seq<char>>, b: Seq<Seq<char>>)
    ensures
        nonempty(a + b) == nonempty(a) + nonempty(b),
    decreases b.len(),
{
    reveal(Seq::filter);
    if b.len() == 0 {
        assert(a + b =~= a);
        assert(nonempty(a) + nonempty(b) =~= nonempty(a));
    } else {
        filtered_sum(a, b.drop_last());
        assert((a + b).drop_last() =~= a + b.drop_last());
        assert((a + b).last() == b.last());
        assert(nonempty(a + b) =~= nonempty(a) + nonempty(b));
    }
}

/// Law: output becomes lines at its newlines, so that output with a newline in it
/// is the lines of what stands before and those of what stands behind. A line
/// loses the carriage returns at its end, and an empty one is dropped.
pub proof fn output_becomes_lines(a: Seq<char>, b: Seq<char>)
    ensures
        chunk_lines(a + seq!['\n'] + b) == chunk_lines(a) + chunk_lines(b),
        free_of(a, '\n') ==> chunk_lines(a) == if trimmed_end_of(a, '\r').len() == 0 {
            Seq::empty()
        } else {
            seq![trimmed_end_of(a, '\r')]
        },
{
    pieces_stand_between_separators(a, '\n', b);
    let p = pieces(a, '\n');
    let q = pieces(b, '\n');
    assert(stripped(p + q) =~= stripped(p) + stripped(q));
    filtered_sum(stripped(p), stripped(q));
    if free_of(a, '\n') {
        reveal(Seq::filter);
        let one = seq![trimmed_end_of(a, '\r')];
        assert(stripped(seq![a]) =~= one);
        assert(one.drop_last() =~= Seq::<Seq<char>>::empty());
        assert(nonempty(Seq::<Seq<char>>::empty()) =~= Seq::<Seq<char>>::empty());
        assert(nonempty(one) =~= if trimmed_end_of(a, '\r').len() == 0 {
            Seq::empty()
        } else {
            one
        });
    }
}

/// Law: a service's buffer keeps its newest thousand lines: all it held and all
/// that arrived, in that order, without the oldest of them where there are more.
pub proof fn a_thousand_lines_are_kept(logs: LogsView, service: Seq<char>, text: Seq<char>)
    ensures
        ({
            let held = if logs.dom().contains(service) {
                logs[service]
            } else {
                Seq::empty()
            };
            let all = held + chunk_lines(text);
            let k: int = if all.len() < 1000 {
                all.len() as int
            } else {
                1000
            };
            let after = logs_after(logs, service, text);
            &&& after.dom().contains(service)
            &&& after[service] == all.subrange(all.len() - k, all.len() as int)
            &&& forall|other: Seq<char>|
                other != service ==> (#[trigger] after.dom().contains(other)
                    <==> logs.dom().contains(other)) && (logs.dom().contains(other) ==> after[other]
                    == logs[other])
        }),
{
    let all = buffered(logs, service) + chunk_lines(text);
    let k: int = if all.len() < 1000 {
        all.len() as int
    } else {
        1000
    };
    assert(kept(all) =~= all.subrange(all.len() - k, all.len() as int));
}

/// Law: a log that is scrolled back moves back by as many lines as arrive, so that
/// it stays where it is, but not beyond its oldest line; one that follows its
/// tail goes on following it; and no other service's offset moves.
pub proof fn offsets_grow_with_output(
    logs: LogsView,
    scroll: ScrollView,
    service: Seq<char>,
    text: Seq<char>,
)
    requires
        forall|x: Seq<char>| #[trigger] scroll.dom().contains(x) ==> scroll[x] > 0,
    ensures
        ({
            let after = scroll_after(logs, scroll, service, text);
            let arrived = chunk_lines(text).len();
            let held = logs_after(logs, service, text)[service].len();
            &&& !scroll.dom().contains(service) ==> !after.dom().contains(service)
            &&& scroll.dom().contains(service) && arrived == 0 ==> after == scroll
            &&& scroll.dom().contains(service) && arrived > 0 && scroll[service] + arrived <= held
                && held <= usize::MAX ==> after.dom().contains(service) && after[service]
                == scroll[service] + arrived
            &&& scroll.dom().contains(service) && arrived > 0 && scroll[service] + arrived > held
                && held <= usize::MAX ==> after.dom().contains(service) && after[service] == held
            &&& forall|other: Seq<char>|
                other != service ==> (#[trigger] after.dom().contains(other)
                    <==> scroll.dom().contains(other)) && (scroll.dom().contains(other)
                    ==> after[other] == scroll[other])
        }),
{
}

/// Law: the viewport shows as many lines as it has rows, and the last of them is
/// the one that the offset counts back from the newest: with offset zero the
/// newest line itself, with offset one the line before it, and so on. Where
/// fewer lines than rows are left, it shows all of those.
pub proof fn the_viewport_ends_at_the_offset(v: TuiView)
    ensures
        ({
            let lines = v.stacks.selected_lines();
            let rows = v.layout.viewport_height as int;
            let end = lines.len() - v.stacks.offset();
            let shown = v.visible_lines();
            &&& end <= 0 ==> shown.len() == 0
            &&& 0 < end <= rows ==> shown == lines.take(end)
            &&& 0 < end && rows <= end ==> shown == lines.subrange(end - rows, end)
            &&& 0 < end && rows > 0 ==> shown.len() > 0 && shown.last() == lines[end - 1]
        }),
{
    let lines = v.stacks.selected_lines();
    let rows = v.layout.viewport_height as int;
    let end = lines.len() - v.stacks.offset();
    let shown = v.visible_lines();
    if 0 < end <= rows {
        assert(shown =~= lines.take(end));
    }
    if 0 < end && rows <= end {
        assert(shown =~= lines.subrange(end - rows, end));
    }
}

/// Law: scrolling back by `n` lines adds `n` to the offset, as far as there are
/// older lines than the viewport shows; scrolling forward takes `n` from it, as
/// far as the newest line.
pub proof fn scrolling_counts_lines(s: StacksView, n: usize, rows: usize)
    requires
        scrollable(s),
        s.selected_lines().len() <= usize::MAX,
    ensures
        ({
            let older = s.selected_lines().len() - rows;
            let back = s.scrolled_up(n as int, rows).offset();
            let forth = s.scrolled_down(n as int).offset();
            &&& older <= 0 ==> back == 0
            &&& older > 0 && s.offset() + n <= older ==> back == s.offset() + n
            &&& older > 0 && s.offset() + n > older ==> back == older
            &&& s.offset() >= n ==> forth == s.offset() - n
            &&& s.offset() < n ==> forth == 0
        }),
{
    let to = least(s.offset() + n, s.max_offset(rows)) as usize;
    scroll_is_kept(s, to);
    scroll_is_kept(s, minus(s.offset() as int, n as int) as usize);
}

} // verus!
