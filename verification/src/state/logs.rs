//! Log buffers: how a chunk of log bytes reaches a service's buffer, and how a
//! scrolled-back viewport keeps its place while lines arrive behind it.
use std::collections::VecDeque;

use vstd::prelude::*;

use crate::codec::{decode_payload, payload_text};
use crate::lists::Table;
use crate::text::{pieces, split, texts, trim_end_of, trimmed_end_of};

use super::{capped, offsets_positive, InstanceData, InstanceView, LogBuffer, LogsView, ScrollView, LOG_CAP};

verus! {

/// A line without its carriage returns.
pub open spec fn stripped(lines: Seq<Seq<char>>) -> Seq<Seq<char>> {
    lines.map_values(|l: Seq<char>| trimmed_end_of(l, '\r'))
}

/// The lines that are not empty.
pub open spec fn nonempty(lines: Seq<Seq<char>>) -> Seq<Seq<char>> {
    lines.filter(|l: Seq<char>| l.len() > 0)
}

/// The log lines in a piece of output: what stands between newlines, carriage
/// returns stripped from its end, empty lines left out.
pub open spec fn chunk_lines(text: Seq<char>) -> Seq<Seq<char>> {
    nonempty(stripped(pieces(text, '\n')))
}

/// What a buffer keeps of `lines`: the newest.
pub open spec fn kept(lines: Seq<Seq<char>>) -> Seq<Seq<char>> {
    if lines.len() > LOG_CAP {
        lines.skip(lines.len() - LOG_CAP)
    } else {
        lines
    }
}

/// The buffer of `service`, empty where it has none.
pub open spec fn buffered(logs: LogsView, service: Seq<char>) -> Seq<Seq<char>> {
    if logs.dom().contains(service) {
        logs[service]
    } else {
        Seq::empty()
    }
}

/// The offset of `service`, zero where it follows its tail.
pub open spec fn offset_of(scroll: ScrollView, service: Seq<char>) -> usize {
    if scroll.dom().contains(service) {
        scroll[service]
    } else {
        0
    }
}

/// The buffers after `text` arrived for `service`.
pub open spec fn logs_after(logs: LogsView, service: Seq<char>, text: Seq<char>) -> LogsView {
    logs.insert(service, kept(buffered(logs, service) + chunk_lines(text)))
}

/// The offsets after `text` arrived for `service`: a viewport that is scrolled
/// back moves up by as many lines as arrived, as far as the buffer reaches, so
/// that what is on screen stays there, whether or not old lines were dropped.
pub open spec fn scroll_after(
    logs: LogsView,
    scroll: ScrollView,
    service: Seq<char>,
    text: Seq<char>,
) -> ScrollView {
    let arrived = chunk_lines(text).len();
    let after = logs_after(logs, service, text)[service].len();
    if arrived > 0 && offset_of(scroll, service) > 0 {
        let moved = scroll[service] + arrived;
        scroll.insert(
            service,
            (if moved < after {
                moved
            } else {
                after as int
            }) as usize,
        )
    } else {
        scroll
    }
}

impl InstanceView {
    /// The instance after a chunk for `service` arrived. A payload that
    /// carries no text changes nothing.
    pub open spec fn with_chunk(self, service: Seq<char>, payload: Seq<char>) -> InstanceView {
        match payload_text(payload) {
            Some(text) => InstanceView {
                logs: logs_after(self.logs, service, text),
                log_scroll: scroll_after(self.logs, self.log_scroll, service, text),
                ..self
            },
            None => self,
        }
    }
}

/// Dropping early or late makes no difference to what is kept.
proof fn kept_push(lines: Seq<Seq<char>>, line: Seq<char>)
    ensures
        kept(kept(lines).push(line)) == kept(lines.push(line)),
{
    assert(kept(kept(lines).push(line)) =~= kept(lines.push(line)));
}

impl LogBuffer {
    pub fn new() -> (r: Self)
        ensures
            r@ == Seq::<Seq<char>>::empty(),
    {
        let r = LogBuffer { lines: VecDeque::new() };
        assert(r@ =~= Seq::empty());
        r
    }

    pub fn len(&self) -> (r: usize)
        ensures
            r == self@.len(),
    {
        self.lines.len()
    }

    /// Appends a line, dropping the oldest one from a full buffer.
    fn push(&mut self, line: String)
        requires
            old(self)@.len() <= LOG_CAP,
        ensures
            final(self)@ == kept(old(self)@.push(line@)),
            final(self)@.len() <= LOG_CAP,
    {
        let ghost before = self@;
        if self.lines.len() == LOG_CAP {
            let _oldest = self.lines.pop_front();
            assert(texts(self.lines@) =~= before.skip(1));
        }
        let ghost mid = self@;
        self.lines.push_back(line);
        assert(self@ =~= mid.push(line@));
        assert(self@ =~= kept(before.push(line@)));
    }

    /// Appends the lines of a piece of output. Returns how many there were.
    fn push_chunk(&mut self, text: &str) -> (r: usize)
        requires
            old(self)@.len() <= LOG_CAP,
        ensures
            r == chunk_lines(text@).len(),
            final(self)@ == kept(old(self)@ + chunk_lines(text@)),
            final(self)@.len() <= LOG_CAP,
    {
        let ghost before = self@;
        let parts = split(text, '\n');
        let ghost all = stripped(pieces(text@, '\n'));
        let mut i: usize = 0;
        let mut arrived: usize = 0;
        proof {
            assert(nonempty(all.take(0)) =~= Seq::empty()) by {
                reveal(Seq::filter);
            }
            assert(before + nonempty(all.take(0)) =~= before);
        }
        while i < parts.len()
            invariant
                i <= parts.len(),
                texts(parts@) == pieces(text@, '\n'),
                all == stripped(pieces(text@, '\n')),
                arrived == nonempty(all.take(i as int)).len(),
                arrived <= i,
                self@ == kept(before + nonempty(all.take(i as int))),
                self@.len() <= LOG_CAP,
            decreases parts.len() - i,
        {
            let line = trim_end_of(parts[i].as_str(), '\r');
            proof {
                assert(texts(parts@)[i as int] == parts@[i as int]@);
                assert(line@ == all[i as int]);
                assert(all.take(i + 1).drop_last() =~= all.take(i as int));
                reveal(Seq::filter);
            }
            let ghost so_far = before + nonempty(all.take(i as int));
            if !line.as_str().is_empty() {
                assert(before + nonempty(all.take(i + 1)) =~= so_far.push(line@));
                self.push(line);
                arrived = arrived + 1;
                proof {
                    kept_push(so_far, line@);
                }
            } else {
                assert(nonempty(all.take(i + 1)) =~= nonempty(all.take(i as int)));
            }
            i = i + 1;
        }
        assert(all.take(i as int) =~= all);
        arrived
    }

    /// The buffered lines, oldest first.
    pub fn lines(&self) -> (r: &VecDeque<String>)
        ensures
            texts(r@) == self@,
    {
        &self.lines
    }
}

/// Appends the lines of `text` to the buffer of `service` and keeps a
/// scrolled-back viewport on the lines it shows.
pub(crate) fn absorb(
    logs: &mut Table<LogBuffer>,
    scroll: &mut Table<usize>,
    service: &str,
    text: &str,
)
    requires
        capped(old(logs)@),
    ensures
        final(logs)@ == logs_after(old(logs)@, service@, text@),
        final(scroll)@ == scroll_after(old(logs)@, old(scroll)@, service@, text@),
        capped(final(logs)@),
        offsets_positive(old(scroll)@) ==> offsets_positive(final(scroll)@),
{
    let ghost logs0 = logs@;
    let mut buf = match logs.remove(service) {
        Some(b) => b,
        None => LogBuffer::new(),
    };
    assert(buf@ == buffered(logs0, service@));
    let arrived: usize = buf.push_chunk(text);
    let after: usize = buf.len();
    logs.insert(service, buf);
    proof {
        assert(logs@ =~= logs_after(logs0, service@, text@));
    }
    if arrived > 0 {
        let off: usize = match scroll.get(service) {
            Some(o) => *o,
            None => 0,
        };
        if off > 0 {
            let moved: usize = if off < after && arrived < after - off {
                off + arrived
            } else {
                after
            };
            scroll.insert(service, moved);
        }
    }
}

impl InstanceData {
    /// Absorbs a base64 log chunk for `service`.
    pub(crate) fn apply_log_chunk_to(&mut self, service: &str, bytes: &str)
        requires
            capped(old(self)@.logs),
            offsets_positive(old(self)@.log_scroll),
        ensures
            final(self)@ == old(self)@.with_chunk(service@, bytes@),
            capped(final(self)@.logs),
            offsets_positive(final(self)@.log_scroll),
    {
        match decode_payload(bytes) {
            Some(text) => absorb(&mut self.logs, &mut self.log_scroll, service, text.as_str()),
            None => {},
        }
    }
}

} // verus!
