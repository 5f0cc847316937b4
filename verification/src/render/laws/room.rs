//! Room: how areas are cut, framed and centred, and how text is filled up.
use vstd::prelude::*;

use crate::render::layout::{at_most, head_and_rest, inside, less, modal_in, rest_and_tail, Axis};
use crate::render::paint::{padded, Rect};
use crate::text::laws::repeating_adds_up;
use crate::text::repeated;

verus! {

/// Law: what is left of an amount is never below nothing, and what is granted never
/// above what is there.
pub proof fn amounts_are_bounded(a: int, b: int)
    ensures
        less(a, b) == if a > b {
            a - b
        } else {
            0
        },
        at_most(a, b) <= a && at_most(a, b) <= b && (at_most(a, b) == a || at_most(a, b) == b),
{
}

/// Law: the inside of a frame is one cell smaller on every side.
pub proof fn frames_take_a_cell_on_every_side(area: Rect)
    requires
        area.fits(),
        area.width >= 2,
        area.height >= 2,
    ensures
        ({
            let room = inside(area);
            &&& room.x == area.x + 1 && room.y == area.y + 1
            &&& room.x + room.width + 1 == area.x + area.width
            &&& room.y + room.height + 1 == area.y + area.height
        }),
{
}

/// Law: an overlay stands in the middle of the screen, as large as it wants to be
/// where that leaves the margins, and otherwise as large as they allow.
pub proof fn overlays_stand_in_the_middle(
    area: Rect,
    width: int,
    height: int,
    margin_x: int,
    margin_y: int,
)
    requires
        area.fits(),
        0 <= margin_x <= area.width,
        0 <= margin_y <= area.height,
        0 <= width,
        0 <= height,
    ensures
        ({
            let m = modal_in(area, width, height, margin_x, margin_y);
            let left = m.x - area.x;
            let right = area.x + area.width - (m.x + m.width);
            let above = m.y - area.y;
            let under = area.y + area.height - (m.y + m.height);
            &&& m.within(area)
            &&& m.width == if width < area.width - margin_x {
                width
            } else {
                area.width - margin_x
            }
            &&& m.height == if height < area.height - margin_y {
                height
            } else {
                area.height - margin_y
            }
            &&& 0 <= right - left <= 1
            &&& 0 <= under - above <= 1
        }),
{
}

/// Law: an area that is cut in two is cut without a gap: the part that is wanted is
/// as large as asked for where there is room, and the other part is the rest.
pub proof fn cuts_leave_no_gap(area: Rect, n: u16, least: u16)
    requires
        area.fits(),
    ensures
        ({
            let (head, rest) = head_and_rest(area, Axis::Across, n);
            &&& head.x == area.x && head.width == if n < area.width {
                n
            } else {
                area.width
            }
            &&& rest.x == head.x + head.width && rest.width == area.width - head.width
            &&& head.y == area.y && rest.y == area.y && head.height == area.height && rest.height
                == area.height
        }),
        ({
            let (rest, tail) = rest_and_tail(area, Axis::Down, least, n);
            &&& rest.y == area.y && tail.y == rest.y + rest.height && rest.height + tail.height
                == area.height
            &&& area.height >= least + n ==> tail.height == n
            &&& area.height < least + n ==> tail.height == if area.height > least {
                area.height - least
            } else {
                0
            }
            &&& rest.x == area.x && tail.x == area.x && rest.width == area.width && tail.width
                == area.width
        }),
{
}

/// Law: text is filled up with spaces to a width, and longer text is left alone.
pub proof fn text_is_filled_up(s: Seq<char>, width: int)
    requires
        0 <= width,
    ensures
        padded(s, width).take(s.len() as int) == s,
        s.len() <= width ==> padded(s, width).len() == width,
        s.len() > width ==> padded(s, width) == s,
        forall|i: int| s.len() <= i < padded(s, width).len() ==> padded(s, width)[i] == ' ',
{
    let n = less(width, s.len() as int) as nat;
    repeating_adds_up(" "@, n);
    reveal_strlit(" ");
    assert(n * 1 == n);
    assert(padded(s, width).take(s.len() as int) =~= s);
    spaces(n);
    if s.len() > width {
        assert(padded(s, width) =~= s);
    }
}

proof fn spaces(n: nat)
    ensures
        repeated(" "@, n).len() == n,
        forall|i: int| 0 <= i < n ==> #[trigger] repeated(" "@, n)[i] == ' ',
    decreases n,
{
    reveal_strlit(" ");
    if n > 0 {
        spaces((n - 1) as nat);
    }
}

} // verus!
