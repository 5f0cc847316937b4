//! Dividing the screen: splitting areas, the inside of a border, and centred
//! modals.
use vstd::prelude::*;

use super::paint::Rect;

verus! {

/// How much of an area a part of it asks for.
#[derive(Debug, Clone, Copy, PartialEq, Eq, Structural)]
pub enum Part {
    /// At least this many cells, and what is left.
    Least(u16),
    /// This many cells.
    Exactly(u16),
}

/// The direction in which parts follow each other.
#[derive(Debug, Clone, Copy, PartialEq, Eq, Structural)]
pub enum Axis {
    Down,
    Across,
}

impl Part {
    /// The cells that it asks for.
    pub open spec fn cells(self) -> int {
        match self {
            Part::Least(n) => n as int,
            Part::Exactly(n) => n as int,
        }
    }
}

/// The cells of an area along an axis.
pub open spec fn extent(area: Rect, axis: Axis) -> int {
    match axis {
        Axis::Down => area.height as int,
        Axis::Across => area.width as int,
    }
}

/// `size` cells of an area along an axis, `start` cells from its beginning.
pub open spec fn slice(area: Rect, axis: Axis, start: int, size: int) -> Rect {
    match axis {
        Axis::Down => Rect { y: (area.y + start) as u16, height: size as u16, ..area },
        Axis::Across => Rect { x: (area.x + start) as u16, width: size as u16, ..area },
    }
}

/// The cells that a part of a fixed size asks for.
pub open spec fn taken(part: Part) -> int {
    match part {
        Part::Exactly(n) => n as int,
        Part::Least(_) => 0,
    }
}

/// The cells that the parts of a fixed size ask for.
pub open spec fn fixed(parts: Seq<Part>) -> int
    decreases parts.len(),
{
    if parts.len() == 0 {
        0
    } else {
        fixed(parts.drop_last()) + taken(parts.last())
    }
}

/// All parts but the one at `k` have a fixed size.
pub open spec fn grows_at(parts: Seq<Part>, k: int) -> bool {
    0 <= k < parts.len() && parts[k] is Least && forall|i: int|
        0 <= i < parts.len() && i != k ==> #[trigger] parts[i] is Exactly
}

/// The cells that the parts of a fixed size get out of `size`, the part that
/// grows coming first.
pub open spec fn granted(size: int, parts: Seq<Part>, k: int) -> int {
    at_most(fixed(parts), less(size, parts[k].cells()))
}

/// Where an area begins along an axis.
pub open spec fn begin(area: Rect, axis: Axis) -> int {
    match axis {
        Axis::Down => area.y as int,
        Axis::Across => area.x as int,
    }
}

/// Where an area ends along an axis.
pub open spec fn end(area: Rect, axis: Axis) -> int {
    begin(area, axis) + extent(area, axis)
}

/// The area after the one at `i` begins where that one ends.
pub open spec fn meets(areas: Seq<Rect>, axis: Axis, i: int) -> bool {
    end(areas[i], axis) == begin(areas[i + 1], axis)
}

/// What holds of any division of an area into parts: there is an area for each
/// part, within the whole and of its full size across the axis. Where one part
/// grows, the areas follow each other from one end to the other, no part of a
/// fixed size gets more than it asks for, and the part that grows gets what the
/// others leave.
pub open spec fn divides(area: Rect, axis: Axis, parts: Seq<Part>, areas: Seq<Rect>) -> bool {
    &&& areas.len() == parts.len()
    &&& forall|i: int| 0 <= i < areas.len() ==> (#[trigger] areas[i]).within(area)
    &&& forall|i: int|
        0 <= i < areas.len() ==> match axis {
            Axis::Down => (#[trigger] areas[i]).x == area.x && areas[i].width == area.width,
            Axis::Across => areas[i].y == area.y && areas[i].height == area.height,
        }
    &&& forall|k: int| #[trigger]
        grows_at(parts, k) ==> {
            &&& begin(areas[0], axis) == begin(area, axis)
            &&& end(areas.last(), axis) == end(area, axis)
            &&& forall|i: int| 0 <= i < areas.len() - 1 ==> #[trigger] meets(areas, axis, i)
            &&& forall|i: int|
                0 <= i < areas.len() && i != k ==> extent(#[trigger] areas[i], axis)
                    <= parts[i].cells()
            &&& extent(areas[k], axis) == extent(area, axis) - granted(
                extent(area, axis),
                parts,
                k,
            )
        }
}

/// `Layout::split` of `ratatui` without margin or spacing, each part a `Min` or
/// a `Length` constraint. There is an area for each constraint, of the area's
/// full size across the direction and within the area, since the solver is
/// given both bounds as required constraints. Every solution that it may choose
/// has this in common where one part is a `Min`: the spacers between parts are
/// empty, since their strength is above that of any part; the minimum comes
/// before the lengths, and the lengths before its wish to grow; no length gets
/// more than it asks for; and the minimum takes the rest. How lengths that
/// compete for too little room share it is left unsaid: the solver walks hash
/// maps, and such solutions are equally good to it.
#[verifier::external_body]
pub(crate) fn split(area: Rect, axis: Axis, parts: &Vec<Part>) -> (r: Vec<Rect>)
    requires
        area.fits(),
        forall|i: int|
            0 <= i < parts@.len() && #[trigger] parts@[i] is Least ==> parts@[i].cells() <= i16::MAX,
    ensures
        divides(area, axis, parts@, r@),
{
    let direction = match axis {
        Axis::Down => ratatui::layout::Direction::Vertical,
        Axis::Across => ratatui::layout::Direction::Horizontal,
    };
    let constraints = parts.iter().map(|p| match p {
        Part::Least(n) => ratatui::layout::Constraint::Min(*n),
        Part::Exactly(n) => ratatui::layout::Constraint::Length(*n),
    });
    let layout = ratatui::layout::Layout::default().direction(direction).constraints(constraints);
    let Rect { x, y, width, height } = area;
    let areas = layout.split(ratatui::layout::Rect { x, y, width, height });
    areas.iter().map(|a| Rect { x: a.x, y: a.y, width: a.width, height: a.height }).collect()
}

/// What the parts of a short list ask for, written out.
proof fn few_parts(parts: Seq<Part>)
    requires
        1 < parts.len() <= 4,
    ensures
        fixed(parts) == taken(parts[0]) + taken(parts[1]) + (if parts.len() > 2 {
            taken(parts[2])
        } else {
            0
        }) + (if parts.len() > 3 {
            taken(parts[3])
        } else {
            0
        }),
{
    reveal_with_fuel(fixed, 5);
    let shorter = parts.drop_last();
    assert(shorter.drop_last().len() == parts.len() - 2);
    if parts.len() > 2 {
        assert(shorter.drop_last().drop_last().len() == parts.len() - 3);
    }
}

/// An area in two: `n` cells first, and the rest after them.
pub open spec fn head_and_rest(area: Rect, axis: Axis, n: u16) -> (Rect, Rect) {
    let size = extent(area, axis);
    let head = at_most(n as int, size);
    (slice(area, axis, 0, head), slice(area, axis, head, size - head))
}

pub(crate) fn split_head(area: Rect, axis: Axis, n: u16) -> (r: (Rect, Rect))
    requires
        area.fits(),
    ensures
        r == head_and_rest(area, axis, n),
        r.0.within(area),
        r.1.within(area),
{
    let parts = vec![Part::Exactly(n), Part::Least(0)];
    let a = split(area, axis, &parts);
    proof {
        few_parts(parts@);
        assert(grows_at(parts@, 1));
        assert(meets(a@, axis, 0));
    }
    (a[0], a[1])
}

/// An area in two: `n` cells last, as far as `least` cells are left before
/// them, and the rest before them.
pub open spec fn rest_and_tail(area: Rect, axis: Axis, least: u16, n: u16) -> (Rect, Rect) {
    let size = extent(area, axis);
    let tail = at_most(n as int, less(size, least as int));
    (slice(area, axis, 0, size - tail), slice(area, axis, size - tail, tail))
}

pub(crate) fn split_tail(area: Rect, axis: Axis, least: u16, n: u16) -> (r: (Rect, Rect))
    requires
        area.fits(),
        least <= i16::MAX,
    ensures
        r == rest_and_tail(area, axis, least, n),
        r.0.within(area),
        r.1.within(area),
{
    let parts = vec![Part::Least(least), Part::Exactly(n)];
    let a = split(area, axis, &parts);
    proof {
        few_parts(parts@);
        assert(grows_at(parts@, 0));
        assert(meets(a@, axis, 0));
    }
    (a[0], a[1])
}

/// The area's rows as a header of `top`, a footer of `bottom` and what is
/// between them, one below the other. An area too low for header and footer is
/// shared between those two alone, and which of them yields is left open.
pub open spec fn stacked(area: Rect, top: u16, bottom: u16, areas: (Rect, Rect, Rect)) -> bool {
    let head = areas.0.height as int;
    let foot = areas.2.height as int;
    &&& areas == (
        slice(area, Axis::Down, 0, head),
        slice(area, Axis::Down, head, area.height - head - foot),
        slice(area, Axis::Down, area.height - foot, foot),
    )
    &&& head <= top && foot <= bottom
    &&& head + foot == at_most(top + bottom, area.height as int)
}

pub(crate) fn split_rows(area: Rect, top: u16, bottom: u16) -> (r: (Rect, Rect, Rect))
    requires
        area.fits(),
    ensures
        stacked(area, top, bottom, r),
        r.0.within(area),
        r.1.within(area),
        r.2.within(area),
{
    let parts = vec![Part::Exactly(top), Part::Least(0), Part::Exactly(bottom)];
    let a = split(area, Axis::Down, &parts);
    proof {
        few_parts(parts@);
        assert(grows_at(parts@, 1));
        assert(meets(a@, Axis::Down, 0) && meets(a@, Axis::Down, 1));
        assert(a@[0].within(area) && a@[1].within(area) && a@[2].within(area));
    }
    (a[0], a[1], a[2])
}

/// The columns of an area that is wide enough: a blank one, the text, another
/// blank one and the scrollbar. Returns the text and the scrollbar.
pub(crate) fn split_columns(area: Rect) -> (r: (Rect, Rect))
    requires
        area.fits(),
        area.width >= 3,
    ensures
        r.0 == slice(area, Axis::Across, 1, area.width - 3),
        r.1 == slice(area, Axis::Across, area.width - 1, 1),
        r.0.within(area),
{
    let parts = vec![Part::Exactly(1), Part::Least(0), Part::Exactly(1), Part::Exactly(1)];
    let a = split(area, Axis::Across, &parts);
    proof {
        few_parts(parts@);
        assert(grows_at(parts@, 1));
        assert(meets(a@, Axis::Across, 0) && meets(a@, Axis::Across, 1));
        assert(meets(a@, Axis::Across, 2));
    }
    (a[1], a[3])
}

/// What is inside a border around the area.
pub open spec fn inside(area: Rect) -> Rect {
    Rect {
        x: (if area.width == 0 {
            area.x as int
        } else {
            area.x + 1
        }) as u16,
        y: (if area.height == 0 {
            area.y as int
        } else {
            area.y + 1
        }) as u16,
        width: (if area.width < 2 {
            0
        } else {
            area.width - 2
        }) as u16,
        height: (if area.height < 2 {
            0
        } else {
            area.height - 2
        }) as u16,
    }
}

/// The inside of a border, as `ratatui`'s blocks with all four borders have it.
pub fn inner(area: Rect) -> (r: Rect)
    requires
        area.fits(),
    ensures
        r == inside(area),
        r.within(area),
        r.fits(),
{
    Rect {
        x: if area.width == 0 {
            area.x
        } else {
            area.x + 1
        },
        y: if area.height == 0 {
            area.y
        } else {
            area.y + 1
        },
        width: area.width.saturating_sub(2),
        height: area.height.saturating_sub(2),
    }
}

/// `want`, or what there is.
pub open spec fn at_most(want: int, room: int) -> int {
    if want < room {
        want
    } else {
        room
    }
}

/// What is left of `a` without `b`.
pub open spec fn less(a: int, b: int) -> int {
    if a < b {
        0
    } else {
        a - b
    }
}

/// A modal of the given size in the middle of the area.
pub open spec fn centred(area: Rect, width: int, height: int) -> Rect {
    Rect {
        x: (area.x + less(area.width as int, width) / 2) as u16,
        y: (area.y + less(area.height as int, height) / 2) as u16,
        width: width as u16,
        height: height as u16,
    }
}

/// A modal that asks for `width` by `height` cells, clear of the area's edges
/// by the given margins.
pub open spec fn modal_in(
    area: Rect,
    width: int,
    height: int,
    margin_x: int,
    margin_y: int,
) -> Rect {
    centred(
        area,
        at_most(width, less(area.width as int, margin_x)),
        at_most(height, less(area.height as int, margin_y)),
    )
}

/// Places a modal in the middle of the area.
pub fn modal(area: Rect, width: u16, height: u16, margin_x: u16, margin_y: u16) -> (r: Rect)
    requires
        area.fits(),
    ensures
        r == modal_in(
            area,
            width as int,
            height as int,
            margin_x as int,
            margin_y as int,
        ),
        r.within(area),
        r.fits(),
{
    let room_w: u16 = area.width.saturating_sub(margin_x);
    let room_h: u16 = area.height.saturating_sub(margin_y);
    let w: u16 = if width < room_w {
        width
    } else {
        room_w
    };
    let h: u16 = if height < room_h {
        height
    } else {
        room_h
    };
    Rect {
        x: area.x + area.width.saturating_sub(w) / 2,
        y: area.y + area.height.saturating_sub(h) / 2,
        width: w,
        height: h,
    }
}

} // verus!
