//! Mouse hit-testing. The renderer records clickable regions, the scrollbar
//! track and the sidebar divider each frame; pointer events are tested against
//! them.
use vstd::prelude::*;

use crate::lists::{first_index, first_index_at, first_index_none};

use super::{ClickRegion, ClickTarget, Hits, HitsView};

verus! {

impl ClickRegion {
    /// The cell `(col, row)` lies in the rectangle.
    pub open spec fn covers(self, col: u16, row: u16) -> bool {
        self.x <= col < self.x + self.w && self.y <= row < self.y + self.h
    }

    pub fn contains(&self, col: u16, row: u16) -> (r: bool)
        ensures
            r == self.covers(col, row),
    {
        col >= self.x && (col as u32) < self.x as u32 + self.w as u32 && row >= self.y && (
        row as u32) < self.y as u32 + self.h as u32
    }
}

/// The regions that cover a cell.
pub open spec fn covering(col: u16, row: u16) -> spec_fn(ClickRegion) -> bool {
    |r: ClickRegion| r.covers(col, row)
}

impl HitsView {
    /// What a click on a cell activates: the target of the first region
    /// recorded over it.
    pub open spec fn region_at(self, col: u16, row: u16) -> Option<ClickTarget> {
        match first_index(self.click_regions, covering(col, row)) {
            Some(i) => Some(self.click_regions[i].target),
            None => None,
        }
    }
}

impl Hits {
    pub(crate) fn target_at(&self, col: u16, row: u16) -> (r: Option<ClickTarget>)
        ensures
            r == self@.region_at(col, row),
    {
        let ghost p = covering(col, row);
        let mut i: usize = 0;
        while i < self.click_regions.len()
            invariant
                i <= self.click_regions.len(),
                p == covering(col, row),
                forall|j: int| 0 <= j < i ==> !p(self.click_regions@[j]),
            decreases self.click_regions.len() - i,
        {
            if self.click_regions[i].contains(col, row) {
                proof {
                    first_index_at(self.click_regions@, p, i as int);
                }
                return Some(self.click_regions[i].target);
            }
            i = i + 1;
        }
        proof {
            first_index_none(self.click_regions@, p);
        }
        None
    }
}

} // verus!
