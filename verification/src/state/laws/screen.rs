//! The screen: the sidebar's width and scroll, and what the mouse finds.
use std::time::Instant;

use vstd::prelude::*;

use crate::lists::first_index_is_least;
use crate::state::chrome::{clamped_sidebar, widest_sidebar};
use crate::state::hits::covering;
use crate::state::nav::kept_visible;
use crate::state::toasts::{any_animated, spinner_frames};
use crate::state::{StacksView, TuiView, MIN_MAIN_WIDTH, MIN_SIDEBAR_WIDTH};
use crate::theme::mocha_palette;

verus! {

/// Law: however the divider is dragged, the sidebar keeps its least width, and
/// where both fit, the main pane keeps its own. A width that is allowed is
/// left alone, and in a wider frame it stays allowed.
pub proof fn sidebar_width_stays_in_bounds(width: u16, total: u16, wider: u16)
    requires
        total <= wider,
    ensures
        MIN_SIDEBAR_WIDTH <= clamped_sidebar(width, total) <= u16::MAX,
        total >= MIN_SIDEBAR_WIDTH + MIN_MAIN_WIDTH ==> clamped_sidebar(width, total)
            + MIN_MAIN_WIDTH <= total,
        clamped_sidebar(clamped_sidebar(width, total) as u16, total) == clamped_sidebar(
            width,
            total,
        ),
        clamped_sidebar(clamped_sidebar(width, total) as u16, wider) == clamped_sidebar(
            width,
            total,
        ),
        MIN_SIDEBAR_WIDTH <= width <= widest_sidebar(total) ==> clamped_sidebar(width, total)
            == width,
{
}

/// Law: the sidebar scrolls so that the selected row is in view and no row
/// below the last is shown; it does not scroll where the row is in view
/// already, nor where all rows fit.
pub proof fn selected_row_is_in_view(scroll: int, sel: int, total: int, rows: int)
    requires
        0 <= sel < total,
        0 <= scroll,
        rows > 0,
    ensures
        ({
            let s = kept_visible(scroll, sel, total, rows);
            &&& 0 <= s <= sel < s + rows
            &&& total > rows ==> s + rows <= total
            &&& total <= rows ==> s == 0
            &&& scroll <= sel < scroll + rows && scroll + rows <= total ==> s == scroll
            &&& kept_visible(s, sel, total, rows) == s
        }),
{
}

/// Law: a click activates the region recorded first over its cell; a cell
/// outside every region activates nothing, and so leaves the state as it is.
pub proof fn clicks_find_the_first_region(v: TuiView, col: u16, row: u16)
    ensures
        match v.hits.region_at(col, row) {
            Some(t) => exists|i: int|
                0 <= i < v.hits.click_regions.len() && (#[trigger] v.hits.click_regions[i]).covers(
                    col,
                    row,
                ) && v.hits.click_regions[i].target == t && forall|j: int|
                    0 <= j < i ==> !(#[trigger] v.hits.click_regions[j]).covers(col, row),
            None => v.clicked(col, row) == v && forall|i: int|
                0 <= i < v.hits.click_regions.len() ==> !(
                #[trigger] v.hits.click_regions[i]).covers(col, row),
        },
{
    let regions = v.hits.click_regions;
    first_index_is_least(regions, covering(col, row));
    assert forall|j: int| 0 <= j < regions.len() implies covering(col, row)(regions[j]) == (
    #[trigger] regions[j]).covers(col, row) by {}
}

/// Law: the sidebar scrolls no further than it has to: up until the selected row is
/// the first in view, down until it is the last.
pub proof fn scrolling_goes_as_far_as_needed(scroll: int, sel: int, total: int, rows: int)
    requires
        0 <= sel < total,
        0 <= scroll,
        0 < rows < total,
        scroll + rows <= total,
    ensures
        sel < scroll ==> kept_visible(scroll, sel, total, rows) == sel,
        scroll + rows <= sel ==> kept_visible(scroll, sel, total, rows) + rows == sel + 1,
        scroll <= sel < scroll + rows ==> kept_visible(scroll, sel, total, rows) == scroll,
{
}

/// Law: something moves on the screen exactly while a service of some stack, or a
/// shared one, starts or restarts.
pub proof fn spinners_turn_while_something_starts(s: StacksView)
    ensures
        s.animated() <==> (exists|i: int, k: int|
            #![trigger s.instances[i].services[k]]
            0 <= i < s.instances.len() && 0 <= k < s.instances[i].services.len() && (
            s.instances[i].services[k].state is Starting || s.instances[i].services[k].state
                is Restarting)) || (exists|k: int|
            0 <= k < s.shared.services.len() && ((#[trigger] s.shared.services[k]).state is Starting
                || s.shared.services[k].state is Restarting)),
{
    if exists|i: int, k: int|
        #![trigger s.instances[i].services[k]]
        0 <= i < s.instances.len() && 0 <= k < s.instances[i].services.len() && (
        s.instances[i].services[k].state is Starting || s.instances[i].services[k].state
            is Restarting) {
        let (i, k) = choose|i: int, k: int|
            #![trigger s.instances[i].services[k]]
            0 <= i < s.instances.len() && 0 <= k < s.instances[i].services.len() && (
            s.instances[i].services[k].state is Starting || s.instances[i].services[k].state
                is Restarting);
        assert(s.instances[i].services[k].state.animated());
        assert(any_animated(s.instances[i].services));
    }
    if exists|i: int|
        0 <= i < s.instances.len() && any_animated(#[trigger] s.instances[i].services) {
        let i = choose|i: int|
            0 <= i < s.instances.len() && any_animated(#[trigger] s.instances[i].services);
        let all = s.instances[i].services;
        let k = choose|k: int| 0 <= k < all.len() && (#[trigger] all[k]).state.animated();
        assert(s.instances[i].services[k].state.animated());
    }
    if any_animated(s.shared.services) {
        let all = s.shared.services;
        let k = choose|k: int| 0 <= k < all.len() && (#[trigger] all[k]).state.animated();
        assert(all[k].state is Starting || all[k].state is Restarting);
    }
}

/// Law: the spinner has ten frames, no two alike.
pub proof fn spinner_frames_differ(i: int, j: int)
    requires
        0 <= i < j < 10,
    ensures
        spinner_frames().len() == 10,
        spinner_frames()[i] != spinner_frames()[j],
{
}

/// Law: an overlay is up exactly while the help, the skill prompt, the question
/// whether to quit, the settings, a port conflict or the notices are shown.
pub proof fn overlays_that_count(v: TuiView)
    ensures
        !v.modal_open() <==> !v.modals.help_visible && v.modals.skill_dialog is None
            && !v.modals.quit_confirm && v.modals.settings is None && v.modals.port_conflict is None
            && !v.notices.visible,
{
}

/// Law: a new dashboard shows nothing and holds nothing: no stack, no notice and no
/// overlay, the dark palette and an empty configuration, its sidebar open and
/// twenty-eight columns wide, its hints as they were found.
pub proof fn a_new_dashboard_is_empty(eligible: bool, now: Instant)
    ensures
        ({
            let v = TuiView::initial(eligible, now);
            &&& v.stacks.instances.len() == 0 && v.stacks.selected_instance is None
            &&& v.stacks.shared.services.len() == 0 && v.stacks.shared.id is None
            &&& !v.stacks.shared_selected && !v.stacks.had_live_daemon && !v.stacks.all_shut_down()
            &&& v.notices.toasts.len() == 0 && v.notices.history.len() == 0
            &&& !v.modal_open() && v.modals.pending_port_conflict is None
            &&& !v.layout.copy_mode && !v.layout.zoom && !v.layout.sidebar_collapsed
            &&& v.layout.sidebar_width == 28
            &&& v.hits.click_regions.len() == 0 && !v.hits.sidebar_dragging
                && !v.hits.scrollbar_dragging
            &&& v.session.skill_hint_eligible == eligible && !v.session.stopped
            &&& v.session.palette == mocha_palette()
            &&& v.session.config == Map::<Seq<char>, Seq<char>>::empty()
        }),
{
}

/// Law: once every daemon is gone the stopped screen takes over: every overlay is
/// closed, nothing fills the screen, and what was reported and recorded stays.
pub proof fn the_stopped_screen_takes_over(v: TuiView, repo: Option<Seq<char>>)
    ensures
        ({
            let after = v.entered_stopped(repo);
            &&& after.session.stopped && after.session.stopped_repo == repo
            &&& !after.modals.help_visible && after.modals.skill_dialog is None
            &&& !after.modals.quit_confirm && after.modals.settings is None
            &&& after.modals.port_conflict is None && after.modals.pending_port_conflict is None
            &&& !after.notices.visible && after.notices.history == v.notices.history
                && after.notices.toasts == v.notices.toasts
            &&& !after.layout.zoom && !after.layout.copy_mode && after.layout.sidebar_width
                == v.layout.sidebar_width && after.layout.sidebar_collapsed
                == v.layout.sidebar_collapsed
            &&& after.stacks == v.stacks && after.hits == v.hits && after.session.config
                == v.session.config && after.session.palette == v.session.palette
        }),
{
}

} // verus!
