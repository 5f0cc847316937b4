//! What surrounds the data: overlays, full-screen modes, the stopped screen,
//! the sidebar's width, and pointer geometry.
use vstd::prelude::*;

use crate::text::opt_text;
use crate::theme::Palette;

use super::{
    ClickRegion, ClickTarget, Focus, HitsView, Layout, Modals, ModalsView, NoticesView,
    ScrollbarHit, SessionView, SidebarDivider, StacksView, TuiState, TuiView, MIN_MAIN_WIDTH,
    MIN_SIDEBAR_WIDTH,
};

verus! {

/// The widest that the sidebar may be in a frame of `total` columns.
pub open spec fn widest_sidebar(total: u16) -> int {
    let room = total as int - MIN_MAIN_WIDTH as int;
    if room > MIN_SIDEBAR_WIDTH {
        room
    } else {
        MIN_SIDEBAR_WIDTH as int
    }
}

/// `width` brought into the range that a frame of `total` columns allows.
pub open spec fn clamped_sidebar(width: u16, total: u16) -> int {
    if width < MIN_SIDEBAR_WIDTH {
        MIN_SIDEBAR_WIDTH as int
    } else if width > widest_sidebar(total) {
        widest_sidebar(total)
    } else {
        width as int
    }
}

impl SidebarDivider {
    /// The cell lies on the divider or in the gutter to its left.
    pub open spec fn covers(self, col: u16, row: u16) -> bool {
        self.y <= row < self.y + self.h && self.x - 1 <= col <= self.x
    }
}

impl ScrollbarHit {
    /// The cell lies on the track.
    pub open spec fn covers(self, col: u16, row: u16) -> bool {
        col == self.x && self.y <= row < self.y + self.h
    }
}

impl TuiView {
    /// Some overlay is up.
    pub open spec fn modal_open(self) -> bool {
        self.modals.help_visible || self.modals.skill_dialog is Some || self.modals.quit_confirm
            || self.modals.settings is Some || self.modals.port_conflict is Some
            || self.notices.visible
    }

    /// The state in which every daemon has gone: the stopped screen owns the
    /// frame, and every overlay is dismissed.
    pub open spec fn entered_stopped(self, repo: Option<Seq<char>>) -> TuiView {
        TuiView {
            session: SessionView { stopped: true, stopped_repo: repo, ..self.session },
            modals: ModalsView::closed_all(),
            notices: NoticesView { visible: false, ..self.notices },
            layout: Layout { zoom: false, copy_mode: false, ..self.layout },
            ..self
        }
    }

    /// The state after a click on a cell.
    pub open spec fn clicked(self, col: u16, row: u16) -> TuiView {
        match self.hits.region_at(col, row) {
            Some(ClickTarget::Stack(i)) => TuiView {
                stacks: StacksView {
                    shared_selected: false,
                    selected_instance: Some(i),
                    ..self.stacks
                },
                ..self
            },
            Some(ClickTarget::Shared) => TuiView {
                stacks: StacksView { shared_selected: true, ..self.stacks },
                ..self
            },
            Some(ClickTarget::Tab(i)) => TuiView {
                stacks: self.stacks.with_selected(Some(i)),
                ..self
            },
            _ => self,
        }
    }
}

impl TuiState {
    /// True while every daemon has gone and the dashboard waits for the next.
    pub fn stopped(&self) -> (r: bool)
        ensures
            r == self@.session.stopped,
    {
        self.session.stopped
    }

    /// The repo label of the stopped screen, if one was captured.
    pub fn stopped_repo(&self) -> (r: Option<&str>)
        ensures
            match r {
                Some(s) => self@.session.stopped_repo == Some(s@),
                None => self@.session.stopped_repo is None,
            },
    {
        match &self.session.stopped_repo {
            Some(s) => Some(s.as_str()),
            None => None,
        }
    }

    /// Enters the stopped state instead of exiting. Any overlay is dismissed
    /// so that its keys don't shadow the stopped screen's.
    pub fn enter_stopped(&mut self, repo: Option<String>)
        requires
            old(self).wf(),
        ensures
            final(self).wf(),
            final(self)@ == old(self)@.entered_stopped(opt_text(repo)),
    {
        self.session.stopped = true;
        self.session.stopped_repo = repo;
        self.modals = Modals {
            help_visible: false,
            skill_dialog: None,
            quit_confirm: false,
            settings: None,
            pending_port_conflict: None,
            port_conflict: None,
        };
        self.notices.visible = false;
        self.layout.zoom = false;
        self.layout.copy_mode = false;
    }

    /// Leaves the stopped state: a daemon reattached.
    pub fn clear_stopped(&mut self)
        requires
            old(self).wf(),
        ensures
            final(self).wf(),
            final(self)@ == (TuiView {
                session: SessionView { stopped: false, stopped_repo: None, ..old(self)@.session },
                ..old(self)@
            }),
    {
        self.session.stopped = false;
        self.session.stopped_repo = None;
    }

    pub fn focus(&self) -> (r: Focus)
        ensures
            r == self@.session.focus,
    {
        self.session.focus
    }

    pub fn copy_mode(&self) -> (r: bool)
        ensures
            r == self@.layout.copy_mode,
    {
        self.layout.copy_mode
    }

    pub fn enter_copy_mode(&mut self)
        requires
            old(self).wf(),
        ensures
            final(self).wf(),
            final(self)@ == (TuiView {
                layout: Layout { copy_mode: true, ..old(self)@.layout },
                ..old(self)@
            }),
    {
        self.layout.copy_mode = true;
    }

    pub fn exit_copy_mode(&mut self)
        requires
            old(self).wf(),
        ensures
            final(self).wf(),
            final(self)@ == (TuiView {
                layout: Layout { copy_mode: false, ..old(self)@.layout },
                ..old(self)@
            }),
    {
        self.layout.copy_mode = false;
    }

    pub fn help_visible(&self) -> (r: bool)
        ensures
            r == self@.modals.help_visible,
    {
        self.modals.help_visible
    }

    pub fn toggle_help(&mut self)
        requires
            old(self).wf(),
        ensures
            final(self).wf(),
            final(self)@ == (TuiView {
                modals: ModalsView {
                    help_visible: !old(self)@.modals.help_visible,
                    ..old(self)@.modals
                },
                ..old(self)@
            }),
    {
        self.modals.help_visible = !self.modals.help_visible;
    }

    pub fn hide_help(&mut self)
        requires
            old(self).wf(),
        ensures
            final(self).wf(),
            final(self)@ == (TuiView {
                modals: ModalsView { help_visible: false, ..old(self)@.modals },
                ..old(self)@
            }),
    {
        self.modals.help_visible = false;
    }

    pub fn palette(&self) -> (r: &Palette)
        ensures
            *r == self@.session.palette,
    {
        &self.session.palette
    }

    pub fn set_palette(&mut self, palette: Palette)
        requires
            old(self).wf(),
        ensures
            final(self).wf(),
            final(self)@ == (TuiView {
                session: SessionView { palette, ..old(self)@.session },
                ..old(self)@
            }),
    {
        self.session.palette = palette;
    }

    pub fn sidebar_collapsed(&self) -> (r: bool)
        ensures
            r == self@.layout.sidebar_collapsed,
    {
        self.layout.sidebar_collapsed
    }

    pub fn toggle_sidebar(&mut self)
        requires
            old(self).wf(),
        ensures
            final(self).wf(),
            final(self)@ == (TuiView {
                layout: Layout {
                    sidebar_collapsed: !old(self)@.layout.sidebar_collapsed,
                    ..old(self)@.layout
                },
                ..old(self)@
            }),
    {
        self.layout.sidebar_collapsed = !self.layout.sidebar_collapsed;
    }

    /// Current sidebar width in columns.
    pub fn sidebar_width(&self) -> (r: u16)
        ensures
            r == self@.layout.sidebar_width,
    {
        self.layout.sidebar_width
    }

    /// Stores a new sidebar width, kept wide enough for the sidebar and narrow
    /// enough for the main pane.
    pub fn set_sidebar_width(&mut self, width: u16, total_width: u16)
        requires
            old(self).wf(),
        ensures
            final(self).wf(),
            final(self)@ == (TuiView {
                layout: Layout {
                    sidebar_width: clamped_sidebar(width, total_width) as u16,
                    ..old(self)@.layout
                },
                ..old(self)@
            }),
    {
        let room: u16 = total_width.saturating_sub(MIN_MAIN_WIDTH);
        let max: u16 = if room > MIN_SIDEBAR_WIDTH {
            room
        } else {
            MIN_SIDEBAR_WIDTH
        };
        self.layout.sidebar_width = if width < MIN_SIDEBAR_WIDTH {
            MIN_SIDEBAR_WIDTH
        } else if width > max {
            max
        } else {
            width
        };
    }

    /// Records the divider's geometry for this frame.
    pub fn set_sidebar_divider(&mut self, x: u16, y: u16, h: u16, total_width: u16)
        requires
            old(self).wf(),
        ensures
            final(self).wf(),
            final(self)@ == (TuiView {
                hits: HitsView {
                    sidebar_divider: Some(SidebarDivider { x, y, h, total_width }),
                    ..old(self)@.hits
                },
                ..old(self)@
            }),
    {
        self.hits.sidebar_divider = Some(SidebarDivider { x, y, h, total_width });
    }

    /// Whether `(col, row)` falls on the sidebar divider. The hit zone is two
    /// columns wide so it's easy to grab.
    pub fn sidebar_divider_at(&self, col: u16, row: u16) -> (r: bool)
        ensures
            r == match self@.hits.sidebar_divider {
                Some(d) => d.covers(col, row),
                None => false,
            },
    {
        match self.hits.sidebar_divider {
            Some(d) => row >= d.y && (row as u32) < d.y as u32 + d.h as u32 && col <= d.x
                && col as u32 + 1 >= d.x as u32,
            None => false,
        }
    }

    pub fn sidebar_dragging(&self) -> (r: bool)
        ensures
            r == self@.hits.sidebar_dragging,
    {
        self.hits.sidebar_dragging
    }

    pub fn begin_sidebar_drag(&mut self)
        requires
            old(self).wf(),
        ensures
            final(self).wf(),
            final(self)@ == (TuiView {
                hits: HitsView { sidebar_dragging: true, ..old(self)@.hits },
                ..old(self)@
            }),
    {
        self.hits.sidebar_dragging = true;
    }

    pub fn end_sidebar_drag(&mut self)
        requires
            old(self).wf(),
        ensures
            final(self).wf(),
            final(self)@ == (TuiView {
                hits: HitsView { sidebar_dragging: false, ..old(self)@.hits },
                ..old(self)@
            }),
    {
        self.hits.sidebar_dragging = false;
    }

    /// Resizes the sidebar so that its divider sits at pointer column `col`.
    pub fn sidebar_drag_to(&mut self, col: u16)
        requires
            old(self).wf(),
        ensures
            final(self).wf(),
            final(self)@ == match old(self)@.hits.sidebar_divider {
                Some(d) => TuiView {
                    layout: Layout {
                        sidebar_width: clamped_sidebar(col, d.total_width) as u16,
                        ..old(self)@.layout
                    },
                    ..old(self)@
                },
                None => old(self)@,
            },
    {
        match self.hits.sidebar_divider {
            Some(d) => self.set_sidebar_width(col, d.total_width),
            None => {},
        }
    }

    pub fn zoom(&self) -> (r: bool)
        ensures
            r == self@.layout.zoom,
    {
        self.layout.zoom
    }

    pub fn toggle_zoom(&mut self)
        requires
            old(self).wf(),
        ensures
            final(self).wf(),
            final(self)@ == (TuiView {
                layout: Layout { zoom: !old(self)@.layout.zoom, ..old(self)@.layout },
                ..old(self)@
            }),
    {
        self.layout.zoom = !self.layout.zoom;
    }

    pub fn exit_zoom(&mut self)
        requires
            old(self).wf(),
        ensures
            final(self).wf(),
            final(self)@ == (TuiView {
                layout: Layout { zoom: false, ..old(self)@.layout },
                ..old(self)@
            }),
    {
        self.layout.zoom = false;
    }

    pub fn quit_confirm_visible(&self) -> (r: bool)
        ensures
            r == self@.modals.quit_confirm,
    {
        self.modals.quit_confirm
    }

    pub fn open_quit_confirm(&mut self)
        requires
            old(self).wf(),
        ensures
            final(self).wf(),
            final(self)@ == (TuiView {
                modals: ModalsView { quit_confirm: true, ..old(self)@.modals },
                ..old(self)@
            }),
    {
        self.modals.quit_confirm = true;
    }

    pub fn cancel_quit_confirm(&mut self)
        requires
            old(self).wf(),
        ensures
            final(self).wf(),
            final(self)@ == (TuiView {
                modals: ModalsView { quit_confirm: false, ..old(self)@.modals },
                ..old(self)@
            }),
    {
        self.modals.quit_confirm = false;
    }

    /// Clears the per-frame hit map. The drag flags stay: a drag spans frames.
    pub fn begin_frame_hits(&mut self)
        requires
            old(self).wf(),
        ensures
            final(self).wf(),
            final(self)@ == (TuiView {
                hits: HitsView {
                    click_regions: Seq::empty(),
                    scrollbar_hit: None,
                    sidebar_divider: None,
                    ..old(self)@.hits
                },
                ..old(self)@
            }),
    {
        self.hits.click_regions.clear();
        self.hits.scrollbar_hit = None;
        self.hits.sidebar_divider = None;
    }

    /// Records a clickable region (screen cells) and what activating it does.
    pub fn push_click_region(&mut self, x: u16, y: u16, w: u16, h: u16, target: ClickTarget)
        requires
            old(self).wf(),
        ensures
            final(self).wf(),
            final(self)@ == (TuiView {
                hits: HitsView {
                    click_regions: old(self)@.hits.click_regions.push(
                        ClickRegion { x, y, w, h, target },
                    ),
                    ..old(self)@.hits
                },
                ..old(self)@
            }),
    {
        self.hits.click_regions.push(ClickRegion { x, y, w, h, target });
    }

    /// Records the log scrollbar's track geometry.
    pub fn set_scrollbar_hit(&mut self, x: u16, y: u16, h: u16, content_len: usize, viewport: usize)
        requires
            old(self).wf(),
        ensures
            final(self).wf(),
            final(self)@ == (TuiView {
                hits: HitsView {
                    scrollbar_hit: Some(ScrollbarHit { x, y, h, content_len, viewport }),
                    ..old(self)@.hits
                },
                ..old(self)@
            }),
    {
        self.hits.scrollbar_hit = Some(ScrollbarHit { x, y, h, content_len, viewport });
    }

    /// Whether any overlay is up. Clicks shouldn't fall through one.
    pub fn any_modal_open(&self) -> (r: bool)
        ensures
            r == self@.modal_open(),
    {
        self.modals.help_visible || self.modals.skill_dialog.is_some() || self.modals.quit_confirm
            || self.modals.settings.is_some() || self.modals.port_conflict.is_some()
            || self.notices.visible
    }

    /// What a click on a cell would activate.
    pub fn target_at(&self, col: u16, row: u16) -> (r: Option<ClickTarget>)
        ensures
            r == self@.hits.region_at(col, row),
    {
        self.hits.target_at(col, row)
    }

    /// Applies a left-click at `(col, row)`. Returns true if it landed on a
    /// region that selects something. Selecting mirrors the keyboard.
    pub fn click_at(&mut self, col: u16, row: u16) -> (r: bool)
        requires
            old(self).wf(),
        ensures
            final(self).wf(),
            final(self)@ == old(self)@.clicked(col, row),
            r == match old(self)@.hits.region_at(col, row) {
                Some(ClickTarget::Stack(_)) | Some(ClickTarget::Shared) | Some(
                    ClickTarget::Tab(_),
                ) => true,
                _ => false,
            },
    {
        match self.hits.target_at(col, row) {
            Some(ClickTarget::Stack(i)) => {
                self.stacks.shared_selected = false;
                self.stacks.selected_instance = Some(i);
                true
            },
            Some(ClickTarget::Shared) => {
                self.stacks.shared_selected = true;
                true
            },
            Some(ClickTarget::Tab(i)) => {
                self.stacks.set_active_selected_service(Some(i));
                true
            },
            _ => false,
        }
    }

    /// Whether `(col, row)` falls on the log scrollbar track.
    pub fn scrollbar_at(&self, col: u16, row: u16) -> (r: bool)
        ensures
            r == match self@.hits.scrollbar_hit {
                Some(h) => h.covers(col, row),
                None => false,
            },
    {
        match self.hits.scrollbar_hit {
            Some(h) => col == h.x && row >= h.y && (row as u32) < h.y as u32 + h.h as u32,
            None => false,
        }
    }

    pub fn scrollbar_dragging(&self) -> (r: bool)
        ensures
            r == self@.hits.scrollbar_dragging,
    {
        self.hits.scrollbar_dragging
    }

    pub fn begin_scrollbar_drag(&mut self)
        requires
            old(self).wf(),
        ensures
            final(self).wf(),
            final(self)@ == (TuiView {
                hits: HitsView { scrollbar_dragging: true, ..old(self)@.hits },
                ..old(self)@
            }),
    {
        self.hits.scrollbar_dragging = true;
    }

    pub fn end_scrollbar_drag(&mut self)
        requires
            old(self).wf(),
        ensures
            final(self).wf(),
            final(self)@ == (TuiView {
                hits: HitsView { scrollbar_dragging: false, ..old(self)@.hits },
                ..old(self)@
            }),
    {
        self.hits.scrollbar_dragging = false;
    }
}

} // verus!
