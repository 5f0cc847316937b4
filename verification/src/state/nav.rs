//! The sidebar: its rows, moving between them, and what is known of each
//! worktree's branch.
use vstd::prelude::*;
use vstd::string::*;

use crate::lists::views;
use crate::protocol::{InfoView, InstanceInfo};
use crate::text::texts;

use super::{InstanceData, InstanceView, Layout, Stacks, StacksView, TuiState, TuiView};

verus! {

/// The identity of a row that was added by label alone.
pub open spec fn local_info(label: Seq<char>) -> InfoView {
    InfoView { id: "local::"@ + label, label, cwd: "."@ }
}

/// The instances with services.
pub open spec fn attached() -> spec_fn(InstanceView) -> bool {
    |i: InstanceView| i.services.len() > 0
}

pub open spec fn id_of() -> spec_fn(InstanceView) -> Seq<char> {
    |i: InstanceView| i.info.id
}

impl StacksView {
    /// A daemon attached once, and now no row has anything reported for it.
    pub open spec fn all_shut_down(self) -> bool {
        self.had_live_daemon && forall|i: int|
            0 <= i < self.instances.len() ==> (#[trigger] self.instances[i]).vacant()
    }

    /// The stacks with a row appended; the first row is selected where none
    /// was.
    pub open spec fn appended(self, info: InfoView) -> StacksView {
        StacksView {
            instances: self.instances.push(InstanceView::fresh(info)),
            selected_instance: match self.selected_instance {
                Some(i) => Some(i),
                None => Some(0),
            },
            ..self
        }
    }

    /// The stacks with a row for a worktree without a daemon, unless its id
    /// has a row already.
    pub open spec fn with_placeholder(self, info: InfoView) -> StacksView {
        if self.find(info.id) is Some {
            self
        } else {
            self.appended(info)
        }
    }

    /// The stacks with a refreshed branch name and commit counts. An unknown
    /// branch leaves the label alone, and then counts that are not known leave
    /// the old ones.
    pub open spec fn git_refreshed(
        self,
        id: Seq<char>,
        branch: Option<Seq<char>>,
        ahead_behind: Option<(usize, usize)>,
    ) -> StacksView {
        match self.find(id) {
            Some(i) => {
                let row = self.instances[i];
                let fresh = match branch {
                    Some(b) => InstanceView {
                        info: InfoView { label: b, ..row.info },
                        git_ahead_behind: ahead_behind,
                        ..row
                    },
                    None => InstanceView {
                        git_ahead_behind: match ahead_behind {
                            Some(ab) => Some(ab),
                            None => row.git_ahead_behind,
                        },
                        ..row
                    },
                };
                StacksView { instances: self.instances.update(i, fresh), ..self }
            },
            None => self,
        }
    }

    /// The ids of the daemons that reported services, the shared one last.
    pub open spec fn attached_ids(self) -> Seq<Seq<char>> {
        let ids = self.instances.filter(attached()).map_values(id_of());
        match self.shared.id {
            Some(id) => if self.shared.services.len() > 0 {
                ids.push(id)
            } else {
                ids
            },
            None => ids,
        }
    }

    /// The row that is one down in the sidebar, wrapping. The shared row, if
    /// there is one, comes after all instances.
    pub open spec fn next_instance(self) -> StacksView {
        let n = self.instances.len();
        let has_shared = self.shared.services.len() > 0;
        let cur = match self.selected_instance {
            Some(i) => i as int,
            None => 0,
        };
        if n == 0 && !has_shared {
            self
        } else if self.shared_selected {
            if n > 0 {
                StacksView { shared_selected: false, selected_instance: Some(0), ..self }
            } else {
                self
            }
        } else if cur + 1 < n {
            StacksView { selected_instance: Some((cur + 1) as usize), ..self }
        } else if has_shared {
            StacksView { shared_selected: true, ..self }
        } else {
            StacksView { selected_instance: Some(0), ..self }
        }
    }

    /// The row that is one up in the sidebar, wrapping.
    pub open spec fn prev_instance(self) -> StacksView {
        let n = self.instances.len();
        let has_shared = self.shared.services.len() > 0;
        let cur = match self.selected_instance {
            Some(i) => i as int,
            None => 0,
        };
        if n == 0 && !has_shared {
            self
        } else if self.shared_selected {
            if n > 0 {
                StacksView {
                    shared_selected: false,
                    selected_instance: Some((n - 1) as usize),
                    ..self
                }
            } else {
                self
            }
        } else if cur > 0 {
            StacksView { selected_instance: Some((cur - 1) as usize), ..self }
        } else if has_shared {
            StacksView { shared_selected: true, ..self }
        } else {
            StacksView { selected_instance: Some((n - 1) as usize), ..self }
        }
    }
}

/// The scroll offset of a list of `total` rows that keeps row `sel` within
/// `rows` visible ones, moving as little as possible.
pub open spec fn kept_visible(scroll: int, sel: int, total: int, rows: int) -> int {
    if rows == 0 || total <= rows {
        0
    } else {
        let s = if sel < scroll {
            sel
        } else if sel >= scroll + rows {
            sel + 1 - rows
        } else {
            scroll
        };
        if s < total - rows {
            s
        } else {
            total - rows
        }
    }
}

fn local_row(label: &str) -> (r: InstanceInfo)
    ensures
        r@ == local_info(label@),
{
    let mut id = "local::".to_owned();
    id.append(label);
    InstanceInfo { id, label: label.to_owned(), cwd: ".".to_owned() }
}

impl Stacks {
    fn append_row(&mut self, info: InstanceInfo)
        requires
            old(self)@.wf(),
        ensures
            final(self)@.wf(),
            final(self)@ == old(self)@.appended(info@),
    {
        let ghost before = self@;
        let ghost iv = info@;
        self.instances.push(InstanceData::new(info));
        assert(views(self.instances@) =~= before.instances.push(InstanceView::fresh(iv)));
        if self.selected_instance.is_none() {
            self.selected_instance = Some(0);
        }
    }

    fn refresh_git(
        &mut self,
        id: &str,
        branch: Option<String>,
        ahead_behind: Option<(usize, usize)>,
    )
        requires
            old(self)@.wf(),
        ensures
            final(self)@.wf(),
            final(self)@ == old(self)@.git_refreshed(
                id@,
                crate::text::opt_text(branch),
                ahead_behind,
            ),
    {
        let ghost before = self@;
        let ghost b = crate::text::opt_text(branch);
        match self.find_instance(id) {
            Some(i) => {
                assert(before.instances[i as int] == self.instances@[i as int]@);
                assert(before.instances[i as int].wf());
                match branch {
                    Some(name) => {
                        self.instances[i].info.label = name;
                        self.instances[i].git_ahead_behind = ahead_behind;
                    },
                    None => {
                        if ahead_behind.is_some() {
                            self.instances[i].git_ahead_behind = ahead_behind;
                        }
                    },
                }
                assert(views(self.instances@) =~= before.git_refreshed(
                    id@,
                    b,
                    ahead_behind,
                ).instances);
            },
            None => {},
        }
    }

    fn ids_of_attached(&self) -> (r: Vec<String>)
        ensures
            texts(r@) == self@.attached_ids(),
    {
        let ghost all = self@.instances;
        let mut ids: Vec<String> = Vec::new();
        let mut i: usize = 0;
        proof {
            reveal(Seq::filter);
            assert(texts(ids@) =~= all.take(0).filter(attached()).map_values(id_of()));
        }
        while i < self.instances.len()
            invariant
                i <= self.instances@.len(),
                all == views(self.instances@),
                texts(ids@) == all.take(i as int).filter(attached()).map_values(id_of()),
            decreases self.instances.len() - i,
        {
            let ghost before = all.take(i as int).filter(attached());
            proof {
                reveal(Seq::filter);
                assert(all[i as int] == self.instances@[i as int]@);
                assert(all.take(i + 1).drop_last() =~= all.take(i as int));
                assert(all.take(i + 1).last() == all[i as int]);
            }
            if self.instances[i].services.len() > 0 {
                let ghost known = texts(ids@);
                ids.push(self.instances[i].info.id.clone());
                assert(texts(ids@) =~= known.push(all[i as int].info.id));
                assert(before.push(all[i as int]).map_values(id_of()) =~= known.push(
                    all[i as int].info.id,
                ));
            }
            i = i + 1;
        }
        assert(all.take(i as int) =~= all);
        if self.shared.services.len() > 0 {
            match &self.shared.id {
                Some(id) => {
                    let ghost before = texts(ids@);
                    ids.push(id.clone());
                    assert(texts(ids@) =~= before.push(id@));
                },
                None => {},
            }
        }
        ids
    }
}

impl TuiState {
    /// True once a daemon has attached and every instance daemon has since
    /// shut down. Worktrees without a daemon don't count as live. A daemon
    /// that crashes leaves its row in place, so this stays false.
    pub fn all_daemons_shut_down(&self) -> (r: bool)
        ensures
            r == self@.stacks.all_shut_down(),
    {
        if !self.stacks.had_live_daemon {
            return false;
        }
        let mut i: usize = 0;
        while i < self.stacks.instances.len()
            invariant
                i <= self.stacks.instances@.len(),
                forall|j: int|
                    0 <= j < i ==> (#[trigger] self@.stacks.instances[j]).vacant(),
            decreases self.stacks.instances.len() - i,
        {
            assert(self@.stacks.instances[i as int] == self.stacks.instances@[i as int]@);
            if self.stacks.instances[i].services.len() > 0 || self.stacks.instances[i].steps.len()
                > 0 {
                return false;
            }
            i = i + 1;
        }
        true
    }

    /// Label of the selected instance, or "" if none.
    pub fn instance_label(&self) -> (r: &str)
        ensures
            r@ == match self@.stacks.current() {
                Some(i) => i.info.label,
                None => Seq::empty(),
            },
    {
        match self.stacks.current_row() {
            Some(i) => i.info.label.as_str(),
            None => {
                proof {
                    reveal_strlit("");
                    assert(""@ =~= Seq::empty());
                }
                ""
            },
        }
    }

    /// All instance labels, in sidebar order.
    pub fn instances(&self) -> (r: Vec<&str>)
        ensures
            r@.len() == self@.stacks.instances.len(),
            forall|i: int|
                0 <= i < r@.len() ==> (#[trigger] r@[i])@ == self@.stacks.instances[i].info.label,
    {
        let mut r: Vec<&str> = Vec::new();
        let mut i: usize = 0;
        while i < self.stacks.instances.len()
            invariant
                i <= self.stacks.instances@.len(),
                r@.len() == i,
                forall|j: int|
                    0 <= j < i ==> (#[trigger] r@[j])@ == self@.stacks.instances[j].info.label,
            decreases self.stacks.instances.len() - i,
        {
            assert(self@.stacks.instances[i as int] == self.stacks.instances@[i as int]@);
            r.push(self.stacks.instances[i].info.label.as_str());
            i = i + 1;
        }
        r
    }

    pub fn selected_instance_index(&self) -> (r: Option<usize>)
        ensures
            r == self@.stacks.selected_instance,
    {
        self.stacks.selected_instance
    }

    /// Replaces the instance list with a single row and selects it, to show
    /// something before the daemon's own identity arrives.
    pub fn set_instance_label(&mut self, label: &str)
        requires
            old(self).wf(),
        ensures
            final(self).wf(),
            final(self)@ == (TuiView {
                stacks: StacksView {
                    instances: seq![InstanceView::fresh(local_info(label@))],
                    selected_instance: Some(0),
                    ..old(self)@.stacks
                },
                ..old(self)@
            }),
    {
        let mut rows: Vec<InstanceData> = Vec::new();
        rows.push(InstanceData::new(local_row(label)));
        assert(views(rows@) =~= seq![InstanceView::fresh(local_info(label@))]);
        self.stacks.instances = rows;
        self.stacks.selected_instance = Some(0);
    }

    /// Appends a row to the sidebar. The first one is also selected.
    pub fn add_instance(&mut self, label: &str)
        requires
            old(self).wf(),
        ensures
            final(self).wf(),
            final(self)@ == (TuiView {
                stacks: old(self)@.stacks.appended(local_info(label@)),
                ..old(self)@
            }),
    {
        self.stacks.append_row(local_row(label));
    }

    /// Adds a row for a worktree that has no daemon yet. The `id` is the one
    /// that the daemon will report, so that its first report finds this row
    /// instead of adding a duplicate.
    pub fn add_placeholder_instance(&mut self, id: &str, label: &str, cwd: &str)
        requires
            old(self).wf(),
        ensures
            final(self).wf(),
            final(self)@ == (TuiView {
                stacks: old(self)@.stacks.with_placeholder(
                    InfoView { id: id@, label: label@, cwd: cwd@ },
                ),
                ..old(self)@
            }),
    {
        if self.stacks.find_instance(id).is_some() {
            return;
        }
        self.stacks.append_row(
            InstanceInfo { id: id.to_owned(), label: label.to_owned(), cwd: cwd.to_owned() },
        );
    }

    /// Drops the row of a worktree that was removed, keeping the selection on a
    /// valid row.
    pub fn remove_instance_by_id(&mut self, id: &str)
        requires
            old(self).wf(),
        ensures
            final(self).wf(),
            final(self)@ == (TuiView { stacks: old(self)@.stacks.without(id@), ..old(self)@ }),
    {
        self.stacks.remove_instance(id);
    }

    /// Finds an instance by id. Returns its index.
    pub fn find_instance(&self, id: &str) -> (r: Option<usize>)
        ensures
            match r {
                Some(i) => self@.stacks.find(id@) == Some(i as int)
                    && i < self@.stacks.instances.len(),
                None => self@.stacks.find(id@) is None,
            },
    {
        self.stacks.find_instance(id)
    }

    /// True if a row with this id is in the sidebar.
    pub fn has_instance(&self, id: &str) -> (r: bool)
        ensures
            r == (self@.stacks.find(id@) is Some),
    {
        self.stacks.find_instance(id).is_some()
    }

    /// Ids of the daemons that reported at least one service, including the
    /// shared one. Worktrees without a daemon are skipped.
    pub fn attached_instance_ids(&self) -> (r: Vec<String>)
        ensures
            texts(r@) == self@.stacks.attached_ids(),
    {
        self.stacks.ids_of_attached()
    }

    /// Moves the selection to the row with this id, if it exists.
    pub fn select_instance_by_id(&mut self, id: &str)
        requires
            old(self).wf(),
        ensures
            final(self).wf(),
            final(self)@ == (TuiView {
                stacks: StacksView {
                    selected_instance: match old(self)@.stacks.find(id@) {
                        Some(i) => Some(i as usize),
                        None => old(self)@.stacks.selected_instance,
                    },
                    ..old(self)@.stacks
                },
                ..old(self)@
            }),
    {
        match self.stacks.find_instance(id) {
            Some(i) => {
                self.stacks.selected_instance = Some(i);
            },
            None => {},
        }
    }

    /// Moves the selection down the sidebar, wrapping. The shared row appears
    /// after all instances.
    pub fn select_next_instance(&mut self)
        requires
            old(self).wf(),
        ensures
            final(self).wf(),
            final(self)@ == (TuiView { stacks: old(self)@.stacks.next_instance(), ..old(self)@ }),
    {
        let has_shared = self.stacks.shared.services.len() > 0;
        let n: usize = self.stacks.instances.len();
        if n == 0 && !has_shared {
            return;
        }
        if self.stacks.shared_selected {
            if n > 0 {
                self.stacks.shared_selected = false;
                self.stacks.selected_instance = Some(0);
            }
        } else {
            let cur: usize = match self.stacks.selected_instance {
                Some(i) => i,
                None => 0,
            };
            if cur < n && cur + 1 < n {
                self.stacks.selected_instance = Some(cur + 1);
            } else if has_shared {
                self.stacks.shared_selected = true;
            } else {
                self.stacks.selected_instance = Some(0);
            }
        }
    }

    /// Moves the selection up the sidebar, wrapping.
    pub fn select_prev_instance(&mut self)
        requires
            old(self).wf(),
        ensures
            final(self).wf(),
            final(self)@ == (TuiView { stacks: old(self)@.stacks.prev_instance(), ..old(self)@ }),
    {
        let has_shared = self.stacks.shared.services.len() > 0;
        let n: usize = self.stacks.instances.len();
        if n == 0 && !has_shared {
            return;
        }
        if self.stacks.shared_selected {
            if n > 0 {
                self.stacks.shared_selected = false;
                self.stacks.selected_instance = Some(n - 1);
            }
        } else {
            let cur: usize = match self.stacks.selected_instance {
                Some(i) => i,
                None => 0,
            };
            if cur > 0 {
                self.stacks.selected_instance = Some(cur - 1);
            } else if has_shared {
                self.stacks.shared_selected = true;
            } else {
                self.stacks.selected_instance = Some(n - 1);
            }
        }
    }

    /// Ahead/behind commit counts for the stack at `idx`, if known.
    pub fn instance_ahead_behind(&self, idx: usize) -> (r: Option<(usize, usize)>)
        ensures
            r == if idx < self@.stacks.instances.len() {
                self@.stacks.instances[idx as int].git_ahead_behind
            } else {
                None
            },
    {
        if idx < self.stacks.instances.len() {
            assert(self@.stacks.instances[idx as int] == self.stacks.instances@[idx as int]@);
            self.stacks.instances[idx].git_ahead_behind
        } else {
            None
        }
    }

    /// Records commit counts for the instance with `id`.
    pub fn set_git_ahead_behind(&mut self, id: &str, ahead: usize, behind: usize)
        requires
            old(self).wf(),
        ensures
            final(self).wf(),
            final(self)@ == (TuiView {
                stacks: old(self)@.stacks.git_refreshed(id@, None, Some((ahead, behind))),
                ..old(self)@
            }),
    {
        self.stacks.refresh_git(id, None, Some((ahead, behind)));
    }

    /// Applies a git refresh for the instance with `id`: re-labels its row to
    /// `branch` and takes over its commit counts, so that a branch without an
    /// upstream clears the previous one's. Where no branch is known the label
    /// stays.
    pub fn apply_git_refresh(
        &mut self,
        id: &str,
        branch: Option<String>,
        ahead_behind: Option<(usize, usize)>,
    )
        requires
            old(self).wf(),
        ensures
            final(self).wf(),
            final(self)@ == (TuiView {
                stacks: old(self)@.stacks.git_refreshed(
                    id@,
                    crate::text::opt_text(branch),
                    ahead_behind,
                ),
                ..old(self)@
            }),
    {
        self.stacks.refresh_git(id, branch, ahead_behind);
    }

    /// Id and directory of every instance.
    pub fn instance_id_cwd_pairs(&self) -> (r: Vec<(String, String)>)
        ensures
            r@.len() == self@.stacks.instances.len(),
            forall|i: int|
                0 <= i < r@.len() ==> (#[trigger] r@[i]).0@ == self@.stacks.instances[i].info.id
                    && r@[i].1@ == self@.stacks.instances[i].info.cwd,
    {
        let mut r: Vec<(String, String)> = Vec::new();
        let mut i: usize = 0;
        while i < self.stacks.instances.len()
            invariant
                i <= self.stacks.instances@.len(),
                r@.len() == i,
                forall|j: int|
                    0 <= j < i ==> (#[trigger] r@[j]).0@ == self@.stacks.instances[j].info.id
                        && r@[j].1@ == self@.stacks.instances[j].info.cwd,
            decreases self.stacks.instances.len() - i,
        {
            assert(self@.stacks.instances[i as int] == self.stacks.instances@[i as int]@);
            r.push(
                (
                    self.stacks.instances[i].info.id.clone(),
                    self.stacks.instances[i].info.cwd.clone(),
                ),
            );
            i = i + 1;
        }
        r
    }

    pub fn sidebar_scroll(&self) -> (r: usize)
        ensures
            r == self@.layout.sidebar_scroll,
    {
        self.layout.sidebar_scroll
    }

    /// Keeps the selected stack within a window of `visible_rows` by nudging
    /// the scroll offset.
    pub fn ensure_stack_visible(&mut self, visible_rows: usize)
        requires
            old(self).wf(),
        ensures
            final(self).wf(),
            final(self)@ == (TuiView {
                layout: Layout {
                    sidebar_scroll: kept_visible(
                        old(self)@.layout.sidebar_scroll as int,
                        match old(self)@.stacks.selected_instance {
                            Some(i) => i as int,
                            None => 0,
                        },
                        old(self)@.stacks.instances.len() as int,
                        visible_rows as int,
                    ) as usize,
                    ..old(self)@.layout
                },
                ..old(self)@
            }),
    {
        let total: usize = self.stacks.instances.len();
        if visible_rows == 0 || total <= visible_rows {
            self.layout.sidebar_scroll = 0;
            return;
        }
        let sel: usize = match self.stacks.selected_instance {
            Some(i) => i,
            None => 0,
        };
        let scroll: usize = self.layout.sidebar_scroll;
        let moved: usize = if sel < scroll {
            sel
        } else if sel - scroll >= visible_rows {
            sel - visible_rows + 1
        } else {
            scroll
        };
        self.layout.sidebar_scroll = if moved < total - visible_rows {
            moved
        } else {
            total - visible_rows
        };
    }
}

} // verus!
