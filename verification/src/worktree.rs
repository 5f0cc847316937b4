//! Worktrees of a repository: reading what git reports of them, finding one by
//! name, the order in which their daemons start, and the steps of adding and
//! removing one.
pub mod laws;

use vstd::prelude::*;
use vstd::string::*;

use crate::lists::{first_index, first_index_at, first_index_none, views};
use crate::protocol::ServiceSnapshot;
use crate::text::{
    after_prefix, base_name, before, begins, component_of, components, decimal, file_name,
    has_path, holds_path, is_absolute, is_same_path, join, join_path, joined, joined_path, leaf,
    leaf_ends, leaf_of, lines, lines_of, number, opt_str, opt_text, parent_of, parent_path,
    parse_number, parsed, path_components, precedes, precedes_total, precedes_transitive,
    same, same_path, siblings_share_components, starts_with, texts, trim, trim_start_of,
    trimmed, trimmed_start_of, words, words_of,
};

verus! {

/// One worktree of the current repo, as reported by git.
#[derive(Debug, PartialEq, Eq)]
pub struct Worktree {
    /// Path to the worktree root.
    pub path: String,
}

impl View for Worktree {
    type V = Seq<char>;

    open spec fn view(&self) -> Seq<char> {
        self.path@
    }
}

/// What worktree discovery tells the dashboard.
#[derive(Debug, PartialEq, Eq)]
pub enum WorktreeEvent {
    /// A worktree of the current repo exists.
    Discovered {
        /// Stable id, the one that its daemon will advertise.
        id: String,
        /// Human-friendly label.
        label: String,
        /// Worktree path.
        cwd: String,
    },
}

/// One worktree as reported by `git worktree list --porcelain`.
#[derive(Debug, PartialEq, Eq)]
pub struct WorktreeMeta {
    pub path: String,
    pub branch: Option<String>,
    /// True for the repo's main worktree (the first entry).
    pub is_main: bool,
}

#[verifier::ext_equal]
pub ghost struct MetaView {
    pub path: Seq<char>,
    pub branch: Option<Seq<char>>,
    pub is_main: bool,
}

impl View for WorktreeMeta {
    type V = MetaView;

    open spec fn view(&self) -> MetaView {
        MetaView { path: self.path@, branch: opt_text(self.branch), is_main: self.is_main }
    }
}

impl WorktreeMeta {
    pub fn dup(&self) -> (r: Self)
        ensures
            r@ == self@,
    {
        WorktreeMeta {
            path: self.path.clone(),
            branch: match &self.branch {
                Some(b) => Some(b.clone()),
                None => None,
            },
            is_main: self.is_main,
        }
    }
}

/// What removing a worktree did.
#[derive(Debug, PartialEq, Eq)]
pub struct RemovalReport {
    /// Path of the removed worktree.
    pub path: String,
    /// Branch the worktree was on, if any.
    pub branch: Option<String>,
    /// Slot it held at removal time, if any.
    pub slot: Option<u8>,
    /// Whether an instance supervisor was found and shut down.
    pub instance_stopped: bool,
    /// `None` if the stack declared no `on_destroy`; else whether the hook
    /// succeeded.
    pub on_destroy_ran: Option<bool>,
}

/// What adding a worktree did.
#[derive(Debug, PartialEq, Eq)]
pub struct AddReport {
    /// Path of the new worktree.
    pub path: String,
    /// Branch checked out (or created) in it.
    pub branch: String,
    /// True when the branch didn't exist and was created.
    pub created_branch: bool,
    /// Whether an `on_create` hook was present (and thus run).
    pub on_create_ran: bool,
}

/// One worktree's status for the view across worktrees.
#[derive(Debug, PartialEq, Eq)]
pub struct WorktreeReport {
    /// Branch name, else directory name.
    pub label: String,
    /// Worktree path.
    pub path: String,
    /// True for the worktree the command was run from.
    pub is_cwd: bool,
    /// Slot it currently holds, if any.
    pub slot: Option<u8>,
    /// Services of its daemon, or `None` if no daemon is running.
    pub services: Option<Vec<ServiceSnapshot>>,
}

// ── reading git's output ────────────────────────────────────────────────

/// The worktree paths in a porcelain listing, in order.
pub open spec fn listed(lines: Seq<Seq<char>>) -> Seq<Seq<char>>
    decreases lines.len(),
{
    if lines.len() == 0 {
        Seq::empty()
    } else {
        let l = lines.last();
        if starts_with(l, "worktree "@) {
            listed(lines.drop_last()).push(l.skip("worktree "@.len() as int))
        } else {
            listed(lines.drop_last())
        }
    }
}

/// The worktrees that git lists, or just `cwd` where it lists none or is no
/// repository.
pub open spec fn worktrees_of(cwd: Seq<char>, output: Option<Seq<char>>) -> Seq<Seq<char>> {
    match output {
        Some(text) => {
            let all = listed(lines_of(text));
            if all.len() == 0 {
                seq![cwd]
            } else {
                all
            }
        },
        None => seq![cwd],
    }
}

/// Every worktree in the output of `git worktree list --porcelain`, which is
/// `None` where git failed. Returns just `cwd` outside a repository, so that
/// setups without git still get their daemon.
pub fn list_worktrees(cwd: &str, output: Option<&str>) -> (r: Vec<Worktree>)
    ensures
        views(r@) == worktrees_of(cwd@, opt_str(output)),
        r@.len() >= 1,
{
    let mut r: Vec<Worktree> = Vec::new();
    assert(views(r@) =~= Seq::empty());
    match output {
        Some(text) => {
            let all = lines(text);
            let ghost ls = lines_of(text@);
            let mut i: usize = 0;
            assert(views(r@) =~= listed(ls.take(0)));
            while i < all.len()
                invariant
                    i <= all.len(),
                    ls == texts(all@),
                    views(r@) == listed(ls.take(i as int)),
                decreases all.len() - i,
            {
                let ghost before = views(r@);
                assert(ls.take(i + 1).drop_last() =~= ls.take(i as int));
                assert(ls.take(i + 1).last() == all@[i as int]@);
                match after_prefix(all[i].as_str(), "worktree ") {
                    Some(p) => {
                        r.push(Worktree { path: p });
                        assert(views(r@) =~= before.push(p@));
                    },
                    None => {},
                }
                i = i + 1;
            }
            assert(ls.take(i as int) =~= ls);
        },
        None => {},
    }
    if r.len() == 0 {
        r.push(Worktree { path: cwd.to_owned() });
        assert(views(r@) =~= seq![cwd@]);
    }
    r
}

/// What has been read of a porcelain listing: the worktrees finished so far,
/// and the path and branch of the one being read.
#[verifier::ext_equal]
pub ghost struct Reading {
    pub done: Seq<MetaView>,
    pub path: Option<Seq<char>>,
    pub branch: Option<Seq<char>>,
}

impl Reading {
    /// The worktrees, the one being read finished. The first is the main one.
    pub open spec fn finished(self) -> Seq<MetaView> {
        match self.path {
            Some(path) => self.done.push(
                MetaView { path, branch: self.branch, is_main: self.done.len() == 0 },
            ),
            None => self.done,
        }
    }
}

/// What has been read after some lines: a `worktree` line starts a block, a
/// `branch` line belongs to the block it stands in.
pub open spec fn read_lines(lines: Seq<Seq<char>>) -> Reading
    decreases lines.len(),
{
    if lines.len() == 0 {
        Reading { done: Seq::empty(), path: None, branch: None }
    } else {
        let was = read_lines(lines.drop_last());
        let l = lines.last();
        if starts_with(l, "worktree "@) {
            Reading {
                done: was.finished(),
                path: Some(l.skip("worktree "@.len() as int)),
                branch: None,
            }
        } else if starts_with(l, "branch "@) {
            Reading {
                branch: Some(trimmed_start_of(l.skip("branch "@.len() as int), "refs/heads/"@)),
                ..was
            }
        } else {
            was
        }
    }
}

/// The worktrees of a porcelain listing.
pub open spec fn detailed(output: Option<Seq<char>>) -> Seq<MetaView> {
    match output {
        Some(text) => read_lines(lines_of(text)).finished(),
        None => Seq::empty(),
    }
}

fn finish(
    metas: &mut Vec<WorktreeMeta>,
    path: Option<String>,
    branch: Option<String>,
)
    ensures
        views(final(metas)@) == (Reading {
            done: views(old(metas)@),
            path: opt_text(path),
            branch: opt_text(branch),
        }).finished(),
{
    match path {
        Some(p) => {
            let is_main = metas.len() == 0;
            let ghost before = views(metas@);
            let m = WorktreeMeta { path: p, branch, is_main };
            metas.push(m);
            assert(views(metas@) =~= before.push(m@));
        },
        None => {},
    }
}

/// Parses `git worktree list --porcelain` into one entry per worktree. The
/// first entry is the main worktree. Empty where git failed.
pub fn list_worktrees_detailed(output: Option<&str>) -> (r: Vec<WorktreeMeta>)
    ensures
        views(r@) == detailed(opt_str(output)),
{
    let mut metas: Vec<WorktreeMeta> = Vec::new();
    assert(views(metas@) =~= Seq::empty());
    let text: &str = match output {
        Some(t) => t,
        None => {
            return metas;
        },
    };
    let all = lines(text);
    let ghost ls = lines_of(text@);
    let mut path: Option<String> = None;
    let mut branch: Option<String> = None;
    let mut i: usize = 0;
    proof {
        assert(ls.take(0) =~= Seq::empty());
        reveal_strlit("refs/heads/");
    }
    while i < all.len()
        invariant
            i <= all.len(),
            ls == texts(all@),
            "refs/heads/"@.len() > 0,
            read_lines(ls.take(i as int)) == (Reading {
                done: views(metas@),
                path: opt_text(path),
                branch: opt_text(branch),
            }),
        decreases all.len() - i,
    {
        assert(ls.take(i + 1).drop_last() =~= ls.take(i as int));
        assert(ls.take(i + 1).last() == all@[i as int]@);
        match after_prefix(all[i].as_str(), "worktree ") {
            Some(p) => {
                let done_path = path.take();
                let done_branch = branch.take();
                finish(&mut metas, done_path, done_branch);
                path = Some(p);
                branch = None;
            },
            None => {
                match after_prefix(all[i].as_str(), "branch ") {
                    Some(b) => {
                        branch = Some(trim_start_of(b.as_str(), "refs/heads/"));
                    },
                    None => {},
                }
            },
        }
        i = i + 1;
    }
    assert(ls.take(i as int) =~= ls);
    finish(&mut metas, path, branch);
    metas
}

/// The branch that `git rev-parse --abbrev-ref HEAD` printed; none on a
/// detached HEAD.
pub open spec fn branch_of(output: Seq<char>) -> Option<Seq<char>> {
    let t = trimmed(output);
    if t.len() == 0 || t == "HEAD"@ {
        None
    } else {
        Some(t)
    }
}

/// Reads the current branch from the output of
/// `git rev-parse --abbrev-ref HEAD`, which is `None` where git failed.
pub fn git_branch(output: Option<&str>) -> (r: Option<String>)
    ensures
        opt_text(r) == match output {
            Some(text) => branch_of(text@),
            None => None,
        },
{
    match output {
        Some(text) => {
            let t = trim(text);
            if t.as_str().is_empty() || same(t.as_str(), "HEAD") {
                None
            } else {
                Some(t)
            }
        },
        None => None,
    }
}

/// The counts that `git rev-list --left-right --count @{upstream}...HEAD`
/// printed, behind first, as ahead and behind.
pub open spec fn counts_of(output: Seq<char>) -> Option<(int, int)> {
    let w = words_of(output);
    if w.len() >= 2 {
        match (parsed(w[0], usize::MAX as int), parsed(w[1], usize::MAX as int)) {
            (Some(behind), Some(ahead)) => Some((ahead, behind)),
            _ => None,
        }
    } else {
        None
    }
}

/// Reads the commits ahead and behind from the output of
/// `git rev-list --left-right --count @{upstream}...HEAD`, which is `None`
/// where git failed.
pub fn git_ahead_behind(output: Option<&str>) -> (r: Option<(usize, usize)>)
    ensures
        match r {
            Some((ahead, behind)) => output matches Some(text) && counts_of(text@) == Some(
                (ahead as int, behind as int),
            ),
            None => output matches Some(text) ==> counts_of(text@) is None,
        },
{
    let text: &str = match output {
        Some(t) => t,
        None => {
            return None;
        },
    };
    let w = words(text);
    assert(texts(w@).len() == w@.len());
    if w.len() < 2 {
        return None;
    }
    assert(texts(w@)[0] == w@[0]@);
    assert(texts(w@)[1] == w@[1]@);
    match (
        parse_number(w[0].as_str(), usize::MAX as u64),
        parse_number(w[1].as_str(), usize::MAX as u64),
    ) {
        (Some(behind), Some(ahead)) => Some((ahead as usize, behind as usize)),
        _ => None,
    }
}

/// The common directory that `git rev-parse --git-common-dir` printed, seen
/// from `cwd`.
pub open spec fn common_dir_of(output: Seq<char>, cwd: Seq<char>) -> Option<Seq<char>> {
    let t = trimmed(output);
    if t.len() == 0 {
        None
    } else {
        Some(joined_path(cwd, t))
    }
}

/// Reads the common directory from the output of
/// `git rev-parse --git-common-dir`, which is `None` where git failed.
pub fn git_common_dir(output: Option<&str>, cwd: &str) -> (r: Option<String>)
    ensures
        opt_text(r) == match output {
            Some(text) => common_dir_of(text@, cwd@),
            None => None,
        },
{
    match output {
        Some(text) => {
            let t = trim(text);
            if t.as_str().is_empty() {
                None
            } else {
                Some(join_path(cwd, t.as_str()))
            }
        },
        None => None,
    }
}

/// What git printed on its error stream, or a note that it printed nothing.
pub open spec fn failure_detail(stderr: Seq<char>) -> Seq<char> {
    if trimmed(stderr).len() == 0 {
        "(no stderr)"@
    } else {
        trimmed(stderr)
    }
}

/// The error for a failed `git worktree <verb>`.
pub fn git_failure(verb: &str, stderr: &str) -> (r: String)
    ensures
        r@ == "git worktree "@ + verb@ + " failed: "@ + failure_detail(stderr@),
{
    let t = trim(stderr);
    let mut r = "git worktree ".to_owned();
    r.append(verb);
    r.append(" failed: ");
    if t.as_str().is_empty() {
        r.append("(no stderr)");
    } else {
        r.append(t.as_str());
    }
    r
}

// ── labels ──────────────────────────────────────────────────────────────

/// How a worktree is labelled: by its branch, else by its directory.
pub open spec fn worktree_label(path: Seq<char>, branch: Option<Seq<char>>) -> Seq<char> {
    match branch {
        Some(b) => b,
        None => match base_name(path) {
            Some(n) => n,
            None => "worktree"@,
        },
    }
}

pub fn label_for(path: &str, branch: Option<&str>) -> (r: String)
    ensures
        r@ == worktree_label(path@, opt_str(branch)),
{
    match branch {
        Some(b) => b.to_owned(),
        None => match file_name(path) {
            Some(n) => n,
            None => "worktree".to_owned(),
        },
    }
}

/// The event for a worktree whose daemon will have the given id.
pub fn discovered(id: &str, path: &str, branch: Option<&str>) -> (r: WorktreeEvent)
    ensures
        r matches WorktreeEvent::Discovered { id: i, label, cwd } && i@ == id@ && label@
            == worktree_label(path@, opt_str(branch)) && cwd@ == path@,
{
    WorktreeEvent::Discovered {
        id: id.to_owned(),
        label: label_for(path, branch),
        cwd: path.to_owned(),
    }
}

/// Whether one of the changed files is a `devme.toml`; other changes in a
/// worktree are of no interest.
pub fn mentions_devme_toml(paths: &Vec<String>) -> (r: bool)
    ensures
        r == exists|i: int|
            0 <= i < paths@.len() && base_name((#[trigger] paths@[i])@) == Some("devme.toml"@),
{
    let mut i: usize = 0;
    while i < paths.len()
        invariant
            i <= paths.len(),
            forall|j: int|
                0 <= j < i ==> base_name((#[trigger] paths@[j])@) != Some("devme.toml"@),
        decreases paths.len() - i,
    {
        match file_name(paths[i].as_str()) {
            Some(n) => {
                if same(n.as_str(), "devme.toml") {
                    return true;
                }
            },
            None => {},
        }
        i = i + 1;
    }
    false
}

/// The claims of an instance.
pub open spec fn claim_of(id: Seq<char>) -> spec_fn((String, u8)) -> bool {
    |c: (String, u8)| c.0@ == id
}

/// The slot that the instance `id` holds, by the allocator's claims.
pub fn slot_for_cwd(claims: &Vec<(String, u8)>, id: &str) -> (r: Option<u8>)
    ensures
        r == match first_index(claims@, claim_of(id@)) {
            Some(i) => Some(claims@[i].1),
            None => None,
        },
{
    let ghost p = claim_of(id@);
    let mut i: usize = 0;
    while i < claims.len()
        invariant
            i <= claims.len(),
            p == claim_of(id@),
            forall|j: int| 0 <= j < i ==> !p(claims@[j]),
        decreases claims.len() - i,
    {
        if same(claims[i].0.as_str(), id) {
            proof {
                first_index_at(claims@, p, i as int);
            }
            return Some(claims[i].1);
        }
        i = i + 1;
    }
    proof {
        first_index_none(claims@, p);
    }
    None
}

// ── finding a worktree ──────────────────────────────────────────────────

/// A worktree goes by its path, its directory name, its branch, or the last
/// part of its branch.
pub open spec fn goes_by(target: Seq<char>, canonical: Option<Seq<char>>) -> spec_fn(
    MetaView,
) -> bool {
    |w: MetaView|
        {
            ||| canonical matches Some(c) && same_path(c, w.path)
            ||| base_name(w.path) == Some(target)
            ||| w.branch matches Some(b) && (b == target || leaf_of(b) == target)
        }
}

/// Why a target names no single worktree.
#[derive(Debug, PartialEq, Eq)]
pub enum TargetError {
    /// There are no worktrees.
    NoWorktrees,
    /// Nothing goes by that name.
    NoMatch,
    /// Several worktrees do; their paths.
    Ambiguous(Vec<String>),
}

/// What the user is told where not exactly one of the worktrees matches.
pub open spec fn complaint(target: Seq<char>, all: Seq<MetaView>, hits: Seq<MetaView>) -> Seq<
    char,
> {
    if all.len() == 0 {
        "no git worktrees found (is this a git repo?)"@
    } else if hits.len() == 0 {
        "no worktree matches '"@ + target + "' (try a path, directory name, or branch)"@
    } else {
        "'"@ + target + "' is ambiguous — matches: "@ + joined(
            hits.map_values(path_of_meta()),
            ", "@,
        )
    }
}

impl TargetError {
    /// The message for the user.
    pub fn message(&self, target: &str) -> (r: String)
        ensures
            r@ == match *self {
                TargetError::NoWorktrees => "no git worktrees found (is this a git repo?)"@,
                TargetError::NoMatch => "no worktree matches '"@ + target@
                    + "' (try a path, directory name, or branch)"@,
                TargetError::Ambiguous(paths) => "'"@ + target@ + "' is ambiguous — matches: "@
                    + joined(texts(paths@), ", "@),
            },
    {
        match self {
            TargetError::NoWorktrees => "no git worktrees found (is this a git repo?)".to_owned(),
            TargetError::NoMatch => {
                let mut r = "no worktree matches '".to_owned();
                r.append(target);
                r.append("' (try a path, directory name, or branch)");
                r
            },
            TargetError::Ambiguous(paths) => {
                let mut r = "'".to_owned();
                r.append(target);
                r.append("' is ambiguous — matches: ");
                r.append(join(paths, ", ").as_str());
                r
            },
        }
    }
}

fn matches_target(w: &WorktreeMeta, target: &str, canonical: Option<&str>) -> (r: bool)
    ensures
        r == goes_by(target@, opt_str(canonical))(w@),
{
    match canonical {
        Some(c) => {
            if is_same_path(c, w.path.as_str()) {
                return true;
            }
        },
        None => {},
    }
    match file_name(w.path.as_str()) {
        Some(n) => {
            if same(n.as_str(), target) {
                return true;
            }
        },
        None => {},
    }
    match &w.branch {
        Some(b) => same(b.as_str(), target) || same(leaf(b.as_str()).as_str(), target),
        None => false,
    }
}

pub open spec fn path_of_meta() -> spec_fn(MetaView) -> Seq<char> {
    |w: MetaView| w.path
}

/// Matches `target` against the worktrees by path, directory name, or branch.
/// `canonical` is the canonical form of `target` where it is a path that
/// exists. Fails where nothing or more than one worktree matches.
pub fn resolve_target(worktrees: &Vec<WorktreeMeta>, target: &str, canonical: Option<&str>) -> (r:
    Result<WorktreeMeta, TargetError>)
    ensures
        ({
            let all = views(worktrees@);
            let hits = all.filter(goes_by(target@, opt_str(canonical)));
            match r {
                Ok(w) => hits.len() == 1 && w@ == hits[0],
                Err(TargetError::NoWorktrees) => all.len() == 0,
                Err(TargetError::NoMatch) => all.len() > 0 && hits.len() == 0,
                Err(TargetError::Ambiguous(paths)) => hits.len() >= 2 && texts(paths@)
                    == hits.map_values(path_of_meta()),
            }
        }),
{
    let ghost all = views(worktrees@);
    let ghost p = goes_by(target@, opt_str(canonical));
    let mut hits: Vec<WorktreeMeta> = Vec::new();
    let mut paths: Vec<String> = Vec::new();
    let mut i: usize = 0;
    proof {
        reveal(Seq::filter);
        assert(views(hits@) =~= all.take(0).filter(p));
        assert(texts(paths@) =~= all.take(0).filter(p).map_values(path_of_meta()));
    }
    while i < worktrees.len()
        invariant
            i <= worktrees.len(),
            all == views(worktrees@),
            p == goes_by(target@, opt_str(canonical)),
            views(hits@) == all.take(i as int).filter(p),
            texts(paths@) == all.take(i as int).filter(p).map_values(path_of_meta()),
        decreases worktrees.len() - i,
    {
        let ghost before = views(hits@);
        let ghost known = texts(paths@);
        proof {
            reveal(Seq::filter);
            assert(all[i as int] == worktrees@[i as int]@);
            assert(all.take(i + 1).drop_last() =~= all.take(i as int));
            assert(all.take(i + 1).last() == all[i as int]);
        }
        if matches_target(&worktrees[i], target, canonical) {
            hits.push(worktrees[i].dup());
            assert(views(hits@) =~= before.push(all[i as int]));
            paths.push(worktrees[i].path.clone());
            assert(texts(paths@) =~= known.push(all[i as int].path));
            assert(before.push(all[i as int]).map_values(path_of_meta()) =~= known.push(
                all[i as int].path,
            ));
        }
        i = i + 1;
    }
    proof {
        assert(all.take(i as int) =~= all);
        all.lemma_filter_len(p);
        assert(views(hits@).len() == hits@.len());
    }
    if worktrees.len() == 0 {
        return Err(TargetError::NoWorktrees);
    }
    if hits.len() == 0 {
        return Err(TargetError::NoMatch);
    }
    if hits.len() > 1 {
        return Err(TargetError::Ambiguous(paths));
    }
    assert(views(hits@)[0] == hits@[0]@);
    Ok(hits[0].dup())
}

pub open spec fn main_entry() -> spec_fn(MetaView) -> bool {
    |w: MetaView| w.is_main
}

/// The path of the repo's main worktree.
pub fn main_root(worktrees: &Vec<WorktreeMeta>) -> (r: Option<String>)
    ensures
        opt_text(r) == match first_index(views(worktrees@), main_entry()) {
            Some(i) => Some(views(worktrees@)[i].path),
            None => None,
        },
{
    let ghost all = views(worktrees@);
    let mut i: usize = 0;
    while i < worktrees.len()
        invariant
            i <= worktrees.len(),
            all == views(worktrees@),
            forall|j: int| 0 <= j < i ==> !main_entry()(all[j]),
        decreases worktrees.len() - i,
    {
        assert(all[i as int] == worktrees@[i as int]@);
        if worktrees[i].is_main {
            proof {
                first_index_at(all, main_entry(), i as int);
            }
            return Some(worktrees[i].path.clone());
        }
        i = i + 1;
    }
    proof {
        first_index_none(all, main_entry());
    }
    None
}

// ── order in which daemons start ────────────────────────────────────────

/// One path component comes before another: a dot before a step up, and that
/// before any name.
pub open spec fn component_precedes(a: Seq<char>, b: Seq<char>) -> bool {
    if a == "."@ {
        b != "."@
    } else if a == ".."@ {
        b != "."@ && b != ".."@
    } else {
        b != "."@ && b != ".."@ && precedes(a, b)
    }
}

/// One list of components comes before another.
pub open spec fn components_precede(a: Seq<Seq<char>>, b: Seq<Seq<char>>) -> bool
    decreases a.len(),
{
    if b.len() == 0 {
        false
    } else if a.len() == 0 {
        true
    } else if a[0] == b[0] {
        components_precede(a.skip(1), b.skip(1))
    } else {
        component_precedes(a[0], b[0])
    }
}

/// One path comes before another: absolute ones first, then component by
/// component.
pub open spec fn path_precedes(a: Seq<char>, b: Seq<char>) -> bool {
    if is_absolute(a) == is_absolute(b) {
        components_precede(components(a), components(b))
    } else {
        is_absolute(a)
    }
}

/// The order in which worktrees claim their slots: the home worktree first,
/// the others by path.
pub open spec fn starts_before(a: Seq<char>, b: Seq<char>, home: Seq<char>) -> bool {
    if same_path(a, home) == same_path(b, home) {
        path_precedes(a, b)
    } else {
        same_path(a, home)
    }
}

proof fn component_precedes_transitive(a: Seq<char>, b: Seq<char>, c: Seq<char>)
    requires
        component_precedes(a, b),
        component_precedes(b, c),
    ensures
        component_precedes(a, c),
        a != c,
{
    precedes_total(a, c);
    if a != "."@ && a != ".."@ {
        precedes_transitive(a, b, c);
    }
}

proof fn components_precede_transitive(a: Seq<Seq<char>>, b: Seq<Seq<char>>, c: Seq<Seq<char>>)
    requires
        components_precede(a, b),
        components_precede(b, c),
    ensures
        components_precede(a, c),
    decreases a.len(),
{
    if a.len() > 0 && b.len() > 0 && c.len() > 0 {
        if a[0] == b[0] && b[0] == c[0] {
            components_precede_transitive(a.skip(1), b.skip(1), c.skip(1));
        } else if a[0] != b[0] && b[0] != c[0] {
            component_precedes_transitive(a[0], b[0], c[0]);
        }
    }
}

proof fn components_precede_asymmetric(a: Seq<Seq<char>>, b: Seq<Seq<char>>)
    ensures
        !(components_precede(a, b) && components_precede(b, a)),
        components_precede(a, b) || components_precede(b, a) || a == b,
    decreases a.len(),
{
    if a.len() > 0 && b.len() > 0 {
        if a[0] == b[0] {
            components_precede_asymmetric(a.skip(1), b.skip(1));
            if a.skip(1) == b.skip(1) {
                assert(a =~= seq![a[0]] + a.skip(1));
                assert(b =~= seq![b[0]] + b.skip(1));
            }
        } else {
            precedes_total(a[0], b[0]);
        }
    } else if a.len() == 0 && b.len() == 0 {
        assert(a =~= b);
    }
}

proof fn starts_before_transitive(a: Seq<char>, b: Seq<char>, c: Seq<char>, home: Seq<char>)
    requires
        starts_before(a, b, home),
        starts_before(b, c, home),
    ensures
        starts_before(a, c, home),
{
    if same_path(a, home) == same_path(b, home) && same_path(b, home) == same_path(c, home) {
        if is_absolute(a) == is_absolute(b) && is_absolute(b) == is_absolute(c) {
            components_precede_transitive(components(a), components(b), components(c));
        }
    }
}

proof fn starts_before_asymmetric(a: Seq<char>, b: Seq<char>, home: Seq<char>)
    ensures
        !(starts_before(a, b, home) && starts_before(b, a, home)),
{
    components_precede_asymmetric(components(a), components(b));
}

fn component_before(a: &str, b: &str) -> (r: bool)
    ensures
        r == component_precedes(a@, b@),
{
    if same(a, ".") {
        !same(b, ".")
    } else if same(a, "..") {
        !same(b, ".") && !same(b, "..")
    } else {
        !same(b, ".") && !same(b, "..") && before(a, b)
    }
}

/// Where two lists agree on their first `i` elements, the rest decides.
proof fn components_precede_skips(a: Seq<Seq<char>>, b: Seq<Seq<char>>, i: int)
    requires
        0 <= i <= a.len(),
        i <= b.len(),
        a.take(i) == b.take(i),
    ensures
        components_precede(a, b) == components_precede(a.skip(i), b.skip(i)),
    decreases i,
{
    if i == 0 {
        assert(a.skip(0) =~= a);
        assert(b.skip(0) =~= b);
    } else {
        assert(a[0] == a.take(i)[0]);
        assert(b[0] == b.take(i)[0]);
        assert(a.skip(1).take(i - 1) =~= a.take(i).skip(1));
        assert(b.skip(1).take(i - 1) =~= b.take(i).skip(1));
        components_precede_skips(a.skip(1), b.skip(1), i - 1);
        assert(a.skip(1).skip(i - 1) =~= a.skip(i));
        assert(b.skip(1).skip(i - 1) =~= b.skip(i));
    }
}

fn components_before(a: &Vec<String>, b: &Vec<String>) -> (r: bool)
    ensures
        r == components_precede(texts(a@), texts(b@)),
{
    let ghost x = texts(a@);
    let ghost y = texts(b@);
    let mut i: usize = 0;
    while i < a.len() && i < b.len() && same(a[i].as_str(), b[i].as_str())
        invariant
            i <= a.len(),
            i <= b.len(),
            x == texts(a@),
            y == texts(b@),
            x.take(i as int) == y.take(i as int),
        decreases a.len() - i,
    {
        assert(x.take(i + 1) =~= x.take(i as int).push(a@[i as int]@));
        assert(y.take(i + 1) =~= y.take(i as int).push(b@[i as int]@));
        i = i + 1;
    }
    proof {
        components_precede_skips(x, y, i as int);
    }
    if i >= b.len() {
        false
    } else if i >= a.len() {
        true
    } else {
        assert(x.skip(i as int)[0] == a@[i as int]@);
        assert(y.skip(i as int)[0] == b@[i as int]@);
        component_before(a[i].as_str(), b[i].as_str())
    }
}

fn comes_before(a: &str, b: &str, home: &str) -> (r: bool)
    ensures
        r == starts_before(a@, b@, home@),
{
    let a_home = is_same_path(a, home);
    let b_home = is_same_path(b, home);
    if a_home != b_home {
        return a_home;
    }
    let a_abs = begins(a, "/");
    let b_abs = begins(b, "/");
    if a_abs != b_abs {
        return a_abs;
    }
    components_before(&path_components(a), &path_components(b))
}

/// No path stands before one that should come first.
pub open spec fn in_start_order(paths: Seq<Seq<char>>, home: Seq<char>) -> bool {
    forall|i: int, j: int|
        0 <= i < j < paths.len() ==> !starts_before(#[trigger] paths[j], #[trigger] paths[i], home)
}

/// Putting a path before the first one that it should precede keeps the order.
proof fn insert_keeps_order(s: Seq<Seq<char>>, x: Seq<char>, k: int, home: Seq<char>)
    requires
        in_start_order(s, home),
        0 <= k <= s.len(),
        forall|i: int| 0 <= i < k ==> !starts_before(x, #[trigger] s[i], home),
        k < s.len() ==> starts_before(x, s[k], home),
    ensures
        in_start_order(s.insert(k, x), home),
        s.insert(k, x).to_multiset() == s.push(x).to_multiset(),
{
    let t = s.insert(k, x);
    assert forall|i: int, j: int| 0 <= i < j < t.len() implies !starts_before(
        #[trigger] t[j],
        #[trigger] t[i],
        home,
    ) by {
        if i == k {
            let y = s[j - 1];
            assert(t[j] == y);
            starts_before_asymmetric(x, y, home);
            if j - 1 > k && starts_before(y, x, home) {
                starts_before_transitive(y, x, s[k], home);
                assert(!starts_before(s[j - 1], s[k], home));
            }
        } else if j == k {
            assert(t[i] == s[i]);
        } else {
            let i0 = if i < k { i } else { i - 1 };
            let j0 = if j < k { j } else { j - 1 };
            assert(t[i] == s[i0]);
            assert(t[j] == s[j0]);
        }
    }
    broadcast use vstd::seq_lib::group_to_multiset_ensures;

    assert(t.to_multiset() =~= s.push(x).to_multiset());
}

/// The order in which to start the daemons of worktrees: the home worktree
/// first, so that it claims the first slot, then the others by path, so that
/// ports come out the same every time.
pub fn spawn_order(paths: &Vec<String>, home: &str) -> (r: Vec<String>)
    ensures
        in_start_order(texts(r@), home@),
        texts(r@).to_multiset() == texts(paths@).to_multiset(),
{
    let ghost all = texts(paths@);
    let mut r: Vec<String> = Vec::new();
    let mut n: usize = 0;
    assert(texts(r@) =~= all.take(0));
    while n < paths.len()
        invariant
            n <= paths.len(),
            all == texts(paths@),
            in_start_order(texts(r@), home@),
            texts(r@).to_multiset() == all.take(n as int).to_multiset(),
        decreases paths.len() - n,
    {
        let ghost s = texts(r@);
        let ghost x = all[n as int];
        assert(x == paths@[n as int]@);
        let mut k: usize = 0;
        while k < r.len() && !comes_before(paths[n].as_str(), r[k].as_str(), home)
            invariant
                k <= r.len(),
                n < paths.len(),
                s == texts(r@),
                x == paths@[n as int]@,
                forall|i: int| 0 <= i < k ==> !starts_before(x, #[trigger] s[i], home@),
            decreases r.len() - k,
        {
            assert(s[k as int] == r@[k as int]@);
            k = k + 1;
        }
        proof {
            if k < r.len() {
                assert(s[k as int] == r@[k as int]@);
            }
            insert_keeps_order(s, x, k as int, home@);
        }
        r.insert(k, paths[n].clone());
        proof {
            assert(texts(r@) =~= s.insert(k as int, x));
            assert(all.take(n + 1) =~= all.take(n as int).push(x));
            broadcast use vstd::seq_lib::group_to_multiset_ensures;

            assert(s.push(x).to_multiset() =~= all.take(n as int).push(x).to_multiset());
        }
        n = n + 1;
    }
    assert(all.take(n as int) =~= all);
    r
}

/// Law: in start order nothing comes before the home worktree.
pub proof fn home_starts_first(paths: Seq<Seq<char>>, home: Seq<char>)
    requires
        in_start_order(paths, home),
        exists|i: int| 0 <= i < paths.len() && same_path(#[trigger] paths[i], home),
    ensures
        same_path(paths[0], home),
{
    let i = choose|i: int| 0 <= i < paths.len() && same_path(#[trigger] paths[i], home);
    if i > 0 {
        assert(!starts_before(paths[i], paths[0], home));
    }
}

/// The worktrees that a rescan has seen.
pub struct KnownPaths {
    paths: Vec<String>,
}

impl View for KnownPaths {
    type V = Seq<Seq<char>>;

    closed spec fn view(&self) -> Seq<Seq<char>> {
        texts(self.paths@)
    }
}

impl KnownPaths {
    pub fn new() -> (r: Self)
        ensures
            r@ == Seq::<Seq<char>>::empty(),
    {
        let r = KnownPaths { paths: Vec::new() };
        assert(r@ =~= Seq::empty());
        r
    }

    /// Notes a path. Returns true the first time, when the worktree should be
    /// announced and watched.
    pub fn note(&mut self, path: &str) -> (r: bool)
        ensures
            r == !has_path(old(self)@, path@),
            final(self)@ == if has_path(old(self)@, path@) {
                old(self)@
            } else {
                old(self)@.push(path@)
            },
    {
        if holds_path(&self.paths, path) {
            return false;
        }
        let ghost before = self@;
        self.paths.push(path.to_owned());
        assert(self@ =~= before.push(path@));
        true
    }
}

// ── hooks ───────────────────────────────────────────────────────────────

/// The `on_create` command to run, if it has not run yet. `declared` is the
/// command that the worktree's configuration declares, where it can be read.
pub fn on_create_to_run(marker_exists: bool, declared: Option<&str>) -> (r: Option<String>)
    ensures
        opt_text(r) == if marker_exists {
            None
        } else {
            opt_str(declared)
        },
{
    if marker_exists {
        return None;
    }
    match declared {
        Some(c) => Some(c.to_owned()),
        None => None,
    }
}

/// The Docker daemon to start for a stack, if any: one that is configured,
/// where the stack needs Docker and Docker isn't running.
pub fn docker_to_start(needs_docker: bool, running: bool, daemon: Option<&str>) -> (r: Option<
    String,
>)
    ensures
        opt_text(r) == if needs_docker && !running {
            opt_str(daemon)
        } else {
            None
        },
{
    if !needs_docker || running {
        return None;
    }
    match daemon {
        Some(d) => Some(d.to_owned()),
        None => None,
    }
}

/// The shared services may stop where no other worktree has a live daemon.
pub open spec fn last_one(reports: Seq<WorktreeReport>) -> bool {
    forall|i: int|
        0 <= i < reports.len() ==> (#[trigger] reports[i]).is_cwd || reports[i].services is None
}

/// Whether the repo-shared supervisor may be shut down: only when no other
/// worktree still has a live daemon, so that a sibling's database isn't
/// pulled out from under it.
pub fn shutdown_shared_if_last(reports: &Vec<WorktreeReport>) -> (r: bool)
    ensures
        r == last_one(reports@),
{
    let mut i: usize = 0;
    while i < reports.len()
        invariant
            i <= reports.len(),
            forall|j: int|
                0 <= j < i ==> (#[trigger] reports@[j]).is_cwd || reports@[j].services is None,
        decreases reports.len() - i,
    {
        if !reports[i].is_cwd && reports[i].services.is_some() {
            return false;
        }
        i = i + 1;
    }
    true
}

/// The status of one worktree. `services` is `None` where no daemon answers.
pub fn worktree_report(
    meta: &WorktreeMeta,
    cwd: &str,
    slot: Option<u8>,
    services: Option<Vec<ServiceSnapshot>>,
) -> (r: WorktreeReport)
    ensures
        r.label@ == worktree_label(meta@.path, meta@.branch),
        r.path@ == meta@.path,
        r.is_cwd == same_path(meta@.path, cwd@),
        r.slot == slot,
        r.services == services,
{
    let label = match &meta.branch {
        Some(b) => label_for(meta.path.as_str(), Some(b.as_str())),
        None => label_for(meta.path.as_str(), None),
    };
    WorktreeReport {
        label,
        path: meta.path.clone(),
        is_cwd: is_same_path(meta.path.as_str(), cwd),
        slot,
        services,
    }
}

// ── adding a worktree ───────────────────────────────────────────────────

/// The directory name of a new worktree: that of the main worktree and the
/// last part of the branch.
pub fn default_dir_name(main_name: Option<&str>, branch: &str) -> (r: String)
    ensures
        r@ == (match main_name {
            Some(n) => n@,
            None => "worktree"@,
        }) + "-"@ + leaf_of(branch@),
{
    let mut r = match main_name {
        Some(n) => n.to_owned(),
        None => "worktree".to_owned(),
    };
    r.append("-");
    r.append(leaf(branch).as_str());
    r
}

/// The directory name that a new worktree gets.
pub open spec fn new_name(main: Seq<char>, branch: Seq<char>) -> Seq<char> {
    (match base_name(main) {
        Some(n) => n,
        None => "worktree"@,
    }) + "-"@ + leaf_of(branch)
}

/// Where a new worktree goes unless the user says otherwise: next to the main
/// worktree.
pub open spec fn next_to(main: Seq<char>, branch: Seq<char>) -> Seq<char> {
    joined_path(
        match parent_of(main) {
            Some(p) => p,
            None => main,
        },
        new_name(main, branch),
    )
}

/// Where a new worktree goes: where the user said, seen from `cwd`, else next
/// to the main worktree at `main`.
pub fn destination(cwd: &str, main: &str, branch: &str, dest: Option<&str>) -> (r: String)
    ensures
        r@ == match dest {
            Some(d) => joined_path(cwd@, d@),
            None => next_to(main@, branch@),
        },
{
    match dest {
        Some(d) => join_path(cwd, d),
        None => {
            let base = file_name(main);
            let name = match &base {
                Some(n) => default_dir_name(Some(n.as_str()), branch),
                None => default_dir_name(None, branch),
            };
            match parent_path(main) {
                Some(p) => join_path(p.as_str(), name.as_str()),
                None => join_path(main, name.as_str()),
            }
        },
    }
}

/// No component holds a slash.
proof fn base_has_no_slash(path: Seq<char>)
    requires
        base_name(path) is Some,
    ensures
        base_name(path)->0.len() > 0,
        !base_name(path)->0.contains('/'),
{
    component_of(path, components(path).len() - 1);
}

/// Law: by default a new worktree stands next to the main one. Its path has the
/// components of the main worktree's but for the last, which is the main
/// worktree's name and the last part of the branch.
pub proof fn new_worktrees_stand_next_to_main(main: Seq<char>, branch: Seq<char>)
    requires
        base_name(main) is Some,
    ensures
        components(next_to(main, branch)) == components(main).drop_last().push(
            components(main).last() + "-"@ + leaf_of(branch),
        ),
        is_absolute(next_to(main, branch)) == is_absolute(main),
{
    let name = new_name(main, branch);
    let base = base_name(main)->0;
    base_has_no_slash(main);
    leaf_ends(branch);
    reveal_strlit("-");
    reveal_strlit(".");
    assert(name.len() >= 2);
    assert(!name.contains('/')) by {
        assert forall|i: int| 0 <= i < name.len() implies name[i] != '/' by {
            if i < base.len() {
                assert(name[i] == base[i]);
            } else if i > base.len() {
                assert(name[i] == leaf_of(branch)[i - base.len() - 1]);
            }
        }
    }
    siblings_share_components(main, name);
}

/// What git is told to add a worktree.
pub open spec fn adding(create_branch: bool, branch: Seq<char>, path: Seq<char>) -> Seq<Seq<char>> {
    if create_branch {
        seq!["worktree"@, "add"@, "-b"@, branch, path]
    } else {
        seq!["worktree"@, "add"@, path, branch]
    }
}

/// The arguments of git that add a worktree: a new branch is created with
/// `-b`, an existing one checked out.
pub fn add_args(create_branch: bool, branch: &str, path: &str) -> (r: Vec<String>)
    ensures
        texts(r@) == adding(create_branch, branch@, path@),
        texts(r@) == if create_branch {
            seq!["worktree"@, "add"@, "-b"@, branch@, path@]
        } else {
            seq!["worktree"@, "add"@, path@, branch@]
        },
{
    let mut r: Vec<String> = Vec::new();
    r.push("worktree".to_owned());
    r.push("add".to_owned());
    if create_branch {
        r.push("-b".to_owned());
        r.push(branch.to_owned());
        r.push(path.to_owned());
        assert(texts(r@) =~= seq!["worktree"@, "add"@, "-b"@, branch@, path@]);
    } else {
        r.push(path.to_owned());
        r.push(branch.to_owned());
        assert(texts(r@) =~= seq!["worktree"@, "add"@, path@, branch@]);
    }
    r
}

/// What git is told to remove a worktree.
pub open spec fn removing(force: bool, path: Seq<char>) -> Seq<Seq<char>> {
    if force {
        seq!["worktree"@, "remove"@, "--force"@, path]
    } else {
        seq!["worktree"@, "remove"@, path]
    }
}

/// The arguments of git that remove a worktree.
pub fn remove_args(force: bool, path: &str) -> (r: Vec<String>)
    ensures
        texts(r@) == removing(force, path@),
        texts(r@) == if force {
            seq!["worktree"@, "remove"@, "--force"@, path@]
        } else {
            seq!["worktree"@, "remove"@, path@]
        },
{
    let mut r: Vec<String> = Vec::new();
    r.push("worktree".to_owned());
    r.push("remove".to_owned());
    if force {
        r.push("--force".to_owned());
        r.push(path.to_owned());
        assert(texts(r@) =~= seq!["worktree"@, "remove"@, "--force"@, path@]);
    } else {
        r.push(path.to_owned());
        assert(texts(r@) =~= seq!["worktree"@, "remove"@, path@]);
    }
    r
}

/// What comes first of adding a worktree: the arguments of git and whether a
/// branch is created, or the error where something stands at the destination.
pub fn add_worktree(path: &str, path_exists: bool, branch: &str, branch_exists: bool) -> (r: Result<
    (Vec<String>, bool),
    String,
>)
    ensures
        match r {
            Ok((args, created)) => !path_exists && created == !branch_exists && texts(args@) == (
            if created {
                seq!["worktree"@, "add"@, "-b"@, branch@, path@]
            } else {
                seq!["worktree"@, "add"@, path@, branch@]
            }) && texts(args@) == adding(created, branch@, path@),
            Err(e) => path_exists && e@ == "destination already exists: "@ + path@,
        },
{
    if path_exists {
        let mut e = "destination already exists: ".to_owned();
        e.append(path);
        return Err(e);
    }
    Ok((add_args(!branch_exists, branch, path), !branch_exists))
}

// ── removing a worktree ─────────────────────────────────────────────────

/// What is to be done next in removing a worktree.
#[derive(Debug, Clone, Copy, PartialEq, Eq, Structural)]
pub enum RemovalStep {
    /// Look up the slot and resolve the `on_destroy` command.
    ResolveHook,
    /// Stop the worktree's daemon.
    StopInstance,
    /// Have git remove the worktree.
    RemoveWorktree,
    /// Release the slot claim.
    ReleaseSlot,
    /// Run the resolved `on_destroy` command.
    RunHook,
    /// Finished.
    Done,
    /// Given up; nothing is to be done.
    Failed,
}

/// The removal of a worktree, step by step. The command and its context vanish
/// with the worktree, so the hook is resolved first; the daemon is stopped,
/// then git removes the worktree, and only then does the hook run: a removal
/// that fails never drops a database from under a worktree that is still on
/// disk.
pub struct Removal {
    step: RemovalStep,
    path: String,
    branch: Option<String>,
    run_dir: String,
    slot: Option<u8>,
    hook: Option<String>,
    stopped: bool,
    removed: bool,
    hook_ok: Option<bool>,
    error: String,
}

pub ghost struct RemovalView {
    pub step: RemovalStep,
    pub path: Seq<char>,
    pub branch: Option<Seq<char>>,
    /// Where the hook runs: a directory that outlives the worktree.
    pub run_dir: Seq<char>,
    pub slot: Option<u8>,
    pub hook: Option<Seq<char>>,
    pub stopped: bool,
    /// Git has removed the worktree.
    pub removed: bool,
    pub hook_ok: Option<bool>,
    pub error: Seq<char>,
}

impl View for Removal {
    type V = RemovalView;

    closed spec fn view(&self) -> RemovalView {
        RemovalView {
            step: self.step,
            path: self.path@,
            branch: opt_text(self.branch),
            run_dir: self.run_dir@,
            slot: self.slot,
            hook: opt_text(self.hook),
            stopped: self.stopped,
            removed: self.removed,
            hook_ok: self.hook_ok,
            error: self.error@,
        }
    }
}

impl RemovalView {
    /// A removal as it starts.
    pub open spec fn begun(w: MetaView, run_dir: Seq<char>) -> RemovalView {
        RemovalView {
            step: RemovalStep::ResolveHook,
            path: w.path,
            branch: w.branch,
            run_dir,
            slot: None,
            hook: None,
            stopped: false,
            removed: false,
            hook_ok: None,
            error: Seq::empty(),
        }
    }

    /// A removal in a state that its steps lead to: the hook is up only after
    /// git has removed the worktree, and it has run only then.
    pub open spec fn wf(self) -> bool {
        &&& self.removed <==> (self.step is ReleaseSlot || self.step is RunHook
            || self.step is Done)
        &&& self.step is RunHook ==> self.hook is Some
        &&& self.hook_ok is Some <==> (self.step is Done && self.hook is Some)
    }

    /// The hook was resolved, or could not be.
    pub open spec fn hook_resolved(
        self,
        slot: Option<u8>,
        hook: Result<Option<Seq<char>>, Seq<char>>,
    ) -> RemovalView {
        match hook {
            Ok(h) => RemovalView { step: RemovalStep::StopInstance, slot, hook: h, ..self },
            Err(error) => RemovalView { step: RemovalStep::Failed, slot, error, ..self },
        }
    }

    /// The daemon was stopped, or none was there.
    pub open spec fn instance_stopped(self, stopped: bool) -> RemovalView {
        RemovalView { step: RemovalStep::RemoveWorktree, stopped, ..self }
    }

    /// Git removed the worktree, or failed with `stderr`.
    pub open spec fn worktree_removed(self, stderr: Option<Seq<char>>) -> RemovalView {
        match stderr {
            None => RemovalView { step: RemovalStep::ReleaseSlot, removed: true, ..self },
            Some(e) => RemovalView {
                step: RemovalStep::Failed,
                error: "git worktree "@ + "remove"@ + " failed: "@ + failure_detail(e),
                ..self
            },
        }
    }

    /// The slot was released; a hook is up next, if there is one.
    pub open spec fn slot_released(self) -> RemovalView {
        RemovalView {
            step: if self.hook is Some {
                RemovalStep::RunHook
            } else {
                RemovalStep::Done
            },
            ..self
        }
    }

    /// The hook ran.
    pub open spec fn hook_finished(self, ok: bool) -> RemovalView {
        RemovalView { step: RemovalStep::Done, hook_ok: Some(ok), ..self }
    }
}

/// Why a removal does not start.
pub open spec fn refusal(path: Seq<char>) -> Seq<char> {
    "refusing to remove the main worktree ("@ + path + ")"@
}

impl Removal {
    pub open spec fn wf(&self) -> bool {
        self@.wf()
    }

    /// Starts the removal of the worktree that goes by `target`, or says why
    /// not: nothing or too much matches, or it is the main worktree.
    pub fn begin(worktrees: &Vec<WorktreeMeta>, target: &str, canonical: Option<&str>, cwd: &str)
        -> (r: Result<Removal, String>)
        ensures
            ({
                let all = views(worktrees@);
                let hits = all.filter(goes_by(target@, opt_str(canonical)));
                match r {
                    Ok(removal) => {
                        &&& removal.wf()
                        &&& hits.len() == 1
                        &&& !hits[0].is_main
                        &&& removal@ == RemovalView::begun(
                            hits[0],
                            match first_index(all, main_entry()) {
                                Some(i) => all[i].path,
                                None => cwd@,
                            },
                        )
                    },
                    Err(e) => if hits.len() == 1 {
                        hits[0].is_main && e@ == refusal(hits[0].path)
                    } else {
                        e@ == complaint(target@, all, hits)
                    },
                }
            }),
    {
        let found = match resolve_target(worktrees, target, canonical) {
            Ok(w) => w,
            Err(e) => {
                return Err(e.message(target));
            },
        };
        if found.is_main {
            let mut e = "refusing to remove the main worktree (".to_owned();
            e.append(found.path.as_str());
            e.append(")");
            return Err(e);
        }
        let run_dir = match main_root(worktrees) {
            Some(p) => p,
            None => cwd.to_owned(),
        };
        let r = Removal {
            step: RemovalStep::ResolveHook,
            path: found.path,
            branch: found.branch,
            run_dir,
            slot: None,
            hook: None,
            stopped: false,
            removed: false,
            hook_ok: None,
            error: String::new(),
        };
        Ok(r)
    }

    /// What is to be done next.
    pub fn step(&self) -> (r: RemovalStep)
        ensures
            r == self@.step,
    {
        self.step
    }

    pub fn path(&self) -> (r: &str)
        ensures
            r@ == self@.path,
    {
        self.path.as_str()
    }

    /// The command to run and where, when the hook is up.
    pub fn hook(&self) -> (r: Option<(&str, &str)>)
        ensures
            match r {
                Some((cmd, dir)) => self@.step is RunHook && self@.hook == Some(cmd@) && dir@
                    == self@.run_dir,
                None => !(self@.step is RunHook && self@.hook is Some),
            },
    {
        match (self.step, &self.hook) {
            (RemovalStep::RunHook, Some(c)) => Some((c.as_str(), self.run_dir.as_str())),
            _ => None,
        }
    }

    /// The error of a removal that was given up.
    pub fn error(&self) -> (r: Option<&str>)
        ensures
            match r {
                Some(e) => self@.step is Failed && e@ == self@.error,
                None => !(self@.step is Failed),
            },
    {
        match self.step {
            RemovalStep::Failed => Some(self.error.as_str()),
            _ => None,
        }
    }

    /// Takes in the slot and the resolved command. A command that cannot be
    /// resolved ends the removal before anything is torn down.
    pub fn hook_resolved(&mut self, slot: Option<u8>, hook: Result<Option<String>, String>)
        requires
            old(self).wf(),
            old(self)@.step is ResolveHook,
        ensures
            final(self).wf(),
            final(self)@ == old(self)@.hook_resolved(
                slot,
                match hook {
                    Ok(h) => Ok(opt_text(h)),
                    Err(e) => Err(e@),
                },
            ),
    {
        self.slot = slot;
        match hook {
            Ok(h) => {
                self.hook = h;
                self.step = RemovalStep::StopInstance;
            },
            Err(e) => {
                self.error = e;
                self.step = RemovalStep::Failed;
            },
        }
    }

    /// Takes in whether a daemon was found and stopped.
    pub fn instance_stopped(&mut self, stopped: bool)
        requires
            old(self).wf(),
            old(self)@.step is StopInstance,
        ensures
            final(self).wf(),
            final(self)@ == old(self)@.instance_stopped(stopped),
    {
        self.stopped = stopped;
        self.step = RemovalStep::RemoveWorktree;
    }

    /// Takes in git's answer: `None` for success, else its error stream.
    pub fn worktree_removed(&mut self, stderr: Option<&str>)
        requires
            old(self).wf(),
            old(self)@.step is RemoveWorktree,
        ensures
            final(self).wf(),
            final(self)@ == old(self)@.worktree_removed(opt_str(stderr)),
    {
        match stderr {
            None => {
                self.removed = true;
                self.step = RemovalStep::ReleaseSlot;
            },
            Some(e) => {
                self.error = git_failure("remove", e);
                self.step = RemovalStep::Failed;
            },
        }
    }

    /// The slot claim is released.
    pub fn slot_released(&mut self)
        requires
            old(self).wf(),
            old(self)@.step is ReleaseSlot,
        ensures
            final(self).wf(),
            final(self)@ == old(self)@.slot_released(),
    {
        self.step = if self.hook.is_some() {
            RemovalStep::RunHook
        } else {
            RemovalStep::Done
        };
    }

    /// Takes in whether the hook succeeded.
    pub fn hook_finished(&mut self, ok: bool)
        requires
            old(self).wf(),
            old(self)@.step is RunHook,
        ensures
            final(self).wf(),
            final(self)@ == old(self)@.hook_finished(ok),
    {
        self.hook_ok = Some(ok);
        self.step = RemovalStep::Done;
    }

    /// The report of a finished removal.
    pub fn report(&self) -> (r: Option<RemovalReport>)
        requires
            self.wf(),
        ensures
            match r {
                Some(rep) => {
                    &&& self@.step is Done
                    &&& rep.path@ == self@.path
                    &&& opt_text(rep.branch) == self@.branch
                    &&& rep.slot == self@.slot
                    &&& rep.instance_stopped == self@.stopped
                    &&& rep.on_destroy_ran == self@.hook_ok
                },
                None => !(self@.step is Done),
            },
    {
        match self.step {
            RemovalStep::Done => Some(
                RemovalReport {
                    path: self.path.clone(),
                    branch: match &self.branch {
                        Some(b) => Some(b.clone()),
                        None => None,
                    },
                    slot: self.slot,
                    instance_stopped: self.stopped,
                    on_destroy_ran: self.hook_ok,
                },
            ),
            _ => None,
        }
    }
}

/// The values that the `on_destroy` command of a worktree may refer to by
/// name. A slot is among them only where the worktree holds one, so that a
/// command that needs it is never run half resolved.
pub fn hook_values(path: &str, slot: Option<u8>, branch: Option<&str>) -> (r: Vec<
    (String, String),
>)
    ensures
        r@.len() == (if slot is Some {
            3int
        } else {
            2
        }),
        r@[0].0@ == "worktree"@ && r@[0].1@ == path@,
        r@[1].0@ == "branch"@ && r@[1].1@ == match branch {
            Some(b) => b@,
            None => ""@,
        },
        slot matches Some(s) ==> r@[2].0@ == "slot"@ && r@[2].1@ == decimal(s as nat),
{
    let mut r: Vec<(String, String)> = Vec::new();
    r.push(("worktree".to_owned(), path.to_owned()));
    let b: &str = match branch {
        Some(b) => b,
        None => "",
    };
    r.push(("branch".to_owned(), b.to_owned()));
    match slot {
        Some(s) => {
            r.push(("slot".to_owned(), number(s as u64)));
        },
        None => {},
    }
    r
}

/// The error for an `on_destroy` command that cannot be resolved.
pub fn hook_unresolved(path: &str, error: &str) -> (r: String)
    ensures
        r@ == "cannot resolve on_destroy for "@ + path@ + ": "@ + error@
            + "\n(hint: {slot} needs the worktree's stack to have an active slot claim — start it first, or drop the resource manually)"@,
{
    let mut r = "cannot resolve on_destroy for ".to_owned();
    r.append(path);
    r.append(": ");
    r.append(error);
    r.append(
        "\n(hint: {slot} needs the worktree's stack to have an active slot claim — start it first, or drop the resource manually)",
    );
    r
}

/// Law: the hook of a worktree runs only once git has removed the worktree; a
/// removal that was given up has removed nothing and run nothing.
pub proof fn hook_runs_only_after_removal(r: RemovalView)
    requires
        r.wf(),
    ensures
        r.step is RunHook ==> r.removed,
        r.hook_ok is Some ==> r.removed,
        r.step is Failed ==> !r.removed && r.hook_ok is None,
{
}

/// Law: a removal whose hook cannot be resolved ends before its daemon is
/// stopped and before git is asked to remove anything.
pub proof fn unresolved_hook_removes_nothing(r: RemovalView, slot: Option<u8>, error: Seq<char>)
    requires
        r.wf(),
        r.step is ResolveHook,
    ensures
        ({
            let after = r.hook_resolved(slot, Err(error));
            after.step is Failed && !after.removed && after.error == error && after.stopped
                == r.stopped
        }),
{
}

/// The message for a removed worktree.
pub fn removed_message(report: &RemovalReport) -> (r: String)
    ensures
        r@ == "removed "@ + report.path@ + match report.branch {
            Some(b) => " — branch "@ + b@ + " kept"@,
            None => Seq::empty(),
        },
{
    let mut r = "removed ".to_owned();
    r.append(report.path.as_str());
    match &report.branch {
        Some(b) => {
            let mut tail = " — branch ".to_owned();
            tail.append(b.as_str());
            tail.append(" kept");
            r.append(tail.as_str());
        },
        None => {
            assert(r@ + Seq::<char>::empty() =~= r@);
        },
    }
    r
}

/// The message for a created worktree.
pub fn created_message(report: &AddReport) -> (r: String)
    ensures
        r@ == "created "@ + report.path@ + " on "@ + report.branch@,
{
    let mut r = "created ".to_owned();
    r.append(report.path.as_str());
    r.append(" on ");
    r.append(report.branch.as_str());
    r
}

} // verus!
