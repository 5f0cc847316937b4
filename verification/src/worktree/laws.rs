//! What holds of the worktrees that git lists, of naming one of them, and of
//! removing one.
use vstd::prelude::*;

use crate::text::laws::{numbers_read_back, words_stand_between_spaces};
use crate::text::{
    base_name, components, decimal, is_absolute, is_space, joined, leaf_of, lines_of, precedes,
    same_path, starts_with, trimmed, trimmed_start_of, words_of,
};
use crate::worktree::{
    adding, branch_of, claim_of, common_dir_of, complaint, component_precedes, components_precede,
    counts_of, detailed, failure_detail, goes_by, last_one, listed, main_entry, path_of_meta,
    path_precedes, read_lines, refusal, removing, starts_before, worktree_label, worktrees_of,
    MetaView, RemovalView, WorktreeReport,
};

verus! {

// ── what git lists ──────────────────────────────────────────────────────

/// A line that opens an entry, for the worktree at `path`.
pub open spec fn opens(path: Seq<char>) -> Seq<char> {
    "worktree "@ + path
}

/// A line that names the branch of an entry.
pub open spec fn names(branch: Seq<char>) -> Seq<char> {
    "branch refs/heads/"@ + branch
}

/// The lines of an entry that say neither where it is nor on which branch.
pub open spec fn says_neither(lines: Seq<Seq<char>>) -> bool {
    forall|i: int|
        0 <= i < lines.len() ==> !starts_with(#[trigger] lines[i], "worktree "@) && !starts_with(
            lines[i],
            "branch "@,
        )
}

proof fn opening(path: Seq<char>)
    ensures
        starts_with(opens(path), "worktree "@),
        opens(path).skip("worktree "@.len() as int) == path,
{
    let l = opens(path);
    assert(l.subrange(0, "worktree "@.len() as int) =~= "worktree "@);
    assert(l.skip("worktree "@.len() as int) =~= path);
}

/// Law: git's list is read entry by entry. Every line that opens an entry gives its
/// path, in order, and no other line gives one. Without an entry, or without a
/// list, the working directory stands alone.
pub proof fn every_entry_gives_a_path(
    cwd: Seq<char>,
    lines: Seq<Seq<char>>,
    path: Seq<char>,
    other: Seq<char>,
    text: Seq<char>,
)
    requires
        !starts_with(other, "worktree "@),
    ensures
        listed(Seq::empty()) == Seq::<Seq<char>>::empty(),
        listed(lines.push(opens(path))) == listed(lines).push(path),
        listed(lines.push(other)) == listed(lines),
        worktrees_of(cwd, None) == seq![cwd],
        worktrees_of(cwd, Some(text)) == if listed(lines_of(text)).len() > 0 {
            listed(lines_of(text))
        } else {
            seq![cwd]
        },
{
    opening(path);
    assert(lines.push(opens(path)).drop_last() =~= lines);
    assert(lines.push(other).drop_last() =~= lines);
}

proof fn passing_over(lines: Seq<Seq<char>>, rest: Seq<Seq<char>>)
    requires
        says_neither(rest),
    ensures
        read_lines(lines + rest) == read_lines(lines),
    decreases rest.len(),
{
    if rest.len() == 0 {
        assert(lines + rest =~= lines);
    } else {
        let less = rest.drop_last();
        assert forall|i: int| 0 <= i < less.len() implies !starts_with(
            #[trigger] less[i],
            "worktree "@,
        ) && !starts_with(less[i], "branch "@) by {
            assert(less[i] == rest[i]);
        }
        passing_over(lines, less);
        assert((lines + rest).drop_last() =~= lines + less);
        assert((lines + rest).last() == rest[rest.len() - 1]);
    }
}

/// Law: each entry of git's list gives one worktree more: its path, and its branch
/// where a line names one, whatever else the entry says. The first entry, and no
/// other, is the main worktree.
pub proof fn every_entry_gives_a_worktree(
    before: Seq<Seq<char>>,
    path: Seq<char>,
    more: Seq<Seq<char>>,
    branch: Seq<char>,
    last: Seq<Seq<char>>,
)
    requires
        says_neither(more),
        says_neither(last),
        !starts_with(branch, "refs/heads/"@),
    ensures
        ({
            let known = read_lines(before).finished();
            let detached = before.push(opens(path)) + more;
            let named = detached.push(names(branch)) + last;
            &&& read_lines(Seq::empty()).finished().len() == 0
            &&& read_lines(detached).finished() == known.push(
                MetaView { path, branch: None, is_main: known.len() == 0 },
            )
            &&& read_lines(named).finished() == known.push(
                MetaView { path, branch: Some(branch), is_main: known.len() == 0 },
            )
        }),
{
    opening(path);
    let opened = before.push(opens(path));
    assert(opened.drop_last() =~= before);
    passing_over(opened, more);
    let detached = opened + more;
    let line = names(branch);
    reveal_strlit("branch ");
    reveal_strlit("worktree ");
    reveal_strlit("refs/heads/");
    reveal_strlit("branch refs/heads/");
    assert(line.subrange(0, 7) =~= "branch "@);
    assert(line[0] == 'b');
    assert(!starts_with(line, "worktree "@)) by {
        if line.len() >= 9 {
            assert(line.subrange(0, 9)[0] == 'b');
            assert("worktree "@[0] == 'w');
        }
    }
    let tail = line.skip(7);
    assert(tail =~= "refs/heads/"@ + branch);
    assert(tail.subrange(0, 11) =~= "refs/heads/"@);
    assert(tail.skip(11) =~= branch);
    assert(trimmed_start_of(branch, "refs/heads/"@) == branch);
    assert(trimmed_start_of(tail, "refs/heads/"@) == branch);
    let with_branch = detached.push(line);
    assert(with_branch.drop_last() =~= detached);
    passing_over(with_branch, last);
}

/// Law: without a list there are no worktrees, and in any list the first one is the
/// main one and no other is.
pub proof fn the_first_worktree_is_the_main_one(output: Option<Seq<char>>, i: int)
    requires
        0 <= i < detailed(output).len(),
    ensures
        detailed(output)[i].is_main <==> i == 0,
        output is Some,
{
    if output is Some {
        first_is_main(lines_of(output->0));
    }
}

proof fn first_is_main(lines: Seq<Seq<char>>)
    ensures
        forall|i: int|
            0 <= i < read_lines(lines).done.len() ==> ((#[trigger] read_lines(
                lines,
            ).done[i]).is_main <==> i == 0),
        forall|i: int|
            0 <= i < read_lines(lines).finished().len() ==> ((#[trigger] read_lines(
                lines,
            ).finished()[i]).is_main <==> i == 0),
    decreases lines.len(),
{
    if lines.len() > 0 {
        first_is_main(lines.drop_last());
    }
}

// ── what git says of a branch ───────────────────────────────────────────

/// Law: the branch is what git prints, without white space around it; a detached
/// head, and no output, is no branch.
pub proof fn heads_are_no_branch(output: Seq<char>)
    ensures
        branch_of(output) matches Some(b) ==> b == trimmed(output) && b.len() > 0 && b != "HEAD"@,
        branch_of(output) is None <==> trimmed(output).len() == 0 || trimmed(output) == "HEAD"@,
{
}

/// Law: of the two numbers that git prints, the first is how many commits the
/// branch is behind and the second how many it is ahead.
pub proof fn behind_comes_before_ahead(behind: usize, ahead: usize)
    ensures
        counts_of(decimal(behind as nat) + seq!['\t'] + decimal(ahead as nat)) == Some(
            (ahead as int, behind as int),
        ),
        counts_of(decimal(behind as nat)) is None,
        counts_of(Seq::empty()) is None,
{
    let a = decimal(behind as nat);
    let b = decimal(ahead as nat);
    digits_are_a_word(behind as nat);
    digits_are_a_word(ahead as nat);
    words_stand_between_spaces(a, '\t', b);
    words_stand_between_spaces(b, '\t', Seq::empty());
    assert(words_of(a + seq!['\t'] + b) =~= seq![a, b]);
    numbers_read_back(behind as nat, usize::MAX as int, Seq::empty());
    numbers_read_back(ahead as nat, usize::MAX as int, Seq::empty());
}

proof fn digits_are_a_word(n: nat)
    ensures
        decimal(n).len() > 0,
        forall|i: int| 0 <= i < decimal(n).len() ==> !is_space(#[trigger] decimal(n)[i]),
    decreases n,
{
    if n >= 10 {
        digits_are_a_word(n / 10);
        let d = decimal(n);
        assert forall|i: int| 0 <= i < d.len() implies !is_space(#[trigger] d[i]) by {
            if i < d.len() - 1 {
                assert(d[i] == decimal(n / 10)[i]);
            }
        }
    }
}

/// Law: the repository's directory is where git says, seen from the working
/// directory: an absolute path as it is, any other below that directory.
pub proof fn the_common_directory_is_found(output: Seq<char>, cwd: Seq<char>)
    requires
        trimmed(output).len() > 0,
        cwd.len() > 0,
        cwd.last() != '/',
    ensures
        trimmed(output)[0] == '/' ==> common_dir_of(output, cwd) == Some(trimmed(output)),
        trimmed(output)[0] != '/' ==> common_dir_of(output, cwd) == Some(
            cwd + seq!['/'] + trimmed(output),
        ),
{
    let t = trimmed(output);
    reveal_strlit("/");
    assert("/"@ =~= seq!['/']);
    assert(t.subrange(0, 1) =~= seq![t[0]]);
    assert(cwd.subrange(cwd.len() - 1, cwd.len() as int) =~= seq![cwd.last()]);
    assert(seq![t[0]][0] == t[0]);
    assert(seq![cwd.last()][0] == cwd.last());
    assert(seq!['/'][0] == '/');
}

/// Law: a worktree goes by its branch, or else by the name of its directory, or
/// else it is just a worktree.
pub proof fn worktrees_go_by_their_branch(path: Seq<char>, branch: Seq<char>)
    ensures
        worktree_label(path, Some(branch)) == branch,
        base_name(path) matches Some(name) ==> worktree_label(path, None) == name,
        base_name(path) is None ==> worktree_label(path, None) == "worktree"@,
{
}

/// Law: what git printed when it failed is told without white space around it, and
/// that it printed nothing is told too.
pub proof fn failures_are_told(stderr: Seq<char>)
    ensures
        trimmed(stderr).len() > 0 ==> failure_detail(stderr) == trimmed(stderr),
        trimmed(stderr).len() == 0 ==> failure_detail(stderr) == "(no stderr)"@,
{
}

// ── naming one ──────────────────────────────────────────────────────────

/// Law: a worktree is meant by its path, by the name of its directory, by its
/// branch, and by the last part of its branch; and by nothing else.
pub proof fn worktrees_are_meant_by(target: Seq<char>, canonical: Option<Seq<char>>, w: MetaView)
    ensures
        goes_by(target, canonical)(w) <==> {
            ||| canonical is Some && same_path(canonical->0, w.path)
            ||| base_name(w.path) == Some(target)
            ||| w.branch == Some(target)
            ||| w.branch is Some && leaf_of(w.branch->0) == target
        },
{
}

/// Law: why no worktree was found: there are none; none is meant; or several are,
/// and these are their paths.
pub proof fn complaints_say_why(target: Seq<char>, all: Seq<MetaView>, hits: Seq<MetaView>)
    ensures
        all.len() == 0 ==> complaint(target, all, hits)
            == "no git worktrees found (is this a git repo?)"@,
        all.len() > 0 && hits.len() == 0 ==> complaint(target, all, hits)
            == "no worktree matches '"@ + target
            + "' (try a path, directory name, or branch)"@,
        all.len() > 0 && hits.len() > 0 ==> complaint(target, all, hits) == "'"@ + target
            + "' is ambiguous — matches: "@ + joined(
            Seq::new(hits.len(), |i: int| hits[i].path),
            ", "@,
        ),
{
    assert(hits.map_values(path_of_meta()) =~= Seq::new(hits.len(), |i: int| hits[i].path));
}

// ── the order of starting ───────────────────────────────────────────────

/// Law: paths are ordered part by part: by their first different part, and a
/// directory before all that is below it; an absolute path comes before any
/// other.
pub proof fn paths_are_ordered_by_parts(a: Seq<char>, b: Seq<char>, k: int)
    requires
        0 <= k <= components(a).len(),
        k <= components(b).len(),
        components(a).take(k) == components(b).take(k),
        k == components(a).len() || k == components(b).len() || components(a)[k] != components(b)[k],
    ensures
        is_absolute(a) && !is_absolute(b) ==> path_precedes(a, b) && !path_precedes(b, a),
        is_absolute(a) == is_absolute(b) ==> (path_precedes(a, b) <==> k < components(b).len() && (
        k == components(a).len() || component_precedes(components(a)[k], components(b)[k]))),
{
    by_first_difference(components(a), components(b), k);
}

proof fn by_first_difference(a: Seq<Seq<char>>, b: Seq<Seq<char>>, k: int)
    requires
        0 <= k <= a.len(),
        k <= b.len(),
        a.take(k) == b.take(k),
        k == a.len() || k == b.len() || a[k] != b[k],
    ensures
        components_precede(a, b) <==> k < b.len() && (k == a.len() || component_precedes(
            a[k],
            b[k],
        )),
    decreases a.len(),
{
    if k > 0 {
        assert(a.take(k)[0] == a[0] && b.take(k)[0] == b[0]);
        let x = a.skip(1);
        let y = b.skip(1);
        assert(x.take(k - 1) =~= a.take(k).skip(1));
        assert(y.take(k - 1) =~= b.take(k).skip(1));
        if k < a.len() && k < b.len() {
            assert(x[k - 1] == a[k] && y[k - 1] == b[k]);
        }
        by_first_difference(x, y, k - 1);
        assert(components_precede(a, b) == components_precede(x, y));
    }
}

/// Law: parts of a path are ordered as text, but for the directory itself, which
/// comes first, and the one above, which comes next.
pub proof fn parts_are_ordered_as_text(a: Seq<char>, b: Seq<char>)
    requires
        a != b,
    ensures
        a == "."@ ==> component_precedes(a, b),
        b == "."@ ==> !component_precedes(a, b),
        a == ".."@ && b != "."@ ==> component_precedes(a, b),
        b == ".."@ && a != "."@ ==> !component_precedes(a, b),
        a != "."@ && a != ".."@ && b != "."@ && b != ".."@ ==> component_precedes(a, b) == precedes(
            a,
            b,
        ),
{
    reveal_strlit(".");
    reveal_strlit("..");
    assert("."@.len() == 1 && ".."@.len() == 2);
}

/// Law: the worktree at home starts before any other, and the others in the order
/// of their paths.
pub proof fn home_comes_before_the_rest(a: Seq<char>, b: Seq<char>, home: Seq<char>)
    ensures
        same_path(a, home) && !same_path(b, home) ==> starts_before(a, b, home) && !starts_before(
            b,
            a,
            home,
        ),
        !same_path(a, home) && !same_path(b, home) ==> starts_before(a, b, home) == path_precedes(
            a,
            b,
        ),
{
}

/// Law: a stack is the last one exactly when no other worktree has a daemon that
/// answers.
pub proof fn the_last_stack_has_no_neighbour(reports: Seq<WorktreeReport>)
    ensures
        last_one(reports) <==> !exists|i: int|
            0 <= i < reports.len() && !(#[trigger] reports[i]).is_cwd && reports[i].services is Some,
{
    if !exists|i: int|
        0 <= i < reports.len() && !(#[trigger] reports[i]).is_cwd && reports[i].services is Some {
        assert forall|i: int| 0 <= i < reports.len() implies (#[trigger] reports[i]).is_cwd
            || reports[i].services is None by {}
    }
}

// ── removing one ────────────────────────────────────────────────────────

/// Law: a worktree is removed in order: its hook is resolved, its stack stopped,
/// the worktree removed, its slot released and, where it has one, its hook run.
/// What the steps brought is kept to the end.
pub proof fn removal_goes_step_by_step(
    w: MetaView,
    dir: Seq<char>,
    slot: Option<u8>,
    hook: Option<Seq<char>>,
    stopped: bool,
    ok: bool,
)
    ensures
        ({
            let begun = RemovalView::begun(w, dir);
            let resolved = begun.hook_resolved(slot, Ok(hook));
            let halted = resolved.instance_stopped(stopped);
            let removed = halted.worktree_removed(None);
            let released = removed.slot_released();
            let finished = if hook is Some {
                released.hook_finished(ok)
            } else {
                released
            };
            &&& begun.step is ResolveHook && begun.path == w.path && begun.branch == w.branch
            &&& resolved.step is StopInstance && !resolved.removed
            &&& halted.step is RemoveWorktree && !halted.removed
            &&& removed.step is ReleaseSlot && removed.removed
            &&& hook is Some ==> released.step is RunHook && released.hook == hook
                && released.run_dir == dir
            &&& finished.step is Done && finished.removed
            &&& finished.path == w.path && finished.branch == w.branch && finished.slot == slot
            &&& finished.stopped == stopped
            &&& finished.hook_ok == if hook is Some {
                Some(ok)
            } else {
                None
            }
        }),
{
}

/// Law: a worktree that git does not remove stays, and what git said is told.
pub proof fn refused_removals_are_told(r: RemovalView, stderr: Seq<char>)
    requires
        r.wf(),
        r.step is RemoveWorktree,
    ensures
        ({
            let after = r.worktree_removed(Some(stderr));
            &&& after.step is Failed && !after.removed
            &&& after.error == "git worktree remove failed: "@ + failure_detail(stderr)
        }),
{
    reveal_strlit("git worktree ");
    reveal_strlit("remove");
    reveal_strlit(" failed: ");
    reveal_strlit("git worktree remove failed: ");
    assert("git worktree "@ + "remove"@ + " failed: "@ =~= "git worktree remove failed: "@);
}

/// Law: the main worktree is never removed, and the refusal names it.
pub proof fn refusals_name_the_worktree(path: Seq<char>)
    ensures
        refusal(path) == "refusing to remove the main worktree ("@ + path + ")"@,
{
}

/// Law: a slot is found by the id that claims it, and the main worktree by its mark.
pub proof fn claims_go_by_id(c: (String, u8), id: Seq<char>, w: MetaView)
    ensures
        claim_of(id)(c) <==> c.0@ == id,
        main_entry()(w) <==> w.is_main,
{
}

/// Law: git is told to add the worktree at the path, with the branch: behind `-b`, and
/// so made anew, exactly where it is to be created. It is told to remove one by its
/// path, which comes last, and to force it exactly where that was asked for.
pub proof fn git_is_told(flag: bool, branch: Seq<char>, path: Seq<char>)
    ensures
        ({
            let add = adding(flag, branch, path);
            let remove = removing(flag, path);
            &&& add[0] == "worktree"@ && add[1] == "add"@
            &&& flag ==> add.len() == 5 && add[2] == "-b"@ && add[3] == branch && add[4] == path
            &&& !flag ==> add.len() == 4 && add[2] == path && add[3] == branch
            &&& remove[0] == "worktree"@ && remove[1] == "remove"@ && remove.last() == path
            &&& flag ==> remove.len() == 4 && remove[2] == "--force"@
            &&& !flag ==> remove.len() == 3
        }),
{
}

} // verus!
