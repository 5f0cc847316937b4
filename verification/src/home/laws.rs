//! What holds of the action panel: what its actions are called, in what order
//! they stand, and what running one does.
use vstd::prelude::*;

use crate::home::{
    action_of, actions_of, grouped, kind_noun, of_kind, other_task, recorded, recorded_all, spaced,
    status_wording, task_words, unfocused, HomeActionView, HomeView, ResultView, TaskDef, TaskKind,
    TaskUpdate,
};
use crate::text::laws::replacing_goes_from_the_front;
use crate::text::{contains, occurs_at, starts_with};

verus! {

/// Law: in a member's own stack the member's name is left out of its tasks' labels;
/// every other task keeps its whole name.
pub proof fn focus_shortens_names(member: Seq<char>, rest: Seq<char>, name: Seq<char>)
    ensures
        unfocused(member + "::"@ + rest, Some(member)) == rest,
        !starts_with(name, member + "::"@) ==> unfocused(name, Some(member)) == name,
        unfocused(name, None) == name,
{
    let whole = member + "::"@ + rest;
    let head = member + "::"@;
    assert(whole.subrange(0, head.len() as int) =~= head);
    assert(whole.skip(head.len() as int) =~= rest);
}

/// Law: a label reads as words: hyphens and underscores become spaces, a member is
/// set apart from its task by a space, and no other character changes.
pub proof fn labels_read_as_words(name: Seq<char>, a: Seq<char>, b: Seq<char>, i: int)
    requires
        !contains(name, "::"@),
        !contains(b, "::"@),
        forall|j: int|
            0 <= j < a.len() ==> !#[trigger] occurs_at(a + "::"@ + b, "::"@, j),
    ensures
        task_words(name, None).len() == name.len(),
        0 <= i < name.len() ==> task_words(name, None)[i] == if name[i] == '-' || name[i] == '_' {
            ' '
        } else {
            name[i]
        },
        task_words(a + "::"@ + b, None) == spaced(a) + seq![' '] + spaced(b),
{
    reveal_strlit("::");
    reveal_strlit(" ");
    replacing_goes_from_the_front(name, "::"@, Seq::empty(), " "@);
    replacing_goes_from_the_front(a, "::"@, b, " "@);
    replacing_goes_from_the_front(b, "::"@, Seq::empty(), " "@);
    assert(" "@ =~= seq![' ']);
    assert(spaced(a + " "@ + b) =~= spaced(a) + seq![' '] + spaced(b));
}

/// How many of the tasks are of this kind.
pub open spec fn how_many(tasks: Seq<TaskDef>, kind: TaskKind) -> int {
    tasks.filter(|t: TaskDef| t.kind == kind).len() as int
}

proof fn one_more(tasks: Seq<TaskDef>, t: TaskDef, kind: TaskKind, focus: Option<Seq<char>>)
    ensures
        actions_of(tasks, kind, focus).len() == how_many(tasks, kind),
        actions_of(tasks.push(t), kind, focus) == if t.kind == kind {
            actions_of(tasks, kind, focus).push(action_of(focus)(t))
        } else {
            actions_of(tasks, kind, focus)
        },
{
    same_count(tasks, kind);
    reveal(Seq::filter);
    assert(tasks.push(t).drop_last() =~= tasks);
    let kept = tasks.filter(of_kind(kind));
    if t.kind == kind {
        assert(kept.push(t).map_values(action_of(focus)) =~= kept.map_values(action_of(focus)).push(
            action_of(focus)(t),
        ));
    }
}

proof fn same_count(tasks: Seq<TaskDef>, kind: TaskKind)
    ensures
        tasks.filter(of_kind(kind)).len() == how_many(tasks, kind),
    decreases tasks.len(),
{
    reveal(Seq::filter);
    if tasks.len() > 0 {
        same_count(tasks.drop_last(), kind);
    }
}

/// Law: the panel lists what launches something first, then the checks, then the
/// rest, each group in the order of declaration: one task more stands behind the
/// others of its kind. It goes by its name, and its label and description say
/// what it is.
pub proof fn actions_stand_in_groups(tasks: Seq<TaskDef>, t: TaskDef, focus: Option<Seq<char>>)
    ensures
        ({
            let before = grouped(tasks, focus);
            let launches = how_many(tasks, TaskKind::Launch);
            let checks = how_many(tasks, TaskKind::Check);
            let at = match t.kind {
                TaskKind::Launch => launches,
                TaskKind::Check => launches + checks,
                TaskKind::Utility => before.len() as int,
            };
            let action = HomeActionView {
                task: t.name@,
                label: task_words(t.name@, focus),
                description: match t.description {
                    Some(d) => d@,
                    None => Seq::empty(),
                },
                kind: t.kind,
            };
            &&& 0 <= at <= before.len()
            &&& grouped(tasks.push(t), focus) == before.take(at) + seq![action] + before.skip(at)
            &&& grouped(Seq::empty(), focus).len() == 0
        }),
{
    one_more(tasks, t, TaskKind::Launch, focus);
    one_more(tasks, t, TaskKind::Check, focus);
    one_more(tasks, t, TaskKind::Utility, focus);
    reveal(Seq::filter);
    let l = actions_of(tasks, TaskKind::Launch, focus);
    let c = actions_of(tasks, TaskKind::Check, focus);
    let u = actions_of(tasks, TaskKind::Utility, focus);
    let before = grouped(tasks, focus);
    let action = action_of(focus)(t);
    let at = match t.kind {
        TaskKind::Launch => l.len() as int,
        TaskKind::Check => l.len() + c.len() as int,
        TaskKind::Utility => before.len() as int,
    };
    assert(grouped(tasks.push(t), focus) =~= before.take(at) + seq![action] + before.skip(at));
}

/// Law: a step down goes to the next action and from the last to the first, and a
/// step up the other way; nothing else changes, and without actions nothing does.
pub proof fn actions_are_stepped_through(h: HomeView)
    requires
        h.actions.len() <= usize::MAX,
    ensures
        h.actions.len() == 0 ==> h.next() == h && h.previous() == h,
        h.selected < h.actions.len() ==> {
            &&& h.next() == (HomeView {
                selected: (if h.selected + 1 < h.actions.len() {
                    h.selected + 1
                } else {
                    0
                }) as usize,
                ..h
            })
            &&& h.previous() == (HomeView {
                selected: (if h.selected > 0 {
                    h.selected - 1
                } else {
                    h.actions.len() - 1
                }) as usize,
                ..h
            })
        },
{
    let n = h.actions.len() as int;
    let i = h.selected as int;
    if i < n {
        assert((i + 1) % n == if i + 1 < n {
            i + 1
        } else {
            0
        }) by (nonlinear_arith)
            requires
                0 <= i < n,
        ;
        assert((i + n - 1) % n == if i > 0 {
            i - 1
        } else {
            n - 1
        }) by (nonlinear_arith)
            requires
                0 <= i < n,
        ;
    }
}

/// Law: the selected action is started exactly where none runs and it can be run;
/// its output begins empty. Otherwise nothing changes.
pub proof fn the_selected_action_is_started(h: HomeView, runnable: bool)
    ensures
        h.running is None && runnable && h.selected < h.actions.len() ==> h.begun(runnable) == (
        HomeView {
            running: Some(h.actions[h.selected as int].task),
            logs: Seq::empty(),
            ..h
        }),
        h.running is Some || !runnable || h.selected >= h.actions.len() ==> h.begun(runnable) == h,
{
}

/// Law: what a task prints is added to its output, of which the newest thousand
/// lines stay; when it finishes, none runs any more and its result is recorded.
pub proof fn tasks_report(h: HomeView, update: TaskUpdate)
    requires
        h.logs.len() <= 1000,
    ensures
        ({
            let after = h.updated(update);
            match update {
                TaskUpdate::Progress(line) | TaskUpdate::Output(line) => {
                    let all = h.logs.push(line@);
                    after == (HomeView {
                        logs: if all.len() <= 1000 {
                            all
                        } else {
                            all.subrange(all.len() - 1000, all.len() as int)
                        },
                        ..h
                    })
                },
                TaskUpdate::Finished(result) => after.running is None && after.recent == recorded(
                    h.recent,
                    result@,
                ) && after.logs == h.logs && after.actions == h.actions && after.selected
                    == h.selected,
            }
        }),
{
    match update {
        TaskUpdate::Progress(line) | TaskUpdate::Output(line) => {
            let all = h.logs.push(line@);
            if all.len() > 1000 {
                assert(all.skip(1) =~= all.subrange(all.len() - 1000, all.len() as int));
            }
        },
        _ => {},
    }
}

/// Law: of the results the newest of each task stays, five at most: a new one takes
/// the place of an older one of its task and stands last, the others keep their
/// order, and the oldest leaves where there are six.
pub proof fn the_newest_results_stay(recent: Seq<ResultView>, result: ResultView)
    requires
        recent.len() <= 5,
    ensures
        ({
            let all = recent.filter(|r: ResultView| r.task != result.task).push(result);
            &&& recorded(recent, result) == if all.len() <= 5 {
                all
            } else {
                all.subrange(all.len() - 5, all.len() as int)
            }
            &&& recorded_all(recent.push(result)) == recorded(recorded_all(recent), result)
            &&& recorded_all(Seq::empty()).len() == 0
        }),
{
    let p = |r: ResultView| r.task != result.task;
    same_results(recent, result.task);
    recent.lemma_filter_len(p);
    let all = recent.filter(p).push(result);
    if all.len() > 5 {
        assert(all.skip(1) =~= all.subrange(all.len() - 5, all.len() as int));
    }
    assert(recent.push(result).drop_last() =~= recent);
}

proof fn same_results(recent: Seq<ResultView>, task: Seq<char>)
    ensures
        recent.filter(other_task(task)) == recent.filter(|r: ResultView| r.task != task),
    decreases recent.len(),
{
    reveal(Seq::filter);
    if recent.len() > 0 {
        same_results(recent.drop_last(), task);
    }
}

/// Law: how a run ended is put into words: passed is a success, cancelled and timed
/// out are named, and everything else failed.
pub proof fn endings_are_put_into_words(status: Seq<char>)
    ensures
        status_wording("passed"@) == "succeeded"@,
        status_wording("cancelled"@) == "cancelled"@,
        status_wording("timed_out"@) == "timed out"@,
        status != "passed"@ && status != "cancelled"@ && status != "timed_out"@ ==> status_wording(
            status,
        ) == "failed"@,
        kind_noun(TaskKind::Launch) == "launch"@,
        kind_noun(TaskKind::Check) == "check"@,
        kind_noun(TaskKind::Utility) == "run"@,
{
    reveal_strlit("passed");
    reveal_strlit("cancelled");
    reveal_strlit("timed_out");
    assert("passed"@.len() == 6 && "cancelled"@.len() == 9 && "timed_out"@.len() == 9);
    assert("cancelled"@[0] == 'c' && "timed_out"@[0] == 't');
}

} // verus!
