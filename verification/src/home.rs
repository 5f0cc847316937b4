//! The home panel: the tasks of a stack as runnable actions, and the latest
//! results of running them.
pub mod laws;

use vstd::prelude::*;
use vstd::string::*;

use crate::event_loop::startup::{push_task_line, task_output};
use crate::lists::views;
use crate::text::{
    after_prefix, chars_of, opt_str, opt_text, replace, replaced, same, starts_with, texts,
};

verus! {

/// What a task is for.
#[derive(Debug, Clone, Copy, PartialEq, Eq, Structural)]
pub enum TaskKind {
    Launch,
    Check,
    Utility,
}

/// A task as a stack declares it.
#[derive(Debug, PartialEq, Eq)]
pub struct TaskDef {
    pub name: String,
    pub description: Option<String>,
    pub kind: TaskKind,
}

#[derive(Debug, PartialEq, Eq)]
pub struct HomeAction {
    pub task: String,
    pub label: String,
    pub description: String,
    pub kind: TaskKind,
}

#[verifier::ext_equal]
pub ghost struct HomeActionView {
    pub task: Seq<char>,
    pub label: Seq<char>,
    pub description: Seq<char>,
    pub kind: TaskKind,
}

impl View for HomeAction {
    type V = HomeActionView;

    open spec fn view(&self) -> HomeActionView {
        HomeActionView {
            task: self.task@,
            label: self.label@,
            description: self.description@,
            kind: self.kind,
        }
    }
}

#[derive(Debug, PartialEq, Eq)]
pub struct RecentResult {
    pub task: String,
    pub kind: TaskKind,
    pub status: String,
    pub finished_at: u64,
}

#[verifier::ext_equal]
pub ghost struct ResultView {
    pub task: Seq<char>,
    pub kind: TaskKind,
    pub status: Seq<char>,
    pub finished_at: u64,
}

impl View for RecentResult {
    type V = ResultView;

    open spec fn view(&self) -> ResultView {
        ResultView {
            task: self.task@,
            kind: self.kind,
            status: self.status@,
            finished_at: self.finished_at,
        }
    }
}

/// What running a task of a kind is called.
pub open spec fn kind_noun(kind: TaskKind) -> Seq<char> {
    match kind {
        TaskKind::Launch => "launch"@,
        TaskKind::Check => "check"@,
        TaskKind::Utility => "run"@,
    }
}

/// How a recorded status reads. Anything unknown counts as failed.
pub open spec fn status_wording(status: Seq<char>) -> Seq<char> {
    if status == "passed"@ {
        "succeeded"@
    } else if status == "cancelled"@ {
        "cancelled"@
    } else if status == "timed_out"@ {
        "timed out"@
    } else {
        "failed"@
    }
}

impl RecentResult {
    pub fn wording(&self) -> (r: String)
        ensures
            r@ == "last "@ + kind_noun(self.kind) + " "@ + status_wording(self.status@),
    {
        let mut r = "last ".to_owned();
        match self.kind {
            TaskKind::Launch => r.append("launch"),
            TaskKind::Check => r.append("check"),
            TaskKind::Utility => r.append("run"),
        }
        r.append(" ");
        let s = self.status.as_str();
        if same(s, "passed") {
            r.append("succeeded");
        } else if same(s, "cancelled") {
            r.append("cancelled");
        } else if same(s, "timed_out") {
            r.append("timed out");
        } else {
            r.append("failed");
        }
        r
    }
}

/// News from a running task.
#[derive(Debug, PartialEq, Eq)]
pub enum TaskUpdate {
    Progress(String),
    Output(String),
    Finished(RecentResult),
}

/// Hyphens and underscores become spaces.
pub open spec fn spaced_char(c: char) -> char {
    if c == '-' || c == '_' {
        ' '
    } else {
        c
    }
}

pub open spec fn spaced(s: Seq<char>) -> Seq<char> {
    s.map_values(|c: char| spaced_char(c))
}

/// A task name without the namespace of the focused member.
pub open spec fn unfocused(name: Seq<char>, focus: Option<Seq<char>>) -> Seq<char> {
    match focus {
        Some(member) => if starts_with(name, member + "::"@) {
            name.skip((member + "::"@).len() as int)
        } else {
            name
        },
        None => name,
    }
}

/// The label of a task: its name without the focused namespace, in words.
pub open spec fn task_words(name: Seq<char>, focus: Option<Seq<char>>) -> Seq<char> {
    spaced(replaced(unfocused(name, focus), "::"@, " "@))
}

fn space_out(s: &str) -> (r: String)
    ensures
        r@ == spaced(s@),
{
    let v = chars_of(s);
    let mut r = String::new();
    let mut i: usize = 0;
    while i < v.len()
        invariant
            i <= v.len(),
            v@ == s@,
            r@ == spaced(s@.take(i as int)),
        decreases v.len() - i,
    {
        let c = if v[i] == '-' || v[i] == '_' {
            ' '
        } else {
            v[i]
        };
        r.push(c);
        i = i + 1;
        assert(r@ =~= spaced(s@.take(i as int)));
    }
    assert(s@.take(i as int) =~= s@);
    r
}

fn display_label(name: &str, member_focus: Option<&str>) -> (r: String)
    ensures
        r@ == task_words(name@, opt_str(member_focus)),
{
    let visible: String = match member_focus {
        Some(member) => {
            let mut prefix = member.to_owned();
            prefix.append("::");
            match after_prefix(name, prefix.as_str()) {
                Some(rest) => rest,
                None => name.to_owned(),
            }
        },
        None => name.to_owned(),
    };
    proof {
        reveal_strlit("::");
    }
    space_out(replace(visible.as_str(), "::", " ").as_str())
}

/// The action that a task is shown as.
pub open spec fn action_of(focus: Option<Seq<char>>) -> spec_fn(TaskDef) -> HomeActionView {
    |t: TaskDef|
        HomeActionView {
            task: t.name@,
            label: task_words(t.name@, focus),
            description: match t.description {
                Some(d) => d@,
                None => Seq::empty(),
            },
            kind: t.kind,
        }
}

pub open spec fn of_kind(kind: TaskKind) -> spec_fn(TaskDef) -> bool {
    |t: TaskDef| t.kind == kind
}

/// The actions of one kind, in the order in which the tasks are declared.
pub open spec fn actions_of(
    tasks: Seq<TaskDef>,
    kind: TaskKind,
    focus: Option<Seq<char>>,
) -> Seq<HomeActionView> {
    tasks.filter(of_kind(kind)).map_values(action_of(focus))
}

/// All actions: launches, then checks, then utilities.
pub open spec fn grouped(tasks: Seq<TaskDef>, focus: Option<Seq<char>>) -> Seq<HomeActionView> {
    actions_of(tasks, TaskKind::Launch, focus) + actions_of(tasks, TaskKind::Check, focus)
        + actions_of(tasks, TaskKind::Utility, focus)
}

/// The results of other tasks than `task`.
pub open spec fn other_task(task: Seq<char>) -> spec_fn(ResultView) -> bool {
    |r: ResultView| r.task != task
}

/// The results after one more: only the newest of each task, and the newest
/// five.
pub open spec fn recorded(recent: Seq<ResultView>, result: ResultView) -> Seq<ResultView> {
    let all = recent.filter(other_task(result.task)).push(result);
    if all.len() > 5 {
        all.skip(1)
    } else {
        all
    }
}

/// The results after recording a list of them, oldest first.
pub open spec fn recorded_all(results: Seq<ResultView>) -> Seq<ResultView>
    decreases results.len(),
{
    if results.len() == 0 {
        Seq::empty()
    } else {
        recorded(recorded_all(results.drop_last()), results.last())
    }
}

#[derive(Debug, PartialEq, Eq)]
pub struct HomeState {
    pub actions: Vec<HomeAction>,
    pub selected: usize,
    pub recent: Vec<RecentResult>,
    pub running: Option<String>,
    pub logs: Vec<String>,
    pub visible: bool,
    pub member_focus: Option<String>,
}

pub ghost struct HomeView {
    pub actions: Seq<HomeActionView>,
    pub selected: usize,
    pub recent: Seq<ResultView>,
    pub running: Option<Seq<char>>,
    pub logs: Seq<Seq<char>>,
    pub visible: bool,
    pub member_focus: Option<Seq<char>>,
}

impl View for HomeState {
    type V = HomeView;

    open spec fn view(&self) -> HomeView {
        HomeView {
            actions: views(self.actions@),
            selected: self.selected,
            recent: views(self.recent@),
            running: opt_text(self.running),
            logs: texts(self.logs@),
            visible: self.visible,
            member_focus: opt_text(self.member_focus),
        }
    }
}

impl HomeView {
    /// The next action selected, wrapping.
    pub open spec fn next(self) -> HomeView {
        HomeView {
            selected: if self.actions.len() > 0 {
                ((self.selected + 1) % (self.actions.len() as int)) as usize
            } else {
                self.selected
            },
            ..self
        }
    }

    /// The previous action selected, wrapping.
    pub open spec fn previous(self) -> HomeView {
        HomeView {
            selected: if self.actions.len() > 0 {
                ((self.selected + self.actions.len() - 1) % (self.actions.len() as int)) as usize
            } else {
                self.selected
            },
            ..self
        }
    }
}

/// What Enter in the action panel comes to.
#[derive(Debug, PartialEq, Eq)]
pub enum RunPlan {
    /// A task is running, the one named here; it comes first.
    Busy(String),
    /// The task to run.
    Run { task: String, kind: TaskKind },
    /// There is nothing to run, or nothing to run it with.
    Idle,
}

impl HomeView {
    /// The selected action can be started: nothing runs, and there is
    /// something to run it with.
    pub open spec fn startable(self, runnable: bool) -> bool {
        self.running is None && runnable && self.selected < self.actions.len()
    }

    /// The selected action started, its output still empty.
    pub open spec fn begun(self, runnable: bool) -> HomeView {
        if self.startable(runnable) {
            HomeView {
                running: Some(self.actions[self.selected as int].task),
                logs: Seq::empty(),
                ..self
            }
        } else {
            self
        }
    }

    /// The running task finished with `result`.
    pub open spec fn finished(self, result: ResultView) -> HomeView {
        HomeView { running: None, recent: recorded(self.recent, result), ..self }
    }

    /// The panel after news from the running task.
    pub open spec fn updated(self, update: TaskUpdate) -> HomeView {
        match update {
            TaskUpdate::Progress(line) | TaskUpdate::Output(line) => HomeView {
                logs: task_output(self.logs, line@),
                ..self
            },
            TaskUpdate::Finished(result) => self.finished(result@),
        }
    }
}

/// Why the selected action is not started while `task` of `stack` runs.
pub fn already_running(stack: &str, task: &str) -> (r: String)
    ensures
        r@ == stack@ + " / "@ + task@ + " is already running"@,
{
    let mut r = stack.to_owned();
    r.append(" / ");
    r.append(task);
    r.append(" is already running");
    r
}

fn push_actions(
    out: &mut Vec<HomeAction>,
    tasks: &Vec<TaskDef>,
    kind: TaskKind,
    focus: Option<&str>,
)
    ensures
        views(final(out)@) == views(old(out)@) + actions_of(tasks@, kind, opt_str(focus)),
{
    let ghost f = opt_str(focus);
    let ghost start = views(out@);
    let mut i: usize = 0;
    proof {
        reveal(Seq::filter);
        assert(start + actions_of(tasks@.take(0), kind, f) =~= start);
    }
    while i < tasks.len()
        invariant
            i <= tasks.len(),
            f == opt_str(focus),
            views(out@) == start + actions_of(tasks@.take(i as int), kind, f),
        decreases tasks.len() - i,
    {
        let ghost before = views(out@);
        let ghost t = tasks@.take(i + 1);
        proof {
            reveal(Seq::filter);
            assert(t.drop_last() =~= tasks@.take(i as int));
            assert(t.last() == tasks@[i as int]);
        }
        if tasks[i].kind == kind {
            let a = HomeAction {
                task: tasks[i].name.clone(),
                label: display_label(tasks[i].name.as_str(), focus),
                description: match &tasks[i].description {
                    Some(d) => d.clone(),
                    None => String::new(),
                },
                kind: tasks[i].kind,
            };
            let ghost av = action_of(f)(tasks@[i as int]);
            assert(a@ =~= av);
            out.push(a);
            proof {
                assert(views(out@) =~= before.push(av));
                let fs = tasks@.take(i as int).filter(of_kind(kind));
                assert(t.filter(of_kind(kind)) =~= fs.push(tasks@[i as int]));
                assert(actions_of(t, kind, f) =~= actions_of(
                    tasks@.take(i as int),
                    kind,
                    f,
                ).push(av));
                assert(start + actions_of(t, kind, f) =~= before.push(av));
            }
        }
        i = i + 1;
    }
    assert(tasks@.take(i as int) =~= tasks@);
}

impl HomeState {
    pub fn from_stack(tasks: &Vec<TaskDef>, recent: Vec<RecentResult>) -> (r: Self)
        ensures
            r@ == (HomeView {
                actions: grouped(tasks@, None),
                selected: 0,
                recent: recorded_all(views(recent@)),
                running: None,
                logs: Seq::empty(),
                visible: true,
                member_focus: None,
            }),
    {
        HomeState::from_stack_with_member_focus(tasks, None, recent)
    }

    pub fn from_stack_with_member_focus(
        tasks: &Vec<TaskDef>,
        member_focus: Option<&str>,
        recent: Vec<RecentResult>,
    ) -> (r: Self)
        ensures
            r@ == (HomeView {
                actions: grouped(tasks@, opt_str(member_focus)),
                selected: 0,
                recent: recorded_all(views(recent@)),
                running: None,
                logs: Seq::empty(),
                visible: true,
                member_focus: opt_str(member_focus),
            }),
    {
        let ghost f = opt_str(member_focus);
        let ghost all = views(recent@);
        let mut actions: Vec<HomeAction> = Vec::new();
        assert(views(actions@) =~= Seq::empty());
        push_actions(&mut actions, tasks, TaskKind::Launch, member_focus);
        push_actions(&mut actions, tasks, TaskKind::Check, member_focus);
        push_actions(&mut actions, tasks, TaskKind::Utility, member_focus);
        assert(views(actions@) =~= grouped(tasks@, f));
        let mut state = HomeState {
            actions,
            selected: 0,
            recent: Vec::new(),
            running: None,
            logs: Vec::new(),
            visible: true,
            member_focus: match member_focus {
                Some(m) => Some(m.to_owned()),
                None => None,
            },
        };
        assert(texts(state.logs@) =~= Seq::empty());
        assert(views(state.recent@) =~= recorded_all(all.take(0)));
        let ghost fresh = state@;
        let mut i: usize = 0;
        while i < recent.len()
            invariant
                i <= recent.len(),
                all == views(recent@),
                state@ == (HomeView { recent: recorded_all(all.take(i as int)), ..fresh }),
            decreases recent.len() - i,
        {
            assert(all.take(i + 1).drop_last() =~= all.take(i as int));
            let r = RecentResult {
                task: recent[i].task.clone(),
                kind: recent[i].kind,
                status: recent[i].status.clone(),
                finished_at: recent[i].finished_at,
            };
            assert(all.take(i + 1).last() == r@);
            state.record_result(r);
            i = i + 1;
        }
        assert(all.take(i as int) =~= all);
        state
    }

    pub fn task_label(&self, task: &str) -> (r: String)
        ensures
            r@ == task_words(task@, self@.member_focus),
    {
        match &self.member_focus {
            Some(m) => display_label(task, Some(m.as_str())),
            None => display_label(task, None),
        }
    }

    pub fn record_result(&mut self, result: RecentResult)
        ensures
            final(self)@ == (HomeView {
                recent: recorded(old(self)@.recent, result@),
                ..old(self)@
            }),
    {
        drop_task(&mut self.recent, result.task.as_str());
        let ghost kept = views(self.recent@);
        self.recent.push(result);
        assert(views(self.recent@) =~= kept.push(result@));
        if self.recent.len() > 5 {
            let _oldest = self.recent.remove(0);
            assert(views(self.recent@) =~= kept.push(result@).skip(1));
        }
    }

    pub fn move_next(&mut self)
        ensures
            final(self)@ == old(self)@.next(),
    {
        let n: usize = self.actions.len();
        if n > 0 {
            let s: usize = self.selected % n;
            proof {
                let (x, m) = (self.selected as int, n as int);
                vstd::arithmetic::div_mod::lemma_add_mod_noop(x, 1, m);
                vstd::arithmetic::div_mod::lemma_add_mod_noop(x % m, 1, m);
                vstd::arithmetic::div_mod::lemma_mod_twice(x, m);
                vstd::arithmetic::div_mod::lemma_fundamental_div_mod_converse(m, m, 1, 0);
                if s + 1 < n {
                    vstd::arithmetic::div_mod::lemma_small_mod((s + 1) as nat, n as nat);
                }
            }
            self.selected = if s + 1 < n {
                s + 1
            } else {
                0
            };
        }
    }

    pub fn move_previous(&mut self)
        ensures
            final(self)@ == old(self)@.previous(),
    {
        let n: usize = self.actions.len();
        if n > 0 {
            let s: usize = self.selected % n;
            let prev: usize = if s == 0 {
                n - 1
            } else {
                s - 1
            };
            proof {
                let (x, m) = (self.selected as int, n as int);
                vstd::arithmetic::div_mod::lemma_fundamental_div_mod(x, m);
                let q = x / m;
                if s == 0 {
                    assert(x + m - 1 == q * m + (m - 1)) by (nonlinear_arith)
                        requires
                            x == m * q + 0,
                    ;
                    vstd::arithmetic::div_mod::lemma_fundamental_div_mod_converse(
                        x + m - 1,
                        m,
                        q,
                        m - 1,
                    );
                } else {
                    assert(x + m - 1 == (q + 1) * m + (s - 1)) by (nonlinear_arith)
                        requires
                            x == m * q + s,
                    ;
                    vstd::arithmetic::div_mod::lemma_fundamental_div_mod_converse(
                        x + m - 1,
                        m,
                        q + 1,
                        s - 1,
                    );
                }
            }
            self.selected = prev;
        }
    }

    pub fn selected_task(&self) -> (r: Option<String>)
        ensures
            match r {
                Some(t) => self@.selected < self@.actions.len() && t@
                    == self@.actions[self@.selected as int].task,
                None => self@.selected >= self@.actions.len(),
            },
    {
        if self.selected < self.actions.len() {
            assert(views(self.actions@)[self.selected as int]
                == self.actions@[self.selected as int]@);
            Some(self.actions[self.selected].task.clone())
        } else {
            None
        }
    }
}

impl HomeState {
    /// Starts the selected action, unless a task is running. `runnable` says
    /// whether there is something to run it with.
    pub fn begin_selected(&mut self, runnable: bool) -> (r: RunPlan)
        ensures
            final(self)@ == old(self)@.begun(runnable),
            match r {
                RunPlan::Busy(task) => old(self)@.running == Some(task@),
                RunPlan::Run { task, kind } => old(self)@.startable(runnable) && task@ == old(
                    self,
                )@.actions[old(self)@.selected as int].task && kind == old(self)@.actions[old(
                    self,
                )@.selected as int].kind,
                RunPlan::Idle => old(self)@.running is None && !old(self)@.startable(runnable),
            },
    {
        match &self.running {
            Some(task) => {
                return RunPlan::Busy(task.clone());
            },
            None => {},
        }
        if !runnable || self.selected >= self.actions.len() {
            return RunPlan::Idle;
        }
        assert(views(self.actions@)[self.selected as int] == self.actions@[self.selected as int]@);
        let task = self.actions[self.selected].task.clone();
        let kind = self.actions[self.selected].kind;
        self.running = Some(task.clone());
        self.logs = Vec::new();
        assert(texts(self.logs@) =~= Seq::empty());
        RunPlan::Run { task, kind }
    }

    /// Takes in news from the running task. Returns whether it finished.
    pub fn update(&mut self, update: TaskUpdate) -> (r: bool)
        ensures
            final(self)@ == old(self)@.updated(update),
            r == (update is Finished),
    {
        match update {
            TaskUpdate::Progress(line) | TaskUpdate::Output(line) => {
                push_task_line(&mut self.logs, line);
                false
            },
            TaskUpdate::Finished(result) => {
                self.finish_activity(result);
                true
            },
        }
    }

    /// The running task finished: another one can be started.
    pub fn finish_activity(&mut self, result: RecentResult)
        ensures
            final(self)@ == old(self)@.finished(result@),
    {
        self.running = None;
        self.record_result(result);
    }
}

/// Law: tasks run one at a time. While one runs, another is not started and
/// what is shown of the first stays; once it has finished, the selected one can
/// be.
pub proof fn tasks_run_one_at_a_time(h: HomeView, result: ResultView)
    requires
        h.selected < h.actions.len(),
    ensures
        h.running is Some ==> h.begun(true) == h,
        h.begun(true).running is Some,
        h.begun(true).begun(true) == h.begun(true),
        h.finished(result).startable(true),
        h.finished(result).recent == recorded(h.recent, result),
        h.finished(result).logs == h.logs,
{
}

/// Drops the results of a task.
fn drop_task(recent: &mut Vec<RecentResult>, task: &str)
    ensures
        views(final(recent)@) == views(old(recent)@).filter(other_task(task@)),
{
    let ghost all = views(recent@);
    let ghost p = other_task(task@);
    let n: usize = recent.len();
    let mut seen: usize = 0;
    let mut at: usize = 0;
    proof {
        reveal(Seq::filter);
        assert(views(recent@) =~= all.take(0).filter(p) + all.skip(0));
    }
    while seen < n
        invariant
            at <= seen <= n == all.len(),
            p == other_task(task@),
            at == all.take(seen as int).filter(p).len(),
            views(recent@) == all.take(seen as int).filter(p) + all.skip(seen as int),
        decreases n - seen,
    {
        let ghost kept = all.take(seen as int).filter(p);
        let ghost cur = views(recent@);
        proof {
            reveal(Seq::filter);
            assert(all.take(seen + 1).drop_last() =~= all.take(seen as int));
            assert(all.take(seen + 1).last() == all[seen as int]);
            assert(cur[at as int] == all[seen as int]);
            assert(cur.len() == recent@.len());
            assert(cur[at as int] == recent@[at as int]@);
        }
        if same(recent[at].task.as_str(), task) {
            let _dropped = recent.remove(at);
            assert(views(recent@) =~= cur.remove(at as int));
            assert(views(recent@) =~= kept + all.skip(seen + 1));
        } else {
            at = at + 1;
            assert(kept.push(all[seen as int]) + all.skip(seen + 1) =~= kept + all.skip(
                seen as int,
            ));
        }
        seen = seen + 1;
    }
    assert(all.take(n as int) =~= all);
    assert(views(recent@) =~= all.filter(p));
}

/// Law: moving through the actions goes round and stays on an action, and each
/// direction undoes the other.
pub proof fn action_moves_go_round(h: HomeView)
    requires
        h.selected < h.actions.len(),
        h.actions.len() <= usize::MAX,
    ensures
        h.next().selected < h.actions.len(),
        h.previous().selected < h.actions.len(),
        h.next().previous() == h,
        h.previous().next() == h,
{
    let n = h.actions.len() as int;
    let i = h.selected as int;
    assert((i + 1) % n == if i + 1 < n {
        i + 1
    } else {
        0
    }) by (nonlinear_arith)
        requires
            0 <= i < n,
    ;
    assert((i + n - 1) % n == if i > 0 {
        i - 1
    } else {
        n - 1
    }) by (nonlinear_arith)
        requires
            0 <= i < n,
    ;
    assert((i + 1 + n - 1) % n == i) by (nonlinear_arith)
        requires
            0 <= i < n,
    ;
    assert((0 + n - 1) % n == n - 1) by (nonlinear_arith)
        requires
            0 < n,
    ;
    assert((n - 1 + 1) % n == 0) by (nonlinear_arith)
        requires
            0 < n,
    ;
    assert(i > 0 ==> (i - 1 + 1) % n == i) by (nonlinear_arith)
        requires
            0 <= i < n,
    ;
}

/// No task has two results.
pub open spec fn one_per_task(recent: Seq<ResultView>) -> bool {
    forall|i: int, j: int|
        0 <= i < j < recent.len() ==> (#[trigger] recent[i]).task != (#[trigger] recent[j]).task
}

/// What a filter leaves stood in the list, in the same order.
proof fn filter_from<A>(s: Seq<A>, p: spec_fn(A) -> bool) -> (at: Seq<int>)
    ensures
        at.len() == s.filter(p).len(),
        forall|i: int|
            0 <= i < at.len() ==> 0 <= #[trigger] at[i] < s.len() && s[at[i]] == s.filter(p)[i]
                && p(s.filter(p)[i]),
        forall|i: int, j: int| 0 <= i < j < at.len() ==> at[i] < at[j],
    decreases s.len(),
{
    reveal(Seq::filter);
    if s.len() == 0 {
        Seq::empty()
    } else {
        let t = s.drop_last();
        let before = filter_from(t, p);
        if p(s.last()) {
            before.push(s.len() - 1)
        } else {
            before
        }
    }
}

/// Law: recording a result keeps one result per task, at most five, the newest
/// last; results of other tasks keep their order.
pub proof fn recording_keeps_the_latest(recent: Seq<ResultView>, result: ResultView)
    requires
        one_per_task(recent),
        recent.len() <= 5,
    ensures
        one_per_task(recorded(recent, result)),
        1 <= recorded(recent, result).len() <= 5,
        recorded(recent, result).last() == result,
{
    let kept = recent.filter(other_task(result.task));
    let at = filter_from(recent, other_task(result.task));
    assert(kept.len() <= 5) by {
        recent.lemma_filter_len(other_task(result.task));
    }
    let all = kept.push(result);
    assert forall|i: int, j: int| 0 <= i < j < all.len() implies (#[trigger] all[i]).task != (
    #[trigger] all[j]).task by {
        if j < kept.len() {
            assert(kept[i] == recent[at[i]]);
            assert(kept[j] == recent[at[j]]);
        } else {
            assert(other_task(result.task)(kept[i]));
        }
    }
    if all.len() > 5 {
        assert forall|i: int, j: int| 0 <= i < j < all.skip(1).len() implies (#[trigger] all.skip(
            1,
        )[i]).task != (#[trigger] all.skip(1)[j]).task by {
            assert(all.skip(1)[i] == all[i + 1]);
            assert(all.skip(1)[j] == all[j + 1]);
        }
    }
}

} // verus!
