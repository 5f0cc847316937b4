//! Task activity: the records that running tasks leave on disk, which of the
//! files under the runtime directory are such records, and their order.
use vstd::prelude::*;

use crate::lists::{first_index, first_index_at, first_index_none, views};
use crate::text::{
    before, ends, ends_with, has_extension, is_extension, precedes, precedes_total,
    precedes_transitive,
};

verus! {

/// A record of one run of a task.
#[derive(Debug, PartialEq, Eq)]
pub struct TaskActivity {
    pub run_id: String,
    pub instance_id: String,
    pub cwd: String,
    pub task: String,
    pub message: String,
    pub started_at: u64,
}

#[verifier::ext_equal]
pub ghost struct ActivityView {
    pub run_id: Seq<char>,
    pub instance_id: Seq<char>,
    pub cwd: Seq<char>,
    pub task: Seq<char>,
    pub message: Seq<char>,
    pub started_at: u64,
}

impl View for TaskActivity {
    type V = ActivityView;

    open spec fn view(&self) -> ActivityView {
        ActivityView {
            run_id: self.run_id@,
            instance_id: self.instance_id@,
            cwd: self.cwd@,
            task: self.task@,
            message: self.message@,
            started_at: self.started_at,
        }
    }
}

/// A record as it was observed: on the first scan or as news.
#[derive(Debug, PartialEq, Eq)]
pub struct ObservedActivity {
    pub activity: TaskActivity,
    pub initial: bool,
}

/// The records of an instance stand in a directory with this name.
pub open spec fn activity_dir(name: Seq<char>) -> bool {
    ends_with(name, "-task-activity"@)
}

/// Whether a directory of this name holds task activity records.
pub fn is_activity_dir(name: &str) -> (r: bool)
    ensures
        r == activity_dir(name@),
{
    ends(name, "-task-activity")
}

/// Whether a changed file is a task activity record: a `.json` file in a
/// directory of such records.
pub fn is_activity_file(file_name: &str, parent_name: Option<&str>) -> (r: bool)
    ensures
        r == (has_extension(file_name@, "json"@) && match parent_name {
            Some(p) => activity_dir(p@),
            None => false,
        }),
{
    if !is_extension(file_name, "json") {
        return false;
    }
    match parent_name {
        Some(p) => is_activity_dir(p),
        None => false,
    }
}

/// One record comes before another: by its start, then by its run.
pub open spec fn ran_before(a: ActivityView, b: ActivityView) -> bool {
    a.started_at < b.started_at || (a.started_at == b.started_at && precedes(a.run_id, b.run_id))
}

/// The records that come after one.
pub open spec fn ran_after(x: ActivityView) -> spec_fn(ActivityView) -> bool {
    |y: ActivityView| ran_before(x, y)
}

/// A list with a record put before the first that comes after it.
pub open spec fn placed(s: Seq<ActivityView>, x: ActivityView) -> Seq<ActivityView> {
    match first_index(s, ran_after(x)) {
        Some(k) => s.insert(k, x),
        None => s.push(x),
    }
}

/// A list in order; records that tie keep their order.
pub open spec fn in_order(s: Seq<ActivityView>) -> Seq<ActivityView>
    decreases s.len(),
{
    if s.len() == 0 {
        s
    } else {
        placed(in_order(s.drop_last()), s.last())
    }
}

/// No record stands before one that ran earlier.
pub open spec fn ordered(s: Seq<ActivityView>) -> bool {
    forall|i: int, j: int|
        0 <= i < j < s.len() ==> !ran_before(#[trigger] s[j], #[trigger] s[i])
}

proof fn ran_before_transitive(a: ActivityView, b: ActivityView, c: ActivityView)
    requires
        ran_before(a, b),
        ran_before(b, c),
    ensures
        ran_before(a, c),
{
    if a.started_at == b.started_at && b.started_at == c.started_at {
        precedes_transitive(a.run_id, b.run_id, c.run_id);
    }
}

proof fn placed_keeps_order(s: Seq<ActivityView>, x: ActivityView)
    requires
        ordered(s),
    ensures
        ordered(placed(s, x)),
        placed(s, x).to_multiset() == s.push(x).to_multiset(),
{
    broadcast use vstd::seq_lib::group_to_multiset_ensures;

    crate::lists::first_index_is_least(s, ran_after(x));
    let t = placed(s, x);
    let k = match first_index(s, ran_after(x)) {
        Some(k) => k,
        None => s.len() as int,
    };
    assert(t =~= s.insert(k, x));
    assert forall|i: int, j: int| 0 <= i < j < t.len() implies !ran_before(
        #[trigger] t[j],
        #[trigger] t[i],
    ) by {
        if i == k {
            let y = s[j - 1];
            assert(t[j] == y);
            if ran_before(y, x) {
                if j - 1 == k {
                    precedes_total(x.run_id, y.run_id);
                } else {
                    ran_before_transitive(y, x, s[k]);
                    assert(!ran_before(s[j - 1], s[k]));
                }
            }
        } else if j == k {
            assert(t[i] == s[i]);
            assert(!ran_after(x)(s[i]));
        } else {
            let i0 = if i < k { i } else { i - 1 };
            let j0 = if j < k { j } else { j - 1 };
            assert(t[i] == s[i0]);
            assert(t[j] == s[j0]);
        }
    }
    assert(t.to_multiset() =~= s.push(x).to_multiset());
}

/// Law: records are ordered by when their tasks started, and those that started
/// together by their ids.
pub proof fn earlier_tasks_come_first(a: ActivityView, b: ActivityView)
    ensures
        a.started_at < b.started_at ==> ran_before(a, b) && !ran_before(b, a),
        a.started_at == b.started_at ==> ran_before(a, b) == precedes(a.run_id, b.run_id),
{
}

/// Law: a directory of task records is one whose name ends like this.
pub proof fn record_directories_end_alike(name: Seq<char>)
    ensures
        activity_dir(name + "-task-activity"@),
        activity_dir(name) ==> name.len() >= 14 && name.skip(name.len() - 14)
            == "-task-activity"@,
{
    reveal_strlit("-task-activity");
    let whole = name + "-task-activity"@;
    assert(whole.subrange(whole.len() - 14, whole.len() as int) =~= "-task-activity"@);
    if activity_dir(name) {
        assert(name.skip(name.len() - 14) =~= name.subrange(name.len() - 14, name.len() as int));
    }
}

/// Law: putting records in order loses none, adds none, and leaves no record
/// before one that ran earlier.
pub proof fn scan_is_ordered(s: Seq<ActivityView>)
    ensures
        ordered(in_order(s)),
        in_order(s).to_multiset() == s.to_multiset(),
    decreases s.len(),
{
    broadcast use vstd::seq_lib::group_to_multiset_ensures;

    if s.len() > 0 {
        scan_is_ordered(s.drop_last());
        placed_keeps_order(in_order(s.drop_last()), s.last());
        assert(s.drop_last().push(s.last()) =~= s);
        assert(in_order(s.drop_last()).push(s.last()).to_multiset() =~= s.to_multiset());
    }
}

fn place(list: &mut Vec<TaskActivity>, x: TaskActivity)
    ensures
        views(final(list)@) == placed(views(old(list)@), x@),
{
    let ghost s = views(list@);
    let ghost v = x@;
    let ghost p = ran_after(v);
    let mut k: usize = 0;
    while k < list.len()
        invariant
            k <= list.len(),
            s == views(list@),
            s == views(old(list)@),
            v == x@,
            p == ran_after(v),
            forall|j: int| 0 <= j < k ==> !p(s[j]),
        decreases list.len() - k,
    {
        assert(s[k as int] == list@[k as int]@);
        let later = x.started_at < list[k].started_at || (x.started_at == list[k].started_at
            && before(x.run_id.as_str(), list[k].run_id.as_str()));
        if later {
            proof {
                first_index_at(s, p, k as int);
            }
            list.insert(k, x);
            assert(views(list@) =~= s.insert(k as int, v));
            return;
        }
        k = k + 1;
    }
    proof {
        first_index_none(s, p);
    }
    list.push(x);
    assert(views(list@) =~= s.push(v));
}

/// The records of a scan, in the order in which their tasks started.
pub fn scan(found: Vec<TaskActivity>) -> (r: Vec<TaskActivity>)
    ensures
        views(r@) == in_order(views(found@)),
{
    let ghost all = views(found@);
    let mut rest = found;
    let mut r: Vec<TaskActivity> = Vec::new();
    let ghost mut n: int = 0;
    assert(views(r@) =~= in_order(all.take(0)));
    assert(views(rest@) =~= all.skip(0));
    while rest.len() > 0
        invariant
            0 <= n <= all.len(),
            views(rest@) == all.skip(n),
            rest@.len() == all.len() - n,
            views(r@) == in_order(all.take(n)),
        decreases rest.len(),
    {
        let ghost was = views(rest@);
        let x = rest.remove(0);
        proof {
            assert(was[0] == x@);
            assert(all.take(n + 1).drop_last() =~= all.take(n));
            assert(all.take(n + 1).last() == x@);
            assert(views(rest@) =~= was.remove(0));
            assert(views(rest@) =~= all.skip(n + 1));
            n = n + 1;
        }
        place(&mut r, x);
    }
    assert(all.take(n) =~= all);
    r
}

} // verus!
