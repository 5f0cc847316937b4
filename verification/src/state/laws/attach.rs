//! Attaching: what a daemon's first message, its goodbye and the worktrees found
//! on disk do to the rows.
use std::time::Instant;

use vstd::prelude::*;

use crate::codec::payload_text;
use crate::lists::{first_index_at, first_index_is_least, first_index_none};
use crate::protocol::{InfoView, MessageView, ServiceView, StepState, StepView};
use crate::state::ingest::{step_named, with_id};
use crate::state::logs::{logs_after, scroll_after};
use crate::state::nav::{attached, id_of};
use crate::state::{InstanceView, SharedView, StacksView, TuiView};

use super::reports::{first_row, from_shared, shared_sources, sources};

verus! {

/// No row has this id.
pub open spec fn no_row(rows: Seq<InstanceView>, id: Seq<char>) -> bool {
    forall|j: int| 0 <= j < rows.len() ==> (#[trigger] rows[j]).info.id != id
}

proof fn none_found(s: StacksView, id: Seq<char>)
    requires
        no_row(s.instances, id),
    ensures
        s.find(id) is None,
{
    assert forall|j: int| 0 <= j < s.instances.len() implies !with_id(id)(s.instances[j]) by {
        assert(s.instances[j].info.id != id);
    }
    first_index_none(s.instances, with_id(id));
}

proof fn one_found(s: StacksView, id: Seq<char>, i: int)
    requires
        first_row(s.instances, id, i),
    ensures
        s.find(id) == Some(i),
{
    assert forall|j: int| 0 <= j < i implies !with_id(id)(s.instances[j]) by {
        assert(s.instances[j].info.id != id);
    }
    first_index_at(s.instances, with_id(id), i);
}

/// Law: a daemon that introduces itself anew gets a row below the others, with
/// what it reported and nothing else, its first service selected. The selected
/// stack stays the selected one, unless there was none.
pub proof fn new_daemons_get_a_row(
    v: TuiView,
    source: Seq<char>,
    instance: InfoView,
    services: Seq<ServiceView>,
    steps: Seq<StepView>,
    now: Instant,
)
    requires
        !from_shared(source),
        no_row(v.stacks.instances, instance.id),
    ensures
        ({
            let s = v.stacks;
            let after = v.applied(
                source,
                MessageView::Subscribed { instance, services, steps },
                now,
            ).stacks;
            &&& after.instances == s.instances.push(
                InstanceView {
                    info: instance,
                    services,
                    steps,
                    selected_service: if services.len() > 0 {
                        Some(0)
                    } else {
                        None
                    },
                    logs: Map::empty(),
                    log_scroll: Map::empty(),
                    git_ahead_behind: None,
                },
            )
            &&& after.selected_instance == if s.selected_instance is Some {
                s.selected_instance
            } else {
                Some(s.instances.len() as usize)
            }
            &&& after.had_live_daemon
            &&& after.shared == s.shared && after.shared_selected == s.shared_selected
        }),
{
    shared_sources(source);
    none_found(v.stacks, instance.id);
    let after = v.stacks.subscribed(instance, services, steps);
    let row = InstanceView {
        info: instance,
        services,
        steps,
        selected_service: if services.len() > 0 {
            Some(0)
        } else {
            None
        },
        logs: Map::empty(),
        log_scroll: Map::empty(),
        git_ahead_behind: None,
    };
    assert(after.instances =~= v.stacks.instances.push(row));
}

/// Law: a daemon that is known keeps its row, in its place, with its logs, its
/// offsets and its selected service; what it reports replaces what it had
/// reported. Where it had no service selected, its first one is.
pub proof fn known_daemons_keep_their_row(
    v: TuiView,
    source: Seq<char>,
    instance: InfoView,
    services: Seq<ServiceView>,
    steps: Seq<StepView>,
    now: Instant,
    i: int,
)
    requires
        !from_shared(source),
        first_row(v.stacks.instances, instance.id, i),
    ensures
        ({
            let s = v.stacks;
            let was = s.instances[i];
            let after = v.applied(
                source,
                MessageView::Subscribed { instance, services, steps },
                now,
            ).stacks;
            &&& after.instances == s.instances.update(
                i,
                InstanceView {
                    info: instance,
                    services,
                    steps,
                    selected_service: if was.selected_service is Some || services.len() == 0 {
                        was.selected_service
                    } else {
                        Some(0)
                    },
                    ..was
                },
            )
            &&& after.selected_instance == s.selected_instance
            &&& after.had_live_daemon
            &&& after.shared == s.shared && after.shared_selected == s.shared_selected
        }),
{
    shared_sources(source);
    one_found(v.stacks, instance.id, i);
    let s = v.stacks;
    let after = s.subscribed(instance, services, steps);
    let was = s.instances[i];
    assert(after.instances =~= s.instances.update(
        i,
        InstanceView {
            info: instance,
            services,
            steps,
            selected_service: if was.selected_service is Some || services.len() == 0 {
                was.selected_service
            } else {
                Some(0)
            },
            ..was
        },
    ));
}

/// Law: the shared daemon's services replace those it had reported; its logs and
/// offsets stay, and no stack changes.
pub proof fn the_shared_daemon_keeps_its_logs(
    v: TuiView,
    source: Seq<char>,
    instance: InfoView,
    services: Seq<ServiceView>,
    steps: Seq<StepView>,
    now: Instant,
)
    requires
        from_shared(source),
    ensures
        ({
            let s = v.stacks;
            let after = v.applied(
                source,
                MessageView::Subscribed { instance, services, steps },
                now,
            ).stacks;
            &&& after == StacksView {
                shared: SharedView {
                    id: Some(instance.id),
                    services,
                    selected_service: if s.shared.selected_service is Some || services.len() == 0 {
                        s.shared.selected_service
                    } else {
                        Some(0)
                    },
                    ..s.shared
                },
                ..s
            }
        }),
{
    shared_sources(source);
}

/// Law: a daemon that says goodbye loses its row, and the rows above and below
/// close up. The selection stays at its place, or moves to the last row where
/// that place is gone, and there is none without rows.
pub proof fn a_goodbye_closes_the_gap(
    v: TuiView,
    source: Seq<char>,
    reason: Seq<char>,
    now: Instant,
    i: int,
)
    requires
        !from_shared(source),
        first_row(v.stacks.instances, source, i),
    ensures
        ({
            let s = v.stacks;
            let after = v.applied(source, MessageView::Goodbye { reason }, now).stacks;
            let left = s.instances.len() - 1;
            &&& after.instances == s.instances.take(i) + s.instances.skip(i + 1)
            &&& after.shared == s.shared && after.shared_selected == s.shared_selected
            &&& after.had_live_daemon == s.had_live_daemon
            &&& left == 0 ==> after.selected_instance is None
            &&& left > 0 ==> match s.selected_instance {
                None => after.selected_instance is None,
                Some(at) => after.selected_instance == Some(
                    if at < left {
                        at
                    } else {
                        (left - 1) as usize
                    },
                ),
            }
        }),
{
    shared_sources(source);
    one_found(v.stacks, source, i);
    let s = v.stacks;
    assert(s.instances.remove(i) =~= s.instances.take(i) + s.instances.skip(i + 1));
}

/// Law: when the shared daemon says goodbye, nothing shared is left: no services,
/// no logs and no selection. No stack changes.
pub proof fn nothing_shared_outlives_its_daemon(
    v: TuiView,
    source: Seq<char>,
    reason: Seq<char>,
    now: Instant,
)
    requires
        from_shared(source),
    ensures
        ({
            let after = v.applied(source, MessageView::Goodbye { reason }, now).stacks;
            &&& after.shared.id is None
            &&& after.shared.services.len() == 0
            &&& after.shared.selected_service is None
            &&& after.shared.logs == Map::<Seq<char>, Seq<Seq<char>>>::empty()
            &&& after.shared.log_scroll == Map::<Seq<char>, usize>::empty()
            &&& after.instances == v.stacks.instances
            &&& after.selected_instance == v.stacks.selected_instance
        }),
{
    shared_sources(source);
}

/// Law: a report on a dependency check changes the state of the first check of
/// that name in the daemon's row, and nothing else.
pub proof fn checks_are_updated_by_name(
    v: TuiView,
    source: Seq<char>,
    step: Seq<char>,
    state: StepState,
    now: Instant,
    i: int,
    k: int,
)
    requires
        !from_shared(source),
        first_row(v.stacks.instances, source, i),
        0 <= k < v.stacks.instances[i].steps.len(),
        v.stacks.instances[i].steps[k].name == step,
        forall|j: int| 0 <= j < k ==> (#[trigger] v.stacks.instances[i].steps[j]).name != step,
    ensures
        ({
            let s = v.stacks;
            let row = s.instances[i];
            v.applied(source, MessageView::StepStatusUpdate { step, state }, now) == (TuiView {
                stacks: StacksView {
                    instances: s.instances.update(
                        i,
                        InstanceView {
                            steps: row.steps.update(k, StepView { name: step, state }),
                            ..row
                        },
                    ),
                    ..s
                },
                ..v
            })
        }),
{
    shared_sources(source);
    one_found(v.stacks, source, i);
    let steps = v.stacks.instances[i].steps;
    assert forall|j: int| 0 <= j < k implies !step_named(step)(steps[j]) by {
        assert(steps[j].name != step);
    }
    first_index_at(steps, step_named(step), k);
}

/// Law: output goes to the row of the daemon that sent it, and to no other: into
/// the log of the service it names. Output that is no text is dropped.
pub proof fn output_goes_to_its_row(
    v: TuiView,
    source: Seq<char>,
    service: Seq<char>,
    bytes: Seq<char>,
    ts: u64,
    now: Instant,
    i: int,
)
    requires
        !from_shared(source) ==> first_row(v.stacks.instances, source, i),
    ensures
        ({
            let s = v.stacks;
            let after = v.applied(source, MessageView::LogChunk { service, bytes, ts }, now);
            match payload_text(bytes) {
                None => after.stacks.instances == s.instances && after.stacks.shared == s.shared,
                Some(text) => if from_shared(source) {
                    after.stacks == (StacksView {
                        shared: SharedView {
                            logs: logs_after(s.shared.logs, service, text),
                            log_scroll: scroll_after(
                                s.shared.logs,
                                s.shared.log_scroll,
                                service,
                                text,
                            ),
                            ..s.shared
                        },
                        ..s
                    })
                } else {
                    let row = s.instances[i];
                    after.stacks == (StacksView {
                        instances: s.instances.update(
                            i,
                            InstanceView {
                                logs: logs_after(row.logs, service, text),
                                log_scroll: scroll_after(row.logs, row.log_scroll, service, text),
                                ..row
                            },
                        ),
                        ..s
                    })
                },
            }
        }),
{
    sources(v.stacks, source, i);
    if !from_shared(source) {
        assert(v.stacks.instances.update(i, v.stacks.instances[i]) =~= v.stacks.instances);
    }
}

/// Law: a worktree that was found gets an empty row below the others, unless a
/// row has its id; and the first row is selected where none was.
pub proof fn worktrees_get_a_row_once(s: StacksView, info: InfoView)
    ensures
        no_row(s.instances, info.id) ==> s.with_placeholder(info).instances == s.instances.push(
            InstanceView::fresh(info),
        ) && s.with_placeholder(info).selected_instance == if s.selected_instance is Some {
            s.selected_instance
        } else {
            Some(0)
        },
        !no_row(s.instances, info.id) ==> s.with_placeholder(info) == s,
        s.with_placeholder(info).with_placeholder(info) == s.with_placeholder(info),
        !no_row(s.with_placeholder(info).instances, info.id),
{
    let after = s.with_placeholder(info);
    if no_row(s.instances, info.id) {
        none_found(s, info.id);
        assert(after.instances[s.instances.len() as int].info.id == info.id);
        found_somewhere(after, info.id, s.instances.len() as int);
    } else {
        let j = choose|j: int|
            0 <= j < s.instances.len() && (#[trigger] s.instances[j]).info.id == info.id;
        found_somewhere(s, info.id, j);
    }
}

proof fn found_somewhere(s: StacksView, id: Seq<char>, j: int)
    requires
        0 <= j < s.instances.len(),
        s.instances[j].info.id == id,
    ensures
        s.find(id) is Some,
{
    first_index_is_least(s.instances, with_id(id));
    assert(with_id(id)(s.instances[j]));
}

/// Law: what git says of a worktree is shown in its row: the branch is its label,
/// and how far it is ahead and behind. Where git names no branch the label
/// stays, and a distance that is known stays until a new one comes.
pub proof fn git_news_reach_the_row(
    s: StacksView,
    id: Seq<char>,
    branch: Option<Seq<char>>,
    counts: Option<(usize, usize)>,
    i: int,
)
    requires
        first_row(s.instances, id, i),
    ensures
        ({
            let was = s.instances[i];
            let after = s.git_refreshed(id, branch, counts);
            let row = after.instances[i];
            &&& row.info.label == if branch is Some {
                branch->0
            } else {
                was.info.label
            }
            &&& row.git_ahead_behind == if branch is Some || counts is Some {
                counts
            } else {
                was.git_ahead_behind
            }
            &&& row.info.id == id && row.info.cwd == was.info.cwd
            &&& row.services == was.services && row.steps == was.steps && row.logs == was.logs
            &&& row.selected_service == was.selected_service && row.log_scroll == was.log_scroll
            &&& after.instances == s.instances.update(i, row)
            &&& after.selected_instance == s.selected_instance && after.shared == s.shared
        }),
{
    one_found(s, id, i);
}

/// Law: the daemons that are attached are those of the rows with services, in
/// their order, and last the shared one where it has services.
pub proof fn attached_daemons_have_services(s: StacksView, id: Seq<char>)
    ensures
        s.attached_ids().contains(id) <==> (exists|i: int|
            0 <= i < s.instances.len() && (#[trigger] s.instances[i]).services.len() > 0
                && s.instances[i].info.id == id) || (s.shared.services.len() > 0 && s.shared.id
            == Some(id)),
{
    let rows = s.instances.filter(attached());
    let ids = rows.map_values(id_of());
    let all = s.attached_ids();
    attached_rows(s.instances);
    if exists|i: int|
        0 <= i < s.instances.len() && (#[trigger] s.instances[i]).services.len() > 0
            && s.instances[i].info.id == id {
        let i = choose|i: int|
            0 <= i < s.instances.len() && (#[trigger] s.instances[i]).services.len() > 0
                && s.instances[i].info.id == id;
        assert(s.instances.contains(s.instances[i]));
        assert(rows.contains(s.instances[i]));
        let j = choose|j: int| 0 <= j < rows.len() && rows[j] == s.instances[i];
        assert(ids[j] == id);
        assert(all[j] == id);
    }
    if s.shared.services.len() > 0 && s.shared.id == Some(id) {
        assert(all[all.len() - 1] == id);
    }
    if all.contains(id) {
        let j = choose|j: int| 0 <= j < all.len() && all[j] == id;
        if j < ids.len() {
            assert(rows.contains(rows[j]));
            let i = choose|i: int| 0 <= i < s.instances.len() && s.instances[i] == rows[j];
            assert(s.instances[i].info.id == id);
        }
    }
}

proof fn attached_rows(rows: Seq<InstanceView>)
    ensures
        forall|r: InstanceView| #[trigger]
            rows.filter(attached()).contains(r) <==> rows.contains(r) && r.services.len() > 0,
    decreases rows.len(),
{
    reveal(Seq::filter);
    if rows.len() > 0 {
        let rest = rows.drop_last();
        attached_rows(rest);
        let before = rest.filter(attached());
        let after = rows.filter(attached());
        assert forall|r: InstanceView| #[trigger] after.contains(r) <==> rows.contains(r)
            && r.services.len() > 0 by {
            assert(before.contains(r) <==> rest.contains(r) && r.services.len() > 0);
            if after.contains(r) {
                let i = choose|i: int| 0 <= i < after.len() && after[i] == r;
                if i < before.len() {
                    assert(before[i] == r);
                    let j = choose|j: int| 0 <= j < rest.len() && rest[j] == r;
                    assert(rows[j] == r);
                } else {
                    assert(rows[rows.len() - 1] == r);
                }
            }
            if rows.contains(r) && r.services.len() > 0 {
                let j = choose|j: int| 0 <= j < rows.len() && rows[j] == r;
                if j < rest.len() {
                    assert(rest[j] == r);
                    let i = choose|i: int| 0 <= i < before.len() && before[i] == r;
                    assert(after[i] == r);
                } else {
                    assert(after[after.len() - 1] == r);
                }
            }
        }
    }
}

/// Law: the stacks count as shut down exactly once a daemon was there and no row
/// has anything reported for it any more.
pub proof fn shut_down_means_all_rows_are_empty(s: StacksView)
    ensures
        s.all_shut_down() <==> s.had_live_daemon && forall|i: int|
            0 <= i < s.instances.len() ==> (#[trigger] s.instances[i]).services.len() == 0
                && s.instances[i].steps.len() == 0,
{
    assert forall|i: int| 0 <= i < s.instances.len() implies (#[trigger] s.instances[i]).vacant()
        == (s.instances[i].services.len() == 0 && s.instances[i].steps.len() == 0) by {}
}

/// Law: a message without a known sender is taken to come from the selected stack,
/// and an introduction from the daemon that it introduces.
pub proof fn senders_are_presumed(s: StacksView, msg: MessageView, row: InstanceView, at: usize)
    requires
        s.selected_instance == Some(at),
        at < s.instances.len(),
        s.instances[at as int] == row,
    ensures
        msg matches MessageView::Subscribed { instance, .. } ==> s.presumed_source(msg)
            == instance.id,
        !(msg is Subscribed) ==> s.presumed_source(msg) == row.info.id,
{
}

} // verus!
