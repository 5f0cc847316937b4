//! Rows and tabs: what the daemons' reports keep, and how the selection moves.
use std::time::Instant;

use vstd::prelude::*;

use crate::lists::{first_index, first_index_at, first_index_is_least};
use crate::protocol::{InfoView, MessageView, ServiceView, StateView, StepView};
use crate::state::ingest::{known_port, reported, shared_id, step_named, with_id, with_name};
use crate::state::tabs::{named_in, not_among, owned, service_tabs};
use crate::state::{SharedView, StacksView, TabKind, TuiView};

verus! {

/// No two rows have the same id.
pub open spec fn one_row_per_id(s: StacksView) -> bool {
    forall|i: int, j: int|
        0 <= i < j < s.instances.len() ==> (#[trigger] s.instances[i]).info.id != (
        #[trigger] s.instances[j]).info.id
}

/// The selected row exists, and one is selected wherever there are rows.
pub open spec fn selection_in_range(s: StacksView) -> bool {
    match s.selected_instance {
        Some(i) => i < s.instances.len(),
        None => s.instances.len() == 0,
    }
}

/// Law: a daemon has one row, whatever the daemons report and whichever
/// worktrees are found.
pub proof fn rows_stay_distinct(
    s: StacksView,
    source: Seq<char>,
    msg: MessageView,
    info: InfoView,
    branch: Option<Seq<char>>,
    counts: Option<(usize, usize)>,
)
    requires
        one_row_per_id(s),
    ensures
        one_row_per_id(s.absorbed(source, msg)),
        one_row_per_id(s.with_placeholder(info)),
        one_row_per_id(s.git_refreshed(source, branch, counts)),
{
    first_index_is_least(s.instances, with_id(source));
    first_index_is_least(s.instances, with_id(info.id));
    match msg {
        MessageView::Subscribed { instance, .. } => {
            first_index_is_least(s.instances, with_id(instance.id));
        },
        _ => {},
    }
}

/// Law: the selection stays on a row, whatever the daemons report, whichever
/// worktrees are found, and however the user moves.
pub proof fn selection_stays_in_range(
    s: StacksView,
    source: Seq<char>,
    msg: MessageView,
    info: InfoView,
)
    requires
        selection_in_range(s),
        s.instances.len() < usize::MAX,
    ensures
        selection_in_range(s.absorbed(source, msg)),
        selection_in_range(s.with_placeholder(info)),
        selection_in_range(s.next_instance()),
        selection_in_range(s.prev_instance()),
{
    first_index_is_least(s.instances, with_id(source));
    match msg {
        MessageView::Subscribed { instance, .. } => {
            first_index_is_least(s.instances, with_id(instance.id));
        },
        _ => {},
    }
}

/// Law: after its goodbye a daemon has no row, and the other rows are as they
/// were. The goodbye of the shared daemon leaves the instances alone.
pub proof fn goodbye_removes_the_row(s: StacksView, source: Seq<char>, reason: Seq<char>)
    requires
        one_row_per_id(s),
    ensures
        ({
            let after = s.absorbed(source, MessageView::Goodbye { reason });
            if shared_id(source) {
                after.instances == s.instances && after.shared == SharedView::absent()
            } else {
                &&& after.find(source) is None
                &&& after.shared == s.shared
                &&& forall|id: Seq<char>|
                    #![trigger after.find(id)]
                    id != source && s.find(id) is Some ==> after.find(id) is Some
                        && after.instances[after.find(id)->0] == s.instances[s.find(id)->0]
            }
        }),
{
    let after = s.absorbed(source, MessageView::Goodbye { reason });
    if !shared_id(source) {
        first_index_is_least(s.instances, with_id(source));
        first_index_is_least(after.instances, with_id(source));
        assert forall|id: Seq<char>| id != source && s.find(id) is Some implies {
            &&& #[trigger] after.find(id) is Some
            &&& after.instances[after.find(id)->0] == s.instances[s.find(id)->0]
        } by {
            first_index_is_least(s.instances, with_id(id));
            first_index_is_least(after.instances, with_id(id));
            let k = s.find(id)->0;
            match s.find(source) {
                Some(i) => {
                    let there = if k < i {
                        k
                    } else {
                        k - 1
                    };
                    assert(after.instances[there] == s.instances[k]);
                },
                None => {},
            }
        }
    }
}

/// Law: a fresh dashboard never counts as shut down, nor does one that only
/// found worktrees: a daemon of a worktree must have attached.
pub proof fn shutdown_needs_a_daemon(
    s: StacksView,
    source: Seq<char>,
    msg: MessageView,
    info: InfoView,
)
    ensures
        !StacksView::initial().all_shut_down(),
        s.with_placeholder(info).had_live_daemon == s.had_live_daemon,
        s.absorbed(source, msg).had_live_daemon == (s.had_live_daemon || (msg is Subscribed
            && !shared_id(source))),
        s.all_shut_down() ==> s.had_live_daemon,
{
}

/// Law: services that crash or stop, checks that fail and logs never make the
/// dashboard count as shut down; a goodbye does, or a daemon that attaches
/// with nothing to show.
pub proof fn only_a_goodbye_shuts_down(s: StacksView, source: Seq<char>, msg: MessageView)
    requires
        s.had_live_daemon,
        !s.all_shut_down(),
        s.absorbed(source, msg).all_shut_down(),
    ensures
        match msg {
            MessageView::Goodbye { .. } => !shared_id(source),
            MessageView::Subscribed { services, steps, .. } => services.len() == 0 && steps.len()
                == 0,
            _ => false,
        },
{
    let after = s.absorbed(source, msg);
    assert(exists|i: int| 0 <= i < s.instances.len() && !(#[trigger] s.instances[i]).vacant());
    let k = choose|i: int| 0 <= i < s.instances.len() && !(#[trigger] s.instances[i]).vacant();
    first_index_is_least(s.instances, with_id(source));
    match msg {
        MessageView::Subscribed { instance, services, steps } => {
            first_index_is_least(s.instances, with_id(instance.id));
            if !shared_id(source) {
                let i = s.row_for(instance.id);
                assert(after.instances[i].services == services);
                assert(after.instances[i].steps == steps);
                assert(after.instances[i].vacant());
            } else {
                assert(after.instances[k].vacant());
            }
        },
        MessageView::Goodbye { .. } => {
            if shared_id(source) {
                assert(after.instances[k].vacant());
            }
        },
        MessageView::StatusUpdate { service, .. } => {
            match s.find(source) {
                Some(i) => {
                    first_index_is_least(s.instances[i].services, with_name(service));
                },
                None => {},
            }
            assert(after.instances[k].vacant());
        },
        MessageView::StepStatusUpdate { step, .. } => {
            match s.find(source) {
                Some(i) => {
                    first_index_is_least(s.instances[i].steps, step_named(step));
                },
                None => {},
            }
            assert(after.instances[k].vacant());
        },
        _ => {
            assert(after.instances[k].vacant());
        },
    }
}

/// Law: what a service reports is what is known of it next, and a port that is
/// known is not forgotten because a report leaves it out.
pub proof fn reports_are_remembered(
    s: StacksView,
    source: Seq<char>,
    service: Seq<char>,
    state: StateView,
    port: Option<u16>,
)
    requires
        s.last_report(source, service) is Some,
    ensures
        ({
            let was = s.last_report(source, service)->0;
            let now = s.status_updated(source, service, state, port).last_report(source, service);
            &&& now == Some(ServiceView { state, port: known_port(port, was.port), ..was })
            &&& was.port is Some ==> now->0.port is Some
        }),
{
    let after = s.status_updated(source, service, state, port);
    if shared_id(source) {
        renamed_nothing(s.shared.services, service, state, port);
    } else {
        first_index_is_least(s.instances, with_id(source));
        let i = s.find(source)->0;
        renamed_nothing(s.instances[i].services, service, state, port);
        assert forall|j: int| 0 <= j < i implies !with_id(source)(#[trigger] after.instances[j])
            by {
            assert(!with_id(source)(s.instances[j]));
        }
        first_index_at(after.instances, with_id(source), i);
    }
}

proof fn renamed_nothing(
    services: Seq<ServiceView>,
    service: Seq<char>,
    state: StateView,
    port: Option<u16>,
)
    requires
        first_index(services, with_name(service)) is Some,
    ensures
        ({
            let k = first_index(services, with_name(service))->0;
            0 <= k < services.len() && first_index(
                reported(services, k, state, port),
                with_name(service),
            ) == Some(k)
        }),
{
    first_index_is_least(services, with_name(service));
    let k = first_index(services, with_name(service))->0;
    let after = reported(services, k, state, port);
    assert forall|j: int| 0 <= j < k implies !with_name(service)(#[trigger] after[j]) by {
        assert(!with_name(service)(services[j]));
    }
    first_index_at(after, with_name(service), k);
}

/// Law: a report on a service that is not known changes nothing at all.
pub proof fn unknown_services_are_ignored(
    v: TuiView,
    source: Seq<char>,
    service: Seq<char>,
    state: StateView,
    pid: Option<u32>,
    port: Option<u16>,
    restart_count: u32,
    now: Instant,
)
    requires
        v.stacks.last_report(source, service) is None,
    ensures
        v.applied(
            source,
            MessageView::StatusUpdate { service, state, pid, port, restart_count },
            now,
        ) == v,
{
}

/// Law: a daemon that attaches again keeps its row's logs and offsets, and the
/// other rows are left alone.
pub proof fn reattaching_keeps_logs(
    s: StacksView,
    info: InfoView,
    services: Seq<ServiceView>,
    steps: Seq<StepView>,
)
    ensures
        ({
            let after = s.subscribed(info, services, steps);
            let i = s.row_for(info.id);
            &&& after.instances[i].services == services
            &&& after.instances[i].steps == steps
            &&& after.instances[i].info == info
            &&& s.find(info.id) is Some ==> after.instances[i].logs == s.instances[i].logs
                && after.instances[i].log_scroll == s.instances[i].log_scroll
            &&& forall|j: int|
                0 <= j < s.instances.len() && j != i ==> #[trigger] after.instances[j]
                    == s.instances[j]
        }),
{
    first_index_is_least(s.instances, with_id(info.id));
}

/// The row that the sidebar highlights, the shared row standing after the
/// instances.
pub open spec fn highlighted(s: StacksView) -> int {
    if s.shared_selected {
        s.instances.len() as int
    } else {
        match s.selected_instance {
            Some(i) => i as int,
            None => 0,
        }
    }
}

/// How many rows the sidebar has.
pub open spec fn row_count(s: StacksView) -> int {
    s.instances.len() + if s.shared.services.len() > 0 {
        1int
    } else {
        0int
    }
}

/// Law: moving down and up in the sidebar goes round the rows, the shared row
/// between the last instance and the first, and each undoes the other.
pub proof fn stack_moves_go_round(s: StacksView)
    requires
        highlighted(s) < row_count(s),
        !s.shared_selected && s.selected_instance is Some ==> s.selected_instance->0
            < s.instances.len(),
        s.instances.len() < usize::MAX,
    ensures
        highlighted(s.next_instance()) == (highlighted(s) + 1) % row_count(s),
        highlighted(s.prev_instance()) == (highlighted(s) - 1) % row_count(s),
        highlighted(s.next_instance().prev_instance()) == highlighted(s),
        highlighted(s.prev_instance().next_instance()) == highlighted(s),
{
    let h = highlighted(s);
    let n = row_count(s);
    assert((h + 1) % n == if h + 1 < n {
        h + 1
    } else {
        0
    }) by (nonlinear_arith)
        requires
            0 <= h < n,
    ;
    assert((h - 1) % n == if h > 0 {
        h - 1
    } else {
        n - 1
    }) by (nonlinear_arith)
        requires
            0 <= h < n,
    ;
}

/// Law: moving between stacks changes no stack, so each remembers its own tab.
pub proof fn stacks_remember_their_tabs(s: StacksView)
    ensures
        s.next_instance().instances == s.instances,
        s.prev_instance().instances == s.instances,
        s.next_instance().shared == s.shared,
        s.prev_instance().shared == s.shared,
{
}

/// What selecting a tab leaves as it is.
proof fn selecting_keeps_the_tabs(s: StacksView, idx: Option<usize>)
    ensures
        s.with_selected(idx).tabs() == s.tabs(),
        s.with_selected(idx).shared_selected == s.shared_selected,
        s.with_selected(idx).selected_instance == s.selected_instance,
{
    let after = s.with_selected(idx);
    assert(after.shared.services == s.shared.services);
    match s.current() {
        Some(i) => {
            assert(after.current() is Some);
            assert(after.current()->0.services == i.services);
        },
        None => {},
    }
    assert(after.current_owned() == s.current_owned());
    assert(after.has_placeholder_tab() == s.has_placeholder_tab());
    assert(after.current_vacant() == s.current_vacant());
    assert(after.tabs() =~= s.tabs());
}

/// Law: moving right and left goes round the tabs, and each undoes the other.
pub proof fn service_moves_go_round(s: StacksView)
    requires
        s.selected_index() is Some,
        s.selected_index()->0 < s.tabs().len(),
        s.tabs().len() <= usize::MAX,
    ensures
        ({
            let i = s.selected_index()->0 as int;
            let n = s.tabs().len() as int;
            &&& s.next_service().selected_index() == Some(((i + 1) % n) as usize)
            &&& s.prev_service().selected_index() == Some(((i - 1) % n) as usize)
            &&& s.next_service().prev_service().selected_index() == s.selected_index()
            &&& s.prev_service().next_service().selected_index() == s.selected_index()
        }),
{
    let i = s.selected_index()->0 as int;
    let n = s.tabs().len() as int;
    assert((i + 1) % n == if i + 1 < n {
        i + 1
    } else {
        0
    }) by (nonlinear_arith)
        requires
            0 <= i < n,
    ;
    assert((i - 1) % n == if i > 0 {
        i - 1
    } else {
        n - 1
    }) by (nonlinear_arith)
        requires
            0 <= i < n,
    ;
    assert((n - 1 + 1) % n == 0) by (nonlinear_arith)
        requires
            n > 0,
    ;
    let right = Some(((i + 1) % n) as usize);
    let left = Some(((i - 1) % n) as usize);
    selecting_keeps_the_tabs(s, right);
    selecting_keeps_the_tabs(s, left);
    assert(s.next_service() == s.with_selected(right));
    assert(s.prev_service() == s.with_selected(left));
    if i > 0 {
        assert((i - 1 + 1) % n == i) by (nonlinear_arith)
            requires
                0 <= i < n,
        ;
    }
    selecting_keeps_the_tabs(s.next_service(), s.selected_index());
    selecting_keeps_the_tabs(s.prev_service(), s.selected_index());
}

/// Law: no service has two tabs, one as its stack's own and one as shared: an
/// owned tab is of a service that the shared daemon does not report, a shared
/// tab of one that it does.
pub proof fn tabs_are_owned_or_shared(s: StacksView, i: int)
    requires
        0 <= i < s.tabs().len(),
    ensures
        s.tabs()[i].kind == TabKind::Owned ==> !named_in(s.shared.services, s.tabs()[i].label),
        s.tabs()[i].kind == TabKind::Shared ==> named_in(s.shared.services, s.tabs()[i].label),
        s.tabs()[i].kind == TabKind::Placeholder <==> s.tabs()[i].snapshot is None,
        s.tabs()[i].snapshot matches Some(v) ==> v.name == s.tabs()[i].label,
{
    let shared = s.shared.services;
    let own = s.current_owned();
    match s.current() {
        Some(inst) => {
            if !s.shared_selected && !s.has_placeholder_tab() && i < own.len() {
                inst.services.lemma_filter_pred(not_among(shared), i);
                assert(own == owned(inst.services, shared));
            }
        },
        None => {},
    }
    let from = if s.shared_selected {
        0
    } else if s.has_placeholder_tab() {
        1
    } else {
        own.len() as int
    };
    if i >= from {
        assert(service_tabs(shared, TabKind::Shared)[i - from].label == shared[i - from].name);
        assert(named_in(shared, shared[i - from].name));
    }
}

/// Law: commands on a shared tab go to the shared daemon, and commands on an
/// owned tab to the daemon of the selected stack.
pub proof fn commands_go_to_the_owner(s: StacksView)
    requires
        s.selected() is Some,
    ensures
        ({
            let tab = s.tabs()[s.selected_index()->0 as int];
            &&& tab.kind == TabKind::Shared ==> s.command_target() == match s.shared.id {
                Some(id) => Some((id, tab.label)),
                None => None,
            }
            &&& tab.kind == TabKind::Owned ==> s.current() is Some && s.command_target() == Some(
                (s.current()->0.info.id, tab.label),
            )
        }),
{
    tabs_are_owned_or_shared(s, s.selected_index()->0 as int);
}

} // verus!
