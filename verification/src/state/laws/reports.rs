//! Status reports: what a daemon's report on a service changes, what is
//! announced of it, and when the port it wanted is looked into.
use std::time::Instant;

use vstd::prelude::*;

use crate::lists::first_index_at;
use crate::protocol::{MessageView, ServiceView, StateView};
use crate::state::conflict::{mentions_addr_in_use, shows_addr_in_use};
use crate::state::ingest::{shared_id, with_id, with_name};
use crate::state::{
    InstanceView, ModalsView, SharedView, StacksView, ToastKind, ToastView, TuiView,
};
use crate::text::{lower_char, lowered, occurs_at, signed_decimal};

use super::health::{answers, gave_up};

verus! {

/// Messages from a source whose id starts like this come from the shared
/// daemon.
pub open spec fn from_shared(source: Seq<char>) -> bool {
    source.len() >= 8 && source.take(8) == seq!['s', 'h', 'a', 'r', 'e', 'd', ':', ':']
}

/// `k` is the first of `services` with this name.
pub open spec fn first_named(services: Seq<ServiceView>, service: Seq<char>, k: int) -> bool {
    &&& 0 <= k < services.len()
    &&& services[k].name == service
    &&& forall|j: int| 0 <= j < k ==> (#[trigger] services[j]).name != service
}

/// `i` is the first row with this id.
pub open spec fn first_row(rows: Seq<InstanceView>, id: Seq<char>, i: int) -> bool {
    &&& 0 <= i < rows.len()
    &&& rows[i].info.id == id
    &&& forall|j: int| 0 <= j < i ==> (#[trigger] rows[j]).info.id != id
}

/// What the dashboard holds on `service`, which `source` reports: for the
/// shared daemon the shared service of that name, for another the service of
/// that name in its row, which is at `i`.
pub open spec fn held(
    v: StacksView,
    source: Seq<char>,
    service: Seq<char>,
    i: int,
    k: int,
    was: ServiceView,
) -> bool {
    if from_shared(source) {
        first_named(v.shared.services, service, k) && v.shared.services[k] == was
    } else {
        &&& first_row(v.instances, source, i)
        &&& first_named(v.instances[i].services, service, k)
        &&& v.instances[i].services[k] == was
    }
}

/// Messages are told apart by how their source's id starts.
pub(crate) proof fn shared_sources(source: Seq<char>)
    ensures
        shared_id(source) == from_shared(source),
{
    reveal_strlit("shared::");
    assert("shared::"@ =~= seq!['s', 'h', 'a', 'r', 'e', 'd', ':', ':']);
    if source.len() >= 8 {
        assert(source.subrange(0, 8) =~= source.take(8));
    }
}

/// A source is the shared daemon or has a row.
pub(crate) proof fn sources(v: StacksView, source: Seq<char>, i: int)
    requires
        !from_shared(source) ==> first_row(v.instances, source, i),
    ensures
        shared_id(source) == from_shared(source),
        !from_shared(source) ==> v.find(source) == Some(i),
{
    shared_sources(source);
    if !from_shared(source) {
        assert forall|j: int| 0 <= j < i implies !with_id(source)(v.instances[j]) by {
            assert(v.instances[j].info.id != source);
        }
        first_index_at(v.instances, with_id(source), i);
    }
}

proof fn found(
    v: StacksView,
    source: Seq<char>,
    service: Seq<char>,
    i: int,
    k: int,
    was: ServiceView,
)
    requires
        held(v, source, service, i, k, was),
    ensures
        v.last_report(source, service) == Some(was),
{
    sources(v, source, i);
    let services = if from_shared(source) {
        v.shared.services
    } else {
        v.instances[i].services
    };
    assert forall|j: int| 0 <= j < k implies !with_name(service)(services[j]) by {
        assert(services[j].name != service);
    }
    first_index_at(services, with_name(service), k);
}

/// The settings do not turn toasts off.
pub open spec fn toasts_enabled(config: Map<Seq<char>, Seq<char>>) -> bool {
    !(config.dom().contains("tui.toasts"@) && config["tui.toasts"@] == "false"@)
}

/// What is said of a service that gave up.
pub open spec fn last_words(s: StateView) -> Seq<char> {
    match s {
        StateView::CrashLoop { .. } => "crash-looping"@,
        StateView::Failed { exit_code: Some(c) } => "crashed (exit "@ + signed_decimal(c as int)
            + ")"@,
        _ => "crashed"@,
    }
}

/// The newest toast, and the newest entry of the history, is this one.
pub open spec fn newest_notice(v: TuiView, t: ToastView) -> bool {
    &&& v.notices.toasts.len() > 0 && v.notices.toasts.last() == t
    &&& v.notices.history.len() > 0 && v.notices.history.last() == t
}

/// Law: every crash of a known service is announced. With toasts enabled, a
/// report that takes a service from a state in which it had not given up to
/// one in which it has puts a failure with the service's name on top of the
/// toasts and of the history.
pub proof fn crashes_are_announced(
    v: TuiView,
    source: Seq<char>,
    service: Seq<char>,
    state: StateView,
    pid: Option<u32>,
    port: Option<u16>,
    restart_count: u32,
    now: Instant,
    i: int,
    k: int,
    was: ServiceView,
)
    requires
        toasts_enabled(v.session.config),
        held(v.stacks, source, service, i, k, was),
        !gave_up(was.state),
        gave_up(state),
    ensures
        newest_notice(
            v.applied(
                source,
                MessageView::StatusUpdate { service, state, pid, port, restart_count },
                now,
            ),
            ToastView {
                kind: ToastKind::Failed,
                title: service,
                body: last_words(state),
                born: now,
            },
        ),
{
    found(v.stacks, source, service, i, k, was);
}

/// Law: every service that comes up is announced. With toasts enabled, a report
/// that a known service which did not answer now runs, and well, puts the news
/// on top of the toasts and of the history.
pub proof fn recoveries_are_announced(
    v: TuiView,
    source: Seq<char>,
    service: Seq<char>,
    state: StateView,
    pid: Option<u32>,
    port: Option<u16>,
    restart_count: u32,
    now: Instant,
    i: int,
    k: int,
    was: ServiceView,
)
    requires
        toasts_enabled(v.session.config),
        held(v.stacks, source, service, i, k, was),
        !answers(was.state),
        state matches StateView::Running { degraded, .. } && !degraded,
    ensures
        newest_notice(
            v.applied(
                source,
                MessageView::StatusUpdate { service, state, pid, port, restart_count },
                now,
            ),
            ToastView { kind: ToastKind::Ready, title: service, body: "ready"@, born: now },
        ),
{
    found(v.stacks, source, service, i, k, was);
}

/// Law: nothing else is announced: neither a report on a service that had given
/// up before, or still answers, nor one that takes it anywhere but down or up,
/// nor any with toasts turned off.
pub proof fn other_reports_pass_in_silence(
    v: TuiView,
    source: Seq<char>,
    service: Seq<char>,
    state: StateView,
    pid: Option<u32>,
    port: Option<u16>,
    restart_count: u32,
    now: Instant,
    i: int,
    k: int,
    was: ServiceView,
)
    requires
        held(v.stacks, source, service, i, k, was),
        !toasts_enabled(v.session.config) || (!(gave_up(state) && !gave_up(was.state)) && !((state
            matches StateView::Running { degraded, .. } && !degraded) && !answers(was.state))),
    ensures
        v.applied(
            source,
            MessageView::StatusUpdate { service, state, pid, port, restart_count },
            now,
        ).notices == v.notices,
{
    found(v.stacks, source, service, i, k, was);
}

// ── the port that was taken ─────────────────────────────────────────────

/// `c` is the small letter `small`, or its capital.
pub open spec fn in_any_case(c: char, small: char) -> bool {
    c == small || ('A' <= c && c <= 'Z' && c as int + 32 == small as int)
}

/// `line` says `words`, which has no capitals, somewhere, in any mix of
/// capitals and small letters.
pub open spec fn says_at(line: Seq<char>, words: Seq<char>, at: int) -> bool {
    &&& 0 <= at && at + words.len() <= line.len()
    &&& forall|j: int| 0 <= j < words.len() ==> in_any_case(#[trigger] line[at + j], words[j])
}

/// The line reports an address that is in use.
pub open spec fn reports_taken(line: Seq<char>) -> bool {
    ||| exists|at: int| says_at(line, "address already in use"@, at)
    ||| exists|at: int| says_at(line, "eaddrinuse"@, at)
}

proof fn said_and_lowered(line: Seq<char>, words: Seq<char>, at: int)
    requires
        forall|j: int| 0 <= j < words.len() ==> !('A' <= #[trigger] words[j] && words[j] <= 'Z'),
    ensures
        says_at(line, words, at) <==> occurs_at(lowered(line), words, at),
{
    let low = lowered(line);
    if 0 <= at && at + words.len() <= line.len() {
        let part = low.subrange(at, at + words.len());
        assert forall|j: int| 0 <= j < words.len() implies (in_any_case(
            #[trigger] line[at + j],
            words[j],
        ) <==> part[j] == words[j]) by {
            assert(part[j] == lower_char(line[at + j]));
        }
        if says_at(line, words, at) {
            assert forall|j: int| 0 <= j < words.len() implies part[j] == words[j] by {
                assert(in_any_case(line[at + j], words[j]));
            }
            assert(part =~= words);
        }
        if occurs_at(low, words, at) {
            assert forall|j: int| 0 <= j < words.len() implies in_any_case(
                #[trigger] line[at + j],
                words[j],
            ) by {
                assert(part[j] == words[j]);
            }
        }
    }
}

proof fn taken_is_mentioned(line: Seq<char>)
    ensures
        mentions_addr_in_use(line) == reports_taken(line),
{
    reveal_strlit("address already in use");
    reveal_strlit("eaddrinuse");
    assert forall|at: int|
        says_at(line, "address already in use"@, at) <==> #[trigger] occurs_at(
            lowered(line),
            "address already in use"@,
            at,
        ) by {
        said_and_lowered(line, "address already in use"@, at);
    }
    assert forall|at: int|
        says_at(line, "eaddrinuse"@, at) <==> #[trigger] occurs_at(
            lowered(line),
            "eaddrinuse"@,
            at,
        ) by {
        said_and_lowered(line, "eaddrinuse"@, at);
    }
    if exists|at: int| says_at(line, "address already in use"@, at) {
        let at = choose|at: int| says_at(line, "address already in use"@, at);
        assert(occurs_at(lowered(line), "address already in use"@, at));
    }
    if exists|at: int| says_at(line, "eaddrinuse"@, at) {
        let at = choose|at: int| says_at(line, "eaddrinuse"@, at);
        assert(occurs_at(lowered(line), "eaddrinuse"@, at));
    }
}

/// Law: a log shows the port as taken exactly when one of its last forty lines
/// reports an address in use, in whatever case, however many lines stand
/// before.
pub proof fn recent_lines_show_the_port_taken(lines: Seq<Seq<char>>)
    ensures
        shows_addr_in_use(lines) <==> exists|i: int|
            0 <= i < lines.len() && i >= lines.len() - 40 && reports_taken(#[trigger] lines[i]),
        lines.len() > 0 && reports_taken(lines.last()) ==> shows_addr_in_use(lines),
{
    assert forall|i: int| 0 <= i < lines.len() implies mentions_addr_in_use(#[trigger] lines[i])
        == reports_taken(lines[i]) by {
        taken_is_mentioned(lines[i]);
    }
    if lines.len() > 0 {
        assert(lines[lines.len() - 1] == lines.last());
    }
}

/// Law: lines older than the newest forty never decide whether a log shows the
/// port as taken.
pub proof fn older_lines_do_not_decide(older: Seq<Seq<char>>, newest: Seq<Seq<char>>)
    requires
        newest.len() >= 40,
    ensures
        shows_addr_in_use(older + newest) == shows_addr_in_use(newest),
{
    let all = older + newest;
    if shows_addr_in_use(all) {
        let i = choose|i: int|
            0 <= i < all.len() && all.len() - 40 <= i && mentions_addr_in_use(#[trigger] all[i]);
        assert(newest[i - older.len()] == all[i]);
    }
    if shows_addr_in_use(newest) {
        let i = choose|i: int|
            0 <= i < newest.len() && newest.len() - 40 <= i && mentions_addr_in_use(
                #[trigger] newest[i],
            );
        assert(all[i + older.len()] == newest[i]);
    }
}

/// The log that the dashboard keeps for what `source` calls `service`.
pub open spec fn kept_log(v: StacksView, source: Seq<char>, service: Seq<char>, i: int) -> Seq<
    Seq<char>,
> {
    let logs = if from_shared(source) {
        v.shared.logs
    } else {
        v.instances[i].logs
    };
    if logs.dom().contains(service) {
        logs[service]
    } else {
        Seq::empty()
    }
}

/// Law: the port of a known service is looked into exactly when a report says
/// that the service gave up, which it had not before; its port is known, from
/// the report or from an earlier one; one of its last forty lines says that the
/// address was in use; and no port is looked into or asked about already.
pub proof fn taken_ports_are_looked_into(
    v: TuiView,
    source: Seq<char>,
    service: Seq<char>,
    state: StateView,
    pid: Option<u32>,
    port: Option<u16>,
    restart_count: u32,
    now: Instant,
    i: int,
    k: int,
    was: ServiceView,
)
    requires
        held(v.stacks, source, service, i, k, was),
    ensures
        ({
            let after = v.applied(
                source,
                MessageView::StatusUpdate { service, state, pid, port, restart_count },
                now,
            );
            let log = kept_log(v.stacks, source, service, i);
            let known = if port is Some {
                port
            } else {
                was.port
            };
            let due = {
                &&& gave_up(state) && !gave_up(was.state)
                &&& known is Some
                &&& v.modals.port_conflict is None && v.modals.pending_port_conflict is None
                &&& exists|n: int|
                    0 <= n < log.len() && n >= log.len() - 40 && reports_taken(#[trigger] log[n])
            };
            after.modals == if due {
                ModalsView {
                    pending_port_conflict: Some((source, service, known->0)),
                    ..v.modals
                }
            } else {
                v.modals
            }
        }),
{
    found(v.stacks, source, service, i, k, was);
    sources(v.stacks, source, i);
    let msg = MessageView::StatusUpdate { service, state, pid, port, restart_count };
    let next = v.stacks.absorbed(source, msg);
    sources(next, source, i);
    let log = kept_log(v.stacks, source, service, i);
    assert(next.lines_of(source, service) =~= log);
    recent_lines_show_the_port_taken(log);
}

// ── what a report changes ───────────────────────────────────────────────

/// Law: a report on a known service changes its state, and its port where the
/// report names one, and nothing else that the dashboard holds of any stack.
pub proof fn a_report_changes_one_service(
    v: TuiView,
    source: Seq<char>,
    service: Seq<char>,
    state: StateView,
    pid: Option<u32>,
    port: Option<u16>,
    restart_count: u32,
    now: Instant,
    i: int,
    k: int,
    was: ServiceView,
)
    requires
        held(v.stacks, source, service, i, k, was),
    ensures
        ({
            let after = v.applied(
                source,
                MessageView::StatusUpdate { service, state, pid, port, restart_count },
                now,
            );
            let new = ServiceView {
                state,
                port: if port is Some {
                    port
                } else {
                    was.port
                },
                ..was
            };
            &&& after.stacks == if from_shared(source) {
                StacksView {
                    shared: SharedView {
                        services: v.stacks.shared.services.update(k, new),
                        ..v.stacks.shared
                    },
                    ..v.stacks
                }
            } else {
                StacksView {
                    instances: v.stacks.instances.update(
                        i,
                        InstanceView {
                            services: v.stacks.instances[i].services.update(k, new),
                            ..v.stacks.instances[i]
                        },
                    ),
                    ..v.stacks
                }
            }
            &&& after.session == v.session && after.layout == v.layout && after.hits == v.hits
        }),
{
    found(v.stacks, source, service, i, k, was);
    sources(v.stacks, source, i);
    let services = if from_shared(source) {
        v.stacks.shared.services
    } else {
        v.stacks.instances[i].services
    };
    assert forall|j: int| 0 <= j < k implies !with_name(service)(services[j]) by {
        assert(services[j].name != service);
    }
    first_index_at(services, with_name(service), k);
}

} // verus!
