//! Health: what a stack's dot and its counts say of the services behind it.
use vstd::prelude::*;

use crate::lists::count_bounds;
use crate::protocol::{ServiceView, StateView};
use crate::state::tabs::{health_of, is_up, not_among, owned};
use crate::state::{InstanceView, StackHealth, StackSummary, StacksView};

verus! {

/// A service that answers: one of the stack's own that runs, well or degraded,
/// or an external one that was found healthy.
pub open spec fn answers(s: StateView) -> bool {
    match s {
        StateView::Running { .. } => true,
        StateView::External { healthy } => healthy,
        _ => false,
    }
}

/// A service that gave up: it failed, or it keeps crashing.
pub open spec fn gave_up(s: StateView) -> bool {
    match s {
        StateView::Failed { .. } => true,
        StateView::CrashLoop { .. } => true,
        _ => false,
    }
}

/// Law: the health of a list of services. It is a placeholder exactly for no
/// services, and failed exactly when one gave up. Where none did, it is all
/// running exactly when each answers, idle exactly when none does, and
/// otherwise some run.
pub proof fn health_sums_up(services: Seq<ServiceView>)
    ensures
        health_of(services) == StackHealth::Placeholder <==> services.len() == 0,
        health_of(services) == StackHealth::Failed <==> exists|i: int|
            0 <= i < services.len() && gave_up((#[trigger] services[i]).state),
        services.len() > 0 && (forall|i: int|
            0 <= i < services.len() ==> !gave_up((#[trigger] services[i]).state)) ==> {
            &&& health_of(services) == StackHealth::AllRunning <==> forall|i: int|
                0 <= i < services.len() ==> answers((#[trigger] services[i]).state)
            &&& health_of(services) == StackHealth::Idle <==> forall|i: int|
                0 <= i < services.len() ==> !answers((#[trigger] services[i]).state)
            &&& health_of(services) == StackHealth::SomeRunning <==> (exists|i: int|
                0 <= i < services.len() && answers((#[trigger] services[i]).state)) && (exists|
                i: int,
            |
                0 <= i < services.len() && !answers((#[trigger] services[i]).state))
        },
{
    if services.len() > 0 {
        assert(services[0].state == services[0].state);
    }
}

/// Law: the health does not turn on the order in which services are listed, nor
/// on how often one is.
pub proof fn health_goes_by_what_is_there(a: Seq<ServiceView>, b: Seq<ServiceView>)
    requires
        forall|s: ServiceView| #![auto] a.contains(s) <==> b.contains(s),
    ensures
        health_of(a) == health_of(b),
{
    assert forall|i: int| 0 <= i < a.len() implies b.contains(#[trigger] a[i]) by {
        assert(a.contains(a[i]));
    }
    assert forall|i: int| 0 <= i < b.len() implies a.contains(#[trigger] b[i]) by {
        assert(b.contains(b[i]));
    }
    health_sums_up(a);
    health_sums_up(b);
    if a.len() > 0 {
        assert(b.contains(a[0]));
    }
    if b.len() > 0 {
        assert(a.contains(b[0]));
    }
}

/// Some shared service has this name.
pub open spec fn shared_name(shared: Seq<ServiceView>, name: Seq<char>) -> bool {
    exists|j: int| 0 <= j < shared.len() && (#[trigger] shared[j]).name == name
}

/// The service at `k` of the stack at `idx` is its own: no shared service has
/// its name.
pub open spec fn own_service(v: StacksView, idx: int, k: int) -> bool {
    &&& 0 <= k < v.instances[idx].services.len()
    &&& !shared_name(v.shared.services, v.instances[idx].services[k].name)
}

proof fn owned_members(services: Seq<ServiceView>, shared: Seq<ServiceView>)
    ensures
        forall|s: ServiceView| #[trigger]
            owned(services, shared).contains(s) <==> services.contains(s) && !shared_name(
                shared,
                s.name,
            ),
    decreases services.len(),
{
    reveal(Seq::filter);
    if services.len() > 0 {
        let rest = services.drop_last();
        owned_members(rest, shared);
        assert(rest.push(services.last()) =~= services);
        let own = owned(services, shared);
        let before = owned(rest, shared);
        assert forall|s: ServiceView| #[trigger] own.contains(s) <==> services.contains(s)
            && !shared_name(shared, s.name) by {
            assert(before.contains(s) <==> rest.contains(s) && !shared_name(shared, s.name));
            if own.contains(s) {
                let i = choose|i: int| 0 <= i < own.len() && own[i] == s;
                if i < before.len() {
                    assert(before[i] == s);
                    let j = choose|j: int| 0 <= j < rest.len() && rest[j] == s;
                    assert(services[j] == s);
                } else {
                    assert(services[services.len() - 1] == s);
                }
            }
            if services.contains(s) && !shared_name(shared, s.name) {
                let j = choose|j: int| 0 <= j < services.len() && services[j] == s;
                if j < rest.len() {
                    assert(rest[j] == s);
                    let i = choose|i: int| 0 <= i < before.len() && before[i] == s;
                    assert(own[i] == s);
                } else {
                    assert(own[own.len() - 1] == s);
                }
            }
        }
    }
}

/// Law: a stack is judged by its own services alone. It is failed exactly when
/// one of its own gave up; all running exactly when it has services of its own
/// and each answers; idle exactly when it has some, none answers and none gave
/// up; and a placeholder exactly when it has none of its own.
pub proof fn a_stack_is_as_well_as_its_own_services(v: StacksView, idx: int)
    requires
        0 <= idx < v.instances.len(),
    ensures
        ({
            let all = v.instances[idx].services;
            let some = exists|k: int| #[trigger] own_service(v, idx, k);
            let crashed = exists|k: int| #[trigger]
                own_service(v, idx, k) && gave_up(all[k].state);
            &&& v.health(idx) == StackHealth::Placeholder <==> !some
            &&& v.health(idx) == StackHealth::Failed <==> crashed
            &&& v.health(idx) == StackHealth::AllRunning <==> some && forall|k: int| #[trigger]
                own_service(v, idx, k) ==> answers(all[k].state)
            &&& v.health(idx) == StackHealth::Idle <==> some && !crashed && forall|k: int| #[trigger]
                own_service(v, idx, k) ==> !answers(all[k].state)
        }),
{
    let all = v.instances[idx].services;
    let shared = v.shared.services;
    let own = owned(all, shared);
    owned_members(all, shared);
    health_sums_up(own);
    assert forall|k: int| #[trigger] own_service(v, idx, k) implies own.contains(all[k]) by {
        assert(all.contains(all[k]));
    }
    assert forall|i: int|
        #![trigger own[i]]
        0 <= i < own.len() implies exists|k: int| #[trigger]
        own_service(v, idx, k) && all[k] == own[i] by {
        assert(own.contains(own[i]));
        let k = choose|k: int| 0 <= k < all.len() && all[k] == own[i];
        assert(own_service(v, idx, k));
    }
    if exists|k: int| #[trigger] own_service(v, idx, k) {
        let k = choose|k: int| #[trigger] own_service(v, idx, k);
        assert(own.contains(all[k]));
    }
    if own.len() > 0 {
        assert(own[0] == own[0]);
    }
}

/// Law: how the counts of a stack go. One service more in what its daemon
/// reports leaves the counts alone where a shared service has its name.
/// Otherwise it adds one to the total, and one to those up exactly when it
/// answers.
pub proof fn counts_grow_by_one(
    v: StacksView,
    idx: int,
    s: ServiceView,
)
    requires
        0 <= idx < v.instances.len(),
        v.instances[idx].services.len() < usize::MAX,
    ensures
        ({
            let before = v.summary(idx);
            let after = v.reporting(idx, v.instances[idx].services.push(s)).summary(idx);
            if shared_name(v.shared.services, s.name) {
                if before is NoDaemon {
                    after is SharedOnly
                } else {
                    after == before
                }
            } else {
                let one: int = if answers(s.state) {
                    1
                } else {
                    0
                };
                match before {
                    StackSummary::Counted { up, total } => after == StackSummary::Counted {
                        up: (up + one) as usize,
                        total: (total + 1) as usize,
                    },
                    _ => after == StackSummary::Counted { up: one as usize, total: 1 },
                }
            }
        }),
{
    reveal(Seq::filter);
    let all = v.instances[idx].services;
    let shared = v.shared.services;
    assert(all.push(s).drop_last() =~= all);
    let own = owned(all, shared);
    assert(own.len() <= all.len()) by {
        all.lemma_filter_len(not_among(shared));
    }
    if !shared_name(shared, s.name) {
        assert(own.push(s).drop_last() =~= own);
    }
    count_bounds(own, is_up());
}

impl StacksView {
    /// The daemon of the stack at `idx` reports these services.
    pub open spec fn reporting(self, idx: int, services: Seq<ServiceView>) -> StacksView {
        StacksView {
            instances: self.instances.update(
                idx,
                InstanceView { services, ..self.instances[idx] },
            ),
            ..self
        }
    }
}

/// Law: without services there are no counts, whatever is shared.
pub proof fn counts_start_at_none(v: StacksView, idx: int)
    requires
        0 <= idx < v.instances.len(),
    ensures
        v.summary(idx) is NoDaemon <==> v.instances[idx].services.len() == 0,
        v.reporting(idx, Seq::empty()).summary(idx) is NoDaemon,
{
}

} // verus!
