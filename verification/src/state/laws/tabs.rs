//! Tabs: which services have one, in what order, and what is shown for the
//! selected one.
use vstd::prelude::*;

use crate::lists::first_index_at;
use crate::protocol::ServiceView;
use crate::state::tabs::{has_steps, owned};
use crate::state::{InstanceView, StacksView, TabKind, TabView};

use super::health::shared_name;

verus! {

/// The services of a row that no shared service is named like, in their order.
pub open spec fn own_of(services: Seq<ServiceView>, shared: Seq<ServiceView>) -> Seq<ServiceView> {
    services.filter(|s: ServiceView| !shared_name(shared, s.name))
}

pub(crate) proof fn owned_is_own(services: Seq<ServiceView>, shared: Seq<ServiceView>)
    ensures
        owned(services, shared) == own_of(services, shared),
    decreases services.len(),
{
    reveal(Seq::filter);
    if services.len() > 0 {
        owned_is_own(services.drop_last(), shared);
    }
}

/// Law: the tabs of a stack. First come its own services, in the order in which
/// its daemon reports them, and then every shared one. Where it has none of its
/// own but there are shared ones, a placeholder stands in front. On the shared
/// row the shared services alone have tabs.
pub proof fn own_tabs_come_first(s: StacksView, row: InstanceView, at: usize)
    requires
        s.selected_instance == Some(at),
        at < s.instances.len(),
        s.instances[at as int] == row,
    ensures
        ({
            let shared = s.shared.services;
            let own = own_of(row.services, shared);
            let tabs = s.tabs();
            let lead: int = if s.shared_selected {
                0
            } else if own.len() == 0 && shared.len() > 0 {
                1
            } else {
                own.len() as int
            };
            &&& tabs.len() == lead + shared.len()
            &&& !s.shared_selected ==> forall|i: int|
                0 <= i < own.len() ==> #[trigger] tabs[i] == (TabView {
                    label: own[i].name,
                    kind: TabKind::Owned,
                    snapshot: Some(own[i]),
                })
            &&& forall|i: int|
                0 <= i < shared.len() ==> #[trigger] tabs[lead + i] == (TabView {
                    label: shared[i].name,
                    kind: TabKind::Shared,
                    snapshot: Some(shared[i]),
                })
            &&& !s.shared_selected && own.len() == 0 && shared.len() > 0 ==> tabs[0] == (TabView {
                label: if row.services.len() == 0 && row.steps.len() == 0 {
                    "no devme.toml"@
                } else {
                    "no services"@
                },
                kind: TabKind::Placeholder,
                snapshot: None,
            })
        }),
{
    owned_is_own(row.services, s.shared.services);
}

/// Law: each stack, and the shared row, has a selected tab of its own; the
/// service of that tab is the selected one, and a placeholder has none.
pub proof fn the_selected_tab_is_the_rows_own(s: StacksView, row: InstanceView, at: usize)
    requires
        s.selected_instance == Some(at),
        at < s.instances.len(),
        s.instances[at as int] == row,
    ensures
        ({
            let place = if s.shared_selected {
                s.shared.selected_service
            } else {
                row.selected_service
            };
            &&& s.selected_index() == place
            &&& s.selected() == match place {
                Some(i) => if i < s.tabs().len() {
                    s.tabs()[i as int].snapshot
                } else {
                    None
                },
                None => None,
            }
        }),
{
}

/// Law: selecting a tab selects it in the row that is shown, and changes no other
/// row and nothing else of that one.
pub proof fn selecting_a_tab_stays_in_the_row(s: StacksView, idx: Option<usize>)
    ensures
        ({
            let after = s.with_selected(idx);
            &&& s.shared_selected ==> after.shared.selected_service == idx && after.instances
                == s.instances && after.shared.services == s.shared.services && after.shared.logs
                == s.shared.logs
            &&& !s.shared_selected ==> after.shared == s.shared
            &&& after.shared_selected == s.shared_selected && after.selected_instance
                == s.selected_instance
            &&& after.instances.len() == s.instances.len()
            &&& forall|i: int|
                0 <= i < s.instances.len() ==> #[trigger] after.instances[i] == if !s.shared_selected
                    && s.selected_instance == Some(i as usize) && i <= usize::MAX {
                    InstanceView { selected_service: idx, ..s.instances[i] }
                } else {
                    s.instances[i]
                }
        }),
{
}

/// Law: the log of a service that is shared is the shared daemon's; that of any
/// other is the selected stack's; and one that never printed has no lines.
pub proof fn logs_are_the_owners(s: StacksView, service: Seq<char>)
    ensures
        shared_name(s.shared.services, service) ==> s.lines(service) == if s.shared.logs.dom().contains(
            service,
        ) {
            s.shared.logs[service]
        } else {
            Seq::empty()
        },
        !shared_name(s.shared.services, service) ==> forall|at: usize|
            s.selected_instance == Some(at) && at < s.instances.len() ==> s.lines(service)
                == if (#[trigger] s.instances[at as int]).logs.dom().contains(service) {
                s.instances[at as int].logs[service]
            } else {
                Seq::empty()
            },
{
}

/// Law: the offset of the log that is shown is the one that the owner's row
/// remembers for the service, and zero where it remembers none.
pub proof fn offsets_are_the_owners(s: StacksView, row: InstanceView, at: usize, shown: ServiceView)
    requires
        s.selected_instance == Some(at),
        at < s.instances.len(),
        s.instances[at as int] == row,
        s.selected() == Some(shown),
    ensures
        ({
            let held = if s.shared_selected || shared_name(s.shared.services, shown.name) {
                s.shared.log_scroll
            } else {
                row.log_scroll
            };
            s.offset() == if held.dom().contains(shown.name) {
                held[shown.name]
            } else {
                0
            }
        }),
{
}

/// Law: the dependency checks shown are the selected stack's own where it has
/// any, and otherwise those of the first stack that has.
pub proof fn checks_are_the_stacks_own(s: StacksView, at: usize, first: int)
    requires
        s.selected_instance == Some(at),
        at < s.instances.len(),
        0 <= first < s.instances.len(),
        s.instances[first].steps.len() > 0,
        forall|j: int| 0 <= j < first ==> (#[trigger] s.instances[j]).steps.len() == 0,
    ensures
        s.steps() == if s.instances[at as int].steps.len() > 0 {
            s.instances[at as int].steps
        } else {
            s.instances[first].steps
        },
{
    assert forall|j: int| 0 <= j < first implies !has_steps()(s.instances[j]) by {
        assert(s.instances[j].steps.len() == 0);
    }
    first_index_at(s.instances, has_steps(), first);
}

/// Law: what the prompt and the sidebar call a stack's services are its own on a
/// stack, and the shared ones on the shared row; its directory is the stack's.
pub proof fn services_are_the_rows_own(s: StacksView, row: InstanceView, at: usize)
    requires
        s.selected_instance == Some(at),
        at < s.instances.len(),
        s.instances[at as int] == row,
    ensures
        s.services() == if s.shared_selected {
            s.shared.services
        } else {
            own_of(row.services, s.shared.services)
        },
        s.current_cwd() == row.info.cwd,
        s.current() == Some(row),
        s.current_vacant() <==> if s.shared_selected {
            s.shared.services.len() == 0
        } else {
            row.services.len() == 0 && row.steps.len() == 0
        },
{
    owned_is_own(row.services, s.shared.services);
}

/// Law: a stack without services of its own says why: its directory has no
/// configuration where nothing was reported for it, and otherwise the
/// configuration declares none. Shared services are pointed to where there are
/// any.
pub proof fn empty_stacks_explain_themselves(s: StacksView, row: InstanceView, at: usize)
    requires
        !s.shared_selected,
        s.selected_instance == Some(at),
        at < s.instances.len(),
        s.instances[at as int] == row,
    ensures
        ({
            let cause = if row.services.len() == 0 && row.steps.len() == 0 {
                "No devme.toml in "@ + row.info.cwd + " — add one to start services."@
            } else {
                "No services declared in this worktree's devme.toml."@
            };
            s.explanation() == if s.shared.services.len() == 0 {
                cause
            } else {
                cause
                    + "\n\nThe tabs to the right are repo-scoped shared services this worktree can use."@
            }
        }),
{
}

/// Law: a command on the selected service goes, under its name, to the daemon
/// that owns it: the shared one for a shared service and the stack's otherwise.
/// Without a selected service nothing is asked of any daemon.
pub proof fn commands_find_the_daemon(s: StacksView, row: InstanceView, at: usize)
    requires
        s.selected_instance == Some(at),
        at < s.instances.len(),
        s.instances[at as int] == row,
    ensures
        s.command_target() == match s.selected() {
            None => None,
            Some(x) => if s.shared_selected || shared_name(s.shared.services, x.name) {
                match s.shared.id {
                    Some(id) => Some((id, x.name)),
                    None => None,
                }
            } else {
                Some((row.info.id, x.name))
            },
        },
{
}

} // verus!
