//! Overlays: settings that read back as they were written, highlights that go
//! round, probes that need a crash, and hints that stop.
use std::time::Instant;

use vstd::prelude::*;

use crate::lists::{first_index, first_index_at, first_index_is_least};
use crate::protocol::{Holder, MessageView};
use crate::state::conflict::{remedies, shows_addr_in_use, wrapped};
use crate::state::settings::{
    configured, equal_to, next_value, setting, write_of, written, DefView,
};
use crate::state::skill::{hint_count, may_hint};
use crate::state::{ConflictView, ModalsView, SettingsView, TuiView, SETTING_COUNT};
use crate::text::{
    all_digits, decimal, digit_char, digits_value, first_line, is_digit, parsed, pieces,
    unsigned_part,
};

verus! {

/// Law: every overlay is closed once the dashboard is stopped, and what was
/// reported and recorded stays.
pub proof fn stopping_dismisses_every_overlay(v: TuiView, repo: Option<Seq<char>>)
    ensures
        ({
            let after = v.entered_stopped(repo);
            &&& after.session.stopped && after.session.stopped_repo == repo
            &&& !after.modal_open()
            &&& after.modals.pending_port_conflict is None
            &&& !after.layout.zoom && !after.layout.copy_mode
            &&& after.stacks == v.stacks
            &&& after.notices.history == v.notices.history
            &&& after.session.config == v.session.config
        }),
{
}

/// Law: moving round a ring and back by as much ends where it began.
pub proof fn ring_moves_undo(i: usize, delta: i32, n: nat)
    requires
        i < n <= usize::MAX,
        delta > i32::MIN,
    ensures
        wrapped(i, delta, n) < n,
        wrapped(wrapped(i, delta, n), (-delta) as i32, n) == i,
        wrapped(i, 0, n) == i,
{
    let m = n as int;
    let d = delta as int;
    let a = i as int;
    assert(0 <= (a + d) % m < m) by (nonlinear_arith)
        requires
            m > 0,
    ;
    vstd::arithmetic::div_mod::lemma_fundamental_div_mod(a + d, m);
    let q = (a + d) / m;
    let b = (a + d) % m;
    assert(b - d == m * (-q) + a) by (nonlinear_arith)
        requires
            a + d == m * q + b,
    ;
    vstd::arithmetic::div_mod::lemma_fundamental_div_mod_converse(b - d, m, -q, a);
    vstd::arithmetic::div_mod::lemma_small_mod(i as nat, n);
}

/// Law: the highlight of the port-conflict modal and the cursor of the
/// settings stay on a row, and moving back undoes a move.
pub proof fn highlights_go_round(m: ModalsView, delta: i32)
    requires
        m.wf(),
        delta > i32::MIN,
    ensures
        m.conflict_moved(delta).wf(),
        m.settings_moved(delta).wf(),
        m.conflict_moved(delta).conflict_moved((-delta) as i32) == m,
        m.settings_moved(delta).settings_moved((-delta) as i32) == m,
{
    match m.port_conflict {
        Some(d) => {
            ring_moves_undo(d.selected, delta, d.options.len());
        },
        None => {},
    }
    match m.settings {
        Some(s) => {
            ring_moves_undo(s.cursor, delta, SETTING_COUNT as nat);
        },
        None => {},
    }
}

/// Law: whoever holds the port, there is a row to leave things alone, it is
/// the last, and it is the only such row.
pub proof fn skip_comes_last(
    instance_id: Seq<char>,
    service: Seq<char>,
    port: u16,
    holder: Holder,
)
    ensures
        ConflictView::opened(instance_id, service, port, holder).wf(),
        remedies(holder).last().action is Skip,
        forall|i: int|
            0 <= i < remedies(holder).len() - 1 ==> !((#[trigger] remedies(holder)[i]).action
                is Skip),
{
}

/// Law: a port-conflict modal that is up is never replaced, and a queued probe
/// stays queued, whatever the daemons report.
pub proof fn conflicts_wait_their_turn(
    v: TuiView,
    source: Seq<char>,
    msg: MessageView,
    now: Instant,
    instance_id: Seq<char>,
    service: Seq<char>,
    port: u16,
    holder: Holder,
)
    ensures
        v.applied(source, msg, now).modals.port_conflict == v.modals.port_conflict,
        v.modals.pending_port_conflict is Some ==> v.applied(
            source,
            msg,
            now,
        ).modals.pending_port_conflict == v.modals.pending_port_conflict,
        v.modals.port_conflict is Some ==> v.modals.conflict_opened(
            instance_id,
            service,
            port,
            holder,
        ) == v.modals,
{
}

/// Law: a probe is queued only for a service that has just crashed, whose port
/// is known and whose recent lines report it as taken.
pub proof fn probes_need_a_fresh_crash(
    v: TuiView,
    source: Seq<char>,
    msg: MessageView,
    now: Instant,
)
    requires
        v.applied(source, msg, now).modals != v.modals,
    ensures
        match msg {
            MessageView::StatusUpdate { service, state, .. } => {
                let after = v.applied(source, msg, now);
                let was = v.stacks.last_report(source, service);
                let now = after.stacks.last_report(source, service);
                &&& was is Some && !was->0.state.broken() && state.broken()
                &&& now is Some && now->0.port is Some
                &&& after.modals.pending_port_conflict == Some(
                    (source, service, now->0.port->0),
                )
                &&& shows_addr_in_use(after.stacks.lines_of(source, service))
            },
            _ => false,
        },
{
    match msg {
        MessageView::StatusUpdate { service, state, port, .. } => {
            if v.stacks.last_report(source, service) is Some {
                super::rows::reports_are_remembered(v.stacks, source, service, state, port);
            }
        },
        _ => {},
    }
}

// ── settings ────────────────────────────────────────────────────────────

/// No two settings have the same key.
proof fn keys_differ(i: int, j: int)
    requires
        0 <= i < j < SETTING_COUNT,
    ensures
        setting(i).key != setting(j).key,
{
    reveal_strlit("tui.theme");
    reveal_strlit("tui.toasts");
    reveal_strlit("tui.confirm_quit");
    reveal_strlit("hints.skills");
    reveal_strlit("skill.auto_update");
    reveal_strlit("remote.default");
    reveal_strlit("docker.daemon");
    assert("tui.theme"@.len() == 9);
    assert("tui.toasts"@.len() == 10);
    assert("tui.confirm_quit"@.len() == 16);
    assert("hints.skills"@.len() == 12);
    assert("skill.auto_update"@.len() == 17);
    assert("remote.default"@.len() == 14);
    assert("docker.daemon"@.len() == 13);
}

/// Law: a setting reads back as the value that was chosen for it, and every
/// other setting as before.
pub proof fn settings_read_back(
    config: Map<Seq<char>, Seq<char>>,
    i: int,
    value: Seq<char>,
    j: int,
)
    requires
        0 <= i < SETTING_COUNT,
        0 <= j < SETTING_COUNT,
    ensures
        configured(written(config, write_of(setting(i), value)), setting(j)) == if i == j {
            value
        } else {
            configured(config, setting(j))
        },
{
    if i < j {
        keys_differ(i, j);
    } else if j < i {
        keys_differ(j, i);
    }
}

/// The overlay shows what the configuration says.
pub open spec fn in_step(v: TuiView) -> bool {
    v.modals.settings matches Some(s) ==> forall|i: int|
        0 <= i < SETTING_COUNT ==> #[trigger] s.values[i] == configured(
            v.session.config,
            setting(i),
        )
}

/// Law: the overlay shows what the configuration says when it opens, and after
/// every change made in it.
pub proof fn overlay_follows_the_configuration(v: TuiView, dir: i32)
    requires
        v.wf(),
        in_step(v),
    ensures
        in_step(
            TuiView {
                modals: ModalsView {
                    settings: Some(SettingsView::opened(v.session.config)),
                    ..v.modals
                },
                ..v
            },
        ),
        in_step(v.setting_changed(dir)),
{
    match v.modals.settings {
        Some(s) => {
            let after = v.setting_changed(dir);
            let c = s.cursor as int;
            assert forall|i: int| 0 <= i < SETTING_COUNT implies #[trigger] s.changed(
                dir,
            ).values[i] == configured(after.session.config, setting(i)) by {
                settings_read_back(v.session.config, c, s.next(dir), i);
                assert(s.values[i] == configured(v.session.config, setting(i)));
            }
        },
        None => {},
    }
}

/// The values that a setting can have.
pub open spec fn allowed(def: DefView, value: Seq<char>) -> bool {
    match def.options {
        None => value == "true"@ || value == "false"@,
        Some(opts) => opts.contains(value),
    }
}

/// The choices of a setting are all different.
proof fn choices_differ(i: int)
    requires
        0 <= i < SETTING_COUNT,
    ensures
        setting(i).options matches Some(opts) ==> 0 < opts.len() <= 5 && forall|a: int, b: int|
            0 <= a < b < opts.len() ==> #[trigger] opts[a] != #[trigger] opts[b],
{
    reveal_strlit("mocha");
    reveal_strlit("latte");
    reveal_strlit("auto");
    reveal_strlit("orbstack");
    reveal_strlit("docker-desktop");
    reveal_strlit("colima");
    reveal_strlit("rancher-desktop");
    assert("mocha"@[0] == 'm');
    assert("latte"@[0] == 'l');
    assert("auto"@.len() == 4);
    assert("mocha"@.len() == 5);
    assert("orbstack"@.len() == 8);
    assert("docker-desktop"@.len() == 14);
    assert("colima"@.len() == 6);
    assert("rancher-desktop"@.len() == 15);
}

/// Law: changing a setting gives a value that it can have, and changing it
/// back by as much restores it; a toggle changes back either way.
pub proof fn setting_changes_undo(i: int, value: Seq<char>, dir: i32)
    requires
        0 <= i < SETTING_COUNT,
        allowed(setting(i), value),
        dir > i32::MIN,
    ensures
        allowed(setting(i), next_value(setting(i), value, dir)),
        next_value(setting(i), next_value(setting(i), value, dir), (-dir) as i32) == value,
{
    let def = setting(i);
    match def.options {
        None => {
            reveal_strlit("true");
            reveal_strlit("false");
            assert("true"@.len() == 4);
            assert("false"@.len() == 5);
        },
        Some(opts) => {
            choices_differ(i);
            first_index_is_least(opts, equal_to(value));
            let at = choose|k: int| 0 <= k < opts.len() && opts[k] == value;
            assert(equal_to(value)(opts[at]));
            let k = first_index(opts, equal_to(value))->0;
            ring_moves_undo(k as usize, dir, opts.len());
            let m = wrapped(k as usize, dir, opts.len()) as int;
            assert(opts.contains(opts[m]));
            first_index_at(opts, equal_to(opts[m]), m);
        },
    }
}

// ── the install hint ────────────────────────────────────────────────────

/// The digits of a number write that number.
proof fn decimal_reads_back(n: nat)
    ensures
        decimal(n).len() > 0,
        all_digits(decimal(n)),
        digits_value(decimal(n)) == n,
    decreases n,
{
    reveal_with_fuel(digits_value, 2);
    if n < 10 {
        assert(decimal(n) =~= seq![digit_char(n)]);
        assert(decimal(n).drop_last() =~= Seq::<char>::empty());
        assert(decimal(n).last() == digit_char(n));
    } else {
        decimal_reads_back(n / 10);
        let d = decimal(n);
        assert(d.drop_last() =~= decimal(n / 10));
        assert(d.last() == digit_char(n % 10));
        assert forall|i: int| 0 <= i < d.len() implies is_digit(#[trigger] d[i]) by {
            if i < d.len() - 1 {
                assert(d[i] == decimal(n / 10)[i]);
            }
        }
    }
}

/// What stands before the first separator is the first piece.
proof fn first_piece(head: Seq<char>, sep: char, rest: Seq<char>)
    requires
        forall|i: int| 0 <= i < head.len() ==> head[i] != sep,
    ensures
        pieces(head + seq![sep] + rest, sep).len() >= 2,
        pieces(head + seq![sep] + rest, sep)[0] == head,
    decreases rest.len(),
{
    let s = head + seq![sep] + rest;
    if rest.len() == 0 {
        assert(s.drop_last() =~= head);
        assert(s.last() == sep);
        whole_piece(head, sep);
    } else {
        first_piece(head, sep, rest.drop_last());
        assert(s.drop_last() =~= head + seq![sep] + rest.drop_last());
    }
}

proof fn whole_piece(s: Seq<char>, sep: char)
    requires
        forall|i: int| 0 <= i < s.len() ==> s[i] != sep,
    ensures
        pieces(s, sep) == seq![s],
    decreases s.len(),
{
    if s.len() > 0 {
        whole_piece(s.drop_last(), sep);
        assert(s.drop_last().push(s.last()) =~= s);
        assert(pieces(s, sep) =~= seq![s]);
    } else {
        assert(s =~= Seq::<char>::empty());
    }
}

/// The backoff file after the hint was shown once more.
pub open spec fn recorded_hint(count: int, now: u64) -> Seq<char> {
    decimal((1 + count) as nat) + "\n"@ + decimal(now as nat)
}

/// Law: recording that the hint was shown counts it, so that after the fourth
/// time it shows no more, however the rest stands.
pub proof fn hints_stop_after_four(
    count: int,
    now: u64,
    hints_setting: Option<Seq<char>>,
    has_installs: bool,
    present: bool,
    config_dir_known: bool,
)
    requires
        0 <= count < u32::MAX,
    ensures
        hint_count(recorded_hint(count, now)) == count + 1,
        count >= 3 ==> !may_hint(
            hints_setting,
            has_installs,
            present,
            config_dir_known,
            Some(recorded_hint(count, now)),
        ),
{
    let d = decimal((1 + count) as nat);
    let rest = decimal(now as nat);
    let s = recorded_hint(count, now);
    decimal_reads_back((1 + count) as nat);
    reveal_strlit("\n");
    assert("\n"@ =~= seq!['\n']);
    assert forall|i: int| 0 <= i < d.len() implies d[i] != '\n' by {
        assert(is_digit(d[i]));
    }
    first_piece(d, '\n', rest);
    assert(s =~= d + seq!['\n'] + rest);
    assert(is_digit(d[d.len() - 1]));
    assert(first_line(s) == d);
    assert(is_digit(d[0]));
    assert(unsigned_part(d) == d);
    assert(parsed(d, u32::MAX as int) == Some(count + 1));
}

} // verus!
