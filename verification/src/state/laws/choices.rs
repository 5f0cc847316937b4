//! Choices: the settings, the remedies for a taken port and the skill prompt,
//! and what choosing does.
use vstd::prelude::*;

use crate::lists::first_index_at;
use crate::protocol::Holder;
use crate::state::conflict::{holder_description, process_label, processes_label, remedies, wrapped};
use crate::state::nav::local_info;
use crate::state::settings::{
    configured, equal_to, next_value, reload_kind, reload_text, setting, write_of, written,
    WriteView,
};
use crate::state::skill::{hint_count, may_hint, SkillCheck};
use crate::state::{
    ActionView, ConflictView, ModalsView, SessionView, SettingsView, SkillPrompt, SkillView,
    ToastKind, TuiView,
};
use crate::text::{decimal, joined};
use crate::theme::{latte_palette, mocha_palette};

verus! {

// ── rings ───────────────────────────────────────────────────────────────

/// Law: a step down a list goes to the next entry, and from the last to the first;
/// a step up goes to the one before, and from the first to the last.
pub proof fn steps_go_to_the_neighbour(i: usize, n: nat)
    requires
        i < n <= usize::MAX,
    ensures
        wrapped(i, 1, n) == if i + 1 < n {
            i + 1
        } else {
            0
        },
        wrapped(i, -1i32, n) == if i > 0 {
            i - 1
        } else {
            n - 1
        },
{
    let m = n as int;
    let a = i as int;
    assert((a + 1) % m == if a + 1 < m {
        a + 1
    } else {
        0
    }) by (nonlinear_arith)
        requires
            0 <= a < m,
    ;
    assert((a - 1) % m == if a > 0 {
        a - 1
    } else {
        m - 1
    }) by (nonlinear_arith)
        requires
            0 <= a < m,
    ;
}

/// Law: moving in a port conflict or in the settings moves that highlight by one
/// and nothing else.
pub proof fn highlights_move_by_one(m: ModalsView)
    requires
        m.wf(),
    ensures
        m.port_conflict matches Some(d) ==> {
            &&& m.conflict_moved(1) == (ModalsView {
                port_conflict: Some(
                    ConflictView {
                        selected: (if d.selected + 1 < d.options.len() {
                            d.selected + 1
                        } else {
                            0
                        }) as usize,
                        ..d
                    },
                ),
                ..m
            })
            &&& m.conflict_moved(-1i32) == (ModalsView {
                port_conflict: Some(
                    ConflictView {
                        selected: (if d.selected > 0 {
                            d.selected - 1
                        } else {
                            d.options.len() - 1
                        }) as usize,
                        ..d
                    },
                ),
                ..m
            })
        },
        m.settings matches Some(s) ==> {
            &&& m.settings_moved(1) == (ModalsView {
                settings: Some(
                    SettingsView {
                        cursor: (if s.cursor < 6 {
                            s.cursor + 1
                        } else {
                            0
                        }) as usize,
                        ..s
                    },
                ),
                ..m
            })
            &&& m.settings_moved(-1i32) == (ModalsView {
                settings: Some(
                    SettingsView {
                        cursor: (if s.cursor > 0 {
                            s.cursor - 1
                        } else {
                            6
                        }) as usize,
                        ..s
                    },
                ),
                ..m
            })
        },
{
    match m.port_conflict {
        Some(d) => {
            steps_go_to_the_neighbour(d.selected, d.options.len());
        },
        None => {},
    }
    match m.settings {
        Some(s) => {
            steps_go_to_the_neighbour(s.cursor, 7);
        },
        None => {},
    }
}

// ── settings ────────────────────────────────────────────────────────────

/// Law: the settings are seven, each under the key that the rest of the dashboard
/// reads, and these are their values where the configuration says nothing.
pub proof fn settings_have_keys_and_defaults(config: Map<Seq<char>, Seq<char>>)
    requires
        config == Map::<Seq<char>, Seq<char>>::empty(),
    ensures
        setting(0).key == "tui.theme"@ && configured(config, setting(0)) == "mocha"@,
        setting(1).key == "tui.toasts"@ && configured(config, setting(1)) == "true"@,
        setting(2).key == "tui.confirm_quit"@ && configured(config, setting(2)) == "true"@,
        setting(3).key == "hints.skills"@ && configured(config, setting(3)) == "true"@,
        setting(4).key == "skill.auto_update"@ && configured(config, setting(4)) == "false"@,
        setting(5).key == "remote.default"@ && configured(config, setting(5)) == "false"@,
        setting(6).key == "docker.daemon"@ && configured(config, setting(6)) == "auto"@,
        SettingsView::opened(config).values.len() == 7,
        SettingsView::opened(config).cursor == 0,
{
}

/// Law: what the configuration says of a setting is what it is.
pub proof fn configured_values_count(config: Map<Seq<char>, Seq<char>>, i: int)
    requires
        0 <= i < 7,
        config.dom().contains(setting(i).key),
    ensures
        configured(config, setting(i)) == config[setting(i).key],
        SettingsView::opened(config).values[i] == config[setting(i).key],
{
}

/// Law: a switch is turned to the other value, whichever way it is changed; a
/// setting with several values goes through them in order, and round. The theme
/// goes from mocha to latte to auto.
pub proof fn settings_change_in_order(i: int, k: int)
    requires
        0 <= i < 7,
    ensures
        1 <= i <= 5 ==> {
            &&& next_value(setting(i), "true"@, 1) == "false"@
            &&& next_value(setting(i), "false"@, 1) == "true"@
            &&& next_value(setting(i), "true"@, -1i32) == "false"@
            &&& next_value(setting(i), "false"@, -1i32) == "true"@
        },
        setting(i).options matches Some(values) && 0 <= k < values.len() ==> {
            &&& next_value(setting(i), setting(i).options->0[k], 1) == setting(i).options->0[if k
                + 1 < setting(i).options->0.len() {
                k + 1
            } else {
                0
            }]
            &&& next_value(setting(i), setting(i).options->0[k], -1i32) == setting(
                i,
            ).options->0[if k > 0 {
                k - 1
            } else {
                setting(i).options->0.len() - 1
            }]
        },
        setting(0).options == Some(seq!["mocha"@, "latte"@, "auto"@]),
        setting(6).options == Some(
            seq!["auto"@, "orbstack"@, "docker-desktop"@, "colima"@, "rancher-desktop"@],
        ),
{
    reveal_strlit("true");
    reveal_strlit("false");
    assert("true"@.len() == 4 && "false"@.len() == 5);
    if i == 0 || i == 6 {
        let values = setting(i).options->0;
        if 0 <= k < values.len() {
            values_differ();
            assert forall|j: int| 0 <= j < k implies !equal_to(values[k])(values[j]) by {}
            first_index_at(values, equal_to(values[k]), k);
            steps_go_to_the_neighbour(k as usize, values.len());
        }
    }
}

proof fn values_differ()
    ensures
        "mocha"@ != "latte"@,
        "mocha"@ != "auto"@,
        "latte"@ != "auto"@,
        "auto"@ != "orbstack"@,
        "auto"@ != "docker-desktop"@,
        "auto"@ != "colima"@,
        "auto"@ != "rancher-desktop"@,
        "orbstack"@ != "docker-desktop"@,
        "orbstack"@ != "colima"@,
        "orbstack"@ != "rancher-desktop"@,
        "docker-desktop"@ != "colima"@,
        "docker-desktop"@ != "rancher-desktop"@,
        "colima"@ != "rancher-desktop"@,
{
    reveal_strlit("mocha");
    reveal_strlit("latte");
    reveal_strlit("auto");
    reveal_strlit("orbstack");
    reveal_strlit("docker-desktop");
    reveal_strlit("colima");
    reveal_strlit("rancher-desktop");
    assert("mocha"@[0] == 'm');
    assert("latte"@[0] == 'l');
    assert("auto"@[0] == 'a');
    assert("orbstack"@[0] == 'o');
    assert("docker-desktop"@[0] == 'd');
    assert("colima"@[0] == 'c');
    assert("rancher-desktop"@[0] == 'r');
}

/// Law: a value is written under the setting's key and read back from there; the
/// Docker daemon set to auto is taken out of the configuration instead; and no
/// other key changes.
pub proof fn settings_are_written_under_their_key(
    config: Map<Seq<char>, Seq<char>>,
    i: int,
    value: Seq<char>,
)
    requires
        0 <= i < 7,
    ensures
        ({
            let key = setting(i).key;
            let w = write_of(setting(i), value);
            let after = written(config, w);
            &&& if i == 6 && value == "auto"@ {
                w == (WriteView::Unset { key }) && !after.dom().contains(key)
            } else {
                w == (WriteView::Assign { key, value }) && after.dom().contains(key) && after[key]
                    == value
            }
            &&& forall|other: Seq<char>|
                other != key ==> (#[trigger] after.dom().contains(other)
                    <==> config.dom().contains(other)) && (config.dom().contains(other)
                    ==> after[other] == config[other])
        }),
{
}

/// Law: changing the highlighted setting changes it in the overlay, writes it to
/// the configuration that the dashboard goes by, and asks for the same to be
/// written to disk; a new theme shows at once; nothing else changes.
pub proof fn changes_take_effect_at_once(v: TuiView, s: SettingsView, dir: i32)
    requires
        v.modals.settings == Some(s),
        s.cursor < 7,
        s.values.len() == 7,
    ensures
        ({
            let i = s.cursor as int;
            let value = next_value(setting(i), s.values[i], dir);
            let after = v.setting_changed(dir);
            &&& after.modals.settings == Some(
                SettingsView { cursor: s.cursor, values: s.values.update(i, value) },
            )
            &&& s.write(dir) == write_of(setting(i), value)
            &&& after.session.config == written(v.session.config, write_of(setting(i), value))
            &&& i == 0 ==> after.session.palette == if value == "latte"@ || value == "light"@ {
                latte_palette()
            } else {
                mocha_palette()
            }
            &&& i != 0 ==> after.session.palette == v.session.palette
            &&& after.stacks == v.stacks && after.notices == v.notices && after.layout == v.layout
        }),
{
    reveal_strlit("tui.theme");
    reveal_strlit("tui.toasts");
    reveal_strlit("tui.confirm_quit");
    reveal_strlit("hints.skills");
    reveal_strlit("skill.auto_update");
    reveal_strlit("remote.default");
    reveal_strlit("docker.daemon");
    assert("tui.theme"@.len() == 9);
    assert("tui.toasts"@.len() == 10);
    assert("tui.confirm_quit"@.len() == 16);
    assert("hints.skills"@.len() == 12);
    assert("skill.auto_update"@.len() == 17);
    assert("remote.default"@.len() == 14);
    assert("docker.daemon"@.len() == 13);
}

/// Law: a configuration that is read again takes the place of the one before, and
/// its theme shows: latte where it names latte or light, and mocha otherwise.
pub proof fn a_new_configuration_takes_over(v: TuiView, config: Map<Seq<char>, Seq<char>>)
    ensures
        ({
            let after = v.reconfigured(config);
            let light = config.dom().contains("tui.theme"@) && (config["tui.theme"@] == "latte"@
                || config["tui.theme"@] == "light"@);
            &&& after.session.config == config
            &&& after.session.palette == if light {
                latte_palette()
            } else {
                mocha_palette()
            }
            &&& after.stacks == v.stacks && after.notices == v.notices && after.modals == v.modals
        }),
{
    reveal_strlit("mocha");
    reveal_strlit("latte");
    reveal_strlit("light");
    assert("mocha"@[0] == 'm' && "latte"@[0] == 'l' && "light"@[0] == 'l');
}

// ── a taken port ────────────────────────────────────────────────────────

/// Law: what can be done about a taken port. A container can be stopped, and its
/// project taken down where it has one; processes can be killed, exactly those
/// that hold the port; whoever holds it, it can be left alone, which is all
/// where the holder is not known.
pub proof fn remedies_fit_the_holder(h: Holder)
    ensures
        ({
            let r = remedies(h);
            &&& match h {
                Holder::Container { name, project } => {
                    &&& r[0].action == ActionView::StopContainer(name@)
                    &&& r[0].label == "Stop container "@ + name@
                    &&& project matches Some(p) ==> r.len() == 3 && r[1].action
                        == ActionView::ComposeDown(p@) && r[1].label == "Compose down "@ + p@
                        + " (stops the whole project)"@
                    &&& project is None ==> r.len() == 2
                },
                Holder::Process(pids) => {
                    &&& r.len() == 2
                    &&& r[0].action matches ActionView::KillProcess(them) && them.len() == pids.len()
                        && forall|i: int|
                        0 <= i < pids.len() ==> #[trigger] them[i] == pids@[i].0
                    &&& r[0].label == "Kill "@ + processes_label(pids@)
                },
                Holder::Unknown => r.len() == 1,
            }
            &&& r.last().action is Skip && r.last().label == "Skip"@
        }),
{
}

/// Law: a holder is described by what it is: a container by its name, with its
/// project; processes by their names and numbers, set apart by commas.
pub proof fn holders_are_described(h: Holder)
    ensures
        holder_description(h) == match h {
            Holder::Container { name, project: Some(p) } => "container "@ + name@ + " (compose: "@
                + p@ + ")"@,
            Holder::Container { name, project: None } => "container "@ + name@,
            Holder::Process(pids) => joined(
                Seq::new(
                    pids@.len(),
                    |i: int|
                        match pids@[i].1 {
                            Some(n) => n@ + " ("@ + decimal(pids@[i].0 as nat) + ")"@,
                            None => "pid "@ + decimal(pids@[i].0 as nat),
                        },
                ),
                ", "@,
            ),
            Holder::Unknown => "an unknown process"@,
        },
{
    match h {
        Holder::Process(pids) => {
            let a = pids@.map_values(|p: (u32, Option<String>)| process_label(p));
            let b = Seq::new(
                pids@.len(),
                |i: int|
                    match pids@[i].1 {
                        Some(n) => n@ + " ("@ + decimal(pids@[i].0 as nat) + ")"@,
                        None => "pid "@ + decimal(pids@[i].0 as nat),
                    },
            );
            assert(a =~= b);
        },
        _ => {},
    }
}

/// Law: a conflict opens on its first remedy, for the service, the daemon and the
/// port that were found, unless one is open.
pub proof fn conflicts_open_on_the_first_remedy(
    m: ModalsView,
    instance_id: Seq<char>,
    service: Seq<char>,
    port: u16,
    holder: Holder,
)
    ensures
        ({
            let after = m.conflict_opened(instance_id, service, port, holder);
            if m.port_conflict is Some {
                after == m
            } else {
                after == (ModalsView {
                    port_conflict: Some(
                        ConflictView {
                            instance_id,
                            service,
                            port,
                            holder_desc: holder_description(holder),
                            options: remedies(holder),
                            selected: 0,
                        },
                    ),
                    ..m
                })
            }
        }),
{
}

// ── the skill ───────────────────────────────────────────────────────────

/// Law: the hint shows exactly while the settings do not turn hints off, no
/// install is managed, no skill is present, there is a place to keep count, and
/// it was shown fewer than four times.
pub proof fn when_the_hint_may_show(
    hints_setting: Option<Seq<char>>,
    has_installs: bool,
    present: bool,
    config_dir_known: bool,
    state_file: Option<Seq<char>>,
)
    ensures
        may_hint(hints_setting, has_installs, present, config_dir_known, state_file) <==> {
            &&& hints_setting != Some("false"@)
            &&& !has_installs && !present && config_dir_known
            &&& state_file is None || hint_count(state_file->0) <= 3
        },
{
}

/// Law: what the check for the skill does. Managed installs are refreshed without
/// a word where that is configured; otherwise the first stale one, with their
/// number, is put to the user, and nothing where none is stale. Without an
/// install, installing is offered once, where the hint may show and no skill is
/// present.
pub proof fn the_skill_is_checked(
    v: TuiView,
    has_installs: bool,
    auto_update: bool,
    stale: Seq<(String, String)>,
    present: bool,
)
    requires
        stale.len() <= usize::MAX,
    ensures
        ({
            let (after, todo) = v.skill_checked(has_installs, auto_update, stale, present);
            let offers = !has_installs && v.session.skill_hint_eligible && !present;
            let asks = has_installs && !auto_update && stale.len() > 0;
            &&& todo == SkillCheck::AutoUpdate <==> has_installs && auto_update
            &&& todo == SkillCheck::RecordShown <==> offers
            &&& asks ==> after == (TuiView {
                modals: ModalsView {
                    skill_dialog: Some(
                        SkillView {
                            kind: SkillPrompt::Update,
                            from: stale[0].0@,
                            to: stale[0].1@,
                            count: stale.len() as usize,
                        },
                    ),
                    ..v.modals
                },
                ..v
            })
            &&& offers ==> (after.modals.skill_dialog matches Some(d) && d.kind
                == SkillPrompt::Install) && !after.session.skill_hint_eligible
            &&& !asks && !offers ==> after == v
        }),
{
}

/// Law: the hint in the footer shows for eight seconds of every thirty-eight, as
/// long as it may show at all.
pub proof fn the_hint_comes_and_goes(s: SessionView, round: u64, secs: u64)
    requires
        round * 38 + secs <= u64::MAX,
        secs < 38,
    ensures
        s.hints_at((round * 38 + secs) as u64) <==> s.skill_hint_eligible && secs < 8,
{
    assert((round * 38 + secs) % 38 == secs) by (nonlinear_arith)
        requires
            secs < 38,
    ;
}

/// Law: reading the configuration again is told: that it was read, or, as a failure,
/// what was wrong with it.
pub proof fn reloading_is_told(warning: &str)
    ensures
        reload_kind(None) == ToastKind::Info && reload_text(None) == "reloaded from disk"@,
        reload_kind(Some(warning)) == ToastKind::Failed && reload_text(Some(warning)) == warning@,
{
}

/// Law: a stack that is made up here goes by its label, under an id of its own kind, and
/// stands where the dashboard runs.
pub proof fn local_stacks_go_by_their_label(label: Seq<char>)
    ensures
        local_info(label).label == label,
        local_info(label).id == "local::"@ + label,
        local_info(label).cwd == "."@,
{
}

} // verus!
