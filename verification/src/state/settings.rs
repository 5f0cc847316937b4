//! The settings overlay: a front-end over the global configuration. Changes
//! apply live and are handed back to be persisted.
use std::time::Instant;

use vstd::prelude::*;

use crate::config::GlobalConfig;
use crate::lists::{first_index, first_index_at, first_index_none, looked_up};
use crate::text::{same, texts};
use crate::theme::{previewed, Palette};

use super::conflict::{wrap, wrapped};
use super::{
    Modals, ModalsView, SessionView, SettingsState, SettingsView, ToastKind, TuiState, TuiView,
    SETTING_COUNT,
};

verus! {

/// How a setting is edited.
pub enum SettingControl {
    /// A boolean, stored as the strings "true"/"false".
    Toggle,
    /// One of a fixed set of values.
    Choice(Vec<&'static str>),
}

/// One editable row in the settings overlay.
pub struct SettingDef {
    /// Config key, such as `tui.theme`.
    pub key: &'static str,
    pub label: &'static str,
    pub desc: &'static str,
    pub control: SettingControl,
    /// Value shown when the key is unset.
    pub default: &'static str,
    /// A choice that means "leave the key unset": selecting it removes the key
    /// rather than writing a literal.
    pub unset_value: Option<&'static str>,
}

#[verifier::ext_equal]
pub ghost struct DefView {
    pub key: Seq<char>,
    pub label: Seq<char>,
    pub desc: Seq<char>,
    /// The values to choose from; `None` for a toggle.
    pub options: Option<Seq<Seq<char>>>,
    pub default: Seq<char>,
    pub unset_value: Option<Seq<char>>,
}

/// The characters of a list of literals.
pub open spec fn literals(v: Seq<&'static str>) -> Seq<Seq<char>> {
    v.map_values(|s: &'static str| s@)
}

impl View for SettingDef {
    type V = DefView;

    open spec fn view(&self) -> DefView {
        DefView {
            key: self.key@,
            label: self.label@,
            desc: self.desc@,
            options: match self.control {
                SettingControl::Toggle => None,
                SettingControl::Choice(opts) => Some(literals(opts@)),
            },
            default: self.default@,
            unset_value: match self.unset_value {
                Some(v) => Some(v@),
                None => None,
            },
        }
    }
}

/// A boolean setting.
pub open spec fn toggle(
    key: Seq<char>,
    label: Seq<char>,
    desc: Seq<char>,
    default: Seq<char>,
) -> DefView {
    DefView { key, label, desc, options: None, default, unset_value: None }
}

/// The setting in row `i` of the overlay.
pub open spec fn setting(i: int) -> DefView {
    if i == 0 {
        DefView {
            key: "tui.theme"@,
            label: "Theme"@,
            desc: "Colour palette for the TUI"@,
            options: Some(seq!["mocha"@, "latte"@, "auto"@]),
            default: "mocha"@,
            unset_value: None,
        }
    } else if i == 1 {
        toggle(
            "tui.toasts"@,
            "Notifications"@,
            "Pop a toast when a service crashes or recovers"@,
            "true"@,
        )
    } else if i == 2 {
        toggle(
            "tui.confirm_quit"@,
            "Confirm quit"@,
            "Ask before quitting (which stops every service)"@,
            "true"@,
        )
    } else if i == 3 {
        toggle(
            "hints.skills"@,
            "Skill hint"@,
            "Show the AI-skill install hint in the footer"@,
            "true"@,
        )
    } else if i == 4 {
        toggle(
            "skill.auto_update"@,
            "Auto-update skill"@,
            "Refresh the embedded AI skill when devme updates"@,
            "false"@,
        )
    } else if i == 5 {
        toggle(
            "remote.default"@,
            "Remote by default"@,
            "Bare `devme` syncs + attaches to the remote host (needs remote.host)"@,
            "false"@,
        )
    } else {
        DefView {
            key: "docker.daemon"@,
            label: "Docker daemon"@,
            desc: "Which daemon to start when Docker isn't running"@,
            options: Some(
                seq!["auto"@, "orbstack"@, "docker-desktop"@, "colima"@, "rancher-desktop"@],
            ),
            default: "auto"@,
            unset_value: Some("auto"@),
        }
    }
}

fn toggle_def(
    key: &'static str,
    label: &'static str,
    desc: &'static str,
    default: &'static str,
) -> (r: SettingDef)
    ensures
        r@ == toggle(key@, label@, desc@, default@),
{
    SettingDef { key, label, desc, control: SettingControl::Toggle, default, unset_value: None }
}

/// The settings that the overlay exposes, in order.
pub fn settings_table() -> (r: Vec<SettingDef>)
    ensures
        r@.len() == SETTING_COUNT,
        forall|i: int| 0 <= i < r@.len() ==> (#[trigger] r@[i])@ == setting(i),
{
    let mut r: Vec<SettingDef> = Vec::new();
    let mut themes: Vec<&'static str> = Vec::new();
    themes.push("mocha");
    themes.push("latte");
    themes.push("auto");
    assert(literals(themes@) =~= seq!["mocha"@, "latte"@, "auto"@]);
    r.push(
        SettingDef {
            key: "tui.theme",
            label: "Theme",
            desc: "Colour palette for the TUI",
            control: SettingControl::Choice(themes),
            default: "mocha",
            unset_value: None,
        },
    );
    r.push(
        toggle_def(
            "tui.toasts",
            "Notifications",
            "Pop a toast when a service crashes or recovers",
            "true",
        ),
    );
    r.push(
        toggle_def(
            "tui.confirm_quit",
            "Confirm quit",
            "Ask before quitting (which stops every service)",
            "true",
        ),
    );
    r.push(
        toggle_def(
            "hints.skills",
            "Skill hint",
            "Show the AI-skill install hint in the footer",
            "true",
        ),
    );
    r.push(
        toggle_def(
            "skill.auto_update",
            "Auto-update skill",
            "Refresh the embedded AI skill when devme updates",
            "false",
        ),
    );
    r.push(
        toggle_def(
            "remote.default",
            "Remote by default",
            "Bare `devme` syncs + attaches to the remote host (needs remote.host)",
            "false",
        ),
    );
    let mut daemons: Vec<&'static str> = Vec::new();
    daemons.push("auto");
    daemons.push("orbstack");
    daemons.push("docker-desktop");
    daemons.push("colima");
    daemons.push("rancher-desktop");
    assert(literals(daemons@) =~= seq![
        "auto"@,
        "orbstack"@,
        "docker-desktop"@,
        "colima"@,
        "rancher-desktop"@,
    ]);
    r.push(
        SettingDef {
            key: "docker.daemon",
            label: "Docker daemon",
            desc: "Which daemon to start when Docker isn't running",
            control: SettingControl::Choice(daemons),
            default: "auto",
            unset_value: Some("auto"),
        },
    );
    r
}

/// What an overlay edit should do to the configuration file: write a value, or
/// remove the key.
#[derive(Debug, PartialEq, Eq)]
pub enum SettingWrite {
    Assign { key: &'static str, value: String },
    Unset { key: &'static str },
}

#[verifier::ext_equal]
pub ghost enum WriteView {
    Assign { key: Seq<char>, value: Seq<char> },
    Unset { key: Seq<char> },
}

impl View for SettingWrite {
    type V = WriteView;

    open spec fn view(&self) -> WriteView {
        match *self {
            SettingWrite::Assign { key, value } => WriteView::Assign { key: key@, value: value@ },
            SettingWrite::Unset { key } => WriteView::Unset { key: key@ },
        }
    }
}

impl SettingWrite {
    pub fn key(&self) -> (r: &'static str)
        ensures
            r@ == match self@ {
                WriteView::Assign { key, .. } => key,
                WriteView::Unset { key } => key,
            },
    {
        match self {
            SettingWrite::Assign { key, .. } => *key,
            SettingWrite::Unset { key } => *key,
        }
    }
}

/// The options equal to a value.
pub open spec fn equal_to(value: Seq<char>) -> spec_fn(Seq<char>) -> bool {
    |o: Seq<char>| o == value
}

/// The value that follows `current` in direction `dir`: the other truth value,
/// or the choice `dir` places on around the ring, a value that is no choice
/// counting as the first.
pub open spec fn next_value(def: DefView, current: Seq<char>, dir: i32) -> Seq<char> {
    match def.options {
        None => if current == "true"@ {
            "false"@
        } else {
            "true"@
        },
        Some(opts) => {
            let i = match first_index(opts, equal_to(current)) {
                Some(i) => i,
                None => 0,
            };
            opts[wrapped(i as usize, dir, opts.len()) as int]
        },
    }
}

/// What choosing `value` writes.
pub open spec fn write_of(def: DefView, value: Seq<char>) -> WriteView {
    if def.unset_value == Some(value) {
        WriteView::Unset { key: def.key }
    } else {
        WriteView::Assign { key: def.key, value }
    }
}

/// The configuration after a write.
pub open spec fn written(config: Map<Seq<char>, Seq<char>>, w: WriteView) -> Map<
    Seq<char>,
    Seq<char>,
> {
    match w {
        WriteView::Assign { key, value } => config.insert(key, value),
        WriteView::Unset { key } => config.remove(key),
    }
}

/// The value that the configuration gives a setting.
pub open spec fn configured(config: Map<Seq<char>, Seq<char>>, def: DefView) -> Seq<char> {
    match looked_up(config, def.key) {
        Some(v) => v,
        None => def.default,
    }
}

impl SettingsView {
    /// The overlay as it opens: first row, each setting at its configured
    /// value.
    pub open spec fn opened(config: Map<Seq<char>, Seq<char>>) -> SettingsView {
        SettingsView {
            cursor: 0,
            values: Seq::new(SETTING_COUNT as nat, |i: int| configured(config, setting(i))),
        }
    }

    /// The value that a change in direction `dir` gives the focused setting.
    pub open spec fn next(self, dir: i32) -> Seq<char> {
        next_value(setting(self.cursor as int), self.values[self.cursor as int], dir)
    }

    /// The overlay after the focused setting changed.
    pub open spec fn changed(self, dir: i32) -> SettingsView {
        SettingsView {
            values: self.values.update(self.cursor as int, self.next(dir)),
            ..self
        }
    }

    /// What a change in direction `dir` writes.
    pub open spec fn write(self, dir: i32) -> WriteView {
        write_of(setting(self.cursor as int), self.next(dir))
    }
}

impl SessionView {
    /// Quitting asks first unless configured otherwise.
    pub open spec fn confirms_quit(self) -> bool {
        looked_up(self.config, "tui.confirm_quit"@) != Some("false"@)
    }

    /// The session after an edit in the overlay: the configuration follows,
    /// and a new theme shows at once.
    pub open spec fn edited(self, s: SettingsView, dir: i32) -> SessionView {
        SessionView {
            config: written(self.config, s.write(dir)),
            palette: if setting(s.cursor as int).key == "tui.theme"@ {
                previewed(s.next(dir))
            } else {
                self.palette
            },
            ..self
        }
    }

    /// The session after the configuration was read anew.
    pub open spec fn reconfigured(self, config: Map<Seq<char>, Seq<char>>) -> SessionView {
        SessionView {
            config,
            palette: previewed(
                match looked_up(config, "tui.theme"@) {
                    Some(t) => t,
                    None => "mocha"@,
                },
            ),
            ..self
        }
    }
}

impl TuiView {
    /// The state after the configuration was read anew.
    pub open spec fn reconfigured(self, config: Map<Seq<char>, Seq<char>>) -> TuiView {
        TuiView { session: self.session.reconfigured(config), ..self }
    }

    /// The state after the focused setting changed.
    pub open spec fn setting_changed(self, dir: i32) -> TuiView {
        match self.modals.settings {
            Some(s) => TuiView {
                modals: ModalsView { settings: Some(s.changed(dir)), ..self.modals },
                session: self.session.edited(s, dir),
                ..self
            },
            None => self,
        }
    }
}

fn option_index(opts: &Vec<&'static str>, value: &str) -> (r: usize)
    requires
        opts@.len() > 0,
    ensures
        r < opts@.len(),
        r == match first_index(literals(opts@), equal_to(value@)) {
            Some(i) => i,
            None => 0,
        },
{
    let ghost s = literals(opts@);
    let ghost p = equal_to(value@);
    let mut i: usize = 0;
    while i < opts.len()
        invariant
            i <= opts.len(),
            s == literals(opts@),
            p == equal_to(value@),
            forall|j: int| 0 <= j < i ==> !p(s[j]),
        decreases opts.len() - i,
    {
        assert(s[i as int] == opts@[i as int]@);
        if same(opts[i], value) {
            proof {
                first_index_at(s, p, i as int);
            }
            return i;
        }
        i = i + 1;
    }
    proof {
        first_index_none(s, p);
    }
    0
}

/// The next value of a setting.
fn next_setting_value(def: &SettingDef, current: &str, dir: i32) -> (r: String)
    requires
        def@.options matches Some(o) ==> 0 < o.len() <= 1000,
    ensures
        r@ == next_value(def@, current@, dir),
{
    match &def.control {
        SettingControl::Toggle => if same(current, "true") {
            "false".to_owned()
        } else {
            "true".to_owned()
        },
        SettingControl::Choice(opts) => {
            let i: usize = option_index(opts, current);
            let k: usize = wrap(i, dir, opts.len());
            assert(literals(opts@)[k as int] == opts@[k as int]@);
            opts[k].to_owned()
        },
    }
}

impl Modals {
    /// Changes the focused setting in the overlay; gives back the new value
    /// and the row.
    fn change_setting(&mut self, dir: i32) -> (r: Option<(usize, String)>)
        requires
            old(self)@.wf(),
        ensures
            final(self)@.wf(),
            match r {
                Some((row, value)) => old(self)@.settings matches Some(s) && row == s.cursor
                    && value@ == s.next(dir) && final(self)@ == (ModalsView {
                    settings: Some(s.changed(dir)),
                    ..old(self)@
                }),
                None => old(self)@.settings is None && final(self)@ == old(self)@,
            },
    {
        match self.settings.take() {
            Some(s) => {
                let cursor: usize = s.cursor;
                let mut values = s.values;
                let ghost vs = texts(values@);
                let table = settings_table();
                assert(vs[cursor as int] == values@[cursor as int]@);
                let next = next_setting_value(&table[cursor], values[cursor].as_str(), dir);
                values[cursor] = next.clone();
                assert(texts(values@) =~= vs.update(cursor as int, next@));
                self.settings = Some(SettingsState { cursor, values });
                Some((cursor, next))
            },
            None => None,
        }
    }

    fn move_settings(&mut self, delta: i32)
        requires
            old(self)@.wf(),
        ensures
            final(self)@.wf(),
            final(self)@ == old(self)@.settings_moved(delta),
    {
        match self.settings.take() {
            Some(s) => {
                let cursor: usize = wrap(s.cursor, delta, SETTING_COUNT);
                self.settings = Some(SettingsState { cursor, values: s.values });
            },
            None => {},
        }
    }
}

impl ModalsView {
    /// The settings cursor moved by `delta` rows, wrapping.
    pub open spec fn settings_moved(self, delta: i32) -> ModalsView {
        ModalsView {
            settings: match self.settings {
                Some(s) => Some(
                    SettingsView { cursor: wrapped(s.cursor, delta, SETTING_COUNT as nat), ..s },
                ),
                None => None,
            },
            ..self
        }
    }
}

impl TuiState {
    /// Seeds the configuration loaded at startup.
    pub fn set_config(&mut self, config: GlobalConfig)
        requires
            old(self).wf(),
        ensures
            final(self).wf(),
            final(self)@ == (TuiView {
                session: SessionView { config: config@, ..old(self)@.session },
                ..old(self)@
            }),
    {
        self.session.config = config;
    }

    /// Applies a configuration that was read anew, with the warning that
    /// reading it gave, if any: the theme shows at once, and a toast reports
    /// the warning or confirms the reload.
    pub fn reload_config(&mut self, config: GlobalConfig, warning: Option<&str>)
        requires
            old(self).wf(),
        ensures
            final(self).wf(),
            exists|now: Instant|
                final(self)@ == #[trigger] old(self)@.reconfigured(config@).toasted(
                    reload_kind(warning),
                    "config"@,
                    reload_text(warning),
                    true,
                    now,
                ),
    {
        let theme: String = match config.get("tui.theme") {
            Some(t) => t,
            None => "mocha".to_owned(),
        };
        self.session.palette = Palette::preview(theme.as_str());
        self.session.config = config;
        assert(self@ == old(self)@.reconfigured(config@));
        let now = Instant::now();
        match warning {
            Some(w) => self.push_toast_at(ToastKind::Failed, "config", w, true, now),
            None => self.push_toast_at(ToastKind::Info, "config", "reloaded from disk", true, now),
        }
        assert(self@ == old(self)@.reconfigured(config@).toasted(
            reload_kind(warning),
            "config"@,
            reload_text(warning),
            true,
            now,
        ));
    }

    pub fn settings_visible(&self) -> (r: bool)
        ensures
            r == (self@.modals.settings is Some),
    {
        self.modals.settings.is_some()
    }

    pub fn settings(&self) -> (r: Option<&SettingsState>)
        ensures
            match r {
                Some(s) => self@.modals.settings == Some(s@),
                None => self@.modals.settings is None,
            },
    {
        self.modals.settings.as_ref()
    }

    /// Opens the settings overlay, showing each key's current value.
    pub fn open_settings(&mut self)
        requires
            old(self).wf(),
        ensures
            final(self).wf(),
            final(self)@ == (TuiView {
                modals: ModalsView {
                    settings: Some(SettingsView::opened(old(self)@.session.config)),
                    ..old(self)@.modals
                },
                ..old(self)@
            }),
    {
        let table = settings_table();
        let ghost all = SettingsView::opened(self@.session.config).values;
        let mut values: Vec<String> = Vec::new();
        let mut i: usize = 0;
        while i < table.len()
            invariant
                i <= table@.len() == SETTING_COUNT,
                forall|k: int| 0 <= k < table@.len() ==> (#[trigger] table@[k])@ == setting(k),
                all == SettingsView::opened(self@.session.config).values,
                texts(values@) == all.take(i as int),
                *self == *old(self),
            decreases table.len() - i,
        {
            let ghost before = texts(values@);
            let v: String = match self.session.config.get(table[i].key) {
                Some(v) => v,
                None => table[i].default.to_owned(),
            };
            assert(table@[i as int]@ == setting(i as int));
            assert(v@ == all[i as int]);
            values.push(v);
            assert(texts(values@) =~= before.push(all[i as int]));
            i = i + 1;
            assert(all.take(i as int) =~= before.push(all[i - 1]));
        }
        assert(all.take(i as int) =~= all);
        self.modals.settings = Some(SettingsState { cursor: 0, values });
    }

    pub fn close_settings(&mut self)
        requires
            old(self).wf(),
        ensures
            final(self).wf(),
            final(self)@ == (TuiView {
                modals: ModalsView { settings: None, ..old(self)@.modals },
                ..old(self)@
            }),
    {
        self.modals.settings = None;
    }

    /// Moves the settings cursor by `delta` rows, wrapping.
    pub fn settings_move(&mut self, delta: i32)
        requires
            old(self).wf(),
        ensures
            final(self).wf(),
            final(self)@ == (TuiView {
                modals: old(self)@.modals.settings_moved(delta),
                ..old(self)@
            }),
    {
        self.modals.move_settings(delta);
    }

    /// Changes the focused setting: `dir` is 1 for the next value, -1 for the
    /// one before. Applies it live and returns the write to persist, or `None`
    /// if the overlay is not open.
    pub fn settings_change(&mut self, dir: i32) -> (r: Option<SettingWrite>)
        requires
            old(self).wf(),
        ensures
            final(self).wf(),
            final(self)@ == old(self)@.setting_changed(dir),
            match r {
                Some(w) => old(self)@.modals.settings matches Some(s) && w@ == s.write(dir),
                None => old(self)@.modals.settings is None,
            },
    {
        match self.modals.change_setting(dir) {
            Some((row, next)) => {
                let table = settings_table();
                let def = &table[row];
                assert(def@ == setting(row as int));
                let unset = match def.unset_value {
                    Some(v) => same(v, next.as_str()),
                    None => false,
                };
                if unset {
                    self.session.config.unset(def.key);
                } else {
                    self.session.config.set(def.key, next.as_str());
                }
                if same(def.key, "tui.theme") {
                    self.session.palette = Palette::preview(next.as_str());
                }
                if unset {
                    Some(SettingWrite::Unset { key: def.key })
                } else {
                    Some(SettingWrite::Assign { key: def.key, value: next })
                }
            },
            None => None,
        }
    }

    /// Whether quitting should pop a confirmation first. On unless
    /// `tui.confirm_quit` is `false`, since quitting stops every service.
    pub fn confirm_quit_enabled(&self) -> (r: bool)
        ensures
            r == self@.session.confirms_quit(),
    {
        match self.session.config.get("tui.confirm_quit") {
            Some(v) => !same(v.as_str(), "false"),
            None => true,
        }
    }
}

/// How a reload of the configuration is announced.
pub open spec fn reload_kind(warning: Option<&str>) -> ToastKind {
    match warning {
        Some(_) => ToastKind::Failed,
        None => ToastKind::Info,
    }
}

pub open spec fn reload_text(warning: Option<&str>) -> Seq<char> {
    match warning {
        Some(w) => w@,
        None => "reloaded from disk"@,
    }
}

} // verus!
