//! The skill prompt: when the dashboard offers to install or refresh the
//! embedded AI skill, and how often it may hint at it.
use vstd::prelude::*;
use vstd::string::*;

use crate::clock::elapsed_secs;
use crate::text::{
    decimal, first_line, head_line, join_path, joined_path, number, opt_str, opt_text,
    parse_number, parsed, same,
};

use super::{ModalsView, SessionView, SkillDialog, SkillPrompt, SkillView, TuiState, TuiView};

verus! {

/// How often the hint was shown, by the text of its state file: the number in
/// the first line, 0 where there is none.
pub open spec fn hint_count(contents: Seq<char>) -> int {
    match parsed(first_line(contents), u32::MAX as int) {
        Some(n) => n,
        None => 0,
    }
}

/// Whether the install hint may show: not where it is configured away, the
/// skill is there already, or no configuration directory is known; and at most
/// four times.
pub open spec fn may_hint(
    hints_setting: Option<Seq<char>>,
    has_installs: bool,
    present: bool,
    config_dir_known: bool,
    state_file: Option<Seq<char>>,
) -> bool {
    &&& hints_setting != Some("false"@)
    &&& !has_installs
    &&& !present
    &&& config_dir_known
    &&& match state_file {
        Some(contents) => hint_count(contents) < 4,
        None => true,
    }
}

/// Reads how often the hint was shown from the text of its state file.
pub fn hint_count_of(contents: &str) -> (r: u64)
    ensures
        r == hint_count(contents@),
{
    match parse_number(head_line(contents).as_str(), u32::MAX as u64) {
        Some(n) => n,
        None => 0,
    }
}

/// The directory of the user's configuration, by what the environment says of
/// the configuration home and the home directory.
pub fn config_dir(xdg_config_home: Option<&str>, home: Option<&str>) -> (r: Option<String>)
    ensures
        opt_text(r) == match xdg_config_home {
            Some(x) => Some(joined_path(x@, "devme"@)),
            None => match home {
                Some(h) => Some(joined_path(joined_path(h@, ".config"@), "devme"@)),
                None => None,
            },
        },
{
    match xdg_config_home {
        Some(x) => Some(join_path(x, "devme")),
        None => match home {
            Some(h) => Some(join_path(join_path(h, ".config").as_str(), "devme")),
            None => None,
        },
    }
}

/// Decides whether the skill install hint may show. `hints_setting` is the
/// value of `hints.skills`, `state_file` the contents of the backoff file
/// where it can be read.
pub fn check_skill_hint_eligible(
    hints_setting: Option<&str>,
    has_installs: bool,
    present: bool,
    config_dir_known: bool,
    state_file: Option<&str>,
) -> (r: bool)
    ensures
        r == may_hint(
            opt_str(hints_setting),
            has_installs,
            present,
            config_dir_known,
            opt_str(state_file),
        ),
{
    let off = match hints_setting {
        Some(v) => same(v, "false"),
        None => false,
    };
    if off || has_installs || present || !config_dir_known {
        return false;
    }
    match state_file {
        Some(contents) => hint_count_of(contents) < 4,
        None => true,
    }
}

/// The backoff file after the hint was shown once more, at `now` seconds of
/// Unix time.
pub fn record_skill_hint_shown(state_file: Option<&str>, now: u64) -> (r: String)
    requires
        state_file matches Some(contents) ==> hint_count(contents@) < u32::MAX,
    ensures
        r@ == decimal(
            (1 + match state_file {
                Some(contents) => hint_count(contents@),
                None => 0,
            }) as nat,
        ) + "\n"@ + decimal(now as nat),
{
    let count: u64 = match state_file {
        Some(contents) => hint_count_of(contents),
        None => 0,
    };
    let mut r = number(count + 1);
    r.append("\n");
    r.append(number(now).as_str());
    r
}

/// What is left to do outside after the startup check.
#[derive(Debug, Clone, Copy, PartialEq, Eq, Structural)]
pub enum SkillCheck {
    /// Nothing.
    Done,
    /// Refresh the stale installs silently.
    AutoUpdate,
    /// Record that the install prompt was shown.
    RecordShown,
}

/// What carrying out a choice in the skill prompt asks for.
#[derive(Debug, Clone, Copy, PartialEq, Eq, Structural)]
pub enum SkillJob {
    /// Refresh the stale installs; `always` also turns on `skill.auto_update`.
    Update { always: bool },
    /// Install the skill, for the user or for the project.
    Install { global: bool },
}

/// The prompt for stale installs, by the versions of the first.
pub open spec fn update_prompt(stale: Seq<(String, String)>) -> Option<SkillView> {
    if stale.len() == 0 {
        None
    } else {
        Some(
            SkillView {
                kind: SkillPrompt::Update,
                from: stale[0].0@,
                to: stale[0].1@,
                count: stale.len() as usize,
            },
        )
    }
}

/// The prompt that offers a first install.
pub open spec fn install_prompt() -> SkillView {
    SkillView { kind: SkillPrompt::Install, from: Seq::empty(), to: Seq::empty(), count: 0 }
}

impl TuiView {
    /// The state after the startup check, and what is left to do.
    pub open spec fn skill_checked(
        self,
        has_installs: bool,
        auto_update: bool,
        stale: Seq<(String, String)>,
        present: bool,
    ) -> (TuiView, SkillCheck) {
        if has_installs {
            if auto_update {
                (self, SkillCheck::AutoUpdate)
            } else {
                (
                    match update_prompt(stale) {
                        Some(d) => TuiView {
                            modals: ModalsView { skill_dialog: Some(d), ..self.modals },
                            ..self
                        },
                        None => self,
                    },
                    SkillCheck::Done,
                )
            }
        } else if !self.session.skill_hint_eligible || present {
            (self, SkillCheck::Done)
        } else {
            (
                TuiView {
                    modals: ModalsView { skill_dialog: Some(install_prompt()), ..self.modals },
                    session: SessionView { skill_hint_eligible: false, ..self.session },
                    ..self
                },
                SkillCheck::RecordShown,
            )
        }
    }
}

impl SessionView {
    /// The footer shows the hint in the first eight seconds of every
    /// thirty-eight.
    pub open spec fn hints_at(self, secs: u64) -> bool {
        self.skill_hint_eligible && secs % 38 < 8
    }
}

impl TuiState {
    /// True when the footer should show the skill hint instead of keybindings.
    /// Alternates: 8s hint, 30s keybindings.
    pub fn show_skill_hint(&self) -> (r: bool)
        ensures
            exists|secs: u64| r == #[trigger] self@.session.hints_at(secs),
    {
        self.show_skill_hint_at(elapsed_secs(&self.session.started_at))
    }

    /// [`show_skill_hint`](Self::show_skill_hint), `secs` seconds after the
    /// start.
    pub fn show_skill_hint_at(&self, secs: u64) -> (r: bool)
        ensures
            r == self@.session.hints_at(secs),
    {
        self.session.skill_hint_eligible && secs % 38 < 8
    }

    /// Decides, once at startup, whether to show a skill modal. An install
    /// that may update itself is refreshed silently, a stale one gets the
    /// update modal; where nothing is installed and the hint is still
    /// eligible, the install modal shows, in place of the footer hint.
    pub fn check_skill_prompt(
        &mut self,
        has_installs: bool,
        auto_update: bool,
        stale: &Vec<(String, String)>,
        present: bool,
    ) -> (r: SkillCheck)
        requires
            old(self).wf(),
        ensures
            final(self).wf(),
            (final(self)@, r) == old(self)@.skill_checked(
                has_installs,
                auto_update,
                stale@,
                present,
            ),
    {
        if has_installs {
            if auto_update {
                return SkillCheck::AutoUpdate;
            }
            if stale.len() > 0 {
                self.modals.skill_dialog = Some(
                    SkillDialog {
                        kind: SkillPrompt::Update,
                        from: stale[0].0.clone(),
                        to: stale[0].1.clone(),
                        count: stale.len(),
                    },
                );
            }
            return SkillCheck::Done;
        }
        if !self.session.skill_hint_eligible || present {
            return SkillCheck::Done;
        }
        self.modals.skill_dialog = Some(
            SkillDialog {
                kind: SkillPrompt::Install,
                from: String::new(),
                to: String::new(),
                count: 0,
            },
        );
        assert(self.modals.skill_dialog->0@ =~= install_prompt());
        self.session.skill_hint_eligible = false;
        SkillCheck::RecordShown
    }

    pub fn skill_dialog(&self) -> (r: Option<&SkillDialog>)
        ensures
            match r {
                Some(d) => self@.modals.skill_dialog == Some(d@),
                None => self@.modals.skill_dialog is None,
            },
    {
        self.modals.skill_dialog.as_ref()
    }

    pub fn skill_dialog_visible(&self) -> (r: bool)
        ensures
            r == (self@.modals.skill_dialog is Some),
    {
        self.modals.skill_dialog.is_some()
    }

    pub fn dismiss_skill_dialog(&mut self)
        requires
            old(self).wf(),
        ensures
            final(self).wf(),
            final(self)@ == (TuiView {
                modals: ModalsView { skill_dialog: None, ..old(self)@.modals },
                ..old(self)@
            }),
    {
        self.modals.skill_dialog = None;
    }

    /// Accepts the update prompt: closes the dialog and hands back the update
    /// to carry out.
    pub fn apply_skill_update(&mut self, always: bool) -> (r: SkillJob)
        requires
            old(self).wf(),
        ensures
            final(self).wf(),
            r == (SkillJob::Update { always }),
            final(self)@ == (TuiView {
                modals: ModalsView { skill_dialog: None, ..old(self)@.modals },
                ..old(self)@
            }),
    {
        self.modals.skill_dialog = None;
        SkillJob::Update { always }
    }

    /// Accepts the install prompt: closes the dialog and hands back the
    /// install to carry out.
    pub fn apply_skill_install(&mut self, global: bool) -> (r: SkillJob)
        requires
            old(self).wf(),
        ensures
            final(self).wf(),
            r == (SkillJob::Install { global }),
            final(self)@ == (TuiView {
                modals: ModalsView { skill_dialog: None, ..old(self)@.modals },
                ..old(self)@
            }),
    {
        self.modals.skill_dialog = None;
        SkillJob::Install { global }
    }

    /// Keeps the footer hint away for the rest of the session.
    pub fn suppress_skill_hint(&mut self)
        requires
            old(self).wf(),
        ensures
            final(self).wf(),
            final(self)@ == (TuiView {
                session: SessionView { skill_hint_eligible: false, ..old(self)@.session },
                ..old(self)@
            }),
    {
        self.session.skill_hint_eligible = false;
    }
}

} // verus!
