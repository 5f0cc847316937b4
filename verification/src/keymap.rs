//! The main view's keymap: the single source for keybindings.
//!
//! Every main-view shortcut is an [`Action`]. [`bindings`] gives each action
//! the key label and description of the help overlay, and [`resolve`] maps a
//! key to its action. The laws at the end say that the two cover the same
//! actions, so that neither can drift from the other.
use vstd::prelude::*;

use crate::lists::views;

verus! {

/// A key, as far as the dashboard tells keys apart.
#[derive(Debug, Clone, Copy, PartialEq, Eq, Structural)]
pub enum KeyCode {
    Char(char),
    Left,
    Right,
    Up,
    Down,
    PageUp,
    PageDown,
    Enter,
    Esc,
    Backspace,
    Other,
}

/// A key press.
#[derive(Debug, Clone, Copy, PartialEq, Eq, Structural)]
pub struct KeyEvent {
    pub code: KeyCode,
    /// The control key was held.
    pub ctrl: bool,
}

/// A main-view action a key can trigger. One variant per distinct behavior.
#[derive(Clone, Copy, PartialEq, Eq, Hash, Debug, Structural)]
pub enum Action {
    NextService,
    PrevService,
    NextStack,
    PrevStack,
    ToggleSidebar,
    PageUp,
    PageDown,
    HalfPageUp,
    HalfPageDown,
    LineDown,
    LineUp,
    ScrollTop,
    ScrollBottom,
    CopyVisibleLogs,
    CopyAllLogs,
    CopyDebugPrompt,
    CopyMode,
    ZoomLogs,
    StartService,
    StopService,
    RestartService,
    OpenUrl,
    CopyUrl,
    AddWorktree,
    RemoveWorktree,
    StackInfo,
    Settings,
    Notifications,
    ReloadConfig,
    Detach,
    Quit,
    ToggleHelp,
}

/// Help-overlay grouping.
#[derive(Clone, Copy, PartialEq, Eq, Debug, Structural)]
pub enum Section {
    Navigation,
    LogViewport,
    ServiceActions,
    Worktrees,
    Session,
}

impl Section {
    /// The sections in the order in which they render.
    pub open spec fn ordered() -> Seq<Section> {
        seq![
            Section::Navigation,
            Section::LogViewport,
            Section::ServiceActions,
            Section::Worktrees,
            Section::Session,
        ]
    }

    pub fn order() -> (r: Vec<Section>)
        ensures
            r@ == Section::ordered(),
    {
        let r = vec![
            Section::Navigation,
            Section::LogViewport,
            Section::ServiceActions,
            Section::Worktrees,
            Section::Session,
        ];
        assert(r@ =~= Section::ordered());
        r
    }

    pub open spec fn title_text(self) -> Seq<char> {
        match self {
            Section::Navigation => "navigation"@,
            Section::LogViewport => "log viewport"@,
            Section::ServiceActions => "service actions"@,
            Section::Worktrees => "worktrees"@,
            Section::Session => "session"@,
        }
    }

    pub fn title(self) -> (r: &'static str)
        ensures
            r@ == self.title_text(),
    {
        match self {
            Section::Navigation => "navigation",
            Section::LogViewport => "log viewport",
            Section::ServiceActions => "service actions",
            Section::Worktrees => "worktrees",
            Section::Session => "session",
        }
    }
}

/// A terse hint in the bottom status bar: a compact key label and a one-word
/// action.
pub struct FooterHint {
    pub keys: &'static str,
    pub label: &'static str,
}

impl View for FooterHint {
    type V = (Seq<char>, Seq<char>);

    open spec fn view(&self) -> (Seq<char>, Seq<char>) {
        (self.keys@, self.label@)
    }
}

/// One help line: a key label, its description, and the actions it documents.
/// `footer` opts the binding into the bottom status bar.
pub struct Binding {
    pub keys: &'static str,
    pub desc: &'static str,
    pub section: Section,
    pub actions: Vec<Action>,
    pub footer: Option<FooterHint>,
}

#[verifier::ext_equal]
pub ghost struct BindingView {
    pub keys: Seq<char>,
    pub desc: Seq<char>,
    pub section: Section,
    pub actions: Seq<Action>,
    pub footer: Option<(Seq<char>, Seq<char>)>,
}

impl View for Binding {
    type V = BindingView;

    open spec fn view(&self) -> BindingView {
        BindingView {
            keys: self.keys@,
            desc: self.desc@,
            section: self.section,
            actions: self.actions@,
            footer: crate::lists::opt_view(self.footer),
        }
    }
}

/// One entry of the table.
pub open spec fn entry(
    keys: Seq<char>,
    desc: Seq<char>,
    section: Section,
    actions: Seq<Action>,
    footer: Option<(Seq<char>, Seq<char>)>,
) -> BindingView {
    BindingView { keys, desc, section, actions, footer }
}

/// The help overlay's table, in order.
pub open spec fn binding_table() -> Seq<BindingView> {
    seq![
        entry("←→ / hl"@, "service tab"@, Section::Navigation, seq![Action::PrevService, Action::NextService], Some(("hl"@, "svc"@))),
        entry("↑↓ / jk"@, "stack"@, Section::Navigation, seq![Action::PrevStack, Action::NextStack], Some(("jk"@, "stack"@))),
        entry("`"@, "collapse / expand sidebar"@, Section::Navigation, seq![Action::ToggleSidebar], None),
        entry("b / space"@, "page up / down (f also pages down)"@, Section::LogViewport, seq![Action::PageUp, Action::PageDown], None),
        entry("^u / ^d"@, "half-page up / down"@, Section::LogViewport, seq![Action::HalfPageUp, Action::HalfPageDown], None),
        entry("J / K"@, "scroll one line"@, Section::LogViewport, seq![Action::LineDown, Action::LineUp], None),
        entry("g / G"@, "top / live tail"@, Section::LogViewport, seq![Action::ScrollTop, Action::ScrollBottom], None),
        entry("y / Y"@, "copy visible / all logs"@, Section::LogViewport, seq![Action::CopyVisibleLogs, Action::CopyAllLogs], None),
        entry("p"@, "copy debug prompt to clipboard"@, Section::LogViewport, seq![Action::CopyDebugPrompt], None),
        entry("v"@, "copy mode (select text)"@, Section::LogViewport, seq![Action::CopyMode], None),
        entry("z"@, "zoom logs (fullscreen)"@, Section::LogViewport, seq![Action::ZoomLogs], None),
        entry("S / s / r"@, "start / stop / restart selected"@, Section::ServiceActions, seq![Action::StartService, Action::StopService, Action::RestartService], Some(("S/s/r"@, "start/stop/restart"@))),
        entry("o / c"@, "open / copy service URL"@, Section::ServiceActions, seq![Action::OpenUrl, Action::CopyUrl], Some(("o"@, "open"@))),
        entry("w"@, "new worktree (prompts for branch)"@, Section::Worktrees, seq![Action::AddWorktree], None),
        entry("x"@, "remove selected worktree (confirms)"@, Section::Worktrees, seq![Action::RemoveWorktree], None),
        entry("i"@, "stack info (branch / path / slot / PR)"@, Section::Session, seq![Action::StackInfo], None),
        entry(","@, "settings"@, Section::Session, seq![Action::Settings], None),
        entry("n"@, "notifications history"@, Section::Session, seq![Action::Notifications], None),
        entry("R"@, "reload global config"@, Section::Session, seq![Action::ReloadConfig], None),
        entry("D"@, "detach (keep services running)"@, Section::Session, seq![Action::Detach], None),
        entry("q / ^c / Esc"@, "quit: stop all, detach, or cancel"@, Section::Session, seq![Action::Quit], Some(("q"@, "quit"@))),
        entry("?"@, "toggle this overlay"@, Section::Session, seq![Action::ToggleHelp], Some(("?"@, "help"@))),
    ]
}

fn bind(
    keys: &'static str,
    desc: &'static str,
    section: Section,
    actions: Vec<Action>,
    footer: Option<FooterHint>,
) -> (r: Binding)
    ensures
        r@ == entry(keys@, desc@, section, actions@, crate::lists::opt_view(footer)),
{
    Binding { keys, desc, section, actions, footer }
}

/// The source of truth for the help overlay.
pub fn bindings() -> (r: Vec<Binding>)
    ensures
        views(r@) == binding_table(),
{
    let mut r: Vec<Binding> = Vec::new();
    r.push(bind("←→ / hl", "service tab", Section::Navigation, vec![Action::PrevService, Action::NextService], Some(FooterHint { keys: "hl", label: "svc" })));
    r.push(bind("↑↓ / jk", "stack", Section::Navigation, vec![Action::PrevStack, Action::NextStack], Some(FooterHint { keys: "jk", label: "stack" })));
    r.push(bind("`", "collapse / expand sidebar", Section::Navigation, vec![Action::ToggleSidebar], None));
    r.push(bind("b / space", "page up / down (f also pages down)", Section::LogViewport, vec![Action::PageUp, Action::PageDown], None));
    r.push(bind("^u / ^d", "half-page up / down", Section::LogViewport, vec![Action::HalfPageUp, Action::HalfPageDown], None));
    r.push(bind("J / K", "scroll one line", Section::LogViewport, vec![Action::LineDown, Action::LineUp], None));
    r.push(bind("g / G", "top / live tail", Section::LogViewport, vec![Action::ScrollTop, Action::ScrollBottom], None));
    r.push(bind("y / Y", "copy visible / all logs", Section::LogViewport, vec![Action::CopyVisibleLogs, Action::CopyAllLogs], None));
    r.push(bind("p", "copy debug prompt to clipboard", Section::LogViewport, vec![Action::CopyDebugPrompt], None));
    r.push(bind("v", "copy mode (select text)", Section::LogViewport, vec![Action::CopyMode], None));
    r.push(bind("z", "zoom logs (fullscreen)", Section::LogViewport, vec![Action::ZoomLogs], None));
    r.push(bind("S / s / r", "start / stop / restart selected", Section::ServiceActions, vec![Action::StartService, Action::StopService, Action::RestartService], Some(FooterHint { keys: "S/s/r", label: "start/stop/restart" })));
    r.push(bind("o / c", "open / copy service URL", Section::ServiceActions, vec![Action::OpenUrl, Action::CopyUrl], Some(FooterHint { keys: "o", label: "open" })));
    r.push(bind("w", "new worktree (prompts for branch)", Section::Worktrees, vec![Action::AddWorktree], None));
    r.push(bind("x", "remove selected worktree (confirms)", Section::Worktrees, vec![Action::RemoveWorktree], None));
    r.push(bind("i", "stack info (branch / path / slot / PR)", Section::Session, vec![Action::StackInfo], None));
    r.push(bind(",", "settings", Section::Session, vec![Action::Settings], None));
    r.push(bind("n", "notifications history", Section::Session, vec![Action::Notifications], None));
    r.push(bind("R", "reload global config", Section::Session, vec![Action::ReloadConfig], None));
    r.push(bind("D", "detach (keep services running)", Section::Session, vec![Action::Detach], None));
    r.push(bind("q / ^c / Esc", "quit: stop all, detach, or cancel", Section::Session, vec![Action::Quit], Some(FooterHint { keys: "q", label: "quit" })));
    r.push(bind("?", "toggle this overlay", Section::Session, vec![Action::ToggleHelp], Some(FooterHint { keys: "?", label: "help" })));
    assert(views(r@) =~~= binding_table());
    r
}

/// The footer hints of a table, in its order.
pub open spec fn hints_of(table: Seq<BindingView>) -> Seq<(Seq<char>, Seq<char>)>
    decreases table.len(),
{
    if table.len() == 0 {
        Seq::empty()
    } else {
        match table.last().footer {
            Some(h) => hints_of(table.drop_last()).push(h),
            None => hints_of(table.drop_last()),
        }
    }
}

/// The bottom-bar hints, in the order of the table: a binding with a footer
/// can't go missing from the bar.
pub fn footer_hints() -> (r: Vec<FooterHint>)
    ensures
        views(r@) == hints_of(binding_table()),
{
    let table = bindings();
    let ghost all = binding_table();
    let mut r: Vec<FooterHint> = Vec::new();
    let mut i: usize = 0;
    assert(views(r@) =~= hints_of(all.take(0)));
    while i < table.len()
        invariant
            i <= table.len(),
            all == views(table@),
            views(r@) == hints_of(all.take(i as int)),
        decreases table.len() - i,
    {
        let ghost before = views(r@);
        assert(all.take(i + 1).drop_last() =~= all.take(i as int));
        assert(all.take(i + 1).last() == table@[i as int]@);
        match &table[i].footer {
            Some(h) => {
                r.push(FooterHint { keys: h.keys, label: h.label });
                assert(views(r@) =~= before.push(h@));
            },
            None => {},
        }
        i = i + 1;
    }
    assert(all.take(i as int) =~= all);
    r
}

/// One non-keyboard hint: a pointer label and what it does.
pub struct MouseNote {
    pub label: &'static str,
    pub desc: &'static str,
}

impl View for MouseNote {
    type V = (Seq<char>, Seq<char>);

    open spec fn view(&self) -> (Seq<char>, Seq<char>) {
        (self.label@, self.desc@)
    }
}

/// Pointer interactions shown in the help overlay's `mouse` section.
pub open spec fn mouse_table() -> Seq<(Seq<char>, Seq<char>)> {
    seq![
        ("click"@, "select stack / service tab"@),
        ("wheel"@, "scroll logs (over tab row: scroll tabs)"@),
        ("drag bar"@, "scrollbar → jump to position"@),
        ("shift+drag"@, "select text (v = clean multi-line)"@),
    ]
}

pub fn mouse_notes() -> (r: Vec<MouseNote>)
    ensures
        views(r@) == mouse_table(),
{
    let mut r: Vec<MouseNote> = Vec::new();
    r.push(MouseNote { label: "click", desc: "select stack / service tab" });
    r.push(MouseNote { label: "wheel", desc: "scroll logs (over tab row: scroll tabs)" });
    r.push(MouseNote { label: "drag bar", desc: "scrollbar → jump to position" });
    r.push(MouseNote { label: "shift+drag", desc: "select text (v = clean multi-line)" });
    assert(views(r@) =~= mouse_table());
    r
}

/// Every action, once.
pub open spec fn action_table() -> Seq<Action> {
    seq![
        Action::NextService,
        Action::PrevService,
        Action::NextStack,
        Action::PrevStack,
        Action::ToggleSidebar,
        Action::PageUp,
        Action::PageDown,
        Action::HalfPageUp,
        Action::HalfPageDown,
        Action::LineDown,
        Action::LineUp,
        Action::ScrollTop,
        Action::ScrollBottom,
        Action::CopyVisibleLogs,
        Action::CopyAllLogs,
        Action::CopyDebugPrompt,
        Action::CopyMode,
        Action::ZoomLogs,
        Action::StartService,
        Action::StopService,
        Action::RestartService,
        Action::OpenUrl,
        Action::CopyUrl,
        Action::AddWorktree,
        Action::RemoveWorktree,
        Action::StackInfo,
        Action::Settings,
        Action::Notifications,
        Action::ReloadConfig,
        Action::Detach,
        Action::Quit,
        Action::ToggleHelp,
    ]
}

pub fn all_actions() -> (r: Vec<Action>)
    ensures
        r@ == action_table(),
{
    let r = vec![
        Action::NextService,
        Action::PrevService,
        Action::NextStack,
        Action::PrevStack,
        Action::ToggleSidebar,
        Action::PageUp,
        Action::PageDown,
        Action::HalfPageUp,
        Action::HalfPageDown,
        Action::LineDown,
        Action::LineUp,
        Action::ScrollTop,
        Action::ScrollBottom,
        Action::CopyVisibleLogs,
        Action::CopyAllLogs,
        Action::CopyDebugPrompt,
        Action::CopyMode,
        Action::ZoomLogs,
        Action::StartService,
        Action::StopService,
        Action::RestartService,
        Action::OpenUrl,
        Action::CopyUrl,
        Action::AddWorktree,
        Action::RemoveWorktree,
        Action::StackInfo,
        Action::Settings,
        Action::Notifications,
        Action::ReloadConfig,
        Action::Detach,
        Action::Quit,
        Action::ToggleHelp,
    ];
    assert(r@ =~= action_table());
    r
}

/// What a key without control does in the main view.
pub open spec fn plain_key(code: KeyCode) -> Option<Action> {
    match code {
        KeyCode::Right => Some(Action::NextService),
        KeyCode::Left => Some(Action::PrevService),
        KeyCode::Down => Some(Action::NextStack),
        KeyCode::Up => Some(Action::PrevStack),
        KeyCode::PageUp => Some(Action::PageUp),
        KeyCode::PageDown => Some(Action::PageDown),
        KeyCode::Esc => Some(Action::Quit),
        KeyCode::Char(c) => letter(c),
        _ => None,
    }
}

/// What a letter does in the main view.
pub open spec fn letter(c: char) -> Option<Action> {
    if c == 'l' {
        Some(Action::NextService)
    } else if c == 'h' {
        Some(Action::PrevService)
    } else if c == 'j' {
        Some(Action::NextStack)
    } else if c == 'k' {
        Some(Action::PrevStack)
    } else if c == '`' {
        Some(Action::ToggleSidebar)
    } else if c == 'b' {
        Some(Action::PageUp)
    } else if c == ' ' || c == 'f' {
        Some(Action::PageDown)
    } else if c == 'J' {
        Some(Action::LineDown)
    } else if c == 'K' {
        Some(Action::LineUp)
    } else if c == 'g' {
        Some(Action::ScrollTop)
    } else if c == 'G' {
        Some(Action::ScrollBottom)
    } else if c == 'y' {
        Some(Action::CopyVisibleLogs)
    } else if c == 'Y' {
        Some(Action::CopyAllLogs)
    } else if c == 'p' {
        Some(Action::CopyDebugPrompt)
    } else if c == 'v' {
        Some(Action::CopyMode)
    } else if c == 'z' {
        Some(Action::ZoomLogs)
    } else if c == 'S' {
        Some(Action::StartService)
    } else if c == 's' {
        Some(Action::StopService)
    } else if c == 'r' {
        Some(Action::RestartService)
    } else if c == 'o' {
        Some(Action::OpenUrl)
    } else if c == 'c' {
        Some(Action::CopyUrl)
    } else if c == 'w' {
        Some(Action::AddWorktree)
    } else if c == 'x' {
        Some(Action::RemoveWorktree)
    } else if c == 'i' {
        Some(Action::StackInfo)
    } else if c == ',' {
        Some(Action::Settings)
    } else if c == 'n' {
        Some(Action::Notifications)
    } else if c == 'R' {
        Some(Action::ReloadConfig)
    } else if c == 'D' {
        Some(Action::Detach)
    } else if c == 'q' {
        Some(Action::Quit)
    } else if c == '?' {
        Some(Action::ToggleHelp)
    } else {
        None
    }
}

/// What a key with control does in the main view.
pub open spec fn ctrl_key(code: KeyCode) -> Option<Action> {
    match code {
        KeyCode::Char(c) => if c == 'u' {
            Some(Action::HalfPageUp)
        } else if c == 'd' {
            Some(Action::HalfPageDown)
        } else if c == 'c' {
            Some(Action::Quit)
        } else {
            None
        },
        _ => None,
    }
}

/// What a key does in the main view.
pub open spec fn bound(k: KeyEvent) -> Option<Action> {
    if k.ctrl {
        ctrl_key(k.code)
    } else {
        plain_key(k.code)
    }
}

/// Maps a key event to its main-view action, or `None` if unbound. The only
/// place where key chords are decoded.
pub fn resolve(k: &KeyEvent) -> (r: Option<Action>)
    ensures
        r == bound(*k),
{
    let c: char = match k.code {
        KeyCode::Char(c) => c,
        code => {
            if k.ctrl {
                return None;
            }
            return match code {
                KeyCode::Right => Some(Action::NextService),
                KeyCode::Left => Some(Action::PrevService),
                KeyCode::Down => Some(Action::NextStack),
                KeyCode::Up => Some(Action::PrevStack),
                KeyCode::PageUp => Some(Action::PageUp),
                KeyCode::PageDown => Some(Action::PageDown),
                KeyCode::Esc => Some(Action::Quit),
                _ => None,
            };
        },
    };
    if k.ctrl {
        return match c {
            'u' => Some(Action::HalfPageUp),
            'd' => Some(Action::HalfPageDown),
            'c' => Some(Action::Quit),
            _ => None,
        };
    }
    match c {
        'l' => Some(Action::NextService),
        'h' => Some(Action::PrevService),
        'j' => Some(Action::NextStack),
        'k' => Some(Action::PrevStack),
        '`' => Some(Action::ToggleSidebar),
        'b' => Some(Action::PageUp),
        ' ' | 'f' => Some(Action::PageDown),
        'J' => Some(Action::LineDown),
        'K' => Some(Action::LineUp),
        'g' => Some(Action::ScrollTop),
        'G' => Some(Action::ScrollBottom),
        'y' => Some(Action::CopyVisibleLogs),
        'Y' => Some(Action::CopyAllLogs),
        'p' => Some(Action::CopyDebugPrompt),
        'v' => Some(Action::CopyMode),
        'z' => Some(Action::ZoomLogs),
        'S' => Some(Action::StartService),
        's' => Some(Action::StopService),
        'r' => Some(Action::RestartService),
        'o' => Some(Action::OpenUrl),
        'c' => Some(Action::CopyUrl),
        'w' => Some(Action::AddWorktree),
        'x' => Some(Action::RemoveWorktree),
        'i' => Some(Action::StackInfo),
        ',' => Some(Action::Settings),
        'n' => Some(Action::Notifications),
        'R' => Some(Action::ReloadConfig),
        'D' => Some(Action::Detach),
        'q' => Some(Action::Quit),
        '?' => Some(Action::ToggleHelp),
        _ => None,
    }
}

/// The place of an action in [`action_table`].
pub open spec fn action_index(a: Action) -> int {
    match a {
        Action::NextService => 0,
        Action::PrevService => 1,
        Action::NextStack => 2,
        Action::PrevStack => 3,
        Action::ToggleSidebar => 4,
        Action::PageUp => 5,
        Action::PageDown => 6,
        Action::HalfPageUp => 7,
        Action::HalfPageDown => 8,
        Action::LineDown => 9,
        Action::LineUp => 10,
        Action::ScrollTop => 11,
        Action::ScrollBottom => 12,
        Action::CopyVisibleLogs => 13,
        Action::CopyAllLogs => 14,
        Action::CopyDebugPrompt => 15,
        Action::CopyMode => 16,
        Action::ZoomLogs => 17,
        Action::StartService => 18,
        Action::StopService => 19,
        Action::RestartService => 20,
        Action::OpenUrl => 21,
        Action::CopyUrl => 22,
        Action::AddWorktree => 23,
        Action::RemoveWorktree => 24,
        Action::StackInfo => 25,
        Action::Settings => 26,
        Action::Notifications => 27,
        Action::ReloadConfig => 28,
        Action::Detach => 29,
        Action::Quit => 30,
        Action::ToggleHelp => 31,
    }
}

/// The entry of [`binding_table`] that documents an action, and the place of
/// the action in it.
pub open spec fn documented_at(a: Action) -> (int, int) {
    match a {
        Action::NextService => (0, 1),
        Action::PrevService => (0, 0),
        Action::NextStack => (1, 1),
        Action::PrevStack => (1, 0),
        Action::ToggleSidebar => (2, 0),
        Action::PageUp => (3, 0),
        Action::PageDown => (3, 1),
        Action::HalfPageUp => (4, 0),
        Action::HalfPageDown => (4, 1),
        Action::LineDown => (5, 0),
        Action::LineUp => (5, 1),
        Action::ScrollTop => (6, 0),
        Action::ScrollBottom => (6, 1),
        Action::CopyVisibleLogs => (7, 0),
        Action::CopyAllLogs => (7, 1),
        Action::CopyDebugPrompt => (8, 0),
        Action::CopyMode => (9, 0),
        Action::ZoomLogs => (10, 0),
        Action::StartService => (11, 0),
        Action::StopService => (11, 1),
        Action::RestartService => (11, 2),
        Action::OpenUrl => (12, 0),
        Action::CopyUrl => (12, 1),
        Action::AddWorktree => (13, 0),
        Action::RemoveWorktree => (14, 0),
        Action::StackInfo => (15, 0),
        Action::Settings => (16, 0),
        Action::Notifications => (17, 0),
        Action::ReloadConfig => (18, 0),
        Action::Detach => (19, 0),
        Action::Quit => (20, 0),
        Action::ToggleHelp => (21, 0),
    }
}

/// A key that triggers an action.
pub open spec fn key_for(a: Action) -> KeyEvent {
    match a {
        Action::NextService => KeyEvent { code: KeyCode::Right, ctrl: false },
        Action::PrevService => KeyEvent { code: KeyCode::Left, ctrl: false },
        Action::NextStack => KeyEvent { code: KeyCode::Down, ctrl: false },
        Action::PrevStack => KeyEvent { code: KeyCode::Up, ctrl: false },
        Action::ToggleSidebar => KeyEvent { code: KeyCode::Char('`'), ctrl: false },
        Action::PageUp => KeyEvent { code: KeyCode::PageUp, ctrl: false },
        Action::PageDown => KeyEvent { code: KeyCode::PageDown, ctrl: false },
        Action::HalfPageUp => KeyEvent { code: KeyCode::Char('u'), ctrl: true },
        Action::HalfPageDown => KeyEvent { code: KeyCode::Char('d'), ctrl: true },
        Action::LineDown => KeyEvent { code: KeyCode::Char('J'), ctrl: false },
        Action::LineUp => KeyEvent { code: KeyCode::Char('K'), ctrl: false },
        Action::ScrollTop => KeyEvent { code: KeyCode::Char('g'), ctrl: false },
        Action::ScrollBottom => KeyEvent { code: KeyCode::Char('G'), ctrl: false },
        Action::CopyVisibleLogs => KeyEvent { code: KeyCode::Char('y'), ctrl: false },
        Action::CopyAllLogs => KeyEvent { code: KeyCode::Char('Y'), ctrl: false },
        Action::CopyDebugPrompt => KeyEvent { code: KeyCode::Char('p'), ctrl: false },
        Action::CopyMode => KeyEvent { code: KeyCode::Char('v'), ctrl: false },
        Action::ZoomLogs => KeyEvent { code: KeyCode::Char('z'), ctrl: false },
        Action::StartService => KeyEvent { code: KeyCode::Char('S'), ctrl: false },
        Action::StopService => KeyEvent { code: KeyCode::Char('s'), ctrl: false },
        Action::RestartService => KeyEvent { code: KeyCode::Char('r'), ctrl: false },
        Action::OpenUrl => KeyEvent { code: KeyCode::Char('o'), ctrl: false },
        Action::CopyUrl => KeyEvent { code: KeyCode::Char('c'), ctrl: false },
        Action::AddWorktree => KeyEvent { code: KeyCode::Char('w'), ctrl: false },
        Action::RemoveWorktree => KeyEvent { code: KeyCode::Char('x'), ctrl: false },
        Action::StackInfo => KeyEvent { code: KeyCode::Char('i'), ctrl: false },
        Action::Settings => KeyEvent { code: KeyCode::Char(','), ctrl: false },
        Action::Notifications => KeyEvent { code: KeyCode::Char('n'), ctrl: false },
        Action::ReloadConfig => KeyEvent { code: KeyCode::Char('R'), ctrl: false },
        Action::Detach => KeyEvent { code: KeyCode::Char('D'), ctrl: false },
        Action::Quit => KeyEvent { code: KeyCode::Char('q'), ctrl: false },
        Action::ToggleHelp => KeyEvent { code: KeyCode::Char('?'), ctrl: false },
    }
}

/// Law: the list of actions holds every action, exactly once.
pub proof fn every_action_is_listed_once(a: Action)
    ensures
        forall|i: int|
            0 <= i < action_table().len() ==> (action_table()[i] == a <==> i == action_index(a)),
        0 <= action_index(a) < action_table().len(),
{
}

/// Law: every action has an entry in the help overlay.
pub proof fn every_action_has_a_help_entry(a: Action)
    ensures
        exists|i: int|
            0 <= i < binding_table().len() && #[trigger] binding_table()[i].actions.contains(a),
{
    let (i, j) = documented_at(a);
    assert(binding_table()[i].actions[j] == a);
    assert(binding_table()[i].actions.contains(a));
}

/// Law: every action can be triggered by some key.
pub proof fn every_action_has_a_key(a: Action)
    ensures
        exists|k: KeyEvent| #[trigger] bound(k) == Some(a),
{
    assert(bound(key_for(a)) == Some(a));
}

/// Law: a key that does something in the main view is one whose action the
/// help overlay explains.
pub proof fn every_key_is_explained(k: KeyEvent)
    requires
        bound(k) is Some,
    ensures
        exists|i: int|
            0 <= i < binding_table().len() && #[trigger] binding_table()[i].actions.contains(
                bound(k)->0,
            ),
{
    every_action_has_a_help_entry(bound(k)->0);
}

/// An entry of the help overlay names `c` among its keys and documents `a`.
pub open spec fn is_named(c: char, a: Action) -> bool {
    exists|i: int|
        0 <= i < binding_table().len() && #[trigger] binding_table()[i].actions.contains(a)
            && binding_table()[i].keys.contains(c)
}

proof fn named(i: int, j: int, k: int, c: char, a: Action, label: Seq<char>)
    requires
        0 <= i < binding_table().len(),
        binding_table()[i].keys == label,
        0 <= j < binding_table()[i].actions.len(),
        binding_table()[i].actions[j] == a,
        0 <= k < label.len(),
        label[k] == c,
    ensures
        is_named(c, a),
{
    assert(binding_table()[i].actions.contains(a) && binding_table()[i].keys.contains(c));
}

/// Law: the help overlay names the keys it explains: whatever character does
/// something in the main view stands among the keys of the entry for what it
/// does. The space is written as a word there, and f in the entry's text.
pub proof fn help_names_the_keys(c: char)
    requires
        bound(KeyEvent { code: KeyCode::Char(c), ctrl: false }) is Some,
        c != ' ',
        c != 'f',
    ensures
        is_named(c, bound(KeyEvent { code: KeyCode::Char(c), ctrl: false })->0),
{
    reveal_strlit("←→ / hl");
    reveal_strlit("↑↓ / jk");
    reveal_strlit("`");
    reveal_strlit("b / space");
    reveal_strlit("^u / ^d");
    reveal_strlit("J / K");
    reveal_strlit("g / G");
    reveal_strlit("y / Y");
    reveal_strlit("p");
    reveal_strlit("v");
    reveal_strlit("z");
    reveal_strlit("S / s / r");
    reveal_strlit("o / c");
    reveal_strlit("w");
    reveal_strlit("x");
    reveal_strlit("i");
    reveal_strlit(",");
    reveal_strlit("n");
    reveal_strlit("R");
    reveal_strlit("D");
    reveal_strlit("q / ^c / Esc");
    reveal_strlit("?");
    if c == 'l' {
        named(0, 1, 6, 'l', Action::NextService, "←→ / hl"@);
    } else if c == 'h' {
        named(0, 0, 5, 'h', Action::PrevService, "←→ / hl"@);
    } else if c == 'j' {
        named(1, 1, 5, 'j', Action::NextStack, "↑↓ / jk"@);
    } else if c == 'k' {
        named(1, 0, 6, 'k', Action::PrevStack, "↑↓ / jk"@);
    } else if c == '`' {
        named(2, 0, 0, '`', Action::ToggleSidebar, "`"@);
    } else if c == 'b' {
        named(3, 0, 0, 'b', Action::PageUp, "b / space"@);
    } else if c == 'J' {
        named(5, 0, 0, 'J', Action::LineDown, "J / K"@);
    } else if c == 'K' {
        named(5, 1, 4, 'K', Action::LineUp, "J / K"@);
    } else if c == 'g' {
        named(6, 0, 0, 'g', Action::ScrollTop, "g / G"@);
    } else if c == 'G' {
        named(6, 1, 4, 'G', Action::ScrollBottom, "g / G"@);
    } else if c == 'y' {
        named(7, 0, 0, 'y', Action::CopyVisibleLogs, "y / Y"@);
    } else if c == 'Y' {
        named(7, 1, 4, 'Y', Action::CopyAllLogs, "y / Y"@);
    } else if c == 'p' {
        named(8, 0, 0, 'p', Action::CopyDebugPrompt, "p"@);
    } else if c == 'v' {
        named(9, 0, 0, 'v', Action::CopyMode, "v"@);
    } else if c == 'z' {
        named(10, 0, 0, 'z', Action::ZoomLogs, "z"@);
    } else if c == 'S' {
        named(11, 0, 0, 'S', Action::StartService, "S / s / r"@);
    } else if c == 's' {
        named(11, 1, 4, 's', Action::StopService, "S / s / r"@);
    } else if c == 'r' {
        named(11, 2, 8, 'r', Action::RestartService, "S / s / r"@);
    } else if c == 'o' {
        named(12, 0, 0, 'o', Action::OpenUrl, "o / c"@);
    } else if c == 'c' {
        named(12, 1, 4, 'c', Action::CopyUrl, "o / c"@);
    } else if c == 'w' {
        named(13, 0, 0, 'w', Action::AddWorktree, "w"@);
    } else if c == 'x' {
        named(14, 0, 0, 'x', Action::RemoveWorktree, "x"@);
    } else if c == 'i' {
        named(15, 0, 0, 'i', Action::StackInfo, "i"@);
    } else if c == ',' {
        named(16, 0, 0, ',', Action::Settings, ","@);
    } else if c == 'n' {
        named(17, 0, 0, 'n', Action::Notifications, "n"@);
    } else if c == 'R' {
        named(18, 0, 0, 'R', Action::ReloadConfig, "R"@);
    } else if c == 'D' {
        named(19, 0, 0, 'D', Action::Detach, "D"@);
    } else if c == 'q' {
        named(20, 0, 0, 'q', Action::Quit, "q / ^c / Esc"@);
    } else if c == '?' {
        named(21, 0, 0, '?', Action::ToggleHelp, "?"@);
    }
}

/// Law: the footer shows the hints of the table in its order, and leaves no binding
/// out that has one.
pub proof fn footers_follow_the_table(table: Seq<BindingView>, b: BindingView)
    ensures
        hints_of(Seq::empty()) == Seq::<(Seq<char>, Seq<char>)>::empty(),
        hints_of(table.push(b)) == match b.footer {
            Some(h) => hints_of(table).push(h),
            None => hints_of(table),
        },
{
    assert(table.push(b).drop_last() =~= table);
}

/// Law: the help has five sections, in this order and under these titles.
pub proof fn help_has_five_sections()
    ensures
        Section::ordered().len() == 5,
        Section::ordered()[0].title_text() == "navigation"@,
        Section::ordered()[1].title_text() == "log viewport"@,
        Section::ordered()[2].title_text() == "service actions"@,
        Section::ordered()[3].title_text() == "worktrees"@,
        Section::ordered()[4].title_text() == "session"@,
{
}

} // verus!
