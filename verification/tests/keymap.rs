use devme_tui::keymap::{
    all_actions, bindings, footer_hints, mouse_notes, resolve, Action, KeyCode, KeyEvent, Section,
};

fn plain(c: char) -> KeyEvent {
    KeyEvent { code: KeyCode::Char(c), ctrl: false }
}

fn ctrl(c: char) -> KeyEvent {
    KeyEvent { code: KeyCode::Char(c), ctrl: true }
}

fn code(kc: KeyCode) -> KeyEvent {
    KeyEvent { code: kc, ctrl: false }
}

#[test]
fn every_action_is_documented() {
    for action in all_actions() {
        let found = bindings().iter().any(|b| b.actions.contains(&action));
        assert!(found, "{action:?} has no help entry in the bindings");
    }
}

#[test]
fn every_binding_action_is_known() {
    for b in bindings() {
        for action in &b.actions {
            assert!(
                all_actions().contains(action),
                "{action:?} in the bindings is not in the list of actions"
            );
        }
    }
}

#[test]
fn every_action_is_reachable_from_resolve() {
    let mut events: Vec<KeyEvent> = Vec::new();
    for c in "lhjkbfgGJKyYpvzSsrociqDwx,nR?` ".chars() {
        events.push(plain(c));
    }
    for c in ['u', 'd', 'c'] {
        events.push(ctrl(c));
    }
    for kc in [
        KeyCode::Left,
        KeyCode::Right,
        KeyCode::Up,
        KeyCode::Down,
        KeyCode::PageUp,
        KeyCode::PageDown,
        KeyCode::Esc,
    ] {
        events.push(code(kc));
    }

    let mut seen = std::collections::HashSet::new();
    for e in &events {
        if let Some(a) = resolve(e) {
            seen.insert(a);
        }
    }
    for action in all_actions() {
        assert!(
            seen.contains(&action),
            "{action:?} is not reachable from resolve"
        );
    }
}

#[test]
fn control_changes_what_a_letter_does() {
    assert_eq!(resolve(&plain('c')), Some(Action::CopyUrl));
    assert_eq!(resolve(&ctrl('c')), Some(Action::Quit));
    assert_eq!(resolve(&ctrl('l')), None);
    assert_eq!(resolve(&plain('u')), None);
    assert_eq!(resolve(&KeyEvent { code: KeyCode::Esc, ctrl: true }), None);
    assert_eq!(resolve(&code(KeyCode::Enter)), None);
}

#[test]
fn footer_lists_the_flagged_bindings_in_order() {
    let keys: Vec<&str> = footer_hints().iter().map(|h| h.keys).collect();
    assert_eq!(keys, ["hl", "jk", "S/s/r", "o", "q", "?"]);
    let labels: Vec<&str> = footer_hints().iter().map(|h| h.label).collect();
    assert_eq!(labels, ["svc", "stack", "start/stop/restart", "open", "quit", "help"]);
}

#[test]
fn sections_render_in_order() {
    let titles: Vec<&str> = Section::order().into_iter().map(|s| s.title()).collect();
    assert_eq!(
        titles,
        ["navigation", "log viewport", "service actions", "worktrees", "session"]
    );
    assert_eq!(mouse_notes().len(), 4);
    assert_eq!(mouse_notes()[3].label, "shift+drag");
}
