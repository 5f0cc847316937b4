use devme_tui::ui::{
    ansi, detect_color, err_style, error, glyph, hint, info, init, json, json_text, note,
    out_style, quiet, root, scoped, success, warn, ColorEnv, Item, Section, Style, UiCell,
};

fn render(style: Style, f: impl FnOnce(&mut Section)) -> String {
    let mut sec = Section::begin(String::new(), style, "Title");
    f(&mut sec);
    sec.end(Item::Done, "done")
}

fn no_env() -> ColorEnv {
    ColorEnv { no_color: false, force_color: false, clicolor_force: false }
}

#[test]
fn paint_gates_on_color() {
    assert_eq!(Style::forced().ok("x"), "\x1b[32mx\x1b[0m");
    assert_eq!(Style::plain().ok("x"), "x");
    assert_eq!(Style::plain().bold("x"), "x");
}

#[test]
fn detect_color_precedence() {
    assert!(!detect_color(true, no_env(), true));
}

#[test]
fn section_renders_clack_tree_plain() {
    let out = render(Style::plain(), |sec| {
        sec.ok("tools");
        sec.warn_item("gcloud_adc", Some("not found"));
        sec.hint("gcloud auth login");
    });
    let expected = "\n  ◆  Title\n  │\n  │  ◇ tools\n  │  ⚠ gcloud_adc  not found\n  │    ↳ gcloud auth login\n  │\n  └  done\n\n";
    assert_eq!(out, expected);
}

#[test]
fn section_colors_only_marks_not_layout() {
    let plain = render(Style::plain(), |sec| sec.fail("web", Some("exit 1")));
    let color = render(Style::forced(), |sec| sec.fail("web", Some("exit 1")));
    let stripped = strip_ansi(&color);
    assert_eq!(stripped, plain);
    assert!(color.contains(ansi::RED));
}

#[test]
fn scope_prefixes() {
    assert_eq!(root().prefix(), "devme:");
    assert_eq!(scoped("remote").prefix(), "devme remote:");
    assert_eq!(
        scoped("remote").format(glyph::WARN, ansi::YELLOW, "sync down", Style::plain()),
        "devme remote: ⚠ sync down"
    );
    assert_eq!(
        root().format("", "", "started", Style::plain()),
        "devme: started"
    );
}

fn strip_ansi(s: &str) -> String {
    let mut out = String::new();
    let mut chars = s.chars().peekable();
    while let Some(c) = chars.next() {
        if c == '\x1b' {
            while let Some(&n) = chars.peek() {
                chars.next();
                if n == 'm' {
                    break;
                }
            }
        } else {
            out.push(c);
        }
    }
    out
}

#[test]
fn environment_decides_color_in_order() {
    let force = ColorEnv { force_color: true, ..no_env() };
    let clicolor = ColorEnv { clicolor_force: true, ..no_env() };
    let never = ColorEnv { no_color: true, force_color: true, clicolor_force: true };
    assert!(detect_color(false, force, false));
    assert!(detect_color(false, clicolor, false));
    assert!(!detect_color(false, never, true));
    assert!(!detect_color(true, force, true));
    assert!(detect_color(false, no_env(), true));
    assert!(!detect_color(false, no_env(), false));
}

#[test]
fn the_first_presentation_stays() {
    let mut cell = UiCell::new();
    init(&mut cell, true, false, no_env(), true, false);
    init(&mut cell, false, true, no_env(), false, true);
    assert!(quiet(&mut cell));
    assert!(out_style(&mut cell).color);
    assert!(!err_style(&mut cell).color);
}

#[test]
fn reading_first_settles_on_plain() {
    let mut cell = UiCell::new();
    assert!(!quiet(&mut cell));
    init(&mut cell, true, false, no_env(), true, true);
    assert!(!quiet(&mut cell));
    assert!(!out_style(&mut cell).color);
}

#[test]
fn quiet_drops_information_but_not_warnings() {
    let mut cell = UiCell::new();
    init(&mut cell, true, false, no_env(), false, false);
    assert_eq!(info(&mut cell, "a"), None);
    assert_eq!(success(&mut cell, "a"), None);
    assert_eq!(hint(&mut cell, "a"), None);
    assert_eq!(note(&mut cell, "a"), None);
    assert_eq!(warn(&mut cell, "a"), "devme: ⚠ a");
    assert_eq!(error(&mut cell, "a"), "devme: ✗ a");
}

#[test]
fn one_liners_read_as_documented() {
    let mut cell = UiCell::new();
    init(&mut cell, false, false, no_env(), false, true);
    assert_eq!(info(&mut cell, "a"), Some("devme: a".to_string()));
    assert_eq!(success(&mut cell, "a"), Some("devme: \x1b[32m✔\x1b[0m a".to_string()));
    assert_eq!(hint(&mut cell, "a"), Some("  \x1b[2m↳ a\x1b[0m".to_string()));
    assert_eq!(note(&mut cell, "a"), Some("a".to_string()));
}

#[test]
fn every_row_kind_renders() {
    let mut sec = Section::begin_noted(String::new(), Style::plain(), "T", Some("2 variables"));
    sec.item(Item::Skip, "skipped", Some(""));
    sec.line("raw");
    sec.sub(Item::Fail, "broke");
    sec.field("NAME", Some("what it is"));
    sec.field("OTHER", None);
    sec.sub_note("running…");
    sec.prompt("sure?");
    sec.newline();
    sec.gutter();
    assert_eq!(sec.bar_prefix(), "  │  ");
    sec.writer().push_str("nested\n");
    let out = sec.end(Item::Warn, "half");
    assert_eq!(
        out,
        "\n  ◆  T  2 variables\n  │\n  │  ◇ skipped\n  │  raw\n  │    ✗ broke\n  │  NAME\n  │  what it is\n  │  OTHER\n  │    running…\n  │    sure? \n  │\nnested\n  │\n  └  half\n\n"
    );
}

#[test]
fn json_is_pretty_printed() {
    let mut map = serde_json::Map::new();
    map.insert("a".to_string(), serde_json::Value::from(1));
    let text = json(&serde_json::Value::Object(map));
    assert_eq!(text, "{\n  \"a\": 1\n}");
}

#[test]
fn json_falls_back_to_one_line() {
    let list = serde_json::Value::Array(vec![serde_json::Value::from(1), serde_json::Value::Null]);
    assert_eq!(json_text(None, &list), "[1,null]");
    assert_eq!(json_text(Some("as given".to_string()), &list), "as given");
}
