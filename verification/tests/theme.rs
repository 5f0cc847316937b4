use devme_tui::theme::{is_dark, osc_reply_done, parse_osc_background, scale_hex, truncate, Palette};

#[test]
fn truncate_appends_ellipsis() {
    assert_eq!(truncate("feature/long-branch", 10), "feature/l…");
    assert_eq!(truncate("short", 10), "short");
}

#[test]
fn parses_osc_background_reply() {
    assert_eq!(
        parse_osc_background("\x1b]11;rgb:1e1e/1e1e/2e2e\x07"),
        Some((0x1e, 0x1e, 0x2e))
    );
    assert_eq!(
        parse_osc_background("\x1b]11;rgb:ffff/ffff/ffff\x1b\\"),
        Some((255, 255, 255))
    );
}

#[test]
fn luminance_split_picks_theme() {
    assert!(is_dark((30, 30, 46))); // mocha base
    assert!(!is_dark((239, 241, 245))); // latte base
}

#[test]
fn resolve_falls_back_to_mocha() {
    assert_eq!(Palette::resolve("nonsense", None), Palette::mocha());
    assert_eq!(Palette::resolve("latte", None), Palette::latte());
}

#[test]
fn auto_goes_by_the_background() {
    assert_eq!(Palette::resolve("auto", Some((30, 30, 46))), Palette::mocha());
    assert_eq!(Palette::resolve("auto", Some((239, 241, 245))), Palette::latte());
    assert_eq!(Palette::resolve("auto", None), Palette::mocha());
    assert_eq!(Palette::preview("auto"), Palette::mocha());
    assert_eq!(Palette::preview("light"), Palette::latte());
    assert_eq!(Palette::default(), Palette::mocha());
}

#[test]
fn truncate_at_the_edges() {
    assert_eq!(truncate("abc", 0), "");
    assert_eq!(truncate("abc", 1), "…");
    assert_eq!(truncate("abc", 2), "a…");
    assert_eq!(truncate("abc", 3), "abc");
}

#[test]
fn components_scale_by_their_width() {
    assert_eq!(scale_hex("f"), Some(255));
    assert_eq!(scale_hex("8"), Some(136));
    assert_eq!(scale_hex("80"), Some(128));
    assert_eq!(scale_hex("800"), Some(128));
    assert_eq!(scale_hex(""), None);
    assert_eq!(scale_hex("12345"), None);
    assert_eq!(scale_hex("xy"), None);
}

#[test]
fn background_may_be_six_digits() {
    assert_eq!(parse_osc_background("\x1b]11;#1e1e2e\x07"), Some((0x1e, 0x1e, 0x2e)));
    assert_eq!(parse_osc_background("\x1b]11;#1e1e\x07"), None);
    assert_eq!(parse_osc_background("rgb:1/2"), None);
    assert_eq!(parse_osc_background("nothing"), None);
}

#[test]
fn reading_a_reply_stops_at_its_end() {
    assert!(!osc_reply_done(&vec![0x1b, b']']));
    assert!(osc_reply_done(&vec![0x1b, 0x07]));
    assert!(!osc_reply_done(&vec![0x1b, b'\\']));
    assert!(osc_reply_done(&vec![b'1', 0x1b, b'\\']));
    assert!(osc_reply_done(&vec![b'a'; 65]));
    assert!(!osc_reply_done(&vec![b'a'; 64]));
}
