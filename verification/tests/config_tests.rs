use flyout_lite::config::{
    config_to_text, get, load_or_default, Anchor, Config, ConfigSlot,
};

fn sample() -> Config {
    Config {
        anchor: Anchor::BottomCenter,
        margin_x: -15,
        margin_y: 2147483647,
        custom_x: -2147483648,
        custom_y: 0,
        hold_ms: 4294967295,
        compact: true,
        show_on_session_change: false,
    }
}

#[test]
fn default_config_values() {
    let c = Config::default();
    assert_eq!(c.anchor, Anchor::TopLeft);
    assert_eq!(c.margin_x, 20);
    assert_eq!(c.margin_y, 20);
    assert_eq!(c.custom_x, 100);
    assert_eq!(c.custom_y, 100);
    assert_eq!(c.hold_ms, 3000);
    assert!(!c.compact);
    assert!(c.show_on_session_change);
}

#[test]
fn anchor_names_round_trip() {
    let all = [
        Anchor::TopLeft,
        Anchor::TopCenter,
        Anchor::TopRight,
        Anchor::MiddleLeft,
        Anchor::MiddleCenter,
        Anchor::MiddleRight,
        Anchor::BottomLeft,
        Anchor::BottomCenter,
        Anchor::BottomRight,
        Anchor::Custom,
    ];
    for a in all {
        assert_eq!(Anchor::parse(a.as_str()), a);
    }
    assert_eq!(Anchor::BottomRight.as_str(), "bottom-right");
    assert_eq!(Anchor::Custom.as_str(), "custom");
    assert_eq!(Anchor::MiddleLeft.as_str(), "middle-left");
    assert_eq!(Anchor::MiddleCenter.as_str(), "middle-center");
    assert_eq!(Anchor::MiddleRight.as_str(), "middle-right");
    assert_eq!(Anchor::parse("middle-right"), Anchor::MiddleRight);
}

#[test]
fn unknown_anchor_name_is_top_left() {
    assert_eq!(Anchor::parse("middle"), Anchor::TopLeft);
    assert_eq!(Anchor::parse(""), Anchor::TopLeft);
    assert_eq!(Anchor::parse("Top-Right"), Anchor::TopLeft);
}

#[test]
fn default_config_text() {
    let text = config_to_text(&Config::default());
    assert_eq!(
        text,
        "anchor=top-left\nmargin_x=20\nmargin_y=20\ncustom_x=100\ncustom_y=100\nhold_ms=3000\ncompact=false\nshow_on_session_change=true\n"
    );
}

#[test]
fn saved_text_reloads() {
    let c = sample();
    let text = config_to_text(&c);
    assert_eq!(load_or_default(Some(&text)), c);
    assert_eq!(load_or_default(Some(&config_to_text(&Config::default()))), Config::default());
}

#[test]
fn missing_file_gives_defaults() {
    assert_eq!(load_or_default(None), Config::default());
    assert_eq!(load_or_default(Some("")), Config::default());
}

#[test]
fn loading_skips_comments_blanks_and_junk() {
    let text = "# saved by hand\r\n\n   anchor =  bottom-right \r\nmargin_x=abc\nmargin_y = +7\nno equals sign\n=5\nhold_ms=-1\ncompact=1\nunknown=3\ncustom_x=\u{3000}-42\u{A0}\n";
    let c = load_or_default(Some(text));
    assert_eq!(c.anchor, Anchor::BottomRight);
    assert_eq!(c.margin_x, 20);
    assert_eq!(c.margin_y, 7);
    assert_eq!(c.hold_ms, 3000);
    assert!(c.compact);
    assert_eq!(c.custom_x, -42);
    assert_eq!(c.custom_y, 100);
}

#[test]
fn loading_takes_the_last_value_and_the_first_equals() {
    let text = "margin_x=1\nmargin_x=2\nanchor=custom=x\ncompact=true\ncompact=yes";
    let c = load_or_default(Some(text));
    assert_eq!(c.margin_x, 2);
    assert_eq!(c.anchor, Anchor::TopLeft);
    assert!(!c.compact);
}

#[test]
fn out_of_range_numbers_are_ignored() {
    let c = load_or_default(Some("margin_x=2147483648\nmargin_y=-2147483649\nhold_ms=4294967296\ncustom_x=-\ncustom_y=+"));
    assert_eq!(c, Config::default());
}

#[test]
fn get_returns_what_set_stored() {
    let mut slot = ConfigSlot::load(None);
    assert_eq!(get(&slot), Config::default());
    let text = flyout_lite::config::set(&mut slot, sample());
    assert_eq!(get(&slot), sample());
    assert_eq!(text, config_to_text(&sample()));
    let reloaded = ConfigSlot::load(Some(&text));
    assert_eq!(get(&reloaded), sample());
}
