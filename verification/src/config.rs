//! Flyout settings: the anchor the card is placed against, margins, custom
//! position, how long it stays visible, compact layout and whether media
//! sessions may pop it up. Settings are persisted as `key=value` lines.

use vstd::prelude::*;
use vstd::string::*;

use crate::text::{
    is_space, lemma_index_of_unique, lemma_int_text, lemma_nat_text, lemma_trim_noop, append_int, append_nat, chars_of, eq_str, find_char, index_of, int_text, nat_text, parse_i32,
    parse_i32_chars, parse_u32, parse_u32_chars, subvec, trim, trim_chars,
};

verus! {

/// Where the flyout is placed on screen.
#[derive(Clone, Copy, Debug, PartialEq, Eq, Structural)]
pub enum Anchor {
    TopLeft,
    TopCenter,
    TopRight,
    MiddleLeft,
    MiddleCenter,
    MiddleRight,
    BottomLeft,
    BottomCenter,
    BottomRight,
    Custom,
}

/// The persisted settings of the flyout.
#[derive(Clone, Copy, Debug, PartialEq, Eq, Structural)]
pub struct Config {
    pub anchor: Anchor,
    pub margin_x: i32,
    pub margin_y: i32,
    pub custom_x: i32,
    pub custom_y: i32,
    pub hold_ms: u32,
    pub compact: bool,
    pub show_on_session_change: bool,
}

// ---------------------------------------------------------------------------
// Specifications
// ---------------------------------------------------------------------------

/// The name under which an anchor is stored.
pub open spec fn anchor_name(a: Anchor) -> Seq<char> {
    match a {
        Anchor::TopLeft => "top-left"@,
        Anchor::TopCenter => "top-center"@,
        Anchor::TopRight => "top-right"@,
        Anchor::MiddleLeft => "middle-left"@,
        Anchor::MiddleCenter => "middle-center"@,
        Anchor::MiddleRight => "middle-right"@,
        Anchor::BottomLeft => "bottom-left"@,
        Anchor::BottomCenter => "bottom-center"@,
        Anchor::BottomRight => "bottom-right"@,
        Anchor::Custom => "custom"@,
    }
}

/// The anchor a stored name denotes; unknown names fall back to top-left.
pub open spec fn anchor_from_name(s: Seq<char>) -> Anchor {
    if s == "top-left"@ {
        Anchor::TopLeft
    } else if s == "top-center"@ {
        Anchor::TopCenter
    } else if s == "top-right"@ {
        Anchor::TopRight
    } else if s == "middle-left"@ {
        Anchor::MiddleLeft
    } else if s == "middle-center"@ {
        Anchor::MiddleCenter
    } else if s == "middle-right"@ {
        Anchor::MiddleRight
    } else if s == "bottom-left"@ {
        Anchor::BottomLeft
    } else if s == "bottom-center"@ {
        Anchor::BottomCenter
    } else if s == "bottom-right"@ {
        Anchor::BottomRight
    } else if s == "custom"@ {
        Anchor::Custom
    } else {
        Anchor::TopLeft
    }
}

/// The settings used when nothing has been stored.
pub open spec fn default_config() -> Config {
    Config {
        anchor: Anchor::TopLeft,
        margin_x: 20,
        margin_y: 20,
        custom_x: 100,
        custom_y: 100,
        hold_ms: 3000,
        compact: false,
        show_on_session_change: true,
    }
}

/// A stored flag is on when its value is `true` or `1`.
pub open spec fn flag_value(v: Seq<char>) -> bool {
    v == "true"@ || v == "1"@
}

pub open spec fn bool_text(b: bool) -> Seq<char> {
    if b {
        "true"@
    } else {
        "false"@
    }
}

pub open spec fn or_keep_i32(p: Option<i32>, old: i32) -> i32 {
    match p {
        Some(v) => v,
        None => old,
    }
}

pub open spec fn or_keep_u32(p: Option<u32>, old: u32) -> u32 {
    match p {
        Some(v) => v,
        None => old,
    }
}

/// The effect of one `key=value` setting; unknown keys and unparsable
/// numbers leave the settings unchanged.
pub open spec fn apply_setting(cfg: Config, key: Seq<char>, value: Seq<char>) -> Config {
    if key == "anchor"@ {
        Config { anchor: anchor_from_name(value), ..cfg }
    } else if key == "margin_x"@ {
        Config { margin_x: or_keep_i32(parse_i32(value), cfg.margin_x), ..cfg }
    } else if key == "margin_y"@ {
        Config { margin_y: or_keep_i32(parse_i32(value), cfg.margin_y), ..cfg }
    } else if key == "custom_x"@ {
        Config { custom_x: or_keep_i32(parse_i32(value), cfg.custom_x), ..cfg }
    } else if key == "custom_y"@ {
        Config { custom_y: or_keep_i32(parse_i32(value), cfg.custom_y), ..cfg }
    } else if key == "hold_ms"@ {
        Config { hold_ms: or_keep_u32(parse_u32(value), cfg.hold_ms), ..cfg }
    } else if key == "compact"@ {
        Config { compact: flag_value(value), ..cfg }
    } else if key == "show_on_session_change"@ {
        Config { show_on_session_change: flag_value(value), ..cfg }
    } else {
        cfg
    }
}

/// The effect of one line: blank lines, `#` comments and lines without `=`
/// are ignored; otherwise key and value are trimmed around the first `=`.
pub open spec fn apply_line(cfg: Config, raw: Seq<char>) -> Config {
    let line = trim(raw);
    if line.len() == 0 || line[0] == '#' {
        cfg
    } else {
        let e = index_of(line, '=');
        if e == line.len() {
            cfg
        } else {
            apply_setting(cfg, trim(line.take(e)), trim(line.skip(e + 1)))
        }
    }
}

/// The effect of a whole settings text, line by line.
pub open spec fn apply_text(cfg: Config, s: Seq<char>) -> Config
    decreases s.len(),
{
    let i = index_of(s, '\n');
    if 0 <= i < s.len() {
        apply_text(apply_line(cfg, s.take(i)), s.skip(i + 1))
    } else {
        apply_line(cfg, s)
    }
}

/// One stored line: `key=value` and a line break.
pub open spec fn setting_line(key: Seq<char>, value: Seq<char>) -> Seq<char> {
    (key + "="@ + value).push('\n')
}

/// The stored form of the settings.
pub open spec fn config_text(cfg: Config) -> Seq<char> {
    setting_line("anchor"@, anchor_name(cfg.anchor)) + (setting_line(
        "margin_x"@,
        int_text(cfg.margin_x as int),
    ) + (setting_line("margin_y"@, int_text(cfg.margin_y as int)) + (setting_line(
        "custom_x"@,
        int_text(cfg.custom_x as int),
    ) + (setting_line("custom_y"@, int_text(cfg.custom_y as int)) + (setting_line(
        "hold_ms"@,
        nat_text(cfg.hold_ms as nat),
    ) + (setting_line("compact"@, bool_text(cfg.compact)) + setting_line(
        "show_on_session_change"@,
        bool_text(cfg.show_on_session_change),
    )))))))
}

/// The settings loaded from an optional stored text.
pub open spec fn loaded_config(text: Option<Seq<char>>) -> Config {
    match text {
        Some(t) => apply_text(default_config(), t),
        None => default_config(),
    }
}

// ---------------------------------------------------------------------------
// Executable code
// ---------------------------------------------------------------------------

impl Anchor {
    /// The name under which this anchor is stored.
    pub fn as_str(&self) -> (r: &'static str)
        ensures
            r@ == anchor_name(*self),
    {
        match self {
            Anchor::TopLeft => "top-left",
            Anchor::TopCenter => "top-center",
            Anchor::TopRight => "top-right",
            Anchor::MiddleLeft => "middle-left",
            Anchor::MiddleCenter => "middle-center",
            Anchor::MiddleRight => "middle-right",
            Anchor::BottomLeft => "bottom-left",
            Anchor::BottomCenter => "bottom-center",
            Anchor::BottomRight => "bottom-right",
            Anchor::Custom => "custom",
        }
    }

    /// The anchor named by `s`; unknown names give `TopLeft`.
    pub fn parse(s: &str) -> (r: Anchor)
        ensures
            r == anchor_from_name(s@),
    {
        let v = chars_of(s);
        Anchor::parse_chars(&v)
    }

    fn parse_chars(v: &Vec<char>) -> (r: Anchor)
        ensures
            r == anchor_from_name(v@),
    {
        if eq_str(v, "top-left") {
            Anchor::TopLeft
        } else if eq_str(v, "top-center") {
            Anchor::TopCenter
        } else if eq_str(v, "top-right") {
            Anchor::TopRight
        } else if eq_str(v, "middle-left") {
            Anchor::MiddleLeft
        } else if eq_str(v, "middle-center") {
            Anchor::MiddleCenter
        } else if eq_str(v, "middle-right") {
            Anchor::MiddleRight
        } else if eq_str(v, "bottom-left") {
            Anchor::BottomLeft
        } else if eq_str(v, "bottom-center") {
            Anchor::BottomCenter
        } else if eq_str(v, "bottom-right") {
            Anchor::BottomRight
        } else if eq_str(v, "custom") {
            Anchor::Custom
        } else {
            Anchor::TopLeft
        }
    }
}

impl Default for Config {
    fn default() -> (r: Self)
        ensures
            r == default_config(),
    {
        Config {
            anchor: Anchor::TopLeft,
            margin_x: 20,
            margin_y: 20,
            custom_x: 100,
            custom_y: 100,
            hold_ms: 3000,
            compact: false,
            show_on_session_change: true,
        }
    }
}

fn apply_setting_chars(cfg: Config, key: &Vec<char>, value: &Vec<char>) -> (r: Config)
    ensures
        r == apply_setting(cfg, key@, value@),
{
    let mut c = cfg;
    if eq_str(key, "anchor") {
        c.anchor = Anchor::parse_chars(value);
    } else if eq_str(key, "margin_x") {
        if let Some(v) = parse_i32_chars(value) {
            c.margin_x = v;
        }
    } else if eq_str(key, "margin_y") {
        if let Some(v) = parse_i32_chars(value) {
            c.margin_y = v;
        }
    } else if eq_str(key, "custom_x") {
        if let Some(v) = parse_i32_chars(value) {
            c.custom_x = v;
        }
    } else if eq_str(key, "custom_y") {
        if let Some(v) = parse_i32_chars(value) {
            c.custom_y = v;
        }
    } else if eq_str(key, "hold_ms") {
        if let Some(v) = parse_u32_chars(value) {
            c.hold_ms = v;
        }
    } else if eq_str(key, "compact") {
        c.compact = eq_str(value, "true") || eq_str(value, "1");
    } else if eq_str(key, "show_on_session_change") {
        c.show_on_session_change = eq_str(value, "true") || eq_str(value, "1");
    }
    c
}

fn apply_line_chars(cfg: Config, raw: &Vec<char>) -> (r: Config)
    ensures
        r == apply_line(cfg, raw@),
{
    let line = trim_chars(raw);
    if line.len() == 0 || line[0] == '#' {
        return cfg;
    }
    let e = find_char(&line, '=', 0);
    assert(line@.skip(0) =~= line@);
    if e == line.len() {
        return cfg;
    }
    let key = trim_chars(&subvec(&line, 0, e));
    let value = trim_chars(&subvec(&line, e + 1, line.len()));
    assert(line@.subrange(0, e as int) =~= line@.take(e as int));
    assert(line@.subrange(e + 1, line@.len() as int) =~= line@.skip(e + 1));
    apply_setting_chars(cfg, &key, &value)
}

/// The settings described by `text`, starting from `cfg`.
pub fn apply_settings_text(cfg: Config, text: &str) -> (r: Config)
    ensures
        r == apply_text(cfg, text@),
{
    let chars = chars_of(text);
    let n = chars.len();
    let mut c = cfg;
    let mut i: usize = 0;
    assert(chars@.skip(0) =~= chars@);
    loop
        invariant
            i <= n,
            n == chars@.len(),
            apply_text(cfg, text@) == apply_text(c, chars@.skip(i as int)),
            chars@ == text@,
        decreases n - i,
    {
        let j = find_char(&chars, '\n', i);
        let line = subvec(&chars, i, j);
        let ghost s = chars@.skip(i as int);
        proof {
            assert(s.take(j - i) =~= line@);
            if j < n {
                assert(s.skip(j - i + 1) =~= chars@.skip(j + 1));
            } else {
                assert(s =~= line@);
            }
        }
        c = apply_line_chars(c, &line);
        if j == n {
            return c;
        }
        i = j + 1;
    }
}

/// The settings to start from: the stored text when there is one, otherwise
/// the defaults.
pub fn load_or_default(text: Option<&str>) -> (r: Config)
    ensures
        r == loaded_config(
            match text {
                Some(t) => Some(t@),
                None => None,
            },
        ),
{
    let d = Config::default();
    match text {
        Some(t) => apply_settings_text(d, t),
        None => d,
    }
}

fn append_setting(out: &mut String, key: &str, value: &String)
    ensures
        final(out)@ == old(out)@ + setting_line(key@, value@),
{
    out.append(key);
    out.append("=");
    out.append(value.as_str());
    out.append("\n");
    proof {
        reveal_strlit("=");
        reveal_strlit("\n");
    }
    assert(final(out)@ =~= old(out)@ + setting_line(key@, value@));
}

fn int_string(v: i32) -> (r: String)
    ensures
        r@ == int_text(v as int),
{
    let mut s = String::new();
    append_int(&mut s, v as i64);
    assert(s@ =~= int_text(v as int));
    s
}

fn bool_string(b: bool) -> (r: String)
    ensures
        r@ == bool_text(b),
{
    if b {
        String::from_str("true")
    } else {
        String::from_str("false")
    }
}

/// The stored form of `cfg`.
#[verifier::rlimit(40)]
pub fn config_to_text(cfg: &Config) -> (r: String)
    ensures
        r@ == config_text(*cfg),
{
    let mut out = String::new();
    let ghost l1 = setting_line("anchor"@, anchor_name(cfg.anchor));
    let ghost l2 = setting_line("margin_x"@, int_text(cfg.margin_x as int));
    let ghost l3 = setting_line("margin_y"@, int_text(cfg.margin_y as int));
    let ghost l4 = setting_line("custom_x"@, int_text(cfg.custom_x as int));
    let ghost l5 = setting_line("custom_y"@, int_text(cfg.custom_y as int));
    let ghost l6 = setting_line("hold_ms"@, nat_text(cfg.hold_ms as nat));
    let ghost l7 = setting_line("compact"@, bool_text(cfg.compact));
    let ghost l8 = setting_line("show_on_session_change"@, bool_text(cfg.show_on_session_change));
    append_setting(&mut out, "anchor", &String::from_str(cfg.anchor.as_str()));
    append_setting(&mut out, "margin_x", &int_string(cfg.margin_x));
    append_setting(&mut out, "margin_y", &int_string(cfg.margin_y));
    append_setting(&mut out, "custom_x", &int_string(cfg.custom_x));
    append_setting(&mut out, "custom_y", &int_string(cfg.custom_y));
    let mut hold = String::new();
    append_nat(&mut hold, cfg.hold_ms as u64);
    append_setting(&mut out, "hold_ms", &hold);
    append_setting(&mut out, "compact", &bool_string(cfg.compact));
    append_setting(&mut out, "show_on_session_change", &bool_string(cfg.show_on_session_change));
    assert(out@ =~= l1 + l2 + l3 + l4 + l5 + l6 + l7 + l8);
    assert(l1 + l2 + l3 + l4 + l5 + l6 + l7 + l8 =~= l1 + (l2 + (l3 + (l4 + (l5 + (l6 + (l7
        + l8)))))));
    out
}

/// The settings in effect, as loaded at start-up and changed by `set`.
pub struct ConfigSlot {
    current: Config,
}

impl View for ConfigSlot {
    type V = Config;

    closed spec fn view(&self) -> Config {
        self.current
    }
}

impl ConfigSlot {
    /// The slot as it is first filled: from the stored text when there is
    /// one, otherwise with the defaults.
    pub fn load(text: Option<&str>) -> (r: ConfigSlot)
        ensures
            r@ == loaded_config(
                match text {
                    Some(t) => Some(t@),
                    None => None,
                },
            ),
    {
        ConfigSlot { current: load_or_default(text) }
    }
}

/// The settings in effect.
pub fn get(slot: &ConfigSlot) -> (r: Config)
    ensures
        r == slot@,
{
    slot.current
}

/// Makes `new_cfg` the settings in effect and returns the text under which
/// they are to be stored.
pub fn set(slot: &mut ConfigSlot, new_cfg: Config) -> (text: String)
    ensures
        final(slot)@ == new_cfg,
        text@ == config_text(new_cfg),
{
    slot.current = new_cfg;
    config_to_text(&new_cfg)
}

// ---------------------------------------------------------------------------
// Laws
// ---------------------------------------------------------------------------

/// A key that is stored verbatim: non-empty, no surrounding whitespace, not a
/// comment, and free of `=` and line breaks.
pub open spec fn plain_key(k: Seq<char>) -> bool {
    &&& k.len() > 0
    &&& !is_space(k[0])
    &&& k[0] != '#'
    &&& !is_space(k.last())
    &&& forall|i: int| 0 <= i < k.len() ==> k[i] != '=' && k[i] != '\n'
}

/// A value that is stored verbatim: non-empty, no surrounding whitespace and
/// no line breaks.
pub open spec fn plain_value(v: Seq<char>) -> bool {
    &&& v.len() > 0
    &&& !is_space(v[0])
    &&& !is_space(v.last())
    &&& forall|i: int| 0 <= i < v.len() ==> v[i] != '\n'
}

/// Reading a stored line `key=value` applies exactly that setting.
pub proof fn lemma_setting_line(cfg: Config, key: Seq<char>, value: Seq<char>, rest: Seq<char>)
    requires
        plain_key(key),
        plain_value(value),
    ensures
        apply_text(cfg, setting_line(key, value) + rest) == apply_text(
            apply_setting(cfg, key, value),
            rest,
        ),
{
    reveal_strlit("=");
    let line = key + "="@ + value;
    let k = key.len() as int;
    assert(line[k] == '=');
    assert forall|i: int| 0 <= i < line.len() implies line[i] != '\n' by {
        if i < k {
            assert(line[i] == key[i]);
        } else if i > k {
            assert(line[i] == value[i - k - 1]);
        }
    }
    let s = line.push('\n') + rest;
    assert forall|i: int| 0 <= i < line.len() implies s[i] != '\n' by {
        assert(s[i] == line[i]);
    }
    lemma_index_of_unique(s, '\n', line.len() as int);
    assert(s.take(line.len() as int) =~= line);
    assert(s.skip(line.len() as int + 1) =~= rest);
    assert(line.last() == value.last());
    assert(line[0] == key[0]);
    lemma_trim_noop(line);
    assert forall|i: int| 0 <= i < k implies line[i] != '=' by {
        assert(line[i] == key[i]);
    }
    lemma_index_of_unique(line, '=', k);
    assert(line.take(k) =~= key);
    assert(line.skip(k + 1) =~= value);
    lemma_trim_noop(key);
    lemma_trim_noop(value);
}

proof fn lemma_int_value(v: i32)
    ensures
        plain_value(int_text(v as int)),
        parse_i32(int_text(v as int)) == Some(v),
{
    lemma_int_text(v as int);
}

proof fn lemma_nat_value(n: u32)
    ensures
        plain_value(nat_text(n as nat)),
        parse_u32(nat_text(n as nat)) == Some(n),
{
    lemma_int_text(n as int);
    lemma_nat_text(n as nat);
    assert(int_text(n as int) == nat_text(n as nat));
}

proof fn lemma_anchor_value(a: Anchor)
    ensures
        plain_value(anchor_name(a)),
        anchor_from_name(anchor_name(a)) == a,
{
    reveal_strlit("top-left");
    reveal_strlit("top-center");
    reveal_strlit("top-right");
    reveal_strlit("middle-left");
    reveal_strlit("middle-center");
    reveal_strlit("middle-right");
    reveal_strlit("bottom-left");
    reveal_strlit("bottom-center");
    reveal_strlit("bottom-right");
    reveal_strlit("custom");
    assert("top-left"@.len() == 8);
    assert("top-right"@.len() == 9);
    assert("top-center"@.len() == 10);
    assert("bottom-left"@.len() == 11);
    assert("bottom-right"@.len() == 12);
    assert("bottom-center"@.len() == 13);
    assert("custom"@.len() == 6);
    assert("middle-left"@.len() == 11 && "middle-left"@[0] != "bottom-left"@[0]);
    assert("middle-right"@.len() == 12 && "middle-right"@[0] != "bottom-right"@[0]);
    assert("middle-center"@.len() == 13 && "middle-center"@[0] != "bottom-center"@[0]);
}

proof fn lemma_bool_value(b: bool)
    ensures
        plain_value(bool_text(b)),
        flag_value(bool_text(b)) == b,
{
    reveal_strlit("true");
    reveal_strlit("false");
    reveal_strlit("1");
    assert("true"@.len() == 4);
    assert("false"@.len() == 5);
    assert("1"@.len() == 1);
}

/// The stored keys are pairwise different.
proof fn lemma_keys_distinct()
    ensures
        plain_key("anchor"@),
        plain_key("margin_x"@),
        plain_key("margin_y"@),
        plain_key("custom_x"@),
        plain_key("custom_y"@),
        plain_key("hold_ms"@),
        plain_key("compact"@),
        plain_key("show_on_session_change"@),
        "anchor"@.len() == 6,
        "margin_x"@.len() == 8,
        "margin_y"@.len() == 8,
        "custom_x"@.len() == 8,
        "custom_y"@.len() == 8,
        "hold_ms"@.len() == 7,
        "compact"@.len() == 7,
        "show_on_session_change"@.len() == 22,
        "margin_x"@ != "margin_y"@,
        "margin_x"@ != "custom_x"@,
        "margin_x"@ != "custom_y"@,
        "margin_y"@ != "custom_x"@,
        "margin_y"@ != "custom_y"@,
        "custom_x"@ != "custom_y"@,
        "hold_ms"@ != "compact"@,
{
    reveal_strlit("anchor");
    reveal_strlit("margin_x");
    reveal_strlit("margin_y");
    reveal_strlit("custom_x");
    reveal_strlit("custom_y");
    reveal_strlit("hold_ms");
    reveal_strlit("compact");
    reveal_strlit("show_on_session_change");
    assert("margin_x"@[7] != "margin_y"@[7]);
    assert("margin_x"@[0] != "custom_x"@[0]);
    assert("margin_x"@[0] != "custom_y"@[0]);
    assert("margin_y"@[0] != "custom_x"@[0]);
    assert("margin_y"@[0] != "custom_y"@[0]);
    assert("custom_x"@[7] != "custom_y"@[7]);
    assert("hold_ms"@[0] != "compact"@[0]);
}

/// Settings written out and read back, from any starting settings, are the
/// settings that were written.
pub proof fn lemma_config_text_round_trip(start: Config, cfg: Config)
    ensures
        apply_text(start, config_text(cfg)) == cfg,
{
    lemma_keys_distinct();
    lemma_anchor_value(cfg.anchor);
    lemma_int_value(cfg.margin_x);
    lemma_int_value(cfg.margin_y);
    lemma_int_value(cfg.custom_x);
    lemma_int_value(cfg.custom_y);
    lemma_nat_value(cfg.hold_ms);
    lemma_bool_value(cfg.compact);
    lemma_bool_value(cfg.show_on_session_change);
    let t8 = setting_line("show_on_session_change"@, bool_text(cfg.show_on_session_change));
    let t7 = setting_line("compact"@, bool_text(cfg.compact)) + t8;
    let t6 = setting_line("hold_ms"@, nat_text(cfg.hold_ms as nat)) + t7;
    let t5 = setting_line("custom_y"@, int_text(cfg.custom_y as int)) + t6;
    let t4 = setting_line("custom_x"@, int_text(cfg.custom_x as int)) + t5;
    let t3 = setting_line("margin_y"@, int_text(cfg.margin_y as int)) + t4;
    let t2 = setting_line("margin_x"@, int_text(cfg.margin_x as int)) + t3;
    let c1 = apply_setting(start, "anchor"@, anchor_name(cfg.anchor));
    assert(c1 == Config { anchor: cfg.anchor, ..start });
    let c2 = apply_setting(c1, "margin_x"@, int_text(cfg.margin_x as int));
    assert(c2 == Config { margin_x: cfg.margin_x, ..c1 });
    let c3 = apply_setting(c2, "margin_y"@, int_text(cfg.margin_y as int));
    assert(c3 == Config { margin_y: cfg.margin_y, ..c2 });
    let c4 = apply_setting(c3, "custom_x"@, int_text(cfg.custom_x as int));
    assert(c4 == Config { custom_x: cfg.custom_x, ..c3 });
    let c5 = apply_setting(c4, "custom_y"@, int_text(cfg.custom_y as int));
    assert(c5 == Config { custom_y: cfg.custom_y, ..c4 });
    let c6 = apply_setting(c5, "hold_ms"@, nat_text(cfg.hold_ms as nat));
    assert(c6 == Config { hold_ms: cfg.hold_ms, ..c5 });
    let c7 = apply_setting(c6, "compact"@, bool_text(cfg.compact));
    assert(c7 == Config { compact: cfg.compact, ..c6 });
    let c8 = apply_setting(c7, "show_on_session_change"@, bool_text(cfg.show_on_session_change));
    assert(c8 == Config { show_on_session_change: cfg.show_on_session_change, ..c7 });
    lemma_setting_line(start, "anchor"@, anchor_name(cfg.anchor), t2);
    lemma_setting_line(c1, "margin_x"@, int_text(cfg.margin_x as int), t3);
    lemma_setting_line(c2, "margin_y"@, int_text(cfg.margin_y as int), t4);
    lemma_setting_line(c3, "custom_x"@, int_text(cfg.custom_x as int), t5);
    lemma_setting_line(c4, "custom_y"@, int_text(cfg.custom_y as int), t6);
    lemma_setting_line(c5, "hold_ms"@, nat_text(cfg.hold_ms as nat), t7);
    lemma_setting_line(c6, "compact"@, bool_text(cfg.compact), t8);
    lemma_setting_line(
        c7,
        "show_on_session_change"@,
        bool_text(cfg.show_on_session_change),
        Seq::<char>::empty(),
    );
    assert(t8 =~= t8 + Seq::<char>::empty());
    assert(apply_text(c8, Seq::<char>::empty()) == c8);
    assert(c8 == cfg);
}

/// What `set` stores is loaded back, on the next start, as the same settings.
pub proof fn lemma_saved_settings_reload(cfg: Config)
    ensures
        loaded_config(Some(config_text(cfg))) == cfg,
{
    lemma_config_text_round_trip(default_config(), cfg);
}

/// Every anchor's stored name reads back as that anchor.
pub proof fn lemma_anchor_name_round_trip(a: Anchor)
    ensures
        anchor_from_name(anchor_name(a)) == a,
{
    lemma_anchor_value(a);
}

} // verus!
