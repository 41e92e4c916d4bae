//! The settings of the indicator, their defaults and their text form.

use vstd::prelude::*;
use vstd::string::StringSliceAdditionalSpecFns;
use vstd::utf8::encode_utf8;
use crate::text::{
    comment_start, find, find_char, find_comment, parse_i32, parse_unsigned, parsed_signed,
    parsed_unsigned, skip_both, skip_start, to_chars, trim_both, trim_start, trimmed, Strip,
};

verus! {

/// The colour of a text that is too short to be one: the default orange.
pub const FALLBACK_COLOR: u32 = 0xA0FF7800;

/// The opacity of a colour that names none.
pub const DEFAULT_ALPHA: u32 = 0xA0;

/// The value of a hexadecimal digit in ASCII.
pub open spec fn hex_value(byte: u8) -> Option<u32> {
    if 0x30 <= byte <= 0x39 {
        Some((byte - 0x30) as u32)
    } else if 0x41 <= byte <= 0x46 {
        Some((byte - 0x41 + 10) as u32)
    } else if 0x61 <= byte <= 0x66 {
        Some((byte - 0x61 + 10) as u32)
    } else {
        None
    }
}

/// The number that two bytes spell in hexadecimal: two digits, or a plus
/// sign and one digit.
pub open spec fn hex_pair(high: u8, low: u8) -> Option<u32> {
    if high == 0x2B {
        hex_value(low)
    } else {
        match (hex_value(high), hex_value(low)) {
            (Some(h), Some(l)) => Some((16 * h + l) as u32),
            _ => None,
        }
    }
}

/// A channel of a colour: what the two bytes spell, or `fallback`.
pub open spec fn channel(high: u8, low: u8, fallback: u32) -> u32 {
    match hex_pair(high, low) {
        Some(v) => v,
        None => fallback,
    }
}

/// The packed colour with the given channels, alpha first.
pub open spec fn packed(a: u32, r: u32, g: u32, b: u32) -> int {
    a * 0x100_0000 + r * 0x1_0000 + g * 0x100 + b
}

/// The colour that the bytes `RRGGBB` or `RRGGBBAA` spell. A pair that is
/// no number counts as zero, as the default opacity where it stands for
/// alpha; bytes after the sixth count only if there are exactly two.
pub open spec fn color_of(bytes: Seq<u8>) -> int {
    if bytes.len() >= 6 {
        packed(
            if bytes.len() == 8 {
                channel(bytes[6], bytes[7], DEFAULT_ALPHA)
            } else {
                DEFAULT_ALPHA
            },
            channel(bytes[0], bytes[1], 0),
            channel(bytes[2], bytes[3], 0),
            channel(bytes[4], bytes[5], 0),
        )
    } else {
        FALLBACK_COLOR as int
    }
}

/// The part of a colour's text that spells it: without white space around
/// it, without quotation marks around that, without number signs before
/// that.
pub open spec fn color_text(s: Seq<char>) -> Seq<char> {
    skip_start(skip_both(trimmed(s), Strip::Char('"')), Strip::Char('#'))
}

/// The colour that a text spells, taken byte by byte in UTF-8.
pub open spec fn parsed_color(s: Seq<char>) -> int {
    color_of(encode_utf8(color_text(s)))
}

fn hex_digit_value(byte: u8) -> (value: Option<u32>)
    ensures
        value == hex_value(byte),
        value is Some ==> value.unwrap() < 16,
{
    if 0x30 <= byte && byte <= 0x39 {
        Some((byte - 0x30) as u32)
    } else if 0x41 <= byte && byte <= 0x46 {
        Some((byte - 0x41 + 10) as u32)
    } else if 0x61 <= byte && byte <= 0x66 {
        Some((byte - 0x61 + 10) as u32)
    } else {
        None
    }
}

fn parse_channel(high: u8, low: u8, fallback: u32) -> (value: u32)
    requires
        fallback < 256,
    ensures
        value == channel(high, low, fallback),
        value < 256,
{
    if high == 0x2B {
        match hex_digit_value(low) {
            Some(v) => v,
            None => fallback,
        }
    } else {
        match (hex_digit_value(high), hex_digit_value(low)) {
            (Some(h), Some(l)) => 16 * h + l,
            _ => fallback,
        }
    }
}

/// Reads a colour from the bytes that spell it.
pub fn color_from_bytes(bytes: &[u8]) -> (color: u32)
    ensures
        color == color_of(bytes@),
{
    if bytes.len() >= 6 {
        let r = parse_channel(bytes[0], bytes[1], 0);
        let g = parse_channel(bytes[2], bytes[3], 0);
        let b = parse_channel(bytes[4], bytes[5], 0);
        let a = if bytes.len() == 8 {
            parse_channel(bytes[6], bytes[7], DEFAULT_ALPHA)
        } else {
            DEFAULT_ALPHA
        };
        assert((a << 24) | (r << 16) | (g << 8) | b == a * 0x100_0000 + r * 0x1_0000 + g * 0x100
            + b) by (bit_vector)
            requires
                a < 256,
                r < 256,
                g < 256,
                b < 256,
        ;
        (a << 24) | (r << 16) | (g << 8) | b
    } else {
        FALLBACK_COLOR
    }
}

/// Reads a packed ARGB colour from its text, `#RRGGBB` or `#RRGGBBAA`, which
/// may stand in quotation marks.
pub fn parse_color(s: &str) -> (color: u32)
    ensures
        color == parsed_color(s@),
{
    let chars = to_chars(s);
    let (from, to) = trim_both(&chars, 0, chars.len(), Strip::Whitespace);
    let (from, to) = trim_both(&chars, from, to, Strip::Char('"'));
    let from = trim_start(&chars, from, to, Strip::Char('#'));
    proof {
        assert(chars@.subrange(0, chars@.len() as int) =~= s@);
    }
    let clean = s.substring_char(from, to);
    color_from_bytes(clean.as_bytes())
}

/// The settings, read once at startup.
#[derive(Debug, Clone, PartialEq, Eq)]
pub struct Config {
    pub poll_state_interval_ms: u64,
    pub poll_track_interval_ms: u64,
    pub tray_enable: bool,
    pub caret_enable: bool,
    pub caret_color_cn: u32,
    pub caret_color_en: u32,
    pub caret_size: i32,
    pub caret_offset_x: i32,
    pub caret_offset_y: i32,
    pub caret_show_en: bool,
    pub mouse_enable: bool,
    pub mouse_color_cn: u32,
    pub mouse_color_en: u32,
    pub mouse_size: i32,
    pub mouse_offset_x: i32,
    pub mouse_offset_y: i32,
    pub mouse_show_en: bool,
    pub mouse_target_cursors: Vec<u32>,
    pub caps_enable: bool,
    pub caps_color: u32,
}

/// The settings as contracts see them.
pub ghost struct ConfigView {
    pub poll_state_interval_ms: u64,
    pub poll_track_interval_ms: u64,
    pub tray_enable: bool,
    pub caret_enable: bool,
    pub caret_color_cn: u32,
    pub caret_color_en: u32,
    pub caret_size: i32,
    pub caret_offset_x: i32,
    pub caret_offset_y: i32,
    pub caret_show_en: bool,
    pub mouse_enable: bool,
    pub mouse_color_cn: u32,
    pub mouse_color_en: u32,
    pub mouse_size: i32,
    pub mouse_offset_x: i32,
    pub mouse_offset_y: i32,
    pub mouse_show_en: bool,
    pub mouse_target_cursors: Seq<u32>,
    pub caps_enable: bool,
    pub caps_color: u32,
}

impl View for Config {
    type V = ConfigView;

    open spec fn view(&self) -> ConfigView {
        ConfigView {
            poll_state_interval_ms: self.poll_state_interval_ms,
            poll_track_interval_ms: self.poll_track_interval_ms,
            tray_enable: self.tray_enable,
            caret_enable: self.caret_enable,
            caret_color_cn: self.caret_color_cn,
            caret_color_en: self.caret_color_en,
            caret_size: self.caret_size,
            caret_offset_x: self.caret_offset_x,
            caret_offset_y: self.caret_offset_y,
            caret_show_en: self.caret_show_en,
            mouse_enable: self.mouse_enable,
            mouse_color_cn: self.mouse_color_cn,
            mouse_color_en: self.mouse_color_en,
            mouse_size: self.mouse_size,
            mouse_offset_x: self.mouse_offset_x,
            mouse_offset_y: self.mouse_offset_y,
            mouse_show_en: self.mouse_show_en,
            mouse_target_cursors: self.mouse_target_cursors@,
            caps_enable: self.caps_enable,
            caps_color: self.caps_color,
        }
    }
}

/// The settings that apply where the text form says nothing: both
/// indicators and the tray enabled, orange for the native mode, blue for the
/// alphabetic mode, green for Caps Lock, and the I-beam and the arrow as
/// target pointer shapes.
pub open spec fn default_settings() -> ConfigView {
    ConfigView {
        poll_state_interval_ms: 100,
        poll_track_interval_ms: 10,
        tray_enable: true,
        caret_enable: true,
        caret_color_cn: 0xA0FF7800,
        caret_color_en: 0x300078FF,
        caret_size: 8,
        caret_offset_x: 0,
        caret_offset_y: 0,
        caret_show_en: true,
        mouse_enable: true,
        mouse_color_cn: 0xA0FF7800,
        mouse_color_en: 0x300078FF,
        mouse_size: 8,
        mouse_offset_x: 2,
        mouse_offset_y: 18,
        mouse_show_en: true,
        mouse_target_cursors: seq![32513u32, 32512u32],
        caps_enable: true,
        caps_color: 0xA000FF00,
    }
}

impl Default for Config {
    fn default() -> (config: Self)
        ensures
            config@ == default_settings(),
    {
        let mut cursors: Vec<u32> = Vec::new();
        cursors.push(32513);
        cursors.push(32512);
        proof {
            assert(cursors@ =~= seq![32513u32, 32512u32]);
        }
        Config {
            poll_state_interval_ms: 100,
            poll_track_interval_ms: 10,
            tray_enable: true,
            caret_enable: true,
            caret_color_cn: 0xA0FF7800,
            caret_color_en: 0x300078FF,
            caret_size: 8,
            caret_offset_x: 0,
            caret_offset_y: 0,
            caret_show_en: true,
            mouse_enable: true,
            mouse_color_cn: 0xA0FF7800,
            mouse_color_en: 0x300078FF,
            mouse_size: 8,
            mouse_offset_x: 2,
            mouse_offset_y: 18,
            mouse_show_en: true,
            mouse_target_cursors: cursors,
            caps_enable: true,
            caps_color: 0xA000FF00,
        }
    }
}

/// The period of the slower tick, which reads the input signals.
pub fn state_poll_interval_ms(config: &Config) -> (ms: u64)
    ensures
        ms == config.poll_state_interval_ms,
{
    config.poll_state_interval_ms
}

/// The period of the faster tick, which follows the anchor.
pub fn track_poll_interval_ms(config: &Config) -> (ms: u64)
    ensures
        ms == config.poll_track_interval_ms,
{
    config.poll_track_interval_ms
}

/// Whether the tray icon is shown.
pub fn tray_enable(config: &Config) -> (on: bool)
    ensures
        on == config.tray_enable,
{
    config.tray_enable
}

/// Whether the caret indicator is in use.
pub fn caret_enable(config: &Config) -> (on: bool)
    ensures
        on == config.caret_enable,
{
    config.caret_enable
}

/// The caret indicator's colour in the native mode.
pub fn caret_color_cn(config: &Config) -> (color: u32)
    ensures
        color == config.caret_color_cn,
{
    config.caret_color_cn
}

/// The caret indicator's colour in the alphabetic mode.
pub fn caret_color_en(config: &Config) -> (color: u32)
    ensures
        color == config.caret_color_en,
{
    config.caret_color_en
}

/// The side of the caret indicator in pixels.
pub fn caret_size(config: &Config) -> (size: i32)
    ensures
        size == config.caret_size,
{
    config.caret_size
}

/// How far right of its anchor the caret indicator stands.
pub fn caret_offset_x(config: &Config) -> (offset: i32)
    ensures
        offset == config.caret_offset_x,
{
    config.caret_offset_x
}

/// How far below its anchor the caret indicator stands.
pub fn caret_offset_y(config: &Config) -> (offset: i32)
    ensures
        offset == config.caret_offset_y,
{
    config.caret_offset_y
}

/// Whether the caret indicator shows in the alphabetic mode too.
pub fn caret_show_en(config: &Config) -> (on: bool)
    ensures
        on == config.caret_show_en,
{
    config.caret_show_en
}

/// Whether the pointer indicator is in use.
pub fn mouse_enable(config: &Config) -> (on: bool)
    ensures
        on == config.mouse_enable,
{
    config.mouse_enable
}

/// The pointer indicator's colour in the native mode.
pub fn mouse_color_cn(config: &Config) -> (color: u32)
    ensures
        color == config.mouse_color_cn,
{
    config.mouse_color_cn
}

/// The pointer indicator's colour in the alphabetic mode.
pub fn mouse_color_en(config: &Config) -> (color: u32)
    ensures
        color == config.mouse_color_en,
{
    config.mouse_color_en
}

/// The side of the pointer indicator in pixels.
pub fn mouse_size(config: &Config) -> (size: i32)
    ensures
        size == config.mouse_size,
{
    config.mouse_size
}

/// How far right of the pointer its indicator stands.
pub fn mouse_offset_x(config: &Config) -> (offset: i32)
    ensures
        offset == config.mouse_offset_x,
{
    config.mouse_offset_x
}

/// How far below the pointer its indicator stands.
pub fn mouse_offset_y(config: &Config) -> (offset: i32)
    ensures
        offset == config.mouse_offset_y,
{
    config.mouse_offset_y
}

/// Whether the pointer indicator shows in the alphabetic mode too.
pub fn mouse_show_en(config: &Config) -> (on: bool)
    ensures
        on == config.mouse_show_en,
{
    config.mouse_show_en
}

/// The pointer shapes over which the pointer indicator may show.
pub fn mouse_target_cursors(config: &Config) -> (ids: &[u32])
    ensures
        ids@ == config.mouse_target_cursors@,
{
    config.mouse_target_cursors.as_slice()
}

/// Whether Caps Lock counts as an input signal.
pub fn caps_enable(config: &Config) -> (on: bool)
    ensures
        on == config.caps_enable,
{
    config.caps_enable
}

/// The colour of both indicators while Caps Lock is on.
pub fn caps_color(config: &Config) -> (color: u32)
    ensures
        color == config.caps_color,
{
    config.caps_color
}

/// The lower-case form of a text, as the standard library makes it.
pub uninterp spec fn lowercase(s: Seq<char>) -> Seq<char>;

/// `str::to_lowercase` of the standard library. The contract gives its
/// result a name and claims nothing else of it: the same text has the same
/// lower-case form wherever it is asked for.
#[verifier::external_body]
fn to_lowercase(s: &str) -> (lower: String)
    ensures
        lower@ == lowercase(s@),
{
    s.to_lowercase()
}

/// What a line of the settings file says.
pub ghost enum Line {
    /// Nothing: the line is blank, a comment, or neither heading nor
    /// assignment.
    Skip,
    /// The heading of a section, in lower case.
    Section(Seq<char>),
    /// The assignment of a value to a key; the key in lower case.
    Assign(Seq<char>, Seq<char>),
}

/// Reads one line. White space around the line, around the key and around
/// the value does not count. A line that begins with a number sign is a
/// comment; one in square brackets is a heading; one with an equals sign
/// assigns what follows it, up to the first space before a number sign, to
/// what stands before it.
pub open spec fn read_line(line: Seq<char>) -> Line {
    let t = trimmed(line);
    if t.len() == 0 || t[0] == '#' {
        Line::Skip
    } else if t[0] == '[' && t.last() == ']' {
        Line::Section(lowercase(t.subrange(1, t.len() - 1)))
    } else {
        let eq = find_char(t, '=', 0);
        if 0 <= eq < t.len() {
            let after = t.subrange(eq + 1, t.len() as int);
            Line::Assign(
                lowercase(trimmed(t.subrange(0, eq))),
                trimmed(after.subrange(0, comment_start(after, 0))),
            )
        } else {
            Line::Skip
        }
    }
}

/// An assignment of the settings file with the section that it stands in.
#[derive(Debug, Clone, PartialEq, Eq)]
pub struct Entry {
    pub section: String,
    pub key: String,
    pub value: String,
}

/// An entry as contracts see it.
pub ghost struct EntryView {
    pub section: Seq<char>,
    pub key: Seq<char>,
    pub value: Seq<char>,
}

impl View for Entry {
    type V = EntryView;

    open spec fn view(&self) -> EntryView {
        EntryView { section: self.section@, key: self.key@, value: self.value@ }
    }
}

/// The entries of a list as contracts see them.
pub open spec fn entry_views(entries: Seq<Entry>) -> Seq<EntryView> {
    entries.map_values(|e: Entry| e@)
}

/// The text after the first line of `text`.
pub open spec fn after_first_line(text: Seq<char>) -> Seq<char> {
    let end = find_char(text, '\n', 0);
    if 0 <= end < text.len() {
        text.subrange(end + 1, text.len() as int)
    } else {
        Seq::empty()
    }
}

/// The assignments of a settings file in the order of its lines, each with
/// the section whose heading came last before it; `section` is the one that
/// the text begins in.
pub open spec fn entries_of(text: Seq<char>, section: Seq<char>) -> Seq<EntryView>
    decreases text.len(),
{
    if text.len() == 0 {
        Seq::empty()
    } else {
        let end = find_char(text, '\n', 0);
        let rest = after_first_line(text);
        match read_line(text.subrange(0, end)) {
            Line::Skip => entries_of(rest, section),
            Line::Section(name) => entries_of(rest, name),
            Line::Assign(key, value) => seq![EntryView { section, key, value }] + entries_of(
                rest,
                section,
            ),
        }
    }
}

/// The value that was assigned last to `key` in `section`.
pub open spec fn setting(entries: Seq<EntryView>, section: Seq<char>, key: Seq<char>) -> Option<
    Seq<char>,
>
    decreases entries.len(),
{
    if entries.len() == 0 {
        None
    } else if entries.last().section == section && entries.last().key == key {
        Some(entries.last().value)
    } else {
        setting(entries.drop_last(), section, key)
    }
}

/// Reads the assignments of a settings file.
pub fn read_entries(content: &str) -> (entries: Vec<Entry>)
    ensures
        entry_views(entries@) == entries_of(content@, Seq::empty()),
{
    let chars = to_chars(content);
    let n = chars.len();
    let mut entries: Vec<Entry> = Vec::new();
    let mut section = String::new();
    let mut from: usize = 0;
    proof {
        assert(content@.subrange(0, n as int) =~= content@);
        assert(entry_views(entries@) =~= Seq::empty());
        assert(entry_views(entries@) + entries_of(content@, section@) =~= entries_of(
            content@,
            section@,
        ));
    }
    while from < n
        invariant
            chars@ == content@,
            n == chars@.len(),
            from <= n,
            entries_of(content@, Seq::empty()) == entry_views(entries@) + entries_of(
                content@.subrange(from as int, n as int),
                section@,
            ),
        decreases n - from,
    {
        let ghost text = content@.subrange(from as int, n as int);
        let ghost before = entry_views(entries@);
        let ghost section_before = section@;
        let end = find(&chars, from, n, '\n');
        let ghost line = text.subrange(0, end - from);
        let ghost rest = after_first_line(text);
        let (a, b) = trim_both(&chars, from, end, Strip::Whitespace);
        let ghost t = trimmed(line);
        proof {
            assert(line =~= chars@.subrange(from as int, end as int));
            assert(t == chars@.subrange(a as int, b as int));
            if end < n {
                assert(rest =~= content@.subrange(end + 1, n as int));
            } else {
                assert(rest =~= content@.subrange(n as int, n as int));
            }
        }
        if a < b && chars[a] != '#' {
            assert(t[0] == chars@[a as int]);
            assert(t.last() == chars@[b - 1]);
            if chars[a] == '[' && chars[b - 1] == ']' {
                assert(t.subrange(1, t.len() - 1) =~= content@.subrange(a + 1, b - 1));
                section = to_lowercase(content.substring_char(a + 1, b - 1));
            } else {
                let eq = find(&chars, a, b, '=');
                if eq < b {
                    let (key_from, key_to) = trim_both(&chars, a, eq, Strip::Whitespace);
                    let cut = find_comment(&chars, eq + 1, b);
                    let (value_from, value_to) = trim_both(&chars, eq + 1, cut, Strip::Whitespace);
                    proof {
                        let after = t.subrange(eq - a + 1, t.len() as int);
                        assert(t.subrange(0, eq - a) =~= chars@.subrange(a as int, eq as int));
                        assert(after =~= chars@.subrange(eq + 1, b as int));
                        assert(after.subrange(0, cut - eq - 1) =~= chars@.subrange(
                            eq + 1,
                            cut as int,
                        ));
                    }
                    let key = to_lowercase(content.substring_char(key_from, key_to));
                    let value = String::from_str(content.substring_char(value_from, value_to));
                    let entry = Entry { section: section.clone(), key, value };
                    proof {
                        assert(entry_views(entries@.push(entry)) =~= before.push(entry@));
                        assert(before.push(entry@) + entries_of(rest, section@) =~= before + (
                        seq![entry@] + entries_of(rest, section@)));
                    }
                    entries.push(entry);
                }
            }
        }
        from = if end < n {
            end + 1
        } else {
            n
        };
    }
    proof {
        assert(entry_views(entries@) + Seq::<EntryView>::empty() =~= entry_views(entries@));
    }
    entries
}

/// The pointer shapes that a list spells: its items stand between commas,
/// white space around an item does not count, and an item that is no number
/// of 32 bits is left out.
pub open spec fn cursor_ids(list: Seq<char>) -> Seq<u32>
    decreases list.len(),
{
    let end = find_char(list, ',', 0);
    let head = match parsed_unsigned(trimmed(list.subrange(0, end)), u32::MAX as nat) {
        Some(id) => seq![id as u32],
        None => Seq::empty(),
    };
    if 0 <= end < list.len() {
        head + cursor_ids(list.subrange(end + 1, list.len() as int))
    } else {
        head
    }
}

/// The value of a setting that is a period in milliseconds: the number that
/// the text spells, else what it was.
pub open spec fn period_or(text: Option<Seq<char>>, was: u64) -> u64 {
    match text {
        Some(t) => match parsed_unsigned(t, u64::MAX as nat) {
            Some(v) => v as u64,
            None => was,
        },
        None => was,
    }
}

/// The value of a setting that is a number of pixels: the number that the
/// text spells, else what it was.
pub open spec fn pixels_or(text: Option<Seq<char>>, was: i32) -> i32 {
    match text {
        Some(t) => match parsed_signed(t, i32::MIN as int, i32::MAX as nat) {
            Some(v) => v as i32,
            None => was,
        },
        None => was,
    }
}

/// The value of a setting that is a switch: on exactly if the text is
/// `true`; what it was without a text.
pub open spec fn switch_or(text: Option<Seq<char>>, was: bool) -> bool {
    match text {
        Some(t) => t == "true"@,
        None => was,
    }
}

/// The value of a setting that is a colour: what the text spells; what it
/// was without a text.
pub open spec fn color_or(text: Option<Seq<char>>, was: u32) -> u32 {
    match text {
        Some(t) => parsed_color(t) as u32,
        None => was,
    }
}

/// The value of the setting that lists pointer shapes: what the text spells
/// between its square brackets; what it was without a text.
pub open spec fn cursors_or(text: Option<Seq<char>>, was: Seq<u32>) -> Seq<u32> {
    match text {
        Some(t) => cursor_ids(skip_both(t, Strip::Brackets)),
        None => was,
    }
}

/// The settings that a list of assignments gives: each setting has the value
/// that was assigned last to its key in its section, read as its kind asks,
/// and its default where the list has no such assignment or, for a number,
/// none that spells one.
pub open spec fn applied(e: Seq<EntryView>) -> ConfigView {
    let d = default_settings();
    ConfigView {
        poll_state_interval_ms: period_or(
            setting(e, "poll"@, "state_interval_ms"@),
            d.poll_state_interval_ms,
        ),
        poll_track_interval_ms: period_or(
            setting(e, "poll"@, "track_interval_ms"@),
            d.poll_track_interval_ms,
        ),
        tray_enable: switch_or(setting(e, "tray"@, "enable"@), d.tray_enable),
        caret_enable: switch_or(setting(e, "caret"@, "enable"@), d.caret_enable),
        caret_color_cn: color_or(setting(e, "caret"@, "color_cn"@), d.caret_color_cn),
        caret_color_en: color_or(setting(e, "caret"@, "color_en"@), d.caret_color_en),
        caret_size: pixels_or(setting(e, "caret"@, "size"@), d.caret_size),
        caret_offset_x: pixels_or(setting(e, "caret"@, "offset_x"@), d.caret_offset_x),
        caret_offset_y: pixels_or(setting(e, "caret"@, "offset_y"@), d.caret_offset_y),
        caret_show_en: switch_or(setting(e, "caret"@, "show_en"@), d.caret_show_en),
        mouse_enable: switch_or(setting(e, "mouse"@, "enable"@), d.mouse_enable),
        mouse_color_cn: color_or(setting(e, "mouse"@, "color_cn"@), d.mouse_color_cn),
        mouse_color_en: color_or(setting(e, "mouse"@, "color_en"@), d.mouse_color_en),
        mouse_size: pixels_or(setting(e, "mouse"@, "size"@), d.mouse_size),
        mouse_offset_x: pixels_or(setting(e, "mouse"@, "offset_x"@), d.mouse_offset_x),
        mouse_offset_y: pixels_or(setting(e, "mouse"@, "offset_y"@), d.mouse_offset_y),
        mouse_show_en: switch_or(setting(e, "mouse"@, "show_en"@), d.mouse_show_en),
        mouse_target_cursors: cursors_or(
            setting(e, "mouse"@, "target_cursors"@),
            d.mouse_target_cursors,
        ),
        caps_enable: switch_or(setting(e, "caps"@, "enable"@), d.caps_enable),
        caps_color: color_or(setting(e, "caps"@, "color"@), d.caps_color),
    }
}

/// The settings that the text of a settings file gives.
pub open spec fn loaded(text: Seq<char>) -> ConfigView {
    applied(entries_of(text, Seq::empty()))
}

/// Finds the value that was assigned last to `key` in `section`.
pub fn lookup<'a>(entries: &'a Vec<Entry>, section: &str, key: &str) -> (value: Option<&'a String>)
    ensures
        match value {
            Some(text) => setting(entry_views(entries@), section@, key@) == Some(text@),
            None => setting(entry_views(entries@), section@, key@) is None,
        },
{
    let wanted_section = String::from_str(section);
    let wanted_key = String::from_str(key);
    let ghost all = entry_views(entries@);
    let mut i = entries.len();
    assert(all.subrange(0, i as int) =~= all);
    while i > 0
        invariant
            i <= entries@.len(),
            all == entry_views(entries@),
            wanted_section@ == section@,
            wanted_key@ == key@,
            setting(all, section@, key@) == setting(all.subrange(0, i as int), section@, key@),
        decreases i,
    {
        let entry = &entries[i - 1];
        let ghost part = all.subrange(0, i as int);
        proof {
            assert(part.last() == entry@);
            assert(part.drop_last() =~= all.subrange(0, i - 1));
        }
        if entry.section == wanted_section && entry.key == wanted_key {
            assert(setting(part, section@, key@) == Some(entry.value@));
            return Some(&entry.value);
        }
        i = i - 1;
    }
    None
}

fn period_setting(found: Option<&String>, was: u64) -> (value: u64)
    ensures
        value == period_or(
            match found {
                Some(text) => Some(text@),
                None => None,
            },
            was,
        ),
{
    match found {
        Some(text) => {
            let chars = to_chars(text.as_str());
            assert(chars@.subrange(0, chars@.len() as int) =~= text@);
            match parse_unsigned(&chars, 0, chars.len(), u64::MAX) {
                Some(v) => v,
                None => was,
            }
        },
        None => was,
    }
}

fn pixels_setting(found: Option<&String>, was: i32) -> (value: i32)
    ensures
        value == pixels_or(
            match found {
                Some(text) => Some(text@),
                None => None,
            },
            was,
        ),
{
    match found {
        Some(text) => {
            let chars = to_chars(text.as_str());
            assert(chars@.subrange(0, chars@.len() as int) =~= text@);
            match parse_i32(&chars, 0, chars.len()) {
                Some(v) => v,
                None => was,
            }
        },
        None => was,
    }
}

fn switch_setting(found: Option<&String>, was: bool) -> (value: bool)
    ensures
        value == switch_or(
            match found {
                Some(text) => Some(text@),
                None => None,
            },
            was,
        ),
{
    match found {
        Some(text) => {
            let on = String::from_str("true");
            *text == on
        },
        None => was,
    }
}

fn color_setting(found: Option<&String>, was: u32) -> (value: u32)
    ensures
        value == color_or(
            match found {
                Some(text) => Some(text@),
                None => None,
            },
            was,
        ),
{
    match found {
        Some(text) => parse_color(text.as_str()),
        None => was,
    }
}

/// Reads a list of pointer shapes from its text without the brackets.
pub fn parse_cursor_ids(list: &Vec<char>, from: usize, to: usize) -> (ids: Vec<u32>)
    requires
        from <= to <= list@.len(),
    ensures
        ids@ == cursor_ids(list@.subrange(from as int, to as int)),
{
    let ghost whole = list@.subrange(from as int, to as int);
    let mut ids: Vec<u32> = Vec::new();
    let mut at = from;
    let mut done = false;
    assert(ids@ + cursor_ids(whole) =~= cursor_ids(whole));
    while !done
        invariant
            from <= at <= to <= list@.len(),
            whole == list@.subrange(from as int, to as int),
            !done ==> cursor_ids(whole) == ids@ + cursor_ids(list@.subrange(at as int, to as int)),
            done ==> cursor_ids(whole) == ids@,
        decreases to - at + if done {
            0int
        } else {
            1int
        },
    {
        let ghost rest = list@.subrange(at as int, to as int);
        let ghost before = ids@;
        let end = find(list, at, to, ',');
        let (item_from, item_to) = trim_both(list, at, end, Strip::Whitespace);
        proof {
            assert(rest.subrange(0, end - at) =~= list@.subrange(at as int, end as int));
        }
        match parse_unsigned(list, item_from, item_to, 0xffff_ffff) {
            Some(id) => {
                ids.push(id as u32);
            },
            None => {},
        }
        if end < to {
            proof {
                let tail = list@.subrange(end + 1, to as int);
                assert(rest.subrange(end - at + 1, rest.len() as int) =~= tail);
                assert(before + (ids@.subrange(before.len() as int, ids@.len() as int)
                    + cursor_ids(tail)) =~= ids@ + cursor_ids(tail));
            }
            at = end + 1;
        } else {
            proof {
                assert(before + ids@.subrange(before.len() as int, ids@.len() as int) =~= ids@);
            }
            done = true;
        }
    }
    ids
}

fn cursors_setting(found: Option<&String>, was: Vec<u32>) -> (value: Vec<u32>)
    ensures
        value@ == cursors_or(
            match found {
                Some(text) => Some(text@),
                None => None,
            },
            was@,
        ),
{
    match found {
        Some(text) => {
            let chars = to_chars(text.as_str());
            assert(chars@.subrange(0, chars@.len() as int) =~= text@);
            let (from, to) = trim_both(&chars, 0, chars.len(), Strip::Brackets);
            parse_cursor_ids(&chars, from, to)
        },
        None => was,
    }
}

/// Makes the settings from the assignments of a settings file.
pub fn apply_entries(entries: &Vec<Entry>) -> (config: Config)
    ensures
        config@ == applied(entry_views(entries@)),
{
    let d = Config::default();
    Config {
        poll_state_interval_ms: period_setting(
            lookup(entries, "poll", "state_interval_ms"),
            d.poll_state_interval_ms,
        ),
        poll_track_interval_ms: period_setting(
            lookup(entries, "poll", "track_interval_ms"),
            d.poll_track_interval_ms,
        ),
        tray_enable: switch_setting(lookup(entries, "tray", "enable"), d.tray_enable),
        caret_enable: switch_setting(lookup(entries, "caret", "enable"), d.caret_enable),
        caret_color_cn: color_setting(lookup(entries, "caret", "color_cn"), d.caret_color_cn),
        caret_color_en: color_setting(lookup(entries, "caret", "color_en"), d.caret_color_en),
        caret_size: pixels_setting(lookup(entries, "caret", "size"), d.caret_size),
        caret_offset_x: pixels_setting(lookup(entries, "caret", "offset_x"), d.caret_offset_x),
        caret_offset_y: pixels_setting(lookup(entries, "caret", "offset_y"), d.caret_offset_y),
        caret_show_en: switch_setting(lookup(entries, "caret", "show_en"), d.caret_show_en),
        mouse_enable: switch_setting(lookup(entries, "mouse", "enable"), d.mouse_enable),
        mouse_color_cn: color_setting(lookup(entries, "mouse", "color_cn"), d.mouse_color_cn),
        mouse_color_en: color_setting(lookup(entries, "mouse", "color_en"), d.mouse_color_en),
        mouse_size: pixels_setting(lookup(entries, "mouse", "size"), d.mouse_size),
        mouse_offset_x: pixels_setting(lookup(entries, "mouse", "offset_x"), d.mouse_offset_x),
        mouse_offset_y: pixels_setting(lookup(entries, "mouse", "offset_y"), d.mouse_offset_y),
        mouse_show_en: switch_setting(lookup(entries, "mouse", "show_en"), d.mouse_show_en),
        mouse_target_cursors: cursors_setting(
            lookup(entries, "mouse", "target_cursors"),
            d.mouse_target_cursors,
        ),
        caps_enable: switch_setting(lookup(entries, "caps", "enable"), d.caps_enable),
        caps_color: color_setting(lookup(entries, "caps", "color"), d.caps_color),
    }
}

/// Reads the settings from the text of a settings file.
pub fn load_config(content: &str) -> (config: Config)
    ensures
        config@ == loaded(content@),
{
    let entries = read_entries(content);
    apply_entries(&entries)
}

/// The settings: those of the settings file, given its text, or the defaults
/// where there is no file yet.
pub fn get(content: Option<&str>) -> (config: Config)
    ensures
        config@ == match content {
            Some(text) => loaded(text@),
            None => default_settings(),
        },
{
    match content {
        Some(text) => load_config(text),
        None => Config::default(),
    }
}

/// The text of a settings file that spells the defaults.
pub open spec fn settings_template() -> Seq<char> {
    "[poll]\nstate_interval_ms = 100\ntrack_interval_ms = 10\n[tray]\nenable = true\n[caret]\nenable = true\ncolor_cn = \"#FF7800A0\"\ncolor_en = \"#0078FF30\"\nsize = 8\noffset_x = 0\noffset_y = 0\nshow_en = true\n[mouse]\nenable = true\ncolor_cn = \"#FF7800A0\"\ncolor_en = \"#0078FF30\"\nsize = 8\noffset_x = 2\noffset_y = 18\nshow_en = true\ntarget_cursors = [32513, 32512]\n[caps]\nenable = true\ncolor = \"#00FF00A0\"\n"@
}

/// Writes the text of a settings file that spells the defaults.
pub fn generate_toml_template() -> (text: String)
    ensures
        text@ == settings_template(),
{
    String::from_str(
        "[poll]\nstate_interval_ms = 100\ntrack_interval_ms = 10\n[tray]\nenable = true\n[caret]\nenable = true\ncolor_cn = \"#FF7800A0\"\ncolor_en = \"#0078FF30\"\nsize = 8\noffset_x = 0\noffset_y = 0\nshow_en = true\n[mouse]\nenable = true\ncolor_cn = \"#FF7800A0\"\ncolor_en = \"#0078FF30\"\nsize = 8\noffset_x = 2\noffset_y = 18\nshow_en = true\ntarget_cursors = [32513, 32512]\n[caps]\nenable = true\ncolor = \"#00FF00A0\"\n",
    )
}

} // verus!
