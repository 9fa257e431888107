//! Deployment configuration: device discovery criteria, MIDI port hint, and
//! demo defaults, plus the small pure parsers used for file and environment
//! overrides. Reading and writing configuration files is left to the
//! surrounding application; this module only holds the values and parses
//! plain text.

use vstd::prelude::*;
use vstd::string::StringSliceAdditionalSpecFns;

use crate::protocol::Rgb;

verus! {

/// Device discovery criteria: vendor and product id, and an optional
/// usage-page/usage pair.
#[derive(Debug, Clone, Copy, PartialEq, Eq, Structural)]
pub struct HidConfig {
    pub vid: u16,
    pub pid: u16,
    pub usage_page: Option<u16>,
    pub usage: Option<u16>,
}

impl Default for HidConfig {
    /// The pad's stock vendor/product id and raw usage pair.
    fn default() -> (c: Self)
        ensures
            c == (HidConfig {
                vid: 0x574Cu16,
                pid: 0x1DF9u16,
                usage_page: Some(0xFF60u16),
                usage: Some(0x0061u16),
            }),
    {
        HidConfig { vid: 0x574C, pid: 0x1DF9, usage_page: Some(0xFF60), usage: Some(0x0061) }
    }
}

/// MIDI reader configuration: a substring hint for the input port name.
#[derive(Debug, Clone)]
pub struct MidiConfig {
    pub port_hint: Option<String>,
    pub enabled: bool,
}

impl Default for MidiConfig {
    /// MIDI input off by default, hinting at the pad's own port.
    fn default() -> (c: Self)
        ensures
            !c.enabled,
            c.port_hint matches Some(h) && h@ == "Loop"@,
    {
        MidiConfig { port_hint: Some("Loop".to_string()), enabled: false }
    }
}

/// A color as it appears in a configuration file.
#[derive(Debug, Clone, Copy, PartialEq, Eq, Structural)]
pub struct RgbConfig {
    pub r: u8,
    pub g: u8,
    pub b: u8,
}

impl From<RgbConfig> for Rgb {
    fn from(cfg: RgbConfig) -> (c: Rgb) {
        Rgb { r: cfg.r, g: cfg.g, b: cfg.b }
    }
}

impl vstd::std_specs::convert::FromSpecImpl<RgbConfig> for Rgb {
    open spec fn obeys_from_spec() -> bool {
        true
    }

    open spec fn from_spec(cfg: RgbConfig) -> Rgb {
        Rgb { r: cfg.r, g: cfg.g, b: cfg.b }
    }
}

/// Demo-sequence configuration.
#[derive(Debug, Clone, Copy, PartialEq, Eq, Structural)]
pub struct DemoConfig {
    pub start_layer: u8,
    pub start_color: RgbConfig,
    pub arm_timeout_seconds: u64,
}

/// The arm timeout used when a configuration file does not set one.
pub fn default_arm_timeout() -> (t: u64)
    ensures
        t == 30u64,
{
    30
}

impl Default for DemoConfig {
    /// Base layer, white, and the stock arm timeout.
    fn default() -> (c: Self)
        ensures
            c == (DemoConfig {
                start_layer: 0u8,
                start_color: RgbConfig { r: 255u8, g: 255u8, b: 255u8 },
                arm_timeout_seconds: 30u64,
            }),
    {
        DemoConfig {
            start_layer: 0,
            start_color: RgbConfig { r: 255, g: 255, b: 255 },
            arm_timeout_seconds: 30,
        }
    }
}

/// The whole deployment configuration.
#[derive(Debug, Clone)]
pub struct Config {
    pub hid: HidConfig,
    pub midi: MidiConfig,
    pub demo: DemoConfig,
}

impl Default for Config {
    fn default() -> (c: Self)
        ensures
            c.hid == (HidConfig {
                vid: 0x574Cu16,
                pid: 0x1DF9u16,
                usage_page: Some(0xFF60u16),
                usage: Some(0x0061u16),
            }),
            !c.midi.enabled,
            c.midi.port_hint matches Some(h) && h@ == "Loop"@,
            c.demo == (DemoConfig {
                start_layer: 0u8,
                start_color: RgbConfig { r: 255u8, g: 255u8, b: 255u8 },
                arm_timeout_seconds: 30u64,
            }),
    {
        Config {
            hid: HidConfig::default(),
            midi: MidiConfig::default(),
            demo: DemoConfig::default(),
        }
    }
}

impl Config {
    /// A configuration that forces the no-device mock path: a zero
    /// vendor/product id matches nothing, and MIDI is off.
    pub fn mock() -> (c: Self)
        ensures
            c.hid == (HidConfig { vid: 0u16, pid: 0u16, usage_page: None, usage: None }),
            !c.midi.enabled,
            c.midi.port_hint is None,
            c.demo == (DemoConfig {
                start_layer: 0u8,
                start_color: RgbConfig { r: 255u8, g: 255u8, b: 255u8 },
                arm_timeout_seconds: 30u64,
            }),
    {
        Config {
            hid: HidConfig { vid: 0, pid: 0, usage_page: None, usage: None },
            midi: MidiConfig { enabled: false, port_hint: None },
            demo: DemoConfig::default(),
        }
    }
}

/// Whitespace as trimmed from configuration values: the ASCII space, tab,
/// line feed and carriage return bytes, and only those. Unicode-only
/// whitespace (a no-break space, say) is deliberately not trimmed and
/// makes a value unparseable, so that the accepted texts are exactly the
/// ones the contracts below spell out.
pub open spec fn spec_is_space(b: u8) -> bool {
    b == 32 || b == 9 || b == 10 || b == 13
}

/// `s` with leading ASCII whitespace removed.
pub open spec fn spec_trim_start(s: Seq<u8>) -> Seq<u8>
    decreases s.len(),
{
    if s.len() > 0 && spec_is_space(s[0]) {
        spec_trim_start(s.skip(1))
    } else {
        s
    }
}

/// `s` with trailing ASCII whitespace removed.
pub open spec fn spec_trim_end(s: Seq<u8>) -> Seq<u8>
    decreases s.len(),
{
    if s.len() > 0 && spec_is_space(s[s.len() - 1]) {
        spec_trim_end(s.take(s.len() - 1))
    } else {
        s
    }
}

/// `s` with ASCII whitespace removed from both ends.
pub open spec fn spec_trim(s: Seq<u8>) -> Seq<u8> {
    spec_trim_end(spec_trim_start(s))
}

proof fn lemma_trim_start_at(s: Seq<u8>, k: int)
    requires
        0 <= k <= s.len(),
        forall|j: int| 0 <= j < k ==> spec_is_space(#[trigger] s[j]),
        k == s.len() || !spec_is_space(s[k]),
    ensures
        spec_trim_start(s) == s.skip(k),
    decreases k,
{
    if k == 0 {
        assert(s.skip(0) =~= s);
    } else {
        lemma_trim_start_at(s.skip(1), k - 1);
        assert(s.skip(1).skip(k - 1) =~= s.skip(k));
    }
}

proof fn lemma_trim_end_at(s: Seq<u8>, k: int)
    requires
        0 <= k <= s.len(),
        forall|j: int| k <= j < s.len() ==> spec_is_space(#[trigger] s[j]),
        k == 0 || !spec_is_space(s[k - 1]),
    ensures
        spec_trim_end(s) == s.take(k),
    decreases s.len(),
{
    if k == s.len() {
        assert(s.take(k) =~= s);
    } else {
        lemma_trim_end_at(s.take(s.len() - 1), k);
    }
}

/// The numeric value of one byte as a digit: 0-9, and a-f or A-F when
/// `hex`; -1 for anything else.
pub open spec fn spec_digit_val(b: u8, hex: bool) -> int {
    if 48 <= b <= 57 {
        b - 48
    } else if hex && 97 <= b <= 102 {
        b - 87
    } else if hex && 65 <= b <= 70 {
        b - 55
    } else {
        -1
    }
}

/// Whether `b` is a digit of the selected base.
pub open spec fn spec_is_digit(b: u8, hex: bool) -> bool {
    spec_digit_val(b, hex) >= 0
}

/// The value of a digit string read most-significant first.
pub open spec fn spec_num_value(s: Seq<u8>, hex: bool) -> int
    decreases s.len(),
{
    if s.len() == 0 {
        0
    } else {
        spec_num_value(s.drop_last(), hex) * (if hex { 16int } else { 10int }) + spec_digit_val(
            s.last(),
            hex,
        )
    }
}

/// What a run of digits parses to as a `u16`: the value when the run is
/// nonempty, all digits of the base, and in range; nothing otherwise.
pub open spec fn spec_parse_num_u16(s: Seq<u8>, hex: bool) -> Option<u16> {
    if s.len() > 0 && (forall|j: int| 0 <= j < s.len() ==> spec_is_digit(#[trigger] s[j], hex))
        && spec_num_value(s, hex) <= 65535 {
        Some(spec_num_value(s, hex) as u16)
    } else {
        None
    }
}

/// `s` with one leading `+` sign removed.
pub open spec fn spec_strip_plus(s: Seq<u8>) -> Seq<u8> {
    if s.len() > 0 && s[0] == 43 {
        s.skip(1)
    } else {
        s
    }
}

/// What [`parse_u16_auto`] yields on the bytes of its input: the value is
/// trimmed of ASCII whitespace; a `0x` or `0X` prefix selects base 16,
/// anything else base 10; one `+` sign may precede the digits.
pub open spec fn spec_parse_u16_auto(s: Seq<u8>) -> Option<u16> {
    let t = spec_trim(s);
    if t.len() >= 2 && t[0] == 48 && (t[1] == 120 || t[1] == 88) {
        spec_parse_num_u16(spec_strip_plus(t.skip(2)), true)
    } else {
        spec_parse_num_u16(spec_strip_plus(t), false)
    }
}

proof fn lemma_num_value_nonneg(s: Seq<u8>, hex: bool)
    requires
        forall|j: int| 0 <= j < s.len() ==> spec_is_digit(#[trigger] s[j], hex),
    ensures
        spec_num_value(s, hex) >= 0,
    decreases s.len(),
{
    if s.len() > 0 {
        lemma_num_value_nonneg(s.drop_last(), hex);
    }
}

proof fn lemma_num_value_monotonic(s: Seq<u8>, i: int, hex: bool)
    requires
        0 <= i <= s.len(),
        forall|j: int| 0 <= j < s.len() ==> spec_is_digit(#[trigger] s[j], hex),
    ensures
        spec_num_value(s, hex) >= spec_num_value(s.take(i), hex),
    decreases s.len() - i,
{
    if i == s.len() {
        assert(s.take(i) =~= s);
    } else {
        assert(s.take(i + 1).drop_last() =~= s.take(i));
        assert(forall|j: int|
            0 <= j < s.take(i).len() ==> spec_is_digit(#[trigger] s.take(i)[j], hex));
        lemma_num_value_nonneg(s.take(i), hex);
        lemma_num_value_monotonic(s, i + 1, hex);
    }
}

/// Parse the digit run `bytes[start..end]` as a `u16` of the selected base.
fn parse_num_u16(bytes: &[u8], start: usize, end: usize, hex: bool) -> (r: Option<u16>)
    requires
        start <= end <= bytes@.len(),
    ensures
        r == spec_parse_num_u16(bytes@.subrange(start as int, end as int), hex),
{
    let ghost sub = bytes@.subrange(start as int, end as int);
    if start == end {
        return None;
    }
    let base: u32 = if hex {
        16
    } else {
        10
    };
    let mut acc: u32 = 0;
    let mut i: usize = start;
    while i < end
        invariant
            start <= i <= end <= bytes@.len(),
            acc <= 65535,
            base == if hex { 16u32 } else { 10u32 },
            sub == bytes@.subrange(start as int, end as int),
            forall|j: int| 0 <= j < i - start ==> spec_is_digit(#[trigger] sub[j], hex),
            acc == spec_num_value(sub.take(i - start), hex),
        decreases end - i,
    {
        let b = bytes[i];
        let v: u32 = if b >= 48 && b <= 57 {
            (b - 48) as u32
        } else if hex && b >= 97 && b <= 102 {
            (b - 87) as u32
        } else if hex && b >= 65 && b <= 70 {
            (b - 55) as u32
        } else {
            proof {
                assert(!spec_is_digit(sub[i - start], hex));
            }
            return None;
        };
        acc = acc * base + v;
        i += 1;
        proof {
            assert(sub.take(i - start).drop_last() =~= sub.take(i - start - 1));
            assert(sub.take(i - start).last() == sub[i - start - 1]);
        }
        if acc > 65535 {
            proof {
                if forall|j: int| 0 <= j < sub.len() ==> spec_is_digit(#[trigger] sub[j], hex) {
                    lemma_num_value_monotonic(sub, i - start, hex);
                }
            }
            return None;
        }
    }
    proof {
        assert(sub.take(end - start) =~= sub);
    }
    Some(acc as u16)
}

/// Parse a `u16` from text, accepting decimal or `0x`-prefixed
/// hexadecimal. Only surrounding ASCII whitespace is ignored (see
/// [`spec_is_space`]); a value wrapped in Unicode-only whitespace does not
/// parse. See [`spec_parse_u16_auto`].
pub fn parse_u16_auto(s: &str) -> (r: Option<u16>)
    ensures
        r == spec_parse_u16_auto(s.spec_bytes()),
{
    let bytes = s.as_bytes();
    let n = bytes.len();
    let mut start: usize = 0;
    while start < n && (bytes[start] == 32 || bytes[start] == 9 || bytes[start] == 10
        || bytes[start] == 13)
        invariant
            0 <= start <= n == bytes@.len(),
            forall|j: int| 0 <= j < start ==> spec_is_space(#[trigger] bytes@[j]),
        decreases n - start,
    {
        start += 1;
    }
    let mut end: usize = n;
    while end > start && (bytes[end - 1] == 32 || bytes[end - 1] == 9 || bytes[end - 1] == 10
        || bytes[end - 1] == 13)
        invariant
            start <= end <= n == bytes@.len(),
            forall|j: int| 0 <= j < start ==> spec_is_space(#[trigger] bytes@[j]),
            forall|j: int| end <= j < n ==> spec_is_space(#[trigger] bytes@[j]),
        decreases end,
    {
        end -= 1;
    }
    proof {
        lemma_trim_start_at(bytes@, start as int);
        assert(forall|j: int|
            end - start <= j < bytes@.skip(start as int).len() ==> spec_is_space(
                #[trigger] bytes@.skip(start as int)[j],
            ));
        lemma_trim_end_at(bytes@.skip(start as int), end - start);
        assert(spec_trim(bytes@) =~= bytes@.subrange(start as int, end as int));
    }
    let ghost t = spec_trim(bytes@);
    if end - start >= 2 && bytes[start] == 48 && (bytes[start + 1] == 120 || bytes[start + 1]
        == 88) {
        let mut p: usize = start + 2;
        if p < end && bytes[p] == 43 {
            p += 1;
        }
        proof {
            assert(t.skip(2) =~= bytes@.subrange(start + 2, end as int));
            assert(spec_strip_plus(t.skip(2)) =~= bytes@.subrange(p as int, end as int));
        }
        parse_num_u16(bytes, p, end, true)
    } else {
        let mut p: usize = start;
        if p < end && bytes[p] == 43 {
            p += 1;
        }
        proof {
            assert(spec_strip_plus(t) =~= bytes@.subrange(p as int, end as int));
        }
        parse_num_u16(bytes, p, end, false)
    }
}

/// One byte lowered: `A`-`Z` mapped to `a`-`z`, everything else unchanged.
pub open spec fn spec_lower_byte(b: u8) -> u8 {
    if 65 <= b <= 90 {
        (b + 32) as u8
    } else {
        b
    }
}

/// A byte string lowered byte by byte.
pub open spec fn spec_lower(s: Seq<u8>) -> Seq<u8> {
    s.map_values(|b: u8| spec_lower_byte(b))
}

/// What [`parse_bool_auto`] yields on the bytes of its input: the trimmed,
/// lowercased value must be one of the eight recognized words.
pub open spec fn spec_parse_bool_auto(s: Seq<u8>) -> Option<bool> {
    let t = spec_lower(spec_trim(s));
    if t == seq![49u8] || t == seq![116u8, 114, 117, 101] || t == seq![121u8, 101, 115] || t
        == seq![111u8, 110] {
        Some(true)
    } else if t == seq![48u8] || t == seq![102u8, 97, 108, 115, 101] || t == seq![110u8, 111] || t
        == seq![111u8, 102, 102] {
        Some(false)
    } else {
        None
    }
}

/// Whether `bytes[start..end]`, lowered, equals the (already lowercase)
/// word `w`.
fn eq_lower(bytes: &[u8], start: usize, end: usize, w: &[u8]) -> (r: bool)
    requires
        start <= end <= bytes@.len(),
    ensures
        r == (spec_lower(bytes@.subrange(start as int, end as int)) == w@),
{
    let ghost sub = bytes@.subrange(start as int, end as int);
    if end - start != w.len() {
        proof {
            assert(spec_lower(sub).len() == sub.len());
        }
        return false;
    }
    let mut i: usize = 0;
    while i < w.len()
        invariant
            0 <= i <= w@.len() == end - start,
            start <= end <= bytes@.len(),
            sub == bytes@.subrange(start as int, end as int),
            forall|j: int| 0 <= j < i ==> spec_lower_byte(#[trigger] sub[j]) == w@[j],
        decreases w@.len() - i,
    {
        let b = bytes[start + i];
        let low = if b >= 65 && b <= 90 {
            b + 32
        } else {
            b
        };
        if low != w[i] {
            proof {
                assert(spec_lower(sub)[i as int] == spec_lower_byte(sub[i as int]));
            }
            return false;
        }
        i += 1;
    }
    proof {
        assert(spec_lower(sub) =~= w@);
    }
    true
}

/// Parse a boolean from text: `1`, `true`, `yes`, `on` are true and `0`,
/// `false`, `no`, `off` are false, case-insensitively. Only surrounding
/// ASCII whitespace is ignored (see [`spec_is_space`]); a word wrapped in
/// Unicode-only whitespace does not parse. See [`spec_parse_bool_auto`].
pub fn parse_bool_auto(s: &str) -> (r: Option<bool>)
    ensures
        r == spec_parse_bool_auto(s.spec_bytes()),
{
    let bytes = s.as_bytes();
    let n = bytes.len();
    let mut start: usize = 0;
    while start < n && (bytes[start] == 32 || bytes[start] == 9 || bytes[start] == 10
        || bytes[start] == 13)
        invariant
            0 <= start <= n == bytes@.len(),
            forall|j: int| 0 <= j < start ==> spec_is_space(#[trigger] bytes@[j]),
        decreases n - start,
    {
        start += 1;
    }
    let mut end: usize = n;
    while end > start && (bytes[end - 1] == 32 || bytes[end - 1] == 9 || bytes[end - 1] == 10
        || bytes[end - 1] == 13)
        invariant
            start <= end <= n == bytes@.len(),
            forall|j: int| 0 <= j < start ==> spec_is_space(#[trigger] bytes@[j]),
            forall|j: int| end <= j < n ==> spec_is_space(#[trigger] bytes@[j]),
        decreases end,
    {
        end -= 1;
    }
    proof {
        lemma_trim_start_at(bytes@, start as int);
        assert(forall|j: int|
            end - start <= j < bytes@.skip(start as int).len() ==> spec_is_space(
                #[trigger] bytes@.skip(start as int)[j],
            ));
        lemma_trim_end_at(bytes@.skip(start as int), end - start);
        assert(spec_trim(bytes@) =~= bytes@.subrange(start as int, end as int));
    }
    let w_1 = [49u8];
    let w_true = [116u8, 114, 117, 101];
    let w_yes = [121u8, 101, 115];
    let w_on = [111u8, 110];
    let w_0 = [48u8];
    let w_false = [102u8, 97, 108, 115, 101];
    let w_no = [110u8, 111];
    let w_off = [111u8, 102, 102];
    proof {
        assert(w_1@ =~= seq![49u8]);
        assert(w_true@ =~= seq![116u8, 114, 117, 101]);
        assert(w_yes@ =~= seq![121u8, 101, 115]);
        assert(w_on@ =~= seq![111u8, 110]);
        assert(w_0@ =~= seq![48u8]);
        assert(w_false@ =~= seq![102u8, 97, 108, 115, 101]);
        assert(w_no@ =~= seq![110u8, 111]);
        assert(w_off@ =~= seq![111u8, 102, 102]);
    }
    if eq_lower(bytes, start, end, w_1.as_slice()) || eq_lower(bytes, start, end, w_true.as_slice())
        || eq_lower(bytes, start, end, w_yes.as_slice()) || eq_lower(
        bytes,
        start,
        end,
        w_on.as_slice(),
    ) {
        Some(true)
    } else if eq_lower(bytes, start, end, w_0.as_slice()) || eq_lower(
        bytes,
        start,
        end,
        w_false.as_slice(),
    ) || eq_lower(bytes, start, end, w_no.as_slice()) || eq_lower(
        bytes,
        start,
        end,
        w_off.as_slice(),
    ) {
        Some(false)
    } else {
        None
    }
}

} // verus!
