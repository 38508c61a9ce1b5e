//! Settings of the tray icon: colors and the memory-load levels at which the
//! icon turns to the warning and the danger color.
use vstd::prelude::*;
use crate::config::{normalize_hex_color, spec_normalize_hex, lemma_normalize_hex_valid};
use crate::security::spec_is_valid_hex_color;
use crate::text::{
    chars_eq, chars_of, copy_str, spec_str_to_uppercase, spec_trim, str_to_uppercase, string_of,
    trim_str,
};

verus! {

/// Appearance of the tray icon.
#[derive(Debug, Clone)]
pub struct TrayConfig {
    pub show_mem_usage: bool,
    pub text_color_hex: String,
    pub background_color_hex: String,
    pub transparent_bg: bool,
    pub warning_level: u8,
    pub warning_color_hex: String,
    pub danger_level: u8,
    pub danger_color_hex: String,
}

/// The default text color.
pub open spec fn default_text_color() -> Seq<char> {
    "#FFFFFF"@
}

/// The default background color (green).
pub open spec fn default_background_color() -> Seq<char> {
    "#2d8a3d"@
}

/// The default warning color (orange).
pub open spec fn default_warning_color() -> Seq<char> {
    "#d97706"@
}

/// The default danger color (red).
pub open spec fn default_danger_color() -> Seq<char> {
    "#b91c1c"@
}

/// The factory settings of the tray icon.
pub open spec fn is_default_tray(t: TrayConfig) -> bool {
    &&& t.show_mem_usage
    &&& t.text_color_hex@ == default_text_color()
    &&& t.background_color_hex@ == default_background_color()
    &&& !t.transparent_bg
    &&& t.warning_level == 80
    &&& t.warning_color_hex@ == default_warning_color()
    &&& t.danger_level == 90
    &&& t.danger_color_hex@ == default_danger_color()
}

impl Default for TrayConfig {
    fn default() -> (r: TrayConfig)
        ensures
            is_default_tray(r),
    {
        TrayConfig {
            show_mem_usage: true,
            text_color_hex: copy_str("#FFFFFF"),
            background_color_hex: copy_str("#2d8a3d"),
            transparent_bg: false,
            warning_level: 80,
            warning_color_hex: copy_str("#d97706"),
            danger_level: 90,
            danger_color_hex: copy_str("#b91c1c"),
        }
    }
}

/// Background colors of earlier releases, replaced by the current default.
pub open spec fn old_background_colors() -> Seq<Seq<char>> {
    seq![
        "#1C8C2D"@, "#15803d"@, "#34c759"@, "#28a745"@, "#2d5a3d"@, "#3d6b4d"@, "#1c8c2d"@,
        "#15803D"@, "#34C759"@, "#28A745"@, "#2D5A3D"@, "#3D6B4D"@, "#2e7d32"@, "#388e3c"@,
        "#43a047"@, "#4caf50"@, "#66bb6a"@, "#81c784"@, "#2E7D32"@, "#388E3C"@, "#43A047"@,
        "#4CAF50"@, "#66BB6A"@, "#81C784"@,
    ]
}

/// Warning colors of earlier releases, replaced by the current default.
pub open spec fn old_warning_colors() -> Seq<Seq<char>> {
    seq![
        "#FF9900"@, "#ff9500"@, "#8b6f47"@, "#b8864d"@, "#ff9900"@, "#FF9500"@, "#8B6F47"@,
        "#B8864D"@, "#f57c00"@, "#fb8c00"@, "#ff9800"@, "#ffa726"@, "#ffb74d"@, "#F57C00"@,
        "#FB8C00"@, "#FF9800"@, "#FFA726"@, "#FFB74D"@,
    ]
}

/// Danger colors of earlier releases, replaced by the current default.
pub open spec fn old_danger_colors() -> Seq<Seq<char>> {
    seq![
        "#CC3300"@, "#ff3b30"@, "#dc3545"@, "#6b2d2d"@, "#8b3d3d"@, "#cc3300"@, "#FF3B30"@,
        "#DC3545"@, "#6B2D2D"@, "#8B3D3D"@, "#c62828"@, "#d32f2f"@, "#e53935"@, "#ef5350"@,
        "#e57373"@, "#C62828"@, "#D32F2F"@, "#E53935"@, "#EF5350"@, "#E57373"@,
    ]
}

/// The trimmed color equals one of `list`, both compared in upper case.
pub open spec fn is_listed_upper(color: Seq<char>, list: Seq<Seq<char>>) -> bool {
    exists|i: int|
        0 <= i < list.len() && spec_str_to_uppercase(#[trigger] list[i])
            == spec_str_to_uppercase(spec_trim(color))
}

/// A color after validation: an old default becomes the current default,
/// anything else is normalized (falling back to the current default).
pub open spec fn refreshed_color(color: Seq<char>, old: Seq<Seq<char>>, default: Seq<char>) -> Seq<
    char,
> {
    if is_listed_upper(color, old) {
        default
    } else {
        spec_normalize_hex(color, default)
    }
}

/// `v` clamped into `lo..=hi`.
pub open spec fn clamp_u8(v: u8, lo: u8, hi: u8) -> u8 {
    if v < lo {
        lo
    } else if v > hi {
        hi
    } else {
        v
    }
}

/// Warning level after validation: reset with the danger level to 80/90 when
/// not below it, then clamped into 50..=95.
pub open spec fn validated_warning(w: u8, d: u8) -> u8 {
    clamp_u8(if w >= d { 80 } else { w }, 50, 95)
}

/// Danger level after validation: reset to 90 when the warning level is not
/// below it, then clamped into 60..=100.
pub open spec fn validated_danger(w: u8, d: u8) -> u8 {
    clamp_u8(if w >= d { 90 } else { d }, 60, 100)
}

/// `after` is what validation makes of `before`.
pub open spec fn tray_validated(before: TrayConfig, after: TrayConfig) -> bool {
    &&& after.show_mem_usage == before.show_mem_usage
    &&& after.transparent_bg == before.transparent_bg
    &&& after.background_color_hex@ == refreshed_color(
        before.background_color_hex@,
        old_background_colors(),
        default_background_color(),
    )
    &&& after.warning_color_hex@ == refreshed_color(
        before.warning_color_hex@,
        old_warning_colors(),
        default_warning_color(),
    )
    &&& after.danger_color_hex@ == refreshed_color(
        before.danger_color_hex@,
        old_danger_colors(),
        default_danger_color(),
    )
    &&& after.text_color_hex@ == spec_normalize_hex(before.text_color_hex@, default_text_color())
    &&& after.warning_level == validated_warning(before.warning_level, before.danger_level)
    &&& after.danger_level == validated_danger(before.warning_level, before.danger_level)
}

fn clamp_level(v: u8, lo: u8, hi: u8) -> (r: u8)
    ensures
        r == clamp_u8(v, lo, hi),
{
    if v < lo {
        lo
    } else if v > hi {
        hi
    } else {
        v
    }
}

/// Whether the trimmed, upper-cased color equals one of the upper-cased `list`.
fn listed_upper(color: &str, list: &Vec<&str>) -> (r: bool)
    ensures
        r == is_listed_upper(color@, list@.map_values(|s: &str| s@)),
{
    let t = string_of(&trim_str(color));
    let tu = str_to_uppercase(t.as_str());
    let tu_chars = chars_of(tu.as_str());
    let ghost views = list@.map_values(|s: &str| s@);
    let mut i: usize = 0;
    while i < list.len()
        invariant
            i <= list.len(),
            views == list@.map_values(|s: &str| s@),
            tu_chars@ == spec_str_to_uppercase(spec_trim(color@)),
            forall|k: int|
                0 <= k < i ==> spec_str_to_uppercase(#[trigger] views[k]) != spec_str_to_uppercase(
                    spec_trim(color@),
                ),
        decreases list.len() - i,
    {
        let cu = str_to_uppercase(list[i]);
        let cu_chars = chars_of(cu.as_str());
        if chars_eq(&cu_chars, &tu_chars) {
            proof {
                assert(views[i as int] == list@[i as int]@);
            }
            return true;
        }
        proof {
            assert(views[i as int] == list@[i as int]@);
        }
        i = i + 1;
    }
    false
}

fn refresh_color(color: &str, old: &Vec<&str>, default: &str) -> (r: String)
    ensures
        r@ == refreshed_color(color@, old@.map_values(|s: &str| s@), default@),
{
    if listed_upper(color, old) {
        copy_str(default)
    } else {
        normalize_hex_color(color, default)
    }
}

impl TrayConfig {
    /// Replaces colors of earlier releases by the current defaults, brings
    /// the other colors to `#RRGGBB`, and puts the levels in order and range.
    pub fn validate(&mut self)
        ensures
            tray_validated(*old(self), *final(self)),
    {
        let old_defaults: Vec<&str> = vec![
            "#1C8C2D", "#15803d", "#34c759", "#28a745", "#2d5a3d", "#3d6b4d", "#1c8c2d",
            "#15803D", "#34C759", "#28A745", "#2D5A3D", "#3D6B4D", "#2e7d32", "#388e3c",
            "#43a047", "#4caf50", "#66bb6a", "#81c784", "#2E7D32", "#388E3C", "#43A047",
            "#4CAF50", "#66BB6A", "#81C784",
        ];
        let old_warning: Vec<&str> = vec![
            "#FF9900", "#ff9500", "#8b6f47", "#b8864d", "#ff9900", "#FF9500", "#8B6F47",
            "#B8864D", "#f57c00", "#fb8c00", "#ff9800", "#ffa726", "#ffb74d", "#F57C00",
            "#FB8C00", "#FF9800", "#FFA726", "#FFB74D",
        ];
        let old_danger: Vec<&str> = vec![
            "#CC3300", "#ff3b30", "#dc3545", "#6b2d2d", "#8b3d3d", "#cc3300", "#FF3B30",
            "#DC3545", "#6B2D2D", "#8B3D3D", "#c62828", "#d32f2f", "#e53935", "#ef5350",
            "#e57373", "#C62828", "#D32F2F", "#E53935", "#EF5350", "#E57373",
        ];
        proof {
            assert(old_defaults@.map_values(|s: &str| s@) =~= old_background_colors());
            assert(old_warning@.map_values(|s: &str| s@) =~= old_warning_colors());
            assert(old_danger@.map_values(|s: &str| s@) =~= old_danger_colors());
        }
        self.background_color_hex = refresh_color(
            self.background_color_hex.as_str(),
            &old_defaults,
            "#2d8a3d",
        );
        self.warning_color_hex = refresh_color(self.warning_color_hex.as_str(), &old_warning, "#d97706");
        self.danger_color_hex = refresh_color(self.danger_color_hex.as_str(), &old_danger, "#b91c1c");
        self.text_color_hex = normalize_hex_color(self.text_color_hex.as_str(), "#FFFFFF");
        if self.warning_level >= self.danger_level {
            self.warning_level = 80;
            self.danger_level = 90;
        }
        self.warning_level = clamp_level(self.warning_level, 50, 95);
        self.danger_level = clamp_level(self.danger_level, 60, 100);
    }
}

/// After validation the levels are ordered and in range:
/// `50 <= warning < danger <= 100`, whatever they were before; validating
/// them again changes nothing.
pub proof fn lemma_validated_levels_ordered(w: u8, d: u8)
    ensures
        50 <= validated_warning(w, d),
        validated_warning(w, d) < validated_danger(w, d),
        validated_danger(w, d) <= 100,
        validated_warning(validated_warning(w, d), validated_danger(w, d)) == validated_warning(w, d),
        validated_danger(validated_warning(w, d), validated_danger(w, d)) == validated_danger(w, d),
{
}

/// After validation every color of the tray icon is a valid hex color.
pub proof fn lemma_validated_colors_valid(
    background: Seq<char>,
    warning: Seq<char>,
    danger: Seq<char>,
    text: Seq<char>,
)
    ensures
        spec_is_valid_hex_color(
            refreshed_color(background, old_background_colors(), default_background_color()),
        ),
        spec_is_valid_hex_color(
            refreshed_color(warning, old_warning_colors(), default_warning_color()),
        ),
        spec_is_valid_hex_color(refreshed_color(danger, old_danger_colors(), default_danger_color())),
        spec_is_valid_hex_color(spec_normalize_hex(text, default_text_color())),
{
    reveal_strlit("#FFFFFF");
    reveal_strlit("#2d8a3d");
    reveal_strlit("#d97706");
    reveal_strlit("#b91c1c");
    lemma_default_color_valid(default_background_color());
    lemma_default_color_valid(default_warning_color());
    lemma_default_color_valid(default_danger_color());
    lemma_default_color_valid(default_text_color());
    lemma_normalize_hex_valid(background, default_background_color());
    lemma_normalize_hex_valid(warning, default_warning_color());
    lemma_normalize_hex_valid(danger, default_danger_color());
    lemma_normalize_hex_valid(text, default_text_color());
}

/// `#` and six hex digits make a valid hex color.
pub proof fn lemma_default_color_valid(c: Seq<char>)
    requires
        c.len() == 7,
        c[0] == '#',
        crate::text::all_hexdigits(c.drop_first()),
    ensures
        spec_is_valid_hex_color(c),
{
    assert(c =~= seq!['#'] + c.drop_first());
    crate::config::lemma_hash_prefixed_valid(c.drop_first());
}

} // verus!
