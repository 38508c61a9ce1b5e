//! The main settings record, its factory values and the validation that
//! brings any loaded or edited record back into range.
use vstd::prelude::*;
use crate::config::tray::{is_default_tray, tray_validated, TrayConfig};
use crate::hotkeys::{is_well_formed_hotkey, well_formed_hotkey};
use crate::config::{normalize_hex_color, profile_areas, spec_normalize_hex, Priority, Profile};
use crate::memory::types::Areas;
use crate::os::OsVersion;
use crate::security::{
    contains_injection_patterns, sanitize_hotkey, sanitize_process_name, spec_contains_injection,
    spec_sanitize_hotkey, spec_sanitize_process_name,
};
use crate::text::{
    chars_eq, chars_of, copy_str, spec_str_to_lowercase, spec_trim, str_eq, str_to_lowercase,
    lemma_text_less_irreflexive, string_of, string_views, sorted_distinct, sorted_form,
    strictly_sorted, text_less, trim_str,
};

verus! {

/// The application settings.
///
/// The exclusion list holds no two names that are equal ignoring case once
/// validated; the font size of the interface is kept by the front end.
#[derive(Debug, Clone)]
pub struct Config {
    pub always_on_top: bool,
    pub minimize_to_tray: bool,
    pub close_after_opt: bool,
    pub compact_mode: bool,
    pub auto_opt_interval_hours: u32,
    pub auto_opt_free_threshold: u8,
    pub auto_update: bool,
    pub language: String,
    pub theme: String,
    pub main_color_hex: String,
    pub main_color_hex_light: String,
    pub main_color_hex_dark: String,
    pub profile: Profile,
    pub memory_areas: Areas,
    pub hotkey: String,
    pub process_exclusion_list: Vec<String>,
    pub run_priority: Priority,
    pub run_on_startup: bool,
    pub show_opt_notifications: bool,
    pub tray: TrayConfig,
    pub is_portable_install: bool,
    pub config_version: u32,
    pub setup_completed: bool,
    pub request_elevation_on_startup: bool,
    pub platform_detected: bool,
    pub is_windows_10: bool,
}

/// The hotkey used when none (or a dangerous one) is configured.
pub open spec fn default_hotkey() -> Seq<char> {
    "Ctrl+Alt+N"@
}

/// Main color used with the light theme until one is chosen (sepia).
pub open spec fn default_main_color_light() -> Seq<char> {
    "#9a8a72"@
}

/// Main color used with the dark theme until one is chosen (blue).
pub open spec fn default_main_color_dark() -> Seq<char> {
    "#0a84ff"@
}

/// The factory settings on a given Windows version.
pub open spec fn is_default_config(c: Config, os: OsVersion) -> bool {
    &&& !c.always_on_top
    &&& c.minimize_to_tray
    &&& !c.close_after_opt
    &&& !c.compact_mode
    &&& c.auto_opt_interval_hours == 1
    &&& c.auto_opt_free_threshold == 30
    &&& c.auto_update
    &&& c.language@ == "en"@
    &&& c.theme@ == "dark"@
    &&& c.main_color_hex@ == "#0a84ff"@
    &&& c.main_color_hex_light@ == default_main_color_light()
    &&& c.main_color_hex_dark@ == default_main_color_dark()
    &&& c.profile == Profile::Balanced
    &&& c.memory_areas.bits == profile_areas(Profile::Balanced, os)
    &&& c.hotkey@ == default_hotkey()
    &&& c.process_exclusion_list@.len() == 0
    &&& c.run_priority == Priority::High
    &&& c.run_on_startup
    &&& c.show_opt_notifications
    &&& is_default_tray(c.tray)
    &&& !c.is_portable_install
    &&& c.config_version == 2
    &&& !c.setup_completed
    &&& !c.request_elevation_on_startup
    &&& !c.platform_detected
    &&& !c.is_windows_10
}

/// The main color for a theme when none valid is set.
pub open spec fn themed_main_color(theme: Seq<char>) -> Seq<char> {
    if theme == "dark"@ {
        "#0a84ff"@
    } else {
        "#007aff"@
    }
}

/// The main color after validation (decided by the theme before validation).
pub open spec fn validated_main_color(color: Seq<char>, theme: Seq<char>) -> Seq<char> {
    if color.len() == 0 {
        themed_main_color(theme)
    } else {
        spec_normalize_hex(color, themed_main_color(theme))
    }
}

/// The languages the interface is translated to.
pub open spec fn supported_languages() -> Seq<Seq<char>> {
    seq!["en"@, "it"@, "es"@, "fr"@, "pt"@, "de"@, "ar"@, "ja"@, "zh"@]
}

/// The language after validation: unsupported ones become English.
pub open spec fn validated_language(l: Seq<char>) -> Seq<char> {
    if supported_languages().contains(l) {
        l
    } else {
        "en"@
    }
}

/// The theme after validation: anything but `light` or `dark` becomes `dark`.
pub open spec fn validated_theme(t: Seq<char>) -> Seq<char> {
    if t == "light"@ || t == "dark"@ {
        t
    } else {
        "dark"@
    }
}

/// The hotkey after validation: the default when it is not well formed and
/// holds an injection pattern, or when it sanitizes to blank; else its
/// sanitized form. A well-formed hotkey such as `Ctrl+Shift+M` is kept even
/// though its text holds a pattern (`sh`).
pub open spec fn validated_hotkey(h: Seq<char>) -> Seq<char> {
    if spec_contains_injection(h) && !well_formed_hotkey(h) {
        default_hotkey()
    } else if spec_trim(spec_sanitize_hotkey(h)).len() == 0 {
        default_hotkey()
    } else {
        spec_sanitize_hotkey(h)
    }
}

/// What an exclusion entry becomes before it is checked: sanitized, trimmed.
pub open spec fn exclusion_candidate(s: Seq<char>) -> Seq<char> {
    spec_trim(spec_sanitize_process_name(s))
}

/// Some kept name has this lower-case form.
pub open spec fn lower_seen(kept: Seq<Seq<char>>, lower: Seq<char>) -> bool {
    exists|k: int| 0 <= k < kept.len() && spec_str_to_lowercase(#[trigger] kept[k]) == lower
}

/// The exclusion list after validation: each entry sanitized and trimmed;
/// blank ones, ones with an injection pattern, and ones equal ignoring case
/// to an earlier kept one are dropped.
pub open spec fn kept_exclusions(input: Seq<Seq<char>>) -> Seq<Seq<char>>
    decreases input.len(),
{
    if input.len() == 0 {
        seq![]
    } else {
        let prev = kept_exclusions(input.drop_last());
        let t = exclusion_candidate(input.last());
        if t.len() > 0 && !spec_contains_injection(t) && !lower_seen(
            prev,
            spec_str_to_lowercase(t),
        ) {
            prev.push(t)
        } else {
            prev
        }
    }
}

/// `after` is the validated form of the exclusion list `before`, which
/// stands for a sorted set of names: the names of `before` taken in sorted
/// order without repeats go through `kept_exclusions`, and the names kept
/// form `after`, again sorted without repeats. (Two strictly sorted lists
/// with the same names are equal, so this fixes `after`.)
pub open spec fn exclusions_validated(before: Seq<Seq<char>>, after: Seq<Seq<char>>) -> bool {
    &&& strictly_sorted(after)
    &&& after.to_set() == kept_exclusions(sorted_form(before)).to_set()
}

/// The exclusion list as matched against process names: trimmed, lower-cased,
/// blank entries dropped.
pub open spec fn lowered_exclusions(input: Seq<Seq<char>>) -> Seq<Seq<char>>
    decreases input.len(),
{
    if input.len() == 0 {
        seq![]
    } else {
        let prev = lowered_exclusions(input.drop_last());
        let l = spec_str_to_lowercase(spec_trim(input.last()));
        if l.len() > 0 {
            prev.push(l)
        } else {
            prev
        }
    }
}

/// `after` is what validation makes of `before` on the given Windows version,
/// for an installation whose portability is `is_portable`.
pub open spec fn config_validated(
    before: Config,
    after: Config,
    os: OsVersion,
    is_portable: bool,
) -> bool {
    &&& after.always_on_top == before.always_on_top
    &&& after.minimize_to_tray == before.minimize_to_tray
    &&& after.close_after_opt == before.close_after_opt
    &&& after.compact_mode == before.compact_mode
    &&& after.auto_opt_interval_hours == (if before.auto_opt_interval_hours > 24 {
        24
    } else {
        before.auto_opt_interval_hours
    })
    &&& after.auto_opt_free_threshold == (if before.auto_opt_free_threshold > 100 {
        100
    } else {
        before.auto_opt_free_threshold
    })
    &&& after.auto_update == before.auto_update
    &&& after.language@ == validated_language(before.language@)
    &&& after.theme@ == validated_theme(before.theme@)
    &&& after.main_color_hex@ == validated_main_color(before.main_color_hex@, before.theme@)
    &&& after.main_color_hex_light == before.main_color_hex_light
    &&& after.main_color_hex_dark == before.main_color_hex_dark
    &&& after.profile == before.profile
    &&& after.memory_areas.bits == (if before.memory_areas.bits == 0 {
        profile_areas(before.profile, os)
    } else {
        before.memory_areas.bits
    })
    &&& after.hotkey@ == validated_hotkey(before.hotkey@)
    &&& exclusions_validated(
        string_views(before.process_exclusion_list@),
        string_views(after.process_exclusion_list@),
    )
    &&& after.run_priority == before.run_priority
    &&& after.run_on_startup == before.run_on_startup
    &&& after.show_opt_notifications == before.show_opt_notifications
    &&& tray_validated(before.tray, after.tray)
    &&& after.is_portable_install == is_portable
    &&& after.config_version == before.config_version
    &&& after.setup_completed == before.setup_completed
    &&& after.request_elevation_on_startup == before.request_elevation_on_startup
    &&& after.platform_detected == before.platform_detected
    &&& after.is_windows_10 == before.is_windows_10
}

/// Whether `s` is one of `list`.
fn is_one_of(s: &str, list: &Vec<&str>) -> (r: bool)
    ensures
        r == list@.map_values(|x: &str| x@).contains(s@),
{
    let ghost views = list@.map_values(|x: &str| x@);
    let mut i: usize = 0;
    while i < list.len()
        invariant
            i <= list.len(),
            views == list@.map_values(|x: &str| x@),
            forall|k: int| 0 <= k < i ==> views[k] != s@,
        decreases list.len() - i,
    {
        if str_eq(list[i], s) {
            proof {
                assert(views[i as int] == s@);
            }
            return true;
        }
        i = i + 1;
    }
    false
}

/// Whether some entry of `list` has the characters of `s`.
fn holds_string(list: &Vec<String>, s: &Vec<char>) -> (r: bool)
    ensures
        r == (exists|k: int| 0 <= k < list@.len() && (#[trigger] list@[k])@ == s@),
{
    let mut i: usize = 0;
    while i < list.len()
        invariant
            i <= list.len(),
            forall|k: int| 0 <= k < i ==> (#[trigger] list@[k])@ != s@,
        decreases list.len() - i,
    {
        let c = chars_of(list[i].as_str());
        if chars_eq(&c, s) {
            return true;
        }
        i = i + 1;
    }
    false
}

/// Validates the exclusion list (see `exclusions_validated`).
fn validate_exclusions(list: &Vec<String>) -> (r: Vec<String>)
    ensures
        exclusions_validated(string_views(list@), string_views(r@)),
{
    let in_order = sorted_distinct(list);
    let kept = sanitize_exclusions(&in_order);
    sorted_distinct(&kept)
}

/// Keeps the exclusion names as `kept_exclusions` describes.
fn sanitize_exclusions(list: &Vec<String>) -> (r: Vec<String>)
    ensures
        string_views(r@) == kept_exclusions(string_views(list@)),
{
    let ghost input = string_views(list@);
    let mut kept: Vec<String> = Vec::new();
    let mut seen: Vec<String> = Vec::new();
    let mut i: usize = 0;
    while i < list.len()
        invariant
            i <= list.len(),
            input == string_views(list@),
            string_views(kept@) == kept_exclusions(input.take(i as int)),
            seen@.len() == kept@.len(),
            forall|k: int|
                0 <= k < seen@.len() ==> (#[trigger] seen@[k])@ == spec_str_to_lowercase(
                    kept@[k]@,
                ),
        decreases list.len() - i,
    {
        proof {
            assert(input.take(i + 1).drop_last() =~= input.take(i as int));
            assert(input.take(i + 1).last() == list@[i as int]@);
        }
        let sanitized = sanitize_process_name(list[i].as_str());
        let t = trim_str(sanitized.as_str());
        let trimmed = string_of(&t);
        if t.len() > 0 && !contains_injection_patterns(trimmed.as_str()) {
            let lower = str_to_lowercase(trimmed.as_str());
            let lower_chars = chars_of(lower.as_str());
            let dup = holds_string(&seen, &lower_chars);
            proof {
                let prev = string_views(kept@);
                if dup {
                    let k = choose|k: int| 0 <= k < seen@.len() && (#[trigger] seen@[k])@ == lower_chars@;
                    assert(spec_str_to_lowercase(prev[k]) == spec_str_to_lowercase(trimmed@));
                } else {
                    assert forall|k: int| 0 <= k < prev.len() implies spec_str_to_lowercase(
                        #[trigger] prev[k],
                    ) != spec_str_to_lowercase(trimmed@) by {
                        assert(seen@[k]@ == spec_str_to_lowercase(kept@[k]@));
                    }
                }
            }
            if !dup {
                kept.push(trimmed);
                seen.push(lower);
                proof {
                    assert(string_views(kept@) =~= kept_exclusions(input.take(i as int)).push(
                        exclusion_candidate(input.take(i + 1).last()),
                    ));
                }
            }
        }
        i = i + 1;
    }
    proof {
        assert(input.take(list.len() as int) =~= input);
    }
    kept
}

fn validate_main_color(color: &str, theme: &str) -> (r: String)
    ensures
        r@ == validated_main_color(color@, theme@),
{
    let themed = if str_eq(theme, "dark") {
        "#0a84ff"
    } else {
        "#007aff"
    };
    if color.is_empty() {
        copy_str(themed)
    } else {
        normalize_hex_color(color, themed)
    }
}

fn validate_language(language: &str) -> (r: String)
    ensures
        r@ == validated_language(language@),
{
    let languages: Vec<&str> = vec!["en", "it", "es", "fr", "pt", "de", "ar", "ja", "zh"];
    proof {
        assert(languages@.map_values(|x: &str| x@) =~= supported_languages());
    }
    if is_one_of(language, &languages) {
        copy_str(language)
    } else {
        copy_str("en")
    }
}

fn validate_theme(theme: &str) -> (r: String)
    ensures
        r@ == validated_theme(theme@),
{
    if str_eq(theme, "light") || str_eq(theme, "dark") {
        copy_str(theme)
    } else {
        copy_str("dark")
    }
}

fn validate_hotkey(hotkey: &str) -> (r: String)
    ensures
        r@ == validated_hotkey(hotkey@),
{
    if !is_well_formed_hotkey(hotkey) && contains_injection_patterns(hotkey) {
        copy_str("Ctrl+Alt+N")
    } else {
        let h = sanitize_hotkey(hotkey);
        let t = trim_str(h.as_str());
        if t.len() == 0 {
            copy_str("Ctrl+Alt+N")
        } else {
            h
        }
    }
}

/// The validated form of a settings record.
fn validated(c: Config, os: &OsVersion, is_portable: bool) -> (r: Config)
    ensures
        config_validated(c, r, *os, is_portable),
{
    let Config {
        always_on_top,
        minimize_to_tray,
        close_after_opt,
        compact_mode,
        auto_opt_interval_hours,
        auto_opt_free_threshold,
        auto_update,
        language,
        theme,
        main_color_hex,
        main_color_hex_light,
        main_color_hex_dark,
        profile,
        memory_areas,
        hotkey,
        process_exclusion_list,
        run_priority,
        run_on_startup,
        show_opt_notifications,
        tray,
        is_portable_install: _,
        config_version,
        setup_completed,
        request_elevation_on_startup,
        platform_detected,
        is_windows_10,
    } = c;
    let mut tray = tray;
    tray.validate();
    Config {
        always_on_top,
        minimize_to_tray,
        close_after_opt,
        compact_mode,
        auto_opt_interval_hours: if auto_opt_interval_hours > 24 {
            24
        } else {
            auto_opt_interval_hours
        },
        auto_opt_free_threshold: if auto_opt_free_threshold > 100 {
            100
        } else {
            auto_opt_free_threshold
        },
        auto_update,
        language: validate_language(language.as_str()),
        theme: validate_theme(theme.as_str()),
        main_color_hex: validate_main_color(main_color_hex.as_str(), theme.as_str()),
        main_color_hex_light,
        main_color_hex_dark,
        profile,
        memory_areas: if memory_areas.is_empty() {
            profile.get_memory_areas(os)
        } else {
            memory_areas
        },
        hotkey: validate_hotkey(hotkey.as_str()),
        process_exclusion_list: validate_exclusions(&process_exclusion_list),
        run_priority,
        run_on_startup,
        show_opt_notifications,
        tray,
        is_portable_install: is_portable,
        config_version,
        setup_completed,
        request_elevation_on_startup,
        platform_detected,
        is_windows_10,
    }
}

/// Names validated by `kept_exclusions` are non-blank, free of injection
/// patterns, and pairwise different ignoring case.
pub proof fn lemma_kept_exclusions_clean(input: Seq<Seq<char>>)
    ensures
        forall|k: int|
            0 <= k < kept_exclusions(input).len() ==> (#[trigger] kept_exclusions(input)[k]).len()
                > 0 && !spec_contains_injection(kept_exclusions(input)[k]),
        forall|j: int, k: int|
            0 <= j < k < kept_exclusions(input).len() ==> spec_str_to_lowercase(
                #[trigger] kept_exclusions(input)[j],
            ) != spec_str_to_lowercase(#[trigger] kept_exclusions(input)[k]),
    decreases input.len(),
{
    if input.len() > 0 {
        lemma_kept_exclusions_clean(input.drop_last());
        let prev = kept_exclusions(input.drop_last());
        let cur = kept_exclusions(input);
        assert forall|j: int, k: int| 0 <= j < k < cur.len() implies spec_str_to_lowercase(
            #[trigger] cur[j],
        ) != spec_str_to_lowercase(#[trigger] cur[k]) by {
            if k == prev.len() {
                assert(cur[j] == prev[j]);
            } else {
                assert(cur[j] == prev[j] && cur[k] == prev[k]);
            }
        }
        assert forall|k: int| 0 <= k < cur.len() implies (#[trigger] cur[k]).len() > 0
            && !spec_contains_injection(cur[k]) by {
            if k < prev.len() {
                assert(cur[k] == prev[k]);
            }
        }
    }
}

/// A validated exclusion list is sorted without repeats, and its names are
/// non-blank, free of injection patterns, and pairwise different ignoring case.
pub proof fn lemma_validated_exclusions_clean(before: Seq<Seq<char>>, after: Seq<Seq<char>>)
    requires
        exclusions_validated(before, after),
    ensures
        strictly_sorted(after),
        forall|k: int|
            0 <= k < after.len() ==> (#[trigger] after[k]).len() > 0 && !spec_contains_injection(
                after[k],
            ),
        forall|j: int, k: int|
            0 <= j < k < after.len() ==> spec_str_to_lowercase(#[trigger] after[j])
                != spec_str_to_lowercase(#[trigger] after[k]),
{
    let kept = kept_exclusions(sorted_form(before));
    lemma_kept_exclusions_clean(sorted_form(before));
    assert forall|k: int| 0 <= k < after.len() implies (#[trigger] after[k]).len() > 0
        && !spec_contains_injection(after[k]) by {
        assert(after.to_set().contains(after[k]));
        assert(kept.contains(after[k]));
        let p = choose|p: int| 0 <= p < kept.len() && kept[p] == after[k];
    }
    assert forall|j: int, k: int| 0 <= j < k < after.len() implies spec_str_to_lowercase(
        #[trigger] after[j],
    ) != spec_str_to_lowercase(#[trigger] after[k]) by {
        assert(text_less(after[j], after[k]));
        lemma_text_less_irreflexive(after[j]);
        assert(after.to_set().contains(after[j]));
        assert(after.to_set().contains(after[k]));
        assert(kept.contains(after[j]));
        assert(kept.contains(after[k]));
        let p = choose|p: int| 0 <= p < kept.len() && kept[p] == after[j];
        let q = choose|q: int| 0 <= q < kept.len() && kept[q] == after[k];
        assert(p != q);
    }
}

/// A validated record is within range: at most 24 hours between scheduled
/// runs, a threshold of at most 100 %, a supported language, a light or dark
/// theme, a main color that is `#RRGGBB` in upper case or a theme default,
/// a hotkey that is not blank, some memory area
/// (given a record that names one or a profile), tray levels in order with
/// valid colors, and a clean exclusion list, sorted without repeats.
pub proof fn lemma_validated_config_in_range(before: Config, after: Config, os: OsVersion, is_portable: bool)
    requires
        config_validated(before, after, os, is_portable),
    ensures
        after.auto_opt_interval_hours <= 24,
        after.auto_opt_free_threshold <= 100,
        supported_languages().contains(after.language@),
        after.theme@ == "light"@ || after.theme@ == "dark"@,
        crate::security::spec_is_valid_hex_color(after.main_color_hex@),
        after.main_color_hex@ == "#0a84ff"@ || after.main_color_hex@ == "#007aff"@
            || crate::config::is_upper_hex_color(after.main_color_hex@),
        spec_trim(after.hotkey@).len() > 0,
        after.memory_areas.bits != 0,
        50 <= after.tray.warning_level < after.tray.danger_level <= 100,
        crate::security::spec_is_valid_hex_color(after.tray.background_color_hex@),
        crate::security::spec_is_valid_hex_color(after.tray.warning_color_hex@),
        crate::security::spec_is_valid_hex_color(after.tray.danger_color_hex@),
        crate::security::spec_is_valid_hex_color(after.tray.text_color_hex@),
        forall|j: int, k: int|
            0 <= j < k < after.process_exclusion_list@.len() ==> spec_str_to_lowercase(
                #[trigger] after.process_exclusion_list@[j]@,
            ) != spec_str_to_lowercase(#[trigger] after.process_exclusion_list@[k]@),
        strictly_sorted(string_views(after.process_exclusion_list@)),
{
    reveal_strlit("en");
    reveal_strlit("Ctrl+Alt+N");
    reveal_strlit("#0a84ff");
    reveal_strlit("#007aff");
    assert(supported_languages()[0] == "en"@);
    let themed = themed_main_color(before.theme@);
    crate::config::tray::lemma_default_color_valid("#0a84ff"@);
    crate::config::tray::lemma_default_color_valid("#007aff"@);
    crate::config::lemma_normalize_hex_valid(before.main_color_hex@, themed);
    crate::config::lemma_normalize_hex_upper(before.main_color_hex@, themed);
    assert(spec_trim(default_hotkey()) == default_hotkey()) by {
        let h = default_hotkey();
        assert(crate::text::trim_start_by(h, crate::text::ws()) == h);
        assert(crate::text::trim_end_by(h, crate::text::ws()) == h);
    }
    crate::config::tray::lemma_validated_levels_ordered(before.tray.warning_level, before.tray.danger_level);
    crate::config::tray::lemma_validated_colors_valid(
        before.tray.background_color_hex@,
        before.tray.warning_color_hex@,
        before.tray.danger_color_hex@,
        before.tray.text_color_hex@,
    );
    let kept = string_views(after.process_exclusion_list@);
    lemma_validated_exclusions_clean(string_views(before.process_exclusion_list@), kept);
    assert forall|j: int, k: int|
        0 <= j < k < after.process_exclusion_list@.len() implies spec_str_to_lowercase(
            #[trigger] after.process_exclusion_list@[j]@,
        ) != spec_str_to_lowercase(#[trigger] after.process_exclusion_list@[k]@) by {
        assert(kept[j] == after.process_exclusion_list@[j]@);
        assert(kept[k] == after.process_exclusion_list@[k]@);
    }
    let p = before.profile;
    let w = crate::os::spec_is_win10_or_later(os);
    let r = crate::os::spec_is_1803_or_later(os);
    let bits = profile_areas(p, os);
    assert(bits & 128 == 128) by {
        let n = profile_areas(Profile::Normal, os);
        let b = profile_areas(Profile::Balanced, os);
        let g = profile_areas(Profile::Gaming, os);
        assert(n & 128 == 128 && b & 128 == 128 && g & 128 == 128) by (bit_vector)
            requires
                n == 128u32 | 8u32 | (if w { 32u32 } else { 0u32 }),
                b == 128u32 | 8u32 | 64u32 | 16u32 | (if w { 32u32 } else { 0u32 }) | (if r {
                    2u32
                } else {
                    0u32
                }),
                g == 128u32 | 8u32 | 64u32 | 16u32 | 4u32 | (if w { 32u32 } else { 0u32 }) | (if r {
                    1u32
                } else {
                    0u32
                }) | (if r { 2u32 } else { 0u32 }),
        ;
    }
    assert(bits != 0) by (bit_vector)
        requires
            bits & 128 == 128,
    ;
}

impl Config {
    /// The factory settings; the memory areas are those of the Balanced
    /// profile on the given Windows version.
    pub fn default_for(os: &OsVersion) -> (r: Config)
        ensures
            is_default_config(r, *os),
    {
        let profile = Profile::Balanced;
        Config {
            always_on_top: false,
            minimize_to_tray: true,
            close_after_opt: false,
            compact_mode: false,
            auto_opt_interval_hours: 1,
            auto_opt_free_threshold: 30,
            auto_update: true,
            language: copy_str("en"),
            theme: copy_str("dark"),
            main_color_hex: copy_str("#0a84ff"),
            main_color_hex_light: copy_str("#9a8a72"),
            main_color_hex_dark: copy_str("#0a84ff"),
            profile,
            memory_areas: profile.get_memory_areas(os),
            hotkey: copy_str("Ctrl+Alt+N"),
            process_exclusion_list: Vec::new(),
            run_priority: Priority::High,
            run_on_startup: true,
            show_opt_notifications: true,
            tray: TrayConfig::default(),
            is_portable_install: false,
            config_version: 2,
            setup_completed: false,
            request_elevation_on_startup: false,
            platform_detected: false,
            is_windows_10: false,
        }
    }

    /// Brings every setting into range (see `config_validated`).
    pub fn validate(&mut self, os: &OsVersion, is_portable: bool)
        ensures
            config_validated(*old(self), *final(self), *os, is_portable),
    {
        let mut current = Config::default_for(os);
        std::mem::swap(&mut current, self);
        *self = validated(current, os, is_portable);
    }

    /// The exclusion list as matched against process names: trimmed,
    /// lower-cased, blank entries dropped.
    pub fn process_exclusion_list_lower(&self) -> (r: Vec<String>)
        ensures
            string_views(r@) == lowered_exclusions(string_views(self.process_exclusion_list@)),
    {
        let ghost input = string_views(self.process_exclusion_list@);
        let mut out: Vec<String> = Vec::new();
        let mut i: usize = 0;
        while i < self.process_exclusion_list.len()
            invariant
                i <= self.process_exclusion_list.len(),
                input == string_views(self.process_exclusion_list@),
                string_views(out@) == lowered_exclusions(input.take(i as int)),
            decreases self.process_exclusion_list.len() - i,
        {
            proof {
                assert(input.take(i + 1).drop_last() =~= input.take(i as int));
                assert(input.take(i + 1).last() == self.process_exclusion_list@[i as int]@);
            }
            let t = string_of(&trim_str(self.process_exclusion_list[i].as_str()));
            let l = str_to_lowercase(t.as_str());
            let lc = chars_of(l.as_str());
            if lc.len() > 0 {
                out.push(l);
                proof {
                    assert(string_views(out@) =~= lowered_exclusions(input.take(i as int)).push(
                        lc@,
                    ));
                }
            }
            i = i + 1;
        }
        proof {
            assert(input.take(self.process_exclusion_list.len() as int) =~= input);
        }
        out
    }

    /// Records written before version 2 get the profile's areas when they
    /// have none, and are marked as version 2.
    pub fn migrate_if_needed(&mut self, os: &OsVersion)
        ensures
            old(self).config_version < 2 ==> final(self).config_version == 2
                && final(self).memory_areas.bits == (if old(self).memory_areas.bits == 0 {
                profile_areas(old(self).profile, *os)
            } else {
                old(self).memory_areas.bits
            }),
            old(self).config_version >= 2 ==> *final(self) == *old(self),
            final(self).profile == old(self).profile,
            final(self).language == old(self).language,
            final(self).process_exclusion_list == old(self).process_exclusion_list,
    {
        if self.config_version < 2 {
            self.migrate_v1_to_v2(os);
        }
    }

    fn migrate_v1_to_v2(&mut self, os: &OsVersion)
        ensures
            final(self).config_version == 2,
            final(self).memory_areas.bits == (if old(self).memory_areas.bits == 0 {
                profile_areas(old(self).profile, *os)
            } else {
                old(self).memory_areas.bits
            }),
            final(self).profile == old(self).profile,
            final(self).language == old(self).language,
            final(self).process_exclusion_list == old(self).process_exclusion_list,
    {
        if self.memory_areas.is_empty() {
            self.memory_areas = self.profile.get_memory_areas(os);
        }
        self.config_version = 2;
    }

    /// Applies the settings an installer left behind (each where present).
    #[verifier::spinoff_prover]
    #[verifier::rlimit(60)]
    pub fn apply_installer_settings(
        &mut self,
        language: Option<String>,
        theme: Option<String>,
        always_on_top: Option<bool>,
        show_opt_notifications: Option<bool>,
    )
        ensures
            final(self).language == (match language {
                Some(l) => l,
                None => old(self).language,
            }),
            final(self).theme == (match theme {
                Some(t) => t,
                None => old(self).theme,
            }),
            final(self).always_on_top == (match always_on_top {
                Some(b) => b,
                None => old(self).always_on_top,
            }),
            final(self).show_opt_notifications == (match show_opt_notifications {
                Some(b) => b,
                None => old(self).show_opt_notifications,
            }),
            final(self).hotkey == old(self).hotkey,
            final(self).profile == old(self).profile,
            final(self).memory_areas == old(self).memory_areas,
            final(self).process_exclusion_list == old(self).process_exclusion_list,
            final(self).setup_completed == old(self).setup_completed,
    {
        if let Some(l) = language {
            self.language = l;
        }
        if let Some(t) = theme {
            self.theme = t;
        }
        if let Some(b) = always_on_top {
            self.always_on_top = b;
        }
        if let Some(b) = show_opt_notifications {
            self.show_opt_notifications = b;
        }
    }
}

} // verus!
