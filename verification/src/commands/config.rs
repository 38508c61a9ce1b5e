//! The settings edits the interface sends: a partial update of the record,
//! and the answers of the first-run setup.
use vstd::prelude::*;
use crate::config::settings::{config_validated, Config};
use crate::config::tray::TrayConfig;
use crate::config::{profile_areas, profile_priority, Priority, Profile};
use crate::memory::area_text::{parse_areas_string, parsed_area_bits};
use crate::memory::types::{Areas, ALL_AREA_BITS};
use crate::os::OsVersion;
use crate::security::{nondecreasing, rl_run, rl_step, RateLimiter};
use crate::text::{copy_str, str_eq};

verus! {

/// The memory areas as the interface may send them: a bit mask or a
/// `|`-separated list of flag names.
#[derive(Debug, Clone)]
pub enum AreasSetting {
    Bits(u64),
    Names(String),
}

/// A partial update of the settings; each field that is present replaces
/// the stored one (with the adjustments `patched_config` states).
#[derive(Debug, Clone)]
pub struct ConfigPatch {
    pub profile: Option<Profile>,
    pub memory_areas: Option<AreasSetting>,
    pub hotkey: Option<String>,
    pub language: Option<String>,
    pub theme: Option<String>,
    pub main_color_hex_light: Option<String>,
    pub main_color_hex_dark: Option<String>,
    pub main_color_hex: Option<String>,
    pub tray: Option<TrayConfig>,
    pub always_on_top: Option<bool>,
    pub minimize_to_tray: Option<bool>,
    pub show_opt_notifications: Option<bool>,
    pub auto_update: Option<bool>,
    pub close_after_opt: Option<bool>,
    pub request_elevation_on_startup: Option<bool>,
    pub setup_completed: Option<bool>,
    pub platform_detected: Option<bool>,
    pub is_windows_10: Option<bool>,
    pub run_on_startup: Option<bool>,
    pub compact_mode: Option<bool>,
    pub auto_opt_interval_hours: Option<u64>,
    pub auto_opt_free_threshold: Option<u64>,
    pub process_exclusion_list: Option<Vec<String>>,
    pub run_priority: Option<Priority>,
}

/// What the caller has to do after a patch is applied.
#[derive(Debug, Clone)]
pub struct SaveEffects {
    /// The tray icon shows the profile, theme or tray colors: redraw it.
    pub icon_update: bool,
    /// The hotkey was sent: register it again.
    pub hotkey_update: bool,
    /// A different language was sent: tell the windows.
    pub language_changed: bool,
    /// Start with Windows (or not), as asked.
    pub startup_request: Option<bool>,
}

/// The present value, or `d`.
pub open spec fn or_keep<T>(o: Option<T>, d: T) -> T {
    match o {
        Some(v) => v,
        None => d,
    }
}

/// A requested number of hours: 0 becomes 1, larger values are capped at 24.
pub open spec fn requested_interval(n: u64) -> u32 {
    if n == 0 {
        1
    } else if n > 24 {
        24
    } else {
        n as u32
    }
}

/// A requested free-memory threshold: 0 becomes 1, larger values are capped at 100.
pub open spec fn requested_threshold(n: u64) -> u8 {
    if n == 0 {
        1
    } else if n > 100 {
        100
    } else {
        n as u8
    }
}

/// The area bits after a patch: sent areas win, else a sent profile's areas,
/// else the stored ones. A mask is cut to 32 bits and to the known areas.
pub open spec fn patched_area_bits(c: Config, p: ConfigPatch, os: OsVersion) -> u32 {
    match p.memory_areas {
        Some(AreasSetting::Bits(n)) => (n as u32) & ALL_AREA_BITS,
        Some(AreasSetting::Names(s)) => parsed_area_bits(s@),
        None => match p.profile {
            Some(pr) => profile_areas(pr, os),
            None => c.memory_areas.bits,
        },
    }
}

/// The priority after a patch: a sent priority wins, else a sent profile's.
pub open spec fn patched_priority(c: Config, p: ConfigPatch) -> Priority {
    match p.run_priority {
        Some(x) => x,
        None => match p.profile {
            Some(pr) => profile_priority(pr),
            None => c.run_priority,
        },
    }
}

/// The record with the patch applied (before validation).
pub open spec fn patched_config(c: Config, p: ConfigPatch, os: OsVersion) -> Config {
    Config {
        always_on_top: or_keep(p.always_on_top, c.always_on_top),
        minimize_to_tray: or_keep(p.minimize_to_tray, c.minimize_to_tray),
        close_after_opt: or_keep(p.close_after_opt, c.close_after_opt),
        compact_mode: or_keep(p.compact_mode, c.compact_mode),
        auto_opt_interval_hours: match p.auto_opt_interval_hours {
            Some(n) => requested_interval(n),
            None => c.auto_opt_interval_hours,
        },
        auto_opt_free_threshold: match p.auto_opt_free_threshold {
            Some(n) => requested_threshold(n),
            None => c.auto_opt_free_threshold,
        },
        auto_update: or_keep(p.auto_update, c.auto_update),
        language: or_keep(p.language, c.language),
        theme: or_keep(p.theme, c.theme),
        main_color_hex: or_keep(p.main_color_hex, c.main_color_hex),
        main_color_hex_light: or_keep(p.main_color_hex_light, c.main_color_hex_light),
        main_color_hex_dark: or_keep(p.main_color_hex_dark, c.main_color_hex_dark),
        profile: or_keep(p.profile, c.profile),
        memory_areas: Areas { bits: patched_area_bits(c, p, os) },
        hotkey: or_keep(p.hotkey, c.hotkey),
        process_exclusion_list: or_keep(p.process_exclusion_list, c.process_exclusion_list),
        run_priority: patched_priority(c, p),
        run_on_startup: or_keep(p.run_on_startup, c.run_on_startup),
        show_opt_notifications: or_keep(p.show_opt_notifications, c.show_opt_notifications),
        tray: or_keep(p.tray, c.tray),
        is_portable_install: c.is_portable_install,
        config_version: c.config_version,
        setup_completed: or_keep(p.setup_completed, c.setup_completed),
        request_elevation_on_startup: or_keep(
            p.request_elevation_on_startup,
            c.request_elevation_on_startup,
        ),
        platform_detected: or_keep(p.platform_detected, c.platform_detected),
        is_windows_10: or_keep(p.is_windows_10, c.is_windows_10),
    }
}

/// What a patch asks the caller to do.
pub open spec fn patch_effects(c: Config, p: ConfigPatch) -> SaveEffects {
    SaveEffects {
        icon_update: p.profile is Some || p.theme is Some || p.tray is Some,
        hotkey_update: p.hotkey is Some,
        language_changed: match p.language {
            Some(l) => l@ != c.language@,
            None => false,
        },
        startup_request: p.run_on_startup,
    }
}

fn keep_or<T>(o: Option<T>, d: T) -> (r: T)
    ensures
        r == or_keep(o, d),
{
    match o {
        Some(v) => v,
        None => d,
    }
}

fn interval_from(n: u64) -> (r: u32)
    ensures
        r == requested_interval(n),
{
    if n == 0 {
        1
    } else if n > 24 {
        24
    } else {
        n as u32
    }
}

fn threshold_from(n: u64) -> (r: u8)
    ensures
        r == requested_threshold(n),
{
    if n == 0 {
        1
    } else if n > 100 {
        100
    } else {
        n as u8
    }
}

/// Applies a patch to the record and says what the caller must do next.
#[verifier::spinoff_prover]
#[verifier::rlimit(50)]
pub fn apply_config_patch(c: Config, p: ConfigPatch, os: &OsVersion) -> (r: (Config, SaveEffects))
    ensures
        r.0 == patched_config(c, p, *os),
        r.1 == patch_effects(c, p),
{
    let language_changed = match &p.language {
        Some(l) => !str_eq(l.as_str(), c.language.as_str()),
        None => false,
    };
    let effects = SaveEffects {
        icon_update: p.profile.is_some() || p.theme.is_some() || p.tray.is_some(),
        hotkey_update: p.hotkey.is_some(),
        language_changed,
        startup_request: p.run_on_startup,
    };
    let area_bits: u32 = match &p.memory_areas {
        Some(AreasSetting::Bits(n)) => Areas::from_bits_truncate(*n as u32).bits,
        Some(AreasSetting::Names(s)) => parse_areas_string(s.as_str()).bits,
        None => match p.profile {
            Some(pr) => pr.get_memory_areas(os).bits,
            None => c.memory_areas.bits,
        },
    };
    let priority = match p.run_priority {
        Some(x) => x,
        None => match p.profile {
            Some(pr) => pr.get_priority(),
            None => c.run_priority,
        },
    };
    let interval = match p.auto_opt_interval_hours {
        Some(n) => interval_from(n),
        None => c.auto_opt_interval_hours,
    };
    let threshold = match p.auto_opt_free_threshold {
        Some(n) => threshold_from(n),
        None => c.auto_opt_free_threshold,
    };
    let ConfigPatch {
        profile,
        memory_areas: _,
        hotkey,
        language,
        theme,
        main_color_hex_light,
        main_color_hex_dark,
        main_color_hex,
        tray,
        always_on_top,
        minimize_to_tray,
        show_opt_notifications,
        auto_update,
        close_after_opt,
        request_elevation_on_startup,
        setup_completed,
        platform_detected,
        is_windows_10,
        run_on_startup,
        compact_mode,
        auto_opt_interval_hours: _,
        auto_opt_free_threshold: _,
        process_exclusion_list,
        run_priority: _,
    } = p;
    let cfg = Config {
        always_on_top: keep_or(always_on_top, c.always_on_top),
        minimize_to_tray: keep_or(minimize_to_tray, c.minimize_to_tray),
        close_after_opt: keep_or(close_after_opt, c.close_after_opt),
        compact_mode: keep_or(compact_mode, c.compact_mode),
        auto_opt_interval_hours: interval,
        auto_opt_free_threshold: threshold,
        auto_update: keep_or(auto_update, c.auto_update),
        language: keep_or(language, c.language),
        theme: keep_or(theme, c.theme),
        main_color_hex: keep_or(main_color_hex, c.main_color_hex),
        main_color_hex_light: keep_or(main_color_hex_light, c.main_color_hex_light),
        main_color_hex_dark: keep_or(main_color_hex_dark, c.main_color_hex_dark),
        profile: keep_or(profile, c.profile),
        memory_areas: Areas { bits: area_bits },
        hotkey: keep_or(hotkey, c.hotkey),
        process_exclusion_list: keep_or(process_exclusion_list, c.process_exclusion_list),
        run_priority: priority,
        run_on_startup: keep_or(run_on_startup, c.run_on_startup),
        show_opt_notifications: keep_or(show_opt_notifications, c.show_opt_notifications),
        tray: keep_or(tray, c.tray),
        is_portable_install: c.is_portable_install,
        config_version: c.config_version,
        setup_completed: keep_or(setup_completed, c.setup_completed),
        request_elevation_on_startup: keep_or(
            request_elevation_on_startup,
            c.request_elevation_on_startup,
        ),
        platform_detected: keep_or(platform_detected, c.platform_detected),
        is_windows_10: keep_or(is_windows_10, c.is_windows_10),
    };
    (cfg, effects)
}

/// The answer to a save that came too soon after the previous ones.
pub open spec fn too_many_requests() -> Seq<char> {
    "Too many requests. Please wait before trying again."@
}

/// Handles a settings save from the interface: the `save_config` request
/// is first checked against the rate limiter; when accepted, the patch is
/// applied and the result validated.
pub fn prepare_config_save(
    limiter: &mut RateLimiter,
    current: Config,
    patch: ConfigPatch,
    os: &OsVersion,
    is_portable: bool,
) -> (r: Result<(Config, SaveEffects), String>)
    ensures
        final(limiter).max() == old(limiter).max(),
        final(limiter).window() == old(limiter).window(),
        final(limiter).latest() >= old(limiter).latest(),
        final(limiter).calls("save_config"@) == old(limiter).calls("save_config"@).push(
            final(limiter).latest(),
        ),
        forall|k: Seq<char>|
            k != "save_config"@ ==> #[trigger] final(limiter).calls(k) == old(limiter).calls(k),
        ((r is Ok), final(limiter).recorded("save_config"@)) == rl_step(
            old(limiter).recorded("save_config"@),
            final(limiter).latest(),
            old(limiter).max(),
            old(limiter).window(),
        ),
        forall|k: Seq<char>|
            #[trigger] final(limiter).recorded(k) == rl_run(
                final(limiter).calls(k),
                final(limiter).max(),
                final(limiter).window(),
            ),
        forall|k: Seq<char>| nondecreasing(#[trigger] final(limiter).calls(k)),
        forall|k: Seq<char>|
            k != "save_config"@ ==> #[trigger] final(limiter).recorded(k) == old(limiter).recorded(k),
        match r {
            Ok((cfg, effects)) => config_validated(patched_config(current, patch, *os), cfg, *os, is_portable)
                && effects == patch_effects(current, patch),
            Err(msg) => msg@ == too_many_requests(),
        },
{
    if !limiter.check_rate_limit("save_config") {
        return Err(copy_str("Too many requests. Please wait before trying again."));
    }
    let (mut cfg, effects) = apply_config_patch(current, patch, os);
    cfg.validate(os, is_portable);
    Ok((cfg, effects))
}

/// The answers of the first-run setup (each where given).
#[derive(Debug, Clone)]
pub struct SetupData {
    pub platform_detected: Option<bool>,
    pub is_windows_10: Option<bool>,
    pub run_on_startup: Option<bool>,
    pub theme: Option<String>,
    pub always_on_top: Option<bool>,
    pub show_opt_notifications: Option<bool>,
    pub language: Option<String>,
}

/// The record after the setup answers: answers replace the stored values; a
/// theme without its main color gets the default one; setup is marked done.
pub open spec fn setup_applied(before: Config, d: SetupData, after: Config) -> bool {
    &&& after.platform_detected == or_keep(d.platform_detected, before.platform_detected)
    &&& after.is_windows_10 == or_keep(d.is_windows_10, before.is_windows_10)
    &&& after.run_on_startup == or_keep(d.run_on_startup, before.run_on_startup)
    &&& after.theme == or_keep(d.theme, before.theme)
    &&& after.main_color_hex_light@ == (match d.theme {
        Some(t) => if t@ == "light"@ && before.main_color_hex_light@.len() == 0 {
            "#9a8a72"@
        } else {
            before.main_color_hex_light@
        },
        None => before.main_color_hex_light@,
    })
    &&& after.main_color_hex_dark@ == (match d.theme {
        Some(t) => if t@ == "dark"@ && before.main_color_hex_dark@.len() == 0 {
            "#0a84ff"@
        } else {
            before.main_color_hex_dark@
        },
        None => before.main_color_hex_dark@,
    })
    &&& after.always_on_top == or_keep(d.always_on_top, before.always_on_top)
    &&& after.show_opt_notifications == or_keep(d.show_opt_notifications, before.show_opt_notifications)
    &&& after.language == or_keep(d.language, before.language)
    &&& after.setup_completed
    &&& after.profile == before.profile
    &&& after.memory_areas == before.memory_areas
    &&& after.hotkey == before.hotkey
    &&& after.process_exclusion_list == before.process_exclusion_list
    &&& after.tray == before.tray
}

/// Applies the setup answers to the record.
#[verifier::spinoff_prover]
#[verifier::rlimit(50)]
pub fn apply_setup(cfg: Config, data: SetupData) -> (r: Config)
    ensures
        setup_applied(cfg, data, r),
{
    let theme_light = match &data.theme {
        Some(t) => str_eq(t.as_str(), "light"),
        None => false,
    };
    let theme_dark = match &data.theme {
        Some(t) => str_eq(t.as_str(), "dark"),
        None => false,
    };
    let Config {
        always_on_top,
        minimize_to_tray,
        close_after_opt,
        compact_mode,
        auto_opt_interval_hours,
        auto_opt_free_threshold,
        auto_update,
        language,
        theme,
        main_color_hex,
        main_color_hex_light,
        main_color_hex_dark,
        profile,
        memory_areas,
        hotkey,
        process_exclusion_list,
        run_priority,
        run_on_startup,
        show_opt_notifications,
        tray,
        is_portable_install,
        config_version,
        setup_completed: _,
        request_elevation_on_startup,
        platform_detected,
        is_windows_10,
    } = cfg;
    let light = if theme_light && main_color_hex_light.as_str().is_empty() {
        copy_str("#9a8a72")
    } else {
        main_color_hex_light
    };
    let dark = if theme_dark && main_color_hex_dark.as_str().is_empty() {
        copy_str("#0a84ff")
    } else {
        main_color_hex_dark
    };
    Config {
        always_on_top: keep_or(data.always_on_top, always_on_top),
        minimize_to_tray,
        close_after_opt,
        compact_mode,
        auto_opt_interval_hours,
        auto_opt_free_threshold,
        auto_update,
        language: keep_or(data.language, language),
        theme: keep_or(data.theme, theme),
        main_color_hex,
        main_color_hex_light: light,
        main_color_hex_dark: dark,
        profile,
        memory_areas,
        hotkey,
        process_exclusion_list,
        run_priority,
        run_on_startup: keep_or(data.run_on_startup, run_on_startup),
        show_opt_notifications: keep_or(data.show_opt_notifications, show_opt_notifications),
        tray,
        is_portable_install,
        config_version,
        setup_completed: true,
        request_elevation_on_startup,
        platform_detected: keep_or(data.platform_detected, platform_detected),
        is_windows_10: keep_or(data.is_windows_10, is_windows_10),
    }
}

/// The main color the main window gets after setup: the theme's own color
/// when set, else the theme's default.
pub open spec fn main_color_for_theme(theme: Seq<char>, light: Seq<char>, dark: Seq<char>) -> Seq<
    char,
> {
    if theme == "light"@ {
        if light.len() > 0 {
            light
        } else {
            "#9a8a72"@
        }
    } else {
        if dark.len() > 0 {
            dark
        } else {
            "#0a84ff"@
        }
    }
}

/// The main color for the configured theme (see `main_color_for_theme`).
pub fn current_main_color(cfg: &Config) -> (r: String)
    ensures
        r@ == main_color_for_theme(cfg.theme@, cfg.main_color_hex_light@, cfg.main_color_hex_dark@),
{
    if str_eq(cfg.theme.as_str(), "light") {
        if !cfg.main_color_hex_light.as_str().is_empty() {
            copy_str(cfg.main_color_hex_light.as_str())
        } else {
            copy_str("#9a8a72")
        }
    } else {
        if !cfg.main_color_hex_dark.as_str().is_empty() {
            copy_str(cfg.main_color_hex_dark.as_str())
        } else {
            copy_str("#0a84ff")
        }
    }
}

} // verus!
