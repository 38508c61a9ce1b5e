use tmc::commands::config::{
    apply_config_patch, apply_setup, current_main_color, prepare_config_save, AreasSetting,
    ConfigPatch, SetupData,
};
use tmc::config::app_info::{get_app_id, get_app_name, get_version};
use tmc::config::{normalize_hex_color, Config, Priority, Profile, TrayConfig};
use tmc::os::OsVersion;
use tmc::security::RateLimiter;

fn win10() -> OsVersion {
    OsVersion { major: 10, minor: 0, build: 19041 }
}

fn empty_patch() -> ConfigPatch {
    ConfigPatch {
        profile: None,
        memory_areas: None,
        hotkey: None,
        language: None,
        theme: None,
        main_color_hex_light: None,
        main_color_hex_dark: None,
        main_color_hex: None,
        tray: None,
        always_on_top: None,
        minimize_to_tray: None,
        show_opt_notifications: None,
        auto_update: None,
        close_after_opt: None,
        request_elevation_on_startup: None,
        setup_completed: None,
        platform_detected: None,
        is_windows_10: None,
        run_on_startup: None,
        compact_mode: None,
        auto_opt_interval_hours: None,
        auto_opt_free_threshold: None,
        process_exclusion_list: None,
        run_priority: None,
    }
}

#[test]
fn profile_areas_by_windows_version() {
    let os = win10();
    assert_eq!(Profile::Normal.get_memory_areas(&os).bits(), 128 | 8 | 32);
    assert_eq!(Profile::Balanced.get_memory_areas(&os).bits(), 128 | 8 | 64 | 16 | 32 | 2);
    assert_eq!(Profile::Gaming.get_memory_areas(&os).bits(), 255);
    let win81 = OsVersion { major: 6, minor: 3, build: 9600 };
    assert_eq!(Profile::Normal.get_memory_areas(&win81).bits(), 128 | 8);
    assert_eq!(Profile::Gaming.get_memory_areas(&win81).bits(), 128 | 8 | 64 | 16 | 4);
    let win10_old = OsVersion { major: 10, minor: 0, build: 16299 };
    assert_eq!(Profile::Gaming.get_memory_areas(&win10_old).bits(), 128 | 8 | 64 | 16 | 4 | 32);
}

#[test]
fn profiles_are_nested() {
    for os in [win10(), OsVersion { major: 6, minor: 1, build: 7601 }] {
        let n = Profile::Normal.get_memory_areas(&os).bits();
        let b = Profile::Balanced.get_memory_areas(&os).bits();
        let g = Profile::Gaming.get_memory_areas(&os).bits();
        assert_eq!(n & b, n);
        assert_eq!(b & g, b);
    }
}

#[test]
fn profile_priorities_and_defaults() {
    assert_eq!(Profile::Normal.get_priority(), Priority::Low);
    assert_eq!(Profile::Balanced.get_priority(), Priority::Normal);
    assert_eq!(Profile::Gaming.get_priority(), Priority::High);
    assert_eq!(Profile::default(), Profile::Balanced);
    assert_eq!(Priority::default(), Priority::High);
}

#[test]
fn default_config_values() {
    let c = Config::default_for(&win10());
    assert_eq!(c.language, "en");
    assert_eq!(c.theme, "dark");
    assert_eq!(c.hotkey, "Ctrl+Alt+N");
    assert_eq!(c.profile, Profile::Balanced);
    assert_eq!(c.memory_areas.bits(), 250);
    assert_eq!(c.auto_opt_interval_hours, 1);
    assert_eq!(c.auto_opt_free_threshold, 30);
    assert_eq!(c.config_version, 2);
    assert!(c.process_exclusion_list.is_empty());
    assert!(!c.setup_completed);
    assert_eq!(c.tray.warning_level, 80);
    assert_eq!(c.tray.danger_level, 90);
}

#[test]
fn hex_colors_are_normalized() {
    assert_eq!(normalize_hex_color("  #abc123 ", "#000000"), "#ABC123");
    assert_eq!(normalize_hex_color("##a1b2c3", "#000000"), "#A1B2C3");
    assert_eq!(normalize_hex_color("#abc", "#123456"), "#123456");
    assert_eq!(normalize_hex_color("#ggg000", "#123456"), "#123456");
}

#[test]
fn tray_validation_replaces_old_colors_and_orders_levels() {
    let mut t = TrayConfig::default();
    t.background_color_hex = "#34c759".to_string();
    t.warning_color_hex = "ff9900".to_string();
    t.danger_color_hex = "not a color".to_string();
    t.text_color_hex = "#00ff00".to_string();
    t.warning_level = 95;
    t.danger_level = 90;
    t.validate();
    assert_eq!(t.background_color_hex, "#2d8a3d");
    assert_eq!(t.warning_color_hex, "#FF9900");
    assert_eq!(t.danger_color_hex, "#b91c1c");
    assert_eq!(t.text_color_hex, "#00FF00");
    assert_eq!((t.warning_level, t.danger_level), (80, 90));

    let mut t2 = TrayConfig::default();
    t2.background_color_hex = "#FF9900".to_string();
    t2.warning_level = 10;
    t2.danger_level = 20;
    t2.validate();
    assert_eq!(t2.background_color_hex, "#FF9900");
    assert_eq!((t2.warning_level, t2.danger_level), (50, 60));

    let mut t3 = TrayConfig::default();
    t3.warning_level = 99;
    t3.danger_level = 120;
    t3.validate();
    assert_eq!((t3.warning_level, t3.danger_level), (95, 100));
}

#[test]
fn config_validation_brings_values_into_range() {
    let os = win10();
    let mut c = Config::default_for(&os);
    c.auto_opt_interval_hours = 30;
    c.auto_opt_free_threshold = 150;
    c.language = "xx".to_string();
    c.theme = "blue".to_string();
    c.main_color_hex = "abcdef".to_string();
    c.hotkey = "Ctrl+Alt+cmd /c del".to_string();
    c.memory_areas = tmc::memory::types::Areas::empty();
    c.process_exclusion_list = vec![
        " Chrome.exe ".to_string(),
        "chrome.exe".to_string(),
        "bash.exe".to_string(),
        "   ".to_string(),
        "note<pad>".to_string(),
    ];
    c.validate(&os, true);
    assert_eq!(c.auto_opt_interval_hours, 24);
    assert_eq!(c.auto_opt_free_threshold, 100);
    assert_eq!(c.language, "en");
    assert_eq!(c.theme, "dark");
    assert_eq!(c.main_color_hex, "#ABCDEF");
    assert_eq!(c.hotkey, "Ctrl+Alt+N");
    assert_eq!(c.memory_areas.bits(), 250);
    assert!(c.is_portable_install);
    assert_eq!(c.process_exclusion_list, vec!["chrome.exe".to_string(), "notepad".to_string()]);
    assert_eq!(c.process_exclusion_list_lower(), vec!["chrome.exe".to_string(), "notepad".to_string()]);
}

#[test]
fn config_validation_keeps_valid_values() {
    let os = win10();
    let mut c = Config::default_for(&os);
    c.language = "it".to_string();
    c.theme = "light".to_string();
    c.main_color_hex = String::new();
    c.hotkey = "Ctrl+Alt+M".to_string();
    c.auto_opt_interval_hours = 0;
    c.auto_opt_free_threshold = 0;
    c.validate(&os, false);
    assert_eq!(c.language, "it");
    assert_eq!(c.theme, "light");
    assert_eq!(c.main_color_hex, "#007aff");
    assert_eq!(c.hotkey, "Ctrl+Alt+M");
    assert_eq!(c.auto_opt_interval_hours, 0);
    let mut c2 = Config::default_for(&os);
    c2.hotkey = "Ctrl+Shift+M".to_string();
    c2.validate(&os, false);
    assert_eq!(c2.hotkey, "Ctrl+Shift+M");
    assert_eq!(c.auto_opt_free_threshold, 0);
    assert!(!c.is_portable_install);
}

#[test]
fn migration_fills_areas_of_old_records() {
    let os = win10();
    let mut c = Config::default_for(&os);
    c.config_version = 1;
    c.profile = Profile::Gaming;
    c.memory_areas = tmc::memory::types::Areas::empty();
    c.migrate_if_needed(&os);
    assert_eq!(c.config_version, 2);
    assert_eq!(c.memory_areas.bits(), 255);
    let mut d = Config::default_for(&os);
    d.memory_areas = tmc::memory::types::Areas::empty();
    d.migrate_if_needed(&os);
    assert_eq!(d.memory_areas.bits(), 0);
}

#[test]
fn installer_settings_override_where_present() {
    let mut c = Config::default_for(&win10());
    c.apply_installer_settings(Some("de".to_string()), None, Some(true), None);
    assert_eq!(c.language, "de");
    assert_eq!(c.theme, "dark");
    assert!(c.always_on_top);
    assert!(c.show_opt_notifications);
}

#[test]
fn patch_applies_profile_and_adjusts_numbers() {
    let os = win10();
    let c = Config::default_for(&os);
    let mut p = empty_patch();
    p.profile = Some(Profile::Gaming);
    p.auto_opt_interval_hours = Some(0);
    p.auto_opt_free_threshold = Some(500);
    p.hotkey = Some("Ctrl+Alt+K".to_string());
    p.language = Some("it".to_string());
    let (cfg, effects) = apply_config_patch(c, p, &os);
    assert_eq!(cfg.profile, Profile::Gaming);
    assert_eq!(cfg.memory_areas.bits(), 255);
    assert_eq!(cfg.run_priority, Priority::High);
    assert_eq!(cfg.auto_opt_interval_hours, 1);
    assert_eq!(cfg.auto_opt_free_threshold, 100);
    assert_eq!(cfg.hotkey, "Ctrl+Alt+K");
    assert!(effects.icon_update);
    assert!(effects.hotkey_update);
    assert!(effects.language_changed);
    assert_eq!(effects.startup_request, None);
}

#[test]
fn patch_areas_mask_and_names() {
    let os = win10();
    let mut p = empty_patch();
    p.memory_areas = Some(AreasSetting::Bits(0x1_0000_0188));
    p.run_priority = Some(Priority::Low);
    p.profile = Some(Profile::Normal);
    let (cfg, effects) = apply_config_patch(Config::default_for(&os), p, &os);
    assert_eq!(cfg.memory_areas.bits(), 0x88);
    assert_eq!(cfg.run_priority, Priority::Low);
    assert!(!effects.hotkey_update);
    assert!(!effects.language_changed);

    let mut q = empty_patch();
    q.memory_areas = Some(AreasSetting::Names("WORKING_SET|REGISTRY_CACHE".to_string()));
    q.auto_opt_interval_hours = Some(7);
    q.run_on_startup = Some(false);
    q.language = Some("en".to_string());
    let (cfg2, effects2) = apply_config_patch(Config::default_for(&os), q, &os);
    assert_eq!(cfg2.memory_areas.bits(), 136);
    assert_eq!(cfg2.auto_opt_interval_hours, 7);
    assert!(!cfg2.run_on_startup);
    assert!(!effects2.icon_update);
    assert!(!effects2.language_changed);
    assert_eq!(effects2.startup_request, Some(false));
}

#[test]
fn config_save_is_rate_limited() {
    let os = win10();
    let mut limiter = RateLimiter::new(1, 60_000_000_000);
    let mut p = empty_patch();
    p.theme = Some("neon".to_string());
    let first = prepare_config_save(&mut limiter, Config::default_for(&os), p, &os, true);
    let (cfg, effects) = first.unwrap();
    assert_eq!(cfg.theme, "dark");
    assert!(effects.icon_update);
    let second = prepare_config_save(&mut limiter, Config::default_for(&os), empty_patch(), &os, true);
    assert_eq!(second.unwrap_err(), "Too many requests. Please wait before trying again.");
}

#[test]
fn setup_answers_are_applied() {
    let os = win10();
    let mut c = Config::default_for(&os);
    c.main_color_hex_light = String::new();
    let data = SetupData {
        platform_detected: Some(true),
        is_windows_10: Some(true),
        run_on_startup: Some(false),
        theme: Some("light".to_string()),
        always_on_top: None,
        show_opt_notifications: Some(false),
        language: Some("fr".to_string()),
    };
    let r = apply_setup(c, data);
    assert!(r.setup_completed);
    assert!(r.platform_detected && r.is_windows_10);
    assert!(!r.run_on_startup);
    assert_eq!(r.theme, "light");
    assert_eq!(r.main_color_hex_light, "#9a8a72");
    assert!(!r.show_opt_notifications);
    assert_eq!(r.language, "fr");
    assert_eq!(current_main_color(&r), "#9a8a72");
    let mut d = Config::default_for(&os);
    d.main_color_hex_dark = String::new();
    assert_eq!(current_main_color(&d), "#0a84ff");
}

#[test]
fn application_identity() {
    assert_eq!(get_version(), "4.0.0");
    assert_eq!(tmc::config::app_info::get_version_full(), "4.0.0.0");
    assert_eq!(get_app_name(), "Tommy Memory Cleaner");
    assert!(!get_app_id().is_empty());
}

#[test]
fn validated_exclusions_are_sorted_without_repeats() {
    let os = win10();
    let mut c = Config::default_for(&os);
    c.process_exclusion_list = vec![
        "zeta.exe".to_string(),
        "Alpha.exe".to_string(),
        "beta.exe".to_string(),
        "ALPHA.EXE".to_string(),
        "zeta.exe".to_string(),
    ];
    c.validate(&os, false);
    assert_eq!(
        c.process_exclusion_list,
        vec!["alpha.exe".to_string(), "beta.exe".to_string(), "zeta.exe".to_string()]
    );
}
