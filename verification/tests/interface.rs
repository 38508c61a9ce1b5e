use tmc::cli::{
    area_outcome_line, areas_message, console_help, invalid_profile_message, parse_console_args,
    progress_line, unknown_argument_message, using_profile_message, ConsoleCommand,
};
use tmc::config::Profile;
use tmc::engine::OptimizeAreaResult;
use tmc::hotkeys::{canonical_form, must_unregister_previous, parse_hotkey_for_v2, HotkeyModifiers};
use tmc::i18n::{get_translation, Dictionaries, TranslationCache};
use tmc::memory::types::{Areas, Reason};
use tmc::notifications::{
    balloon_script, fill_body_template, get_notification_body, get_notification_title,
    get_profile_display_name, notification_icon_uri, optimization_areas, powershell_escape,
    should_notify,
};
use tmc::os::OsVersion;
use tmc::translations::t;

fn args(v: &[&str]) -> Vec<String> {
    v.iter().map(|s| s.to_string()).collect()
}

fn os() -> OsVersion {
    OsVersion { major: 10, minor: 0, build: 19041 }
}

#[test]
fn console_arguments_select_areas() {
    match parse_console_args(&args(&["/WorkingSet", "/StandbyList"]), &os()) {
        ConsoleCommand::Run { areas, profile } => {
            assert_eq!(areas.bits(), 128 | 16);
            assert_eq!(profile, None);
        }
        other => panic!("unexpected {:?}", other),
    }
    match parse_console_args(&Vec::new(), &os()) {
        ConsoleCommand::Run { areas, profile } => {
            assert_eq!(areas.bits(), 250);
            assert_eq!(profile, None);
        }
        other => panic!("unexpected {:?}", other),
    }
    match parse_console_args(&args(&["/WorkingSet", "/Profile:Gaming"]), &os()) {
        ConsoleCommand::Run { areas, profile } => {
            assert_eq!(areas.bits(), 255);
            assert_eq!(profile, Some(Profile::Gaming));
        }
        other => panic!("unexpected {:?}", other),
    }
}

#[test]
fn console_arguments_stop_at_help_or_unknown() {
    assert!(matches!(parse_console_args(&args(&["/WorkingSet", "/?"]), &os()), ConsoleCommand::Help));
    assert!(matches!(parse_console_args(&args(&["--help", "/Bogus"]), &os()), ConsoleCommand::Help));
    match parse_console_args(&args(&["/InvalidArea", "/?"]), &os()) {
        ConsoleCommand::UnknownArgument(a) => assert_eq!(a, "/InvalidArea"),
        other => panic!("unexpected {:?}", other),
    }
    match parse_console_args(&args(&["/Profile:Turbo"]), &os()) {
        ConsoleCommand::InvalidProfile(n) => assert_eq!(n, "Turbo"),
        other => panic!("unexpected {:?}", other),
    }
}

#[test]
fn console_messages() {
    assert_eq!(unknown_argument_message("/InvalidArea"), "Unknown argument: /InvalidArea\nUse /? for help\n");
    assert_eq!(
        invalid_profile_message("Turbo"),
        "Invalid profile: Turbo. Use Normal, Balanced, or Gaming\n"
    );
    assert_eq!(using_profile_message(Profile::Balanced), "Using profile: Balanced\n");
    let areas = Areas::working_set().union(Areas::standby_list()).union(Areas::system_file_cache());
    assert_eq!(
        areas_message(&areas),
        "Optimizing memory areas: [\"Working Set\", \"Standby List\", \"System File Cache\"]\n"
    );
    assert_eq!(progress_line(0, 4, "Working Set"), "[1/4] Optimizing: Working Set\n");
    let ok = OptimizeAreaResult { name: "Working Set".to_string(), duration_ms: 3, error: None };
    assert_eq!(area_outcome_line(&ok), "  Working Set: OK\n");
    let bad = OptimizeAreaResult {
        name: "Standby List".to_string(),
        duration_ms: 3,
        error: Some("Access denied".to_string()),
    };
    assert_eq!(area_outcome_line(&bad), "  Standby List: FAILED - Access denied\n");
    assert!(console_help().starts_with("Tommy Memory Cleaner - Console Mode\n\n"));
    assert!(console_help().contains("  /Profile:Gaming          Use Gaming profile\n"));
}

#[test]
fn builtin_translations() {
    assert_eq!(t("it", "Exit"), "Esci");
    assert_eq!(t("de", "Optimize Memory"), "Speicher Optimieren");
    assert_eq!(t("xx", "Exit"), "Exit");
    assert_eq!(t("it", "Unknown key"), "Unknown key");
    assert_eq!(get_notification_title("ja", Reason::Manual), "TMC • 最適化完了");
    assert_eq!(get_notification_title("it", Reason::Hotkey), "TMC • Hotkey optimization");
    assert_eq!(get_profile_display_name(&Profile::Balanced, "fr"), "Équilibré");
    assert_eq!(get_profile_display_name(&Profile::Gaming, "en"), "Gaming");
}

#[test]
fn notification_bodies() {
    assert_eq!(
        get_notification_body("it", Reason::Manual, "12.5", "3.25", &Profile::Normal),
        "✅ Liberati: 12.5 MB\n🧠 RAM libera: 3.25 GB\n🎯 Profilo: Normale"
    );
    assert_eq!(
        get_notification_body("en", Reason::Schedule, "1.0", "0.50", &Profile::Gaming),
        "✅ Freed: 1.0 MB\n🧠 Free RAM: 0.50 GB\n🎯 Profile: Gaming"
    );
    assert_eq!(
        fill_body_template("Freed %.1f MB, free %.2f GB, %s; 100% %x %", "12.5", "3.25", "Gaming"),
        "Freed 12.5 MB, free 3.25 GB, Gaming; 100% %x %"
    );
    assert_eq!(fill_body_template("%s", "a", "b", "%.1f"), "%.1f");
}

#[test]
fn notification_decisions() {
    assert!(should_notify(false, Reason::Manual, Some((0, true))));
    assert!(!should_notify(false, Reason::Schedule, Some((50 * 1024 * 1024, true))));
    assert!(should_notify(true, Reason::Schedule, Some((2 * 1024 * 1024, false))));
    assert!(!should_notify(true, Reason::Schedule, Some((1024 * 1024, false))));
    assert!(should_notify(true, Reason::LowMemory, Some((-3 * 1024 * 1024, false))));
    assert!(!should_notify(true, Reason::Manual, None));
    assert_eq!(optimization_areas(None, Profile::Normal, &os()).bits(), 168);
    assert_eq!(optimization_areas(Some(Areas::working_set()), Profile::Gaming, &os()).bits(), 128);
}

#[test]
fn notification_channel_texts() {
    assert_eq!(notification_icon_uri("C:\\Users\\me\\icon.png"), "file:///C:/Users/me/icon.png");
    assert_eq!(powershell_escape("it's 'ok'"), "it''s ''ok''");
    let script = balloon_script("C:\\tmc.exe", "Title's", "Body");
    assert!(script.contains("ExtractAssociatedIcon('C:\\tmc.exe')"));
    assert!(script.contains("BalloonTipTitle = 'Title''s'"));
    assert!(script.ends_with("$notify.Dispose()"));
}

#[test]
fn cached_and_bundled_translations() {
    let mut cache = TranslationCache::default();
    assert_eq!(cache.language, "en");
    assert_eq!(get_translation(&cache, "Exit"), "Exit");
    cache.set_translations(
        "it".to_string(),
        vec![("Exit".to_string(), "Esci".to_string()), ("RAM: %d%".to_string(), "Memoria: %d%".to_string())],
    );
    assert_eq!(get_translation(&cache, "Exit"), "Esci");
    assert_eq!(get_translation(&cache, "Missing"), "Missing");

    let dicts = Dictionaries {
        languages: vec![
            ("en".to_string(), vec![("greet".to_string(), "Hello %name%, %name%!".to_string())]),
            ("it".to_string(), vec![("greet".to_string(), "Ciao %name%".to_string())]),
        ],
    };
    assert_eq!(dicts.t("it", "greet"), "Ciao %name%");
    assert_eq!(dicts.t("fr", "greet"), "greet");
    assert_eq!(dicts.t("it", "other"), "other");
    assert_eq!(dicts.t_with_params("en", "greet", &vec![("name", "Ann")]), "Hello Ann, Ann!");
    assert_eq!(dicts.t_with_params("it", "greet", &vec![("x", "y")]), "Ciao %name%");
}

#[test]
fn hotkeys_are_parsed() {
    let (m, key) = parse_hotkey_for_v2("Ctrl+Alt+N").unwrap();
    assert_eq!(m, HotkeyModifiers { control: true, alt: true, shift: false, super_key: false });
    assert_eq!(key, "N");
    let (m2, key2) = parse_hotkey_for_v2(" win + shift + f5 ").unwrap();
    assert!(m2.super_key && m2.shift && !m2.control);
    assert_eq!(key2, "F5");
    assert_eq!(parse_hotkey_for_v2("Ctrl+Alt").unwrap_err(), "No primary key found in hotkey string");
    assert_eq!(
        parse_hotkey_for_v2("control+c").unwrap_err(),
        "Hotkey 'control+c' is reserved by the operating system and cannot be used"
    );
    assert!(parse_hotkey_for_v2("Win+Shift+S").is_err());
    assert_eq!(canonical_form(m, "N"), "CTRL+ALT+N");
    assert!(must_unregister_previous(&Some("Ctrl+Alt+M".to_string()), "Ctrl+Alt+N"));
    assert!(!must_unregister_previous(&Some("Ctrl+Alt+N".to_string()), "Ctrl+Alt+N"));
    assert!(!must_unregister_previous(&None, "Ctrl+Alt+N"));
}
