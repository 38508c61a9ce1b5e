use tmc::auto_optimizer::{scheduled_due, wants_memory_reading, AutoAction, AutoOptimizer};
use tmc::bridge::{done_event_name, progress_event, progress_event_name};
use tmc::config::TrayConfig;
use tmc::event_log::{
    auto_optimization_message, error_message, format_timestamp, optimization_event_type,
    optimization_message, padded_decimal, shutdown_message,
};
use tmc::config::Priority;
use tmc::os::{has_combined_page_list, has_standby_list_low, is_windows_8_or_later, OsVersion};
use tmc::startup::{
    app_name, create_task_args, delete_task_args, escape_xml, fallback_task_args, quoted_path,
    registry_delete_failed, startup_mechanism, startup_task_xml, task_name, StartupMechanism,
};
use tmc::startup::{
    create_elevated_task_args, delete_elevated_task_args, elevated_task_name,
    query_elevated_task_args, run_elevated_task_args, startup_request_outcome,
    task_definition_names_exe,
};
use tmc::system::{language_from_locale, outside_install_dirs, scheduling_for, theme_from_registry};
use tmc::tray::{
    fallback_cursor, hex_to_rgba, icon_background, icon_label, monitor_with_cursor, redraw_load,
    tray_menu_position, tray_tooltip, MenuAction, MenuEvent, MenuOpening, MenuPhase, ScreenRect,
};
use tmc::updater::{update_check_result, ReadyUpdateStore, UpdaterError};

#[test]
fn hex_colors_to_rgba() {
    assert_eq!(hex_to_rgba("#FF8000"), [255, 128, 0, 255]);
    assert_eq!(hex_to_rgba("##0a0B0c"), [10, 11, 12, 255]);
    assert_eq!(hex_to_rgba("12345"), [128, 128, 128, 255]);
    assert_eq!(hex_to_rgba(" #FF8000"), [128, 128, 128, 255]);
}

#[test]
fn tray_icon_colors_label_and_tooltip() {
    let t = TrayConfig::default();
    assert_eq!(icon_background(&t, 95), "#b91c1c");
    assert_eq!(icon_background(&t, 90), "#b91c1c");
    assert_eq!(icon_background(&t, 85), "#d97706");
    assert_eq!(icon_background(&t, 10), "#2d8a3d");
    assert_eq!(icon_label(42), "42");
    assert_eq!(icon_label(100), "99");
    assert_eq!(icon_label(7), "7");
    assert_eq!(tray_tooltip("", 42), "RAM: 42%");
    assert_eq!(tray_tooltip("Memoria: %d%", 5), "Memoria: 5");
    assert_eq!(redraw_load(None, 30), Some(30));
    assert_eq!(redraw_load(Some(30), 30), None);
    assert_eq!(redraw_load(Some(30), 31), Some(31));
    assert_eq!(redraw_load(Some(100), 120), None);
}

#[test]
fn tray_menu_placement() {
    let monitors = vec![
        ScreenRect { x: 0, y: 0, width: 1920, height: 1080 },
        ScreenRect { x: 1920, y: 0, width: 1280, height: 1024 },
    ];
    assert_eq!(monitor_with_cursor(&monitors, 2000, 500), Some(1));
    assert_eq!(monitor_with_cursor(&monitors, 1919, 1079), Some(0));
    assert_eq!(monitor_with_cursor(&monitors, -5, 10), None);
    let m = monitors[0];
    assert_eq!(fallback_cursor(m), (1870, 1030));
    // Taskbar at the bottom: menu above it, centred on the cursor.
    assert_eq!(tray_menu_position(160, 120, 1800, 1060, m, Some((0, 1040, 1920, 1080))), (1720, 915));
    // Centred position pushed back inside the right edge.
    assert_eq!(tray_menu_position(160, 120, 1900, 1060, m, Some((0, 1040, 1920, 1080))), (1755, 915));
    // Taskbar at the top: menu below it.
    assert_eq!(tray_menu_position(160, 120, 1800, 10, m, Some((0, 0, 1920, 40))), (1720, 45));
    // Taskbar on the left: menu to its right.
    assert_eq!(tray_menu_position(160, 120, 30, 900, m, Some((0, 0, 60, 1080))), (65, 840));
    // Taskbar on the right: menu to its left.
    assert_eq!(tray_menu_position(160, 120, 1890, 900, m, Some((1860, 0, 1920, 1080))), (1695, 840));
    // No taskbar: 80 pixels above the bottom.
    assert_eq!(tray_menu_position(160, 120, 1800, 1060, m, None), (1720, 880));
}

#[test]
fn tray_menu_opening_retries_three_times() {
    let (mut s, a) = MenuOpening::start();
    assert_eq!(a, MenuAction::Lookup);
    assert_eq!(s.step(MenuEvent::Missing), MenuAction::Create);
    assert_eq!(s.step(MenuEvent::Created(false)), MenuAction::RetryAfter(100));
    assert_eq!(s.attempt, 2);
    assert_eq!(s.step(MenuEvent::Found(Some(false))), MenuAction::PositionAndShow);
    assert_eq!(s.step(MenuEvent::Shown(false)), MenuAction::RetryAfter(200));
    assert_eq!(s.step(MenuEvent::Found(None)), MenuAction::PositionAndShow);
    assert_eq!(s.step(MenuEvent::Shown(true)), MenuAction::FocusAndCheck);
    assert_eq!(s.step(MenuEvent::Visible(Some(false))), MenuAction::GiveUp);
    assert_eq!(s.phase, MenuPhase::Done);
    assert_eq!(s.attempt, 3);

    let (mut t, _) = MenuOpening::start();
    assert_eq!(t.step(MenuEvent::Found(Some(true))), MenuAction::ResetTimer);
    let (mut u, _) = MenuOpening::start();
    u.step(MenuEvent::Found(Some(false)));
    u.step(MenuEvent::Shown(true));
    assert_eq!(u.step(MenuEvent::Visible(Some(true))), MenuAction::LoadAndShowMenu);
}

#[test]
fn startup_texts() {
    assert_eq!(task_name(), "TommyMemoryCleanerAutoStart");
    assert_eq!(app_name(), "Tommy Memory Cleaner");
    assert_eq!(escape_xml("a&b<c>d\"e'f"), "a&amp;b&lt;c&gt;d&quot;e&apos;f");
    assert_eq!(escape_xml("&lt;"), "&amp;lt;");
    let xml = startup_task_xml("C:\\Apps\\T&M\\tmc.exe", "C:\\Apps\\T&M");
    assert!(xml.starts_with("<?xml version=\"1.0\" encoding=\"UTF-16\"?>\n<Task version=\"1.2\""));
    assert!(xml.contains("<Command>\"C:\\\\Apps\\\\T&amp;M\\\\tmc.exe\"</Command>"));
    assert!(xml.contains("<WorkingDirectory>C:\\Apps\\T&amp;M</WorkingDirectory>"));
    assert!(xml.contains("<Delay>PT30S</Delay>"));
    assert!(xml.ends_with("</Task>"));
    assert_eq!(create_task_args("t.xml"), vec!["/Create", "/F", "/TN", "TommyMemoryCleanerAutoStart", "/XML", "t.xml"]);
    assert_eq!(fallback_task_args("C:\\tmc.exe")[7], "\"C:\\tmc.exe\"");
    assert_eq!(fallback_task_args("x").len(), 12);
    assert_eq!(delete_task_args(), vec!["/Delete", "/F", "/TN", "TommyMemoryCleanerAutoStart"]);
    assert_eq!(quoted_path("C:\\a b\\t.exe"), "\"C:\\a b\\t.exe\"");
    assert!(!registry_delete_failed(0));
    assert!(!registry_delete_failed(2));
    assert!(registry_delete_failed(5));
    assert_eq!(startup_mechanism(true), StartupMechanism::StartupShortcut);
    assert_eq!(startup_mechanism(false), StartupMechanism::RegistryOrTask);
}

#[test]
fn automatic_optimization_checks() {
    assert!(scheduled_due(2, 7200));
    assert!(!scheduled_due(2, 7199));
    assert!(!scheduled_due(0, 1_000_000));
    assert!(wants_memory_reading(30, false));
    assert!(!wants_memory_reading(30, true));
    assert!(!wants_memory_reading(0, false));

    let mut s = AutoOptimizer::new();
    assert_eq!(s.check_interval_secs, 30);
    assert_eq!(s.check(1, 30, 10, 0, Some(50)), AutoAction::Nothing);
    assert_eq!(s.check_interval_secs, 70);
    assert_eq!(s.check(1, 30, 10, 0, Some(10)), AutoAction::Nothing);
    assert_eq!(s.check_interval_secs, 40);
    assert_eq!(s.check(1, 30, 10, 301, Some(10)), AutoAction::LowMemory);
    assert_eq!(s.check_interval_secs, 30);
    assert_eq!(s.check(1, 30, 3600, 301, Some(10)), AutoAction::Scheduled);
    assert_eq!(s.check_interval_secs, 30);
    for _ in 0..20 {
        s.check(0, 0, 0, 0, None);
    }
    assert_eq!(s.check_interval_secs, 120);
}

#[test]
fn ready_update_store() {
    let mut store: ReadyUpdateStore<u32> = ReadyUpdateStore::new();
    assert!(!store.is_update_ready());
    assert!(store.check_download_allowed().is_ok());
    assert!(store.take_ready_update().is_none());
    store.store_ready_update(7, "2.6.0".to_string(), vec![1, 2, 3]);
    assert!(store.is_update_ready());
    assert_eq!(store.ready_version(), Some("2.6.0".to_string()));
    assert_eq!(
        store.check_download_allowed().unwrap_err().message(),
        "Update download failed: An update is already downloaded and ready"
    );
    assert_eq!(store.take_ready_update(), Some((7, vec![1, 2, 3])));
    assert!(!store.is_update_ready());
    assert_eq!(store.ready_version(), None);
    assert!(store.take_ready_update().is_none());
    assert_eq!(UpdaterError::NoReadyUpdate.message(), "No ready update to install");
    assert_eq!(UpdaterError::Updater("offline".to_string()).message(), "Updater plugin error: offline");
    let r = update_check_result("2.5.0".to_string(), Some("2.6.0".to_string()));
    assert!(r.available);
    let n = update_check_result("2.5.0".to_string(), None);
    assert!(!n.available);
    assert_eq!(n.available_version, None);
}

#[test]
fn system_settings_readings() {
    assert_eq!(theme_from_registry(Some(0)), "dark");
    assert_eq!(theme_from_registry(Some(1)), "light");
    assert_eq!(theme_from_registry(None), "dark");
    assert_eq!(language_from_locale("it-IT"), "it");
    assert_eq!(language_from_locale("PT-br"), "pt");
    assert_eq!(language_from_locale("zh"), "zh");
    assert_eq!(language_from_locale("nl-NL"), "en");
    assert_eq!(language_from_locale(""), "en");
    assert_eq!(scheduling_for(Priority::Low), (true, -2, 0x40));
    assert_eq!(scheduling_for(Priority::High), (false, 2, 0x80));
    assert!(has_standby_list_low(&OsVersion { major: 10, minor: 0, build: 10240 }));
    assert!(!has_combined_page_list(&OsVersion { major: 10, minor: 0, build: 16299 }));
    assert!(is_windows_8_or_later(&OsVersion { major: 6, minor: 2, build: 9200 }));
    assert!(!is_windows_8_or_later(&OsVersion { major: 6, minor: 1, build: 7601 }));
    assert_eq!(OsVersion::from_legacy_report(6, 2, 9200), OsVersion { major: 10, minor: 0, build: 19041 });
    assert_eq!(OsVersion::from_legacy_report(6, 1, 7601), OsVersion { major: 6, minor: 1, build: 7601 });
}

#[test]
fn progress_events() {
    let e = progress_event(2, 5, "Working Set");
    assert_eq!((e.value, e.total), (2, 5));
    assert_eq!(e.step, "Working Set");
    assert_eq!(progress_event_name(), "tmc://opt_progress");
    assert_eq!(done_event_name(), "tmc://opt_done");
}

#[test]
fn event_log_texts() {
    assert_eq!(padded_decimal(7, 2), "07");
    assert_eq!(padded_decimal(2024, 2), "2024");
    assert_eq!(format_timestamp(2024, 3, 5, 7, 8, 9), "2024-03-05 07:08:09");
    assert_eq!(
        auto_optimization_message("Low Memory", 25, "T"),
        "Automatic Optimization Triggered\n=====================================\nReason: Low Memory\nThreshold: 25%\nTimestamp: T"
    );
    assert_eq!(
        error_message("boom", "T"),
        "Tommy Memory Cleaner Error\n=====================================\nError: boom\nTimestamp: T"
    );
    assert_eq!(
        shutdown_message(42, "T"),
        "Tommy Memory Cleaner Shutdown\n=====================================\nProcess ID: 42\nTimestamp: T"
    );
    assert_eq!(optimization_event_type(0), 4);
    assert_eq!(optimization_event_type(2), 2);
    let ok = optimization_message("12.50", "Balanced", "Manual", "Working Set", 30, &vec![], "T");
    assert_eq!(
        ok,
        "Memory Optimization Completed\n=====================================\nProfile: Balanced\nMode: Manual\nMemory Freed: 12.50 MB\nDuration: 30 ms\nAreas Cleaned: Working Set\nStatus: SUCCESS\nTimestamp: T\n"
    );
    let warn = optimization_message("0.00", "Gaming", "Hotkey", "A, B", 5, &vec!["A: x", "B: y"], "T");
    assert!(warn.contains("Status: COMPLETED WITH WARNINGS\n"));
    assert!(warn.ends_with("Timestamp: T\n\nWarnings:\nA: x\nB: y"));
}

#[test]
fn elevated_task_commands() {
    assert_eq!(elevated_task_name(), "TommyMemoryCleanerElevated");
    let args = create_elevated_task_args("C:\\tmc.exe");
    assert_eq!(args.len(), 13);
    assert_eq!(args[4], "\"C:\\tmc.exe\"");
    assert_eq!(run_elevated_task_args(), vec!["/run", "/tn", "TommyMemoryCleanerElevated"]);
    assert_eq!(delete_elevated_task_args(), vec!["/delete", "/tn", "TommyMemoryCleanerElevated", "/f"]);
    assert_eq!(query_elevated_task_args()[3], "/xml");
    assert!(task_definition_names_exe("<Command>C:\\TMC\\tmc.EXE</Command>", "c:\\tmc\\TMC.exe"));
    assert!(!task_definition_names_exe("<Command>D:\\other.exe</Command>", "c:\\tmc\\tmc.exe"));
    assert_eq!(
        startup_request_outcome(Err("denied".to_string()), true, false).unwrap_err(),
        "Failed to set startup: denied. Try running as administrator."
    );
    assert_eq!(
        startup_request_outcome(Ok(()), true, false).unwrap_err(),
        "Failed to enable startup. Please add the app manually to Windows startup."
    );
    assert_eq!(startup_request_outcome(Ok(()), false, false), Ok(false));
    assert_eq!(startup_request_outcome(Ok(()), true, true), Ok(true));
}

#[test]
fn install_location_detection() {
    assert!(outside_install_dirs("D:\\Tools\\tmc.exe"));
    assert!(!outside_install_dirs("C:\\Program Files\\TMC\\tmc.exe"));
    assert!(!outside_install_dirs("C:\\Users\\me\\AppData\\Local\\tmc.exe"));
}
