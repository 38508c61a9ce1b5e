use tmc::engine::{
    finish_optimization, freed_bytes, has_successful_area, measurement_settled, plan_optimization,
    progress_total, record_area_outcome, required_privileges, run_mode, should_log_run,
    saturating_sub_i64, AreaOp, OptimizeAreaResult, Privilege,
};
use tmc::memory::advanced::{
    aggressive_modified_page_flush, init_advanced_features, trim_memory_compression_store,
    SyscallTable,
};
use tmc::memory::critical_processes::{get_critical_processes_list, is_critical_process};
use tmc::memory::ops::{
    drive_letters, is_unsupported_control_error, list_process_names, nt_call_outcome,
    process_entry_name, tries_lock, volume_controls, volume_path,
    working_set_targets, CallOutcome,
};
use tmc::memory::types::{Areas, Reason};
use tmc::os::OsVersion;

#[test]
fn test_syscall_resolver() {
    let mut table = SyscallTable::new();
    assert!(table.resolve_syscall_numbers().is_ok());
}

#[test]
fn syscall_numbers_are_looked_up() {
    let mut table = SyscallTable::new();
    assert_eq!(table.get_syscall_number("NtSetSystemInformation").unwrap(), 0x190);
    assert_eq!(table.get_syscall_number("NtSuspendThread").unwrap(), 0x1A4);
    assert_eq!(table.get_syscall_number("NtResumeThread").unwrap(), 0x54);
    assert_eq!(
        table.get_syscall_number("NtOpenProcess").unwrap_err(),
        "Syscall not found: NtOpenProcess"
    );
    assert!(init_advanced_features(&mut table).is_ok());
    assert!(trim_memory_compression_store(&mut table).is_ok());
    assert!(aggressive_modified_page_flush(&mut SyscallTable::new()).is_ok());
}

#[test]
fn plan_on_windows_10_keeps_order_and_privileges() {
    let os = OsVersion { major: 10, minor: 0, build: 19045 };
    let plan = plan_optimization(Areas::all(), &os);
    assert!(plan.use_indirect_syscalls);
    assert_eq!(
        plan.privileges,
        vec![Privilege::Debug, Privilege::IncreaseQuota, Privilege::ProfileSingleProcess]
    );
    assert_eq!(plan.areas.bits(), 255);
    assert_eq!(
        plan.operations,
        vec![
            AreaOp::ModifiedFileCache,
            AreaOp::ModifiedPageList,
            AreaOp::SystemFileCache,
            AreaOp::WorkingSet,
            AreaOp::StandbyList,
            AreaOp::StandbyListLowPriority,
            AreaOp::CombinedPageList,
            AreaOp::RegistryCache,
        ]
    );
    assert_eq!(plan.total, 9);
    assert_eq!(AreaOp::StandbyListLowPriority.display_name(), "Standby List (Low Priority)");
    assert_eq!(AreaOp::WorkingSet.key(), "WorkingSet");
    assert_eq!(Privilege::ProfileSingleProcess.name(), "SeProfileSingleProcessPrivilege");
}

#[test]
fn plan_on_windows_7_drops_newer_areas() {
    let os = OsVersion { major: 6, minor: 1, build: 7601 };
    let plan = plan_optimization(Areas::all(), &os);
    assert_eq!(plan.areas.bits(), 128 | 64 | 16 | 8 | 4);
    assert_eq!(plan.operations.len(), 5);
    assert_eq!(plan.total, 6);
    let ws = plan_optimization(Areas::working_set(), &os);
    assert!(!ws.use_indirect_syscalls);
    assert_eq!(ws.privileges, vec![Privilege::Debug]);
    assert_eq!(required_privileges(Areas::registry_cache()), vec![]);
    assert_eq!(progress_total(0), 1);
    assert_eq!(progress_total(300), 255);
}

#[test]
fn outcomes_are_recorded() {
    let mut results: Vec<OptimizeAreaResult> = Vec::new();
    let mut errors: Vec<String> = Vec::new();
    record_area_outcome(&mut results, &mut errors, AreaOp::WorkingSet, 12, Some("denied".to_string()));
    record_area_outcome(&mut results, &mut errors, AreaOp::StandbyList, 3, Some("busy".to_string()));
    assert_eq!(results.len(), 2);
    assert_eq!(results[0].name, "Working Set");
    assert_eq!(results[1].error, Some("busy".to_string()));
    assert_eq!(errors, vec!["Working Set: denied".to_string()]);
    assert!(!has_successful_area(&results));
    record_area_outcome(&mut results, &mut errors, AreaOp::RegistryCache, 1, None);
    assert!(has_successful_area(&results));
    assert!(should_log_run(0, &results));
    assert!(!should_log_run(1024, &results[..2].to_vec()));
    assert!(should_log_run(-2 * 1024 * 1024, &results[..2].to_vec()));
}

#[test]
fn freed_memory_is_clamped_and_saturated() {
    assert_eq!(freed_bytes(3000, 1000), 2000);
    assert_eq!(freed_bytes(1000, 3000), -2000);
    assert_eq!(saturating_sub_i64(i64::MAX, -1), i64::MAX);
    assert_eq!(saturating_sub_i64(i64::MIN, 1), i64::MIN);
    let r = finish_optimization(Reason::Manual, 40, 100, 5_000_000, 10, 20, Vec::new());
    assert_eq!(r.freed_physical_bytes, 4_999_900);
    assert_eq!(r.freed_commit_bytes, 10);
    assert_eq!(r.reason, Reason::Manual);
    assert_eq!(run_mode(Reason::LowMemory), "Low Memory Auto");
    assert_eq!(run_mode(Reason::Schedule), "Scheduled");
}

#[test]
fn measurement_settles_after_a_mebibyte_or_three_retries() {
    assert!(measurement_settled(3 * 1024 * 1024, 1024 * 1024, 0));
    assert!(!measurement_settled(1000, 0, 2));
    assert!(measurement_settled(1000, 0, 3));
    assert!(measurement_settled(0, 2 * 1024 * 1024, 1));
}

#[test]
fn critical_processes_are_recognized() {
    assert!(is_critical_process("System"));
    assert!(is_critical_process("Memory Compression"));
    assert!(is_critical_process("svchost.exe"));
    assert!(is_critical_process("MyRuntimeBroker.exe"));
    assert!(is_critical_process("DNSCACHE"));
    assert!(!is_critical_process("notepad.exe"));
    assert!(is_critical_process("explorer.exe"));
    assert!(is_critical_process("lsass.exe"));
    assert!(is_critical_process("CSRSS.EXE"));
    assert!(is_critical_process("lsass"));
    assert!(is_critical_process("win32k.sys"));
    for name in get_critical_processes_list() {
        assert!(is_critical_process(&name), "{}", name);
        assert!(is_critical_process(&name.to_uppercase()), "{}", name);
    }
    let list = get_critical_processes_list();
    assert_eq!(list.len(), 104);
    let mut sorted = list.clone();
    sorted.sort();
    sorted.dedup();
    assert_eq!(sorted.len(), 104);
}

#[test]
fn working_set_targets_skip_spared_processes() {
    let procs = vec![
        (10u32, "game".to_string()),
        (11u32, "svchost".to_string()),
        (12u32, "notepad".to_string()),
        (13u32, "chrome".to_string()),
        (14u32, "code".to_string()),
    ];
    let excl = vec!["chrome".to_string()];
    assert_eq!(working_set_targets(&procs, Some(10), &excl), vec![12]);
    // With no exclusions the foreground and critical processes are still spared.
    assert_eq!(working_set_targets(&procs, Some(12), &Vec::new()), vec![10, 13]);
    assert_eq!(working_set_targets(&procs, None, &Vec::new()), vec![10, 12, 13]);
    assert_eq!(process_entry_name("Chrome.EXE"), "chrome");
    assert_eq!(process_entry_name("a.exe.exe"), "a");
}

#[test]
fn system_calls_are_retried_on_refusal() {
    assert_eq!(nt_call_outcome(0, 1), CallOutcome::Done);
    assert_eq!(nt_call_outcome(-1073741823, 1), CallOutcome::RetryAfterMs(100));
    assert_eq!(nt_call_outcome(-1073741790, 2), CallOutcome::RetryAfterMs(200));
    assert_eq!(nt_call_outcome(-1073741790, 3), CallOutcome::Failed);
    assert_eq!(nt_call_outcome(-5, 1), CallOutcome::Failed);
}

#[test]
fn process_names_are_sorted_and_unique() {
    let procs = vec![
        (1u32, "zeta".to_string()),
        (2u32, "alpha".to_string()),
        (3u32, "zeta".to_string()),
        (4u32, "Beta".to_string()),
        (5u32, "alp".to_string()),
    ];
    assert_eq!(
        list_process_names(&procs),
        vec!["Beta".to_string(), "alp".to_string(), "alpha".to_string(), "zeta".to_string()]
    );
}

#[test]
fn volumes_and_controls() {
    assert_eq!(drive_letters(0b101), vec!['A', 'C']);
    assert_eq!(drive_letters(1 << 25), vec!['Z']);
    assert_eq!(drive_letters(0), Vec::<char>::new());
    assert!(tries_lock(true, 3));
    assert!(!tries_lock(false, 3));
    assert_eq!(volume_controls(true, 3, true, true), vec![0x9001C, 0x900F8, 0x90054]);
    assert_eq!(volume_controls(true, 3, false, false), Vec::<u32>::new());
    assert_eq!(volume_controls(true, 0, true, true), Vec::<u32>::new());
    assert!(is_unsupported_control_error(87));
    assert!(!is_unsupported_control_error(5));
    assert_eq!(volume_path('C'), "\\\\.\\C:");
}

#[test]
fn operation_pauses_stay_in_range() {
    for _ in 0..200 {
        let ms = tmc::memory::ops::operation_pause_ms();
        assert!((10..100).contains(&ms));
    }
}

#[test]
fn retries_pause_longer_then_stop() {
    assert_eq!(tmc::retry::retry_pause_ms(50, 1), Some(50));
    assert_eq!(tmc::retry::retry_pause_ms(50, 2), Some(100));
    assert_eq!(tmc::retry::retry_pause_ms(50, 3), None);
    assert_eq!(tmc::retry::retry_pause_ms(100, 2), Some(200));
}

#[test]
fn operation_timeout_messages() {
    assert_eq!(tmc::engine::operation_timeout_error(), "Operation timed out after 30s");
    assert_eq!(tmc::engine::operation_lost_error(), "Operation thread disconnected");
    assert_eq!(tmc::engine::OPERATION_TIMEOUT_SECS, 30);
}

#[test]
fn operation_pause_is_in_range() {
    for _ in 0..200 {
        let p = tmc::memory::ops::operation_pause_ms();
        assert!((10..100).contains(&p));
    }
}

#[test]
fn run_log_keeps_results_in_plan_order() {
    let plan = plan_optimization(tmc::memory::types::Areas::full(), &tmc::os::OsVersion::assumed());
    let mut log = tmc::engine::RunLog::start(plan.operations.clone());
    let mut seen: Vec<AreaOp> = Vec::new();
    while let Some(op) = log.next_op() {
        seen.push(op);
        let error = if op == AreaOp::WorkingSet { Some("denied".to_string()) } else { None };
        log.record(5, error);
    }
    assert_eq!(seen, plan.operations);
    let (results, errors) = log.finish();
    assert_eq!(results.len(), plan.operations.len());
    for (r, op) in results.iter().zip(plan.operations.iter()) {
        assert_eq!(r.name, op.display_name());
    }
    assert_eq!(errors, vec!["Working Set: denied".to_string()]);
}
