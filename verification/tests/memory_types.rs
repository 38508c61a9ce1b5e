use tmc::memory::area_text::parse_areas_string;
use tmc::memory::types::{Areas, MemorySize, MemoryStats, Reason, Unit};

#[test]
fn test_areas_display() {
    let areas = Areas::working_set().union(Areas::standby_list());
    let display = areas.to_display_string();
    assert!(display.contains("Working Set"));
    assert!(display.contains("Standby List"));
}

#[test]
fn test_memory_size() {
    let size = MemorySize::new(1024 * 1024 * 1024, 50);
    assert_eq!(size.unit, Unit::GB);
    let value = size.bytes as f64 / size.unit.divisor() as f64;
    assert_eq!(value, 1.0);
}

#[test]
fn test_memory_stats() {
    let stats = MemoryStats::new(512 * 1024 * 1024, 1024 * 1024 * 1024);
    assert_eq!(stats.used.percentage, 50);
    assert_eq!(stats.free.percentage, 50);
}

#[test]
fn areas_display_lists_names_in_order() {
    let areas = Areas::working_set()
        .union(Areas::standby_list())
        .union(Areas::system_file_cache());
    assert_eq!(areas.to_display_string(), "Working Set, Standby List, System File Cache");
    assert_eq!(Areas::empty().to_display_string(), "None");
    assert_eq!(
        areas.get_names(),
        vec!["Working Set", "Standby List", "System File Cache"]
    );
}

#[test]
fn area_bits_and_set_operations() {
    assert_eq!(Areas::all().bits(), 255);
    assert_eq!(Areas::from_bits_truncate(0x1FF).bits(), 255);
    let a = Areas::working_set().union(Areas::registry_cache());
    assert!(a.contains(Areas::working_set()));
    assert!(!a.contains(Areas::standby_list()));
    assert!(a.intersects(Areas::registry_cache().union(Areas::standby_list())));
    assert_eq!(a.difference(Areas::working_set()).bits(), 8);
    let mut b = Areas::empty();
    assert!(b.is_empty());
    b.insert(Areas::combined_page_list());
    assert_eq!(b.bits(), 1);
}

#[test]
fn parse_areas_string_reads_flag_names() {
    assert_eq!(parse_areas_string("WORKING_SET | STANDBY_LIST").bits(), 128 | 16);
    assert_eq!(parse_areas_string("WORKING_SET|BOGUS||REGISTRY_CACHE").bits(), 128 | 8);
    assert_eq!(parse_areas_string("").bits(), 0);
    assert_eq!(parse_areas_string("working_set").bits(), 0);
    assert_eq!(
        parse_areas_string(" COMBINED_PAGE_LIST|MODIFIED_FILE_CACHE |MODIFIED_PAGE_LIST|STANDBY_LIST_LOW|SYSTEM_FILE_CACHE").bits(),
        1 | 2 | 4 | 32 | 64
    );
}

#[test]
fn memory_units_and_sizes() {
    assert_eq!(Unit::for_bytes(512), Unit::B);
    assert_eq!(Unit::for_bytes(2048), Unit::KB);
    assert_eq!(Unit::for_bytes(5 * 1024 * 1024), Unit::MB);
    assert_eq!(Unit::for_bytes(3 * 1024 * 1024 * 1024 * 1024), Unit::TB);
    assert_eq!(Unit::MB.symbol(), "MB");
    assert_eq!(Unit::TB.divisor(), 1024u64 * 1024 * 1024 * 1024);
    assert_eq!(Reason::LowMemory.display_name(), "Low Memory");
    assert_eq!(Reason::Schedule.display_name(), "Scheduled");
}

#[test]
fn memory_stats_with_more_free_than_total() {
    let stats = MemoryStats::new(2000, 1000);
    assert_eq!(stats.used.bytes, 0);
    assert_eq!(stats.used.percentage, 0);
    assert_eq!(stats.free.percentage, 100);
    assert_eq!(stats.total.percentage, 100);
}

#[test]
fn area_presets() {
    assert_eq!(Areas::basic().bits(), 128 | 4);
    assert_eq!(Areas::standard().bits(), 128 | 4 | 16 | 64);
    assert_eq!(Areas::full().bits(), 255);
}
