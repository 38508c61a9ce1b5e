//! Memory areas, optimization reasons, size units and memory statistics.
use vstd::prelude::*;
use crate::text::{copy_str, join_strs, seq_join};

verus! {

// ========== MEMORY AREAS ==========

/// Bit of the Combined Page List area.
pub const COMBINED_PAGE_LIST_BIT: u32 = 1;
/// Bit of the Modified File Cache area.
pub const MODIFIED_FILE_CACHE_BIT: u32 = 2;
/// Bit of the Modified Page List area.
pub const MODIFIED_PAGE_LIST_BIT: u32 = 4;
/// Bit of the Registry Cache area.
pub const REGISTRY_CACHE_BIT: u32 = 8;
/// Bit of the Standby List area.
pub const STANDBY_LIST_BIT: u32 = 16;
/// Bit of the low-priority Standby List area.
pub const STANDBY_LIST_LOW_BIT: u32 = 32;
/// Bit of the System File Cache area.
pub const SYSTEM_FILE_CACHE_BIT: u32 = 64;
/// Bit of the Working Set area.
pub const WORKING_SET_BIT: u32 = 128;
/// All area bits.
pub const ALL_AREA_BITS: u32 = 255;

/// A set of memory areas, one bit per area.
#[derive(Clone, Copy, Debug, PartialEq, Eq, Structural)]
pub struct Areas {
    pub bits: u32,
}

impl Areas {
    /// Does the set hold every area of `other`?
    pub open spec fn has(self, other: Areas) -> bool {
        self.bits & other.bits == other.bits
    }

    /// Does the set hold the area with bit `bit`?
    pub open spec fn has_bit(self, bit: u32) -> bool {
        self.bits & bit == bit
    }

    /// The empty set.
    pub fn empty() -> (r: Areas)
        ensures
            r.bits == 0,
    {
        Areas { bits: 0 }
    }

    /// The set of all areas.
    pub fn all() -> (r: Areas)
        ensures
            r.bits == ALL_AREA_BITS,
    {
        Areas { bits: ALL_AREA_BITS }
    }

    pub fn combined_page_list() -> (r: Areas)
        ensures
            r.bits == COMBINED_PAGE_LIST_BIT,
    {
        Areas { bits: COMBINED_PAGE_LIST_BIT }
    }

    pub fn modified_file_cache() -> (r: Areas)
        ensures
            r.bits == MODIFIED_FILE_CACHE_BIT,
    {
        Areas { bits: MODIFIED_FILE_CACHE_BIT }
    }

    pub fn modified_page_list() -> (r: Areas)
        ensures
            r.bits == MODIFIED_PAGE_LIST_BIT,
    {
        Areas { bits: MODIFIED_PAGE_LIST_BIT }
    }

    pub fn registry_cache() -> (r: Areas)
        ensures
            r.bits == REGISTRY_CACHE_BIT,
    {
        Areas { bits: REGISTRY_CACHE_BIT }
    }

    pub fn standby_list() -> (r: Areas)
        ensures
            r.bits == STANDBY_LIST_BIT,
    {
        Areas { bits: STANDBY_LIST_BIT }
    }

    pub fn standby_list_low() -> (r: Areas)
        ensures
            r.bits == STANDBY_LIST_LOW_BIT,
    {
        Areas { bits: STANDBY_LIST_LOW_BIT }
    }

    pub fn system_file_cache() -> (r: Areas)
        ensures
            r.bits == SYSTEM_FILE_CACHE_BIT,
    {
        Areas { bits: SYSTEM_FILE_CACHE_BIT }
    }

    pub fn working_set() -> (r: Areas)
        ensures
            r.bits == WORKING_SET_BIT,
    {
        Areas { bits: WORKING_SET_BIT }
    }

    /// The basic preset: working set and modified page list.
    pub fn basic() -> (r: Areas)
        ensures
            r.bits == WORKING_SET_BIT | MODIFIED_PAGE_LIST_BIT,
    {
        Areas { bits: WORKING_SET_BIT | MODIFIED_PAGE_LIST_BIT }
    }

    /// The standard preset: the basic one, standby list and system file cache.
    pub fn standard() -> (r: Areas)
        ensures
            r.bits == WORKING_SET_BIT | MODIFIED_PAGE_LIST_BIT | STANDBY_LIST_BIT
                | SYSTEM_FILE_CACHE_BIT,
    {
        Areas { bits: WORKING_SET_BIT | MODIFIED_PAGE_LIST_BIT | STANDBY_LIST_BIT | SYSTEM_FILE_CACHE_BIT }
    }

    /// The full preset: every area.
    pub fn full() -> (r: Areas)
        ensures
            r.bits == ALL_AREA_BITS,
    {
        Areas { bits: ALL_AREA_BITS }
    }

    /// The raw bits.
    pub fn bits(&self) -> (r: u32)
        ensures
            r == self.bits,
    {
        self.bits
    }

    /// Keeps only the bits that name an area.
    pub fn from_bits_truncate(bits: u32) -> (r: Areas)
        ensures
            r.bits == bits & ALL_AREA_BITS,
    {
        Areas { bits: bits & ALL_AREA_BITS }
    }

    /// No area at all.
    pub fn is_empty(&self) -> (r: bool)
        ensures
            r == (self.bits == 0),
    {
        self.bits == 0
    }

    /// Every area of `other` is in the set.
    pub fn contains(&self, other: Areas) -> (r: bool)
        ensures
            r == self.has(other),
    {
        self.bits & other.bits == other.bits
    }

    /// Some area of `other` is in the set.
    pub fn intersects(&self, other: Areas) -> (r: bool)
        ensures
            r == (self.bits & other.bits != 0),
    {
        self.bits & other.bits != 0
    }

    /// The areas of either set.
    pub fn union(self, other: Areas) -> (r: Areas)
        ensures
            r.bits == self.bits | other.bits,
    {
        Areas { bits: self.bits | other.bits }
    }

    /// Adds the areas of `other`.
    pub fn insert(&mut self, other: Areas)
        ensures
            final(self).bits == old(self).bits | other.bits,
    {
        self.bits = self.bits | other.bits;
    }

    /// The areas of `self` that are not in `other`.
    pub fn difference(self, other: Areas) -> (r: Areas)
        ensures
            r.bits == self.bits & !other.bits,
    {
        Areas { bits: self.bits & !other.bits }
    }
}

/// The one-element list `[name]` when `a` holds the area `bit`, else the empty list.
pub open spec fn name_if(a: Areas, bit: u32, name: Seq<char>) -> Seq<Seq<char>> {
    if a.has_bit(bit) { seq![name] } else { seq![] }
}

/// The display names of the areas in `a`, in the order the UI lists them.
pub open spec fn area_names(a: Areas) -> Seq<Seq<char>> {
    name_if(a, WORKING_SET_BIT, "Working Set"@)
    + name_if(a, MODIFIED_PAGE_LIST_BIT, "Modified Page List"@)
    + name_if(a, STANDBY_LIST_BIT, "Standby List"@)
    + name_if(a, STANDBY_LIST_LOW_BIT, "Low Priority Standby"@)
    + name_if(a, SYSTEM_FILE_CACHE_BIT, "System File Cache"@)
    + name_if(a, COMBINED_PAGE_LIST_BIT, "Combined Page List"@)
    + name_if(a, MODIFIED_FILE_CACHE_BIT, "Modified File Cache"@)
    + name_if(a, REGISTRY_CACHE_BIT, "Registry Cache"@)
}

/// The character views of a list of names.
pub open spec fn views_of(v: Seq<&str>) -> Seq<Seq<char>> {
    v.map_values(|s: &str| s@)
}

/// Appends `name` when `cond` holds.
fn push_name_if(names: &mut Vec<&'static str>, cond: bool, name: &'static str)
    ensures
        views_of(final(names)@) == views_of(old(names)@) + (if cond { seq![name@] } else { seq![] }),
{
    let ghost before = names@;
    if cond {
        names.push(name);
        proof {
            assert(views_of(names@) =~= views_of(before) + seq![name@]);
        }
    } else {
        proof {
            assert(views_of(names@) =~= views_of(before) + Seq::<Seq<char>>::empty());
        }
    }
}

impl Areas {
    /// Human-readable names of the areas in the set.
    pub fn get_names(&self) -> (names: Vec<&'static str>)
        ensures
            views_of(names@) == area_names(*self),
    {
        let mut names: Vec<&'static str> = Vec::new();
        proof {
            assert(views_of(names@) =~= Seq::<Seq<char>>::empty());
        }
        push_name_if(&mut names, self.contains(Areas::working_set()), "Working Set");
        push_name_if(&mut names, self.contains(Areas::modified_page_list()), "Modified Page List");
        push_name_if(&mut names, self.contains(Areas::standby_list()), "Standby List");
        push_name_if(&mut names, self.contains(Areas::standby_list_low()), "Low Priority Standby");
        push_name_if(&mut names, self.contains(Areas::system_file_cache()), "System File Cache");
        push_name_if(&mut names, self.contains(Areas::combined_page_list()), "Combined Page List");
        push_name_if(&mut names, self.contains(Areas::modified_file_cache()), "Modified File Cache");
        push_name_if(&mut names, self.contains(Areas::registry_cache()), "Registry Cache");
        proof {
            assert(views_of(names@) =~= area_names(*self));
        }
        names
    }
}

/// The number of areas in `a`: how many of the eight area bits are set.
pub open spec fn area_count(a: Areas) -> nat {
    (if a.has_bit(WORKING_SET_BIT) { 1nat } else { 0nat }) + (if a.has_bit(MODIFIED_PAGE_LIST_BIT) {
        1nat
    } else {
        0nat
    }) + (if a.has_bit(STANDBY_LIST_BIT) { 1nat } else { 0nat }) + (if a.has_bit(
        STANDBY_LIST_LOW_BIT,
    ) {
        1nat
    } else {
        0nat
    }) + (if a.has_bit(SYSTEM_FILE_CACHE_BIT) { 1nat } else { 0nat }) + (if a.has_bit(
        COMBINED_PAGE_LIST_BIT,
    ) {
        1nat
    } else {
        0nat
    }) + (if a.has_bit(MODIFIED_FILE_CACHE_BIT) { 1nat } else { 0nat }) + (if a.has_bit(
        REGISTRY_CACHE_BIT,
    ) {
        1nat
    } else {
        0nat
    })
}

proof fn lemma_append_opt_distinct(s: Seq<Seq<char>>, extra: Seq<Seq<char>>, name: Seq<char>)
    requires
        s.no_duplicates(),
        !s.contains(name),
        extra.len() == 0 || extra == seq![name],
    ensures
        (s + extra).no_duplicates(),
        forall|x: Seq<char>| #[trigger] (s + extra).contains(x) ==> s.contains(x) || x == name,
{
    let t = s + extra;
    assert forall|x: Seq<char>| t.contains(x) implies s.contains(x) || x == name by {
        let k = choose|k: int| 0 <= k < t.len() && t[k] == x;
        if k < s.len() {
            assert(s[k] == x);
        }
    }
    assert forall|i: int, j: int| 0 <= i < t.len() && 0 <= j < t.len() && i != j implies t[i] != t[j] by {
        if i < s.len() && j < s.len() {
        } else if i < s.len() {
            assert(s.contains(t[i]));
        } else if j < s.len() {
            assert(s.contains(t[j]));
        }
    }
}

/// The names of a set of areas are distinct, one per area in the set: there
/// are as many as area bits set, and none when no area bit is set.
pub proof fn lemma_area_names_distinct(a: Areas)
    ensures
        area_names(a).no_duplicates(),
        area_names(a).len() == area_count(a),
        area_names(a).len() == 0 <==> a.bits & ALL_AREA_BITS == 0,
{
    reveal_strlit("Working Set");
    reveal_strlit("Modified Page List");
    reveal_strlit("Standby List");
    reveal_strlit("Low Priority Standby");
    reveal_strlit("System File Cache");
    reveal_strlit("Combined Page List");
    reveal_strlit("Modified File Cache");
    reveal_strlit("Registry Cache");
    let s0 = Seq::<Seq<char>>::empty();
    let s1 = s0 + name_if(a, WORKING_SET_BIT, "Working Set"@);
    lemma_append_opt_distinct(s0, name_if(a, WORKING_SET_BIT, "Working Set"@), "Working Set"@);
    assert forall|x: Seq<char>| #[trigger] s1.contains(x) implies x == "Working Set"@ by {
        if s0.contains(x) {}
    }
    assert("Modified Page List"@.len() != "Working Set"@.len());
    let s2 = s1 + name_if(a, MODIFIED_PAGE_LIST_BIT, "Modified Page List"@);
    lemma_append_opt_distinct(s1, name_if(a, MODIFIED_PAGE_LIST_BIT, "Modified Page List"@), "Modified Page List"@);
    assert forall|x: Seq<char>| #[trigger] s2.contains(x) implies x == "Working Set"@ || x == "Modified Page List"@ by {
        if s1.contains(x) {}
    }
    assert("Standby List"@.len() != "Working Set"@.len());
    assert("Standby List"@.len() != "Modified Page List"@.len());
    let s3 = s2 + name_if(a, STANDBY_LIST_BIT, "Standby List"@);
    lemma_append_opt_distinct(s2, name_if(a, STANDBY_LIST_BIT, "Standby List"@), "Standby List"@);
    assert forall|x: Seq<char>| #[trigger] s3.contains(x) implies x == "Working Set"@ || x == "Modified Page List"@ || x == "Standby List"@ by {
        if s2.contains(x) {}
    }
    assert("Low Priority Standby"@.len() != "Working Set"@.len());
    assert("Low Priority Standby"@.len() != "Modified Page List"@.len());
    assert("Low Priority Standby"@.len() != "Standby List"@.len());
    let s4 = s3 + name_if(a, STANDBY_LIST_LOW_BIT, "Low Priority Standby"@);
    lemma_append_opt_distinct(s3, name_if(a, STANDBY_LIST_LOW_BIT, "Low Priority Standby"@), "Low Priority Standby"@);
    assert forall|x: Seq<char>| #[trigger] s4.contains(x) implies x == "Working Set"@ || x == "Modified Page List"@ || x == "Standby List"@ || x == "Low Priority Standby"@ by {
        if s3.contains(x) {}
    }
    assert("System File Cache"@.len() != "Working Set"@.len());
    assert("System File Cache"@.len() != "Modified Page List"@.len());
    assert("System File Cache"@.len() != "Standby List"@.len());
    assert("System File Cache"@.len() != "Low Priority Standby"@.len());
    let s5 = s4 + name_if(a, SYSTEM_FILE_CACHE_BIT, "System File Cache"@);
    lemma_append_opt_distinct(s4, name_if(a, SYSTEM_FILE_CACHE_BIT, "System File Cache"@), "System File Cache"@);
    assert forall|x: Seq<char>| #[trigger] s5.contains(x) implies x == "Working Set"@ || x == "Modified Page List"@ || x == "Standby List"@ || x == "Low Priority Standby"@ || x == "System File Cache"@ by {
        if s4.contains(x) {}
    }
    assert("Combined Page List"@.len() != "Working Set"@.len());
    assert("Combined Page List"@[0] != "Modified Page List"@[0]);
    assert("Combined Page List"@.len() != "Standby List"@.len());
    assert("Combined Page List"@.len() != "Low Priority Standby"@.len());
    assert("Combined Page List"@.len() != "System File Cache"@.len());
    let s6 = s5 + name_if(a, COMBINED_PAGE_LIST_BIT, "Combined Page List"@);
    lemma_append_opt_distinct(s5, name_if(a, COMBINED_PAGE_LIST_BIT, "Combined Page List"@), "Combined Page List"@);
    assert forall|x: Seq<char>| #[trigger] s6.contains(x) implies x == "Working Set"@ || x == "Modified Page List"@ || x == "Standby List"@ || x == "Low Priority Standby"@ || x == "System File Cache"@ || x == "Combined Page List"@ by {
        if s5.contains(x) {}
    }
    assert("Modified File Cache"@.len() != "Working Set"@.len());
    assert("Modified File Cache"@.len() != "Modified Page List"@.len());
    assert("Modified File Cache"@.len() != "Standby List"@.len());
    assert("Modified File Cache"@.len() != "Low Priority Standby"@.len());
    assert("Modified File Cache"@.len() != "System File Cache"@.len());
    assert("Modified File Cache"@.len() != "Combined Page List"@.len());
    let s7 = s6 + name_if(a, MODIFIED_FILE_CACHE_BIT, "Modified File Cache"@);
    lemma_append_opt_distinct(s6, name_if(a, MODIFIED_FILE_CACHE_BIT, "Modified File Cache"@), "Modified File Cache"@);
    assert forall|x: Seq<char>| #[trigger] s7.contains(x) implies x == "Working Set"@ || x == "Modified Page List"@ || x == "Standby List"@ || x == "Low Priority Standby"@ || x == "System File Cache"@ || x == "Combined Page List"@ || x == "Modified File Cache"@ by {
        if s6.contains(x) {}
    }
    assert("Registry Cache"@.len() != "Working Set"@.len());
    assert("Registry Cache"@.len() != "Modified Page List"@.len());
    assert("Registry Cache"@.len() != "Standby List"@.len());
    assert("Registry Cache"@.len() != "Low Priority Standby"@.len());
    assert("Registry Cache"@.len() != "System File Cache"@.len());
    assert("Registry Cache"@.len() != "Combined Page List"@.len());
    assert("Registry Cache"@.len() != "Modified File Cache"@.len());
    let s8 = s7 + name_if(a, REGISTRY_CACHE_BIT, "Registry Cache"@);
    lemma_append_opt_distinct(s7, name_if(a, REGISTRY_CACHE_BIT, "Registry Cache"@), "Registry Cache"@);
    assert forall|x: Seq<char>| #[trigger] s8.contains(x) implies x == "Working Set"@ || x == "Modified Page List"@ || x == "Standby List"@ || x == "Low Priority Standby"@ || x == "System File Cache"@ || x == "Combined Page List"@ || x == "Modified File Cache"@ || x == "Registry Cache"@ by {
        if s7.contains(x) {}
    }
    assert(area_names(a) =~= s8);
    let b = a.bits;
    assert((b & 128 != 128 && b & 4 != 4 && b & 16 != 16 && b & 32 != 32 && b & 64 != 64 && b
        & 1 != 1 && b & 2 != 2 && b & 8 != 8) <==> b & 255 == 0) by (bit_vector);
}

/// The text shown for a set of areas: its names joined by ", ", or "None".
pub open spec fn areas_display(a: Areas) -> Seq<char> {
    if area_names(a).len() == 0 {
        "None"@
    } else {
        seq_join(area_names(a), ", "@)
    }
}

impl Areas {
    /// The text the UI shows for the set (`"None"` when it is empty).
    pub fn to_display_string(&self) -> (r: String)
        ensures
            r@ == areas_display(*self),
    {
        let names = self.get_names();
        if names.len() == 0 {
            copy_str("None")
        } else {
            let r = join_strs(&names, ", ");
            proof {
                assert(names@.map_values(|x: &str| x@) =~= views_of(names@));
            }
            r
        }
    }
}

// ========== OPTIMIZATION REASON ==========

/// Why an optimization ran.
#[derive(Clone, Copy, Debug, PartialEq, Eq, Structural)]
pub enum Reason {
    LowMemory,
    Manual,
    Schedule,
    Hotkey,
}

/// The text shown for a reason.
pub open spec fn reason_text(r: Reason) -> Seq<char> {
    match r {
        Reason::LowMemory => "Low Memory"@,
        Reason::Manual => "Manual"@,
        Reason::Schedule => "Scheduled"@,
        Reason::Hotkey => "Hotkey"@,
    }
}

impl Reason {
    /// The text shown for the reason.
    pub fn display_name(&self) -> (r: &'static str)
        ensures
            r@ == reason_text(*self),
    {
        match self {
            Reason::LowMemory => "Low Memory",
            Reason::Manual => "Manual",
            Reason::Schedule => "Scheduled",
            Reason::Hotkey => "Hotkey",
        }
    }
}

// ========== MEMORY UNITS ==========

/// A unit of memory size.
#[derive(Clone, Copy, Debug, PartialEq, Eq, Structural)]
pub enum Unit {
    B,
    KB,
    MB,
    GB,
    TB,
}

/// The number of bytes in one unit.
pub open spec fn unit_bytes(u: Unit) -> nat {
    match u {
        Unit::B => 1,
        Unit::KB => 1024,
        Unit::MB => 1024 * 1024,
        Unit::GB => 1024 * 1024 * 1024,
        Unit::TB => 1024 * 1024 * 1024 * 1024,
    }
}

/// The symbol shown for a unit.
pub open spec fn unit_text(u: Unit) -> Seq<char> {
    match u {
        Unit::B => "B"@,
        Unit::KB => "KB"@,
        Unit::MB => "MB"@,
        Unit::GB => "GB"@,
        Unit::TB => "TB"@,
    }
}

/// The largest unit that does not exceed `bytes` (bytes when below one KB).
pub open spec fn unit_for(bytes: u64) -> Unit {
    if bytes >= 1024 * 1024 * 1024 * 1024 {
        Unit::TB
    } else if bytes >= 1024 * 1024 * 1024 {
        Unit::GB
    } else if bytes >= 1024 * 1024 {
        Unit::MB
    } else if bytes >= 1024 {
        Unit::KB
    } else {
        Unit::B
    }
}

impl Unit {
    /// The symbol shown for the unit.
    pub fn symbol(&self) -> (r: &'static str)
        ensures
            r@ == unit_text(*self),
    {
        match self {
            Unit::B => "B",
            Unit::KB => "KB",
            Unit::MB => "MB",
            Unit::GB => "GB",
            Unit::TB => "TB",
        }
    }

    /// The number of bytes in one unit.
    pub fn divisor(&self) -> (r: u64)
        ensures
            r == unit_bytes(*self),
    {
        match self {
            Unit::B => 1,
            Unit::KB => 1024,
            Unit::MB => 1024 * 1024,
            Unit::GB => 1024 * 1024 * 1024,
            Unit::TB => 1024 * 1024 * 1024 * 1024,
        }
    }

    /// The unit a byte count is shown in.
    pub fn for_bytes(bytes: u64) -> (r: Unit)
        ensures
            r == unit_for(bytes),
    {
        if bytes >= 1024 * 1024 * 1024 * 1024 {
            Unit::TB
        } else if bytes >= 1024 * 1024 * 1024 {
            Unit::GB
        } else if bytes >= 1024 * 1024 {
            Unit::MB
        } else if bytes >= 1024 {
            Unit::KB
        } else {
            Unit::B
        }
    }
}

// ========== MEMORY SIZE ==========

/// A byte count with the unit it is shown in and a share of some total.
/// The displayed value is `bytes / unit.divisor()`.
#[derive(Clone, Copy, Debug, PartialEq, Eq, Structural)]
pub struct MemorySize {
    pub unit: Unit,
    pub percentage: u8,
    pub bytes: u64,
}

impl MemorySize {
    pub fn new(bytes: u64, percentage: u8) -> (r: MemorySize)
        ensures
            r.bytes == bytes,
            r.percentage == percentage,
            r.unit == unit_for(bytes),
    {
        MemorySize { unit: Unit::for_bytes(bytes), percentage, bytes }
    }
}

// ========== MEMORY STATS ==========

/// `used` as a whole percentage of `total`, rounded half up (0 when `total` is 0).
pub open spec fn used_percent(used: nat, total: nat) -> nat {
    if total == 0 {
        0
    } else {
        (200 * used + total) / (2 * total)
    }
}

/// Free, used and total memory.
#[derive(Clone, Copy, Debug, PartialEq, Eq, Structural)]
pub struct MemoryStats {
    pub free: MemorySize,
    pub used: MemorySize,
    pub total: MemorySize,
}

/// The rounded percentage of `used` in `total`, for `used <= total`.
fn rounded_percent(used: u64, total: u64) -> (r: u8)
    requires
        used <= total,
    ensures
        r as nat == used_percent(used as nat, total as nat),
        r <= 100,
{
    if total == 0 {
        0
    } else {
        let num: u128 = 200 * (used as u128) + (total as u128);
        let den: u128 = 2 * (total as u128);
        proof {
            assert(num <= 201 * (total as u128));
            assert(num / den <= 100) by (nonlinear_arith)
                requires
                    num <= 201 * (total as u128),
                    den == 2 * (total as u128),
                    total > 0,
            ;
        }
        (num / den) as u8
    }
}

impl MemoryStats {
    /// Statistics from free and total bytes: used = total - free (saturating),
    /// used percentage rounded, free percentage its complement to 100.
    pub fn new(free_bytes: u64, total_bytes: u64) -> (r: MemoryStats)
        ensures
            r.free.bytes == free_bytes,
            r.total.bytes == total_bytes,
            r.used.bytes == (if free_bytes <= total_bytes { total_bytes - free_bytes } else { 0 }),
            r.used.percentage as nat == used_percent(r.used.bytes as nat, total_bytes as nat),
            r.free.percentage == 100 - r.used.percentage,
            r.total.percentage == 100,
            r.free.unit == unit_for(free_bytes),
            r.used.unit == unit_for(r.used.bytes),
            r.total.unit == unit_for(total_bytes),
    {
        let used_bytes = total_bytes.saturating_sub(free_bytes);
        let used_pct = rounded_percent(used_bytes, total_bytes);
        let free_pct = 100u8 - used_pct;
        MemoryStats {
            free: MemorySize::new(free_bytes, free_pct),
            used: MemorySize::new(used_bytes, used_pct),
            total: MemorySize::new(total_bytes, 100),
        }
    }
}

// ========== MEMORY INFO ==========

/// Physical and commit memory statistics with the system's memory load.
#[derive(Clone, Copy, Debug, PartialEq, Eq, Structural)]
pub struct MemoryInfo {
    pub physical: MemoryStats,
    pub commit: MemoryStats,
    pub load_percent: u32,
}

/// Statistics from free and total bytes; when the used percentage is given
/// it is taken as is and the free percentage is its complement (saturating).
pub fn mk_stats(free: u64, total: u64, used_percent_opt: Option<u8>) -> (r: MemoryStats)
    ensures
        match used_percent_opt {
            Some(p) => {
                &&& r.used.percentage == p
                &&& r.free.percentage == (if p <= 100 { 100 - p } else { 0 })
                &&& r.free.bytes == free
                &&& r.used.bytes == (if free <= total { total - free } else { 0 })
                &&& r.total.bytes == total
                &&& r.total.percentage == 100
                &&& r.free.unit == unit_for(free)
                &&& r.used.unit == unit_for(r.used.bytes)
                &&& r.total.unit == unit_for(total)
            },
            None => r == MemoryStats::new_spec(free, total),
        },
{
    match used_percent_opt {
        Some(used_pct) => {
            let free_pct = 100u8.saturating_sub(used_pct);
            let used = total.saturating_sub(free);
            MemoryStats {
                free: MemorySize::new(free, free_pct),
                used: MemorySize::new(used, used_pct),
                total: MemorySize::new(total, 100),
            }
        },
        None => MemoryStats::new(free, total),
    }
}

impl MemoryStats {
    /// The statistics `MemoryStats::new` builds.
    pub open spec fn new_spec(free_bytes: u64, total_bytes: u64) -> MemoryStats {
        let used = if free_bytes <= total_bytes { (total_bytes - free_bytes) as u64 } else { 0u64 };
        let up = used_percent(used as nat, total_bytes as nat) as u8;
        MemoryStats {
            free: MemorySize { unit: unit_for(free_bytes), percentage: (100 - up) as u8, bytes: free_bytes },
            used: MemorySize { unit: unit_for(used), percentage: up, bytes: used },
            total: MemorySize { unit: unit_for(total_bytes), percentage: 100, bytes: total_bytes },
        }
    }
}

} // verus!
