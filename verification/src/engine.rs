//! The decisions of an optimization run: which privileges it needs, which
//! areas this Windows version offers, in which order the areas are cleaned,
//! how outcomes are recorded, when the memory reading has settled, and how
//! much memory was freed.
//!
//! The run itself (taking privileges, calling the system, waiting, reading
//! the memory counters) is done by the caller, which feeds the outcomes back
//! into these functions.
use vstd::prelude::*;
use crate::memory::types::{
    Areas, Reason, COMBINED_PAGE_LIST_BIT, MODIFIED_FILE_CACHE_BIT, MODIFIED_PAGE_LIST_BIT,
    REGISTRY_CACHE_BIT, STANDBY_LIST_BIT, STANDBY_LIST_LOW_BIT, SYSTEM_FILE_CACHE_BIT,
    WORKING_SET_BIT,
};
use crate::os::{
    has_combined_page_list, has_modified_file_cache, has_modified_page_list, has_registry_cache,
    has_standby_list, has_standby_list_low, has_system_file_cache, has_working_set,
    spec_is_1803_or_later, spec_is_win10_or_later, OsVersion,
};
use crate::text::{append_str, copy_str};

verus! {

/// Outcome of cleaning one memory area.
#[derive(Debug, Clone)]
pub struct OptimizeAreaResult {
    pub name: String,
    pub duration_ms: u128,
    pub error: Option<String>,
}

/// Outcome of a whole optimization run.
#[derive(Debug, Clone)]
pub struct OptimizeResult {
    pub reason: Reason,
    pub duration_ms: u128,
    pub freed_physical_bytes: i64,
    pub freed_commit_bytes: i64,
    pub areas: Vec<OptimizeAreaResult>,
}

/// A privilege an optimization may need.
#[derive(Clone, Copy, Debug, PartialEq, Eq, Structural)]
pub enum Privilege {
    Debug,
    IncreaseQuota,
    ProfileSingleProcess,
}

/// The system name of a privilege.
pub open spec fn privilege_text(p: Privilege) -> Seq<char> {
    match p {
        Privilege::Debug => "SeDebugPrivilege"@,
        Privilege::IncreaseQuota => "SeIncreaseQuotaPrivilege"@,
        Privilege::ProfileSingleProcess => "SeProfileSingleProcessPrivilege"@,
    }
}

impl Privilege {
    /// The system name of the privilege.
    pub fn name(&self) -> (r: &'static str)
        ensures
            r@ == privilege_text(*self),
    {
        match self {
            Privilege::Debug => "SeDebugPrivilege",
            Privilege::IncreaseQuota => "SeIncreaseQuotaPrivilege",
            Privilege::ProfileSingleProcess => "SeProfileSingleProcessPrivilege",
        }
    }
}

/// One cleaning operation, one per memory area.
#[derive(Clone, Copy, Debug, PartialEq, Eq, Structural)]
pub enum AreaOp {
    ModifiedFileCache,
    ModifiedPageList,
    SystemFileCache,
    WorkingSet,
    StandbyList,
    StandbyListLowPriority,
    CombinedPageList,
    RegistryCache,
}

/// The name shown for an operation.
pub open spec fn op_display_text(op: AreaOp) -> Seq<char> {
    match op {
        AreaOp::ModifiedFileCache => "Modified File Cache"@,
        AreaOp::ModifiedPageList => "Modified Page List"@,
        AreaOp::SystemFileCache => "System File Cache"@,
        AreaOp::WorkingSet => "Working Set"@,
        AreaOp::StandbyList => "Standby List"@,
        AreaOp::StandbyListLowPriority => "Standby List (Low Priority)"@,
        AreaOp::CombinedPageList => "Combined Page List"@,
        AreaOp::RegistryCache => "Registry Cache"@,
    }
}

/// The internal name of an operation.
pub open spec fn op_key_text(op: AreaOp) -> Seq<char> {
    match op {
        AreaOp::ModifiedFileCache => "ModifiedFileCache"@,
        AreaOp::ModifiedPageList => "ModifiedPageList"@,
        AreaOp::SystemFileCache => "SystemFileCache"@,
        AreaOp::WorkingSet => "WorkingSet"@,
        AreaOp::StandbyList => "StandbyList"@,
        AreaOp::StandbyListLowPriority => "StandbyListLowPriority"@,
        AreaOp::CombinedPageList => "CombinedPageList"@,
        AreaOp::RegistryCache => "RegistryCache"@,
    }
}

/// The area bit an operation cleans.
pub open spec fn op_bit(op: AreaOp) -> u32 {
    match op {
        AreaOp::ModifiedFileCache => MODIFIED_FILE_CACHE_BIT,
        AreaOp::ModifiedPageList => MODIFIED_PAGE_LIST_BIT,
        AreaOp::SystemFileCache => SYSTEM_FILE_CACHE_BIT,
        AreaOp::WorkingSet => WORKING_SET_BIT,
        AreaOp::StandbyList => STANDBY_LIST_BIT,
        AreaOp::StandbyListLowPriority => STANDBY_LIST_LOW_BIT,
        AreaOp::CombinedPageList => COMBINED_PAGE_LIST_BIT,
        AreaOp::RegistryCache => REGISTRY_CACHE_BIT,
    }
}

impl AreaOp {
    /// The name shown for the operation.
    pub fn display_name(&self) -> (r: &'static str)
        ensures
            r@ == op_display_text(*self),
    {
        match self {
            AreaOp::ModifiedFileCache => "Modified File Cache",
            AreaOp::ModifiedPageList => "Modified Page List",
            AreaOp::SystemFileCache => "System File Cache",
            AreaOp::WorkingSet => "Working Set",
            AreaOp::StandbyList => "Standby List",
            AreaOp::StandbyListLowPriority => "Standby List (Low Priority)",
            AreaOp::CombinedPageList => "Combined Page List",
            AreaOp::RegistryCache => "Registry Cache",
        }
    }

    /// The internal name of the operation.
    pub fn key(&self) -> (r: &'static str)
        ensures
            r@ == op_key_text(*self),
    {
        match self {
            AreaOp::ModifiedFileCache => "ModifiedFileCache",
            AreaOp::ModifiedPageList => "ModifiedPageList",
            AreaOp::SystemFileCache => "SystemFileCache",
            AreaOp::WorkingSet => "WorkingSet",
            AreaOp::StandbyList => "StandbyList",
            AreaOp::StandbyListLowPriority => "StandbyListLowPriority",
            AreaOp::CombinedPageList => "CombinedPageList",
            AreaOp::RegistryCache => "RegistryCache",
        }
    }
}

/// `bits` holds `bit`.
pub open spec fn has_bit(bits: u32, bit: u32) -> bool {
    bits & bit == bit
}

/// The stealthy (indirect system call) path is used when the combined page
/// list, the modified page list or the standby list is asked for.
pub open spec fn spec_uses_indirect_syscalls(bits: u32) -> bool {
    bits & (COMBINED_PAGE_LIST_BIT | MODIFIED_PAGE_LIST_BIT | STANDBY_LIST_BIT) != 0
}

/// Privileges an optimization of these areas needs, in name order, each once:
/// debug for the working set, quota for the system file cache, and
/// single-process profiling for any of the page lists.
pub open spec fn needed_privileges(bits: u32) -> Seq<Privilege> {
    (if has_bit(bits, WORKING_SET_BIT) {
        seq![Privilege::Debug]
    } else {
        seq![]
    }) + (if has_bit(bits, SYSTEM_FILE_CACHE_BIT) {
        seq![Privilege::IncreaseQuota]
    } else {
        seq![]
    }) + (if bits & (MODIFIED_PAGE_LIST_BIT | STANDBY_LIST_BIT | STANDBY_LIST_LOW_BIT
        | COMBINED_PAGE_LIST_BIT) != 0 {
        seq![Privilege::ProfileSingleProcess]
    } else {
        seq![]
    })
}

/// Whether this Windows version offers the area of `bit` (see `crate::os`).
pub open spec fn offers_area(bit: u32, os: OsVersion) -> bool {
    if bit == STANDBY_LIST_LOW_BIT {
        spec_is_win10_or_later(os)
    } else if bit == COMBINED_PAGE_LIST_BIT || bit == MODIFIED_FILE_CACHE_BIT {
        spec_is_1803_or_later(os)
    } else {
        true
    }
}

/// The asked areas this Windows version offers.
pub open spec fn offered_areas(bits: u32, os: OsVersion) -> u32 {
    bits & (STANDBY_LIST_BIT | MODIFIED_PAGE_LIST_BIT | REGISTRY_CACHE_BIT | SYSTEM_FILE_CACHE_BIT
        | WORKING_SET_BIT | (if spec_is_win10_or_later(os) {
        STANDBY_LIST_LOW_BIT
    } else {
        0
    }) | (if spec_is_1803_or_later(os) {
        COMBINED_PAGE_LIST_BIT
    } else {
        0
    } | if spec_is_1803_or_later(os) {
        MODIFIED_FILE_CACHE_BIT
    } else {
        0
    }))
}

/// The order in which areas are cleaned: the modified file cache first (it
/// flushes data to disk), then the modified page list, the system file cache,
/// the working sets, the standby lists, the combined page list and the
/// registry cache.
pub open spec fn operation_order() -> Seq<AreaOp> {
    seq![
        AreaOp::ModifiedFileCache,
        AreaOp::ModifiedPageList,
        AreaOp::SystemFileCache,
        AreaOp::WorkingSet,
        AreaOp::StandbyList,
        AreaOp::StandbyListLowPriority,
        AreaOp::CombinedPageList,
        AreaOp::RegistryCache,
    ]
}

/// The operations among the first `n` of `operation_order` whose area is in `bits`.
pub open spec fn ops_upto(bits: u32, n: nat) -> Seq<AreaOp>
    decreases n,
{
    if n == 0 {
        seq![]
    } else {
        let prev = ops_upto(bits, (n - 1) as nat);
        let op = operation_order()[n - 1];
        if has_bit(bits, op_bit(op)) {
            prev.push(op)
        } else {
            prev
        }
    }
}

/// The operations for these areas, in cleaning order.
pub open spec fn planned_ops(bits: u32) -> Seq<AreaOp> {
    ops_upto(bits, 8)
}

/// The step count shown in progress reports: one per operation plus the
/// final step, capped at 255.
pub open spec fn spec_progress_total(n: nat) -> u8 {
    if n + 1 <= 255 {
        (n + 1) as u8
    } else {
        255
    }
}

/// Whether the stealthy path is used for these areas.
pub fn uses_indirect_syscalls(areas: Areas) -> (r: bool)
    ensures
        r == spec_uses_indirect_syscalls(areas.bits),
{
    areas.intersects(
        Areas::combined_page_list().union(Areas::modified_page_list()).union(Areas::standby_list()),
    )
}

/// The privileges to acquire before cleaning these areas.
pub fn required_privileges(areas: Areas) -> (r: Vec<Privilege>)
    ensures
        r@ == needed_privileges(areas.bits),
{
    let mut r: Vec<Privilege> = Vec::new();
    if areas.contains(Areas::working_set()) {
        r.push(Privilege::Debug);
    }
    if areas.contains(Areas::system_file_cache()) {
        r.push(Privilege::IncreaseQuota);
    }
    if areas.intersects(
        Areas::modified_page_list().union(Areas::standby_list()).union(
            Areas::standby_list_low(),
        ).union(Areas::combined_page_list()),
    ) {
        r.push(Privilege::ProfileSingleProcess);
    }
    proof {
        assert(r@ =~= needed_privileges(areas.bits));
    }
    r
}

/// The asked areas that this Windows version offers.
pub fn available_areas(areas: Areas, os: &OsVersion) -> (r: Areas)
    ensures
        r.bits == offered_areas(areas.bits, *os),
{
    let standby = has_standby_list();
    let modified = has_modified_page_list();
    let registry = has_registry_cache();
    let file_cache = has_system_file_cache();
    let working_set = has_working_set();
    let standby_low = has_standby_list_low(os);
    let combined = has_combined_page_list(os);
    let modified_file = has_modified_file_cache(os);
    let offered: u32 = (if standby { STANDBY_LIST_BIT } else { 0 }) | (if modified {
        MODIFIED_PAGE_LIST_BIT
    } else {
        0
    }) | (if registry { REGISTRY_CACHE_BIT } else { 0 }) | (if file_cache {
        SYSTEM_FILE_CACHE_BIT
    } else {
        0
    }) | (if working_set { WORKING_SET_BIT } else { 0 }) | (if standby_low {
        STANDBY_LIST_LOW_BIT
    } else {
        0
    }) | ((if combined { COMBINED_PAGE_LIST_BIT } else { 0 }) | (if modified_file {
        MODIFIED_FILE_CACHE_BIT
    } else {
        0
    }));
    Areas { bits: areas.bits & offered }
}

/// The operations for these areas, in cleaning order.
pub fn operation_plan(areas: Areas) -> (r: Vec<AreaOp>)
    ensures
        r@ == planned_ops(areas.bits),
{
    let order: Vec<AreaOp> = vec![
        AreaOp::ModifiedFileCache,
        AreaOp::ModifiedPageList,
        AreaOp::SystemFileCache,
        AreaOp::WorkingSet,
        AreaOp::StandbyList,
        AreaOp::StandbyListLowPriority,
        AreaOp::CombinedPageList,
        AreaOp::RegistryCache,
    ];
    proof {
        assert(order@ =~= operation_order());
    }
    let mut r: Vec<AreaOp> = Vec::new();
    let mut i: usize = 0;
    while i < 8
        invariant
            i <= 8,
            order@ == operation_order(),
            r@ == ops_upto(areas.bits, i as nat),
        decreases 8 - i,
    {
        let op = order[i];
        if areas.contains(op_area(op)) {
            r.push(op);
        }
        i = i + 1;
    }
    r
}

/// The area an operation cleans.
pub fn op_area(op: AreaOp) -> (r: Areas)
    ensures
        r.bits == op_bit(op),
{
    match op {
        AreaOp::ModifiedFileCache => Areas::modified_file_cache(),
        AreaOp::ModifiedPageList => Areas::modified_page_list(),
        AreaOp::SystemFileCache => Areas::system_file_cache(),
        AreaOp::WorkingSet => Areas::working_set(),
        AreaOp::StandbyList => Areas::standby_list(),
        AreaOp::StandbyListLowPriority => Areas::standby_list_low(),
        AreaOp::CombinedPageList => Areas::combined_page_list(),
        AreaOp::RegistryCache => Areas::registry_cache(),
    }
}

/// The step count for progress reports of `n` operations.
pub fn progress_total(n: usize) -> (r: u8)
    ensures
        r == spec_progress_total(n as nat),
{
    if n < 255 {
        (n + 1) as u8
    } else {
        255
    }
}

/// Everything decided before the first operation runs.
#[derive(Debug, Clone)]
pub struct OptimizationPlan {
    pub use_indirect_syscalls: bool,
    pub privileges: Vec<Privilege>,
    pub areas: Areas,
    pub operations: Vec<AreaOp>,
    pub total: u8,
}

/// Plans an optimization of the asked areas on the given Windows version.
/// The stealth choice and the privileges follow the asked areas; the
/// operations follow the areas this version offers.
pub fn plan_optimization(areas: Areas, os: &OsVersion) -> (r: OptimizationPlan)
    ensures
        r.use_indirect_syscalls == spec_uses_indirect_syscalls(areas.bits),
        r.privileges@ == needed_privileges(areas.bits),
        r.areas.bits == offered_areas(areas.bits, *os),
        r.operations@ == planned_ops(offered_areas(areas.bits, *os)),
        r.total == spec_progress_total(planned_ops(offered_areas(areas.bits, *os)).len()),
{
    let use_indirect_syscalls = uses_indirect_syscalls(areas);
    let privileges = required_privileges(areas);
    let offered = available_areas(areas, os);
    let operations = operation_plan(offered);
    let total = progress_total(operations.len());
    OptimizationPlan { use_indirect_syscalls, privileges, areas: offered, operations, total }
}

/// The areas this version offers are among the asked ones.
pub proof fn lemma_offered_within_asked(bits: u32, os: OsVersion)
    ensures
        offered_areas(bits, os) & bits == offered_areas(bits, os),
{
    let o = offered_areas(bits, os);
    let m = STANDBY_LIST_BIT | MODIFIED_PAGE_LIST_BIT | REGISTRY_CACHE_BIT | SYSTEM_FILE_CACHE_BIT
        | WORKING_SET_BIT | (if spec_is_win10_or_later(os) {
        STANDBY_LIST_LOW_BIT
    } else {
        0
    }) | (if spec_is_1803_or_later(os) {
        COMBINED_PAGE_LIST_BIT
    } else {
        0
    } | if spec_is_1803_or_later(os) {
        MODIFIED_FILE_CACHE_BIT
    } else {
        0
    });
    assert(o == bits & m);
    assert((bits & m) & bits == bits & m) by (bit_vector);
}

/// Every planned operation cleans an asked area, and none is planned twice.
pub proof fn lemma_plan_within_areas(bits: u32)
    ensures
        forall|i: int| 0 <= i < planned_ops(bits).len() ==> has_bit(bits, op_bit(#[trigger] planned_ops(bits)[i])),
        forall|i: int, j: int|
            0 <= i < j < planned_ops(bits).len() ==> #[trigger] planned_ops(bits)[i] != #[trigger] planned_ops(bits)[j],
        planned_ops(bits).len() <= 8,
{
    lemma_ops_upto(bits, 8);
}

/// The privilege an operation cannot run without: debugging for the working
/// sets, the quota privilege for the system file cache, and single-process
/// profiling for the page and standby lists.
pub open spec fn privilege_needed_by(op: AreaOp) -> Option<Privilege> {
    match op {
        AreaOp::WorkingSet => Some(Privilege::Debug),
        AreaOp::SystemFileCache => Some(Privilege::IncreaseQuota),
        AreaOp::ModifiedPageList => Some(Privilege::ProfileSingleProcess),
        AreaOp::StandbyList => Some(Privilege::ProfileSingleProcess),
        AreaOp::StandbyListLowPriority => Some(Privilege::ProfileSingleProcess),
        AreaOp::CombinedPageList => Some(Privilege::ProfileSingleProcess),
        AreaOp::ModifiedFileCache => None,
        AreaOp::RegistryCache => None,
    }
}

/// Every planned operation has its privilege: whatever the asked areas and
/// the Windows version, the privileges of the plan hold the one each planned
/// operation needs.
pub proof fn lemma_plan_has_its_privileges(bits: u32, os: OsVersion)
    ensures
        forall|i: int|
            0 <= i < planned_ops(offered_areas(bits, os)).len() ==> (
            #[trigger] privilege_needed_by(planned_ops(offered_areas(bits, os))[i]) matches Some(p)
                ==> needed_privileges(bits).contains(p)),
{
    let offered = offered_areas(bits, os);
    let ops = planned_ops(offered);
    lemma_plan_within_areas(offered);
    let m = STANDBY_LIST_BIT | MODIFIED_PAGE_LIST_BIT | REGISTRY_CACHE_BIT | SYSTEM_FILE_CACHE_BIT
        | WORKING_SET_BIT | (if spec_is_win10_or_later(os) {
        STANDBY_LIST_LOW_BIT
    } else {
        0
    }) | (if spec_is_1803_or_later(os) {
        COMBINED_PAGE_LIST_BIT
    } else {
        0
    } | if spec_is_1803_or_later(os) {
        MODIFIED_FILE_CACHE_BIT
    } else {
        0
    });
    assert(offered == bits & m);
    let a = if has_bit(bits, WORKING_SET_BIT) { seq![Privilege::Debug] } else { seq![] };
    let b = if has_bit(bits, SYSTEM_FILE_CACHE_BIT) { seq![Privilege::IncreaseQuota] } else { seq![] };
    let c = if bits & (MODIFIED_PAGE_LIST_BIT | STANDBY_LIST_BIT | STANDBY_LIST_LOW_BIT
        | COMBINED_PAGE_LIST_BIT) != 0 {
        seq![Privilege::ProfileSingleProcess]
    } else {
        seq![]
    };
    assert(needed_privileges(bits) == a + b + c);
    assert forall|i: int|
        0 <= i < ops.len() implies (#[trigger] privilege_needed_by(ops[i]) matches Some(p)
        ==> needed_privileges(bits).contains(p)) by {
        let op = ops[i];
        let bit = op_bit(op);
        assert(has_bit(offered, bit));
        assert(bits & bit == bit) by (bit_vector)
            requires
                (bits & m) & bit == bit,
        ;
        if op == AreaOp::WorkingSet {
            assert(needed_privileges(bits)[0] == Privilege::Debug);
        } else if op == AreaOp::SystemFileCache {
            assert(needed_privileges(bits)[a.len() as int] == Privilege::IncreaseQuota);
        } else if privilege_needed_by(op) is Some {
            assert(bit == 4 || bit == 16 || bit == 32 || bit == 1);
            assert(bits & (4u32 | 16u32 | 32u32 | 1u32) != 0) by (bit_vector)
                requires
                    bits & bit == bit,
                    bit == 4 || bit == 16 || bit == 32 || bit == 1,
            ;
            assert(needed_privileges(bits)[(a.len() + b.len()) as int] == Privilege::ProfileSingleProcess);
        }
    }
}

proof fn lemma_ops_upto(bits: u32, n: nat)
    requires
        n <= 8,
    ensures
        forall|i: int| 0 <= i < ops_upto(bits, n).len() ==> has_bit(bits, op_bit(#[trigger] ops_upto(bits, n)[i])),
        forall|i: int| 0 <= i < ops_upto(bits, n).len() ==> exists|k: int| 0 <= k < n && #[trigger] ops_upto(bits, n)[i] == operation_order()[k],
        forall|i: int, j: int|
            0 <= i < j < ops_upto(bits, n).len() ==> #[trigger] ops_upto(bits, n)[i] != #[trigger] ops_upto(bits, n)[j],
        ops_upto(bits, n).len() <= n,
    decreases n,
{
    if n > 0 {
        lemma_ops_upto(bits, (n - 1) as nat);
        let prev = ops_upto(bits, (n - 1) as nat);
        let cur = ops_upto(bits, n);
        let op = operation_order()[n - 1];
        assert forall|i: int| 0 <= i < prev.len() implies #[trigger] prev[i] != op by {
            let k = choose|k: int| 0 <= k < n - 1 && prev[i] == operation_order()[k];
        }
        assert forall|i: int| 0 <= i < cur.len() implies exists|k: int| 0 <= k < n && #[trigger] cur[i] == operation_order()[k] by {
            if i < prev.len() {
                assert(cur[i] == prev[i]);
                let k = choose|k: int| 0 <= k < n - 1 && prev[i] == operation_order()[k];
                assert(cur[i] == operation_order()[k]);
            } else {
                assert(cur[i] == operation_order()[n - 1]);
            }
        }
        assert forall|i: int, j: int| 0 <= i < j < cur.len() implies #[trigger] cur[i] != #[trigger] cur[j] by {
            if j < prev.len() {
                assert(cur[i] == prev[i] && cur[j] == prev[j]);
            } else {
                assert(cur[i] == prev[i]);
            }
        }
        assert forall|i: int| 0 <= i < cur.len() implies has_bit(bits, op_bit(#[trigger] cur[i])) by {
            if i < prev.len() {
                assert(cur[i] == prev[i]);
            }
        }
    }
}

/// Records the outcome of one operation. Failures of the working-set and
/// system-file-cache operations are also listed as errors for the event log.
pub fn record_area_outcome(
    results: &mut Vec<OptimizeAreaResult>,
    errors: &mut Vec<String>,
    op: AreaOp,
    duration_ms: u128,
    error: Option<String>,
)
    ensures
        final(results)@.len() == old(results)@.len() + 1,
        final(results)@.drop_last() == old(results)@,
        final(results)@.last().name@ == op_display_text(op),
        final(results)@.last().duration_ms == duration_ms,
        final(results)@.last().error == error,
        (error is Some && (op == AreaOp::WorkingSet || op == AreaOp::SystemFileCache)) ==> (
            final(errors)@.len() == old(errors)@.len() + 1 && final(errors)@.drop_last()
                == old(errors)@ && final(errors)@.last()@ == op_display_text(op) + ": "@
                + error->0@),
        !(error is Some && (op == AreaOp::WorkingSet || op == AreaOp::SystemFileCache))
            ==> final(errors)@ == old(errors)@,
{
    let name = op.display_name();
    if let Some(e) = &error {
        if matches!(op, AreaOp::WorkingSet) || matches!(op, AreaOp::SystemFileCache) {
            let mut msg = copy_str(name);
            append_str(&mut msg, ": ");
            append_str(&mut msg, e.as_str());
            errors.push(msg);
        }
    }
    results.push(OptimizeAreaResult { name: copy_str(name), duration_ms, error });
    proof {
        assert(results@.drop_last() =~= old(results)@);
        assert(errors@.len() > old(errors)@.len() ==> errors@.drop_last() =~= old(errors)@);
    }
}

/// The results follow the plan: one result per planned operation, in the
/// plan's order, each named after its operation.
pub open spec fn results_follow_plan(ops: Seq<AreaOp>, results: Seq<OptimizeAreaResult>) -> bool {
    &&& results.len() == ops.len()
    &&& forall|i: int| 0 <= i < results.len() ==> (#[trigger] results[i]).name@ == op_display_text(ops[i])
}

/// The outcomes of a run's operations as they come in, kept in the order of
/// the plan: the run asks for the next operation, performs it, and records
/// its outcome.
pub struct RunLog {
    operations: Vec<AreaOp>,
    results: Vec<OptimizeAreaResult>,
    errors: Vec<String>,
}

impl RunLog {
    /// The results so far are those of the first planned operations, in order.
    #[verifier::type_invariant]
    spec fn follows_plan(self) -> bool {
        &&& self.results@.len() <= self.operations@.len()
        &&& forall|i: int|
            0 <= i < self.results@.len() ==> (#[trigger] self.results@[i]).name@ == op_display_text(
                self.operations@[i],
            )
    }

    /// The planned operations.
    pub closed spec fn ops(self) -> Seq<AreaOp> {
        self.operations@
    }

    /// The outcomes recorded so far.
    pub closed spec fn results(self) -> Seq<OptimizeAreaResult> {
        self.results@
    }

    /// The errors listed for the event log so far.
    pub closed spec fn errors(self) -> Seq<String> {
        self.errors@
    }

    /// A log for the planned operations, with nothing recorded yet.
    pub fn start(operations: Vec<AreaOp>) -> (r: RunLog)
        ensures
            r.ops() == operations@,
            r.results() == Seq::<OptimizeAreaResult>::empty(),
            r.errors() == Seq::<String>::empty(),
    {
        RunLog { operations, results: Vec::new(), errors: Vec::new() }
    }

    /// The operation to perform next, or `None` when every one has its outcome.
    pub fn next_op(&self) -> (r: Option<AreaOp>)
        ensures
            r == (if self.results().len() < self.ops().len() {
                Some(self.ops()[self.results().len() as int])
            } else {
                None::<AreaOp>
            }),
    {
        proof {
            use_type_invariant(self);
        }
        if self.results.len() < self.operations.len() {
            Some(self.operations[self.results.len()])
        } else {
            None
        }
    }

    /// Records the outcome of the next operation (see `record_area_outcome`).
    pub fn record(&mut self, duration_ms: u128, error: Option<String>)
        requires
            old(self).results().len() < old(self).ops().len(),
        ensures
            final(self).ops() == old(self).ops(),
            final(self).results().len() == old(self).results().len() + 1,
            final(self).results().drop_last() == old(self).results(),
            final(self).results().last().name@ == op_display_text(
                old(self).ops()[old(self).results().len() as int],
            ),
            final(self).results().last().duration_ms == duration_ms,
            final(self).results().last().error == error,
            ({
                let op = old(self).ops()[old(self).results().len() as int];
                if error is Some && (op == AreaOp::WorkingSet || op == AreaOp::SystemFileCache) {
                    final(self).errors().len() == old(self).errors().len() + 1
                        && final(self).errors().drop_last() == old(self).errors()
                        && final(self).errors().last()@ == op_display_text(op) + ": "@ + error->0@
                } else {
                    final(self).errors() == old(self).errors()
                }
            }),
    {
        proof {
            use_type_invariant(&*self);
        }
        let op = self.operations[self.results.len()];
        let mut results: Vec<OptimizeAreaResult> = Vec::new();
        let mut errors: Vec<String> = Vec::new();
        std::mem::swap(&mut results, &mut self.results);
        std::mem::swap(&mut errors, &mut self.errors);
        let ghost before = results@;
        record_area_outcome(&mut results, &mut errors, op, duration_ms, error);
        proof {
            assert forall|i: int| 0 <= i < results@.len() implies (
            #[trigger] results@[i]).name@ == op_display_text(self.operations@[i]) by {
                if i < before.len() {
                    assert(results@[i] == results@.drop_last()[i]);
                }
            }
        }
        self.errors = errors;
        self.results = results;
    }

    /// The recorded outcomes and errors, once every operation has its outcome:
    /// one result per planned operation, in the plan's order.
    pub fn finish(self) -> (r: (Vec<OptimizeAreaResult>, Vec<String>))
        requires
            self.results().len() == self.ops().len(),
        ensures
            r.0@ == self.results(),
            r.1@ == self.errors(),
            results_follow_plan(self.ops(), r.0@),
    {
        proof {
            use_type_invariant(&self);
        }
        let RunLog { operations: _, results, errors } = self;
        (results, errors)
    }
}

/// How long one memory operation may run before the run stops waiting for
/// it, in seconds.
pub const OPERATION_TIMEOUT_SECS: u64 = 30;

/// The error recorded for an operation that did not finish in time.
pub fn operation_timeout_error() -> (r: String)
    ensures
        r@ == "Operation timed out after 30s"@,
{
    copy_str("Operation timed out after 30s")
}

/// The error recorded for an operation whose worker ended without an answer.
pub fn operation_lost_error() -> (r: String)
    ensures
        r@ == "Operation thread disconnected"@,
{
    copy_str("Operation thread disconnected")
}

/// One mebibyte.
pub open spec fn mib() -> int {
    1048576int
}

/// The largest free-memory reading taken at face value (8 EiB); larger
/// readings are clamped before differences are taken.
pub open spec fn max_safe_bytes() -> u64 {
    0x8000_0000_0000_0000u64
}

/// `a - b` saturated into the range of `i64`.
pub open spec fn sat_sub_i64(a: int, b: int) -> i64 {
    if a - b > i64::MAX {
        i64::MAX
    } else if a - b < i64::MIN {
        i64::MIN
    } else {
        (a - b) as i64
    }
}

/// Memory freed between two readings of free memory, in bytes: each reading
/// clamped to 8 EiB, the difference saturated to `i64`.
pub open spec fn spec_freed_bytes(after_free: u64, before_free: u64) -> i64 {
    sat_sub_i64(
        (if after_free > max_safe_bytes() { max_safe_bytes() } else { after_free }) as i64 as int,
        (if before_free > max_safe_bytes() { max_safe_bytes() } else { before_free }) as i64 as int,
    )
}

/// `a - b` saturated into the range of `i64` (as `i64::saturating_sub`).
pub fn saturating_sub_i64(a: i64, b: i64) -> (r: i64)
    ensures
        r == sat_sub_i64(a as int, b as int),
{
    let d: i128 = a as i128 - b as i128;
    if d > i64::MAX as i128 {
        i64::MAX
    } else if d < i64::MIN as i128 {
        i64::MIN
    } else {
        d as i64
    }
}

/// Memory freed between two readings of free memory (see `spec_freed_bytes`).
pub fn freed_bytes(after_free: u64, before_free: u64) -> (r: i64)
    ensures
        r == spec_freed_bytes(after_free, before_free),
{
    let cap: u64 = 0x8000_0000_0000_0000u64;
    let a: u64 = if after_free > cap { cap } else { after_free };
    let b: u64 = if before_free > cap { cap } else { before_free };
    saturating_sub_i64(a as i64, b as i64)
}

/// The measurement after an optimization is final once at least 1 MiB
/// changed (in the plain saturated difference) or three retries were made.
pub open spec fn spec_measurement_settled(after_free: u64, before_free: u64, retries: u32) -> bool {
    let d = sat_sub_i64(after_free as i64 as int, before_free as i64 as int);
    (if d < 0 { -d } else { d as int }) >= mib() || retries >= 3
}

/// Whether the memory reading after an optimization can be kept.
pub fn measurement_settled(after_free: u64, before_free: u64, retries: u32) -> (r: bool)
    requires
        sat_sub_i64(after_free as i64 as int, before_free as i64 as int) != i64::MIN,
    ensures
        r == spec_measurement_settled(after_free, before_free, retries),
{
    let d = saturating_sub_i64(after_free as i64, before_free as i64);
    let big = if d < 0 {
        d < -1048575
    } else {
        d >= 1048576
    };
    big || retries >= 3
}

/// Some area was cleaned without error.
pub open spec fn any_area_ok(results: Seq<OptimizeAreaResult>) -> bool {
    exists|i: int| 0 <= i < results.len() && (#[trigger] results[i]).error is None
}

/// Whether some area was cleaned without error.
pub fn has_successful_area(results: &Vec<OptimizeAreaResult>) -> (r: bool)
    ensures
        r == any_area_ok(results@),
{
    let mut i: usize = 0;
    while i < results.len()
        invariant
            i <= results.len(),
            forall|k: int| 0 <= k < i ==> (#[trigger] results@[k]).error is Some,
        decreases results.len() - i,
    {
        if results[i].error.is_none() {
            return true;
        }
        i = i + 1;
    }
    false
}

/// A run is written to the event log when it freed more than 1 MiB or
/// cleaned some area without error.
pub open spec fn spec_should_log_run(freed_phys: i64, results: Seq<OptimizeAreaResult>) -> bool {
    (if freed_phys < 0 { -freed_phys } else { freed_phys as int }) > mib() || any_area_ok(results)
}

/// Whether a run is written to the event log.
pub fn should_log_run(freed_phys: i64, results: &Vec<OptimizeAreaResult>) -> (r: bool)
    requires
        freed_phys != i64::MIN,
    ensures
        r == spec_should_log_run(freed_phys, results@),
{
    let big = if freed_phys < 0 {
        freed_phys < -1048576
    } else {
        freed_phys > 1048576
    };
    big || has_successful_area(results)
}

/// The mode written to the event log for a reason.
pub open spec fn run_mode_text(reason: Reason) -> Seq<char> {
    match reason {
        Reason::Manual => "Manual"@,
        Reason::Schedule => "Scheduled"@,
        Reason::LowMemory => "Low Memory Auto"@,
        Reason::Hotkey => "Hotkey"@,
    }
}

/// The mode written to the event log for a reason.
pub fn run_mode(reason: Reason) -> (r: &'static str)
    ensures
        r@ == run_mode_text(reason),
{
    match reason {
        Reason::Manual => "Manual",
        Reason::Schedule => "Scheduled",
        Reason::LowMemory => "Low Memory Auto",
        Reason::Hotkey => "Hotkey",
    }
}

/// The result of a run from the readings before and after it.
pub fn finish_optimization(
    reason: Reason,
    duration_ms: u128,
    before_physical_free: u64,
    after_physical_free: u64,
    before_commit_free: u64,
    after_commit_free: u64,
    areas: Vec<OptimizeAreaResult>,
) -> (r: OptimizeResult)
    ensures
        r.reason == reason,
        r.duration_ms == duration_ms,
        r.freed_physical_bytes == spec_freed_bytes(after_physical_free, before_physical_free),
        r.freed_commit_bytes == spec_freed_bytes(after_commit_free, before_commit_free),
        r.areas == areas,
{
    OptimizeResult {
        reason,
        duration_ms,
        freed_physical_bytes: freed_bytes(after_physical_free, before_physical_free),
        freed_commit_bytes: freed_bytes(after_commit_free, before_commit_free),
        areas,
    }
}

} // verus!
