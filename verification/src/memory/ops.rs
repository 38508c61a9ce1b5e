//! Decisions of the memory operations: which processes have their working
//! set emptied, how system calls are retried, how process names are listed,
//! and which volume controls are sent.
use vstd::prelude::*;
use rand::Rng;
use crate::memory::critical_processes::{is_critical_process, spec_is_critical};
use crate::text::{
    chars_of, copy_str, insert_sorted, string_views, strictly_sorted, spec_replace, spec_str_to_lowercase, str_eq, str_to_lowercase,
    replace_chars, string_of,
};

verus! {

// ========== PACING ==========

/// `rand::thread_rng().gen_range(lo..hi)`: a random number from `lo` up to,
/// not including, `hi` (rand documents that `gen_range` samples the range and
/// panics only on an empty one, which `lo < hi` rules out). Nothing else is
/// stated of the value.
#[verifier::external_body]
fn random_in_range(lo: u64, hi: u64) -> (r: u64)
    requires
        lo < hi,
    ensures
        lo <= r < hi,
{
    rand::thread_rng().gen_range(lo..hi)
}

/// The shortest pause before a memory operation, in milliseconds.
pub const PAUSE_MIN_MS: u64 = 10;
/// The bound the pause stays under, in milliseconds.
pub const PAUSE_BOUND_MS: u64 = 100;

/// The pause taken before a memory operation, so that operations do not
/// follow a fixed rhythm: between 10 and 99 milliseconds, chosen at random.
pub fn operation_pause_ms() -> (r: u64)
    ensures
        PAUSE_MIN_MS <= r < PAUSE_BOUND_MS,
{
    random_in_range(PAUSE_MIN_MS, PAUSE_BOUND_MS)
}

// ========== WORKING SETS ==========

/// A process entry as listed: its id and its name in lower case, with
/// `.exe` removed wherever it occurs.
pub open spec fn listed_name(raw: Seq<char>) -> Seq<char> {
    spec_replace(spec_str_to_lowercase(raw), ".exe"@, seq![])
}

/// The listed name of a process (see `listed_name`).
pub fn process_entry_name(raw: &str) -> (r: String)
    ensures
        r@ == listed_name(raw@),
{
    let lower = chars_of(str_to_lowercase(raw).as_str());
    let pat = chars_of(".exe");
    proof {
        reveal_strlit(".exe");
    }
    let empty: Vec<char> = Vec::new();
    string_of(&replace_chars(&lower, &pat, &empty))
}

/// A process keeps its working set: it is in the foreground, it is critical,
/// or the user excluded its name.
pub open spec fn spared(pid: u32, name: Seq<char>, foreground: Option<u32>, excluded: Seq<Seq<char>>) -> bool {
    foreground == Some(pid) || spec_is_critical(name) || excluded.contains(name)
}

/// The processes whose working set is emptied, in listing order.
pub open spec fn trim_targets(procs: Seq<(u32, Seq<char>)>, foreground: Option<u32>, excluded: Seq<Seq<char>>) -> Seq<u32>
    decreases procs.len(),
{
    if procs.len() == 0 {
        seq![]
    } else {
        let prev = trim_targets(procs.drop_last(), foreground, excluded);
        let (pid, name) = procs.last();
        if spared(pid, name, foreground, excluded) {
            prev
        } else {
            prev.push(pid)
        }
    }
}

/// The views of a process list.
pub open spec fn process_views(v: Seq<(u32, String)>) -> Seq<(u32, Seq<char>)> {
    v.map_values(|p: (u32, String)| (p.0, p.1@))
}

fn is_excluded(name: &str, exclusions_lower: &Vec<String>) -> (r: bool)
    ensures
        r == string_views(exclusions_lower@).contains(name@),
{
    let ghost views = string_views(exclusions_lower@);
    let mut i: usize = 0;
    while i < exclusions_lower.len()
        invariant
            i <= exclusions_lower.len(),
            views == string_views(exclusions_lower@),
            forall|k: int| 0 <= k < i ==> views[k] != name@,
        decreases exclusions_lower.len() - i,
    {
        if str_eq(exclusions_lower[i].as_str(), name) {
            proof {
                assert(views[i as int] == name@);
            }
            return true;
        }
        i = i + 1;
    }
    false
}

/// The processes whose working set is emptied one by one (see `trim_targets`).
pub fn working_set_targets(
    processes: &Vec<(u32, String)>,
    foreground: Option<u32>,
    exclusions_lower: &Vec<String>,
) -> (r: Vec<u32>)
    ensures
        r@ == trim_targets(process_views(processes@), foreground, string_views(exclusions_lower@)),
{
    let ghost procs = process_views(processes@);
    let mut r: Vec<u32> = Vec::new();
    let mut i: usize = 0;
    while i < processes.len()
        invariant
            i <= processes.len(),
            procs == process_views(processes@),
            r@ == trim_targets(procs.take(i as int), foreground, string_views(exclusions_lower@)),
        decreases processes.len() - i,
    {
        proof {
            assert(procs.take(i + 1).drop_last() =~= procs.take(i as int));
            assert(procs.take(i + 1).last() == (processes@[i as int].0, processes@[i as int].1@));
        }
        let pid = processes[i].0;
        let name = processes[i].1.as_str();
        let skip = match foreground {
            Some(f) => f == pid,
            None => false,
        } || is_critical_process(name) || is_excluded(name, exclusions_lower);
        if !skip {
            r.push(pid);
        }
        i = i + 1;
    }
    proof {
        assert(procs.take(processes.len() as int) =~= procs);
    }
    r
}

/// No spared process is a target.
pub proof fn lemma_targets_not_spared(procs: Seq<(u32, Seq<char>)>, foreground: Option<u32>, excluded: Seq<Seq<char>>)
    ensures
        forall|k: int|
            0 <= k < trim_targets(procs, foreground, excluded).len() ==> exists|j: int|
                0 <= j < procs.len() && procs[j].0 == #[trigger] trim_targets(procs, foreground, excluded)[k]
                    && !spared(procs[j].0, procs[j].1, foreground, excluded),
    decreases procs.len(),
{
    if procs.len() > 0 {
        let prev = procs.drop_last();
        lemma_targets_not_spared(prev, foreground, excluded);
        let t = trim_targets(procs, foreground, excluded);
        let tp = trim_targets(prev, foreground, excluded);
        assert forall|k: int| 0 <= k < t.len() implies exists|j: int|
            0 <= j < procs.len() && procs[j].0 == #[trigger] t[k] && !spared(procs[j].0, procs[j].1, foreground, excluded) by {
            if k < tp.len() {
                assert(t[k] == tp[k]);
                let j = choose|j: int| 0 <= j < prev.len() && prev[j].0 == tp[k] && !spared(prev[j].0, prev[j].1, foreground, excluded);
                assert(procs[j] == prev[j]);
            } else {
                assert(procs[procs.len() - 1] == procs.last());
            }
        }
    }
}

// ========== SYSTEM CALL RETRIES ==========

/// The status of a refused call (0xC0000001).
pub open spec fn status_unsuccessful() -> i32 {
    -1073741823i32
}

/// The status of a denied call (0xC0000022).
pub open spec fn status_access_denied() -> i32 {
    -1073741790i32
}

/// What to do after a memory-list system call.
#[derive(Clone, Copy, Debug, PartialEq, Eq, Structural)]
pub enum CallOutcome {
    Done,
    RetryAfterMs(u64),
    Failed,
}

/// After attempt `attempt` (from 1) returned `status`: success for a
/// non-negative status; a retry after `100 * attempt` ms for a refused or
/// denied call before the third attempt; failure otherwise.
pub open spec fn spec_call_outcome(status: i32, attempt: u32) -> CallOutcome {
    if status >= 0 {
        CallOutcome::Done
    } else if (status == status_unsuccessful() || status == status_access_denied()) && attempt < 3 {
        CallOutcome::RetryAfterMs((100 * attempt) as u64)
    } else {
        CallOutcome::Failed
    }
}

/// Decides what follows a memory-list system call (see `spec_call_outcome`).
pub fn nt_call_outcome(status: i32, attempt: u32) -> (r: CallOutcome)
    requires
        attempt <= 3,
    ensures
        r == spec_call_outcome(status, attempt),
{
    if status >= 0 {
        CallOutcome::Done
    } else if (status == -1073741823 || status == -1073741790) && attempt < 3 {
        CallOutcome::RetryAfterMs(100 * attempt as u64)
    } else {
        CallOutcome::Failed
    }
}

// ========== PROCESS NAMES ==========

/// The names of the listed processes, sorted, each once.
pub fn list_process_names(processes: &Vec<(u32, String)>) -> (r: Vec<String>)
    ensures
        strictly_sorted(string_views(r@)),
        string_views(r@).to_set() == process_views(processes@).map_values(|p: (u32, Seq<char>)| p.1).to_set(),
{
    let ghost names = process_views(processes@).map_values(|p: (u32, Seq<char>)| p.1);
    let mut r: Vec<String> = Vec::new();
    let mut i: usize = 0;
    proof {
        assert(string_views(r@).to_set() =~= names.take(0).to_set());
    }
    while i < processes.len()
        invariant
            i <= processes.len(),
            names == process_views(processes@).map_values(|p: (u32, Seq<char>)| p.1),
            strictly_sorted(string_views(r@)),
            string_views(r@).to_set() == names.take(i as int).to_set(),
        decreases processes.len() - i,
    {
        insert_sorted(&mut r, copy_str(processes[i].1.as_str()));
        proof {
            assert(names[i as int] == processes@[i as int].1@);
            assert(names.take(i + 1) =~= names.take(i as int).push(names[i as int]));
            names.take(i as int).lemma_push_to_set_commute(names[i as int]);
        }
        i = i + 1;
    }
    proof {
        assert(names.take(processes.len() as int) =~= names);
    }
    r
}

// ========== VOLUMES ==========

/// The drive letters whose bits are set in a logical-drive mask (bit 0 is A).
pub open spec fn mask_letters(mask: u32, n: nat) -> Seq<char>
    decreases n,
{
    if n == 0 {
        seq![]
    } else {
        let prev = mask_letters(mask, (n - 1) as nat);
        if (mask >> ((n - 1) as u32)) & 1 == 1 {
            prev.push(((65 + n - 1) as u32) as char)
        } else {
            prev
        }
    }
}

/// The drive letters present in a logical-drive mask, from A to Z.
pub fn drive_letters(mask: u32) -> (r: Vec<char>)
    ensures
        r@ == mask_letters(mask, 26),
{
    let mut r: Vec<char> = Vec::new();
    let mut i: u32 = 0;
    while i < 26
        invariant
            i <= 26,
            r@ == mask_letters(mask, i as nat),
        decreases 26 - i,
    {
        if (mask >> i) & 1 == 1 {
            let c = ((65 + i) as u8) as char;
            r.push(c);
        }
        i = i + 1;
    }
    r
}

/// Volume control codes.
pub open spec fn fsctl_lock_volume() -> u32 {
    0x0009_0018
}

/// Volume control codes.
pub open spec fn fsctl_unlock_volume() -> u32 {
    0x0009_001C
}

/// Volume control codes.
pub open spec fn fsctl_reset_write_order() -> u32 {
    0x0009_00F8
}

/// Volume control codes.
pub open spec fn fsctl_discard_volume_cache() -> u32 {
    0x0009_0054
}

/// The controls sent to an opened volume after the lock attempt: unlock when
/// the lock held; then, from Windows 8 on, reset the write order and discard
/// the cache. Nothing is sent without the privilege or write access.
pub open spec fn spec_volume_controls(privileged: bool, access: u32, lock_ok: bool, win8: bool) -> Seq<u32> {
    if privileged && access != 0 {
        (if lock_ok { seq![fsctl_unlock_volume()] } else { seq![] }) + (if win8 {
            seq![fsctl_reset_write_order(), fsctl_discard_volume_cache()]
        } else {
            seq![]
        })
    } else {
        seq![]
    }
}

/// Whether the lock control is tried on an opened volume.
pub fn tries_lock(privileged: bool, access: u32) -> (r: bool)
    ensures
        r == (privileged && access != 0),
{
    privileged && access != 0
}

/// The controls that follow the lock attempt (see `spec_volume_controls`).
pub fn volume_controls(privileged: bool, access: u32, lock_ok: bool, win8: bool) -> (r: Vec<u32>)
    ensures
        r@ == spec_volume_controls(privileged, access, lock_ok, win8),
{
    let mut r: Vec<u32> = Vec::new();
    if privileged && access != 0 {
        if lock_ok {
            r.push(0x0009_001C);
        }
        if win8 {
            r.push(0x0009_00F8);
            r.push(0x0009_0054);
        }
    }
    proof {
        assert(r@ =~= spec_volume_controls(privileged, access, lock_ok, win8));
    }
    r
}

/// A control error that only means "not supported here": not supported
/// (50), invalid function (1) or invalid parameter (87).
pub fn is_unsupported_control_error(err: u32) -> (r: bool)
    ensures
        r == (err == 50 || err == 1 || err == 87),
{
    err == 50 || err == 1 || err == 87
}

/// The device path of a volume, such as `\\.\C:`.
pub fn volume_path(letter: char) -> (r: String)
    ensures
        r@ == "\\\\.\\"@ + seq![letter, ':'],
{
    let mut r = copy_str("\\\\.\\");
    crate::text::push_char(&mut r, letter);
    crate::text::push_char(&mut r, ':');
    proof {
        assert(r@ =~= "\\\\.\\"@ + seq![letter, ':']);
    }
    r
}

} // verus!
