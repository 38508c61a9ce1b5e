//! Configuration: optimization profiles, tray appearance, the main settings
//! record and the rules that validate and update it.
use vstd::prelude::*;
use crate::memory::types::{
    Areas, MODIFIED_FILE_CACHE_BIT, REGISTRY_CACHE_BIT, STANDBY_LIST_BIT, STANDBY_LIST_LOW_BIT,
    SYSTEM_FILE_CACHE_BIT, WORKING_SET_BIT, MODIFIED_PAGE_LIST_BIT, COMBINED_PAGE_LIST_BIT,
};
use crate::security::{hex_color_body, hex_color_body_of, spec_is_valid_hex_color};
use crate::text::{
    all_hexdigits, are_all_hexdigits, ascii_upper, chars_of, copy_str, push_char,
    spec_ascii_upper, spec_ascii_upper_seq, spec_str_to_uppercase, spec_trim, str_to_uppercase,
    string_of, trim_str, trim_start_by, trim_end_by, ws, is_char,
};
use crate::os::{
    has_combined_page_list, has_modified_file_cache, has_standby_list_low, spec_is_1803_or_later,
    spec_is_win10_or_later, OsVersion,
};

pub mod app_info;
pub mod settings;
pub mod tray;

pub use settings::Config;
pub use tray::TrayConfig;

verus! {

// ========== ENUMS ==========

/// Scheduling priority of the process.
#[derive(Clone, Copy, Debug, PartialEq, Eq, Structural)]
pub enum Priority {
    Low,
    Normal,
    High,
}

impl Default for Priority {
    fn default() -> (r: Priority)
        ensures
            r == Priority::High,
    {
        Priority::High
    }
}

/// An optimization profile.
#[derive(Clone, Copy, Debug, PartialEq, Eq, Structural)]
pub enum Profile {
    Normal,
    Balanced,
    Gaming,
}

impl Default for Profile {
    fn default() -> (r: Profile)
        ensures
            r == Profile::Balanced,
    {
        Profile::Balanced
    }
}

/// `bit` when `cond` holds, else no bit.
pub open spec fn bit_if(cond: bool, bit: u32) -> u32 {
    if cond { bit } else { 0 }
}

/// The areas a profile cleans on a given Windows version.
///
/// - Normal: working set, registry cache, and (Windows 10+) the low-priority standby list.
/// - Balanced: Normal plus system file cache, standby list, and (1803+) the modified file cache.
/// - Gaming: Balanced plus modified page list and (1803+) the combined page list.
pub open spec fn profile_areas(p: Profile, v: OsVersion) -> u32 {
    match p {
        Profile::Normal => WORKING_SET_BIT | REGISTRY_CACHE_BIT | bit_if(
            spec_is_win10_or_later(v),
            STANDBY_LIST_LOW_BIT,
        ),
        Profile::Balanced => WORKING_SET_BIT | REGISTRY_CACHE_BIT | SYSTEM_FILE_CACHE_BIT
            | STANDBY_LIST_BIT | bit_if(spec_is_win10_or_later(v), STANDBY_LIST_LOW_BIT) | bit_if(
            spec_is_1803_or_later(v),
            MODIFIED_FILE_CACHE_BIT,
        ),
        Profile::Gaming => WORKING_SET_BIT | REGISTRY_CACHE_BIT | SYSTEM_FILE_CACHE_BIT
            | STANDBY_LIST_BIT | MODIFIED_PAGE_LIST_BIT | bit_if(
            spec_is_win10_or_later(v),
            STANDBY_LIST_LOW_BIT,
        ) | bit_if(spec_is_1803_or_later(v), COMBINED_PAGE_LIST_BIT) | bit_if(
            spec_is_1803_or_later(v),
            MODIFIED_FILE_CACHE_BIT,
        ),
    }
}

/// The priority a profile suggests.
pub open spec fn profile_priority(p: Profile) -> Priority {
    match p {
        Profile::Normal => Priority::Low,
        Profile::Balanced => Priority::Normal,
        Profile::Gaming => Priority::High,
    }
}

impl Profile {
    /// The memory areas this profile cleans on the given Windows version.
    pub fn get_memory_areas(&self, os: &OsVersion) -> (r: Areas)
        ensures
            r.bits == profile_areas(*self, *os),
    {
        match self {
            Profile::Normal => {
                let mut areas = Areas::working_set().union(Areas::registry_cache());
                if has_standby_list_low(os) {
                    areas.insert(Areas::standby_list_low());
                }
                proof {
                    assert((WORKING_SET_BIT | REGISTRY_CACHE_BIT) | 0 == WORKING_SET_BIT
                        | REGISTRY_CACHE_BIT) by (bit_vector);
                }
                areas
            },
            Profile::Balanced => {
                let mut areas = Areas::working_set().union(Areas::registry_cache());
                areas.insert(Areas::system_file_cache());
                areas.insert(Areas::standby_list());
                let low = has_standby_list_low(os);
                if low {
                    areas.insert(Areas::standby_list_low());
                }
                let mfc = has_modified_file_cache(os);
                if mfc {
                    areas.insert(Areas::modified_file_cache());
                }
                proof {
                    let b = WORKING_SET_BIT | REGISTRY_CACHE_BIT | SYSTEM_FILE_CACHE_BIT
                        | STANDBY_LIST_BIT;
                    assert(b | 0 == b) by (bit_vector);
                    assert(forall|x: u32| #[trigger] (x | 0u32) == x) by (bit_vector);
                }
                areas
            },
            Profile::Gaming => {
                let mut areas = Areas::working_set().union(Areas::registry_cache());
                areas.insert(Areas::system_file_cache());
                areas.insert(Areas::standby_list());
                areas.insert(Areas::modified_page_list());
                if has_standby_list_low(os) {
                    areas.insert(Areas::standby_list_low());
                }
                if has_combined_page_list(os) {
                    areas.insert(Areas::combined_page_list());
                }
                if has_modified_file_cache(os) {
                    areas.insert(Areas::modified_file_cache());
                }
                proof {
                    assert(forall|x: u32| #[trigger] (x | 0u32) == x) by (bit_vector);
                }
                areas
            },
        }
    }

    /// The priority this profile suggests.
    pub fn get_priority(&self) -> (r: Priority)
        ensures
            r == profile_priority(*self),
    {
        match self {
            Profile::Normal => Priority::Low,
            Profile::Balanced => Priority::Normal,
            Profile::Gaming => Priority::High,
        }
    }
}

/// Each profile cleans at least the areas of the gentler one, on every
/// Windows version: Normal within Balanced, Balanced within Gaming.
pub proof fn lemma_profiles_nested(os: OsVersion)
    ensures
        profile_areas(Profile::Normal, os) & profile_areas(Profile::Balanced, os) == profile_areas(
            Profile::Normal,
            os,
        ),
        profile_areas(Profile::Balanced, os) & profile_areas(Profile::Gaming, os) == profile_areas(
            Profile::Balanced,
            os,
        ),
{
    let w = spec_is_win10_or_later(os);
    let r = spec_is_1803_or_later(os);
    let n = profile_areas(Profile::Normal, os);
    let b = profile_areas(Profile::Balanced, os);
    let g = profile_areas(Profile::Gaming, os);
    assert(n & b == n && b & g == b) by (bit_vector)
        requires
            n == 128u32 | 8u32 | (if w { 32u32 } else { 0u32 }),
            b == 128u32 | 8u32 | 64u32 | 16u32 | (if w { 32u32 } else { 0u32 }) | (if r {
                2u32
            } else {
                0u32
            }),
            g == 128u32 | 8u32 | 64u32 | 16u32 | 4u32 | (if w { 32u32 } else { 0u32 }) | (if r {
                1u32
            } else {
                0u32
            }) | (if r { 2u32 } else { 0u32 }),
    ;
}

// ========== HEX COLORS ==========

/// `#` followed by the upper-cased six hex digits of a valid color, else `default`.
pub open spec fn spec_normalize_hex(color: Seq<char>, default: Seq<char>) -> Seq<char> {
    if spec_is_valid_hex_color(color) {
        seq!['#'] + spec_ascii_upper_seq(hex_color_body(color))
    } else {
        default
    }
}

/// `#` followed by the upper-cased hex digits (the digits are ASCII, where
/// upper-casing is the ASCII mapping).
fn hash_upper(body: &Vec<char>) -> (r: String)
    requires
        all_hexdigits(body@),
    ensures
        r@ == seq!['#'] + spec_ascii_upper_seq(body@),
{
    let mut r = String::new();
    push_char(&mut r, '#');
    let mut i: usize = 0;
    while i < body.len()
        invariant
            i <= body.len(),
            r@ == seq!['#'] + spec_ascii_upper_seq(body@.take(i as int)),
        decreases body.len() - i,
    {
        let c = ascii_upper(body[i]);
        proof {
            assert(seq!['#'] + spec_ascii_upper_seq(body@.take(i + 1)) =~= (seq!['#']
                + spec_ascii_upper_seq(body@.take(i as int))).push(spec_ascii_upper(body@[i as int])));
        }
        push_char(&mut r, c);
        i = i + 1;
    }
    proof {
        assert(body@.take(body.len() as int) =~= body@);
    }
    r
}

/// Normalizes a hex color to `#RRGGBB` in upper case, or gives `default`
/// when the text is not a hex color.
pub fn normalize_hex_color(color: &str, default: &str) -> (r: String)
    ensures
        r@ == spec_normalize_hex(color@, default@),
{
    let clean = hex_color_body_of(color);
    if clean.len() == 6 && are_all_hexdigits(&clean) {
        hash_upper(&clean)
    } else {
        copy_str(default)
    }
}

/// Upper-cased ASCII hex digits are still hex digits.
pub proof fn lemma_upper_hex(s: Seq<char>)
    requires
        all_hexdigits(s),
    ensures
        all_hexdigits(spec_ascii_upper_seq(s)),
        spec_ascii_upper_seq(s).len() == s.len(),
{
    assert forall|i: int| 0 <= i < spec_ascii_upper_seq(s).len() implies crate::text::spec_is_ascii_hexdigit(
        #[trigger] spec_ascii_upper_seq(s)[i],
    ) by {
        let c = s[i];
        assert(crate::text::spec_is_ascii_hexdigit(c));
        if 'a' <= c && c <= 'z' {
            assert(spec_ascii_upper(c) == ((c as u32) - 32) as char);
        }
    }
}

/// `#RRGGBB` with upper-case hex digits.
pub open spec fn is_upper_hex_color(s: Seq<char>) -> bool {
    &&& s.len() == 7
    &&& s[0] == '#'
    &&& forall|i: int| 1 <= i < 7 ==> ('0' <= #[trigger] s[i] <= '9' || 'A' <= s[i] <= 'F')
}

/// A normalized color is the default or `#RRGGBB` in upper case.
pub proof fn lemma_normalize_hex_upper(color: Seq<char>, default: Seq<char>)
    ensures
        spec_normalize_hex(color, default) == default || is_upper_hex_color(
            spec_normalize_hex(color, default),
        ),
{
    if spec_is_valid_hex_color(color) {
        let body = hex_color_body(color);
        let r = spec_normalize_hex(color, default);
        assert forall|i: int| 1 <= i < 7 implies ('0' <= #[trigger] r[i] <= '9' || 'A' <= r[i]
            <= 'F') by {
            let c = body[i - 1];
            assert(crate::text::spec_is_ascii_hexdigit(c));
            assert(r[i] == spec_ascii_upper(c));
            if 'a' <= c && c <= 'z' {
                assert(spec_ascii_upper(c) == ((c as u32) - 32) as char);
            }
        }
    }
}

/// A normalized color (with a valid default) is a valid hex color.
pub proof fn lemma_normalize_hex_valid(color: Seq<char>, default: Seq<char>)
    requires
        spec_is_valid_hex_color(default),
    ensures
        spec_is_valid_hex_color(spec_normalize_hex(color, default)),
{
    if spec_is_valid_hex_color(color) {
        let body = hex_color_body(color);
        lemma_upper_hex(body);
        lemma_hash_prefixed_valid(spec_ascii_upper_seq(body));
    }
}

/// `#` followed by six hex digits is a valid hex color.
pub proof fn lemma_hash_prefixed_valid(digits: Seq<char>)
    requires
        digits.len() == 6,
        all_hexdigits(digits),
    ensures
        spec_is_valid_hex_color(seq!['#'] + digits),
{
    let s = seq!['#'] + digits;
    assert(crate::text::spec_is_ascii_hexdigit(digits[0]));
    assert(crate::text::spec_is_ascii_hexdigit(digits[5]));
    assert(trim_start_by(s, ws()) == s);
    assert(s.last() == digits[5]);
    assert(trim_end_by(s, ws()) == s);
    assert(s.drop_first() =~= digits);
    assert(trim_start_by(digits, is_char('#')) == digits);
}

} // verus!
