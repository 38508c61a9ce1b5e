//! Memory areas written as text: flag names joined by `|`, such as
//! `WORKING_SET | STANDBY_LIST`.
use vstd::prelude::*;
use crate::memory::types::{
    Areas, COMBINED_PAGE_LIST_BIT, MODIFIED_FILE_CACHE_BIT, MODIFIED_PAGE_LIST_BIT,
    REGISTRY_CACHE_BIT, STANDBY_LIST_BIT, STANDBY_LIST_LOW_BIT, SYSTEM_FILE_CACHE_BIT,
    WORKING_SET_BIT,
};
use crate::text::{chars_eq, chars_of, spec_trim, trim_chars};

verus! {

/// The bit a flag name stands for; unknown names (and the empty name) stand
/// for no bit.
pub open spec fn flag_bit(name: Seq<char>) -> u32 {
    if name == "COMBINED_PAGE_LIST"@ {
        COMBINED_PAGE_LIST_BIT
    } else if name == "MODIFIED_FILE_CACHE"@ {
        MODIFIED_FILE_CACHE_BIT
    } else if name == "MODIFIED_PAGE_LIST"@ {
        MODIFIED_PAGE_LIST_BIT
    } else if name == "REGISTRY_CACHE"@ {
        REGISTRY_CACHE_BIT
    } else if name == "STANDBY_LIST"@ {
        STANDBY_LIST_BIT
    } else if name == "STANDBY_LIST_LOW"@ {
        STANDBY_LIST_LOW_BIT
    } else if name == "SYSTEM_FILE_CACHE"@ {
        SYSTEM_FILE_CACHE_BIT
    } else if name == "WORKING_SET"@ {
        WORKING_SET_BIT
    } else {
        0
    }
}

/// Reading `s` left to right: the bits of the names finished so far (each
/// ended by `|`) and the characters of the name being read.
pub open spec fn flag_scan(s: Seq<char>) -> (u32, Seq<char>)
    decreases s.len(),
{
    if s.len() == 0 {
        (0, seq![])
    } else {
        let (bits, cur) = flag_scan(s.drop_last());
        if s.last() == '|' {
            (bits | flag_bit(spec_trim(cur)), seq![])
        } else {
            (bits, cur.push(s.last()))
        }
    }
}

/// The areas named in `s`: the union of the bits of its `|`-separated,
/// trimmed pieces.
pub open spec fn parsed_area_bits(s: Seq<char>) -> u32 {
    flag_scan(s).0 | flag_bit(spec_trim(flag_scan(s).1))
}

fn flag_bit_of(name: &Vec<char>) -> (r: u32)
    ensures
        r == flag_bit(name@),
{
    let names: Vec<&str> = vec![
        "COMBINED_PAGE_LIST", "MODIFIED_FILE_CACHE", "MODIFIED_PAGE_LIST", "REGISTRY_CACHE",
        "STANDBY_LIST", "STANDBY_LIST_LOW", "SYSTEM_FILE_CACHE", "WORKING_SET",
    ];
    let bits: Vec<u32> = vec![
        COMBINED_PAGE_LIST_BIT, MODIFIED_FILE_CACHE_BIT, MODIFIED_PAGE_LIST_BIT,
        REGISTRY_CACHE_BIT, STANDBY_LIST_BIT, STANDBY_LIST_LOW_BIT, SYSTEM_FILE_CACHE_BIT,
        WORKING_SET_BIT,
    ];
    let ghost views = names@.map_values(|x: &str| x@);
    proof {
        assert(views =~= seq![
            "COMBINED_PAGE_LIST"@, "MODIFIED_FILE_CACHE"@, "MODIFIED_PAGE_LIST"@,
            "REGISTRY_CACHE"@, "STANDBY_LIST"@, "STANDBY_LIST_LOW"@, "SYSTEM_FILE_CACHE"@,
            "WORKING_SET"@,
        ]);
    }
    let mut i: usize = 0;
    while i < 8
        invariant
            i <= 8,
            names@.len() == 8,
            bits@ == seq![
                COMBINED_PAGE_LIST_BIT, MODIFIED_FILE_CACHE_BIT, MODIFIED_PAGE_LIST_BIT,
                REGISTRY_CACHE_BIT, STANDBY_LIST_BIT, STANDBY_LIST_LOW_BIT, SYSTEM_FILE_CACHE_BIT,
                WORKING_SET_BIT,
            ],
            views == names@.map_values(|x: &str| x@),
            views == seq![
                "COMBINED_PAGE_LIST"@, "MODIFIED_FILE_CACHE"@, "MODIFIED_PAGE_LIST"@,
                "REGISTRY_CACHE"@, "STANDBY_LIST"@, "STANDBY_LIST_LOW"@, "SYSTEM_FILE_CACHE"@,
                "WORKING_SET"@,
            ],
            forall|k: int| 0 <= k < i ==> views[k] != name@,
        decreases 8 - i,
    {
        let candidate = chars_of(names[i]);
        proof {
            assert(candidate@ == views[i as int]);
        }
        if chars_eq(&candidate, name) {
            return bits[i];
        }
        i = i + 1;
    }
    0
}

/// The areas named in a `|`-separated list of flag names; unknown and empty
/// names are skipped.
pub fn parse_areas_string(areas_str: &str) -> (r: Areas)
    ensures
        r.bits == parsed_area_bits(areas_str@),
{
    let s = chars_of(areas_str);
    let mut bits: u32 = 0;
    let mut cur: Vec<char> = Vec::new();
    let mut i: usize = 0;
    while i < s.len()
        invariant
            i <= s.len(),
            s@ == areas_str@,
            (bits, cur@) == flag_scan(s@.take(i as int)),
        decreases s.len() - i,
    {
        proof {
            assert(s@.take(i + 1).drop_last() =~= s@.take(i as int));
            assert(s@.take(i + 1).last() == s@[i as int]);
        }
        if s[i] == '|' {
            let t = trim_chars(&cur);
            bits = bits | flag_bit_of(&t);
            cur = Vec::new();
        } else {
            cur.push(s[i]);
        }
        i = i + 1;
    }
    proof {
        assert(s@.take(s.len() as int) =~= s@);
    }
    let t = trim_chars(&cur);
    Areas { bits: bits | flag_bit_of(&t) }
}

proof fn lemma_flag_bit_known(name: Seq<char>)
    ensures
        flag_bit(name) & 255 == flag_bit(name),
{
    let b = flag_bit(name);
    assert(b & 255 == b) by (bit_vector)
        requires
            b == 0 || b == 1 || b == 2 || b == 4 || b == 8 || b == 16 || b == 32 || b == 64 || b == 128,
    ;
}

proof fn lemma_or_known(a: u32, b: u32)
    requires
        a & 255 == a,
        b & 255 == b,
    ensures
        (a | b) & 255 == a | b,
{
    assert((a | b) & 255 == a | b) by (bit_vector)
        requires
            a & 255 == a,
            b & 255 == b,
    ;
}

proof fn lemma_scan_known(s: Seq<char>)
    ensures
        flag_scan(s).0 & 255 == flag_scan(s).0,
    decreases s.len(),
{
    if s.len() == 0 {
        assert(0u32 & 255 == 0u32) by (bit_vector);
    } else {
        lemma_scan_known(s.drop_last());
        let (bits, cur) = flag_scan(s.drop_last());
        if s.last() == '|' {
            lemma_flag_bit_known(spec_trim(cur));
            lemma_or_known(bits, flag_bit(spec_trim(cur)));
        }
    }
}

/// Text names only known areas: whatever it holds, the areas read from it
/// are among the eight.
pub proof fn lemma_parsed_areas_known(s: Seq<char>)
    ensures
        parsed_area_bits(s) & 255 == parsed_area_bits(s),
{
    lemma_scan_known(s);
    lemma_flag_bit_known(spec_trim(flag_scan(s).1));
    lemma_or_known(flag_scan(s).0, flag_bit(spec_trim(flag_scan(s).1)));
}

} // verus!
