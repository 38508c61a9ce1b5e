//! The texts written to the Windows event log.
use vstd::prelude::*;
use crate::text::{append_str, copy_str, decimal_string, decimal_text, push_char, join_strs, seq_join};

verus! {

/// `n` in decimal, padded on the left with zeros to `width` digits.
pub open spec fn padded_text(n: nat, width: nat) -> Seq<char> {
    let d = decimal_text(n);
    if d.len() < width {
        Seq::new((width - d.len()) as nat, |i: int| '0') + d
    } else {
        d
    }
}

/// `n` in decimal, zero-padded to `width` digits (see `padded_text`).
pub fn padded_decimal(n: u64, width: usize) -> (r: String)
    ensures
        r@ == padded_text(n as nat, width as nat),
{
    let d = decimal_string(n);
    let len = d.as_str().unicode_len();
    let mut r = String::new();
    if len < width {
        let mut k: usize = 0;
        while k < width - len
            invariant
                k <= width - len,
                r@ == Seq::new(k as nat, |i: int| '0'),
            decreases width - len - k,
        {
            push_char(&mut r, '0');
            proof {
                assert(r@ =~= Seq::new((k + 1) as nat, |i: int| '0'));
            }
            k = k + 1;
        }
    }
    append_str(&mut r, d.as_str());
    proof {
        if len >= width {
            assert(r@ =~= d@);
        }
    }
    r
}

/// A local time as `YYYY-MM-DD hh:mm:ss`.
pub open spec fn timestamp_text(year: u16, month: u16, day: u16, hour: u16, minute: u16, second: u16) -> Seq<char> {
    padded_text(year as nat, 4) + "-"@ + padded_text(month as nat, 2) + "-"@ + padded_text(day as nat, 2)
        + " "@ + padded_text(hour as nat, 2) + ":"@ + padded_text(minute as nat, 2) + ":"@
        + padded_text(second as nat, 2)
}

/// Writes a local time (see `timestamp_text`).
pub fn format_timestamp(year: u16, month: u16, day: u16, hour: u16, minute: u16, second: u16) -> (r: String)
    ensures
        r@ == timestamp_text(year, month, day, hour, minute, second),
{
    let mut r = padded_decimal(year as u64, 4);
    append_str(&mut r, "-");
    append_str(&mut r, padded_decimal(month as u64, 2).as_str());
    append_str(&mut r, "-");
    append_str(&mut r, padded_decimal(day as u64, 2).as_str());
    append_str(&mut r, " ");
    append_str(&mut r, padded_decimal(hour as u64, 2).as_str());
    append_str(&mut r, ":");
    append_str(&mut r, padded_decimal(minute as u64, 2).as_str());
    append_str(&mut r, ":");
    append_str(&mut r, padded_decimal(second as u64, 2).as_str());
    r
}

/// The separator line of the event texts.
pub open spec fn rule_line() -> Seq<char> {
    "====================================="@
}

/// The record of an automatic optimization.
pub fn auto_optimization_message(reason: &str, threshold: u8, timestamp: &str) -> (r: String)
    ensures
        r@ == "Automatic Optimization Triggered\n"@ + rule_line() + "\nReason: "@ + reason@
            + "\nThreshold: "@ + decimal_text(threshold as nat) + "%\nTimestamp: "@ + timestamp@,
{
    let mut r = copy_str("Automatic Optimization Triggered\n=====================================\nReason: ");
    append_str(&mut r, reason);
    append_str(&mut r, "\nThreshold: ");
    append_str(&mut r, decimal_string(threshold as u64).as_str());
    append_str(&mut r, "%\nTimestamp: ");
    append_str(&mut r, timestamp);
    proof {
        reveal_strlit("Automatic Optimization Triggered\n=====================================\nReason: ");
        reveal_strlit("Automatic Optimization Triggered\n");
        reveal_strlit("=====================================");
        reveal_strlit("\nReason: ");
        assert(r@ =~= "Automatic Optimization Triggered\n"@ + rule_line() + "\nReason: "@ + reason@
            + "\nThreshold: "@ + decimal_text(threshold as nat) + "%\nTimestamp: "@ + timestamp@);
    }
    r
}

/// The record of an error.
pub fn error_message(error: &str, timestamp: &str) -> (r: String)
    ensures
        r@ == "Tommy Memory Cleaner Error\n"@ + rule_line() + "\nError: "@ + error@ + "\nTimestamp: "@
            + timestamp@,
{
    let mut r = copy_str("Tommy Memory Cleaner Error\n=====================================\nError: ");
    append_str(&mut r, error);
    append_str(&mut r, "\nTimestamp: ");
    append_str(&mut r, timestamp);
    proof {
        reveal_strlit("Tommy Memory Cleaner Error\n=====================================\nError: ");
        reveal_strlit("Tommy Memory Cleaner Error\n");
        reveal_strlit("=====================================");
        reveal_strlit("\nError: ");
        assert(r@ =~= "Tommy Memory Cleaner Error\n"@ + rule_line() + "\nError: "@ + error@ + "\nTimestamp: "@
            + timestamp@);
    }
    r
}

/// The record of the program's shutdown.
pub fn shutdown_message(process_id: u32, timestamp: &str) -> (r: String)
    ensures
        r@ == "Tommy Memory Cleaner Shutdown\n"@ + rule_line() + "\nProcess ID: "@ + decimal_text(
            process_id as nat,
        ) + "\nTimestamp: "@ + timestamp@,
{
    let mut r = copy_str("Tommy Memory Cleaner Shutdown\n=====================================\nProcess ID: ");
    append_str(&mut r, decimal_string(process_id as u64).as_str());
    append_str(&mut r, "\nTimestamp: ");
    append_str(&mut r, timestamp);
    proof {
        reveal_strlit("Tommy Memory Cleaner Shutdown\n=====================================\nProcess ID: ");
        reveal_strlit("Tommy Memory Cleaner Shutdown\n");
        reveal_strlit("=====================================");
        reveal_strlit("\nProcess ID: ");
        assert(r@ =~= "Tommy Memory Cleaner Shutdown\n"@ + rule_line() + "\nProcess ID: "@ + decimal_text(
            process_id as nat,
        ) + "\nTimestamp: "@ + timestamp@);
    }
    r
}

/// The event type of an optimization record: information when nothing
/// failed (4), warning otherwise (2).
pub fn optimization_event_type(error_count: usize) -> (r: u16)
    ensures
        r == (if error_count == 0 { 4u16 } else { 2u16 }),
{
    if error_count == 0 {
        4
    } else {
        2
    }
}

/// The record of an optimization; the freed amount is passed as text (two
/// decimals), and the failures are listed after the status.
pub open spec fn optimization_text(
    freed_mb: Seq<char>,
    profile: Seq<char>,
    mode: Seq<char>,
    areas: Seq<char>,
    duration_ms: u128,
    errors: Seq<Seq<char>>,
    timestamp: Seq<char>,
) -> Seq<char> {
    "Memory Optimization Completed\n"@ + rule_line() + "\nProfile: "@ + profile + "\nMode: "@ + mode
        + "\nMemory Freed: "@ + freed_mb + " MB\nDuration: "@ + decimal_text(duration_ms as nat)
        + " ms\nAreas Cleaned: "@ + areas + "\nStatus: "@ + (if errors.len() == 0 {
        "SUCCESS"@
    } else {
        "COMPLETED WITH WARNINGS"@
    }) + "\nTimestamp: "@ + timestamp + "\n"@ + (if errors.len() == 0 {
        seq![]
    } else {
        "\nWarnings:\n"@ + seq_join(errors, "\n"@)
    })
}

/// Writes the record of an optimization (see `optimization_text`).
pub fn optimization_message(
    freed_mb: &str,
    profile: &str,
    mode: &str,
    areas: &str,
    duration_ms: u128,
    errors: &Vec<&str>,
    timestamp: &str,
) -> (r: String)
    requires
        duration_ms <= u64::MAX,
    ensures
        r@ == optimization_text(
            freed_mb@,
            profile@,
            mode@,
            areas@,
            duration_ms,
            errors@.map_values(|e: &str| e@),
            timestamp@,
        ),
{
    let mut r = copy_str("Memory Optimization Completed\n=====================================\nProfile: ");
    append_str(&mut r, profile);
    append_str(&mut r, "\nMode: ");
    append_str(&mut r, mode);
    append_str(&mut r, "\nMemory Freed: ");
    append_str(&mut r, freed_mb);
    append_str(&mut r, " MB\nDuration: ");
    append_str(&mut r, decimal_string(duration_ms as u64).as_str());
    append_str(&mut r, " ms\nAreas Cleaned: ");
    append_str(&mut r, areas);
    append_str(&mut r, "\nStatus: ");
    if errors.len() == 0 {
        append_str(&mut r, "SUCCESS");
    } else {
        append_str(&mut r, "COMPLETED WITH WARNINGS");
    }
    append_str(&mut r, "\nTimestamp: ");
    append_str(&mut r, timestamp);
    append_str(&mut r, "\n");
    if errors.len() > 0 {
        append_str(&mut r, "\nWarnings:\n");
        append_str(&mut r, join_strs(errors, "\n").as_str());
    }
    proof {
        reveal_strlit("Memory Optimization Completed\n=====================================\nProfile: ");
        reveal_strlit("Memory Optimization Completed\n");
        reveal_strlit("=====================================");
        reveal_strlit("\nProfile: ");
        assert(r@ =~= optimization_text(
            freed_mb@,
            profile@,
            mode@,
            areas@,
            duration_ms,
            errors@.map_values(|e: &str| e@),
            timestamp@,
        ));
    }
    r
}

} // verus!
