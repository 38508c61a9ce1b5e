//! Input validation and sanitization, and a per-identifier rate limiter.
use vstd::prelude::*;
use vstd::utf8::encode_utf8;
use crate::text::{
    all_hexdigits, are_all_hexdigits, char_is_alphanumeric, chars_of, contains_chars, is_char,
    keep_chars, lemma_keep_chars_all, lemma_keep_chars_step, lemma_utf8_len_at_least_chars,
    spec_char_is_alphanumeric, spec_contains, spec_str_to_lowercase, spec_trim, str_to_lowercase,
    string_of, sub_vec, take_upto, trim_chars, trim_start_by, trim_start_char, trim_str,
};

verus! {

// ========== SANITIZERS ==========

/// Characters `sanitize_string` removes: NUL, the C0 controls other than
/// newline and tab, and DEL.
pub open spec fn is_removed_control(c: char) -> bool {
    (c <= '\x1F' && c != '\n' && c != '\t') || c == '\x7F'
}

/// The characters `sanitize_string` keeps.
pub open spec fn kept_by_sanitize() -> spec_fn(char) -> bool {
    |c: char| !is_removed_control(c)
}

/// What `sanitize_string` returns: control characters removed, then cut to
/// `max_length` characters when the UTF-8 encoding is longer than `max_length` bytes.
pub open spec fn spec_sanitize_string(input: Seq<char>, max_length: nat) -> Seq<char> {
    let cleaned = keep_chars(input, kept_by_sanitize());
    if encode_utf8(cleaned).len() > max_length {
        take_upto(cleaned, max_length)
    } else {
        cleaned
    }
}

/// Removes NUL, control characters (newlines and tabs are kept) and DEL,
/// and truncates to `max_length`
/// characters when the text is longer than `max_length` bytes.
pub fn sanitize_string(input: &str, max_length: usize) -> (r: String)
    ensures
        r@ == spec_sanitize_string(input@, max_length as nat),
        r@ == take_upto(keep_chars(input@, kept_by_sanitize()), max_length as nat),
        r@.len() <= max_length,
{
    let v = chars_of(input);
    let mut cleaned: Vec<char> = Vec::new();
    let mut i: usize = 0;
    while i < v.len()
        invariant
            i <= v.len(),
            v@ == input@,
            cleaned@ == keep_chars(v@.take(i as int), kept_by_sanitize()),
        decreases v.len() - i,
    {
        proof {
            lemma_keep_chars_step(v@, i as int, kept_by_sanitize());
        }
        let c = v[i];
        if !((c <= '\x1F' && c != '\n' && c != '\t') || c == '\x7F') {
            cleaned.push(c);
        }
        proof {
            assert(cleaned@ =~= keep_chars(v@.take(i + 1), kept_by_sanitize()));
        }
        i = i + 1;
    }
    proof {
        assert(v@.take(v.len() as int) =~= v@);
        lemma_utf8_len_at_least_chars(cleaned@);
    }
    if cleaned.len() > max_length {
        let r = sub_vec(&cleaned, 0, max_length);
        string_of(&r)
    } else {
        string_of(&cleaned)
    }
}

/// Characters a process name may hold (before lower-casing).
pub open spec fn process_name_char() -> spec_fn(char) -> bool {
    |c: char| spec_char_is_alphanumeric(c) || c == '.' || c == '-' || c == '_'
}

/// What `sanitize_process_name` returns: trimmed, reduced to alphanumerics,
/// dots, hyphens and underscores, trimmed again, lower-cased.
pub open spec fn spec_sanitize_process_name(input: Seq<char>) -> Seq<char> {
    spec_str_to_lowercase(spec_trim(keep_chars(spec_trim(input), process_name_char())))
}

/// Sanitizes a process name: only alphanumerics, `.`, `-` and `_` are kept,
/// surrounding whitespace is removed and the result is lower case.
pub fn sanitize_process_name(input: &str) -> (r: String)
    ensures
        r@ == spec_sanitize_process_name(input@),
{
    let t = trim_str(input);
    let mut kept: Vec<char> = Vec::new();
    let mut i: usize = 0;
    while i < t.len()
        invariant
            i <= t.len(),
            kept@ == keep_chars(t@.take(i as int), process_name_char()),
        decreases t.len() - i,
    {
        proof {
            lemma_keep_chars_step(t@, i as int, process_name_char());
        }
        let c = t[i];
        if char_is_alphanumeric(c) || c == '.' || c == '-' || c == '_' {
            kept.push(c);
        }
        proof {
            assert(kept@ =~= keep_chars(t@.take(i + 1), process_name_char()));
        }
        i = i + 1;
    }
    proof {
        assert(t@.take(t.len() as int) =~= t@);
    }
    let t2 = trim_chars(&kept);
    let s2 = string_of(&t2);
    str_to_lowercase(s2.as_str())
}

/// Characters a hotkey may hold.
pub open spec fn hotkey_char() -> spec_fn(char) -> bool {
    |c: char| spec_char_is_alphanumeric(c) || c == '+' || c == ' '
}

/// What `sanitize_hotkey` returns.
pub open spec fn spec_sanitize_hotkey(input: Seq<char>) -> Seq<char> {
    keep_chars(spec_sanitize_string(input, 50), hotkey_char())
}

/// Sanitizes a hotkey: at most 50 characters, only alphanumerics, `+` and spaces.
pub fn sanitize_hotkey(input: &str) -> (r: String)
    ensures
        r@ == spec_sanitize_hotkey(input@),
        r@.len() <= 50,
        forall|k: int| 0 <= k < r@.len() ==> #[trigger] hotkey_char()(r@[k]),
{
    let cleaned = sanitize_string(input, 50);
    let v = chars_of(cleaned.as_str());
    let mut kept: Vec<char> = Vec::new();
    let mut i: usize = 0;
    while i < v.len()
        invariant
            i <= v.len(),
            kept@ == keep_chars(v@.take(i as int), hotkey_char()),
        decreases v.len() - i,
    {
        proof {
            lemma_keep_chars_step(v@, i as int, hotkey_char());
        }
        let c = v[i];
        if char_is_alphanumeric(c) || c == '+' || c == ' ' {
            kept.push(c);
        }
        proof {
            assert(kept@ =~= keep_chars(v@.take(i + 1), hotkey_char()));
        }
        i = i + 1;
    }
    proof {
        assert(v@.take(v.len() as int) =~= v@);
        lemma_keep_chars_all(v@, hotkey_char());
    }
    string_of(&kept)
}

/// The part of a color string checked for hex digits: trimmed, leading `#`s removed.
pub open spec fn hex_color_body(color: Seq<char>) -> Seq<char> {
    trim_start_by(spec_trim(color), is_char('#'))
}

/// A hex color: after trimming and dropping leading `#`s, exactly six ASCII
/// hex digits (six characters, which are then also six bytes).
pub open spec fn spec_is_valid_hex_color(color: Seq<char>) -> bool {
    hex_color_body(color).len() == 6 && all_hexdigits(hex_color_body(color))
}

/// The body of a color string: trimmed, leading `#`s removed (exec).
pub fn hex_color_body_of(color: &str) -> (r: Vec<char>)
    ensures
        r@ == hex_color_body(color@),
{
    let t = trim_str(color);
    trim_start_char(&t, '#')
}

/// Validates a hex color string such as `#1A2B3C`.
pub fn is_valid_hex_color(color: &str) -> (r: bool)
    ensures
        r == spec_is_valid_hex_color(color@),
{
    let clean = hex_color_body_of(color);
    clean.len() == 6 && are_all_hexdigits(&clean)
}

/// The patterns `contains_injection_patterns` looks for (in lower case).
pub open spec fn injection_patterns() -> Seq<Seq<char>> {
    seq![
        "<script"@, "</script"@, "javascript:"@, "vbscript:"@, "onload="@, "onerror="@,
        "onclick="@, "onmouseover="@, "onfocus="@, "onblur="@, "onchange="@,
        "eval("@, "expression("@, "url("@, "import("@, "require("@,
        "\\x"@, "\\u"@, "\\n"@, "\\r"@, "\\t"@, "--"@, "/*"@, "*/"@, "xp_"@, "sp_"@,
        "exec"@, "system"@, "shell"@, "cmd"@, "powershell"@, "bash"@, "sh"@,
    ]
}

/// The lower-cased input holds one of the injection patterns.
pub open spec fn spec_contains_injection(input: Seq<char>) -> bool {
    exists|k: int|
        0 <= k < injection_patterns().len() && #[trigger] spec_contains(
            spec_str_to_lowercase(input),
            injection_patterns()[k],
        )
}

/// Looks for script, shell and escape patterns in the lower-cased input.
pub fn contains_injection_patterns(input: &str) -> (r: bool)
    ensures
        r == spec_contains_injection(input@),
{
    let lower_s = str_to_lowercase(input);
    let lower = chars_of(lower_s.as_str());
    let patterns: Vec<&str> = vec![
        "<script", "</script", "javascript:", "vbscript:", "onload=", "onerror=",
        "onclick=", "onmouseover=", "onfocus=", "onblur=", "onchange=",
        "eval(", "expression(", "url(", "import(", "require(",
        "\\x", "\\u", "\\n", "\\r", "\\t", "--", "/*", "*/", "xp_", "sp_",
        "exec", "system", "shell", "cmd", "powershell", "bash", "sh",
    ];
    proof {
        assert(patterns@.map_values(|x: &str| x@) =~= injection_patterns());
    }
    let mut k: usize = 0;
    while k < patterns.len()
        invariant
            k <= patterns.len(),
            patterns@.map_values(|x: &str| x@) == injection_patterns(),
            lower@ == spec_str_to_lowercase(input@),
            forall|m: int|
                0 <= m < k ==> !#[trigger] spec_contains(lower@, injection_patterns()[m]),
        decreases patterns.len() - k,
    {
        let pat = chars_of(patterns[k]);
        proof {
            assert(pat@ == injection_patterns()[k as int]);
        }
        if contains_chars(&lower, &pat) {
            return true;
        }
        k = k + 1;
    }
    false
}

// ========== RATE LIMITER ==========

#[verifier::external_type_specification]
#[verifier::external_body]
pub struct ExInstant(std::time::Instant);

/// `Instant::now`: the current instant of the monotonic clock; nothing is
/// stated of it.
#[verifier::external_body]
fn instant_now() -> std::time::Instant {
    std::time::Instant::now()
}

/// `Instant::elapsed` in nanoseconds (`Duration::as_nanos`, cast to `u64`,
/// which holds about 584 years). The value depends on the clock, so nothing
/// is stated of it.
#[verifier::external_body]
fn nanos_since(start: &std::time::Instant) -> u64 {
    start.elapsed().as_nanos() as u64
}

/// `now - t`, or 0 when `t` lies after `now` (as `Instant::duration_since` saturates).
pub open spec fn age(now: u64, t: u64) -> nat {
    if now >= t { (now - t) as nat } else { 0 }
}

/// The request times younger than the window.
pub open spec fn recent(times: Seq<u64>, now: u64, window_ns: u64) -> Seq<u64>
    decreases times.len(),
{
    if times.len() == 0 {
        seq![]
    } else {
        recent(times.drop_last(), now, window_ns) + (if age(now, times.last()) < window_ns {
            seq![times.last()]
        } else {
            seq![]
        })
    }
}

proof fn lemma_recent_len(times: Seq<u64>, now: u64, window_ns: u64)
    ensures
        recent(times, now, window_ns).len() <= times.len(),
    decreases times.len(),
{
    if times.len() > 0 {
        lemma_recent_len(times.drop_last(), now, window_ns);
    }
}

/// One request for an identifier whose recorded times are `rec`, at `now`:
/// whether it is accepted, and the times recorded afterwards.
pub open spec fn rl_step(rec: Seq<u64>, now: u64, max: nat, window: u64) -> (bool, Seq<u64>) {
    let r = recent(rec, now, window);
    if r.len() < max {
        (true, r.push(now))
    } else {
        (false, r)
    }
}

/// The times recorded for one identifier after requests at the times
/// `nows`, starting from none.
pub open spec fn rl_run(nows: Seq<u64>, max: nat, window: u64) -> Seq<u64>
    decreases nows.len(),
{
    if nows.len() == 0 {
        seq![]
    } else {
        rl_step(rl_run(nows.drop_last(), max, window), nows.last(), max, window).1
    }
}

/// The request at index `i` of `nows` is accepted.
pub open spec fn rl_accepted(nows: Seq<u64>, i: int, max: nat, window: u64) -> bool {
    rl_step(rl_run(nows.take(i), max, window), nows[i], max, window).0
}

/// How many of the first `k` requests were accepted at a time in `[s, s + window)`.
pub open spec fn accepted_in_window(nows: Seq<u64>, k: nat, s: int, max: nat, window: u64) -> nat
    decreases k,
{
    if k == 0 {
        0
    } else {
        accepted_in_window(nows, (k - 1) as nat, s, max, window) + (if rl_accepted(
            nows,
            k - 1,
            max,
            window,
        ) && s <= nows[k - 1] < s + window {
            1nat
        } else {
            0nat
        })
    }
}

/// How many of the first `k` requests were accepted at a time at or after `s`.
spec fn accepted_since(nows: Seq<u64>, k: nat, s: int, max: nat, window: u64) -> nat
    decreases k,
{
    if k == 0 {
        0
    } else {
        accepted_since(nows, (k - 1) as nat, s, max, window) + (if rl_accepted(
            nows,
            k - 1,
            max,
            window,
        ) && s <= nows[k - 1] {
            1nat
        } else {
            0nat
        })
    }
}

/// How many times of `r` are at or after `s`.
spec fn count_ge(r: Seq<u64>, s: int) -> nat
    decreases r.len(),
{
    if r.len() == 0 {
        0
    } else {
        count_ge(r.drop_last(), s) + (if r.last() >= s { 1nat } else { 0nat })
    }
}

/// The request times never go back.
pub open spec fn nondecreasing(nows: Seq<u64>) -> bool {
    forall|i: int, j: int| 0 <= i <= j < nows.len() ==> nows[i] <= nows[j]
}

proof fn lemma_count_ge_push(r: Seq<u64>, x: u64, s: int)
    ensures
        count_ge(r.push(x), s) == count_ge(r, s) + (if x >= s { 1nat } else { 0nat }),
{
    assert(r.push(x).drop_last() =~= r);
}

proof fn lemma_count_ge_le_len(r: Seq<u64>, s: int)
    ensures
        count_ge(r, s) <= r.len(),
    decreases r.len(),
{
    if r.len() > 0 {
        lemma_count_ge_le_len(r.drop_last(), s);
    }
}

proof fn lemma_recent_bounded(r: Seq<u64>, now: u64, window: u64, b: u64)
    requires
        forall|i: int| 0 <= i < r.len() ==> r[i] <= b,
    ensures
        forall|i: int| 0 <= i < recent(r, now, window).len() ==> recent(r, now, window)[i] <= b,
    decreases r.len(),
{
    if r.len() > 0 {
        let p = r.drop_last();
        assert forall|i: int| 0 <= i < p.len() implies p[i] <= b by {
            assert(p[i] == r[i]);
        }
        lemma_recent_bounded(p, now, window, b);
        let rp = recent(p, now, window);
        assert(r.last() == r[r.len() - 1]);
        if age(now, r.last()) < window {
            assert(recent(r, now, window) =~= rp.push(r.last()));
        } else {
            assert(recent(r, now, window) =~= rp);
        }
    }
}

/// Forgetting old times keeps every time at or after `s`, when `s` lies
/// within the window before `now`.
proof fn lemma_count_ge_recent(r: Seq<u64>, now: u64, window: u64, s: int)
    requires
        now - s < window,
        forall|i: int| 0 <= i < r.len() ==> r[i] <= now,
    ensures
        count_ge(recent(r, now, window), s) == count_ge(r, s),
    decreases r.len(),
{
    if r.len() > 0 {
        let p = r.drop_last();
        lemma_count_ge_recent(p, now, window, s);
        let rp = recent(p, now, window);
        if age(now, r.last()) < window {
            assert(recent(r, now, window) =~= rp.push(r.last()));
            lemma_count_ge_push(rp, r.last(), s);
        } else {
            assert(recent(r, now, window) =~= rp);
        }
    }
}

proof fn lemma_run_bounded(nows: Seq<u64>, k: nat, max: nat, window: u64)
    requires
        nondecreasing(nows),
        k <= nows.len(),
    ensures
        rl_run(nows.take(k as int), max, window).len() <= max,
        k > 0 ==> forall|i: int|
            0 <= i < rl_run(nows.take(k as int), max, window).len() ==> rl_run(
                nows.take(k as int),
                max,
                window,
            )[i] <= nows[k - 1],
    decreases k,
{
    if k > 0 {
        let now = nows[k - 1];
        assert(nows.take(k as int).drop_last() =~= nows.take(k - 1));
        lemma_run_bounded(nows, (k - 1) as nat, max, window);
        let prev = rl_run(nows.take(k - 1), max, window);
        lemma_recent_len(prev, now, window);
        if k > 1 {
            assert(nows[k - 2] <= now);
        }
        lemma_recent_bounded(prev, now, window, now);
    }
}

proof fn lemma_run_counts(nows: Seq<u64>, k: nat, s: int, max: nat, window: u64)
    requires
        nondecreasing(nows),
        k <= nows.len(),
        k > 0 ==> nows[k - 1] - s < window,
    ensures
        accepted_since(nows, k, s, max, window) == count_ge(rl_run(nows.take(k as int), max, window), s),
    decreases k,
{
    if k > 0 {
        let now = nows[k - 1];
        assert(nows.take(k as int).drop_last() =~= nows.take(k - 1));
        assert(nows.take(k as int).last() == now);
        if k > 1 {
            assert(nows[k - 2] <= now);
        }
        lemma_run_counts(nows, (k - 1) as nat, s, max, window);
        lemma_run_bounded(nows, (k - 1) as nat, max, window);
        let prev = rl_run(nows.take(k - 1), max, window);
        lemma_count_ge_recent(prev, now, window, s);
        lemma_count_ge_push(recent(prev, now, window), now, s);
    }
}

proof fn lemma_window_is_since(nows: Seq<u64>, k: nat, s: int, max: nat, window: u64)
    requires
        k <= nows.len(),
        forall|i: int| 0 <= i < k ==> nows[i] < s + window,
    ensures
        accepted_in_window(nows, k, s, max, window) == accepted_since(nows, k, s, max, window),
    decreases k,
{
    if k > 0 {
        lemma_window_is_since(nows, (k - 1) as nat, s, max, window);
    }
}

proof fn lemma_window_prefix(nows: Seq<u64>, k: nat, s: int, max: nat, window: u64)
    requires
        nondecreasing(nows),
        k <= nows.len(),
    ensures
        accepted_in_window(nows, k, s, max, window) <= max,
    decreases k,
{
    if k > 0 {
        if nows[k - 1] >= s + window {
            lemma_window_prefix(nows, (k - 1) as nat, s, max, window);
        } else {
            lemma_window_is_since(nows, k, s, max, window);
            lemma_run_counts(nows, k, s, max, window);
            lemma_run_bounded(nows, k, max, window);
            lemma_count_ge_le_len(rl_run(nows.take(k as int), max, window), s);
        }
    }
}

/// The sliding window: for one identifier whose requests come at the
/// non-decreasing times `nows`, at most `max` of them are accepted within any
/// window-long stretch of time `[s, s + window)`. A limiter's `calls` of an
/// identifier are such times (its clock never goes back), and the answer of
/// each call is `rl_accepted` of its index, as `check_rate_limit` states.
pub proof fn lemma_rate_limit_window(nows: Seq<u64>, s: int, max: nat, window: u64)
    requires
        nondecreasing(nows),
    ensures
        accepted_in_window(nows, nows.len(), s, max, window) <= max,
{
    lemma_window_prefix(nows, nows.len(), s, max, window);
}

/// A refused request records nothing new, and once every recorded time is a
/// window old, the next request is accepted (for a limit of at least one).
pub proof fn lemma_rate_limit_recovers(rec: Seq<u64>, now: u64, max: nat, window: u64)
    ensures
        !rl_step(rec, now, max, window).0 ==> rl_step(rec, now, max, window).1 == recent(
            rec,
            now,
            window,
        ),
        max >= 1 && (forall|i: int| 0 <= i < rec.len() ==> age(now, #[trigger] rec[i]) >= window)
            ==> rl_step(rec, now, max, window).0,
    decreases rec.len(),
{
    if rec.len() > 0 {
        lemma_rate_limit_recovers(rec.drop_last(), now, max, window);
        if forall|i: int| 0 <= i < rec.len() ==> age(now, #[trigger] rec[i]) >= window {
            assert(age(now, rec[rec.len() - 1]) >= window);
            assert forall|i: int| 0 <= i < rec.drop_last().len() implies age(
                now,
                #[trigger] rec.drop_last()[i],
            ) >= window by {
                assert(rec.drop_last()[i] == rec[i]);
            }
        }
    }
}

/// The request times recorded for `key` (empty when there are none).
pub open spec fn times_for(reqs: Seq<(String, Vec<u64>)>, key: Seq<char>) -> Seq<u64>
    decreases reqs.len(),
{
    if reqs.len() == 0 {
        seq![]
    } else if reqs.last().0@ == key {
        reqs.last().1@
    } else {
        times_for(reqs.drop_last(), key)
    }
}

/// The times of all requests made for `key`, in order (none when `key`
/// never made one).
pub open spec fn calls_of(calls: Map<Seq<char>, Seq<u64>>, key: Seq<char>) -> Seq<u64> {
    if calls.dom().contains(key) {
        calls[key]
    } else {
        seq![]
    }
}

/// What a limiter keeps between requests: the recorded times of each
/// identifier, the times of every request made (ghost), and the latest time
/// seen.
struct Ledger {
    requests: Vec<(String, Vec<u64>)>,
    calls: Ghost<Map<Seq<char>, Seq<u64>>>,
    latest_ns: u64,
}

/// Limits how many requests each identifier may make within a sliding window.
pub struct RateLimiter {
    ledger: Ledger,
    max_requests: usize,
    window_ns: u64,
    started: std::time::Instant,
}

impl RateLimiter {
    /// Identifiers are recorded once, no identifier holds more than
    /// `max_requests` times, and the times recorded for each identifier are
    /// what its requests, at non-decreasing times no later than the latest
    /// one, leave recorded.
    #[verifier::type_invariant]
    spec fn well_formed(self) -> bool {
        &&& forall|i: int, j: int|
            0 <= i < j < self.ledger.requests@.len() ==> #[trigger] self.ledger.requests@[i].0@
                != #[trigger] self.ledger.requests@[j].0@
        &&& forall|i: int|
            0 <= i < self.ledger.requests@.len() ==> #[trigger] self.ledger.requests@[i].1@.len()
                <= self.max_requests
        &&& forall|k: Seq<char>|
            times_for(self.ledger.requests@, k) == rl_run(
                #[trigger] calls_of(self.ledger.calls@, k),
                self.max_requests as nat,
                self.window_ns,
            )
        &&& forall|k: Seq<char>| nondecreasing(#[trigger] calls_of(self.ledger.calls@, k))
        &&& forall|k: Seq<char>, i: int|
            0 <= i < calls_of(self.ledger.calls@, k).len() ==> #[trigger] calls_of(
                self.ledger.calls@,
                k,
            )[i] <= self.ledger.latest_ns
    }

    /// The request times recorded for an identifier.
    pub closed spec fn recorded(self, key: Seq<char>) -> Seq<u64> {
        times_for(self.ledger.requests@, key)
    }

    /// The times of all requests made for an identifier, in order.
    pub closed spec fn calls(self, key: Seq<char>) -> Seq<u64> {
        calls_of(self.ledger.calls@, key)
    }

    /// The latest request time seen.
    pub closed spec fn latest(self) -> u64 {
        self.ledger.latest_ns
    }

    /// The most requests accepted per window.
    pub closed spec fn max(self) -> nat {
        self.max_requests as nat
    }

    /// The window length in nanoseconds.
    pub closed spec fn window(self) -> u64 {
        self.window_ns
    }

    /// A limiter allowing `max_requests` requests per `window_ns` nanoseconds.
    pub fn new(max_requests: usize, window_ns: u64) -> (r: RateLimiter)
        ensures
            r.max() == max_requests,
            r.window() == window_ns,
            r.latest() == 0,
            forall|k: Seq<char>| #[trigger] r.recorded(k) == Seq::<u64>::empty(),
            forall|k: Seq<char>| #[trigger] r.calls(k) == Seq::<u64>::empty(),
    {
        RateLimiter {
            ledger: Ledger { requests: Vec::new(), calls: Ghost(Map::empty()), latest_ns: 0 },
            max_requests,
            window_ns,
            started: instant_now(),
        }
    }

    /// Position of `identifier` among the recorded identifiers.
    fn find(reqs: &Vec<(String, Vec<u64>)>, identifier: &str) -> (r: Option<usize>)
        ensures
            match r {
                Some(i) => i < reqs@.len() && reqs@[i as int].0@ == identifier@,
                None => forall|i: int|
                    0 <= i < reqs@.len() ==> #[trigger] reqs@[i].0@ != identifier@,
            },
    {
        let mut i: usize = 0;
        while i < reqs.len()
            invariant
                i <= reqs@.len(),
                forall|k: int| 0 <= k < i ==> #[trigger] reqs@[k].0@ != identifier@,
            decreases reqs.len() - i,
        {
            if crate::text::str_eq(reqs[i].0.as_str(), identifier) {
                return Some(i);
            }
            i = i + 1;
        }
        None
    }

    /// Records a request of `identifier` made at `now` (nanoseconds of the
    /// limiter's clock; a time before the latest one seen counts as the
    /// latest, since the clock never goes back): times older than the window
    /// are forgotten, and the request is accepted, and recorded, when fewer
    /// than the limit remain. Every request joins the identifier's calls, so
    /// that the calls and the recorded times always satisfy
    /// `recorded == rl_run(calls)`; `lemma_rate_limit_window` then bounds the
    /// accepted calls of any window.
    pub fn check_rate_limit_at(&mut self, identifier: &str, now: u64) -> (accepted: bool)
        ensures
            final(self).max() == old(self).max(),
            final(self).window() == old(self).window(),
            final(self).latest() == (if now >= old(self).latest() {
                now
            } else {
                old(self).latest()
            }),
            final(self).calls(identifier@) == old(self).calls(identifier@).push(final(self).latest()),
            forall|k: Seq<char>|
                k != identifier@ ==> #[trigger] final(self).calls(k) == old(self).calls(k),
            (accepted, final(self).recorded(identifier@)) == rl_step(
                old(self).recorded(identifier@),
                final(self).latest(),
                old(self).max(),
                old(self).window(),
            ),
            accepted == rl_accepted(
                final(self).calls(identifier@),
                final(self).calls(identifier@).len() - 1,
                final(self).max(),
                final(self).window(),
            ),
            forall|k: Seq<char>|
                k != identifier@ ==> #[trigger] final(self).recorded(k) == old(self).recorded(k),
            forall|k: Seq<char>| #[trigger] final(self).recorded(k).len() <= final(self).max(),
            forall|k: Seq<char>|
                #[trigger] final(self).recorded(k) == rl_run(
                    final(self).calls(k),
                    final(self).max(),
                    final(self).window(),
                ),
            forall|k: Seq<char>| nondecreasing(#[trigger] final(self).calls(k)),
    {
        proof {
            use_type_invariant(&*self);
        }
        let max_requests = self.max_requests;
        let window_ns = self.window_ns;
        let t = if now >= self.ledger.latest_ns { now } else { self.ledger.latest_ns };
        let mut ledger = Ledger { requests: Vec::new(), calls: Ghost(Map::empty()), latest_ns: 0 };
        std::mem::swap(&mut ledger, &mut self.ledger);
        let ghost old_calls = ledger.calls@;
        let ghost old_latest = ledger.latest_ns;
        let mut reqs = ledger.requests;
        let ghost old_reqs = reqs@;
        let idx = match Self::find(&reqs, identifier) {
            Some(i) => i,
            None => {
                proof {
                    lemma_times_for_absent(reqs@, identifier@);
                }
                let key = crate::text::copy_str(identifier);
                reqs.push((key, Vec::new()));
                proof {
                    lemma_times_for_push_other(old_reqs, reqs@.last(), identifier@);
                    assert forall|a: int, b: int|
                        0 <= a < b < reqs@.len() implies #[trigger] reqs@[a].0@
                        != #[trigger] reqs@[b].0@ by {
                        if b == reqs@.len() - 1 {
                            assert(old_reqs[a].0@ != identifier@);
                        }
                    }
                }
                reqs.len() - 1
            },
        };
        let ghost mid = reqs@;
        proof {
            lemma_times_for_at(mid, idx as int, identifier@);
        }
        let mut kept: Vec<u64> = Vec::new();
        let n = reqs[idx].1.len();
        let mut j: usize = 0;
        while j < n
            invariant
                j <= n,
                idx < reqs@.len(),
                reqs@ == mid,
                n == mid[idx as int].1@.len(),
                kept@ == recent(mid[idx as int].1@.take(j as int), t, window_ns),
            decreases n - j,
        {
            let u = reqs[idx].1[j];
            proof {
                assert(mid[idx as int].1@.take(j + 1).drop_last() =~= mid[idx as int].1@.take(
                    j as int,
                ));
            }
            let a = if t >= u { t - u } else { 0 };
            if a < window_ns {
                kept.push(u);
            }
            j = j + 1;
        }
        proof {
            assert(mid[idx as int].1@.take(n as int) =~= mid[idx as int].1@);
            lemma_recent_len(mid[idx as int].1@, t, window_ns);
        }
        let accepted = kept.len() < max_requests;
        if accepted {
            kept.push(t);
        }
        let key = crate::text::copy_str(reqs[idx].0.as_str());
        reqs.set(idx, (key, kept));
        proof {
            lemma_times_for_set(mid, idx as int, reqs@[idx as int], identifier@);
            assert forall|a: int, b: int|
                0 <= a < b < reqs@.len() implies #[trigger] reqs@[a].0@ != #[trigger] reqs@[b].0@ by {
                assert(mid[a].0@ != mid[b].0@);
            }
            assert forall|k: int| 0 <= k < reqs@.len() implies #[trigger] reqs@[k].1@.len()
                <= max_requests by {
                if k != idx {
                    assert(reqs@[k] == mid[k]);
                }
            }
            assert forall|k: Seq<char>| #[trigger] times_for(reqs@, k).len() <= max_requests by {
                lemma_times_for_bound(reqs@, k, max_requests as nat);
            }
        }
        let ghost new_calls = old_calls.insert(identifier@, calls_of(old_calls, identifier@).push(t));
        proof {
            let c = calls_of(old_calls, identifier@);
            assert(calls_of(new_calls, identifier@) == c.push(t));
            assert(c.push(t).drop_last() =~= c);
            assert(c.push(t).take(c.len() as int) =~= c);
            assert forall|k: Seq<char>| k != identifier@ implies #[trigger] calls_of(new_calls, k)
                == calls_of(old_calls, k) by {
                assert(new_calls.dom().contains(k) == old_calls.dom().contains(k));
            }
            assert forall|k: Seq<char>|
                times_for(reqs@, k) == rl_run(
                    #[trigger] calls_of(new_calls, k),
                    max_requests as nat,
                    window_ns,
                ) by {
                if k != identifier@ {
                    assert(calls_of(new_calls, k) == calls_of(old_calls, k));
                }
            }
            assert forall|k: Seq<char>| nondecreasing(#[trigger] calls_of(new_calls, k)) by {
                if k != identifier@ {
                    assert(calls_of(new_calls, k) == calls_of(old_calls, k));
                } else {
                    assert forall|i: int, j: int|
                        0 <= i <= j < c.push(t).len() implies c.push(t)[i] <= c.push(t)[j] by {
                        if j == c.len() {
                            if i < c.len() {
                                assert(c[i] <= old_latest);
                            }
                        } else {
                            assert(c[i] <= c[j]);
                        }
                    }
                }
            }
            assert forall|k: Seq<char>, i: int|
                0 <= i < calls_of(new_calls, k).len() implies #[trigger] calls_of(new_calls, k)[i]
                <= t by {
                if k != identifier@ {
                    assert(calls_of(new_calls, k) == calls_of(old_calls, k));
                    assert(calls_of(old_calls, k)[i] <= old_latest);
                } else if i < c.len() {
                    assert(c[i] <= old_latest);
                }
            }
        }
        self.ledger = Ledger { requests: reqs, calls: Ghost(new_calls), latest_ns: t };
        accepted
    }

    /// Records a request of `identifier` at the current time of the
    /// limiter's clock; see `check_rate_limit_at`. The time used is the
    /// limiter's latest time afterwards, which never goes back.
    pub fn check_rate_limit(&mut self, identifier: &str) -> (accepted: bool)
        ensures
            final(self).max() == old(self).max(),
            final(self).window() == old(self).window(),
            final(self).latest() >= old(self).latest(),
            final(self).calls(identifier@) == old(self).calls(identifier@).push(final(self).latest()),
            forall|k: Seq<char>|
                k != identifier@ ==> #[trigger] final(self).calls(k) == old(self).calls(k),
            (accepted, final(self).recorded(identifier@)) == rl_step(
                old(self).recorded(identifier@),
                final(self).latest(),
                old(self).max(),
                old(self).window(),
            ),
            accepted == rl_accepted(
                final(self).calls(identifier@),
                final(self).calls(identifier@).len() - 1,
                final(self).max(),
                final(self).window(),
            ),
            forall|k: Seq<char>|
                k != identifier@ ==> #[trigger] final(self).recorded(k) == old(self).recorded(k),
            forall|k: Seq<char>| #[trigger] final(self).recorded(k).len() <= final(self).max(),
            forall|k: Seq<char>|
                #[trigger] final(self).recorded(k) == rl_run(
                    final(self).calls(k),
                    final(self).max(),
                    final(self).window(),
                ),
            forall|k: Seq<char>| nondecreasing(#[trigger] final(self).calls(k)),
    {
        let now = nanos_since(&self.started);
        self.check_rate_limit_at(identifier, now)
    }
}

proof fn lemma_times_for_bound(reqs: Seq<(String, Vec<u64>)>, key: Seq<char>, max: nat)
    requires
        forall|i: int| 0 <= i < reqs.len() ==> #[trigger] reqs[i].1@.len() <= max,
    ensures
        times_for(reqs, key).len() <= max,
    decreases reqs.len(),
{
    if reqs.len() > 0 {
        assert(reqs.last().1@.len() <= max);
        lemma_times_for_bound(reqs.drop_last(), key, max);
    }
}

proof fn lemma_times_for_absent(reqs: Seq<(String, Vec<u64>)>, key: Seq<char>)
    requires
        forall|i: int| 0 <= i < reqs.len() ==> #[trigger] reqs[i].0@ != key,
    ensures
        times_for(reqs, key) == Seq::<u64>::empty(),
    decreases reqs.len(),
{
    if reqs.len() > 0 {
        assert(reqs.last().0@ != key);
        lemma_times_for_absent(reqs.drop_last(), key);
    }
}

proof fn lemma_times_for_push_other(reqs: Seq<(String, Vec<u64>)>, e: (String, Vec<u64>), key: Seq<char>)
    ensures
        forall|k: Seq<char>| k != e.0@ ==> #[trigger] times_for(reqs.push(e), k) == times_for(reqs, k),
        e.1@.len() == 0 ==> times_for(reqs.push(e), e.0@) == Seq::<u64>::empty(),
{
    assert(reqs.push(e).drop_last() =~= reqs);
}

proof fn lemma_times_for_at(reqs: Seq<(String, Vec<u64>)>, i: int, key: Seq<char>)
    requires
        0 <= i < reqs.len(),
        reqs[i].0@ == key,
        forall|a: int, b: int| 0 <= a < b < reqs.len() ==> #[trigger] reqs[a].0@ != #[trigger] reqs[b].0@,
    ensures
        times_for(reqs, key) == reqs[i].1@,
    decreases reqs.len(),
{
    if i < reqs.len() - 1 {
        assert(reqs[reqs.len() - 1].0@ != key);
        lemma_times_for_at(reqs.drop_last(), i, key);
    }
}

proof fn lemma_times_for_set(reqs: Seq<(String, Vec<u64>)>, i: int, e: (String, Vec<u64>), key: Seq<char>)
    requires
        0 <= i < reqs.len(),
        reqs[i].0@ == key,
        e.0@ == key,
        forall|a: int, b: int| 0 <= a < b < reqs.len() ==> #[trigger] reqs[a].0@ != #[trigger] reqs[b].0@,
    ensures
        times_for(reqs.update(i, e), key) == e.1@,
        forall|k: Seq<char>| k != key ==> #[trigger] times_for(reqs.update(i, e), k) == times_for(reqs, k),
    decreases reqs.len(),
{
    let u = reqs.update(i, e);
    if i == reqs.len() - 1 {
        assert(u.drop_last() =~= reqs.drop_last());
        assert forall|k: Seq<char>| k != key implies #[trigger] times_for(u, k) == times_for(reqs, k) by {
            assert(u.last() == e);
        }
    } else {
        assert(u.drop_last() =~= reqs.drop_last().update(i, e));
        assert(reqs[reqs.len() - 1].0@ != key);
        lemma_times_for_set(reqs.drop_last(), i, e, key);
        assert(u.last() == reqs.last());
        assert forall|k: Seq<char>| k != key implies #[trigger] times_for(u, k) == times_for(reqs, k) by {
            if reqs.last().0@ != k {
                assert(times_for(u.drop_last(), k) == times_for(reqs.drop_last(), k));
            }
        }
    }
}

} // verus!
