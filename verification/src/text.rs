//! Character-sequence helpers shared by the sanitizers, the configuration
//! validator and the translation tables.
//!
//! Everything works on `Seq<char>` views: a `&str` or `String` is read into a
//! `Vec<char>`, processed, and turned back into a `String`.  Where std decides
//! by large Unicode tables (alphanumerics, case mapping) the result is named by
//! an uninterpreted spec function and obtained through a wrapper; the short
//! `White_Space` list is written out.
use vstd::prelude::*;
use vstd::utf8::encode_utf8;

verus! {

// ===================== names for std's Unicode-table results =====================

/// What `char::is_alphanumeric` answers for a character.
pub uninterp spec fn spec_char_is_alphanumeric(c: char) -> bool;

/// The Unicode `White_Space` property, which `char::is_whitespace` reports:
/// U+0009..U+000D, U+0020, U+0085, U+00A0, U+1680, U+2000..U+200A, U+2028,
/// U+2029, U+202F, U+205F and U+3000.
pub open spec fn spec_char_is_whitespace(c: char) -> bool {
    let n = c as u32;
    ||| 0x09 <= n <= 0x0D
    ||| n == 0x20 || n == 0x85 || n == 0xA0 || n == 0x1680
    ||| 0x2000 <= n <= 0x200A
    ||| n == 0x2028 || n == 0x2029 || n == 0x202F || n == 0x205F || n == 0x3000
}

/// What `str::to_lowercase` returns for a string.
pub uninterp spec fn spec_str_to_lowercase(s: Seq<char>) -> Seq<char>;

/// What `str::to_uppercase` returns for a string.
pub uninterp spec fn spec_str_to_uppercase(s: Seq<char>) -> Seq<char>;

/// `char::is_alphanumeric`: claimed to return the value named by
/// `spec_char_is_alphanumeric` (a function of the character alone, fixed by
/// the Unicode tables of std).
#[verifier::external_body]
pub(crate) fn char_is_alphanumeric(c: char) -> (r: bool)
    ensures
        r == spec_char_is_alphanumeric(c),
{
    c.is_alphanumeric()
}

/// Whether the character has the Unicode `White_Space` property, which is
/// what `char::is_whitespace` answers (see `spec_char_is_whitespace`).
pub(crate) fn char_is_whitespace(c: char) -> (r: bool)
    ensures
        r == spec_char_is_whitespace(c),
{
    let n = c as u32;
    (0x09 <= n && n <= 0x0D) || n == 0x20 || n == 0x85 || n == 0xA0 || n == 0x1680 || (0x2000 <= n
        && n <= 0x200A) || n == 0x2028 || n == 0x2029 || n == 0x202F || n == 0x205F || n == 0x3000
}

/// `str::to_lowercase`: claimed to return the string named by
/// `spec_str_to_lowercase` of the argument's characters.
#[verifier::external_body]
pub(crate) fn str_to_lowercase(s: &str) -> (r: String)
    ensures
        r@ == spec_str_to_lowercase(s@),
{
    s.to_lowercase()
}

/// `str::to_uppercase`: claimed to return the string named by
/// `spec_str_to_uppercase` of the argument's characters.
#[verifier::external_body]
pub(crate) fn str_to_uppercase(s: &str) -> (r: String)
    ensures
        r@ == spec_str_to_uppercase(s@),
{
    s.to_uppercase()
}

/// `String::push`: appends one character.
#[verifier::external_body]
pub(crate) fn push_char(s: &mut String, c: char)
    ensures
        final(s)@ == old(s)@.push(c),
{
    s.push(c)
}

// ===================== conversions =====================

/// The characters of a string slice, in order.
pub fn chars_of(s: &str) -> (v: Vec<char>)
    ensures
        v@ == s@,
{
    let mut v: Vec<char> = Vec::new();
    for c in it: s.chars()
        invariant
            v@ == it.seq().take(it.index() as int),
    {
        proof {
            assert(v@.push(c) =~= it.seq().take(it.index() + 1));
        }
        v.push(c);
    }
    proof {
        assert(v@ =~= s@);
    }
    v
}

/// A `String` holding exactly the given characters.
pub fn string_of(v: &Vec<char>) -> (s: String)
    ensures
        s@ == v@,
{
    let mut s = String::new();
    let mut i: usize = 0;
    while i < v.len()
        invariant
            i <= v.len(),
            s@ == v@.take(i as int),
        decreases v.len() - i,
    {
        proof {
            assert(s@.push(v@[i as int]) =~= v@.take(i + 1));
        }
        push_char(&mut s, v[i]);
        i = i + 1;
    }
    proof {
        assert(v@.take(v.len() as int) =~= v@);
    }
    s
}

/// A fresh `String` with the same characters.
pub fn copy_str(s: &str) -> (r: String)
    ensures
        r@ == s@,
{
    let v = chars_of(s);
    string_of(&v)
}

/// A UTF-8 encoding never has fewer bytes than characters.
pub proof fn lemma_utf8_len_at_least_chars(s: Seq<char>)
    ensures
        encode_utf8(s).len() >= s.len(),
    decreases s.len(),
{
    if s.len() > 0 {
        lemma_utf8_len_at_least_chars(s.drop_first());
    }
}

/// Appends the characters of `t` to `s`.
pub fn append_str(s: &mut String, t: &str)
    ensures
        final(s)@ == old(s)@ + t@,
{
    let ghost s0 = s@;
    for c in it: t.chars()
        invariant
            s@ == s0 + it.seq().take(it.index() as int),
    {
        proof {
            assert(s@.push(c) =~= s0 + it.seq().take(it.index() + 1));
        }
        push_char(s, c);
    }
    proof {
        assert(s@ =~= s0 + t@);
    }
}

/// The strings of `list` joined by `sep`.
pub open spec fn seq_join(list: Seq<Seq<char>>, sep: Seq<char>) -> Seq<char>
    decreases list.len(),
{
    if list.len() == 0 {
        seq![]
    } else if list.len() == 1 {
        list[0]
    } else {
        seq_join(list.drop_last(), sep) + sep + list.last()
    }
}

/// `[&str]::join`.
pub fn join_strs(list: &Vec<&str>, sep: &str) -> (r: String)
    ensures
        r@ == seq_join(list@.map_values(|x: &str| x@), sep@),
{
    let ghost views = list@.map_values(|x: &str| x@);
    let mut r = String::new();
    let mut i: usize = 0;
    while i < list.len()
        invariant
            i <= list.len(),
            views == list@.map_values(|x: &str| x@),
            r@ == seq_join(views.take(i as int), sep@),
        decreases list.len() - i,
    {
        proof {
            assert(views.take(i + 1).drop_last() =~= views.take(i as int));
            assert(views.take(i + 1).last() == list@[i as int]@);
            if i == 0 {
                assert(views.take(1) =~= seq![list@[0]@]);
            }
        }
        if i > 0 {
            append_str(&mut r, sep);
        }
        append_str(&mut r, list[i]);
        i = i + 1;
    }
    proof {
        assert(views.take(list.len() as int) =~= views);
    }
    r
}

// ===================== filtering =====================

/// The characters of `s` that satisfy `p`, in order.
pub open spec fn keep_chars(s: Seq<char>, p: spec_fn(char) -> bool) -> Seq<char>
    decreases s.len(),
{
    if s.len() == 0 {
        seq![]
    } else {
        keep_chars(s.drop_last(), p) + (if p(s.last()) { seq![s.last()] } else { seq![] })
    }
}

/// One more character: `keep_chars` of a prefix grows by at most that character.
pub proof fn lemma_keep_chars_step(s: Seq<char>, i: int, p: spec_fn(char) -> bool)
    requires
        0 <= i < s.len(),
    ensures
        keep_chars(s.take(i + 1), p) == keep_chars(s.take(i), p) + (if p(s[i]) {
            seq![s[i]]
        } else {
            seq![]
        }),
{
    assert(s.take(i + 1).drop_last() =~= s.take(i));
}

/// Every character kept satisfies `p`.
pub proof fn lemma_keep_chars_all(s: Seq<char>, p: spec_fn(char) -> bool)
    ensures
        forall|k: int| 0 <= k < keep_chars(s, p).len() ==> p(#[trigger] keep_chars(s, p)[k]),
        keep_chars(s, p).len() <= s.len(),
    decreases s.len(),
{
    if s.len() > 0 {
        lemma_keep_chars_all(s.drop_last(), p);
    }
}

/// The first `n` characters, or all of them when there are fewer.
pub open spec fn take_upto(s: Seq<char>, n: nat) -> Seq<char> {
    if s.len() <= n {
        s
    } else {
        s.take(n as int)
    }
}

/// Character-sequence equality (exec).
pub fn chars_eq(a: &Vec<char>, b: &Vec<char>) -> (r: bool)
    ensures
        r == (a@ == b@),
{
    if a.len() != b.len() {
        return false;
    }
    let mut i: usize = 0;
    while i < a.len()
        invariant
            a.len() == b.len(),
            i <= a.len(),
            forall|k: int| 0 <= k < i ==> a@[k] == b@[k],
        decreases a.len() - i,
    {
        if a[i] != b[i] {
            return false;
        }
        i = i + 1;
    }
    proof {
        assert(a@ =~= b@);
    }
    true
}

/// String-slice equality (exec).
pub fn str_eq(a: &str, b: &str) -> (r: bool)
    ensures
        r == (a@ == b@),
{
    let va = chars_of(a);
    let vb = chars_of(b);
    chars_eq(&va, &vb)
}

// ===================== trimming =====================

/// Drops leading characters that satisfy `p`.
pub open spec fn trim_start_by(s: Seq<char>, p: spec_fn(char) -> bool) -> Seq<char>
    decreases s.len(),
{
    if s.len() > 0 && p(s[0]) {
        trim_start_by(s.drop_first(), p)
    } else {
        s
    }
}

/// Drops trailing characters that satisfy `p`.
pub open spec fn trim_end_by(s: Seq<char>, p: spec_fn(char) -> bool) -> Seq<char>
    decreases s.len(),
{
    if s.len() > 0 && p(s.last()) {
        trim_end_by(s.drop_last(), p)
    } else {
        s
    }
}

/// The whitespace predicate used by `str::trim`.
pub open spec fn ws() -> spec_fn(char) -> bool {
    |c: char| spec_char_is_whitespace(c)
}

/// `str::trim`: leading and trailing whitespace removed.
pub open spec fn spec_trim(s: Seq<char>) -> Seq<char> {
    trim_end_by(trim_start_by(s, ws()), ws())
}

proof fn lemma_trim_start_step(s: Seq<char>, i: int, p: spec_fn(char) -> bool)
    requires
        0 <= i < s.len(),
        p(s[i]),
    ensures
        trim_start_by(s.subrange(i, s.len() as int), p) == trim_start_by(
            s.subrange(i + 1, s.len() as int),
            p,
        ),
{
    assert(s.subrange(i, s.len() as int).drop_first() =~= s.subrange(i + 1, s.len() as int));
}

proof fn lemma_trim_end_step(s: Seq<char>, j: int, p: spec_fn(char) -> bool)
    requires
        0 < j <= s.len(),
        p(s[j - 1]),
    ensures
        trim_end_by(s.subrange(0, j), p) == trim_end_by(s.subrange(0, j - 1), p),
{
    assert(s.subrange(0, j).drop_last() =~= s.subrange(0, j - 1));
}

/// The characters of `v` from index `from` (inclusive) to `to` (exclusive).
pub fn sub_vec(v: &Vec<char>, from: usize, to: usize) -> (r: Vec<char>)
    requires
        from <= to <= v.len(),
    ensures
        r@ == v@.subrange(from as int, to as int),
{
    let mut r: Vec<char> = Vec::new();
    let mut i = from;
    while i < to
        invariant
            from <= i <= to <= v.len(),
            r@ == v@.subrange(from as int, i as int),
        decreases to - i,
    {
        proof {
            assert(r@.push(v@[i as int]) =~= v@.subrange(from as int, i + 1));
        }
        r.push(v[i]);
        i = i + 1;
    }
    r
}

/// `str::trim` on a character vector.
pub fn trim_chars(v: &Vec<char>) -> (r: Vec<char>)
    ensures
        r@ == spec_trim(v@),
{
    let n = v.len();
    let mut i: usize = 0;
    proof {
        assert(v@.subrange(0, n as int) =~= v@);
    }
    while i < n && char_is_whitespace(v[i])
        invariant
            i <= n == v.len(),
            trim_start_by(v@, ws()) == trim_start_by(v@.subrange(i as int, n as int), ws()),
        decreases n - i,
    {
        proof {
            lemma_trim_start_step(v@, i as int, ws());
        }
        i = i + 1;
    }
    let t = sub_vec(v, i, n);
    proof {
        assert(trim_start_by(v@, ws()) == t@);
    }
    let m = t.len();
    let mut j: usize = m;
    proof {
        assert(t@.subrange(0, m as int) =~= t@);
    }
    while j > 0 && char_is_whitespace(t[j - 1])
        invariant
            j <= m == t.len(),
            trim_end_by(t@, ws()) == trim_end_by(t@.subrange(0, j as int), ws()),
        decreases j,
    {
        proof {
            lemma_trim_end_step(t@, j as int, ws());
        }
        j = j - 1;
    }
    let r = sub_vec(&t, 0, j);
    proof {
        assert(trim_end_by(t@.subrange(0, j as int), ws()) == t@.subrange(0, j as int));
    }
    r
}

/// `str::trim` on a string slice, as a character vector.
pub fn trim_str(s: &str) -> (r: Vec<char>)
    ensures
        r@ == spec_trim(s@),
{
    let v = chars_of(s);
    trim_chars(&v)
}

/// Predicate "is the character `c`".
pub open spec fn is_char(c: char) -> spec_fn(char) -> bool {
    |x: char| x == c
}

/// `str::trim_start_matches(c)` for a single character `c`.
pub fn trim_start_char(v: &Vec<char>, c: char) -> (r: Vec<char>)
    ensures
        r@ == trim_start_by(v@, is_char(c)),
{
    let n = v.len();
    let mut i: usize = 0;
    proof {
        assert(v@.subrange(0, n as int) =~= v@);
    }
    while i < n && v[i] == c
        invariant
            i <= n == v.len(),
            trim_start_by(v@, is_char(c)) == trim_start_by(
                v@.subrange(i as int, n as int),
                is_char(c),
            ),
        decreases n - i,
    {
        proof {
            lemma_trim_start_step(v@, i as int, is_char(c));
        }
        i = i + 1;
    }
    sub_vec(v, i, n)
}

/// `str::trim_end_matches(pat)` for a non-empty pattern: strips whole copies
/// of `pat` from the end, as long as the string ends with it.
pub open spec fn trim_end_seq(s: Seq<char>, pat: Seq<char>) -> Seq<char>
    decreases s.len(),
{
    if pat.len() > 0 && pat.len() <= s.len() && s.subrange(s.len() - pat.len(), s.len() as int)
        == pat {
        trim_end_seq(s.subrange(0, s.len() - pat.len()), pat)
    } else {
        s
    }
}

/// Does `pat` occur in `s` at index `i`?
pub open spec fn occurs_at(s: Seq<char>, pat: Seq<char>, i: int) -> bool {
    0 <= i && i + pat.len() <= s.len() && s.subrange(i, i + pat.len()) == pat
}

/// Does `pat` occur in `s` at `i`? (exec)
pub fn matches_at(s: &Vec<char>, pat: &Vec<char>, i: usize) -> (r: bool)
    ensures
        r == occurs_at(s@, pat@, i as int),
{
    if pat.len() > s.len() || i > s.len() - pat.len() {
        return false;
    }
    let mut k: usize = 0;
    while k < pat.len()
        invariant
            i + pat.len() <= s.len(),
            k <= pat.len(),
            forall|m: int| 0 <= m < k ==> s@[i + m] == pat@[m],
        decreases pat.len() - k,
    {
        if s[i + k] != pat[k] {
            proof {
                assert(s@.subrange(i as int, i + pat.len())[k as int] != pat@[k as int]);
            }
            return false;
        }
        k = k + 1;
    }
    proof {
        assert(s@.subrange(i as int, i + pat.len()) =~= pat@);
    }
    true
}

/// `str::trim_end_matches(pat)` on a character vector (non-empty `pat`).
pub fn trim_end_pattern(v: &Vec<char>, pat: &Vec<char>) -> (r: Vec<char>)
    ensures
        r@ == trim_end_seq(v@, pat@),
{
    let mut j: usize = v.len();
    proof {
        assert(v@.subrange(0, j as int) =~= v@);
    }
    let mut cur = sub_vec(v, 0, j);
    while pat.len() > 0 && pat.len() <= j && matches_at(&cur, pat, j - pat.len())
        invariant
            j <= v.len(),
            cur@ == v@.subrange(0, j as int),
            trim_end_seq(v@, pat@) == trim_end_seq(cur@, pat@),
        decreases j,
    {
        j = j - pat.len();
        proof {
            assert(cur@.subrange(0, j as int) =~= v@.subrange(0, j as int));
        }
        cur = sub_vec(v, 0, j);
    }
    cur
}

// ===================== searching and replacing =====================

/// `str::contains(pat)`: `pat` occurs somewhere in `s`.
pub open spec fn spec_contains(s: Seq<char>, pat: Seq<char>) -> bool {
    exists|i: int| occurs_at(s, pat, i)
}

/// `str::contains` on character vectors.
pub fn contains_chars(s: &Vec<char>, pat: &Vec<char>) -> (r: bool)
    ensures
        r == spec_contains(s@, pat@),
{
    if pat.len() > s.len() {
        return false;
    }
    if pat.len() == 0 {
        proof {
            assert(s@.subrange(0, 0) =~= pat@);
            assert(occurs_at(s@, pat@, 0));
        }
        return true;
    }
    let last = s.len() - pat.len();
    let mut i: usize = 0;
    while i <= last
        invariant
            last + pat.len() == s.len(),
            pat.len() > 0,
            i <= last + 1,
            forall|m: int| 0 <= m < i ==> !occurs_at(s@, pat@, m),
        decreases last + 1 - i,
    {
        if matches_at(s, pat, i) {
            return true;
        }
        i = i + 1;
    }
    false
}

/// `str::replace(from, to)` for a non-empty `from`: every non-overlapping
/// occurrence, scanned left to right, is replaced.
pub open spec fn spec_replace(s: Seq<char>, from: Seq<char>, to: Seq<char>) -> Seq<char>
    decreases s.len(),
{
    if from.len() == 0 || s.len() == 0 {
        s
    } else if from.len() <= s.len() && s.take(from.len() as int) == from {
        to + spec_replace(s.skip(from.len() as int), from, to)
    } else {
        seq![s[0]] + spec_replace(s.drop_first(), from, to)
    }
}

/// `str::replace` on character vectors (non-empty `from`).
pub fn replace_chars(s: &Vec<char>, from: &Vec<char>, to: &Vec<char>) -> (r: Vec<char>)
    requires
        from.len() > 0,
    ensures
        r@ == spec_replace(s@, from@, to@),
{
    let mut out: Vec<char> = Vec::new();
    let mut i: usize = 0;
    proof {
        assert(s@.skip(0) =~= s@);
    }
    while i < s.len()
        invariant
            i <= s.len(),
            from.len() > 0,
            out@ + spec_replace(s@.skip(i as int), from@, to@) == spec_replace(s@, from@, to@),
        decreases s.len() - i,
    {
        let ghost rest = s@.skip(i as int);
        if matches_at(s, from, i) {
            proof {
                assert(rest.take(from.len() as int) =~= s@.subrange(i as int, i + from.len()));
                assert(rest.skip(from.len() as int) =~= s@.skip(i + from.len()));
                assert(out@ + to@ + spec_replace(s@.skip(i + from.len()), from@, to@) =~= out@
                    + spec_replace(rest, from@, to@));
            }
            let ghost out0 = out@;
            let mut k: usize = 0;
            while k < to.len()
                invariant
                    k <= to.len(),
                    out@ == out0 + to@.take(k as int),
                decreases to.len() - k,
            {
                proof {
                    assert(out0 + to@.take(k + 1) =~= (out0 + to@.take(k as int)).push(to@[k as int]));
                }
                out.push(to[k]);
                k = k + 1;
            }
            proof {
                assert(to@.take(to.len() as int) =~= to@);
            }
            i = i + from.len();
        } else {
            proof {
                if from.len() <= rest.len() {
                    assert(rest.take(from.len() as int) =~= s@.subrange(
                        i as int,
                        i + from.len(),
                    ));
                }
                assert(rest.drop_first() =~= s@.skip(i + 1));
                assert(out@.push(s@[i as int]) + spec_replace(s@.skip(i + 1), from@, to@) =~= out@
                    + spec_replace(rest, from@, to@));
            }
            out.push(s[i]);
            i = i + 1;
        }
    }
    proof {
        assert(s@.skip(i as int).len() == 0);
        assert(out@ + spec_replace(s@.skip(i as int), from@, to@) =~= out@);
    }
    out
}

// ===================== ASCII helpers =====================

/// `char::is_ascii_hexdigit`.
pub open spec fn spec_is_ascii_hexdigit(c: char) -> bool {
    ('0' <= c && c <= '9') || ('a' <= c && c <= 'f') || ('A' <= c && c <= 'F')
}

/// `char::is_ascii_hexdigit` (exec).
pub fn is_ascii_hexdigit(c: char) -> (r: bool)
    ensures
        r == spec_is_ascii_hexdigit(c),
{
    ('0' <= c && c <= '9') || ('a' <= c && c <= 'f') || ('A' <= c && c <= 'F')
}

/// Every character is an ASCII hex digit.
pub open spec fn all_hexdigits(s: Seq<char>) -> bool {
    forall|i: int| 0 <= i < s.len() ==> spec_is_ascii_hexdigit(#[trigger] s[i])
}

/// Checks `all_hexdigits` (exec).
pub fn are_all_hexdigits(v: &Vec<char>) -> (r: bool)
    ensures
        r == all_hexdigits(v@),
{
    let mut i: usize = 0;
    while i < v.len()
        invariant
            i <= v.len(),
            forall|k: int| 0 <= k < i ==> spec_is_ascii_hexdigit(#[trigger] v@[k]),
        decreases v.len() - i,
    {
        if !is_ascii_hexdigit(v[i]) {
            return false;
        }
        i = i + 1;
    }
    true
}

/// `char::to_ascii_uppercase`.
pub open spec fn spec_ascii_upper(c: char) -> char {
    if 'a' <= c && c <= 'z' {
        ((c as u32) - 32) as char
    } else {
        c
    }
}

/// ASCII upper-casing of every character.
pub open spec fn spec_ascii_upper_seq(s: Seq<char>) -> Seq<char> {
    s.map_values(|c: char| spec_ascii_upper(c))
}

/// `char::to_ascii_uppercase` (exec).
pub fn ascii_upper(c: char) -> (r: char)
    ensures
        r == spec_ascii_upper(c),
{
    if 'a' <= c && c <= 'z' {
        ((c as u8) - 32) as char
    } else {
        c
    }
}

// ===================== decimal numbers =====================

/// The decimal digit for `d` (below 10).
pub open spec fn digit_char(d: nat) -> char {
    ((d + 48) as u32) as char
}

/// `n` written in decimal, without leading zeros.
pub open spec fn decimal_text(n: nat) -> Seq<char>
    decreases n,
{
    if n < 10 {
        seq![digit_char(n)]
    } else {
        decimal_text(n / 10).push(digit_char(n % 10))
    }
}

/// `n` written in decimal (as `n.to_string()`).
pub fn decimal_string(n: u64) -> (r: String)
    ensures
        r@ == decimal_text(n as nat),
    decreases n,
{
    let d = (n % 10) as u32;
    let c = if d == 0 {
        '0'
    } else if d == 1 {
        '1'
    } else if d == 2 {
        '2'
    } else if d == 3 {
        '3'
    } else if d == 4 {
        '4'
    } else if d == 5 {
        '5'
    } else if d == 6 {
        '6'
    } else if d == 7 {
        '7'
    } else if d == 8 {
        '8'
    } else {
        '9'
    };
    if n < 10 {
        let mut r = String::new();
        push_char(&mut r, c);
        proof {
            assert(r@ =~= seq![digit_char(n as nat)]);
        }
        r
    } else {
        let mut r = decimal_string(n / 10);
        push_char(&mut r, c);
        r
    }
}

// ===================== sorted lists of strings =====================

/// The character views of a list of strings.
pub open spec fn string_views(v: Seq<String>) -> Seq<Seq<char>> {
    v.map_values(|s: String| s@)
}

/// `a` comes strictly before `b` in lexicographic order of characters
/// (code points; the same order as the bytes of their UTF-8 forms).
pub open spec fn text_less(a: Seq<char>, b: Seq<char>) -> bool
    decreases a.len(),
{
    if a.len() == 0 {
        b.len() > 0
    } else if b.len() == 0 {
        false
    } else if a[0] != b[0] {
        a[0] < b[0]
    } else {
        text_less(a.drop_first(), b.drop_first())
    }
}

fn less_than(a: &Vec<char>, b: &Vec<char>) -> (r: bool)
    ensures
        r == text_less(a@, b@),
{
    let mut i: usize = 0;
    proof {
        assert(a@.skip(0) =~= a@);
        assert(b@.skip(0) =~= b@);
    }
    while i < a.len() && i < b.len() && a[i] == b[i]
        invariant
            i <= a.len() && i <= b.len(),
            text_less(a@, b@) == text_less(a@.skip(i as int), b@.skip(i as int)),
        decreases a.len() - i,
    {
        proof {
            assert(a@.skip(i as int).drop_first() =~= a@.skip(i + 1));
            assert(b@.skip(i as int).drop_first() =~= b@.skip(i + 1));
        }
        i = i + 1;
    }
    if i == a.len() {
        i < b.len()
    } else if i == b.len() {
        false
    } else {
        a[i] < b[i]
    }
}

/// Strictly increasing: sorted with no repeats.
pub open spec fn strictly_sorted(s: Seq<Seq<char>>) -> bool {
    forall|i: int, j: int| 0 <= i < j < s.len() ==> text_less(#[trigger] s[i], #[trigger] s[j])
}

proof fn lemma_text_less_trans(a: Seq<char>, b: Seq<char>, c: Seq<char>)
    requires
        text_less(a, b),
        text_less(b, c),
    ensures
        text_less(a, c),
    decreases a.len(),
{
    if a.len() > 0 && b.len() > 0 && c.len() > 0 && a[0] == b[0] && b[0] == c[0] {
        lemma_text_less_trans(a.drop_first(), b.drop_first(), c.drop_first());
    }
}

proof fn lemma_text_less_total(a: Seq<char>, b: Seq<char>)
    ensures
        text_less(a, b) || text_less(b, a) || a == b,
    decreases a.len(),
{
    if a.len() == 0 {
        if b.len() == 0 {
            assert(a =~= b);
        }
    } else if b.len() == 0 {
    } else if a[0] != b[0] {
    } else {
        lemma_text_less_total(a.drop_first(), b.drop_first());
        if a.drop_first() == b.drop_first() {
            assert(a =~= seq![a[0]] + a.drop_first());
            assert(b =~= seq![b[0]] + b.drop_first());
        }
    }
}

/// Inserts a name into a strictly sorted list, unless it is already there.
pub(crate) fn insert_sorted(list: &mut Vec<String>, name: String)
    requires
        strictly_sorted(string_views(old(list)@)),
    ensures
        strictly_sorted(string_views(final(list)@)),
        string_views(final(list)@).to_set() == string_views(old(list)@).to_set().insert(name@),
{
    let ghost old_views = string_views(list@);
    let nc = chars_of(name.as_str());
    let mut i: usize = 0;
    while i < list.len()
        invariant
            i <= list.len(),
            list@ == old(list)@,
            old_views == string_views(list@),
            nc@ == name@,
            strictly_sorted(old_views),
            forall|k: int| 0 <= k < i ==> text_less(#[trigger] old_views[k], name@),
        ensures
            i <= list.len(),
            list@ == old(list)@,
            old_views == string_views(list@),
            forall|k: int| 0 <= k < i ==> text_less(#[trigger] old_views[k], name@),
            i < list.len() ==> !text_less(old_views[i as int], name@),
        decreases list.len() - i,
    {
        let cur = chars_of(list[i].as_str());
        proof {
            assert(old_views[i as int] == list@[i as int]@);
        }
        if !less_than(&cur, &nc) {
            break;
        }
        i = i + 1;
    }
    if i < list.len() && str_eq(list[i].as_str(), name.as_str()) {
        proof {
            assert(old_views[i as int] == name@);
            assert(old_views.to_set().insert(name@) =~= old_views.to_set());
        }
        return;
    }
    proof {
        if i < list.len() {
            assert(old_views[i as int] == list@[i as int]@);
            lemma_text_less_total(old_views[i as int], name@);
            assert(text_less(name@, old_views[i as int]));
        }
    }
    list.insert(i, name);
    proof {
        let nv = string_views(list@);
        assert(nv =~= old_views.take(i as int).push(name@) + old_views.skip(i as int));
        assert forall|a: int, b: int| 0 <= a < b < nv.len() implies text_less(#[trigger] nv[a], #[trigger] nv[b]) by {
            if b < i {
                assert(nv[a] == old_views[a] && nv[b] == old_views[b]);
            } else if b == i {
                assert(nv[a] == old_views[a]);
            } else if a < i {
                assert(nv[a] == old_views[a] && nv[b] == old_views[b - 1]);
                assert(text_less(old_views[a], name@));
                assert(text_less(name@, old_views[i as int]) || i == b - 1);
                if b - 1 > i {
                    lemma_text_less_trans(name@, old_views[i as int], old_views[b - 1]);
                }
                lemma_text_less_trans(old_views[a], name@, old_views[b - 1]);
            } else if a == i {
                assert(nv[b] == old_views[b - 1]);
                if b - 1 > i {
                    lemma_text_less_trans(name@, old_views[i as int], old_views[b - 1]);
                }
            } else {
                assert(nv[a] == old_views[a - 1] && nv[b] == old_views[b - 1]);
            }
        }
        assert forall|x: Seq<char>| #[trigger] nv.to_set().contains(x) <==> old_views.to_set().insert(name@).contains(x) by {
            if nv.contains(x) {
                let k = choose|k: int| 0 <= k < nv.len() && nv[k] == x;
                if k < i {
                    assert(old_views[k] == x);
                } else if k > i {
                    assert(old_views[k - 1] == x);
                }
            }
            if x == name@ {
                assert(nv[i as int] == x);
            }
            if old_views.contains(x) {
                let k = choose|k: int| 0 <= k < old_views.len() && old_views[k] == x;
                if k < i {
                    assert(nv[k] == x);
                } else {
                    assert(nv[k + 1] == x);
                }
            }
        }
        assert(nv.to_set() =~= old_views.to_set().insert(name@));
    }
}

/// No string comes strictly before itself.
pub proof fn lemma_text_less_irreflexive(a: Seq<char>)
    ensures
        !text_less(a, a),
    decreases a.len(),
{
    if a.len() > 0 {
        lemma_text_less_irreflexive(a.drop_first());
    }
}

/// Two strictly sorted lists holding the same strings are the same list.
pub proof fn lemma_sorted_unique(a: Seq<Seq<char>>, b: Seq<Seq<char>>)
    requires
        strictly_sorted(a),
        strictly_sorted(b),
        a.to_set() == b.to_set(),
    ensures
        a == b,
    decreases a.len(),
{
    if a.len() == 0 {
        if b.len() > 0 {
            assert(b.to_set().contains(b[0]));
        }
        assert(a =~= b);
    } else {
        assert(a.to_set().contains(a[0]));
        assert(b.contains(a[0]));
        assert(b.len() > 0);
        assert(b.to_set().contains(b[0]));
        assert(a.contains(b[0]));
        let k = choose|k: int| 0 <= k < b.len() && b[k] == a[0];
        let j = choose|j: int| 0 <= j < a.len() && a[j] == b[0];
        if k > 0 && j > 0 {
            assert(text_less(b[0], b[k]));
            assert(text_less(a[0], a[j]));
            lemma_text_less_trans(a[0], b[0], a[0]);
            lemma_text_less_irreflexive(a[0]);
        }
        assert(a[0] == b[0]) by {
            if k == 0 {
            } else {
                assert(j == 0);
            }
        }
        let a2 = a.drop_first();
        let b2 = b.drop_first();
        assert forall|x: Seq<char>| a2.to_set().contains(x) <==> b2.to_set().contains(x) by {
            if a2.contains(x) {
                let i = choose|i: int| 0 <= i < a2.len() && a2[i] == x;
                assert(a[i + 1] == x);
                assert(text_less(a[0], a[i + 1]));
                lemma_text_less_irreflexive(x);
                assert(a.to_set().contains(x));
                assert(b.contains(x));
                let q = choose|q: int| 0 <= q < b.len() && b[q] == x;
                assert(q != 0);
                assert(b2[q - 1] == x);
            }
            if b2.contains(x) {
                let i = choose|i: int| 0 <= i < b2.len() && b2[i] == x;
                assert(b[i + 1] == x);
                assert(text_less(b[0], b[i + 1]));
                lemma_text_less_irreflexive(x);
                assert(b.to_set().contains(x));
                assert(a.contains(x));
                let q = choose|q: int| 0 <= q < a.len() && a[q] == x;
                assert(q != 0);
                assert(a2[q - 1] == x);
            }
        }
        assert(a2.to_set() =~= b2.to_set());
        assert forall|i: int, j: int| 0 <= i < j < a2.len() implies text_less(#[trigger] a2[i], #[trigger] a2[j]) by {
            assert(a2[i] == a[i + 1] && a2[j] == a[j + 1]);
        }
        assert forall|i: int, j: int| 0 <= i < j < b2.len() implies text_less(#[trigger] b2[i], #[trigger] b2[j]) by {
            assert(b2[i] == b[i + 1] && b2[j] == b[j + 1]);
        }
        lemma_sorted_unique(a2, b2);
        assert(a =~= seq![a[0]] + a2);
        assert(b =~= seq![b[0]] + b2);
    }
}

/// The strictly sorted list holding the strings of `x`.
pub open spec fn sorted_form(x: Seq<Seq<char>>) -> Seq<Seq<char>> {
    choose|s: Seq<Seq<char>>| strictly_sorted(s) && s.to_set() == x.to_set()
}

/// A strictly sorted list holding the strings of `x` is its sorted form.
pub proof fn lemma_sorted_form(r: Seq<Seq<char>>, x: Seq<Seq<char>>)
    requires
        strictly_sorted(r),
        r.to_set() == x.to_set(),
    ensures
        r == sorted_form(x),
{
    let s = sorted_form(x);
    assert(strictly_sorted(s) && s.to_set() == x.to_set());
    lemma_sorted_unique(r, s);
}

/// The distinct strings of a list, sorted.
pub fn sorted_distinct(list: &Vec<String>) -> (r: Vec<String>)
    ensures
        strictly_sorted(string_views(r@)),
        string_views(r@).to_set() == string_views(list@).to_set(),
        string_views(r@) == sorted_form(string_views(list@)),
{
    let ghost names = string_views(list@);
    let mut r: Vec<String> = Vec::new();
    let mut i: usize = 0;
    proof {
        assert(string_views(r@).to_set() =~= names.take(0).to_set());
    }
    while i < list.len()
        invariant
            i <= list.len(),
            names == string_views(list@),
            strictly_sorted(string_views(r@)),
            string_views(r@).to_set() == names.take(i as int).to_set(),
        decreases list.len() - i,
    {
        insert_sorted(&mut r, copy_str(list[i].as_str()));
        proof {
            assert(names[i as int] == list@[i as int]@);
            assert(names.take(i + 1) =~= names.take(i as int).push(names[i as int]));
            names.take(i as int).lemma_push_to_set_commute(names[i as int]);
        }
        i = i + 1;
    }
    proof {
        assert(names.take(list.len() as int) =~= names);
        lemma_sorted_form(string_views(r@), names);
    }
    r
}

} // verus!
