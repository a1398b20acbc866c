//! Memory figures of the running process, read from the text of
//! `/proc/self/status`, and the rules by which the screenshot memory bench
//! judges a run.

use vstd::prelude::*;

verus! {

/// Resident and peak-resident memory of the process, in kB.
#[derive(Clone, Copy, Debug, Default, PartialEq, Eq, Structural)]
pub struct ProcMem {
    pub vm_rss_kb: u64,
    pub vm_hwm_kb: u64,
}

// ── Character classes ───────────────────────────────────────────────────────

/// Unicode white space (the White_Space property), as `char::is_whitespace`
/// and `str::trim` use it.
pub open spec fn is_white_space(c: char) -> bool {
    ||| c == '\t' || c == '\n' || c == '\u{0B}' || c == '\u{0C}' || c == '\r' || c == ' '
    ||| c == '\u{85}' || c == '\u{A0}' || c == '\u{1680}'
    ||| ('\u{2000}' <= c && c <= '\u{200A}')
    ||| c == '\u{2028}' || c == '\u{2029}' || c == '\u{202F}' || c == '\u{205F}' || c == '\u{3000}'
}

pub open spec fn is_ascii_digit(c: char) -> bool {
    '0' <= c && c <= '9'
}

fn white_space(c: char) -> (r: bool)
    ensures
        r == is_white_space(c),
{
    c == '\t' || c == '\n' || c == '\u{0B}' || c == '\u{0C}' || c == '\r' || c == ' ' || c == '\u{85}'
        || c == '\u{A0}' || c == '\u{1680}' || ('\u{2000}' <= c && c <= '\u{200A}') || c == '\u{2028}'
        || c == '\u{2029}' || c == '\u{202F}' || c == '\u{205F}' || c == '\u{3000}'
}

// ── Positions in text ───────────────────────────────────────────────────────

/// `i` is the first position of `s` whose character satisfies `f`, or the
/// length of `s` when none does.
pub open spec fn is_first_where(s: Seq<char>, f: spec_fn(char) -> bool, i: int) -> bool {
    &&& 0 <= i <= s.len()
    &&& i < s.len() ==> f(s[i])
    &&& forall|k: int| 0 <= k < i ==> !f(#[trigger] s[k])
}

/// The first position of `s` whose character satisfies `f`, or `s.len()`.
pub open spec fn first_where(s: Seq<char>, f: spec_fn(char) -> bool) -> int {
    choose|i: int| is_first_where(s, f, i)
}

/// `b` is the end of `s` once the trailing characters satisfying `f` are
/// removed.
pub open spec fn is_end_before(s: Seq<char>, f: spec_fn(char) -> bool, b: int) -> bool {
    &&& 0 <= b <= s.len()
    &&& b > 0 ==> !f(s[b - 1])
    &&& forall|k: int| b <= k < s.len() ==> f(#[trigger] s[k])
}

pub open spec fn end_before(s: Seq<char>, f: spec_fn(char) -> bool) -> int {
    choose|b: int| is_end_before(s, f, b)
}

pub proof fn lemma_first_where_unique(s: Seq<char>, f: spec_fn(char) -> bool, i: int)
    requires
        is_first_where(s, f, i),
    ensures
        first_where(s, f) == i,
{
    let j = first_where(s, f);
    assert(is_first_where(s, f, j));
    if j < i {
        assert(!f(s[j]));
    } else if i < j {
        assert(!f(s[i]));
    }
}

pub proof fn lemma_end_before_unique(s: Seq<char>, f: spec_fn(char) -> bool, b: int)
    requires
        is_end_before(s, f, b),
    ensures
        end_before(s, f) == b,
{
    let c = end_before(s, f);
    assert(is_end_before(s, f, c));
    if c < b {
        assert(f(s[b - 1]));
    } else if b < c {
        assert(f(s[c - 1]));
    }
}

pub proof fn lemma_first_where_exists(s: Seq<char>, f: spec_fn(char) -> bool)
    ensures
        is_first_where(s, f, first_where(s, f)),
    decreases s.len(),
{
    if s.len() == 0 {
        assert(is_first_where(s, f, 0));
    } else if f(s[0]) {
        assert(is_first_where(s, f, 0));
    } else {
        let t = s.drop_first();
        lemma_first_where_exists(t, f);
        let i = first_where(t, f);
        assert forall|k: int| 0 <= k < i + 1 implies !f(#[trigger] s[k]) by {
            if k > 0 {
                assert(s[k] == t[k - 1]);
            }
        }
        assert(is_first_where(s, f, i + 1));
    }
}

/// Predicates on characters.
pub open spec fn white_pred() -> spec_fn(char) -> bool {
    |c: char| is_white_space(c)
}

pub open spec fn non_white_pred() -> spec_fn(char) -> bool {
    |c: char| !is_white_space(c)
}

pub open spec fn char_pred(x: char) -> spec_fn(char) -> bool {
    |c: char| c == x
}

// ── Text functions ──────────────────────────────────────────────────────────

/// `s` without leading white space.
pub open spec fn trim_start(s: Seq<char>) -> Seq<char> {
    s.skip(first_where(s, non_white_pred()))
}

/// `s` without leading and trailing white space.
pub open spec fn trim(s: Seq<char>) -> Seq<char> {
    let t = trim_start(s);
    t.take(end_before(t, white_pred()))
}

/// The first white-space-separated word of `s` (empty when there is none).
pub open spec fn first_word(s: Seq<char>) -> Seq<char> {
    let t = trim_start(s);
    t.take(first_where(t, white_pred()))
}

/// Decimal value of a string of ASCII digits.
pub open spec fn decimal_value(s: Seq<char>) -> nat
    decreases s.len(),
{
    if s.len() == 0 {
        0
    } else {
        decimal_value(s.drop_last()) * 10 + ((s.last() as u32) - ('0' as u32)) as nat
    }
}

/// The digits of a number: the text after an optional leading `+`.
pub open spec fn unsigned_digits(s: Seq<char>) -> Seq<char> {
    if s.len() > 0 && s[0] == '+' { s.drop_first() } else { s }
}

/// All characters of `d` are ASCII digits.
pub open spec fn all_ascii_digits(d: Seq<char>) -> bool {
    forall|i: int| 0 <= i < d.len() ==> is_ascii_digit(#[trigger] d[i])
}

/// An unsigned 64-bit number in decimal, as `str::parse::<u64>` reads it: an
/// optional `+`, then at least one ASCII digit and nothing else, within range.
pub open spec fn parse_u64(s: Seq<char>) -> Option<u64> {
    let d = unsigned_digits(s);
    if d.len() > 0 && all_ascii_digits(d) && decimal_value(d) <= u64::MAX {
        Some(decimal_value(d) as u64)
    } else {
        None
    }
}

/// A line with one trailing carriage return removed.
pub open spec fn without_cr(s: Seq<char>) -> Seq<char> {
    if s.len() > 0 && s.last() == '\r' { s.drop_last() } else { s }
}

/// The figures after reading one status line `key: value ...`: a `VmHWM` or
/// `VmRSS` key (white space around it ignored) sets that figure to the first
/// word of the value read as a number, or to 0 when it is none.
pub open spec fn apply_line(m: ProcMem, line: Seq<char>) -> ProcMem {
    let j = first_where(line, char_pred(':'));
    if j >= line.len() {
        m
    } else {
        let key = trim(line.take(j));
        let kb = match parse_u64(first_word(line.skip(j + 1))) {
            Some(v) => v,
            None => 0,
        };
        if key == "VmHWM"@ {
            ProcMem { vm_hwm_kb: kb, ..m }
        } else if key == "VmRSS"@ {
            ProcMem { vm_rss_kb: kb, ..m }
        } else {
            m
        }
    }
}

/// The figures after reading all lines of `s` in order. Lines end at `\n`
/// (a `\r` before it is dropped); the text after the last `\n` is a line when
/// it is not empty.
pub open spec fn apply_lines(m: ProcMem, s: Seq<char>) -> ProcMem
    decreases s.len(),
{
    if s.len() == 0 {
        m
    } else {
        let i = first_where(s, char_pred('\n'));
        proof {
            lemma_first_where_exists(s, char_pred('\n'));
        }
        if i < s.len() {
            apply_lines(apply_line(m, without_cr(s.take(i))), s.skip(i + 1))
        } else {
            apply_line(m, s)
        }
    }
}

/// The figures of a status text, starting from zero.
pub open spec fn proc_mem_of(s: Seq<char>) -> ProcMem {
    apply_lines(ProcMem { vm_rss_kb: 0, vm_hwm_kb: 0 }, s)
}

// ── Reading ─────────────────────────────────────────────────────────────────

/// The characters of a string.
fn chars_of(s: &str) -> (v: Vec<char>)
    ensures
        v@ == s@,
{
    let mut v: Vec<char> = Vec::new();
    for c in iter: s.chars()
        invariant
            v@ == iter.seq().take(iter.index() as int),
    {
        v.push(c);
    }
    v
}

/// First position in `v[a..b]` holding `x`, or `b`.
fn find_char(v: &Vec<char>, a: usize, b: usize, x: char) -> (r: usize)
    requires
        a <= b <= v.len(),
    ensures
        a <= r <= b,
        is_first_where(v@.subrange(a as int, b as int), char_pred(x), r - a),
{
    let mut i = a;
    while i < b && v[i] != x
        invariant
            a <= i <= b <= v.len(),
            forall|k: int| a <= k < i ==> v@[k] != x,
        decreases b - i,
    {
        i = i + 1;
    }
    let ghost s = v@.subrange(a as int, b as int);
    assert forall|k: int| 0 <= k < i - a implies !char_pred(x)(#[trigger] s[k]) by {
        assert(s[k] == v@[a + k]);
    }
    if i < b {
        assert(s[i - a] == v@[i as int]);
        assert(char_pred(x)(s[i - a]));
    }
    i
}

/// First position in `v[a..b]` holding white space (`want_white`) or
/// holding none (`!want_white`), or `b`.
fn find_class(v: &Vec<char>, a: usize, b: usize, want_white: bool) -> (r: usize)
    requires
        a <= b <= v.len(),
    ensures
        a <= r <= b,
        is_first_where(
            v@.subrange(a as int, b as int),
            if want_white { white_pred() } else { non_white_pred() },
            r - a,
        ),
{
    let mut i = a;
    while i < b && white_space(v[i]) != want_white
        invariant
            a <= i <= b <= v.len(),
            forall|k: int| a <= k < i ==> is_white_space(v@[k]) != want_white,
        decreases b - i,
    {
        i = i + 1;
    }
    let ghost s = v@.subrange(a as int, b as int);
    let ghost f = if want_white { white_pred() } else { non_white_pred() };
    assert forall|k: int| 0 <= k < i - a implies !f(#[trigger] s[k]) by {
        assert(s[k] == v@[a + k]);
    }
    if i < b {
        assert(s[i - a] == v@[i as int]);
        assert(f(s[i - a]));
    }
    i
}

/// End of `v[a..b]` once its trailing white space is removed.
fn trim_end_of(v: &Vec<char>, a: usize, b: usize) -> (r: usize)
    requires
        a <= b <= v.len(),
    ensures
        a <= r <= b,
        is_end_before(v@.subrange(a as int, b as int), white_pred(), r - a),
{
    let mut e = b;
    while e > a && white_space(v[e - 1])
        invariant
            a <= e <= b <= v.len(),
            forall|k: int| e <= k < b ==> is_white_space(v@[k]),
        decreases e - a,
    {
        e = e - 1;
    }
    let ghost s = v@.subrange(a as int, b as int);
    assert forall|k: int| e - a <= k < s.len() implies white_pred()(#[trigger] s[k]) by {
        assert(s[k] == v@[a + k]);
    }
    if e > a {
        assert(s[e - a - 1] == v@[e - 1]);
        assert(!white_pred()(s[e - a - 1]));
    }
    e
}

/// Are `v[a..b]` and `w` the same characters?
fn range_eq(v: &Vec<char>, a: usize, b: usize, w: &Vec<char>) -> (r: bool)
    requires
        a <= b <= v.len(),
    ensures
        r == (v@.subrange(a as int, b as int) == w@),
{
    if b - a != w.len() {
        return false;
    }
    let mut i: usize = 0;
    while i < w.len()
        invariant
            b - a == w.len(),
            a <= b <= v.len(),
            i <= w.len(),
            forall|k: int| 0 <= k < i ==> v@[a + k] == w@[k],
        decreases w.len() - i,
    {
        if v[a + i] != w[i] {
            assert(v@.subrange(a as int, b as int)[i as int] != w@[i as int]);
            return false;
        }
        i = i + 1;
    }
    assert(v@.subrange(a as int, b as int) =~= w@);
    true
}

proof fn lemma_decimal_prefix_grows(d: Seq<char>, k: int)
    requires
        0 <= k <= d.len(),
        forall|i: int| 0 <= i < d.len() ==> is_ascii_digit(#[trigger] d[i]),
    ensures
        decimal_value(d.take(k)) <= decimal_value(d),
    decreases d.len() - k,
{
    if k < d.len() {
        lemma_decimal_prefix_grows(d, k + 1);
        assert(d.take(k + 1).drop_last() =~= d.take(k));
    } else {
        assert(d.take(k) =~= d);
    }
}

/// `v[a..b]` read as an unsigned 64-bit decimal number.
fn parse_u64_range(v: &Vec<char>, a: usize, b: usize) -> (r: Option<u64>)
    requires
        a <= b <= v.len(),
    ensures
        r == parse_u64(v@.subrange(a as int, b as int)),
{
    let ghost s = v@.subrange(a as int, b as int);
    let start = if a < b && v[a] == '+' { a + 1 } else { a };
    let ghost d = v@.subrange(start as int, b as int);
    assert(d =~= unsigned_digits(s));
    if start == b {
        return None;
    }
    let mut value: u64 = 0;
    let mut i = start;
    while i < b
        invariant
            a <= start < b <= v.len(),
            start <= i <= b,
            d == v@.subrange(start as int, b as int),
            s == v@.subrange(a as int, b as int),
            d == unsigned_digits(s),
            forall|k: int| 0 <= k < i - start ==> is_ascii_digit(#[trigger] d[k]),
            value == decimal_value(d.take(i - start)),
        decreases b - i,
    {
        let c = v[i];
        assert(c == d[i - start]);
        if !('0' <= c && c <= '9') {
            assert(!is_ascii_digit(d[i - start]));
            return None;
        }
        let digit = (c as u32 - '0' as u32) as u64;
        assert(d.take(i - start + 1).drop_last() =~= d.take(i - start));
        assert(decimal_value(d.take(i - start + 1)) == value * 10 + digit);
        let next = match value.checked_mul(10) {
            Some(x) => x.checked_add(digit),
            None => None,
        };
        match next {
            Some(x) => {
                value = x;
            },
            None => {
                proof {
                    assert forall|k: int| 0 <= k < i - start + 1 implies is_ascii_digit(#[trigger] d.take(i - start + 1)[k]) by {}
                    assert(value * 10 + digit > u64::MAX);
                    if all_ascii_digits(d) {
                        lemma_decimal_prefix_grows(d, i - start + 1);
                        assert(decimal_value(d) > u64::MAX);
                    }
                }
                return None;
            },
        }
        i = i + 1;
    }
    assert(d.take(b - start) =~= d);
    Some(value)
}

/// Apply the status line `v[a..b]` to the figures.
fn apply_line_range(v: &Vec<char>, a: usize, b: usize, m: ProcMem, hwm_key: &Vec<char>, rss_key: &Vec<char>) -> (r: ProcMem)
    requires
        a <= b <= v.len(),
        hwm_key@ == "VmHWM"@,
        rss_key@ == "VmRSS"@,
    ensures
        r == apply_line(m, v@.subrange(a as int, b as int)),
{
    let ghost line = v@.subrange(a as int, b as int);
    let c = find_char(v, a, b, ':');
    proof {
        lemma_first_where_unique(line, char_pred(':'), c - a);
    }
    if c == b {
        return m;
    }
    // The key: white space trimmed from both ends.
    let ks = find_class(v, a, c, false);
    let ke = trim_end_of(v, ks, c);
    proof {
        assert(line.take(c - a) =~= v@.subrange(a as int, c as int));
        lemma_first_where_unique(v@.subrange(a as int, c as int), non_white_pred(), ks - a);
        assert(v@.subrange(a as int, c as int).skip(ks - a) =~= v@.subrange(ks as int, c as int));
        lemma_end_before_unique(v@.subrange(ks as int, c as int), white_pred(), ke - ks);
        assert(v@.subrange(ks as int, c as int).take(ke - ks) =~= v@.subrange(ks as int, ke as int));
        assert(trim(line.take(c - a)) == v@.subrange(ks as int, ke as int));
    }
    // The value: its first word.
    let vs = find_class(v, c + 1, b, false);
    let ve = find_class(v, vs, b, true);
    proof {
        assert(line.skip(c - a + 1) =~= v@.subrange(c + 1, b as int));
        lemma_first_where_unique(v@.subrange(c + 1, b as int), non_white_pred(), vs - (c + 1));
        assert(v@.subrange(c + 1, b as int).skip(vs - (c + 1)) =~= v@.subrange(vs as int, b as int));
        lemma_first_where_unique(v@.subrange(vs as int, b as int), white_pred(), ve - vs);
        assert(v@.subrange(vs as int, b as int).take(ve - vs) =~= v@.subrange(vs as int, ve as int));
        assert(first_word(line.skip(c - a + 1)) == v@.subrange(vs as int, ve as int));
    }
    let kb = match parse_u64_range(v, vs, ve) {
        Some(x) => x,
        None => 0,
    };
    if range_eq(v, ks, ke, hwm_key) {
        ProcMem { vm_hwm_kb: kb, ..m }
    } else if range_eq(v, ks, ke, rss_key) {
        ProcMem { vm_rss_kb: kb, ..m }
    } else {
        m
    }
}

/// Read the resident (`VmRSS`) and peak resident (`VmHWM`) memory, in kB,
/// from the text of `/proc/self/status`. A figure that is missing, or whose
/// value does not start with a number, reads as 0; when a key repeats, its
/// last line counts.
pub fn parse_proc_status(text: &str) -> (m: ProcMem)
    ensures
        m == proc_mem_of(text@),
{
    let v = chars_of(text);
    let hwm_key = chars_of("VmHWM");
    let rss_key = chars_of("VmRSS");
    let n = v.len();
    let mut m = ProcMem { vm_rss_kb: 0, vm_hwm_kb: 0 };
    let mut i: usize = 0;
    assert(v@.skip(0) =~= v@);
    while i < n
        invariant
            n == v.len(),
            v@ == text@,
            hwm_key@ == "VmHWM"@,
            rss_key@ == "VmRSS"@,
            i <= n,
            apply_lines(m, v@.skip(i as int)) == proc_mem_of(text@),
        decreases n - i,
    {
        let ghost rest = v@.skip(i as int);
        let j = find_char(&v, i, n, '\n');
        proof {
            assert(rest =~= v@.subrange(i as int, n as int));
            lemma_first_where_unique(rest, char_pred('\n'), j - i);
        }
        if j < n {
            let end = if j > i && v[j - 1] == '\r' { j - 1 } else { j };
            proof {
                assert(rest.take(j - i) =~= v@.subrange(i as int, j as int));
                assert(without_cr(rest.take(j - i)) =~= v@.subrange(i as int, end as int));
                assert(rest.skip(j - i + 1) =~= v@.skip(j + 1));
            }
            m = apply_line_range(&v, i, end, m, &hwm_key, &rss_key);
            i = j + 1;
        } else {
            m = apply_line_range(&v, i, n, m, &hwm_key, &rss_key);
            i = n;
            assert(v@.skip(n as int) =~= Seq::<char>::empty());
        }
    }
    assert(v@.skip(i as int) =~= Seq::<char>::empty());
    m
}

// ── Bench verdicts ──────────────────────────────────────────────────────────

/// How resident memory moved over one round of the bench.
#[derive(Clone, Copy, Debug, PartialEq, Eq, Structural)]
pub enum RssTrend {
    /// Grew by more than 30 MiB.
    Rising,
    /// Shrank by more than 10 MiB.
    Falling,
    /// Anything in between.
    Steady,
}

/// The trend of resident memory from its change over a round, in kB.
pub fn rss_trend(delta_kb: i64) -> (r: RssTrend)
    ensures
        r == if delta_kb > 30 * 1024 {
            RssTrend::Rising
        } else if delta_kb < -10 * 1024 {
            RssTrend::Falling
        } else {
            RssTrend::Steady
        },
{
    if delta_kb > 30 * 1024 {
        RssTrend::Rising
    } else if delta_kb < -10 * 1024 {
        RssTrend::Falling
    } else {
        RssTrend::Steady
    }
}

/// The bench's judgement of a whole run.
#[derive(Clone, Copy, Debug, PartialEq, Eq, Structural)]
pub enum LeakVerdict {
    /// The allocator's live heap grew by more than 10 MiB: a heap leak.
    HeapLeak,
    /// Resident memory grew by more than 200 MiB while the heap stayed: memory
    /// mapped by FFmpeg, or fragmentation.
    RssGrowth,
    /// No significant growth.
    NoGrowth,
}

/// Judge a run from the growth of the live heap (bytes) and of resident
/// memory (kB) between the baseline and the end.
pub fn leak_verdict(alloc_delta_bytes: i64, rss_delta_kb: i64) -> (r: LeakVerdict)
    ensures
        r == if alloc_delta_bytes > 10 * 1024 * 1024 {
            LeakVerdict::HeapLeak
        } else if rss_delta_kb > 200 * 1024 {
            LeakVerdict::RssGrowth
        } else {
            LeakVerdict::NoGrowth
        },
{
    if alloc_delta_bytes > 10 * 1024 * 1024 {
        LeakVerdict::HeapLeak
    } else if rss_delta_kb > 200 * 1024 {
        LeakVerdict::RssGrowth
    } else {
        LeakVerdict::NoGrowth
    }
}

/// Screenshots run at once in a round: the requested number, or all files
/// when 0 is requested.
pub fn batch_concurrency(requested: usize, files: usize) -> (r: usize)
    ensures
        r == if requested == 0 { files } else { requested },
{
    if requested == 0 {
        files
    } else {
        requested
    }
}

} // verus!
