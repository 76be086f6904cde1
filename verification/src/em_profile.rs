//! Counters of the opt-in profiling of electromagnetism render-cache rebuilds.
//!
//! The clock readings and the process-wide counter instance stay with the caller; this module
//! holds the counters, their snapshots and differences, and how the opt-in flag is read.

use crate::text::str_eq;
use vstd::prelude::*;
use vstd::string::StrSliceExecFns;

verus! {

/// Profiled stages of an electromagnetism render-cache rebuild.
#[derive(Clone, Copy, Debug, PartialEq, Eq, Structural)]
pub enum EmProfileMetric {
    RenderCache,
    SourceSampling,
    InverseCurl,
    TimeNormalization,
}

/// Calls and accumulated nanoseconds of one profiled stage at some instant.
#[derive(Clone, Copy, Debug, PartialEq, Eq, Structural)]
pub struct CounterSnapshot {
    pub calls: u64,
    pub nanos: u64,
}

/// Snapshots of every profiled stage.
#[derive(Clone, Copy, Debug, PartialEq, Eq, Structural)]
pub struct EmProfileSnapshot {
    pub render_cache: CounterSnapshot,
    pub source_sampling: CounterSnapshot,
    pub inverse_curl: CounterSnapshot,
    pub time_normalization: CounterSnapshot,
}

/// Running totals of one profiled stage; both totals wrap around on overflow.
#[derive(Clone, Copy, Debug, PartialEq, Eq, Structural)]
pub struct Counter {
    pub calls: u64,
    pub nanos: u64,
}

/// Running totals of every profiled stage.
#[derive(Clone, Copy, Debug, PartialEq, Eq, Structural)]
pub struct EmProfileCounters {
    pub render_cache: Counter,
    pub source_sampling: Counter,
    pub inverse_curl: Counter,
    pub time_normalization: Counter,
}

/// `a - b`, or zero when `b` is larger.
pub open spec fn saturating_sub(a: u64, b: u64) -> u64 {
    if a >= b {
        (a - b) as u64
    } else {
        0
    }
}

/// `a + b` modulo 2^64.
pub open spec fn wrapping_add(a: u64, b: u64) -> u64 {
    if a + b > u64::MAX {
        (a + b - u64::MAX - 1) as u64
    } else {
        (a + b) as u64
    }
}

impl CounterSnapshot {
    /// Calls and nanoseconds accumulated since `before`; a counter that went backwards reads
    /// as zero.
    pub fn delta_since(self, before: Self) -> (r: Self)
        ensures
            r.calls == saturating_sub(self.calls, before.calls),
            r.nanos == saturating_sub(self.nanos, before.nanos),
    {
        CounterSnapshot {
            calls: self.calls.saturating_sub(before.calls),
            nanos: self.nanos.saturating_sub(before.nanos),
        }
    }
}

impl EmProfileSnapshot {
    /// An all-zero snapshot, as reported while profiling is off.
    pub fn zero() -> (r: Self)
        ensures
            r == (EmProfileSnapshot {
                render_cache: CounterSnapshot { calls: 0, nanos: 0 },
                source_sampling: CounterSnapshot { calls: 0, nanos: 0 },
                inverse_curl: CounterSnapshot { calls: 0, nanos: 0 },
                time_normalization: CounterSnapshot { calls: 0, nanos: 0 },
            }),
    {
        let z = CounterSnapshot { calls: 0, nanos: 0 };
        EmProfileSnapshot {
            render_cache: z,
            source_sampling: z,
            inverse_curl: z,
            time_normalization: z,
        }
    }

    /// Per-stage activity since `before`.
    pub fn delta_since(self, before: Self) -> (r: Self)
        ensures
            r.render_cache.calls == saturating_sub(
                self.render_cache.calls,
                before.render_cache.calls,
            ),
            r.render_cache.nanos == saturating_sub(
                self.render_cache.nanos,
                before.render_cache.nanos,
            ),
            r.source_sampling.calls == saturating_sub(
                self.source_sampling.calls,
                before.source_sampling.calls,
            ),
            r.source_sampling.nanos == saturating_sub(
                self.source_sampling.nanos,
                before.source_sampling.nanos,
            ),
            r.inverse_curl.calls == saturating_sub(
                self.inverse_curl.calls,
                before.inverse_curl.calls,
            ),
            r.inverse_curl.nanos == saturating_sub(
                self.inverse_curl.nanos,
                before.inverse_curl.nanos,
            ),
            r.time_normalization.calls == saturating_sub(
                self.time_normalization.calls,
                before.time_normalization.calls,
            ),
            r.time_normalization.nanos == saturating_sub(
                self.time_normalization.nanos,
                before.time_normalization.nanos,
            ),
    {
        EmProfileSnapshot {
            render_cache: self.render_cache.delta_since(before.render_cache),
            source_sampling: self.source_sampling.delta_since(before.source_sampling),
            inverse_curl: self.inverse_curl.delta_since(before.inverse_curl),
            time_normalization: self.time_normalization.delta_since(before.time_normalization),
        }
    }
}

impl Counter {
    /// A counter with no recorded call.
    pub fn new() -> (r: Self)
        ensures
            r.calls == 0,
            r.nanos == 0,
    {
        Counter { calls: 0, nanos: 0 }
    }

    /// Records one call that took `nanos` nanoseconds.
    pub fn add(&mut self, nanos: u64)
        ensures
            final(self).calls == wrapping_add(old(self).calls, 1),
            final(self).nanos == wrapping_add(old(self).nanos, nanos),
    {
        self.calls = self.calls.wrapping_add(1);
        self.nanos = self.nanos.wrapping_add(nanos);
    }

    /// The current totals.
    pub fn snapshot(&self) -> (r: CounterSnapshot)
        ensures
            r.calls == self.calls,
            r.nanos == self.nanos,
    {
        CounterSnapshot { calls: self.calls, nanos: self.nanos }
    }
}

/// The counter of one stage.
pub open spec fn counter_of(c: EmProfileCounters, metric: EmProfileMetric) -> Counter {
    match metric {
        EmProfileMetric::RenderCache => c.render_cache,
        EmProfileMetric::SourceSampling => c.source_sampling,
        EmProfileMetric::InverseCurl => c.inverse_curl,
        EmProfileMetric::TimeNormalization => c.time_normalization,
    }
}

impl EmProfileCounters {
    /// Counters with no recorded call.
    pub fn new() -> (r: Self)
        ensures
            forall|m: EmProfileMetric| #[trigger] counter_of(r, m) == (Counter { calls: 0, nanos: 0 }),
    {
        EmProfileCounters {
            render_cache: Counter::new(),
            source_sampling: Counter::new(),
            inverse_curl: Counter::new(),
            time_normalization: Counter::new(),
        }
    }

    /// The counter of one stage.
    pub fn counter(&self, metric: EmProfileMetric) -> (r: &Counter)
        ensures
            *r == counter_of(*self, metric),
    {
        match metric {
            EmProfileMetric::RenderCache => &self.render_cache,
            EmProfileMetric::SourceSampling => &self.source_sampling,
            EmProfileMetric::InverseCurl => &self.inverse_curl,
            EmProfileMetric::TimeNormalization => &self.time_normalization,
        }
    }

    /// Records one call of `metric` that took `nanos` nanoseconds; other stages are untouched.
    pub fn record(&mut self, metric: EmProfileMetric, nanos: u64)
        ensures
            counter_of(*final(self), metric).calls == wrapping_add(
                counter_of(*old(self), metric).calls,
                1,
            ),
            counter_of(*final(self), metric).nanos == wrapping_add(
                counter_of(*old(self), metric).nanos,
                nanos,
            ),
            forall|m: EmProfileMetric|
                m != metric ==> #[trigger] counter_of(*final(self), m) == counter_of(
                    *old(self),
                    m,
                ),
    {
        match metric {
            EmProfileMetric::RenderCache => self.render_cache.add(nanos),
            EmProfileMetric::SourceSampling => self.source_sampling.add(nanos),
            EmProfileMetric::InverseCurl => self.inverse_curl.add(nanos),
            EmProfileMetric::TimeNormalization => self.time_normalization.add(nanos),
        }
    }

    /// Snapshots of every stage's totals.
    pub fn snapshot(&self) -> (r: EmProfileSnapshot)
        ensures
            r.render_cache == self.render_cache.snapshot_spec(),
            r.source_sampling == self.source_sampling.snapshot_spec(),
            r.inverse_curl == self.inverse_curl.snapshot_spec(),
            r.time_normalization == self.time_normalization.snapshot_spec(),
    {
        EmProfileSnapshot {
            render_cache: self.render_cache.snapshot(),
            source_sampling: self.source_sampling.snapshot(),
            inverse_curl: self.inverse_curl.snapshot(),
            time_normalization: self.time_normalization.snapshot(),
        }
    }
}

impl Counter {
    pub open spec fn snapshot_spec(self) -> CounterSnapshot {
        CounterSnapshot { calls: self.calls, nanos: self.nanos }
    }
}

/// Clamps an elapsed duration in nanoseconds to what a `u64` counter can hold.
pub fn elapsed_nanos(elapsed: u128) -> (r: u64)
    ensures
        r == if elapsed > u64::MAX as u128 {
            u64::MAX
        } else {
            elapsed as u64
        },
{
    if elapsed > u64::MAX as u128 {
        u64::MAX
    } else {
        elapsed as u64
    }
}

/// A snapshot taken right after another shows no activity, and recording one call of a stage
/// shows, in the difference of the snapshots around it, exactly that call and its duration for
/// that stage and nothing for the others (while the totals do not wrap around).
pub proof fn lemma_snapshot_deltas(c: EmProfileCounters, d: EmProfileCounters, m: EmProfileMetric, nanos: u64)
    requires
        counter_of(d, m).calls == wrapping_add(counter_of(c, m).calls, 1),
        counter_of(d, m).nanos == wrapping_add(counter_of(c, m).nanos, nanos),
        forall|k: EmProfileMetric| k != m ==> #[trigger] counter_of(d, k) == counter_of(c, k),
        counter_of(c, m).calls < u64::MAX,
        counter_of(c, m).nanos + nanos <= u64::MAX,
    ensures
        forall|k: EmProfileMetric|
            saturating_sub(#[trigger] counter_of(c, k).calls, counter_of(c, k).calls) == 0
                && saturating_sub(counter_of(c, k).nanos, counter_of(c, k).nanos) == 0,
        saturating_sub(counter_of(d, m).calls, counter_of(c, m).calls) == 1,
        saturating_sub(counter_of(d, m).nanos, counter_of(c, m).nanos) == nanos,
        forall|k: EmProfileMetric|
            k != m ==> saturating_sub(#[trigger] counter_of(d, k).calls, counter_of(c, k).calls)
                == 0 && saturating_sub(counter_of(d, k).nanos, counter_of(c, k).nanos) == 0,
{
}

/// Whether `c` has the Unicode `White_Space` property, as `char::is_whitespace` tests.
pub open spec fn is_whitespace(c: char) -> bool {
    let u = c as u32;
    ||| 0x9 <= u <= 0xD
    ||| u == 0x20
    ||| u == 0x85
    ||| u == 0xA0
    ||| u == 0x1680
    ||| 0x2000 <= u <= 0x200A
    ||| u == 0x2028
    ||| u == 0x2029
    ||| u == 0x202F
    ||| u == 0x205F
    ||| u == 0x3000
}

/// `s` without its leading and trailing whitespace.
pub open spec fn trimmed(s: Seq<char>) -> Seq<char> {
    s.subrange(first_kept(s, 0), last_kept(s, s.len() as int))
}

/// Index of the first character at or after `i` that is not whitespace (or the length).
pub open spec fn first_kept(s: Seq<char>, i: int) -> int
    decreases s.len() - i,
{
    if i >= s.len() || !is_whitespace(s[i]) {
        i
    } else {
        first_kept(s, i + 1)
    }
}

/// One past the last character before `j` that is not whitespace, but not below the first
/// kept character.
pub open spec fn last_kept(s: Seq<char>, j: int) -> int
    decreases j,
{
    if j <= 0 || j <= first_kept(s, 0) || !is_whitespace(s[j - 1]) {
        j
    } else {
        last_kept(s, j - 1)
    }
}

/// `c` with ASCII upper-case letters turned into lower case.
pub open spec fn ascii_lower(c: char) -> char {
    if 'A' <= c <= 'Z' {
        ((c as u32) + 32) as char
    } else {
        c
    }
}

/// The value of the profiling flag that turns profiling on: anything but an empty value or
/// `0`, `false`, `off`, `no` in any letter case, surrounding whitespace ignored.
pub open spec fn flag_value_enables(s: Seq<char>) -> bool {
    let v = trimmed(s).map_values(|c: char| ascii_lower(c));
    !(v == ""@ || v == "0"@ || v == "false"@ || v == "off"@ || v == "no"@)
}

fn is_whitespace_char(c: char) -> (b: bool)
    ensures
        b == is_whitespace(c),
{
    let u = c as u32;
    (0x9 <= u && u <= 0xD) || u == 0x20 || u == 0x85 || u == 0xA0 || u == 0x1680 || (0x2000 <= u
        && u <= 0x200A) || u == 0x2028 || u == 0x2029 || u == 0x202F || u == 0x205F || u
        == 0x3000
}

fn lower_matches(c: char, w: char) -> (b: bool)
    ensures
        b == (ascii_lower(c) == w),
{
    if 'A' <= c && c <= 'Z' {
        let u = (c as u32) + 32;
        let b = u == (w as u32);
        proof {
            if b {
                assert(w == (w as u32) as char);
            } else {
                assert(((u as char) as u32) == u);
            }
        }
        b
    } else {
        c == w
    }
}

/// Whether the characters `s[start..end]`, lowered, spell `word`.
fn lowered_range_is(s: &str, start: usize, end: usize, word: &str) -> (b: bool)
    requires
        start <= end <= s@.len(),
    ensures
        b == (s@.subrange(start as int, end as int).map_values(|c: char| ascii_lower(c))
            == word@),
{
    let ghost v = s@.subrange(start as int, end as int).map_values(|c: char| ascii_lower(c));
    let n = word.unicode_len();
    if end - start != n {
        return false;
    }
    let mut i: usize = 0;
    while i < n
        invariant
            start <= end <= s@.len(),
            end - start == n,
            n == word@.len(),
            v == s@.subrange(start as int, end as int).map_values(|c: char| ascii_lower(c)),
            i <= n,
            forall|j: int| 0 <= j < i ==> v[j] == word@[j],
        decreases n - i,
    {
        if !lower_matches(s.get_char(start + i), word.get_char(i)) {
            assert(v[i as int] != word@[i as int]);
            return false;
        }
        i = i + 1;
    }
    assert(v =~= word@);
    true
}

/// Whether the value of the profiling flag turns profiling on.
pub fn profile_flag_enables(value: &str) -> (b: bool)
    ensures
        b == flag_value_enables(value@),
{
    let ghost s = value@;
    let n = value.unicode_len();
    let mut start: usize = 0;
    while start < n && is_whitespace_char(value.get_char(start))
        invariant
            s == value@,
            n == s.len(),
            start <= n,
            first_kept(s, 0) == first_kept(s, start as int),
        decreases n - start,
    {
        start = start + 1;
    }
    assert(first_kept(s, 0) == start);
    let mut end: usize = n;
    while end > start && is_whitespace_char(value.get_char(end - 1))
        invariant
            s == value@,
            n == s.len(),
            start == first_kept(s, 0),
            start <= end <= n,
            last_kept(s, n as int) == last_kept(s, end as int),
        decreases end,
    {
        end = end - 1;
    }
    assert(last_kept(s, n as int) == end);
    assert(trimmed(s) == s.subrange(start as int, end as int));
    let off = lowered_range_is(value, start, end, "")
        || lowered_range_is(value, start, end, "0")
        || lowered_range_is(value, start, end, "false")
        || lowered_range_is(value, start, end, "off")
        || lowered_range_is(value, start, end, "no");
    !off
}

} // verus!
