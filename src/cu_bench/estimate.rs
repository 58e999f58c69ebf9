use vstd::prelude::*;
use vstd::relations::{sorted_by, total_ordering};
use vstd::seq_lib::lemma_sorted_unique;
use vstd::seq_lib::lemma_multiset_commutative;
use crate::cu_bench::context::InstructionExecutionContext;

verus! {

broadcast use vstd::seq_lib::group_to_multiset_ensures;

/// The order on samples: ascending.
pub open spec fn sample_leq() -> spec_fn(u64, u64) -> bool {
    |a: u64, b: u64| a <= b
}

/// The samples in ascending order.
pub open spec fn sorted_samples(s: Seq<u64>) -> Seq<u64> {
    s.sort_by(sample_leq())
}

/// Zero-based index of percentile level `p` among `n` sorted samples.
pub open spec fn percentile_index(n: int, p: int) -> int {
    (n - 1) * p / 100
}

/// The sample found at percentile level `p` (0 is the minimum, 100 the maximum).
pub open spec fn order_statistic(s: Seq<u64>, p: int) -> u64 {
    sorted_samples(s)[percentile_index(s.len() as int, p)]
}

proof fn lemma_sample_leq_total()
    ensures
        total_ordering(sample_leq()),
{
}

/// `sorted_samples` is sorted and holds the same samples.
pub proof fn lemma_sorted_samples(s: Seq<u64>)
    ensures
        sorted_by(sorted_samples(s), sample_leq()),
        sorted_samples(s).to_multiset() == s.to_multiset(),
        sorted_samples(s).len() == s.len(),
{
    lemma_sample_leq_total();
    s.lemma_sort_by_ensures(sample_leq());
    sorted_samples(s).to_multiset_ensures();
    s.to_multiset_ensures();
}

/// A sorted sequence with the samples of `s` is `sorted_samples(s)`.
pub proof fn lemma_sorted_is_sorted_samples(t: Seq<u64>, s: Seq<u64>)
    requires
        sorted_by(t, sample_leq()),
        t.to_multiset() == s.to_multiset(),
    ensures
        t == sorted_samples(s),
{
    lemma_sorted_samples(s);
    lemma_sample_leq_total();
    lemma_sorted_unique(t, sorted_samples(s), sample_leq());
}

proof fn lemma_insert_multiset(s: Seq<u64>, i: int, x: u64)
    requires
        0 <= i <= s.len(),
    ensures
        s.insert(i, x).to_multiset() == s.to_multiset().insert(x),
{
    let a = s.subrange(0, i);
    let b = s.subrange(i, s.len() as int);
    assert(s =~= a + b);
    assert(s.insert(i, x) =~= a.push(x) + b);
    lemma_multiset_commutative(a, b);
    lemma_multiset_commutative(a.push(x), b);
    a.to_multiset_ensures();
    assert(s.to_multiset().insert(x) =~= a.push(x).to_multiset().add(b.to_multiset()));
}

/// Returns the samples in ascending order.
pub fn sort_samples(samples: &[u64]) -> (r: Vec<u64>)
    ensures
        r@ == sorted_samples(samples@),
{
    let mut sorted: Vec<u64> = Vec::new();
    let n = samples.len();
    let mut i: usize = 0;
    while i < n
        invariant
            n == samples@.len(),
            i <= n,
            sorted@.len() == i,
            sorted_by(sorted@, sample_leq()),
            sorted@.to_multiset() == samples@.subrange(0, i as int).to_multiset(),
        decreases n - i,
    {
        let x = samples[i];
        let mut pos: usize = 0;
        while pos < sorted.len() && sorted[pos] <= x
            invariant
                pos <= sorted@.len(),
                forall|k: int| 0 <= k < pos ==> sorted@[k] <= x,
            decreases sorted@.len() - pos,
        {
            pos = pos + 1;
        }
        let ghost before = sorted@;
        sorted.insert(pos, x);
        proof {
            assert forall|a: int, b: int| 0 <= a < b < sorted@.len() implies
                #[trigger] (sample_leq())(sorted@[a], sorted@[b]) by {
                assert(sorted_by(before, sample_leq()));
                if b < pos {
                    assert((sample_leq())(before[a], before[b]));
                } else if b == pos {
                } else if a == pos {
                    assert(pos < before.len());
                    assert(before[pos as int] > x);
                    if pos < b - 1 {
                        assert((sample_leq())(before[pos as int], before[b - 1]));
                    }
                } else if a < pos {
                    assert((sample_leq())(before[a], before[b - 1]));
                } else {
                    assert((sample_leq())(before[a - 1], before[b - 1]));
                }
            }
            lemma_insert_multiset(before, pos as int, x);
            assert(samples@.subrange(0, i + 1) =~= samples@.subrange(0, i as int).push(x));
        }
        i = i + 1;
    }
    proof {
        assert(samples@.subrange(0, n as int) =~= samples@);
        lemma_sorted_is_sorted_samples(sorted@, samples@);
    }
    sorted
}

/// Zero-based index of percentile level `level` among `len` sorted samples.
pub fn percentile_position(len: usize, level: u64) -> (r: usize)
    requires
        len > 0,
        level <= 100,
    ensures
        r as int == percentile_index(len as int, level as int),
        r < len,
{
    let last: u128 = (len - 1) as u128;
    proof {
        assert(last * (level as u128) <= last * 100) by (nonlinear_arith)
            requires level <= 100;
        assert(last * (level as int) / 100 <= last) by (nonlinear_arith)
            requires level <= 100, last >= 0;
    }
    let idx: u128 = last * (level as u128) / 100;
    idx as usize
}


/// Kind and name of a benchmark.
#[derive(Debug, Clone)]
pub enum StatType {
    Instruction(String),
    Transaction(String),
}

/// Outcome of benchmarking one instruction.
#[derive(Debug, Clone)]
pub struct InstructionBenchmarkResult {
    pub instruction_name: String,
    pub cu_estimate: ComputeUnitStats,
    pub execution_context: InstructionExecutionContext,
    /// RFC 3339 timestamp of the result.
    pub generated_at: String,
    /// Name and version of the generating library.
    pub generated_by: String,
}

/// Confidence level of a compute-unit estimate.
#[derive(Debug, Clone, Copy, PartialEq, Eq, Structural)]
pub enum ComputeUnitLevel {
    /// Minimum observed usage (0th percentile).
    Min,
    /// Conservative estimate (25th percentile).
    Conservative,
    /// Balanced estimate (50th percentile).
    Balanced,
    /// Safe estimate (75th percentile).
    Safe,
    /// Very high estimate (95th percentile).
    VeryHigh,
    /// Maximum observed usage (100th percentile).
    UnsafeMax,
    /// An exact compute-unit value.
    Custom(u64),
    /// The balanced estimate times `numerator / denominator`, rounded down.
    Multiplier(u64, u64),
}

impl ComputeUnitLevel {
    /// A multiplier needs a non-zero denominator.
    pub open spec fn well_formed(self) -> bool {
        match self {
            ComputeUnitLevel::Multiplier(_, den) => den > 0,
            _ => true,
        }
    }
}

/// `floor(value * numerator / denominator)`, saturated at `u64::MAX`.
pub open spec fn scaled(value: u64, numerator: u64, denominator: u64) -> u64 {
    let exact = value as int * numerator as int / denominator as int;
    if exact > u64::MAX as int {
        u64::MAX
    } else {
        exact as u64
    }
}

/// Compute-unit statistics of one benchmark.
#[derive(Debug, Clone)]
pub struct ComputeUnitStats {
    /// Kind and name of the benchmark.
    pub stat_type: StatType,
    /// Minimum observed usage (0th percentile).
    pub min: u64,
    /// Conservative estimate (25th percentile).
    pub conservative: u64,
    /// Balanced estimate (50th percentile).
    pub balanced: u64,
    /// Safe estimate (75th percentile).
    pub safe: u64,
    /// Very high estimate (95th percentile).
    pub very_high: u64,
    /// Maximum observed usage (100th percentile).
    pub unsafe_max: u64,
    /// Number of samples the statistics were taken from.
    pub sample_size: usize,
}

/// The value of `level` given the named percentiles of a statistics record.
pub open spec fn level_value(
    min: u64,
    conservative: u64,
    balanced: u64,
    safe: u64,
    very_high: u64,
    unsafe_max: u64,
    level: ComputeUnitLevel,
) -> u64 {
    match level {
        ComputeUnitLevel::Min => min,
        ComputeUnitLevel::Conservative => conservative,
        ComputeUnitLevel::Balanced => balanced,
        ComputeUnitLevel::Safe => safe,
        ComputeUnitLevel::VeryHigh => very_high,
        ComputeUnitLevel::UnsafeMax => unsafe_max,
        ComputeUnitLevel::Custom(cu) => cu,
        ComputeUnitLevel::Multiplier(num, den) => scaled(balanced, num, den),
    }
}

/// Computes `scaled(value, numerator, denominator)`.
pub fn scale(value: u64, numerator: u64, denominator: u64) -> (r: u64)
    requires
        denominator > 0,
    ensures
        r == scaled(value, numerator, denominator),
{
    proof {
        assert(value as u128 * numerator as u128 <= u64::MAX as u128 * u64::MAX as u128)
            by (nonlinear_arith);
    }
    let product: u128 = value as u128 * numerator as u128;
    let exact: u128 = product / denominator as u128;
    if exact > u64::MAX as u128 {
        u64::MAX
    } else {
        exact as u64
    }
}

/// Picks the value of `level` from the named percentiles.
pub fn value_for_level(
    min: u64,
    conservative: u64,
    balanced: u64,
    safe: u64,
    very_high: u64,
    unsafe_max: u64,
    level: ComputeUnitLevel,
) -> (r: u64)
    requires
        level.well_formed(),
    ensures
        r == level_value(min, conservative, balanced, safe, very_high, unsafe_max, level),
{
    match level {
        ComputeUnitLevel::Min => min,
        ComputeUnitLevel::Conservative => conservative,
        ComputeUnitLevel::Balanced => balanced,
        ComputeUnitLevel::Safe => safe,
        ComputeUnitLevel::VeryHigh => very_high,
        ComputeUnitLevel::UnsafeMax => unsafe_max,
        ComputeUnitLevel::Custom(cu) => cu,
        ComputeUnitLevel::Multiplier(num, den) => scale(balanced, num, den),
    }
}

impl ComputeUnitStats {
    /// The statistics hold the order statistics of `s` and its size.
    pub open spec fn describes(self, s: Seq<u64>) -> bool {
        &&& self.min == order_statistic(s, 0)
        &&& self.conservative == order_statistic(s, 25)
        &&& self.balanced == order_statistic(s, 50)
        &&& self.safe == order_statistic(s, 75)
        &&& self.very_high == order_statistic(s, 95)
        &&& self.unsafe_max == order_statistic(s, 100)
        &&& self.sample_size == s.len()
    }

    /// Compute-unit value for the given confidence level.
    pub fn get_cu_for_level(&self, level: ComputeUnitLevel) -> (r: u64)
        requires
            level.well_formed(),
        ensures
            r == level_value(
                self.min,
                self.conservative,
                self.balanced,
                self.safe,
                self.very_high,
                self.unsafe_max,
                level,
            ),
    {
        value_for_level(
            self.min,
            self.conservative,
            self.balanced,
            self.safe,
            self.very_high,
            self.unsafe_max,
            level,
        )
    }

    /// Statistics of a non-empty series of measurements, in any order.
    pub fn from_measurements(stat_type: StatType, measurements: &[u64]) -> (r: Self)
        requires
            measurements@.len() > 0,
        ensures
            r.stat_type == stat_type,
            r.describes(measurements@),
    {
        let sorted = sort_samples(measurements);
        let len = sorted.len();
        proof {
            lemma_sorted_samples(measurements@);
        }
        let min = sorted[percentile_position(len, 0)];
        let conservative = sorted[percentile_position(len, 25)];
        let balanced = sorted[percentile_position(len, 50)];
        let safe = sorted[percentile_position(len, 75)];
        let very_high = sorted[percentile_position(len, 95)];
        let unsafe_max = sorted[percentile_position(len, 100)];
        ComputeUnitStats {
            stat_type,
            min,
            conservative,
            balanced,
            safe,
            very_high,
            unsafe_max,
            sample_size: len,
        }
    }
}


proof fn lemma_percentile_index_bounds(n: int, p: int)
    requires
        n > 0,
        0 <= p <= 100,
    ensures
        0 <= percentile_index(n, p) < n,
        percentile_index(n, 0) == 0,
        percentile_index(n, 100) == n - 1,
{
    assert(0 <= (n - 1) * p) by (nonlinear_arith)
        requires n > 0, p >= 0;
    assert((n - 1) * p <= (n - 1) * 100) by (nonlinear_arith)
        requires n > 0, p <= 100;
    assert((n - 1) * 100 / 100 == n - 1) by (nonlinear_arith);
}

/// For a non-empty sample series that is already in ascending order, the minimum
/// is its first sample and the maximum its last.
pub proof fn lemma_sorted_series_extremes(s: Seq<u64>)
    requires
        s.len() > 0,
        sorted_by(s, sample_leq()),
    ensures
        order_statistic(s, 0) == s[0],
        order_statistic(s, 100) == s[s.len() - 1],
        forall|r: ComputeUnitStats| #[trigger] r.describes(s) ==>
            r.min == s[0] && r.unsafe_max == s[s.len() - 1],
{
    s.to_multiset_ensures();
    lemma_sorted_is_sorted_samples(s, s);
    lemma_percentile_index_bounds(s.len() as int, 0);
}

/// Every percentile level of a non-empty series is one of its samples: nothing
/// is interpolated.
pub proof fn lemma_percentile_is_sample(s: Seq<u64>, p: int)
    requires
        s.len() > 0,
        0 <= p <= 100,
    ensures
        s.contains(order_statistic(s, p)),
{
    let t = sorted_samples(s);
    lemma_sorted_samples(s);
    lemma_percentile_index_bounds(s.len() as int, p);
    let i = percentile_index(s.len() as int, p);
    t.to_multiset_ensures();
    s.to_multiset_ensures();
    assert(t.contains(t[i]));
    assert(t.to_multiset().count(t[i]) > 0);
}

/// Two series holding the same samples in any order have the same statistics.
pub proof fn lemma_statistics_ignore_order(s1: Seq<u64>, s2: Seq<u64>)
    requires
        s1.to_multiset() == s2.to_multiset(),
    ensures
        sorted_samples(s1) == sorted_samples(s2),
        forall|p: int| order_statistic(s1, p) == #[trigger] order_statistic(s2, p),
        forall|r: ComputeUnitStats| #[trigger] r.describes(s1) <==> r.describes(s2),
{
    lemma_sorted_samples(s1);
    lemma_sorted_is_sorted_samples(sorted_samples(s1), s2);
    lemma_sorted_samples(s2);
}


/// A custom level is its own value whatever the samples; a multiplier scales the
/// balanced estimate and rounds down (saturating at `u64::MAX`).
pub proof fn lemma_custom_and_multiplier_levels(stats: ComputeUnitStats, x: u64, num: u64, den: u64)
    requires
        den > 0,
    ensures
        level_value(
            stats.min,
            stats.conservative,
            stats.balanced,
            stats.safe,
            stats.very_high,
            stats.unsafe_max,
            ComputeUnitLevel::Custom(x),
        ) == x,
        level_value(
            stats.min,
            stats.conservative,
            stats.balanced,
            stats.safe,
            stats.very_high,
            stats.unsafe_max,
            ComputeUnitLevel::Multiplier(num, den),
        ) as int == if stats.balanced as int * num as int / den as int <= u64::MAX as int {
            stats.balanced as int * num as int / den as int
        } else {
            u64::MAX as int
        },
{
}

/// Relies on chrono's `Utc::now` and `DateTime::to_rfc3339`: the current time as
/// an RFC 3339 timestamp.
#[verifier::external_body]
pub(crate) fn utc_now_rfc3339() -> (r: String) {
    chrono::Utc::now().to_rfc3339()
}

/// Position of the first entry named `key`, searching from `i`.
pub open spec fn find_entry<T>(entries: Seq<(String, T)>, key: Seq<char>, i: int) -> Option<int>
    decreases entries.len() - i,
{
    if i < 0 || i >= entries.len() {
        None
    } else if entries[i].0@ == key {
        Some(i)
    } else {
        find_entry(entries, key, i + 1)
    }
}

/// Names of the entries are pairwise distinct.
pub open spec fn names_unique<T>(entries: Seq<(String, T)>) -> bool {
    forall|i: int, j: int|
        0 <= i < j < entries.len() ==> #[trigger] entries[i].0@ != #[trigger] entries[j].0@
}

proof fn lemma_find_entry<T>(entries: Seq<(String, T)>, key: Seq<char>, i: int)
    requires
        0 <= i,
    ensures
        find_entry(entries, key, i) matches Some(k) ==> i <= k < entries.len()
            && entries[k].0@ == key,
        find_entry(entries, key, i) is None ==> forall|k: int|
            i <= k < entries.len() ==> #[trigger] entries[k].0@ != key,
    decreases entries.len() - i,
{
    if i < entries.len() {
        lemma_find_entry(entries, key, i + 1);
    }
}

/// Looks `key` up among named entries: the position of the first match.
pub fn find_named<T>(entries: &Vec<(String, T)>, key: &str) -> (r: Option<usize>)
    ensures
        r matches Some(k) ==> find_entry(entries@, key@, 0) == Some(k as int) && k
            < entries@.len(),
        r is None ==> find_entry(entries@, key@, 0) is None,
{
    proof {
        lemma_find_entry(entries@, key@, 0);
    }
    let wanted: String = key.to_owned();
    let mut i: usize = 0;
    while i < entries.len()
        invariant
            i <= entries@.len(),
            wanted@ == key@,
            find_entry(entries@, key@, 0) == find_entry(entries@, key@, i as int),
        decreases entries@.len() - i,
    {
        if entries[i].0 == wanted {
            return Some(i);
        }
        i = i + 1;
    }
    None
}

/// Database of compute-unit statistics keyed by benchmark name.
#[derive(Debug, Clone)]
pub struct ComputeUnitDatabase {
    /// Named statistics; a name occurs at most once.
    pub estimates: Vec<(String, ComputeUnitStats)>,
    /// RFC 3339 timestamp of creation.
    pub generated_at: String,
}

impl ComputeUnitDatabase {
    pub open spec fn well_formed(&self) -> bool {
        names_unique(self.estimates@)
    }

    /// Empty database stamped with the current time.
    pub fn new() -> (r: Self)
        ensures
            r.estimates@.len() == 0,
            r.well_formed(),
    {
        ComputeUnitDatabase { estimates: Vec::new(), generated_at: utc_now_rfc3339() }
    }

    /// Statistics stored under `instruction_type`, if any.
    pub fn get_estimate(&self, instruction_type: &str) -> (r: Option<&ComputeUnitStats>)
        ensures
            match find_entry(self.estimates@, instruction_type@, 0) {
                Some(k) => r == Some(&self.estimates@[k].1),
                None => r is None,
            },
    {
        match find_named(&self.estimates, instruction_type) {
            Some(k) => Some(&self.estimates[k].1),
            None => None,
        }
    }

    /// Compute-unit value at `level` of the statistics stored under
    /// `instruction_type`, if any.
    pub fn get_cu_estimate(&self, instruction_type: &str, level: ComputeUnitLevel) -> (r: Option<
        u64,
    >)
        requires
            level.well_formed(),
        ensures
            match find_entry(self.estimates@, instruction_type@, 0) {
                Some(k) => r == Some(
                    level_value(
                        self.estimates@[k].1.min,
                        self.estimates@[k].1.conservative,
                        self.estimates@[k].1.balanced,
                        self.estimates@[k].1.safe,
                        self.estimates@[k].1.very_high,
                        self.estimates@[k].1.unsafe_max,
                        level,
                    ),
                ),
                None => r is None,
            },
    {
        match self.get_estimate(instruction_type) {
            Some(est) => Some(est.get_cu_for_level(level)),
            None => None,
        }
    }

    /// Stores `stats` under `name`, replacing what was stored under it.
    pub fn insert(&mut self, name: String, stats: ComputeUnitStats)
        requires
            old(self).well_formed(),
        ensures
            final(self).well_formed(),
            final(self).generated_at == old(self).generated_at,
            match find_entry(old(self).estimates@, name@, 0) {
                Some(k) => final(self).estimates@ == old(self).estimates@.update(k, (name, stats)),
                None => final(self).estimates@ == old(self).estimates@.push((name, stats)),
            },
    {
        proof {
            lemma_find_entry(self.estimates@, name@, 0);
        }
        let wanted = name.as_str();
        match find_named(&self.estimates, wanted) {
            Some(k) => {
                self.estimates.set(k, (name, stats));
            },
            None => {
                self.estimates.push((name, stats));
            },
        }
    }
}

impl Default for ComputeUnitDatabase {
    fn default() -> (r: Self)
        ensures
            r.estimates@.len() == 0,
    {
        Self::new()
    }
}

} // verus!
