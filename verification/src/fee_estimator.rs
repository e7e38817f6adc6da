//! Priority-fee estimation from a cache of recently observed
//! prioritization fees: the fees are sorted and a percentile chosen by the
//! requested urgency level is returned.

use vstd::prelude::*;
use vstd::relations::{sorted_by, total_ordering};
use crate::text::{str_eq};

verus! {

broadcast use vstd::seq_lib::group_to_multiset_ensures, vstd::multiset::group_multiset_axioms;

/// The fee returned while no fee has been observed yet.
pub const DEFAULT_PRIORITY_FEE: u64 = 5_000;

/// How many of the most recently fetched fees the cache keeps.
pub const MAX_CACHED_FEES: usize = 20;

/// Urgency levels a caller may ask a fee for.
#[derive(Clone, Copy, Debug, PartialEq, Eq, Structural)]
pub enum FeeLevel {
    Low,
    Medium,
    High,
    VeryHigh,
}

impl FeeLevel {
    /// The percentile (in percent) of the observed fees that this level asks for.
    pub open spec fn spec_percent(self) -> nat {
        match self {
            FeeLevel::Low => 25,
            FeeLevel::Medium => 50,
            FeeLevel::High => 75,
            FeeLevel::VeryHigh => 95,
        }
    }

    /// The rank of the level, from the cheapest (0) to the most urgent (3).
    pub open spec fn rank(self) -> nat {
        match self {
            FeeLevel::Low => 0,
            FeeLevel::Medium => 1,
            FeeLevel::High => 2,
            FeeLevel::VeryHigh => 3,
        }
    }

    /// The level a level name denotes: `"low"`, `"medium"`, `"high"` and
    /// `"very-high"`; any other name means the medium level.
    pub open spec fn of_name(name: Seq<char>) -> FeeLevel {
        if name == seq!['l', 'o', 'w'] {
            FeeLevel::Low
        } else if name == seq!['h', 'i', 'g', 'h'] {
            FeeLevel::High
        } else if name == seq!['v', 'e', 'r', 'y', '-', 'h', 'i', 'g', 'h'] {
            FeeLevel::VeryHigh
        } else {
            FeeLevel::Medium
        }
    }

    /// The percentile (in percent) of the observed fees that this level asks for.
    pub fn percent(&self) -> (p: u64)
        ensures
            p == self.spec_percent(),
    {
        match self {
            FeeLevel::Low => 25,
            FeeLevel::Medium => 50,
            FeeLevel::High => 75,
            FeeLevel::VeryHigh => 95,
        }
    }

    /// Parses a level name; unknown names fall back to the medium level.
    pub fn from_name(name: &str) -> (level: FeeLevel)
        ensures
            level == FeeLevel::of_name(name@),
    {
        proof {
            reveal_strlit("low");
            reveal_strlit("high");
            reveal_strlit("very-high");
        }
        assert("low"@ =~= seq!['l', 'o', 'w']);
        assert("high"@ =~= seq!['h', 'i', 'g', 'h']);
        assert("very-high"@ =~= seq!['v', 'e', 'r', 'y', '-', 'h', 'i', 'g', 'h']);
        if str_eq(name, "low") {
            FeeLevel::Low
        } else if str_eq(name, "high") {
            FeeLevel::High
        } else if str_eq(name, "very-high") {
            FeeLevel::VeryHigh
        } else {
            FeeLevel::Medium
        }
    }
}

/// `s` is in non-decreasing order.
pub open spec fn is_sorted(s: Seq<u64>) -> bool {
    forall|i: int, j: int| 0 <= i <= j < s.len() ==> s[i] <= s[j]
}

/// The order on fees.
pub open spec fn fee_order() -> spec_fn(u64, u64) -> bool {
    |x: u64, y: u64| x <= y
}

/// The fees of `s` in non-decreasing order.
pub open spec fn sorted_fees(s: Seq<u64>) -> Seq<u64> {
    s.sort_by(fee_order())
}

/// The index that the percentile `percent` (in percent) picks in a sorted
/// sequence of `len` items: `percent / 100 * (len - 1)`, rounded half up.
pub open spec fn percentile_index(len: nat, percent: nat) -> int {
    (percent * (len - 1) + 50) / 100
}

/// The item of `sorted` at the percentile `percent`, or 0 for no item.
pub open spec fn percentile_of(sorted: Seq<u64>, percent: nat) -> u64 {
    if sorted.len() == 0 {
        0
    } else {
        sorted[percentile_index(sorted.len(), percent)]
    }
}

/// The fee that the level `level` gets from the cached fees `fees`.
pub open spec fn priority_fee(fees: Seq<u64>, level: FeeLevel) -> u64 {
    if fees.len() == 0 {
        DEFAULT_PRIORITY_FEE
    } else {
        percentile_of(sorted_fees(fees), level.spec_percent())
    }
}

/// What the cache holds after a fetch returned `fetched`: the first
/// `MAX_CACHED_FEES` fetched fees, or the old contents when nothing came back.
pub open spec fn cache_after_fetch(old_fees: Seq<u64>, fetched: Seq<u64>) -> Seq<u64> {
    if fetched.len() == 0 {
        old_fees
    } else if fetched.len() <= MAX_CACHED_FEES {
        fetched
    } else {
        fetched.take(MAX_CACHED_FEES as int)
    }
}

proof fn lemma_fee_order_total()
    ensures
        total_ordering(fee_order()),
{
}

/// For percentages up to 100 the percentile index lies in the sequence.
pub proof fn lemma_percentile_index_in_range(len: nat, percent: nat)
    requires
        len >= 1,
        percent <= 100,
    ensures
        0 <= percentile_index(len, percent) < len,
{
    assert(percent * (len - 1) <= 100 * (len - 1)) by (nonlinear_arith)
        requires
            percent <= 100,
            len >= 1,
    ;
}

/// The percentile index is `percent / 100 * (len - 1)` rounded to the
/// nearest index, halves rounding up.
pub proof fn law_percentile_index_rounds_half_up(len: nat, percent: nat)
    requires
        len >= 1,
    ensures
        100 * percentile_index(len, percent) - 50 <= percent * (len - 1),
        percent * (len - 1) < 100 * percentile_index(len, percent) + 50,
{
    let x = percent * (len - 1);
    assert(x >= 0) by (nonlinear_arith)
        requires
            len >= 1,
            percent >= 0,
            x == percent * (len - 1),
    ;
    let i = (x + 50) / 100;
    assert(100 * i <= x + 50 < 100 * i + 100);
}

/// A larger percentage never picks an earlier index.
proof fn lemma_percentile_index_monotone(len: nat, p: nat, q: nat)
    requires
        len >= 1,
        p <= q,
    ensures
        percentile_index(len, p) <= percentile_index(len, q),
{
    assert(p * (len - 1) <= q * (len - 1)) by (nonlinear_arith)
        requires
            p <= q,
            len >= 1,
    ;
    assert((p * (len - 1) + 50) / 100 <= (q * (len - 1) + 50) / 100) by (nonlinear_arith)
        requires
            p * (len - 1) <= q * (len - 1),
    ;
}

/// Two sorted sequences holding the same fees are equal.
pub proof fn lemma_sorted_unique(a: Seq<u64>, b: Seq<u64>)
    requires
        is_sorted(a),
        is_sorted(b),
        a.to_multiset() == b.to_multiset(),
    ensures
        a == b,
    decreases a.len(),
{
    assert(a.len() == a.to_multiset().len());
    assert(b.len() == b.to_multiset().len());
    if a.len() > 0 {
        let n = a.len() - 1;
        let x = a[n as int];
        let y = b[n as int];
        assert(a.contains(x));
        assert(a.to_multiset().count(x) > 0);
        assert(b.contains(x));
        let k = choose|k: int| 0 <= k < b.len() && b[k] == x;
        assert(x <= y);
        assert(b.contains(y));
        assert(b.to_multiset().count(y) > 0);
        assert(a.contains(y));
        let m = choose|m: int| 0 <= m < a.len() && a[m] == y;
        assert(y <= x);
        let a0 = a.drop_last();
        let b0 = b.drop_last();
        assert(a =~= a0.push(x));
        assert(b =~= b0.push(x));
        assert(a0.to_multiset() =~= b0.to_multiset()) by {
            assert(a0.push(x).to_multiset() == a0.to_multiset().insert(x));
            assert(b0.push(x).to_multiset() == b0.to_multiset().insert(x));
            assert forall|v: u64| a0.to_multiset().count(v) == b0.to_multiset().count(v) by {
                assert(a0.to_multiset().insert(x).count(v) == b0.to_multiset().insert(x).count(v));
            }
        }
        lemma_sorted_unique(a0, b0);
        assert(a =~= b);
    } else {
        assert(a =~= b);
    }
}

/// The canonical sorted order of `s` is sorted and holds the fees of `s`.
pub proof fn lemma_sorted_fees(s: Seq<u64>)
    ensures
        is_sorted(sorted_fees(s)),
        sorted_fees(s).to_multiset() == s.to_multiset(),
        sorted_fees(s).len() == s.len(),
{
    lemma_fee_order_total();
    s.lemma_sort_by_ensures(fee_order());
    let t = sorted_fees(s);
    assert(sorted_by(t, fee_order()));
    assert forall|i: int, j: int| 0 <= i <= j < t.len() implies t[i] <= t[j] by {
        if i < j {
            assert((fee_order())(t[i], t[j]));
        }
    }
    assert(t.len() == t.to_multiset().len());
    assert(s.len() == s.to_multiset().len());
}

/// Any sorted rearrangement of `s` is its canonical sorted order.
pub proof fn lemma_sorted_fees_unique(s: Seq<u64>, t: Seq<u64>)
    requires
        is_sorted(t),
        t.to_multiset() == s.to_multiset(),
    ensures
        t == sorted_fees(s),
{
    lemma_sorted_fees(s);
    lemma_sorted_unique(t, sorted_fees(s));
}

/// Sorts fees into non-decreasing order.
pub fn sort_fees(fees: &Vec<u64>) -> (sorted: Vec<u64>)
    ensures
        sorted@ == sorted_fees(fees@),
        sorted@.len() == fees@.len(),
        is_sorted(sorted@),
        sorted@.to_multiset() == fees@.to_multiset(),
{
    let mut out: Vec<u64> = Vec::new();
    let mut i: usize = 0;
    while i < fees.len()
        invariant
            i <= fees.len(),
            is_sorted(out@),
            out@.to_multiset() == fees@.take(i as int).to_multiset(),
            out.len() == i,
        decreases fees.len() - i,
    {
        let x = fees[i];
        let mut pos: usize = 0;
        while pos < out.len() && out[pos] <= x
            invariant
                pos <= out.len(),
                forall|j: int| 0 <= j < pos ==> out@[j] <= x,
            decreases out.len() - pos,
        {
            pos = pos + 1;
        }
        let ghost before = out@;
        out.insert(pos, x);
        proof {
            before.insert_ensures(pos as int, x);
            assert(out@ == before.insert(pos as int, x));
            assert forall|a: int, b: int| 0 <= a <= b < out@.len() implies out@[a] <= out@[b] by {
                if a < pos as int && b < pos as int {
                } else if a < pos as int && b == pos as int {
                } else if a < pos as int {
                    assert(out@[b] == before[b - 1]);
                    assert(before[a] <= before[b - 1]);
                } else if a == pos as int && b == pos as int {
                } else if a == pos as int {
                    assert(out@[b] == before[b - 1]);
                    assert(pos < before.len());
                    assert(x < before[pos as int]);
                    assert(before[pos as int] <= before[b - 1]);
                } else {
                    assert(out@[a] == before[a - 1]);
                    assert(out@[b] == before[b - 1]);
                }
            }
            assert(fees@.take(i + 1) =~= fees@.take(i as int).push(x));
            assert(out@.to_multiset() == before.to_multiset().insert(x));
        }
        i = i + 1;
    }
    proof {
        assert(fees@.take(fees.len() as int) =~= fees@);
        lemma_sorted_fees_unique(fees@, out@);
    }
    out
}

/// The item of `sorted_data` at the percentile `percent` (in percent):
/// the item at index `percent / 100 * (len - 1)` rounded half up, or 0
/// when `sorted_data` is empty.
pub fn calculate_percentile(sorted_data: &[u64], percent: u64) -> (r: u64)
    requires
        sorted_data@.len() == 0 || percentile_index(sorted_data@.len(), percent as nat)
            < sorted_data@.len(),
    ensures
        r == percentile_of(sorted_data@, percent as nat),
{
    let len = sorted_data.len();
    if len == 0 {
        return 0;
    }
    let k: u128 = (len - 1) as u128;
    assert((percent as u128) * k <= 0xffff_ffff_ffff_ffff * 0xffff_ffff_ffff_ffff) by (nonlinear_arith)
        requires
            percent <= 0xffff_ffff_ffff_ffff,
            k <= 0xffff_ffff_ffff_ffff,
    ;
    let index = ((percent as u128) * k + 50) / 100;
    assert(index == percentile_index(len as nat, percent as nat));
    sorted_data[index as usize]
}

/// A fetch that returned fees replaces the cache with the first of them, in
/// fetch order: as many as were fetched, up to `MAX_CACHED_FEES`. A fetch
/// that returned nothing leaves the cache as it was.
pub proof fn law_fetch_caches_first_fees(old_fees: Seq<u64>, fetched: Seq<u64>)
    ensures
        fetched.len() == 0 ==> cache_after_fetch(old_fees, fetched) == old_fees,
        fetched.len() > 0 ==> {
            let cache = cache_after_fetch(old_fees, fetched);
            &&& cache.len() == if fetched.len() < MAX_CACHED_FEES { fetched.len() } else { MAX_CACHED_FEES as nat }
            &&& forall|i: int| 0 <= i < cache.len() ==> #[trigger] cache[i] == fetched[i]
        },
{
}

/// The fee quoted for any level is one of the cached fees, unless the cache
/// is empty.
pub proof fn law_priority_fee_is_observed(fees: Seq<u64>, level: FeeLevel)
    requires
        fees.len() > 0,
    ensures
        fees.contains(priority_fee(fees, level)),
{
    lemma_sorted_fees(fees);
    let t = sorted_fees(fees);
    let idx = percentile_index(t.len(), level.spec_percent());
    lemma_percentile_index_in_range(t.len(), level.spec_percent());
    assert(t.contains(t[idx]));
    assert(t.to_multiset().count(t[idx]) > 0);
}

/// A more urgent level is never quoted a lower fee than a less urgent one.
pub proof fn law_priority_fee_monotone(fees: Seq<u64>, lower: FeeLevel, higher: FeeLevel)
    requires
        lower.rank() <= higher.rank(),
    ensures
        priority_fee(fees, lower) <= priority_fee(fees, higher),
{
    if fees.len() > 0 {
        lemma_sorted_fees(fees);
        let t = sorted_fees(fees);
        lemma_percentile_index_in_range(t.len(), lower.spec_percent());
        lemma_percentile_index_in_range(t.len(), higher.spec_percent());
        lemma_percentile_index_monotone(t.len(), lower.spec_percent(), higher.spec_percent());
    }
}

/// The quoted fee depends only on which fees are cached, not on the order in
/// which they were fetched.
pub proof fn law_priority_fee_ignores_order(a: Seq<u64>, b: Seq<u64>, level: FeeLevel)
    requires
        a.to_multiset() == b.to_multiset(),
    ensures
        priority_fee(a, level) == priority_fee(b, level),
{
    assert(a.len() == a.to_multiset().len());
    assert(b.len() == b.to_multiset().len());
    lemma_sorted_fees(a);
    lemma_sorted_fees_unique(b, sorted_fees(a));
}

/// The fee quoted for each level at one moment.
#[derive(Debug, Clone, Copy, PartialEq, Eq, Structural)]
pub struct PriorityFees {
    pub low: u64,
    pub medium: u64,
    pub high: u64,
    pub very_high: u64,
}

/// A cache of the most recently observed prioritization fees.
pub struct FeeEstimator {
    recent_fees: Vec<u64>,
}

impl View for FeeEstimator {
    type V = Seq<u64>;

    closed spec fn view(&self) -> Seq<u64> {
        self.recent_fees@
    }
}

impl FeeEstimator {
    /// The cache never holds more than `MAX_CACHED_FEES` fees.
    pub open spec fn wf(&self) -> bool {
        self@.len() <= MAX_CACHED_FEES
    }

    /// An estimator that has observed no fee yet.
    pub fn new() -> (est: FeeEstimator)
        ensures
            est@ == Seq::<u64>::empty(),
            est.wf(),
    {
        FeeEstimator { recent_fees: Vec::new() }
    }

    /// The cached fees, in the order they were fetched.
    pub fn recent_fees(&self) -> (fees: &Vec<u64>)
        ensures
            fees@ == self@,
    {
        &self.recent_fees
    }

    /// Records the result of a fee fetch: the first `MAX_CACHED_FEES` fees
    /// replace the cache; an empty result (nothing fetched, or a failed
    /// fetch) leaves the cache as it was.
    pub fn update_fees(&mut self, fetched: Vec<u64>)
        ensures
            final(self)@ == cache_after_fetch(old(self)@, fetched@),
            old(self).wf() ==> final(self).wf(),
    {
        if fetched.len() > 0 {
            let mut fees = fetched;
            fees.truncate(MAX_CACHED_FEES);
            assert(fetched@.len() > MAX_CACHED_FEES ==> fees@ =~= fetched@.take(MAX_CACHED_FEES as int));
            self.recent_fees = fees;
        }
    }

    /// The priority fee for `level`: the level's percentile of the cached
    /// fees, or `DEFAULT_PRIORITY_FEE` while the cache is empty.
    pub fn priority_fee(&self, level: FeeLevel) -> (fee: u64)
        ensures
            fee == priority_fee(self@, level),
    {
        if self.recent_fees.len() == 0 {
            return DEFAULT_PRIORITY_FEE;
        }
        let sorted = sort_fees(&self.recent_fees);
        let percent = level.percent();
        proof {
            lemma_percentile_index_in_range(sorted@.len(), percent as nat);
        }
        calculate_percentile(sorted.as_slice(), percent)
    }

    /// The priority fee of every level.
    pub fn priority_fees(&self) -> (fees: PriorityFees)
        ensures
            fees.low == priority_fee(self@, FeeLevel::Low),
            fees.medium == priority_fee(self@, FeeLevel::Medium),
            fees.high == priority_fee(self@, FeeLevel::High),
            fees.very_high == priority_fee(self@, FeeLevel::VeryHigh),
    {
        PriorityFees {
            low: self.priority_fee(FeeLevel::Low),
            medium: self.priority_fee(FeeLevel::Medium),
            high: self.priority_fee(FeeLevel::High),
            very_high: self.priority_fee(FeeLevel::VeryHigh),
        }
    }

    /// The priority fee for the level named `level` (see `FeeLevel::of_name`).
    pub fn get_priority_fee_for_level(&self, level: &str) -> (fee: u64)
        ensures
            fee == priority_fee(self@, FeeLevel::of_name(level@)),
    {
        let lvl = FeeLevel::from_name(level);
        self.priority_fee(lvl)
    }
}

} // verus!
