//! Running statistics over the signed timestamp deltas of one chain.
//!
//! A `ChainStats` is fully determined by the chain's name and the ordered
//! sequence of deltas recorded so far; every counter it exposes is a function
//! of that sequence, given below as a spec function.

use vstd::arithmetic::div_mod::{
    lemma_div_is_ordered, lemma_div_multiples_vanish, lemma_fundamental_div_mod,
    lemma_fundamental_div_mod_converse, lemma_mod_bound, lemma_mod_pos_bound,
};
use vstd::prelude::*;

use crate::clock::{block_time, chrono_now, millis_between, UtcInstant};

verus! {

/// Number of deltas classified "past": strictly positive.
pub open spec fn past_count(deltas: Seq<i64>) -> nat
    decreases deltas.len(),
{
    if deltas.len() == 0 {
        0
    } else {
        past_count(deltas.drop_last()) + if deltas.last() > 0 { 1nat } else { 0nat }
    }
}

/// Number of deltas classified "future": zero or negative.
pub open spec fn future_count(deltas: Seq<i64>) -> nat
    decreases deltas.len(),
{
    if deltas.len() == 0 {
        0
    } else {
        future_count(deltas.drop_last()) + if deltas.last() > 0 { 0nat } else { 1nat }
    }
}

/// Largest positive delta, or 0 when there is none.
pub open spec fn max_past(deltas: Seq<i64>) -> int
    decreases deltas.len(),
{
    if deltas.len() == 0 {
        0
    } else {
        let rest = max_past(deltas.drop_last());
        if deltas.last() > rest { deltas.last() as int } else { rest }
    }
}

/// Largest magnitude among the non-positive deltas, or 0 when there is none.
pub open spec fn max_future(deltas: Seq<i64>) -> int
    decreases deltas.len(),
{
    if deltas.len() == 0 {
        0
    } else {
        let rest = max_future(deltas.drop_last());
        if -deltas.last() > rest { -deltas.last() } else { rest }
    }
}

/// Exact sum of all deltas.
pub open spec fn delta_sum(deltas: Seq<i64>) -> int
    decreases deltas.len(),
{
    if deltas.len() == 0 {
        0
    } else {
        delta_sum(deltas.drop_last()) + deltas.last()
    }
}

/// Mean delta: the exact sum divided by the count, rounded towards negative
/// infinity; 0 for an empty sequence.
pub open spec fn mean_delta(deltas: Seq<i64>) -> int {
    if deltas.len() == 0 {
        0
    } else {
        delta_sum(deltas) / (deltas.len() as int)
    }
}

/// Every delta has a magnitude that an `i64` can hold.
pub open spec fn magnitudes_fit(deltas: Seq<i64>) -> bool {
    forall|i: int| 0 <= i < deltas.len() ==> #[trigger] deltas[i] > i64::MIN
}

/// The delta recorded for a block stamped `block_timestamp` seconds and
/// observed at `received`: observation time minus block time, in whole
/// milliseconds. Where the stamp is beyond the representable range,
/// `fallback` stands in for the block time. Instants are in nanoseconds since
/// the epoch.
pub open spec fn observed_delta_ms(block_timestamp: u64, received: int, fallback: int) -> i64 {
    let block = match block_time(block_timestamp) {
        Some(t) => t,
        None => fallback,
    };
    millis_between(block, received) as i64
}

/// What a `ChainStats` stands for: the chain's name and every delta recorded,
/// oldest first.
pub struct ChainStatsView {
    pub chain_name: Seq<char>,
    pub deltas: Seq<i64>,
}

/// Statistical data collected for one chain.
///
/// Every delta is kept for the delta table, so the memory taken grows with
/// the run. The counters do not depend on that: each is brought up to date in
/// constant time when a delta is recorded, the mean from a running sum that
/// is wide enough never to overflow.
#[derive(Debug)]
pub struct ChainStats {
    chain_name: String,
    total_blocks: usize,
    timestamp_future_blocks: usize,
    timestamp_past_blocks: usize,
    max_future_delta_ms: i64,
    max_past_delta_ms: i64,
    avg_time_delta_ms: i64,
    sum_delta_ms: i128,
    deltas: Vec<i64>,
}

impl View for ChainStats {
    type V = ChainStatsView;

    closed spec fn view(&self) -> ChainStatsView {
        ChainStatsView { chain_name: self.chain_name@, deltas: self.deltas@ }
    }
}

impl Default for ChainStats {
    /// Empty statistics for a chain without a name.
    fn default() -> (stats: Self)
        ensures
            stats.wf(),
            stats@.chain_name == Seq::<char>::empty(),
            stats@.deltas == Seq::<i64>::empty(),
    {
        ChainStats {
            chain_name: String::new(),
            total_blocks: 0,
            timestamp_future_blocks: 0,
            timestamp_past_blocks: 0,
            max_future_delta_ms: 0,
            max_past_delta_ms: 0,
            avg_time_delta_ms: 0,
            sum_delta_ms: 0,
            deltas: Vec::new(),
        }
    }
}

impl Clone for ChainStats {
    /// A copy that stands for the same name and the same deltas.
    fn clone(&self) -> (copy: Self)
        ensures
            copy@ == self@,
            self.wf() ==> copy.wf(),
    {
        let deltas = self.deltas.clone();
        assert(deltas@ =~= self.deltas@);
        ChainStats {
            chain_name: self.chain_name.clone(),
            total_blocks: self.total_blocks,
            timestamp_future_blocks: self.timestamp_future_blocks,
            timestamp_past_blocks: self.timestamp_past_blocks,
            max_future_delta_ms: self.max_future_delta_ms,
            max_past_delta_ms: self.max_past_delta_ms,
            avg_time_delta_ms: self.avg_time_delta_ms,
            sum_delta_ms: self.sum_delta_ms,
            deltas,
        }
    }
}

impl ChainStats {
    /// The counters agree with the recorded deltas.
    pub closed spec fn wf(&self) -> bool {
        &&& magnitudes_fit(self.deltas@)
        &&& self.total_blocks == self.deltas@.len()
        &&& self.timestamp_past_blocks == past_count(self.deltas@)
        &&& self.timestamp_future_blocks == future_count(self.deltas@)
        &&& self.max_past_delta_ms == max_past(self.deltas@)
        &&& self.max_future_delta_ms == max_future(self.deltas@)
        &&& self.sum_delta_ms == delta_sum(self.deltas@)
        &&& self.avg_time_delta_ms == mean_delta(self.deltas@)
    }

    /// The statistics that follow `self` once `delta_ms` has been recorded.
    pub open spec fn recorded(view: ChainStatsView, delta_ms: i64) -> ChainStatsView {
        ChainStatsView { chain_name: view.chain_name, deltas: view.deltas.push(delta_ms) }
    }

    /// Empty statistics for the chain called `chain_name`.
    pub fn new(chain_name: &str) -> (stats: Self)
        ensures
            stats.wf(),
            stats@.chain_name == chain_name@,
            stats@.deltas == Seq::<i64>::empty(),
    {
        ChainStats {
            chain_name: chain_name.to_owned(),
            total_blocks: 0,
            timestamp_future_blocks: 0,
            timestamp_past_blocks: 0,
            max_future_delta_ms: 0,
            max_past_delta_ms: 0,
            avg_time_delta_ms: 0,
            sum_delta_ms: 0,
            deltas: Vec::new(),
        }
    }

    /// Records one signed delta, in milliseconds: observation time minus
    /// block time. A positive delta counts as "past", zero or a negative one
    /// as "future"; the matching maximum grows if the magnitude exceeds it,
    /// and the mean is recomputed from the exact sum.
    ///
    /// The magnitude of the delta has to fit an `i64`, which leaves out
    /// `i64::MIN` alone; no two instants are that far apart.
    pub fn record_delta(&mut self, delta_ms: i64)
        requires
            old(self).wf(),
            delta_ms > i64::MIN,
        ensures
            final(self).wf(),
            final(self)@ == Self::recorded(old(self)@, delta_ms),
            final(self)@.deltas.len() == past_count(final(self)@.deltas) + future_count(
                final(self)@.deltas,
            ),
            past_count(final(self)@.deltas) == past_count(old(self)@.deltas) + if delta_ms > 0 {
                1nat
            } else {
                0nat
            },
            future_count(final(self)@.deltas) == future_count(old(self)@.deltas) + if delta_ms
                > 0 {
                0nat
            } else {
                1nat
            },
            max_past(final(self)@.deltas) >= max_past(old(self)@.deltas),
            max_future(final(self)@.deltas) >= max_future(old(self)@.deltas),
    {
        let ghost before = self.deltas@;
        self.deltas.push(delta_ms);
        let count: usize = self.deltas.len();
        proof {
            let after = self.deltas@;
            assert(after.drop_last() =~= before);
            assert(after.last() == delta_ms);
            assert forall|i: int| 0 <= i < after.len() implies #[trigger] after[i] > i64::MIN by {
                if i < before.len() {
                    assert(after[i] == before[i]);
                }
            }
            lemma_counts_partition(before);
            lemma_counts_partition(after);
            lemma_max_bounds(before);
            lemma_max_bounds(after);
            lemma_sum_bounds(before);
            lemma_sum_bounds(after);
            lemma_mean_bounds(after);
            assert(after.len() * i64::MIN >= -0x8000_0000_0000_0000_0000_0000_0000_0000)
                by (nonlinear_arith)
                requires
                    after.len() <= 0xffff_ffff_ffff_ffff,
            ;
            assert(after.len() * i64::MAX <= 0x7fff_ffff_ffff_ffff_ffff_ffff_ffff_ffff)
                by (nonlinear_arith)
                requires
                    after.len() <= 0xffff_ffff_ffff_ffff,
            ;
        }
        self.total_blocks = count;
        if delta_ms > 0 {
            self.timestamp_past_blocks = self.timestamp_past_blocks + 1;
            if delta_ms > self.max_past_delta_ms {
                self.max_past_delta_ms = delta_ms;
            }
        } else {
            self.timestamp_future_blocks = self.timestamp_future_blocks + 1;
            let magnitude: i64 = -delta_ms;
            if magnitude > self.max_future_delta_ms {
                self.max_future_delta_ms = magnitude;
            }
        }
        self.sum_delta_ms = self.sum_delta_ms + delta_ms as i128;
        let mean: i128 = floor_div(self.sum_delta_ms, count);
        self.avg_time_delta_ms = mean as i64;
    }

    /// Records the block stamped `block_timestamp` seconds since the epoch,
    /// observed at `received_time`. A stamp that is out of range does not stop
    /// the count: the current time then stands in for the block time.
    pub fn update(&mut self, block_timestamp: u64, received_time: UtcInstant)
        requires
            old(self).wf(),
            received_time.wf(),
        ensures
            final(self).wf(),
            exists|fallback: UtcInstant| #[trigger]
                fallback.wf() && final(self)@ == Self::recorded(
                    old(self)@,
                    observed_delta_ms(block_timestamp, received_time@, fallback@),
                ),
            block_time(block_timestamp) is Some ==> final(self)@ == Self::recorded(
                old(self)@,
                observed_delta_ms(block_timestamp, received_time@, 0),
            ),
            final(self)@.deltas.len() == past_count(final(self)@.deltas) + future_count(
                final(self)@.deltas,
            ),
    {
        match UtcInstant::from_block_timestamp(block_timestamp) {
            Some(block_instant) => {
                self.record_between(block_instant, received_time);
                assert(received_time.wf() && self@ == Self::recorded(
                    old(self)@,
                    observed_delta_ms(block_timestamp, received_time@, received_time@),
                ));
            },
            None => {
                let now = chrono_now();
                self.record_between(now, received_time);
                assert(now.wf() && self@ == Self::recorded(
                    old(self)@,
                    observed_delta_ms(block_timestamp, received_time@, now@),
                ));
            },
        }
    }

    /// Records the block stamped `block_timestamp` seconds since the epoch,
    /// observed at `received_time`, with `fallback` as the block time where
    /// the stamp is out of range.
    pub fn update_with_fallback(
        &mut self,
        block_timestamp: u64,
        received_time: UtcInstant,
        fallback: UtcInstant,
    )
        requires
            old(self).wf(),
            received_time.wf(),
            fallback.wf(),
        ensures
            final(self).wf(),
            final(self)@ == Self::recorded(
                old(self)@,
                observed_delta_ms(block_timestamp, received_time@, fallback@),
            ),
            final(self)@.deltas.len() == past_count(final(self)@.deltas) + future_count(
                final(self)@.deltas,
            ),
    {
        match UtcInstant::from_block_timestamp(block_timestamp) {
            Some(block_instant) => self.record_between(block_instant, received_time),
            None => self.record_between(fallback, received_time),
        }
    }

    /// Records the delta from `block_instant` to `received_time`.
    fn record_between(&mut self, block_instant: UtcInstant, received_time: UtcInstant)
        requires
            old(self).wf(),
            block_instant.wf(),
            received_time.wf(),
        ensures
            final(self).wf(),
            final(self)@ == Self::recorded(
                old(self)@,
                millis_between(block_instant@, received_time@) as i64,
            ),
            final(self)@.deltas.len() == past_count(final(self)@.deltas) + future_count(
                final(self)@.deltas,
            ),
    {
        let delta_ms: i64 = received_time.millis_since(&block_instant);
        self.record_delta(delta_ms);
    }

    /// Name of the chain these statistics belong to.
    pub fn chain_name(&self) -> (name: &String)
        ensures
            name@ == self@.chain_name,
    {
        &self.chain_name
    }

    /// Number of deltas recorded.
    pub fn total_blocks(&self) -> (total: usize)
        requires
            self.wf(),
        ensures
            total == self@.deltas.len(),
    {
        self.total_blocks
    }

    /// Number of recorded deltas that were strictly positive.
    pub fn timestamp_past_blocks(&self) -> (count: usize)
        requires
            self.wf(),
        ensures
            count == past_count(self@.deltas),
    {
        self.timestamp_past_blocks
    }

    /// Number of recorded deltas that were zero or negative.
    pub fn timestamp_future_blocks(&self) -> (count: usize)
        requires
            self.wf(),
        ensures
            count == future_count(self@.deltas),
    {
        self.timestamp_future_blocks
    }

    /// Largest positive delta recorded, in milliseconds; 0 if none.
    pub fn max_past_delta_ms(&self) -> (max: i64)
        requires
            self.wf(),
        ensures
            max == max_past(self@.deltas),
    {
        self.max_past_delta_ms
    }

    /// Largest magnitude of a zero or negative delta recorded, in
    /// milliseconds; 0 if none.
    pub fn max_future_delta_ms(&self) -> (max: i64)
        requires
            self.wf(),
        ensures
            max == max_future(self@.deltas),
    {
        self.max_future_delta_ms
    }

    /// Mean of the recorded deltas, rounded towards negative infinity; 0 if
    /// none was recorded.
    pub fn avg_time_delta_ms(&self) -> (mean: i64)
        requires
            self.wf(),
        ensures
            mean == mean_delta(self@.deltas),
    {
        self.avg_time_delta_ms
    }

    /// Every delta recorded, oldest first.
    pub fn deltas(&self) -> (deltas: &Vec<i64>)
        ensures
            deltas@ == self@.deltas,
    {
        &self.deltas
    }
}

/// What soundness says of the recorded deltas themselves: each has a
/// magnitude within `i64`, and their number is within `usize`.
pub proof fn lemma_wf_bounds(stats: ChainStats)
    requires
        stats.wf(),
    ensures
        magnitudes_fit(stats@.deltas),
        stats@.deltas.len() <= usize::MAX,
{
}

/// A delta is classified by its sign alone: recording a positive delta adds
/// one to the past count, and recording zero or a negative delta adds one to
/// the future count; the other count stays.
pub proof fn lemma_record_classifies(deltas: Seq<i64>, delta_ms: i64)
    ensures
        delta_ms > 0 ==> past_count(deltas.push(delta_ms)) == past_count(deltas) + 1
            && future_count(deltas.push(delta_ms)) == future_count(deltas),
        delta_ms <= 0 ==> future_count(deltas.push(delta_ms)) == future_count(deltas) + 1
            && past_count(deltas.push(delta_ms)) == past_count(deltas),
{
    assert(deltas.push(delta_ms).drop_last() =~= deltas);
}

/// The past and future counts partition the recorded deltas: after any
/// sequence of deltas, the total equals the sum of the two.
pub proof fn lemma_counts_partition(deltas: Seq<i64>)
    ensures
        past_count(deltas) + future_count(deltas) == deltas.len(),
    decreases deltas.len(),
{
    if deltas.len() > 0 {
        lemma_counts_partition(deltas.drop_last());
    }
}

/// Both maxima are magnitudes: never negative, and within `i64` as long as
/// every delta's magnitude is.
pub proof fn lemma_max_bounds(deltas: Seq<i64>)
    requires
        magnitudes_fit(deltas),
    ensures
        0 <= max_past(deltas) <= i64::MAX,
        0 <= max_future(deltas) <= i64::MAX,
    decreases deltas.len(),
{
    if deltas.len() > 0 {
        let rest = deltas.drop_last();
        assert forall|i: int| 0 <= i < rest.len() implies #[trigger] rest[i] > i64::MIN by {
            assert(rest[i] == deltas[i]);
        }
        lemma_max_bounds(rest);
        assert(deltas.last() == deltas[deltas.len() - 1]);
    }
}

/// The sum of `n` deltas lies between `n * i64::MIN` and `n * i64::MAX`.
pub proof fn lemma_sum_bounds(deltas: Seq<i64>)
    ensures
        deltas.len() * i64::MIN <= delta_sum(deltas) <= deltas.len() * i64::MAX,
    decreases deltas.len(),
{
    if deltas.len() > 0 {
        lemma_sum_bounds(deltas.drop_last());
    }
}

/// The mean of any sequence of deltas is itself an `i64`.
pub proof fn lemma_mean_bounds(deltas: Seq<i64>)
    ensures
        i64::MIN <= mean_delta(deltas) <= i64::MAX,
{
    if deltas.len() > 0 {
        let n = deltas.len() as int;
        let sum = delta_sum(deltas);
        lemma_sum_bounds(deltas);
        lemma_div_is_ordered(n * i64::MIN, sum, n);
        lemma_div_is_ordered(sum, n * i64::MAX, n);
        lemma_div_multiples_vanish(i64::MIN as int, n);
        lemma_div_multiples_vanish(i64::MAX as int, n);
        assert(n * i64::MIN == i64::MIN * n) by (nonlinear_arith);
        assert(n * i64::MAX == i64::MAX * n) by (nonlinear_arith);
    }
}

/// The mean is the exact sum divided by the count and rounded down: the
/// greatest number that, times the count, does not exceed the sum.
pub proof fn lemma_mean_is_floor(deltas: Seq<i64>)
    requires
        deltas.len() > 0,
    ensures
        mean_delta(deltas) * deltas.len() <= delta_sum(deltas) < (mean_delta(deltas) + 1)
            * deltas.len(),
{
    let n = deltas.len() as int;
    let sum = delta_sum(deltas);
    lemma_fundamental_div_mod(sum, n);
    lemma_mod_bound(sum, n);
    assert((sum / n) * n == n * (sum / n)) by (nonlinear_arith);
    assert((sum / n + 1) * n == n * (sum / n) + n) by (nonlinear_arith);
}

/// Recording one more delta never lowers either maximum.
pub proof fn lemma_max_never_decreases(deltas: Seq<i64>, delta_ms: i64)
    ensures
        max_past(deltas.push(delta_ms)) >= max_past(deltas),
        max_future(deltas.push(delta_ms)) >= max_future(deltas),
{
    assert(deltas.push(delta_ms).drop_last() =~= deltas);
}

/// Over a whole run, the maxima seen after any prefix of the deltas are no
/// larger than the maxima at the end.
pub proof fn lemma_max_monotone_in_prefix(deltas: Seq<i64>, k: int)
    requires
        0 <= k <= deltas.len(),
    ensures
        max_past(deltas.take(k)) <= max_past(deltas),
        max_future(deltas.take(k)) <= max_future(deltas),
    decreases deltas.len() - k,
{
    if k < deltas.len() {
        lemma_max_monotone_in_prefix(deltas, k + 1);
        assert(deltas.take(k + 1).drop_last() =~= deltas.take(k));
    } else {
        assert(deltas.take(k) =~= deltas);
    }
}

/// `max_past` bounds every positive delta from above and, unless it is 0, is
/// one of them; likewise `max_future` for the magnitudes of the others.
pub proof fn lemma_max_is_maximum(deltas: Seq<i64>)
    ensures
        forall|i: int| 0 <= i < deltas.len() ==> #[trigger] deltas[i] <= max_past(deltas),
        forall|i: int| 0 <= i < deltas.len() ==> -(#[trigger] deltas[i]) <= max_future(deltas),
        max_past(deltas) == 0 || exists|i: int|
            0 <= i < deltas.len() && #[trigger] deltas[i] == max_past(deltas),
        max_future(deltas) == 0 || exists|i: int|
            0 <= i < deltas.len() && -(#[trigger] deltas[i]) == max_future(deltas),
    decreases deltas.len(),
{
    if deltas.len() > 0 {
        let rest = deltas.drop_last();
        let last = deltas.len() - 1;
        lemma_max_is_maximum(rest);
        assert forall|i: int| 0 <= i < deltas.len() implies #[trigger] deltas[i] <= max_past(
            deltas,
        ) && -deltas[i] <= max_future(deltas) by {
            if i < last {
                assert(rest[i] == deltas[i]);
            }
        }
        if max_past(deltas) != 0 {
            if deltas[last] > max_past(rest) {
                assert(deltas[last] == max_past(deltas));
            } else {
                let i = choose|i: int| 0 <= i < rest.len() && #[trigger] rest[i] == max_past(rest);
                assert(deltas[i] == max_past(deltas));
            }
        }
        if max_future(deltas) != 0 {
            if -deltas[last] > max_future(rest) {
                assert(-deltas[last] == max_future(deltas));
            } else {
                let i = choose|i: int|
                    0 <= i < rest.len() && -(#[trigger] rest[i]) == max_future(rest);
                assert(-deltas[i] == max_future(deltas));
            }
        }
    }
}

/// Euclidean quotient of a negative number by a positive one, in terms of the
/// quotient and remainder of its magnitude.
proof fn lemma_floor_of_negative(a: int, n: int)
    requires
        a > 0,
        n > 0,
    ensures
        (-a) / n == if a % n == 0 { -(a / n) } else { -(a / n) - 1 },
{
    let q = a / n;
    let r = a % n;
    lemma_fundamental_div_mod(a, n);
    lemma_mod_pos_bound(a, n);
    if r == 0 {
        assert(-a == (-q) * n + 0) by (nonlinear_arith)
            requires
                a == n * q + r,
                r == 0,
        ;
        lemma_fundamental_div_mod_converse(-a, n, -q, 0);
    } else {
        assert(-a == (-q - 1) * n + (n - r)) by (nonlinear_arith)
            requires
                a == n * q + r,
        ;
        lemma_fundamental_div_mod_converse(-a, n, -q - 1, n - r);
    }
}

/// Quotient of `sum` by `count`, rounded towards negative infinity.
fn floor_div(sum: i128, count: usize) -> (quotient: i128)
    requires
        count > 0,
        sum > i128::MIN,
    ensures
        quotient == (sum as int) / (count as int),
{
    let n: i128 = count as i128;
    let q: i128 = sum / n;
    let r: i128 = sum % n;
    if r < 0 {
        proof {
            lemma_floor_of_negative(-(sum as int), n as int);
            lemma_fundamental_div_mod(-(sum as int), n as int);
            let a = (-(sum as int)) / (n as int);
            assert(n * (-a) == -(n * a)) by (nonlinear_arith);
            assert(q > i128::MIN) by (nonlinear_arith)
                requires
                    sum == n * q + r,
                    r < 0,
                    n >= 1,
                    sum > i128::MIN,
            ;
        }
        q - 1
    } else {
        proof {
            if sum < 0 {
                lemma_floor_of_negative(-(sum as int), n as int);
            }
        }
        q
    }
}

} // verus!
