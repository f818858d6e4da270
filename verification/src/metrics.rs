//! Metrics aggregation and statistical calculations: the value type for a
//! single measured call, integer mean, nearest-rank percentile over a sorted
//! list, and the aggregation of a whole run.
//!
//! All statistics are exact integer arithmetic: timings are milliseconds,
//! throughput is whole tokens per second, and money is counted in pico-USD
//! (one million-th of a micro-USD), so per-run costs are exact products of
//! token counts and per-million prices.

use vstd::arithmetic::div_mod::{lemma_div_is_ordered, lemma_div_multiples_vanish};
use vstd::arithmetic::mul::lemma_mul_upper_bound;
use vstd::prelude::*;

use crate::providers::{InferenceResponse, Pricing, MAX_PRICE_MICROUSD};

verus! {

/// Result from a single benchmark iteration.
#[derive(Clone, Copy, Debug)]
pub struct SingleRunResult {
    /// Time until the prompt was fully sent (ms).
    pub time_to_prompt_ms: u64,
    /// Time from prompt sent to first token received (ms).
    pub time_to_first_token_ms: u64,
    /// Total request latency (ms).
    pub total_latency_ms: u64,
    /// Number of input tokens.
    pub input_tokens: u32,
    /// Number of output tokens generated.
    pub output_tokens: u32,
    /// Cost of this run in pico-USD.
    pub cost_picousd: u64,
    /// One-time model load time, if reported (ms).
    pub model_load_time_ms: Option<u64>,
}

/// Output throughput of one run, in whole tokens per second; zero when the
/// run took no measurable time, never a division error.
pub open spec fn spec_tokens_per_sec(r: SingleRunResult) -> int {
    if r.total_latency_ms == 0 {
        0
    } else {
        (r.output_tokens * 1000) / (r.total_latency_ms as int)
    }
}

/// The exact cost of a response under a pricing, in pico-USD: each token
/// costs its per-million price read in micro-USD, which is the same number
/// in pico-USD per token.
pub open spec fn spec_cost_picousd(resp: InferenceResponse, pricing: Pricing) -> int {
    resp.input_tokens * pricing.input_per_million + resp.output_tokens * pricing.output_per_million
}

/// The single-run record a response converts to under a pricing.
pub open spec fn spec_run_result(resp: InferenceResponse, pricing: Pricing) -> SingleRunResult {
    SingleRunResult {
        time_to_prompt_ms: resp.time_to_prompt_ms,
        time_to_first_token_ms: resp.time_to_first_token_ms,
        total_latency_ms: resp.total_latency_ms,
        input_tokens: resp.input_tokens,
        output_tokens: resp.output_tokens,
        cost_picousd: spec_cost_picousd(resp, pricing) as u64,
        model_load_time_ms: resp.model_load_time_ms,
    }
}

/// The cost products of a bounded pricing stay below `u64::MAX`.
proof fn lemma_cost_fits(resp: InferenceResponse, pricing: Pricing)
    requires
        pricing.wf(),
    ensures
        0 <= spec_cost_picousd(resp, pricing) <= u64::MAX,
{
    lemma_mul_upper_bound(
        resp.input_tokens as int,
        u32::MAX as int,
        pricing.input_per_million as int,
        MAX_PRICE_MICROUSD as int,
    );
    lemma_mul_upper_bound(
        resp.output_tokens as int,
        u32::MAX as int,
        pricing.output_per_million as int,
        MAX_PRICE_MICROUSD as int,
    );
}

impl SingleRunResult {
    /// Calculate tokens per second (output throughput).
    pub fn tokens_per_sec(&self) -> (tps: u64)
        ensures
            tps as int == spec_tokens_per_sec(*self),
            self.total_latency_ms == 0 ==> tps == 0,
    {
        if self.total_latency_ms == 0 {
            return 0;
        }
        (self.output_tokens as u64 * 1000) / self.total_latency_ms
    }

    /// Create from an inference response with the provider's pricing.
    pub fn from_response(response: &InferenceResponse, pricing: Pricing) -> (r: SingleRunResult)
        requires
            pricing.wf(),
        ensures
            r == spec_run_result(*response, pricing),
            r.cost_picousd as int == spec_cost_picousd(*response, pricing),
    {
        proof {
            lemma_cost_fits(*response, pricing);
        }
        let input_cost = response.input_tokens as u64 * pricing.input_per_million;
        let output_cost = response.output_tokens as u64 * pricing.output_per_million;
        SingleRunResult {
            time_to_prompt_ms: response.time_to_prompt_ms,
            time_to_first_token_ms: response.time_to_first_token_ms,
            total_latency_ms: response.total_latency_ms,
            input_tokens: response.input_tokens,
            output_tokens: response.output_tokens,
            cost_picousd: input_cost + output_cost,
            model_load_time_ms: response.model_load_time_ms,
        }
    }
}

/// Sum of a sequence of 64-bit values, as an unbounded integer.
pub open spec fn sum_u64(s: Seq<u64>) -> int
    decreases s.len(),
{
    if s.len() == 0 {
        0
    } else {
        sum_u64(s.drop_last()) + s.last()
    }
}

/// The arithmetic mean, rounded down; zero for an empty sequence.
pub open spec fn spec_mean(s: Seq<u64>) -> int {
    if s.len() == 0 {
        0
    } else {
        sum_u64(s) / (s.len() as int)
    }
}

/// Appending one element adds its value to the sum.
proof fn lemma_sum_take_step(s: Seq<u64>, i: int)
    requires
        0 <= i < s.len(),
    ensures
        sum_u64(s.take(i + 1)) == sum_u64(s.take(i)) + s[i],
{
    assert(s.take(i + 1).drop_last() =~= s.take(i));
    assert(s.take(i + 1).last() == s[i]);
}

/// A sum of `n` values bounded by `u64::MAX` is at most `n * u64::MAX`.
proof fn lemma_sum_bound(s: Seq<u64>)
    ensures
        0 <= sum_u64(s) <= s.len() * (u64::MAX as int),
    decreases s.len(),
{
    if s.len() > 0 {
        lemma_sum_bound(s.drop_last());
    }
}

/// Calculate the mean of a list of values; 0 for an empty list.
pub fn mean(values: &Vec<u64>) -> (m: u64)
    ensures
        m as int == spec_mean(values@),
        values@.len() == 0 ==> m == 0,
{
    if values.len() == 0 {
        return 0;
    }
    let n = values.len();
    let mut acc: u128 = 0;
    let mut i: usize = 0;
    while i < n
        invariant
            n == values@.len(),
            0 <= i <= n,
            acc == sum_u64(values@.take(i as int)),
            acc <= (i as int) * (u64::MAX as int),
        decreases n - i,
    {
        proof {
            lemma_sum_take_step(values@, i as int);
        }
        acc = acc + values[i] as u128;
        i = i + 1;
    }
    proof {
        assert(values@.take(n as int) =~= values@);
        lemma_div_is_ordered(acc as int, (n as int) * (u64::MAX as int), n as int);
        lemma_div_multiples_vanish(u64::MAX as int, n as int);
    }
    (acc / n as u128) as u64
}

/// Nearest-rank percentile of a sorted list: the value at the index closest
/// to `pct`/100 of the way through, clamped to the list. Empty lists give 0;
/// a single value is returned directly, whatever `pct` is.
pub open spec fn spec_percentile(s: Seq<u64>, pct: u64) -> u64 {
    if s.len() == 0 {
        0
    } else if s.len() == 1 {
        s[0]
    } else {
        let idx = (pct * (s.len() - 1) + 50) / 100;
        let max_idx = s.len() - 1;
        if idx > max_idx {
            s[max_idx as int]
        } else {
            s[idx as int]
        }
    }
}

/// Calculate the nearest-rank percentile of a sorted list of values.
///
/// For every `pct`, an empty list gives 0 and a one-element list gives that
/// element; larger lists are indexed at round(pct/100 * (len-1)), clamped.
pub fn percentile(sorted_values: &Vec<u64>, pct: u64) -> (p: u64)
    ensures
        p == spec_percentile(sorted_values@, pct),
        sorted_values@.len() == 0 ==> p == 0,
        sorted_values@.len() == 1 ==> p == sorted_values@[0],
{
    let n = sorted_values.len();
    if n == 0 {
        return 0;
    }
    if n == 1 {
        return sorted_values[0];
    }
    proof {
        lemma_mul_upper_bound(pct as int, u64::MAX as int, (n - 1) as int, usize::MAX as int);
    }
    let idx: u128 = (pct as u128 * (n - 1) as u128 + 50) / 100;
    let max_idx: u128 = (n - 1) as u128;
    let clamped: u128 = if idx > max_idx {
        max_idx
    } else {
        idx
    };
    sorted_values[clamped as usize]
}

/// Insertion of a value into a sorted sequence, keeping it sorted.
pub open spec fn insert_sorted_spec(x: u64, s: Seq<u64>) -> Seq<u64>
    decreases s.len(),
{
    if s.len() == 0 {
        seq![x]
    } else if x <= s[0] {
        seq![x] + s
    } else {
        seq![s[0]] + insert_sorted_spec(x, s.drop_first())
    }
}

/// Ascending insertion sort of a sequence.
pub open spec fn sort_spec(s: Seq<u64>) -> Seq<u64>
    decreases s.len(),
{
    if s.len() == 0 {
        Seq::empty()
    } else {
        insert_sorted_spec(s.last(), sort_spec(s.drop_last()))
    }
}

/// Sorted insertion keeps a sequence ascending and adds exactly the new
/// value to its contents.
proof fn lemma_insert_sorted_spec_props(x: u64, s: Seq<u64>)
    requires
        vstd::relations::sorted_by(s, |a: u64, b: u64| a <= b),
    ensures
        vstd::relations::sorted_by(insert_sorted_spec(x, s), |a: u64, b: u64| a <= b),
        insert_sorted_spec(x, s).to_multiset() == s.to_multiset().insert(x),
        insert_sorted_spec(x, s).len() == s.len() + 1,
    decreases s.len(),
{
    broadcast use vstd::seq_lib::group_to_multiset_ensures;
    broadcast use vstd::seq_lib::lemma_multiset_commutative;

    let leq = |a: u64, b: u64| a <= b;
    assert(seq![x] =~= Seq::<u64>::empty().push(x));
    if s.len() == 0 {
        assert(insert_sorted_spec(x, s) =~= seq![x]);
        assert(seq![x].to_multiset() =~= s.to_multiset().insert(x));
    } else if x <= s[0] {
        assert((seq![x] + s).to_multiset() =~= s.to_multiset().insert(x));
        assert forall|i: int, j: int|
            0 <= i < j < (seq![x] + s).len() implies leq(
            (seq![x] + s)[i],
            (seq![x] + s)[j],
        ) by {
            if i > 0 {
                assert(leq(s[i - 1], s[j - 1]));
            } else if j > 1 {
                assert(leq(s[0], s[j - 1]));
            }
        }
    } else {
        let rest = s.drop_first();
        assert(forall|i: int, j: int|
            0 <= i < j < rest.len() ==> leq(#[trigger] rest[i], #[trigger] rest[j]));
        lemma_insert_sorted_spec_props(x, rest);
        let inner = insert_sorted_spec(x, rest);
        let whole = seq![s[0]] + inner;
        assert(insert_sorted_spec(x, s) == whole);
        assert(seq![s[0]].to_multiset() =~= Seq::<u64>::empty().to_multiset().insert(s[0]));
        assert(whole.to_multiset() =~= inner.to_multiset().insert(s[0]));
        assert(s =~= seq![s[0]] + rest);
        assert(s.to_multiset() =~= rest.to_multiset().insert(s[0]));
        assert(whole.to_multiset() =~= s.to_multiset().insert(x)) by {
            assert(inner.to_multiset() == rest.to_multiset().insert(x));
        }
        // every element of `inner` is either x (> s[0]) or an element of rest (>= s[0])
        assert forall|i: int, j: int| 0 <= i < j < whole.len() implies leq(
            whole[i],
            whole[j],
        ) by {
            if i > 0 {
                assert(leq(inner[i - 1], inner[j - 1]));
            } else {
                // whole[0] == s[0]; whole[j] is in inner's contents
                assert(inner.to_multiset().contains(inner[j - 1]));
                if inner[j - 1] != x {
                    assert(rest.to_multiset().contains(inner[j - 1]));
                    assert(rest.contains(inner[j - 1]));
                    let k = choose|k: int| 0 <= k < rest.len() && rest[k] == inner[j - 1];
                    assert(leq(s[0], s[k + 1]));
                }
            }
        }
    }
}

/// The sort the aggregation uses is the ascending sort: its result is sorted
/// by `<=` and holds exactly the input's values, multiplicity included.
pub proof fn lemma_sort_spec_props(s: Seq<u64>)
    ensures
        vstd::relations::sorted_by(sort_spec(s), |a: u64, b: u64| a <= b),
        sort_spec(s).to_multiset() == s.to_multiset(),
        sort_spec(s).len() == s.len(),
    decreases s.len(),
{
    broadcast use vstd::seq_lib::group_to_multiset_ensures;

    if s.len() == 0 {
        assert(sort_spec(s) =~= Seq::<u64>::empty());
    } else {
        lemma_sort_spec_props(s.drop_last());
        lemma_insert_sorted_spec_props(s.last(), sort_spec(s.drop_last()));
        assert(s =~= s.drop_last().push(s.last()));
        assert(s.to_multiset() =~= s.drop_last().to_multiset().insert(s.last()));
    }
}

/// Inserting at the first position whose value is not below `x` is exactly
/// the sorted insertion.
proof fn lemma_insert_sorted_at(s: Seq<u64>, x: u64, j: int)
    requires
        0 <= j <= s.len(),
        forall|k: int| 0 <= k < j ==> s[k] < x,
        j < s.len() ==> x <= s[j],
    ensures
        insert_sorted_spec(x, s) == s.insert(j, x),
    decreases j,
{
    if j == 0 {
        if s.len() == 0 {
            assert(insert_sorted_spec(x, s) =~= s.insert(0, x));
        } else {
            assert(insert_sorted_spec(x, s) =~= s.insert(0, x));
        }
    } else {
        lemma_insert_sorted_at(s.drop_first(), x, j - 1);
        assert(seq![s[0]] + s.drop_first().insert(j - 1, x) =~= s.insert(j, x));
    }
}

/// Insert `x` into the sorted vector `v`, keeping it sorted.
fn insert_sorted(v: &mut Vec<u64>, x: u64)
    ensures
        final(v)@ == insert_sorted_spec(x, old(v)@),
{
    let mut j: usize = 0;
    while j < v.len() && v[j] < x
        invariant
            0 <= j <= v@.len(),
            forall|k: int| 0 <= k < j ==> v@[k] < x,
            *v == *old(v),
        decreases v@.len() - j,
    {
        j = j + 1;
    }
    proof {
        lemma_insert_sorted_at(v@, x, j as int);
    }
    v.insert(j, x);
}

/// Sort a list of values ascending (insertion sort).
pub fn sort_u64(values: &Vec<u64>) -> (sorted: Vec<u64>)
    ensures
        sorted@ == sort_spec(values@),
{
    let mut out: Vec<u64> = Vec::new();
    let mut i: usize = 0;
    while i < values.len()
        invariant
            0 <= i <= values@.len(),
            out@ == sort_spec(values@.take(i as int)),
        decreases values@.len() - i,
    {
        insert_sorted(&mut out, values[i]);
        proof {
            assert(values@.take(i + 1).drop_last() =~= values@.take(i as int));
            assert(values@.take(i + 1).last() == values@[i as int]);
        }
        i = i + 1;
    }
    proof {
        assert(values@.take(values@.len() as int) =~= values@);
    }
    out
}

/// Sum of the per-run costs of a sequence of results, in pico-USD.
pub open spec fn sum_cost(s: Seq<SingleRunResult>) -> int
    decreases s.len(),
{
    if s.len() == 0 {
        0
    } else {
        sum_cost(s.drop_last()) + s.last().cost_picousd
    }
}

/// Appending one result adds its cost to the total.
proof fn lemma_sum_cost_take_step(s: Seq<SingleRunResult>, i: int)
    requires
        0 <= i < s.len(),
    ensures
        sum_cost(s.take(i + 1)) == sum_cost(s.take(i)) + s[i].cost_picousd,
{
    assert(s.take(i + 1).drop_last() =~= s.take(i));
    assert(s.take(i + 1).last() == s[i]);
}

/// Aggregated metrics from multiple benchmark runs.
#[derive(Clone, Copy, Debug)]
pub struct AggregatedMetrics {
    /// Average time to send prompt (ms).
    pub avg_time_to_prompt_ms: u64,
    /// Average time to first token (ms).
    pub avg_ttft_ms: u64,
    /// Average tokens per second.
    pub avg_tokens_per_sec: u64,
    /// Average total latency (ms).
    pub avg_latency_ms: u64,
    /// 50th percentile latency (ms).
    pub p50_latency_ms: u64,
    /// 95th percentile latency (ms).
    pub p95_latency_ms: u64,
    /// Total cost for all runs (pico-USD).
    pub total_cost_picousd: u128,
    /// One-time model load time if applicable (ms).
    pub model_load_time_ms: Option<u64>,
    /// Number of successful runs.
    pub run_count: usize,
}

/// The latencies of a sequence of run results, in order.
pub open spec fn latencies_of(rs: Seq<SingleRunResult>) -> Seq<u64> {
    rs.map_values(|r: SingleRunResult| r.total_latency_ms)
}

/// What correct aggregation means: every field of `m` is the exact statistic
/// of the run list `rs`. Means are integer means, the percentiles are
/// nearest-rank over the ascending latencies, cost is the exact sum (never a
/// mean), and the model load time is the first run's report alone.
pub open spec fn metrics_match(m: AggregatedMetrics, rs: Seq<SingleRunResult>) -> bool {
    &&& m.run_count == rs.len()
    &&& m.avg_time_to_prompt_ms as int == spec_mean(
        rs.map_values(|r: SingleRunResult| r.time_to_prompt_ms),
    )
    &&& m.avg_ttft_ms as int == spec_mean(
        rs.map_values(|r: SingleRunResult| r.time_to_first_token_ms),
    )
    &&& m.avg_tokens_per_sec as int == spec_mean(
        rs.map_values(|r: SingleRunResult| (spec_tokens_per_sec(r) as u64)),
    )
    &&& m.avg_latency_ms as int == spec_mean(latencies_of(rs))
    &&& m.p50_latency_ms == spec_percentile(sort_spec(latencies_of(rs)), 50)
    &&& m.p95_latency_ms == spec_percentile(sort_spec(latencies_of(rs)), 95)
    &&& m.total_cost_picousd as int == sum_cost(rs)
    &&& m.model_load_time_ms == (if rs.len() == 0 {
        Option::<u64>::None
    } else {
        rs[0].model_load_time_ms
    })
}

/// The all-zero sentinel for "no data": what aggregating an empty run list
/// yields. Not an error.
pub open spec fn spec_empty_metrics() -> AggregatedMetrics {
    AggregatedMetrics {
        avg_time_to_prompt_ms: 0,
        avg_ttft_ms: 0,
        avg_tokens_per_sec: 0,
        avg_latency_ms: 0,
        p50_latency_ms: 0,
        p95_latency_ms: 0,
        total_cost_picousd: 0,
        model_load_time_ms: None,
        run_count: 0,
    }
}

/// Aggregating no runs yields exactly the empty sentinel.
pub proof fn lemma_empty_metrics_match()
    ensures
        metrics_match(spec_empty_metrics(), Seq::<SingleRunResult>::empty()),
{
    assert(latencies_of(Seq::<SingleRunResult>::empty()) =~= Seq::<u64>::empty());
    assert(Seq::<SingleRunResult>::empty().map_values(
        |r: SingleRunResult| r.time_to_prompt_ms,
    ) =~= Seq::<u64>::empty());
    assert(Seq::<SingleRunResult>::empty().map_values(
        |r: SingleRunResult| r.time_to_first_token_ms,
    ) =~= Seq::<u64>::empty());
    assert(Seq::<SingleRunResult>::empty().map_values(
        |r: SingleRunResult| (spec_tokens_per_sec(r) as u64),
    ) =~= Seq::<u64>::empty());
}

impl AggregatedMetrics {
    /// Create empty metrics (no successful runs).
    fn empty() -> (m: AggregatedMetrics)
        ensures
            m == spec_empty_metrics(),
    {
        AggregatedMetrics {
            avg_time_to_prompt_ms: 0,
            avg_ttft_ms: 0,
            avg_tokens_per_sec: 0,
            avg_latency_ms: 0,
            p50_latency_ms: 0,
            p95_latency_ms: 0,
            total_cost_picousd: 0,
            model_load_time_ms: None,
            run_count: 0,
        }
    }

    /// Calculate aggregated metrics from raw run results.
    pub fn from_raw(results: &Vec<SingleRunResult>) -> (m: AggregatedMetrics)
        ensures
            metrics_match(m, results@),
            results@.len() == 0 ==> m == spec_empty_metrics(),
    {
        if results.len() == 0 {
            proof {
                lemma_empty_metrics_match();
            }
            return Self::empty();
        }

        let n = results.len();
        let mut time_to_prompts: Vec<u64> = Vec::new();
        let mut ttfts: Vec<u64> = Vec::new();
        let mut latencies: Vec<u64> = Vec::new();
        let mut throughputs: Vec<u64> = Vec::new();
        let mut total_cost: u128 = 0;
        let mut i: usize = 0;
        while i < n
            invariant
                n == results@.len(),
                0 <= i <= n,
                time_to_prompts@.len() == i,
                ttfts@.len() == i,
                latencies@.len() == i,
                throughputs@.len() == i,
                forall|k: int|
                    0 <= k < i ==> time_to_prompts@[k] == results@[k].time_to_prompt_ms,
                forall|k: int|
                    0 <= k < i ==> ttfts@[k] == results@[k].time_to_first_token_ms,
                forall|k: int| 0 <= k < i ==> latencies@[k] == results@[k].total_latency_ms,
                forall|k: int|
                    0 <= k < i ==> throughputs@[k] as int == spec_tokens_per_sec(results@[k]),
                total_cost == sum_cost(results@.take(i as int)),
                total_cost <= (i as int) * (u64::MAX as int),
            decreases n - i,
        {
            let r = results[i];
            time_to_prompts.push(r.time_to_prompt_ms);
            ttfts.push(r.time_to_first_token_ms);
            latencies.push(r.total_latency_ms);
            throughputs.push(r.tokens_per_sec());
            proof {
                lemma_sum_cost_take_step(results@, i as int);
            }
            total_cost = total_cost + r.cost_picousd as u128;
            i = i + 1;
        }
        proof {
            assert(results@.take(n as int) =~= results@);
            assert(time_to_prompts@ =~= results@.map_values(
                |r: SingleRunResult| r.time_to_prompt_ms,
            ));
            assert(ttfts@ =~= results@.map_values(
                |r: SingleRunResult| r.time_to_first_token_ms,
            ));
            assert(latencies@ =~= latencies_of(results@));
            assert(throughputs@ =~= results@.map_values(
                |r: SingleRunResult| (spec_tokens_per_sec(r) as u64),
            ));
        }

        let sorted_latencies = sort_u64(&latencies);
        let model_load_time_ms = results[0].model_load_time_ms;

        AggregatedMetrics {
            avg_time_to_prompt_ms: mean(&time_to_prompts),
            avg_ttft_ms: mean(&ttfts),
            avg_tokens_per_sec: mean(&throughputs),
            avg_latency_ms: mean(&latencies),
            p50_latency_ms: percentile(&sorted_latencies, 50),
            p95_latency_ms: percentile(&sorted_latencies, 95),
            total_cost_picousd: total_cost,
            model_load_time_ms,
            run_count: n,
        }
    }
}

} // verus!
