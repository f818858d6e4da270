//! Tests for the statistical core: mean, percentile, per-run conversion,
//! and the aggregation of a whole run list.

use speed_kings::metrics::{mean, percentile, sort_u64, AggregatedMetrics, SingleRunResult};
use speed_kings::providers::Pricing;
use speed_kings::InferenceResponse;

fn run_with(latency_ms: u64, cost_picousd: u64, load: Option<u64>) -> SingleRunResult {
    SingleRunResult {
        time_to_prompt_ms: 10,
        time_to_first_token_ms: 20,
        total_latency_ms: latency_ms,
        input_tokens: 100,
        output_tokens: 200,
        cost_picousd,
        model_load_time_ms: load,
    }
}

#[test]
fn test_mean_empty() {
    assert_eq!(mean(&vec![]), 0);
}

#[test]
fn test_mean_single() {
    assert_eq!(mean(&vec![5]), 5);
}

#[test]
fn test_mean_multiple() {
    assert_eq!(mean(&vec![1, 2, 3, 4, 5]), 3);
}

#[test]
fn test_percentile_empty() {
    assert_eq!(percentile(&vec![], 50), 0);
}

#[test]
fn test_percentile_single() {
    assert_eq!(percentile(&vec![42], 50), 42);
}

#[test]
fn test_percentile_p50() {
    let sorted = vec![1, 2, 3, 4, 5];
    assert_eq!(percentile(&sorted, 50), 3);
}

#[test]
fn test_percentile_single_any_pct() {
    assert_eq!(percentile(&vec![42], 0), 42);
    assert_eq!(percentile(&vec![42], 95), 42);
    assert_eq!(percentile(&vec![42], 100), 42);
    assert_eq!(percentile(&vec![42], 10_000), 42);
    assert_eq!(percentile(&vec![], 10_000), 0);
}

#[test]
fn test_percentile_p95_clamped() {
    let sorted = vec![1, 2, 3, 4, 5];
    // round(95/100 * 4) = 4, the last index
    assert_eq!(percentile(&sorted, 95), 5);
    // anything above 100 percent clamps to the last value
    assert_eq!(percentile(&sorted, 400), 5);
}

#[test]
fn test_mean_of_largest_values() {
    // the sum exceeds u64 but the mean is exact
    assert_eq!(mean(&vec![u64::MAX, u64::MAX]), u64::MAX);
    assert_eq!(mean(&vec![u64::MAX, u64::MAX - 2]), u64::MAX - 1);
}

#[test]
fn test_percentile_rounds_half_up() {
    // index = round(50/100 * 1) = 1
    assert_eq!(percentile(&vec![10, 20], 50), 20);
    // index = round(25/100 * 3) = round(0.75) = 1
    assert_eq!(percentile(&vec![10, 20, 30, 40], 25), 20);
}

#[test]
fn test_sort_ascending() {
    let sorted = sort_u64(&vec![5, 1, 4, 1, 3]);
    assert_eq!(sorted, vec![1, 1, 3, 4, 5]);
}

#[test]
fn test_aggregate_empty_is_sentinel() {
    let m = AggregatedMetrics::from_raw(&vec![]);
    assert_eq!(m.run_count, 0);
    assert_eq!(m.avg_time_to_prompt_ms, 0);
    assert_eq!(m.avg_ttft_ms, 0);
    assert_eq!(m.avg_tokens_per_sec, 0);
    assert_eq!(m.avg_latency_ms, 0);
    assert_eq!(m.p50_latency_ms, 0);
    assert_eq!(m.p95_latency_ms, 0);
    assert_eq!(m.total_cost_picousd, 0);
    assert_eq!(m.model_load_time_ms, None);
}

#[test]
fn test_zero_latency_throughput_is_zero() {
    let r = run_with(0, 0, None);
    assert_eq!(r.tokens_per_sec(), 0);
}

#[test]
fn test_throughput_exact() {
    // 200 tokens in 2 seconds: 100 tokens per second
    let r = run_with(2000, 0, None);
    assert_eq!(r.tokens_per_sec(), 100);
}

#[test]
fn test_total_cost_is_sum_not_mean() {
    // three runs of one cent each: $0.01 = 10^10 pico-USD
    let cent: u64 = 10_000_000_000;
    let runs = vec![run_with(100, cent, None), run_with(200, cent, None), run_with(
        300, cent, None,
    )];
    let m = AggregatedMetrics::from_raw(&runs);
    // $0.03, not the $0.01 mean
    assert_eq!(m.total_cost_picousd, 30_000_000_000);
    assert_eq!(m.run_count, 3);
}

#[test]
fn test_model_load_time_is_first_runs_only() {
    let runs = vec![run_with(100, 0, Some(1200)), run_with(200, 0, None)];
    let m = AggregatedMetrics::from_raw(&runs);
    assert_eq!(m.model_load_time_ms, Some(1200));
}

#[test]
fn test_model_load_time_absent_when_first_reports_none() {
    let runs = vec![run_with(100, 0, None), run_with(200, 0, Some(900))];
    let m = AggregatedMetrics::from_raw(&runs);
    assert_eq!(m.model_load_time_ms, None);
}

#[test]
fn test_aggregate_latency_stats() {
    let runs = vec![
        run_with(300, 0, None),
        run_with(100, 0, None),
        run_with(500, 0, None),
        run_with(200, 0, None),
        run_with(400, 0, None),
    ];
    let m = AggregatedMetrics::from_raw(&runs);
    assert_eq!(m.avg_latency_ms, 300);
    // sorted latencies are [100,200,300,400,500]
    assert_eq!(m.p50_latency_ms, 300);
    assert_eq!(m.p95_latency_ms, 500);
    assert_eq!(m.avg_time_to_prompt_ms, 10);
    assert_eq!(m.avg_ttft_ms, 20);
    assert_eq!(m.run_count, 5);
}

#[test]
fn test_from_response_cost_exact() {
    let resp = InferenceResponse {
        text: "hello".to_string(),
        input_tokens: 100,
        output_tokens: 200,
        time_to_prompt_ms: 10,
        time_to_first_token_ms: 20,
        total_latency_ms: 30,
        model_load_time_ms: Some(7),
    };
    // $0.10 per 1M tokens both ways: 100_000 micro-USD per million
    let pricing = Pricing { input_per_million: 100_000, output_per_million: 100_000 };
    let r = SingleRunResult::from_response(&resp, pricing);
    // (100 + 200) tokens * 100_000 pico-USD each
    assert_eq!(r.cost_picousd, 30_000_000);
    assert_eq!(r.time_to_prompt_ms, 10);
    assert_eq!(r.time_to_first_token_ms, 20);
    assert_eq!(r.total_latency_ms, 30);
    assert_eq!(r.input_tokens, 100);
    assert_eq!(r.output_tokens, 200);
    assert_eq!(r.model_load_time_ms, Some(7));
}
