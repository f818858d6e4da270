//! Tests for the per-provider run state machine: iteration order, failure
//! notes, the rate-limit short circuit, and the pre-flight cost projection.

use speed_kings::prompts::{prompt_for_size, TestPrompt};
use speed_kings::providers::{Pricing, ProviderDescriptor, ProviderError};
use speed_kings::runner::{estimate_total_cost, BenchmarkConfig, ProviderRun};
use speed_kings::{InferenceResponse, PromptSize};

fn descriptor() -> ProviderDescriptor {
    ProviderDescriptor {
        name: "deepseek".to_string(),
        display_name: "DeepSeek".to_string(),
        model: "deepseek-chat".to_string(),
        pricing: Pricing { input_per_million: 14_000, output_per_million: 28_000 },
    }
}

fn response(latency_ms: u64) -> InferenceResponse {
    InferenceResponse {
        text: "ok".to_string(),
        input_tokens: 10,
        output_tokens: 50,
        time_to_prompt_ms: 5,
        time_to_first_token_ms: 9,
        total_latency_ms: latency_ms,
        model_load_time_ms: None,
    }
}

#[test]
fn test_default_config() {
    let c = BenchmarkConfig::default();
    assert_eq!(c.iterations, 1);
    assert_eq!(c.prompt_size, PromptSize::Short);
    assert_eq!(c.timeout_ms, 60_000);
}

#[test]
fn test_expected_output_tokens_per_size() {
    assert_eq!(PromptSize::Short.expected_output_tokens(), 50);
    assert_eq!(PromptSize::Medium.expected_output_tokens(), 200);
    assert_eq!(PromptSize::Long.expected_output_tokens(), 500);
}

#[test]
fn test_request_max_tokens_has_headroom() {
    for size in [PromptSize::Short, PromptSize::Medium, PromptSize::Long] {
        let prompt = prompt_for_size(size);
        let expected = prompt.expected_output_tokens;
        assert_eq!(expected, size.expected_output_tokens());
        let run = ProviderRun::new(descriptor(), prompt, 1);
        let req = run.next_request();
        assert_eq!(req.max_tokens, expected + 50);
        assert_eq!(req.model, None);
    }
}

#[test]
fn test_prompt_catalog() {
    let short = prompt_for_size(PromptSize::Short);
    assert_eq!(short.name, "short");
    assert_eq!(short.expected_input_tokens, 15);
    assert_eq!(short.expected_output_tokens, 50);
    let medium = prompt_for_size(PromptSize::Medium);
    assert_eq!(medium.name, "medium");
    assert_eq!(medium.expected_input_tokens, 50);
    assert_eq!(medium.expected_output_tokens, 200);
    let long = prompt_for_size(PromptSize::Long);
    assert_eq!(long.name, "long");
    assert_eq!(long.expected_input_tokens, 100);
    assert_eq!(long.expected_output_tokens, 500);
    assert!(long.text.contains("REST API design"));
}

#[test]
fn test_rate_limit_short_circuits() {
    // five configured iterations; iteration 2 is rate limited
    let prompt = prompt_for_size(PromptSize::Short);
    let mut run = ProviderRun::new(descriptor(), prompt, 5);
    assert!(!run.is_done());
    run.record(Ok(response(1000)));
    assert!(!run.is_done());
    run.record(Err(ProviderError::RateLimited));
    // iterations 3 to 5 are never attempted
    assert!(run.is_done());
    assert_eq!(run.attempted, 2);
    let report = run.finish();
    // only iteration 1's successful result is kept
    assert_eq!(report.raw_results.len(), 1);
    assert_eq!(report.metrics.run_count, 1);
    assert_eq!(
        report.errors,
        vec![
            "Iteration 2: Rate limited by provider".to_string(),
            "Stopping due to rate limiting".to_string(),
        ]
    );
}

#[test]
fn test_ordinary_failure_continues() {
    let prompt = prompt_for_size(PromptSize::Short);
    let mut run = ProviderRun::new(descriptor(), prompt, 3);
    run.record(Err(ProviderError::Timeout(60_000)));
    assert!(!run.is_done());
    run.record(Ok(response(500)));
    run.record(Err(ProviderError::ApiError("HTTP 500: boom".to_string())));
    assert!(run.is_done());
    let report = run.finish();
    assert_eq!(report.raw_results.len(), 1);
    assert_eq!(
        report.errors,
        vec![
            "Iteration 1: Request timeout after 60000ms".to_string(),
            "Iteration 3: API error: HTTP 500: boom".to_string(),
        ]
    );
    assert!(report.is_success());
}

#[test]
fn test_results_kept_in_iteration_order() {
    let prompt = prompt_for_size(PromptSize::Short);
    let mut run = ProviderRun::new(descriptor(), prompt, 3);
    run.record(Ok(response(100)));
    run.record(Ok(response(300)));
    run.record(Ok(response(200)));
    let report = run.finish();
    let latencies: Vec<u64> = report.raw_results.iter().map(|r| r.total_latency_ms).collect();
    assert_eq!(latencies, vec![100, 300, 200]);
    assert_eq!(report.provider, "deepseek");
    assert_eq!(report.display_name, "DeepSeek");
    assert_eq!(report.model, "deepseek-chat");
}

#[test]
fn test_unavailable_provider_reports_empty_metrics() {
    let report = ProviderRun::unavailable_result(descriptor());
    assert_eq!(report.metrics.run_count, 0);
    assert_eq!(report.raw_results.len(), 0);
    assert_eq!(report.errors, vec!["Provider not available".to_string()]);
    assert!(!report.is_success());
}

#[test]
fn test_error_messages() {
    assert_eq!(
        ProviderError::NotConfigured("KEY unset".to_string()).message(),
        "Provider not configured: KEY unset"
    );
    assert_eq!(ProviderError::ApiError("HTTP 500".to_string()).message(), "API error: HTTP 500");
    assert_eq!(ProviderError::Timeout(1500).message(), "Request timeout after 1500ms");
    assert_eq!(ProviderError::RateLimited.message(), "Rate limited by provider");
    assert_eq!(ProviderError::Network("refused".to_string()).message(), "Network error: refused");
    assert_eq!(
        ProviderError::ParseError("bad json".to_string()).message(),
        "Failed to parse response: bad json"
    );
    assert!(ProviderError::RateLimited.is_rate_limited());
    assert!(!ProviderError::Timeout(10).is_rate_limited());
}

#[test]
fn test_prompt_estimate_cost() {
    let prompt = prompt_for_size(PromptSize::Short);
    let pricing = Pricing { input_per_million: 14_000, output_per_million: 28_000 };
    // 15 * 14_000 + 50 * 28_000 pico-USD
    assert_eq!(prompt.estimate_cost(&pricing), 1_610_000);
}

#[test]
fn test_estimate_total_cost_sums_providers_and_iterations() {
    let prompt = prompt_for_size(PromptSize::Short);
    let free = ProviderDescriptor {
        name: "local".to_string(),
        display_name: "Local (Ollama)".to_string(),
        model: "llama3.2:3b".to_string(),
        pricing: Pricing { input_per_million: 0, output_per_million: 0 },
    };
    let descriptors = vec![descriptor(), free];
    let total = estimate_total_cost(&descriptors, &prompt, 3);
    assert_eq!(total, 3 * 1_610_000);
}

#[test]
fn test_estimate_is_independent_of_measured_values() {
    // the projection uses expected token counts; a custom prompt with its own
    // expectations projects exactly those
    let prompt = TestPrompt {
        name: "custom".to_string(),
        text: "hi".to_string(),
        expected_input_tokens: 1,
        expected_output_tokens: 2,
    };
    let pricing = Pricing { input_per_million: 1_000_000, output_per_million: 2_000_000 };
    assert_eq!(prompt.estimate_cost(&pricing), 1_000_000 + 4_000_000);
}
