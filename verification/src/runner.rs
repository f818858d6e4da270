//! Benchmark orchestration: the run configuration, the per-provider run
//! state machine, the final per-provider report, and the pre-flight cost
//! projection.
//!
//! Providers are benchmarked one at a time and iterations are strictly
//! sequential - a policy, not a limitation: overlapping calls would corrupt
//! the latency measurements this system exists for. The measured call itself
//! suspends on network I/O, so the loop around it runs outside the library:
//! the caller asks `next_request`, performs the call, and hands the outcome
//! back to `record`. Every decision - what to send, what a success or an
//! error appends, when a rate limit abandons the remaining iterations - is
//! made and proved here.

use vstd::prelude::*;
use vstd::string::StringExecFns;

use crate::cli::PromptSize;
use crate::metrics::{
    metrics_match, spec_empty_metrics, spec_run_result, AggregatedMetrics, SingleRunResult,
};
use crate::prompts::{lemma_prompt_cost_fits, spec_prompt_cost, TestPrompt};
use crate::providers::{
    spec_error_message, InferenceRequest, InferenceResponse, ProviderDescriptor, ProviderError,
};
use crate::text::dec_str;

verus! {

/// Configuration for a benchmark run.
#[derive(Clone, Copy, Debug)]
pub struct BenchmarkConfig {
    /// Number of iterations per provider.
    pub iterations: u32,
    /// Test prompt size.
    pub prompt_size: PromptSize,
    /// Request timeout in milliseconds.
    pub timeout_ms: u64,
}

impl Default for BenchmarkConfig {
    /// One iteration of the short prompt with a one-minute timeout.
    fn default() -> (c: Self)
        ensures
            c.iterations == 1,
            c.prompt_size == PromptSize::Short,
            c.timeout_ms == 60000,
    {
        BenchmarkConfig { iterations: 1, prompt_size: PromptSize::Short, timeout_ms: 60_000 }
    }
}

/// Complete benchmark result for a single provider.
pub struct BenchmarkResult {
    /// Provider identifier.
    pub provider: String,
    /// Provider display name.
    pub display_name: String,
    /// Model used.
    pub model: String,
    /// Aggregated metrics.
    pub metrics: AggregatedMetrics,
    /// Raw results from each iteration, in iteration order.
    pub raw_results: Vec<SingleRunResult>,
    /// Errors encountered, in the order they occurred.
    pub errors: Vec<String>,
    /// Completion timestamp, in milliseconds since the Unix epoch.
    pub timestamp_ms: i64,
}

impl BenchmarkResult {
    /// Check if the benchmark was successful (at least one good run).
    pub fn is_success(&self) -> (b: bool)
        ensures
            b == (self.raw_results@.len() != 0),
    {
        !self.raw_results.is_empty()
    }
}

/// Relies on chrono::Utc::now and DateTime::timestamp_millis for the
/// completion timestamp of a report. The clock's reading depends on the
/// moment of the call, so nothing is claimed of it.
#[verifier::external_body]
fn now_millis() -> i64 {
    chrono::Utc::now().timestamp_millis()
}

/// The note recorded for a failed iteration: `Iteration <i>: <error>`.
pub open spec fn spec_iteration_note(i: nat, e: ProviderError) -> Seq<char> {
    "Iteration "@ + dec_str(i) + ": "@ + spec_error_message(e)
}

/// The note recorded when a rate limit stops a provider's run.
pub open spec fn spec_stop_note() -> Seq<char> {
    "Stopping due to rate limiting"@
}

/// The note recorded for a provider that failed its availability probe.
pub open spec fn spec_unavailable_note() -> Seq<char> {
    "Provider not available"@
}

/// Headroom added to the expected output token count when bounding a
/// request, to avoid truncation bias.
pub const MAX_TOKENS_HEADROOM: u32 = 50;

/// The state of one provider's benchmark run: how many iterations were
/// attempted, the successful results in iteration order, the failure notes
/// in order, and whether a rate limit abandoned the rest.
pub struct ProviderRun {
    /// The provider being benchmarked.
    pub descriptor: ProviderDescriptor,
    /// The prompt every iteration sends.
    pub prompt: TestPrompt,
    /// How many iterations the run was configured with.
    pub iterations: u32,
    /// How many iterations have been attempted so far.
    pub attempted: u32,
    /// Raw results of the successful iterations, in iteration order.
    pub raw_results: Vec<SingleRunResult>,
    /// Failure notes, in the order they occurred.
    pub errors: Vec<String>,
    /// Whether a rate limit stopped the run early.
    pub halted: bool,
}

impl ProviderRun {
    /// Validity: the pricing is bounded, no more iterations were attempted
    /// than configured, and the request bound stays representable.
    pub open spec fn wf(self) -> bool {
        &&& self.descriptor.pricing.wf()
        &&& self.attempted <= self.iterations
        &&& self.prompt.expected_output_tokens + MAX_TOKENS_HEADROOM <= u32::MAX
    }

    /// The run is over: every configured iteration was attempted, or a rate
    /// limit abandoned the rest.
    pub open spec fn spec_done(self) -> bool {
        self.halted || self.attempted >= self.iterations
    }

    /// Start a run for one provider that passed its availability probe.
    pub fn new(descriptor: ProviderDescriptor, prompt: TestPrompt, iterations: u32) -> (run:
        ProviderRun)
        requires
            descriptor.pricing.wf(),
            prompt.expected_output_tokens + MAX_TOKENS_HEADROOM <= u32::MAX,
        ensures
            run.descriptor == descriptor,
            run.prompt == prompt,
            run.iterations == iterations,
            run.attempted == 0,
            run.raw_results@.len() == 0,
            run.errors@.len() == 0,
            !run.halted,
            run.wf(),
    {
        ProviderRun {
            descriptor,
            prompt,
            iterations,
            attempted: 0,
            raw_results: Vec::new(),
            errors: Vec::new(),
            halted: false,
        }
    }

    /// Whether the run is over and `finish` should build the report.
    pub fn is_done(&self) -> (b: bool)
        ensures
            b == self.spec_done(),
    {
        self.halted || self.attempted >= self.iterations
    }

    /// The request the next iteration sends: the configured prompt, bounded
    /// by its expected output tokens plus a fixed headroom, with the
    /// provider's default model.
    pub fn next_request(&self) -> (req: InferenceRequest)
        requires
            self.wf(),
        ensures
            req.prompt@ == self.prompt.text@,
            req.max_tokens == self.prompt.expected_output_tokens + MAX_TOKENS_HEADROOM,
            req.model is None,
    {
        InferenceRequest {
            prompt: self.prompt.text.clone(),
            max_tokens: self.prompt.expected_output_tokens + MAX_TOKENS_HEADROOM,
            model: None,
        }
    }

    /// Record the outcome of one iteration. A success appends its converted
    /// result, in order; a failure appends its note and leaves the results
    /// untouched; a rate limit additionally appends the stop note and
    /// abandons the remaining iterations - no retry, no backoff.
    pub fn record(&mut self, outcome: Result<InferenceResponse, ProviderError>)
        requires
            old(self).wf(),
            !old(self).spec_done(),
        ensures
            final(self).wf(),
            final(self).descriptor == old(self).descriptor,
            final(self).prompt == old(self).prompt,
            final(self).iterations == old(self).iterations,
            final(self).attempted == old(self).attempted + 1,
            match outcome {
                Ok(resp) => {
                    &&& final(self).raw_results@ == old(self).raw_results@.push(
                        spec_run_result(resp, old(self).descriptor.pricing),
                    )
                    &&& final(self).errors@ == old(self).errors@
                    &&& !final(self).halted
                },
                Err(e) => {
                    &&& final(self).raw_results@ == old(self).raw_results@
                    &&& final(self).halted == (e is RateLimited)
                    &&& final(self).errors@.len() == old(self).errors@.len() + (
                    if e is RateLimited {
                        2int
                    } else {
                        1int
                    })
                    &&& final(self).errors@.take(old(self).errors@.len() as int) == old(
                        self,
                    ).errors@
                    &&& final(self).errors@[old(self).errors@.len() as int]@
                        == spec_iteration_note((old(self).attempted + 1) as nat, e)
                    &&& (e is RateLimited ==> final(self).errors@[old(
                        self,
                    ).errors@.len() as int + 1]@ == spec_stop_note())
                },
            },
    {
        let iteration_number = self.attempted + 1;
        self.attempted = iteration_number;
        match outcome {
            Ok(response) => {
                let result = SingleRunResult::from_response(&response, self.descriptor.pricing);
                self.raw_results.push(result);
            },
            Err(e) => {
                let mut note = "Iteration ".to_owned();
                let digits = crate::text::u64_to_dec(iteration_number as u64);
                note.append(digits.as_str());
                note.append(": ");
                let message = e.message();
                note.append(message.as_str());
                let ghost errors_before = self.errors@;
                self.errors.push(note);
                if e.is_rate_limited() {
                    self.errors.push("Stopping due to rate limiting".to_owned());
                    self.halted = true;
                    proof {
                        assert(self.errors@.take(errors_before.len() as int) =~= errors_before);
                    }
                } else {
                    proof {
                        assert(self.errors@.take(errors_before.len() as int) =~= errors_before);
                    }
                }
            },
        }
    }

    /// Build the final report: the provider's identity, the raw results and
    /// notes as recorded, and the exact aggregation of the results, stamped
    /// with the completion time.
    pub fn finish(self) -> (br: BenchmarkResult)
        ensures
            br.provider@ == self.descriptor.name@,
            br.display_name@ == self.descriptor.display_name@,
            br.model@ == self.descriptor.model@,
            br.raw_results@ == self.raw_results@,
            br.errors@ == self.errors@,
            metrics_match(br.metrics, self.raw_results@),
    {
        let metrics = AggregatedMetrics::from_raw(&self.raw_results);
        BenchmarkResult {
            provider: self.descriptor.name,
            display_name: self.descriptor.display_name,
            model: self.descriptor.model,
            metrics,
            raw_results: self.raw_results,
            errors: self.errors,
            timestamp_ms: now_millis(),
        }
    }

    /// The report for a provider whose availability probe failed: empty
    /// metrics (the aggregation of zero results), no raw results, and a
    /// single explanatory note. No iteration is ever attempted for it, and
    /// it is never silently omitted from the output.
    pub fn unavailable_result(descriptor: ProviderDescriptor) -> (br: BenchmarkResult)
        ensures
            br.provider@ == descriptor.name@,
            br.display_name@ == descriptor.display_name@,
            br.model@ == descriptor.model@,
            br.raw_results@.len() == 0,
            br.metrics == spec_empty_metrics(),
            br.metrics.run_count == 0,
            metrics_match(br.metrics, br.raw_results@),
            br.errors@.len() == 1,
            br.errors@[0]@ == spec_unavailable_note(),
    {
        let raw_results: Vec<SingleRunResult> = Vec::new();
        let metrics = AggregatedMetrics::from_raw(&raw_results);
        let mut errors: Vec<String> = Vec::new();
        errors.push("Provider not available".to_owned());
        proof {
            assert(raw_results@ =~= Seq::<SingleRunResult>::empty());
        }
        BenchmarkResult {
            provider: descriptor.name,
            display_name: descriptor.display_name,
            model: descriptor.model,
            metrics,
            raw_results,
            errors,
            timestamp_ms: now_millis(),
        }
    }
}

/// The projected total cost of a run, in pico-USD: for every provider, the
/// prompt's estimated per-run cost times the iteration count, summed.
pub open spec fn spec_total_estimate(
    ds: Seq<ProviderDescriptor>,
    prompt: TestPrompt,
    iterations: u32,
) -> int
    decreases ds.len(),
{
    if ds.len() == 0 {
        0
    } else {
        spec_total_estimate(ds.drop_last(), prompt, iterations) + spec_prompt_cost(
            prompt,
            ds.last().pricing,
        ) * iterations
    }
}

/// One more provider adds its own projection to the total.
proof fn lemma_total_estimate_step(
    ds: Seq<ProviderDescriptor>,
    prompt: TestPrompt,
    iterations: u32,
    i: int,
)
    requires
        0 <= i < ds.len(),
    ensures
        spec_total_estimate(ds.take(i + 1), prompt, iterations) == spec_total_estimate(
            ds.take(i),
            prompt,
            iterations,
        ) + spec_prompt_cost(prompt, ds[i].pricing) * iterations,
{
    assert(ds.take(i + 1).drop_last() =~= ds.take(i));
    assert(ds.take(i + 1).last() == ds[i]);
}

/// Pre-flight cost projection over a set of providers, computed from the
/// prompt's expected token counts before any call is made. It supports an
/// external confirmation gate and is never a measured result.
pub fn estimate_total_cost(
    descriptors: &Vec<ProviderDescriptor>,
    prompt: &TestPrompt,
    iterations: u32,
) -> (total: u128)
    requires
        forall|k: int| 0 <= k < descriptors@.len() ==> (#[trigger] descriptors@[k]).pricing.wf(),
        descriptors@.len() <= u32::MAX,
    ensures
        total as int == spec_total_estimate(descriptors@, *prompt, iterations),
{
    let n = descriptors.len();
    let mut total: u128 = 0;
    let mut i: usize = 0;
    while i < n
        invariant
            n == descriptors@.len(),
            n <= u32::MAX,
            forall|k: int|
                0 <= k < descriptors@.len() ==> (#[trigger] descriptors@[k]).pricing.wf(),
            0 <= i <= n,
            total == spec_total_estimate(descriptors@.take(i as int), *prompt, iterations),
            total <= (i as int) * ((u64::MAX as int) * (u32::MAX as int)),
        decreases n - i,
    {
        proof {
            lemma_total_estimate_step(descriptors@, *prompt, iterations, i as int);
            lemma_prompt_cost_fits(*prompt, descriptors@[i as int].pricing);
            vstd::arithmetic::mul::lemma_mul_upper_bound(
                spec_prompt_cost(*prompt, descriptors@[i as int].pricing),
                u64::MAX as int,
                iterations as int,
                u32::MAX as int,
            );
        }
        let per_run = prompt.estimate_cost(&descriptors[i].pricing);
        total = total + (per_run as u128) * (iterations as u128);
        i = i + 1;
    }
    proof {
        assert(descriptors@.take(n as int) =~= descriptors@);
    }
    total
}

} // verus!
