//! The provider capability boundary: the request and response value types
//! every backend adapter exchanges with the orchestrator, the error kinds a
//! measured call can produce, and the static descriptor (identity and
//! pricing) under which a provider is benchmarked.
//!
//! The adapters themselves (HTTP clients, credential handling) live outside
//! the library; they communicate with the verified core through these plain
//! values only.

use vstd::prelude::*;
use vstd::string::StringExecFns;

use crate::text::dec_str;

verus! {

/// Request to an inference provider.
pub struct InferenceRequest {
    /// The prompt to send.
    pub prompt: String,
    /// Maximum tokens to generate.
    pub max_tokens: u32,
    /// Specific model to use (provider default if None).
    pub model: Option<String>,
}

/// Response from an inference provider with timing metrics.
pub struct InferenceResponse {
    /// Generated text.
    pub text: String,
    /// Number of input tokens.
    pub input_tokens: u32,
    /// Number of output tokens generated.
    pub output_tokens: u32,
    /// Time until prompt was fully sent (ms).
    pub time_to_prompt_ms: u64,
    /// Time from prompt sent to first token received (ms).
    pub time_to_first_token_ms: u64,
    /// Total request latency (ms).
    pub total_latency_ms: u64,
    /// One-time model load time, if applicable (ms).
    pub model_load_time_ms: Option<u64>,
}

impl InferenceResponse {
    /// Timing invariant every adapter must uphold: neither the prompt
    /// transmission time nor the time to first token can exceed the total
    /// latency of the call.
    pub open spec fn wf(self) -> bool {
        &&& self.time_to_prompt_ms <= self.total_latency_ms
        &&& self.time_to_first_token_ms <= self.total_latency_ms
    }
}

/// Errors that can occur during inference.
#[derive(Debug)]
pub enum ProviderError {
    /// Missing credentials; excludes the provider from the active set.
    NotConfigured(String),
    /// Non-success HTTP status with body.
    ApiError(String),
    /// The configured duration was exceeded (ms).
    Timeout(u64),
    /// HTTP 429; the orchestrator stops this provider's run.
    RateLimited,
    /// Connection-level failure.
    Network(String),
    /// Malformed response body.
    ParseError(String),
}

/// The human-readable text of each error kind.
pub open spec fn spec_error_message(e: ProviderError) -> Seq<char> {
    match e {
        ProviderError::NotConfigured(s) => "Provider not configured: "@ + s@,
        ProviderError::ApiError(s) => "API error: "@ + s@,
        ProviderError::Timeout(ms) => "Request timeout after "@ + dec_str(ms as nat) + "ms"@,
        ProviderError::RateLimited => "Rate limited by provider"@,
        ProviderError::Network(s) => "Network error: "@ + s@,
        ProviderError::ParseError(s) => "Failed to parse response: "@ + s@,
    }
}

impl ProviderError {
    /// The human-readable message for this error, as recorded in a
    /// benchmark result's notes.
    pub fn message(&self) -> (m: String)
        ensures
            m@ == spec_error_message(*self),
    {
        match self {
            ProviderError::NotConfigured(s) => {
                let mut m = "Provider not configured: ".to_owned();
                m.append(s.as_str());
                m
            },
            ProviderError::ApiError(s) => {
                let mut m = "API error: ".to_owned();
                m.append(s.as_str());
                m
            },
            ProviderError::Timeout(ms) => {
                let mut m = "Request timeout after ".to_owned();
                let digits = crate::text::u64_to_dec(*ms);
                m.append(digits.as_str());
                m.append("ms");
                m
            },
            ProviderError::RateLimited => "Rate limited by provider".to_owned(),
            ProviderError::Network(s) => {
                let mut m = "Network error: ".to_owned();
                m.append(s.as_str());
                m
            },
            ProviderError::ParseError(s) => {
                let mut m = "Failed to parse response: ".to_owned();
                m.append(s.as_str());
                m
            },
        }
    }

    /// Whether this error is the distinguished rate-limit signal that makes
    /// the orchestrator abandon the provider's remaining iterations.
    pub fn is_rate_limited(&self) -> (b: bool)
        ensures
            b == (*self is RateLimited),
    {
        match self {
            ProviderError::RateLimited => true,
            _ => false,
        }
    }
}

/// The highest admitted price, in micro-USD per million tokens; one thousand
/// dollars per million tokens, far above any real offer. The bound keeps all
/// cost arithmetic inside `u64`.
pub const MAX_PRICE_MICROUSD: u64 = 1_000_000_000;

/// Per-token pricing of a provider, in micro-USD per million tokens
/// (equivalently: pico-USD per token), for input and output tokens.
#[derive(Clone, Copy, Debug)]
pub struct Pricing {
    /// Price of one million input tokens, in micro-USD.
    pub input_per_million: u64,
    /// Price of one million output tokens, in micro-USD.
    pub output_per_million: u64,
}

impl Pricing {
    /// Both prices are within the admitted bound.
    pub open spec fn wf(self) -> bool {
        &&& self.input_per_million <= MAX_PRICE_MICROUSD
        &&& self.output_per_million <= MAX_PRICE_MICROUSD
    }

    /// A zero price, for local or self-hosted backends.
    pub fn free() -> (p: Pricing)
        ensures
            p.input_per_million == 0,
            p.output_per_million == 0,
            p.wf(),
    {
        Pricing { input_per_million: 0, output_per_million: 0 }
    }
}

/// The static identity under which a provider is benchmarked: its unique
/// name, display name, default model, and pricing.
pub struct ProviderDescriptor {
    /// Unique identifier for this provider.
    pub name: String,
    /// Human-readable display name.
    pub display_name: String,
    /// The model used for the run.
    pub model: String,
    /// Pricing per million tokens.
    pub pricing: Pricing,
}

impl ProviderDescriptor {
    /// The descriptor's pricing is within bounds.
    pub open spec fn wf(self) -> bool {
        self.pricing.wf()
    }
}

} // verus!
