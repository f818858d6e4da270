//! Benchmark orchestration and metrics engine for comparing the latency,
//! throughput, and cost of text-generation requests across inference backends.
//!
//! The crate holds the verified core: the prompt catalog, the value types for
//! a single measured call and for aggregated statistics, the streaming event
//! parser, the per-provider run state machine, and the pre-flight cost
//! estimator. Network transport, argument parsing, and report rendering live
//! outside the library and drive it through plain values.
//!
//! All statistics are exact integer arithmetic: timings in milliseconds,
//! throughput in whole tokens per second, prices in micro-USD per million
//! tokens, and costs in pico-USD.

pub mod cli;
pub mod metrics;
pub mod pricing;
pub mod prompts;
pub mod providers;
pub mod runner;
pub mod stream;
pub mod text;

pub use cli::{Cli, Commands, OutputFormat, PromptSize};
pub use metrics::{AggregatedMetrics, SingleRunResult};
pub use prompts::TestPrompt;
pub use providers::{InferenceRequest, InferenceResponse, Pricing, ProviderDescriptor, ProviderError};
pub use runner::{BenchmarkConfig, BenchmarkResult, ProviderRun};
pub use stream::StreamParser;
