//! Command-line facing value types: the parsed invocation, its subcommands,
//! and the enumerations they carry. Argument parsing itself happens outside
//! the library; these types only hold its result.

use vstd::prelude::*;

verus! {

/// A parsed command-line invocation.
pub struct Cli {
    /// Enable verbose output.
    pub verbose: bool,
    /// The selected subcommand.
    pub command: Commands,
}

/// The subcommands the tool offers.
pub enum Commands {
    /// Run inference benchmarks across providers.
    Benchmark {
        /// Providers to benchmark (comma-separated, or "all").
        providers: String,
        /// Number of iterations per provider.
        iterations: u32,
        /// Test prompt size.
        size: PromptSize,
        /// Output format.
        output: OutputFormat,
        /// Skip the cost confirmation prompt.
        yes: bool,
    },
    /// List available providers and their status.
    List,
    /// Show pricing information for all providers.
    Pricing,
}

/// Test prompt size - affects token count and cost.
#[derive(Clone, Copy, Debug, PartialEq, Eq, Structural)]
pub enum PromptSize {
    /// ~50 output tokens, minimal cost.
    Short,
    /// ~200 output tokens, typical interaction.
    Medium,
    /// ~500 output tokens, extended response.
    Long,
}

/// The expected output token count of each prompt size.
pub open spec fn spec_expected_output_tokens(size: PromptSize) -> u32 {
    match size {
        PromptSize::Short => 50,
        PromptSize::Medium => 200,
        PromptSize::Long => 500,
    }
}

impl PromptSize {
    /// Expected output tokens for this prompt size.
    pub fn expected_output_tokens(&self) -> (tokens: u32)
        ensures
            tokens == spec_expected_output_tokens(*self),
    {
        match self {
            PromptSize::Short => 50,
            PromptSize::Medium => 200,
            PromptSize::Long => 500,
        }
    }
}

/// Output format for benchmark results.
#[derive(Clone, Copy, Debug, PartialEq, Eq, Structural)]
pub enum OutputFormat {
    /// Terminal table with aligned columns.
    Table,
    /// JSON for programmatic consumption.
    Json,
    /// Markdown for documentation.
    Markdown,
    /// CSV for spreadsheets.
    Csv,
}

} // verus!
