//! The prompt catalog: one fixed test prompt per size category, with the
//! expected token counts it was calibrated for, and the pure cost estimate a
//! pre-flight projection uses.

use vstd::prelude::*;
use vstd::string::StringExecFns;

use crate::cli::{spec_expected_output_tokens, PromptSize};
use crate::providers::{Pricing, MAX_PRICE_MICROUSD};

verus! {

/// A standardized test prompt with expected token counts.
pub struct TestPrompt {
    /// The size category's name.
    pub name: String,
    /// The prompt text sent to providers.
    pub text: String,
    /// Token count the prompt text is expected to tokenize to.
    pub expected_input_tokens: u32,
    /// Output length the prompt is calibrated to elicit.
    pub expected_output_tokens: u32,
}

/// Text of the short prompt (~50 output tokens).
pub open spec fn spec_short_text() -> Seq<char> {
    "Explain what a binary search tree is in exactly three sentences."@
}

/// Text of the medium prompt (~200 output tokens).
pub open spec fn spec_medium_text() -> Seq<char> {
    "Write a Python function that implements merge sort. Include:\n1. The main merge_sort function\n2. A helper merge function\n3. Brief comments explaining each step\n4. An example of calling the function with a sample list"@
}

/// Text of the long prompt (~500 output tokens).
pub open spec fn spec_long_text() -> Seq<char> {
    "You are a technical writer. Write a comprehensive guide about REST API design best practices. The guide should cover:\n\n1. Resource naming conventions\n2. HTTP method usage (GET, POST, PUT, PATCH, DELETE)\n3. Status code selection\n4. Error response formatting\n5. Pagination strategies\n6. Versioning approaches\n7. Authentication considerations\n\nFor each topic, provide a brief explanation and a concrete example. The guide should be suitable for intermediate developers who understand HTTP but are new to API design."@
}

/// The catalog entry for a size: its name, text, and calibrated token counts.
pub open spec fn spec_prompt_matches(p: TestPrompt, size: PromptSize) -> bool {
    match size {
        PromptSize::Short => {
            &&& p.name@ == "short"@
            &&& p.text@ == spec_short_text()
            &&& p.expected_input_tokens == 15
            &&& p.expected_output_tokens == 50
        },
        PromptSize::Medium => {
            &&& p.name@ == "medium"@
            &&& p.text@ == spec_medium_text()
            &&& p.expected_input_tokens == 50
            &&& p.expected_output_tokens == 200
        },
        PromptSize::Long => {
            &&& p.name@ == "long"@
            &&& p.text@ == spec_long_text()
            &&& p.expected_input_tokens == 100
            &&& p.expected_output_tokens == 500
        },
    }
}

/// Short prompt (~50 output tokens) - minimal cost.
pub fn short_prompt() -> (p: TestPrompt)
    ensures
        spec_prompt_matches(p, PromptSize::Short),
{
    TestPrompt {
        name: "short".to_owned(),
        text: "Explain what a binary search tree is in exactly three sentences.".to_owned(),
        expected_input_tokens: 15,
        expected_output_tokens: 50,
    }
}

/// Medium prompt (~200 output tokens) - typical interaction.
pub fn medium_prompt() -> (p: TestPrompt)
    ensures
        spec_prompt_matches(p, PromptSize::Medium),
{
    TestPrompt {
        name: "medium".to_owned(),
        text: "Write a Python function that implements merge sort. Include:\n1. The main merge_sort function\n2. A helper merge function\n3. Brief comments explaining each step\n4. An example of calling the function with a sample list".to_owned(),
        expected_input_tokens: 50,
        expected_output_tokens: 200,
    }
}

/// Long prompt (~500 output tokens) - extended response.
pub fn long_prompt() -> (p: TestPrompt)
    ensures
        spec_prompt_matches(p, PromptSize::Long),
{
    TestPrompt {
        name: "long".to_owned(),
        text: "You are a technical writer. Write a comprehensive guide about REST API design best practices. The guide should cover:\n\n1. Resource naming conventions\n2. HTTP method usage (GET, POST, PUT, PATCH, DELETE)\n3. Status code selection\n4. Error response formatting\n5. Pagination strategies\n6. Versioning approaches\n7. Authentication considerations\n\nFor each topic, provide a brief explanation and a concrete example. The guide should be suitable for intermediate developers who understand HTTP but are new to API design.".to_owned(),
        expected_input_tokens: 100,
        expected_output_tokens: 500,
    }
}

/// The catalog prompt for a configured size. Its expected output token
/// count always equals the size's own.
pub fn prompt_for_size(size: PromptSize) -> (p: TestPrompt)
    ensures
        spec_prompt_matches(p, size),
        p.expected_output_tokens == spec_expected_output_tokens(size),
{
    match size {
        PromptSize::Short => short_prompt(),
        PromptSize::Medium => medium_prompt(),
        PromptSize::Long => long_prompt(),
    }
}

/// The projected cost of one run of this prompt, in pico-USD: every expected
/// token at its per-million price read in micro-USD.
pub open spec fn spec_prompt_cost(p: TestPrompt, pricing: Pricing) -> int {
    p.expected_input_tokens * pricing.input_per_million + p.expected_output_tokens
        * pricing.output_per_million
}

/// The projected cost stays below `u64::MAX` for bounded prices.
pub proof fn lemma_prompt_cost_fits(p: TestPrompt, pricing: Pricing)
    requires
        pricing.wf(),
    ensures
        0 <= spec_prompt_cost(p, pricing) < u64::MAX,
{
    vstd::arithmetic::mul::lemma_mul_upper_bound(
        p.expected_input_tokens as int,
        u32::MAX as int,
        pricing.input_per_million as int,
        MAX_PRICE_MICROUSD as int,
    );
    vstd::arithmetic::mul::lemma_mul_upper_bound(
        p.expected_output_tokens as int,
        u32::MAX as int,
        pricing.output_per_million as int,
        MAX_PRICE_MICROUSD as int,
    );
}

impl TestPrompt {
    /// Estimate the cost of one run of this prompt under a pricing, in
    /// pico-USD, from the expected token counts (never measured values).
    pub fn estimate_cost(&self, pricing: &Pricing) -> (cost: u64)
        requires
            pricing.wf(),
        ensures
            cost as int == spec_prompt_cost(*self, *pricing),
    {
        proof {
            lemma_prompt_cost_fits(*self, *pricing);
        }
        let input_cost = self.expected_input_tokens as u64 * pricing.input_per_million;
        let output_cost = self.expected_output_tokens as u64 * pricing.output_per_million;
        input_cost + output_cost
    }
}

} // verus!
