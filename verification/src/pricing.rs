//! Pricing reference data for inference providers, and its rendering as a
//! displayable table. Prices are integers in micro-USD per million tokens,
//! so one dollar per million tokens is 1_000_000; the table renders them as
//! dollars with three decimals, rounded half up.

use vstd::prelude::*;
use vstd::string::StringExecFns;

use crate::text::{dec_str, u64_to_dec};

verus! {

/// Pricing for a specific model, in micro-USD per 1M tokens.
#[derive(Clone, Copy, Debug, PartialEq, Eq, Structural)]
pub struct ModelPricing {
    /// Micro-USD per 1M input tokens.
    pub input_per_million: u64,
    /// Micro-USD per 1M output tokens.
    pub output_per_million: u64,
}

/// Pricing information for a provider: its registry key, display name, and
/// the priced models.
pub struct ProviderPricing {
    /// The key the provider registers under.
    pub key: String,
    /// Human-readable provider name.
    pub name: String,
    /// Each priced model, by name.
    pub models: Vec<(String, ModelPricing)>,
}

impl View for ProviderPricing {
    type V = (Seq<char>, Seq<char>, Seq<(Seq<char>, ModelPricing)>);

    open spec fn view(&self) -> Self::V {
        (
            self.key@,
            self.name@,
            self.models@.map_values(|m: (String, ModelPricing)| (m.0@, m.1)),
        )
    }
}

/// The reference pricing list (January 2025 rates), as the view of what
/// `default_pricing` returns.
pub open spec fn default_pricing_view() -> Seq<
    (Seq<char>, Seq<char>, Seq<(Seq<char>, ModelPricing)>),
> {
    seq![
        (
            "cerebras"@,
            "Cerebras"@,
            seq![
                (
                    "llama3.1-70b"@,
                    ModelPricing { input_per_million: 100_000, output_per_million: 100_000 },
                ),
                (
                    "llama3.1-8b"@,
                    ModelPricing { input_per_million: 20_000, output_per_million: 20_000 },
                ),
            ],
        ),
        (
            "groq"@,
            "Groq"@,
            seq![
                (
                    "llama3-70b-8192"@,
                    ModelPricing { input_per_million: 50_000, output_per_million: 80_000 },
                ),
                (
                    "mixtral-8x7b-32768"@,
                    ModelPricing { input_per_million: 20_000, output_per_million: 20_000 },
                ),
            ],
        ),
        (
            "fireworks"@,
            "Fireworks"@,
            seq![
                (
                    "llama-v3p1-70b-instruct"@,
                    ModelPricing { input_per_million: 200_000, output_per_million: 200_000 },
                ),
            ],
        ),
        (
            "deepseek"@,
            "DeepSeek"@,
            seq![
                (
                    "deepseek-chat"@,
                    ModelPricing { input_per_million: 14_000, output_per_million: 28_000 },
                ),
            ],
        ),
        (
            "local"@,
            "Local (Ollama)"@,
            seq![("default"@, ModelPricing { input_per_million: 0, output_per_million: 0 })],
        ),
    ]
}

/// Get the reference pricing data (January 2025).
pub fn default_pricing() -> (pricing: Vec<ProviderPricing>)
    ensures
        pricing@.map_values(|p: ProviderPricing| p@) == default_pricing_view(),
{
    let mut pricing: Vec<ProviderPricing> = Vec::new();

    let mut cerebras_models: Vec<(String, ModelPricing)> = Vec::new();
    cerebras_models.push(
        (
            "llama3.1-70b".to_owned(),
            ModelPricing { input_per_million: 100_000, output_per_million: 100_000 },
        ),
    );
    cerebras_models.push(
        (
            "llama3.1-8b".to_owned(),
            ModelPricing { input_per_million: 20_000, output_per_million: 20_000 },
        ),
    );
    pricing.push(
        ProviderPricing {
            key: "cerebras".to_owned(),
            name: "Cerebras".to_owned(),
            models: cerebras_models,
        },
    );

    let mut groq_models: Vec<(String, ModelPricing)> = Vec::new();
    groq_models.push(
        (
            "llama3-70b-8192".to_owned(),
            ModelPricing { input_per_million: 50_000, output_per_million: 80_000 },
        ),
    );
    groq_models.push(
        (
            "mixtral-8x7b-32768".to_owned(),
            ModelPricing { input_per_million: 20_000, output_per_million: 20_000 },
        ),
    );
    pricing.push(
        ProviderPricing { key: "groq".to_owned(), name: "Groq".to_owned(), models: groq_models },
    );

    let mut fireworks_models: Vec<(String, ModelPricing)> = Vec::new();
    fireworks_models.push(
        (
            "llama-v3p1-70b-instruct".to_owned(),
            ModelPricing { input_per_million: 200_000, output_per_million: 200_000 },
        ),
    );
    pricing.push(
        ProviderPricing {
            key: "fireworks".to_owned(),
            name: "Fireworks".to_owned(),
            models: fireworks_models,
        },
    );

    let mut deepseek_models: Vec<(String, ModelPricing)> = Vec::new();
    deepseek_models.push(
        (
            "deepseek-chat".to_owned(),
            ModelPricing { input_per_million: 14_000, output_per_million: 28_000 },
        ),
    );
    pricing.push(
        ProviderPricing {
            key: "deepseek".to_owned(),
            name: "DeepSeek".to_owned(),
            models: deepseek_models,
        },
    );

    let mut local_models: Vec<(String, ModelPricing)> = Vec::new();
    local_models.push(
        ("default".to_owned(), ModelPricing { input_per_million: 0, output_per_million: 0 }),
    );
    pricing.push(
        ProviderPricing {
            key: "local".to_owned(),
            name: "Local (Ollama)".to_owned(),
            models: local_models,
        },
    );

    proof {
        assert(pricing@.map_values(|p: ProviderPricing| p@) =~~= default_pricing_view());
    }
    pricing
}

/// A price in micro-USD per million tokens rendered as dollars with three
/// decimals, rounded half up.
pub open spec fn spec_money3(v: u64) -> Seq<char> {
    let m = v / 1000 + (if v % 1000 >= 500 {
        1int
    } else {
        0int
    });
    dec_str((m / 1000) as nat) + "."@ + spec_pad3(m % 1000)
}

/// A value below 1000 in decimal, zero-padded to three digits.
pub open spec fn spec_pad3(n: int) -> Seq<char> {
    if n < 10 {
        "00"@ + dec_str(n as nat)
    } else if n < 100 {
        "0"@ + dec_str(n as nat)
    } else {
        dec_str(n as nat)
    }
}

/// Render a price as dollars with three decimals.
fn money3(v: u64) -> (s: String)
    ensures
        s@ == spec_money3(v),
{
    let m: u64 = v / 1000 + (if v % 1000 >= 500 {
        1
    } else {
        0
    });
    let mut s = u64_to_dec(m / 1000);
    s.append(".");
    let frac = m % 1000;
    if frac < 10 {
        s.append("00");
    } else if frac < 100 {
        s.append("0");
    }
    let frac_digits = u64_to_dec(frac);
    s.append(frac_digits.as_str());
    s
}

/// One model's table line: `  <model>: $<input> input / $<output> output`.
pub open spec fn render_model(m: (Seq<char>, ModelPricing)) -> Seq<char> {
    "  "@ + m.0 + ": $"@ + spec_money3(m.1.input_per_million) + " input / $"@ + spec_money3(
        m.1.output_per_million,
    ) + " output\n"@
}

/// The table lines of a provider's models, in order.
pub open spec fn render_models(ms: Seq<(Seq<char>, ModelPricing)>) -> Seq<char>
    decreases ms.len(),
{
    if ms.len() == 0 {
        Seq::empty()
    } else {
        render_models(ms.drop_last()) + render_model(ms.last())
    }
}

/// A provider's table block: its name, its model lines, a blank line.
pub open spec fn render_provider(p: (Seq<char>, Seq<char>, Seq<(Seq<char>, ModelPricing)>)) -> Seq<
    char,
> {
    p.1 + ":\n"@ + render_models(p.2) + "\n"@
}

/// The table blocks of all providers, in order.
pub open spec fn render_providers(
    ps: Seq<(Seq<char>, Seq<char>, Seq<(Seq<char>, ModelPricing)>)>,
) -> Seq<char>
    decreases ps.len(),
{
    if ps.len() == 0 {
        Seq::empty()
    } else {
        render_providers(ps.drop_last()) + render_provider(ps.last())
    }
}

/// The table's header lines.
pub open spec fn pricing_header() -> Seq<char> {
    "Provider Pricing (per 1M tokens)\n================================\n\n"@
}

/// The table's closing note.
pub open spec fn pricing_footer() -> Seq<char> {
    "Note: Prices as of January 2025. Check provider websites for current rates.\n"@
}

/// Appending one model line extends the rendering by that line.
proof fn lemma_render_models_step(ms: Seq<(Seq<char>, ModelPricing)>, k: int)
    requires
        0 <= k < ms.len(),
    ensures
        render_models(ms.take(k + 1)) == render_models(ms.take(k)) + render_model(ms[k]),
{
    assert(ms.take(k + 1).drop_last() =~= ms.take(k));
    assert(ms.take(k + 1).last() == ms[k]);
}

/// Appending one provider block extends the rendering by that block.
proof fn lemma_render_providers_step(
    ps: Seq<(Seq<char>, Seq<char>, Seq<(Seq<char>, ModelPricing)>)>,
    i: int,
)
    requires
        0 <= i < ps.len(),
    ensures
        render_providers(ps.take(i + 1)) == render_providers(ps.take(i)) + render_provider(ps[i]),
{
    assert(ps.take(i + 1).drop_last() =~= ps.take(i));
    assert(ps.take(i + 1).last() == ps[i]);
}

/// Format the reference pricing data as a displayable table: the header,
/// one block per provider in catalog order, and the closing note.
#[verifier::rlimit(50)]
pub fn format_pricing_table() -> (out: String)
    ensures
        out@ == pricing_header() + render_providers(default_pricing_view()) + pricing_footer(),
{
    let pricing = default_pricing();
    let ghost pv = pricing@.map_values(|p: ProviderPricing| p@);

    let mut out =
        "Provider Pricing (per 1M tokens)\n================================\n\n".to_owned();

    let n = pricing.len();
    let mut i: usize = 0;
    while i < n
        invariant
            n == pricing@.len(),
            pv == pricing@.map_values(|p: ProviderPricing| p@),
            pv == default_pricing_view(),
            0 <= i <= n,
            out@ == pricing_header() + render_providers(pv.take(i as int)),
        decreases n - i,
    {
        proof {
            lemma_render_providers_step(pv, i as int);
        }
        let p = &pricing[i];
        let ghost pview = pv[i as int];
        out.append(p.name.as_str());
        out.append(":\n");

        let m = p.models.len();
        let mut k: usize = 0;
        while k < m
            invariant
                m == p.models@.len(),
                pview == pv[i as int],
                pview.2 == p.models@.map_values(|e: (String, ModelPricing)| (e.0@, e.1)),
                0 <= k <= m,
                out@ == pricing_header() + render_providers(pv.take(i as int)) + pview.1 + ":\n"@
                    + render_models(pview.2.take(k as int)),
            decreases m - k,
        {
            proof {
                lemma_render_models_step(pview.2, k as int);
            }
            let entry = &p.models[k];
            out.append("  ");
            out.append(entry.0.as_str());
            out.append(": $");
            let input_price = money3(entry.1.input_per_million);
            out.append(input_price.as_str());
            out.append(" input / $");
            let output_price = money3(entry.1.output_per_million);
            out.append(output_price.as_str());
            out.append(" output\n");
            k = k + 1;
        }
        proof {
            assert(pview.2.take(m as int) =~= pview.2);
        }
        out.append("\n");
        i = i + 1;
    }
    proof {
        assert(pv.take(n as int) =~= pv);
    }
    out.append("Note: Prices as of January 2025. Check provider websites for current rates.\n");
    out
}

} // verus!
