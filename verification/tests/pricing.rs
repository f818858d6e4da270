//! Tests for the pricing reference data, its rendering, and the decimal
//! formatting underneath it.

use speed_kings::pricing::{default_pricing, format_pricing_table};
use speed_kings::text::u64_to_dec;

#[test]
fn test_u64_to_dec() {
    assert_eq!(u64_to_dec(0), "0");
    assert_eq!(u64_to_dec(7), "7");
    assert_eq!(u64_to_dec(42), "42");
    assert_eq!(u64_to_dec(1200), "1200");
    assert_eq!(u64_to_dec(18_446_744_073_709_551_615), "18446744073709551615");
}

#[test]
fn test_default_pricing_entries() {
    let pricing = default_pricing();
    assert_eq!(pricing.len(), 5);
    assert_eq!(pricing[0].key, "cerebras");
    assert_eq!(pricing[0].name, "Cerebras");
    assert_eq!(pricing[0].models.len(), 2);
    assert_eq!(pricing[0].models[0].0, "llama3.1-70b");
    assert_eq!(pricing[0].models[0].1.input_per_million, 100_000);
    assert_eq!(pricing[3].key, "deepseek");
    assert_eq!(pricing[3].models[0].1.input_per_million, 14_000);
    assert_eq!(pricing[3].models[0].1.output_per_million, 28_000);
    assert_eq!(pricing[4].key, "local");
    assert_eq!(pricing[4].models[0].1.input_per_million, 0);
}

#[test]
fn test_pricing_table_text() {
    let table = format_pricing_table();
    assert!(table.starts_with("Provider Pricing (per 1M tokens)\n"));
    assert!(table.contains("Cerebras:\n"));
    assert!(table.contains("  llama3.1-70b: $0.100 input / $0.100 output\n"));
    assert!(table.contains("  deepseek-chat: $0.014 input / $0.028 output\n"));
    assert!(table.contains("  default: $0.000 input / $0.000 output\n"));
    assert!(table.ends_with(
        "Note: Prices as of January 2025. Check provider websites for current rates.\n"
    ));
}
