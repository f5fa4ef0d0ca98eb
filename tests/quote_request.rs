use jupiter_swap_api_client::QuoteRequest;
use std::collections::HashMap;

#[derive(Debug, Clone, PartialEq)]
struct Core {
    input_mint: String,
    output_mint: String,
    amount: u64,
}

fn core_fields() -> Core {
    Core {
        input_mint: "So11111111111111111111111111111111111111112".to_string(),
        output_mint: "EPjFWdd5AufqSSqeM2qN1xzybapC8G4wEGGkZwyTDt1v".to_string(),
        amount: 1_000_000,
    }
}

fn extra() -> HashMap<String, String> {
    let mut m = HashMap::new();
    m.insert("useQNMarketCache".to_string(), "true".to_string());
    m
}

#[test]
fn extra_params_split_from_core_fields() {
    let q = QuoteRequest::new(core_fields()).with_quote_args(extra());
    let (primary, args) = q.into_query_parts();
    assert_eq!(primary.request, core_fields());
    assert!(primary.quote_args.is_none());
    assert_eq!(args, Some(extra()));
}

#[test]
fn take_quote_args_empties_the_side_channel() {
    let mut q = QuoteRequest::new(core_fields()).with_quote_args(extra());
    let args = q.take_quote_args();
    assert_eq!(args, Some(extra()));
    assert!(q.quote_args.is_none());
    assert_eq!(q.request, core_fields());
    assert_eq!(q.take_quote_args(), None);
}

#[test]
fn request_without_extra_params_has_none() {
    let (primary, args) = QuoteRequest::new(core_fields()).into_query_parts();
    assert_eq!(primary.request, core_fields());
    assert!(args.is_none());
}
