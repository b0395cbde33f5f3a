use gpui_ai::context_meter::{format_tokens, percent_text, ContextMeterVariant, ContextUsage, UsageLevel};

#[test]
fn token_counts_format_compactly() {
    assert_eq!(format_tokens(912), "912");
    assert_eq!(format_tokens(1_000), "1.0K");
    assert_eq!(format_tokens(84_300), "84.3K");
    assert_eq!(format_tokens(200_000), "200K");
    assert_eq!(format_tokens(1_200_000), "1.2M");
    assert_eq!(format_tokens(12_000_000), "12M");
}

#[test]
fn fraction_is_clamped_and_levels_follow_the_thresholds() {
    assert_eq!(ContextUsage::new(0, 0).fraction_parts(), (0, 0));
    assert_eq!(ContextUsage::new(500, 100).fraction_parts(), (100, 100));
    assert_eq!(ContextUsage::new(50, 100).level(), UsageLevel::Comfortable);
    assert_eq!(ContextUsage::new(65, 100).level(), UsageLevel::Elevated);
    assert_eq!(ContextUsage::new(84, 100).level(), UsageLevel::Elevated);
    assert_eq!(ContextUsage::new(85, 100).level(), UsageLevel::Critical);
    assert_eq!(ContextUsage::new(84_300, 200_000).percent(), 42);
}

#[test]
fn token_count_boundaries() {
    assert_eq!(format_tokens(0), "0");
    assert_eq!(format_tokens(999), "999");
    assert_eq!(format_tokens(99_999), "100.0K");
    assert_eq!(format_tokens(100_000), "100K");
    assert_eq!(format_tokens(999_999), "1000K");
    assert_eq!(format_tokens(1_000_000), "1.0M");
    assert_eq!(format_tokens(9_999_999), "10.0M");
    assert_eq!(format_tokens(u64::MAX), "18446744073710M");
}

#[test]
fn usage_percent_and_summary() {
    assert_eq!(ContextUsage::new(0, 0).percent(), 0);
    assert_eq!(ContextUsage::new(0, 0).level(), UsageLevel::Comfortable);
    assert_eq!(ContextUsage::new(7, 5).percent(), 100);
    assert_eq!(ContextUsage::new(3, 200).percent(), 2);
    assert_eq!(ContextUsage::new(1, 201).percent(), 0);
    assert_eq!(ContextUsage::new(u64::MAX, u64::MAX).level(), UsageLevel::Critical);
    let usage = ContextUsage::new(84_300, 200_000);
    assert_eq!(usage.summary(), "84.3K of 200K tokens used, 42%");
    assert_eq!(usage.ratio_text(), "84.3K / 200K");
    assert_eq!(percent_text(&usage), "42%");
    assert!(!usage.has_breakdown());
    assert_eq!(ContextMeterVariant::default(), ContextMeterVariant::Ring);
    assert_eq!(ContextUsage::default().limit(), 0);
}

#[test]
fn breakdown_lists_recorded_lines_in_order() {
    let usage = ContextUsage::new(84_300, 200_000).input(61_000).output(19_800).cached(3_500).cost("$0.42");
    assert!(usage.has_breakdown());
    let rows: Vec<(String, String)> = usage.breakdown().into_iter().map(|r| (r.label, r.value)).collect();
    assert_eq!(
        rows,
        vec![
            ("Used".to_owned(), "84.3K / 200K".to_owned()),
            ("Input".to_owned(), "61.0K".to_owned()),
            ("Output".to_owned(), "19.8K".to_owned()),
            ("Cached".to_owned(), "3.5K".to_owned()),
            ("Cost".to_owned(), "$0.42".to_owned()),
        ]
    );
    let reasoning = ContextUsage::new(1, 2).reasoning(1_500_000);
    let rows: Vec<String> = reasoning.breakdown().into_iter().map(|r| r.value).collect();
    assert_eq!(rows, vec!["1 / 2".to_owned(), "1.5M".to_owned()]);
}

#[test]
fn an_exact_half_rounds_to_the_even_neighbour() {
    assert_eq!(format_tokens(1_250), "1.2K");
    assert_eq!(format_tokens(1_350), "1.4K");
    assert_eq!(format_tokens(100_500), "100K");
    assert_eq!(format_tokens(101_500), "102K");
    assert_eq!(format_tokens(10_500_000), "10M");
    assert_eq!(format_tokens(1_250_000), "1.2M");
}

/// The compact token reading computed directly in `f64`.
fn tokens_in_f64(tokens: u64) -> String {
    if tokens >= 1_000_000 {
        let value = tokens as f64 / 1_000_000.0;
        if value < 10.0 { format!("{:.1}M", value) } else { format!("{:.0}M", value) }
    } else if tokens >= 1_000 {
        let value = tokens as f64 / 1_000.0;
        if value < 100.0 { format!("{:.1}K", value) } else { format!("{:.0}K", value) }
    } else {
        format!("{}", tokens)
    }
}

#[test]
fn decimal_ties_in_token_counts_follow_the_binary_value() {
    assert_eq!(format_tokens(1_150), "1.1K");
    assert_eq!(format_tokens(1_250), "1.2K");
}

#[test]
fn token_readings_agree_with_binary64_arithmetic() {
    for tokens in 0..=1_100_000u64 {
        assert_eq!(format_tokens(tokens), tokens_in_f64(tokens), "tokens = {}", tokens);
    }
    let mut tokens: u64 = 1_100_000;
    while tokens < u64::MAX / 3 {
        for probe in [tokens, tokens + 1, tokens - 1, tokens / 100_000 * 100_000 + 50_000, tokens / 1_000_000 * 1_000_000 + 500_000] {
            assert_eq!(format_tokens(probe), tokens_in_f64(probe), "tokens = {}", probe);
        }
        tokens = tokens + tokens / 997 + 13;
    }
    for probe in [u64::MAX, u64::MAX - 1, 1 << 53, (1 << 53) + 1, 10_500_000, 9_950_000, 99_950] {
        assert_eq!(format_tokens(probe), tokens_in_f64(probe), "tokens = {}", probe);
    }
}
