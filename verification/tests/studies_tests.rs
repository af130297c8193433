use buenotea::batch::{tally_outcomes, BatchTally};
use buenotea::fundamentals::{
    count_data_points, realistic_component_scores, reference_metadata, reference_metadata_for_upper,
    MetricsPresence,
};
use buenotea::regime::{
    detect_market_regime, regime_confidence_pct, trend_consistency_pct, ConfidenceEvidence, MarketRegime,
    RegimeReadings, TrendDirection,
};
use buenotea::text::{decimal_string, replace_underscores, signed_decimal_string, two_decimals_string};
use buenotea::timing::{calculate_volume_analysis, PriceMove, VolumePriceRelationship, VolumeTrend};

#[test]
fn volume_analysis_without_data() {
    let a = calculate_volume_analysis(&vec![], PriceMove::Up);
    assert_eq!(a.current_volume, 0);
    assert_eq!(a.avg_volume, 0);
    assert_eq!(a.volume_trend, VolumeTrend::Stable);
    assert_eq!(a.vp_relationship, VolumePriceRelationship::Neutral);
}

#[test]
fn volume_analysis_short_history() {
    let a = calculate_volume_analysis(&vec![100, 200, 301], PriceMove::Up);
    assert_eq!(a.current_volume, 301);
    assert_eq!(a.avg_volume, 200);
    assert_eq!(a.volume_trend, VolumeTrend::Increasing);
    assert_eq!(a.vp_relationship, VolumePriceRelationship::Neutral);
}

#[test]
fn volume_analysis_uses_last_twenty_days() {
    let mut v: Vec<u64> = vec![1_000_000; 5];
    v.extend(vec![100; 15]);
    v.extend(vec![200; 5]);
    let a = calculate_volume_analysis(&v, PriceMove::Up);
    assert_eq!(a.avg_volume, 125);
    assert_eq!(a.volume_trend, VolumeTrend::Increasing);
    assert_eq!(a.vp_relationship, VolumePriceRelationship::BullishDivergence);
    let b = calculate_volume_analysis(&v, PriceMove::Down);
    assert_eq!(b.vp_relationship, VolumePriceRelationship::BearishDivergence);
    let c = calculate_volume_analysis(&v, PriceMove::Flat);
    assert_eq!(c.vp_relationship, VolumePriceRelationship::Neutral);
}

#[test]
fn volume_trend_thresholds() {
    let decreasing = calculate_volume_analysis(&vec![100, 100, 100, 100, 100, 100, 100, 100, 100, 70], PriceMove::Flat);
    assert_eq!(decreasing.avg_volume, 97);
    assert_eq!(decreasing.volume_trend, VolumeTrend::Decreasing);
    let stable = calculate_volume_analysis(&vec![100; 12], PriceMove::Up);
    assert_eq!(stable.volume_trend, VolumeTrend::Stable);
    assert_eq!(stable.vp_relationship, VolumePriceRelationship::Neutral);
    let zero = calculate_volume_analysis(&vec![0, 0, 0], PriceMove::Up);
    assert_eq!(zero.volume_trend, VolumeTrend::Stable);
}

#[test]
fn regimes() {
    let calm = RegimeReadings {
        high_volatility: false,
        low_volatility: false,
        broad_advance: true,
        broad_decline: false,
        moderate_volatility: true,
    };
    assert_eq!(detect_market_regime(&calm, TrendDirection::StrongBullish, TrendDirection::Bullish), MarketRegime::Bull);
    assert_eq!(detect_market_regime(&calm, TrendDirection::Neutral, TrendDirection::Neutral), MarketRegime::Sideways);
    assert_eq!(detect_market_regime(&calm, TrendDirection::Bullish, TrendDirection::Bullish), MarketRegime::Transition);
    let wild = RegimeReadings { high_volatility: true, ..calm };
    assert_eq!(detect_market_regime(&wild, TrendDirection::StrongBullish, TrendDirection::Bullish), MarketRegime::Volatile);
    let quiet = RegimeReadings { low_volatility: true, ..calm };
    assert_eq!(detect_market_regime(&quiet, TrendDirection::Neutral, TrendDirection::Neutral), MarketRegime::Stable);
    let falling = RegimeReadings { broad_advance: false, broad_decline: true, ..calm };
    assert_eq!(detect_market_regime(&falling, TrendDirection::StrongBearish, TrendDirection::Bearish), MarketRegime::Bear);
}

#[test]
fn consistency() {
    let (bull, bear, flat) = (TrendDirection::Bullish, TrendDirection::Bearish, TrendDirection::Neutral);
    assert_eq!(trend_consistency_pct(bull, bull, bull), 90);
    assert_eq!(trend_consistency_pct(bear, bull, bull), 70);
    assert_eq!(trend_consistency_pct(bull, bull, flat), 70);
    assert_eq!(trend_consistency_pct(bull, flat, bear), 50);
}

#[test]
fn data_points() {
    let none = MetricsPresence {
        profitability: [false; 7],
        growth: [false; 7],
        valuation: [false; 8],
        financial_strength: [false; 8],
        efficiency: [false; 8],
    };
    assert_eq!(count_data_points(&none), 0);
    let all = MetricsPresence {
        profitability: [true; 7],
        growth: [true; 7],
        valuation: [true; 8],
        financial_strength: [true; 8],
        efficiency: [true; 8],
    };
    assert_eq!(count_data_points(&all), 38);
    let some = MetricsPresence { growth: [true, false, true, false, false, false, true], ..none };
    assert_eq!(count_data_points(&some), 3);
}

#[test]
fn reference_scores() {
    let aapl = realistic_component_scores("aapl");
    assert_eq!((aapl.profitability, aapl.growth, aapl.valuation, aapl.financial_strength, aapl.efficiency), (80, 30, -60, 90, 80));
    let tsla = realistic_component_scores("TSLA");
    assert_eq!(tsla.financial_strength, -20);
    assert_eq!(tsla.profitability as f64 / 100.0, 0.2);
    let other = realistic_component_scores("IBM");
    assert_eq!(other.valuation, 0);
}

#[test]
fn reference_metadata_for_apple() {
    let m = reference_metadata("Aapl");
    assert_eq!(m.sector, "Technology");
    assert_eq!(m.shares_outstanding, 15_326_000_000);
    assert_eq!(m.dividend_yield_bps as f64 / 10_000.0, 0.0044);
    let g = reference_metadata("IBM");
    assert_eq!(g.industry, "Unknown");
    assert_eq!(g.enterprise_value, 95_000_000_000);
    assert_eq!(g.payout_ratio_bps as f64 / 10_000.0, 0.30);
}

#[test]
fn text_helpers() {
    assert_eq!(decimal_string(0), "0");
    assert_eq!(decimal_string(1234567890), "1234567890");
    assert_eq!(decimal_string(u64::MAX), u64::MAX.to_string());
    assert_eq!(signed_decimal_string(-15), "-15");
    assert_eq!(signed_decimal_string(i64::MIN), i64::MIN.to_string());
}

#[test]
fn batch_tally() {
    let mut t = BatchTally::new();
    t.record(true);
    t.record(false);
    t.record(true);
    assert_eq!((t.processed, t.errors), (2, 1));
    assert_eq!(t.summary_message(), "Processed 2 symbols");
    let u = tally_outcomes(&vec![true, true, false, true]);
    assert_eq!((u.processed, u.errors), (3, 1));
}

#[test]
fn regime_confidence() {
    let all = ConfidenceEvidence {
        has_spy_price: true,
        has_vix: true,
        has_breadth: true,
        clear_breadth: true,
        clear_volatility: true,
    };
    // 50 + 30 + 10 + 10 + 10 = 110, capped at 100.
    assert_eq!(regime_confidence_pct(&all, 90), 100);
    let usual = ConfidenceEvidence { clear_volatility: false, ..all };
    assert_eq!(regime_confidence_pct(&usual, 70), 90);
    assert_eq!(regime_confidence_pct(&usual, 90), 100);
    let none = ConfidenceEvidence {
        has_spy_price: false,
        has_vix: false,
        has_breadth: false,
        clear_breadth: false,
        clear_volatility: false,
    };
    assert_eq!(regime_confidence_pct(&none, 50), 50);
    assert_eq!(regime_confidence_pct(&none, 40), 40);
    assert_eq!(regime_confidence_pct(&none, 81), 60);
    assert_eq!(regime_confidence_pct(&none, 80), 50);
}

#[test]
fn text_rendering() {
    assert_eq!(replace_underscores("a_b__c"), "a b  c");
    assert_eq!(replace_underscores("é_ü"), "é ü");
    assert_eq!(replace_underscores(""), "");
    assert_eq!(two_decimals_string(60), "0.60");
    assert_eq!(two_decimals_string(100), "1.00");
    assert_eq!(two_decimals_string(5), "0.05");
    assert_eq!(two_decimals_string(1234), "12.34");
}

#[test]
fn metadata_for_upper_case_symbols() {
    assert_eq!(reference_metadata_for_upper("AAPL").market_cap, 3_100_000_000_000);
    assert_eq!(reference_metadata_for_upper("aapl").sector, "Unknown");
    assert_eq!(reference_metadata("aapl").sector, "Technology");
}
