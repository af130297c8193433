use buenotea::invite_list::{
    format_check_line, standard_safety_checks, ApiConfig, CompanyProfileFacts, FinancialRatioFacts, InviteListCalculator,
    PriceHistoryFacts, ProfileEntryFacts, Rating, RatioEntryFacts, SafetyCheck, SafetyRiskLevel,
    ten_day_average_volume,
};

fn calculator() -> InviteListCalculator {
    InviteListCalculator::new(ApiConfig { fmp_api_key: "SECRET-REDACTED".to_string() })
}

fn history(volumes: &[Option<i64>]) -> PriceHistoryFacts {
    PriceHistoryFacts { daily_volumes: Some(volumes.to_vec()) }
}

fn profile(sector: bool, industry: bool, description: bool) -> CompanyProfileFacts {
    CompanyProfileFacts {
        first_entry: Some(ProfileEntryFacts {
            sector_is_string: sector,
            industry_is_string: industry,
            description_is_string: description,
        }),
    }
}

fn ratios(entries: Vec<(bool, bool, bool)>) -> FinancialRatioFacts {
    FinancialRatioFacts {
        entries: Some(
            entries
                .into_iter()
                .map(|(g, n, r)| RatioEntryFacts {
                    gross_margin_positive: g,
                    net_margin_positive: n,
                    return_on_assets_positive: r,
                })
                .collect(),
        ),
    }
}

#[test]
fn average_volume_counts_only_present_days_of_first_ten() {
    let mut days: Vec<Option<i64>> = vec![Some(100); 5];
    days.extend(vec![None; 5]);
    days.push(Some(1_000_000_000));
    assert_eq!(ten_day_average_volume(&history(&days)), Some(100));
}

#[test]
fn average_volume_needs_ten_days() {
    assert_eq!(ten_day_average_volume(&history(&vec![Some(5); 9])), None);
    assert_eq!(ten_day_average_volume(&history(&vec![None; 12])), None);
    assert_eq!(ten_day_average_volume(&PriceHistoryFacts { daily_volumes: None }), None);
}

#[test]
fn average_volume_rounds_toward_zero() {
    let mut days = vec![Some(1i64), Some(2)];
    days.extend(vec![None; 8]);
    assert_eq!(ten_day_average_volume(&history(&days)), Some(1));
    let mut negative = vec![Some(-1i64), Some(-2)];
    negative.extend(vec![None; 8]);
    assert_eq!(ten_day_average_volume(&history(&negative)), Some(-1));
}

#[test]
fn average_volume_of_extreme_values() {
    let days = vec![Some(i64::MAX); 10];
    assert_eq!(ten_day_average_volume(&history(&days)), Some(i64::MAX));
    let days = vec![Some(i64::MIN); 10];
    assert_eq!(ten_day_average_volume(&history(&days)), Some(i64::MIN));
}

#[test]
fn liquidity_and_volume_thresholds() {
    let calc = calculator();
    let liquid = history(&vec![Some(1_000_000); 10]);
    let medium = history(&vec![Some(100_000); 10]);
    let thin = history(&vec![Some(99_999); 10]);
    assert_eq!(calc.determine_liquidity_rating(&liquid), Rating::High);
    assert_eq!(calc.determine_liquidity_rating(&medium), Rating::Medium);
    assert_eq!(calc.determine_liquidity_rating(&thin), Rating::Low);
    assert!(calc.check_sufficient_volume(&liquid));
    assert!(calc.check_sufficient_volume(&medium));
    assert!(!calc.check_sufficient_volume(&thin));
    assert_eq!(calc.determine_liquidity_rating(&PriceHistoryFacts { daily_volumes: None }), Rating::Low);
}

#[test]
fn sufficient_volume_iff_not_low_liquidity() {
    let calc = calculator();
    for v in [0i64, 99_999, 100_000, 500_000, 999_999, 1_000_000, 5_000_000] {
        let h = history(&vec![Some(v); 12]);
        assert_eq!(
            calc.check_sufficient_volume(&h),
            calc.determine_liquidity_rating(&h) != Rating::Low
        );
    }
}

#[test]
fn recent_earnings_from_ratios_or_profile() {
    let calc = calculator();
    let empty_profile = CompanyProfileFacts { first_entry: None };
    assert!(calc.check_recent_earnings(&empty_profile, &ratios(vec![(false, false, false)])));
    assert!(!calc.check_recent_earnings(&empty_profile, &ratios(vec![])));
    assert!(calc.check_recent_earnings(&profile(true, true, false), &ratios(vec![])));
    assert!(!calc.check_recent_earnings(&profile(true, false, true), &FinancialRatioFacts { entries: None }));
}

#[test]
fn positive_revenue_reads_latest_entry_only() {
    let calc = calculator();
    assert!(calc.check_positive_revenue(&ratios(vec![(false, false, true), (false, false, false)])));
    assert!(!calc.check_positive_revenue(&ratios(vec![(false, false, false), (true, true, true)])));
    assert!(!calc.check_positive_revenue(&ratios(vec![])));
    assert!(!calc.check_positive_revenue(&FinancialRatioFacts { entries: None }));
}

#[test]
fn positive_revenue_implies_recent_earnings() {
    let calc = calculator();
    let empty_profile = CompanyProfileFacts { first_entry: None };
    let f = ratios(vec![(true, false, false)]);
    assert!(calc.check_positive_revenue(&f));
    assert!(calc.check_recent_earnings(&empty_profile, &f));
}

#[test]
fn analyst_coverage_needs_three_strings() {
    let calc = calculator();
    assert!(calc.check_analyst_coverage(&profile(true, true, true)));
    assert!(!calc.check_analyst_coverage(&profile(true, true, false)));
    assert!(!calc.check_analyst_coverage(&CompanyProfileFacts { first_entry: None }));
}

#[test]
fn risk_level_by_number_of_passed_checks() {
    let calc = calculator();
    let expect = [
        SafetyRiskLevel::VeryHigh,
        SafetyRiskLevel::VeryHigh,
        SafetyRiskLevel::High,
        SafetyRiskLevel::Medium,
        SafetyRiskLevel::Low,
        SafetyRiskLevel::Low,
    ];
    for k in 0..=5usize {
        let passed: Vec<bool> = (0..5).map(|i| i < k).collect();
        let checks = standard_safety_checks(passed[0], passed[1], passed[2], passed[3], passed[4]);
        assert_eq!(calc.determine_risk_level(&checks), expect[k]);
        let score = calc.calculate_safety_score(&checks);
        assert_eq!(score.passed_weight, 20 * k as u128);
        assert_eq!(score.total_weight, 100);
        assert_eq!(calc.count_failed_checks(&checks), 5 - k);
    }
}

#[test]
fn score_without_weight_is_zero() {
    let calc = calculator();
    let checks = vec![SafetyCheck { name: "empty", passed: true, weight_pct: 0 }];
    let score = calc.calculate_safety_score(&checks);
    assert!(score.at_least(0));
    assert!(!score.at_least(1));
    assert_eq!(calc.determine_risk_level(&checks), SafetyRiskLevel::VeryHigh);
}

#[test]
fn reasoning_lists_checks_and_assessment() {
    let calc = calculator();
    let checks = standard_safety_checks(true, true, false, true, true);
    let text = calc.generate_safety_reasoning(&checks);
    let expected = "Safety Checks:\n\
        - RECENT EARNINGS: ✓ PASS (20% weight)\n\
        - POSITIVE REVENUE: ✓ PASS (20% weight)\n\
        - STABLE PRICE: ✗ FAIL (20% weight)\n\
        - SUFFICIENT VOLUME: ✓ PASS (20% weight)\n\
        - ANALYST COVERAGE: ✓ PASS (20% weight)\n\
        \nOverall Assessment: EXCELLENT - Very safe for trading";
    assert_eq!(text, expected);
}

#[test]
fn assessment_phrases() {
    let calc = calculator();
    let phrase = |k: usize| {
        let p: Vec<bool> = (0..5).map(|i| i < k).collect();
        calc.overall_assessment(&standard_safety_checks(p[0], p[1], p[2], p[3], p[4]))
    };
    assert_eq!(phrase(5), "EXCELLENT - Very safe for trading");
    assert_eq!(phrase(3), "GOOD - Safe for trading with caution");
    assert_eq!(phrase(2), "MODERATE - Requires careful analysis");
    assert_eq!(phrase(1), "POOR - Not recommended for trading");
}

#[test]
fn safe_stock_analysis() {
    let calc = calculator();
    let analysis = calc.analyze_stock_safety(
        &profile(true, true, true),
        &ratios(vec![(true, true, true)]),
        &history(&vec![Some(2_000_000); 30]),
        true,
        Rating::Low,
    );
    assert!(analysis.is_safe_to_trade);
    assert_eq!(analysis.risk_level, SafetyRiskLevel::Low);
    assert_eq!(analysis.liquidity_rating, Rating::High);
    assert_eq!(analysis.volatility_rating, Rating::Low);
    assert_eq!(analysis.safety_score.passed_weight, 100);
    assert!(analysis.warning_flags.is_empty());
    assert!(analysis.missing_data_components.is_empty());
}

#[test]
fn unsafe_without_positive_revenue() {
    let calc = calculator();
    let analysis = calc.analyze_stock_safety(
        &profile(true, true, true),
        &ratios(vec![(false, false, false)]),
        &history(&vec![Some(2_000_000); 30]),
        true,
        Rating::Medium,
    );
    assert!(analysis.has_recent_earnings);
    assert!(!analysis.has_positive_revenue);
    assert_eq!(analysis.risk_level, SafetyRiskLevel::Low);
    assert!(!analysis.is_safe_to_trade);
}

#[test]
fn unsafe_with_three_failures() {
    let calc = calculator();
    let analysis = calc.analyze_stock_safety(
        &CompanyProfileFacts { first_entry: None },
        &ratios(vec![(true, false, false)]),
        &history(&vec![Some(10); 30]),
        false,
        Rating::High,
    );
    assert!(analysis.has_recent_earnings && analysis.has_positive_revenue);
    assert!(!analysis.has_sufficient_volume && !analysis.has_analyst_coverage);
    assert_eq!(analysis.risk_level, SafetyRiskLevel::High);
    assert!(!analysis.is_safe_to_trade);
    assert!(analysis.safety_reasoning.starts_with("Safety Score: 0.40 (40%)\n\nSafety Checks:\n"));
    assert!(analysis.safety_reasoning.ends_with("Overall Assessment: MODERATE - Requires careful analysis"));
}

#[test]
fn reasoning_of_an_analysis_starts_with_the_score() {
    let calc = calculator();
    let analysis = calc.analyze_stock_safety(
        &profile(true, true, false),
        &ratios(vec![(true, true, true)]),
        &history(&vec![Some(2_000_000); 30]),
        false,
        Rating::High,
    );
    let expected = "Safety Score: 0.60 (60%)\n\n\
        Safety Checks:\n\
        - RECENT EARNINGS: ✓ PASS (20% weight)\n\
        - POSITIVE REVENUE: ✓ PASS (20% weight)\n\
        - STABLE PRICE: ✗ FAIL (20% weight)\n\
        - SUFFICIENT VOLUME: ✓ PASS (20% weight)\n\
        - ANALYST COVERAGE: ✗ FAIL (20% weight)\n\
        \nOverall Assessment: GOOD - Safe for trading with caution";
    assert_eq!(analysis.safety_reasoning, expected);
    let full = calc.analyze_stock_safety(
        &profile(true, true, true),
        &ratios(vec![(true, true, true)]),
        &history(&vec![Some(2_000_000); 30]),
        true,
        Rating::Low,
    );
    assert!(full.safety_reasoning.starts_with("Safety Score: 1.00 (100%)\n\n"));
}

#[test]
fn check_line_format() {
    assert_eq!(format_check_line("STABLE PRICE", false, 20), "- STABLE PRICE: ✗ FAIL (20% weight)\n");
    assert_eq!(format_check_line("X", true, 0), "- X: ✓ PASS (0% weight)\n");
}

#[test]
fn labels() {
    assert_eq!(Rating::Medium.as_str(), "Medium");
    assert_eq!(SafetyRiskLevel::VeryHigh.as_str(), "VeryHigh");
}
