//! Fundamentals study: data-point counting, and the reference figures used
//! when no data source answers.
use vstd::prelude::*;
use crate::sentiment::same_text;
use crate::text::{to_uppercase, upper_case_of};

verus! {

/// Which financial metrics are available, per dimension, in the order of
/// the metrics record: profitability (ROE, ROA, ROIC, net, gross, operating
/// and EBITDA margins), growth (revenue YoY and QoQ, EPS YoY and QoQ, net
/// income, book value and operating cash flow YoY), valuation (P/E, PEG, P/S,
/// P/B, P/CF, EV/EBITDA, EV/sales, P/FCF), financial strength (debt to
/// equity and to assets, current and quick ratios, interest coverage, cash to
/// debt, equity multiplier, Altman Z) and efficiency (asset, inventory,
/// receivables, payables and working-capital turnover, days sales, inventory
/// and payables outstanding).
pub struct MetricsPresence {
    pub profitability: [bool; 7],
    pub growth: [bool; 7],
    pub valuation: [bool; 8],
    pub financial_strength: [bool; 8],
    pub efficiency: [bool; 8],
}

pub open spec fn count_true(s: Seq<bool>) -> nat
    decreases s.len(),
{
    if s.len() == 0 {
        0
    } else {
        count_true(s.drop_last()) + if s.last() {
            1nat
        } else {
            0nat
        }
    }
}

impl MetricsPresence {
    pub open spec fn available(&self) -> nat {
        count_true(self.profitability@) + count_true(self.growth@) + count_true(self.valuation@)
            + count_true(self.financial_strength@) + count_true(self.efficiency@)
    }
}

proof fn lemma_count_true_bounded(s: Seq<bool>)
    ensures
        count_true(s) <= s.len(),
    decreases s.len(),
{
    if s.len() > 0 {
        lemma_count_true_bounded(s.drop_last());
    }
}

fn count_flags(flags: &[bool]) -> (count: u32)
    requires
        flags@.len() <= 8,
    ensures
        count == count_true(flags@),
{
    let mut count: u32 = 0;
    let mut i: usize = 0;
    while i < flags.len()
        invariant
            0 <= i <= flags@.len() <= 8,
            count == count_true(flags@.take(i as int)),
            count <= i,
        decreases flags@.len() - i,
    {
        assert(flags@.take(i + 1).drop_last() =~= flags@.take(i as int));
        if flags[i] {
            count = count + 1;
        }
        i = i + 1;
    }
    assert(flags@.take(flags@.len() as int) =~= flags@);
    count
}

/// Counts the available data points over all five dimensions.
pub fn count_data_points(metrics: &MetricsPresence) -> (count: u32)
    ensures
        count == metrics.available(),
        count <= 38,
{
    let a = count_flags(&metrics.profitability);
    let b = count_flags(&metrics.growth);
    let c = count_flags(&metrics.valuation);
    let d = count_flags(&metrics.financial_strength);
    let e = count_flags(&metrics.efficiency);
    proof {
        lemma_count_true_bounded(metrics.profitability@);
        lemma_count_true_bounded(metrics.growth@);
        lemma_count_true_bounded(metrics.valuation@);
        lemma_count_true_bounded(metrics.financial_strength@);
        lemma_count_true_bounded(metrics.efficiency@);
    }
    a + b + c + d + e
}

/// The five component scores of a fundamentals analysis, in hundredths
/// (100 is +1, -100 is -1).
#[derive(PartialEq, Eq, Structural, Clone, Copy, Debug)]
pub struct ComponentScoresPct {
    pub profitability: i32,
    pub growth: i32,
    pub valuation: i32,
    pub financial_strength: i32,
    pub efficiency: i32,
}

pub open spec fn scores(p: i32, g: i32, v: i32, f: i32, e: i32) -> ComponentScoresPct {
    ComponentScoresPct { profitability: p, growth: g, valuation: v, financial_strength: f, efficiency: e }
}

/// The reference component scores of a symbol already in upper case, used
/// when no data source answers: Apple, Microsoft, Alphabet, Nvidia and
/// Tesla have their own, every other symbol is average (zero).
pub open spec fn reference_scores_of(upper: Seq<char>) -> ComponentScoresPct {
    if upper == "AAPL"@ {
        scores(80, 30, -60i32, 90, 80)
    } else if upper == "MSFT"@ {
        scores(70, 40, -40i32, 80, 70)
    } else if upper == "GOOGL"@ {
        scores(60, 20, -30i32, 70, 60)
    } else if upper == "NVDA"@ {
        scores(90, 80, -70i32, 60, 50)
    } else if upper == "TSLA"@ {
        scores(20, 10, -80i32, -20i32, 10)
    } else {
        scores(0, 0, 0, 0, 0)
    }
}

/// The reference scores of an upper-case symbol (see [`reference_scores_of`]).
pub fn reference_scores_for_upper(upper: &str) -> (s: ComponentScoresPct)
    ensures
        s == reference_scores_of(upper@),
{
    if same_text(upper, "AAPL") {
        ComponentScoresPct { profitability: 80, growth: 30, valuation: -60, financial_strength: 90, efficiency: 80 }
    } else if same_text(upper, "MSFT") {
        ComponentScoresPct { profitability: 70, growth: 40, valuation: -40, financial_strength: 80, efficiency: 70 }
    } else if same_text(upper, "GOOGL") {
        ComponentScoresPct { profitability: 60, growth: 20, valuation: -30, financial_strength: 70, efficiency: 60 }
    } else if same_text(upper, "NVDA") {
        ComponentScoresPct { profitability: 90, growth: 80, valuation: -70, financial_strength: 60, efficiency: 50 }
    } else if same_text(upper, "TSLA") {
        ComponentScoresPct { profitability: 20, growth: 10, valuation: -80, financial_strength: -20, efficiency: 10 }
    } else {
        ComponentScoresPct { profitability: 0, growth: 0, valuation: 0, financial_strength: 0, efficiency: 0 }
    }
}

/// The reference component scores of a symbol, matched in upper case.
pub fn realistic_component_scores(symbol: &str) -> (s: ComponentScoresPct)
    ensures
        s == reference_scores_of(upper_case_of(symbol@)),
{
    let upper = to_uppercase(symbol);
    reference_scores_for_upper(upper.as_str())
}

/// Every reference score lies between -1 and +1, as each component score of
/// a fundamentals analysis does.
pub proof fn law_reference_scores_in_range(upper: Seq<char>)
    ensures
        ({
            let s = reference_scores_of(upper);
            &&& -100 <= s.profitability <= 100
            &&& -100 <= s.growth <= 100
            &&& -100 <= s.valuation <= 100
            &&& -100 <= s.financial_strength <= 100
            &&& -100 <= s.efficiency <= 100
        }),
{
}

/// Company metadata of a fundamentals analysis when no data source
/// answers. Beta, dividend yield and payout ratio are in basis points.
pub struct CompanyMetadata {
    pub sector: String,
    pub industry: String,
    pub market_cap_category: String,
    pub beta_bps: i64,
    pub dividend_yield_bps: i64,
    pub payout_ratio_bps: i64,
    pub shares_outstanding: i64,
    pub market_cap: i64,
    pub enterprise_value: i64,
}

impl CompanyMetadata {
    /// Whether this is the metadata given to Apple.
    pub open spec fn is_apple(&self) -> bool {
        &&& self.sector@ == "Technology"@
        &&& self.industry@ == "Consumer Electronics"@
        &&& self.market_cap_category@ == "Mega Cap"@
        &&& self.beta_bps == 12900
        &&& self.dividend_yield_bps == 44
        &&& self.payout_ratio_bps == 1500
        &&& self.shares_outstanding == 15_326_000_000
        &&& self.market_cap == 3_100_000_000_000
        &&& self.enterprise_value == 3_050_000_000_000
    }

    /// Whether this is the metadata given to any other symbol.
    pub open spec fn is_generic(&self) -> bool {
        &&& self.sector@ == "Unknown"@
        &&& self.industry@ == "Unknown"@
        &&& self.market_cap_category@ == "Unknown"@
        &&& self.beta_bps == 10000
        &&& self.dividend_yield_bps == 200
        &&& self.payout_ratio_bps == 3000
        &&& self.shares_outstanding == 1_000_000_000
        &&& self.market_cap == 100_000_000_000
        &&& self.enterprise_value == 95_000_000_000
    }
}

/// The reference company metadata of a symbol already in upper case:
/// Apple's own figures for `AAPL`, unknown and generic ones otherwise.
pub fn reference_metadata_for_upper(upper: &str) -> (meta: CompanyMetadata)
    ensures
        upper@ == "AAPL"@ ==> meta.is_apple(),
        upper@ != "AAPL"@ ==> meta.is_generic(),
{
    if same_text(upper, "AAPL") {
        CompanyMetadata {
            sector: String::from_str("Technology"),
            industry: String::from_str("Consumer Electronics"),
            market_cap_category: String::from_str("Mega Cap"),
            beta_bps: 12900,
            dividend_yield_bps: 44,
            payout_ratio_bps: 1500,
            shares_outstanding: 15_326_000_000,
            market_cap: 3_100_000_000_000,
            enterprise_value: 3_050_000_000_000,
        }
    } else {
        CompanyMetadata {
            sector: String::from_str("Unknown"),
            industry: String::from_str("Unknown"),
            market_cap_category: String::from_str("Unknown"),
            beta_bps: 10000,
            dividend_yield_bps: 200,
            payout_ratio_bps: 3000,
            shares_outstanding: 1_000_000_000,
            market_cap: 100_000_000_000,
            enterprise_value: 95_000_000_000,
        }
    }
}

/// The reference company metadata of a symbol, matched in upper case:
/// Apple's own figures, or unknown and generic ones.
pub fn reference_metadata(symbol: &str) -> (meta: CompanyMetadata)
    ensures
        upper_case_of(symbol@) == "AAPL"@ ==> meta.is_apple(),
        upper_case_of(symbol@) != "AAPL"@ ==> meta.is_generic(),
{
    let upper = to_uppercase(symbol);
    reference_metadata_for_upper(upper.as_str())
}

/// Each listed symbol has its own reference scores, given by value, and
/// exactly the symbols outside the list (AAPL, MSFT, GOOGL, NVDA, TSLA)
/// score zero in every component.
pub proof fn law_reference_score_table(upper: Seq<char>)
    ensures
        reference_scores_of("AAPL"@) == (ComponentScoresPct {
            profitability: 80,
            growth: 30,
            valuation: -60i32,
            financial_strength: 90,
            efficiency: 80,
        }),
        reference_scores_of("MSFT"@) == (ComponentScoresPct {
            profitability: 70,
            growth: 40,
            valuation: -40i32,
            financial_strength: 80,
            efficiency: 70,
        }),
        reference_scores_of("GOOGL"@) == (ComponentScoresPct {
            profitability: 60,
            growth: 20,
            valuation: -30i32,
            financial_strength: 70,
            efficiency: 60,
        }),
        reference_scores_of("NVDA"@) == (ComponentScoresPct {
            profitability: 90,
            growth: 80,
            valuation: -70i32,
            financial_strength: 60,
            efficiency: 50,
        }),
        reference_scores_of("TSLA"@) == (ComponentScoresPct {
            profitability: 20,
            growth: 10,
            valuation: -80i32,
            financial_strength: -20i32,
            efficiency: 10,
        }),
        (upper != "AAPL"@ && upper != "MSFT"@ && upper != "GOOGL"@ && upper != "NVDA"@ && upper
            != "TSLA"@) <==> reference_scores_of(upper) == (ComponentScoresPct {
            profitability: 0,
            growth: 0,
            valuation: 0,
            financial_strength: 0,
            efficiency: 0,
        }),
{
    reveal_strlit("AAPL");
    reveal_strlit("MSFT");
    reveal_strlit("GOOGL");
    reveal_strlit("NVDA");
    reveal_strlit("TSLA");
    assert("AAPL"@[0] == 'A' && "MSFT"@[0] == 'M' && "NVDA"@[0] == 'N' && "TSLA"@[0] == 'T');
    assert("GOOGL"@.len() == 5 && "AAPL"@.len() == 4 && "MSFT"@.len() == 4);
}

} // verus!
