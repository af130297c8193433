//! Trading-safety screening of S&P 500 constituents ("invite list").
//!
//! The screening reads three API responses per stock: the company profile, the
//! financial ratios and the daily price history. The parts of those responses
//! that the screening looks at are held here as plain values (`*Facts`).
use vstd::prelude::*;
use vstd::arithmetic::div_mod::*;
use crate::text::{decimal, decimal_string, two_decimals, two_decimals_string, replace_underscores, to_uppercase, underscores_as_spaces, upper_case_of};

verus! {

/// API keys used by the invite-list study.
pub struct ApiConfig {
    pub fmp_api_key: String,
}

/// Calculates safety analysis for S&P 500 stocks.
pub struct InviteListCalculator {
    api_config: ApiConfig,
}

impl InviteListCalculator {
    /// The configuration this calculator was made with.
    pub closed spec fn config(&self) -> ApiConfig {
        self.api_config
    }

    pub fn new(api_config: ApiConfig) -> (calc: Self)
        ensures
            calc.config() == api_config,
    {
        Self { api_config }
    }
}

/// The daily history of a price response: for each day, in the order of the
/// response, its volume when the volume is an integer. `None` when the
/// response has no `historical` array.
pub struct PriceHistoryFacts {
    pub daily_volumes: Option<Vec<Option<i64>>>,
}

impl PriceHistoryFacts {
    pub open spec fn history(&self) -> Option<Seq<Option<i64>>> {
        match self.daily_volumes {
            Some(v) => Some(v@),
            None => None,
        }
    }
}

/// The volumes that are present, in order.
pub open spec fn present_volumes(vs: Seq<Option<i64>>) -> Seq<i64>
    decreases vs.len(),
{
    if vs.len() == 0 {
        seq![]
    } else {
        let rest = present_volumes(vs.drop_last());
        match vs.last() {
            Some(v) => rest.push(v),
            None => rest,
        }
    }
}

pub open spec fn sum_of(s: Seq<i64>) -> int
    decreases s.len(),
{
    if s.len() == 0 {
        0
    } else {
        sum_of(s.drop_last()) + s.last()
    }
}

/// Integer division rounding toward zero, as Rust's `/` does.
pub open spec fn div_toward_zero(a: int, b: int) -> int {
    if a >= 0 {
        a / b
    } else {
        -((-a) / b)
    }
}

/// Number of most recent days the volume checks look at.
pub const VOLUME_WINDOW: usize = 10;

/// Average volume over the first ten days of the history, counting only the
/// days whose volume is present; `None` without a history, with fewer than ten
/// days, or when none of the ten volumes is present.
pub open spec fn ten_day_average(history: Option<Seq<Option<i64>>>) -> Option<int> {
    match history {
        None => None,
        Some(h) => if h.len() < 10 {
            None
        } else {
            let p = present_volumes(h.take(10));
            if p.len() == 0 {
                None
            } else {
                Some(div_toward_zero(sum_of(p), p.len() as int))
            }
        },
    }
}

proof fn lemma_present_volumes_bounds(vs: Seq<Option<i64>>)
    ensures
        present_volumes(vs).len() <= vs.len(),
        present_volumes(vs).len() * i64::MIN <= sum_of(present_volumes(vs)) <= present_volumes(
            vs,
        ).len() * i64::MAX,
    decreases vs.len(),
{
    if vs.len() > 0 {
        let rest = present_volumes(vs.drop_last());
        lemma_present_volumes_bounds(vs.drop_last());
        if let Some(v) = vs.last() {
            assert(rest.push(v).drop_last() =~= rest);
        }
    }
}

proof fn lemma_average_in_range(sum: int, count: int)
    requires
        count > 0,
        count * i64::MIN <= sum <= count * i64::MAX,
    ensures
        i64::MIN <= div_toward_zero(sum, count) <= i64::MAX,
{
    if sum >= 0 {
        assert(sum / count <= i64::MAX) by (nonlinear_arith)
            requires
                count > 0,
                0 <= sum <= count * i64::MAX,
        {
            lemma_div_is_ordered(sum, count * i64::MAX, count);
            lemma_div_by_multiple(i64::MAX as int, count);
        }
        lemma_div_pos_is_pos(sum, count);
    } else {
        let m: int = 0x8000_0000_0000_0000;
        assert((-sum) / count <= m) by (nonlinear_arith)
            requires
                count > 0,
                0 <= -sum <= count * m,
        {
            lemma_div_is_ordered(-sum, count * m, count);
            lemma_div_by_multiple(m, count);
        }
        lemma_div_pos_is_pos(-sum, count);
    }
}

/// The ten-day average volume of a history (see [`ten_day_average`]).
pub fn ten_day_average_volume(prices: &PriceHistoryFacts) -> (avg: Option<i64>)
    ensures
        avg is Some <==> ten_day_average(prices.history()) is Some,
        avg is Some ==> avg.unwrap() as int == ten_day_average(prices.history()).unwrap(),
{
    match &prices.daily_volumes {
        None => None,
        Some(days) => {
            if days.len() < VOLUME_WINDOW {
                return None;
            }
            let ghost h = days@;
            let mut sum: i128 = 0;
            let mut count: i128 = 0;
            let mut i: usize = 0;
            while i < VOLUME_WINDOW
                invariant
                    h == days@,
                    h.len() >= 10,
                    0 <= i <= 10,
                    sum == sum_of(present_volumes(h.take(i as int))),
                    count == present_volumes(h.take(i as int)).len(),
                    count <= i,
                    count * i64::MIN <= sum <= count * i64::MAX,
                decreases 10 - i,
            {
                assert(h.take(i + 1).drop_last() =~= h.take(i as int));
                let ghost rest = present_volumes(h.take(i as int));
                match days[i] {
                    Some(v) => {
                        assert(rest.push(v).drop_last() =~= rest);
                        sum = sum + v as i128;
                        count = count + 1;
                    },
                    None => {},
                }
                i = i + 1;
                proof {
                    lemma_present_volumes_bounds(h.take(i as int));
                }
            }
            if count == 0 {
                return None;
            }
            proof {
                lemma_average_in_range(sum as int, count as int);
            }
            let avg: i128 = if sum >= 0 {
                sum / count
            } else {
                -((-sum) / count)
            };
            Some(avg as i64)
        },
    }
}


/// What the safety checks read of the first entry of a company-profile
/// response: whether each of these fields is a string.
pub struct ProfileEntryFacts {
    pub sector_is_string: bool,
    pub industry_is_string: bool,
    pub description_is_string: bool,
}

/// What the safety checks read of a company-profile response; `first_entry`
/// is `None` when the response is not an array or is empty.
pub struct CompanyProfileFacts {
    pub first_entry: Option<ProfileEntryFacts>,
}

/// What the safety checks read of one entry of a financial-ratios response:
/// whether each field is a number greater than zero.
pub struct RatioEntryFacts {
    pub gross_margin_positive: bool,
    pub net_margin_positive: bool,
    pub return_on_assets_positive: bool,
}

/// The entries of a financial-ratios response, in order (latest first);
/// `None` when the response is not an array.
pub struct FinancialRatioFacts {
    pub entries: Option<Vec<RatioEntryFacts>>,
}

/// Minimum ten-day average volume of a sufficiently traded stock.
pub const MIN_SUFFICIENT_VOLUME: i64 = 100_000;

/// Ten-day average volume from which liquidity is rated high.
pub const HIGH_LIQUIDITY_VOLUME: i64 = 1_000_000;

/// A three-step rating used for volatility and liquidity.
#[derive(PartialEq, Eq, Structural, Clone, Copy, Debug)]
pub enum Rating {
    Low,
    Medium,
    High,
}

impl Rating {
    pub open spec fn label(self) -> Seq<char> {
        match self {
            Rating::Low => "Low"@,
            Rating::Medium => "Medium"@,
            Rating::High => "High"@,
        }
    }

    /// The rating's name as stored in invite-list records.
    pub fn as_str(&self) -> (s: &'static str)
        ensures
            s@ == self.label(),
    {
        match self {
            Rating::Low => "Low",
            Rating::Medium => "Medium",
            Rating::High => "High",
        }
    }
}

/// Risk level of a stock derived from its safety checks.
#[derive(PartialEq, Eq, Structural, Clone, Copy, Debug)]
pub enum SafetyRiskLevel {
    Low,
    Medium,
    High,
    VeryHigh,
}

impl SafetyRiskLevel {
    pub open spec fn label(self) -> Seq<char> {
        match self {
            SafetyRiskLevel::Low => "Low"@,
            SafetyRiskLevel::Medium => "Medium"@,
            SafetyRiskLevel::High => "High"@,
            SafetyRiskLevel::VeryHigh => "VeryHigh"@,
        }
    }

    /// The level's name as stored in invite-list records.
    pub fn as_str(&self) -> (s: &'static str)
        ensures
            s@ == self.label(),
    {
        match self {
            SafetyRiskLevel::Low => "Low",
            SafetyRiskLevel::Medium => "Medium",
            SafetyRiskLevel::High => "High",
            SafetyRiskLevel::VeryHigh => "VeryHigh",
        }
    }
}

pub open spec fn recent_earnings_found(
    company: CompanyProfileFacts,
    financial: FinancialRatioFacts,
) -> bool {
    ||| (financial.entries matches Some(e) && e@.len() > 0)
    ||| (company.first_entry matches Some(p) && p.sector_is_string && p.industry_is_string)
}

pub open spec fn positive_revenue_found(financial: FinancialRatioFacts) -> bool {
    financial.entries matches Some(e) && e@.len() > 0 && {
        let latest = e@[0];
        latest.gross_margin_positive || latest.net_margin_positive
            || latest.return_on_assets_positive
    }
}

pub open spec fn sufficient_volume_found(prices: PriceHistoryFacts) -> bool {
    ten_day_average(prices.history()) matches Some(avg) && avg >= MIN_SUFFICIENT_VOLUME
}

pub open spec fn analyst_coverage_found(company: CompanyProfileFacts) -> bool {
    company.first_entry matches Some(p) && p.sector_is_string && p.industry_is_string
        && p.description_is_string
}

pub open spec fn liquidity_of(prices: PriceHistoryFacts) -> Rating {
    match ten_day_average(prices.history()) {
        None => Rating::Low,
        Some(avg) => if avg >= HIGH_LIQUIDITY_VOLUME {
            Rating::High
        } else if avg >= MIN_SUFFICIENT_VOLUME {
            Rating::Medium
        } else {
            Rating::Low
        },
    }
}

impl InviteListCalculator {
    /// Checks if the company has recent earnings data: a non-empty ratios
    /// response, or a profile whose sector and industry are strings.
    pub fn check_recent_earnings(
        &self,
        company: &CompanyProfileFacts,
        financial: &FinancialRatioFacts,
    ) -> (found: bool)
        ensures
            found == recent_earnings_found(*company, *financial),
    {
        if let Some(entries) = &financial.entries {
            if entries.len() > 0 {
                return true;
            }
        }
        if let Some(profile) = &company.first_entry {
            if profile.sector_is_string && profile.industry_is_string {
                return true;
            }
        }
        false
    }

    /// Checks if the company has positive revenue, using the latest ratio
    /// entry's gross margin, net margin or return on assets as a proxy.
    pub fn check_positive_revenue(&self, financial: &FinancialRatioFacts) -> (found: bool)
        ensures
            found == positive_revenue_found(*financial),
    {
        if let Some(entries) = &financial.entries {
            if entries.len() > 0 {
                let latest = &entries[0];
                if latest.gross_margin_positive {
                    return true;
                }
                if latest.net_margin_positive {
                    return true;
                }
                if latest.return_on_assets_positive {
                    return true;
                }
            }
        }
        false
    }

    /// Checks if the stock trades enough: a ten-day average volume of at
    /// least 100,000 shares.
    pub fn check_sufficient_volume(&self, prices: &PriceHistoryFacts) -> (found: bool)
        ensures
            found == sufficient_volume_found(*prices),
    {
        match ten_day_average_volume(prices) {
            Some(avg) => avg >= MIN_SUFFICIENT_VOLUME,
            None => false,
        }
    }

    /// Checks if the stock has analyst coverage: a profile whose sector,
    /// industry and description are strings.
    pub fn check_analyst_coverage(&self, company: &CompanyProfileFacts) -> (found: bool)
        ensures
            found == analyst_coverage_found(*company),
    {
        match &company.first_entry {
            Some(profile) => profile.sector_is_string && profile.industry_is_string
                && profile.description_is_string,
            None => false,
        }
    }

    /// Rates liquidity from the ten-day average volume: high from 1,000,000
    /// shares, medium from 100,000, low below or without data.
    pub fn determine_liquidity_rating(&self, prices: &PriceHistoryFacts) -> (rating: Rating)
        ensures
            rating == liquidity_of(*prices),
    {
        match ten_day_average_volume(prices) {
            None => Rating::Low,
            Some(avg) => if avg >= HIGH_LIQUIDITY_VOLUME {
                Rating::High
            } else if avg >= MIN_SUFFICIENT_VOLUME {
                Rating::Medium
            } else {
                Rating::Low
            },
        }
    }
}


/// One named safety check, whether it passed, and its weight in percent.
#[derive(Clone, Copy, Debug)]
pub struct SafetyCheck {
    pub name: &'static str,
    pub passed: bool,
    pub weight_pct: u32,
}

/// Total weight of the checks.
pub open spec fn total_weight(checks: Seq<SafetyCheck>) -> nat
    decreases checks.len(),
{
    if checks.len() == 0 {
        0
    } else {
        total_weight(checks.drop_last()) + checks.last().weight_pct as nat
    }
}

/// Total weight of the checks that passed.
pub open spec fn passed_weight(checks: Seq<SafetyCheck>) -> nat
    decreases checks.len(),
{
    if checks.len() == 0 {
        0
    } else {
        passed_weight(checks.drop_last()) + if checks.last().passed {
            checks.last().weight_pct as nat
        } else {
            0
        }
    }
}

/// Number of checks that failed.
pub open spec fn failed_count(checks: Seq<SafetyCheck>) -> nat
    decreases checks.len(),
{
    if checks.len() == 0 {
        0
    } else {
        failed_count(checks.drop_last()) + if checks.last().passed {
            0nat
        } else {
            1nat
        }
    }
}

/// Whether the safety score, the passed share of the total weight (zero when
/// there is no weight), reaches `pct` percent.
pub open spec fn score_reaches(checks: Seq<SafetyCheck>, pct: nat) -> bool {
    if total_weight(checks) == 0 {
        pct == 0
    } else {
        100 * passed_weight(checks) >= pct * total_weight(checks)
    }
}

/// Risk level from the safety score and the number of failed checks.
pub open spec fn risk_of(checks: Seq<SafetyCheck>) -> SafetyRiskLevel {
    if score_reaches(checks, 80) && failed_count(checks) <= 1 {
        SafetyRiskLevel::Low
    } else if score_reaches(checks, 60) && failed_count(checks) <= 2 {
        SafetyRiskLevel::Medium
    } else if score_reaches(checks, 40) && failed_count(checks) <= 3 {
        SafetyRiskLevel::High
    } else {
        SafetyRiskLevel::VeryHigh
    }
}

/// The safety score as a ratio: the weight of the passed checks over the
/// weight of all checks.
#[derive(Clone, Copy, Debug)]
pub struct SafetyScore {
    pub passed_weight: u128,
    pub total_weight: u128,
}

impl SafetyScore {
    pub open spec fn reaches(self, pct: nat) -> bool {
        if self.total_weight == 0 {
            pct == 0
        } else {
            100 * self.passed_weight >= pct * self.total_weight
        }
    }

    /// Whether the score is at least `pct` percent.
    pub fn at_least(&self, pct: u32) -> (reached: bool)
        requires
            self.total_weight <= u32::MAX * 0x1_0000_0000_0000_0000,
            self.passed_weight <= self.total_weight,
        ensures
            reached == self.reaches(pct as nat),
    {
        if self.total_weight == 0 {
            pct == 0
        } else {
            assert(pct * self.total_weight <= u32::MAX * (u32::MAX * 0x1_0000_0000_0000_0000))
                by (nonlinear_arith)
                requires
                    pct <= u32::MAX,
                    self.total_weight <= u32::MAX * 0x1_0000_0000_0000_0000,
            ;
            100 * self.passed_weight >= (pct as u128) * self.total_weight
        }
    }
}

proof fn lemma_weights_bounded(checks: Seq<SafetyCheck>)
    ensures
        passed_weight(checks) <= total_weight(checks),
        total_weight(checks) <= checks.len() * u32::MAX,
        failed_count(checks) <= checks.len(),
    decreases checks.len(),
{
    if checks.len() > 0 {
        lemma_weights_bounded(checks.drop_last());
    }
}

/// The five checks of the screening, each weighing 20%, in this order:
/// recent earnings, positive revenue, stable price, sufficient volume,
/// analyst coverage.
pub open spec fn standard_check_seq(
    earnings: bool,
    revenue: bool,
    stable: bool,
    volume: bool,
    coverage: bool,
) -> Seq<SafetyCheck> {
    seq![
        SafetyCheck { name: "recent_earnings", passed: earnings, weight_pct: 20 },
        SafetyCheck { name: "positive_revenue", passed: revenue, weight_pct: 20 },
        SafetyCheck { name: "stable_price", passed: stable, weight_pct: 20 },
        SafetyCheck { name: "sufficient_volume", passed: volume, weight_pct: 20 },
        SafetyCheck { name: "analyst_coverage", passed: coverage, weight_pct: 20 },
    ]
}

/// Builds the five standard checks from their outcomes.
pub fn standard_safety_checks(
    earnings: bool,
    revenue: bool,
    stable: bool,
    volume: bool,
    coverage: bool,
) -> (checks: Vec<SafetyCheck>)
    ensures
        checks@ == standard_check_seq(earnings, revenue, stable, volume, coverage),
{
    let mut checks: Vec<SafetyCheck> = Vec::new();
    checks.push(SafetyCheck { name: "recent_earnings", passed: earnings, weight_pct: 20 });
    checks.push(SafetyCheck { name: "positive_revenue", passed: revenue, weight_pct: 20 });
    checks.push(SafetyCheck { name: "stable_price", passed: stable, weight_pct: 20 });
    checks.push(SafetyCheck { name: "sufficient_volume", passed: volume, weight_pct: 20 });
    checks.push(SafetyCheck { name: "analyst_coverage", passed: coverage, weight_pct: 20 });
    assert(checks@ =~= standard_check_seq(earnings, revenue, stable, volume, coverage));
    checks
}

impl InviteListCalculator {
    /// Calculates the overall safety score: the weight of the passed checks
    /// over the weight of all checks.
    pub fn calculate_safety_score(&self, checks: &Vec<SafetyCheck>) -> (score: SafetyScore)
        ensures
            score.passed_weight == passed_weight(checks@),
            score.total_weight == total_weight(checks@),
    {
        let mut passed: u128 = 0;
        let mut total: u128 = 0;
        let mut i: usize = 0;
        while i < checks.len()
            invariant
                0 <= i <= checks.len(),
                passed == passed_weight(checks@.take(i as int)),
                total == total_weight(checks@.take(i as int)),
                passed <= total,
                total <= i * u32::MAX,
            decreases checks.len() - i,
        {
            assert(checks@.take(i + 1).drop_last() =~= checks@.take(i as int));
            let check = checks[i];
            if check.passed {
                passed = passed + check.weight_pct as u128;
            }
            total = total + check.weight_pct as u128;
            i = i + 1;
        }
        assert(checks@.take(checks.len() as int) =~= checks@);
        SafetyScore { passed_weight: passed, total_weight: total }
    }

    /// Counts the checks that failed.
    pub fn count_failed_checks(&self, checks: &Vec<SafetyCheck>) -> (failed: usize)
        ensures
            failed == failed_count(checks@),
    {
        let mut failed: usize = 0;
        let mut i: usize = 0;
        while i < checks.len()
            invariant
                0 <= i <= checks.len(),
                failed == failed_count(checks@.take(i as int)),
                failed <= i,
            decreases checks.len() - i,
        {
            assert(checks@.take(i + 1).drop_last() =~= checks@.take(i as int));
            if !checks[i].passed {
                failed = failed + 1;
            }
            i = i + 1;
        }
        assert(checks@.take(checks.len() as int) =~= checks@);
        failed
    }

    /// Determines the risk level: low from a score of 80% with at most one
    /// failed check, medium from 60% with at most two, high from 40% with at
    /// most three, very high otherwise.
    pub fn determine_risk_level(&self, checks: &Vec<SafetyCheck>) -> (level: SafetyRiskLevel)
        ensures
            level == risk_of(checks@),
    {
        let score = self.calculate_safety_score(checks);
        let failed = self.count_failed_checks(checks);
        let len = checks.len();
        proof {
            lemma_weights_bounded(checks@);
            let n = checks@.len();
            assert(n == len);
            assert(n <= 0x1_0000_0000_0000_0000);
            assert(n * u32::MAX <= u32::MAX * 0x1_0000_0000_0000_0000) by (nonlinear_arith)
                requires
                    n <= 0x1_0000_0000_0000_0000,
            ;
        }
        if score.at_least(80) && failed <= 1 {
            SafetyRiskLevel::Low
        } else if score.at_least(60) && failed <= 2 {
            SafetyRiskLevel::Medium
        } else if score.at_least(40) && failed <= 3 {
            SafetyRiskLevel::High
        } else {
            SafetyRiskLevel::VeryHigh
        }
    }
}


pub open spec fn status_text(passed: bool) -> Seq<char> {
    if passed {
        "✓ PASS"@
    } else {
        "✗ FAIL"@
    }
}

/// The reasoning line of one check, e.g. `- RECENT EARNINGS: ✓ PASS (20% weight)`.
pub open spec fn check_line(c: SafetyCheck) -> Seq<char> {
    "- "@ + upper_case_of(underscores_as_spaces(c.name@)) + ": "@ + status_text(c.passed) + " ("@
        + decimal(c.weight_pct as nat) + "% weight)\n"@
}

pub open spec fn check_lines(checks: Seq<SafetyCheck>) -> Seq<char>
    decreases checks.len(),
{
    if checks.len() == 0 {
        seq![]
    } else {
        check_lines(checks.drop_last()) + check_line(checks.last())
    }
}

/// The overall assessment phrase for the safety score.
pub open spec fn assessment_text(checks: Seq<SafetyCheck>) -> Seq<char> {
    if score_reaches(checks, 80) {
        "EXCELLENT - Very safe for trading"@
    } else if score_reaches(checks, 60) {
        "GOOD - Safe for trading with caution"@
    } else if score_reaches(checks, 40) {
        "MODERATE - Requires careful analysis"@
    } else {
        "POOR - Not recommended for trading"@
    }
}

/// The safety reasoning after its score header: the list of checks and the
/// overall assessment.
pub open spec fn reasoning_body(checks: Seq<SafetyCheck>) -> Seq<char> {
    "Safety Checks:\n"@ + check_lines(checks) + "\nOverall Assessment: "@ + assessment_text(checks)
}

/// The header of the safety reasoning for a score of `pct` percent of a
/// total weight of 100: `Safety Score: 0.60 (60%)` and a blank line.
pub open spec fn score_header(pct: nat) -> Seq<char> {
    "Safety Score: "@ + two_decimals(pct) + " ("@ + decimal(pct) + "%)\n\n"@
}

proof fn lemma_score_fits(checks: Seq<SafetyCheck>)
    requires
        checks.len() <= usize::MAX,
    ensures
        total_weight(checks) <= u32::MAX * 0x1_0000_0000_0000_0000,
        passed_weight(checks) <= total_weight(checks),
{
    lemma_weights_bounded(checks);
    let n = checks.len();
    assert(n * u32::MAX <= u32::MAX * 0x1_0000_0000_0000_0000) by (nonlinear_arith)
        requires
            n <= usize::MAX,
            usize::MAX < 0x1_0000_0000_0000_0000,
    ;
}

fn status_str(passed: bool) -> (s: &'static str)
    ensures
        s@ == status_text(passed),
{
    if passed {
        "✓ PASS"
    } else {
        "✗ FAIL"
    }
}

/// Builds the reasoning line of one check from its heading (already upper
/// case, with spaces), its outcome and its weight.
pub fn format_check_line(heading: &str, passed: bool, weight_pct: u32) -> (line: String)
    ensures
        line@ == "- "@ + heading@ + ": "@ + status_text(passed) + " ("@ + decimal(
            weight_pct as nat,
        ) + "% weight)\n"@,
{
    let weight = decimal_string(weight_pct as u64);
    let mut line = String::from_str("- ");
    line.append(heading);
    line.append(": ");
    line.append(status_str(passed));
    line.append(" (");
    line.append(weight.as_str());
    line.append("% weight)\n");
    line
}

impl InviteListCalculator {
    /// The overall assessment phrase: excellent from a score of 80%, good
    /// from 60%, moderate from 40%, poor below.
    pub fn overall_assessment(&self, checks: &Vec<SafetyCheck>) -> (phrase: &'static str)
        ensures
            phrase@ == assessment_text(checks@),
    {
        let score = self.calculate_safety_score(checks);
        let len = checks.len();
        proof {
            assert(checks@.len() == len);
            lemma_score_fits(checks@);
        }
        if score.at_least(80) {
            "EXCELLENT - Very safe for trading"
        } else if score.at_least(60) {
            "GOOD - Safe for trading with caution"
        } else if score.at_least(40) {
            "MODERATE - Requires careful analysis"
        } else {
            "POOR - Not recommended for trading"
        }
    }

    /// Generates the human-readable safety reasoning after its score header:
    /// one line per check and the overall assessment. The analysis of a
    /// stock (see `analyze_stock_safety`) puts the header in front.
    pub fn generate_safety_reasoning(&self, checks: &Vec<SafetyCheck>) -> (reasoning: String)
        ensures
            reasoning@ == reasoning_body(checks@),
    {
        let mut text = String::from_str("Safety Checks:\n");
        let mut i: usize = 0;
        while i < checks.len()
            invariant
                0 <= i <= checks.len(),
                text@ == "Safety Checks:\n"@ + check_lines(checks@.take(i as int)),
            decreases checks.len() - i,
        {
            assert(checks@.take(i + 1).drop_last() =~= checks@.take(i as int));
            let check = checks[i];
            let spaced = replace_underscores(check.name);
            let heading = to_uppercase(spaced.as_str());
            let line = format_check_line(heading.as_str(), check.passed, check.weight_pct);
            let ghost before = text@;
            text.append(line.as_str());
            assert(text@ =~= before + check_line(check));
            i = i + 1;
        }
        assert(checks@.take(checks.len() as int) =~= checks@);
        let phrase = self.overall_assessment(checks);
        text.append("\nOverall Assessment: ");
        text.append(phrase);
        text
    }
}

/// The part of a safety analysis that does not involve price volatility,
/// which is measured in floating point and handed in.
pub struct SafetyAnalysis {
    pub is_safe_to_trade: bool,
    pub safety_score: SafetyScore,
    /// The reasoning: the score header (see [`score_header`]), then the
    /// checks and the overall assessment (see [`reasoning_body`]).
    pub safety_reasoning: String,
    pub risk_level: SafetyRiskLevel,
    pub volatility_rating: Rating,
    pub liquidity_rating: Rating,
    pub has_recent_earnings: bool,
    pub has_positive_revenue: bool,
    pub has_stable_price: bool,
    pub has_sufficient_volume: bool,
    pub has_analyst_coverage: bool,
    pub warning_flags: Vec<String>,
    pub missing_data_components: Vec<String>,
}

/// Whether a stock with these check outcomes is safe to trade: a score of at
/// least 60%, recent earnings, positive revenue and a risk below very high.
pub open spec fn safe_to_trade(checks: Seq<SafetyCheck>, earnings: bool, revenue: bool) -> bool {
    score_reaches(checks, 60) && earnings && revenue && risk_of(checks) != SafetyRiskLevel::VeryHigh
}

impl InviteListCalculator {
    /// Analyzes a stock for trading safety. Whether its price is stable and
    /// how volatile it is are measured on closing prices and handed in.
    pub fn analyze_stock_safety(
        &self,
        company: &CompanyProfileFacts,
        financial: &FinancialRatioFacts,
        prices: &PriceHistoryFacts,
        has_stable_price: bool,
        volatility_rating: Rating,
    ) -> (analysis: SafetyAnalysis)
        ensures
            analysis.has_recent_earnings == recent_earnings_found(*company, *financial),
            analysis.has_positive_revenue == positive_revenue_found(*financial),
            analysis.has_stable_price == has_stable_price,
            analysis.has_sufficient_volume == sufficient_volume_found(*prices),
            analysis.has_analyst_coverage == analyst_coverage_found(*company),
            ({
                let checks = standard_check_seq(
                    analysis.has_recent_earnings,
                    analysis.has_positive_revenue,
                    analysis.has_stable_price,
                    analysis.has_sufficient_volume,
                    analysis.has_analyst_coverage,
                );
                &&& analysis.safety_score.passed_weight == passed_weight(checks)
                &&& analysis.safety_score.total_weight == total_weight(checks)
                &&& analysis.risk_level == risk_of(checks)
                &&& analysis.safety_reasoning@ == score_header(passed_weight(checks))
                    + reasoning_body(checks)
                &&& analysis.is_safe_to_trade == safe_to_trade(
                    checks,
                    analysis.has_recent_earnings,
                    analysis.has_positive_revenue,
                )
            }),
            analysis.volatility_rating == volatility_rating,
            analysis.liquidity_rating == liquidity_of(*prices),
            analysis.warning_flags@.len() == 0,
            analysis.missing_data_components@.len() == 0,
    {
        let has_recent_earnings = self.check_recent_earnings(company, financial);
        let has_positive_revenue = self.check_positive_revenue(financial);
        let has_sufficient_volume = self.check_sufficient_volume(prices);
        let has_analyst_coverage = self.check_analyst_coverage(company);
        let checks = standard_safety_checks(
            has_recent_earnings,
            has_positive_revenue,
            has_stable_price,
            has_sufficient_volume,
            has_analyst_coverage,
        );
        let safety_score = self.calculate_safety_score(&checks);
        let risk_level = self.determine_risk_level(&checks);
        let liquidity_rating = self.determine_liquidity_rating(prices);
        let body = self.generate_safety_reasoning(&checks);
        proof {
            lemma_score_fits(checks@);
            lemma_standard_weights(
                has_recent_earnings,
                has_positive_revenue,
                has_stable_price,
                has_sufficient_volume,
                has_analyst_coverage,
            );
        }
        let pct = safety_score.passed_weight as u64;
        let mut safety_reasoning = String::from_str("Safety Score: ");
        let score_text = two_decimals_string(pct);
        let pct_text = decimal_string(pct);
        safety_reasoning.append(score_text.as_str());
        safety_reasoning.append(" (");
        safety_reasoning.append(pct_text.as_str());
        safety_reasoning.append("%)\n\n");
        safety_reasoning.append(body.as_str());
        let is_safe_to_trade = safety_score.at_least(60) && has_recent_earnings
            && has_positive_revenue && risk_level != SafetyRiskLevel::VeryHigh;
        SafetyAnalysis {
            is_safe_to_trade,
            safety_score,
            safety_reasoning,
            risk_level,
            volatility_rating,
            liquidity_rating,
            has_recent_earnings,
            has_positive_revenue,
            has_stable_price,
            has_sufficient_volume,
            has_analyst_coverage,
            warning_flags: Vec::new(),
            missing_data_components: Vec::new(),
        }
    }
}


/// Number of the standard checks that passed.
pub open spec fn passed_count(earnings: bool, revenue: bool, stable: bool, volume: bool, coverage: bool) -> nat {
    (if earnings { 1nat } else { 0nat }) + (if revenue { 1nat } else { 0nat }) + (if stable {
        1nat
    } else {
        0nat
    }) + (if volume { 1nat } else { 0nat }) + (if coverage { 1nat } else { 0nat })
}

proof fn lemma_standard_weights(earnings: bool, revenue: bool, stable: bool, volume: bool, coverage: bool)
    ensures
        ({
            let checks = standard_check_seq(earnings, revenue, stable, volume, coverage);
            let k = passed_count(earnings, revenue, stable, volume, coverage);
            &&& total_weight(checks) == 100
            &&& passed_weight(checks) == 20 * k
            &&& failed_count(checks) == 5 - k
        }),
{
    let checks = standard_check_seq(earnings, revenue, stable, volume, coverage);
    reveal_with_fuel(total_weight, 6);
    reveal_with_fuel(passed_weight, 6);
    reveal_with_fuel(failed_count, 6);
    assert(checks.drop_last().drop_last().drop_last().drop_last().drop_last() =~= Seq::<SafetyCheck>::empty());
}

/// A stock has enough volume exactly when its liquidity is not rated low:
/// both go by the same ten-day average and the same 100,000-share floor.
pub proof fn law_sufficient_volume_iff_liquid(prices: PriceHistoryFacts)
    ensures
        sufficient_volume_found(prices) <==> liquidity_of(prices) != Rating::Low,
{
}

/// A stock found to have positive revenue is also found to have recent
/// earnings: both read the latest ratio entry.
pub proof fn law_positive_revenue_implies_recent_earnings(
    company: CompanyProfileFacts,
    financial: FinancialRatioFacts,
)
    ensures
        positive_revenue_found(financial) ==> recent_earnings_found(company, financial),
{
}

/// A stock with analyst coverage is also found to have recent earnings.
pub proof fn law_analyst_coverage_implies_recent_earnings(
    company: CompanyProfileFacts,
    financial: FinancialRatioFacts,
)
    ensures
        analyst_coverage_found(company) ==> recent_earnings_found(company, financial),
{
}

/// With the five standard checks the risk level depends only on how many
/// passed: four or five is low, three medium, two high, fewer very high.
pub proof fn law_standard_risk_by_passed_count(
    earnings: bool,
    revenue: bool,
    stable: bool,
    volume: bool,
    coverage: bool,
)
    ensures
        ({
            let k = passed_count(earnings, revenue, stable, volume, coverage);
            risk_of(standard_check_seq(earnings, revenue, stable, volume, coverage)) == if k >= 4 {
                SafetyRiskLevel::Low
            } else if k == 3 {
                SafetyRiskLevel::Medium
            } else if k == 2 {
                SafetyRiskLevel::High
            } else {
                SafetyRiskLevel::VeryHigh
            }
        }),
{
    lemma_standard_weights(earnings, revenue, stable, volume, coverage);
}

/// A stock judged safe to trade by the standard checks has passed at least
/// three of them, including recent earnings and positive revenue, and its
/// risk level is low or medium.
pub proof fn law_safe_stock_profile(
    earnings: bool,
    revenue: bool,
    stable: bool,
    volume: bool,
    coverage: bool,
)
    requires
        safe_to_trade(standard_check_seq(earnings, revenue, stable, volume, coverage), earnings, revenue),
    ensures
        earnings,
        revenue,
        passed_count(earnings, revenue, stable, volume, coverage) >= 3,
        risk_of(standard_check_seq(earnings, revenue, stable, volume, coverage)) == SafetyRiskLevel::Low
            || risk_of(standard_check_seq(earnings, revenue, stable, volume, coverage))
            == SafetyRiskLevel::Medium,
{
    lemma_standard_weights(earnings, revenue, stable, volume, coverage);
}

/// With the five standard checks (20% each), a stock is safe to trade exactly
/// when it has recent earnings and positive revenue and passed at least three
/// checks in all: a score of 60% suffices, four passed checks are not needed.
pub proof fn law_safe_iff_three_checks_with_earnings_and_revenue(
    earnings: bool,
    revenue: bool,
    stable: bool,
    volume: bool,
    coverage: bool,
)
    ensures
        safe_to_trade(standard_check_seq(earnings, revenue, stable, volume, coverage), earnings, revenue)
            <==> (earnings && revenue && passed_count(earnings, revenue, stable, volume, coverage) >= 3),
        earnings && revenue && !stable && volume && !coverage ==> safe_to_trade(
            standard_check_seq(earnings, revenue, stable, volume, coverage),
            earnings,
            revenue,
        ),
{
    lemma_standard_weights(earnings, revenue, stable, volume, coverage);
}

} // verus!
