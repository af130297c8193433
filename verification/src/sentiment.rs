//! Sentiment (QSS) study: trading signals, data-quality flags, and the parts
//! of the QSS calculation that work on counts, symbols and ratings.
use vstd::prelude::*;
use crate::error::Error;
use crate::text::{to_uppercase, upper_case_of};

verus! {

/// Trading signal generated from a QSS score.
#[derive(PartialEq, Eq, Structural, Clone, Copy, Debug)]
pub enum TradingSignal {
    /// Strong buy signal (QSS >= 0.6)
    StrongBuy,
    /// Weak buy signal (QSS >= 0.2)
    WeakBuy,
    /// Hold signal (QSS between -0.2 and 0.2)
    Hold,
    /// Weak sell signal (QSS >= -0.6)
    WeakSell,
    /// Strong sell signal (QSS < -0.6)
    StrongSell,
}

impl TradingSignal {
    pub open spec fn describe(self) -> Seq<char> {
        match self {
            TradingSignal::StrongBuy => "Strong Buy - High confidence bullish signal"@,
            TradingSignal::WeakBuy => "Weak Buy - Moderate bullish conditions"@,
            TradingSignal::Hold => "Hold - Mixed signals, maintain current position"@,
            TradingSignal::WeakSell => "Weak Sell - Moderate bearish conditions"@,
            TradingSignal::StrongSell => "Strong Sell - High confidence bearish signal"@,
        }
    }

    pub open spec fn symbol_mark(self) -> Seq<char> {
        match self {
            TradingSignal::StrongBuy => "🟢"@,
            TradingSignal::WeakBuy => "🟡"@,
            TradingSignal::Hold => "⚪"@,
            TradingSignal::WeakSell => "🟠"@,
            TradingSignal::StrongSell => "🔴"@,
        }
    }

    /// Position sizing recommendation in basis points of the portfolio:
    /// buy 10% or 5%, hold, reduce by 5% or 10%.
    pub open spec fn position_bps(self) -> int {
        match self {
            TradingSignal::StrongBuy => 1000,
            TradingSignal::WeakBuy => 500,
            TradingSignal::Hold => 0,
            TradingSignal::WeakSell => -500,
            TradingSignal::StrongSell => -1000,
        }
    }

    /// Get a human-readable description of the signal
    pub fn description(&self) -> (text: &'static str)
        ensures
            text@ == self.describe(),
    {
        match self {
            TradingSignal::StrongBuy => "Strong Buy - High confidence bullish signal",
            TradingSignal::WeakBuy => "Weak Buy - Moderate bullish conditions",
            TradingSignal::Hold => "Hold - Mixed signals, maintain current position",
            TradingSignal::WeakSell => "Weak Sell - Moderate bearish conditions",
            TradingSignal::StrongSell => "Strong Sell - High confidence bearish signal",
        }
    }

    /// Get the emoji representation of the signal
    pub fn emoji(&self) -> (mark: &'static str)
        ensures
            mark@ == self.symbol_mark(),
    {
        match self {
            TradingSignal::StrongBuy => "🟢",
            TradingSignal::WeakBuy => "🟡",
            TradingSignal::Hold => "⚪",
            TradingSignal::WeakSell => "🟠",
            TradingSignal::StrongSell => "🔴",
        }
    }

    /// The position sizing recommendation in basis points (a tenth of this
    /// in per-mille, a hundredth in percent).
    pub fn position_size_bps(&self) -> (bps: i32)
        ensures
            bps as int == self.position_bps(),
    {
        match self {
            TradingSignal::StrongBuy => 1000,
            TradingSignal::WeakBuy => 500,
            TradingSignal::Hold => 0,
            TradingSignal::WeakSell => -500,
            TradingSignal::StrongSell => -1000,
        }
    }
}

/// Ordinal of a signal from most bearish (0) to most bullish (4).
pub open spec fn bullishness(s: TradingSignal) -> int {
    match s {
        TradingSignal::StrongSell => 0,
        TradingSignal::WeakSell => 1,
        TradingSignal::Hold => 2,
        TradingSignal::WeakBuy => 3,
        TradingSignal::StrongBuy => 4,
    }
}

/// The opposite signal: buys and sells swap, hold stays.
pub open spec fn mirrored(s: TradingSignal) -> TradingSignal {
    match s {
        TradingSignal::StrongBuy => TradingSignal::StrongSell,
        TradingSignal::WeakBuy => TradingSignal::WeakSell,
        TradingSignal::Hold => TradingSignal::Hold,
        TradingSignal::WeakSell => TradingSignal::WeakBuy,
        TradingSignal::StrongSell => TradingSignal::StrongBuy,
    }
}

/// Position sizes grow with the signal's bullishness, and opposite signals
/// size opposite positions.
pub proof fn law_position_size_ordered(a: TradingSignal, b: TradingSignal)
    ensures
        bullishness(a) < bullishness(b) ==> a.position_bps() < b.position_bps(),
        mirrored(a).position_bps() == -a.position_bps(),
        a.position_bps() == 0 <==> a == TradingSignal::Hold,
{
}

/// Different signals have different descriptions and different emoji.
pub proof fn law_signal_texts_distinct(a: TradingSignal, b: TradingSignal)
    ensures
        a != b ==> a.describe() != b.describe(),
        a != b ==> a.symbol_mark() != b.symbol_mark(),
{
    reveal_strlit("Strong Buy - High confidence bullish signal");
    reveal_strlit("Weak Buy - Moderate bullish conditions");
    reveal_strlit("Hold - Mixed signals, maintain current position");
    reveal_strlit("Weak Sell - Moderate bearish conditions");
    reveal_strlit("Strong Sell - High confidence bearish signal");
    reveal_strlit("🟢");
    reveal_strlit("🟡");
    reveal_strlit("⚪");
    reveal_strlit("🟠");
    reveal_strlit("🔴");
    if a != b {
        assert(a.describe()[0] != b.describe()[0] || a.describe()[1] != b.describe()[1]
            || a.describe().len() != b.describe().len());
        assert(a.symbol_mark()[0] != b.symbol_mark()[0]);
    }
}

/// Data quality flags.
#[derive(PartialEq, Eq, Structural, Clone, Copy, Debug)]
pub enum DataQualityFlag {
    /// Earnings announcement within 2 days
    EarningsWindow,
    /// Insufficient analyst estimates
    NoEstimates,
    /// High dispersion in estimates
    LowConfidence,
    /// Less than minimum required data
    InsufficientData,
    /// No short interest data available
    NoShortData,
    /// No options flow data available
    NoOptionsData,
    /// Data is stale or outdated
    StaleData,
    /// API rate limit exceeded
    RateLimited,
    /// Network connectivity issues
    NetworkIssues,
    /// Options flow contradicts price trend
    FlowConflict,
}

/// Severity levels for data quality flags.
#[derive(PartialEq, Eq, Structural, Clone, Copy, Debug)]
pub enum Severity {
    /// Informational only
    Info,
    /// Warning - may affect accuracy
    Warning,
    /// Error - critical issue
    Error,
}

impl DataQualityFlag {
    pub open spec fn describe(self) -> Seq<char> {
        match self {
            DataQualityFlag::EarningsWindow => "Earnings announcement within 2 days"@,
            DataQualityFlag::NoEstimates => "Insufficient analyst estimates available"@,
            DataQualityFlag::LowConfidence => "High dispersion in analyst estimates"@,
            DataQualityFlag::InsufficientData => "Less than minimum required data points"@,
            DataQualityFlag::NoShortData => "No short interest data available"@,
            DataQualityFlag::NoOptionsData => "No options flow data available"@,
            DataQualityFlag::StaleData => "Data is stale or outdated"@,
            DataQualityFlag::RateLimited => "API rate limit exceeded"@,
            DataQualityFlag::NetworkIssues => "Network connectivity issues"@,
            DataQualityFlag::FlowConflict => "Options flow contradicts price trend"@,
        }
    }

    pub open spec fn level(self) -> Severity {
        match self {
            DataQualityFlag::EarningsWindow => Severity::Info,
            DataQualityFlag::InsufficientData => Severity::Error,
            DataQualityFlag::RateLimited => Severity::Error,
            DataQualityFlag::NetworkIssues => Severity::Error,
            _ => Severity::Warning,
        }
    }

    /// Get a human-readable description of the flag
    pub fn description(&self) -> (text: &'static str)
        ensures
            text@ == self.describe(),
    {
        match self {
            DataQualityFlag::EarningsWindow => "Earnings announcement within 2 days",
            DataQualityFlag::NoEstimates => "Insufficient analyst estimates available",
            DataQualityFlag::LowConfidence => "High dispersion in analyst estimates",
            DataQualityFlag::InsufficientData => "Less than minimum required data points",
            DataQualityFlag::NoShortData => "No short interest data available",
            DataQualityFlag::NoOptionsData => "No options flow data available",
            DataQualityFlag::StaleData => "Data is stale or outdated",
            DataQualityFlag::RateLimited => "API rate limit exceeded",
            DataQualityFlag::NetworkIssues => "Network connectivity issues",
            DataQualityFlag::FlowConflict => "Options flow contradicts price trend",
        }
    }

    /// Get the severity level of the flag: informational for the earnings
    /// window; errors for insufficient data, rate limits and network issues;
    /// warnings otherwise.
    pub fn severity(&self) -> (level: Severity)
        ensures
            level == self.level(),
    {
        match self {
            DataQualityFlag::EarningsWindow => Severity::Info,
            DataQualityFlag::NoEstimates => Severity::Warning,
            DataQualityFlag::LowConfidence => Severity::Warning,
            DataQualityFlag::InsufficientData => Severity::Error,
            DataQualityFlag::NoShortData => Severity::Warning,
            DataQualityFlag::NoOptionsData => Severity::Warning,
            DataQualityFlag::StaleData => Severity::Warning,
            DataQualityFlag::RateLimited => Severity::Error,
            DataQualityFlag::NetworkIssues => Severity::Error,
            DataQualityFlag::FlowConflict => Severity::Warning,
        }
    }
}

/// Confidence in a QSS result, in percent, from the number of components
/// with data: all four 100, three 80, two 60, one 40, none 20.
pub open spec fn confidence_pct_of(valid_components: int) -> int {
    if valid_components == 4 {
        100
    } else if valid_components == 3 {
        80
    } else if valid_components == 2 {
        60
    } else if valid_components == 1 {
        40
    } else {
        20
    }
}

/// The QSS confidence score in percent for a number of valid components.
pub fn confidence_pct(valid_components: usize) -> (pct: u32)
    ensures
        pct as int == confidence_pct_of(valid_components as int),
{
    match valid_components {
        4 => 100,
        3 => 80,
        2 => 60,
        1 => 40,
        _ => 20,
    }
}

/// More components with data never lower the confidence (up to all four).
pub proof fn law_confidence_monotone(a: int, b: int)
    requires
        0 <= a <= b <= 4,
    ensures
        confidence_pct_of(a) <= confidence_pct_of(b),
{
}

/// Whether two strings hold the same characters.
pub fn same_text(a: &str, b: &str) -> (same: bool)
    ensures
        same == (a@ == b@),
{
    let left = String::from_str(a);
    let right = String::from_str(b);
    left == right
}

/// The sector ETF that benchmarks a stock: technology, financials, health
/// care, energy, consumer staples and discretionary for the listed names,
/// the S&P 500 itself otherwise.
pub open spec fn sector_etf_of(symbol: Seq<char>) -> Seq<char> {
    if symbol == "AAPL"@ || symbol == "MSFT"@ || symbol == "GOOGL"@ || symbol == "NVDA"@ || symbol
        == "TSLA"@ || symbol == "META"@ || symbol == "AMZN"@ {
        "XLK"@
    } else if symbol == "JPM"@ || symbol == "BAC"@ || symbol == "WFC"@ || symbol == "GS"@ {
        "XLF"@
    } else if symbol == "JNJ"@ || symbol == "PFE"@ || symbol == "UNH"@ {
        "XLV"@
    } else if symbol == "XOM"@ || symbol == "CVX"@ || symbol == "COP"@ {
        "XLE"@
    } else if symbol == "KO"@ || symbol == "PEP"@ || symbol == "WMT"@ {
        "XLP"@
    } else if symbol == "HD"@ || symbol == "MCD"@ || symbol == "NKE"@ {
        "XLY"@
    } else {
        "SPY"@
    }
}

/// Maps a stock to its sector ETF (see [`sector_etf_of`]); every symbol has
/// one.
pub fn get_sector_etf(symbol: &str) -> (etf: Option<&'static str>)
    ensures
        etf is Some,
        etf.unwrap()@ == sector_etf_of(symbol@),
{
    if same_text(symbol, "AAPL") || same_text(symbol, "MSFT") || same_text(symbol, "GOOGL")
        || same_text(symbol, "NVDA") || same_text(symbol, "TSLA") || same_text(symbol, "META")
        || same_text(symbol, "AMZN") {
        Some("XLK")
    } else if same_text(symbol, "JPM") || same_text(symbol, "BAC") || same_text(symbol, "WFC")
        || same_text(symbol, "GS") {
        Some("XLF")
    } else if same_text(symbol, "JNJ") || same_text(symbol, "PFE") || same_text(symbol, "UNH") {
        Some("XLV")
    } else if same_text(symbol, "XOM") || same_text(symbol, "CVX") || same_text(symbol, "COP") {
        Some("XLE")
    } else if same_text(symbol, "KO") || same_text(symbol, "PEP") || same_text(symbol, "WMT") {
        Some("XLP")
    } else if same_text(symbol, "HD") || same_text(symbol, "MCD") || same_text(symbol, "NKE") {
        Some("XLY")
    } else {
        Some("SPY")
    }
}

/// Score of an analyst rating already in upper case: buys +1, sells -1,
/// anything else 0.
pub open spec fn rating_score_of(upper: Seq<char>) -> int {
    if upper == "STRONG_BUY"@ || upper == "BUY"@ {
        1
    } else if upper == "SELL"@ || upper == "STRONG_SELL"@ {
        -1
    } else {
        0
    }
}

/// The score of an upper-case analyst rating (see [`rating_score_of`]).
pub fn score_upper_rating(upper: &str) -> (score: i32)
    ensures
        score as int == rating_score_of(upper@),
{
    if same_text(upper, "STRONG_BUY") || same_text(upper, "BUY") {
        1
    } else if same_text(upper, "SELL") || same_text(upper, "STRONG_SELL") {
        -1
    } else {
        0
    }
}

/// The score of an analyst rating, compared in upper case.
pub fn score_rating(rating: &str) -> (score: i32)
    ensures
        score as int == rating_score_of(upper_case_of(rating@)),
{
    let upper = to_uppercase(rating);
    score_upper_rating(upper.as_str())
}

/// Number of most recent analyst recommendations that are averaged.
pub const RECOMMENDATION_WINDOW: usize = 5;

/// The sum and the number of the scores of the rated recommendations among
/// the first five; `ratings[i]` is the rating of the `i`-th recommendation
/// when it is a string.
pub struct AnalystTally {
    pub total: i64,
    pub count: u64,
}

pub open spec fn rated_in(ratings: Seq<Option<Seq<char>>>) -> Seq<Seq<char>>
    decreases ratings.len(),
{
    if ratings.len() == 0 {
        seq![]
    } else {
        let rest = rated_in(ratings.drop_last());
        match ratings.last() {
            Some(r) => rest.push(r),
            None => rest,
        }
    }
}

pub open spec fn score_sum(rated: Seq<Seq<char>>) -> int
    decreases rated.len(),
{
    if rated.len() == 0 {
        0
    } else {
        score_sum(rated.drop_last()) + rating_score_of(upper_case_of(rated.last()))
    }
}

pub open spec fn rating_views(ratings: Seq<Option<String>>) -> Seq<Option<Seq<char>>> {
    ratings.map_values(|r: Option<String>| match r {
        Some(s) => Some(s@),
        None => None,
    })
}

/// The first `n` ratings, or all when there are fewer.
pub open spec fn first_ratings(ratings: Seq<Option<Seq<char>>>, n: int) -> Seq<Option<Seq<char>>> {
    if ratings.len() <= n {
        ratings
    } else {
        ratings.take(n)
    }
}

/// Tallies the analyst recommendations of a response: `None` when none of
/// the first five has a rating, otherwise the sum of their scores and their
/// number (the consensus is the sum over the number).
pub fn tally_recommendations(ratings: &Vec<Option<String>>) -> (tally: Option<AnalystTally>)
    ensures
        ({
            let rated = rated_in(first_ratings(rating_views(ratings@), 5));
            &&& tally is Some <==> rated.len() > 0
            &&& tally is Some ==> tally.unwrap().total == score_sum(rated) && tally.unwrap().count
                == rated.len()
            &&& tally is Some ==> -(tally.unwrap().count as int) <= tally.unwrap().total
                <= tally.unwrap().count
        }),
{
    let ghost views = rating_views(ratings@);
    let n = if ratings.len() < RECOMMENDATION_WINDOW {
        ratings.len()
    } else {
        RECOMMENDATION_WINDOW
    };
    let mut total: i64 = 0;
    let mut count: u64 = 0;
    let mut i: usize = 0;
    while i < n
        invariant
            n <= ratings.len(),
            n <= 5,
            n == ratings.len() || n == 5,
            views == rating_views(ratings@),
            0 <= i <= n,
            total == score_sum(rated_in(views.take(i as int))),
            count == rated_in(views.take(i as int)).len(),
            count <= i,
            -(count as int) <= total <= count,
        decreases n - i,
    {
        assert(views.take(i + 1).drop_last() =~= views.take(i as int));
        let ghost rest = rated_in(views.take(i as int));
        match &ratings[i] {
            Some(r) => {
                assert(rest.push(r@).drop_last() =~= rest);
                let s = score_rating(r.as_str());
                total = total + s as i64;
                count = count + 1;
            },
            None => {},
        }
        i = i + 1;
    }
    assert(views.take(n as int) =~= first_ratings(views, 5));
    if count == 0 {
        None
    } else {
        Some(AnalystTally { total, count })
    }
}

/// The consensus reads only the five most recent recommendations, which
/// come first in the response: with at least five ratings, whatever older
/// ratings follow them never change the tally, which is that of the first
/// five; with fewer, every rating is read.
pub proof fn law_tally_reads_first_five(
    recent: Seq<Option<Seq<char>>>,
    older: Seq<Option<Seq<char>>>,
)
    ensures
        recent.len() >= 5 ==> first_ratings(recent + older, 5) == recent.take(5),
        recent.len() >= 5 ==> rated_in(first_ratings(recent + older, 5)) == rated_in(
            first_ratings(recent.take(5), 5),
        ),
        recent.len() >= 5 ==> score_sum(rated_in(first_ratings(recent + older, 5))) == score_sum(
            rated_in(first_ratings(recent.take(5), 5)),
        ),
        recent.len() < 5 ==> first_ratings(recent, 5) == recent,
{
    if recent.len() >= 5 {
        assert((recent + older).take(5) =~= recent.take(5));
        assert(recent.take(5).take(5) =~= recent.take(5));
    }
}

/// A source's revenue figures for the latest period and the one before,
/// usable when both are non-zero.
pub open spec fn complete_figures(f: Option<(i64, i64)>) -> bool {
    f matches Some(p) && p.0 != 0 && p.1 != 0
}

/// Chooses the revenue figures from the sources in order of preference
/// (Alpha Vantage's income statement, Finnhub's revenue estimates, FMP's
/// income statement): the first source whose two figures are both non-zero,
/// or none. A source without two periods of data is `None`.
pub fn select_revenue_figures(sources: &Vec<Option<(i64, i64)>>) -> (chosen: Option<(i64, i64)>)
    ensures
        match chosen {
            Some(p) => exists|i: int|
                0 <= i < sources@.len() && sources@[i] == Some(p) && complete_figures(sources@[i])
                    && forall|j: int| 0 <= j < i ==> !complete_figures(#[trigger] sources@[j]),
            None => forall|j: int|
                0 <= j < sources@.len() ==> !complete_figures(#[trigger] sources@[j]),
        },
{
    let mut i: usize = 0;
    while i < sources.len()
        invariant
            0 <= i <= sources@.len(),
            forall|j: int| 0 <= j < i ==> !complete_figures(#[trigger] sources@[j]),
        decreases sources@.len() - i,
    {
        if let Some(p) = sources[i] {
            if p.0 != 0 && p.1 != 0 {
                assert(complete_figures(sources@[i as int]));
                return Some(p);
            }
        }
        i = i + 1;
    }
    None
}

/// What the QSS calculation reads of an Alpha Vantage response before
/// looking for earnings: its `Error Message` field, when present (with its
/// text when it is a string), and whether it has a `Note` field.
pub struct AlphaVantageNotice {
    pub error_message: Option<Option<String>>,
    pub has_note: bool,
}

/// Checks an Alpha Vantage response for its error and rate-limit notices: an
/// error message is an API error (`Unknown error` when it is not a string);
/// otherwise a note means the rate limit was exceeded.
pub fn check_alpha_vantage_notice(notice: &AlphaVantageNotice) -> (checked: Result<(), Error>)
    ensures
        match notice.error_message {
            Some(Some(m)) => checked matches Err(Error::ApiError(api, msg)) && api@
                == "Alpha Vantage"@ && msg@ == m@,
            Some(None) => checked matches Err(Error::ApiError(api, msg)) && api@ == "Alpha Vantage"@
                && msg@ == "Unknown error"@,
            None => if notice.has_note {
                checked matches Err(Error::RateLimitExceeded(api)) && api@ == "Alpha Vantage"@
            } else {
                checked is Ok
            },
        },
{
    match &notice.error_message {
        Some(Some(m)) => Err(
            Error::ApiError(String::from_str("Alpha Vantage"), m.clone()),
        ),
        Some(None) => Err(
            Error::ApiError(String::from_str("Alpha Vantage"), String::from_str("Unknown error")),
        ),
        None => if notice.has_note {
            Err(Error::RateLimitExceeded(String::from_str("Alpha Vantage")))
        } else {
            Ok(())
        },
    }
}

} // verus!
