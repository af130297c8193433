//! Market regime study: the classification of the market from its trends
//! and from the volatility and breadth readings.
use vstd::prelude::*;

verus! {

/// Direction of a price trend.
#[derive(PartialEq, Eq, Structural, Clone, Copy, Debug)]
pub enum TrendDirection {
    StrongBullish,
    Bullish,
    Neutral,
    Bearish,
    StrongBearish,
}

/// Overall market regime.
#[derive(PartialEq, Eq, Structural, Clone, Copy, Debug)]
pub enum MarketRegime {
    Bull,
    Bear,
    Sideways,
    Volatile,
    Stable,
    Transition,
}

/// The readings of volatility, VIX and breadth that the regime detection
/// compares with its thresholds (the readings are measured in floating point
/// and compared where they are measured).
#[derive(Clone, Copy, Debug)]
pub struct RegimeReadings {
    /// Market volatility above 3% or VIX above 30.
    pub high_volatility: bool,
    /// Market volatility below 1% and VIX below 15.
    pub low_volatility: bool,
    /// Advancing over declining stocks above 1.5.
    pub broad_advance: bool,
    /// Advancing over declining stocks below 0.7.
    pub broad_decline: bool,
    /// Market volatility below 2%.
    pub moderate_volatility: bool,
}

pub open spec fn regime_of(
    readings: RegimeReadings,
    short_term: TrendDirection,
    medium_term: TrendDirection,
) -> MarketRegime {
    if readings.high_volatility {
        MarketRegime::Volatile
    } else if readings.low_volatility {
        MarketRegime::Stable
    } else if short_term == TrendDirection::StrongBullish && medium_term == TrendDirection::Bullish
        && readings.broad_advance {
        MarketRegime::Bull
    } else if short_term == TrendDirection::StrongBearish && medium_term
        == TrendDirection::Bearish && readings.broad_decline {
        MarketRegime::Bear
    } else if short_term == TrendDirection::Neutral && medium_term == TrendDirection::Neutral
        && readings.moderate_volatility {
        MarketRegime::Sideways
    } else {
        MarketRegime::Transition
    }
}

/// Detects the market regime: volatile, then stable, by volatility; bull
/// on a strongly bullish short term, bullish medium term and broad advance;
/// bear on the mirror image; sideways on neutral trends with moderate
/// volatility; a transition otherwise.
pub fn detect_market_regime(
    readings: &RegimeReadings,
    short_term: TrendDirection,
    medium_term: TrendDirection,
) -> (regime: MarketRegime)
    ensures
        regime == regime_of(*readings, short_term, medium_term),
{
    if readings.high_volatility {
        return MarketRegime::Volatile;
    }
    if readings.low_volatility {
        return MarketRegime::Stable;
    }
    if short_term == TrendDirection::StrongBullish && medium_term == TrendDirection::Bullish
        && readings.broad_advance {
        return MarketRegime::Bull;
    }
    if short_term == TrendDirection::StrongBearish && medium_term == TrendDirection::Bearish
        && readings.broad_decline {
        return MarketRegime::Bear;
    }
    if short_term == TrendDirection::Neutral && medium_term == TrendDirection::Neutral
        && readings.moderate_volatility {
        return MarketRegime::Sideways;
    }
    MarketRegime::Transition
}

/// Consistency of three trends, in percent: 90 when all agree, 70 when the
/// medium term agrees with one of the others, 50 otherwise.
pub open spec fn consistency_pct_of(
    short_term: TrendDirection,
    medium_term: TrendDirection,
    long_term: TrendDirection,
) -> int {
    if short_term == medium_term && medium_term == long_term {
        90
    } else if short_term == medium_term || medium_term == long_term {
        70
    } else {
        50
    }
}

/// The trend consistency of a market trend analysis, in percent.
pub fn trend_consistency_pct(
    short_term: TrendDirection,
    medium_term: TrendDirection,
    long_term: TrendDirection,
) -> (pct: u32)
    ensures
        pct as int == consistency_pct_of(short_term, medium_term, long_term),
{
    if short_term == medium_term && medium_term == long_term {
        90
    } else if short_term == medium_term || medium_term == long_term {
        70
    } else {
        50
    }
}

/// High volatility decides the regime whatever the trends; a bull or bear
/// regime needs the matching trends and breadth.
pub proof fn law_regime_conditions(
    readings: RegimeReadings,
    short_term: TrendDirection,
    medium_term: TrendDirection,
)
    ensures
        readings.high_volatility ==> regime_of(readings, short_term, medium_term)
            == MarketRegime::Volatile,
        regime_of(readings, short_term, medium_term) == MarketRegime::Bull ==> short_term
            == TrendDirection::StrongBullish && medium_term == TrendDirection::Bullish
            && readings.broad_advance && !readings.high_volatility,
        regime_of(readings, short_term, medium_term) == MarketRegime::Bear ==> short_term
            == TrendDirection::StrongBearish && medium_term == TrendDirection::Bearish
            && readings.broad_decline && !readings.high_volatility,
{
}

/// The market trend analysis takes the long term equal to the medium term,
/// so its consistency is never below 70%; and the consistency does not
/// depend on the order of the short and long terms.
pub proof fn law_consistency_properties(
    short_term: TrendDirection,
    medium_term: TrendDirection,
    long_term: TrendDirection,
)
    ensures
        consistency_pct_of(short_term, medium_term, medium_term) >= 70,
        consistency_pct_of(short_term, medium_term, long_term) == consistency_pct_of(
            long_term,
            medium_term,
            short_term,
        ),
{
}

/// What speaks for or against a regime classification besides the trend
/// consistency (the breadth and volatility measures are compared with their
/// thresholds where they are measured).
#[derive(Clone, Copy, Debug)]
pub struct ConfidenceEvidence {
    /// An S&P 500 price was available.
    pub has_spy_price: bool,
    /// A VIX reading was available.
    pub has_vix: bool,
    /// A market breadth reading was available.
    pub has_breadth: bool,
    /// Advancing over declining stocks above 1.2 or below 0.8.
    pub clear_breadth: bool,
    /// Market volatility above 3% or below 1%.
    pub clear_volatility: bool,
}

pub open spec fn points(b: bool) -> int {
    if b {
        10
    } else {
        0
    }
}

/// Confidence in a regime classification, in percent: 50, plus 10 for each
/// available reading, 10 more above 80% trend consistency (10 less below
/// 50%), 10 for a clear breadth and 10 for a clear volatility signal, kept
/// between 0 and 100.
pub open spec fn regime_confidence_of(e: ConfidenceEvidence, consistency_pct: int) -> int {
    let raw = 50 + points(e.has_spy_price) + points(e.has_vix) + points(e.has_breadth) + (
    if consistency_pct > 80 {
        10
    } else if consistency_pct < 50 {
        -10
    } else {
        0
    }) + points(e.clear_breadth) + points(e.clear_volatility);
    if raw > 100 {
        100
    } else if raw < 0 {
        0
    } else {
        raw
    }
}

fn points_for(b: bool) -> (p: u32)
    ensures
        p as int == points(b),
{
    if b {
        10
    } else {
        0
    }
}

/// The confidence in a regime classification (see [`regime_confidence_of`]).
pub fn regime_confidence_pct(evidence: &ConfidenceEvidence, consistency_pct: u32) -> (pct: u32)
    ensures
        pct as int == regime_confidence_of(*evidence, consistency_pct as int),
{
    let gained = 50 + points_for(evidence.has_spy_price) + points_for(evidence.has_vix)
        + points_for(evidence.has_breadth) + points_for(evidence.clear_breadth) + points_for(
        evidence.clear_volatility,
    );
    let raw = if consistency_pct > 80 {
        gained + 10
    } else if consistency_pct < 50 {
        gained - 10
    } else {
        gained
    };
    if raw > 100 {
        100
    } else {
        raw
    }
}

/// For the trend consistencies an analysis produces, the regime confidence
/// is at least 50% and at most 100%; more evidence never lowers it.
pub proof fn law_regime_confidence_bounds(
    evidence: ConfidenceEvidence,
    more: ConfidenceEvidence,
    short_term: TrendDirection,
    medium_term: TrendDirection,
    long_term: TrendDirection,
)
    requires
        evidence.has_spy_price ==> more.has_spy_price,
        evidence.has_vix ==> more.has_vix,
        evidence.has_breadth ==> more.has_breadth,
        evidence.clear_breadth ==> more.clear_breadth,
        evidence.clear_volatility ==> more.clear_volatility,
    ensures
        ({
            let c = consistency_pct_of(short_term, medium_term, long_term);
            &&& 50 <= regime_confidence_of(evidence, c) <= 100
            &&& regime_confidence_of(evidence, c) <= regime_confidence_of(more, c)
        }),
{
}

/// `min(100, x)`.
pub open spec fn capped(x: int) -> int {
    if x > 100 {
        100
    } else {
        x
    }
}

/// Each piece of evidence adds ten points below the cap: for every trend
/// consistency, setting one more flag raises the confidence to
/// `min(100, confidence + 10)`; in particular a clear volatility signal
/// counts.
pub proof fn law_each_evidence_adds_ten(e: ConfidenceEvidence, consistency_pct: int)
    ensures
        !e.clear_volatility ==> regime_confidence_of(
            ConfidenceEvidence {
                has_spy_price: e.has_spy_price,
                has_vix: e.has_vix,
                has_breadth: e.has_breadth,
                clear_breadth: e.clear_breadth,
                clear_volatility: true,
            },
            consistency_pct,
        ) == capped(regime_confidence_of(e, consistency_pct) + 10),
        !e.clear_breadth ==> regime_confidence_of(
            ConfidenceEvidence {
                has_spy_price: e.has_spy_price,
                has_vix: e.has_vix,
                has_breadth: e.has_breadth,
                clear_breadth: true,
                clear_volatility: e.clear_volatility,
            },
            consistency_pct,
        ) == capped(regime_confidence_of(e, consistency_pct) + 10),
        !e.has_breadth ==> regime_confidence_of(
            ConfidenceEvidence {
                has_spy_price: e.has_spy_price,
                has_vix: e.has_vix,
                has_breadth: true,
                clear_breadth: e.clear_breadth,
                clear_volatility: e.clear_volatility,
            },
            consistency_pct,
        ) == capped(regime_confidence_of(e, consistency_pct) + 10),
        !e.has_vix ==> regime_confidence_of(
            ConfidenceEvidence {
                has_spy_price: e.has_spy_price,
                has_vix: true,
                has_breadth: e.has_breadth,
                clear_breadth: e.clear_breadth,
                clear_volatility: e.clear_volatility,
            },
            consistency_pct,
        ) == capped(regime_confidence_of(e, consistency_pct) + 10),
        !e.has_spy_price ==> regime_confidence_of(
            ConfidenceEvidence {
                has_spy_price: true,
                has_vix: e.has_vix,
                has_breadth: e.has_breadth,
                clear_breadth: e.clear_breadth,
                clear_volatility: e.clear_volatility,
            },
            consistency_pct,
        ) == capped(regime_confidence_of(e, consistency_pct) + 10),
        regime_confidence_of(
            ConfidenceEvidence {
                has_spy_price: true,
                has_vix: true,
                has_breadth: true,
                clear_breadth: true,
                clear_volatility: false,
            },
            70,
        ) == 90,
{
}

} // verus!
