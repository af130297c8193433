//! Timing (TTS) study: the volume side of the technical analysis, which
//! works on share counts.
use vstd::prelude::*;

verus! {

/// Direction of trading volume relative to its average.
#[derive(PartialEq, Eq, Structural, Clone, Copy, Debug)]
pub enum VolumeTrend {
    Increasing,
    Decreasing,
    Stable,
}

/// How recent volume relates to the recent price move.
#[derive(PartialEq, Eq, Structural, Clone, Copy, Debug)]
pub enum VolumePriceRelationship {
    BullishDivergence,
    BearishDivergence,
    Neutral,
}

/// Sign of a price change.
#[derive(PartialEq, Eq, Structural, Clone, Copy, Debug)]
pub enum PriceMove {
    Up,
    Down,
    Flat,
}

/// The volume part of a TTS analysis.
#[derive(Clone, Copy, Debug)]
pub struct VolumeAnalysis {
    pub current_volume: u64,
    pub avg_volume: u64,
    pub volume_trend: VolumeTrend,
    pub vp_relationship: VolumePriceRelationship,
}

pub open spec fn volume_sum(v: Seq<u64>) -> int
    decreases v.len(),
{
    if v.len() == 0 {
        0
    } else {
        volume_sum(v.drop_last()) + v.last()
    }
}

/// Average volume: over the last 20 days when there are 20, over all days
/// otherwise (rounded down).
pub open spec fn average_volume_of(v: Seq<u64>) -> int {
    if v.len() >= 20 {
        volume_sum(v.subrange(v.len() - 20, v.len() as int)) / 20
    } else {
        volume_sum(v) / (v.len() as int)
    }
}

/// The trend of the current volume against the average: increasing above
/// 1.2 times the average, decreasing below 0.8 times, stable otherwise. A
/// zero average makes any traded volume increasing.
pub open spec fn volume_trend_of(current: int, average: int) -> VolumeTrend {
    if average == 0 {
        if current > 0 {
            VolumeTrend::Increasing
        } else {
            VolumeTrend::Stable
        }
    } else if 10 * current > 12 * average {
        VolumeTrend::Increasing
    } else if 10 * current < 8 * average {
        VolumeTrend::Decreasing
    } else {
        VolumeTrend::Stable
    }
}

/// Volume of the last five days against the five before, read against the
/// five-day price move: rising volume on a rising price is a bullish
/// divergence, on a falling price a bearish one.
pub open spec fn vp_relationship_of(v: Seq<u64>, price_move: PriceMove) -> VolumePriceRelationship {
    if v.len() >= 5 {
        let recent = volume_sum(v.subrange(v.len() - 5, v.len() as int));
        let early = volume_sum(v.subrange(v.len() - 10, v.len() - 5));
        if price_move == PriceMove::Up && recent > early {
            VolumePriceRelationship::BullishDivergence
        } else if price_move == PriceMove::Down && recent > early {
            VolumePriceRelationship::BearishDivergence
        } else {
            VolumePriceRelationship::Neutral
        }
    } else {
        VolumePriceRelationship::Neutral
    }
}

proof fn lemma_volume_sum_bounded(v: Seq<u64>)
    ensures
        0 <= volume_sum(v) <= v.len() * u64::MAX,
    decreases v.len(),
{
    if v.len() > 0 {
        lemma_volume_sum_bounded(v.drop_last());
    }
}

/// Sums the volumes of days `[from, to)`.
fn sum_range(volumes: &Vec<u64>, from: usize, to: usize) -> (sum: u128)
    requires
        from <= to <= volumes.len(),
        to - from <= 20,
    ensures
        sum == volume_sum(volumes@.subrange(from as int, to as int)),
{
    let mut sum: u128 = 0;
    let mut i = from;
    while i < to
        invariant
            from <= i <= to <= volumes.len(),
            to - from <= 20,
            sum == volume_sum(volumes@.subrange(from as int, i as int)),
            sum <= (i - from) * u64::MAX,
        decreases to - i,
    {
        assert(volumes@.subrange(from as int, i + 1).drop_last() =~= volumes@.subrange(
            from as int,
            i as int,
        ));
        sum = sum + volumes[i] as u128;
        i = i + 1;
    }
    sum
}

proof fn lemma_average_fits(sum: int, n: int)
    requires
        n > 0,
        0 <= sum <= n * u64::MAX,
    ensures
        0 <= sum / n <= u64::MAX,
{
    assert(sum / n <= u64::MAX) by (nonlinear_arith)
        requires
            n > 0,
            0 <= sum <= n * u64::MAX,
    {
        vstd::arithmetic::div_mod::lemma_div_is_ordered(sum, n * u64::MAX, n);
        vstd::arithmetic::div_mod::lemma_div_by_multiple(u64::MAX as int, n);
    }
    vstd::arithmetic::div_mod::lemma_div_pos_is_pos(sum, n);
}

/// Analyzes the daily volumes (oldest first) with the five-day price move.
/// Without data the volumes are zero, the trend stable and the relationship
/// neutral. The early window of the relationship is the five days before the
/// last five, so a history of five to nine days has none.
pub fn calculate_volume_analysis(volumes: &Vec<u64>, price_move: PriceMove) -> (analysis:
    VolumeAnalysis)
    requires
        volumes.len() < 5 || volumes.len() >= 10,
    ensures
        volumes@.len() == 0 ==> analysis.current_volume == 0 && analysis.avg_volume == 0
            && analysis.volume_trend == VolumeTrend::Stable && analysis.vp_relationship
            == VolumePriceRelationship::Neutral,
        volumes@.len() > 0 ==> {
            &&& analysis.current_volume == volumes@.last()
            &&& analysis.avg_volume == average_volume_of(volumes@)
            &&& analysis.volume_trend == volume_trend_of(
                analysis.current_volume as int,
                analysis.avg_volume as int,
            )
            &&& analysis.vp_relationship == vp_relationship_of(volumes@, price_move)
        },
{
    let n = volumes.len();
    if n == 0 {
        return VolumeAnalysis {
            current_volume: 0,
            avg_volume: 0,
            volume_trend: VolumeTrend::Stable,
            vp_relationship: VolumePriceRelationship::Neutral,
        };
    }
    let current_volume = volumes[n - 1];
    let avg_volume: u64 = if n >= 20 {
        let sum = sum_range(volumes, n - 20, n);
        proof {
            lemma_volume_sum_bounded(volumes@.subrange(n - 20, n as int));
            lemma_average_fits(sum as int, 20);
        }
        (sum / 20) as u64
    } else {
        let sum = sum_range(volumes, 0, n);
        proof {
            assert(volumes@.subrange(0, n as int) =~= volumes@);
            lemma_volume_sum_bounded(volumes@);
            lemma_average_fits(sum as int, n as int);
        }
        (sum / n as u128) as u64
    };
    let volume_trend = if avg_volume == 0 {
        if current_volume > 0 {
            VolumeTrend::Increasing
        } else {
            VolumeTrend::Stable
        }
    } else if 10 * (current_volume as u128) > 12 * (avg_volume as u128) {
        VolumeTrend::Increasing
    } else if 10 * (current_volume as u128) < 8 * (avg_volume as u128) {
        VolumeTrend::Decreasing
    } else {
        VolumeTrend::Stable
    };
    let vp_relationship = if n >= 5 {
        let recent = sum_range(volumes, n - 5, n);
        let early = sum_range(volumes, n - 10, n - 5);
        if price_move == PriceMove::Up && recent > early {
            VolumePriceRelationship::BullishDivergence
        } else if price_move == PriceMove::Down && recent > early {
            VolumePriceRelationship::BearishDivergence
        } else {
            VolumePriceRelationship::Neutral
        }
    } else {
        VolumePriceRelationship::Neutral
    };
    VolumeAnalysis { current_volume, avg_volume, volume_trend, vp_relationship }
}

/// A divergence is only reported when the last five days traded more than
/// the five before, and its direction follows the price.
pub proof fn law_divergence_needs_rising_volume(v: Seq<u64>, price_move: PriceMove)
    requires
        v.len() >= 10,
    ensures
        vp_relationship_of(v, price_move) != VolumePriceRelationship::Neutral ==> volume_sum(
            v.subrange(v.len() - 5, v.len() as int),
        ) > volume_sum(v.subrange(v.len() - 10, v.len() - 5)),
        vp_relationship_of(v, price_move) == VolumePriceRelationship::BullishDivergence
            ==> price_move == PriceMove::Up,
        vp_relationship_of(v, price_move) == VolumePriceRelationship::BearishDivergence
            ==> price_move == PriceMove::Down,
        price_move == PriceMove::Flat ==> vp_relationship_of(v, price_move)
            == VolumePriceRelationship::Neutral,
{
}

/// Scaling the current and the average volume by the same factor does not
/// change the volume trend.
pub proof fn law_volume_trend_scale_free(current: int, average: int, k: int)
    requires
        current >= 0,
        average >= 0,
        k > 0,
    ensures
        volume_trend_of(k * current, k * average) == volume_trend_of(current, average),
{
    assert(k * average == 0 <==> average == 0) by (nonlinear_arith)
        requires
            k > 0,
            average >= 0,
    ;
    assert(k * current > 0 <==> current > 0) by (nonlinear_arith)
        requires
            k > 0,
            current >= 0,
    ;
    assert(10 * (k * current) > 12 * (k * average) <==> 10 * current > 12 * average)
        by (nonlinear_arith)
        requires
            k > 0,
    ;
    assert(10 * (k * current) < 8 * (k * average) <==> 10 * current < 8 * average)
        by (nonlinear_arith)
        requires
            k > 0,
    ;
}

} // verus!
