use vstd::prelude::*;

use crate::timestamp::{now, Timestamp};

verus! {

/// The direction a chart shows.
#[derive(Clone, Copy, Debug, PartialEq, Eq, Structural)]
pub enum MarketTrend {
    Uptrend,
    Downtrend,
    Sideways,
    Uncertain,
}

/// A named chart shape, or a free-text label for any other.
#[derive(Clone, Debug)]
pub enum ChartPattern {
    HighBase,
    LowBase,
    AscendingTriangle,
    DescendingTriangle,
    Cup,
    HeadAndShoulders,
    InverseHeadAndShoulders,
    DoubleTop,
    DoubleBottom,
    Consolidation,
    BreakoutPullback,
    Other(String),
}

/// A rating of one security at one moment.
#[derive(Clone, Debug)]
pub struct StockRating {
    pub id: Option<i64>,
    pub timestamp: Timestamp,
    pub symbol: String,
    pub security_name: Option<String>,
    pub sector: String,
    /// -3 to +3.
    pub market_sentiment: i32,
    /// -3 to +3.
    pub sector_sentiment: i32,
    /// -3 to +3.
    pub security_sentiment: i32,
    /// +1 for bull, -1 for bear.
    pub bull_bear: i8,
    /// 0 to 100.
    pub confidence: u8,
    pub market_trend: MarketTrend,
    pub chart_pattern: ChartPattern,
    pub strategy: String,
    /// Derived: see `overall_score_of`.
    pub overall_score: i32,
    pub notes: Option<String>,
}

/// The sum of the three sentiment axes.
pub open spec fn sentiment_sum(r: StockRating) -> int {
    r.market_sentiment + r.sector_sentiment + r.security_sentiment
}

/// The confidence as a whole number of thirds: floor(confidence / 100 * 3).
pub open spec fn confidence_factor(confidence: u8) -> int {
    (confidence as int * 3) / 100
}

/// bull_bear * (market + sector + security sentiment + floor(confidence / 100 * 3)).
pub open spec fn overall_score_of(r: StockRating) -> int {
    r.bull_bear as int * (sentiment_sum(r) + confidence_factor(r.confidence))
}

/// The overall score can be held in an `i32`.
pub open spec fn overall_score_fits(r: StockRating) -> bool {
    &&& i32::MIN <= sentiment_sum(r) + confidence_factor(r.confidence) <= i32::MAX
    &&& i32::MIN <= overall_score_of(r) <= i32::MAX
}

impl StockRating {
    /// A fresh, unsaved rating: neutral sentiments, bull, 50% confidence,
    /// uncertain trend, pattern `Other("None")`, stamped now.
    pub fn new(symbol: &str, sector: &str) -> (r: StockRating)
        ensures
            r.id is None,
            r.symbol@ == symbol@,
            r.security_name is None,
            r.sector@ == sector@,
            r.market_sentiment == 0,
            r.sector_sentiment == 0,
            r.security_sentiment == 0,
            r.bull_bear == 1,
            r.confidence == 50,
            r.market_trend == MarketTrend::Uncertain,
            r.chart_pattern matches ChartPattern::Other(l) && l@ == "None"@,
            r.strategy@.len() == 0,
            r.overall_score == 0,
            r.notes is None,
    {
        StockRating {
            id: None,
            timestamp: now(),
            symbol: String::from_str(symbol),
            security_name: None,
            sector: String::from_str(sector),
            market_sentiment: 0,
            sector_sentiment: 0,
            security_sentiment: 0,
            bull_bear: 1,
            confidence: 50,
            market_trend: MarketTrend::Uncertain,
            chart_pattern: ChartPattern::Other(String::from_str("None")),
            strategy: String::new(),
            overall_score: 0,
            notes: None,
        }
    }

    /// The overall score of this rating's current fields.
    pub fn calculate_overall_score(&self) -> (r: i32)
        requires
            overall_score_fits(*self),
        ensures
            r == overall_score_of(*self),
    {
        let confidence_factor: i32 = (self.confidence as i32 * 3) / 100;
        let sum: i64 = self.market_sentiment as i64 + self.sector_sentiment as i64
            + self.security_sentiment as i64 + confidence_factor as i64;
        let bull_bear_factor: i64 = self.bull_bear as i64;
        proof {
            assert(-128 <= bull_bear_factor <= 127);
            assert(i32::MIN <= sum <= i32::MAX);
            assert(-128 * 2147483648 <= bull_bear_factor * sum <= 128 * 2147483648) by (nonlinear_arith)
                requires
                    -128 <= bull_bear_factor <= 127,
                    i32::MIN <= sum <= i32::MAX,
            ;
        }
        (bull_bear_factor * sum) as i32
    }

    /// Whether the overall score of the current fields can be held in an
    /// `i32`.
    pub fn overall_score_in_range(&self) -> (r: bool)
        ensures
            r == overall_score_fits(*self),
    {
        let sum: i64 = self.market_sentiment as i64 + self.sector_sentiment as i64
            + self.security_sentiment as i64 + (self.confidence as i64 * 3) / 100;
        if sum < i32::MIN as i64 || sum > i32::MAX as i64 {
            return false;
        }
        let bull_bear_factor: i64 = self.bull_bear as i64;
        proof {
            assert(-128 * 2147483648 <= bull_bear_factor * sum <= 128 * 2147483648) by (nonlinear_arith)
                requires
                    -128 <= bull_bear_factor <= 127,
                    i32::MIN <= sum <= i32::MAX,
            ;
        }
        let score: i64 = bull_bear_factor * sum;
        i32::MIN as i64 <= score && score <= i32::MAX as i64
    }

    /// Writes the overall score of the current fields into `overall_score`.
    pub fn update_overall_score(&mut self)
        requires
            overall_score_fits(*old(self)),
        ensures
            *final(self) == (StockRating { overall_score: overall_score_of(*old(self)) as i32, ..*old(self) }),
    {
        self.overall_score = self.calculate_overall_score();
    }
}

/// For a bull or bear rating whose sentiment sum (with the confidence
/// factor) is positive, the overall score has the sign of `bull_bear`.
pub proof fn overall_score_sign_follows_bull_bear(r: StockRating)
    requires
        r.bull_bear == 1 || r.bull_bear == -1,
        sentiment_sum(r) + confidence_factor(r.confidence) > 0,
    ensures
        overall_score_of(r) > 0 <==> r.bull_bear > 0,
        overall_score_of(r) < 0 <==> r.bull_bear < 0,
{
}

} // verus!
