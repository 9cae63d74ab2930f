use vstd::prelude::*;

use crate::amount::{abs, fits_i64, percent_change, percent_of};
use crate::stock_rating::{ChartPattern, MarketTrend};
use crate::timestamp::{now, Timestamp};

verus! {

/// A trade plan for one security: the rating fields, the plan's prices and
/// size, and the results once the position is closed. Prices, amounts and
/// percentages are fixed-point (see `amount`).
#[derive(Clone, Debug)]
pub struct DetailedAnalysis {
    pub id: Option<i64>,
    pub timestamp: Timestamp,
    /// +1 for bull, -1 for bear.
    pub bull_bear: i8,
    /// 0 to 100.
    pub confidence: u8,
    pub market_trend: MarketTrend,
    pub chart_pattern: ChartPattern,
    pub strategy: String,
    pub overall_score: i32,
    /// -3 to +3.
    pub market_sentiment: i32,
    /// -3 to +3.
    pub sector_sentiment: i32,
    pub sector: String,
    pub security: String,
    /// A directional position in the security itself; otherwise an
    /// instrument with a fixed debit or credit.
    pub bought: bool,
    pub entry_reason: String,
    pub time: Timestamp,
    pub entry_price: i64,
    pub stop_loss: i64,
    pub target_price: i64,
    pub short_leg: Option<String>,
    pub long_leg: Option<String>,
    /// Net cost of opening; negative for a credit received.
    pub debit_credit: i64,
    pub quantity: u32,
    /// Derived: see `after_risk_reward`.
    pub risk_max: i64,
    /// Derived: see `after_risk_reward`.
    pub reward: i64,
    /// Derived at exit: see `after_profit`.
    pub max_gain: Option<i64>,
    /// Derived at exit: see `after_profit`.
    pub percent_profit: Option<i64>,
    pub delta: Option<i64>,
    pub theta: Option<i64>,
    pub gamma: Option<i64>,
    pub vega: Option<i64>,
    pub alerts: Vec<String>,
    pub exit_reason: Option<String>,
    pub skip_reason: Option<String>,
}

/// A bought position has a risk estimate only with a positive entry price
/// and a positive stop.
pub open spec fn has_entry_and_stop(a: DetailedAnalysis) -> bool {
    a.entry_price > 0 && a.stop_loss > 0
}

/// The risk and reward of the current plan. Bought: risk = |entry - stop| *
/// quantity and, with a positive target, reward = |target - entry| *
/// quantity, both left as they were without a positive entry and stop.
/// Otherwise: risk = |debit/credit| * quantity, and reward is left as it was.
pub open spec fn after_risk_reward(a: DetailedAnalysis) -> DetailedAnalysis {
    if a.bought {
        if has_entry_and_stop(a) {
            DetailedAnalysis {
                risk_max: (abs(a.entry_price - a.stop_loss) * a.quantity) as i64,
                reward: if a.target_price > 0 {
                    (abs(a.target_price - a.entry_price) * a.quantity) as i64
                } else {
                    a.reward
                },
                ..a
            }
        } else {
            a
        }
    } else {
        DetailedAnalysis { risk_max: (abs(a.debit_credit as int) * a.quantity) as i64, ..a }
    }
}

/// The risk and reward that the current plan computes can be held in an
/// `i64`.
pub open spec fn risk_reward_fits(a: DetailedAnalysis) -> bool {
    if a.bought {
        has_entry_and_stop(a) ==> {
            &&& fits_i64(abs(a.entry_price - a.stop_loss) * a.quantity)
            &&& (a.target_price > 0 ==> fits_i64(abs(a.target_price - a.entry_price) * a.quantity))
        }
    } else {
        fits_i64(abs(a.debit_credit as int) * a.quantity)
    }
}

/// The results of closing at `exit`. Bought: max gain = (exit - entry) *
/// quantity and, with a positive entry, percent profit = (exit - entry) /
/// entry * 100. Otherwise: max gain = exit * quantity and, with a non-zero
/// debit/credit, percent profit = (exit - debit/credit) / |debit/credit| *
/// 100. A percent profit that is not computed is left as it was.
pub open spec fn after_profit(a: DetailedAnalysis, exit: i64) -> DetailedAnalysis {
    if a.bought {
        DetailedAnalysis {
            max_gain: Some(((exit - a.entry_price) * a.quantity) as i64),
            percent_profit: if a.entry_price > 0 {
                Some(percent_of(exit - a.entry_price, a.entry_price as int) as i64)
            } else {
                a.percent_profit
            },
            ..a
        }
    } else {
        DetailedAnalysis {
            max_gain: Some((exit * a.quantity) as i64),
            percent_profit: if a.debit_credit != 0 {
                Some(percent_of(exit - a.debit_credit, abs(a.debit_credit as int)) as i64)
            } else {
                a.percent_profit
            },
            ..a
        }
    }
}

/// The results of closing at `exit` can be held in an `i64`.
pub open spec fn profit_fits(a: DetailedAnalysis, exit: i64) -> bool {
    if a.bought {
        &&& fits_i64((exit - a.entry_price) * a.quantity)
        &&& (a.entry_price > 0 ==> fits_i64(percent_of(exit - a.entry_price, a.entry_price as int)))
    } else {
        &&& fits_i64(exit * a.quantity)
        &&& (a.debit_credit != 0 ==> fits_i64(percent_of(exit - a.debit_credit, abs(a.debit_credit as int))))
    }
}

impl DetailedAnalysis {
    /// An empty plan for `security` in `sector`: bull, 50% confidence,
    /// uncertain trend, pattern `Other("None")`, not bought, all amounts zero,
    /// no results, stamped now.
    pub fn new(security: &str, sector: &str) -> (r: DetailedAnalysis)
        ensures
            r.id is None,
            r.bull_bear == 1,
            r.confidence == 50,
            r.market_trend == MarketTrend::Uncertain,
            r.chart_pattern matches ChartPattern::Other(l) && l@ == "None"@,
            r.strategy@.len() == 0,
            r.overall_score == 0,
            r.market_sentiment == 0,
            r.sector_sentiment == 0,
            r.sector@ == sector@,
            r.security@ == security@,
            !r.bought,
            r.entry_reason@.len() == 0,
            r.entry_price == 0,
            r.stop_loss == 0,
            r.target_price == 0,
            r.short_leg is None,
            r.long_leg is None,
            r.debit_credit == 0,
            r.quantity == 0,
            r.risk_max == 0,
            r.reward == 0,
            r.max_gain is None,
            r.percent_profit is None,
            r.delta is None,
            r.theta is None,
            r.gamma is None,
            r.vega is None,
            r.alerts@.len() == 0,
            r.exit_reason is None,
            r.skip_reason is None,
    {
        let stamp = now();
        DetailedAnalysis {
            id: None,
            timestamp: stamp,
            bull_bear: 1,
            confidence: 50,
            market_trend: MarketTrend::Uncertain,
            chart_pattern: ChartPattern::Other(String::from_str("None")),
            strategy: String::new(),
            overall_score: 0,
            market_sentiment: 0,
            sector_sentiment: 0,
            sector: String::from_str(sector),
            security: String::from_str(security),
            bought: false,
            entry_reason: String::new(),
            time: now(),
            entry_price: 0,
            stop_loss: 0,
            target_price: 0,
            short_leg: None,
            long_leg: None,
            debit_credit: 0,
            quantity: 0,
            risk_max: 0,
            reward: 0,
            max_gain: None,
            percent_profit: None,
            delta: None,
            theta: None,
            gamma: None,
            vega: None,
            alerts: Vec::new(),
            exit_reason: None,
            skip_reason: None,
        }
    }

    /// Works out `risk_max` and `reward` from the plan (see
    /// `after_risk_reward`).
    pub fn calculate_risk_reward(&mut self)
        requires
            risk_reward_fits(*old(self)),
        ensures
            *final(self) == after_risk_reward(*old(self)),
    {
        let quantity: i128 = self.quantity as i128;
        if self.bought {
            if self.entry_price > 0 && self.stop_loss > 0 {
                let risk: i128 = self.entry_price as i128 - self.stop_loss as i128;
                let risk: i128 = if risk < 0 { -risk } else { risk };
                self.risk_max = (risk * quantity) as i64;
                if self.target_price > 0 {
                    let gain: i128 = self.target_price as i128 - self.entry_price as i128;
                    let gain: i128 = if gain < 0 { -gain } else { gain };
                    self.reward = (gain * quantity) as i64;
                }
            }
        } else {
            let cost: i128 = self.debit_credit as i128;
            let cost: i128 = if cost < 0 { -cost } else { cost };
            self.risk_max = (cost * quantity) as i64;
        }
    }

    /// Works out `max_gain` and `percent_profit` for a close at
    /// `exit_price` (see `after_profit`); the exit time plays no part.
    pub fn update_profit(&mut self, exit_price: i64, exit_time: Timestamp)
        requires
            profit_fits(*old(self), exit_price),
        ensures
            *final(self) == after_profit(*old(self), exit_price),
    {
        let quantity: i128 = self.quantity as i128;
        if self.bought {
            let change: i128 = exit_price as i128 - self.entry_price as i128;
            self.max_gain = Some((change * quantity) as i64);
            if self.entry_price > 0 {
                self.percent_profit = Some(percent_change(change, self.entry_price as i128));
            }
        } else {
            self.max_gain = Some((exit_price as i128 * quantity) as i64);
            if self.debit_credit != 0 {
                let change: i128 = exit_price as i128 - self.debit_credit as i128;
                let base: i128 = self.debit_credit as i128;
                let base: i128 = if base < 0 { -base } else { base };
                self.percent_profit = Some(percent_change(change, base));
            }
        }
    }
}

} // verus!
