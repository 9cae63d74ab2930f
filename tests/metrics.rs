use stock_dashboard::amount::SCALE;
use stock_dashboard::detailed_analysis::DetailedAnalysis;
use stock_dashboard::error::RecordError;
use stock_dashboard::psychological_state::PsychologicalState;
use stock_dashboard::stock_rating::{ChartPattern, MarketTrend, StockRating};
use stock_dashboard::timestamp::Timestamp;
use stock_dashboard::trade::{Trade, TradeStatus};

fn rating(bull_bear: i8, confidence: u8, market: i32, sector: i32, security: i32) -> StockRating {
    let mut r = StockRating::new("AAPL", "Technology");
    r.bull_bear = bull_bear;
    r.confidence = confidence;
    r.market_sentiment = market;
    r.sector_sentiment = sector;
    r.security_sentiment = security;
    r
}

#[test]
fn new_stock_rating_defaults() {
    let r = StockRating::new("MSFT", "Software");
    assert_eq!(r.id, None);
    assert_eq!(r.symbol, "MSFT");
    assert_eq!(r.sector, "Software");
    assert_eq!(r.bull_bear, 1);
    assert_eq!(r.confidence, 50);
    assert_eq!(r.market_trend, MarketTrend::Uncertain);
    assert!(matches!(r.chart_pattern, ChartPattern::Other(ref l) if l == "None"));
    assert_eq!(r.overall_score, 0);
}

#[test]
fn overall_score_bull_example() {
    let r = rating(1, 80, 2, 1, 0);
    assert_eq!(r.calculate_overall_score(), 5);
}

#[test]
fn overall_score_bear_flips_sign() {
    let r = rating(-1, 80, 2, 1, 0);
    assert_eq!(r.calculate_overall_score(), -5);
}

#[test]
fn overall_score_confidence_factor_edges() {
    assert_eq!(rating(1, 100, 0, 0, 0).calculate_overall_score(), 3);
    assert_eq!(rating(1, 0, 0, 0, 0).calculate_overall_score(), 0);
    assert_eq!(rating(1, 33, 0, 0, 0).calculate_overall_score(), 0);
    assert_eq!(rating(1, 34, 0, 0, 0).calculate_overall_score(), 1);
    assert_eq!(rating(1, 67, 0, 0, 0).calculate_overall_score(), 2);
}

#[test]
fn overall_score_sign_follows_bull_bear_when_sum_positive() {
    assert!(rating(1, 50, 1, 1, 1).calculate_overall_score() > 0);
    assert!(rating(-1, 50, 1, 1, 1).calculate_overall_score() < 0);
}

#[test]
fn update_overall_score_writes_field() {
    let mut r = rating(1, 80, 2, 1, 0);
    r.update_overall_score();
    assert_eq!(r.overall_score, 5);
}

fn state(emotional: i32, fomo: i32, bias: i32, hunger: i32, pain: i32, gain_loss: i64) -> PsychologicalState {
    let mut s = PsychologicalState::new();
    s.emotional_state = emotional;
    s.fomo = fomo;
    s.market_bias = bias;
    s.hunger = hunger;
    s.headache_pain = pain;
    s.gain_loss_yesterday = gain_loss;
    s
}

#[test]
fn total_risk_formula() {
    // (1 + 2 + 0) + (1 + 2) + 0.5 * 3 = 7.5; / 3 = 2.5
    let s = state(1, 2, 0, 1, 2, 50 * SCALE);
    assert_eq!(s.calculate_total_risk(), 25000);
    // 6 / 3 = 2 with no gain or loss
    let s = state(1, 2, 0, 1, 2, 0);
    assert_eq!(s.calculate_total_risk(), 20000);
    // 1 / 3 rounds toward zero to 0.3333
    let s = state(1, 0, 0, 0, 0, 0);
    assert_eq!(s.calculate_total_risk(), 3333);
    let s = state(-1, 0, 0, 0, 0, 0);
    assert_eq!(s.calculate_total_risk(), -3333);
}

#[test]
fn total_risk_clamps_gain_loss() {
    let at_bound = state(0, 0, 0, 0, 0, 100 * SCALE).calculate_total_risk();
    let beyond = state(0, 0, 0, 0, 0, 250 * SCALE).calculate_total_risk();
    assert_eq!(at_bound, SCALE);
    assert_eq!(beyond, SCALE);
    let at_low = state(0, 0, 0, 0, 0, -100 * SCALE).calculate_total_risk();
    let below = state(0, 0, 0, 0, 0, -400 * SCALE).calculate_total_risk();
    assert_eq!(at_low, -SCALE);
    assert_eq!(below, -SCALE);
}

#[test]
fn total_risk_adds_extra_factors() {
    let mut s = state(0, 0, 0, 0, 0, 0);
    s.extra_factors.push(("sleep".to_string(), 2));
    s.extra_factors.push(("news".to_string(), 1));
    assert_eq!(s.calculate_total_risk(), SCALE);
    s.update_risk_score();
    assert_eq!(s.total_risk_score, SCALE);
    let d = PsychologicalState::default();
    assert_eq!(d.total_risk_score, 0);
    assert!(d.extra_factors.is_empty());
}

#[test]
fn risk_reward_bought_example() {
    let mut a = DetailedAnalysis::new("AAPL", "Technology");
    a.bought = true;
    a.entry_price = 100 * SCALE;
    a.stop_loss = 90 * SCALE;
    a.quantity = 10;
    a.calculate_risk_reward();
    assert_eq!(a.risk_max, 100 * SCALE);
    assert_eq!(a.reward, 0);
    a.target_price = 120 * SCALE;
    a.calculate_risk_reward();
    assert_eq!(a.risk_max, 100 * SCALE);
    assert_eq!(a.reward, 200 * SCALE);
}

#[test]
fn risk_reward_bought_without_stop_keeps_risk() {
    let mut a = DetailedAnalysis::new("AAPL", "Technology");
    a.bought = true;
    a.entry_price = 100 * SCALE;
    a.stop_loss = 0;
    a.target_price = 120 * SCALE;
    a.quantity = 10;
    a.risk_max = 7;
    a.reward = 9;
    a.calculate_risk_reward();
    assert_eq!(a.risk_max, 7);
    assert_eq!(a.reward, 9);
}

#[test]
fn risk_reward_debit_credit_leaves_reward() {
    let mut a = DetailedAnalysis::new("SPY", "Index");
    a.bought = false;
    a.debit_credit = -25000;
    a.quantity = 4;
    a.target_price = 120 * SCALE;
    a.reward = 11;
    a.calculate_risk_reward();
    assert_eq!(a.risk_max, 100000);
    assert_eq!(a.reward, 11);
}

#[test]
fn update_profit_bought() {
    let mut a = DetailedAnalysis::new("AAPL", "Technology");
    a.bought = true;
    a.entry_price = 100 * SCALE;
    a.quantity = 10;
    a.update_profit(110 * SCALE, Timestamp { seconds: 0, nanos: 0 });
    assert_eq!(a.max_gain, Some(100 * SCALE));
    assert_eq!(a.percent_profit, Some(10 * SCALE));
}

#[test]
fn update_profit_debit_credit() {
    let mut a = DetailedAnalysis::new("SPY", "Index");
    a.bought = false;
    a.debit_credit = -2 * SCALE;
    a.quantity = 3;
    a.update_profit(SCALE, Timestamp { seconds: 0, nanos: 0 });
    assert_eq!(a.max_gain, Some(3 * SCALE));
    // (1 - (-2)) / 2 * 100 = 150%
    assert_eq!(a.percent_profit, Some(150 * SCALE));
    let mut b = DetailedAnalysis::new("SPY", "Index");
    b.quantity = 3;
    b.update_profit(SCALE, Timestamp { seconds: 0, nanos: 0 });
    assert_eq!(b.percent_profit, None);
}

#[test]
fn trade_enter_then_exit() {
    let mut t = Trade::new("AAPL", 7);
    assert_eq!(t.status, TradeStatus::Planned);
    let t0 = Timestamp { seconds: 1_700_000_000, nanos: 0 };
    let t1 = Timestamp { seconds: 1_700_086_400, nanos: 0 };
    assert_eq!(t.enter_trade(t0, 100 * SCALE, 10), Ok(()));
    assert_eq!(t.status, TradeStatus::Open);
    assert_eq!(t.entry_price, Some(100 * SCALE));
    assert_eq!(t.exit_trade(t1, 95 * SCALE), Ok(()));
    assert_eq!(t.status, TradeStatus::Closed);
    assert_eq!(t.profit_loss, Some(-50 * SCALE));
    assert_eq!(t.percent_return, Some(-5 * SCALE));
    assert_eq!(t.exit_time, Some(t1));
}

#[test]
fn trade_exit_before_enter_is_invalid() {
    let mut t = Trade::new("AAPL", 7);
    let t1 = Timestamp { seconds: 1_700_086_400, nanos: 0 };
    assert_eq!(t.exit_trade(t1, 95 * SCALE), Err(RecordError::InvalidState));
    assert_eq!(t.status, TradeStatus::Planned);
    assert_eq!(t.profit_loss, None);
}

#[test]
fn trade_enter_twice_is_invalid() {
    let mut t = Trade::new("AAPL", 7);
    let t0 = Timestamp { seconds: 1_700_000_000, nanos: 0 };
    assert_eq!(t.enter_trade(t0, 100 * SCALE, 10), Ok(()));
    assert_eq!(t.enter_trade(t0, 50 * SCALE, 1), Err(RecordError::InvalidState));
    assert_eq!(t.entry_price, Some(100 * SCALE));
}

#[test]
fn trade_cancel_overwrites_notes() {
    let mut t = Trade::new("AAPL", 7);
    t.notes = Some("old".to_string());
    t.cancel_trade("setup failed");
    assert_eq!(t.status, TradeStatus::Cancelled);
    assert_eq!(t.notes, Some("setup failed".to_string()));
    let mut u = Trade::new("AAPL", 7);
    let t0 = Timestamp { seconds: 1_700_000_000, nanos: 0 };
    assert_eq!(u.enter_trade(t0, 100 * SCALE, 10), Ok(()));
    u.cancel_trade("stopped");
    assert_eq!(u.status, TradeStatus::Cancelled);
    assert_eq!(u.notes, Some("stopped".to_string()));
}

#[test]
fn error_descriptions_are_not_empty() {
    assert_eq!(RecordError::StoreUnavailable.describe(), "database not initialized");
    assert!(!RecordError::NotFound.describe().is_empty());
}

#[test]
fn new_analysis_and_trade_defaults() {
    let a = DetailedAnalysis::new("AAPL", "Technology");
    assert_eq!(a.security, "AAPL");
    assert_eq!(a.sector, "Technology");
    assert!(!a.bought);
    assert_eq!(a.confidence, 50);
    assert_eq!(a.risk_max, 0);
    assert_eq!(a.max_gain, None);
    assert!(a.alerts.is_empty());
    let t = Trade::new("AAPL", 9);
    assert_eq!(t.analysis_id, 9);
    assert_eq!(t.status, TradeStatus::Planned);
    assert_eq!(t.entry_price, None);
}

#[test]
fn range_checks_match_the_computations() {
    assert!(rating(1, 80, 2, 1, 0).overall_score_in_range());
    assert!(!rating(1, 100, i32::MAX, 0, 0).overall_score_in_range());
    assert!(state(1, 0, 0, 0, 0, 0).risk_score_in_range());
    let mut t = Trade::new("AAPL", 1);
    assert!(t.exit_in_range(5));
    t.enter_trade(Timestamp { seconds: 0, nanos: 0 }, -SCALE, u32::MAX).unwrap();
    assert!(!t.exit_in_range(i64::MAX));
    assert!(t.exit_in_range(0));
}

#[test]
fn total_risk_ignores_factor_order() {
    let mut a = state(1, 0, -1, 2, 0, 3 * SCALE);
    a.extra_factors.push(("sleep".to_string(), 2));
    a.extra_factors.push(("news".to_string(), -3));
    a.extra_factors.push(("coffee".to_string(), 1));
    let mut b = state(1, 0, -1, 2, 0, 3 * SCALE);
    b.extra_factors.push(("coffee".to_string(), 1));
    b.extra_factors.push(("sleep".to_string(), 2));
    b.extra_factors.push(("news".to_string(), -3));
    assert_eq!(a.calculate_total_risk(), b.calculate_total_risk());
    assert_eq!(a.calculate_total_risk(), 6966);
}

#[test]
fn repeated_factor_labels_are_detected() {
    let mut s = state(0, 0, 0, 0, 0, 0);
    s.extra_factors.push(("sleep".to_string(), 2));
    s.extra_factors.push(("news".to_string(), 1));
    assert!(s.has_distinct_labels());
    s.extra_factors.push(("sleep".to_string(), 1));
    assert!(!s.has_distinct_labels());
}
