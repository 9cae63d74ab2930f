use stock_dashboard::error::RecordError;
use stock_dashboard::psych_rows::{
    prepare_psychological_state_save, psychological_state_from_row, psychological_state_row,
    psychological_state_lookup, psychological_states_from_rows,
};
use stock_dashboard::psychological_state::PsychologicalState;
use stock_dashboard::rating_rows::{
    prepare_stock_rating_save, stock_rating_from_row, stock_rating_lookup, stock_rating_row, stock_ratings_from_rows,
};
use stock_dashboard::row::{rows_to_take, SqlValue};
use stock_dashboard::schema::schema_statements;
use stock_dashboard::stock_rating::{ChartPattern, MarketTrend, StockRating};
use stock_dashboard::tags::{
    decode_chart_pattern, decode_market_trend, decode_trade_status, encode_chart_pattern, encode_market_trend,
    encode_trade_status,
};
use stock_dashboard::timestamp::Timestamp;
use stock_dashboard::trade::{Trade, TradeStatus};
use stock_dashboard::trade_rows::{trade_from_row, trade_lookup, trade_row, trade_update_row, trades_from_rows, update_outcome};

fn all_patterns() -> Vec<ChartPattern> {
    vec![
        ChartPattern::HighBase,
        ChartPattern::LowBase,
        ChartPattern::AscendingTriangle,
        ChartPattern::DescendingTriangle,
        ChartPattern::Cup,
        ChartPattern::HeadAndShoulders,
        ChartPattern::InverseHeadAndShoulders,
        ChartPattern::DoubleTop,
        ChartPattern::DoubleBottom,
        ChartPattern::Consolidation,
        ChartPattern::BreakoutPullback,
        ChartPattern::Other("custom label".to_string()),
        ChartPattern::Other(String::new()),
        ChartPattern::Other("with \"quotes\" and }".to_string()),
        ChartPattern::Other("two\nlines\tand \u{1}".to_string()),
    ]
}

fn with_id(id: i64, row: Vec<SqlValue>) -> Vec<SqlValue> {
    let mut full = vec![SqlValue::Integer(id)];
    full.extend(row);
    full
}

#[test]
fn chart_patterns_round_trip() {
    for p in all_patterns() {
        let text = encode_chart_pattern(&p);
        let back = decode_chart_pattern(&text).expect("decodes");
        assert_eq!(format!("{:?}", back), format!("{:?}", p));
    }
}

#[test]
fn tag_texts_are_the_json_forms() {
    assert_eq!(encode_market_trend(&MarketTrend::Uptrend), "\"Uptrend\"");
    assert_eq!(encode_chart_pattern(&ChartPattern::DoubleTop), "\"DoubleTop\"");
    assert_eq!(encode_chart_pattern(&ChartPattern::Other("custom label".to_string())), "{\"Other\":\"custom label\"}");
    assert_eq!(encode_trade_status(&TradeStatus::Cancelled), "\"Cancelled\"");
    assert_eq!(
        encode_chart_pattern(&ChartPattern::Other("a \"b\" \\ c".to_string())),
        "{\"Other\":\"a \\\"b\\\" \\\\ c\"}"
    );
}

#[test]
fn trends_and_statuses_round_trip() {
    for t in [MarketTrend::Uptrend, MarketTrend::Downtrend, MarketTrend::Sideways, MarketTrend::Uncertain] {
        assert_eq!(decode_market_trend(&encode_market_trend(&t)), Some(t));
    }
    for s in [TradeStatus::Planned, TradeStatus::Open, TradeStatus::Closed, TradeStatus::Cancelled] {
        assert_eq!(decode_trade_status(&encode_trade_status(&s)), Some(s));
    }
}

#[test]
fn unknown_tags_are_rejected() {
    assert_eq!(decode_market_trend("\"Bullish\""), None);
    assert_eq!(decode_market_trend("Uptrend"), None);
    assert!(decode_chart_pattern("\"Wedge\"").is_none());
    assert!(decode_chart_pattern("{\"Other\":").is_none());
    assert!(decode_chart_pattern("{\"Other\":\"a\"b\"}").is_none());
    assert!(matches!(
        decode_chart_pattern("{\"Other\":\"a\\nb\"}"),
        Some(ChartPattern::Other(ref l)) if l == "a\nb"
    ));
    assert_eq!(decode_trade_status(""), None);
}

#[test]
fn timestamp_text_round_trips() {
    let t = Timestamp { seconds: 0, nanos: 0 };
    assert_eq!(t.to_rfc3339().unwrap(), "1970-01-01T00:00:00+00:00");
    let t = Timestamp { seconds: 1_700_000_000, nanos: 123_456_789 };
    let text = t.to_rfc3339().unwrap();
    assert_eq!(Timestamp::parse_rfc3339(&text), Some(t));
    assert_eq!(
        Timestamp::parse_rfc3339("2023-11-14T23:13:20+01:00"),
        Some(Timestamp { seconds: 1_700_000_000, nanos: 0 })
    );
    assert_eq!(Timestamp::parse_rfc3339("yesterday"), None);
}

fn sample_rating() -> StockRating {
    let mut r = StockRating::new("AAPL", "Technology");
    r.security_name = Some("Apple Inc.".to_string());
    r.market_sentiment = 2;
    r.sector_sentiment = 1;
    r.security_sentiment = -1;
    r.bull_bear = -1;
    r.confidence = 90;
    r.market_trend = MarketTrend::Sideways;
    r.chart_pattern = ChartPattern::Other("custom label".to_string());
    r.strategy = "swing".to_string();
    r
}

#[test]
fn stock_rating_save_then_read() {
    let mut r = sample_rating();
    let row = prepare_stock_rating_save(&mut r).unwrap();
    assert_eq!(r.overall_score, -4);
    let back = stock_rating_from_row(&with_id(42, row)).unwrap();
    assert_eq!(back.id, Some(42));
    assert_eq!(back.timestamp.seconds, r.timestamp.seconds);
    assert_eq!(back.symbol, r.symbol);
    assert_eq!(back.security_name, r.security_name);
    assert_eq!(back.sector, r.sector);
    assert_eq!(back.market_sentiment, 2);
    assert_eq!(back.sector_sentiment, 1);
    assert_eq!(back.security_sentiment, -1);
    assert_eq!(back.bull_bear, -1);
    assert_eq!(back.confidence, 90);
    assert_eq!(back.market_trend, MarketTrend::Sideways);
    assert!(matches!(back.chart_pattern, ChartPattern::Other(ref l) if l == "custom label"));
    assert_eq!(back.strategy, "swing");
    assert_eq!(back.overall_score, -4);
    assert_eq!(back.notes, None);
}

#[test]
fn stock_rating_row_with_bad_tag_is_rejected() {
    let r = sample_rating();
    let mut row = with_id(1, stock_rating_row(&r).unwrap());
    row[10] = SqlValue::Text("\"Bullish\"".to_string());
    assert_eq!(stock_rating_from_row(&row).err(), Some(RecordError::SerializationFailure));
}

#[test]
fn stock_rating_row_with_bad_timestamp_is_rejected() {
    let r = sample_rating();
    let mut row = with_id(1, stock_rating_row(&r).unwrap());
    row[1] = SqlValue::Text("not a time".to_string());
    assert_eq!(stock_rating_from_row(&row).err(), Some(RecordError::SerializationFailure));
}

#[test]
fn stock_ratings_list_respects_limit() {
    let r = sample_rating();
    let rows: Vec<Vec<SqlValue>> = (1..=3).map(|i| with_id(i, stock_rating_row(&r).unwrap())).collect();
    assert_eq!(stock_ratings_from_rows(&rows, 2).unwrap().len(), 2);
    assert_eq!(stock_ratings_from_rows(&rows, i64::MAX).unwrap().len(), 3);
    assert_eq!(stock_ratings_from_rows(&rows, -1).unwrap().len(), 0);
}

fn sample_trade() -> Trade {
    let mut t = Trade::new("AAPL", 7);
    t.enter_trade(Timestamp { seconds: 1_700_000_000, nanos: 0 }, 1_000_000, 10).unwrap();
    t.exit_trade(Timestamp { seconds: 1_700_086_400, nanos: 500 }, 1_100_000).unwrap();
    t.notes = Some("took profit".to_string());
    t
}

#[test]
fn trade_save_then_read() {
    let t = sample_trade();
    let back = trade_from_row(&with_id(5, trade_row(&t).unwrap())).unwrap();
    assert_eq!(back.id, Some(5));
    assert_eq!(back.analysis_id, 7);
    assert_eq!(back.timestamp, t.timestamp);
    assert_eq!(back.symbol, "AAPL");
    assert_eq!(back.status, TradeStatus::Closed);
    assert_eq!(back.entry_time, t.entry_time);
    assert_eq!(back.exit_time, t.exit_time);
    assert_eq!(back.entry_price, Some(1_000_000));
    assert_eq!(back.exit_price, Some(1_100_000));
    assert_eq!(back.quantity, 10);
    assert_eq!(back.profit_loss, Some(1_000_000));
    assert_eq!(back.percent_return, Some(100_000));
    assert_eq!(back.notes, Some("took profit".to_string()));
}

#[test]
fn trade_absent_values_stay_absent() {
    let t = Trade::new("MSFT", 3);
    let row = trade_row(&t).unwrap();
    assert!(matches!(row[4], SqlValue::Null));
    assert!(matches!(row[6], SqlValue::Null));
    let back = trade_from_row(&with_id(9, row)).unwrap();
    assert_eq!(back.entry_time, None);
    assert_eq!(back.entry_price, None);
    assert_eq!(back.profit_loss, None);
    assert_eq!(back.notes, None);
}

#[test]
fn recent_trades_with_zero_limit_is_empty() {
    let rows: Vec<Vec<SqlValue>> = vec![vec![SqlValue::Null], with_id(1, trade_row(&sample_trade()).unwrap())];
    assert_eq!(trades_from_rows(&rows, 0).unwrap().len(), 0);
    assert_eq!(trades_from_rows(&rows, 5).err(), Some(RecordError::SerializationFailure));
    assert_eq!(rows_to_take(0, 10), 0);
    assert_eq!(rows_to_take(3, 10), 3);
    assert_eq!(rows_to_take(30, 10), 10);
}

#[test]
fn trade_update_needs_an_identifier() {
    let mut t = sample_trade();
    assert_eq!(trade_update_row(&t).err(), Some(RecordError::ConstraintViolation));
    t.id = Some(12);
    let row = trade_update_row(&t).unwrap();
    assert_eq!(row.len(), 12);
    assert!(matches!(row[9], SqlValue::Text(ref sym) if sym == "AAPL"));
    assert!(matches!(row[10], SqlValue::Text(_)));
    assert!(matches!(row[11], SqlValue::Integer(12)));
    assert_eq!(update_outcome(0), Err(RecordError::ConstraintViolation));
    assert_eq!(update_outcome(1), Ok(()));
}

#[test]
fn psychological_state_save_then_read() {
    let mut s = PsychologicalState::new();
    s.emotional_state = -2;
    s.fomo = 3;
    s.gain_loss_yesterday = -15_000;
    s.extra_factors.push(("sleep".to_string(), 2));
    s.extra_factors.push(("argument".to_string(), -1));
    let row = prepare_psychological_state_save(&mut s).unwrap();
    assert!(matches!(row[7], SqlValue::Text(ref j) if j == "{\"argument\":-1,\"sleep\":2}"));
    let back = psychological_state_from_row(&with_id(3, row)).unwrap();
    assert_eq!(back.id, Some(3));
    assert_eq!(back.emotional_state, -2);
    assert_eq!(back.fomo, 3);
    assert_eq!(back.gain_loss_yesterday, -15_000);
    assert_eq!(back.total_risk_score, s.total_risk_score);
    let mut factors = back.extra_factors.clone();
    factors.sort();
    assert_eq!(factors, vec![("argument".to_string(), -1), ("sleep".to_string(), 2)]);
}

#[test]
fn psychological_state_bad_factors_rejected() {
    let s = PsychologicalState::new();
    let mut row = with_id(1, psychological_state_row(&s).unwrap());
    row[8] = SqlValue::Text("[1,2]".to_string());
    assert_eq!(psychological_state_from_row(&row).err(), Some(RecordError::SerializationFailure));
    let rows = vec![row];
    assert_eq!(psychological_states_from_rows(&rows, 1).err(), Some(RecordError::SerializationFailure));
}

#[test]
fn schema_statements_are_idempotent() {
    let conn = rusqlite::Connection::open_in_memory().unwrap();
    for _ in 0..2 {
        for stmt in schema_statements() {
            conn.execute(&stmt, []).unwrap();
        }
    }
    let count: i64 = conn
        .query_row("SELECT count(*) FROM sqlite_master WHERE type = 'table'", [], |r| r.get(0))
        .unwrap();
    assert_eq!(count, 4);
}

#[test]
fn lookups_without_rows_are_not_found() {
    let none: Vec<Vec<SqlValue>> = Vec::new();
    assert_eq!(stock_rating_lookup(&none).err(), Some(RecordError::NotFound));
    assert_eq!(trade_lookup(&none).err(), Some(RecordError::NotFound));
    assert_eq!(psychological_state_lookup(&none).err(), Some(RecordError::NotFound));
    let one = vec![with_id(4, trade_row(&sample_trade()).unwrap())];
    assert_eq!(trade_lookup(&one).unwrap().id, Some(4));
}

#[test]
fn psychological_state_with_repeated_label_is_refused() {
    let mut s = PsychologicalState::new();
    s.extra_factors.push(("sleep".to_string(), 2));
    s.extra_factors.push(("sleep".to_string(), 1));
    assert_eq!(psychological_state_row(&s).err(), Some(RecordError::ConstraintViolation));
    assert_eq!(prepare_psychological_state_save(&mut s).err(), Some(RecordError::ConstraintViolation));
}

#[test]
fn cancelled_trade_cannot_exit() {
    let mut t = Trade::new("AAPL", 7);
    t.enter_trade(Timestamp { seconds: 0, nanos: 0 }, i64::MIN, u32::MAX).unwrap();
    t.cancel_trade("changed my mind");
    assert_eq!(t.exit_trade(Timestamp { seconds: 1, nanos: 0 }, i64::MAX).err(), Some(RecordError::InvalidState));
    assert_eq!(t.status, TradeStatus::Cancelled);
}
