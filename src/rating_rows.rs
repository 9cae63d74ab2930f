use vstd::prelude::*;

use crate::error::RecordError;
use crate::row::{
    int_of_cell,
    rows_to_take,
    holds_time, int_in, opt_text_cell, read_int, read_opt_text, read_text, read_time, readable_time,
    reads_as_time, text_of, time_cell, opt_text_value, writable_time, SqlValue,
};
use crate::stock_rating::{overall_score_fits, overall_score_of, StockRating};
use crate::tags::{
    chart_pattern_round_trip, decode_chart_pattern, decode_market_trend, encode_chart_pattern, encode_market_trend,
    pattern_readable, pattern_reads_back, pattern_text, reads_as_pattern, trend_text, trend_text_injective,
};
use crate::timestamp::now;

verus! {

// A stock rating is stored as the row
// (timestamp, symbol, security_name, sector, market_sentiment,
//  sector_sentiment, security_sentiment, bull_bear, confidence, market_trend,
//  chart_pattern, strategy, overall_score, notes)
// and read back with its identifier in front.

/// The cells of `row` after the timestamp hold the fields of `r`, but for
/// the chart pattern.
pub open spec fn rating_cells(row: Seq<SqlValue>, r: StockRating) -> bool {
    &&& row.len() == 14
    &&& row[1] == SqlValue::Text(r.symbol)
    &&& row[2] == opt_text_cell(r.security_name)
    &&& row[3] == SqlValue::Text(r.sector)
    &&& row[4] == SqlValue::Integer(r.market_sentiment as i64)
    &&& row[5] == SqlValue::Integer(r.sector_sentiment as i64)
    &&& row[6] == SqlValue::Integer(r.security_sentiment as i64)
    &&& row[7] == SqlValue::Integer(r.bull_bear as i64)
    &&& row[8] == SqlValue::Integer(r.confidence as i64)
    &&& row[9] is Text && text_of(row[9]) == trend_text(r.market_trend)
    &&& row[11] == SqlValue::Text(r.strategy)
    &&& row[12] == SqlValue::Integer(r.overall_score as i64)
    &&& row[13] == opt_text_cell(r.notes)
}

/// A stored row, identifier first, from which a rating can be read.
pub open spec fn rating_readable(row: Seq<SqlValue>) -> bool {
    &&& row.len() == 15
    &&& row[0] is Integer
    &&& readable_time(row[1])
    &&& row[2] is Text
    &&& !(row[3] is Integer)
    &&& row[4] is Text
    &&& int_in(row[5], i32::MIN as int, i32::MAX as int)
    &&& int_in(row[6], i32::MIN as int, i32::MAX as int)
    &&& int_in(row[7], i32::MIN as int, i32::MAX as int)
    &&& int_in(row[8], i8::MIN as int, i8::MAX as int)
    &&& int_in(row[9], 0, u8::MAX as int)
    &&& row[10] is Text && exists|t| trend_text(t) == text_of(row[10])
    &&& row[11] is Text && pattern_readable(text_of(row[11]))
    &&& row[12] is Text
    &&& int_in(row[13], i32::MIN as int, i32::MAX as int)
    &&& !(row[14] is Integer)
}

/// `a` is what `b` reads back as: every field but the timestamp equal, and
/// the chart pattern as `pattern_reads_back` says.
pub open spec fn rating_reads_back(b: StockRating, a: StockRating) -> bool {
    &&& a.id == b.id
    &&& a.symbol == b.symbol
    &&& a.security_name == b.security_name
    &&& a.sector == b.sector
    &&& a.market_sentiment == b.market_sentiment
    &&& a.sector_sentiment == b.sector_sentiment
    &&& a.security_sentiment == b.security_sentiment
    &&& a.bull_bear == b.bull_bear
    &&& a.confidence == b.confidence
    &&& a.market_trend == b.market_trend
    &&& pattern_reads_back(b.chart_pattern, a.chart_pattern)
    &&& a.strategy == b.strategy
    &&& a.overall_score == b.overall_score
    &&& a.notes == b.notes
}

/// The row that stores `r`; fails where its timestamp cannot be written.
pub fn stock_rating_row(r: &StockRating) -> (res: Result<Vec<SqlValue>, RecordError>)
    ensures
        match res {
            Ok(row) => holds_time(row@[0], r.timestamp) && rating_cells(row@, *r)
                && row@[10] is Text && text_of(row@[10]) == pattern_text(r.chart_pattern),
            Err(e) => e == RecordError::SerializationFailure && !writable_time(r.timestamp),
        },
{
    let time = match time_cell(&r.timestamp) {
        Ok(v) => v,
        Err(e) => return Err(e),
    };
    let row = vec![
        time,
        SqlValue::Text(r.symbol.clone()),
        opt_text_value(&r.security_name),
        SqlValue::Text(r.sector.clone()),
        SqlValue::Integer(r.market_sentiment as i64),
        SqlValue::Integer(r.sector_sentiment as i64),
        SqlValue::Integer(r.security_sentiment as i64),
        SqlValue::Integer(r.bull_bear as i64),
        SqlValue::Integer(r.confidence as i64),
        SqlValue::Text(encode_market_trend(&r.market_trend)),
        SqlValue::Text(encode_chart_pattern(&r.chart_pattern)),
        SqlValue::Text(r.strategy.clone()),
        SqlValue::Integer(r.overall_score as i64),
        opt_text_value(&r.notes),
    ];
    Ok(row)
}

/// Reads a rating from a stored row, identifier first; fails with
/// `SerializationFailure` exactly where the row cannot be read.
pub fn stock_rating_from_row(row: &Vec<SqlValue>) -> (res: Result<StockRating, RecordError>)
    ensures
        match res {
            Ok(r) => rating_row_holds(row@, r),
            Err(e) => e == RecordError::SerializationFailure && !rating_readable(row@),
        },
{
    if row.len() != 15 {
        return Err(RecordError::SerializationFailure);
    }
    let id = match read_int(&row[0], i64::MIN, i64::MAX) {
        Ok(n) => n,
        Err(e) => return Err(e),
    };
    let timestamp = match read_time(&row[1]) {
        Ok(t) => t,
        Err(e) => return Err(e),
    };
    let symbol = match read_text(&row[2]) {
        Ok(s) => s,
        Err(e) => return Err(e),
    };
    let security_name = match read_opt_text(&row[3]) {
        Ok(s) => s,
        Err(e) => return Err(e),
    };
    let sector = match read_text(&row[4]) {
        Ok(s) => s,
        Err(e) => return Err(e),
    };
    let market_sentiment = match read_int(&row[5], i32::MIN as i64, i32::MAX as i64) {
        Ok(n) => n as i32,
        Err(e) => return Err(e),
    };
    let sector_sentiment = match read_int(&row[6], i32::MIN as i64, i32::MAX as i64) {
        Ok(n) => n as i32,
        Err(e) => return Err(e),
    };
    let security_sentiment = match read_int(&row[7], i32::MIN as i64, i32::MAX as i64) {
        Ok(n) => n as i32,
        Err(e) => return Err(e),
    };
    let bull_bear = match read_int(&row[8], i8::MIN as i64, i8::MAX as i64) {
        Ok(n) => n as i8,
        Err(e) => return Err(e),
    };
    let confidence = match read_int(&row[9], 0, u8::MAX as i64) {
        Ok(n) => n as u8,
        Err(e) => return Err(e),
    };
    let trend_text = match read_text(&row[10]) {
        Ok(s) => s,
        Err(e) => return Err(e),
    };
    let market_trend = match decode_market_trend(trend_text.as_str()) {
        Some(t) => t,
        None => return Err(RecordError::SerializationFailure),
    };
    let pattern_text = match read_text(&row[11]) {
        Ok(s) => s,
        Err(e) => return Err(e),
    };
    let chart_pattern = match decode_chart_pattern(pattern_text.as_str()) {
        Some(p) => p,
        None => return Err(RecordError::SerializationFailure),
    };
    let strategy = match read_text(&row[12]) {
        Ok(s) => s,
        Err(e) => return Err(e),
    };
    let overall_score = match read_int(&row[13], i32::MIN as i64, i32::MAX as i64) {
        Ok(n) => n as i32,
        Err(e) => return Err(e),
    };
    let notes = match read_opt_text(&row[14]) {
        Ok(s) => s,
        Err(e) => return Err(e),
    };
    Ok(StockRating {
        id: Some(id),
        timestamp,
        symbol,
        security_name,
        sector,
        market_sentiment,
        sector_sentiment,
        security_sentiment,
        bull_bear,
        confidence,
        market_trend,
        chart_pattern,
        strategy,
        overall_score,
        notes,
    })
}

/// A stored row, identifier first, holds the rating `r`.
pub open spec fn rating_row_holds(row: Seq<SqlValue>, r: StockRating) -> bool {
    &&& rating_readable(row)
    &&& r.id == Some(int_of_cell(row[0]))
    &&& reads_as_time(row[1], r.timestamp)
    &&& rating_cells(row.drop_first(), r)
    &&& reads_as_pattern(text_of(row[11]), r.chart_pattern)
}

/// Reads the ratings of the first `limit` rows (none for a limit of zero or
/// less), in the order given; fails where one of them cannot be read.
pub fn stock_ratings_from_rows(rows: &Vec<Vec<SqlValue>>, limit: i64) -> (res: Result<Vec<StockRating>, RecordError>)
    ensures
        ({
            let n = if limit <= 0 { 0 } else if limit as int >= rows@.len() { rows@.len() as int } else { limit as int };
            match res {
                Ok(v) => v@.len() == n && forall|i: int| 0 <= i < n ==> rating_row_holds(#[trigger] rows@[i]@, v@[i]),
                Err(e) => e == RecordError::SerializationFailure && exists|i: int| 0 <= i < n && !rating_readable(#[trigger] rows@[i]@),
            }
        }),
{
    let n = rows_to_take(limit, rows.len());
    let mut out: Vec<StockRating> = Vec::new();
    let mut i: usize = 0;
    while i < n
        invariant
            n == (if limit <= 0 { 0 } else if limit as int >= rows@.len() { rows@.len() as int } else { limit as int }),
            i <= n,
            out@.len() == i,
            forall|j: int| 0 <= j < i ==> rating_row_holds(#[trigger] rows@[j]@, out@[j]),
        decreases n - i,
    {
        match stock_rating_from_row(&rows[i]) {
            Ok(r) => out.push(r),
            Err(e) => {
                let ghost k = i as int;
                assert(0 <= k < n && !rating_readable(rows@[k]@));
                return Err(e);
            },
        }
        i = i + 1;
    }
    Ok(out)
}

/// The rating of a lookup by identifier, from the rows it found: fails
/// with `NotFound` where there are none.
pub fn stock_rating_lookup(rows: &Vec<Vec<SqlValue>>) -> (res: Result<StockRating, RecordError>)
    ensures
        rows@.len() == 0 ==> res == Err::<StockRating, RecordError>(RecordError::NotFound),
        rows@.len() > 0 ==> match res {
            Ok(r) => rating_row_holds(rows@[0]@, r),
            Err(e) => e == RecordError::SerializationFailure && !rating_readable(rows@[0]@),
        },
{
    if rows.len() == 0 {
        return Err(RecordError::NotFound);
    }
    stock_rating_from_row(&rows[0])
}

/// Readies a rating to be saved: works out its overall score, stamps it
/// now, and returns the row that stores it.
pub fn prepare_stock_rating_save(rating: &mut StockRating) -> (res: Result<Vec<SqlValue>, RecordError>)
    requires
        overall_score_fits(*old(rating)),
    ensures
        *final(rating) == (StockRating {
            overall_score: overall_score_of(*old(rating)) as i32,
            timestamp: final(rating).timestamp,
            ..*old(rating)
        }),
        match res {
            Ok(row) => holds_time(row@[0], final(rating).timestamp) && rating_cells(row@, *final(rating))
                && row@[10] is Text && text_of(row@[10]) == pattern_text(final(rating).chart_pattern),
            Err(e) => e == RecordError::SerializationFailure && !writable_time(final(rating).timestamp),
        },
{
    rating.update_overall_score();
    rating.timestamp = now();
    stock_rating_row(rating)
}

/// A saved rating reads back, under the identifier the store gave it, as
/// what was saved in every field but the timestamp (see
/// `rating_reads_back`), wherever the written timestamp and pattern read
/// back.
pub proof fn stock_rating_round_trip(r: StockRating, row: Seq<SqlValue>, id: i64)
    requires
        holds_time(row[0], r.timestamp),
        rating_cells(row, r),
        row[10] is Text && text_of(row[10]) == pattern_text(r.chart_pattern),
        readable_time(row[0]),
        pattern_readable(text_of(row[10])),
    ensures
        rating_readable(seq![SqlValue::Integer(id)] + row),
        forall|x: StockRating|
            #![trigger rating_row_holds(seq![SqlValue::Integer(id)] + row, x)]
            rating_row_holds(seq![SqlValue::Integer(id)] + row, x)
                ==> rating_reads_back(StockRating { id: Some(id), ..r }, x),
{
    let full = seq![SqlValue::Integer(id)] + row;
    assert(full.drop_first() =~= row);
    assert(full[1] == row[0]);
    assert(full[10] == row[9]);
    assert(full[11] == row[10]);
    chart_pattern_round_trip(r.chart_pattern);
    assert forall|x: StockRating|
        #![trigger rating_row_holds(seq![SqlValue::Integer(id)] + row, x)]
        rating_row_holds(seq![SqlValue::Integer(id)] + row, x)
            implies rating_reads_back(StockRating { id: Some(id), ..r }, x) by {
        trend_text_injective(x.market_trend, r.market_trend);
        assert(full[0] == SqlValue::Integer(id));
    }
}

} // verus!
