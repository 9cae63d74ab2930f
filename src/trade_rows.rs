use vstd::prelude::*;

use crate::error::RecordError;
use crate::row::{
    int_of_cell,
    holds_opt_time, holds_time, int_in, opt_int_cell, opt_int_value, opt_text_cell, opt_text_value, opt_time_cell,
    read_int, read_opt_int, read_opt_text, read_opt_time, read_text, read_time, readable_opt_time, readable_time,
    reads_as_opt_time, reads_as_time, rows_to_take, text_of, time_cell, writable_opt_time, writable_time, SqlValue,
};
use crate::tags::{decode_trade_status, encode_trade_status, status_text, status_text_injective};
use crate::timestamp::now;
use crate::trade::Trade;

verus! {

// A trade is stored as the row
// (analysis_id, timestamp, symbol, status, entry_time, exit_time,
//  entry_price, exit_price, quantity, profit_loss, percent_return, notes)
// and read back with its identifier in front. An update writes
// (status, entry_time, exit_time, entry_price, exit_price, quantity,
//  profit_loss, percent_return, notes, symbol, timestamp, id).

/// The cells of `row` other than the three instants hold the fields of `t`.
pub open spec fn trade_cells(row: Seq<SqlValue>, t: Trade) -> bool {
    &&& row.len() == 12
    &&& row[0] == SqlValue::Integer(t.analysis_id)
    &&& row[2] == SqlValue::Text(t.symbol)
    &&& row[3] is Text && text_of(row[3]) == status_text(t.status)
    &&& row[6] == opt_int_cell(t.entry_price)
    &&& row[7] == opt_int_cell(t.exit_price)
    &&& row[8] == SqlValue::Integer(t.quantity as i64)
    &&& row[9] == opt_int_cell(t.profit_loss)
    &&& row[10] == opt_int_cell(t.percent_return)
    &&& row[11] == opt_text_cell(t.notes)
}

/// The instants of `t` are written in `row`.
pub open spec fn trade_times_written(row: Seq<SqlValue>, t: Trade) -> bool {
    &&& holds_time(row[1], t.timestamp)
    &&& holds_opt_time(row[4], t.entry_time)
    &&& holds_opt_time(row[5], t.exit_time)
}

/// The instants of `t` can be written.
pub open spec fn trade_times_writable(t: Trade) -> bool {
    writable_time(t.timestamp) && writable_opt_time(t.entry_time) && writable_opt_time(t.exit_time)
}

/// A stored row, identifier first, from which a trade can be read.
pub open spec fn trade_readable(row: Seq<SqlValue>) -> bool {
    &&& row.len() == 13
    &&& row[0] is Integer
    &&& row[1] is Integer
    &&& readable_time(row[2])
    &&& row[3] is Text
    &&& row[4] is Text && exists|s| status_text(s) == text_of(row[4])
    &&& readable_opt_time(row[5])
    &&& readable_opt_time(row[6])
    &&& !(row[7] is Text)
    &&& !(row[8] is Text)
    &&& int_in(row[9], 0, u32::MAX as int)
    &&& !(row[10] is Text)
    &&& !(row[11] is Text)
    &&& !(row[12] is Integer)
}

/// A stored row, identifier first, holds the trade `t`.
pub open spec fn trade_row_holds(row: Seq<SqlValue>, t: Trade) -> bool {
    &&& trade_readable(row)
    &&& t.id == Some(int_of_cell(row[0]))
    &&& reads_as_time(row[2], t.timestamp)
    &&& reads_as_opt_time(row[5], t.entry_time)
    &&& reads_as_opt_time(row[6], t.exit_time)
    &&& trade_cells(row.drop_first(), t)
}

/// Two trades agree in every field but the three instants.
pub open spec fn same_trade_but_times(a: Trade, b: Trade) -> bool {
    &&& a.id == b.id
    &&& a.analysis_id == b.analysis_id
    &&& a.symbol == b.symbol
    &&& a.status == b.status
    &&& a.entry_price == b.entry_price
    &&& a.exit_price == b.exit_price
    &&& a.quantity == b.quantity
    &&& a.profit_loss == b.profit_loss
    &&& a.percent_return == b.percent_return
    &&& a.notes == b.notes
}

/// The row that stores `t`; fails where one of its instants cannot be
/// written.
pub fn trade_row(t: &Trade) -> (res: Result<Vec<SqlValue>, RecordError>)
    ensures
        match res {
            Ok(row) => trade_cells(row@, *t) && trade_times_written(row@, *t),
            Err(e) => e == RecordError::SerializationFailure && !trade_times_writable(*t),
        },
{
    let time = match time_cell(&t.timestamp) {
        Ok(v) => v,
        Err(e) => return Err(e),
    };
    let entry_time = match opt_time_cell(&t.entry_time) {
        Ok(v) => v,
        Err(e) => return Err(e),
    };
    let exit_time = match opt_time_cell(&t.exit_time) {
        Ok(v) => v,
        Err(e) => return Err(e),
    };
    Ok(vec![
        SqlValue::Integer(t.analysis_id),
        time,
        SqlValue::Text(t.symbol.clone()),
        SqlValue::Text(encode_trade_status(&t.status)),
        entry_time,
        exit_time,
        opt_int_value(&t.entry_price),
        opt_int_value(&t.exit_price),
        SqlValue::Integer(t.quantity as i64),
        opt_int_value(&t.profit_loss),
        opt_int_value(&t.percent_return),
        opt_text_value(&t.notes),
    ])
}

/// The cells of an update of `t`: every field but the identifier and the
/// analysis, then the identifier.
pub open spec fn trade_update_cells(row: Seq<SqlValue>, t: Trade) -> bool {
    &&& row.len() == 12
    &&& row[0] is Text && text_of(row[0]) == status_text(t.status)
    &&& holds_opt_time(row[1], t.entry_time)
    &&& holds_opt_time(row[2], t.exit_time)
    &&& row[3] == opt_int_cell(t.entry_price)
    &&& row[4] == opt_int_cell(t.exit_price)
    &&& row[5] == SqlValue::Integer(t.quantity as i64)
    &&& row[6] == opt_int_cell(t.profit_loss)
    &&& row[7] == opt_int_cell(t.percent_return)
    &&& row[8] == opt_text_cell(t.notes)
    &&& row[9] == SqlValue::Text(t.symbol)
    &&& holds_time(row[10], t.timestamp)
    &&& t.id matches Some(id) && row[11] == SqlValue::Integer(id)
}

/// The cells of an update of `t`; fails with `ConstraintViolation` for a
/// trade never saved, and with `SerializationFailure` where an instant
/// cannot be written.
pub fn trade_update_row(t: &Trade) -> (res: Result<Vec<SqlValue>, RecordError>)
    ensures
        match res {
            Ok(row) => trade_update_cells(row@, *t),
            Err(e) => if t.id is None {
                e == RecordError::ConstraintViolation
            } else {
                e == RecordError::SerializationFailure && !trade_times_writable(*t)
            },
        },
{
    let id = match t.id {
        Some(id) => id,
        None => return Err(RecordError::ConstraintViolation),
    };
    let entry_time = match opt_time_cell(&t.entry_time) {
        Ok(v) => v,
        Err(e) => return Err(e),
    };
    let exit_time = match opt_time_cell(&t.exit_time) {
        Ok(v) => v,
        Err(e) => return Err(e),
    };
    let time = match time_cell(&t.timestamp) {
        Ok(v) => v,
        Err(e) => return Err(e),
    };
    Ok(vec![
        SqlValue::Text(encode_trade_status(&t.status)),
        entry_time,
        exit_time,
        opt_int_value(&t.entry_price),
        opt_int_value(&t.exit_price),
        SqlValue::Integer(t.quantity as i64),
        opt_int_value(&t.profit_loss),
        opt_int_value(&t.percent_return),
        opt_text_value(&t.notes),
        SqlValue::Text(t.symbol.clone()),
        time,
        SqlValue::Integer(id),
    ])
}

/// The outcome of an update that changed `changed` rows: an update that
/// changed none names no stored trade.
pub fn update_outcome(changed: usize) -> (res: Result<(), RecordError>)
    ensures
        changed > 0 <==> res is Ok,
        changed == 0 ==> res == Err::<(), RecordError>(RecordError::ConstraintViolation),
{
    if changed == 0 {
        Err(RecordError::ConstraintViolation)
    } else {
        Ok(())
    }
}

/// Reads a trade from a stored row, identifier first; fails with
/// `SerializationFailure` exactly where the row cannot be read.
pub fn trade_from_row(row: &Vec<SqlValue>) -> (res: Result<Trade, RecordError>)
    ensures
        match res {
            Ok(t) => trade_row_holds(row@, t),
            Err(e) => e == RecordError::SerializationFailure && !trade_readable(row@),
        },
{
    if row.len() != 13 {
        return Err(RecordError::SerializationFailure);
    }
    let id = match read_int(&row[0], i64::MIN, i64::MAX) {
        Ok(n) => n,
        Err(e) => return Err(e),
    };
    let analysis_id = match read_int(&row[1], i64::MIN, i64::MAX) {
        Ok(n) => n,
        Err(e) => return Err(e),
    };
    let timestamp = match read_time(&row[2]) {
        Ok(t) => t,
        Err(e) => return Err(e),
    };
    let symbol = match read_text(&row[3]) {
        Ok(s) => s,
        Err(e) => return Err(e),
    };
    let status_text = match read_text(&row[4]) {
        Ok(s) => s,
        Err(e) => return Err(e),
    };
    let status = match decode_trade_status(status_text.as_str()) {
        Some(s) => s,
        None => return Err(RecordError::SerializationFailure),
    };
    let entry_time = match read_opt_time(&row[5]) {
        Ok(t) => t,
        Err(e) => return Err(e),
    };
    let exit_time = match read_opt_time(&row[6]) {
        Ok(t) => t,
        Err(e) => return Err(e),
    };
    let entry_price = match read_opt_int(&row[7]) {
        Ok(n) => n,
        Err(e) => return Err(e),
    };
    let exit_price = match read_opt_int(&row[8]) {
        Ok(n) => n,
        Err(e) => return Err(e),
    };
    let quantity = match read_int(&row[9], 0, u32::MAX as i64) {
        Ok(n) => n as u32,
        Err(e) => return Err(e),
    };
    let profit_loss = match read_opt_int(&row[10]) {
        Ok(n) => n,
        Err(e) => return Err(e),
    };
    let percent_return = match read_opt_int(&row[11]) {
        Ok(n) => n,
        Err(e) => return Err(e),
    };
    let notes = match read_opt_text(&row[12]) {
        Ok(s) => s,
        Err(e) => return Err(e),
    };
    Ok(Trade {
        id: Some(id),
        analysis_id,
        timestamp,
        symbol,
        status,
        entry_time,
        exit_time,
        entry_price,
        exit_price,
        quantity,
        profit_loss,
        percent_return,
        notes,
    })
}

/// Reads the trades of the first `limit` rows (none for a limit of zero or
/// less), in the order given; fails where one of them cannot be read.
pub fn trades_from_rows(rows: &Vec<Vec<SqlValue>>, limit: i64) -> (res: Result<Vec<Trade>, RecordError>)
    ensures
        ({
            let n = if limit <= 0 { 0 } else if limit as int >= rows@.len() { rows@.len() as int } else { limit as int };
            match res {
                Ok(v) => v@.len() == n && forall|i: int| 0 <= i < n ==> trade_row_holds(#[trigger] rows@[i]@, v@[i]),
                Err(e) => e == RecordError::SerializationFailure && exists|i: int| 0 <= i < n && !trade_readable(#[trigger] rows@[i]@),
            }
        }),
{
    let n = rows_to_take(limit, rows.len());
    let mut out: Vec<Trade> = Vec::new();
    let mut i: usize = 0;
    while i < n
        invariant
            n == (if limit <= 0 { 0 } else if limit as int >= rows@.len() { rows@.len() as int } else { limit as int }),
            i <= n,
            out@.len() == i,
            forall|j: int| 0 <= j < i ==> trade_row_holds(#[trigger] rows@[j]@, out@[j]),
        decreases n - i,
    {
        match trade_from_row(&rows[i]) {
            Ok(t) => out.push(t),
            Err(e) => {
                let ghost k = i as int;
                assert(0 <= k < n && !trade_readable(rows@[k]@));
                return Err(e);
            },
        }
        i = i + 1;
    }
    Ok(out)
}

/// The trade of a lookup by identifier, from the rows it found: fails with
/// `NotFound` where there are none.
pub fn trade_lookup(rows: &Vec<Vec<SqlValue>>) -> (res: Result<Trade, RecordError>)
    ensures
        rows@.len() == 0 ==> res == Err::<Trade, RecordError>(RecordError::NotFound),
        rows@.len() > 0 ==> match res {
            Ok(t) => trade_row_holds(rows@[0]@, t),
            Err(e) => e == RecordError::SerializationFailure && !trade_readable(rows@[0]@),
        },
{
    if rows.len() == 0 {
        return Err(RecordError::NotFound);
    }
    trade_from_row(&rows[0])
}

/// Readies a trade to be saved: stamps it now and returns the row that
/// stores it.
pub fn prepare_trade_save(trade: &mut Trade) -> (res: Result<Vec<SqlValue>, RecordError>)
    ensures
        *final(trade) == (Trade { timestamp: final(trade).timestamp, ..*old(trade) }),
        match res {
            Ok(row) => trade_cells(row@, *final(trade)) && trade_times_written(row@, *final(trade)),
            Err(e) => e == RecordError::SerializationFailure && !trade_times_writable(*final(trade)),
        },
{
    trade.timestamp = now();
    trade_row(trade)
}

/// A saved trade reads back, under the identifier the store gave it, equal
/// to what was saved in every field but its instants, wherever the written
/// instants read back.
pub proof fn trade_round_trip(t: Trade, row: Seq<SqlValue>, id: i64)
    requires
        trade_cells(row, t),
        trade_times_written(row, t),
        readable_time(row[1]),
        readable_opt_time(row[4]),
        readable_opt_time(row[5]),
    ensures
        trade_readable(seq![SqlValue::Integer(id)] + row),
        forall|x: Trade|
            #![trigger trade_row_holds(seq![SqlValue::Integer(id)] + row, x)]
            trade_row_holds(seq![SqlValue::Integer(id)] + row, x)
                ==> same_trade_but_times(x, Trade { id: Some(id), ..t }),
{
    let full = seq![SqlValue::Integer(id)] + row;
    assert(full.drop_first() =~= row);
    assert(full[2] == row[1]);
    assert(full[4] == row[3]);
    assert(full[5] == row[4]);
    assert(full[6] == row[5]);
    assert forall|x: Trade|
        #![trigger trade_row_holds(seq![SqlValue::Integer(id)] + row, x)]
        trade_row_holds(seq![SqlValue::Integer(id)] + row, x)
            implies same_trade_but_times(x, Trade { id: Some(id), ..t }) by {
        assert(full[0] == SqlValue::Integer(id));
        status_text_injective(x.status, t.status);
    }
}

} // verus!
