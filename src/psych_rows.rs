use vstd::prelude::*;

use crate::amount::fits_i64;
use crate::error::RecordError;
use crate::psychological_state::{factors_view, labels_distinct, risk_score_of, PsychologicalState};
use crate::row::{
    int_of_cell,
    holds_time, int_in, read_int, read_text, read_time, readable_time, reads_as_time, rows_to_take, text_of,
    time_cell, writable_time, SqlValue,
};
use crate::timestamp::now;

verus! {

// A psychological state is stored as the row
// (timestamp, gain_loss_yesterday, emotional_state, fomo, market_bias,
//  hunger, headache_pain, extra_factors, total_risk_score)
// and read back with its identifier in front. The extra factors are stored
// as a JSON object from label to score.

/// The JSON text that serde_json writes for the factors, gathered into a
/// map ordered by label.
pub uninterp spec fn factors_json(f: Seq<(Seq<char>, i32)>) -> Option<Seq<char>>;

/// The factors that serde_json reads from a JSON text as a map ordered by
/// label, listed in label order; `None` where the text is no such map.
pub uninterp spec fn factors_parsed(text: Seq<char>) -> Option<Seq<(Seq<char>, i32)>>;

/// Relies on serde_json::to_string on a BTreeMap<String, i32>: the JSON
/// object text of the entries, in label order. Callers hand it distinct
/// labels, so the map holds every entry.
#[verifier::external_body]
fn factors_to_json(f: &Vec<(String, i32)>) -> (r: Option<String>)
    ensures
        factors_json(factors_view(f@)) == (match r {
            Some(s) => Some(s@),
            None => None::<Seq<char>>,
        }),
{
    serde_json::to_string(&f.iter().cloned().collect::<std::collections::BTreeMap<String, i32>>()).ok()
}

/// Relies on serde_json::from_str into a BTreeMap<String, i32>: the entries
/// of a JSON object from label to score, `None` where the text is not one.
/// A map holds each label once.
#[verifier::external_body]
fn factors_from_json(text: &str) -> (r: Option<Vec<(String, i32)>>)
    ensures
        factors_parsed(text@) == (match r {
            Some(v) => Some(factors_view(v@)),
            None => None::<Seq<(Seq<char>, i32)>>,
        }),
        r matches Some(v) ==> labels_distinct(factors_view(v@)),
{
    serde_json::from_str::<std::collections::BTreeMap<String, i32>>(text).ok().map(|m| m.into_iter().collect())
}

/// The cells of `row` other than the timestamp and the factors hold the
/// fields of `s`.
pub open spec fn state_cells(row: Seq<SqlValue>, s: PsychologicalState) -> bool {
    &&& row.len() == 9
    &&& row[1] == SqlValue::Integer(s.gain_loss_yesterday)
    &&& row[2] == SqlValue::Integer(s.emotional_state as i64)
    &&& row[3] == SqlValue::Integer(s.fomo as i64)
    &&& row[4] == SqlValue::Integer(s.market_bias as i64)
    &&& row[5] == SqlValue::Integer(s.hunger as i64)
    &&& row[6] == SqlValue::Integer(s.headache_pain as i64)
    &&& row[7] is Text
    &&& row[8] == SqlValue::Integer(s.total_risk_score)
}

/// The timestamp and the factors of `s` are written in `row`.
pub open spec fn state_texts_written(row: Seq<SqlValue>, s: PsychologicalState) -> bool {
    &&& holds_time(row[0], s.timestamp)
    &&& factors_json(factors_view(s.extra_factors@)) == Some(text_of(row[7]))
}

/// The timestamp and the factors of `s` can be written.
pub open spec fn state_texts_writable(s: PsychologicalState) -> bool {
    writable_time(s.timestamp) && factors_json(factors_view(s.extra_factors@)) is Some
}

/// A stored row, identifier first, from which a state can be read.
pub open spec fn state_readable(row: Seq<SqlValue>) -> bool {
    &&& row.len() == 10
    &&& row[0] is Integer
    &&& readable_time(row[1])
    &&& row[2] is Integer
    &&& int_in(row[3], i32::MIN as int, i32::MAX as int)
    &&& int_in(row[4], i32::MIN as int, i32::MAX as int)
    &&& int_in(row[5], i32::MIN as int, i32::MAX as int)
    &&& int_in(row[6], i32::MIN as int, i32::MAX as int)
    &&& int_in(row[7], i32::MIN as int, i32::MAX as int)
    &&& row[8] is Text && factors_parsed(text_of(row[8])) is Some
    &&& row[9] is Integer
}

/// A stored row, identifier first, holds the state `s`.
pub open spec fn state_row_holds(row: Seq<SqlValue>, s: PsychologicalState) -> bool {
    &&& state_readable(row)
    &&& s.id == Some(int_of_cell(row[0]))
    &&& reads_as_time(row[1], s.timestamp)
    &&& factors_parsed(text_of(row[8])) == Some(factors_view(s.extra_factors@))
    &&& labels_distinct(factors_view(s.extra_factors@))
    &&& state_cells(row.drop_first(), s)
}

/// Two states agree in every field but the timestamp and the factors.
pub open spec fn same_state_but_time_and_factors(a: PsychologicalState, b: PsychologicalState) -> bool {
    &&& a.id == b.id
    &&& a.gain_loss_yesterday == b.gain_loss_yesterday
    &&& a.emotional_state == b.emotional_state
    &&& a.fomo == b.fomo
    &&& a.market_bias == b.market_bias
    &&& a.hunger == b.hunger
    &&& a.headache_pain == b.headache_pain
    &&& a.total_risk_score == b.total_risk_score
}

/// The row that stores `s`; fails with `ConstraintViolation` where a label
/// names two factors, and with `SerializationFailure` where its timestamp or
/// its factors cannot be written.
pub fn psychological_state_row(s: &PsychologicalState) -> (res: Result<Vec<SqlValue>, RecordError>)
    ensures
        match res {
            Ok(row) => labels_distinct(factors_view(s.extra_factors@)) && state_cells(row@, *s)
                && state_texts_written(row@, *s),
            Err(e) => if !labels_distinct(factors_view(s.extra_factors@)) {
                e == RecordError::ConstraintViolation
            } else {
                e == RecordError::SerializationFailure && !state_texts_writable(*s)
            },
        },
{
    if !s.has_distinct_labels() {
        return Err(RecordError::ConstraintViolation);
    }
    let time = match time_cell(&s.timestamp) {
        Ok(v) => v,
        Err(e) => return Err(e),
    };
    let factors = match factors_to_json(&s.extra_factors) {
        Some(text) => text,
        None => return Err(RecordError::SerializationFailure),
    };
    Ok(vec![
        time,
        SqlValue::Integer(s.gain_loss_yesterday),
        SqlValue::Integer(s.emotional_state as i64),
        SqlValue::Integer(s.fomo as i64),
        SqlValue::Integer(s.market_bias as i64),
        SqlValue::Integer(s.hunger as i64),
        SqlValue::Integer(s.headache_pain as i64),
        SqlValue::Text(factors),
        SqlValue::Integer(s.total_risk_score),
    ])
}

/// Reads a state from a stored row, identifier first; fails with
/// `SerializationFailure` exactly where the row cannot be read.
pub fn psychological_state_from_row(row: &Vec<SqlValue>) -> (res: Result<PsychologicalState, RecordError>)
    ensures
        match res {
            Ok(s) => state_row_holds(row@, s),
            Err(e) => e == RecordError::SerializationFailure && !state_readable(row@),
        },
{
    if row.len() != 10 {
        return Err(RecordError::SerializationFailure);
    }
    let id = match read_int(&row[0], i64::MIN, i64::MAX) {
        Ok(n) => n,
        Err(e) => return Err(e),
    };
    let timestamp = match read_time(&row[1]) {
        Ok(t) => t,
        Err(e) => return Err(e),
    };
    let gain_loss_yesterday = match read_int(&row[2], i64::MIN, i64::MAX) {
        Ok(n) => n,
        Err(e) => return Err(e),
    };
    let emotional_state = match read_int(&row[3], i32::MIN as i64, i32::MAX as i64) {
        Ok(n) => n as i32,
        Err(e) => return Err(e),
    };
    let fomo = match read_int(&row[4], i32::MIN as i64, i32::MAX as i64) {
        Ok(n) => n as i32,
        Err(e) => return Err(e),
    };
    let market_bias = match read_int(&row[5], i32::MIN as i64, i32::MAX as i64) {
        Ok(n) => n as i32,
        Err(e) => return Err(e),
    };
    let hunger = match read_int(&row[6], i32::MIN as i64, i32::MAX as i64) {
        Ok(n) => n as i32,
        Err(e) => return Err(e),
    };
    let headache_pain = match read_int(&row[7], i32::MIN as i64, i32::MAX as i64) {
        Ok(n) => n as i32,
        Err(e) => return Err(e),
    };
    let factors_text = match read_text(&row[8]) {
        Ok(s) => s,
        Err(e) => return Err(e),
    };
    let extra_factors = match factors_from_json(factors_text.as_str()) {
        Some(f) => f,
        None => return Err(RecordError::SerializationFailure),
    };
    let total_risk_score = match read_int(&row[9], i64::MIN, i64::MAX) {
        Ok(n) => n,
        Err(e) => return Err(e),
    };
    Ok(PsychologicalState {
        id: Some(id),
        timestamp,
        gain_loss_yesterday,
        emotional_state,
        fomo,
        market_bias,
        hunger,
        headache_pain,
        extra_factors,
        total_risk_score,
    })
}

/// Reads the states of the first `limit` rows (none for a limit of zero or
/// less), in the order given; fails where one of them cannot be read.
pub fn psychological_states_from_rows(rows: &Vec<Vec<SqlValue>>, limit: i64) -> (res: Result<Vec<PsychologicalState>, RecordError>)
    ensures
        ({
            let n = if limit <= 0 { 0 } else if limit as int >= rows@.len() { rows@.len() as int } else { limit as int };
            match res {
                Ok(v) => v@.len() == n && forall|i: int| 0 <= i < n ==> state_row_holds(#[trigger] rows@[i]@, v@[i]),
                Err(e) => e == RecordError::SerializationFailure && exists|i: int| 0 <= i < n && !state_readable(#[trigger] rows@[i]@),
            }
        }),
{
    let n = rows_to_take(limit, rows.len());
    let mut out: Vec<PsychologicalState> = Vec::new();
    let mut i: usize = 0;
    while i < n
        invariant
            n == (if limit <= 0 { 0 } else if limit as int >= rows@.len() { rows@.len() as int } else { limit as int }),
            i <= n,
            out@.len() == i,
            forall|j: int| 0 <= j < i ==> state_row_holds(#[trigger] rows@[j]@, out@[j]),
        decreases n - i,
    {
        match psychological_state_from_row(&rows[i]) {
            Ok(s) => out.push(s),
            Err(e) => {
                let ghost k = i as int;
                assert(0 <= k < n && !state_readable(rows@[k]@));
                return Err(e);
            },
        }
        i = i + 1;
    }
    Ok(out)
}

/// The state of a lookup by identifier, from the rows it found: fails with
/// `NotFound` where there are none.
pub fn psychological_state_lookup(rows: &Vec<Vec<SqlValue>>) -> (res: Result<PsychologicalState, RecordError>)
    ensures
        rows@.len() == 0 ==> res == Err::<PsychologicalState, RecordError>(RecordError::NotFound),
        rows@.len() > 0 ==> match res {
            Ok(s) => state_row_holds(rows@[0]@, s),
            Err(e) => e == RecordError::SerializationFailure && !state_readable(rows@[0]@),
        },
{
    if rows.len() == 0 {
        return Err(RecordError::NotFound);
    }
    psychological_state_from_row(&rows[0])
}

/// Readies a state to be saved: works out its risk score, stamps it now,
/// and returns the row that stores it.
pub fn prepare_psychological_state_save(state: &mut PsychologicalState) -> (res: Result<Vec<SqlValue>, RecordError>)
    requires
        fits_i64(risk_score_of(*old(state))),
    ensures
        *final(state) == (PsychologicalState {
            total_risk_score: risk_score_of(*old(state)) as i64,
            timestamp: final(state).timestamp,
            ..*old(state)
        }),
        match res {
            Ok(row) => labels_distinct(factors_view(final(state).extra_factors@))
                && state_cells(row@, *final(state)) && state_texts_written(row@, *final(state)),
            Err(e) => if !labels_distinct(factors_view(final(state).extra_factors@)) {
                e == RecordError::ConstraintViolation
            } else {
                e == RecordError::SerializationFailure && !state_texts_writable(*final(state))
            },
        },
{
    state.update_risk_score();
    state.timestamp = now();
    psychological_state_row(state)
}

/// A saved state reads back, under the identifier the store gave it, equal
/// to what was saved in every field but the timestamp and the factors, and
/// with the factors that serde_json reads from the text it wrote, wherever
/// the written texts read back.
pub proof fn psychological_state_round_trip(s: PsychologicalState, row: Seq<SqlValue>, id: i64)
    requires
        state_cells(row, s),
        state_texts_written(row, s),
        readable_time(row[0]),
        factors_parsed(text_of(row[7])) is Some,
    ensures
        state_readable(seq![SqlValue::Integer(id)] + row),
        forall|x: PsychologicalState|
            #![trigger state_row_holds(seq![SqlValue::Integer(id)] + row, x)]
            state_row_holds(seq![SqlValue::Integer(id)] + row, x)
                ==> same_state_but_time_and_factors(x, PsychologicalState { id: Some(id), ..s })
                && Some(factors_view(x.extra_factors@))
                == factors_parsed(factors_json(factors_view(s.extra_factors@))->0),
{
    let full = seq![SqlValue::Integer(id)] + row;
    assert(full.drop_first() =~= row);
    assert(full[1] == row[0]);
    assert(full[8] == row[7]);
    assert(full[0] == SqlValue::Integer(id));
}

} // verus!
