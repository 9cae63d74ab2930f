use vstd::prelude::*;

use crate::amount::{div_round_to_zero, fits_i64, percent_change, percent_of, SCALE};
use crate::error::RecordError;
use crate::timestamp::{now, Timestamp};

verus! {

/// Where a trade stands in its lifecycle.
#[derive(Clone, Copy, Debug, PartialEq, Eq, Structural)]
pub enum TradeStatus {
    Planned,
    Open,
    Closed,
    Cancelled,
}

/// An executed (or planned) trade that belongs to one detailed analysis.
/// Prices and results are fixed-point (see `amount`).
#[derive(Clone, Debug)]
pub struct Trade {
    pub id: Option<i64>,
    pub analysis_id: i64,
    pub timestamp: Timestamp,
    pub symbol: String,
    pub status: TradeStatus,
    pub entry_time: Option<Timestamp>,
    pub exit_time: Option<Timestamp>,
    pub entry_price: Option<i64>,
    pub exit_price: Option<i64>,
    pub quantity: u32,
    /// Derived at exit: (exit price - entry price) * quantity.
    pub profit_loss: Option<i64>,
    /// Derived at exit: (exit price - entry price) / entry price * 100.
    pub percent_return: Option<i64>,
    pub notes: Option<String>,
}

/// The profit or loss of a position: (exit - entry) * quantity.
pub open spec fn profit_loss_of(entry: i64, exit: i64, quantity: u32) -> int {
    (exit - entry) * quantity
}

/// The return in percent of a position, `None` at an entry price of zero.
pub open spec fn percent_return_of(entry: i64, exit: i64) -> Option<int> {
    if entry == 0 {
        None
    } else {
        Some(percent_of(exit - entry, entry as int))
    }
}

/// Exiting at `exit` gives results that fit in an `i64`.
pub open spec fn exit_fits(t: Trade, exit: i64) -> bool {
    t.entry_price matches Some(entry) ==> {
        &&& fits_i64(profit_loss_of(entry, exit, t.quantity))
        &&& (percent_return_of(entry, exit) matches Some(p) ==> fits_i64(p))
    }
}

/// The trade once entered at `time`, `price` and `quantity`.
pub open spec fn after_enter(t: Trade, time: Timestamp, price: i64, quantity: u32) -> Trade {
    Trade { entry_time: Some(time), entry_price: Some(price), quantity, status: TradeStatus::Open, ..t }
}

/// The trade once exited at `time` and `price`, with its results worked out
/// from its entry price.
pub open spec fn after_exit(t: Trade, time: Timestamp, price: i64) -> Trade {
    Trade {
        exit_time: Some(time),
        exit_price: Some(price),
        status: TradeStatus::Closed,
        profit_loss: Some(profit_loss_of(t.entry_price->0, price, t.quantity) as i64),
        percent_return: match percent_return_of(t.entry_price->0, price) {
            Some(p) => Some(p as i64),
            None => None,
        },
        ..t
    }
}

impl Trade {
    /// A planned trade with nothing entered yet, stamped now.
    pub fn new(symbol: &str, analysis_id: i64) -> (r: Trade)
        ensures
            r.id is None,
            r.analysis_id == analysis_id,
            r.symbol@ == symbol@,
            r.status == TradeStatus::Planned,
            r.entry_time is None,
            r.exit_time is None,
            r.entry_price is None,
            r.exit_price is None,
            r.quantity == 0,
            r.profit_loss is None,
            r.percent_return is None,
            r.notes is None,
    {
        Trade {
            id: None,
            analysis_id,
            timestamp: now(),
            symbol: String::from_str(symbol),
            status: TradeStatus::Planned,
            entry_time: None,
            exit_time: None,
            entry_price: None,
            exit_price: None,
            quantity: 0,
            profit_loss: None,
            percent_return: None,
            notes: None,
        }
    }

    /// Opens a planned trade at the given time, price and quantity. Fails
    /// with `InvalidState`, changing nothing, unless the trade is planned.
    pub fn enter_trade(&mut self, entry_time: Timestamp, entry_price: i64, quantity: u32) -> (r: Result<(), RecordError>)
        ensures
            old(self).status == TradeStatus::Planned ==> r is Ok
                && *final(self) == after_enter(*old(self), entry_time, entry_price, quantity),
            old(self).status != TradeStatus::Planned ==> r == Err::<(), RecordError>(RecordError::InvalidState)
                && *final(self) == *old(self),
    {
        if self.status != TradeStatus::Planned {
            return Err(RecordError::InvalidState);
        }
        self.entry_time = Some(entry_time);
        self.entry_price = Some(entry_price);
        self.quantity = quantity;
        self.status = TradeStatus::Open;
        Ok(())
    }

    /// Closes an open trade at the given time and price, and computes its
    /// profit or loss and its percent return (none at an entry price of
    /// zero). Fails with `InvalidState`, changing nothing, unless the trade
    /// is open with an entry price.
    pub fn exit_trade(&mut self, exit_time: Timestamp, exit_price: i64) -> (r: Result<(), RecordError>)
        requires
            old(self).status == TradeStatus::Open ==> exit_fits(*old(self), exit_price),
        ensures
            (old(self).status == TradeStatus::Open && old(self).entry_price is Some) ==> r is Ok
                && *final(self) == after_exit(*old(self), exit_time, exit_price),
            !(old(self).status == TradeStatus::Open && old(self).entry_price is Some) ==> r == Err::<(), RecordError>(RecordError::InvalidState)
                && *final(self) == *old(self),
    {
        if self.status != TradeStatus::Open {
            return Err(RecordError::InvalidState);
        }
        let entry_price = match self.entry_price {
            Some(p) => p,
            None => {
                return Err(RecordError::InvalidState);
            },
        };
        let change: i128 = exit_price as i128 - entry_price as i128;
        let profit_loss: i128 = change * self.quantity as i128;
        self.exit_time = Some(exit_time);
        self.exit_price = Some(exit_price);
        self.status = TradeStatus::Closed;
        self.profit_loss = Some(profit_loss as i64);
        self.percent_return = if entry_price == 0 {
            None
        } else {
            Some(percent_change(change, entry_price as i128))
        };
        Ok(())
    }

    /// Whether exiting at `exit_price` gives results that fit in an `i64`.
    pub fn exit_in_range(&self, exit_price: i64) -> (r: bool)
        ensures
            r == exit_fits(*self, exit_price),
    {
        match self.entry_price {
            None => true,
            Some(entry) => {
                let change: i128 = exit_price as i128 - entry as i128;
                proof {
                    assert(-0x1_0000_0000_0000_0000 * 0x1_0000_0000 <= change * self.quantity <= 0x1_0000_0000_0000_0000 * 0x1_0000_0000) by (nonlinear_arith)
                        requires
                            -0x1_0000_0000_0000_0000 <= change <= 0x1_0000_0000_0000_0000,
                            0 <= self.quantity <= 0xffff_ffff,
                    ;
                }
                let profit_loss: i128 = change * self.quantity as i128;
                if profit_loss < i64::MIN as i128 || profit_loss > i64::MAX as i128 {
                    return false;
                }
                if entry == 0 {
                    return true;
                }
                assert(-0x1_0000_0000_0000_0000 <= change <= 0x1_0000_0000_0000_0000);
                let scaled: i128 = change * 1_000_000;
                assert(scaled == change * 100 * SCALE);
                let p: i128 = div_round_to_zero(scaled, entry as i128);
                i64::MIN as i128 <= p && p <= i64::MAX as i128
            },
        }
    }

    /// Cancels the trade, from whatever state, with `reason` as its notes.
    pub fn cancel_trade(&mut self, reason: &str)
        ensures
            final(self).status == TradeStatus::Cancelled,
            final(self).notes matches Some(n) && n@ == reason@,
            *final(self) == (Trade {
                status: TradeStatus::Cancelled,
                notes: final(self).notes,
                ..*old(self)
            }),
    {
        self.status = TradeStatus::Cancelled;
        self.notes = Some(String::from_str(reason));
    }
}

/// Entering a planned trade and then exiting it closes it, with a profit or
/// loss of exactly (exit price - entry price) * quantity.
pub proof fn enter_then_exit_closes(t: Trade, entry_time: Timestamp, entry_price: i64, quantity: u32,
    exit_time: Timestamp, exit_price: i64)
    requires
        t.status == TradeStatus::Planned,
        exit_fits(after_enter(t, entry_time, entry_price, quantity), exit_price),
    ensures
        ({
            let opened = after_enter(t, entry_time, entry_price, quantity);
            let closed = after_exit(opened, exit_time, exit_price);
            &&& opened.status == TradeStatus::Open
            &&& opened.entry_price is Some
            &&& closed.status == TradeStatus::Closed
            &&& closed.profit_loss == Some(((exit_price - entry_price) * quantity) as i64)
            &&& (exit_price - entry_price) * quantity == closed.profit_loss->0
        }),
{
}

} // verus!
