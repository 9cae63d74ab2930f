//! Trading journal records: psychological state, stock ratings, detailed
//! analyses and trades, with their derived metrics and their mapping to
//! relational rows.
pub mod amount;
pub mod error;
pub mod tags;
pub mod timestamp;
pub mod stock_rating;
pub mod trade;
pub mod psychological_state;
pub mod detailed_analysis;
pub mod row;
pub mod rating_rows;
pub mod trade_rows;
pub mod psych_rows;
pub mod schema;
