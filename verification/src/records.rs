//! Trade and Position: the passive records the coordinator hands to the
//! external trade store and to downstream exit logic. Quantities and prices
//! are integer chain units (token base units, lamports), never mutated after
//! creation.
use vstd::prelude::*;

use crate::addr::Address;

verus! {

/// Which way a trade went.
#[derive(Clone, Copy, PartialEq, Eq, Structural, Debug)]
pub enum TradeSide {
    Buy,
    Sell,
}

impl TradeSide {
    /// The textual tag the external trade store records.
    pub fn label(&self) -> (s: String)
        ensures
            *self is Buy ==> s@ == "BUY"@,
            *self is Sell ==> s@ == "SELL"@,
    {
        match self {
            TradeSide::Buy => "BUY".to_owned(),
            TradeSide::Sell => "SELL".to_owned(),
        }
    }
}

/// One completed dispatch attempt, appended once to the external trade store
/// and never mutated afterward. `qty` is in token base units; `price_sol` is
/// in lamports per token base unit.
pub struct Trade {
    pub ts: i64,
    pub side: TradeSide,
    pub mint: Address,
    pub signature: String,
    pub qty: u64,
    pub price_sol: u64,
}

impl Trade {
    /// Assemble the record of one completed dispatch attempt, exactly as the
    /// external trade store is told it.
    pub fn new(ts: i64, side: TradeSide, mint: Address, signature: String, qty: u64, price_sol: u64) -> (t: Trade)
        ensures
            t == (Trade { ts, side, mint, signature, qty, price_sol }),
    {
        Trade { ts, side, mint, signature, qty, price_sol }
    }
}

/// An open holding, produced once a buy dispatch is confirmed and handed to
/// external exit logic as a read-only snapshot. Prices are in lamports per
/// token base unit; the exit thresholds are in basis points.
pub struct Position {
    pub mint: Address,
    pub buy_sig: String,
    pub buy_price: u64,
    pub amount_tokens: u64,
    pub opened_at: i64,
    pub take_profit_bps: u32,
    pub stop_loss_bps: u32,
    pub max_seconds: i64,
}

impl Position {
    /// Snapshot a freshly confirmed buy for downstream exit logic.
    pub fn open(
        mint: Address,
        buy_sig: String,
        buy_price: u64,
        amount_tokens: u64,
        opened_at: i64,
        take_profit_bps: u32,
        stop_loss_bps: u32,
        max_seconds: i64,
    ) -> (p: Position)
        ensures
            p == (Position {
                mint,
                buy_sig,
                buy_price,
                amount_tokens,
                opened_at,
                take_profit_bps,
                stop_loss_bps,
                max_seconds,
            }),
    {
        Position {
            mint,
            buy_sig,
            buy_price,
            amount_tokens,
            opened_at,
            take_profit_bps,
            stop_loss_bps,
            max_seconds,
        }
    }
}

} // verus!
