//! One pair record of the market-data source, with amounts held as integers:
//! dollar amounts in cents, percentages in hundredths of a percent, the price
//! as a decimal string.
use vstd::prelude::*;

verus! {

/// A token of the pair.
#[derive(Clone, Debug)]
pub struct Token {
    pub address: Option<String>,
    pub name: Option<String>,
    pub symbol: Option<String>,
}

/// Buy and sell counts over one window.
#[derive(Clone, Copy, Debug, PartialEq, Eq, Structural)]
pub struct TxnCount {
    pub buys: Option<u64>,
    pub sells: Option<u64>,
}

/// Transaction counts over 5 minutes, 1 hour, 6 hours and 24 hours.
#[derive(Clone, Copy, Debug, PartialEq, Eq, Structural)]
pub struct Txns {
    pub m5: Option<TxnCount>,
    pub h1: Option<TxnCount>,
    pub h6: Option<TxnCount>,
    pub h24: Option<TxnCount>,
}

/// Traded volume in cents over 24 hours, 6 hours, 1 hour and 5 minutes.
#[derive(Clone, Copy, Debug, PartialEq, Eq, Structural)]
pub struct Volume {
    pub h24: Option<u64>,
    pub h6: Option<u64>,
    pub h1: Option<u64>,
    pub m5: Option<u64>,
}

/// Price change in hundredths of a percent over 1, 6 and 24 hours.
#[derive(Clone, Copy, Debug, PartialEq, Eq, Structural)]
pub struct PriceChange {
    pub h1: Option<i64>,
    pub h6: Option<i64>,
    pub h24: Option<i64>,
}

/// Pool liquidity: in cents for `usd`, in hundredths of a token for the sides.
#[derive(Clone, Copy, Debug, PartialEq, Eq, Structural)]
pub struct Liquidity {
    pub usd: Option<u64>,
    pub base: Option<u64>,
    pub quote: Option<u64>,
}

/// One trading pair as the market-data source reports it; every field may be
/// missing. `fdv` and `market_cap` are in cents.
#[derive(Clone, Debug)]
pub struct PairData {
    pub chain_id: Option<String>,
    pub dex_id: Option<String>,
    pub pair_address: Option<String>,
    pub base_token: Option<Token>,
    pub quote_token: Option<Token>,
    pub price_native: Option<String>,
    pub price_usd: Option<String>,
    pub fdv: Option<u64>,
    pub market_cap: Option<u64>,
    pub txns: Option<Txns>,
    pub volume: Option<Volume>,
    pub price_change: Option<PriceChange>,
    pub liquidity: Option<Liquidity>,
}

} // verus!
