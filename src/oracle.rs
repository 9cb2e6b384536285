use vstd::prelude::*;
use crate::rates::AggregatedRates;
use crate::route::QueryKind;

verus! {

/// Instantiating the oracle-query contract takes no parameters.
#[derive(Clone, Copy, Debug, PartialEq, Eq, Structural)]
pub struct InstantiateMsg {}

/// The queries that the oracle-query contract answers.
#[derive(Clone, Debug, PartialEq, Eq)]
pub enum QueryMsg {
    GetExchangeRate { pair: String },
    GetExchangeRateTwap { pair: String },
    GetExchangeRates {},
}

/// The remote method that serves a query.
pub open spec fn query_kind(msg: QueryMsg) -> QueryKind {
    match msg {
        QueryMsg::GetExchangeRate { .. } => QueryKind::ExchangeRate,
        QueryMsg::GetExchangeRateTwap { .. } => QueryKind::ExchangeRateTwap,
        QueryMsg::GetExchangeRates {} => QueryKind::ExchangeRates,
    }
}

impl QueryMsg {
    /// The remote method that serves this query.
    pub fn kind(&self) -> (r: QueryKind)
        ensures
            r == query_kind(*self),
    {
        match self {
            QueryMsg::GetExchangeRate { .. } => QueryKind::ExchangeRate,
            QueryMsg::GetExchangeRateTwap { .. } => QueryKind::ExchangeRateTwap,
            QueryMsg::GetExchangeRates {} => QueryKind::ExchangeRates,
        }
    }
}

/// The price of one pair, as the decimal string that the oracle gave.
#[derive(Clone, Debug, PartialEq, Eq)]
pub struct GetExchangeRateResponse {
    pub price: String,
}

/// The time-weighted price of one pair, as the decimal string that the oracle gave.
#[derive(Clone, Debug, PartialEq, Eq)]
pub struct GetExchangeRateTwapResponse {
    pub price: String,
}

/// The price of every pair that the oracle listed.
pub struct GetExchangeRatesResponse {
    pub rates: AggregatedRates,
}

} // verus!
