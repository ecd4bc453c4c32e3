//! The account record as Alpaca reports it, and its reading as amounts.

use vstd::prelude::*;
use crate::decimal::parse_decimal;
use crate::decimal::spec_parse_decimal;
use crate::exchange::types::AccountSummary;

verus! {

/// Alpaca's account record: each amount is decimal text.
#[derive(Debug)]
pub struct Account {
    pub buying_power: String,
    pub cash: String,
    pub portfolio_value: String,
}

impl Clone for Account {
    fn clone(&self) -> (r: Self)
        ensures
            r == *self,
    {
        Account {
            buying_power: self.buying_power.clone(),
            cash: self.cash.clone(),
            portfolio_value: self.portfolio_value.clone(),
        }
    }
}

impl Account {
    /// The account as amounts; a field that is no decimal number is absent.
    pub fn summary(&self) -> (s: AccountSummary)
        ensures
            s.buying_power == spec_parse_decimal(self.buying_power@),
            s.cash == spec_parse_decimal(self.cash@),
            s.portfolio_value == spec_parse_decimal(self.portfolio_value@),
    {
        AccountSummary {
            buying_power: parse_decimal(self.buying_power.as_str()),
            cash: parse_decimal(self.cash.as_str()),
            portfolio_value: parse_decimal(self.portfolio_value.as_str()),
        }
    }
}

/// An order in the form Alpaca's order endpoint takes: amounts as decimal text.
#[derive(Debug)]
pub struct OrderRequest {
    pub symbol: String,
    pub qty: Option<String>,
    pub notional: Option<String>,
    pub side: String,
    pub type_: String,
    pub time_in_force: String,
    pub limit_price: Option<String>,
}

} // verus!
