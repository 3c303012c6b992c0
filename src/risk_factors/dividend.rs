use vstd::prelude::*;

use crate::symbol::Symbol;

verus! {

/// A flat annualised dividend yield.
#[derive(Clone)]
pub struct AnnualisedDividendRate<V> {
    pub symbol: Symbol,
    pub rate: V,
}

impl<V> AnnualisedDividendRate<V> {
    pub fn new(symbol: Symbol, rate: V) -> (r: AnnualisedDividendRate<V>)
        ensures
            r.symbol == symbol,
            r.rate == rate,
    {
        AnnualisedDividendRate { symbol, rate }
    }

    pub fn id(&self) -> (r: &Symbol)
        ensures
            *r == self.symbol,
    {
        &self.symbol
    }
}

impl<V: Copy> AnnualisedDividendRate<V> {
    pub fn rate(&self) -> (r: V)
        ensures
            r == self.rate,
    {
        self.rate
    }
}

/// A dividend risk factor. Schedules of discrete dividends are not supported:
/// an engine that is handed one fails with an unsupported-feature error.
#[derive(Clone)]
pub enum Dividend<V> {
    AnnualisedRate(AnnualisedDividendRate<V>),
    Schedule,
}

impl<V> Dividend<V> {
    /// The symbol of an annualised rate; a schedule names none.
    pub fn id(&self) -> (r: Option<&Symbol>)
        ensures
            match self {
                Dividend::AnnualisedRate(adr) => r == Some(&adr.symbol),
                Dividend::Schedule => r.is_none(),
            },
    {
        match self {
            Dividend::AnnualisedRate(adr) => Some(&adr.symbol),
            Dividend::Schedule => None,
        }
    }
}

} // verus!
