use vstd::prelude::*;

use super::IdentifiableRiskFactor;
use crate::symbol::Symbol;

verus! {

/// A volatility implied from market prices.
#[derive(Clone)]
pub struct ImpliedVolatility<V> {
    pub symbol: Symbol,
    pub volatility: V,
}

impl<V> ImpliedVolatility<V> {
    pub fn new(symbol: Symbol, volatility: V) -> (r: ImpliedVolatility<V>)
        ensures
            r.symbol == symbol,
            r.volatility == volatility,
    {
        ImpliedVolatility { symbol, volatility }
    }
}

impl<V: Copy> ImpliedVolatility<V> {
    pub fn volatility(&self) -> (r: V)
        ensures
            r == self.volatility,
    {
        self.volatility
    }
}

/// A price series; its volatility is the standard deviation of the series.
#[derive(Clone)]
pub struct HistoricVolatility<V> {
    pub symbol: Symbol,
    pub price_time_series: Vec<V>,
}

impl<V> HistoricVolatility<V> {
    pub fn new(symbol: Symbol, price_time_series: Vec<V>) -> (r: HistoricVolatility<V>)
        ensures
            r.symbol == symbol,
            r.price_time_series@ == price_time_series@,
    {
        HistoricVolatility { symbol, price_time_series }
    }
}

impl<V> IdentifiableRiskFactor for ImpliedVolatility<V> {
    open spec fn spec_id(&self) -> Symbol {
        self.symbol
    }

    fn id(&self) -> (r: &Symbol) {
        &self.symbol
    }
}

impl<V> IdentifiableRiskFactor for HistoricVolatility<V> {
    open spec fn spec_id(&self) -> Symbol {
        self.symbol
    }

    fn id(&self) -> (r: &Symbol) {
        &self.symbol
    }
}

/// A volatility risk factor.
#[derive(Clone)]
pub enum Volatility<V> {
    ImpliedVolatility(ImpliedVolatility<V>),
    HistoricVolatility(HistoricVolatility<V>),
}

impl<V> IdentifiableRiskFactor for Volatility<V> {
    open spec fn spec_id(&self) -> Symbol {
        match self {
            Volatility::ImpliedVolatility(iv) => iv.symbol,
            Volatility::HistoricVolatility(hv) => hv.symbol,
        }
    }

    fn id(&self) -> (r: &Symbol) {
        match self {
            Volatility::ImpliedVolatility(iv) => &iv.symbol,
            Volatility::HistoricVolatility(hv) => &hv.symbol,
        }
    }
}

} // verus!
