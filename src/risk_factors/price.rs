use vstd::prelude::*;

use super::IdentifiableRiskFactor;
use crate::symbol::Symbol;

verus! {

/// A single observed price of the instrument.
#[derive(Clone)]
pub struct PriceTick<V> {
    pub symbol: Symbol,
    pub price: V,
}

impl<V> PriceTick<V> {
    pub fn new(symbol: Symbol, price: V) -> (r: PriceTick<V>)
        ensures
            r.symbol == symbol,
            r.price == price,
    {
        PriceTick { symbol, price }
    }
}

impl<V: Copy> PriceTick<V> {
    pub fn price(&self) -> (r: V)
        ensures
            r == self.price,
    {
        self.price
    }
}

/// A series of daily average prices; its price is the mean of the series.
#[derive(Clone)]
pub struct HistoricPrices<V> {
    pub symbol: Symbol,
    pub historic_daily_average: Vec<V>,
}

impl<V> HistoricPrices<V> {
    pub fn new(symbol: Symbol, historic_daily_average: Vec<V>) -> (r: HistoricPrices<V>)
        ensures
            r.symbol == symbol,
            r.historic_daily_average@ == historic_daily_average@,
    {
        HistoricPrices { symbol, historic_daily_average }
    }
}

impl<V> IdentifiableRiskFactor for PriceTick<V> {
    open spec fn spec_id(&self) -> Symbol {
        self.symbol
    }

    fn id(&self) -> (r: &Symbol) {
        &self.symbol
    }
}

impl<V> IdentifiableRiskFactor for HistoricPrices<V> {
    open spec fn spec_id(&self) -> Symbol {
        self.symbol
    }

    fn id(&self) -> (r: &Symbol) {
        &self.symbol
    }
}

/// A price risk factor.
#[derive(Clone)]
pub enum Price<V> {
    PriceTick(PriceTick<V>),
    HistoricPrices(HistoricPrices<V>),
}

impl<V> IdentifiableRiskFactor for Price<V> {
    open spec fn spec_id(&self) -> Symbol {
        match self {
            Price::PriceTick(pt) => pt.symbol,
            Price::HistoricPrices(hp) => hp.symbol,
        }
    }

    fn id(&self) -> (r: &Symbol) {
        match self {
            Price::PriceTick(pt) => &pt.symbol,
            Price::HistoricPrices(hp) => &hp.symbol,
        }
    }
}

} // verus!
