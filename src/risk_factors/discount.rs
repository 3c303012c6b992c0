use vstd::prelude::*;

use super::IdentifiableRiskFactor;
use crate::symbol::Symbol;

verus! {

/// Daily yields; the annual rate is the mean of the sums over each window of
/// [`BUSINESS_DAYS_IN_YEAR`] consecutive days.
#[derive(Clone)]
pub struct HistoricReturnSeries<V> {
    pub symbol: Symbol,
    pub daily_yields: Vec<V>,
}

/// Number of business days in the window of a [`HistoricReturnSeries`].
pub const BUSINESS_DAYS_IN_YEAR: usize = 252;

/// An annualised historic return of the instrument.
#[derive(Clone)]
pub struct HistoricReturn<V> {
    pub symbol: Symbol,
    pub historic_return: V,
}

/// A flat annualised risk-free rate.
#[derive(Clone)]
pub struct InterestRate<V> {
    pub symbol: Symbol,
    pub rate: V,
}

impl<V> HistoricReturnSeries<V> {
    pub fn new(symbol: Symbol, daily_yields: Vec<V>) -> (r: HistoricReturnSeries<V>)
        ensures
            r.symbol == symbol,
            r.daily_yields@ == daily_yields@,
    {
        HistoricReturnSeries { symbol, daily_yields }
    }
}

impl<V> HistoricReturn<V> {
    pub fn new(symbol: Symbol, historic_return: V) -> (r: HistoricReturn<V>)
        ensures
            r.symbol == symbol,
            r.historic_return == historic_return,
    {
        HistoricReturn { symbol, historic_return }
    }
}

impl<V: Copy> HistoricReturn<V> {
    pub fn rate(&self) -> (r: V)
        ensures
            r == self.historic_return,
    {
        self.historic_return
    }
}

impl<V> InterestRate<V> {
    pub fn new(symbol: Symbol, rate: V) -> (r: InterestRate<V>)
        ensures
            r.symbol == symbol,
            r.rate == rate,
    {
        InterestRate { symbol, rate }
    }
}

impl<V: Copy> InterestRate<V> {
    pub fn rate(&self) -> (r: V)
        ensures
            r == self.rate,
    {
        self.rate
    }
}

impl<V> IdentifiableRiskFactor for HistoricReturnSeries<V> {
    open spec fn spec_id(&self) -> Symbol {
        self.symbol
    }

    fn id(&self) -> (r: &Symbol) {
        &self.symbol
    }
}

impl<V> IdentifiableRiskFactor for HistoricReturn<V> {
    open spec fn spec_id(&self) -> Symbol {
        self.symbol
    }

    fn id(&self) -> (r: &Symbol) {
        &self.symbol
    }
}

impl<V> IdentifiableRiskFactor for InterestRate<V> {
    open spec fn spec_id(&self) -> Symbol {
        self.symbol
    }

    fn id(&self) -> (r: &Symbol) {
        &self.symbol
    }
}

/// A discounting risk factor: the rate at which value is discounted over time.
#[derive(Clone)]
pub enum DiscountFactor<V> {
    HistoricReturnSeries(HistoricReturnSeries<V>),
    HistoricReturn(HistoricReturn<V>),
    RiskFreeRate(InterestRate<V>),
}

impl<V> IdentifiableRiskFactor for DiscountFactor<V> {
    open spec fn spec_id(&self) -> Symbol {
        match self {
            DiscountFactor::HistoricReturnSeries(hr) => hr.symbol,
            DiscountFactor::HistoricReturn(hr) => hr.symbol,
            DiscountFactor::RiskFreeRate(rfr) => rfr.symbol,
        }
    }

    fn id(&self) -> (r: &Symbol) {
        match self {
            DiscountFactor::HistoricReturnSeries(hr) => &hr.symbol,
            DiscountFactor::HistoricReturn(hr) => &hr.symbol,
            DiscountFactor::RiskFreeRate(rfr) => &rfr.symbol,
        }
    }
}

/// A flat risk-free discount factor on `symbol` at `rate`.
pub fn rfr_discount<V>(symbol: Symbol, rate: V) -> (r: DiscountFactor<V>)
    ensures
        r == DiscountFactor::RiskFreeRate(InterestRate { symbol, rate }),
{
    DiscountFactor::RiskFreeRate(InterestRate { symbol, rate })
}

} // verus!
