pub mod discount;
pub mod dividend;
pub mod price;
pub mod volatility;

use vstd::prelude::*;

use crate::symbol::Symbol;

use discount::DiscountFactor;
use dividend::Dividend;
use price::Price;
use volatility::Volatility;

verus! {

/// A risk factor that names the instrument it was observed on.
pub trait IdentifiableRiskFactor {
    spec fn spec_id(&self) -> Symbol;

    fn id(&self) -> (r: &Symbol)
        ensures
            *r == self.spec_id(),
    ;
}

/// The market inputs supplied by a caller: zero or more factors of each family.
#[derive(Clone)]
pub struct RiskFactors<V> {
    pub price_sensitivities: Vec<Price<V>>,
    pub volatility_sensitivities: Vec<Volatility<V>>,
    pub discount_factors: Vec<DiscountFactor<V>>,
    pub dividend_sensitivities: Vec<Dividend<V>>,
}

} // verus!
