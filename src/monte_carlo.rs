use vstd::prelude::*;

use crate::result::{PricerError, PricerResult};
use crate::risk_factors::discount::{DiscountFactor, HistoricReturn};
use crate::risk_factors::price::{Price, PriceTick};
use crate::risk_factors::volatility::{ImpliedVolatility, Volatility};
use crate::risk_factors::{IdentifiableRiskFactor, RiskFactors};
use crate::shock::{ApplyShock, Shock, ShockArithmetic};
use crate::symbol::Symbol;
use crate::validation::{
    check_symbols, get_first_and_ensure_one, is_cardinality_error, is_insensitive_error,
};

verus! {

/// The size of a Monte-Carlo simulation: `repetitions` paths of `steps` increments each.
#[derive(Clone, Copy, Debug, PartialEq, Eq, Structural)]
pub struct MonteCarloParams {
    pub steps: u64,
    pub repetitions: u64,
}

/// The validated risk factors of a Monte-Carlo valuation: one price, one
/// volatility and one discount factor.
#[derive(Clone)]
pub struct MonteCarloRiskFactors<V> {
    pub price_risk_factor: Price<V>,
    pub volatility_risk_factor: Volatility<V>,
    pub discount_factor: DiscountFactor<V>,
}

/// The price, volatility and discount families of `rf` each hold exactly one factor.
pub open spec fn mc_families_valid<V>(rf: RiskFactors<V>) -> bool {
    &&& rf.price_sensitivities@.len() == 1
    &&& rf.volatility_sensitivities@.len() == 1
    &&& rf.discount_factors@.len() == 1
}

pub open spec fn mc_validated<V>(rf: RiskFactors<V>) -> MonteCarloRiskFactors<V> {
    MonteCarloRiskFactors {
        price_risk_factor: rf.price_sensitivities@[0],
        volatility_risk_factor: rf.volatility_sensitivities@[0],
        discount_factor: rf.discount_factors@[0],
    }
}

/// `e` is the cardinality error of the first family, in the order price,
/// volatility, discount, that does not hold exactly one factor.
pub open spec fn mc_validation_error<V>(rf: RiskFactors<V>, e: PricerError) -> bool {
    if rf.price_sensitivities@.len() != 1 {
        is_cardinality_error(e, rf.price_sensitivities@.len())
    } else if rf.volatility_sensitivities@.len() != 1 {
        is_cardinality_error(e, rf.volatility_sensitivities@.len())
    } else {
        is_cardinality_error(e, rf.discount_factors@.len())
    }
}

/// The price and volatility factors of `m` carry the option's `symbol`.
pub open spec fn mc_sensitive_to<V>(symbol: Symbol, m: MonteCarloRiskFactors<V>) -> bool {
    &&& m.price_risk_factor.spec_id().id@ == symbol.id@
    &&& m.volatility_risk_factor.spec_id().id@ == symbol.id@
}

pub open spec fn mc_sensitivity_error<V>(
    symbol: Symbol,
    m: MonteCarloRiskFactors<V>,
    e: PricerError,
) -> bool {
    if m.price_risk_factor.spec_id().id@ != symbol.id@ {
        is_insensitive_error(e, m.price_risk_factor.spec_id(), symbol)
    } else {
        is_insensitive_error(e, m.volatility_risk_factor.spec_id(), symbol)
    }
}

pub open spec fn mc_accepts<V>(symbol: Symbol, rf: RiskFactors<V>) -> bool {
    mc_families_valid(rf) && mc_sensitive_to(symbol, mc_validated(rf))
}

impl<V> MonteCarloRiskFactors<V> {
    /// Takes the one factor of each family that the engine reads out of a
    /// caller's set; dividends are not read.
    pub fn try_from(risk_factors: RiskFactors<V>) -> (r: PricerResult<MonteCarloRiskFactors<V>>)
        ensures
            r is Ok <==> mc_families_valid(risk_factors),
            r matches Ok(m) ==> m == mc_validated(risk_factors),
            r matches Err(e) ==> mc_validation_error(risk_factors, e),
    {
        let RiskFactors { price_sensitivities, volatility_sensitivities, discount_factors, .. } =
            risk_factors;
        let price_risk_factor = match get_first_and_ensure_one(price_sensitivities) {
            Ok(rf) => rf,
            Err(e) => return Err(e),
        };
        let volatility_risk_factor = match get_first_and_ensure_one(volatility_sensitivities) {
            Ok(rf) => rf,
            Err(e) => return Err(e),
        };
        let discount_factor = match get_first_and_ensure_one(discount_factors) {
            Ok(rf) => rf,
            Err(e) => return Err(e),
        };
        Ok(MonteCarloRiskFactors { price_risk_factor, volatility_risk_factor, discount_factor })
    }

    /// Checks that the price and volatility were observed on the option's own `symbol`.
    pub fn is_sensitive_to(&self, symbol: &Symbol) -> (r: PricerResult<()>)
        ensures
            r is Ok <==> mc_sensitive_to(*symbol, *self),
            r matches Err(e) ==> mc_sensitivity_error(*symbol, *self, e),
    {
        match check_symbols(self.price_risk_factor.id(), symbol) {
            Ok(()) => {},
            Err(e) => return Err(e),
        }
        check_symbols(self.volatility_risk_factor.id(), symbol)
    }
}

/// The caller's set for a Monte-Carlo valuation of an option on `symbol`: one
/// price tick, one implied volatility, one historic return, no dividend.
pub fn get_monte_carlo_risk_factors<V>(
    symbol: &Symbol,
    price: V,
    volatility: V,
    historic_return: V,
) -> (r: RiskFactors<V>)
    ensures
        r.price_sensitivities@ == seq![Price::PriceTick(PriceTick { symbol: *symbol, price })],
        r.volatility_sensitivities@ == seq![
            Volatility::ImpliedVolatility(ImpliedVolatility { symbol: *symbol, volatility }),
        ],
        r.discount_factors@ == seq![
            DiscountFactor::HistoricReturn(HistoricReturn { symbol: *symbol, historic_return }),
        ],
        r.dividend_sensitivities@.len() == 0,
{
    RiskFactors {
        price_sensitivities: vec![Price::PriceTick(PriceTick::new(symbol.clone(), price))],
        volatility_sensitivities: vec![
            Volatility::ImpliedVolatility(ImpliedVolatility::new(symbol.clone(), volatility)),
        ],
        discount_factors: vec![
            DiscountFactor::HistoricReturn(HistoricReturn::new(symbol.clone(), historic_return)),
        ],
        dividend_sensitivities: Vec::new(),
    }
}

/// The inputs of one Monte-Carlo valuation: elapsed time to expiry in years
/// and a private copy of the validated risk factors.
#[derive(Clone)]
pub struct MonteCarloInputs<V> {
    pub delta_t: V,
    pub risk_factors: MonteCarloRiskFactors<V>,
}

impl<V> MonteCarloInputs<V> {
    pub fn gather(delta_t: V, risk_factors: MonteCarloRiskFactors<V>) -> (r: MonteCarloInputs<V>)
        ensures
            r == (MonteCarloInputs { delta_t, risk_factors }),
    {
        MonteCarloInputs { delta_t, risk_factors }
    }
}

/// The inputs after applying `shock` to `before`: a time shock moves the
/// elapsed time and nothing else; a price, volatility or rate shock moves its
/// factor as that shock's own application says and leaves the rest as it was.
pub open spec fn mc_shocked<V: Copy, A: ShockArithmetic<V>>(
    arithmetic: A,
    before: MonteCarloInputs<V>,
    shock: Shock<V>,
) -> MonteCarloInputs<V> {
    let rf = before.risk_factors;
    match shock {
        Shock::TimeShock(s) => MonteCarloInputs {
            delta_t: s.size.spec_apply(arithmetic, before.delta_t),
            risk_factors: rf,
        },
        Shock::PriceShock(s) => MonteCarloInputs {
            delta_t: before.delta_t,
            risk_factors: MonteCarloRiskFactors {
                price_risk_factor: s.shocked(arithmetic, rf.price_risk_factor),
                volatility_risk_factor: rf.volatility_risk_factor,
                discount_factor: rf.discount_factor,
            },
        },
        Shock::VolatilityShock(s) => MonteCarloInputs {
            delta_t: before.delta_t,
            risk_factors: MonteCarloRiskFactors {
                price_risk_factor: rf.price_risk_factor,
                volatility_risk_factor: s.shocked(arithmetic, rf.volatility_risk_factor),
                discount_factor: rf.discount_factor,
            },
        },
        Shock::InterestRateShock(s) => MonteCarloInputs {
            delta_t: before.delta_t,
            risk_factors: MonteCarloRiskFactors {
                price_risk_factor: rf.price_risk_factor,
                volatility_risk_factor: rf.volatility_risk_factor,
                discount_factor: s.shocked(arithmetic, rf.discount_factor),
            },
        },
    }
}

/// The inputs after applying the shocks of `scenario` one after the other,
/// left to right, each to the state that the previous ones left.
pub open spec fn mc_scenario_applied<V: Copy, A: ShockArithmetic<V>>(
    arithmetic: A,
    before: MonteCarloInputs<V>,
    scenario: Seq<Shock<V>>,
) -> MonteCarloInputs<V>
    decreases scenario.len(),
{
    if scenario.len() == 0 {
        before
    } else {
        mc_shocked(
            arithmetic,
            mc_scenario_applied(arithmetic, before, scenario.drop_last()),
            scenario.last(),
        )
    }
}

impl<V: Copy, A: ShockArithmetic<V>> ApplyShock<MonteCarloInputs<V>, V, A> for Shock<V> {
    open spec fn shocked(
        &self,
        arithmetic: A,
        before: MonteCarloInputs<V>,
    ) -> MonteCarloInputs<V> {
        mc_shocked(arithmetic, before, *self)
    }

    fn apply(&self, applicant: &mut MonteCarloInputs<V>, arithmetic: &A) {
        match self {
            Shock::TimeShock(shock) => {
                applicant.delta_t = shock.size.apply_to(arithmetic, applicant.delta_t);
            },
            Shock::PriceShock(shock) => {
                shock.apply(&mut applicant.risk_factors.price_risk_factor, arithmetic);
            },
            Shock::VolatilityShock(shock) => {
                shock.apply(&mut applicant.risk_factors.volatility_risk_factor, arithmetic);
            },
            Shock::InterestRateShock(shock) => {
                shock.apply(&mut applicant.risk_factors.discount_factor, arithmetic);
            },
        }
    }
}

impl<V: Copy, A: ShockArithmetic<V>> ApplyShock<MonteCarloInputs<V>, V, A> for Vec<Shock<V>> {
    open spec fn shocked(
        &self,
        arithmetic: A,
        before: MonteCarloInputs<V>,
    ) -> MonteCarloInputs<V> {
        mc_scenario_applied(arithmetic, before, self@)
    }

    fn apply(&self, applicant: &mut MonteCarloInputs<V>, arithmetic: &A) {
        let ghost start = *applicant;
        let mut k: usize = 0;
        assert(self@.subrange(0, 0) =~= Seq::<Shock<V>>::empty());
        while k < self.len()
            invariant
                k <= self@.len(),
                *applicant == mc_scenario_applied(*arithmetic, start, self@.subrange(0, k as int)),
            decreases self@.len() - k,
        {
            self[k].apply(applicant, arithmetic);
            assert(self@.subrange(0, k + 1).drop_last() =~= self@.subrange(0, k as int));
            assert(self@.subrange(0, k + 1).last() == self@[k as int]);
            k = k + 1;
        }
        assert(self@.subrange(0, self@.len() as int) =~= self@);
    }
}

/// Validates a caller's set for an option on `symbol` and gathers the inputs
/// of one simulation. Nothing is computed from a set that fails validation.
pub fn prepare_monte_carlo<V>(symbol: &Symbol, risk_factors: RiskFactors<V>, delta_t: V) -> (r:
    PricerResult<MonteCarloInputs<V>>)
    ensures
        r is Ok <==> mc_accepts(*symbol, risk_factors),
        r matches Ok(inputs) ==> inputs == (MonteCarloInputs {
            delta_t,
            risk_factors: mc_validated(risk_factors),
        }),
        r matches Err(e) ==> if mc_families_valid(risk_factors) {
            mc_sensitivity_error(*symbol, mc_validated(risk_factors), e)
        } else {
            mc_validation_error(risk_factors, e)
        },
{
    let validated = match MonteCarloRiskFactors::try_from(risk_factors) {
        Ok(m) => m,
        Err(e) => return Err(e),
    };
    match validated.is_sensitive_to(symbol) {
        Ok(()) => {},
        Err(e) => return Err(e),
    }
    Ok(MonteCarloInputs::gather(delta_t, validated))
}

} // verus!

verus! {

/// A caller's set whose price family does not hold exactly one factor is
/// refused by the Monte-Carlo engine too, with the cardinality error.
pub proof fn lemma_mc_price_cardinality<V>(symbol: Symbol, rf: RiskFactors<V>, e: PricerError)
    requires
        rf.price_sensitivities@.len() != 1,
    ensures
        !mc_families_valid(rf),
        !mc_accepts(symbol, rf),
        mc_validation_error(rf, e) ==> is_cardinality_error(e, rf.price_sensitivities@.len()),
{
}

/// A single price factor on another symbol than the option is refused.
pub proof fn lemma_mc_symbol_mismatch<V>(symbol: Symbol, rf: RiskFactors<V>, e: PricerError)
    requires
        mc_families_valid(rf),
        rf.price_sensitivities@[0].spec_id().id@ != symbol.id@,
    ensures
        !mc_accepts(symbol, rf),
        mc_sensitivity_error(symbol, mc_validated(rf), e) ==> is_insensitive_error(
            e,
            rf.price_sensitivities@[0].spec_id(),
            symbol,
        ),
{
}

/// The set built for a Monte-Carlo valuation of an option on `symbol` is accepted.
pub proof fn lemma_mc_built_set_accepted<V>(
    symbol: Symbol,
    price: V,
    volatility: V,
    historic_return: V,
    rf: RiskFactors<V>,
)
    requires
        rf.price_sensitivities@ == seq![Price::PriceTick(PriceTick { symbol, price })],
        rf.volatility_sensitivities@ == seq![
            Volatility::ImpliedVolatility(ImpliedVolatility { symbol, volatility }),
        ],
        rf.discount_factors@ == seq![
            DiscountFactor::HistoricReturn(HistoricReturn { symbol, historic_return }),
        ],
    ensures
        mc_accepts(symbol, rf),
{
}

/// Applying `first` and then `second` is applying their concatenation: a
/// scenario is its shocks applied in order, each exactly once.
pub proof fn lemma_mc_scenario_concat<V: Copy, A: ShockArithmetic<V>>(
    arithmetic: A,
    before: MonteCarloInputs<V>,
    first: Seq<Shock<V>>,
    second: Seq<Shock<V>>,
)
    ensures
        mc_scenario_applied(arithmetic, before, first + second) == mc_scenario_applied(
            arithmetic,
            mc_scenario_applied(arithmetic, before, first),
            second,
        ),
    decreases second.len(),
{
    if second.len() == 0 {
        assert(first + second =~= first);
    } else {
        lemma_mc_scenario_concat(arithmetic, before, first, second.drop_last());
        assert((first + second).drop_last() =~= first + second.drop_last());
        assert((first + second).last() == second.last());
    }
}

/// Two bundles gathered independently from equal caller's sets are equal,
/// and applying one scenario to each gives the same shocked state; a scenario
/// without shocks leaves the gathered inputs as they are. The caller's set
/// itself is never shocked: validation takes a copy of its factors.
pub proof fn lemma_mc_scenario_deterministic<V: Copy, A: ShockArithmetic<V>>(
    symbol: Symbol,
    rf1: RiskFactors<V>,
    rf2: RiskFactors<V>,
    delta_t: V,
    scenario: Seq<Shock<V>>,
    arithmetic: A,
    first: MonteCarloInputs<V>,
    second: MonteCarloInputs<V>,
)
    requires
        rf1 == rf2,
        mc_accepts(symbol, rf1),
        first == (MonteCarloInputs { delta_t, risk_factors: mc_validated(rf1) }),
        second == (MonteCarloInputs { delta_t, risk_factors: mc_validated(rf2) }),
    ensures
        first == second,
        mc_scenario_applied(arithmetic, first, scenario) == mc_scenario_applied(
            arithmetic,
            second,
            scenario,
        ),
        mc_scenario_applied(arithmetic, first, Seq::<Shock<V>>::empty()) == first,
{
}

} // verus!
