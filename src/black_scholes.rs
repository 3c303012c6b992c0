use vstd::prelude::*;

use crate::result::{PricerError, PricerResult, UNSUPPORTED_CODE, dividend_schedule_err, dividend_schedule_message};
use crate::risk_factors::discount::{DiscountFactor, InterestRate};
use crate::risk_factors::dividend::{AnnualisedDividendRate, Dividend};
use crate::risk_factors::price::{Price, PriceTick};
use crate::risk_factors::volatility::{ImpliedVolatility, Volatility};
use crate::risk_factors::{IdentifiableRiskFactor, RiskFactors};
use crate::shock::{
    ApplyShock, Shock, ShockArithmetic,
};
use crate::symbol::Symbol;
use crate::validation::{
    check_symbols, get_first_and_ensure_one, is_cardinality_error, is_insensitive_error,
};

verus! {

/// The validated risk factors of a Black-Scholes valuation: one of each family.
#[derive(Clone)]
pub struct BlackScholesRiskFactors<V> {
    pub price_risk_factor: Price<V>,
    pub volatility_risk_factor: Volatility<V>,
    pub discount_factor: DiscountFactor<V>,
    pub dividend_factor: AnnualisedDividendRate<V>,
}

/// Each family of `rf` holds exactly one factor and the dividend is an annualised rate.
pub open spec fn bs_families_valid<V>(rf: RiskFactors<V>) -> bool {
    &&& rf.price_sensitivities@.len() == 1
    &&& rf.volatility_sensitivities@.len() == 1
    &&& rf.discount_factors@.len() == 1
    &&& rf.dividend_sensitivities@.len() == 1
    &&& rf.dividend_sensitivities@[0] is AnnualisedRate
}

/// The bundle that validation takes out of `rf`, when `bs_families_valid(rf)`.
pub open spec fn bs_validated<V>(rf: RiskFactors<V>) -> BlackScholesRiskFactors<V> {
    BlackScholesRiskFactors {
        price_risk_factor: rf.price_sensitivities@[0],
        volatility_risk_factor: rf.volatility_sensitivities@[0],
        discount_factor: rf.discount_factors@[0],
        dividend_factor: rf.dividend_sensitivities@[0]->AnnualisedRate_0,
    }
}

/// `e` is the error that validation of `rf` reports: the first family, in the
/// order price, volatility, discount, dividend, that does not hold exactly one
/// factor, else the unsupported dividend schedule.
pub open spec fn bs_validation_error<V>(rf: RiskFactors<V>, e: PricerError) -> bool {
    if rf.price_sensitivities@.len() != 1 {
        is_cardinality_error(e, rf.price_sensitivities@.len())
    } else if rf.volatility_sensitivities@.len() != 1 {
        is_cardinality_error(e, rf.volatility_sensitivities@.len())
    } else if rf.discount_factors@.len() != 1 {
        is_cardinality_error(e, rf.discount_factors@.len())
    } else if rf.dividend_sensitivities@.len() != 1 {
        is_cardinality_error(e, rf.dividend_sensitivities@.len())
    } else {
        e.code == UNSUPPORTED_CODE && e.message@ == dividend_schedule_message()
    }
}

/// The factors of `b` that name the instrument all carry the option's `symbol`
/// (the discount factor names the rate's own curve and is not compared).
pub open spec fn bs_sensitive_to<V>(symbol: Symbol, b: BlackScholesRiskFactors<V>) -> bool {
    &&& b.price_risk_factor.spec_id().id@ == symbol.id@
    &&& b.volatility_risk_factor.spec_id().id@ == symbol.id@
    &&& b.dividend_factor.symbol.id@ == symbol.id@
}

/// `e` is the error of the sensitivity check of `b` against `symbol`: it names
/// the first factor, in the order price, volatility, dividend, on another symbol.
pub open spec fn bs_sensitivity_error<V>(
    symbol: Symbol,
    b: BlackScholesRiskFactors<V>,
    e: PricerError,
) -> bool {
    if b.price_risk_factor.spec_id().id@ != symbol.id@ {
        is_insensitive_error(e, b.price_risk_factor.spec_id(), symbol)
    } else if b.volatility_risk_factor.spec_id().id@ != symbol.id@ {
        is_insensitive_error(e, b.volatility_risk_factor.spec_id(), symbol)
    } else {
        is_insensitive_error(e, b.dividend_factor.symbol, symbol)
    }
}

/// Validation of `rf` succeeds and the validated factors carry `symbol`.
pub open spec fn bs_accepts<V>(symbol: Symbol, rf: RiskFactors<V>) -> bool {
    bs_families_valid(rf) && bs_sensitive_to(symbol, bs_validated(rf))
}

impl<V> BlackScholesRiskFactors<V> {
    /// A bundle of a price tick, an implied volatility and an annualised
    /// dividend rate on `symbol`, and a risk-free rate on `rfr_symbol`.
    pub fn new(
        symbol: Symbol,
        price: V,
        volatility: V,
        risk_free_rate: V,
        rfr_symbol: Symbol,
        dividend_rate: V,
    ) -> (r: BlackScholesRiskFactors<V>)
        ensures
            r.price_risk_factor == Price::PriceTick(PriceTick { symbol, price }),
            r.volatility_risk_factor == Volatility::ImpliedVolatility(
                ImpliedVolatility { symbol, volatility },
            ),
            r.discount_factor == DiscountFactor::RiskFreeRate(
                InterestRate { symbol: rfr_symbol, rate: risk_free_rate },
            ),
            r.dividend_factor == (AnnualisedDividendRate { symbol, rate: dividend_rate }),
    {
        BlackScholesRiskFactors {
            price_risk_factor: Price::PriceTick(PriceTick::new(symbol.clone(), price)),
            volatility_risk_factor: Volatility::ImpliedVolatility(
                ImpliedVolatility::new(symbol.clone(), volatility),
            ),
            discount_factor: DiscountFactor::RiskFreeRate(
                InterestRate::new(rfr_symbol, risk_free_rate),
            ),
            dividend_factor: AnnualisedDividendRate::new(symbol, dividend_rate),
        }
    }

    pub fn price_risk_factor(&self) -> (r: &Symbol)
        ensures
            *r == self.price_risk_factor.spec_id(),
    {
        self.price_risk_factor.id()
    }

    pub fn volatility_risk_factor(&self) -> (r: &Symbol)
        ensures
            *r == self.volatility_risk_factor.spec_id(),
    {
        self.volatility_risk_factor.id()
    }

    pub fn dividend_risk_factor(&self) -> (r: &Symbol)
        ensures
            *r == self.dividend_factor.symbol,
    {
        self.dividend_factor.id()
    }

    /// Takes the one factor of each family out of a caller's set.
    pub fn try_from(risk_factors: RiskFactors<V>) -> (r: PricerResult<BlackScholesRiskFactors<V>>)
        ensures
            r is Ok <==> bs_families_valid(risk_factors),
            r matches Ok(b) ==> b == bs_validated(risk_factors),
            r matches Err(e) ==> bs_validation_error(risk_factors, e),
    {
        let RiskFactors {
            price_sensitivities,
            volatility_sensitivities,
            discount_factors,
            dividend_sensitivities,
        } = risk_factors;
        let price_risk_factor = match get_first_and_ensure_one(price_sensitivities) {
            Ok(rf) => rf,
            Err(e) => return Err(e),
        };
        let volatility_risk_factor = match get_first_and_ensure_one(volatility_sensitivities) {
            Ok(rf) => rf,
            Err(e) => return Err(e),
        };
        let discount_factor = match get_first_and_ensure_one(discount_factors) {
            Ok(rf) => rf,
            Err(e) => return Err(e),
        };
        let dividend_factor = match get_first_and_ensure_one(dividend_sensitivities) {
            Ok(Dividend::AnnualisedRate(adr)) => adr,
            Ok(Dividend::Schedule) => return Err(dividend_schedule_err()),
            Err(e) => return Err(e),
        };
        Ok(BlackScholesRiskFactors {
            price_risk_factor,
            volatility_risk_factor,
            discount_factor,
            dividend_factor,
        })
    }
}

/// Checks that the validated factors were observed on the option's own `symbol`.
pub fn is_sensitive_to_risk_factors<V>(
    symbol: &Symbol,
    risk_factors: &BlackScholesRiskFactors<V>,
) -> (r: PricerResult<()>)
    ensures
        r is Ok <==> bs_sensitive_to(*symbol, *risk_factors),
        r matches Err(e) ==> bs_sensitivity_error(*symbol, *risk_factors, e),
{
    match check_symbols(risk_factors.price_risk_factor(), symbol) {
        Ok(()) => {},
        Err(e) => return Err(e),
    }
    match check_symbols(risk_factors.volatility_risk_factor(), symbol) {
        Ok(()) => {},
        Err(e) => return Err(e),
    }
    check_symbols(risk_factors.dividend_risk_factor(), symbol)
}

/// The caller's set for a Black-Scholes valuation of an option on `symbol`:
/// one price tick, one implied volatility, the given discount factor and one
/// annualised dividend rate.
pub fn get_black_scholes_risk_factors<V>(
    symbol: &Symbol,
    price: V,
    volatility: V,
    dividend_rate: V,
    discount_factor: DiscountFactor<V>,
) -> (r: RiskFactors<V>)
    ensures
        r.price_sensitivities@ == seq![Price::PriceTick(PriceTick { symbol: *symbol, price })],
        r.volatility_sensitivities@ == seq![
            Volatility::ImpliedVolatility(ImpliedVolatility { symbol: *symbol, volatility }),
        ],
        r.discount_factors@ == seq![discount_factor],
        r.dividend_sensitivities@ == seq![
            Dividend::AnnualisedRate(AnnualisedDividendRate { symbol: *symbol, rate: dividend_rate }),
        ],
{
    let price_sensitivities = vec![Price::PriceTick(PriceTick::new(symbol.clone(), price))];
    let volatility_sensitivities = vec![
        Volatility::ImpliedVolatility(ImpliedVolatility::new(symbol.clone(), volatility)),
    ];
    let discount_factors = vec![discount_factor];
    let dividend_sensitivities = vec![
        Dividend::AnnualisedRate(AnnualisedDividendRate::new(symbol.clone(), dividend_rate)),
    ];
    RiskFactors {
        price_sensitivities,
        volatility_sensitivities,
        discount_factors,
        dividend_sensitivities,
    }
}

} // verus!

verus! {

/// The inputs of one Black-Scholes valuation: the elapsed time to expiry in
/// years and a private copy of the validated risk factors. Shocks act on this
/// bundle only, never on the caller's set.
#[derive(Clone)]
pub struct BlackScholesInputs<V> {
    pub delta_t: V,
    pub risk_factors: BlackScholesRiskFactors<V>,
}

impl<V> BlackScholesInputs<V> {
    pub fn gather(delta_t: V, risk_factors: BlackScholesRiskFactors<V>) -> (r: BlackScholesInputs<V>)
        ensures
            r == (BlackScholesInputs { delta_t, risk_factors }),
    {
        BlackScholesInputs { delta_t, risk_factors }
    }
}

/// The inputs after applying `shock` to `before`: a time shock moves the
/// elapsed time and nothing else; a price, volatility or rate shock moves its
/// factor as that shock's own application says and leaves the rest as it was.
pub open spec fn bs_shocked<V: Copy, A: ShockArithmetic<V>>(
    arithmetic: A,
    before: BlackScholesInputs<V>,
    shock: Shock<V>,
) -> BlackScholesInputs<V> {
    let rf = before.risk_factors;
    match shock {
        Shock::TimeShock(s) => BlackScholesInputs {
            delta_t: s.size.spec_apply(arithmetic, before.delta_t),
            risk_factors: rf,
        },
        Shock::PriceShock(s) => BlackScholesInputs {
            delta_t: before.delta_t,
            risk_factors: BlackScholesRiskFactors {
                price_risk_factor: s.shocked(arithmetic, rf.price_risk_factor),
                volatility_risk_factor: rf.volatility_risk_factor,
                discount_factor: rf.discount_factor,
                dividend_factor: rf.dividend_factor,
            },
        },
        Shock::VolatilityShock(s) => BlackScholesInputs {
            delta_t: before.delta_t,
            risk_factors: BlackScholesRiskFactors {
                price_risk_factor: rf.price_risk_factor,
                volatility_risk_factor: s.shocked(arithmetic, rf.volatility_risk_factor),
                discount_factor: rf.discount_factor,
                dividend_factor: rf.dividend_factor,
            },
        },
        Shock::InterestRateShock(s) => BlackScholesInputs {
            delta_t: before.delta_t,
            risk_factors: BlackScholesRiskFactors {
                price_risk_factor: rf.price_risk_factor,
                volatility_risk_factor: rf.volatility_risk_factor,
                discount_factor: s.shocked(arithmetic, rf.discount_factor),
                dividend_factor: rf.dividend_factor,
            },
        },
    }
}

/// The inputs after applying the shocks of `scenario` one after the other,
/// left to right, each to the state that the previous ones left.
pub open spec fn bs_scenario_applied<V: Copy, A: ShockArithmetic<V>>(
    arithmetic: A,
    before: BlackScholesInputs<V>,
    scenario: Seq<Shock<V>>,
) -> BlackScholesInputs<V>
    decreases scenario.len(),
{
    if scenario.len() == 0 {
        before
    } else {
        bs_shocked(
            arithmetic,
            bs_scenario_applied(arithmetic, before, scenario.drop_last()),
            scenario.last(),
        )
    }
}

impl<V: Copy, A: ShockArithmetic<V>> ApplyShock<BlackScholesInputs<V>, V, A> for Shock<V> {
    open spec fn shocked(
        &self,
        arithmetic: A,
        before: BlackScholesInputs<V>,
    ) -> BlackScholesInputs<V> {
        bs_shocked(arithmetic, before, *self)
    }

    fn apply(&self, applicant: &mut BlackScholesInputs<V>, arithmetic: &A) {
        match self {
            Shock::TimeShock(shock) => {
                applicant.delta_t = shock.size.apply_to(arithmetic, applicant.delta_t);
            },
            Shock::PriceShock(shock) => {
                shock.apply(&mut applicant.risk_factors.price_risk_factor, arithmetic);
            },
            Shock::VolatilityShock(shock) => {
                shock.apply(&mut applicant.risk_factors.volatility_risk_factor, arithmetic);
            },
            Shock::InterestRateShock(shock) => {
                shock.apply(&mut applicant.risk_factors.discount_factor, arithmetic);
            },
        }
    }
}

impl<V: Copy, A: ShockArithmetic<V>> ApplyShock<BlackScholesInputs<V>, V, A> for Vec<Shock<V>> {
    open spec fn shocked(
        &self,
        arithmetic: A,
        before: BlackScholesInputs<V>,
    ) -> BlackScholesInputs<V> {
        bs_scenario_applied(arithmetic, before, self@)
    }

    fn apply(&self, applicant: &mut BlackScholesInputs<V>, arithmetic: &A) {
        let ghost start = *applicant;
        let mut k: usize = 0;
        assert(self@.subrange(0, 0) =~= Seq::<Shock<V>>::empty());
        while k < self.len()
            invariant
                k <= self@.len(),
                *applicant == bs_scenario_applied(*arithmetic, start, self@.subrange(0, k as int)),
            decreases self@.len() - k,
        {
            self[k].apply(applicant, arithmetic);
            assert(self@.subrange(0, k + 1).drop_last() =~= self@.subrange(0, k as int));
            assert(self@.subrange(0, k + 1).last() == self@[k as int]);
            k = k + 1;
        }
        assert(self@.subrange(0, self@.len() as int) =~= self@);
    }
}

/// Validates a caller's set for an option on `symbol` and gathers the inputs
/// of one valuation. Nothing is computed from a set that fails validation.
pub fn prepare_black_scholes<V>(symbol: &Symbol, risk_factors: RiskFactors<V>, delta_t: V) -> (r:
    PricerResult<BlackScholesInputs<V>>)
    ensures
        r is Ok <==> bs_accepts(*symbol, risk_factors),
        r matches Ok(inputs) ==> inputs == (BlackScholesInputs {
            delta_t,
            risk_factors: bs_validated(risk_factors),
        }),
        r matches Err(e) ==> if bs_families_valid(risk_factors) {
            bs_sensitivity_error(*symbol, bs_validated(risk_factors), e)
        } else {
            bs_validation_error(risk_factors, e)
        },
{
    let validated = match BlackScholesRiskFactors::try_from(risk_factors) {
        Ok(b) => b,
        Err(e) => return Err(e),
    };
    match is_sensitive_to_risk_factors(symbol, &validated) {
        Ok(()) => {},
        Err(e) => return Err(e),
    }
    Ok(BlackScholesInputs::gather(delta_t, validated))
}

} // verus!

verus! {

/// A caller's set whose price family does not hold exactly one factor is
/// refused, with the cardinality error that carries the number of factors
/// found: no factor is picked silently.
pub proof fn lemma_bs_price_cardinality<V>(symbol: Symbol, rf: RiskFactors<V>, e: PricerError)
    requires
        rf.price_sensitivities@.len() != 1,
    ensures
        !bs_families_valid(rf),
        !bs_accepts(symbol, rf),
        bs_validation_error(rf, e) ==> is_cardinality_error(e, rf.price_sensitivities@.len()),
{
}

/// A caller's set whose single price factor is on another symbol than the
/// option is refused by the sensitivity check, with the error that names it.
pub proof fn lemma_bs_symbol_mismatch<V>(symbol: Symbol, rf: RiskFactors<V>, e: PricerError)
    requires
        bs_families_valid(rf),
        rf.price_sensitivities@[0].spec_id().id@ != symbol.id@,
    ensures
        !bs_accepts(symbol, rf),
        bs_sensitivity_error(symbol, bs_validated(rf), e) ==> is_insensitive_error(
            e,
            rf.price_sensitivities@[0].spec_id(),
            symbol,
        ),
{
}

/// The set built for an option on `symbol` passes validation and the
/// sensitivity check, and validation hands back the very factors it holds.
pub proof fn lemma_bs_built_set_accepted<V>(
    symbol: Symbol,
    price: V,
    volatility: V,
    dividend_rate: V,
    discount_factor: DiscountFactor<V>,
    rf: RiskFactors<V>,
)
    requires
        rf.price_sensitivities@ == seq![Price::PriceTick(PriceTick { symbol, price })],
        rf.volatility_sensitivities@ == seq![
            Volatility::ImpliedVolatility(ImpliedVolatility { symbol, volatility }),
        ],
        rf.discount_factors@ == seq![discount_factor],
        rf.dividend_sensitivities@ == seq![
            Dividend::AnnualisedRate(AnnualisedDividendRate { symbol, rate: dividend_rate }),
        ],
    ensures
        bs_accepts(symbol, rf),
        bs_validated(rf) == (BlackScholesRiskFactors {
            price_risk_factor: Price::PriceTick(PriceTick { symbol, price }),
            volatility_risk_factor: Volatility::ImpliedVolatility(
                ImpliedVolatility { symbol, volatility },
            ),
            discount_factor,
            dividend_factor: AnnualisedDividendRate { symbol, rate: dividend_rate },
        }),
{
}

/// Applying `first` and then `second` is applying their concatenation: a
/// scenario is its shocks applied in order, each exactly once.
pub proof fn lemma_bs_scenario_concat<V: Copy, A: ShockArithmetic<V>>(
    arithmetic: A,
    before: BlackScholesInputs<V>,
    first: Seq<Shock<V>>,
    second: Seq<Shock<V>>,
)
    ensures
        bs_scenario_applied(arithmetic, before, first + second) == bs_scenario_applied(
            arithmetic,
            bs_scenario_applied(arithmetic, before, first),
            second,
        ),
    decreases second.len(),
{
    if second.len() == 0 {
        assert(first + second =~= first);
    } else {
        lemma_bs_scenario_concat(arithmetic, before, first, second.drop_last());
        assert((first + second).drop_last() =~= first + second.drop_last());
        assert((first + second).last() == second.last());
    }
}

/// Two bundles gathered independently from equal caller's sets are equal,
/// and applying one scenario to each gives the same shocked state; a scenario
/// without shocks leaves the gathered inputs as they are. The caller's set
/// itself is never shocked: validation takes a copy of its factors.
pub proof fn lemma_bs_scenario_deterministic<V: Copy, A: ShockArithmetic<V>>(
    symbol: Symbol,
    rf1: RiskFactors<V>,
    rf2: RiskFactors<V>,
    delta_t: V,
    scenario: Seq<Shock<V>>,
    arithmetic: A,
    first: BlackScholesInputs<V>,
    second: BlackScholesInputs<V>,
)
    requires
        rf1 == rf2,
        bs_accepts(symbol, rf1),
        first == (BlackScholesInputs { delta_t, risk_factors: bs_validated(rf1) }),
        second == (BlackScholesInputs { delta_t, risk_factors: bs_validated(rf2) }),
    ensures
        first == second,
        bs_scenario_applied(arithmetic, first, scenario) == bs_scenario_applied(
            arithmetic,
            second,
            scenario,
        ),
        bs_scenario_applied(arithmetic, first, Seq::<Shock<V>>::empty()) == first,
{
}

} // verus!
