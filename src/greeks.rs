use vstd::prelude::*;

use crate::result::{PricerError, PricerResult, base_pricing_err, shocked_pricing_err};
use crate::risk_factors::discount::DiscountFactor;
use crate::risk_factors::{IdentifiableRiskFactor, RiskFactors};
use crate::shock::{
    AbsoluteShock, AbsoluteTimeShock, InterestRateShock, PriceShock, RelativeShock,
    RelativeShockType, Scenario, Shock, ShockDirection, ShockSize, TimeShock, TimeShockSize,
    VolatilityShock, absolute_shock, absolute_time_shock, interest_rate_shock, price_shock,
    relative_percentage_shock, time_shock, volatility_shock,
};

verus! {

/// Number of seconds in the calendar day by which theta moves elapsed time.
pub const SECONDS_IN_DAY: i64 = 86_400;

/// The delta bump: each price factor of `rf` moved up by the absolute `size`.
pub fn delta_scenario<V: Copy>(rf: &RiskFactors<V>, size: V) -> (r: Scenario<V>)
    ensures
        r@.len() == rf.price_sensitivities@.len(),
        forall|i: int|
            0 <= i < r@.len() ==> #[trigger] r@[i] == Shock::PriceShock(
                PriceShock {
                    risk_factor_id: rf.price_sensitivities@[i].spec_id(),
                    size: ShockSize::AbsoluteShock(
                        AbsoluteShock { size, direction: ShockDirection::Up },
                    ),
                },
            ),
{
    let mut scenario: Scenario<V> = Vec::new();
    let mut i: usize = 0;
    while i < rf.price_sensitivities.len()
        invariant
            i <= rf.price_sensitivities@.len(),
            scenario@.len() == i,
            forall|t: int|
                0 <= t < i ==> #[trigger] scenario@[t] == Shock::PriceShock(
                    PriceShock {
                        risk_factor_id: rf.price_sensitivities@[t].spec_id(),
                        size: ShockSize::AbsoluteShock(
                            AbsoluteShock { size, direction: ShockDirection::Up },
                        ),
                    },
                ),
        decreases rf.price_sensitivities@.len() - i,
    {
        let id = rf.price_sensitivities[i].id().clone();
        scenario.push(price_shock(id, absolute_shock(size, ShockDirection::Up)));
        i = i + 1;
    }
    scenario
}

/// The discount factors of `rf` that are risk-free rates, in order.
pub open spec fn risk_free_rates<V>(factors: Seq<DiscountFactor<V>>) -> Seq<DiscountFactor<V>> {
    factors.filter(|d: DiscountFactor<V>| d is RiskFreeRate)
}

/// The rho bump: each risk-free rate of `rf` moved up by the absolute `size`;
/// historic returns are not bumped.
pub fn rho_scenario<V: Copy>(rf: &RiskFactors<V>, size: V) -> (r: Scenario<V>)
    ensures
        r@.len() == risk_free_rates(rf.discount_factors@).len(),
        forall|i: int|
            0 <= i < r@.len() ==> #[trigger] r@[i] == Shock::InterestRateShock(
                InterestRateShock {
                    risk_factor_id: risk_free_rates(rf.discount_factors@)[i].spec_id(),
                    size: ShockSize::AbsoluteShock(
                        AbsoluteShock { size, direction: ShockDirection::Up },
                    ),
                },
            ),
{
    let mut scenario: Scenario<V> = Vec::new();
    let mut i: usize = 0;
    while i < rf.discount_factors.len()
        invariant
            i <= rf.discount_factors@.len(),
            scenario@.len() == risk_free_rates(rf.discount_factors@.subrange(0, i as int)).len(),
            forall|t: int|
                0 <= t < scenario@.len() ==> #[trigger] scenario@[t] == Shock::InterestRateShock(
                    InterestRateShock {
                        risk_factor_id: risk_free_rates(
                            rf.discount_factors@.subrange(0, i as int),
                        )[t].spec_id(),
                        size: ShockSize::AbsoluteShock(
                            AbsoluteShock { size, direction: ShockDirection::Up },
                        ),
                    },
                ),
        decreases rf.discount_factors@.len() - i,
    {
        let ghost prefix = rf.discount_factors@.subrange(0, i as int);
        let ghost next = rf.discount_factors@.subrange(0, i + 1);
        assert(next == prefix.push(rf.discount_factors@[i as int]));
        proof {
            reveal(Seq::filter);
            assert(next.drop_last() == prefix);
        }
        match &rf.discount_factors[i] {
            DiscountFactor::RiskFreeRate(rfr) => {
                let id = rfr.symbol.clone();
                scenario.push(interest_rate_shock(id, absolute_shock(size, ShockDirection::Up)));
            },
            _ => {},
        }
        i = i + 1;
    }
    assert(rf.discount_factors@.subrange(0, rf.discount_factors@.len() as int)
        == rf.discount_factors@);
    scenario
}

/// The theta bump: elapsed time shortened by one calendar day.
pub fn theta_scenario<V>() -> (r: Scenario<V>)
    ensures
        r@ == seq![
            Shock::TimeShock(
                TimeShock {
                    size: TimeShockSize::<V>::AbsoluteShock(
                        AbsoluteTimeShock { seconds: SECONDS_IN_DAY, direction: ShockDirection::Down },
                    ),
                },
            ),
        ],
{
    vec![time_shock(absolute_time_shock(SECONDS_IN_DAY, ShockDirection::Down))]
}

/// The vega bump: each volatility factor of `rf` moved up by `percentage_points`
/// per cent of its own value.
pub fn vega_scenario<V: Copy>(rf: &RiskFactors<V>, percentage_points: V) -> (r: Scenario<V>)
    ensures
        r@.len() == rf.volatility_sensitivities@.len(),
        forall|i: int|
            0 <= i < r@.len() ==> #[trigger] r@[i] == Shock::VolatilityShock(
                VolatilityShock {
                    risk_factor_id: rf.volatility_sensitivities@[i].spec_id(),
                    size: ShockSize::RelativeShock(
                        RelativeShock {
                            size: percentage_points,
                            shock_type: RelativeShockType::Percentage,
                            direction: ShockDirection::Up,
                        },
                    ),
                },
            ),
{
    let mut scenario: Scenario<V> = Vec::new();
    let mut i: usize = 0;
    while i < rf.volatility_sensitivities.len()
        invariant
            i <= rf.volatility_sensitivities@.len(),
            scenario@.len() == i,
            forall|t: int|
                0 <= t < i ==> #[trigger] scenario@[t] == Shock::VolatilityShock(
                    VolatilityShock {
                        risk_factor_id: rf.volatility_sensitivities@[t].spec_id(),
                        size: ShockSize::RelativeShock(
                            RelativeShock {
                                size: percentage_points,
                                shock_type: RelativeShockType::Percentage,
                                direction: ShockDirection::Up,
                            },
                        ),
                    },
                ),
        decreases rf.volatility_sensitivities@.len() - i,
    {
        let id = rf.volatility_sensitivities[i].id().clone();
        scenario.push(
            volatility_shock(id, relative_percentage_shock(percentage_points, ShockDirection::Up)),
        );
        i = i + 1;
    }
    scenario
}

/// Combines the two valuations of a bump-and-reprice: both values when both
/// succeeded, else the failure of the unshocked valuation first, wrapped so
/// that it says which of the two failed.
pub fn bump_and_reprice_values<V>(base: PricerResult<V>, shocked: PricerResult<V>) -> (r:
    PricerResult<(V, V)>)
    ensures
        r is Ok <==> base is Ok && shocked is Ok,
        r matches Ok(pair) ==> base == Ok::<V, PricerError>(pair.0) && shocked == Ok::<
            V,
            PricerError,
        >(pair.1),
        base matches Err(e) ==> (r matches Err(w) && w.code == crate::result::BASE_PRICING_CODE
            && w.message@ == "Failed base pricing: "@ + e.spec_describe()),
        base is Ok ==> (shocked matches Err(e) ==> (r matches Err(w) && w.code
            == crate::result::SHOCKED_PRICING_CODE && w.message@ == "Failed shock pricing: "@
            + e.spec_describe())),
{
    match base {
        Err(e) => Err(base_pricing_err(&e)),
        Ok(b) => match shocked {
            Err(e) => Err(shocked_pricing_err(&e)),
            Ok(s) => Ok((b, s)),
        },
    }
}

} // verus!
