use vstd::prelude::*;

use crate::risk_factors::discount::{DiscountFactor, InterestRate};
use crate::risk_factors::price::{Price, PriceTick};
use crate::risk_factors::volatility::{ImpliedVolatility, Volatility};
use crate::risk_factors::IdentifiableRiskFactor;
use crate::symbol::Symbol;

verus! {

/// Number of seconds in the 365-day year in which elapsed time is measured.
pub const SECONDS_IN_YEAR: i64 = 31_536_000;

/// Whether a shock adds its amount to the target or subtracts it.
#[derive(Clone, Copy, Debug, PartialEq, Eq, Structural)]
pub enum ShockDirection {
    Up,
    Down,
}

/// The unit in which the size of a relative shock is given.
#[derive(Clone, Copy, Debug, PartialEq, Eq, Structural)]
pub enum RelativeShockType {
    BasisPoint,
    Decimal,
    Percentage,
}

impl RelativeShockType {
    /// The number of units of this type in one whole: the size of a relative
    /// shock is divided by it before it scales the target.
    pub fn units_per_whole(&self) -> (r: i64)
        ensures
            r == spec_units_per_whole(*self),
    {
        match self {
            RelativeShockType::BasisPoint => 10_000,
            RelativeShockType::Decimal => 1,
            RelativeShockType::Percentage => 100,
        }
    }
}

/// The arithmetic of the scalar that risk factors hold, as far as shocks need it.
///
/// Each spec function names what the matching method returns. Implementations
/// of this trait are supplied by callers (for floating-point scalars, outside
/// the verified code) and are not checked: what is proved about shocks holds
/// for any implementation whose methods are deterministic functions of their
/// arguments, as floating-point addition, subtraction, multiplication and
/// division are. An implementation written in ordinary Rust defines each
/// `spec_*` function as the very computation of its method, and the method as
/// a call of it.
pub trait ShockArithmetic<V> {
    spec fn spec_plus(&self, a: V, b: V) -> V;

    spec fn spec_minus(&self, a: V, b: V) -> V;

    spec fn spec_times(&self, a: V, b: V) -> V;

    spec fn spec_quotient(&self, numerator: i64, denominator: i64) -> V;

    /// `a + b`.
    fn plus(&self, a: V, b: V) -> (r: V)
        ensures
            r == self.spec_plus(a, b),
    ;

    /// `a - b`.
    fn minus(&self, a: V, b: V) -> (r: V)
        ensures
            r == self.spec_minus(a, b),
    ;

    /// `a × b`.
    fn times(&self, a: V, b: V) -> (r: V)
        ensures
            r == self.spec_times(a, b),
    ;

    /// The scalar nearest to `numerator / denominator`.
    fn quotient(&self, numerator: i64, denominator: i64) -> (r: V)
        requires
            denominator > 0,
        ensures
            r == self.spec_quotient(numerator, denominator),
    ;
}

/// `base` plus (up) or minus (down) `amount`.
pub open spec fn spec_shift<V, A: ShockArithmetic<V>>(
    arithmetic: A,
    base: V,
    amount: V,
    direction: ShockDirection,
) -> V {
    match direction {
        ShockDirection::Up => arithmetic.spec_plus(base, amount),
        ShockDirection::Down => arithmetic.spec_minus(base, amount),
    }
}

/// The number of units of a relative shock's type in one whole.
pub open spec fn spec_units_per_whole(t: RelativeShockType) -> i64 {
    match t {
        RelativeShockType::BasisPoint => 10_000i64,
        RelativeShockType::Decimal => 1i64,
        RelativeShockType::Percentage => 100i64,
    }
}

/// Moves `base` by `amount` in `direction`.
pub fn shift<V, A: ShockArithmetic<V>>(
    arithmetic: &A,
    base: V,
    amount: V,
    direction: ShockDirection,
) -> (r: V)
    ensures
        r == spec_shift(*arithmetic, base, amount, direction),
{
    match direction {
        ShockDirection::Up => arithmetic.plus(base, amount),
        ShockDirection::Down => arithmetic.minus(base, amount),
    }
}

/// A shock by a fixed amount.
#[derive(Clone, Copy)]
pub struct AbsoluteShock<V> {
    pub size: V,
    pub direction: ShockDirection,
}

impl<V: Copy> AbsoluteShock<V> {
    pub fn new(size: V, direction: ShockDirection) -> (r: AbsoluteShock<V>)
        ensures
            r == (AbsoluteShock { size, direction }),
    {
        AbsoluteShock { size, direction }
    }

    /// `base` plus (up) or minus (down) the size.
    pub open spec fn spec_apply<A: ShockArithmetic<V>>(&self, arithmetic: A, base: V) -> V {
        spec_shift(arithmetic, base, self.size, self.direction)
    }

    pub fn apply_to<A: ShockArithmetic<V>>(&self, arithmetic: &A, base: V) -> (r: V)
        ensures
            r == self.spec_apply(*arithmetic, base),
    {
        shift(arithmetic, base, self.size, self.direction)
    }
}

/// A shock of elapsed time by a calendar duration, given in whole seconds.
#[derive(Clone, Copy)]
pub struct AbsoluteTimeShock {
    pub seconds: i64,
    pub direction: ShockDirection,
}

impl AbsoluteTimeShock {
    pub fn new(seconds: i64, direction: ShockDirection) -> (r: AbsoluteTimeShock)
        ensures
            r == (AbsoluteTimeShock { seconds, direction }),
    {
        AbsoluteTimeShock { seconds, direction }
    }

    /// `base`, a time in years, moved by the duration converted to years
    /// (`seconds / SECONDS_IN_YEAR`).
    pub open spec fn spec_apply<V, A: ShockArithmetic<V>>(&self, arithmetic: A, base: V) -> V {
        spec_shift(
            arithmetic,
            base,
            arithmetic.spec_quotient(self.seconds, SECONDS_IN_YEAR),
            self.direction,
        )
    }

    pub fn apply_to<V, A: ShockArithmetic<V>>(&self, arithmetic: &A, base: V) -> (r: V)
        ensures
            r == self.spec_apply(*arithmetic, base),
    {
        let years = arithmetic.quotient(self.seconds, SECONDS_IN_YEAR);
        shift(arithmetic, base, years, self.direction)
    }
}

/// A shock by a fraction of the target's own value.
#[derive(Clone, Copy)]
pub struct RelativeShock<V> {
    pub size: V,
    pub shock_type: RelativeShockType,
    pub direction: ShockDirection,
}

impl<V: Copy> RelativeShock<V> {
    pub fn percentage(size: V, direction: ShockDirection) -> (r: RelativeShock<V>)
        ensures
            r == (RelativeShock { size, shock_type: RelativeShockType::Percentage, direction }),
    {
        RelativeShock { size, shock_type: RelativeShockType::Percentage, direction }
    }

    pub fn basis_point(size: V, direction: ShockDirection) -> (r: RelativeShock<V>)
        ensures
            r == (RelativeShock { size, shock_type: RelativeShockType::BasisPoint, direction }),
    {
        RelativeShock { size, shock_type: RelativeShockType::BasisPoint, direction }
    }

    pub fn decimal(size: V, direction: ShockDirection) -> (r: RelativeShock<V>)
        ensures
            r == (RelativeShock { size, shock_type: RelativeShockType::Decimal, direction }),
    {
        RelativeShock { size, shock_type: RelativeShockType::Decimal, direction }
    }

    /// `base` moved by `base × size × scale`, where the scale is one over the
    /// units per whole of the shock's type (0.01, 0.0001 or 1).
    pub open spec fn spec_apply<A: ShockArithmetic<V>>(&self, arithmetic: A, base: V) -> V {
        let scaling = arithmetic.spec_quotient(1, spec_units_per_whole(self.shock_type));
        let amount = arithmetic.spec_times(arithmetic.spec_times(base, self.size), scaling);
        spec_shift(arithmetic, base, amount, self.direction)
    }

    pub fn apply_to<A: ShockArithmetic<V>>(&self, arithmetic: &A, base: V) -> (r: V)
        ensures
            r == self.spec_apply(*arithmetic, base),
    {
        let scaling = arithmetic.quotient(1, self.shock_type.units_per_whole());
        let amount = arithmetic.times(arithmetic.times(base, self.size), scaling);
        shift(arithmetic, base, amount, self.direction)
    }
}

/// The magnitude of a shock on a risk factor.
#[derive(Clone, Copy)]
pub enum ShockSize<V> {
    AbsoluteShock(AbsoluteShock<V>),
    RelativeShock(RelativeShock<V>),
}

impl<V: Copy> ShockSize<V> {
    pub open spec fn spec_apply<A: ShockArithmetic<V>>(&self, arithmetic: A, base: V) -> V {
        match self {
            ShockSize::AbsoluteShock(shock) => shock.spec_apply(arithmetic, base),
            ShockSize::RelativeShock(shock) => shock.spec_apply(arithmetic, base),
        }
    }

    pub fn apply_to<A: ShockArithmetic<V>>(&self, arithmetic: &A, base: V) -> (r: V)
        ensures
            r == self.spec_apply(*arithmetic, base),
    {
        match self {
            ShockSize::AbsoluteShock(shock) => shock.apply_to(arithmetic, base),
            ShockSize::RelativeShock(shock) => shock.apply_to(arithmetic, base),
        }
    }
}

/// The magnitude of a shock on elapsed time.
#[derive(Clone, Copy)]
pub enum TimeShockSize<V> {
    AbsoluteShock(AbsoluteTimeShock),
    RelativeShock(RelativeShock<V>),
}

impl<V: Copy> TimeShockSize<V> {
    pub open spec fn spec_apply<A: ShockArithmetic<V>>(&self, arithmetic: A, base: V) -> V {
        match self {
            TimeShockSize::AbsoluteShock(shock) => shock.spec_apply(arithmetic, base),
            TimeShockSize::RelativeShock(shock) => shock.spec_apply(arithmetic, base),
        }
    }

    pub fn apply_to<A: ShockArithmetic<V>>(&self, arithmetic: &A, base: V) -> (r: V)
        ensures
            r == self.spec_apply(*arithmetic, base),
    {
        match self {
            TimeShockSize::AbsoluteShock(shock) => shock.apply_to(arithmetic, base),
            TimeShockSize::RelativeShock(shock) => shock.apply_to(arithmetic, base),
        }
    }
}

/// A shock of the price factor on `risk_factor_id`.
#[derive(Clone)]
pub struct PriceShock<V> {
    pub risk_factor_id: Symbol,
    pub size: ShockSize<V>,
}

impl<V> PriceShock<V> {
    pub fn risk_factor(&self) -> (r: &Symbol)
        ensures
            *r == self.risk_factor_id,
    {
        &self.risk_factor_id
    }
}

/// A shock of the volatility factor on `risk_factor_id`.
#[derive(Clone)]
pub struct VolatilityShock<V> {
    pub risk_factor_id: Symbol,
    pub size: ShockSize<V>,
}

/// A shock of the elapsed time to expiry.
#[derive(Clone)]
pub struct TimeShock<V> {
    pub size: TimeShockSize<V>,
}

/// A shock of the rate of the discount factor on `risk_factor_id`.
#[derive(Clone)]
pub struct InterestRateShock<V> {
    pub risk_factor_id: Symbol,
    pub size: ShockSize<V>,
}

/// A perturbation of one input of a valuation.
#[derive(Clone)]
pub enum Shock<V> {
    PriceShock(PriceShock<V>),
    VolatilityShock(VolatilityShock<V>),
    TimeShock(TimeShock<V>),
    InterestRateShock(InterestRateShock<V>),
}

/// Shocks applied one after the other, left to right.
pub type Scenario<V> = Vec<Shock<V>>;

pub fn absolute_shock<V: Copy>(size: V, direction: ShockDirection) -> (r: ShockSize<V>)
    ensures
        r == ShockSize::AbsoluteShock(AbsoluteShock { size, direction }),
{
    ShockSize::AbsoluteShock(AbsoluteShock::new(size, direction))
}

pub fn absolute_time_shock<V>(seconds: i64, direction: ShockDirection) -> (r: TimeShockSize<V>)
    ensures
        r == TimeShockSize::<V>::AbsoluteShock(AbsoluteTimeShock { seconds, direction }),
{
    TimeShockSize::AbsoluteShock(AbsoluteTimeShock::new(seconds, direction))
}

pub fn relative_percentage_shock<V: Copy>(percentage_points: V, direction: ShockDirection) -> (r:
    ShockSize<V>)
    ensures
        r == ShockSize::RelativeShock(
            RelativeShock {
                size: percentage_points,
                shock_type: RelativeShockType::Percentage,
                direction,
            },
        ),
{
    ShockSize::RelativeShock(RelativeShock::percentage(percentage_points, direction))
}

pub fn relative_basis_point_shock<V: Copy>(basis_points: V, direction: ShockDirection) -> (r:
    ShockSize<V>)
    ensures
        r == ShockSize::RelativeShock(
            RelativeShock {
                size: basis_points,
                shock_type: RelativeShockType::BasisPoint,
                direction,
            },
        ),
{
    ShockSize::RelativeShock(RelativeShock::basis_point(basis_points, direction))
}

pub fn price_shock<V>(risk_factor_id: Symbol, size: ShockSize<V>) -> (r: Shock<V>)
    ensures
        r == Shock::PriceShock(PriceShock { risk_factor_id, size }),
{
    Shock::PriceShock(PriceShock { risk_factor_id, size })
}

pub fn interest_rate_shock<V>(risk_factor_id: Symbol, size: ShockSize<V>) -> (r: Shock<V>)
    ensures
        r == Shock::InterestRateShock(InterestRateShock { risk_factor_id, size }),
{
    Shock::InterestRateShock(InterestRateShock { risk_factor_id, size })
}

pub fn time_shock<V>(size: TimeShockSize<V>) -> (r: Shock<V>)
    ensures
        r == Shock::TimeShock(TimeShock { size }),
{
    Shock::TimeShock(TimeShock { size })
}

pub fn volatility_shock<V>(risk_factor_id: Symbol, size: ShockSize<V>) -> (r: Shock<V>)
    ensures
        r == Shock::VolatilityShock(VolatilityShock { risk_factor_id, size }),
{
    Shock::VolatilityShock(VolatilityShock { risk_factor_id, size })
}

/// A shock applied to a value of type `T` whose scalars are of type `V`.
pub trait ApplyShock<T, V, A: ShockArithmetic<V>> {
    /// The value that applying the shock to `before` gives, with `arithmetic`.
    spec fn shocked(&self, arithmetic: A, before: T) -> T;

    fn apply(&self, applicant: &mut T, arithmetic: &A)
        ensures
            *final(applicant) == self.shocked(*arithmetic, *old(applicant)),
    ;
}

/// The price factor is a single tick observed on `symbol`: the one kind of
/// price factor that a price shock moves.
pub open spec fn price_shockable<V>(p: Price<V>, symbol: Symbol) -> bool {
    p is PriceTick && p.spec_id().id@ == symbol.id@
}

/// The volatility factor is an implied volatility on `symbol`.
pub open spec fn volatility_shockable<V>(v: Volatility<V>, symbol: Symbol) -> bool {
    v is ImpliedVolatility && v.spec_id().id@ == symbol.id@
}

/// The discount factor is a risk-free rate on `symbol`.
pub open spec fn rate_shockable<V>(d: DiscountFactor<V>, symbol: Symbol) -> bool {
    d is RiskFreeRate && d.spec_id().id@ == symbol.id@
}

impl<V: Copy, A: ShockArithmetic<V>> ApplyShock<Price<V>, V, A> for PriceShock<V> {
    /// A tick on the shock's symbol gets its price moved by the shock's size;
    /// any other factor is untouched (how to shock a historic series is not defined).
    open spec fn shocked(&self, arithmetic: A, before: Price<V>) -> Price<V> {
        if price_shockable(before, self.risk_factor_id) {
            Price::PriceTick(
                PriceTick {
                    symbol: before->PriceTick_0.symbol,
                    price: self.size.spec_apply(arithmetic, before->PriceTick_0.price),
                },
            )
        } else {
            before
        }
    }

    fn apply(&self, applicant: &mut Price<V>, arithmetic: &A) {
        if applicant.id() != self.risk_factor() {
            return ;
        }
        match applicant {
            Price::PriceTick(pt) => {
                let shocked = self.size.apply_to(arithmetic, pt.price);
                *applicant = Price::PriceTick(PriceTick { symbol: pt.symbol.clone(), price: shocked });
            },
            Price::HistoricPrices(_) => {},
        }
    }
}

impl<V: Copy, A: ShockArithmetic<V>> ApplyShock<Volatility<V>, V, A> for VolatilityShock<V> {
    /// An implied volatility on the shock's symbol is moved by the shock's
    /// size; any other factor is untouched.
    open spec fn shocked(&self, arithmetic: A, before: Volatility<V>) -> Volatility<
        V,
    > {
        if volatility_shockable(before, self.risk_factor_id) {
            Volatility::ImpliedVolatility(
                ImpliedVolatility {
                    symbol: before->ImpliedVolatility_0.symbol,
                    volatility: self.size.spec_apply(
                        arithmetic,
                        before->ImpliedVolatility_0.volatility,
                    ),
                },
            )
        } else {
            before
        }
    }

    fn apply(&self, applicant: &mut Volatility<V>, arithmetic: &A) {
        if applicant.id() != &self.risk_factor_id {
            return ;
        }
        match applicant {
            Volatility::ImpliedVolatility(iv) => {
                let shocked = self.size.apply_to(arithmetic, iv.volatility);
                *applicant = Volatility::ImpliedVolatility(
                    ImpliedVolatility { symbol: iv.symbol.clone(), volatility: shocked },
                );
            },
            Volatility::HistoricVolatility(_) => {},
        }
    }
}

impl<V: Copy, A: ShockArithmetic<V>> ApplyShock<DiscountFactor<V>, V, A> for InterestRateShock<V> {
    /// A risk-free rate on the shock's symbol is moved by the shock's size;
    /// historic returns and rates on other symbols are untouched.
    open spec fn shocked(
        &self,
        arithmetic: A,
        before: DiscountFactor<V>,
    ) -> DiscountFactor<V> {
        if rate_shockable(before, self.risk_factor_id) {
            DiscountFactor::RiskFreeRate(
                InterestRate {
                    symbol: before->RiskFreeRate_0.symbol,
                    rate: self.size.spec_apply(arithmetic, before->RiskFreeRate_0.rate),
                },
            )
        } else {
            before
        }
    }

    fn apply(&self, applicant: &mut DiscountFactor<V>, arithmetic: &A) {
        if applicant.id() != &self.risk_factor_id {
            return ;
        }
        match applicant {
            DiscountFactor::RiskFreeRate(rfr) => {
                let shocked = self.size.apply_to(arithmetic, rfr.rate);
                *applicant = DiscountFactor::RiskFreeRate(
                    InterestRate { symbol: rfr.symbol.clone(), rate: shocked },
                );
            },
            DiscountFactor::HistoricReturn(_) => {},
            DiscountFactor::HistoricReturnSeries(_) => {},
        }
    }
}

} // verus!
