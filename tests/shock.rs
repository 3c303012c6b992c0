use pricer::black_scholes::{get_black_scholes_risk_factors, prepare_black_scholes, BlackScholesInputs};
use pricer::greeks::{
    bump_and_reprice_values, delta_scenario, rho_scenario, theta_scenario, vega_scenario,
};
use pricer::monte_carlo::{get_monte_carlo_risk_factors, prepare_monte_carlo};
use pricer::result::PricerError;
use pricer::risk_factors::discount::{rfr_discount, DiscountFactor, HistoricReturn};
use pricer::risk_factors::price::Price;
use pricer::risk_factors::volatility::Volatility;
use pricer::risk_factors::RiskFactors;
use pricer::shock::{
    absolute_shock, absolute_time_shock, interest_rate_shock, price_shock,
    relative_basis_point_shock, relative_percentage_shock, time_shock, volatility_shock,
    ApplyShock, RelativeShockType, Scenario, Shock, ShockArithmetic, ShockDirection,
};
use pricer::symbol::Symbol;

struct Float;

impl ShockArithmetic<f64> for Float {
    fn spec_plus(&self, a: f64, b: f64) -> f64 {
        a + b
    }
    fn spec_minus(&self, a: f64, b: f64) -> f64 {
        a - b
    }
    fn spec_times(&self, a: f64, b: f64) -> f64 {
        a * b
    }
    fn spec_quotient(&self, numerator: i64, denominator: i64) -> f64 {
        numerator as f64 / denominator as f64
    }
    fn plus(&self, a: f64, b: f64) -> f64 {
        self.spec_plus(a, b)
    }
    fn minus(&self, a: f64, b: f64) -> f64 {
        self.spec_minus(a, b)
    }
    fn times(&self, a: f64, b: f64) -> f64 {
        self.spec_times(a, b)
    }
    fn quotient(&self, numerator: i64, denominator: i64) -> f64 {
        self.spec_quotient(numerator, denominator)
    }
}

fn set() -> RiskFactors<f64> {
    get_black_scholes_risk_factors(
        &Symbol::from("AAPL"),
        42.0,
        0.2,
        0.0,
        rfr_discount(Symbol::from("US Treasury 3M"), 0.05),
    )
}

fn inputs(rf: RiskFactors<f64>) -> BlackScholesInputs<f64> {
    prepare_black_scholes(&Symbol::from("AAPL"), rf, 0.5).ok().unwrap()
}

fn price_of(i: &BlackScholesInputs<f64>) -> f64 {
    match &i.risk_factors.price_risk_factor {
        Price::PriceTick(pt) => pt.price,
        Price::HistoricPrices(_) => panic!("expected a price tick"),
    }
}

fn vol_of(i: &BlackScholesInputs<f64>) -> f64 {
    match &i.risk_factors.volatility_risk_factor {
        Volatility::ImpliedVolatility(iv) => iv.volatility,
        Volatility::HistoricVolatility(_) => panic!("expected an implied volatility"),
    }
}

fn rate_of(i: &BlackScholesInputs<f64>) -> f64 {
    match &i.risk_factors.discount_factor {
        DiscountFactor::RiskFreeRate(r) => r.rate,
        _ => panic!("expected a risk-free rate"),
    }
}

fn stress() -> Scenario<f64> {
    vec![
        price_shock(Symbol::from("AAPL"), absolute_shock(2.0, ShockDirection::Up)),
        price_shock(Symbol::from("AAPL"), relative_percentage_shock(50.0, ShockDirection::Down)),
        volatility_shock(Symbol::from("AAPL"), relative_basis_point_shock(100.0, ShockDirection::Up)),
        interest_rate_shock(Symbol::from("US Treasury 3M"), absolute_shock(0.01, ShockDirection::Down)),
        time_shock(absolute_time_shock(31536000 / 2, ShockDirection::Down)),
    ]
}

#[test]
fn same_scenario_on_two_gathered_bundles_gives_the_same_state() {
    let base = set();
    let mut first = inputs(base.clone());
    let mut second = inputs(base.clone());
    let scenario = stress();
    scenario.apply(&mut first, &Float);
    scenario.apply(&mut second, &Float);
    assert_eq!(price_of(&first), price_of(&second));
    assert_eq!(vol_of(&first), vol_of(&second));
    assert_eq!(rate_of(&first), rate_of(&second));
    assert_eq!(first.delta_t, second.delta_t);
    // the caller's set is untouched
    let untouched = inputs(base);
    assert_eq!(price_of(&untouched), 42.0);
    assert_eq!(untouched.delta_t, 0.5);
}

#[test]
fn shocks_apply_in_order_to_the_shocked_value() {
    let mut i = inputs(set());
    stress().apply(&mut i, &Float);
    // (42 + 2) then down 50 per cent
    assert_eq!(price_of(&i), 22.0);
    assert!((vol_of(&i) - 0.202).abs() < 1e-12);
    assert!((rate_of(&i) - 0.04).abs() < 1e-12);
    assert_eq!(i.delta_t, 0.0);
}

#[test]
fn order_of_shocks_matters() {
    let mut a = inputs(set());
    let mut b = inputs(set());
    let up = price_shock(Symbol::from("AAPL"), absolute_shock(2.0, ShockDirection::Up));
    let half = price_shock(Symbol::from("AAPL"), relative_percentage_shock(50.0, ShockDirection::Down));
    vec![up.clone(), half.clone()].apply(&mut a, &Float);
    vec![half, up].apply(&mut b, &Float);
    assert_eq!(price_of(&a), 22.0);
    assert_eq!(price_of(&b), 23.0);
}

#[test]
fn shock_on_another_symbol_does_nothing() {
    let mut i = inputs(set());
    let shock: Shock<f64> = price_shock(Symbol::from("MSFT"), absolute_shock(5.0, ShockDirection::Up));
    shock.apply(&mut i, &Float);
    assert_eq!(price_of(&i), 42.0);
}

#[test]
fn historic_return_is_not_shocked() {
    let mc = get_monte_carlo_risk_factors(&Symbol::from("AAPL"), 42.0, 0.2, 0.07);
    let mut i = prepare_monte_carlo(&Symbol::from("AAPL"), mc, 0.5).ok().unwrap();
    let shock: Shock<f64> = interest_rate_shock(Symbol::from("AAPL"), absolute_shock(1.0, ShockDirection::Up));
    shock.apply(&mut i, &Float);
    match &i.risk_factors.discount_factor {
        DiscountFactor::HistoricReturn(hr) => assert_eq!(hr.rate(), 0.07),
        _ => panic!("expected a historic return"),
    }
    let day: Shock<f64> = time_shock(absolute_time_shock(86400, ShockDirection::Up));
    day.apply(&mut i, &Float);
    assert!((i.delta_t - (0.5 + 1.0 / 365.0)).abs() < 1e-12);
}

#[test]
fn relative_units() {
    assert_eq!(RelativeShockType::BasisPoint.units_per_whole(), 10_000);
    assert_eq!(RelativeShockType::Percentage.units_per_whole(), 100);
    assert_eq!(RelativeShockType::Decimal.units_per_whole(), 1);
}

#[test]
fn finite_difference_scenarios() {
    let mut rf = set();
    rf.discount_factors.push(DiscountFactor::HistoricReturn(HistoricReturn::new(
        Symbol::from("AAPL"),
        0.07,
    )));
    let delta = delta_scenario(&rf, 1.0);
    assert_eq!(delta.len(), 1);
    let rho = rho_scenario(&rf, 1.0);
    assert_eq!(rho.len(), 1);
    match &rho[0] {
        Shock::InterestRateShock(s) => assert!(s.risk_factor_id == Symbol::from("US Treasury 3M")),
        _ => panic!("expected a rate shock"),
    }
    let vega = vega_scenario(&rf, 1.0);
    assert_eq!(vega.len(), 1);
    let theta: Scenario<f64> = theta_scenario();
    assert_eq!(theta.len(), 1);

    let mut i = inputs(set());
    theta.apply(&mut i, &Float);
    assert!((i.delta_t - (0.5 - 1.0 / 365.0)).abs() < 1e-12);
    let mut i = inputs(set());
    delta.apply(&mut i, &Float);
    assert_eq!(price_of(&i), 43.0);
    let mut i = inputs(set());
    vega.apply(&mut i, &Float);
    assert!((vol_of(&i) - 0.202).abs() < 1e-12);
}

#[test]
fn bump_and_reprice_reports_which_valuation_failed() {
    let ok: Result<f64, PricerError> = Ok(1.0);
    assert_eq!(bump_and_reprice_values(ok, Ok(1.5)).ok(), Some((1.0, 1.5)));
    let base = bump_and_reprice_values(Err(PricerError::new(String::from("x"), 7)), Ok(1.5));
    let err = base.err().unwrap();
    assert_eq!(err.code, 2);
    assert_eq!(err.message, "Failed base pricing: Code: 7, Message: x");
    let shocked = bump_and_reprice_values(Ok(1.0), Err(PricerError::new(String::from("y"), 12)));
    let err = shocked.err().unwrap();
    assert_eq!(err.code, 3);
    assert_eq!(err.message, "Failed shock pricing: Code: 12, Message: y");
}
