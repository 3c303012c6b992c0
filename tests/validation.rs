use pricer::black_scholes::{
    get_black_scholes_risk_factors, prepare_black_scholes, BlackScholesRiskFactors,
};
use pricer::monte_carlo::{get_monte_carlo_risk_factors, prepare_monte_carlo};
use pricer::risk_factors::discount::rfr_discount;
use pricer::risk_factors::dividend::Dividend;
use pricer::risk_factors::price::{Price, PriceTick};
use pricer::risk_factors::volatility::{ImpliedVolatility, Volatility};
use pricer::risk_factors::{IdentifiableRiskFactor, RiskFactors};
use pricer::symbol::Symbol;
use pricer::validation::{check_symbols, get_first_and_ensure_one};

fn bs_set(symbol: &str) -> RiskFactors<f64> {
    get_black_scholes_risk_factors(
        &Symbol::from(symbol),
        42.0,
        0.2,
        0.0,
        rfr_discount(Symbol::from("US Treasury 3M"), 0.05),
    )
}

#[test]
fn built_set_is_accepted() {
    let inputs = prepare_black_scholes(&Symbol::from("AAPL"), bs_set("AAPL"), 0.5);
    let inputs = inputs.ok().unwrap();
    assert_eq!(inputs.delta_t, 0.5);
    assert!(inputs.risk_factors.price_risk_factor() == &Symbol::from("AAPL"));
    assert!(inputs.risk_factors.dividend_risk_factor() == &Symbol::from("AAPL"));
    match inputs.risk_factors.price_risk_factor {
        Price::PriceTick(pt) => assert_eq!(pt.price(), 42.0),
        Price::HistoricPrices(_) => panic!("expected a price tick"),
    }
}

#[test]
fn no_price_factor_is_a_cardinality_error() {
    let mut rf = bs_set("AAPL");
    rf.price_sensitivities.clear();
    let err = prepare_black_scholes(&Symbol::from("AAPL"), rf, 0.5).err().unwrap();
    assert_eq!(err.code, 1);
    assert_eq!(err.message, "Provided 0 risk factors, when 1 was expected");
}

#[test]
fn two_price_factors_are_a_cardinality_error() {
    let mut rf = bs_set("AAPL");
    rf.price_sensitivities.push(Price::PriceTick(PriceTick::new(Symbol::from("AAPL"), 43.0)));
    let err = prepare_black_scholes(&Symbol::from("AAPL"), rf.clone(), 0.5).err().unwrap();
    assert_eq!(err.code, 1);
    assert_eq!(err.message, "Provided 2 risk factors, when 1 was expected");
    let err = prepare_monte_carlo(&Symbol::from("AAPL"), rf, 0.5).err().unwrap();
    assert_eq!(err.code, 1);
    assert_eq!(err.message, "Provided 2 risk factors, when 1 was expected");
}

#[test]
fn twelve_volatilities_are_counted_in_the_error() {
    let mut rf = bs_set("AAPL");
    for _ in 0..11 {
        rf.volatility_sensitivities.push(Volatility::ImpliedVolatility(ImpliedVolatility::new(
            Symbol::from("AAPL"),
            0.3,
        )));
    }
    let err = BlackScholesRiskFactors::try_from(rf).err().unwrap();
    assert_eq!(err.message, "Provided 12 risk factors, when 1 was expected");
}

#[test]
fn mismatched_symbol_is_refused() {
    let err = prepare_black_scholes(&Symbol::from("MSFT"), bs_set("AAPL"), 0.5).err().unwrap();
    assert_eq!(err.code, 1);
    assert_eq!(
        err.message,
        "Provided risk factor with symbol AAPL, when option is sensitive to symbol MSFT"
    );
    let mc = get_monte_carlo_risk_factors(&Symbol::from("AAPL"), 42.0, 0.2, 0.05);
    let err = prepare_monte_carlo(&Symbol::from("MSFT"), mc, 0.5).err().unwrap();
    assert_eq!(
        err.message,
        "Provided risk factor with symbol AAPL, when option is sensitive to symbol MSFT"
    );
}

#[test]
fn mismatched_volatility_symbol_is_named() {
    let mut rf = bs_set("AAPL");
    rf.volatility_sensitivities = vec![Volatility::ImpliedVolatility(ImpliedVolatility::new(
        Symbol::from("VIX"),
        0.2,
    ))];
    let err = prepare_black_scholes(&Symbol::from("AAPL"), rf, 0.5).err().unwrap();
    assert_eq!(
        err.message,
        "Provided risk factor with symbol VIX, when option is sensitive to symbol AAPL"
    );
}

#[test]
fn dividend_schedule_is_unsupported() {
    let mut rf = bs_set("AAPL");
    rf.dividend_sensitivities = vec![Dividend::Schedule];
    let err = prepare_black_scholes(&Symbol::from("AAPL"), rf, 0.5).err().unwrap();
    assert_eq!(err.code, 5);
    assert!(err.message.starts_with("Provided a dividend schedule"));
}

#[test]
fn monte_carlo_needs_no_dividend() {
    let mc = get_monte_carlo_risk_factors(&Symbol::from("AAPL"), 42.0, 0.2, 0.05);
    assert!(mc.dividend_sensitivities.is_empty());
    let inputs = prepare_monte_carlo(&Symbol::from("AAPL"), mc, 0.25).ok().unwrap();
    assert_eq!(inputs.delta_t, 0.25);
    assert!(inputs.risk_factors.discount_factor.id() == &Symbol::from("AAPL"));
}

#[test]
fn first_and_only_factor() {
    assert_eq!(get_first_and_ensure_one(vec![7u8]).ok(), Some(7u8));
    let err = get_first_and_ensure_one(Vec::<u8>::new()).err().unwrap();
    assert_eq!(err.message, "Provided 0 risk factors, when 1 was expected");
}

#[test]
fn symbols_compared_by_identifier() {
    assert!(check_symbols(&Symbol::from("A"), &Symbol::from(String::from("A"))).is_ok());
    let err = check_symbols(&Symbol::from("A"), &Symbol::from("B")).err().unwrap();
    assert_eq!(err.code, 1);
    assert_eq!(err.message, "Provided risk factor with symbol A, when option is sensitive to symbol B");
}
