use pricer::black_scholes::BlackScholesRiskFactors;
use pricer::risk_factors::discount::{
    rfr_discount, DiscountFactor, HistoricReturn, HistoricReturnSeries, InterestRate,
};
use pricer::risk_factors::dividend::{AnnualisedDividendRate, Dividend};
use pricer::risk_factors::price::{HistoricPrices, Price, PriceTick};
use pricer::risk_factors::volatility::{HistoricVolatility, ImpliedVolatility, Volatility};
use pricer::risk_factors::IdentifiableRiskFactor;
use pricer::symbol::Symbol;

#[test]
fn factors_carry_their_symbol() {
    let tick: Price<f64> = Price::PriceTick(PriceTick::new(Symbol::from("A"), 1.0));
    let series: Price<f64> = Price::HistoricPrices(HistoricPrices::new(Symbol::from("B"), vec![1.0, 2.0]));
    assert_eq!(tick.id().id, "A");
    assert_eq!(series.id().id, "B");
    let implied: Volatility<f64> = Volatility::ImpliedVolatility(ImpliedVolatility::new(Symbol::from("C"), 0.2));
    let historic: Volatility<f64> =
        Volatility::HistoricVolatility(HistoricVolatility::new(Symbol::from("D"), vec![1.0]));
    assert_eq!(implied.id().id, "C");
    assert_eq!(historic.id().id, "D");
    let rate: DiscountFactor<f64> = rfr_discount(Symbol::from("E"), 0.05);
    let ret: DiscountFactor<f64> = DiscountFactor::HistoricReturn(HistoricReturn::new(Symbol::from("F"), 0.07));
    let yields: DiscountFactor<f64> =
        DiscountFactor::HistoricReturnSeries(HistoricReturnSeries::new(Symbol::from("G"), vec![0.0]));
    assert_eq!(rate.id().id, "E");
    assert_eq!(ret.id().id, "F");
    assert_eq!(yields.id().id, "G");
    match rate {
        DiscountFactor::RiskFreeRate(r) => assert_eq!(r.rate(), 0.05),
        _ => panic!("expected a risk-free rate"),
    }
}

#[test]
fn dividend_schedule_names_no_symbol() {
    let rate: Dividend<f64> = Dividend::AnnualisedRate(AnnualisedDividendRate::new(Symbol::from("A"), 0.01));
    assert!(rate.id() == Some(&Symbol::from("A")));
    let schedule: Dividend<f64> = Dividend::Schedule;
    assert!(schedule.id().is_none());
}

#[test]
fn black_scholes_bundle_from_values() {
    let b = BlackScholesRiskFactors::new(
        Symbol::from("AAPL"),
        42.0,
        0.2,
        0.05,
        Symbol::from("US Treasury 3M"),
        0.01,
    );
    assert!(b.price_risk_factor() == &Symbol::from("AAPL"));
    assert!(b.volatility_risk_factor() == &Symbol::from("AAPL"));
    assert!(b.dividend_risk_factor() == &Symbol::from("AAPL"));
    assert_eq!(b.dividend_factor.rate(), 0.01);
    match &b.discount_factor {
        DiscountFactor::RiskFreeRate(InterestRate { symbol, rate }) => {
            assert_eq!(symbol.as_string(), "US Treasury 3M");
            assert_eq!(*rate, 0.05);
        }
        _ => panic!("expected a risk-free rate"),
    }
}
