//! Option valuation core: risk factors, shocks, validation of engine inputs and
//! the binomial lattice, with their contracts checked by Verus.
//!
//! The numeric payload of a risk factor (a price, a volatility, a rate) is a
//! type parameter: the logic here routes, validates and stores those values,
//! while the arithmetic on them is supplied by the caller.

pub mod black_scholes;
pub mod cli;
pub mod greeks;
pub mod monte_carlo;
pub mod result;
pub mod risk_factors;
pub mod shock;
pub mod symbol;
pub mod tree;
pub mod validation;
