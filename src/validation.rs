use vstd::prelude::*;

use crate::result::{
    PricerError, PricerResult, VALIDATION_CODE, insensitive_message, insensitive_risk_factor_err,
    too_many_message, too_many_rf_err,
};
use crate::symbol::Symbol;

verus! {

/// `e` is the error for a family that held `how_many` factors where one was needed.
pub open spec fn is_cardinality_error(e: PricerError, how_many: nat) -> bool {
    &&& e.code == VALIDATION_CODE
    &&& e.message@ == too_many_message(how_many)
}

/// `e` is the error for a factor on `risk_factor` handed to an option on `symbol`.
pub open spec fn is_insensitive_error(e: PricerError, risk_factor: Symbol, symbol: Symbol) -> bool {
    &&& e.code == VALIDATION_CODE
    &&& e.message@ == insensitive_message(risk_factor.id@, symbol.id@)
}

/// The single factor of a family, or the cardinality error when the family
/// does not hold exactly one.
pub fn get_first_and_ensure_one<RF>(risk_factors: Vec<RF>) -> (r: PricerResult<RF>)
    ensures
        r is Ok <==> risk_factors@.len() == 1,
        r matches Ok(rf) ==> rf == risk_factors@[0],
        r matches Err(e) ==> is_cardinality_error(e, risk_factors@.len()),
{
    let mut risk_factors = risk_factors;
    if risk_factors.len() != 1 {
        return Err(too_many_rf_err(risk_factors.len()));
    }
    Ok(risk_factors.remove(0))
}

/// Succeeds when the factor's symbol is the option's own symbol.
pub fn check_symbols(risk_factor: &Symbol, symbol: &Symbol) -> (r: PricerResult<()>)
    ensures
        r is Ok <==> risk_factor.id@ == symbol.id@,
        r matches Err(e) ==> is_insensitive_error(e, *risk_factor, *symbol),
{
    if risk_factor != symbol {
        Err(insensitive_risk_factor_err(risk_factor, symbol))
    } else {
        Ok(())
    }
}

} // verus!
