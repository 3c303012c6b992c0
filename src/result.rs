use vstd::prelude::*;
use vstd::string::*;

use crate::symbol::Symbol;

verus! {

/// An error of the pricer: a stable numeric code and a message for people.
#[derive(Debug)]
pub struct PricerError {
    pub message: String,
    pub code: u64,
}

pub type PricerResult<T> = Result<T, PricerError>;

/// Code of a validation error on the supplied risk factors.
pub const VALIDATION_CODE: u64 = 1;

/// Code of a failure to construct a numerical object, such as a distribution.
pub const CONSTRUCTION_CODE: u64 = 2;

/// Code of a text that names no known kind of option.
pub const PARSE_CODE: u64 = 2;

/// Code of a failure while pricing the unshocked state of a bump-and-reprice.
pub const BASE_PRICING_CODE: u64 = 2;

/// Code of a failure while pricing the shocked state of a bump-and-reprice.
pub const SHOCKED_PRICING_CODE: u64 = 3;

/// Code of a risk factor representation that an engine does not support.
pub const UNSUPPORTED_CODE: u64 = 5;

/// Code of a behaviour that is deliberately not built.
pub const NOT_IMPLEMENTED_CODE: u64 = 999;

pub open spec fn digit_char(d: nat) -> char {
    seq!['0', '1', '2', '3', '4', '5', '6', '7', '8', '9'][d as int]
}

/// The decimal digits of `n`, most significant first, without leading zeros.
pub open spec fn decimal(n: nat) -> Seq<char>
    decreases n,
{
    if n < 10 {
        seq![digit_char(n)]
    } else {
        decimal(n / 10).push(digit_char(n % 10))
    }
}

impl PricerError {
    pub fn new(message: String, code: u64) -> (r: PricerError)
        ensures
            r.message@ == message@,
            r.code == code,
    {
        PricerError { message, code }
    }

    /// The text shown for the error: `Code: <code>, Message: <message>`.
    pub open spec fn spec_describe(&self) -> Seq<char> {
        "Code: "@ + decimal(self.code as nat) + ", Message: "@ + self.message@
    }

    pub fn describe(&self) -> (r: String)
        ensures
            r@ == self.spec_describe(),
    {
        let mut out = String::from_str("Code: ");
        let code = decimal_string(self.code);
        out.append(code.as_str());
        out.append(", Message: ");
        out.append(self.message.as_str());
        out
    }
}

fn digit_str(d: u64) -> (r: &'static str)
    requires
        d < 10,
    ensures
        r@ == seq![digit_char(d as nat)],
{
    proof {
        reveal_strlit("0");
        reveal_strlit("1");
        reveal_strlit("2");
        reveal_strlit("3");
        reveal_strlit("4");
        reveal_strlit("5");
        reveal_strlit("6");
        reveal_strlit("7");
        reveal_strlit("8");
        reveal_strlit("9");
    }
    let r = if d == 0 {
        "0"
    } else if d == 1 {
        "1"
    } else if d == 2 {
        "2"
    } else if d == 3 {
        "3"
    } else if d == 4 {
        "4"
    } else if d == 5 {
        "5"
    } else if d == 6 {
        "6"
    } else if d == 7 {
        "7"
    } else if d == 8 {
        "8"
    } else {
        "9"
    };
    assert(r@ =~= seq![digit_char(d as nat)]);
    r
}

/// The decimal representation of `n`.
pub fn decimal_string(n: u64) -> (r: String)
    ensures
        r@ == decimal(n as nat),
    decreases n,
{
    if n < 10 {
        String::from_str(digit_str(n))
    } else {
        let mut s = decimal_string(n / 10);
        s.append(digit_str(n % 10));
        s
    }
}

pub open spec fn too_many_message(how_many: nat) -> Seq<char> {
    "Provided "@ + decimal(how_many) + " risk factors, when 1 was expected"@
}

/// The error for a risk-factor family that holds `how_many` factors where exactly one is needed.
pub fn too_many_rf_err(how_many: usize) -> (r: PricerError)
    ensures
        r.code == VALIDATION_CODE,
        r.message@ == too_many_message(how_many as nat),
{
    let mut message = String::from_str("Provided ");
    let count = decimal_string(how_many as u64);
    message.append(count.as_str());
    message.append(" risk factors, when 1 was expected");
    PricerError { message, code: VALIDATION_CODE }
}

pub open spec fn insensitive_message(risk_factor: Seq<char>, symbol: Seq<char>) -> Seq<char> {
    "Provided risk factor with symbol "@ + risk_factor + ", when option is sensitive to symbol "@
        + symbol
}

/// The error for a risk factor whose symbol is not the one of the option being priced.
pub fn insensitive_risk_factor_err(risk_factor: &Symbol, symbol: &Symbol) -> (r: PricerError)
    ensures
        r.code == VALIDATION_CODE,
        r.message@ == insensitive_message(risk_factor.id@, symbol.id@),
{
    let mut message = String::from_str("Provided risk factor with symbol ");
    message.append(risk_factor.id.as_str());
    message.append(", when option is sensitive to symbol ");
    message.append(symbol.id.as_str());
    PricerError { message, code: VALIDATION_CODE }
}

pub open spec fn dividend_schedule_message() -> Seq<char> {
    "Provided a dividend schedule to Black-Scholes, the pricer does not support this, please provide an annualised rate"@
}

/// The error for a dividend schedule, which the engines do not support.
pub fn dividend_schedule_err() -> (r: PricerError)
    ensures
        r.code == UNSUPPORTED_CODE,
        r.message@ == dividend_schedule_message(),
{
    PricerError {
        message: String::from_str(
            "Provided a dividend schedule to Black-Scholes, the pricer does not support this, please provide an annualised rate",
        ),
        code: UNSUPPORTED_CODE,
    }
}

pub open spec fn gaussian_message() -> Seq<char> {
    "Failed to construct Gaussian distribution for pricing"@
}

/// The error for a standard normal distribution that could not be constructed.
pub fn failed_to_create_gaussian_error() -> (r: PricerError)
    ensures
        r.code == CONSTRUCTION_CODE,
        r.message@ == gaussian_message(),
{
    PricerError {
        message: String::from_str("Failed to construct Gaussian distribution for pricing"),
        code: CONSTRUCTION_CODE,
    }
}

pub open spec fn not_implemented_message() -> Seq<char> {
    "Behaviour not implemented yet"@
}

/// The error for a method that is deliberately not built.
pub fn make_not_implemented_error() -> (r: PricerError)
    ensures
        r.code == NOT_IMPLEMENTED_CODE,
        r.message@ == not_implemented_message(),
{
    PricerError {
        message: String::from_str("Behaviour not implemented yet"),
        code: NOT_IMPLEMENTED_CODE,
    }
}

/// The error for a bump-and-reprice whose unshocked valuation failed with `cause`.
pub fn base_pricing_err(cause: &PricerError) -> (r: PricerError)
    ensures
        r.code == BASE_PRICING_CODE,
        r.message@ == "Failed base pricing: "@ + cause.spec_describe(),
{
    let mut message = String::from_str("Failed base pricing: ");
    let text = cause.describe();
    message.append(text.as_str());
    PricerError { message, code: BASE_PRICING_CODE }
}

/// The error for a bump-and-reprice whose shocked valuation failed with `cause`.
pub fn shocked_pricing_err(cause: &PricerError) -> (r: PricerError)
    ensures
        r.code == SHOCKED_PRICING_CODE,
        r.message@ == "Failed shock pricing: "@ + cause.spec_describe(),
{
    let mut message = String::from_str("Failed shock pricing: ");
    let text = cause.describe();
    message.append(text.as_str());
    PricerError { message, code: SHOCKED_PRICING_CODE }
}

} // verus!
