use vstd::prelude::*;
use vstd::string::*;

use crate::result::{PARSE_CODE, PricerError, PricerResult, VALIDATION_CODE};

verus! {

/// The kind of option named on the command line.
#[allow(non_camel_case_types)]
#[derive(Clone, Copy, Debug, PartialEq, Eq, Structural)]
pub enum OptionType {
    CALL,
    PUT,
}

pub open spec fn invalid_option_type_message() -> Seq<char> {
    "Tried to parse invalid type of option"@
}

impl OptionType {
    /// `call` or `put`; any other text is an error.
    pub fn parse(s: &str) -> (r: PricerResult<OptionType>)
        ensures
            s@ == "call"@ ==> r == Ok::<OptionType, PricerError>(OptionType::CALL),
            s@ == "put"@ ==> r == Ok::<OptionType, PricerError>(OptionType::PUT),
            s@ != "call"@ && s@ != "put"@ ==> (r matches Err(e) && e.code == PARSE_CODE
                && e.message@ == invalid_option_type_message()),
    {
        proof {
            reveal_strlit("call");
            reveal_strlit("put");
            assert("put"@.len() == 3);
            assert("call"@.len() == 4);
            assert("put"@ != "call"@);
        }
        let text = String::from_str(s);
        let call = String::from_str("call");
        let put = String::from_str("put");
        if text == call {
            Ok(OptionType::CALL)
        } else if text == put {
            Ok(OptionType::PUT)
        } else {
            Err(
                PricerError {
                    message: String::from_str("Tried to parse invalid type of option"),
                    code: PARSE_CODE,
                },
            )
        }
    }
}

impl std::str::FromStr for OptionType {
    type Err = PricerError;

    fn from_str(s: &str) -> Result<OptionType, PricerError> {
        OptionType::parse(s)
    }
}

pub open spec fn expired_message() -> Seq<char> {
    "Attempted to price expired option"@
}

/// Refuses an option whose expiry, in seconds since the epoch, lies before `now`.
pub fn ensure_not_expired(expiry_seconds: i64, now_seconds: i64) -> (r: PricerResult<()>)
    ensures
        r is Ok <==> expiry_seconds >= now_seconds,
        r matches Err(e) ==> e.code == VALIDATION_CODE && e.message@ == expired_message(),
{
    if expiry_seconds < now_seconds {
        return Err(
            PricerError {
                message: String::from_str("Attempted to price expired option"),
                code: VALIDATION_CODE,
            },
        );
    }
    Ok(())
}

} // verus!
