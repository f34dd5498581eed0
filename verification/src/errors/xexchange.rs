//! Domain errors of the exchange itself, as opposed to transport failures.

use vstd::prelude::*;

verus! {

/// An expected, recoverable failure reported by the exchange contracts.
#[derive(Clone, Debug)]
pub enum XExchangeError {
    /// The router knows no liquidity pair for the two identifiers, given in
    /// the order they were passed to the router.
    PairNotFound { first_token_identifier: String, second_token_identifier: String },
    /// A reserve that stands in a denominator, or under an inversion, is zero.
    DivisionByZero,
}

impl PartialEq for XExchangeError {
    fn eq(&self, other: &Self) -> (r: bool) {
        match (self, other) {
            (
                XExchangeError::PairNotFound { first_token_identifier: a1, second_token_identifier: a2 },
                XExchangeError::PairNotFound { first_token_identifier: b1, second_token_identifier: b2 },
            ) => *a1 == *b1 && *a2 == *b2,
            (XExchangeError::DivisionByZero, XExchangeError::DivisionByZero) => true,
            _ => false,
        }
    }
}

impl vstd::std_specs::cmp::PartialEqSpecImpl for XExchangeError {
    open spec fn obeys_eq_spec() -> bool {
        true
    }

    open spec fn eq_spec(&self, other: &Self) -> bool {
        match (self, other) {
            (
                XExchangeError::PairNotFound { first_token_identifier: a1, second_token_identifier: a2 },
                XExchangeError::PairNotFound { first_token_identifier: b1, second_token_identifier: b2 },
            ) => a1@ == b1@ && a2@ == b2@,
            (XExchangeError::DivisionByZero, XExchangeError::DivisionByZero) => true,
            _ => false,
        }
    }
}

} // verus!
