//! The application-level error every resolution ends in when it fails.

use vstd::prelude::*;
use crate::errors::xexchange::XExchangeError;

verus! {

/// An opaque failure of the query transport or of the cache layer. The
/// resolver never interprets it; it only passes it through.
#[derive(Clone, Debug)]
pub struct TransportError {
    pub message: String,
}

impl PartialEq for TransportError {
    fn eq(&self, other: &Self) -> (r: bool) {
        self.message == other.message
    }
}

impl vstd::std_specs::cmp::PartialEqSpecImpl for TransportError {
    open spec fn obeys_eq_spec() -> bool {
        true
    }

    open spec fn eq_spec(&self, other: &Self) -> bool {
        self.message@ == other.message@
    }
}

/// What equality of two exchange errors means, spelled out over the views of
/// their fields.
pub open spec fn xexchange_eq(a: &XExchangeError, b: &XExchangeError) -> bool {
    match (a, b) {
        (
            XExchangeError::PairNotFound { first_token_identifier: a1, second_token_identifier: a2 },
            XExchangeError::PairNotFound { first_token_identifier: b1, second_token_identifier: b2 },
        ) => a1@ == b1@ && a2@ == b2@,
        (XExchangeError::DivisionByZero, XExchangeError::DivisionByZero) => true,
        _ => false,
    }
}

/// Everything a price resolution can fail with: a domain error of the
/// exchange, or an opaque transport failure, passed through unchanged.
#[derive(Clone, Debug)]
pub enum AppError {
    XExchange(XExchangeError),
    Transport(TransportError),
}

impl PartialEq for AppError {
    fn eq(&self, other: &Self) -> (r: bool) {
        match (self, other) {
            (AppError::XExchange(a), AppError::XExchange(b)) => a == b,
            (AppError::Transport(a), AppError::Transport(b)) => a == b,
            _ => false,
        }
    }
}

impl vstd::std_specs::cmp::PartialEqSpecImpl for AppError {
    open spec fn obeys_eq_spec() -> bool {
        true
    }

    open spec fn eq_spec(&self, other: &Self) -> bool {
        match (self, other) {
            (AppError::XExchange(a), AppError::XExchange(b)) => xexchange_eq(a, b),
            (AppError::Transport(a), AppError::Transport(b)) => a.message@ == b.message@,
            _ => false,
        }
    }
}

impl From<TransportError> for AppError {
    fn from(value: TransportError) -> (r: AppError) {
        AppError::Transport(value)
    }
}

impl vstd::std_specs::convert::FromSpecImpl<TransportError> for AppError {
    open spec fn obeys_from_spec() -> bool {
        true
    }

    open spec fn from_spec(value: TransportError) -> AppError {
        AppError::Transport(value)
    }
}

impl From<XExchangeError> for AppError {
    fn from(value: XExchangeError) -> (r: AppError) {
        AppError::XExchange(value)
    }
}

impl vstd::std_specs::convert::FromSpecImpl<XExchangeError> for AppError {
    open spec fn obeys_from_spec() -> bool {
        true
    }

    open spec fn from_spec(value: XExchangeError) -> AppError {
        AppError::XExchange(value)
    }
}

} // verus!
