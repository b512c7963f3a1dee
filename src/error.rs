//! Errors of the login and reboot flows.
use vstd::prelude::*;

verus! {

/// Why a flow stopped.
#[derive(Clone, Copy, Debug, PartialEq, Eq, Structural)]
pub enum RouterError {
    /// A path could not be joined to the origin.
    InvalidUrl,
    /// The request did not reach the router or its reply could not be read.
    NetworkError,
    /// No element of the page matched the selector.
    MissingElement,
    /// The matching element lacks the requested attribute.
    MissingAttribute,
    /// The login form was not accepted.
    LoginFailed,
}

impl RouterError {
    /// A sentence for the operator.
    pub fn describe(&self) -> (r: String) {
        match self {
            RouterError::InvalidUrl => "the path cannot be joined to the router's origin".to_owned(),
            RouterError::NetworkError => "the router could not be reached".to_owned(),
            RouterError::MissingElement => "the page lacks the expected element".to_owned(),
            RouterError::MissingAttribute => "the page's element lacks the expected attribute".to_owned(),
            RouterError::LoginFailed => "the router did not accept the login".to_owned(),
        }
    }
}

} // verus!
