//! The HTTP statuses that an error of the API can be answered with.

use vstd::prelude::*;

verus! {

/// An HTTP status that an error response carries.
#[derive(Clone, Copy, Debug, PartialEq, Eq, Structural)]
pub enum ResponseStatus {
    /// `202 Accepted`.
    Accepted,
    /// `400 Bad Request`.
    BadRequest,
    /// `401 Unauthorized`.
    Unauthorized,
    /// `500 Internal Server Error`.
    InternalServerError,
    /// `504 Gateway Timeout`.
    GatewayTimeout,
}

impl ResponseStatus {
    /// The numeric code of the status.
    pub open spec fn spec_code(self) -> u16 {
        match self {
            ResponseStatus::Accepted => 202,
            ResponseStatus::BadRequest => 400,
            ResponseStatus::Unauthorized => 401,
            ResponseStatus::InternalServerError => 500,
            ResponseStatus::GatewayTimeout => 504,
        }
    }

    /// Whether the status puts the fault on the client (a `4xx` code).
    pub open spec fn is_client_error(self) -> bool {
        400 <= self.spec_code() < 500
    }

    /// Whether the status puts the fault on the server (a `5xx` code).
    pub open spec fn is_server_error(self) -> bool {
        500 <= self.spec_code() < 600
    }

    /// Returns the numeric code of the status.
    pub fn code(&self) -> (c: u16)
        ensures
            c == self.spec_code(),
    {
        match self {
            ResponseStatus::Accepted => 202,
            ResponseStatus::BadRequest => 400,
            ResponseStatus::Unauthorized => 401,
            ResponseStatus::InternalServerError => 500,
            ResponseStatus::GatewayTimeout => 504,
        }
    }
}

/// Distinct statuses have distinct codes, so a code names its status.
pub proof fn lemma_code_injective(a: ResponseStatus, b: ResponseStatus)
    ensures
        a.spec_code() == b.spec_code() <==> a == b,
{
}

} // verus!
