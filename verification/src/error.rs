//! Errors of the purchase engine and of the service around it.

use vstd::prelude::*;
use vstd::string::StringExecFns;

verus! {

/// Why a purchase failed, as reported to the caller.
#[derive(Clone, Copy, Debug, PartialEq, Eq, Structural)]
pub enum PurchaseError {
    /// The balance is zero or below the price of the box.
    InsufficientFunds,
    /// Nothing in the box can be sold, or every attempt lost its product to
    /// another purchase.
    SelectionError,
    /// A store could not be reached or answered out of turn.
    InfrastructureError,
}

/// Why a store refused a single operation. `StockExhausted` stays between the
/// inventory and the engine: the engine answers it with a retry.
#[derive(Clone, Copy, Debug, PartialEq, Eq, Structural)]
pub enum StoreError {
    /// No row with the given id.
    NotFound,
    /// The balance does not cover the amount.
    InsufficientFunds,
    /// The stock was already at zero.
    StockExhausted,
}

/// What the service answers when a request fails.
#[derive(Clone, Copy, Debug, PartialEq, Eq, Structural)]
pub enum ApiError {
    DatabaseError,
    IncorrectPassword,
    NotSuperuser,
    ImageError,
    SelectionError,
    InsufficientPoints,
    NoSessionCookieFound,
    ImageNotFound,
    InvalidId,
}

/// The body of a failed response.
#[derive(Clone, Debug, PartialEq, Eq)]
pub struct ErrorBody {
    pub error: String,
    pub status_code: u16,
}

/// The error that the service answers a failed purchase with.
pub open spec fn api_error_of(e: PurchaseError) -> ApiError {
    match e {
        PurchaseError::InsufficientFunds => ApiError::InsufficientPoints,
        PurchaseError::SelectionError => ApiError::SelectionError,
        PurchaseError::InfrastructureError => ApiError::DatabaseError,
    }
}

impl From<PurchaseError> for ApiError {
    fn from(e: PurchaseError) -> (api: ApiError) {
        match e {
            PurchaseError::InsufficientFunds => ApiError::InsufficientPoints,
            PurchaseError::SelectionError => ApiError::SelectionError,
            PurchaseError::InfrastructureError => ApiError::DatabaseError,
        }
    }
}

impl vstd::std_specs::convert::FromSpecImpl<PurchaseError> for ApiError {
    open spec fn obeys_from_spec() -> bool {
        true
    }

    open spec fn from_spec(e: PurchaseError) -> ApiError {
        api_error_of(e)
    }
}

impl ApiError {
    /// The HTTP status that goes with the error: 500 where the server is at
    /// fault, 404 for an image that is not there, 400 otherwise.
    pub open spec fn spec_status_code(self) -> u16 {
        match self {
            ApiError::DatabaseError | ApiError::SelectionError => 500,
            ApiError::ImageNotFound => 404,
            _ => 400,
        }
    }

    /// The message that goes with the error. A database error appends
    /// `detail`, what the database said; the other messages are fixed.
    pub open spec fn spec_message(self, detail: Seq<char>) -> Seq<char> {
        match self {
            ApiError::DatabaseError => "Something went wrong in the server. "@ + detail,
            ApiError::IncorrectPassword => "Incorrct passsword"@,
            ApiError::NotSuperuser => "User is not a superuser."@,
            ApiError::ImageError => "Error has been occured while parsing the image."@,
            ApiError::SelectionError =>
                "Error has been occurred while selecting the product for the user."@,
            ApiError::InsufficientPoints => "User has insufficient points."@,
            ApiError::NoSessionCookieFound => "User has no session cookie."@,
            ApiError::ImageNotFound => "Image not found."@,
            ApiError::InvalidId => "Invalid id."@,
        }
    }

    #[verifier::when_used_as_spec(spec_status_code)]
    pub fn status_code(self) -> (code: u16)
        ensures
            code == self.spec_status_code(),
    {
        match self {
            ApiError::DatabaseError | ApiError::SelectionError => 500,
            ApiError::ImageNotFound => 404,
            _ => 400,
        }
    }

    pub fn message(self, detail: &str) -> (text: String)
        ensures
            text@ == self.spec_message(detail@),
    {
        match self {
            ApiError::DatabaseError => String::from_str(
                "Something went wrong in the server. ",
            ).concat(detail),
            ApiError::IncorrectPassword => String::from_str("Incorrct passsword"),
            ApiError::NotSuperuser => String::from_str("User is not a superuser."),
            ApiError::ImageError => String::from_str(
                "Error has been occured while parsing the image.",
            ),
            ApiError::SelectionError => String::from_str(
                "Error has been occurred while selecting the product for the user.",
            ),
            ApiError::InsufficientPoints => String::from_str("User has insufficient points."),
            ApiError::NoSessionCookieFound => String::from_str("User has no session cookie."),
            ApiError::ImageNotFound => String::from_str("Image not found."),
            ApiError::InvalidId => String::from_str("Invalid id."),
        }
    }

    /// The body of the response for the error, with its message and status.
    pub fn body(self, detail: &str) -> (body: ErrorBody)
        ensures
            body.error@ == self.spec_message(detail@),
            body.status_code == self.spec_status_code(),
    {
        ErrorBody { error: self.message(detail), status_code: self.status_code() }
    }
}

} // verus!
