//! The two tiers of errors: those raised inside a connector transformer, and
//! those that the payment pipeline hands to its caller.
use vstd::prelude::*;

use crate::types::IntentStatus;

verus! {

/// An error raised while converting to or from a connector's wire format.
#[derive(Clone, Copy, Debug, PartialEq, Eq)]
pub enum ConnectorError {
    /// The merchant's credentials do not have the shape the connector expects.
    FailedToObtainAuthType,
    /// The connector could handle this, but the transformer does not yet.
    NotImplemented(&'static str),
    /// The connector cannot handle this at all.
    NotSupported { message: &'static str, connector: &'static str },
    MissingRequiredField { field_name: &'static str },
    /// A response lacks an entry that it should hold.
    ResponseHandlingFailed,
    /// A typed field of a response could not be read.
    ResponseDeserializationFailed,
}

/// An error of the payment pipeline, the tier that its caller sees.
#[derive(Clone, Debug)]
pub enum ApiErrorResponse {
    PaymentNotFound,
    BusinessProfileNotFound { id: String },
    InvalidDataFormat { field_name: &'static str, expected_format: &'static str },
    InvalidDataValue { field_name: &'static str },
    MissingRequiredField { field_name: &'static str },
    MandateValidationFailed { reason: &'static str },
    /// The operation is not allowed on a payment in this status.
    PaymentUnexpectedState { current_flow: &'static str, current_value: IntentStatus },
    NotSupported { message: &'static str },
    InternalServerError,
}

/// The error that the pipeline reports for a connector error: a missing field is
/// named, an unsupported method is reported as such, the rest is internal.
pub open spec fn spec_api_error_of(e: ConnectorError) -> ApiErrorResponse {
    match e {
        ConnectorError::MissingRequiredField { field_name } => ApiErrorResponse::MissingRequiredField { field_name },
        ConnectorError::NotImplemented(message) => ApiErrorResponse::NotSupported { message },
        ConnectorError::NotSupported { message, .. } => ApiErrorResponse::NotSupported { message },
        ConnectorError::FailedToObtainAuthType
        | ConnectorError::ResponseHandlingFailed
        | ConnectorError::ResponseDeserializationFailed => ApiErrorResponse::InternalServerError,
    }
}

impl From<ConnectorError> for ApiErrorResponse {
    fn from(e: ConnectorError) -> (r: Self) {
        match e {
            ConnectorError::MissingRequiredField { field_name } => ApiErrorResponse::MissingRequiredField { field_name },
            ConnectorError::NotImplemented(message) => ApiErrorResponse::NotSupported { message },
            ConnectorError::NotSupported { message, .. } => ApiErrorResponse::NotSupported { message },
            ConnectorError::FailedToObtainAuthType
            | ConnectorError::ResponseHandlingFailed
            | ConnectorError::ResponseDeserializationFailed => ApiErrorResponse::InternalServerError,
        }
    }
}

impl vstd::std_specs::convert::FromSpecImpl<ConnectorError> for ApiErrorResponse {
    open spec fn obeys_from_spec() -> bool {
        true
    }

    open spec fn from_spec(e: ConnectorError) -> Self {
        spec_api_error_of(e)
    }
}

} // verus!
