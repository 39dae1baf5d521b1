//! Connector transformers and the payment operation pipeline of a payment router.

pub mod errors;
pub mod types;
pub mod nooni;
pub mod payu;
pub mod payments;
pub mod complete_authorize;
pub mod diesel_array;
pub mod user;
pub mod connectors;
