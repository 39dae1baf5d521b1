//! The records that the pipeline reads and writes: the payment intent, its
//! attempts, the incoming request, and the working copy merged from them.
use vstd::prelude::*;

use crate::types::{AttemptStatus, BrowserInformation, Currency, IntentStatus, PaymentMethod, PaymentMethodData};

verus! {

/// Incoming value if present, else the persisted one: a merge never empties a field.
pub open spec fn coalesce<T>(incoming: Option<T>, persisted: Option<T>) -> Option<T> {
    match incoming {
        Some(v) => Some(v),
        None => persisted,
    }
}

pub fn coalesce_field<T>(incoming: Option<T>, persisted: Option<T>) -> (r: Option<T>)
    ensures
        r == coalesce(incoming, persisted),
{
    match incoming {
        Some(v) => Some(v),
        None => persisted,
    }
}

pub fn clone_opt_string(o: &Option<String>) -> (r: Option<String>)
    ensures
        r == *o,
{
    match o {
        Some(s) => Some(s.clone()),
        None => None,
    }
}

/// Whether a payment method is kept for later payments, and with the customer present or not.
#[derive(Clone, Copy, Debug, PartialEq, Eq, Structural)]
pub enum FutureUsage {
    OffSession,
    OnSession,
}

/// How strongly the storage collaborator must keep reads consistent.
#[derive(Clone, Copy, Debug, PartialEq, Eq, Structural)]
pub enum MerchantStorageScheme {
    PostgresOnly,
    RedisKv,
}

#[derive(Clone, Copy, Debug, PartialEq, Eq, Structural)]
pub enum MandateTransactionType {
    NewMandateTransaction,
    RecurringMandateTransaction,
}

#[derive(Clone, Copy, Debug, PartialEq, Eq, Structural)]
pub enum RetryAction {
    ManualRetry,
    Requeue,
}

/// The ways a request may name a payment.
#[derive(Clone, Debug)]
pub enum PaymentIdType {
    PaymentIntentId(String),
    ConnectorTransactionId(String),
    PaymentAttemptId(String),
    PreprocessingId(String),
}

#[derive(Clone, Debug)]
pub struct MerchantAccount {
    pub merchant_id: String,
    pub storage_scheme: MerchantStorageScheme,
}

/// A mandate that a payment asks to set up; its terms are carried as serialized text.
#[derive(Clone, Debug)]
pub struct MandateData {
    pub update_mandate_id: Option<String>,
    pub customer_acceptance: Option<String>,
    pub mandate_type: Option<String>,
}

#[derive(Clone, Debug)]
pub struct RecurringMandatePaymentData {
    pub payment_method_type: Option<String>,
}

#[derive(Clone, Debug)]
pub struct MandateConnectorDetails {
    pub connector: String,
    pub merchant_connector_id: Option<String>,
}

/// What a customer's redirect back to the merchant brought.
#[derive(Clone, Debug)]
pub struct RedirectResponse {
    pub param: Option<String>,
    pub json_payload: Option<String>,
}

#[derive(Clone, Debug)]
pub struct FeatureMetadata {
    pub redirect_response: Option<RedirectResponse>,
}

impl RedirectResponse {
    pub fn copy(&self) -> (r: Self)
        ensures
            r == *self,
    {
        RedirectResponse { param: clone_opt_string(&self.param), json_payload: clone_opt_string(&self.json_payload) }
    }
}

impl FeatureMetadata {
    pub fn copy(&self) -> (r: Self)
        ensures
            r == *self,
    {
        let redirect_response = match &self.redirect_response {
            Some(rr) => Some(rr.copy()),
            None => None,
        };
        FeatureMetadata { redirect_response }
    }
}

#[derive(Clone, Debug)]
pub struct AddressDetails {
    pub line1: Option<String>,
    pub city: Option<String>,
    pub zip: Option<String>,
    pub country: Option<String>,
    pub first_name: Option<String>,
    pub last_name: Option<String>,
}

/// An address as stored, under its id.
#[derive(Clone, Debug)]
pub struct Address {
    pub address_id: String,
    pub details: AddressDetails,
}

#[derive(Clone, Debug)]
pub struct PaymentAddress {
    pub shipping: Option<Address>,
    pub billing: Option<Address>,
}

#[derive(Clone, Debug)]
pub struct BusinessProfile {
    pub profile_id: String,
    pub profile_name: String,
    pub merchant_id: String,
}

/// The merchant-level record of one payment.
#[derive(Clone, Debug)]
pub struct PaymentIntent {
    pub payment_id: String,
    pub merchant_id: String,
    pub status: IntentStatus,
    pub amount: i64,
    pub currency: Option<Currency>,
    pub customer_id: Option<String>,
    pub shipping_address_id: Option<String>,
    pub billing_address_id: Option<String>,
    pub return_url: Option<String>,
    pub setup_future_usage: Option<FutureUsage>,
    pub metadata: Option<String>,
    pub allowed_payment_method_types: Option<String>,
    pub connector_metadata: Option<String>,
    pub feature_metadata: Option<FeatureMetadata>,
    pub profile_id: Option<String>,
    pub active_attempt_id: String,
}

/// One dispatch try against a connector.
#[derive(Clone, Debug)]
pub struct PaymentAttempt {
    pub attempt_id: String,
    pub payment_id: String,
    pub merchant_id: String,
    pub connector: Option<String>,
    pub status: AttemptStatus,
    pub amount: i64,
    pub currency: Option<Currency>,
    pub payment_method: Option<PaymentMethod>,
    pub payment_method_type: Option<String>,
    pub payment_token: Option<String>,
    pub browser_info: Option<BrowserInformation>,
    pub payment_experience: Option<String>,
}

/// A payment request as the merchant sent it. The metadata blobs are serialized text.
#[derive(Clone, Debug)]
pub struct PaymentsRequest {
    pub payment_id: Option<PaymentIdType>,
    pub merchant_id: Option<String>,
    pub confirm: Option<bool>,
    pub customer_id: Option<String>,
    pub email: Option<String>,
    pub name: Option<String>,
    pub phone: Option<String>,
    pub phone_country_code: Option<String>,
    pub setup_future_usage: Option<FutureUsage>,
    pub mandate_data: Option<MandateData>,
    pub mandate_id: Option<String>,
    pub payment_method: Option<PaymentMethod>,
    pub payment_method_data: Option<PaymentMethodData>,
    pub payment_method_type: Option<String>,
    pub payment_token: Option<String>,
    pub card_cvc: Option<String>,
    pub browser_info: Option<BrowserInformation>,
    pub payment_experience: Option<String>,
    pub shipping: Option<AddressDetails>,
    pub billing: Option<AddressDetails>,
    pub return_url: Option<String>,
    pub metadata: Option<String>,
    pub allowed_payment_method_types: Option<String>,
    pub connector_metadata: Option<String>,
    pub feature_metadata: Option<FeatureMetadata>,
    pub routing: Option<String>,
    pub retry_action: Option<RetryAction>,
}

#[derive(Clone, Debug)]
pub struct CustomerDetails {
    pub customer_id: Option<String>,
    pub name: Option<String>,
    pub email: Option<String>,
    pub phone: Option<String>,
    pub phone_country_code: Option<String>,
}

#[derive(Clone, Debug)]
pub struct Customer {
    pub customer_id: String,
    pub merchant_id: String,
    pub name: Option<String>,
    pub email: Option<String>,
    pub phone: Option<String>,
}

/// The working copy that the pipeline's stages share and finally persist.
#[derive(Clone, Debug)]
pub struct PaymentData {
    pub payment_intent: PaymentIntent,
    pub payment_attempt: PaymentAttempt,
    pub currency: Currency,
    pub amount: i64,
    pub email: Option<String>,
    pub mandate_id: Option<String>,
    pub mandate_connector: Option<MandateConnectorDetails>,
    pub setup_mandate: Option<MandateData>,
    pub token: Option<String>,
    pub address: PaymentAddress,
    pub confirm: Option<bool>,
    pub payment_method_data: Option<PaymentMethodData>,
    pub card_cvc: Option<String>,
    pub recurring_mandate_payment_data: Option<RecurringMandatePaymentData>,
    pub redirect_response: Option<RedirectResponse>,
}

/// Which connector serves a payment: the one the request routes to, or the
/// routing algorithm's choice.
#[derive(Clone, Debug)]
pub enum ConnectorChoice {
    StraightThrough(String),
    Decide,
}

/// What request validation hands on to the later stages.
#[derive(Clone, Debug)]
pub struct ValidateResult {
    pub merchant_id: String,
    pub payment_id: PaymentIdType,
    pub mandate_type: Option<MandateTransactionType>,
    pub storage_scheme: MerchantStorageScheme,
    pub requeue: bool,
}

/// Where the payment method data of a payment comes from.
#[derive(Clone, Debug)]
pub enum PaymentMethodDataSource {
    /// The request carries the data itself.
    Request,
    /// The vault holds it under this token.
    Vault { token: String },
    Absent,
}

} // verus!
