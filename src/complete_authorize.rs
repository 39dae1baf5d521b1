//! The CompleteAuthorize operation: it finishes an authorization that the
//! customer had to complete elsewhere (a 3-D Secure challenge, a redirect).
//! Storage and vault lookups are done by the caller; the decisions are here.
use vstd::prelude::*;
use vstd::string::StrSliceExecFns;

use crate::errors::ApiErrorResponse;
use crate::payments::{
    clone_opt_string, coalesce, coalesce_field, Address, BusinessProfile, ConnectorChoice, Customer,
    CustomerDetails, FutureUsage, MandateConnectorDetails, MandateData, MandateTransactionType,
    MerchantAccount, PaymentAddress, PaymentAttempt, PaymentData, PaymentIdType, PaymentIntent,
    PaymentMethodDataSource, PaymentsRequest, RecurringMandatePaymentData, RetryAction, ValidateResult,
};
use crate::types::{IntentStatus, PaymentMethod, PaymentMethodData};

verus! {

/// The longest payment id accepted, in characters.
pub const MAX_ID_LENGTH: usize = 64;

#[derive(Clone, Copy, Debug)]
pub struct CompleteAuthorize;

/// What the vault and mandate collaborator resolved for a request.
#[derive(Clone, Debug)]
pub struct TokenDetails {
    pub token: Option<String>,
    pub payment_method: Option<PaymentMethod>,
    pub payment_method_type: Option<String>,
    pub setup_mandate: Option<MandateData>,
    pub recurring_mandate_payment_data: Option<RecurringMandatePaymentData>,
    pub mandate_connector: Option<MandateConnectorDetails>,
}

/// What storage and the collaborators produced for one request: the intent found
/// by its payment id, its active attempt, the resolved addresses and the business
/// profile found by the intent's profile id (`None` where there is none).
#[derive(Clone, Debug)]
pub struct TrackerSources {
    pub payment_intent: PaymentIntent,
    pub payment_attempt: PaymentAttempt,
    pub token_details: TokenDetails,
    /// Whether this connector and method keep payment data in the vault, so that
    /// the request must give either the data or a token.
    pub vault_validation_required: bool,
    pub shipping_address: Option<Address>,
    pub billing_address: Option<Address>,
    pub business_profile: Option<BusinessProfile>,
}

#[derive(Clone, Debug)]
pub struct GetTrackerResponse {
    pub customer_details: Option<CustomerDetails>,
    pub payment_data: PaymentData,
    pub business_profile: BusinessProfile,
}

pub open spec fn payment_id_text(id: PaymentIdType) -> String {
    match id {
        PaymentIdType::PaymentIntentId(s) => s,
        PaymentIdType::ConnectorTransactionId(s) => s,
        PaymentIdType::PaymentAttemptId(s) => s,
        PaymentIdType::PreprocessingId(s) => s,
    }
}

impl PaymentIdType {
    pub fn copy(&self) -> (r: Self)
        ensures
            r == *self,
    {
        match self {
            PaymentIdType::PaymentIntentId(s) => PaymentIdType::PaymentIntentId(s.clone()),
            PaymentIdType::ConnectorTransactionId(s) => PaymentIdType::ConnectorTransactionId(s.clone()),
            PaymentIdType::PaymentAttemptId(s) => PaymentIdType::PaymentAttemptId(s.clone()),
            PaymentIdType::PreprocessingId(s) => PaymentIdType::PreprocessingId(s.clone()),
        }
    }

    /// The id of the payment intent, where this names one.
    pub fn get_payment_intent_id(&self) -> (r: Result<String, ApiErrorResponse>)
        ensures
            match *self {
                PaymentIdType::PaymentIntentId(s) => r == Ok::<String, ApiErrorResponse>(s),
                _ => r == Err::<String, ApiErrorResponse>(ApiErrorResponse::PaymentNotFound),
            },
    {
        match self {
            PaymentIdType::PaymentIntentId(s) => Ok(s.clone()),
            _ => Err(ApiErrorResponse::PaymentNotFound),
        }
    }
}

/// The kind of mandate transaction a request asks for, or why its mandate fields clash.
pub open spec fn spec_mandate_type(request: PaymentsRequest) -> Result<Option<MandateTransactionType>, ApiErrorResponse> {
    match (request.mandate_data, request.mandate_id) {
        (Some(_), Some(_)) => Err(ApiErrorResponse::MandateValidationFailed {
            reason: "Expected one out of mandate_id and mandate_data but got both",
        }),
        (Some(_), None) => if request.setup_future_usage == Some(FutureUsage::OnSession) {
            Err(ApiErrorResponse::MandateValidationFailed {
                reason: "`setup_future_usage` must be `off_session` for mandates",
            })
        } else {
            Ok(Some(MandateTransactionType::NewMandateTransaction))
        },
        (None, Some(_)) => Ok(Some(MandateTransactionType::RecurringMandateTransaction)),
        (None, None) => Ok(None),
    }
}

pub fn validate_mandate(request: &PaymentsRequest) -> (r: Result<Option<MandateTransactionType>, ApiErrorResponse>)
    ensures
        r == spec_mandate_type(*request),
{
    match (&request.mandate_data, &request.mandate_id) {
        (Some(_), Some(_)) => Err(ApiErrorResponse::MandateValidationFailed {
            reason: "Expected one out of mandate_id and mandate_data but got both",
        }),
        (Some(_), None) => match request.setup_future_usage {
            Some(FutureUsage::OnSession) => Err(ApiErrorResponse::MandateValidationFailed {
                reason: "`setup_future_usage` must be `off_session` for mandates",
            }),
            _ => Ok(Some(MandateTransactionType::NewMandateTransaction)),
        },
        (None, Some(_)) => Ok(Some(MandateTransactionType::RecurringMandateTransaction)),
        (None, None) => Ok(None),
    }
}

/// What validating a request gives: checks in this order, the first that fails decides.
pub open spec fn spec_validate_request(request: PaymentsRequest, merchant_account: MerchantAccount) -> Result<ValidateResult, ApiErrorResponse> {
    match request.payment_id {
        None => Err(ApiErrorResponse::PaymentNotFound),
        Some(payment_id) => {
            if request.merchant_id matches Some(m) && m@ != merchant_account.merchant_id@ {
                Err(ApiErrorResponse::InvalidDataFormat {
                    field_name: "merchant_id",
                    expected_format: "merchant_id from merchant account",
                })
            } else if request.payment_method_data is Some && request.payment_method is None {
                Err(ApiErrorResponse::MissingRequiredField { field_name: "payment_method" })
            } else {
                match spec_mandate_type(request) {
                    Err(e) => Err(e),
                    Ok(mandate_type) => if payment_id_text(payment_id)@.len() > MAX_ID_LENGTH {
                        Err(ApiErrorResponse::InvalidDataFormat {
                            field_name: "payment_id",
                            expected_format: "length should be less than 64 characters",
                        })
                    } else {
                        Ok(ValidateResult {
                            merchant_id: merchant_account.merchant_id,
                            payment_id,
                            mandate_type,
                            storage_scheme: merchant_account.storage_scheme,
                            requeue: request.retry_action == Some(RetryAction::Requeue),
                        })
                    },
                }
            }
        },
    }
}

/// An operation on an intent in a terminal status is refused.
pub open spec fn spec_guard_intent_status(status: IntentStatus, action: &'static str) -> Result<(), ApiErrorResponse> {
    if status.spec_is_terminal() {
        Err(ApiErrorResponse::PaymentUnexpectedState { current_flow: action, current_value: status })
    } else {
        Ok(())
    }
}

/// Refuses `action` on an intent whose status is terminal.
pub fn guard_intent_status(status: IntentStatus, action: &'static str) -> (r: Result<(), ApiErrorResponse>)
    ensures
        r == spec_guard_intent_status(status, action),
{
    if status.is_terminal() {
        Err(ApiErrorResponse::PaymentUnexpectedState { current_flow: action, current_value: status })
    } else {
        Ok(())
    }
}

pub open spec fn address_id(address: Option<Address>) -> Option<String> {
    match address {
        Some(a) => Some(a.address_id),
        None => None,
    }
}

fn copy_address_id(address: &Option<Address>) -> (r: Option<String>)
    ensures
        r == address_id(*address),
{
    match address {
        Some(a) => Some(a.address_id.clone()),
        None => None,
    }
}

/// The intent after merging a request into it: every optional field takes the
/// request's value where it has one and keeps the stored one otherwise.
pub open spec fn merge_intent(intent: PaymentIntent, request: PaymentsRequest, shipping: Option<Address>, billing: Option<Address>) -> PaymentIntent {
    PaymentIntent {
        setup_future_usage: coalesce(request.setup_future_usage, intent.setup_future_usage),
        shipping_address_id: coalesce(address_id(shipping), intent.shipping_address_id),
        billing_address_id: coalesce(address_id(billing), intent.billing_address_id),
        return_url: coalesce(request.return_url, intent.return_url),
        allowed_payment_method_types: coalesce(request.allowed_payment_method_types, intent.allowed_payment_method_types),
        connector_metadata: coalesce(request.connector_metadata, intent.connector_metadata),
        feature_metadata: coalesce(request.feature_metadata, intent.feature_metadata),
        metadata: coalesce(request.metadata, intent.metadata),
        ..intent
    }
}

/// The attempt after merging the request and what the vault resolved into it.
pub open spec fn merge_attempt(attempt: PaymentAttempt, request: PaymentsRequest, details: TokenDetails) -> PaymentAttempt {
    PaymentAttempt {
        payment_method: coalesce(details.payment_method, attempt.payment_method),
        browser_info: coalesce(request.browser_info, attempt.browser_info),
        payment_method_type: coalesce(details.payment_method_type, attempt.payment_method_type),
        payment_experience: coalesce(request.payment_experience, attempt.payment_experience),
        ..attempt
    }
}

/// The payment method data or a token is given, or neither is needed.
pub open spec fn pm_or_token_present(
    payment_method: Option<PaymentMethod>,
    payment_method_data: Option<PaymentMethodData>,
    mandate_type: Option<MandateTransactionType>,
    token: Option<String>,
) -> bool {
    ||| mandate_type == Some(MandateTransactionType::RecurringMandateTransaction)
    ||| token is Some
    ||| (payment_method_data is Some && payment_method is Some)
}

pub open spec fn pm_or_token_given(request: PaymentsRequest, mandate_type: Option<MandateTransactionType>, token: Option<String>) -> bool {
    pm_or_token_present(request.payment_method, request.payment_method_data, mandate_type, token)
}

pub open spec fn spec_validate_pm_or_token_given(
    payment_method: Option<PaymentMethod>,
    payment_method_data: Option<PaymentMethodData>,
    mandate_type: Option<MandateTransactionType>,
    token: Option<String>,
) -> Result<(), ApiErrorResponse> {
    if pm_or_token_present(payment_method, payment_method_data, mandate_type, token) {
        Ok(())
    } else {
        Err(ApiErrorResponse::MissingRequiredField { field_name: "payment_method_data" })
    }
}

pub fn validate_pm_or_token_given(
    payment_method: &Option<PaymentMethod>,
    payment_method_data: &Option<PaymentMethodData>,
    mandate_type: Option<MandateTransactionType>,
    token: &Option<String>,
) -> (r: Result<(), ApiErrorResponse>)
    ensures
        r == spec_validate_pm_or_token_given(*payment_method, *payment_method_data, mandate_type, *token),
{
    let recurring = match mandate_type {
        Some(MandateTransactionType::RecurringMandateTransaction) => true,
        _ => false,
    };
    if recurring || token.is_some() || (payment_method_data.is_some() && payment_method.is_some()) {
        Ok(())
    } else {
        Err(ApiErrorResponse::MissingRequiredField { field_name: "payment_method_data" })
    }
}

/// What the tracker stage makes of a request and what storage holds for it.
/// The checks come in this order, and the first that fails decides.
pub open spec fn spec_get_trackers(request: PaymentsRequest, mandate_type: Option<MandateTransactionType>, sources: TrackerSources) -> Result<GetTrackerResponse, ApiErrorResponse> {
    let intent = sources.payment_intent;
    let attempt = sources.payment_attempt;
    let details = sources.token_details;
    let token = coalesce(details.token, attempt.payment_token);
    if intent.status.spec_is_terminal() {
        Err(ApiErrorResponse::PaymentUnexpectedState { current_flow: "confirm", current_value: intent.status })
    } else if details.payment_method is Some && sources.vault_validation_required
        && !pm_or_token_given(request, mandate_type, token) {
        Err(ApiErrorResponse::MissingRequiredField { field_name: "payment_method_data" })
    } else if attempt.currency is None {
        Err(ApiErrorResponse::MissingRequiredField { field_name: "currency" })
    } else if request.setup_future_usage is Some && coalesce(intent.customer_id, request.customer_id) is None {
        Err(ApiErrorResponse::MissingRequiredField { field_name: "customer_id" })
    } else if intent.profile_id is None {
        Err(ApiErrorResponse::InternalServerError)
    } else if sources.business_profile is None {
        Err(ApiErrorResponse::BusinessProfileNotFound { id: intent.profile_id->0 })
    } else {
        Ok(GetTrackerResponse {
            customer_details: Some(CustomerDetails {
                customer_id: request.customer_id,
                name: request.name,
                email: request.email,
                phone: request.phone,
                phone_country_code: request.phone_country_code,
            }),
            payment_data: PaymentData {
                payment_intent: merge_intent(intent, request, sources.shipping_address, sources.billing_address),
                payment_attempt: merge_attempt(attempt, request, details),
                currency: attempt.currency->0,
                amount: attempt.amount,
                email: request.email,
                mandate_id: None,
                mandate_connector: details.mandate_connector,
                setup_mandate: details.setup_mandate,
                token,
                address: PaymentAddress { shipping: sources.shipping_address, billing: sources.billing_address },
                confirm: request.confirm,
                payment_method_data: request.payment_method_data,
                card_cvc: request.card_cvc,
                recurring_mandate_payment_data: details.recurring_mandate_payment_data,
                redirect_response: match request.feature_metadata {
                    Some(fm) => fm.redirect_response,
                    None => None,
                },
            },
            business_profile: sources.business_profile->0,
        })
    }
}

impl CompleteAuthorize {
    /// Checks a request before anything is read from storage.
    pub fn validate_request(&self, request: &PaymentsRequest, merchant_account: &MerchantAccount) -> (r: Result<ValidateResult, ApiErrorResponse>)
        ensures
            r == spec_validate_request(*request, *merchant_account),
    {
        let payment_id = match &request.payment_id {
            Some(id) => id,
            None => return Err(ApiErrorResponse::PaymentNotFound),
        };
        if let Some(m) = &request.merchant_id {
            if !(*m == merchant_account.merchant_id) {
                return Err(ApiErrorResponse::InvalidDataFormat {
                    field_name: "merchant_id",
                    expected_format: "merchant_id from merchant account",
                });
            }
        }
        if request.payment_method_data.is_some() && request.payment_method.is_none() {
            return Err(ApiErrorResponse::MissingRequiredField { field_name: "payment_method" });
        }
        let mandate_type = match validate_mandate(request) {
            Ok(t) => t,
            Err(e) => return Err(e),
        };
        let id_text = match payment_id {
            PaymentIdType::PaymentIntentId(s) => s,
            PaymentIdType::ConnectorTransactionId(s) => s,
            PaymentIdType::PaymentAttemptId(s) => s,
            PaymentIdType::PreprocessingId(s) => s,
        };
        if id_text.as_str().unicode_len() > MAX_ID_LENGTH {
            return Err(ApiErrorResponse::InvalidDataFormat {
                field_name: "payment_id",
                expected_format: "length should be less than 64 characters",
            });
        }
        let requeue = match request.retry_action {
            Some(RetryAction::Requeue) => true,
            _ => false,
        };
        Ok(ValidateResult {
            merchant_id: merchant_account.merchant_id.clone(),
            payment_id: payment_id.copy(),
            mandate_type,
            storage_scheme: merchant_account.storage_scheme,
            requeue,
        })
    }

    /// Merges the request into the stored intent and its active attempt, and
    /// assembles the working copy that the later stages share.
    pub fn get_trackers(&self, request: PaymentsRequest, mandate_type: Option<MandateTransactionType>, sources: TrackerSources) -> (r: Result<GetTrackerResponse, ApiErrorResponse>)
        ensures
            r == spec_get_trackers(request, mandate_type, sources),
    {
        let ghost req = request;
        let ghost src = sources;
        let TrackerSources {
            payment_intent: mut intent,
            payment_attempt: mut attempt,
            token_details,
            vault_validation_required,
            shipping_address,
            billing_address,
            business_profile,
        } = sources;
        let TokenDetails {
            token,
            payment_method,
            payment_method_type,
            setup_mandate,
            recurring_mandate_payment_data,
            mandate_connector,
        } = token_details;
        intent.setup_future_usage = coalesce_field(request.setup_future_usage, intent.setup_future_usage);
        match guard_intent_status(intent.status, "confirm") {
            Ok(()) => {},
            Err(e) => return Err(e),
        }
        let token = coalesce_field(token, clone_opt_string(&attempt.payment_token));
        if payment_method.is_some() && vault_validation_required {
            match validate_pm_or_token_given(&request.payment_method, &request.payment_method_data, mandate_type, &token) {
                Ok(()) => {},
                Err(e) => return Err(e),
            }
        }
        let currency = match attempt.currency {
            Some(c) => c,
            None => return Err(ApiErrorResponse::MissingRequiredField { field_name: "currency" }),
        };
        let amount = attempt.amount;
        if request.setup_future_usage.is_some() && intent.customer_id.is_none() && request.customer_id.is_none() {
            return Err(ApiErrorResponse::MissingRequiredField { field_name: "customer_id" });
        }
        let profile_id = match &intent.profile_id {
            Some(p) => p,
            None => return Err(ApiErrorResponse::InternalServerError),
        };
        let business_profile = match business_profile {
            Some(b) => b,
            None => return Err(ApiErrorResponse::BusinessProfileNotFound { id: profile_id.clone() }),
        };

        let PaymentsRequest {
            payment_id: _,
            merchant_id: _,
            confirm,
            customer_id,
            email,
            name,
            phone,
            phone_country_code,
            setup_future_usage: _,
            mandate_data: _,
            mandate_id: _,
            payment_method: _,
            payment_method_data,
            payment_method_type: _,
            payment_token: _,
            card_cvc,
            browser_info,
            payment_experience,
            shipping: _,
            billing: _,
            return_url,
            metadata,
            allowed_payment_method_types,
            connector_metadata,
            feature_metadata,
            routing: _,
            retry_action: _,
        } = request;

        attempt.payment_method = coalesce_field(payment_method, attempt.payment_method);
        attempt.browser_info = coalesce_field(browser_info, attempt.browser_info);
        attempt.payment_method_type = coalesce_field(payment_method_type, attempt.payment_method_type);
        attempt.payment_experience = coalesce_field(payment_experience, attempt.payment_experience);

        let redirect_response = match &feature_metadata {
            Some(fm) => match &fm.redirect_response {
                Some(rr) => Some(rr.copy()),
                None => None,
            },
            None => None,
        };
        intent.shipping_address_id = coalesce_field(copy_address_id(&shipping_address), intent.shipping_address_id);
        intent.billing_address_id = coalesce_field(copy_address_id(&billing_address), intent.billing_address_id);
        intent.return_url = coalesce_field(return_url, intent.return_url);
        intent.allowed_payment_method_types = coalesce_field(allowed_payment_method_types, intent.allowed_payment_method_types);
        intent.connector_metadata = coalesce_field(connector_metadata, intent.connector_metadata);
        intent.feature_metadata = coalesce_field(feature_metadata, intent.feature_metadata);
        intent.metadata = coalesce_field(metadata, intent.metadata);

        let customer_details = Some(CustomerDetails {
            customer_id,
            name,
            email: clone_opt_string(&email),
            phone,
            phone_country_code,
        });
        let payment_data = PaymentData {
            payment_intent: intent,
            payment_attempt: attempt,
            currency,
            amount,
            email,
            mandate_id: None,
            mandate_connector,
            setup_mandate,
            token,
            address: PaymentAddress { shipping: shipping_address, billing: billing_address },
            confirm,
            payment_method_data,
            card_cvc,
            recurring_mandate_payment_data,
            redirect_response,
        };
        proof {
            assert(payment_data.payment_intent == merge_intent(src.payment_intent, req, src.shipping_address, src.billing_address));
            assert(payment_data.payment_attempt == merge_attempt(src.payment_attempt, req, src.token_details));
        }
        Ok(GetTrackerResponse { customer_details, payment_data, business_profile })
    }
}

impl CompleteAuthorize {
    /// Picks the connector: the one the request routes to, else the routing
    /// algorithm decides.
    pub fn get_connector(&self, request: &PaymentsRequest) -> (r: ConnectorChoice)
        ensures
            match request.routing {
                Some(routing) => r == ConnectorChoice::StraightThrough(routing),
                None => r == ConnectorChoice::Decide,
            },
    {
        match &request.routing {
            Some(routing) => ConnectorChoice::StraightThrough(routing.clone()),
            None => ConnectorChoice::Decide,
        }
    }

    /// Where the payment method data comes from: the request's own data if it
    /// has some, else the vault, through the payment's token.
    pub fn make_pm_data(&self, payment_data: &PaymentData) -> (r: PaymentMethodDataSource)
        ensures
            payment_data.payment_method_data is Some ==> r == PaymentMethodDataSource::Request,
            payment_data.payment_method_data is None ==> match payment_data.token {
                Some(token) => r == PaymentMethodDataSource::Vault { token },
                None => r == PaymentMethodDataSource::Absent,
            },
    {
        if payment_data.payment_method_data.is_some() {
            PaymentMethodDataSource::Request
        } else {
            match &payment_data.token {
                Some(token) => PaymentMethodDataSource::Vault { token: token.clone() },
                None => PaymentMethodDataSource::Absent,
            }
        }
    }

    /// The customer to find or create for this payment: the one the request names,
    /// else the intent's own; `None` for a guest payment.
    pub fn customer_to_resolve(&self, details: &Option<CustomerDetails>, payment_data: &PaymentData) -> (r: Option<String>)
        ensures
            r == coalesce(
                match *details {
                    Some(d) => d.customer_id,
                    None => None,
                },
                payment_data.payment_intent.customer_id,
            ),
    {
        let requested = match details {
            Some(d) => clone_opt_string(&d.customer_id),
            None => None,
        };
        coalesce_field(requested, clone_opt_string(&payment_data.payment_intent.customer_id))
    }

    /// Records the customer that storage found or created for this payment; a
    /// guest payment (`None`) leaves the working copy as it was.
    pub fn attach_customer(&self, payment_data: &mut PaymentData, customer: &Option<Customer>)
        ensures
            match *customer {
                Some(c) => *final(payment_data) == (PaymentData {
                    payment_intent: PaymentIntent { customer_id: Some(c.customer_id), ..old(payment_data).payment_intent },
                    email: coalesce(old(payment_data).email, c.email),
                    ..*old(payment_data)
                }),
                None => *final(payment_data) == *old(payment_data),
            },
    {
        if let Some(c) = customer {
            payment_data.payment_intent.customer_id = Some(c.customer_id.clone());
            if payment_data.email.is_none() {
                payment_data.email = clone_opt_string(&c.email);
            }
        }
    }

    /// CompleteAuthorize schedules no follow-up task.
    pub fn add_task_to_process_tracker(&self, payment_attempt: &PaymentAttempt, requeue: bool) -> (r: Result<(), ApiErrorResponse>)
        ensures
            r is Ok,
    {
        Ok(())
    }

    /// The state to persist: CompleteAuthorize writes the working copy unchanged,
    /// as the dispatch left it.
    pub fn update_trackers(&self, payment_data: PaymentData) -> (r: Result<PaymentData, ApiErrorResponse>)
        ensures
            r == Ok::<PaymentData, ApiErrorResponse>(payment_data),
    {
        Ok(payment_data)
    }
}

/// Merging never empties a field: whatever the stored intent and attempt held,
/// the merged ones still hold.
pub proof fn merge_never_empties(
    intent: PaymentIntent,
    attempt: PaymentAttempt,
    request: PaymentsRequest,
    details: TokenDetails,
    shipping: Option<Address>,
    billing: Option<Address>,
)
    ensures
        ({
            let merged = merge_intent(intent, request, shipping, billing);
            &&& intent.setup_future_usage is Some ==> merged.setup_future_usage is Some
            &&& intent.shipping_address_id is Some ==> merged.shipping_address_id is Some
            &&& intent.billing_address_id is Some ==> merged.billing_address_id is Some
            &&& intent.return_url is Some ==> merged.return_url is Some
            &&& intent.allowed_payment_method_types is Some ==> merged.allowed_payment_method_types is Some
            &&& intent.connector_metadata is Some ==> merged.connector_metadata is Some
            &&& intent.feature_metadata is Some ==> merged.feature_metadata is Some
            &&& intent.metadata is Some ==> merged.metadata is Some
            &&& intent.customer_id == merged.customer_id
            &&& intent.profile_id == merged.profile_id
            &&& intent.status == merged.status
        }),
        ({
            let merged = merge_attempt(attempt, request, details);
            &&& attempt.payment_method is Some ==> merged.payment_method is Some
            &&& attempt.browser_info is Some ==> merged.browser_info is Some
            &&& attempt.payment_method_type is Some ==> merged.payment_method_type is Some
            &&& attempt.payment_experience is Some ==> merged.payment_experience is Some
            &&& attempt.currency == merged.currency
            &&& attempt.payment_token == merged.payment_token
        }),
{
}

/// Tracking is idempotent: where the tracker stage succeeds and its merged intent
/// and attempt are stored, running it again with the same request and the same
/// collaborators' answers gives the identical result.
pub proof fn get_trackers_idempotent(request: PaymentsRequest, mandate_type: Option<MandateTransactionType>, sources: TrackerSources)
    requires
        spec_get_trackers(request, mandate_type, sources) is Ok,
    ensures
        ({
            let first = spec_get_trackers(request, mandate_type, sources)->Ok_0;
            let stored = TrackerSources {
                payment_intent: first.payment_data.payment_intent,
                payment_attempt: first.payment_data.payment_attempt,
                ..sources
            };
            spec_get_trackers(request, mandate_type, stored) == spec_get_trackers(request, mandate_type, sources)
        }),
{
    let first = spec_get_trackers(request, mandate_type, sources)->Ok_0;
    let stored = TrackerSources {
        payment_intent: first.payment_data.payment_intent,
        payment_attempt: first.payment_data.payment_attempt,
        ..sources
    };
    let merged_intent = merge_intent(sources.payment_intent, request, sources.shipping_address, sources.billing_address);
    let merged_attempt = merge_attempt(sources.payment_attempt, request, sources.token_details);
    assert(merge_intent(merged_intent, request, sources.shipping_address, sources.billing_address) == merged_intent);
    assert(merge_attempt(merged_attempt, request, sources.token_details) == merged_attempt);
}

/// An intent in a terminal status is refused before anything is merged: the
/// tracker stage fails with the unexpected-state error, and so does the status
/// guard for any operation.
pub proof fn terminal_intent_refused(request: PaymentsRequest, mandate_type: Option<MandateTransactionType>, sources: TrackerSources, action: &'static str)
    requires
        sources.payment_intent.status.spec_is_terminal(),
    ensures
        spec_get_trackers(request, mandate_type, sources) == Err::<GetTrackerResponse, ApiErrorResponse>(
            ApiErrorResponse::PaymentUnexpectedState { current_flow: "confirm", current_value: sources.payment_intent.status },
        ),
        spec_guard_intent_status(sources.payment_intent.status, action) == Err::<(), ApiErrorResponse>(
            ApiErrorResponse::PaymentUnexpectedState { current_flow: action, current_value: sources.payment_intent.status },
        ),
{
}

/// The status guard refuses exactly the terminal statuses.
pub proof fn guard_refuses_exactly_terminal(status: IntentStatus, action: &'static str)
    ensures
        spec_guard_intent_status(status, action) is Err <==> status.spec_is_terminal(),
{
}

} // verus!
