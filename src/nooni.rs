//! Transformers between the canonical model and the wire format of the Nooni connector.
use vstd::prelude::*;

use crate::errors::ConnectorError;
use crate::types::{
    AttemptStatus, Card, ConnectorAuthType, Currency, CurrencyUnit, Execute, PaymentMethodData,
    PaymentsAuthorizeRouterData, PaymentsResponseData, PaymentsResponseRouterData, RSync,
    RefundsResponseData, RefundsResponseRouterData, RefundsRouterData, ResponseId, RouterData,
};

verus! {

/// The credentials that Nooni expects: one key sent in a header.
#[derive(Clone, Debug)]
pub struct NooniAuthType {
    pub test_key: String,
}

/// What extracting Nooni's credentials gives for each credential shape.
pub open spec fn spec_nooni_auth(auth_type: ConnectorAuthType) -> Result<NooniAuthType, ConnectorError> {
    match auth_type {
        ConnectorAuthType::HeaderKey { api_key } => Ok(NooniAuthType { test_key: api_key }),
        _ => Err(ConnectorError::FailedToObtainAuthType),
    }
}

impl TryFrom<&ConnectorAuthType> for NooniAuthType {
    type Error = ConnectorError;

    fn try_from(auth_type: &ConnectorAuthType) -> (r: Result<Self, Self::Error>) {
        match auth_type {
            ConnectorAuthType::HeaderKey { api_key } => Ok(NooniAuthType { test_key: api_key.clone() }),
            _ => Err(ConnectorError::FailedToObtainAuthType),
        }
    }
}

impl vstd::std_specs::convert::TryFromSpecImpl<&ConnectorAuthType> for NooniAuthType {
    open spec fn obeys_try_from_spec() -> bool {
        true
    }

    open spec fn try_from_spec(auth_type: &ConnectorAuthType) -> Result<Self, Self::Error> {
        spec_nooni_auth(*auth_type)
    }
}


/// A router envelope together with the amount already converted to Nooni's unit.
#[derive(Clone, Debug)]
pub struct NooniRouterData<T> {
    pub amount: i64,
    pub router_data: T,
}

impl<T> TryFrom<(&CurrencyUnit, Currency, i64, T)> for NooniRouterData<T> {
    type Error = ConnectorError;

    fn try_from(value: (&CurrencyUnit, Currency, i64, T)) -> (r: Result<Self, Self::Error>) {
        let (_currency_unit, _currency, amount, item) = value;
        Ok(NooniRouterData { amount, router_data: item })
    }
}

impl<T> vstd::std_specs::convert::TryFromSpecImpl<(&CurrencyUnit, Currency, i64, T)> for NooniRouterData<T> {
    open spec fn obeys_try_from_spec() -> bool {
        true
    }

    /// The amount is taken as given: it was converted before.
    open spec fn try_from_spec(value: (&CurrencyUnit, Currency, i64, T)) -> Result<Self, Self::Error> {
        Ok(NooniRouterData { amount: value.2, router_data: value.3 })
    }
}

#[derive(Clone, Copy, Debug, PartialEq, Eq, Structural)]
pub enum NooniAuthorizeRequestSourceType {
    Card,
    GooglePay,
}

#[derive(Clone, Debug)]
pub struct NooniAuthorizeRequestSource {
    pub nooni_authorize_request_source_type: NooniAuthorizeRequestSourceType,
    pub number: String,
    pub expiry_month: String,
    pub expiry_year: String,
    pub name: String,
    pub cvv: String,
}

#[derive(Clone, Debug)]
pub struct NooniAuthorizeRequest {
    pub source: NooniAuthorizeRequestSource,
    pub processing_channel_id: &'static str,
    pub amount: i64,
    pub currency: Currency,
    pub reference: Option<String>,
    pub capture: bool,
}

/// The error for a capture method that one Nooni request cannot express.
pub open spec fn nooni_capture_not_supported() -> ConnectorError {
    ConnectorError::NotSupported { message: "Capture method", connector: "Nooni" }
}

/// The Nooni payment request for a card: captured at once where the intent asks
/// for automatic capture, and referenced by the attempt's request reference id.
pub open spec fn spec_nooni_card_request(item: NooniRouterData<&PaymentsAuthorizeRouterData>, card: Card) -> Result<NooniAuthorizeRequest, ConnectorError> {
    match item.router_data.request.spec_is_auto_capture() {
        None => Err(nooni_capture_not_supported()),
        Some(capture) => Ok(NooniAuthorizeRequest {
            source: NooniAuthorizeRequestSource {
                nooni_authorize_request_source_type: NooniAuthorizeRequestSourceType::Card,
                number: card.card_number,
                expiry_month: card.card_exp_month,
                expiry_year: card.card_exp_year,
                name: card.card_holder_name,
                cvv: card.card_cvc,
            },
            processing_channel_id: "pc_gcjstkyrr4eudnjkqlro3kymcu",
            amount: item.amount,
            currency: item.router_data.request.currency,
            reference: Some(item.router_data.connector_request_reference_id),
            capture,
        }),
    }
}

/// The Nooni payment request for each canonical payment method: cards only.
pub open spec fn spec_nooni_request(item: NooniRouterData<&PaymentsAuthorizeRouterData>) -> Result<NooniAuthorizeRequest, ConnectorError> {
    match item.router_data.request.payment_method_data {
        PaymentMethodData::Card(card) => spec_nooni_card_request(item, card),
        _ => Err(ConnectorError::NotImplemented("payment method")),
    }
}

impl TryFrom<(&NooniRouterData<&PaymentsAuthorizeRouterData>, &Card)> for NooniAuthorizeRequest {
    type Error = ConnectorError;

    fn try_from(value: (&NooniRouterData<&PaymentsAuthorizeRouterData>, &Card)) -> (r: Result<Self, Self::Error>) {
        let (item, card) = value;
        let capture = match item.router_data.request.is_auto_capture() {
            Some(c) => c,
            None => return Err(ConnectorError::NotSupported { message: "Capture method", connector: "Nooni" }),
        };
        let source = NooniAuthorizeRequestSource {
            nooni_authorize_request_source_type: NooniAuthorizeRequestSourceType::Card,
            number: card.card_number.clone(),
            expiry_month: card.card_exp_month.clone(),
            expiry_year: card.card_exp_year.clone(),
            name: card.card_holder_name.clone(),
            cvv: card.card_cvc.clone(),
        };
        Ok(NooniAuthorizeRequest {
            source,
            processing_channel_id: "pc_gcjstkyrr4eudnjkqlro3kymcu",
            amount: item.amount,
            currency: item.router_data.request.currency,
            reference: Some(item.router_data.connector_request_reference_id.clone()),
            capture,
        })
    }
}

impl vstd::std_specs::convert::TryFromSpecImpl<(&NooniRouterData<&PaymentsAuthorizeRouterData>, &Card)> for NooniAuthorizeRequest {
    open spec fn obeys_try_from_spec() -> bool {
        true
    }

    open spec fn try_from_spec(value: (&NooniRouterData<&PaymentsAuthorizeRouterData>, &Card)) -> Result<Self, Self::Error> {
        spec_nooni_card_request(*value.0, *value.1)
    }
}

impl TryFrom<&NooniRouterData<&PaymentsAuthorizeRouterData>> for NooniAuthorizeRequest {
    type Error = ConnectorError;

    fn try_from(item: &NooniRouterData<&PaymentsAuthorizeRouterData>) -> (r: Result<Self, Self::Error>) {
        match &item.router_data.request.payment_method_data {
            PaymentMethodData::Card(card) => NooniAuthorizeRequest::try_from((item, card)),
            _ => Err(ConnectorError::NotImplemented("payment method")),
        }
    }
}

impl vstd::std_specs::convert::TryFromSpecImpl<&NooniRouterData<&PaymentsAuthorizeRouterData>> for NooniAuthorizeRequest {
    open spec fn obeys_try_from_spec() -> bool {
        true
    }

    open spec fn try_from_spec(item: &NooniRouterData<&PaymentsAuthorizeRouterData>) -> Result<Self, Self::Error> {
        spec_nooni_request(*item)
    }
}

#[derive(Clone, Debug)]
pub struct NooniAuthorizeResponseBalances {
    pub total_authorized: i64,
    pub total_voided: i64,
    pub available_to_void: i64,
    pub total_captured: i64,
    pub available_to_capture: i64,
    pub total_refunded: i64,
    pub available_to_refund: i64,
}

#[derive(Clone, Debug)]
pub struct NooniAuthorizeResponseRisk {
    pub flagged: bool,
    pub score: i64,
}

#[derive(Clone, Debug)]
pub struct NooniAuthorizeResponseSource {
    pub id: String,
    pub nooni_authorize_response_source_type: String,
    pub expiry_month: i64,
    pub expiry_year: i64,
    pub name: String,
    pub scheme: String,
    pub last4: String,
    pub fingerprint: String,
    pub bin: String,
    pub card_type: String,
    pub card_category: String,
    pub issuer_country: String,
    pub product_id: String,
    pub product_type: String,
    pub avs_check: String,
    pub cvv_check: String,
    pub payment_account_reference: String,
}

#[derive(Clone, Debug)]
pub struct NooniAuthorizeResponseProcessing {
    pub acquirer_transaction_id: String,
    pub retrieval_reference_number: String,
    pub merchant_category_code: String,
    pub scheme_merchant_id: String,
    pub aft: bool,
}

#[derive(Clone, Debug)]
pub struct NooniAuthorizeResponseLinksSelf {
    pub href: String,
}

#[derive(Clone, Debug)]
pub struct NooniAuthorizeResponseLinksActions {
    pub href: String,
}

#[derive(Clone, Debug)]
pub struct NooniAuthorizeResponseLinksCapture {
    pub href: String,
}

#[derive(Clone, Debug)]
pub struct NooniAuthorizeResponseLinksVoid {
    pub href: String,
}

#[derive(Clone, Debug)]
pub struct NooniAuthorizeResponseLinks {
    pub nooni_authorize_response_links_self: NooniAuthorizeResponseLinksSelf,
    pub actions: NooniAuthorizeResponseLinksActions,
    pub capture: NooniAuthorizeResponseLinksCapture,
    pub void: NooniAuthorizeResponseLinksVoid,
}

#[derive(Clone, Debug)]
pub struct NooniAuthorizeResponse {
    pub id: String,
    pub action_id: String,
    pub amount: i64,
    pub currency: String,
    pub approved: bool,
    pub status: NooniAttemptStatus,
    pub auth_code: String,
    pub response_code: String,
    pub response_summary: String,
    pub balances: NooniAuthorizeResponseBalances,
    pub risk: NooniAuthorizeResponseRisk,
    pub source: NooniAuthorizeResponseSource,
    pub processed_on: String,
    pub reference: String,
    pub scheme_id: String,
    pub processing: NooniAuthorizeResponseProcessing,
    pub expires_on: String,
    pub links: NooniAuthorizeResponseLinks,
}

/// The status of a Nooni payment.
#[derive(Clone, Copy, Debug, PartialEq, Eq, Structural)]
pub enum NooniAttemptStatus {
    Authorized,
}

pub open spec fn spec_attempt_status_of_nooni(item: NooniAttemptStatus) -> AttemptStatus {
    match item {
        NooniAttemptStatus::Authorized => AttemptStatus::Authorized,
    }
}

impl From<NooniAttemptStatus> for AttemptStatus {
    fn from(item: NooniAttemptStatus) -> (r: Self) {
        match item {
            NooniAttemptStatus::Authorized => AttemptStatus::Authorized,
        }
    }
}

impl vstd::std_specs::convert::FromSpecImpl<NooniAttemptStatus> for AttemptStatus {
    open spec fn obeys_from_spec() -> bool {
        true
    }

    open spec fn from_spec(item: NooniAttemptStatus) -> Self {
        spec_attempt_status_of_nooni(item)
    }
}

/// What Nooni's answer to a payment request makes of the envelope: the mapped
/// status, and a transaction response under Nooni's payment id.
pub open spec fn spec_nooni_authorize_response(item: PaymentsResponseRouterData<NooniAuthorizeResponse>) -> PaymentsAuthorizeRouterData {
    RouterData {
        status: spec_attempt_status_of_nooni(item.response.status),
        response: Ok(PaymentsResponseData::TransactionResponse {
            resource_id: ResponseId::ConnectorTransactionId(item.response.id),
            redirection_data: None,
            mandate_reference: None,
            connector_metadata: None,
            network_txn_id: None,
            connector_response_reference_id: None,
        }),
        ..item.data
    }
}

impl TryFrom<PaymentsResponseRouterData<NooniAuthorizeResponse>> for PaymentsAuthorizeRouterData {
    type Error = ConnectorError;

    fn try_from(item: PaymentsResponseRouterData<NooniAuthorizeResponse>) -> (r: Result<Self, Self::Error>) {
        Ok(RouterData {
            status: AttemptStatus::from(item.response.status),
            response: Ok(PaymentsResponseData::TransactionResponse {
                resource_id: ResponseId::ConnectorTransactionId(item.response.id),
                redirection_data: None,
                mandate_reference: None,
                connector_metadata: None,
                network_txn_id: None,
                connector_response_reference_id: None,
            }),
            ..item.data
        })
    }
}

impl vstd::std_specs::convert::TryFromSpecImpl<PaymentsResponseRouterData<NooniAuthorizeResponse>> for PaymentsAuthorizeRouterData {
    open spec fn obeys_try_from_spec() -> bool {
        true
    }

    open spec fn try_from_spec(item: PaymentsResponseRouterData<NooniAuthorizeResponse>) -> Result<Self, Self::Error> {
        Ok(spec_nooni_authorize_response(item))
    }
}

/// A Nooni refund: the amount to refund.
#[derive(Clone, Debug)]
pub struct RefundRequest {
    pub amount: i64,
}

impl<F> TryFrom<&RefundsRouterData<F>> for RefundRequest {
    type Error = ConnectorError;

    fn try_from(item: &RefundsRouterData<F>) -> (r: Result<Self, Self::Error>) {
        Ok(RefundRequest { amount: item.request.refund_amount })
    }
}

impl<F> vstd::std_specs::convert::TryFromSpecImpl<&RefundsRouterData<F>> for RefundRequest {
    open spec fn obeys_try_from_spec() -> bool {
        true
    }

    open spec fn try_from_spec(item: &RefundsRouterData<F>) -> Result<Self, Self::Error> {
        Ok(RefundRequest { amount: item.request.refund_amount })
    }
}

/// The status of a Nooni refund.
#[derive(Clone, Copy, Debug, PartialEq, Eq, Structural)]
pub enum RefundStatus {
    Succeeded,
    Failed,
    Processing,
}

pub open spec fn spec_refund_status_of_nooni(item: RefundStatus) -> crate::types::RefundStatus {
    match item {
        RefundStatus::Succeeded => crate::types::RefundStatus::Success,
        RefundStatus::Failed => crate::types::RefundStatus::Failure,
        RefundStatus::Processing => crate::types::RefundStatus::Pending,
    }
}

impl From<RefundStatus> for crate::types::RefundStatus {
    fn from(item: RefundStatus) -> (r: Self) {
        match item {
            RefundStatus::Succeeded => crate::types::RefundStatus::Success,
            RefundStatus::Failed => crate::types::RefundStatus::Failure,
            RefundStatus::Processing => crate::types::RefundStatus::Pending,
        }
    }
}

impl vstd::std_specs::convert::FromSpecImpl<RefundStatus> for crate::types::RefundStatus {
    open spec fn obeys_from_spec() -> bool {
        true
    }

    open spec fn from_spec(item: RefundStatus) -> Self {
        spec_refund_status_of_nooni(item)
    }
}

#[derive(Clone, Debug)]
pub struct RefundResponse {
    pub id: String,
    pub status: RefundStatus,
}

/// What Nooni's answer about a refund makes of the envelope, on creation and on query alike.
pub open spec fn spec_nooni_refund_response<F>(item: RefundsResponseRouterData<F, RefundResponse>) -> RefundsRouterData<F> {
    RouterData {
        response: Ok(RefundsResponseData {
            connector_refund_id: item.response.id,
            refund_status: spec_refund_status_of_nooni(item.response.status),
        }),
        ..item.data
    }
}

impl TryFrom<RefundsResponseRouterData<Execute, RefundResponse>> for RefundsRouterData<Execute> {
    type Error = ConnectorError;

    fn try_from(item: RefundsResponseRouterData<Execute, RefundResponse>) -> (r: Result<Self, Self::Error>) {
        Ok(RouterData {
            response: Ok(RefundsResponseData {
                connector_refund_id: item.response.id,
                refund_status: crate::types::RefundStatus::from(item.response.status),
            }),
            ..item.data
        })
    }
}

impl vstd::std_specs::convert::TryFromSpecImpl<RefundsResponseRouterData<Execute, RefundResponse>> for RefundsRouterData<Execute> {
    open spec fn obeys_try_from_spec() -> bool {
        true
    }

    open spec fn try_from_spec(item: RefundsResponseRouterData<Execute, RefundResponse>) -> Result<Self, Self::Error> {
        Ok(spec_nooni_refund_response(item))
    }
}

impl TryFrom<RefundsResponseRouterData<RSync, RefundResponse>> for RefundsRouterData<RSync> {
    type Error = ConnectorError;

    fn try_from(item: RefundsResponseRouterData<RSync, RefundResponse>) -> (r: Result<Self, Self::Error>) {
        Ok(RouterData {
            response: Ok(RefundsResponseData {
                connector_refund_id: item.response.id,
                refund_status: crate::types::RefundStatus::from(item.response.status),
            }),
            ..item.data
        })
    }
}

impl vstd::std_specs::convert::TryFromSpecImpl<RefundsResponseRouterData<RSync, RefundResponse>> for RefundsRouterData<RSync> {
    open spec fn obeys_try_from_spec() -> bool {
        true
    }

    open spec fn try_from_spec(item: RefundsResponseRouterData<RSync, RefundResponse>) -> Result<Self, Self::Error> {
        Ok(spec_nooni_refund_response(item))
    }
}

/// What Nooni sends when it declines a request.
#[derive(Clone, Debug)]
pub struct ErrorResponse {
    pub status_code: u16,
    pub code: String,
    pub message: String,
    pub reason: Option<String>,
}

} // verus!
