//! The connector registry: which connectors there are, which credential shape
//! each takes, and which payment methods each can build a request for. The
//! capabilities are read off the transformers themselves.
use vstd::prelude::*;

use crate::errors::ConnectorError;
use crate::nooni::{NooniAuthorizeRequest, spec_attempt_status_of_nooni, spec_refund_status_of_nooni, NooniAttemptStatus, spec_nooni_auth, spec_nooni_request, NooniAuthType, NooniRouterData};
use crate::payu::{is_google_pay_code, PayuPaymentsRequest, spec_attempt_status_of_order, spec_attempt_status_of_payu, spec_refund_status_of_payu, OrderStatus, PayuPaymentStatus, spec_payu_auth, spec_payu_payment_method, spec_payu_payments_request, PayuAuthType, PayuPaymentMethod};
use crate::types::{AttemptStatus, RefundStatus, ConnectorAuthType, PaymentMethodData, PaymentsAuthorizeRouterData, WalletData};

verus! {

#[derive(Clone, Copy, Debug, PartialEq, Eq, Structural)]
pub enum Connector {
    Nooni,
    Payu,
}

/// A transformer's refusal of a payment method: planned but unbuilt, or impossible.
pub open spec fn is_method_refusal(e: ConnectorError) -> bool {
    e is NotImplemented || e is NotSupported
}

impl Connector {
    /// The credential shape that the connector takes.
    pub open spec fn spec_accepts_auth(self, auth: ConnectorAuthType) -> bool {
        match self {
            Connector::Nooni => auth is HeaderKey,
            Connector::Payu => auth is BodyKey,
        }
    }

    /// The payment methods for which the connector's transformer builds a request.
    pub open spec fn spec_supports(self, pmd: PaymentMethodData) -> bool {
        match self {
            Connector::Nooni => pmd is Card,
            Connector::Payu => {
                ||| pmd is Card
                ||| pmd matches PaymentMethodData::Wallet(WalletData::GooglePay(_))
                ||| pmd matches PaymentMethodData::Wallet(WalletData::ApplePay(_))
            },
        }
    }

    /// Whether the connector's credentials extraction accepts this shape.
    pub fn accepts_auth(&self, auth: &ConnectorAuthType) -> (r: bool)
        ensures
            r == self.spec_accepts_auth(*auth),
    {
        match self {
            Connector::Nooni => NooniAuthType::try_from(auth).is_ok(),
            Connector::Payu => PayuAuthType::try_from(auth).is_ok(),
        }
    }

    /// Whether the connector's transformer builds a request for this payment method.
    pub fn supports_payment_method(&self, pmd: &PaymentMethodData) -> (r: bool)
        ensures
            r == self.spec_supports(*pmd),
    {
        match self {
            Connector::Nooni => match pmd {
                PaymentMethodData::Card(_) => true,
                _ => false,
            },
            Connector::Payu => PayuPaymentMethod::from_payment_method_data(pmd, String::new()).is_ok(),
        }
    }
}

/// A connector's wire request for an authorization, with the credentials to send it under.
#[derive(Clone, Debug)]
pub enum AuthorizeRequest {
    Nooni { auth: NooniAuthType, request: NooniAuthorizeRequest },
    Payu(PayuPaymentsRequest),
}

/// What dispatching an authorization to Nooni builds: credentials first, then the
/// request, for the amount in Nooni's unit.
pub open spec fn spec_build_nooni_authorize(item: PaymentsAuthorizeRouterData, amount: i64) -> Result<AuthorizeRequest, ConnectorError> {
    match spec_nooni_auth(item.connector_auth_type) {
        Err(e) => Err(e),
        Ok(auth) => match spec_nooni_request(NooniRouterData { amount, router_data: &item }) {
            Err(e) => Err(e),
            Ok(request) => Ok(AuthorizeRequest::Nooni { auth, request }),
        },
    }
}

/// What dispatching an authorization to PayU builds, given the encoded Google Pay token.
pub open spec fn spec_build_payu_authorize(item: PaymentsAuthorizeRouterData, google_pay_code: String) -> Result<AuthorizeRequest, ConnectorError> {
    match spec_payu_payments_request(item, google_pay_code) {
        Err(e) => Err(e),
        Ok(request) => Ok(AuthorizeRequest::Payu(request)),
    }
}

impl Connector {
    /// Extracts the connector's credentials and builds its wire request for an
    /// authorization; `amount` is already in the connector's unit (PayU reads the
    /// request's own amount).
    pub fn build_authorize_request(&self, item: &PaymentsAuthorizeRouterData, amount: i64) -> (r: Result<AuthorizeRequest, ConnectorError>)
        ensures
            *self == Connector::Nooni ==> r == spec_build_nooni_authorize(*item, amount),
            *self == Connector::Payu ==> exists|code: String|
                is_google_pay_code(item.request.payment_method_data, code)
                && r == #[trigger] spec_build_payu_authorize(*item, code),
    {
        match self {
            Connector::Nooni => {
                let auth = match NooniAuthType::try_from(&item.connector_auth_type) {
                    Ok(a) => a,
                    Err(e) => return Err(e),
                };
                let data = NooniRouterData { amount, router_data: item };
                match NooniAuthorizeRequest::try_from(&data) {
                    Ok(request) => Ok(AuthorizeRequest::Nooni { auth, request }),
                    Err(e) => Err(e),
                }
            },
            Connector::Payu => {
                let built = PayuPaymentsRequest::try_from(item);
                let ghost code = choose|code: String|
                    is_google_pay_code(item.request.payment_method_data, code)
                    && built == #[trigger] spec_payu_payments_request(*item, code);
                let r = match built {
                    Ok(request) => Ok(AuthorizeRequest::Payu(request)),
                    Err(e) => Err(e),
                };
                proof {
                    assert(r == spec_build_payu_authorize(*item, code));
                }
                r
            },
        }
    }
}

/// For every payment method, PayU's transformer either builds the method of the
/// order or refuses it as not implemented or not supported; it builds exactly
/// for the methods the registry lists, and a card is sent with its own details.
pub proof fn payu_payment_method_exhaustive(pmd: PaymentMethodData, google_pay_code: String)
    ensures
        match spec_payu_payment_method(pmd, google_pay_code) {
            Ok(_) => Connector::Payu.spec_supports(pmd),
            Err(e) => is_method_refusal(e) && !Connector::Payu.spec_supports(pmd),
        },
        pmd matches PaymentMethodData::Card(card) ==> (spec_payu_payment_method(pmd, google_pay_code) matches Ok(m)
            && (m.pay_method matches crate::payu::PayuPaymentMethodData::Card(crate::payu::PayuCard::Card { number, expiration_month, expiration_year, cvv })
            && number == card.card_number && expiration_month == card.card_exp_month
            && expiration_year == card.card_exp_year && cvv == card.card_cvc)),
{
}

/// Building a PayU order fails only on credentials, on a refused payment method,
/// or on a missing field; where the credentials fit, an unsupported method is
/// always refused as such.
pub proof fn payu_request_exhaustive(item: PaymentsAuthorizeRouterData, google_pay_code: String)
    ensures
        match spec_payu_payments_request(item, google_pay_code) {
            Ok(_) => Connector::Payu.spec_supports(item.request.payment_method_data),
            Err(e) => e is FailedToObtainAuthType || is_method_refusal(e) || e is MissingRequiredField,
        },
        item.connector_auth_type is BodyKey && !Connector::Payu.spec_supports(item.request.payment_method_data)
            ==> (spec_payu_payments_request(item, google_pay_code) matches Err(e) && is_method_refusal(e)),
{
    payu_payment_method_exhaustive(item.request.payment_method_data, google_pay_code);
}

/// For every payment method, Nooni's transformer builds a card request or
/// refuses the method as not implemented; a card is refused only for a capture
/// method that one request cannot express.
pub proof fn nooni_request_exhaustive(item: NooniRouterData<&PaymentsAuthorizeRouterData>)
    ensures
        match spec_nooni_request(item) {
            Ok(_) => Connector::Nooni.spec_supports(item.router_data.request.payment_method_data),
            Err(e) => is_method_refusal(e),
        },
        !Connector::Nooni.spec_supports(item.router_data.request.payment_method_data)
            ==> spec_nooni_request(item) == Err::<crate::nooni::NooniAuthorizeRequest, ConnectorError>(ConnectorError::NotImplemented("payment method")),
{
}

/// Each connector extracts its credentials from exactly the shape it takes, and
/// carries the keys over unchanged; every other shape fails with
/// `FailedToObtainAuthType`.
pub proof fn auth_extraction_round_trip(auth: ConnectorAuthType)
    ensures
        match auth {
            ConnectorAuthType::HeaderKey { api_key } => spec_nooni_auth(auth) == Ok::<NooniAuthType, ConnectorError>(NooniAuthType { test_key: api_key }),
            _ => spec_nooni_auth(auth) == Err::<NooniAuthType, ConnectorError>(ConnectorError::FailedToObtainAuthType),
        },
        match auth {
            ConnectorAuthType::BodyKey { api_key, key1 } => spec_payu_auth(auth) == Ok::<PayuAuthType, ConnectorError>(PayuAuthType { api_key, merchant_pos_id: key1 }),
            _ => spec_payu_auth(auth) == Err::<PayuAuthType, ConnectorError>(ConnectorError::FailedToObtainAuthType),
        },
        spec_nooni_auth(auth) is Ok <==> Connector::Nooni.spec_accepts_auth(auth),
        spec_payu_auth(auth) is Ok <==> Connector::Payu.spec_accepts_auth(auth),
{
}

/// Each connector's status tables assign every wire status exactly one canonical
/// status. PayU's operation statuses all leave the attempt pending; its order
/// statuses map one to one; its refund statuses and Nooni's fall into success,
/// failure and pending as listed.
pub proof fn status_tables_total()
    ensures
        forall|s: PayuPaymentStatus| #[trigger] spec_attempt_status_of_payu(s) == AttemptStatus::Pending,
        forall|s: OrderStatus, t: OrderStatus|
            #[trigger] spec_attempt_status_of_order(s) == #[trigger] spec_attempt_status_of_order(t) ==> s == t,
        forall|s: NooniAttemptStatus| #[trigger] spec_attempt_status_of_nooni(s) == AttemptStatus::Authorized,
        forall|s: crate::payu::RefundStatus| {
            &&& (#[trigger] spec_refund_status_of_payu(s) == RefundStatus::Success
                <==> (s == crate::payu::RefundStatus::Finalized || s == crate::payu::RefundStatus::Completed))
            &&& (spec_refund_status_of_payu(s) == RefundStatus::Failure <==> s == crate::payu::RefundStatus::Canceled)
            &&& (spec_refund_status_of_payu(s) == RefundStatus::Pending <==> s == crate::payu::RefundStatus::Pending)
        },
        forall|s: crate::nooni::RefundStatus| {
            &&& (#[trigger] spec_refund_status_of_nooni(s) == RefundStatus::Success <==> s == crate::nooni::RefundStatus::Succeeded)
            &&& (spec_refund_status_of_nooni(s) == RefundStatus::Failure <==> s == crate::nooni::RefundStatus::Failed)
            &&& (spec_refund_status_of_nooni(s) == RefundStatus::Pending <==> s == crate::nooni::RefundStatus::Processing)
        },
{
}

} // verus!
