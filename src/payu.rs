//! Transformers between the canonical model and the wire format of the PayU connector.
use vstd::prelude::*;

use base64::Engine;

use crate::errors::ConnectorError;
use crate::payments::clone_opt_string;
use crate::types::{
    Execute, RSync,
    AccessToken, AttemptStatus, ConnectorAuthType, Currency, IpAddress, PaymentMethodData,
    PaymentsAuthorizeRouterData, PaymentsCaptureRouterData, PaymentsResponseData,
    RefreshTokenRouterData, RefundsResponseData, RefundsResponseRouterData, RefundsRouterData, ResponseId, ResponseRouterData, RouterData, WalletData,
    BankDebitData, BankRedirectData, BankTransferData, PayLaterData,
};

verus! {

/// What standard base64, with padding, makes of the UTF-8 bytes of a text.
pub uninterp spec fn base64_standard(text: Seq<char>) -> Seq<char>;

/// Relies on base64's `Engine::encode` with the `STANDARD` engine: the result
/// depends on the input alone, and an empty input gives an empty output.
#[verifier::external_body]
fn encode_base64(text: &String) -> (r: String)
    ensures
        r@ == base64_standard(text@),
        text@.len() == 0 ==> r@.len() == 0,
{
    base64::engine::general_purpose::STANDARD.encode(text)
}

#[derive(Clone, Debug)]
pub struct PayuPaymentsRequest {
    pub customer_ip: IpAddress,
    pub merchant_pos_id: String,
    pub total_amount: i64,
    pub currency_code: Currency,
    pub description: String,
    pub pay_methods: PayuPaymentMethod,
    pub continue_url: Option<String>,
}

#[derive(Clone, Debug)]
pub struct PayuPaymentMethod {
    pub pay_method: PayuPaymentMethodData,
}

#[derive(Clone, Debug)]
pub enum PayuPaymentMethodData {
    Card(PayuCard),
    Wallet(PayuWallet),
}

#[derive(Clone, Debug)]
pub enum PayuCard {
    Card { number: String, expiration_month: String, expiration_year: String, cvv: String },
}

#[derive(Clone, Debug)]
pub struct PayuWallet {
    pub value: PayuWalletCode,
    pub wallet_type: &'static str,
    pub authorization_code: String,
}

#[derive(Clone, Copy, Debug, PartialEq, Eq, Structural)]
pub enum PayuWalletCode {
    Ap,
    Jp,
}

/// The error for a method that PayU could take but this transformer does not build.
pub open spec fn payu_not_implemented() -> ConnectorError {
    ConnectorError::NotImplemented("Selected payment method through Payu")
}

/// The error for a method that PayU cannot take.
pub open spec fn payu_not_supported() -> ConnectorError {
    ConnectorError::NotSupported { message: "Selected payment method", connector: "Payu" }
}

pub open spec fn payu_wallet_method(value: PayuWalletCode, authorization_code: String) -> PayuPaymentMethod {
    PayuPaymentMethod {
        pay_method: PayuPaymentMethodData::Wallet(
            PayuWallet { value, wallet_type: "PBL", authorization_code },
        ),
    }
}

/// The payment method of a PayU order for each canonical wallet; `google_pay_code` is
/// the encoded Google Pay token, read only for Google Pay.
pub open spec fn spec_payu_wallet(wallet: WalletData, google_pay_code: String) -> Result<PayuPaymentMethod, ConnectorError> {
    match wallet {
        WalletData::GooglePay(_) => Ok(payu_wallet_method(PayuWalletCode::Ap, google_pay_code)),
        WalletData::ApplePay(data) => Ok(payu_wallet_method(PayuWalletCode::Jp, data.payment_data)),
        WalletData::PaypalRedirect => Err(ConnectorError::NotImplemented("Selected payment method through payu")),
        _ => Err(payu_not_supported()),
    }
}

pub open spec fn spec_payu_bank_debit(data: BankDebitData) -> Result<PayuPaymentMethod, ConnectorError> {
    match data {
        BankDebitData::SepaBankDebit => Err(payu_not_implemented()),
        _ => Err(payu_not_supported()),
    }
}

pub open spec fn spec_payu_bank_redirect(data: BankRedirectData) -> Result<PayuPaymentMethod, ConnectorError> {
    match data {
        BankRedirectData::BancontactCard
        | BankRedirectData::Blik
        | BankRedirectData::Giropay
        | BankRedirectData::Ideal
        | BankRedirectData::Sofort
        | BankRedirectData::Trustly => Err(payu_not_implemented()),
        _ => Err(payu_not_supported()),
    }
}

pub open spec fn spec_payu_bank_transfer(data: BankTransferData) -> Result<PayuPaymentMethod, ConnectorError> {
    match data {
        BankTransferData::AchBankTransfer => Err(payu_not_implemented()),
        _ => Err(payu_not_supported()),
    }
}

pub open spec fn spec_payu_pay_later(_data: PayLaterData) -> Result<PayuPaymentMethod, ConnectorError> {
    Err(payu_not_supported())
}

/// The payment method of a PayU order for each canonical payment method.
pub open spec fn spec_payu_payment_method(pmd: PaymentMethodData, google_pay_code: String) -> Result<PayuPaymentMethod, ConnectorError> {
    match pmd {
        PaymentMethodData::Card(card) => Ok(PayuPaymentMethod {
            pay_method: PayuPaymentMethodData::Card(PayuCard::Card {
                number: card.card_number,
                expiration_month: card.card_exp_month,
                expiration_year: card.card_exp_year,
                cvv: card.card_cvc,
            }),
        }),
        PaymentMethodData::Wallet(wallet) => spec_payu_wallet(wallet, google_pay_code),
        PaymentMethodData::BankDebit(data) => spec_payu_bank_debit(data),
        PaymentMethodData::BankRedirect(data) => spec_payu_bank_redirect(data),
        PaymentMethodData::BankTransfer(data) => spec_payu_bank_transfer(data),
        PaymentMethodData::PayLater(data) => spec_payu_pay_later(data),
        PaymentMethodData::Upi | PaymentMethodData::GiftCard => Err(
            ConnectorError::NotImplemented("Selected payment method through payu"),
        ),
        PaymentMethodData::CardRedirect
        | PaymentMethodData::Crypto
        | PaymentMethodData::MandatePayment
        | PaymentMethodData::Reward
        | PaymentMethodData::Voucher => Err(payu_not_supported()),
    }
}

/// The Google Pay token of a payment method, where it is one: PayU receives it encoded.
pub open spec fn google_pay_token(pmd: PaymentMethodData) -> Option<Seq<char>> {
    match pmd {
        PaymentMethodData::Wallet(WalletData::GooglePay(data)) => Some(data.tokenization_data.token@),
        _ => None,
    }
}

/// `code` is what PayU receives for the Google Pay token of `pmd`, if it has one.
pub open spec fn is_google_pay_code(pmd: PaymentMethodData, code: String) -> bool {
    match google_pay_token(pmd) {
        Some(token) => code@ == base64_standard(token),
        None => true,
    }
}

impl TryFrom<&BankDebitData> for PayuPaymentMethod {
    type Error = ConnectorError;

    fn try_from(value: &BankDebitData) -> (r: Result<Self, Self::Error>) {
        match value {
            BankDebitData::SepaBankDebit => Err(ConnectorError::NotImplemented("Selected payment method through Payu")),
            BankDebitData::AchBankDebit
            | BankDebitData::BecsBankDebit
            | BankDebitData::BacsBankDebit => Err(
                ConnectorError::NotSupported { message: "Selected payment method", connector: "Payu" },
            ),
        }
    }
}

impl vstd::std_specs::convert::TryFromSpecImpl<&BankDebitData> for PayuPaymentMethod {
    open spec fn obeys_try_from_spec() -> bool {
        true
    }

    open spec fn try_from_spec(value: &BankDebitData) -> Result<Self, Self::Error> {
        spec_payu_bank_debit(*value)
    }
}

impl TryFrom<&BankRedirectData> for PayuPaymentMethod {
    type Error = ConnectorError;

    fn try_from(value: &BankRedirectData) -> (r: Result<Self, Self::Error>) {
        match value {
            BankRedirectData::BancontactCard
            | BankRedirectData::Blik
            | BankRedirectData::Giropay
            | BankRedirectData::Ideal
            | BankRedirectData::Sofort
            | BankRedirectData::Trustly => Err(ConnectorError::NotImplemented("Selected payment method through Payu")),
            BankRedirectData::Interac
            | BankRedirectData::Bizum
            | BankRedirectData::Eps
            | BankRedirectData::OnlineBankingCzechRepublic
            | BankRedirectData::OnlineBankingFinland
            | BankRedirectData::OnlineBankingPoland
            | BankRedirectData::OnlineBankingSlovakia
            | BankRedirectData::OpenBankingUk
            | BankRedirectData::Przelewy24
            | BankRedirectData::OnlineBankingFpx
            | BankRedirectData::OnlineBankingThailand => Err(
                ConnectorError::NotSupported { message: "Selected payment method", connector: "Payu" },
            ),
        }
    }
}

impl vstd::std_specs::convert::TryFromSpecImpl<&BankRedirectData> for PayuPaymentMethod {
    open spec fn obeys_try_from_spec() -> bool {
        true
    }

    open spec fn try_from_spec(value: &BankRedirectData) -> Result<Self, Self::Error> {
        spec_payu_bank_redirect(*value)
    }
}

impl TryFrom<&BankTransferData> for PayuPaymentMethod {
    type Error = ConnectorError;

    fn try_from(value: &BankTransferData) -> (r: Result<Self, Self::Error>) {
        match value {
            BankTransferData::AchBankTransfer => Err(ConnectorError::NotImplemented("Selected payment method through Payu")),
            BankTransferData::SepaBankTransfer
            | BankTransferData::BacsBankTransfer
            | BankTransferData::MultibancoBankTransfer
            | BankTransferData::PermataBankTransfer
            | BankTransferData::BcaBankTransfer
            | BankTransferData::BniVaBankTransfer
            | BankTransferData::BriVaBankTransfer
            | BankTransferData::CimbVaBankTransfer
            | BankTransferData::DanamonVaBankTransfer
            | BankTransferData::MandiriVaBankTransfer
            | BankTransferData::Pix
            | BankTransferData::Pse => Err(
                ConnectorError::NotSupported { message: "Selected payment method", connector: "Payu" },
            ),
        }
    }
}

impl vstd::std_specs::convert::TryFromSpecImpl<&BankTransferData> for PayuPaymentMethod {
    open spec fn obeys_try_from_spec() -> bool {
        true
    }

    open spec fn try_from_spec(value: &BankTransferData) -> Result<Self, Self::Error> {
        spec_payu_bank_transfer(*value)
    }
}

impl TryFrom<&PayLaterData> for PayuPaymentMethod {
    type Error = ConnectorError;

    fn try_from(value: &PayLaterData) -> (r: Result<Self, Self::Error>) {
        match value {
            PayLaterData::KlarnaRedirect
            | PayLaterData::KlarnaSdk
            | PayLaterData::AffirmRedirect
            | PayLaterData::AfterpayClearpayRedirect
            | PayLaterData::PayBrightRedirect
            | PayLaterData::WalleyRedirect
            | PayLaterData::AlmaRedirect
            | PayLaterData::AtomeRedirect => Err(
                ConnectorError::NotSupported { message: "Selected payment method", connector: "Payu" },
            ),
        }
    }
}

impl vstd::std_specs::convert::TryFromSpecImpl<&PayLaterData> for PayuPaymentMethod {
    open spec fn obeys_try_from_spec() -> bool {
        true
    }

    open spec fn try_from_spec(value: &PayLaterData) -> Result<Self, Self::Error> {
        spec_payu_pay_later(*value)
    }
}

impl PayuPaymentMethod {
    /// Builds the payment method of a PayU order, given the already encoded
    /// Google Pay token (read only where the method is Google Pay).
    pub fn from_payment_method_data(pmd: &PaymentMethodData, google_pay_code: String) -> (r: Result<Self, ConnectorError>)
        ensures
            r == spec_payu_payment_method(*pmd, google_pay_code),
    {
        match pmd {
            PaymentMethodData::Card(card) => Ok(PayuPaymentMethod {
                pay_method: PayuPaymentMethodData::Card(PayuCard::Card {
                    number: card.card_number.clone(),
                    expiration_month: card.card_exp_month.clone(),
                    expiration_year: card.card_exp_year.clone(),
                    cvv: card.card_cvc.clone(),
                }),
            }),
            PaymentMethodData::Wallet(wallet) => match wallet {
                WalletData::GooglePay(_) => Ok(PayuPaymentMethod {
                    pay_method: PayuPaymentMethodData::Wallet(
                        PayuWallet { value: PayuWalletCode::Ap, wallet_type: "PBL", authorization_code: google_pay_code },
                    ),
                }),
                WalletData::ApplePay(data) => Ok(PayuPaymentMethod {
                    pay_method: PayuPaymentMethodData::Wallet(
                        PayuWallet {
                            value: PayuWalletCode::Jp,
                            wallet_type: "PBL",
                            authorization_code: data.payment_data.clone(),
                        },
                    ),
                }),
                WalletData::PaypalRedirect => Err(ConnectorError::NotImplemented("Selected payment method through payu")),
                WalletData::AliPayQr
                | WalletData::AliPayRedirect
                | WalletData::AliPayHkRedirect
                | WalletData::MomoRedirect
                | WalletData::KakaoPayRedirect
                | WalletData::GoPayRedirect
                | WalletData::GcashRedirect
                | WalletData::ApplePayRedirect
                | WalletData::ApplePayThirdPartySdk
                | WalletData::DanaRedirect
                | WalletData::GooglePayRedirect
                | WalletData::GooglePayThirdPartySdk
                | WalletData::MbWayRedirect
                | WalletData::MobilePayRedirect
                | WalletData::PaypalSdk
                | WalletData::SamsungPay
                | WalletData::TwintRedirect
                | WalletData::VippsRedirect
                | WalletData::TouchNGoRedirect
                | WalletData::WeChatPayRedirect
                | WalletData::WeChatPayQr
                | WalletData::CashappQr
                | WalletData::SwishQr => Err(
                    ConnectorError::NotSupported { message: "Selected payment method", connector: "Payu" },
                ),
            },
            PaymentMethodData::BankDebit(data) => PayuPaymentMethod::try_from(data),
            PaymentMethodData::BankRedirect(data) => PayuPaymentMethod::try_from(data),
            PaymentMethodData::BankTransfer(data) => PayuPaymentMethod::try_from(data),
            PaymentMethodData::PayLater(data) => PayuPaymentMethod::try_from(data),
            PaymentMethodData::Upi | PaymentMethodData::GiftCard => Err(
                ConnectorError::NotImplemented("Selected payment method through payu"),
            ),
            PaymentMethodData::CardRedirect
            | PaymentMethodData::Crypto
            | PaymentMethodData::MandatePayment
            | PaymentMethodData::Reward
            | PaymentMethodData::Voucher => Err(
                ConnectorError::NotSupported { message: "Selected payment method", connector: "Payu" },
            ),
        }
    }
}

/// The credentials that PayU expects: an API key and the merchant's point-of-sale id.
#[derive(Clone, Debug)]
pub struct PayuAuthType {
    pub api_key: String,
    pub merchant_pos_id: String,
}

/// What extracting PayU's credentials gives for each credential shape.
pub open spec fn spec_payu_auth(auth_type: ConnectorAuthType) -> Result<PayuAuthType, ConnectorError> {
    match auth_type {
        ConnectorAuthType::BodyKey { api_key, key1 } => Ok(PayuAuthType { api_key, merchant_pos_id: key1 }),
        _ => Err(ConnectorError::FailedToObtainAuthType),
    }
}

impl TryFrom<&ConnectorAuthType> for PayuAuthType {
    type Error = ConnectorError;

    fn try_from(auth_type: &ConnectorAuthType) -> (r: Result<Self, Self::Error>) {
        match auth_type {
            ConnectorAuthType::BodyKey { api_key, key1 } => Ok(
                PayuAuthType { api_key: api_key.clone(), merchant_pos_id: key1.clone() },
            ),
            _ => Err(ConnectorError::FailedToObtainAuthType),
        }
    }
}

impl vstd::std_specs::convert::TryFromSpecImpl<&ConnectorAuthType> for PayuAuthType {
    open spec fn obeys_try_from_spec() -> bool {
        true
    }

    open spec fn try_from_spec(auth_type: &ConnectorAuthType) -> Result<Self, Self::Error> {
        spec_payu_auth(*auth_type)
    }
}

/// The PayU order for an authorization, given the encoded Google Pay token.
/// Credentials are checked first, then the payment method, then the customer's
/// IP address, then the description.
pub open spec fn spec_payu_payments_request(item: PaymentsAuthorizeRouterData, google_pay_code: String) -> Result<PayuPaymentsRequest, ConnectorError> {
    match spec_payu_auth(item.connector_auth_type) {
        Err(e) => Err(e),
        Ok(auth) => match spec_payu_payment_method(item.request.payment_method_data, google_pay_code) {
            Err(e) => Err(e),
            Ok(pay_methods) => match item.request.browser_info {
                None => Err(ConnectorError::MissingRequiredField { field_name: "browser_info" }),
                Some(browser_info) => match browser_info.ip_address {
                    None => Err(ConnectorError::MissingRequiredField { field_name: "browser_info.ip_address" }),
                    Some(customer_ip) => match item.description {
                        None => Err(ConnectorError::MissingRequiredField { field_name: "item.description" }),
                        Some(description) => Ok(PayuPaymentsRequest {
                            customer_ip,
                            merchant_pos_id: auth.merchant_pos_id,
                            total_amount: item.request.amount,
                            currency_code: item.request.currency,
                            description,
                            pay_methods,
                            continue_url: None,
                        }),
                    },
                },
            },
        },
    }
}

impl PayuPaymentsRequest {
    /// Builds the PayU order for an authorization, given the encoded Google Pay
    /// token (read only where the method is Google Pay).
    pub fn build(item: &PaymentsAuthorizeRouterData, google_pay_code: String) -> (r: Result<Self, ConnectorError>)
        ensures
            r == spec_payu_payments_request(*item, google_pay_code),
    {
        let auth_type = PayuAuthType::try_from(&item.connector_auth_type)?;
        let pay_methods = PayuPaymentMethod::from_payment_method_data(&item.request.payment_method_data, google_pay_code)?;
        let browser_info = match &item.request.browser_info {
            Some(b) => b,
            None => return Err(ConnectorError::MissingRequiredField { field_name: "browser_info" }),
        };
        let customer_ip = match browser_info.ip_address {
            Some(ip) => ip,
            None => return Err(ConnectorError::MissingRequiredField { field_name: "browser_info.ip_address" }),
        };
        let description = match &item.description {
            Some(d) => d.clone(),
            None => return Err(ConnectorError::MissingRequiredField { field_name: "item.description" }),
        };
        Ok(PayuPaymentsRequest {
            customer_ip,
            merchant_pos_id: auth_type.merchant_pos_id,
            total_amount: item.request.amount,
            currency_code: item.request.currency,
            description,
            pay_methods,
            continue_url: None,
        })
    }

    /// Builds the PayU order for an authorization: the Google Pay token, where
    /// there is one, is sent base64-encoded; all else is as `build` states.
    pub fn try_from(item: &PaymentsAuthorizeRouterData) -> (r: Result<Self, ConnectorError>)
        ensures
            exists|code: String|
                is_google_pay_code(item.request.payment_method_data, code)
                && r == #[trigger] spec_payu_payments_request(*item, code),
    {
        let code = match &item.request.payment_method_data {
            PaymentMethodData::Wallet(WalletData::GooglePay(data)) => encode_base64(&data.tokenization_data.token),
            _ => String::new(),
        };
        Self::build(item, code)
    }
}

/// The status code of a PayU order operation.
#[derive(Clone, Copy, Debug, PartialEq, Eq, Structural)]
pub enum PayuPaymentStatus {
    Success,
    WarningContinueRedirect,
    WarningContinue3ds,
    WarningContinueCvv,
    Pending,
}

/// Every PayU operation status leaves the attempt pending: the order's own
/// status, read on sync, says how it ended.
pub open spec fn spec_attempt_status_of_payu(item: PayuPaymentStatus) -> AttemptStatus {
    match item {
        PayuPaymentStatus::Success => AttemptStatus::Pending,
        PayuPaymentStatus::WarningContinue3ds => AttemptStatus::Pending,
        PayuPaymentStatus::WarningContinueCvv => AttemptStatus::Pending,
        PayuPaymentStatus::WarningContinueRedirect => AttemptStatus::Pending,
        PayuPaymentStatus::Pending => AttemptStatus::Pending,
    }
}

impl From<PayuPaymentStatus> for AttemptStatus {
    fn from(item: PayuPaymentStatus) -> (r: Self) {
        match item {
            PayuPaymentStatus::Success => AttemptStatus::Pending,
            PayuPaymentStatus::WarningContinue3ds => AttemptStatus::Pending,
            PayuPaymentStatus::WarningContinueCvv => AttemptStatus::Pending,
            PayuPaymentStatus::WarningContinueRedirect => AttemptStatus::Pending,
            PayuPaymentStatus::Pending => AttemptStatus::Pending,
        }
    }
}

impl vstd::std_specs::convert::FromSpecImpl<PayuPaymentStatus> for AttemptStatus {
    open spec fn obeys_from_spec() -> bool {
        true
    }

    open spec fn from_spec(item: PayuPaymentStatus) -> Self {
        spec_attempt_status_of_payu(item)
    }
}

/// The status of a PayU order.
#[derive(Clone, Copy, Debug, PartialEq, Eq, Structural)]
pub enum OrderStatus {
    New,
    Canceled,
    Completed,
    WaitingForConfirmation,
    Pending,
}

pub open spec fn spec_attempt_status_of_order(item: OrderStatus) -> AttemptStatus {
    match item {
        OrderStatus::New => AttemptStatus::PaymentMethodAwaited,
        OrderStatus::Canceled => AttemptStatus::Voided,
        OrderStatus::Completed => AttemptStatus::Charged,
        OrderStatus::Pending => AttemptStatus::Pending,
        OrderStatus::WaitingForConfirmation => AttemptStatus::Authorized,
    }
}

impl From<OrderStatus> for AttemptStatus {
    fn from(item: OrderStatus) -> (r: Self) {
        match item {
            OrderStatus::New => AttemptStatus::PaymentMethodAwaited,
            OrderStatus::Canceled => AttemptStatus::Voided,
            OrderStatus::Completed => AttemptStatus::Charged,
            OrderStatus::Pending => AttemptStatus::Pending,
            OrderStatus::WaitingForConfirmation => AttemptStatus::Authorized,
        }
    }
}

impl vstd::std_specs::convert::FromSpecImpl<OrderStatus> for AttemptStatus {
    open spec fn obeys_from_spec() -> bool {
        true
    }

    open spec fn from_spec(item: OrderStatus) -> Self {
        spec_attempt_status_of_order(item)
    }
}

#[derive(Clone, Debug)]
pub struct PayuPaymentStatusData {
    pub status_code: PayuPaymentStatus,
    pub severity: Option<String>,
    pub status_desc: Option<String>,
}

#[derive(Clone, Debug)]
pub struct PayuPaymentsResponse {
    pub status: PayuPaymentStatusData,
    pub redirect_uri: String,
    pub iframe_allowed: Option<bool>,
    pub three_ds_protocol_version: Option<String>,
    pub order_id: String,
    pub ext_order_id: Option<String>,
}

/// The canonical transaction response for a PayU order: its id, and the
/// merchant's own reference where PayU echoes one, else the id again.
pub open spec fn payu_order_transaction(order_id: String, ext_order_id: Option<String>) -> PaymentsResponseData {
    PaymentsResponseData::TransactionResponse {
        resource_id: ResponseId::ConnectorTransactionId(order_id),
        redirection_data: None,
        mandate_reference: None,
        connector_metadata: None,
        network_txn_id: None,
        connector_response_reference_id: match ext_order_id {
            Some(ext) => Some(ext),
            None => Some(order_id),
        },
    }
}

fn order_transaction(order_id: String, ext_order_id: Option<String>) -> (r: PaymentsResponseData)
    ensures
        r == payu_order_transaction(order_id, ext_order_id),
{
    PaymentsResponseData::TransactionResponse {
        resource_id: ResponseId::ConnectorTransactionId(order_id.clone()),
        redirection_data: None,
        mandate_reference: None,
        connector_metadata: None,
        network_txn_id: None,
        connector_response_reference_id: match ext_order_id {
            Some(ext) => Some(ext),
            None => Some(order_id),
        },
    }
}

impl<F, T> TryFrom<ResponseRouterData<F, PayuPaymentsResponse, T, PaymentsResponseData>> for RouterData<F, T, PaymentsResponseData> {
    type Error = ConnectorError;

    fn try_from(item: ResponseRouterData<F, PayuPaymentsResponse, T, PaymentsResponseData>) -> (r: Result<Self, Self::Error>) {
        let status = AttemptStatus::from(item.response.status.status_code);
        let response = order_transaction(item.response.order_id, item.response.ext_order_id);
        Ok(RouterData { status, response: Ok(response), amount_captured: None, ..item.data })
    }
}

impl<F, T> vstd::std_specs::convert::TryFromSpecImpl<ResponseRouterData<F, PayuPaymentsResponse, T, PaymentsResponseData>> for RouterData<F, T, PaymentsResponseData> {
    open spec fn obeys_try_from_spec() -> bool {
        true
    }

    open spec fn try_from_spec(item: ResponseRouterData<F, PayuPaymentsResponse, T, PaymentsResponseData>) -> Result<Self, Self::Error> {
        Ok(RouterData {
            status: spec_attempt_status_of_payu(item.response.status.status_code),
            response: Ok(payu_order_transaction(item.response.order_id, item.response.ext_order_id)),
            amount_captured: None,
            ..item.data
        })
    }
}

#[derive(Clone, Debug)]
pub struct PayuPaymentsCaptureRequest {
    pub order_id: String,
    pub order_status: OrderStatus,
}

impl TryFrom<&PaymentsCaptureRouterData> for PayuPaymentsCaptureRequest {
    type Error = ConnectorError;

    fn try_from(item: &PaymentsCaptureRouterData) -> (r: Result<Self, Self::Error>) {
        Ok(PayuPaymentsCaptureRequest {
            order_id: item.request.connector_transaction_id.clone(),
            order_status: OrderStatus::Completed,
        })
    }
}

impl vstd::std_specs::convert::TryFromSpecImpl<&PaymentsCaptureRouterData> for PayuPaymentsCaptureRequest {
    open spec fn obeys_try_from_spec() -> bool {
        true
    }

    /// A capture completes the order that the authorization opened.
    open spec fn try_from_spec(item: &PaymentsCaptureRouterData) -> Result<Self, Self::Error> {
        Ok(PayuPaymentsCaptureRequest {
            order_id: item.request.connector_transaction_id,
            order_status: OrderStatus::Completed,
        })
    }
}

#[derive(Clone, Debug)]
pub struct PayuPaymentsCaptureResponse {
    pub status: PayuPaymentStatusData,
}

impl<F, T> TryFrom<ResponseRouterData<F, PayuPaymentsCaptureResponse, T, PaymentsResponseData>> for RouterData<F, T, PaymentsResponseData> {
    type Error = ConnectorError;

    fn try_from(item: ResponseRouterData<F, PayuPaymentsCaptureResponse, T, PaymentsResponseData>) -> (r: Result<Self, Self::Error>) {
        Ok(RouterData {
            status: AttemptStatus::from(item.response.status.status_code),
            response: Ok(PaymentsResponseData::TransactionResponse {
                resource_id: ResponseId::NoResponseId,
                redirection_data: None,
                mandate_reference: None,
                connector_metadata: None,
                network_txn_id: None,
                connector_response_reference_id: None,
            }),
            amount_captured: None,
            ..item.data
        })
    }
}

impl<F, T> vstd::std_specs::convert::TryFromSpecImpl<ResponseRouterData<F, PayuPaymentsCaptureResponse, T, PaymentsResponseData>> for RouterData<F, T, PaymentsResponseData> {
    open spec fn obeys_try_from_spec() -> bool {
        true
    }

    /// PayU's capture answer carries no transaction id.
    open spec fn try_from_spec(item: ResponseRouterData<F, PayuPaymentsCaptureResponse, T, PaymentsResponseData>) -> Result<Self, Self::Error> {
        Ok(RouterData {
            status: spec_attempt_status_of_payu(item.response.status.status_code),
            response: Ok(PaymentsResponseData::TransactionResponse {
                resource_id: ResponseId::NoResponseId,
                redirection_data: None,
                mandate_reference: None,
                connector_metadata: None,
                network_txn_id: None,
                connector_response_reference_id: None,
            }),
            amount_captured: None,
            ..item.data
        })
    }
}

/// A request for an OAuth access token with client credentials.
#[derive(Clone, Debug)]
pub struct PayuAuthUpdateRequest {
    pub grant_type: &'static str,
    pub client_id: String,
    pub client_secret: String,
}

impl TryFrom<&RefreshTokenRouterData> for PayuAuthUpdateRequest {
    type Error = ConnectorError;

    fn try_from(item: &RefreshTokenRouterData) -> (r: Result<Self, Self::Error>) {
        let client_id = match &item.request.id {
            Some(id) => id.clone(),
            None => return Err(ConnectorError::MissingRequiredField { field_name: "request.id" }),
        };
        Ok(PayuAuthUpdateRequest {
            grant_type: "client_credentials",
            client_id,
            client_secret: item.request.app_id.clone(),
        })
    }
}

impl vstd::std_specs::convert::TryFromSpecImpl<&RefreshTokenRouterData> for PayuAuthUpdateRequest {
    open spec fn obeys_try_from_spec() -> bool {
        true
    }

    open spec fn try_from_spec(item: &RefreshTokenRouterData) -> Result<Self, Self::Error> {
        match item.request.id {
            None => Err(ConnectorError::MissingRequiredField { field_name: "request.id" }),
            Some(client_id) => Ok(PayuAuthUpdateRequest {
                grant_type: "client_credentials",
                client_id,
                client_secret: item.request.app_id,
            }),
        }
    }
}

#[derive(Clone, Debug)]
pub struct PayuAuthUpdateResponse {
    pub access_token: String,
    pub token_type: String,
    pub expires_in: i64,
    pub grant_type: String,
}

impl<F, T> TryFrom<ResponseRouterData<F, PayuAuthUpdateResponse, T, AccessToken>> for RouterData<F, T, AccessToken> {
    type Error = ConnectorError;

    fn try_from(item: ResponseRouterData<F, PayuAuthUpdateResponse, T, AccessToken>) -> (r: Result<Self, Self::Error>) {
        Ok(RouterData {
            response: Ok(AccessToken { token: item.response.access_token, expires: item.response.expires_in }),
            ..item.data
        })
    }
}

impl<F, T> vstd::std_specs::convert::TryFromSpecImpl<ResponseRouterData<F, PayuAuthUpdateResponse, T, AccessToken>> for RouterData<F, T, AccessToken> {
    open spec fn obeys_try_from_spec() -> bool {
        true
    }

    open spec fn try_from_spec(item: ResponseRouterData<F, PayuAuthUpdateResponse, T, AccessToken>) -> Result<Self, Self::Error> {
        Ok(RouterData {
            response: Ok(AccessToken { token: item.response.access_token, expires: item.response.expires_in }),
            ..item.data
        })
    }
}

#[derive(Clone, Debug)]
pub struct PayuPaymentsCancelResponse {
    pub order_id: String,
    pub ext_order_id: Option<String>,
    pub status: PayuPaymentStatusData,
}

impl<F, T> TryFrom<ResponseRouterData<F, PayuPaymentsCancelResponse, T, PaymentsResponseData>> for RouterData<F, T, PaymentsResponseData> {
    type Error = ConnectorError;

    fn try_from(item: ResponseRouterData<F, PayuPaymentsCancelResponse, T, PaymentsResponseData>) -> (r: Result<Self, Self::Error>) {
        let status = AttemptStatus::from(item.response.status.status_code);
        let response = order_transaction(item.response.order_id, item.response.ext_order_id);
        Ok(RouterData { status, response: Ok(response), amount_captured: None, ..item.data })
    }
}

impl<F, T> vstd::std_specs::convert::TryFromSpecImpl<ResponseRouterData<F, PayuPaymentsCancelResponse, T, PaymentsResponseData>> for RouterData<F, T, PaymentsResponseData> {
    open spec fn obeys_try_from_spec() -> bool {
        true
    }

    open spec fn try_from_spec(item: ResponseRouterData<F, PayuPaymentsCancelResponse, T, PaymentsResponseData>) -> Result<Self, Self::Error> {
        Ok(RouterData {
            status: spec_attempt_status_of_payu(item.response.status.status_code),
            response: Ok(payu_order_transaction(item.response.order_id, item.response.ext_order_id)),
            amount_captured: None,
            ..item.data
        })
    }
}

#[derive(Clone, Debug)]
pub struct PayuProductData {
    pub name: String,
    pub unit_price: String,
    pub quantity: String,
    pub virtually: Option<bool>,
    pub listing_date: Option<String>,
}

#[derive(Clone, Debug)]
pub struct PayuOrderResponseData {
    pub order_id: String,
    pub ext_order_id: Option<String>,
    pub order_create_date: String,
    pub notify_url: Option<String>,
    pub customer_ip: IpAddress,
    pub merchant_pos_id: String,
    pub description: String,
    pub validity_time: Option<String>,
    pub currency_code: Currency,
    pub total_amount: String,
    pub buyer: Option<PayuOrderResponseBuyerData>,
    pub pay_method: Option<PayuOrderResponsePayMethod>,
    pub products: Option<Vec<PayuProductData>>,
    pub status: OrderStatus,
}

#[derive(Clone, Debug)]
pub struct PayuOrderResponseBuyerData {
    pub ext_customer_id: Option<String>,
    pub email: Option<String>,
    pub phone: Option<String>,
    pub first_name: Option<String>,
    pub last_name: Option<String>,
    pub national_identification_number: Option<String>,
    pub language: Option<String>,
    pub delivery: Option<String>,
    pub customer_id: Option<String>,
}

#[derive(Clone, Copy, Debug, PartialEq, Eq, Structural)]
pub enum PayuOrderResponsePayMethod {
    CardToken,
    Pbl,
    Installemnts,
}

#[derive(Clone, Debug)]
pub struct PayuOrderResponseProperty {
    pub name: String,
    pub value: String,
}

#[derive(Clone, Debug)]
pub struct PayuPaymentsSyncResponse {
    pub orders: Vec<PayuOrderResponseData>,
    pub status: PayuPaymentStatusData,
    pub properties: Option<Vec<PayuOrderResponseProperty>>,
}

pub open spec fn is_decimal_digit(c: char) -> bool {
    48 <= (c as u32) <= 57
}

/// The value of a run of decimal digits.
pub open spec fn digits_value(s: Seq<char>) -> int
    decreases s.len(),
{
    if s.len() == 0 {
        0
    } else {
        digits_value(s.drop_last()) * 10 + ((s.last() as u32) - 48)
    }
}

/// A decimal integer as `i64`'s `FromStr` reads it: an optional sign, then one or
/// more digits and nothing else, with a value that fits.
pub open spec fn spec_parse_i64(s: Seq<char>) -> Option<int> {
    let negative = s.len() > 0 && s[0] == '-';
    let digits = if s.len() > 0 && (s[0] == '-' || s[0] == '+') { s.skip(1) } else { s };
    let value = if negative { -digits_value(digits) } else { digits_value(digits) };
    if digits.len() > 0 && (forall|i: int| 0 <= i < digits.len() ==> is_decimal_digit(#[trigger] digits[i]))
        && i64::MIN <= value <= i64::MAX {
        Some(value)
    } else {
        None
    }
}

/// Relies on `str::parse::<i64>` (i64's `FromStr`), which reads an optional `+` or
/// `-` followed by decimal digits only, and fails on anything else or on overflow.
#[verifier::external_body]
fn parse_i64(s: &String) -> (r: Option<i64>)
    ensures
        match spec_parse_i64(s@) {
            Some(v) => r == Some(v as i64),
            None => r is None,
        },
{
    s.parse::<i64>().ok()
}

/// What a PayU order query makes of the envelope: the first order decides, and
/// its total is the amount captured.
pub open spec fn spec_payu_sync<F, T>(item: ResponseRouterData<F, PayuPaymentsSyncResponse, T, PaymentsResponseData>) -> Result<RouterData<F, T, PaymentsResponseData>, ConnectorError> {
    if item.response.orders@.len() == 0 {
        Err(ConnectorError::ResponseHandlingFailed)
    } else {
        let order = item.response.orders@[0];
        match spec_parse_i64(order.total_amount@) {
            None => Err(ConnectorError::ResponseDeserializationFailed),
            Some(amount) => Ok(RouterData {
                status: spec_attempt_status_of_order(order.status),
                response: Ok(payu_order_transaction(order.order_id, order.ext_order_id)),
                amount_captured: Some(amount as i64),
                ..item.data
            }),
        }
    }
}

impl<F, T> TryFrom<ResponseRouterData<F, PayuPaymentsSyncResponse, T, PaymentsResponseData>> for RouterData<F, T, PaymentsResponseData> {
    type Error = ConnectorError;

    fn try_from(item: ResponseRouterData<F, PayuPaymentsSyncResponse, T, PaymentsResponseData>) -> (r: Result<Self, Self::Error>) {
        if item.response.orders.len() == 0 {
            return Err(ConnectorError::ResponseHandlingFailed);
        }
        let order = &item.response.orders[0];
        let amount = match parse_i64(&order.total_amount) {
            Some(v) => v,
            None => return Err(ConnectorError::ResponseDeserializationFailed),
        };
        let status = AttemptStatus::from(order.status);
        let response = order_transaction(order.order_id.clone(), clone_opt_string(&order.ext_order_id));
        Ok(RouterData { status, response: Ok(response), amount_captured: Some(amount), ..item.data })
    }
}

impl<F, T> vstd::std_specs::convert::TryFromSpecImpl<ResponseRouterData<F, PayuPaymentsSyncResponse, T, PaymentsResponseData>> for RouterData<F, T, PaymentsResponseData> {
    open spec fn obeys_try_from_spec() -> bool {
        true
    }

    open spec fn try_from_spec(item: ResponseRouterData<F, PayuPaymentsSyncResponse, T, PaymentsResponseData>) -> Result<Self, Self::Error> {
        spec_payu_sync(item)
    }
}

#[derive(Clone, Debug)]
pub struct PayuRefundRequestData {
    pub description: String,
    pub amount: Option<i64>,
}

#[derive(Clone, Debug)]
pub struct PayuRefundRequest {
    pub refund: PayuRefundRequestData,
}

impl<F> TryFrom<&RefundsRouterData<F>> for PayuRefundRequest {
    type Error = ConnectorError;

    fn try_from(item: &RefundsRouterData<F>) -> (r: Result<Self, Self::Error>) {
        let description = match &item.request.reason {
            Some(reason) => reason.clone(),
            None => return Err(ConnectorError::MissingRequiredField { field_name: "item.request.reason" }),
        };
        Ok(PayuRefundRequest { refund: PayuRefundRequestData { description, amount: None } })
    }
}

impl<F> vstd::std_specs::convert::TryFromSpecImpl<&RefundsRouterData<F>> for PayuRefundRequest {
    open spec fn obeys_try_from_spec() -> bool {
        true
    }

    /// A PayU refund carries the reason as its description, and no amount: PayU
    /// then refunds the whole order.
    open spec fn try_from_spec(item: &RefundsRouterData<F>) -> Result<Self, Self::Error> {
        match item.request.reason {
            None => Err(ConnectorError::MissingRequiredField { field_name: "item.request.reason" }),
            Some(description) => Ok(PayuRefundRequest { refund: PayuRefundRequestData { description, amount: None } }),
        }
    }
}

/// The status of a PayU refund.
#[derive(Clone, Copy, Debug, PartialEq, Eq, Structural)]
pub enum RefundStatus {
    Finalized,
    Completed,
    Canceled,
    Pending,
}

pub open spec fn spec_refund_status_of_payu(item: RefundStatus) -> crate::types::RefundStatus {
    match item {
        RefundStatus::Finalized | RefundStatus::Completed => crate::types::RefundStatus::Success,
        RefundStatus::Canceled => crate::types::RefundStatus::Failure,
        RefundStatus::Pending => crate::types::RefundStatus::Pending,
    }
}

impl From<RefundStatus> for crate::types::RefundStatus {
    fn from(item: RefundStatus) -> (r: Self) {
        match item {
            RefundStatus::Finalized | RefundStatus::Completed => crate::types::RefundStatus::Success,
            RefundStatus::Canceled => crate::types::RefundStatus::Failure,
            RefundStatus::Pending => crate::types::RefundStatus::Pending,
        }
    }
}

impl vstd::std_specs::convert::FromSpecImpl<RefundStatus> for crate::types::RefundStatus {
    open spec fn obeys_from_spec() -> bool {
        true
    }

    open spec fn from_spec(item: RefundStatus) -> Self {
        spec_refund_status_of_payu(item)
    }
}

#[derive(Clone, Debug)]
pub struct PayuRefundResponseData {
    pub refund_id: String,
    pub ext_refund_id: String,
    pub amount: String,
    pub currency_code: Currency,
    pub description: String,
    pub creation_date_time: String,
    pub status: RefundStatus,
    pub status_date_time: Option<String>,
}

#[derive(Clone, Debug)]
pub struct RefundResponse {
    pub refund: PayuRefundResponseData,
}

impl TryFrom<RefundsResponseRouterData<Execute, RefundResponse>> for RefundsRouterData<Execute> {
    type Error = ConnectorError;

    fn try_from(item: RefundsResponseRouterData<Execute, RefundResponse>) -> (r: Result<Self, Self::Error>) {
        let refund_status = crate::types::RefundStatus::from(item.response.refund.status);
        Ok(RouterData {
            response: Ok(RefundsResponseData { connector_refund_id: item.response.refund.refund_id, refund_status }),
            ..item.data
        })
    }
}

impl vstd::std_specs::convert::TryFromSpecImpl<RefundsResponseRouterData<Execute, RefundResponse>> for RefundsRouterData<Execute> {
    open spec fn obeys_try_from_spec() -> bool {
        true
    }

    open spec fn try_from_spec(item: RefundsResponseRouterData<Execute, RefundResponse>) -> Result<Self, Self::Error> {
        Ok(RouterData {
            response: Ok(RefundsResponseData {
                connector_refund_id: item.response.refund.refund_id,
                refund_status: spec_refund_status_of_payu(item.response.refund.status),
            }),
            ..item.data
        })
    }
}

#[derive(Clone, Debug)]
pub struct RefundSyncResponse {
    pub refunds: Vec<PayuRefundResponseData>,
}

/// What a PayU refund query makes of the envelope: the first refund listed decides.
pub open spec fn spec_payu_refund_sync(item: RefundsResponseRouterData<RSync, RefundSyncResponse>) -> Result<RefundsRouterData<RSync>, ConnectorError> {
    if item.response.refunds@.len() == 0 {
        Err(ConnectorError::ResponseHandlingFailed)
    } else {
        let refund = item.response.refunds@[0];
        Ok(RouterData {
            response: Ok(RefundsResponseData {
                connector_refund_id: refund.refund_id,
                refund_status: spec_refund_status_of_payu(refund.status),
            }),
            ..item.data
        })
    }
}

impl TryFrom<RefundsResponseRouterData<RSync, RefundSyncResponse>> for RefundsRouterData<RSync> {
    type Error = ConnectorError;

    fn try_from(item: RefundsResponseRouterData<RSync, RefundSyncResponse>) -> (r: Result<Self, Self::Error>) {
        if item.response.refunds.len() == 0 {
            return Err(ConnectorError::ResponseHandlingFailed);
        }
        let refund = &item.response.refunds[0];
        let refund_status = crate::types::RefundStatus::from(refund.status);
        Ok(RouterData {
            response: Ok(RefundsResponseData { connector_refund_id: refund.refund_id.clone(), refund_status }),
            ..item.data
        })
    }
}

impl vstd::std_specs::convert::TryFromSpecImpl<RefundsResponseRouterData<RSync, RefundSyncResponse>> for RefundsRouterData<RSync> {
    open spec fn obeys_try_from_spec() -> bool {
        true
    }

    open spec fn try_from_spec(item: RefundsResponseRouterData<RSync, RefundSyncResponse>) -> Result<Self, Self::Error> {
        spec_payu_refund_sync(item)
    }
}

#[derive(Clone, Debug)]
pub struct PayuErrorData {
    pub status_code: String,
    pub code: Option<String>,
    pub code_literal: Option<String>,
    pub status_desc: String,
}

#[derive(Clone, Debug)]
pub struct PayuErrorResponse {
    pub status: PayuErrorData,
}

#[derive(Clone, Debug)]
pub struct PayuAccessTokenErrorResponse {
    pub error: String,
    pub error_description: String,
}

} // verus!
