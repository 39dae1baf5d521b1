//! The canonical payment model shared by every connector and every pipeline stage.
use vstd::prelude::*;

use core::marker::PhantomData;

verus! {

/// The fine-grained status of one dispatch try against a connector.
#[derive(Clone, Copy, Debug, PartialEq, Eq, Structural)]
pub enum AttemptStatus {
    Started,
    AuthenticationFailed,
    RouterDeclined,
    AuthenticationPending,
    AuthenticationSuccessful,
    Authorized,
    AuthorizationFailed,
    Charged,
    Authorizing,
    CodInitiated,
    Voided,
    VoidInitiated,
    CaptureInitiated,
    CaptureFailed,
    VoidFailed,
    AutoRefunded,
    PartialCharged,
    PartialChargedAndChargeable,
    Unresolved,
    Pending,
    Failure,
    PaymentMethodAwaited,
    ConfirmationAwaited,
    DeviceDataCollectionPending,
}

/// The coarse status of a payment as a whole.
#[derive(Clone, Copy, Debug, PartialEq, Eq, Structural)]
pub enum IntentStatus {
    Succeeded,
    Failed,
    Cancelled,
    Processing,
    RequiresCustomerAction,
    RequiresMerchantAction,
    RequiresPaymentMethod,
    RequiresConfirmation,
    RequiresCapture,
    PartiallyCaptured,
    PartiallyCapturedAndCapturable,
}

impl IntentStatus {
    /// A terminal status is never left: no operation may mutate such an intent.
    pub open spec fn spec_is_terminal(self) -> bool {
        ||| self == IntentStatus::Succeeded
        ||| self == IntentStatus::Failed
        ||| self == IntentStatus::Cancelled
    }

    pub fn is_terminal(&self) -> (r: bool)
        ensures
            r == self.spec_is_terminal(),
    {
        match self {
            IntentStatus::Succeeded | IntentStatus::Failed | IntentStatus::Cancelled => true,
            _ => false,
        }
    }
}

/// The canonical status of a refund.
#[derive(Clone, Copy, Debug, PartialEq, Eq, Structural)]
pub enum RefundStatus {
    Success,
    Failure,
    Pending,
}

/// ISO 4217 currencies that the router accepts.
#[derive(Clone, Copy, Debug, PartialEq, Eq, Structural)]
pub enum Currency {
    AED,
    AUD,
    BRL,
    CAD,
    CHF,
    CNY,
    CZK,
    DKK,
    EUR,
    GBP,
    HKD,
    HUF,
    IDR,
    INR,
    JPY,
    KRW,
    MXN,
    MYR,
    NOK,
    NZD,
    PHP,
    PLN,
    RON,
    SEK,
    SGD,
    THB,
    USD,
    ZAR,
}

/// The unit in which a connector expects amounts.
#[derive(Clone, Copy, Debug, PartialEq, Eq, Structural)]
pub enum CurrencyUnit {
    Base,
    Minor,
}

/// When the funds of an authorized payment are captured.
#[derive(Clone, Copy, Debug, PartialEq, Eq, Structural)]
pub enum CaptureMethod {
    Automatic,
    Manual,
    ManualMultiple,
    Scheduled,
}

/// The family of a payment method.
#[derive(Clone, Copy, Debug, PartialEq, Eq, Structural)]
pub enum PaymentMethod {
    Card,
    CardRedirect,
    PayLater,
    Wallet,
    BankRedirect,
    BankTransfer,
    Crypto,
    BankDebit,
    Reward,
    Upi,
    Voucher,
    GiftCard,
}

/// Credentials of a merchant at a connector, by shape.
#[derive(Clone, Debug)]
pub enum ConnectorAuthType {
    HeaderKey { api_key: String },
    BodyKey { api_key: String, key1: String },
    SignatureKey { api_key: String, key1: String, api_secret: String },
    MultiAuthKey { api_key: String, key1: String, api_secret: String, key2: String },
    NoKey,
}

/// Raw card details.
#[derive(Clone, Debug)]
pub struct Card {
    pub card_number: String,
    pub card_exp_month: String,
    pub card_exp_year: String,
    pub card_holder_name: String,
    pub card_cvc: String,
}

#[derive(Clone, Debug)]
pub struct GpayTokenizationData {
    pub token_type: String,
    pub token: String,
}

#[derive(Clone, Debug)]
pub struct GooglePayWalletData {
    pub description: String,
    pub tokenization_data: GpayTokenizationData,
}

#[derive(Clone, Debug)]
pub struct ApplePayWalletData {
    pub payment_data: String,
    pub transaction_identifier: String,
}

#[derive(Clone, Debug)]
pub enum WalletData {
    AliPayQr,
    AliPayRedirect,
    AliPayHkRedirect,
    MomoRedirect,
    KakaoPayRedirect,
    GoPayRedirect,
    GcashRedirect,
    ApplePay(ApplePayWalletData),
    ApplePayRedirect,
    ApplePayThirdPartySdk,
    DanaRedirect,
    GooglePay(GooglePayWalletData),
    GooglePayRedirect,
    GooglePayThirdPartySdk,
    MbWayRedirect,
    MobilePayRedirect,
    PaypalRedirect,
    PaypalSdk,
    SamsungPay,
    TwintRedirect,
    VippsRedirect,
    TouchNGoRedirect,
    WeChatPayRedirect,
    WeChatPayQr,
    CashappQr,
    SwishQr,
}

#[derive(Clone, Copy, Debug, PartialEq, Eq, Structural)]
pub enum BankDebitData {
    AchBankDebit,
    SepaBankDebit,
    BecsBankDebit,
    BacsBankDebit,
}

#[derive(Clone, Copy, Debug, PartialEq, Eq, Structural)]
pub enum BankRedirectData {
    BancontactCard,
    Bizum,
    Blik,
    Eps,
    Giropay,
    Ideal,
    Interac,
    OnlineBankingCzechRepublic,
    OnlineBankingFinland,
    OnlineBankingPoland,
    OnlineBankingSlovakia,
    OpenBankingUk,
    Przelewy24,
    Sofort,
    Trustly,
    OnlineBankingFpx,
    OnlineBankingThailand,
}

#[derive(Clone, Copy, Debug, PartialEq, Eq, Structural)]
pub enum BankTransferData {
    AchBankTransfer,
    SepaBankTransfer,
    BacsBankTransfer,
    MultibancoBankTransfer,
    PermataBankTransfer,
    BcaBankTransfer,
    BniVaBankTransfer,
    BriVaBankTransfer,
    CimbVaBankTransfer,
    DanamonVaBankTransfer,
    MandiriVaBankTransfer,
    Pix,
    Pse,
}

#[derive(Clone, Copy, Debug, PartialEq, Eq, Structural)]
pub enum PayLaterData {
    KlarnaRedirect,
    KlarnaSdk,
    AffirmRedirect,
    AfterpayClearpayRedirect,
    PayBrightRedirect,
    WalleyRedirect,
    AlmaRedirect,
    AtomeRedirect,
}

/// The payment method data that a transformer turns into a connector request.
#[derive(Clone, Debug)]
pub enum PaymentMethodData {
    Card(Card),
    CardRedirect,
    Wallet(WalletData),
    PayLater(PayLaterData),
    BankRedirect(BankRedirectData),
    BankDebit(BankDebitData),
    BankTransfer(BankTransferData),
    Crypto,
    MandatePayment,
    Reward,
    Upi,
    Voucher,
    GiftCard,
}

/// An IP address as its octets (version 4) or segments (version 6).
#[derive(Clone, Copy, Debug, PartialEq, Eq, Structural)]
pub enum IpAddress {
    V4(u8, u8, u8, u8),
    V6(u16, u16, u16, u16, u16, u16, u16, u16),
}

/// What the customer's browser reported.
#[derive(Clone, Debug)]
pub struct BrowserInformation {
    pub ip_address: Option<IpAddress>,
    pub user_agent: Option<String>,
    pub accept_header: Option<String>,
    pub language: Option<String>,
}

/// Flow markers: each selects which conversions apply to a `RouterData`.
pub struct Authorize;

pub struct Capture;

pub struct PSync;

pub struct Void;

pub struct Execute;

pub struct RSync;

pub struct AccessTokenAuth;

#[derive(Clone, Debug)]
pub struct PaymentsAuthorizeData {
    pub payment_method_data: PaymentMethodData,
    pub amount: i64,
    pub currency: Currency,
    pub capture_method: Option<CaptureMethod>,
    pub browser_info: Option<BrowserInformation>,
    pub email: Option<String>,
}

impl PaymentsAuthorizeData {
    /// Whether funds are captured with the authorization: `None` where the capture
    /// method is one that a single request cannot express.
    pub open spec fn spec_is_auto_capture(self) -> Option<bool> {
        match self.capture_method {
            None => Some(true),
            Some(CaptureMethod::Automatic) => Some(true),
            Some(CaptureMethod::Manual) => Some(false),
            _ => None,
        }
    }

    pub fn is_auto_capture(&self) -> (r: Option<bool>)
        ensures
            r == self.spec_is_auto_capture(),
    {
        match self.capture_method {
            None => Some(true),
            Some(CaptureMethod::Automatic) => Some(true),
            Some(CaptureMethod::Manual) => Some(false),
            _ => None,
        }
    }
}

#[derive(Clone, Debug)]
pub struct PaymentsCaptureData {
    pub amount_to_capture: i64,
    pub currency: Currency,
    pub connector_transaction_id: String,
}

#[derive(Clone, Debug)]
pub struct PaymentsSyncData {
    pub connector_transaction_id: ResponseId,
}

#[derive(Clone, Debug)]
pub struct PaymentsCancelData {
    pub connector_transaction_id: String,
    pub cancellation_reason: Option<String>,
}

#[derive(Clone, Debug)]
pub struct RefundsData {
    pub refund_id: String,
    pub connector_transaction_id: String,
    pub connector_refund_id: Option<String>,
    pub currency: Currency,
    pub payment_amount: i64,
    pub refund_amount: i64,
    pub reason: Option<String>,
}

#[derive(Clone, Debug)]
pub struct AccessTokenRequestData {
    pub app_id: String,
    pub id: Option<String>,
}

/// How a connector identifies a payment in its own records.
#[derive(Clone, Debug)]
pub enum ResponseId {
    ConnectorTransactionId(String),
    EncodedData(String),
    NoResponseId,
}

#[derive(Clone, Debug)]
pub enum PaymentsResponseData {
    TransactionResponse {
        resource_id: ResponseId,
        redirection_data: Option<String>,
        mandate_reference: Option<String>,
        connector_metadata: Option<String>,
        network_txn_id: Option<String>,
        connector_response_reference_id: Option<String>,
    },
}

#[derive(Clone, Debug)]
pub struct RefundsResponseData {
    pub connector_refund_id: String,
    pub refund_status: RefundStatus,
}

#[derive(Clone, Debug)]
pub struct AccessToken {
    pub token: String,
    pub expires: i64,
}

/// What a connector reported when it declined a request.
#[derive(Clone, Debug)]
pub struct ErrorResponse {
    pub code: String,
    pub message: String,
    pub reason: Option<String>,
    pub status_code: u16,
}

/// The envelope passed to and from a transformer: shared fields, a flow-specific
/// request, and the result of dispatching it.
pub struct RouterData<F, Req, Resp> {
    pub flow: PhantomData<F>,
    pub merchant_id: String,
    pub connector: String,
    pub payment_id: String,
    pub attempt_id: String,
    pub status: AttemptStatus,
    pub payment_method: PaymentMethod,
    pub connector_auth_type: ConnectorAuthType,
    pub description: Option<String>,
    pub amount_captured: Option<i64>,
    pub access_token: Option<AccessToken>,
    pub connector_request_reference_id: String,
    pub request: Req,
    pub response: Result<Resp, ErrorResponse>,
}

/// A connector's parsed wire response together with the envelope it answers.
pub struct ResponseRouterData<F, R, Req, Resp> {
    pub response: R,
    pub data: RouterData<F, Req, Resp>,
    pub http_code: u16,
}

pub type PaymentsAuthorizeRouterData = RouterData<Authorize, PaymentsAuthorizeData, PaymentsResponseData>;

pub type PaymentsCaptureRouterData = RouterData<Capture, PaymentsCaptureData, PaymentsResponseData>;

pub type PaymentsSyncRouterData = RouterData<PSync, PaymentsSyncData, PaymentsResponseData>;

pub type PaymentsCancelRouterData = RouterData<Void, PaymentsCancelData, PaymentsResponseData>;

pub type RefundsRouterData<F> = RouterData<F, RefundsData, RefundsResponseData>;

pub type RefreshTokenRouterData = RouterData<AccessTokenAuth, AccessTokenRequestData, AccessToken>;

pub type PaymentsResponseRouterData<R> = ResponseRouterData<Authorize, R, PaymentsAuthorizeData, PaymentsResponseData>;

pub type RefundsResponseRouterData<F, R> = ResponseRouterData<F, R, RefundsData, RefundsResponseData>;

} // verus!
