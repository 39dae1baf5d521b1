use std::marker::PhantomData;

use router::connectors::{AuthorizeRequest, Connector};
use router::errors::ConnectorError;
use router::nooni::{
    NooniAttemptStatus, NooniAuthType, NooniAuthorizeRequest, NooniAuthorizeResponse,
    NooniAuthorizeResponseBalances, NooniAuthorizeResponseLinks, NooniAuthorizeResponseLinksActions,
    NooniAuthorizeResponseLinksCapture, NooniAuthorizeResponseLinksSelf, NooniAuthorizeResponseLinksVoid,
    NooniAuthorizeResponseProcessing, NooniAuthorizeResponseRisk, NooniAuthorizeResponseSource,
    NooniAuthorizeRequestSourceType, NooniRouterData,
};
use router::payu::{
    OrderStatus, PayuAuthType, PayuAuthUpdateRequest, PayuAuthUpdateResponse, PayuCard,
    PayuOrderResponseData, PayuPaymentMethod, PayuPaymentMethodData, PayuPaymentStatus,
    PayuPaymentStatusData, PayuPaymentsCancelResponse, PayuPaymentsCaptureRequest,
    PayuPaymentsCaptureResponse, PayuPaymentsRequest, PayuPaymentsResponse, PayuPaymentsSyncResponse,
    PayuRefundRequest, PayuRefundResponseData, PayuWalletCode, RefundResponse, RefundSyncResponse,
};
use router::types::{
    AccessToken, AccessTokenAuth, AccessTokenRequestData, ApplePayWalletData, AttemptStatus, Authorize,
    BankDebitData, BankRedirectData, BankTransferData, BrowserInformation, Capture, CaptureMethod, Card,
    ConnectorAuthType, Currency, CurrencyUnit, ErrorResponse, Execute, GooglePayWalletData,
    GpayTokenizationData, IpAddress, PSync, PayLaterData, PaymentMethod, PaymentMethodData,
    PaymentsAuthorizeData, PaymentsAuthorizeRouterData, PaymentsCaptureData, PaymentsResponseData,
    PaymentsSyncData, RSync, RefundStatus, RefundsData, ResponseId, ResponseRouterData, RouterData, Void,
    PaymentsCancelData, WalletData,
};

fn pending() -> ErrorResponse {
    ErrorResponse { code: String::new(), message: String::new(), reason: None, status_code: 0 }
}

fn envelope<F, Req, Resp>(auth: ConnectorAuthType, request: Req) -> RouterData<F, Req, Resp> {
    RouterData {
        flow: PhantomData,
        merchant_id: "merchant_1".to_string(),
        connector: "payu".to_string(),
        payment_id: "pay_1".to_string(),
        attempt_id: "att_1".to_string(),
        status: AttemptStatus::Started,
        payment_method: PaymentMethod::Card,
        connector_auth_type: auth,
        description: Some("order 42".to_string()),
        amount_captured: Some(7),
        access_token: None,
        connector_request_reference_id: "ref_1".to_string(),
        request,
        response: Err(pending()),
    }
}

fn card() -> Card {
    Card {
        card_number: "4111111111111111".to_string(),
        card_exp_month: "03".to_string(),
        card_exp_year: "2030".to_string(),
        card_holder_name: "Jo Doe".to_string(),
        card_cvc: "123".to_string(),
    }
}

fn authorize_data(pmd: PaymentMethodData, capture_method: Option<CaptureMethod>) -> PaymentsAuthorizeData {
    PaymentsAuthorizeData {
        payment_method_data: pmd,
        amount: 1000,
        currency: Currency::USD,
        capture_method,
        browser_info: Some(BrowserInformation {
            ip_address: Some(IpAddress::V4(127, 0, 0, 1)),
            user_agent: None,
            accept_header: None,
            language: None,
        }),
        email: None,
    }
}

fn body_key() -> ConnectorAuthType {
    ConnectorAuthType::BodyKey { api_key: "secret".to_string(), key1: "pos_145227".to_string() }
}

fn payu_authorize(pmd: PaymentMethodData) -> PaymentsAuthorizeRouterData {
    envelope(body_key(), authorize_data(pmd, None))
}

fn header_key() -> ConnectorAuthType {
    ConnectorAuthType::HeaderKey { api_key: "sk_test".to_string() }
}

fn all_auth_types() -> Vec<ConnectorAuthType> {
    vec![
        header_key(),
        body_key(),
        ConnectorAuthType::SignatureKey { api_key: "a".to_string(), key1: "b".to_string(), api_secret: "c".to_string() },
        ConnectorAuthType::MultiAuthKey {
            api_key: "a".to_string(),
            key1: "b".to_string(),
            api_secret: "c".to_string(),
            key2: "d".to_string(),
        },
        ConnectorAuthType::NoKey,
    ]
}

fn nooni_response(id: &str) -> NooniAuthorizeResponse {
    let href = || "https://example.test".to_string();
    NooniAuthorizeResponse {
        id: id.to_string(),
        action_id: "act_1".to_string(),
        amount: 1000,
        currency: "USD".to_string(),
        approved: true,
        status: NooniAttemptStatus::Authorized,
        auth_code: "000".to_string(),
        response_code: "10000".to_string(),
        response_summary: "Approved".to_string(),
        balances: NooniAuthorizeResponseBalances {
            total_authorized: 1000,
            total_voided: 0,
            available_to_void: 1000,
            total_captured: 0,
            available_to_capture: 1000,
            total_refunded: 0,
            available_to_refund: 0,
        },
        risk: NooniAuthorizeResponseRisk { flagged: false, score: 0 },
        source: NooniAuthorizeResponseSource {
            id: "src_1".to_string(),
            nooni_authorize_response_source_type: "card".to_string(),
            expiry_month: 3,
            expiry_year: 2030,
            name: "Jo Doe".to_string(),
            scheme: "Visa".to_string(),
            last4: "1111".to_string(),
            fingerprint: "fp".to_string(),
            bin: "411111".to_string(),
            card_type: "CREDIT".to_string(),
            card_category: "CONSUMER".to_string(),
            issuer_country: "US".to_string(),
            product_id: "A".to_string(),
            product_type: "Visa Traditional".to_string(),
            avs_check: "S".to_string(),
            cvv_check: "Y".to_string(),
            payment_account_reference: "par".to_string(),
        },
        processed_on: "2024-01-01T00:00:00Z".to_string(),
        reference: "ref_1".to_string(),
        scheme_id: "sch".to_string(),
        processing: NooniAuthorizeResponseProcessing {
            acquirer_transaction_id: "acq".to_string(),
            retrieval_reference_number: "rrn".to_string(),
            merchant_category_code: "5311".to_string(),
            scheme_merchant_id: "smi".to_string(),
            aft: false,
        },
        expires_on: "2024-02-01T00:00:00Z".to_string(),
        links: NooniAuthorizeResponseLinks {
            nooni_authorize_response_links_self: NooniAuthorizeResponseLinksSelf { href: href() },
            actions: NooniAuthorizeResponseLinksActions { href: href() },
            capture: NooniAuthorizeResponseLinksCapture { href: href() },
            void: NooniAuthorizeResponseLinksVoid { href: href() },
        },
    }
}

fn transaction_id(response: &Result<PaymentsResponseData, ErrorResponse>) -> (ResponseId, Option<String>) {
    match response {
        Ok(PaymentsResponseData::TransactionResponse { resource_id, connector_response_reference_id, .. }) => {
            (resource_id.clone(), connector_response_reference_id.clone())
        }
        Err(_) => panic!("no transaction response"),
    }
}

#[test]
fn card_authorize_round_trips_through_nooni() {
    let router_data: PaymentsAuthorizeRouterData =
        envelope(header_key(), authorize_data(PaymentMethodData::Card(card()), None));
    let item = NooniRouterData::try_from((&CurrencyUnit::Minor, Currency::USD, 1000, &router_data)).unwrap();
    assert_eq!(item.amount, 1000);
    let request = NooniAuthorizeRequest::try_from(&item).unwrap();
    assert!(request.capture);
    assert_eq!(request.amount, 1000);
    assert_eq!(request.currency, Currency::USD);
    assert_eq!(request.reference.as_deref(), Some("ref_1"));
    assert_eq!(request.source.nooni_authorize_request_source_type, NooniAuthorizeRequestSourceType::Card);
    assert_eq!(request.source.number, "4111111111111111");
    assert_eq!(request.source.cvv, "123");
    assert_eq!(request.processing_channel_id, "pc_gcjstkyrr4eudnjkqlro3kymcu");

    let response = ResponseRouterData { response: nooni_response("pay_nooni_9"), data: router_data, http_code: 200 };
    let out = PaymentsAuthorizeRouterData::try_from(response).unwrap();
    assert_eq!(out.status, AttemptStatus::Authorized);
    let (resource_id, reference) = transaction_id(&out.response);
    assert!(matches!(resource_id, ResponseId::ConnectorTransactionId(ref id) if id == "pay_nooni_9"));
    assert_eq!(reference, None);
    assert_eq!(out.payment_id, "pay_1");
}

#[test]
fn nooni_manual_capture_and_unsupported_capture() {
    let manual: PaymentsAuthorizeRouterData =
        envelope(header_key(), authorize_data(PaymentMethodData::Card(card()), Some(CaptureMethod::Manual)));
    let item = NooniRouterData { amount: 500, router_data: &manual };
    assert!(!NooniAuthorizeRequest::try_from(&item).unwrap().capture);

    let scheduled: PaymentsAuthorizeRouterData =
        envelope(header_key(), authorize_data(PaymentMethodData::Card(card()), Some(CaptureMethod::Scheduled)));
    let item = NooniRouterData { amount: 500, router_data: &scheduled };
    assert_eq!(
        NooniAuthorizeRequest::try_from(&item).unwrap_err(),
        ConnectorError::NotSupported { message: "Capture method", connector: "Nooni" }
    );
}

#[test]
fn nooni_refuses_non_card_methods() {
    let methods = vec![
        PaymentMethodData::Wallet(WalletData::PaypalRedirect),
        PaymentMethodData::BankDebit(BankDebitData::SepaBankDebit),
        PaymentMethodData::Crypto,
        PaymentMethodData::MandatePayment,
    ];
    for pmd in methods {
        let data: PaymentsAuthorizeRouterData = envelope(header_key(), authorize_data(pmd, None));
        let item = NooniRouterData { amount: 1, router_data: &data };
        assert_eq!(
            NooniAuthorizeRequest::try_from(&item).unwrap_err(),
            ConnectorError::NotImplemented("payment method")
        );
    }
}

#[test]
fn auth_extraction_per_shape() {
    for auth in all_auth_types() {
        let nooni = NooniAuthType::try_from(&auth);
        let payu = PayuAuthType::try_from(&auth);
        match &auth {
            ConnectorAuthType::HeaderKey { api_key } => assert_eq!(&nooni.unwrap().test_key, api_key),
            _ => assert_eq!(nooni.unwrap_err(), ConnectorError::FailedToObtainAuthType),
        }
        match &auth {
            ConnectorAuthType::BodyKey { api_key, key1 } => {
                let payu = payu.unwrap();
                assert_eq!(&payu.api_key, api_key);
                assert_eq!(&payu.merchant_pos_id, key1);
            }
            _ => assert_eq!(payu.unwrap_err(), ConnectorError::FailedToObtainAuthType),
        }
    }
}

#[test]
fn payu_card_order() {
    let request = PayuPaymentsRequest::try_from(&payu_authorize(PaymentMethodData::Card(card()))).unwrap();
    assert_eq!(request.customer_ip, IpAddress::V4(127, 0, 0, 1));
    assert_eq!(request.merchant_pos_id, "pos_145227");
    assert_eq!(request.total_amount, 1000);
    assert_eq!(request.currency_code, Currency::USD);
    assert_eq!(request.description, "order 42");
    assert_eq!(request.continue_url, None);
    match request.pay_methods.pay_method {
        PayuPaymentMethodData::Card(PayuCard::Card { number, expiration_month, expiration_year, cvv }) => {
            assert_eq!(number, "4111111111111111");
            assert_eq!(expiration_month, "03");
            assert_eq!(expiration_year, "2030");
            assert_eq!(cvv, "123");
        }
        _ => panic!("expected a card"),
    }
}

#[test]
fn payu_google_pay_token_is_base64_encoded() {
    let gpay = PaymentMethodData::Wallet(WalletData::GooglePay(GooglePayWalletData {
        description: "Visa 1111".to_string(),
        tokenization_data: GpayTokenizationData { token_type: "PAYMENT_GATEWAY".to_string(), token: "abc".to_string() },
    }));
    let request = PayuPaymentsRequest::try_from(&payu_authorize(gpay)).unwrap();
    match request.pay_methods.pay_method {
        PayuPaymentMethodData::Wallet(w) => {
            assert_eq!(w.value, PayuWalletCode::Ap);
            assert_eq!(w.wallet_type, "PBL");
            assert_eq!(w.authorization_code, "YWJj");
        }
        _ => panic!("expected a wallet"),
    }
}

#[test]
fn payu_apple_pay_data_is_sent_as_is() {
    let apay = PaymentMethodData::Wallet(WalletData::ApplePay(ApplePayWalletData {
        payment_data: "eyJkYXRhIjoi".to_string(),
        transaction_identifier: "tx".to_string(),
    }));
    let method = PayuPaymentMethod::from_payment_method_data(&apay, String::new()).unwrap();
    match method.pay_method {
        PayuPaymentMethodData::Wallet(w) => {
            assert_eq!(w.value, PayuWalletCode::Jp);
            assert_eq!(w.authorization_code, "eyJkYXRhIjoi");
        }
        _ => panic!("expected a wallet"),
    }
}

#[test]
fn payu_build_takes_the_encoded_code() {
    let gpay = PaymentMethodData::Wallet(WalletData::GooglePay(GooglePayWalletData {
        description: String::new(),
        tokenization_data: GpayTokenizationData { token_type: String::new(), token: "ignored".to_string() },
    }));
    let request = PayuPaymentsRequest::build(&payu_authorize(gpay), "CODE".to_string()).unwrap();
    match request.pay_methods.pay_method {
        PayuPaymentMethodData::Wallet(w) => assert_eq!(w.authorization_code, "CODE"),
        _ => panic!("expected a wallet"),
    }
}

#[test]
fn payu_refusals_keep_their_kind() {
    let not_implemented_lower = ConnectorError::NotImplemented("Selected payment method through payu");
    let not_implemented = ConnectorError::NotImplemented("Selected payment method through Payu");
    let not_supported = ConnectorError::NotSupported { message: "Selected payment method", connector: "Payu" };
    let cases = vec![
        (PaymentMethodData::Wallet(WalletData::PaypalRedirect), not_implemented_lower),
        (PaymentMethodData::Wallet(WalletData::SamsungPay), not_supported),
        (PaymentMethodData::BankDebit(BankDebitData::SepaBankDebit), not_implemented),
        (PaymentMethodData::BankDebit(BankDebitData::AchBankDebit), not_supported),
        (PaymentMethodData::BankRedirect(BankRedirectData::Ideal), not_implemented),
        (PaymentMethodData::BankRedirect(BankRedirectData::Eps), not_supported),
        (PaymentMethodData::BankTransfer(BankTransferData::AchBankTransfer), not_implemented),
        (PaymentMethodData::BankTransfer(BankTransferData::Pix), not_supported),
        (PaymentMethodData::PayLater(PayLaterData::KlarnaRedirect), not_supported),
        (PaymentMethodData::Upi, not_implemented_lower),
        (PaymentMethodData::GiftCard, not_implemented_lower),
        (PaymentMethodData::CardRedirect, not_supported),
        (PaymentMethodData::Crypto, not_supported),
        (PaymentMethodData::MandatePayment, not_supported),
        (PaymentMethodData::Reward, not_supported),
        (PaymentMethodData::Voucher, not_supported),
    ];
    for (pmd, expected) in cases {
        assert_eq!(PayuPaymentsRequest::try_from(&payu_authorize(pmd)).unwrap_err(), expected);
    }
}

#[test]
fn payu_missing_fields_in_order() {
    let mut no_auth = payu_authorize(PaymentMethodData::Card(card()));
    no_auth.connector_auth_type = header_key();
    no_auth.request.browser_info = None;
    assert_eq!(PayuPaymentsRequest::try_from(&no_auth).unwrap_err(), ConnectorError::FailedToObtainAuthType);

    let mut no_browser = payu_authorize(PaymentMethodData::Card(card()));
    no_browser.request.browser_info = None;
    assert_eq!(
        PayuPaymentsRequest::try_from(&no_browser).unwrap_err(),
        ConnectorError::MissingRequiredField { field_name: "browser_info" }
    );

    let mut no_ip = payu_authorize(PaymentMethodData::Card(card()));
    no_ip.request.browser_info.as_mut().unwrap().ip_address = None;
    no_ip.description = None;
    assert_eq!(
        PayuPaymentsRequest::try_from(&no_ip).unwrap_err(),
        ConnectorError::MissingRequiredField { field_name: "browser_info.ip_address" }
    );

    let mut no_description = payu_authorize(PaymentMethodData::Card(card()));
    no_description.description = None;
    assert_eq!(
        PayuPaymentsRequest::try_from(&no_description).unwrap_err(),
        ConnectorError::MissingRequiredField { field_name: "item.description" }
    );
}

fn status_data(code: PayuPaymentStatus) -> PayuPaymentStatusData {
    PayuPaymentStatusData { status_code: code, severity: None, status_desc: None }
}

#[test]
fn payu_status_tables_over_full_domain() {
    for s in [
        PayuPaymentStatus::Success,
        PayuPaymentStatus::WarningContinueRedirect,
        PayuPaymentStatus::WarningContinue3ds,
        PayuPaymentStatus::WarningContinueCvv,
        PayuPaymentStatus::Pending,
    ] {
        assert_eq!(AttemptStatus::from(s), AttemptStatus::Pending);
    }
    assert_eq!(AttemptStatus::from(OrderStatus::New), AttemptStatus::PaymentMethodAwaited);
    assert_eq!(AttemptStatus::from(OrderStatus::Canceled), AttemptStatus::Voided);
    assert_eq!(AttemptStatus::from(OrderStatus::Completed), AttemptStatus::Charged);
    assert_eq!(AttemptStatus::from(OrderStatus::WaitingForConfirmation), AttemptStatus::Authorized);
    assert_eq!(AttemptStatus::from(OrderStatus::Pending), AttemptStatus::Pending);
    assert_eq!(RefundStatus::from(router::payu::RefundStatus::Finalized), RefundStatus::Success);
    assert_eq!(RefundStatus::from(router::payu::RefundStatus::Completed), RefundStatus::Success);
    assert_eq!(RefundStatus::from(router::payu::RefundStatus::Canceled), RefundStatus::Failure);
    assert_eq!(RefundStatus::from(router::payu::RefundStatus::Pending), RefundStatus::Pending);
}

#[test]
fn nooni_status_tables_over_full_domain() {
    assert_eq!(AttemptStatus::from(NooniAttemptStatus::Authorized), AttemptStatus::Authorized);
    assert_eq!(RefundStatus::from(router::nooni::RefundStatus::Succeeded), RefundStatus::Success);
    assert_eq!(RefundStatus::from(router::nooni::RefundStatus::Failed), RefundStatus::Failure);
    assert_eq!(RefundStatus::from(router::nooni::RefundStatus::Processing), RefundStatus::Pending);
}

#[test]
fn payu_authorize_response_uses_ext_order_id() {
    let data: RouterData<Authorize, PaymentsAuthorizeData, PaymentsResponseData> =
        envelope(body_key(), authorize_data(PaymentMethodData::Card(card()), None));
    let response = PayuPaymentsResponse {
        status: status_data(PayuPaymentStatus::WarningContinue3ds),
        redirect_uri: "https://payu.test/3ds".to_string(),
        iframe_allowed: Some(true),
        three_ds_protocol_version: None,
        order_id: "ORD1".to_string(),
        ext_order_id: Some("EXT1".to_string()),
    };
    let out = RouterData::try_from(ResponseRouterData { response, data, http_code: 200 }).unwrap();
    assert_eq!(out.status, AttemptStatus::Pending);
    assert_eq!(out.amount_captured, None);
    let (resource_id, reference) = transaction_id(&out.response);
    assert!(matches!(resource_id, ResponseId::ConnectorTransactionId(ref id) if id == "ORD1"));
    assert_eq!(reference.as_deref(), Some("EXT1"));
}

#[test]
fn payu_cancel_response_falls_back_to_order_id() {
    let data: RouterData<Void, PaymentsCancelData, PaymentsResponseData> = envelope(
        body_key(),
        PaymentsCancelData { connector_transaction_id: "ORD2".to_string(), cancellation_reason: None },
    );
    let response = PayuPaymentsCancelResponse {
        order_id: "ORD2".to_string(),
        ext_order_id: None,
        status: status_data(PayuPaymentStatus::Success),
    };
    let out = RouterData::try_from(ResponseRouterData { response, data, http_code: 200 }).unwrap();
    let (resource_id, reference) = transaction_id(&out.response);
    assert!(matches!(resource_id, ResponseId::ConnectorTransactionId(ref id) if id == "ORD2"));
    assert_eq!(reference.as_deref(), Some("ORD2"));
}

#[test]
fn payu_capture_request_and_response() {
    let data: RouterData<Capture, PaymentsCaptureData, PaymentsResponseData> = envelope(
        body_key(),
        PaymentsCaptureData { amount_to_capture: 1000, currency: Currency::PLN, connector_transaction_id: "ORD3".to_string() },
    );
    let request = PayuPaymentsCaptureRequest::try_from(&data).unwrap();
    assert_eq!(request.order_id, "ORD3");
    assert_eq!(request.order_status, OrderStatus::Completed);
    let response = PayuPaymentsCaptureResponse { status: status_data(PayuPaymentStatus::Success) };
    let out = RouterData::try_from(ResponseRouterData { response, data, http_code: 200 }).unwrap();
    assert_eq!(out.status, AttemptStatus::Pending);
    let (resource_id, reference) = transaction_id(&out.response);
    assert!(matches!(resource_id, ResponseId::NoResponseId));
    assert_eq!(reference, None);
}

#[test]
fn payu_access_token_request_and_response() {
    let mut data: RouterData<AccessTokenAuth, AccessTokenRequestData, AccessToken> =
        envelope(body_key(), AccessTokenRequestData { app_id: "app_secret".to_string(), id: Some("client_9".to_string()) });
    let request = PayuAuthUpdateRequest::try_from(&data).unwrap();
    assert_eq!(request.grant_type, "client_credentials");
    assert_eq!(request.client_id, "client_9");
    assert_eq!(request.client_secret, "app_secret");
    data.request.id = None;
    assert_eq!(
        PayuAuthUpdateRequest::try_from(&data).unwrap_err(),
        ConnectorError::MissingRequiredField { field_name: "request.id" }
    );
    let response = PayuAuthUpdateResponse {
        access_token: "tok".to_string(),
        token_type: "bearer".to_string(),
        expires_in: 43199,
        grant_type: "client_credentials".to_string(),
    };
    let out = RouterData::try_from(ResponseRouterData { response, data, http_code: 200 }).unwrap();
    let token = out.response.unwrap();
    assert_eq!(token.token, "tok");
    assert_eq!(token.expires, 43199);
}

fn order(total_amount: &str, status: OrderStatus) -> PayuOrderResponseData {
    PayuOrderResponseData {
        order_id: "ORD4".to_string(),
        ext_order_id: Some("EXT4".to_string()),
        order_create_date: "2024-01-01T00:00:00Z".to_string(),
        notify_url: None,
        customer_ip: IpAddress::V4(10, 0, 0, 1),
        merchant_pos_id: "pos_145227".to_string(),
        description: "order".to_string(),
        validity_time: None,
        currency_code: Currency::PLN,
        total_amount: total_amount.to_string(),
        buyer: None,
        pay_method: None,
        products: None,
        status,
    }
}

fn sync_envelope() -> RouterData<PSync, PaymentsSyncData, PaymentsResponseData> {
    envelope(body_key(), PaymentsSyncData { connector_transaction_id: ResponseId::ConnectorTransactionId("ORD4".to_string()) })
}

fn sync_response(orders: Vec<PayuOrderResponseData>) -> PayuPaymentsSyncResponse {
    PayuPaymentsSyncResponse { orders, status: status_data(PayuPaymentStatus::Success), properties: None }
}

#[test]
fn payu_sync_reads_first_order_and_parses_total() {
    let response = sync_response(vec![order("1000", OrderStatus::Completed), order("5", OrderStatus::Canceled)]);
    let out = RouterData::try_from(ResponseRouterData { response, data: sync_envelope(), http_code: 200 }).unwrap();
    assert_eq!(out.status, AttemptStatus::Charged);
    assert_eq!(out.amount_captured, Some(1000));
    let (resource_id, reference) = transaction_id(&out.response);
    assert!(matches!(resource_id, ResponseId::ConnectorTransactionId(ref id) if id == "ORD4"));
    assert_eq!(reference.as_deref(), Some("EXT4"));

    let response = sync_response(vec![order("-42", OrderStatus::WaitingForConfirmation)]);
    let out = RouterData::try_from(ResponseRouterData { response, data: sync_envelope(), http_code: 200 }).unwrap();
    assert_eq!(out.amount_captured, Some(-42));
}

#[test]
fn payu_sync_errors() {
    let response = sync_response(vec![]);
    let out = RouterData::try_from(ResponseRouterData { response, data: sync_envelope(), http_code: 200 });
    assert_eq!(out.err(), Some(ConnectorError::ResponseHandlingFailed));
    for bad in ["12a", "", " 1", "99999999999999999999"] {
        let response = sync_response(vec![order(bad, OrderStatus::Completed)]);
        let out = RouterData::try_from(ResponseRouterData { response, data: sync_envelope(), http_code: 200 });
        assert_eq!(out.err(), Some(ConnectorError::ResponseDeserializationFailed));
    }
}

fn refund_envelope<F>(reason: Option<&str>) -> RouterData<F, RefundsData, router::types::RefundsResponseData> {
    envelope(
        body_key(),
        RefundsData {
            refund_id: "ref_9".to_string(),
            connector_transaction_id: "TX123".to_string(),
            connector_refund_id: None,
            currency: Currency::USD,
            payment_amount: 1000,
            refund_amount: 400,
            reason: reason.map(|r| r.to_string()),
        },
    )
}

fn refund_data(status: router::payu::RefundStatus) -> PayuRefundResponseData {
    PayuRefundResponseData {
        refund_id: "R1".to_string(),
        ext_refund_id: "ER1".to_string(),
        amount: "400".to_string(),
        currency_code: Currency::USD,
        description: "requested_by_customer".to_string(),
        creation_date_time: "2024-01-01T00:00:00Z".to_string(),
        status,
        status_date_time: None,
    }
}

#[test]
fn refund_execute_carries_reason_and_maps_completed() {
    let data: RouterData<Execute, RefundsData, router::types::RefundsResponseData> =
        refund_envelope(Some("requested_by_customer"));
    let request = PayuRefundRequest::try_from(&data).unwrap();
    assert_eq!(request.refund.description, "requested_by_customer");
    assert_eq!(request.refund.amount, None);
    let response = RefundResponse { refund: refund_data(router::payu::RefundStatus::Completed) };
    let out = RouterData::try_from(ResponseRouterData { response, data, http_code: 200 }).unwrap();
    let refund = out.response.unwrap();
    assert_eq!(refund.connector_refund_id, "R1");
    assert_eq!(refund.refund_status, RefundStatus::Success);
}

#[test]
fn payu_refund_without_reason_is_refused() {
    let data: RouterData<Execute, RefundsData, router::types::RefundsResponseData> = refund_envelope(None);
    assert_eq!(
        PayuRefundRequest::try_from(&data).unwrap_err(),
        ConnectorError::MissingRequiredField { field_name: "item.request.reason" }
    );
}

#[test]
fn refund_sync_with_empty_list_fails() {
    let data: RouterData<RSync, RefundsData, router::types::RefundsResponseData> = refund_envelope(Some("r"));
    let out = RouterData::try_from(ResponseRouterData { response: RefundSyncResponse { refunds: vec![] }, data, http_code: 200 });
    assert_eq!(out.err(), Some(ConnectorError::ResponseHandlingFailed));
}

#[test]
fn refund_sync_reads_first_refund() {
    let data: RouterData<RSync, RefundsData, router::types::RefundsResponseData> = refund_envelope(Some("r"));
    let response = RefundSyncResponse {
        refunds: vec![refund_data(router::payu::RefundStatus::Canceled), refund_data(router::payu::RefundStatus::Completed)],
    };
    let out = RouterData::try_from(ResponseRouterData { response, data, http_code: 200 }).unwrap();
    assert_eq!(out.response.unwrap().refund_status, RefundStatus::Failure);
}

#[test]
fn nooni_refund_request_and_responses() {
    let data: RouterData<Execute, RefundsData, router::types::RefundsResponseData> = refund_envelope(None);
    assert_eq!(router::nooni::RefundRequest::try_from(&data).unwrap().amount, 400);
    let response = router::nooni::RefundResponse { id: "nr_1".to_string(), status: router::nooni::RefundStatus::Processing };
    let out = RouterData::try_from(ResponseRouterData { response, data, http_code: 200 }).unwrap();
    let refund = out.response.unwrap();
    assert_eq!(refund.connector_refund_id, "nr_1");
    assert_eq!(refund.refund_status, RefundStatus::Pending);

    let data: RouterData<RSync, RefundsData, router::types::RefundsResponseData> = refund_envelope(None);
    let response = router::nooni::RefundResponse { id: "nr_2".to_string(), status: router::nooni::RefundStatus::Succeeded };
    let out = RouterData::try_from(ResponseRouterData { response, data, http_code: 200 }).unwrap();
    assert_eq!(out.response.unwrap().refund_status, RefundStatus::Success);
}

#[test]
fn registry_dispatch_builds_each_connectors_request() {
    let nooni_data: PaymentsAuthorizeRouterData =
        envelope(header_key(), authorize_data(PaymentMethodData::Card(card()), None));
    match Connector::Nooni.build_authorize_request(&nooni_data, 1000).unwrap() {
        AuthorizeRequest::Nooni { auth, request } => {
            assert_eq!(auth.test_key, "sk_test");
            assert_eq!(request.amount, 1000);
            assert!(request.capture);
        }
        _ => panic!("expected a Nooni request"),
    }
    let wrong_auth: PaymentsAuthorizeRouterData =
        envelope(body_key(), authorize_data(PaymentMethodData::Card(card()), None));
    assert_eq!(
        Connector::Nooni.build_authorize_request(&wrong_auth, 1000).unwrap_err(),
        ConnectorError::FailedToObtainAuthType
    );
    match Connector::Payu.build_authorize_request(&wrong_auth, 1000).unwrap() {
        AuthorizeRequest::Payu(request) => assert_eq!(request.merchant_pos_id, "pos_145227"),
        _ => panic!("expected a PayU request"),
    }
    assert_eq!(
        Connector::Payu.build_authorize_request(&nooni_data, 1000).unwrap_err(),
        ConnectorError::FailedToObtainAuthType
    );
}
