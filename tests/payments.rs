use router::amount::{Currency, CurrencyUnit, DecimalAmount, HelcimRouterData};
use router::errors::{Capability, ConnectorError, MissingField};
use router::status::{
    AttemptStatus, HelcimPaymentStatus, HelcimRefundTransactionType, HelcimTransactionType,
    RefundStatus,
};
use router::transformers::{
    authorize_response, capture_response, refund_response, sync_response, HelcimAuthType,
    HelcimCaptureRequest, HelcimMetaData, HelcimPaymentsRequest, HelcimPaymentsResponse,
    HelcimRefundRequest, RefundResponse,
};
use router::types::{
    Address, AddressDetails, BrowserInformation, Card, ConnectorAuthType, PaymentMethodData,
    PaymentsAuthorizeData, PaymentsAuthorizeRouterData, PaymentsCaptureData, PaymentsSyncData,
    RefundsData, ResponseRouterData, RouterData, SyncRequestType,
};

fn s(v: &str) -> String {
    v.to_string()
}

fn browser(ip: Option<&str>) -> Option<BrowserInformation> {
    Some(BrowserInformation { ip_address: ip.map(s) })
}

fn full_address() -> AddressDetails {
    AddressDetails {
        first_name: Some(s("Jane")),
        last_name: Some(s("Doe")),
        line1: Some(s("1 Main St")),
        line2: Some(s("Apt 2")),
        zip: Some(s("94105")),
        city: Some(s("Springfield")),
    }
}

fn card() -> PaymentMethodData {
    PaymentMethodData::Card(Card {
        card_number: s("4242424242424242"),
        card_exp_month: s("03"),
        card_exp_year: s("2030"),
        card_cvc: s("123"),
    })
}

fn authorize(
    pm: PaymentMethodData,
    billing: Option<Address>,
    info: Option<BrowserInformation>,
) -> HelcimRouterData<PaymentsAuthorizeRouterData> {
    let rd = RouterData {
        status: AttemptStatus::Started,
        billing,
        request: PaymentsAuthorizeData {
            payment_method_data: pm,
            currency: Currency::USD,
            email: Some(s("jane@example.com")),
            browser_info: info,
        },
        response: None,
    };
    HelcimRouterData::try_from(&CurrencyUnit::Base, Currency::USD, 1050, rd).unwrap()
}

fn missing(r: Result<HelcimPaymentsRequest, ConnectorError>) -> &'static str {
    match r {
        Err(ConnectorError::MissingRequiredField(f)) => f.field_name(),
        _ => panic!("expected a missing field"),
    }
}

#[test]
fn authorize_request_from_card() {
    let item = authorize(
        card(),
        Some(Address { address: Some(full_address()) }),
        browser(Some("10.0.0.1")),
    );
    let req = HelcimPaymentsRequest::try_from(&item).unwrap();
    assert_eq!(req.amount, DecimalAmount { mantissa: 1050, scale: 2 });
    assert_eq!(req.currency, Currency::USD);
    assert_eq!(req.ip_address, "10.0.0.1");
    assert_eq!(req.card_data.card_number, "4242424242424242");
    assert_eq!(req.card_data.card_expiry, "0330");
    assert_eq!(req.card_data.card_c_v_v, "123");
    assert_eq!(req.billing_address.name, "Jane Doe");
    assert_eq!(req.billing_address.street1, "1 Main St");
    assert_eq!(req.billing_address.postal_code, "94105");
    assert_eq!(req.billing_address.street2, Some(s("Apt 2")));
    assert_eq!(req.billing_address.city, Some(s("Springfield")));
    assert_eq!(req.billing_address.email, Some(s("jane@example.com")));
    assert_eq!(req.ecommerce, None);
}

#[test]
fn billing_name_is_trimmed() {
    let mut a = full_address();
    a.first_name = Some(s("  Jo"));
    a.last_name = Some(s(""));
    let item = authorize(card(), Some(Address { address: Some(a) }), browser(Some("10.0.0.1")));
    let req = HelcimPaymentsRequest::try_from(&item).unwrap();
    assert_eq!(req.billing_address.name, "Jo");
}

#[test]
fn card_expiry_with_delimiter() {
    let c = Card {
        card_number: s("4111"),
        card_exp_month: s("12"),
        card_exp_year: s("2027"),
        card_cvc: s("999"),
    };
    assert_eq!(c.get_card_expiry_month_year_2_digit_with_delimiter(s("/")), "12/27");
    assert_eq!(c.get_card_expiry_month_year_2_digit_with_delimiter(s("")), "1227");
    assert_eq!(c.get_card_expiry_month_year_2_digit_with_delimiter(s(" ")), "12 27");
}

#[test]
fn authorize_without_billing_address_names_it() {
    let item = authorize(card(), Some(Address { address: None }), browser(Some("10.0.0.1")));
    let r = HelcimPaymentsRequest::try_from(&item);
    assert!(matches!(
        r,
        Err(ConnectorError::MissingRequiredField(MissingField::BillingAddress))
    ));
    assert_eq!(missing(r), "billing.address");
}

#[test]
fn authorize_without_billing() {
    let item = authorize(card(), None, browser(Some("10.0.0.1")));
    let r = HelcimPaymentsRequest::try_from(&item);
    assert!(matches!(
        r,
        Err(ConnectorError::MissingRequiredField(MissingField::BillingAddress))
    ));
    assert_eq!(missing(r), "billing.address");
}

#[test]
fn authorize_missing_address_fields_name_themselves() {
    let cases: Vec<(fn(&mut AddressDetails), &str)> = vec![
        (|a| a.first_name = None, "address.first_name"),
        (|a| a.last_name = None, "address.last_name"),
        (|a| a.line1 = None, "address.line1"),
        (|a| a.zip = None, "address.zip"),
    ];
    for (clear, name) in cases {
        let mut a = full_address();
        clear(&mut a);
        let item = authorize(card(), Some(Address { address: Some(a) }), browser(Some("1.2.3.4")));
        assert_eq!(missing(HelcimPaymentsRequest::try_from(&item)), name);
    }
}

#[test]
fn authorize_missing_ip_is_distinct_from_billing() {
    let addr = || Some(Address { address: Some(full_address()) });
    let item = authorize(card(), addr(), None);
    assert_eq!(missing(HelcimPaymentsRequest::try_from(&item)), "browser_info");
    let item = authorize(card(), addr(), browser(None));
    assert_eq!(missing(HelcimPaymentsRequest::try_from(&item)), "browser_info.ip_address");
}

#[test]
fn authorize_with_other_payment_method_is_not_implemented() {
    let item = authorize(
        PaymentMethodData::Wallet,
        Some(Address { address: Some(full_address()) }),
        browser(Some("10.0.0.1")),
    );
    match HelcimPaymentsRequest::try_from(&item) {
        Err(ConnectorError::NotImplemented(c)) => {
            assert_eq!(c, Capability::PaymentMethods);
            assert_eq!(c.message(), "Payment methods");
        }
        _ => panic!("expected not implemented"),
    }
}

#[test]
fn auth_type_accepts_header_key_only() {
    let a = HelcimAuthType::try_from(&ConnectorAuthType::HeaderKey { api_key: s("k") }).unwrap();
    assert_eq!(a.api_key, "k");
    let r = HelcimAuthType::try_from(&ConnectorAuthType::BodyKey { api_key: s("k"), key1: s("x") });
    assert!(matches!(r, Err(ConnectorError::FailedToObtainAuthType)));
    assert!(HelcimAuthType::try_from(&ConnectorAuthType::NoKey).is_err());
}

fn response(status: HelcimPaymentStatus, id: u64, t: HelcimTransactionType) -> HelcimPaymentsResponse {
    HelcimPaymentsResponse { status, transaction_id: id, transaction_type: t }
}

#[test]
fn status_scenarios() {
    let r = response(HelcimPaymentStatus::Approved, 42, HelcimTransactionType::PreAuth);
    assert_eq!(AttemptStatus::from_response(&r), AttemptStatus::Authorized);
    let r = response(HelcimPaymentStatus::Declined, 42, HelcimTransactionType::Capture);
    assert_eq!(AttemptStatus::from_response(&r), AttemptStatus::CaptureFailed);
}

#[test]
fn status_matrix_rows_are_total_and_distinct() {
    let expected = [
        (HelcimTransactionType::Purchase, AttemptStatus::Charged, AttemptStatus::Failure),
        (HelcimTransactionType::PreAuth, AttemptStatus::Authorized, AttemptStatus::AuthorizationFailed),
        (HelcimTransactionType::Capture, AttemptStatus::Charged, AttemptStatus::CaptureFailed),
        (HelcimTransactionType::Verify, AttemptStatus::AuthenticationSuccessful, AttemptStatus::AuthenticationFailed),
    ];
    for (t, ok, bad) in expected {
        let a = AttemptStatus::from_response(&response(HelcimPaymentStatus::Approved, 1, t));
        let d = AttemptStatus::from_response(&response(HelcimPaymentStatus::Declined, 1, t));
        assert_eq!(a, ok);
        assert_eq!(d, bad);
        assert_ne!(a, d);
    }
}

#[test]
fn authorize_response_records_status_and_id() {
    let item = authorize(card(), None, None);
    let out = authorize_response(ResponseRouterData {
        response: response(HelcimPaymentStatus::Approved, 9876543210, HelcimTransactionType::Purchase),
        data: item.router_data,
    });
    assert_eq!(out.status, AttemptStatus::Charged);
    let d = out.response.unwrap();
    assert_eq!(d.resource_id, "9876543210");
    assert_eq!(d.connector_metadata, None);
}

fn sync_data(sync_type: SyncRequestType) -> RouterData<PaymentsSyncData, router::types::PaymentsResponseData> {
    RouterData { status: AttemptStatus::Pending, billing: None, request: PaymentsSyncData { sync_type }, response: None }
}

#[test]
fn sync_single_payment() {
    let out = sync_response(ResponseRouterData {
        response: response(HelcimPaymentStatus::Declined, 7, HelcimTransactionType::Verify),
        data: sync_data(SyncRequestType::SinglePaymentSync),
    })
    .unwrap();
    assert_eq!(out.status, AttemptStatus::AuthenticationFailed);
    assert_eq!(out.response.unwrap().resource_id, "7");
}

#[test]
fn sync_multiple_captures_is_not_implemented() {
    let r = sync_response(ResponseRouterData {
        response: response(HelcimPaymentStatus::Approved, 7, HelcimTransactionType::Capture),
        data: sync_data(SyncRequestType::MultipleCaptureSync(vec![s("a")])),
    });
    match r {
        Err(ConnectorError::NotImplemented(c)) => assert_eq!(c.message(), "manual multiple capture sync"),
        _ => panic!("expected not implemented"),
    }
}

fn capture_item(txn: &str, ip: Option<BrowserInformation>) -> HelcimRouterData<router::types::PaymentsCaptureRouterData> {
    let rd = RouterData {
        status: AttemptStatus::Authorized,
        billing: None,
        request: PaymentsCaptureData { connector_transaction_id: s(txn), browser_info: ip },
        response: None,
    };
    HelcimRouterData::try_from(&CurrencyUnit::Base, Currency::USD, 500, rd).unwrap()
}

#[test]
fn capture_request_parses_transaction_id() {
    let req = HelcimCaptureRequest::try_from(&capture_item("31415", browser(Some("::1")))).unwrap();
    assert_eq!(req.pre_auth_transaction_id, 31415);
    assert_eq!(req.amount, DecimalAmount { mantissa: 500, scale: 2 });
    assert_eq!(req.ip_address, "::1");
    assert_eq!(req.ecommerce, None);
}

#[test]
fn capture_request_refuses_non_numeric_id() {
    for bad in ["abc", "", "-1", "12a", "18446744073709551616"] {
        let r = HelcimCaptureRequest::try_from(&capture_item(bad, browser(Some("::1"))));
        assert!(matches!(r, Err(ConnectorError::RequestEncodingFailed)));
    }
    let r = HelcimCaptureRequest::try_from(&capture_item("abc", None));
    assert!(matches!(
        r,
        Err(ConnectorError::MissingRequiredField(MissingField::BrowserInfo))
    ));
}

#[test]
fn metadata_text_round_trip() {
    let m = HelcimMetaData { capture_id: 42 };
    assert_eq!(m.to_connector_meta(), "{\"captureId\":42}");
    assert_eq!(HelcimMetaData::from_connector_meta("{\"captureId\":42}"), Some(m));
    assert_eq!(HelcimMetaData::from_connector_meta("{\"captureId\":+42}"), None);
    assert_eq!(HelcimMetaData::from_connector_meta("{\"captureId\":042}"), None);
    assert_eq!(HelcimMetaData::from_connector_meta("{\"captureId\":x}"), None);
    assert_eq!(HelcimMetaData::from_connector_meta(""), None);
    let max = HelcimMetaData { capture_id: u64::MAX };
    assert_eq!(HelcimMetaData::from_connector_meta(&max.to_connector_meta()), Some(max));
}

fn refund_item(metadata: Option<String>, ip: Option<BrowserInformation>) -> HelcimRouterData<router::types::RefundsRouterData> {
    let rd = RouterData {
        status: AttemptStatus::Charged,
        billing: None,
        request: RefundsData { connector_metadata: metadata, browser_info: ip },
        response: None,
    };
    HelcimRouterData::try_from(&CurrencyUnit::Base, Currency::USD, 250, rd).unwrap()
}

#[test]
fn capture_metadata_feeds_refund() {
    let captured = capture_response(ResponseRouterData {
        response: response(HelcimPaymentStatus::Approved, 555001, HelcimTransactionType::Capture),
        data: capture_item("100", browser(Some("1.1.1.1"))).router_data,
    });
    assert_eq!(captured.status, AttemptStatus::Charged);
    let d = captured.response.unwrap();
    assert_eq!(d.resource_id, "555001");
    let req = HelcimRefundRequest::try_from(&refund_item(d.connector_metadata, browser(Some("1.1.1.1")))).unwrap();
    assert_eq!(req.original_transaction_id, 555001);
    assert_eq!(req.amount, DecimalAmount { mantissa: 250, scale: 2 });
    assert_eq!(req.ip_address, "1.1.1.1");
}

#[test]
fn refund_without_metadata_fails() {
    let r = HelcimRefundRequest::try_from(&refund_item(None, browser(Some("1.1.1.1"))));
    assert!(matches!(r, Err(ConnectorError::RequestEncodingFailed)));
    let r = HelcimRefundRequest::try_from(&refund_item(Some(s("{}")), browser(Some("1.1.1.1"))));
    assert!(matches!(r, Err(ConnectorError::RequestEncodingFailed)));
    let r = HelcimRefundRequest::try_from(&refund_item(Some(s("{\"captureId\":3}")), browser(None)));
    assert!(matches!(
        r,
        Err(ConnectorError::MissingRequiredField(MissingField::IpAddress))
    ));
}

#[test]
fn refund_response_statuses() {
    for (st, expected) in [
        (HelcimPaymentStatus::Approved, RefundStatus::Success),
        (HelcimPaymentStatus::Declined, RefundStatus::Failure),
    ] {
        let out = refund_response(ResponseRouterData {
            response: RefundResponse {
                status: st,
                transaction_id: 808,
                transaction_type: HelcimRefundTransactionType::Refund,
            },
            data: refund_item(None, None).router_data,
        });
        let d = out.response.unwrap();
        assert_eq!(d.connector_refund_id, "808");
        assert_eq!(d.refund_status, expected);
        assert_eq!(out.status, AttemptStatus::Charged);
    }
}
