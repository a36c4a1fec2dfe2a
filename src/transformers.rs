use vstd::prelude::*;

use crate::amount::{Currency, DecimalAmount, HelcimRouterData};
use crate::decimal::{decimal_text, lemma_parse_decimal_text, parse_u64, parse_u64_spec, u64_to_text};
use crate::errors::{Capability, ConnectorError, MissingField};
use crate::status::{
    attempt_status_of, refund_status_of, AttemptStatus, HelcimPaymentStatus,
    HelcimRefundTransactionType, HelcimTransactionType, RefundStatus,
};
use crate::types::{
    clone_opt_string, trim_text, trimmed, get_ip_address, ip_address_error, last_two, ConnectorAuthType,
    PaymentMethodData, PaymentsAuthorizeData, PaymentsAuthorizeRouterData, PaymentsCaptureData,
    PaymentsCaptureRouterData, PaymentsResponseData, PaymentsSyncData, RefundsResponseData,
    RefundsRouterData, ResponseRouterData, RouterData, SyncRequestType,
};

verus! {

/// Billing address in the shape the gateway expects.
pub struct HelcimBillingAddress {
    pub name: String,
    pub street1: String,
    pub postal_code: String,
    pub street2: Option<String>,
    pub city: Option<String>,
    pub email: Option<String>,
}

/// Card data in the shape the gateway expects; expiry is "MMYY".
pub struct HelcimCard {
    pub card_number: String,
    pub card_expiry: String,
    pub card_c_v_v: String,
}

/// Wire request of an authorization (pre-authorization or purchase).
pub struct HelcimPaymentsRequest {
    pub amount: DecimalAmount,
    pub currency: Currency,
    pub ip_address: String,
    pub card_data: HelcimCard,
    pub billing_address: HelcimBillingAddress,
    pub ecommerce: Option<bool>,
}

/// Why an authorization request cannot be built from `rd`, checked in the
/// order: payment method, billing address (absent whether or not a billing
/// entry exists), name, street, postal code, then the client's IP address.
pub open spec fn authorize_request_error(rd: PaymentsAuthorizeRouterData) -> Option<ConnectorError> {
    if !(rd.request.payment_method_data is Card) {
        Some(ConnectorError::NotImplemented(Capability::PaymentMethods))
    } else {
        match rd.billing {
            None => Some(ConnectorError::MissingRequiredField(MissingField::BillingAddress)),
            Some(b) => match b.address {
                None => Some(ConnectorError::MissingRequiredField(MissingField::BillingAddress)),
                Some(a) => if a.first_name is None {
                    Some(ConnectorError::MissingRequiredField(MissingField::FirstName))
                } else if a.last_name is None {
                    Some(ConnectorError::MissingRequiredField(MissingField::LastName))
                } else if a.line1 is None {
                    Some(ConnectorError::MissingRequiredField(MissingField::Line1))
                } else if a.zip is None {
                    Some(ConnectorError::MissingRequiredField(MissingField::Zip))
                } else {
                    ip_address_error(rd.request.browser_info)
                },
            },
        }
    }
}

/// `req` carries exactly what `item` provides, where no field is missing.
pub open spec fn authorize_request_matches(
    req: HelcimPaymentsRequest,
    item: HelcimRouterData<PaymentsAuthorizeRouterData>,
) -> bool {
    let rd = item.router_data;
    let card = rd.request.payment_method_data->Card_0;
    let a = rd.billing->Some_0.address->Some_0;
    &&& req.amount == item.amount
    &&& req.currency == rd.request.currency
    &&& req.ip_address == rd.request.browser_info->Some_0.ip_address->Some_0
    &&& req.card_data.card_number == card.card_number
    &&& req.card_data.card_expiry@ == card.card_exp_month@ + last_two(card.card_exp_year@)
    &&& req.card_data.card_c_v_v == card.card_cvc
    &&& req.billing_address.name@ == trimmed(a.first_name->Some_0@ + " "@ + a.last_name->Some_0@)
    &&& req.billing_address.street1 == a.line1->Some_0
    &&& req.billing_address.postal_code == a.zip->Some_0
    &&& req.billing_address.street2 == a.line2
    &&& req.billing_address.city == a.city
    &&& req.billing_address.email == rd.request.email
    &&& req.ecommerce is None
}

impl HelcimPaymentsRequest {
    /// Builds the authorization wire request. Only card payments are offered;
    /// the billing name, street, postal code and the client's IP are required.
    pub fn try_from(item: &HelcimRouterData<PaymentsAuthorizeRouterData>) -> (r: Result<Self, ConnectorError>)
        ensures
            match authorize_request_error(item.router_data) {
                Some(e) => r == Err::<Self, ConnectorError>(e),
                None => r matches Ok(req) && authorize_request_matches(req, *item),
            },
    {
        let rd = &item.router_data;
        match &rd.request.payment_method_data {
            PaymentMethodData::Card(req_card) => {
                let card_data = HelcimCard {
                    card_expiry: req_card.get_card_expiry_month_year_2_digit_with_delimiter(
                        String::new(),
                    ),
                    card_number: req_card.card_number.clone(),
                    card_c_v_v: req_card.card_cvc.clone(),
                };
                let billing = match &rd.billing {
                    Some(b) => b,
                    None => {
                        return Err(
                            ConnectorError::MissingRequiredField(MissingField::BillingAddress),
                        );
                    },
                };
                let req_address = match &billing.address {
                    Some(a) => a,
                    None => {
                        return Err(
                            ConnectorError::MissingRequiredField(MissingField::BillingAddress),
                        );
                    },
                };
                let first_name = match &req_address.first_name {
                    Some(v) => v,
                    None => {
                        return Err(ConnectorError::MissingRequiredField(MissingField::FirstName));
                    },
                };
                let last_name = match &req_address.last_name {
                    Some(v) => v,
                    None => {
                        return Err(ConnectorError::MissingRequiredField(MissingField::LastName));
                    },
                };
                let joined = first_name.clone().concat(" ").concat(last_name.as_str());
                let name = String::from_str(trim_text(joined.as_str()));
                let street1 = match &req_address.line1 {
                    Some(v) => v.clone(),
                    None => {
                        return Err(ConnectorError::MissingRequiredField(MissingField::Line1));
                    },
                };
                let postal_code = match &req_address.zip {
                    Some(v) => v.clone(),
                    None => {
                        return Err(ConnectorError::MissingRequiredField(MissingField::Zip));
                    },
                };
                let billing_address = HelcimBillingAddress {
                    name,
                    street1,
                    postal_code,
                    street2: clone_opt_string(&req_address.line2),
                    city: clone_opt_string(&req_address.city),
                    email: clone_opt_string(&rd.request.email),
                };
                let ip_address = get_ip_address(&rd.request.browser_info)?;
                Ok(HelcimPaymentsRequest {
                    amount: item.amount,
                    currency: rd.request.currency,
                    ip_address,
                    card_data,
                    billing_address,
                    ecommerce: None,
                })
            },
            _ => Err(ConnectorError::NotImplemented(Capability::PaymentMethods)),
        }
    }
}

/// Credentials for the gateway: a single API key sent in a header.
pub struct HelcimAuthType {
    pub api_key: String,
}

impl HelcimAuthType {
    /// Accepts header-key credentials only.
    pub fn try_from(auth_type: &ConnectorAuthType) -> (r: Result<Self, ConnectorError>)
        ensures
            match *auth_type {
                ConnectorAuthType::HeaderKey { api_key } => r matches Ok(a) && a.api_key == api_key,
                _ => r == Err::<Self, ConnectorError>(ConnectorError::FailedToObtainAuthType),
            },
    {
        match auth_type {
            ConnectorAuthType::HeaderKey { api_key } => Ok(HelcimAuthType { api_key: api_key.clone() }),
            _ => Err(ConnectorError::FailedToObtainAuthType),
        }
    }
}

/// Gateway answer to a purchase, pre-authorization, capture or verification.
pub struct HelcimPaymentsResponse {
    pub status: HelcimPaymentStatus,
    pub transaction_id: u64,
    pub transaction_type: HelcimTransactionType,
}

impl AttemptStatus {
    /// Lifecycle state that a gateway payment response stands for.
    pub fn from_response(item: &HelcimPaymentsResponse) -> (r: AttemptStatus)
        ensures
            r == attempt_status_of(item.transaction_type, item.status),
    {
        match item.transaction_type {
            HelcimTransactionType::Purchase => match item.status {
                HelcimPaymentStatus::Approved => AttemptStatus::Charged,
                HelcimPaymentStatus::Declined => AttemptStatus::Failure,
            },
            HelcimTransactionType::PreAuth => match item.status {
                HelcimPaymentStatus::Approved => AttemptStatus::Authorized,
                HelcimPaymentStatus::Declined => AttemptStatus::AuthorizationFailed,
            },
            HelcimTransactionType::Capture => match item.status {
                HelcimPaymentStatus::Approved => AttemptStatus::Charged,
                HelcimPaymentStatus::Declined => AttemptStatus::CaptureFailed,
            },
            HelcimTransactionType::Verify => match item.status {
                HelcimPaymentStatus::Approved => AttemptStatus::AuthenticationSuccessful,
                HelcimPaymentStatus::Declined => AttemptStatus::AuthenticationFailed,
            },
        }
    }
}

/// `out` is `data` with the lifecycle state and the gateway answer of `resp`
/// filled in, the answer carrying `metadata`.
pub open spec fn payment_response_applied<Req>(
    out: RouterData<Req, PaymentsResponseData>,
    data: RouterData<Req, PaymentsResponseData>,
    resp: HelcimPaymentsResponse,
    metadata: Option<Seq<char>>,
) -> bool {
    &&& out.status == attempt_status_of(resp.transaction_type, resp.status)
    &&& out.billing == data.billing
    &&& out.request == data.request
    &&& out.response matches Some(d) && d.resource_id@ == decimal_text(resp.transaction_id as nat)
        && match metadata {
        None => d.connector_metadata is None,
        Some(m) => d.connector_metadata matches Some(t) && t@ == m,
    }
}

fn apply_payment_response<Req>(
    resp: HelcimPaymentsResponse,
    data: RouterData<Req, PaymentsResponseData>,
    connector_metadata: Option<String>,
) -> (r: RouterData<Req, PaymentsResponseData>)
    ensures
        payment_response_applied(
            r,
            data,
            resp,
            match connector_metadata {
                Some(t) => Some(t@),
                None => None,
            },
        ),
{
    let status = AttemptStatus::from_response(&resp);
    RouterData {
        status,
        billing: data.billing,
        request: data.request,
        response: Some(
            PaymentsResponseData {
                resource_id: u64_to_text(resp.transaction_id),
                connector_metadata,
            },
        ),
    }
}

/// Records the gateway's answer to an authorization.
pub fn authorize_response(
    item: ResponseRouterData<HelcimPaymentsResponse, PaymentsAuthorizeData, PaymentsResponseData>,
) -> (r: RouterData<PaymentsAuthorizeData, PaymentsResponseData>)
    ensures
        payment_response_applied(r, item.data, item.response, None),
{
    apply_payment_response(item.response, item.data, None)
}

/// Records the gateway's answer to a status query. Only single-payment
/// queries are offered: split captures are not.
pub fn sync_response(
    item: ResponseRouterData<HelcimPaymentsResponse, PaymentsSyncData, PaymentsResponseData>,
) -> (r: Result<RouterData<PaymentsSyncData, PaymentsResponseData>, ConnectorError>)
    ensures
        match item.data.request.sync_type {
            SyncRequestType::SinglePaymentSync => r matches Ok(out) && payment_response_applied(
                out,
                item.data,
                item.response,
                None,
            ),
            SyncRequestType::MultipleCaptureSync(_) => r == Err::<
                RouterData<PaymentsSyncData, PaymentsResponseData>,
                ConnectorError,
            >(ConnectorError::NotImplemented(Capability::ManualMultipleCaptureSync)),
        },
{
    match item.data.request.sync_type {
        SyncRequestType::SinglePaymentSync => Ok(
            apply_payment_response(item.response, item.data, None),
        ),
        SyncRequestType::MultipleCaptureSync(_) => Err(
            ConnectorError::NotImplemented(Capability::ManualMultipleCaptureSync),
        ),
    }
}

/// Correlation metadata kept with a captured payment: the capture's gateway
/// transaction id, which a later refund must name.
#[derive(Clone, Copy, Debug, PartialEq, Eq, Structural)]
pub struct HelcimMetaData {
    pub capture_id: u64,
}

/// Stored form of correlation metadata: `{"captureId":<id>}`.
pub open spec fn metadata_text(capture_id: u64) -> Seq<char> {
    "{\"captureId\":"@ + decimal_text(capture_id as nat) + "}"@
}

impl HelcimMetaData {
    /// Renders the metadata in its stored form.
    pub fn to_connector_meta(&self) -> (r: String)
        ensures
            r@ == metadata_text(self.capture_id),
    {
        let digits = u64_to_text(self.capture_id);
        let head = String::from_str("{\"captureId\":");
        proof {
            reveal_strlit("{\"captureId\":");
            reveal_strlit("}");
        }
        head.concat(digits.as_str()).concat("}")
    }

    /// Reads metadata in its stored form; anything else is refused.
    pub fn from_connector_meta(text: &str) -> (r: Option<HelcimMetaData>)
        ensures
            r matches Some(m) ==> text@ == metadata_text(m.capture_id),
            r is None ==> forall|id: u64| metadata_text(id) != text@,
    {
        proof {
            reveal_strlit("{\"captureId\":");
            reveal_strlit("}");
        }
        let n = text.unicode_len();
        if n < 14 {
            proof {
                assert forall|id: u64| metadata_text(id) != text@ by {
                    crate::decimal::lemma_decimal_text(id as nat);
                }
            }
            return None;
        }
        let digits = text.substring_char(13, n - 1);
        match parse_u64(digits) {
            Some(id) => {
                let meta = HelcimMetaData { capture_id: id };
                let rendered = meta.to_connector_meta();
                if rendered == String::from_str(text) {
                    Some(meta)
                } else {
                    proof {
                        assert forall|other: u64| metadata_text(other) != text@ by {
                            if metadata_text(other) == text@ {
                                crate::decimal::lemma_decimal_text(other as nat);
                                assert(digits@ =~= decimal_text(other as nat));
                                lemma_parse_decimal_text(other);
                            }
                        }
                    }
                    None
                }
            },
            None => {
                proof {
                    assert forall|other: u64| metadata_text(other) != text@ by {
                        if metadata_text(other) == text@ {
                            assert(digits@ =~= decimal_text(other as nat));
                            lemma_parse_decimal_text(other);
                        }
                    }
                }
                None
            },
        }
    }
}

/// Records the gateway's answer to a capture, keeping the capture's
/// transaction id as correlation metadata for later refunds.
pub fn capture_response(
    item: ResponseRouterData<HelcimPaymentsResponse, PaymentsCaptureData, PaymentsResponseData>,
) -> (r: RouterData<PaymentsCaptureData, PaymentsResponseData>)
    ensures
        payment_response_applied(
            r,
            item.data,
            item.response,
            Some(metadata_text(item.response.transaction_id)),
        ),
{
    let meta = HelcimMetaData { capture_id: item.response.transaction_id };
    let connector_metadata = Some(meta.to_connector_meta());
    apply_payment_response(item.response, item.data, connector_metadata)
}

/// Wire request of a capture of an earlier pre-authorization.
pub struct HelcimCaptureRequest {
    pub pre_auth_transaction_id: u64,
    pub amount: DecimalAmount,
    pub ip_address: String,
    pub ecommerce: Option<bool>,
}

impl HelcimCaptureRequest {
    /// Builds the capture wire request; the authorization's transaction id
    /// must be a number.
    pub fn try_from(item: &HelcimRouterData<PaymentsCaptureRouterData>) -> (r: Result<Self, ConnectorError>)
        ensures
            match ip_address_error(item.router_data.request.browser_info) {
                Some(e) => r == Err::<Self, ConnectorError>(e),
                None => match parse_u64_spec(item.router_data.request.connector_transaction_id@) {
                    None => r == Err::<Self, ConnectorError>(ConnectorError::RequestEncodingFailed),
                    Some(id) => r matches Ok(req) && req.pre_auth_transaction_id == id
                        && req.amount == item.amount
                        && req.ip_address == item.router_data.request.browser_info->Some_0.ip_address->Some_0
                        && req.ecommerce is None,
                },
            },
    {
        let ip_address = get_ip_address(&item.router_data.request.browser_info)?;
        let pre_auth_transaction_id = match parse_u64(
            item.router_data.request.connector_transaction_id.as_str(),
        ) {
            Some(id) => id,
            None => {
                return Err(ConnectorError::RequestEncodingFailed);
            },
        };
        Ok(HelcimCaptureRequest {
            pre_auth_transaction_id,
            amount: item.amount,
            ip_address,
            ecommerce: None,
        })
    }
}

/// Wire request of a refund of a captured payment.
pub struct HelcimRefundRequest {
    pub amount: DecimalAmount,
    pub original_transaction_id: u64,
    pub ip_address: String,
    pub ecommerce: Option<bool>,
}

/// The capture id that stored correlation metadata names, if it is present
/// and in its stored form.
pub open spec fn capture_id_of(metadata: Option<String>) -> Option<u64> {
    match metadata {
        Some(t) => if exists|id: u64| metadata_text(id) == t@ {
            Some(choose|id: u64| metadata_text(id) == t@)
        } else {
            None
        },
        None => None,
    }
}

impl HelcimRefundRequest {
    /// Builds the refund wire request from the correlation metadata that the
    /// capture left; missing or malformed metadata is an encoding failure.
    pub fn try_from(item: &HelcimRouterData<RefundsRouterData>) -> (r: Result<Self, ConnectorError>)
        ensures
            match capture_id_of(item.router_data.request.connector_metadata) {
                None => r == Err::<Self, ConnectorError>(ConnectorError::RequestEncodingFailed),
                Some(id) => match ip_address_error(item.router_data.request.browser_info) {
                    Some(e) => r == Err::<Self, ConnectorError>(e),
                    None => r matches Ok(req) && req.original_transaction_id == id
                        && req.amount == item.amount
                        && req.ip_address == item.router_data.request.browser_info->Some_0.ip_address->Some_0
                        && req.ecommerce is None,
                },
            },
    {
        let meta = match &item.router_data.request.connector_metadata {
            Some(text) => match HelcimMetaData::from_connector_meta(text.as_str()) {
                Some(m) => m,
                None => {
                    return Err(ConnectorError::RequestEncodingFailed);
                },
            },
            None => {
                return Err(ConnectorError::RequestEncodingFailed);
            },
        };
        proof {
            lemma_metadata_text_injective(meta.capture_id);
        }
        let ip_address = get_ip_address(&item.router_data.request.browser_info)?;
        Ok(HelcimRefundRequest {
            amount: item.amount,
            original_transaction_id: meta.capture_id,
            ip_address,
            ecommerce: None,
        })
    }
}

/// Distinct capture ids have distinct stored forms.
pub proof fn lemma_metadata_text_injective(id: u64)
    ensures
        forall|other: u64| metadata_text(other) == metadata_text(id) ==> other == id,
{
    assert forall|other: u64| metadata_text(other) == metadata_text(id) implies other == id by {
        reveal_strlit("{\"captureId\":");
        reveal_strlit("}");
        crate::decimal::lemma_decimal_text(id as nat);
        crate::decimal::lemma_decimal_text(other as nat);
        let a = metadata_text(other);
        let n = a.len();
        assert(a.subrange(13, n - 1) =~= decimal_text(other as nat));
        assert(metadata_text(id).subrange(13, n - 1) =~= decimal_text(id as nat));
        lemma_parse_decimal_text(id);
        lemma_parse_decimal_text(other);
    }
}

/// Metadata that a capture response stores leads a later refund to the
/// captured transaction: the refund's original transaction id is the
/// capture's transaction id.
pub proof fn lemma_capture_refund_correlation(
    capture: RouterData<PaymentsCaptureData, PaymentsResponseData>,
    captured: RouterData<PaymentsCaptureData, PaymentsResponseData>,
    response: HelcimPaymentsResponse,
    refund: HelcimRouterData<RefundsRouterData>,
)
    requires
        payment_response_applied(
            captured,
            capture,
            response,
            Some(metadata_text(response.transaction_id)),
        ),
        refund.router_data.request.connector_metadata
            == captured.response->Some_0.connector_metadata,
    ensures
        capture_id_of(refund.router_data.request.connector_metadata) == Some(
            response.transaction_id,
        ),
{
    lemma_metadata_text_injective(response.transaction_id);
    let t = refund.router_data.request.connector_metadata->Some_0;
    assert(metadata_text(response.transaction_id) == t@);
}

/// Gateway answer to a refund or a refund status query.
pub struct RefundResponse {
    pub status: HelcimPaymentStatus,
    pub transaction_id: u64,
    pub transaction_type: HelcimRefundTransactionType,
}

impl RefundStatus {
    /// Refund state that a gateway refund response stands for.
    pub fn from_response(item: &RefundResponse) -> (r: RefundStatus)
        ensures
            r == refund_status_of(item.transaction_type, item.status),
    {
        match item.transaction_type {
            HelcimRefundTransactionType::Refund => match item.status {
                HelcimPaymentStatus::Approved => RefundStatus::Success,
                HelcimPaymentStatus::Declined => RefundStatus::Failure,
            },
        }
    }
}

/// Records the gateway's answer to a refund or a refund status query.
pub fn refund_response(
    item: ResponseRouterData<RefundResponse, crate::types::RefundsData, RefundsResponseData>,
) -> (r: RefundsRouterData)
    ensures
        r.status == item.data.status,
        r.billing == item.data.billing,
        r.request == item.data.request,
        r.response matches Some(d) && d.connector_refund_id@ == decimal_text(
            item.response.transaction_id as nat,
        ) && d.refund_status == refund_status_of(
            item.response.transaction_type,
            item.response.status,
        ),
{
    let refund_status = RefundStatus::from_response(&item.response);
    RouterData {
        status: item.data.status,
        billing: item.data.billing,
        request: item.data.request,
        response: Some(
            RefundsResponseData {
                connector_refund_id: u64_to_text(item.response.transaction_id),
                refund_status,
            },
        ),
    }
}

/// Error body that the gateway returns on a failed call.
#[derive(Debug, Default, PartialEq)]
pub struct HelcimErrorResponse {
    pub status_code: u16,
    pub code: String,
    pub message: String,
    pub reason: Option<String>,
}

} // verus!
