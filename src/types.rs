use vstd::prelude::*;

use crate::amount::Currency;
use crate::errors::{ConnectorError, MissingField};
use crate::status::{AttemptStatus, RefundStatus};

verus! {

/// Card details as held by the platform.
pub struct Card {
    pub card_number: String,
    pub card_exp_month: String,
    pub card_exp_year: String,
    pub card_cvc: String,
}

/// The last two characters of `s`, or `s` itself when shorter.
pub open spec fn last_two(s: Seq<char>) -> Seq<char> {
    if s.len() >= 2 {
        s.subrange(s.len() - 2, s.len() as int)
    } else {
        s
    }
}

/// Characters with the Unicode `White_Space` property.
pub open spec fn is_whitespace(c: char) -> bool {
    let n = c as u32;
    (0x9 <= n && n <= 0xd) || n == 0x20 || n == 0x85 || n == 0xa0 || n == 0x1680 || (0x2000 <= n
        && n <= 0x200a) || n == 0x2028 || n == 0x2029 || n == 0x202f || n == 0x205f || n == 0x3000
}

pub open spec fn trim_start(s: Seq<char>) -> Seq<char>
    decreases s.len(),
{
    if s.len() > 0 && is_whitespace(s[0]) {
        trim_start(s.drop_first())
    } else {
        s
    }
}

pub open spec fn trim_end(s: Seq<char>) -> Seq<char>
    decreases s.len(),
{
    if s.len() > 0 && is_whitespace(s.last()) {
        trim_end(s.drop_last())
    } else {
        s
    }
}

/// `s` without leading and trailing whitespace.
pub open spec fn trimmed(s: Seq<char>) -> Seq<char> {
    trim_end(trim_start(s))
}

/// Relies on `str::trim`: removes leading and trailing characters with the
/// Unicode `White_Space` property.
#[verifier::external_body]
pub(crate) fn trim_text(s: &str) -> (r: &str)
    ensures
        r@ == trimmed(s@),
{
    s.trim()
}

impl Card {
    /// Expiry as month, `delimiter`, then the last two digits of the year.
    pub fn get_card_expiry_month_year_2_digit_with_delimiter(&self, delimiter: String) -> (r: String)
        ensures
            r@ == self.card_exp_month@ + delimiter@ + last_two(self.card_exp_year@),
    {
        let year = self.card_exp_year.as_str();
        let n = year.unicode_len();
        let year_2_digit = if n >= 2 {
            year.substring_char(n - 2, n)
        } else {
            year
        };
        let month = self.card_exp_month.clone();
        month.concat(delimiter.as_str()).concat(year_2_digit)
    }
}

/// Payment method chosen by the customer.
pub enum PaymentMethodData {
    Card(Card),
    Wallet,
    PayLater,
    BankRedirect,
    BankTransfer,
    Crypto,
    Voucher,
}

/// Postal address details; every part may be absent.
pub struct AddressDetails {
    pub first_name: Option<String>,
    pub last_name: Option<String>,
    pub line1: Option<String>,
    pub line2: Option<String>,
    pub zip: Option<String>,
    pub city: Option<String>,
}

pub struct Address {
    pub address: Option<AddressDetails>,
}

/// Browser or device data sent along with the payment.
pub struct BrowserInformation {
    pub ip_address: Option<String>,
}

pub struct PaymentsAuthorizeData {
    pub payment_method_data: PaymentMethodData,
    pub currency: Currency,
    pub email: Option<String>,
    pub browser_info: Option<BrowserInformation>,
}

pub struct PaymentsCaptureData {
    /// Gateway transaction id of the authorization being captured.
    pub connector_transaction_id: String,
    pub browser_info: Option<BrowserInformation>,
}

pub enum SyncRequestType {
    SinglePaymentSync,
    MultipleCaptureSync(Vec<String>),
}

pub struct PaymentsSyncData {
    pub sync_type: SyncRequestType,
}

pub struct RefundsData {
    /// Correlation metadata stored with the captured payment.
    pub connector_metadata: Option<String>,
    pub browser_info: Option<BrowserInformation>,
}

/// Canonical result of a payment operation at the gateway.
pub struct PaymentsResponseData {
    pub resource_id: String,
    pub connector_metadata: Option<String>,
}

/// Canonical result of a refund operation at the gateway.
pub struct RefundsResponseData {
    pub connector_refund_id: String,
    pub refund_status: RefundStatus,
}

/// State of one operation: its request, its lifecycle status, and the
/// gateway's answer once there is one.
pub struct RouterData<Req, Resp> {
    pub status: AttemptStatus,
    pub billing: Option<Address>,
    pub request: Req,
    pub response: Option<Resp>,
}

pub type PaymentsAuthorizeRouterData = RouterData<PaymentsAuthorizeData, PaymentsResponseData>;

pub type PaymentsCaptureRouterData = RouterData<PaymentsCaptureData, PaymentsResponseData>;

pub type PaymentsSyncRouterData = RouterData<PaymentsSyncData, PaymentsResponseData>;

pub type RefundsRouterData = RouterData<RefundsData, RefundsResponseData>;

/// A gateway response together with the operation it answers.
pub struct ResponseRouterData<R, Req, Resp> {
    pub response: R,
    pub data: RouterData<Req, Resp>,
}

/// Credentials configured for a gateway account.
pub enum ConnectorAuthType {
    HeaderKey { api_key: String },
    BodyKey { api_key: String, key1: String },
    SignatureKey { api_key: String, key1: String, api_secret: String },
    NoKey,
}

pub fn clone_opt_string(s: &Option<String>) -> (r: Option<String>)
    ensures
        r == *s,
{
    match s {
        Some(v) => Some(v.clone()),
        None => None,
    }
}

/// The error that reading the client's IP address from `info` gives, if any.
pub open spec fn ip_address_error(info: Option<BrowserInformation>) -> Option<ConnectorError> {
    match info {
        None => Some(ConnectorError::MissingRequiredField(MissingField::BrowserInfo)),
        Some(b) => match b.ip_address {
            None => Some(ConnectorError::MissingRequiredField(MissingField::IpAddress)),
            Some(_) => None,
        },
    }
}

/// The client's IP address, which every gateway request carries.
pub fn get_ip_address(info: &Option<BrowserInformation>) -> (r: Result<String, ConnectorError>)
    ensures
        match ip_address_error(*info) {
            Some(e) => r == Err::<String, ConnectorError>(e),
            None => r == Ok::<String, ConnectorError>(info->Some_0.ip_address->Some_0),
        },
{
    match info {
        None => Err(ConnectorError::MissingRequiredField(MissingField::BrowserInfo)),
        Some(b) => match &b.ip_address {
            None => Err(ConnectorError::MissingRequiredField(MissingField::IpAddress)),
            Some(ip) => Ok(ip.clone()),
        },
    }
}

} // verus!
