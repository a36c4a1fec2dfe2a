use vstd::prelude::*;

verus! {

/// A stored payout record.
pub struct Payouts {
    pub payout_id: String,
    pub merchant_id: String,
}

/// How a storage lookup or write failed.
#[derive(Clone, Copy, Debug, PartialEq, Eq, Structural)]
pub enum StorageError {
    /// No record matched the key.
    ValueNotFound,
    /// A write hit the uniqueness constraint on (merchant_id, payout_id).
    UniqueViolation,
    /// Any other failure of the storage backend.
    DatabaseError,
}

/// Payout method details, as read from the card vault.
pub enum PayoutMethodData {
    Card { card_number: String, expiry_month: String, expiry_year: String },
    Bank { account_number: String, routing_number: String },
}

/// A merchant's request to create a payout.
pub struct PayoutCreateRequest {
    pub merchant_id: Option<String>,
    pub payout_id: Option<String>,
    pub customer_id: Option<String>,
    pub payout_token: Option<String>,
}

/// Errors returned to the merchant.
pub enum ApiErrorResponse {
    InvalidDataFormat { field_name: String, expected_format: String },
    DuplicatePayout { payout_id: String },
    InternalServerError,
    PayoutNotFound,
}

/// What the uniqueness check concludes from a storage lookup.
pub enum Presence {
    Absent,
    Present,
    Failed,
}

/// Reading of a lookup of `payout_id`: "not found" and a record under another
/// id mean absent; any other storage failure is an internal error.
pub open spec fn presence_of(lookup: Result<Payouts, StorageError>, payout_id: Seq<char>) -> Presence {
    match lookup {
        Err(StorageError::ValueNotFound) => Presence::Absent,
        Err(_) => Presence::Failed,
        Ok(p) => if p.payout_id@ == payout_id {
            Presence::Present
        } else {
            Presence::Absent
        },
    }
}

/// Reads the result of looking up `payout_id` under a merchant: the record if
/// it is there, `None` if it is not.
pub fn validate_uniqueness_of_payout_id_against_merchant_id(
    lookup: Result<Payouts, StorageError>,
    payout_id: &str,
) -> (r: Result<Option<Payouts>, ApiErrorResponse>)
    ensures
        match presence_of(lookup, payout_id@) {
            Presence::Absent => r matches Ok(None),
            Presence::Present => r matches Ok(Some(p)) && p == lookup->Ok_0,
            Presence::Failed => r matches Err(ApiErrorResponse::InternalServerError),
        },
{
    match lookup {
        Err(StorageError::ValueNotFound) => Ok(None),
        Err(_) => Err(ApiErrorResponse::InternalServerError),
        Ok(payout) => {
            if payout.payout_id == String::from_str(payout_id) {
                Ok(Some(payout))
            } else {
                Ok(None)
            }
        },
    }
}

/// Why the payout method behind a token could not be had.
#[derive(Clone, Copy, Debug, PartialEq, Eq, Structural)]
pub enum VaultError {
    /// The vault did not return the payout method.
    FetchFailed,
    /// The vault returned data that is not a payout method.
    Malformed,
}

/// Reads the vault's answer for a payout token (`None` when the request has
/// no token): a failed fetch means the payout method was not found, data
/// that cannot be read is an internal error.
pub fn payout_method_from_vault(fetch: Option<Result<PayoutMethodData, VaultError>>) -> (r: Result<
    Option<PayoutMethodData>,
    ApiErrorResponse,
>)
    ensures
        match fetch {
            None => r matches Ok(None),
            Some(Ok(m)) => r matches Ok(Some(n)) && n == m,
            Some(Err(VaultError::FetchFailed)) => r matches Err(ApiErrorResponse::PayoutNotFound),
            Some(Err(VaultError::Malformed)) => r matches Err(
                ApiErrorResponse::InternalServerError,
            ),
        },
{
    match fetch {
        None => Ok(None),
        Some(Ok(m)) => Ok(Some(m)),
        Some(Err(VaultError::FetchFailed)) => Err(ApiErrorResponse::PayoutNotFound),
        Some(Err(VaultError::Malformed)) => Err(ApiErrorResponse::InternalServerError),
    }
}

/// The payout id a request resolves to: its own, or the freshly generated one.
pub open spec fn resolved_payout_id(requested: Option<String>, generated: Seq<char>) -> Seq<char> {
    match requested {
        Some(id) => id@,
        None => generated,
    }
}

pub fn get_or_generate_payout_id(requested: &Option<String>, generated: String) -> (r: String)
    ensures
        r@ == resolved_payout_id(*requested, generated@),
{
    match requested {
        Some(id) => id.clone(),
        None => generated,
    }
}

/// A merchant id in the request, if any, must be the authenticated merchant's.
pub open spec fn merchant_mismatch(req: PayoutCreateRequest, merchant_id: Seq<char>) -> bool {
    req.merchant_id matches Some(m) && m@ != merchant_id
}

pub fn validate_merchant_id(req: &PayoutCreateRequest, merchant_id: &str) -> (r: Result<(), ApiErrorResponse>)
    ensures
        merchant_mismatch(*req, merchant_id@) ==> (r matches Err(
            ApiErrorResponse::InvalidDataFormat { field_name, expected_format },
        ) && field_name@ == "merchant_id"@ && expected_format@
            == "merchant_id from merchant account"@),
        !merchant_mismatch(*req, merchant_id@) ==> r is Ok,
{
    match &req.merchant_id {
        Some(m) => {
            if *m != String::from_str(merchant_id) {
                proof {
                    reveal_strlit("merchant_id");
                    reveal_strlit("merchant_id from merchant account");
                }
                return Err(
                    ApiErrorResponse::InvalidDataFormat {
                        field_name: String::from_str("merchant_id"),
                        expected_format: String::from_str("merchant_id from merchant account"),
                    },
                );
            }
            Ok(())
        },
        None => Ok(()),
    }
}

/// Outcome of a payout creation check, without the values it carries.
pub enum CreateVerdict {
    InvalidMerchant,
    MethodUnavailable,
    Duplicate,
    Internal,
    Proceed,
}

/// The verdict on a payout creation: merchant check, then the payout
/// method, then uniqueness of the resolved payout id.
pub open spec fn create_verdict(
    merchant_id: Seq<char>,
    req: PayoutCreateRequest,
    method_ok: bool,
    generated: Seq<char>,
    lookup: Result<Payouts, StorageError>,
) -> CreateVerdict {
    if merchant_mismatch(req, merchant_id) {
        CreateVerdict::InvalidMerchant
    } else if !method_ok {
        CreateVerdict::MethodUnavailable
    } else {
        match presence_of(lookup, resolved_payout_id(req.payout_id, generated)) {
            Presence::Absent => CreateVerdict::Proceed,
            Presence::Present => CreateVerdict::Duplicate,
            Presence::Failed => CreateVerdict::Internal,
        }
    }
}

/// Decides whether a payout may be created. `payout_method` is the payout
/// method read for the request's token (`Ok(None)` without a token),
/// `generated` a fresh id used where the request names none, and `lookup` the
/// storage lookup of the resolved id under `merchant_id`. On success returns
/// the payout id and the payout method.
pub fn validate_create_request(
    merchant_id: &str,
    req: &PayoutCreateRequest,
    payout_method: Result<Option<PayoutMethodData>, ApiErrorResponse>,
    generated: String,
    lookup: Result<Payouts, StorageError>,
) -> (r: Result<(String, Option<PayoutMethodData>), ApiErrorResponse>)
    ensures
        ({
            let id = resolved_payout_id(req.payout_id, generated@);
            match create_verdict(merchant_id@, *req, payout_method is Ok, generated@, lookup) {
                CreateVerdict::InvalidMerchant => r matches Err(
                    ApiErrorResponse::InvalidDataFormat { field_name, expected_format },
                ) && field_name@ == "merchant_id"@ && expected_format@
                    == "merchant_id from merchant account"@,
                CreateVerdict::MethodUnavailable => r matches Err(e) && e == payout_method->Err_0,
                CreateVerdict::Duplicate => r matches Err(ApiErrorResponse::DuplicatePayout { payout_id })
                    && payout_id@ == id,
                CreateVerdict::Internal => r matches Err(ApiErrorResponse::InternalServerError),
                CreateVerdict::Proceed => r matches Ok((p, m)) && p@ == id && m
                    == payout_method->Ok_0,
            }
        }),
{
    validate_merchant_id(req, merchant_id)?;
    let payout_method_data = match payout_method {
        Ok(m) => m,
        Err(e) => {
            return Err(e);
        },
    };
    let payout_id = get_or_generate_payout_id(&req.payout_id, generated);
    match validate_uniqueness_of_payout_id_against_merchant_id(lookup, payout_id.as_str()) {
        Err(e) => Err(e),
        Ok(Some(_)) => Err(ApiErrorResponse::DuplicatePayout { payout_id }),
        Ok(None) => Ok((payout_id, payout_method_data)),
    }
}

/// Reads the result of writing a new payout record. A uniqueness violation
/// at write time is a duplicate, exactly as a hit of the earlier check is.
pub fn payout_insert_result(insert: Result<Payouts, StorageError>, payout_id: &str) -> (r: Result<
    Payouts,
    ApiErrorResponse,
>)
    ensures
        match insert {
            Ok(p) => r matches Ok(q) && q == p,
            Err(StorageError::UniqueViolation) => r matches Err(
                ApiErrorResponse::DuplicatePayout { payout_id: d },
            ) && d@ == payout_id@,
            Err(_) => r matches Err(ApiErrorResponse::InternalServerError),
        },
{
    match insert {
        Ok(p) => Ok(p),
        Err(StorageError::UniqueViolation) => Err(
            ApiErrorResponse::DuplicatePayout { payout_id: String::from_str(payout_id) },
        ),
        Err(_) => Err(ApiErrorResponse::InternalServerError),
    }
}

/// With a payout `stored` under the merchant, a second creation with the same
/// payout id is a duplicate, so nothing is created; a creation with an id
/// that storage does not hold may proceed.
pub proof fn lemma_payout_creation_idempotent(
    merchant_id: Seq<char>,
    req: PayoutCreateRequest,
    generated: Seq<char>,
    stored: Payouts,
    other: Result<Payouts, StorageError>,
)
    requires
        !merchant_mismatch(req, merchant_id),
        stored.payout_id@ == resolved_payout_id(req.payout_id, generated),
    ensures
        create_verdict(merchant_id, req, true, generated, Ok(stored)) is Duplicate,
        other matches Err(StorageError::ValueNotFound) ==> create_verdict(
            merchant_id,
            req,
            true,
            generated,
            other,
        ) is Proceed,
        other matches Ok(p) && p.payout_id@ != resolved_payout_id(req.payout_id, generated)
            ==> create_verdict(merchant_id, req, true, generated, other) is Proceed,
{
}

} // verus!
