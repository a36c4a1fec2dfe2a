use vstd::prelude::*;

verus! {

/// Outcome reported by the gateway for a transaction.
#[derive(Clone, Copy, Debug, PartialEq, Eq, Structural)]
pub enum HelcimPaymentStatus {
    Approved,
    Declined,
}

/// Kind of payment transaction a gateway response belongs to.
#[derive(Clone, Copy, Debug, PartialEq, Eq, Structural)]
pub enum HelcimTransactionType {
    Purchase,
    PreAuth,
    Capture,
    Verify,
}

/// Canonical lifecycle state of a payment attempt.
#[derive(Clone, Copy, Debug, PartialEq, Eq, Structural)]
pub enum AttemptStatus {
    Started,
    Pending,
    Authorized,
    AuthorizationFailed,
    Charged,
    CaptureFailed,
    Failure,
    AuthenticationSuccessful,
    AuthenticationFailed,
}

/// The reconciliation matrix: lifecycle state for a transaction kind and outcome.
pub open spec fn attempt_status_of(t: HelcimTransactionType, s: HelcimPaymentStatus) -> AttemptStatus {
    match (t, s) {
        (HelcimTransactionType::Purchase, HelcimPaymentStatus::Approved) => AttemptStatus::Charged,
        (HelcimTransactionType::Purchase, HelcimPaymentStatus::Declined) => AttemptStatus::Failure,
        (HelcimTransactionType::PreAuth, HelcimPaymentStatus::Approved) => AttemptStatus::Authorized,
        (HelcimTransactionType::PreAuth, HelcimPaymentStatus::Declined) => AttemptStatus::AuthorizationFailed,
        (HelcimTransactionType::Capture, HelcimPaymentStatus::Approved) => AttemptStatus::Charged,
        (HelcimTransactionType::Capture, HelcimPaymentStatus::Declined) => AttemptStatus::CaptureFailed,
        (HelcimTransactionType::Verify, HelcimPaymentStatus::Approved) => AttemptStatus::AuthenticationSuccessful,
        (HelcimTransactionType::Verify, HelcimPaymentStatus::Declined) => AttemptStatus::AuthenticationFailed,
    }
}

/// Canonical state of a refund.
#[derive(Clone, Copy, Debug, PartialEq, Eq, Structural)]
pub enum RefundStatus {
    Pending,
    Success,
    Failure,
}

/// Kind of a refund transaction at the gateway.
#[derive(Clone, Copy, Debug, PartialEq, Eq, Structural)]
pub enum HelcimRefundTransactionType {
    Refund,
}

/// The refund row of the reconciliation matrix.
pub open spec fn refund_status_of(t: HelcimRefundTransactionType, s: HelcimPaymentStatus) -> RefundStatus {
    match (t, s) {
        (HelcimRefundTransactionType::Refund, HelcimPaymentStatus::Approved) => RefundStatus::Success,
        (HelcimRefundTransactionType::Refund, HelcimPaymentStatus::Declined) => RefundStatus::Failure,
    }
}

/// Two distinct outcomes of one kind of transaction never fall on the same
/// lifecycle state: the matrix is total and each row keeps both outcomes apart.
pub proof fn lemma_matrix_total_and_distinct(t: HelcimTransactionType)
    ensures
        attempt_status_of(t, HelcimPaymentStatus::Approved) != attempt_status_of(
            t,
            HelcimPaymentStatus::Declined,
        ),
        refund_status_of(HelcimRefundTransactionType::Refund, HelcimPaymentStatus::Approved)
            != refund_status_of(HelcimRefundTransactionType::Refund, HelcimPaymentStatus::Declined),
{
}

} // verus!
