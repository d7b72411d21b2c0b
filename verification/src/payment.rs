//! Payment statuses and failure reasons, and their metric label strings.

use vstd::prelude::*;

verus! {

/// Status of an outgoing payment as reported by the node.
#[derive(Clone, Copy, Debug, PartialEq, Eq, Structural)]
pub enum PaymentStatus {
    Unknown,
    InFlight,
    Succeeded,
    Failed,
}

/// Reason a payment failed; payments that did not fail carry
/// `FailureReasonNone`.
#[derive(Clone, Copy, Debug, PartialEq, Eq, Structural)]
pub enum PaymentFailureReason {
    FailureReasonNone,
    FailureReasonTimeout,
    FailureReasonNoRoute,
    FailureReasonError,
    FailureReasonIncorrectPaymentDetails,
    FailureReasonInsufficientBalance,
}

/// One payment entry of a paginated "list payments" response.
#[derive(Clone, Copy, Debug, PartialEq, Eq, Structural)]
pub struct Payment {
    pub status: PaymentStatus,
    pub failure_reason: PaymentFailureReason,
    pub fee_msat: u64,
}

/// The metric label under which a status is exposed.
pub open spec fn status_label(s: PaymentStatus) -> Seq<char> {
    match s {
        PaymentStatus::Unknown => "unknown"@,
        PaymentStatus::InFlight => "in_flight"@,
        PaymentStatus::Succeeded => "succeeded"@,
        PaymentStatus::Failed => "failed"@,
    }
}

/// The metric label under which a failure reason is exposed.
pub open spec fn failure_reason_label(r: PaymentFailureReason) -> Seq<char> {
    match r {
        PaymentFailureReason::FailureReasonNone => "none"@,
        PaymentFailureReason::FailureReasonTimeout => "timeout"@,
        PaymentFailureReason::FailureReasonNoRoute => "no_route"@,
        PaymentFailureReason::FailureReasonError => "error"@,
        PaymentFailureReason::FailureReasonIncorrectPaymentDetails => "incorrect_payment_details"@,
        PaymentFailureReason::FailureReasonInsufficientBalance => "insufficient_balance"@,
    }
}

/// Exhaustive status-to-label table.
pub fn status_label_str(s: PaymentStatus) -> (r: &'static str)
    ensures
        r@ == status_label(s),
{
    match s {
        PaymentStatus::Unknown => "unknown",
        PaymentStatus::InFlight => "in_flight",
        PaymentStatus::Succeeded => "succeeded",
        PaymentStatus::Failed => "failed",
    }
}

/// Exhaustive failure-reason-to-label table.
pub fn failure_reason_label_str(r: PaymentFailureReason) -> (s: &'static str)
    ensures
        s@ == failure_reason_label(r),
{
    match r {
        PaymentFailureReason::FailureReasonNone => "none",
        PaymentFailureReason::FailureReasonTimeout => "timeout",
        PaymentFailureReason::FailureReasonNoRoute => "no_route",
        PaymentFailureReason::FailureReasonError => "error",
        PaymentFailureReason::FailureReasonIncorrectPaymentDetails => "incorrect_payment_details",
        PaymentFailureReason::FailureReasonInsufficientBalance => "insufficient_balance",
    }
}

} // verus!
