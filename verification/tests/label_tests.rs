use lnd_exporter::payment::{
    failure_reason_label_str, status_label_str, PaymentFailureReason, PaymentStatus,
};

#[test]
fn status_labels_are_exhaustive() {
    assert_eq!(status_label_str(PaymentStatus::Unknown), "unknown");
    assert_eq!(status_label_str(PaymentStatus::InFlight), "in_flight");
    assert_eq!(status_label_str(PaymentStatus::Succeeded), "succeeded");
    assert_eq!(status_label_str(PaymentStatus::Failed), "failed");
}

#[test]
fn failure_reason_labels_are_exhaustive() {
    assert_eq!(failure_reason_label_str(PaymentFailureReason::FailureReasonNone), "none");
    assert_eq!(failure_reason_label_str(PaymentFailureReason::FailureReasonTimeout), "timeout");
    assert_eq!(failure_reason_label_str(PaymentFailureReason::FailureReasonNoRoute), "no_route");
    assert_eq!(failure_reason_label_str(PaymentFailureReason::FailureReasonError), "error");
    assert_eq!(
        failure_reason_label_str(PaymentFailureReason::FailureReasonIncorrectPaymentDetails),
        "incorrect_payment_details"
    );
    assert_eq!(
        failure_reason_label_str(PaymentFailureReason::FailureReasonInsufficientBalance),
        "insufficient_balance"
    );
}
