use checkout_connector::amount::{Amount, MinorUnit};
use checkout_connector::checkout::{Checkout, FilePurpose};
use checkout_connector::types::{CaptureMethod, ConnectorError, Currency, CurrencyUnit, PaymentMethod};

#[test]
fn supported_capture_methods_pass() {
    let checkout = Checkout::new();
    for m in [
        CaptureMethod::Automatic,
        CaptureMethod::SequentialAutomatic,
        CaptureMethod::Manual,
        CaptureMethod::ManualMultiple,
    ] {
        assert_eq!(checkout.validate_connector_against_payment_request(Some(m), PaymentMethod::Card, None), Ok(()));
    }
    assert_eq!(checkout.validate_connector_against_payment_request(None, PaymentMethod::Wallet, None), Ok(()));
}

#[test]
fn scheduled_capture_is_not_implemented() {
    let checkout = Checkout::new();
    let r = checkout.validate_connector_against_payment_request(
        Some(CaptureMethod::Scheduled),
        PaymentMethod::Card,
        None,
    );
    assert_eq!(r, Err(ConnectorError::NotImplemented("scheduled for checkout".to_string())));
}

#[test]
fn oversized_file_is_rejected_whatever_its_type() {
    let checkout = Checkout::new();
    let size_error = Err(ConnectorError::FileValidationFailed {
        reason: "file_size exceeded the max file size of 4MB".to_string(),
    });
    assert_eq!(checkout.validate_file_upload(FilePurpose::DisputeEvidence, 4_500_000, "application/pdf"), size_error);
    assert_eq!(checkout.validate_file_upload(FilePurpose::DisputeEvidence, 4_500_000, "text/plain"), size_error);
}

#[test]
fn file_size_limit_is_inclusive() {
    let checkout = Checkout::new();
    assert_eq!(checkout.validate_file_upload(FilePurpose::DisputeEvidence, 4_000_000, "image/png"), Ok(()));
    assert!(checkout.validate_file_upload(FilePurpose::DisputeEvidence, 4_000_001, "image/png").is_err());
}

#[test]
fn file_type_must_be_allowed() {
    let checkout = Checkout::new();
    for t in ["image/jpeg", "image/jpg", "image/png", "application/pdf"] {
        assert_eq!(checkout.validate_file_upload(FilePurpose::DisputeEvidence, 10, t), Ok(()));
    }
    let type_error = Err(ConnectorError::FileValidationFailed {
        reason: "file_type does not match JPEG, JPG, PNG, or PDF format".to_string(),
    });
    assert_eq!(checkout.validate_file_upload(FilePurpose::DisputeEvidence, 10, "image/gif"), type_error);
    assert_eq!(checkout.validate_file_upload(FilePurpose::DisputeEvidence, 10, "IMAGE/PNG"), type_error);
}

#[test]
fn amount_round_trips_through_conversion() {
    let checkout = Checkout::new();
    let amount = Amount { value: MinorUnit::new(1050), currency: Currency::USD };
    let converter = checkout.amount_converter();
    let sent = converter.convert(amount.value, amount.currency);
    assert_eq!(sent, MinorUnit(1050));
    let back = converter.convert_back(sent, amount.currency);
    assert_eq!(back.get_amount_as_i64(), 1050);
}

#[test]
fn connector_identity() {
    let checkout = Checkout::new();
    assert_eq!(checkout.id(), "checkout");
    assert_eq!(checkout.get_currency_unit(), CurrencyUnit::Minor);
    assert_eq!(checkout.common_get_content_type(), "application/json");
}
