use checkout_connector::amount::MinorUnit;
use checkout_connector::checkout::Checkout;
use checkout_connector::metadata::{CallConnectorAction, CaptureSyncMethod, EventClass, PaymentAction};
use checkout_connector::text::decimal_string;
use checkout_connector::types::{ConnectorError, Currency, DisputeStage};
use checkout_connector::webhook::{
    CheckoutDisputeWebhookBody, CheckoutDisputeWebhookData, CheckoutWebhookBody, CheckoutWebhookData,
    CheckoutWebhookEventType, CheckoutWebhookEventTypeBody, IncomingWebhookEvent, ObjectReferenceId, PaymentIdType,
    RefundIdType, VerificationAlgorithm, WebhookResourceKind,
};

fn body(transaction_type: &str, reference: Option<&str>, payment_id: Option<&str>, action_id: Option<&str>) -> CheckoutWebhookBody {
    CheckoutWebhookBody {
        transaction_type: transaction_type.to_string(),
        data: CheckoutWebhookData {
            id: "obj_1".to_string(),
            payment_id: payment_id.map(|s| s.to_string()),
            action_id: action_id.map(|s| s.to_string()),
            reference: reference.map(|s| s.to_string()),
        },
    }
}

#[test]
fn chargeback_without_reference_uses_payment_id() {
    let checkout = Checkout::new();
    let r = checkout.get_webhook_object_reference_id(Some(body("dispute_received", None, Some("pay_123"), None)));
    assert_eq!(
        r,
        Ok(ObjectReferenceId::PaymentId(PaymentIdType::ConnectorTransactionId("pay_123".to_string())))
    );
}

#[test]
fn reference_id_rules() {
    let checkout = Checkout::new();
    assert_eq!(
        checkout.get_webhook_object_reference_id(Some(body("dispute_lost", Some("att_1"), Some("pay_1"), None))),
        Ok(ObjectReferenceId::PaymentId(PaymentIdType::PaymentAttemptId("att_1".to_string())))
    );
    assert_eq!(
        checkout.get_webhook_object_reference_id(Some(body("dispute_won", None, None, Some("act_1")))),
        Err(ConnectorError::WebhookReferenceIdNotFound)
    );
    assert_eq!(
        checkout.get_webhook_object_reference_id(Some(body("payment_refunded", None, Some("pay_1"), Some("act_1")))),
        Ok(ObjectReferenceId::RefundId(RefundIdType::ConnectorRefundId("act_1".to_string())))
    );
    assert_eq!(
        checkout.get_webhook_object_reference_id(Some(body("payment_refund_declined", Some("ref_1"), None, None))),
        Ok(ObjectReferenceId::RefundId(RefundIdType::RefundId("ref_1".to_string())))
    );
    assert_eq!(
        checkout.get_webhook_object_reference_id(Some(body("payment_refunded", None, None, None))),
        Err(ConnectorError::WebhookReferenceIdNotFound)
    );
    assert_eq!(
        checkout.get_webhook_object_reference_id(Some(body("payment_captured", None, None, None))),
        Ok(ObjectReferenceId::PaymentId(PaymentIdType::ConnectorTransactionId("obj_1".to_string())))
    );
    assert_eq!(
        checkout.get_webhook_object_reference_id(Some(body("something_new", Some("att_9"), None, None))),
        Ok(ObjectReferenceId::PaymentId(PaymentIdType::PaymentAttemptId("att_9".to_string())))
    );
    assert_eq!(checkout.get_webhook_object_reference_id(None), Err(ConnectorError::WebhookReferenceIdNotFound));
}

#[test]
fn event_names_and_classes() {
    assert_eq!(CheckoutWebhookEventType::from_name("payment_captured"), CheckoutWebhookEventType::PaymentCaptured);
    assert_eq!(
        CheckoutWebhookEventType::from_name("dispute_evidence_acknowledged_by_scheme"),
        CheckoutWebhookEventType::DisputeEvidenceAcknowledgedByScheme
    );
    assert_eq!(CheckoutWebhookEventType::from_name("Payment_Captured"), CheckoutWebhookEventType::Unknown);
    assert_eq!(CheckoutWebhookEventType::DisputeArbitrationWon.name(), "dispute_arbitration_won");
    let checkout = Checkout::new();
    let event = |t: &str| checkout.get_webhook_event_type(Some(CheckoutWebhookEventTypeBody { transaction_type: t.to_string() }));
    assert_eq!(event("payment_captured"), Ok(IncomingWebhookEvent::PaymentIntentSuccess));
    assert_eq!(event("payment_declined"), Ok(IncomingWebhookEvent::PaymentIntentFailure));
    assert_eq!(event("payment_refunded"), Ok(IncomingWebhookEvent::RefundSuccess));
    assert_eq!(event("payment_voided"), Ok(IncomingWebhookEvent::PaymentIntentCancelled));
    assert_eq!(event("dispute_evidence_required"), Ok(IncomingWebhookEvent::DisputeOpened));
    assert_eq!(event("dispute_arbitration_lost"), Ok(IncomingWebhookEvent::DisputeLost));
    assert_eq!(event("payment_approved"), Ok(IncomingWebhookEvent::EventNotSupported));
    assert_eq!(event("whatever"), Ok(IncomingWebhookEvent::EventNotSupported));
    assert_eq!(checkout.get_webhook_event_type(None), Err(ConnectorError::WebhookEventTypeNotFound));
    let kind = |t: &str| checkout.get_webhook_resource_object(Some(CheckoutWebhookEventTypeBody { transaction_type: t.to_string() }));
    assert_eq!(kind("dispute_received"), Ok(WebhookResourceKind::Dispute));
    assert_eq!(kind("payment_refund_declined"), Ok(WebhookResourceKind::Refund));
    assert_eq!(kind("payment_captured"), Ok(WebhookResourceKind::Payment));
    assert_eq!(checkout.get_webhook_resource_object(None), Err(ConnectorError::WebhookBodyDecodingFailed));
}

#[test]
fn dispute_details_from_webhook() {
    let checkout = Checkout::new();
    let dispute = CheckoutDisputeWebhookBody {
        transaction_type: "dispute_arbitration_won".to_string(),
        data: CheckoutDisputeWebhookData {
            id: "dsp_1".to_string(),
            payment_id: Some("pay_1".to_string()),
            action_id: None,
            amount: MinorUnit(1050),
            currency: Currency::USD,
            evidence_required_by: Some("2024-01-10T00:00:00Z".to_string()),
            reason_code: Some("10.4".to_string()),
            date: Some("2024-01-02T00:00:00Z".to_string()),
        },
        created_on: Some("2024-01-01T00:00:00Z".to_string()),
    };
    let p = checkout.get_dispute_details(Some(dispute)).unwrap();
    assert_eq!(p.amount, "1050");
    assert_eq!(p.currency, Currency::USD);
    assert_eq!(p.dispute_stage, DisputeStage::PreArbitration);
    assert_eq!(p.connector_dispute_id, "dsp_1");
    assert_eq!(p.connector_reason, None);
    assert_eq!(p.connector_reason_code, Some("10.4".to_string()));
    assert_eq!(p.challenge_required_by, Some("2024-01-10T00:00:00Z".to_string()));
    assert_eq!(p.connector_status, "dispute_arbitration_won");
    assert_eq!(p.created_at, Some("2024-01-01T00:00:00Z".to_string()));
    assert_eq!(p.updated_at, Some("2024-01-02T00:00:00Z".to_string()));
    assert_eq!(checkout.get_dispute_details(None), Err(ConnectorError::WebhookBodyDecodingFailed));
}

#[test]
fn decimal_rendering() {
    assert_eq!(decimal_string(0), "0");
    assert_eq!(decimal_string(7), "7");
    assert_eq!(decimal_string(1050), "1050");
    assert_eq!(decimal_string(-42), "-42");
    assert_eq!(decimal_string(i64::MAX), "9223372036854775807");
    assert_eq!(decimal_string(i64::MIN), "-9223372036854775808");
}

#[test]
fn signature_is_hex_decoded_header() {
    let checkout = Checkout::new();
    let headers = vec![
        ("content-type".to_string(), "application/json".to_string()),
        ("cko-signature".to_string(), "0aFF10".to_string()),
    ];
    assert_eq!(checkout.get_webhook_source_verification_signature(&headers), Ok(vec![0x0a, 0xff, 0x10]));
    for bad in ["abc", "zz", "0g"] {
        let headers = vec![("cko-signature".to_string(), bad.to_string())];
        assert_eq!(
            checkout.get_webhook_source_verification_signature(&headers),
            Err(ConnectorError::WebhookSignatureNotFound)
        );
    }
    let mixed_case = vec![("Cko-Signature".to_string(), "ab".to_string())];
    assert_eq!(checkout.get_webhook_source_verification_signature(&mixed_case), Ok(vec![0xab]));
    let other = vec![("cko-signatures".to_string(), "ab".to_string())];
    assert_eq!(
        checkout.get_webhook_source_verification_signature(&other),
        Err(ConnectorError::WebhookSignatureNotFound)
    );
    assert_eq!(
        checkout.get_webhook_source_verification_signature(&vec![]),
        Err(ConnectorError::WebhookSignatureNotFound)
    );
    assert_eq!(checkout.get_webhook_source_verification_algorithm(), VerificationAlgorithm::HmacSha256);
}

#[test]
fn message_is_lossy_utf8_of_body() {
    let checkout = Checkout::new();
    assert_eq!(checkout.get_webhook_source_verification_message(b"{\"a\":1}"), b"{\"a\":1}".to_vec());
    assert_eq!(
        checkout.get_webhook_source_verification_message(&[b'a', 0xff, b'c']),
        vec![b'a', 0xEF, 0xBF, 0xBD, b'c']
    );
}

#[test]
fn routine_answers() {
    let checkout = Checkout::new();
    assert_eq!(checkout.get_flow_type("", PaymentAction::PSync), Ok(CallConnectorAction::Trigger));
    assert_eq!(checkout.get_flow_type("a=b", PaymentAction::CompleteAuthorize), Ok(CallConnectorAction::Trigger));
    assert_eq!(checkout.get_multiple_capture_sync_method(), Ok(CaptureSyncMethod::Bulk));
    assert_eq!(
        checkout.get_supported_webhook_flows(),
        Some(vec![EventClass::Payments, EventClass::Refunds, EventClass::Disputes])
    );
    let methods = checkout.get_supported_payment_methods().unwrap();
    assert_eq!(methods.len(), 4);
    assert!(methods[0].card_features.is_some());
    assert!(methods[2].card_features.is_none());
    assert_eq!(checkout.get_connector_about().unwrap().display_name, "Checkout");
}
