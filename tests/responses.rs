use checkout_connector::amount::MinorUnit;
use checkout_connector::checkout::Checkout;
use checkout_connector::flows::{CaptureData, RefundsData, ResponseId, SyncData, SyncRequestType};
use checkout_connector::responses::SyncSchema;
use checkout_connector::types::{
    AttemptStatus, CaptureSyncResponse, ConnectorError, Currency, DisputeStatus, PaymentsResponseData,
    RefundStatus,
};
use checkout_connector::upstream::{
    ActionResponse, CheckoutActionType, CheckoutTokenResponse, FileUploadResponse, PaymentCaptureResponse,
    PaymentVoidResponse, PaymentsResponse, PaymentsSyncBody, RefundResponse,
};

fn action(id: &str, action_type: CheckoutActionType, approved: Option<bool>, amount: i64) -> ActionResponse {
    ActionResponse {
        action_id: id.to_string(),
        amount: MinorUnit(amount),
        action_type,
        approved,
        reference: None,
    }
}

fn refund_data(refund_id: Option<&str>) -> RefundsData {
    RefundsData {
        connector_transaction_id: "pay_1".to_string(),
        minor_refund_amount: MinorUnit(100),
        currency: Currency::USD,
        connector_refund_id: refund_id.map(|s| s.to_string()),
    }
}

#[test]
fn refund_sync_picks_tracked_action() {
    let checkout = Checkout::new();
    let actions = vec![
        action("a1", CheckoutActionType::Refund, Some(false), 10),
        action("a2", CheckoutActionType::Refund, Some(true), 20),
    ];
    let r = checkout.handle_refund_sync_response(&refund_data(Some("a2")), Some(actions.clone())).unwrap();
    assert_eq!(r.connector_refund_id, "a2");
    assert_eq!(r.refund_status, RefundStatus::Success);
    let r = checkout.handle_refund_sync_response(&refund_data(Some("a1")), Some(actions.clone())).unwrap();
    assert_eq!(r.refund_status, RefundStatus::Failure);
    let r = checkout.handle_refund_sync_response(&refund_data(Some("a3")), Some(actions));
    assert_eq!(r, Err(ConnectorError::ResponseHandlingFailed));
}

#[test]
fn refund_sync_failures() {
    let checkout = Checkout::new();
    let pending = vec![action("a1", CheckoutActionType::Refund, None, 10)];
    let r = checkout.handle_refund_sync_response(&refund_data(Some("a1")), Some(pending.clone())).unwrap();
    assert_eq!(r.refund_status, RefundStatus::Pending);
    assert_eq!(
        checkout.handle_refund_sync_response(&refund_data(None), Some(pending)),
        Err(ConnectorError::MissingConnectorTransactionID)
    );
    assert_eq!(
        checkout.handle_refund_sync_response(&refund_data(Some("a1")), None),
        Err(ConnectorError::ResponseDeserializationFailed)
    );
    assert_eq!(
        checkout.handle_refund_sync_response(&refund_data(Some("a1")), Some(vec![])),
        Err(ConnectorError::ResponseHandlingFailed)
    );
}

fn sync_data(sync_type: SyncRequestType) -> SyncData {
    SyncData { connector_transaction_id: ResponseId::ConnectorTransactionId("pay_1".to_string()), sync_type }
}

fn payment() -> PaymentsResponse {
    PaymentsResponse { id: "pay_1".to_string(), status: "Captured".to_string(), reference: Some("ord_1".to_string()) }
}

#[test]
fn multi_capture_sync_reads_action_list() {
    let checkout = Checkout::new();
    let data = sync_data(SyncRequestType::MultipleCaptureSync(vec!["cap_1".to_string()]));
    assert_eq!(checkout.psync_response_schema(&data), SyncSchema::Actions);
    let actions = vec![
        action("auth_1", CheckoutActionType::Authorization, Some(true), 500),
        action("cap_1", CheckoutActionType::Capture, Some(true), 200),
        action("cap_2", CheckoutActionType::Capture, None, 300),
    ];
    let r = checkout.handle_psync_response(&data, Some(PaymentsSyncBody::Actions(actions))).unwrap();
    assert_eq!(
        r,
        PaymentsResponseData::MultipleCaptureResponse {
            captures: vec![
                CaptureSyncResponse {
                    connector_capture_id: "cap_1".to_string(),
                    amount: MinorUnit(200),
                    status: AttemptStatus::Charged,
                    connector_response_reference_id: None,
                },
                CaptureSyncResponse {
                    connector_capture_id: "cap_2".to_string(),
                    amount: MinorUnit(300),
                    status: AttemptStatus::Pending,
                    connector_response_reference_id: None,
                },
            ],
        }
    );
    let crossed = checkout.handle_psync_response(&data, Some(PaymentsSyncBody::Single(payment())));
    assert_eq!(crossed, Err(ConnectorError::ResponseDeserializationFailed));
}

#[test]
fn single_sync_reads_payment_object() {
    let checkout = Checkout::new();
    let data = sync_data(SyncRequestType::SinglePaymentSync);
    assert_eq!(checkout.psync_response_schema(&data), SyncSchema::Single);
    let r = checkout.handle_psync_response(&data, Some(PaymentsSyncBody::Single(payment()))).unwrap();
    assert_eq!(
        r,
        PaymentsResponseData::TransactionResponse {
            resource_id: "pay_1".to_string(),
            connector_response_reference_id: Some("ord_1".to_string()),
            connector_status: Some("Captured".to_string()),
        }
    );
    let crossed = checkout.handle_psync_response(&data, Some(PaymentsSyncBody::Actions(vec![])));
    assert_eq!(crossed, Err(ConnectorError::ResponseDeserializationFailed));
    assert_eq!(checkout.handle_psync_response(&data, None), Err(ConnectorError::ResponseDeserializationFailed));
}

#[test]
fn dispute_flows_are_synthesised() {
    let checkout = Checkout::new();
    assert_eq!(checkout.handle_accept_dispute_response().unwrap().dispute_status, DisputeStatus::DisputeAccepted);
    assert_eq!(checkout.handle_defend_dispute_response().unwrap().dispute_status, DisputeStatus::DisputeChallenged);
    let evidence = checkout.handle_submit_evidence_response().unwrap();
    assert_eq!(evidence.dispute_status, DisputeStatus::DisputeChallenged);
    assert_eq!(evidence.connector_status, None);
}

#[test]
fn void_refund_and_capture_statuses_follow_http_status() {
    let checkout = Checkout::new();
    let void = || Some(PaymentVoidResponse { action_id: "act_v".to_string(), reference: "pay_1".to_string() });
    assert_eq!(checkout.handle_void_response(202, void()).unwrap().0, AttemptStatus::Voided);
    assert_eq!(checkout.handle_void_response(200, void()).unwrap().0, AttemptStatus::VoidFailed);
    let refund = || Some(RefundResponse { action_id: "act_r".to_string(), reference: "ref_1".to_string() });
    let r = checkout.handle_refund_response(202, refund()).unwrap();
    assert_eq!((r.connector_refund_id.as_str(), r.refund_status), ("act_r", RefundStatus::Success));
    assert_eq!(checkout.handle_refund_response(201, refund()).unwrap().refund_status, RefundStatus::Failure);
    let data = CaptureData {
        connector_transaction_id: "pay_1".to_string(),
        minor_amount_to_capture: MinorUnit(10),
        currency: Currency::USD,
    };
    let cap = || Some(PaymentCaptureResponse { action_id: "act_c".to_string(), reference: None });
    let (status, resp) = checkout.handle_capture_response(&data, 202, cap()).unwrap();
    assert_eq!(status, AttemptStatus::Charged);
    assert_eq!(
        resp,
        PaymentsResponseData::TransactionResponse {
            resource_id: "pay_1".to_string(),
            connector_response_reference_id: None,
            connector_status: None,
        }
    );
    assert_eq!(checkout.handle_capture_response(&data, 200, cap()).unwrap().0, AttemptStatus::Pending);
    assert_eq!(checkout.handle_void_response(202, None), Err(ConnectorError::ResponseDeserializationFailed));
}

#[test]
fn token_upload_and_authorize_results() {
    let checkout = Checkout::new();
    assert_eq!(
        checkout.handle_tokenize_response(Some(CheckoutTokenResponse { token: "tok_1".to_string() })),
        Ok(PaymentsResponseData::TokenizationResponse { token: "tok_1".to_string() })
    );
    let up = checkout.handle_upload_file_response(Some(FileUploadResponse { file_id: "file_1".to_string() }));
    assert_eq!(up.unwrap().provider_file_id, "file_1");
    assert_eq!(checkout.handle_upload_file_response(None), Err(ConnectorError::ResponseDeserializationFailed));
    let auth = checkout.handle_authorize_response(Some(payment())).unwrap();
    assert!(matches!(auth, PaymentsResponseData::TransactionResponse { ref resource_id, .. } if resource_id == "pay_1"));
    assert_eq!(checkout.handle_authorize_response(None), Err(ConnectorError::ResponseDeserializationFailed));
}
