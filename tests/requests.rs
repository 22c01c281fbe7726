use checkout_connector::amount::MinorUnit;
use checkout_connector::checkout::{Checkout, ConnectorParams, Connectors};
use checkout_connector::flows::{
    AuthorizeData, CancelData, CaptureData, DisputeData, FlowRequest, JsonPayload, RefundsData, RequestBody,
    ResponseId, RouterData, SyncData, SyncRequestType, UploadFileData,
};
use checkout_connector::types::{ConnectorAuthType, ConnectorError, Currency, Header, Method};

fn connectors() -> Connectors {
    Connectors { checkout: ConnectorParams { base_url: "https://api.example.test/".to_string() } }
}

fn signature_key() -> ConnectorAuthType {
    ConnectorAuthType::SignatureKey {
        api_key: "pk_test".to_string(),
        key1: "pc_channel".to_string(),
        api_secret: "sk_test".to_string(),
    }
}

fn router(request: FlowRequest) -> RouterData {
    RouterData { request, connector_auth_type: signature_key() }
}

fn header(name: &str, value: &str, masked: bool) -> Header {
    Header { name: name.to_string(), value: value.to_string(), masked }
}

fn url_of(request: FlowRequest) -> Result<String, ConnectorError> {
    Checkout::new().get_url(&router(request), &connectors())
}

#[test]
fn flow_urls() {
    let txn = || "pay_1".to_string();
    assert_eq!(
        url_of(FlowRequest::Authorize(AuthorizeData { minor_amount: MinorUnit(10), currency: Currency::USD })),
        Ok("https://api.example.test/payments".to_string())
    );
    assert_eq!(
        url_of(FlowRequest::Capture(CaptureData {
            connector_transaction_id: txn(),
            minor_amount_to_capture: MinorUnit(5),
            currency: Currency::EUR,
        })),
        Ok("https://api.example.test/payments/pay_1/captures".to_string())
    );
    assert_eq!(
        url_of(FlowRequest::Void(CancelData { connector_transaction_id: txn() })),
        Ok("https://api.example.test/payments/pay_1/voids".to_string())
    );
    let refund = RefundsData {
        connector_transaction_id: txn(),
        minor_refund_amount: MinorUnit(3),
        currency: Currency::GBP,
        connector_refund_id: None,
    };
    assert_eq!(
        url_of(FlowRequest::RefundExecute(refund.clone())),
        Ok("https://api.example.test/payments/pay_1/refunds".to_string())
    );
    assert_eq!(
        url_of(FlowRequest::RefundSync(refund)),
        Ok("https://api.example.test//payments/pay_1/actions".to_string())
    );
    assert_eq!(url_of(FlowRequest::Tokenize), Ok("https://api.example.test/tokens".to_string()));
    let dispute = || DisputeData { connector_dispute_id: "dsp_9".to_string() };
    assert_eq!(
        url_of(FlowRequest::DisputeAccept(dispute())),
        Ok("https://api.example.test/disputes/dsp_9/accept".to_string())
    );
    assert_eq!(
        url_of(FlowRequest::DisputeDefend(dispute())),
        Ok("https://api.example.test/disputes/dsp_9/evidence".to_string())
    );
    assert_eq!(
        url_of(FlowRequest::SubmitEvidence(dispute())),
        Ok("https://api.example.test/disputes/dsp_9/evidence".to_string())
    );
}

#[test]
fn payment_sync_url_depends_on_sync_type() {
    let single = SyncData {
        connector_transaction_id: ResponseId::ConnectorTransactionId("pay_2".to_string()),
        sync_type: SyncRequestType::SinglePaymentSync,
    };
    assert_eq!(url_of(FlowRequest::PaymentSync(single)), Ok("https://api.example.test/payments/pay_2".to_string()));
    let multi = SyncData {
        connector_transaction_id: ResponseId::ConnectorTransactionId("pay_2".to_string()),
        sync_type: SyncRequestType::MultipleCaptureSync(vec!["cap_1".to_string()]),
    };
    assert_eq!(
        url_of(FlowRequest::PaymentSync(multi)),
        Ok("https://api.example.test/payments/pay_2/actions".to_string())
    );
    let missing = SyncData { connector_transaction_id: ResponseId::NoResponseId, sync_type: SyncRequestType::SinglePaymentSync };
    assert_eq!(url_of(FlowRequest::PaymentSync(missing)), Err(ConnectorError::MissingConnectorTransactionID));
}

#[test]
fn unsupported_flows_are_not_implemented() {
    let checkout = Checkout::new();
    assert_eq!(url_of(FlowRequest::Session), Err(ConnectorError::NotImplemented("Session".to_string())));
    assert_eq!(
        checkout.build_request(&router(FlowRequest::AccessTokenAuth), &connectors()),
        Err(ConnectorError::NotImplemented("AccessTokenAuth".to_string()))
    );
    assert_eq!(
        checkout.build_request(&router(FlowRequest::RetrieveFile), &connectors()),
        Err(ConnectorError::NotImplemented("RetrieveFile".to_string()))
    );
    assert_eq!(
        checkout.build_request(&router(FlowRequest::SetupMandate), &connectors()),
        Err(ConnectorError::NotImplemented("Setup Mandate flow for Checkout".to_string()))
    );
}

#[test]
fn auth_header_needs_signature_key() {
    let checkout = Checkout::new();
    assert_eq!(
        checkout.get_auth_header(&signature_key()),
        Ok(vec![header("Authorization", "Bearer sk_test", true)])
    );
    assert_eq!(
        checkout.get_auth_header(&ConnectorAuthType::HeaderKey { api_key: "k".to_string() }),
        Err(ConnectorError::FailedToObtainAuthType)
    );
    assert_eq!(checkout.get_auth_header(&ConnectorAuthType::NoKey), Err(ConnectorError::FailedToObtainAuthType));
}

#[test]
fn flow_headers() {
    let checkout = Checkout::new();
    let json = header("Content-Type", "application/json", false);
    assert_eq!(
        checkout.get_headers(&router(FlowRequest::Tokenize), &connectors()),
        Ok(vec![json.clone(), header("Authorization", "Bearer pk_test", true)])
    );
    let upload = FlowRequest::UploadFile(UploadFileData {
        file_key: "evidence_1".to_string(),
        file: vec![1, 2, 3],
        file_type: "application/pdf".to_string(),
        file_size: 3,
    });
    assert_eq!(
        checkout.get_headers(&router(upload.clone()), &connectors()),
        Ok(vec![header("Authorization", "Bearer sk_test", true)])
    );
    assert_eq!(checkout.get_content_type(&upload), "multipart/form-data");
    assert_eq!(checkout.get_content_type(&FlowRequest::Tokenize), "application/json");
    let accept = router(FlowRequest::DisputeAccept(DisputeData { connector_dispute_id: "d".to_string() }));
    assert_eq!(
        checkout.get_headers(&accept, &connectors()),
        Ok(vec![json, header("Authorization", "Bearer sk_test", true)])
    );
    let bad = RouterData {
        request: FlowRequest::Tokenize,
        connector_auth_type: ConnectorAuthType::BodyKey { api_key: "a".to_string(), key1: "b".to_string() },
    };
    assert_eq!(checkout.get_headers(&bad, &connectors()), Err(ConnectorError::FailedToObtainAuthType));
}

#[test]
fn capture_request_carries_converted_amount() {
    let checkout = Checkout::new();
    let req = router(FlowRequest::Capture(CaptureData {
        connector_transaction_id: "pay_7".to_string(),
        minor_amount_to_capture: MinorUnit(1050),
        currency: Currency::USD,
    }));
    let built = checkout.build_request(&req, &connectors()).unwrap().unwrap();
    assert_eq!(built.method, Method::Post);
    assert_eq!(built.url, "https://api.example.test/payments/pay_7/captures");
    assert_eq!(
        built.headers,
        vec![
            header("Content-Type", "application/json", false),
            header("Authorization", "Bearer sk_test", true),
        ]
    );
    assert_eq!(
        built.body,
        Some(RequestBody::Json(JsonPayload::Capture { amount: MinorUnit(1050), currency: Currency::USD }))
    );
}

#[test]
fn sync_and_evidence_requests() {
    let checkout = Checkout::new();
    let sync = router(FlowRequest::PaymentSync(SyncData {
        connector_transaction_id: ResponseId::ConnectorTransactionId("pay_3".to_string()),
        sync_type: SyncRequestType::SinglePaymentSync,
    }));
    let built = checkout.build_request(&sync, &connectors()).unwrap().unwrap();
    assert_eq!(built.method, Method::Get);
    assert_eq!(built.body, None);
    let evidence = router(FlowRequest::SubmitEvidence(DisputeData { connector_dispute_id: "dsp_1".to_string() }));
    let built = checkout.build_request(&evidence, &connectors()).unwrap().unwrap();
    assert_eq!(built.method, Method::Put);
    assert_eq!(
        built.body,
        Some(RequestBody::Json(JsonPayload::Evidence { connector_dispute_id: "dsp_1".to_string() }))
    );
    let missing_key = RouterData { request: sync.request.clone(), connector_auth_type: ConnectorAuthType::NoKey };
    assert_eq!(checkout.build_request(&missing_key, &connectors()), Err(ConnectorError::FailedToObtainAuthType));
}

#[test]
fn upload_request_is_multipart() {
    let checkout = Checkout::new();
    let req = router(FlowRequest::UploadFile(UploadFileData {
        file_key: "evidence_2".to_string(),
        file: vec![37, 80, 68, 70],
        file_type: "application/pdf".to_string(),
        file_size: 4,
    }));
    let built = checkout.build_request(&req, &connectors()).unwrap().unwrap();
    assert_eq!(built.url, "https://api.example.test/files");
    match built.body {
        Some(RequestBody::FormData(form)) => {
            assert_eq!(form.purpose, "dispute_evidence");
            assert_eq!(form.file_key, "evidence_2");
            assert_eq!(form.file_type, "application/pdf");
            assert_eq!(form.file, vec![37, 80, 68, 70]);
        }
        other => panic!("unexpected body {:?}", other),
    }
}
