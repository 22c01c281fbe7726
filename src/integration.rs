//! The processor's side of each flow's request: headers, URL, body, and the
//! assembled outbound request.
use vstd::prelude::*;

use crate::amount::to_connector_amount;
use crate::checkout::{
    auth_headers, bearer, content_type, headers_result_view, json_auth_headers, public_key, secret_key,
    CheckoutAuthType, Checkout, Connectors,
};
use crate::flows::{
    FileUploadForm, Flow, FlowRequest, JsonPayload, Request, RequestBody, RouterData, SyncRequestType,
};
use crate::types::{header_views, ConnectorError, ConnectorErrorView, Header, HeaderView, Method};

verus! {

/// The failure for a flow this processor does not implement.
pub open spec fn unsupported_flow(flow: Flow) -> ConnectorErrorView {
    if flow == Flow::SetupMandate {
        ConnectorErrorView::NotImplemented("Setup Mandate flow for Checkout"@)
    } else {
        ConnectorErrorView::NotImplemented(flow.spec_name())
    }
}

/// The flows this processor implements.
pub open spec fn is_supported(req: FlowRequest) -> bool {
    match req {
        FlowRequest::AccessTokenAuth | FlowRequest::SetupMandate | FlowRequest::Session
        | FlowRequest::RetrieveFile => false,
        _ => true,
    }
}

/// The URL of a flow's request under `base`.
pub open spec fn flow_url(base: Seq<char>, req: FlowRequest) -> Result<Seq<char>, ConnectorErrorView> {
    match req {
        FlowRequest::Authorize(_) => Ok(base + "payments"@),
        FlowRequest::Capture(d) => Ok(base + "payments/"@ + d.connector_transaction_id@ + "/captures"@),
        FlowRequest::Void(d) => Ok(base + "payments/"@ + d.connector_transaction_id@ + "/voids"@),
        FlowRequest::PaymentSync(d) => match d.connector_transaction_id {
            crate::flows::ResponseId::ConnectorTransactionId(id) => Ok(
                base + "payments/"@ + id@ + match d.sync_type {
                    SyncRequestType::MultipleCaptureSync(_) => "/actions"@,
                    SyncRequestType::SinglePaymentSync => Seq::<char>::empty(),
                },
            ),
            _ => Err(ConnectorErrorView::MissingConnectorTransactionID),
        },
        FlowRequest::RefundExecute(d) => Ok(base + "payments/"@ + d.connector_transaction_id@ + "/refunds"@),
        FlowRequest::RefundSync(d) => Ok(base + "/payments/"@ + d.connector_transaction_id@ + "/actions"@),
        FlowRequest::Tokenize => Ok(base + "tokens"@),
        FlowRequest::DisputeAccept(d) => Ok(base + "disputes/"@ + d.connector_dispute_id@ + "/accept"@),
        FlowRequest::DisputeDefend(d) => Ok(base + "disputes/"@ + d.connector_dispute_id@ + "/evidence"@),
        FlowRequest::SubmitEvidence(d) => Ok(base + "disputes/"@ + d.connector_dispute_id@ + "/evidence"@),
        FlowRequest::UploadFile(_) => Ok(base + "files"@),
        _ => Err(unsupported_flow(req.spec_flow())),
    }
}

/// The headers of a flow's request: tokenization authenticates with the public
/// key, file upload sends the secret key alone, every other flow sends the JSON
/// content type and the secret key.
pub open spec fn flow_headers(
    auth: crate::types::ConnectorAuthType,
    req: FlowRequest,
) -> Result<Seq<HeaderView>, ConnectorErrorView> {
    if !is_supported(req) {
        Err(unsupported_flow(req.spec_flow()))
    } else {
        match req {
            FlowRequest::Tokenize => json_auth_headers(public_key(auth)),
            FlowRequest::UploadFile(_) => auth_headers(secret_key(auth)),
            _ => json_auth_headers(secret_key(auth)),
        }
    }
}

/// The HTTP method of a flow's request.
pub open spec fn flow_method(req: FlowRequest) -> Method {
    match req {
        FlowRequest::PaymentSync(_) | FlowRequest::RefundSync(_) => Method::Get,
        FlowRequest::SubmitEvidence(_) => Method::Put,
        _ => Method::Post,
    }
}

/// `body` is what a flow's request carries: amounts converted for the
/// processor, a multipart form for a file, nothing for syncs and for
/// accepting or defending a dispute.
pub open spec fn flow_body(req: FlowRequest, body: Option<RequestBody>) -> bool {
    match req {
        FlowRequest::Authorize(d) => body == Some(
            RequestBody::Json(
                JsonPayload::Payment {
                    amount: to_connector_amount(d.minor_amount, d.currency),
                    currency: d.currency,
                },
            ),
        ),
        FlowRequest::Capture(d) => body == Some(
            RequestBody::Json(
                JsonPayload::Capture {
                    amount: to_connector_amount(d.minor_amount_to_capture, d.currency),
                    currency: d.currency,
                },
            ),
        ),
        FlowRequest::Void(d) => (body matches Some(RequestBody::Json(JsonPayload::Void { reference })) && reference@
            == d.connector_transaction_id@),
        FlowRequest::RefundExecute(d) => body == Some(
            RequestBody::Json(
                JsonPayload::Refund {
                    amount: to_connector_amount(d.minor_refund_amount, d.currency),
                    currency: d.currency,
                },
            ),
        ),
        FlowRequest::Tokenize => body == Some(RequestBody::Json(JsonPayload::Token)),
        FlowRequest::SubmitEvidence(d) => (body matches Some(
            RequestBody::Json(JsonPayload::Evidence { connector_dispute_id }),
        ) && connector_dispute_id@ == d.connector_dispute_id@),
        FlowRequest::UploadFile(d) => (body matches Some(RequestBody::FormData(f)) && f.purpose@
            == "dispute_evidence"@ && f.file_key@ == d.file_key@ && f.file_type@ == d.file_type@ && f.file@
            == d.file@),
        FlowRequest::PaymentSync(_) | FlowRequest::RefundSync(_) | FlowRequest::DisputeAccept(_)
        | FlowRequest::DisputeDefend(_) => body is None,
        _ => false,
    }
}

fn unsupported(flow: Flow) -> (e: ConnectorError)
    ensures
        e@ == unsupported_flow(flow),
{
    if flow == Flow::SetupMandate {
        ConnectorError::NotImplemented(String::from_str("Setup Mandate flow for Checkout"))
    } else {
        ConnectorError::NotImplemented(String::from_str(flow.name()))
    }
}

impl Checkout {
    /// The JSON content type and the secret-key authorization header, shared
    /// by most flows.
    pub fn build_headers(&self, req: &RouterData, connectors: &Connectors) -> (r: Result<
        Vec<Header>,
        ConnectorError,
    >)
        ensures
            headers_result_view(r) == json_auth_headers(secret_key(req.connector_auth_type)),
    {
        let mut header = vec![content_type(self.common_get_content_type())];
        let auth = CheckoutAuthType::from_auth_type(&req.connector_auth_type)?;
        let mut api_key = vec![bearer(&auth.api_secret)];
        header.append(&mut api_key);
        assert(header_views(header@) =~= json_auth_headers(secret_key(req.connector_auth_type))->Ok_0);
        Ok(header)
    }

    /// The content type of a flow's body.
    pub fn get_content_type(&self, req: &FlowRequest) -> (r: &'static str)
        ensures
            r@ == (if req is UploadFile {
                "multipart/form-data"@
            } else {
                "application/json"@
            }),
    {
        match req {
            FlowRequest::UploadFile(_) => "multipart/form-data",
            _ => self.common_get_content_type(),
        }
    }

    /// The headers of a flow's request.
    pub fn get_headers(&self, req: &RouterData, connectors: &Connectors) -> (r: Result<
        Vec<Header>,
        ConnectorError,
    >)
        ensures
            headers_result_view(r) == flow_headers(req.connector_auth_type, req.request),
    {
        match &req.request {
            FlowRequest::AccessTokenAuth | FlowRequest::SetupMandate | FlowRequest::Session
            | FlowRequest::RetrieveFile => Err(unsupported(req.request.flow())),
            FlowRequest::Tokenize => {
                let mut header = vec![content_type(self.common_get_content_type())];
                let auth = CheckoutAuthType::from_auth_type(&req.connector_auth_type)?;
                let mut key = vec![bearer(&auth.api_key)];
                header.append(&mut key);
                assert(header_views(header@) =~= json_auth_headers(public_key(req.connector_auth_type))->Ok_0);
                Ok(header)
            },
            FlowRequest::UploadFile(_) => self.get_auth_header(&req.connector_auth_type),
            _ => self.build_headers(req, connectors),
        }
    }

    /// The URL of a flow's request.
    pub fn get_url(&self, req: &RouterData, connectors: &Connectors) -> (r: Result<String, ConnectorError>)
        ensures
            crate::types::result_view(r) == flow_url(connectors.checkout.base_url@, req.request),
    {
        let base = String::from_str(self.base_url(connectors));
        match &req.request {
            FlowRequest::Authorize(_) => Ok(base.concat("payments")),
            FlowRequest::Capture(d) => Ok(
                base.concat("payments/").concat(d.connector_transaction_id.as_str()).concat("/captures"),
            ),
            FlowRequest::Void(d) => Ok(
                base.concat("payments/").concat(d.connector_transaction_id.as_str()).concat("/voids"),
            ),
            FlowRequest::PaymentSync(d) => {
                let suffix = match d.sync_type {
                    SyncRequestType::MultipleCaptureSync(_) => "/actions",
                    SyncRequestType::SinglePaymentSync => "",
                };
                proof {
                    reveal_strlit("");
                }
                let id = d.connector_transaction_id.get_connector_transaction_id()?;
                Ok(base.concat("payments/").concat(id.as_str()).concat(suffix))
            },
            FlowRequest::RefundExecute(d) => Ok(
                base.concat("payments/").concat(d.connector_transaction_id.as_str()).concat("/refunds"),
            ),
            FlowRequest::RefundSync(d) => Ok(
                base.concat("/payments/").concat(d.connector_transaction_id.as_str()).concat("/actions"),
            ),
            FlowRequest::Tokenize => Ok(base.concat("tokens")),
            FlowRequest::DisputeAccept(d) => Ok(
                base.concat("disputes/").concat(d.connector_dispute_id.as_str()).concat("/accept"),
            ),
            FlowRequest::DisputeDefend(d) => Ok(
                base.concat("disputes/").concat(d.connector_dispute_id.as_str()).concat("/evidence"),
            ),
            FlowRequest::SubmitEvidence(d) => Ok(
                base.concat("disputes/").concat(d.connector_dispute_id.as_str()).concat("/evidence"),
            ),
            FlowRequest::UploadFile(_) => Ok(base.concat("files")),
            _ => Err(unsupported(req.request.flow())),
        }
    }

    /// The body of a flow's request; `None` for flows that send none.
    pub fn get_request_body(&self, req: &RouterData, connectors: &Connectors) -> (r: Result<
        Option<RequestBody>,
        ConnectorError,
    >)
        ensures
            is_supported(req.request) ==> (r matches Ok(b) && flow_body(req.request, b)),
            !is_supported(req.request) ==> (r matches Err(e) && e@ == unsupported_flow(req.request.spec_flow())),
    {
        let converter = self.amount_converter();
        match &req.request {
            FlowRequest::Authorize(d) => {
                let amount = converter.convert(d.minor_amount, d.currency);
                Ok(Some(RequestBody::Json(JsonPayload::Payment { amount, currency: d.currency })))
            },
            FlowRequest::Capture(d) => {
                let amount = converter.convert(d.minor_amount_to_capture, d.currency);
                Ok(Some(RequestBody::Json(JsonPayload::Capture { amount, currency: d.currency })))
            },
            FlowRequest::Void(d) => Ok(
                Some(RequestBody::Json(JsonPayload::Void { reference: d.connector_transaction_id.clone() })),
            ),
            FlowRequest::RefundExecute(d) => {
                let amount = converter.convert(d.minor_refund_amount, d.currency);
                Ok(Some(RequestBody::Json(JsonPayload::Refund { amount, currency: d.currency })))
            },
            FlowRequest::Tokenize => Ok(Some(RequestBody::Json(JsonPayload::Token))),
            FlowRequest::SubmitEvidence(d) => Ok(
                Some(
                    RequestBody::Json(
                        JsonPayload::Evidence { connector_dispute_id: d.connector_dispute_id.clone() },
                    ),
                ),
            ),
            FlowRequest::UploadFile(d) => {
                let form = FileUploadForm {
                    purpose: String::from_str("dispute_evidence"),
                    file_key: d.file_key.clone(),
                    file_type: d.file_type.clone(),
                    file: vstd::slice::slice_to_vec(d.file.as_slice()),
                };
                Ok(Some(RequestBody::FormData(form)))
            },
            FlowRequest::PaymentSync(_) | FlowRequest::RefundSync(_) | FlowRequest::DisputeAccept(_)
            | FlowRequest::DisputeDefend(_) => Ok(None),
            _ => Err(unsupported(req.request.flow())),
        }
    }

    /// The HTTP method of a flow's request.
    pub fn get_method(&self, req: &FlowRequest) -> (r: Method)
        ensures
            r == flow_method(*req),
    {
        match req {
            FlowRequest::PaymentSync(_) | FlowRequest::RefundSync(_) => Method::Get,
            FlowRequest::SubmitEvidence(_) => Method::Put,
            _ => Method::Post,
        }
    }

    /// Assembles a flow's outbound request: method, URL, the flow's headers
    /// and its body. Nothing is sent.
    pub fn build_request(&self, req: &RouterData, connectors: &Connectors) -> (r: Result<
        Option<Request>,
        ConnectorError,
    >)
        ensures
            match flow_url(connectors.checkout.base_url@, req.request) {
                Err(e) => (r matches Err(x) && x@ == e),
                Ok(u) => match flow_headers(req.connector_auth_type, req.request) {
                    Err(e) => (r matches Err(x) && x@ == e),
                    Ok(h) => (r matches Ok(Some(q)) && q.method == flow_method(req.request) && q.url@ == u
                        && header_views(q.headers@) == h && flow_body(
                        req.request,
                        q.body,
                    )),
                },
            },
    {
        let url = self.get_url(req, connectors)?;
        let headers = self.get_headers(req, connectors)?;
        let body = self.get_request_body(req, connectors)?;
        let method = self.get_method(&req.request);
        Ok(Some(Request { method, url, headers, body }))
    }
}

} // verus!
