//! Flow-tagged requests that the engine hands to a connector, and the outbound
//! request descriptor a connector builds from them.
use vstd::prelude::*;

use crate::amount::MinorUnit;
use crate::types::{ConnectorAuthType, ConnectorError, Currency, Header, Method};

verus! {

/// The operation kinds a connector can be asked to perform.
#[derive(Debug, Clone, Copy, PartialEq, Eq, Structural)]
pub enum Flow {
    Authorize,
    Capture,
    Void,
    PaymentSync,
    RefundExecute,
    RefundSync,
    AccessTokenAuth,
    SetupMandate,
    Tokenize,
    Session,
    DisputeAccept,
    DisputeDefend,
    SubmitEvidence,
    UploadFile,
    RetrieveFile,
}

impl Flow {
    pub open spec fn spec_name(self) -> Seq<char> {
        match self {
            Flow::Authorize => "Authorize"@,
            Flow::Capture => "Capture"@,
            Flow::Void => "Void"@,
            Flow::PaymentSync => "PaymentSync"@,
            Flow::RefundExecute => "RefundExecute"@,
            Flow::RefundSync => "RefundSync"@,
            Flow::AccessTokenAuth => "AccessTokenAuth"@,
            Flow::SetupMandate => "SetupMandate"@,
            Flow::Tokenize => "Tokenize"@,
            Flow::Session => "Session"@,
            Flow::DisputeAccept => "DisputeAccept"@,
            Flow::DisputeDefend => "DisputeDefend"@,
            Flow::SubmitEvidence => "SubmitEvidence"@,
            Flow::UploadFile => "UploadFile"@,
            Flow::RetrieveFile => "RetrieveFile"@,
        }
    }

    /// The flow's name.
    pub fn name(&self) -> (r: &'static str)
        ensures
            r@ == self.spec_name(),
    {
        match self {
            Flow::Authorize => "Authorize",
            Flow::Capture => "Capture",
            Flow::Void => "Void",
            Flow::PaymentSync => "PaymentSync",
            Flow::RefundExecute => "RefundExecute",
            Flow::RefundSync => "RefundSync",
            Flow::AccessTokenAuth => "AccessTokenAuth",
            Flow::SetupMandate => "SetupMandate",
            Flow::Tokenize => "Tokenize",
            Flow::Session => "Session",
            Flow::DisputeAccept => "DisputeAccept",
            Flow::DisputeDefend => "DisputeDefend",
            Flow::SubmitEvidence => "SubmitEvidence",
            Flow::UploadFile => "UploadFile",
            Flow::RetrieveFile => "RetrieveFile",
        }
    }
}

/// Data of an authorization.
#[derive(Debug, Clone, PartialEq, Eq)]
pub struct AuthorizeData {
    pub minor_amount: MinorUnit,
    pub currency: Currency,
}

/// Data of a capture of an authorized payment.
#[derive(Debug, Clone, PartialEq, Eq)]
pub struct CaptureData {
    pub connector_transaction_id: String,
    pub minor_amount_to_capture: MinorUnit,
    pub currency: Currency,
}

/// Data of a void.
#[derive(Debug, Clone, PartialEq, Eq)]
pub struct CancelData {
    pub connector_transaction_id: String,
}

/// How the engine knows the processor's payment.
#[derive(Debug, Clone, PartialEq, Eq)]
pub enum ResponseId {
    ConnectorTransactionId(String),
    EncodedData(String),
    NoResponseId,
}

impl ResponseId {
    /// The processor's transaction id, when the engine holds one.
    pub fn get_connector_transaction_id(&self) -> (r: Result<String, ConnectorError>)
        ensures
            match self {
                ResponseId::ConnectorTransactionId(id) => r matches Ok(s) && s@ == id@,
                _ => r == Err::<String, ConnectorError>(ConnectorError::MissingConnectorTransactionID),
            },
    {
        match self {
            ResponseId::ConnectorTransactionId(id) => Ok(id.clone()),
            _ => Err(ConnectorError::MissingConnectorTransactionID),
        }
    }
}

/// Whether a sync asks about the payment or about each of several captures.
#[derive(Debug, Clone, PartialEq, Eq)]
pub enum SyncRequestType {
    MultipleCaptureSync(Vec<String>),
    SinglePaymentSync,
}

/// Data of a payment sync.
#[derive(Debug, Clone, PartialEq, Eq)]
pub struct SyncData {
    pub connector_transaction_id: ResponseId,
    pub sync_type: SyncRequestType,
}

/// Data of a refund or of a refund sync.
#[derive(Debug, Clone, PartialEq, Eq)]
pub struct RefundsData {
    pub connector_transaction_id: String,
    pub minor_refund_amount: MinorUnit,
    pub currency: Currency,
    pub connector_refund_id: Option<String>,
}

/// Data of a dispute flow (accept, defend, evidence).
#[derive(Debug, Clone, PartialEq, Eq)]
pub struct DisputeData {
    pub connector_dispute_id: String,
}

/// Data of a file upload.
#[derive(Debug, Clone, PartialEq, Eq)]
pub struct UploadFileData {
    pub file_key: String,
    pub file: Vec<u8>,
    pub file_type: String,
    pub file_size: i32,
}

/// A request of one flow, with that flow's data.
#[derive(Debug, Clone, PartialEq, Eq)]
pub enum FlowRequest {
    Authorize(AuthorizeData),
    Capture(CaptureData),
    Void(CancelData),
    PaymentSync(SyncData),
    RefundExecute(RefundsData),
    RefundSync(RefundsData),
    AccessTokenAuth,
    SetupMandate,
    Tokenize,
    Session,
    DisputeAccept(DisputeData),
    DisputeDefend(DisputeData),
    SubmitEvidence(DisputeData),
    UploadFile(UploadFileData),
    RetrieveFile,
}

impl FlowRequest {
    pub open spec fn spec_flow(self) -> Flow {
        match self {
            FlowRequest::Authorize(_) => Flow::Authorize,
            FlowRequest::Capture(_) => Flow::Capture,
            FlowRequest::Void(_) => Flow::Void,
            FlowRequest::PaymentSync(_) => Flow::PaymentSync,
            FlowRequest::RefundExecute(_) => Flow::RefundExecute,
            FlowRequest::RefundSync(_) => Flow::RefundSync,
            FlowRequest::AccessTokenAuth => Flow::AccessTokenAuth,
            FlowRequest::SetupMandate => Flow::SetupMandate,
            FlowRequest::Tokenize => Flow::Tokenize,
            FlowRequest::Session => Flow::Session,
            FlowRequest::DisputeAccept(_) => Flow::DisputeAccept,
            FlowRequest::DisputeDefend(_) => Flow::DisputeDefend,
            FlowRequest::SubmitEvidence(_) => Flow::SubmitEvidence,
            FlowRequest::UploadFile(_) => Flow::UploadFile,
            FlowRequest::RetrieveFile => Flow::RetrieveFile,
        }
    }

    /// The flow this request belongs to.
    pub fn flow(&self) -> (r: Flow)
        ensures
            r == self.spec_flow(),
    {
        match self {
            FlowRequest::Authorize(_) => Flow::Authorize,
            FlowRequest::Capture(_) => Flow::Capture,
            FlowRequest::Void(_) => Flow::Void,
            FlowRequest::PaymentSync(_) => Flow::PaymentSync,
            FlowRequest::RefundExecute(_) => Flow::RefundExecute,
            FlowRequest::RefundSync(_) => Flow::RefundSync,
            FlowRequest::AccessTokenAuth => Flow::AccessTokenAuth,
            FlowRequest::SetupMandate => Flow::SetupMandate,
            FlowRequest::Tokenize => Flow::Tokenize,
            FlowRequest::Session => Flow::Session,
            FlowRequest::DisputeAccept(_) => Flow::DisputeAccept,
            FlowRequest::DisputeDefend(_) => Flow::DisputeDefend,
            FlowRequest::SubmitEvidence(_) => Flow::SubmitEvidence,
            FlowRequest::UploadFile(_) => Flow::UploadFile,
            FlowRequest::RetrieveFile => Flow::RetrieveFile,
        }
    }
}

/// What the engine hands a connector for one call: the flow's request and the
/// merchant's credentials.
#[derive(Debug, Clone, PartialEq, Eq)]
pub struct RouterData {
    pub request: FlowRequest,
    pub connector_auth_type: ConnectorAuthType,
}

/// A JSON payload: the flow and the values this layer settles for it (amounts
/// already converted for the processor).
#[derive(Debug, Clone, PartialEq, Eq)]
pub enum JsonPayload {
    Payment { amount: MinorUnit, currency: Currency },
    Capture { amount: MinorUnit, currency: Currency },
    Void { reference: String },
    Refund { amount: MinorUnit, currency: Currency },
    Token,
    Evidence { connector_dispute_id: String },
}

/// The parts of a multipart file upload.
#[derive(Debug, Clone, PartialEq, Eq)]
pub struct FileUploadForm {
    pub purpose: String,
    pub file_key: String,
    pub file_type: String,
    pub file: Vec<u8>,
}

/// The body of an outbound request.
#[derive(Debug, Clone, PartialEq, Eq)]
pub enum RequestBody {
    Json(JsonPayload),
    FormData(FileUploadForm),
}

/// An outbound request for the transport to execute.
#[derive(Debug, Clone, PartialEq, Eq)]
pub struct Request {
    pub method: Method,
    pub url: String,
    pub headers: Vec<Header>,
    pub body: Option<RequestBody>,
}

} // verus!
