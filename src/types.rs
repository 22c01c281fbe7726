//! Canonical, processor-agnostic types exchanged between the orchestration
//! engine and a connector.
use vstd::prelude::*;

verus! {

/// Failures that a connector reports to the orchestration engine.
#[derive(Debug, Clone, PartialEq, Eq)]
pub enum ConnectorError {
    FailedToObtainAuthType,
    ResponseDeserializationFailed,
    ResponseHandlingFailed,
    NotImplemented(String),
    FileValidationFailed { reason: String },
    WebhookSignatureNotFound,
    WebhookReferenceIdNotFound,
    WebhookEventTypeNotFound,
    WebhookBodyDecodingFailed,
    MissingConnectorTransactionID,
}

/// The mathematical form of a [`ConnectorError`].
pub enum ConnectorErrorView {
    FailedToObtainAuthType,
    ResponseDeserializationFailed,
    ResponseHandlingFailed,
    NotImplemented(Seq<char>),
    FileValidationFailed { reason: Seq<char> },
    WebhookSignatureNotFound,
    WebhookReferenceIdNotFound,
    WebhookEventTypeNotFound,
    WebhookBodyDecodingFailed,
    MissingConnectorTransactionID,
}

impl View for ConnectorError {
    type V = ConnectorErrorView;

    open spec fn view(&self) -> ConnectorErrorView {
        match self {
            ConnectorError::FailedToObtainAuthType => ConnectorErrorView::FailedToObtainAuthType,
            ConnectorError::ResponseDeserializationFailed => ConnectorErrorView::ResponseDeserializationFailed,
            ConnectorError::ResponseHandlingFailed => ConnectorErrorView::ResponseHandlingFailed,
            ConnectorError::NotImplemented(m) => ConnectorErrorView::NotImplemented(m@),
            ConnectorError::FileValidationFailed { reason } => ConnectorErrorView::FileValidationFailed {
                reason: reason@,
            },
            ConnectorError::WebhookSignatureNotFound => ConnectorErrorView::WebhookSignatureNotFound,
            ConnectorError::WebhookReferenceIdNotFound => ConnectorErrorView::WebhookReferenceIdNotFound,
            ConnectorError::WebhookEventTypeNotFound => ConnectorErrorView::WebhookEventTypeNotFound,
            ConnectorError::WebhookBodyDecodingFailed => ConnectorErrorView::WebhookBodyDecodingFailed,
            ConnectorError::MissingConnectorTransactionID => ConnectorErrorView::MissingConnectorTransactionID,
        }
    }
}

/// The view of a result that carries a value of view `T` on success.
pub open spec fn result_view<T: View>(r: Result<T, ConnectorError>) -> Result<T::V, ConnectorErrorView> {
    match r {
        Ok(v) => Ok(v@),
        Err(e) => Err(e@),
    }
}

/// Retry-relevant classes of upstream error codes.
#[derive(Debug, Clone, Copy, PartialEq, Eq, Structural)]
pub enum ConnectorErrorType {
    UnknownError,
    UserError,
    BusinessError,
    TechnicalError,
}

impl ConnectorErrorType {
    /// Position in the priority order: a lower rank is surfaced first.
    pub open spec fn rank(self) -> int {
        match self {
            ConnectorErrorType::UnknownError => 1,
            ConnectorErrorType::UserError => 2,
            ConnectorErrorType::BusinessError => 3,
            ConnectorErrorType::TechnicalError => 4,
        }
    }

    pub fn priority_rank(&self) -> (r: u8)
        ensures
            r as int == self.rank(),
    {
        match self {
            ConnectorErrorType::UnknownError => 1,
            ConnectorErrorType::UserError => 2,
            ConnectorErrorType::BusinessError => 3,
            ConnectorErrorType::TechnicalError => 4,
        }
    }
}

/// Status of a payment attempt, as far as this connector reports it.
#[derive(Debug, Clone, Copy, PartialEq, Eq, Structural)]
pub enum AttemptStatus {
    Authorized,
    Charged,
    Failure,
    Pending,
    Voided,
    VoidFailed,
}

/// Status of a refund.
#[derive(Debug, Clone, Copy, PartialEq, Eq, Structural)]
pub enum RefundStatus {
    Success,
    Failure,
    Pending,
}

/// Status of a dispute.
#[derive(Debug, Clone, Copy, PartialEq, Eq, Structural)]
pub enum DisputeStatus {
    DisputeOpened,
    DisputeExpired,
    DisputeAccepted,
    DisputeCancelled,
    DisputeChallenged,
    DisputeWon,
    DisputeLost,
}

/// Stage of a dispute.
#[derive(Debug, Clone, Copy, PartialEq, Eq, Structural)]
pub enum DisputeStage {
    PreDispute,
    Dispute,
    PreArbitration,
}

/// Currencies that amounts are exchanged in.
#[derive(Debug, Clone, Copy, PartialEq, Eq, Structural)]
pub enum Currency {
    AED,
    AUD,
    CAD,
    CHF,
    EUR,
    GBP,
    INR,
    JPY,
    SGD,
    USD,
}

/// How captures of an authorized payment are made.
#[derive(Debug, Clone, Copy, PartialEq, Eq, Structural)]
pub enum CaptureMethod {
    Automatic,
    Manual,
    ManualMultiple,
    Scheduled,
    SequentialAutomatic,
}

impl CaptureMethod {
    /// The method used when a payment names none.
    pub fn default_method() -> (r: CaptureMethod)
        ensures
            r == CaptureMethod::Automatic,
    {
        CaptureMethod::Automatic
    }

    pub open spec fn spec_name(self) -> Seq<char> {
        match self {
            CaptureMethod::Automatic => "automatic"@,
            CaptureMethod::Manual => "manual"@,
            CaptureMethod::ManualMultiple => "manual_multiple"@,
            CaptureMethod::Scheduled => "scheduled"@,
            CaptureMethod::SequentialAutomatic => "sequential_automatic"@,
        }
    }

    /// The snake_case name of the method.
    pub fn name(&self) -> (r: &'static str)
        ensures
            r@ == self.spec_name(),
    {
        match self {
            CaptureMethod::Automatic => "automatic",
            CaptureMethod::Manual => "manual",
            CaptureMethod::ManualMultiple => "manual_multiple",
            CaptureMethod::Scheduled => "scheduled",
            CaptureMethod::SequentialAutomatic => "sequential_automatic",
        }
    }
}

/// Kinds of payment method.
#[derive(Debug, Clone, Copy, PartialEq, Eq, Structural)]
pub enum PaymentMethod {
    Card,
    Wallet,
}

/// Sub-kinds of payment method.
#[derive(Debug, Clone, Copy, PartialEq, Eq, Structural)]
pub enum PaymentMethodType {
    Credit,
    Debit,
    GooglePay,
    ApplePay,
}

/// Whether amounts go to the processor in minor or major units.
#[derive(Debug, Clone, Copy, PartialEq, Eq, Structural)]
pub enum CurrencyUnit {
    Minor,
    Major,
}

/// HTTP method of an outbound request.
#[derive(Debug, Clone, Copy, PartialEq, Eq, Structural)]
pub enum Method {
    Get,
    Post,
    Put,
    Delete,
}

/// Credential shapes that a merchant can configure for a connector.
#[derive(Debug, Clone, PartialEq, Eq)]
pub enum ConnectorAuthType {
    HeaderKey { api_key: String },
    BodyKey { api_key: String, key1: String },
    SignatureKey { api_key: String, key1: String, api_secret: String },
    NoKey,
}

/// One outbound header; `masked` marks a value that must not be logged.
#[derive(Debug, Clone, PartialEq, Eq)]
pub struct Header {
    pub name: String,
    pub value: String,
    pub masked: bool,
}

/// The mathematical form of a header.
pub struct HeaderView {
    pub name: Seq<char>,
    pub value: Seq<char>,
    pub masked: bool,
}

impl View for Header {
    type V = HeaderView;

    open spec fn view(&self) -> HeaderView {
        HeaderView { name: self.name@, value: self.value@, masked: self.masked }
    }
}

/// The views of a list of headers.
pub open spec fn header_views(h: Seq<Header>) -> Seq<HeaderView> {
    h.map_values(|x: Header| x@)
}

/// The canonical error that a connector hands back for a failed upstream call.
#[derive(Debug, Clone, PartialEq, Eq)]
pub struct ErrorResponse {
    pub status_code: u16,
    pub code: String,
    pub message: String,
    pub reason: Option<String>,
    pub attempt_status: Option<AttemptStatus>,
    pub connector_transaction_id: Option<String>,
    pub network_advice_code: Option<String>,
    pub network_decline_code: Option<String>,
    pub network_error_message: Option<String>,
}

/// The mathematical form of an [`ErrorResponse`].
pub struct ErrorResponseView {
    pub status_code: u16,
    pub code: Seq<char>,
    pub message: Seq<char>,
    pub reason: Option<Seq<char>>,
    pub attempt_status: Option<AttemptStatus>,
    pub connector_transaction_id: Option<Seq<char>>,
    pub network_advice_code: Option<Seq<char>>,
    pub network_decline_code: Option<Seq<char>>,
    pub network_error_message: Option<Seq<char>>,
}

/// The view of an optional string.
pub open spec fn opt_view(o: Option<String>) -> Option<Seq<char>> {
    match o {
        Some(s) => Some(s@),
        None => None,
    }
}

impl View for ErrorResponse {
    type V = ErrorResponseView;

    open spec fn view(&self) -> ErrorResponseView {
        ErrorResponseView {
            status_code: self.status_code,
            code: self.code@,
            message: self.message@,
            reason: opt_view(self.reason),
            attempt_status: self.attempt_status,
            connector_transaction_id: opt_view(self.connector_transaction_id),
            network_advice_code: opt_view(self.network_advice_code),
            network_decline_code: opt_view(self.network_decline_code),
            network_error_message: opt_view(self.network_error_message),
        }
    }
}

/// A capture, as a payment sync reports it.
#[derive(Debug, Clone, PartialEq, Eq)]
pub struct CaptureSyncResponse {
    pub connector_capture_id: String,
    pub amount: crate::amount::MinorUnit,
    pub status: AttemptStatus,
    pub connector_response_reference_id: Option<String>,
}

/// The mathematical form of a [`CaptureSyncResponse`].
pub struct CaptureSyncResponseView {
    pub connector_capture_id: Seq<char>,
    pub amount: crate::amount::MinorUnit,
    pub status: AttemptStatus,
    pub connector_response_reference_id: Option<Seq<char>>,
}

impl View for CaptureSyncResponse {
    type V = CaptureSyncResponseView;

    open spec fn view(&self) -> CaptureSyncResponseView {
        CaptureSyncResponseView {
            connector_capture_id: self.connector_capture_id@,
            amount: self.amount,
            status: self.status,
            connector_response_reference_id: opt_view(self.connector_response_reference_id),
        }
    }
}

/// The canonical result of a payment flow.
#[derive(Debug, Clone, PartialEq, Eq)]
pub enum PaymentsResponseData {
    TransactionResponse {
        resource_id: String,
        connector_response_reference_id: Option<String>,
        connector_status: Option<String>,
    },
    MultipleCaptureResponse { captures: Vec<CaptureSyncResponse> },
    TokenizationResponse { token: String },
}

/// The canonical result of a refund flow.
#[derive(Debug, Clone, PartialEq, Eq)]
pub struct RefundsResponseData {
    pub connector_refund_id: String,
    pub refund_status: RefundStatus,
}

/// The canonical result of accepting, defending or submitting evidence for a dispute.
#[derive(Debug, Clone, PartialEq, Eq)]
pub struct DisputeResponse {
    pub dispute_status: DisputeStatus,
    pub connector_status: Option<String>,
}

/// The canonical result of a file upload.
#[derive(Debug, Clone, PartialEq, Eq)]
pub struct UploadFileResponse {
    pub provider_file_id: String,
}

/// A raw upstream HTTP response: status code and body bytes.
#[derive(Debug, Clone, PartialEq, Eq)]
pub struct Response {
    pub status_code: u16,
    pub response: Vec<u8>,
}

} // verus!
