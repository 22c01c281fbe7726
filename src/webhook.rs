//! Inbound webhooks: event classification, reference ids, dispute payloads and
//! the inputs of signature verification.
use vstd::prelude::*;

use crate::amount::MinorUnit;
use crate::checkout::Checkout;
use crate::text::{decimal_string, decimal_text, equal_ignoring_case, same_text, same_text_ignoring_case};
use crate::types::{opt_view, ConnectorError, ConnectorErrorView, Currency, DisputeStage};

verus! {

/// The processor's webhook event types; names it does not list are `Unknown`.
#[derive(Debug, Clone, Copy, PartialEq, Eq, Structural)]
pub enum CheckoutWebhookEventType {
    AuthenticationStarted,
    AuthenticationApproved,
    AuthenticationAttempted,
    AuthenticationExpired,
    AuthenticationFailed,
    PaymentApproved,
    PaymentCaptured,
    PaymentDeclined,
    PaymentRefunded,
    PaymentRefundDeclined,
    PaymentAuthenticationFailed,
    PaymentCanceled,
    PaymentCaptureDeclined,
    PaymentVoided,
    DisputeReceived,
    DisputeExpired,
    DisputeAccepted,
    DisputeCanceled,
    DisputeEvidenceSubmitted,
    DisputeEvidenceAcknowledgedByScheme,
    DisputeEvidenceRequired,
    DisputeArbitrationLost,
    DisputeArbitrationWon,
    DisputeWon,
    DisputeLost,
    Unknown,
}

impl CheckoutWebhookEventType {
    /// The event's name on the wire.
    pub open spec fn spec_name(self) -> Seq<char> {
        match self {
            CheckoutWebhookEventType::AuthenticationStarted => "authentication_started"@,
            CheckoutWebhookEventType::AuthenticationApproved => "authentication_approved"@,
            CheckoutWebhookEventType::AuthenticationAttempted => "authentication_attempted"@,
            CheckoutWebhookEventType::AuthenticationExpired => "authentication_expired"@,
            CheckoutWebhookEventType::AuthenticationFailed => "authentication_failed"@,
            CheckoutWebhookEventType::PaymentApproved => "payment_approved"@,
            CheckoutWebhookEventType::PaymentCaptured => "payment_captured"@,
            CheckoutWebhookEventType::PaymentDeclined => "payment_declined"@,
            CheckoutWebhookEventType::PaymentRefunded => "payment_refunded"@,
            CheckoutWebhookEventType::PaymentRefundDeclined => "payment_refund_declined"@,
            CheckoutWebhookEventType::PaymentAuthenticationFailed => "payment_authentication_failed"@,
            CheckoutWebhookEventType::PaymentCanceled => "payment_canceled"@,
            CheckoutWebhookEventType::PaymentCaptureDeclined => "payment_capture_declined"@,
            CheckoutWebhookEventType::PaymentVoided => "payment_voided"@,
            CheckoutWebhookEventType::DisputeReceived => "dispute_received"@,
            CheckoutWebhookEventType::DisputeExpired => "dispute_expired"@,
            CheckoutWebhookEventType::DisputeAccepted => "dispute_accepted"@,
            CheckoutWebhookEventType::DisputeCanceled => "dispute_canceled"@,
            CheckoutWebhookEventType::DisputeEvidenceSubmitted => "dispute_evidence_submitted"@,
            CheckoutWebhookEventType::DisputeEvidenceAcknowledgedByScheme => "dispute_evidence_acknowledged_by_scheme"@,
            CheckoutWebhookEventType::DisputeEvidenceRequired => "dispute_evidence_required"@,
            CheckoutWebhookEventType::DisputeArbitrationLost => "dispute_arbitration_lost"@,
            CheckoutWebhookEventType::DisputeArbitrationWon => "dispute_arbitration_won"@,
            CheckoutWebhookEventType::DisputeWon => "dispute_won"@,
            CheckoutWebhookEventType::DisputeLost => "dispute_lost"@,
            CheckoutWebhookEventType::Unknown => "unknown"@,
        }
    }

    /// The event's name on the wire.
    pub fn name(&self) -> (r: &'static str)
        ensures
            r@ == self.spec_name(),
    {
        match self {
            CheckoutWebhookEventType::AuthenticationStarted => "authentication_started",
            CheckoutWebhookEventType::AuthenticationApproved => "authentication_approved",
            CheckoutWebhookEventType::AuthenticationAttempted => "authentication_attempted",
            CheckoutWebhookEventType::AuthenticationExpired => "authentication_expired",
            CheckoutWebhookEventType::AuthenticationFailed => "authentication_failed",
            CheckoutWebhookEventType::PaymentApproved => "payment_approved",
            CheckoutWebhookEventType::PaymentCaptured => "payment_captured",
            CheckoutWebhookEventType::PaymentDeclined => "payment_declined",
            CheckoutWebhookEventType::PaymentRefunded => "payment_refunded",
            CheckoutWebhookEventType::PaymentRefundDeclined => "payment_refund_declined",
            CheckoutWebhookEventType::PaymentAuthenticationFailed => "payment_authentication_failed",
            CheckoutWebhookEventType::PaymentCanceled => "payment_canceled",
            CheckoutWebhookEventType::PaymentCaptureDeclined => "payment_capture_declined",
            CheckoutWebhookEventType::PaymentVoided => "payment_voided",
            CheckoutWebhookEventType::DisputeReceived => "dispute_received",
            CheckoutWebhookEventType::DisputeExpired => "dispute_expired",
            CheckoutWebhookEventType::DisputeAccepted => "dispute_accepted",
            CheckoutWebhookEventType::DisputeCanceled => "dispute_canceled",
            CheckoutWebhookEventType::DisputeEvidenceSubmitted => "dispute_evidence_submitted",
            CheckoutWebhookEventType::DisputeEvidenceAcknowledgedByScheme => "dispute_evidence_acknowledged_by_scheme",
            CheckoutWebhookEventType::DisputeEvidenceRequired => "dispute_evidence_required",
            CheckoutWebhookEventType::DisputeArbitrationLost => "dispute_arbitration_lost",
            CheckoutWebhookEventType::DisputeArbitrationWon => "dispute_arbitration_won",
            CheckoutWebhookEventType::DisputeWon => "dispute_won",
            CheckoutWebhookEventType::DisputeLost => "dispute_lost",
            CheckoutWebhookEventType::Unknown => "unknown",
        }
    }

    /// The event a wire name stands for.
    pub fn from_name(name: &str) -> (r: CheckoutWebhookEventType)
        ensures
            r == event_of_name(name@),
    {
        if same_text(name, "authentication_started") {
            CheckoutWebhookEventType::AuthenticationStarted
        } else if same_text(name, "authentication_approved") {
            CheckoutWebhookEventType::AuthenticationApproved
        } else if same_text(name, "authentication_attempted") {
            CheckoutWebhookEventType::AuthenticationAttempted
        } else if same_text(name, "authentication_expired") {
            CheckoutWebhookEventType::AuthenticationExpired
        } else if same_text(name, "authentication_failed") {
            CheckoutWebhookEventType::AuthenticationFailed
        } else if same_text(name, "payment_approved") {
            CheckoutWebhookEventType::PaymentApproved
        } else if same_text(name, "payment_captured") {
            CheckoutWebhookEventType::PaymentCaptured
        } else if same_text(name, "payment_declined") {
            CheckoutWebhookEventType::PaymentDeclined
        } else if same_text(name, "payment_refunded") {
            CheckoutWebhookEventType::PaymentRefunded
        } else if same_text(name, "payment_refund_declined") {
            CheckoutWebhookEventType::PaymentRefundDeclined
        } else if same_text(name, "payment_authentication_failed") {
            CheckoutWebhookEventType::PaymentAuthenticationFailed
        } else if same_text(name, "payment_canceled") {
            CheckoutWebhookEventType::PaymentCanceled
        } else if same_text(name, "payment_capture_declined") {
            CheckoutWebhookEventType::PaymentCaptureDeclined
        } else if same_text(name, "payment_voided") {
            CheckoutWebhookEventType::PaymentVoided
        } else if same_text(name, "dispute_received") {
            CheckoutWebhookEventType::DisputeReceived
        } else if same_text(name, "dispute_expired") {
            CheckoutWebhookEventType::DisputeExpired
        } else if same_text(name, "dispute_accepted") {
            CheckoutWebhookEventType::DisputeAccepted
        } else if same_text(name, "dispute_canceled") {
            CheckoutWebhookEventType::DisputeCanceled
        } else if same_text(name, "dispute_evidence_submitted") {
            CheckoutWebhookEventType::DisputeEvidenceSubmitted
        } else if same_text(name, "dispute_evidence_acknowledged_by_scheme") {
            CheckoutWebhookEventType::DisputeEvidenceAcknowledgedByScheme
        } else if same_text(name, "dispute_evidence_required") {
            CheckoutWebhookEventType::DisputeEvidenceRequired
        } else if same_text(name, "dispute_arbitration_lost") {
            CheckoutWebhookEventType::DisputeArbitrationLost
        } else if same_text(name, "dispute_arbitration_won") {
            CheckoutWebhookEventType::DisputeArbitrationWon
        } else if same_text(name, "dispute_won") {
            CheckoutWebhookEventType::DisputeWon
        } else if same_text(name, "dispute_lost") {
            CheckoutWebhookEventType::DisputeLost
        } else {
            CheckoutWebhookEventType::Unknown
        }
    }
}

/// The event a wire name stands for: `Unknown` for a name the processor does not list.
pub open spec fn event_of_name(name: Seq<char>) -> CheckoutWebhookEventType {
    if name == "authentication_started"@ {
        CheckoutWebhookEventType::AuthenticationStarted
    } else if name == "authentication_approved"@ {
        CheckoutWebhookEventType::AuthenticationApproved
    } else if name == "authentication_attempted"@ {
        CheckoutWebhookEventType::AuthenticationAttempted
    } else if name == "authentication_expired"@ {
        CheckoutWebhookEventType::AuthenticationExpired
    } else if name == "authentication_failed"@ {
        CheckoutWebhookEventType::AuthenticationFailed
    } else if name == "payment_approved"@ {
        CheckoutWebhookEventType::PaymentApproved
    } else if name == "payment_captured"@ {
        CheckoutWebhookEventType::PaymentCaptured
    } else if name == "payment_declined"@ {
        CheckoutWebhookEventType::PaymentDeclined
    } else if name == "payment_refunded"@ {
        CheckoutWebhookEventType::PaymentRefunded
    } else if name == "payment_refund_declined"@ {
        CheckoutWebhookEventType::PaymentRefundDeclined
    } else if name == "payment_authentication_failed"@ {
        CheckoutWebhookEventType::PaymentAuthenticationFailed
    } else if name == "payment_canceled"@ {
        CheckoutWebhookEventType::PaymentCanceled
    } else if name == "payment_capture_declined"@ {
        CheckoutWebhookEventType::PaymentCaptureDeclined
    } else if name == "payment_voided"@ {
        CheckoutWebhookEventType::PaymentVoided
    } else if name == "dispute_received"@ {
        CheckoutWebhookEventType::DisputeReceived
    } else if name == "dispute_expired"@ {
        CheckoutWebhookEventType::DisputeExpired
    } else if name == "dispute_accepted"@ {
        CheckoutWebhookEventType::DisputeAccepted
    } else if name == "dispute_canceled"@ {
        CheckoutWebhookEventType::DisputeCanceled
    } else if name == "dispute_evidence_submitted"@ {
        CheckoutWebhookEventType::DisputeEvidenceSubmitted
    } else if name == "dispute_evidence_acknowledged_by_scheme"@ {
        CheckoutWebhookEventType::DisputeEvidenceAcknowledgedByScheme
    } else if name == "dispute_evidence_required"@ {
        CheckoutWebhookEventType::DisputeEvidenceRequired
    } else if name == "dispute_arbitration_lost"@ {
        CheckoutWebhookEventType::DisputeArbitrationLost
    } else if name == "dispute_arbitration_won"@ {
        CheckoutWebhookEventType::DisputeArbitrationWon
    } else if name == "dispute_won"@ {
        CheckoutWebhookEventType::DisputeWon
    } else if name == "dispute_lost"@ {
        CheckoutWebhookEventType::DisputeLost
    } else {
        CheckoutWebhookEventType::Unknown
    }
}

/// Events about a dispute.
pub open spec fn is_chargeback(e: CheckoutWebhookEventType) -> bool {
    matches!(e,
        CheckoutWebhookEventType::DisputeReceived
        | CheckoutWebhookEventType::DisputeExpired
        | CheckoutWebhookEventType::DisputeAccepted
        | CheckoutWebhookEventType::DisputeCanceled
        | CheckoutWebhookEventType::DisputeEvidenceSubmitted
        | CheckoutWebhookEventType::DisputeEvidenceAcknowledgedByScheme
        | CheckoutWebhookEventType::DisputeEvidenceRequired
        | CheckoutWebhookEventType::DisputeArbitrationLost
        | CheckoutWebhookEventType::DisputeArbitrationWon
        | CheckoutWebhookEventType::DisputeWon
        | CheckoutWebhookEventType::DisputeLost)
}

/// Events about a refund.
pub open spec fn is_refund(e: CheckoutWebhookEventType) -> bool {
    matches!(e, CheckoutWebhookEventType::PaymentRefunded | CheckoutWebhookEventType::PaymentRefundDeclined)
}

/// Whether the event is about a dispute.
pub fn is_chargeback_event(e: &CheckoutWebhookEventType) -> (r: bool)
    ensures
        r == is_chargeback(*e),
{
    matches!(e,
        CheckoutWebhookEventType::DisputeReceived
        | CheckoutWebhookEventType::DisputeExpired
        | CheckoutWebhookEventType::DisputeAccepted
        | CheckoutWebhookEventType::DisputeCanceled
        | CheckoutWebhookEventType::DisputeEvidenceSubmitted
        | CheckoutWebhookEventType::DisputeEvidenceAcknowledgedByScheme
        | CheckoutWebhookEventType::DisputeEvidenceRequired
        | CheckoutWebhookEventType::DisputeArbitrationLost
        | CheckoutWebhookEventType::DisputeArbitrationWon
        | CheckoutWebhookEventType::DisputeWon
        | CheckoutWebhookEventType::DisputeLost)
}

/// Whether the event is about a refund.
pub fn is_refund_event(e: &CheckoutWebhookEventType) -> (r: bool)
    ensures
        r == is_refund(*e),
{
    matches!(e, CheckoutWebhookEventType::PaymentRefunded | CheckoutWebhookEventType::PaymentRefundDeclined)
}

/// Canonical webhook events.
#[derive(Debug, Clone, Copy, PartialEq, Eq, Structural)]
pub enum IncomingWebhookEvent {
    EventNotSupported,
    PaymentIntentSuccess,
    PaymentIntentFailure,
    PaymentIntentCancelled,
    PaymentIntentCaptureFailure,
    RefundSuccess,
    RefundFailure,
    DisputeOpened,
    DisputeExpired,
    DisputeAccepted,
    DisputeCancelled,
    DisputeChallenged,
    DisputeWon,
    DisputeLost,
}

/// The canonical event of a processor event.
pub open spec fn canonical_event(e: CheckoutWebhookEventType) -> IncomingWebhookEvent {
    match e {
        CheckoutWebhookEventType::AuthenticationExpired
        | CheckoutWebhookEventType::AuthenticationFailed
        | CheckoutWebhookEventType::PaymentAuthenticationFailed
        | CheckoutWebhookEventType::PaymentDeclined => IncomingWebhookEvent::PaymentIntentFailure,
        CheckoutWebhookEventType::PaymentCaptured => IncomingWebhookEvent::PaymentIntentSuccess,
        CheckoutWebhookEventType::PaymentRefunded => IncomingWebhookEvent::RefundSuccess,
        CheckoutWebhookEventType::PaymentRefundDeclined => IncomingWebhookEvent::RefundFailure,
        CheckoutWebhookEventType::PaymentCanceled
        | CheckoutWebhookEventType::PaymentVoided => IncomingWebhookEvent::PaymentIntentCancelled,
        CheckoutWebhookEventType::PaymentCaptureDeclined => IncomingWebhookEvent::PaymentIntentCaptureFailure,
        CheckoutWebhookEventType::DisputeReceived
        | CheckoutWebhookEventType::DisputeEvidenceRequired => IncomingWebhookEvent::DisputeOpened,
        CheckoutWebhookEventType::DisputeExpired => IncomingWebhookEvent::DisputeExpired,
        CheckoutWebhookEventType::DisputeAccepted => IncomingWebhookEvent::DisputeAccepted,
        CheckoutWebhookEventType::DisputeCanceled => IncomingWebhookEvent::DisputeCancelled,
        CheckoutWebhookEventType::DisputeEvidenceSubmitted
        | CheckoutWebhookEventType::DisputeEvidenceAcknowledgedByScheme => IncomingWebhookEvent::DisputeChallenged,
        CheckoutWebhookEventType::DisputeWon
        | CheckoutWebhookEventType::DisputeArbitrationWon => IncomingWebhookEvent::DisputeWon,
        CheckoutWebhookEventType::DisputeLost
        | CheckoutWebhookEventType::DisputeArbitrationLost => IncomingWebhookEvent::DisputeLost,
        _ => IncomingWebhookEvent::EventNotSupported,
    }
}

/// The canonical event of a processor event.
pub fn to_incoming_event(e: CheckoutWebhookEventType) -> (r: IncomingWebhookEvent)
    ensures
        r == canonical_event(e),
{
    match e {
        CheckoutWebhookEventType::AuthenticationExpired
        | CheckoutWebhookEventType::AuthenticationFailed
        | CheckoutWebhookEventType::PaymentAuthenticationFailed
        | CheckoutWebhookEventType::PaymentDeclined => IncomingWebhookEvent::PaymentIntentFailure,
        CheckoutWebhookEventType::PaymentCaptured => IncomingWebhookEvent::PaymentIntentSuccess,
        CheckoutWebhookEventType::PaymentRefunded => IncomingWebhookEvent::RefundSuccess,
        CheckoutWebhookEventType::PaymentRefundDeclined => IncomingWebhookEvent::RefundFailure,
        CheckoutWebhookEventType::PaymentCanceled
        | CheckoutWebhookEventType::PaymentVoided => IncomingWebhookEvent::PaymentIntentCancelled,
        CheckoutWebhookEventType::PaymentCaptureDeclined => IncomingWebhookEvent::PaymentIntentCaptureFailure,
        CheckoutWebhookEventType::DisputeReceived
        | CheckoutWebhookEventType::DisputeEvidenceRequired => IncomingWebhookEvent::DisputeOpened,
        CheckoutWebhookEventType::DisputeExpired => IncomingWebhookEvent::DisputeExpired,
        CheckoutWebhookEventType::DisputeAccepted => IncomingWebhookEvent::DisputeAccepted,
        CheckoutWebhookEventType::DisputeCanceled => IncomingWebhookEvent::DisputeCancelled,
        CheckoutWebhookEventType::DisputeEvidenceSubmitted
        | CheckoutWebhookEventType::DisputeEvidenceAcknowledgedByScheme => IncomingWebhookEvent::DisputeChallenged,
        CheckoutWebhookEventType::DisputeWon
        | CheckoutWebhookEventType::DisputeArbitrationWon => IncomingWebhookEvent::DisputeWon,
        CheckoutWebhookEventType::DisputeLost
        | CheckoutWebhookEventType::DisputeArbitrationLost => IncomingWebhookEvent::DisputeLost,
        _ => IncomingWebhookEvent::EventNotSupported,
    }
}

/// The dispute stage an event belongs to.
pub open spec fn stage_of(e: CheckoutWebhookEventType) -> DisputeStage {
    match e {
        CheckoutWebhookEventType::DisputeArbitrationLost
        | CheckoutWebhookEventType::DisputeArbitrationWon => DisputeStage::PreArbitration,
        _ => DisputeStage::Dispute,
    }
}

/// The dispute stage an event belongs to.
pub fn dispute_stage(e: CheckoutWebhookEventType) -> (r: DisputeStage)
    ensures
        r == stage_of(e),
{
    match e {
        CheckoutWebhookEventType::DisputeArbitrationLost
        | CheckoutWebhookEventType::DisputeArbitrationWon => DisputeStage::PreArbitration,
        _ => DisputeStage::Dispute,
    }
}

/// The envelope fields of a webhook that name its object.
#[derive(Debug, Clone, PartialEq, Eq)]
pub struct CheckoutWebhookData {
    pub id: String,
    pub payment_id: Option<String>,
    pub action_id: Option<String>,
    pub reference: Option<String>,
}

/// A webhook's envelope: its event type's wire name and what it names.
#[derive(Debug, Clone, PartialEq, Eq)]
pub struct CheckoutWebhookBody {
    pub transaction_type: String,
    pub data: CheckoutWebhookData,
}

/// A webhook read for its event type alone.
#[derive(Debug, Clone, PartialEq, Eq)]
pub struct CheckoutWebhookEventTypeBody {
    pub transaction_type: String,
}

/// The dispute object of a dispute webhook.
#[derive(Debug, Clone, PartialEq, Eq)]
pub struct CheckoutDisputeWebhookData {
    pub id: String,
    pub payment_id: Option<String>,
    pub action_id: Option<String>,
    pub amount: MinorUnit,
    pub currency: Currency,
    pub evidence_required_by: Option<String>,
    pub reason_code: Option<String>,
    pub date: Option<String>,
}

/// A dispute webhook.
#[derive(Debug, Clone, PartialEq, Eq)]
pub struct CheckoutDisputeWebhookBody {
    pub transaction_type: String,
    pub data: CheckoutDisputeWebhookData,
    pub created_on: Option<String>,
}

/// How a webhook names a payment.
#[derive(Debug, Clone, PartialEq, Eq)]
pub enum PaymentIdType {
    PaymentAttemptId(String),
    ConnectorTransactionId(String),
}

/// How a webhook names a refund.
#[derive(Debug, Clone, PartialEq, Eq)]
pub enum RefundIdType {
    RefundId(String),
    ConnectorRefundId(String),
}

/// The object a webhook is about.
#[derive(Debug, Clone, PartialEq, Eq)]
pub enum ObjectReferenceId {
    PaymentId(PaymentIdType),
    RefundId(RefundIdType),
}

/// The mathematical form of an [`ObjectReferenceId`].
pub enum ObjectReferenceIdView {
    PaymentAttemptId(Seq<char>),
    ConnectorTransactionId(Seq<char>),
    RefundId(Seq<char>),
    ConnectorRefundId(Seq<char>),
}

impl View for ObjectReferenceId {
    type V = ObjectReferenceIdView;

    open spec fn view(&self) -> ObjectReferenceIdView {
        match self {
            ObjectReferenceId::PaymentId(PaymentIdType::PaymentAttemptId(s)) => ObjectReferenceIdView::PaymentAttemptId(s@),
            ObjectReferenceId::PaymentId(PaymentIdType::ConnectorTransactionId(s)) => ObjectReferenceIdView::ConnectorTransactionId(s@),
            ObjectReferenceId::RefundId(RefundIdType::RefundId(s)) => ObjectReferenceIdView::RefundId(s@),
            ObjectReferenceId::RefundId(RefundIdType::ConnectorRefundId(s)) => ObjectReferenceIdView::ConnectorRefundId(s@),
        }
    }
}

/// The object a decoded webhook envelope is about. A dispute names its
/// payment by the merchant's reference, else by the processor's payment id; a
/// refund by the merchant's reference, else by the processor's action id; any
/// other event its payment by the merchant's reference, else by the object's id.
pub open spec fn reference_of(body: CheckoutWebhookBody) -> Result<ObjectReferenceIdView, ConnectorErrorView> {
    let e = event_of_name(body.transaction_type@);
    let d = body.data;
    if is_chargeback(e) {
        match (d.reference, d.payment_id) {
            (Some(r), _) => Ok(ObjectReferenceIdView::PaymentAttemptId(r@)),
            (None, Some(p)) => Ok(ObjectReferenceIdView::ConnectorTransactionId(p@)),
            (None, None) => Err(ConnectorErrorView::WebhookReferenceIdNotFound),
        }
    } else if is_refund(e) {
        match (d.reference, d.action_id) {
            (Some(r), _) => Ok(ObjectReferenceIdView::RefundId(r@)),
            (None, Some(a)) => Ok(ObjectReferenceIdView::ConnectorRefundId(a@)),
            (None, None) => Err(ConnectorErrorView::WebhookReferenceIdNotFound),
        }
    } else {
        match d.reference {
            Some(r) => Ok(ObjectReferenceIdView::PaymentAttemptId(r@)),
            None => Ok(ObjectReferenceIdView::ConnectorTransactionId(d.id@)),
        }
    }
}

/// The payload a webhook carries, by the category of its event.
#[derive(Debug, Clone, Copy, PartialEq, Eq, Structural)]
pub enum WebhookResourceKind {
    Dispute,
    Refund,
    Payment,
}

/// The payload kind of an event.
pub open spec fn resource_kind_of(e: CheckoutWebhookEventType) -> WebhookResourceKind {
    if is_chargeback(e) {
        WebhookResourceKind::Dispute
    } else if is_refund(e) {
        WebhookResourceKind::Refund
    } else {
        WebhookResourceKind::Payment
    }
}

/// What a dispute webhook tells about the dispute.
#[derive(Debug, Clone, PartialEq, Eq)]
pub struct DisputePayload {
    pub amount: String,
    pub currency: Currency,
    pub dispute_stage: DisputeStage,
    pub connector_dispute_id: String,
    pub connector_reason: Option<String>,
    pub connector_reason_code: Option<String>,
    pub challenge_required_by: Option<String>,
    pub connector_status: String,
    pub created_at: Option<String>,
    pub updated_at: Option<String>,
}

/// The mathematical form of a [`DisputePayload`].
pub struct DisputePayloadView {
    pub amount: Seq<char>,
    pub currency: Currency,
    pub dispute_stage: DisputeStage,
    pub connector_dispute_id: Seq<char>,
    pub connector_reason: Option<Seq<char>>,
    pub connector_reason_code: Option<Seq<char>>,
    pub challenge_required_by: Option<Seq<char>>,
    pub connector_status: Seq<char>,
    pub created_at: Option<Seq<char>>,
    pub updated_at: Option<Seq<char>>,
}

impl View for DisputePayload {
    type V = DisputePayloadView;

    open spec fn view(&self) -> DisputePayloadView {
        DisputePayloadView {
            amount: self.amount@,
            currency: self.currency,
            dispute_stage: self.dispute_stage,
            connector_dispute_id: self.connector_dispute_id@,
            connector_reason: opt_view(self.connector_reason),
            connector_reason_code: opt_view(self.connector_reason_code),
            challenge_required_by: opt_view(self.challenge_required_by),
            connector_status: self.connector_status@,
            created_at: opt_view(self.created_at),
            updated_at: opt_view(self.updated_at),
        }
    }
}

/// The dispute payload of a decoded dispute webhook.
pub open spec fn dispute_payload_of(body: CheckoutDisputeWebhookBody) -> DisputePayloadView {
    let e = event_of_name(body.transaction_type@);
    DisputePayloadView {
        amount: decimal_text(body.data.amount.0 as int),
        currency: body.data.currency,
        dispute_stage: stage_of(e),
        connector_dispute_id: body.data.id@,
        connector_reason: None,
        connector_reason_code: opt_view(body.data.reason_code),
        challenge_required_by: opt_view(body.data.evidence_required_by),
        connector_status: e.spec_name(),
        created_at: opt_view(body.created_on),
        updated_at: opt_view(body.data.date),
    }
}

/// The value of a hexadecimal digit, either case.
pub open spec fn hex_digit_value(c: char) -> Option<int> {
    let v = c as u32;
    if 48 <= v <= 57 {
        Some(v - 48)
    } else if 97 <= v <= 102 {
        Some(v - 97 + 10)
    } else if 65 <= v <= 70 {
        Some(v - 65 + 10)
    } else {
        None
    }
}

/// Text of an even number of hexadecimal digits.
pub open spec fn is_hex_text(s: Seq<char>) -> bool {
    s.len() % 2 == 0 && forall|i: int| 0 <= i < s.len() ==> (#[trigger] hex_digit_value(s[i])) is Some
}

/// The bytes that hexadecimal text encodes, two digits to a byte, high digit first.
pub open spec fn hex_bytes(s: Seq<char>) -> Seq<u8> {
    Seq::new(
        (s.len() / 2) as nat,
        |i: int| (16 * hex_digit_value(s[2 * i])->Some_0 + hex_digit_value(s[2 * i + 1])->Some_0) as u8,
    )
}

/// Relies on `hex::decode`: it accepts exactly an even number of hex digits of
/// either case and yields one byte for each pair, high digit first.
#[verifier::external_type_specification]
#[verifier::external_body]
pub struct ExFromHexError(hex::FromHexError);

#[verifier::external_body]
fn decode_hex(text: &str) -> (r: Result<Vec<u8>, hex::FromHexError>)
    ensures
        match r {
            Ok(v) => is_hex_text(text@) && v@ == hex_bytes(text@),
            Err(_) => !is_hex_text(text@),
        },
{
    hex::decode(text)
}

/// What `String::from_utf8_lossy` makes of some bytes: the text they encode,
/// with each invalid sequence replaced.
pub uninterp spec fn lossy_utf8(bytes: Seq<u8>) -> Seq<char>;

/// Relies on `String::from_utf8_lossy`: the text depends on the bytes alone.
#[verifier::external_body]
fn utf8_lossy(bytes: &[u8]) -> (r: String)
    ensures
        r@ == lossy_utf8(bytes@),
{
    String::from_utf8_lossy(bytes).into_owned()
}

/// The value of the first header named `name`; header names are compared
/// without regard to ASCII case.
pub open spec fn header_value(headers: Seq<(String, String)>, name: Seq<char>) -> Option<Seq<char>>
    decreases headers.len(),
{
    if headers.len() == 0 {
        None
    } else if equal_ignoring_case(headers[0].0@, name) {
        Some(headers[0].1@)
    } else {
        header_value(headers.drop_first(), name)
    }
}

/// The name of the header that carries the processor's webhook signature.
pub const SIGNATURE_HEADER: &'static str = "cko-signature";

/// The signature bytes a webhook carries: the hex-decoded value of its
/// signature header, `None` when there is none or it is not hex.
pub open spec fn signature_of(headers: Seq<(String, String)>) -> Option<Seq<u8>> {
    match header_value(headers, SIGNATURE_HEADER@) {
        Some(v) => if is_hex_text(v) {
            Some(hex_bytes(v))
        } else {
            None
        },
        None => None,
    }
}

/// Finds the value of the first header named `name`, in any ASCII case.
pub fn find_header<'a>(headers: &'a Vec<(String, String)>, name: &str) -> (r: Option<&'a String>)
    ensures
        match r {
            Some(v) => header_value(headers@, name@) == Some(v@),
            None => header_value(headers@, name@) is None,
        },
{
    let mut i: usize = 0;
    assert(headers@.subrange(0, headers@.len() as int) =~= headers@);
    while i < headers.len()
        invariant
            i <= headers@.len(),
            header_value(headers@, name@) == header_value(headers@.subrange(i as int, headers@.len() as int), name@),
        decreases headers@.len() - i,
    {
        let ghost rest = headers@.subrange(i as int, headers@.len() as int);
        assert(rest.drop_first() =~= headers@.subrange(i as int + 1, headers@.len() as int));
        assert(rest[0] == headers@[i as int]);
        if same_text_ignoring_case(headers[i].0.as_str(), name) {
            return Some(&headers[i].1);
        }
        i = i + 1;
    }
    None
}

/// Keyed-hash algorithms that webhook signatures are made with.
#[derive(Debug, Clone, Copy, PartialEq, Eq, Structural)]
pub enum VerificationAlgorithm {
    HmacSha256,
}

impl Checkout {
    /// The processor signs webhooks with HMAC-SHA256.
    pub fn get_webhook_source_verification_algorithm(&self) -> (r: VerificationAlgorithm)
        ensures
            r == VerificationAlgorithm::HmacSha256,
    {
        VerificationAlgorithm::HmacSha256
    }

    /// The signature a webhook carries, from its `cko-signature` header (the
    /// name in any case).
    pub fn get_webhook_source_verification_signature(&self, headers: &Vec<(String, String)>) -> (r: Result<
        Vec<u8>,
        ConnectorError,
    >)
        ensures
            match signature_of(headers@) {
                Some(b) => (r matches Ok(v) && v@ == b),
                None => r == Err::<Vec<u8>, ConnectorError>(ConnectorError::WebhookSignatureNotFound),
            },
    {
        let value = match find_header(headers, SIGNATURE_HEADER) {
            Some(v) => v,
            None => {
                return Err(ConnectorError::WebhookSignatureNotFound);
            },
        };
        match decode_hex(value.as_str()) {
            Ok(bytes) => Ok(bytes),
            Err(_) => Err(ConnectorError::WebhookSignatureNotFound),
        }
    }

    /// The bytes the signature is computed over: the body read as UTF-8, with
    /// invalid sequences replaced, and encoded again.
    pub fn get_webhook_source_verification_message(&self, body: &[u8]) -> (r: Vec<u8>)
        ensures
            r@ == vstd::utf8::encode_utf8(lossy_utf8(body@)),
    {
        let text = utf8_lossy(body);
        text.as_str().as_bytes_vec()
    }

    /// The object a webhook is about. `body` is the decoded envelope, `None`
    /// when the webhook did not decode.
    pub fn get_webhook_object_reference_id(&self, body: Option<CheckoutWebhookBody>) -> (r: Result<
        ObjectReferenceId,
        ConnectorError,
    >)
        ensures
            match body {
                Some(b) => crate::types::result_view(r) == reference_of(b),
                None => r == Err::<ObjectReferenceId, ConnectorError>(ConnectorError::WebhookReferenceIdNotFound),
            },
    {
        let details = match body {
            Some(b) => b,
            None => {
                return Err(ConnectorError::WebhookReferenceIdNotFound);
            },
        };
        let event = CheckoutWebhookEventType::from_name(details.transaction_type.as_str());
        let data = details.data;
        if is_chargeback_event(&event) {
            let reference = match data.reference {
                Some(reference) => PaymentIdType::PaymentAttemptId(reference),
                None => match data.payment_id {
                    Some(p) => PaymentIdType::ConnectorTransactionId(p),
                    None => {
                        return Err(ConnectorError::WebhookReferenceIdNotFound);
                    },
                },
            };
            Ok(ObjectReferenceId::PaymentId(reference))
        } else if is_refund_event(&event) {
            let reference = match data.reference {
                Some(reference) => RefundIdType::RefundId(reference),
                None => match data.action_id {
                    Some(a) => RefundIdType::ConnectorRefundId(a),
                    None => {
                        return Err(ConnectorError::WebhookReferenceIdNotFound);
                    },
                },
            };
            Ok(ObjectReferenceId::RefundId(reference))
        } else {
            let reference = match data.reference {
                Some(reference) => PaymentIdType::PaymentAttemptId(reference),
                None => PaymentIdType::ConnectorTransactionId(data.id),
            };
            Ok(ObjectReferenceId::PaymentId(reference))
        }
    }

    /// The canonical event of a webhook. `body` is the decoded event type,
    /// `None` when the webhook did not decode.
    pub fn get_webhook_event_type(&self, body: Option<CheckoutWebhookEventTypeBody>) -> (r: Result<
        IncomingWebhookEvent,
        ConnectorError,
    >)
        ensures
            match body {
                Some(b) => r == Ok::<IncomingWebhookEvent, ConnectorError>(
                    canonical_event(event_of_name(b.transaction_type@)),
                ),
                None => r == Err::<IncomingWebhookEvent, ConnectorError>(ConnectorError::WebhookEventTypeNotFound),
            },
    {
        match body {
            Some(b) => Ok(to_incoming_event(CheckoutWebhookEventType::from_name(b.transaction_type.as_str()))),
            None => Err(ConnectorError::WebhookEventTypeNotFound),
        }
    }

    /// Which payload a webhook carries, to be decoded for storage: the dispute
    /// for dispute events, the refund for refund events, the payment otherwise.
    pub fn get_webhook_resource_object(&self, body: Option<CheckoutWebhookEventTypeBody>) -> (r: Result<
        WebhookResourceKind,
        ConnectorError,
    >)
        ensures
            match body {
                Some(b) => r == Ok::<WebhookResourceKind, ConnectorError>(
                    resource_kind_of(event_of_name(b.transaction_type@)),
                ),
                None => r == Err::<WebhookResourceKind, ConnectorError>(ConnectorError::WebhookBodyDecodingFailed),
            },
    {
        match body {
            Some(b) => {
                let event = CheckoutWebhookEventType::from_name(b.transaction_type.as_str());
                if is_chargeback_event(&event) {
                    Ok(WebhookResourceKind::Dispute)
                } else if is_refund_event(&event) {
                    Ok(WebhookResourceKind::Refund)
                } else {
                    Ok(WebhookResourceKind::Payment)
                }
            },
            None => Err(ConnectorError::WebhookBodyDecodingFailed),
        }
    }

    /// The dispute a dispute webhook reports. `body` is the decoded webhook,
    /// `None` when it did not decode.
    pub fn get_dispute_details(&self, body: Option<CheckoutDisputeWebhookBody>) -> (r: Result<
        DisputePayload,
        ConnectorError,
    >)
        ensures
            match body {
                Some(b) => (r matches Ok(p) && p@ == dispute_payload_of(b)),
                None => r == Err::<DisputePayload, ConnectorError>(ConnectorError::WebhookBodyDecodingFailed),
            },
    {
        let details = match body {
            Some(b) => b,
            None => {
                return Err(ConnectorError::WebhookBodyDecodingFailed);
            },
        };
        let event = CheckoutWebhookEventType::from_name(details.transaction_type.as_str());
        let data = details.data;
        Ok(
            DisputePayload {
                amount: decimal_string(data.amount.0),
                currency: data.currency,
                dispute_stage: dispute_stage(event),
                connector_dispute_id: data.id,
                connector_reason: None,
                connector_reason_code: data.reason_code,
                challenge_required_by: data.evidence_required_by,
                connector_status: String::from_str(event.name()),
                created_at: details.created_on,
                updated_at: data.date,
            },
        )
    }
}

} // verus!
