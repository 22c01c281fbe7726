//! The processor's own response shapes, holding what the connector reads of
//! them. Decoding bytes into these is done outside the library.
use vstd::prelude::*;

use crate::amount::MinorUnit;
use crate::types::opt_view;

verus! {

/// The processor's error body.
#[derive(Debug, Clone, PartialEq, Eq)]
pub struct CheckoutErrorResponse {
    pub request_id: Option<String>,
    pub error_type: Option<String>,
    pub error_codes: Option<Vec<String>>,
}

/// The mathematical form of a [`CheckoutErrorResponse`].
pub struct CheckoutErrorResponseView {
    pub request_id: Option<Seq<char>>,
    pub error_type: Option<Seq<char>>,
    pub error_codes: Option<Seq<Seq<char>>>,
}

impl View for CheckoutErrorResponse {
    type V = CheckoutErrorResponseView;

    open spec fn view(&self) -> CheckoutErrorResponseView {
        CheckoutErrorResponseView {
            request_id: opt_view(self.request_id),
            error_type: opt_view(self.error_type),
            error_codes: match self.error_codes {
                Some(c) => Some(crate::text::views_of(c@)),
                None => None,
            },
        }
    }
}

/// Kinds of action the processor records against a payment.
#[derive(Debug, Clone, Copy, PartialEq, Eq, Structural)]
pub enum CheckoutActionType {
    Authorization,
    Void,
    Capture,
    Refund,
    Payout,
    Return,
    CardVerification,
}

/// One action of a payment's history.
#[derive(Debug, Clone, PartialEq, Eq)]
pub struct ActionResponse {
    pub action_id: String,
    pub amount: MinorUnit,
    pub action_type: CheckoutActionType,
    pub approved: Option<bool>,
    pub reference: Option<String>,
}

/// The processor's payment object.
#[derive(Debug, Clone, PartialEq, Eq)]
pub struct PaymentsResponse {
    pub id: String,
    pub status: String,
    pub reference: Option<String>,
}

/// The processor's answer to a capture.
#[derive(Debug, Clone, PartialEq, Eq)]
pub struct PaymentCaptureResponse {
    pub action_id: String,
    pub reference: Option<String>,
}

/// The processor's answer to a void.
#[derive(Debug, Clone, PartialEq, Eq)]
pub struct PaymentVoidResponse {
    pub action_id: String,
    pub reference: String,
}

/// The processor's answer to a refund.
#[derive(Debug, Clone, PartialEq, Eq)]
pub struct RefundResponse {
    pub action_id: String,
    pub reference: String,
}

/// The processor's answer to a tokenization.
#[derive(Debug, Clone, PartialEq, Eq)]
pub struct CheckoutTokenResponse {
    pub token: String,
}

/// The processor's answer to a file upload.
#[derive(Debug, Clone, PartialEq, Eq)]
pub struct FileUploadResponse {
    pub file_id: String,
}

/// A decoded payment-sync body: the payment object, or the list of its actions.
#[derive(Debug, Clone, PartialEq, Eq)]
pub enum PaymentsSyncBody {
    Single(PaymentsResponse),
    Actions(Vec<ActionResponse>),
}

} // verus!
