//! The processor's side of each flow's response: turning a decoded upstream
//! body into the canonical result. A handler takes the body as decoded by the
//! caller, `None` when the bytes did not decode as the flow's shape.
use vstd::prelude::*;

use crate::checkout::Checkout;
use crate::flows::{CaptureData, RefundsData, SyncData, SyncRequestType};
use crate::types::{
    opt_view, AttemptStatus, CaptureSyncResponse, CaptureSyncResponseView, ConnectorError,
    DisputeResponse, DisputeStatus, PaymentsResponseData, RefundStatus, RefundsResponseData,
    UploadFileResponse,
};
use crate::upstream::{
    ActionResponse, CheckoutActionType, CheckoutTokenResponse, FileUploadResponse,
    PaymentCaptureResponse, PaymentVoidResponse, PaymentsResponse, PaymentsSyncBody, RefundResponse,
};

verus! {

/// The upstream shape a response body is decoded as.
#[derive(Debug, Clone, Copy, PartialEq, Eq, Structural)]
pub enum SyncSchema {
    /// The payment object.
    Single,
    /// The list of the payment's actions.
    Actions,
}

/// The status of an action by whether the processor approved it.
pub open spec fn approval_status(approved: Option<bool>) -> AttemptStatus {
    match approved {
        Some(true) => AttemptStatus::Charged,
        Some(false) => AttemptStatus::Failure,
        None => AttemptStatus::Pending,
    }
}

/// The refund status of an action by whether the processor approved it.
pub open spec fn refund_approval_status(approved: Option<bool>) -> RefundStatus {
    match approved {
        Some(true) => RefundStatus::Success,
        Some(false) => RefundStatus::Failure,
        None => RefundStatus::Pending,
    }
}

/// The captures among a payment's actions, in order.
pub open spec fn capture_views(actions: Seq<ActionResponse>) -> Seq<CaptureSyncResponseView>
    decreases actions.len(),
{
    if actions.len() == 0 {
        Seq::empty()
    } else {
        let rest = capture_views(actions.drop_last());
        let a = actions.last();
        if a.action_type == CheckoutActionType::Capture {
            rest.push(
                CaptureSyncResponseView {
                    connector_capture_id: a.action_id@,
                    amount: a.amount,
                    status: approval_status(a.approved),
                    connector_response_reference_id: opt_view(a.reference),
                },
            )
        } else {
            rest
        }
    }
}

/// `r` is the transaction result for the processor's payment object `p`.
pub open spec fn is_transaction_of(r: PaymentsResponseData, p: PaymentsResponse) -> bool {
    r matches PaymentsResponseData::TransactionResponse {
        resource_id,
        connector_response_reference_id,
        connector_status,
    } && resource_id@ == p.id@ && opt_view(connector_response_reference_id) == opt_view(p.reference)
        && opt_view(connector_status) == Some(p.status@)
}

/// `r` lists the captures among `actions`.
pub open spec fn is_captures_of(r: PaymentsResponseData, actions: Seq<ActionResponse>) -> bool {
    r matches PaymentsResponseData::MultipleCaptureResponse { captures } && captures@.map_values(
        |c: CaptureSyncResponse| c@,
    ) == capture_views(actions)
}

/// The schema a payment sync's body is decoded as.
pub open spec fn sync_schema(sync_type: SyncRequestType) -> SyncSchema {
    match sync_type {
        SyncRequestType::MultipleCaptureSync(_) => SyncSchema::Actions,
        SyncRequestType::SinglePaymentSync => SyncSchema::Single,
    }
}

/// `i` is the first position in `actions` of an action with id `id`.
pub open spec fn is_first_match(actions: Seq<ActionResponse>, id: Seq<char>, i: int) -> bool {
    0 <= i < actions.len() && has_action_id(actions[i], id) && forall|j: int|
        0 <= j < i ==> !has_action_id(#[trigger] actions[j], id)
}

/// Whether an action is the one with id `id`.
pub open spec fn has_action_id(a: ActionResponse, id: Seq<char>) -> bool {
    a.action_id@ == id
}

fn find_action(actions: &Vec<ActionResponse>, id: &String) -> (r: Option<usize>)
    ensures
        match r {
            Some(i) => is_first_match(actions@, id@, i as int),
            None => forall|j: int| 0 <= j < actions@.len() ==> !has_action_id(#[trigger] actions@[j], id@),
        },
{
    let mut i: usize = 0;
    while i < actions.len()
        invariant
            i <= actions@.len(),
            forall|j: int| 0 <= j < i ==> !has_action_id(#[trigger] actions@[j], id@),
        decreases actions@.len() - i,
    {
        if actions[i].action_id == *id {
            return Some(i);
        }
        i = i + 1;
    }
    None
}

fn transaction_of(p: &PaymentsResponse) -> (r: PaymentsResponseData)
    ensures
        is_transaction_of(r, *p),
{
    PaymentsResponseData::TransactionResponse {
        resource_id: p.id.clone(),
        connector_response_reference_id: p.reference.clone(),
        connector_status: Some(p.status.clone()),
    }
}

fn captures_of(actions: &Vec<ActionResponse>) -> (r: PaymentsResponseData)
    ensures
        is_captures_of(r, actions@),
{
    let mut captures: Vec<CaptureSyncResponse> = Vec::new();
    let mut i: usize = 0;
    while i < actions.len()
        invariant
            i <= actions@.len(),
            captures@.map_values(|c: CaptureSyncResponse| c@) == capture_views(actions@.subrange(0, i as int)),
        decreases actions@.len() - i,
    {
        let ghost before = captures@.map_values(|c: CaptureSyncResponse| c@);
        assert(actions@.subrange(0, i as int + 1).drop_last() =~= actions@.subrange(0, i as int));
        let a = &actions[i];
        if a.action_type == CheckoutActionType::Capture {
            let status = match a.approved {
                Some(true) => AttemptStatus::Charged,
                Some(false) => AttemptStatus::Failure,
                None => AttemptStatus::Pending,
            };
            captures.push(
                CaptureSyncResponse {
                    connector_capture_id: a.action_id.clone(),
                    amount: a.amount,
                    status,
                    connector_response_reference_id: a.reference.clone(),
                },
            );
            assert(captures@.map_values(|c: CaptureSyncResponse| c@) =~= before.push(captures@.last()@));
        }
        i = i + 1;
    }
    assert(actions@.subrange(0, actions@.len() as int) =~= actions@);
    PaymentsResponseData::MultipleCaptureResponse { captures }
}

impl Checkout {
    /// The schema a payment sync's body is to be decoded as: the action list
    /// for a sync of several captures, the payment object otherwise.
    pub fn psync_response_schema(&self, data: &SyncData) -> (r: SyncSchema)
        ensures
            r == sync_schema(data.sync_type),
    {
        match data.sync_type {
            SyncRequestType::MultipleCaptureSync(_) => SyncSchema::Actions,
            SyncRequestType::SinglePaymentSync => SyncSchema::Single,
        }
    }

    /// The result of a payment sync. A sync of several captures takes the
    /// action list and reports its captures; a single sync takes the payment
    /// object. A body of the other shape fails as undecodable.
    pub fn handle_psync_response(&self, data: &SyncData, parsed: Option<PaymentsSyncBody>) -> (r: Result<
        PaymentsResponseData,
        ConnectorError,
    >)
        ensures
            match (sync_schema(data.sync_type), parsed) {
                (SyncSchema::Actions, Some(PaymentsSyncBody::Actions(actions))) => (r matches Ok(x)
                    && is_captures_of(x, actions@)),
                (SyncSchema::Single, Some(PaymentsSyncBody::Single(p))) => (r matches Ok(x) && is_transaction_of(
                    x,
                    p,
                )),
                _ => r == Err::<PaymentsResponseData, ConnectorError>(
                    ConnectorError::ResponseDeserializationFailed,
                ),
            },
    {
        match (&data.sync_type, &parsed) {
            (SyncRequestType::MultipleCaptureSync(_), Some(PaymentsSyncBody::Actions(actions))) => Ok(
                captures_of(actions),
            ),
            (SyncRequestType::SinglePaymentSync, Some(PaymentsSyncBody::Single(p))) => Ok(transaction_of(p)),
            _ => Err(ConnectorError::ResponseDeserializationFailed),
        }
    }

    /// The result of an authorization: the processor's payment object.
    pub fn handle_authorize_response(&self, parsed: Option<PaymentsResponse>) -> (r: Result<
        PaymentsResponseData,
        ConnectorError,
    >)
        ensures
            match parsed {
                Some(p) => (r matches Ok(x) && is_transaction_of(x, p)),
                None => r == Err::<PaymentsResponseData, ConnectorError>(
                    ConnectorError::ResponseDeserializationFailed,
                ),
            },
    {
        match &parsed {
            Some(p) => Ok(transaction_of(p)),
            None => Err(ConnectorError::ResponseDeserializationFailed),
        }
    }

    /// The result of a capture: charged when the processor accepted it (202),
    /// pending otherwise; the payment keeps its transaction id.
    pub fn handle_capture_response(
        &self,
        data: &CaptureData,
        status_code: u16,
        parsed: Option<PaymentCaptureResponse>,
    ) -> (r: Result<(AttemptStatus, PaymentsResponseData), ConnectorError>)
        ensures
            match parsed {
                Some(c) => (r matches Ok((s, PaymentsResponseData::TransactionResponse {
                    resource_id,
                    connector_response_reference_id,
                    connector_status,
                })) && s == (if status_code == 202 {
                    AttemptStatus::Charged
                } else {
                    AttemptStatus::Pending
                }) && resource_id@ == data.connector_transaction_id@ && opt_view(
                    connector_response_reference_id,
                ) == opt_view(c.reference) && connector_status is None),
                None => r == Err::<(AttemptStatus, PaymentsResponseData), ConnectorError>(
                    ConnectorError::ResponseDeserializationFailed,
                ),
            },
    {
        match parsed {
            Some(c) => {
                let status = if status_code == 202 {
                    AttemptStatus::Charged
                } else {
                    AttemptStatus::Pending
                };
                Ok(
                    (
                        status,
                        PaymentsResponseData::TransactionResponse {
                            resource_id: data.connector_transaction_id.clone(),
                            connector_response_reference_id: c.reference,
                            connector_status: None,
                        },
                    ),
                )
            },
            None => Err(ConnectorError::ResponseDeserializationFailed),
        }
    }

    /// The result of a void: voided when the processor accepted it (202),
    /// failed otherwise.
    pub fn handle_void_response(&self, status_code: u16, parsed: Option<PaymentVoidResponse>) -> (r: Result<
        (AttemptStatus, PaymentsResponseData),
        ConnectorError,
    >)
        ensures
            match parsed {
                Some(v) => (r matches Ok((s, PaymentsResponseData::TransactionResponse {
                    resource_id,
                    connector_response_reference_id,
                    connector_status,
                })) && s == (if status_code == 202 {
                    AttemptStatus::Voided
                } else {
                    AttemptStatus::VoidFailed
                }) && resource_id@ == v.action_id@ && opt_view(connector_response_reference_id) == Some(
                    v.reference@,
                ) && connector_status is None),
                None => r == Err::<(AttemptStatus, PaymentsResponseData), ConnectorError>(
                    ConnectorError::ResponseDeserializationFailed,
                ),
            },
    {
        match parsed {
            Some(v) => {
                let status = if status_code == 202 {
                    AttemptStatus::Voided
                } else {
                    AttemptStatus::VoidFailed
                };
                Ok(
                    (
                        status,
                        PaymentsResponseData::TransactionResponse {
                            resource_id: v.action_id,
                            connector_response_reference_id: Some(v.reference),
                            connector_status: None,
                        },
                    ),
                )
            },
            None => Err(ConnectorError::ResponseDeserializationFailed),
        }
    }

    /// The result of a tokenization: the token.
    pub fn handle_tokenize_response(&self, parsed: Option<CheckoutTokenResponse>) -> (r: Result<
        PaymentsResponseData,
        ConnectorError,
    >)
        ensures
            match parsed {
                Some(t) => (r matches Ok(PaymentsResponseData::TokenizationResponse { token }) && token@
                    == t.token@),
                None => r == Err::<PaymentsResponseData, ConnectorError>(
                    ConnectorError::ResponseDeserializationFailed,
                ),
            },
    {
        match parsed {
            Some(t) => Ok(PaymentsResponseData::TokenizationResponse { token: t.token }),
            None => Err(ConnectorError::ResponseDeserializationFailed),
        }
    }

    /// The result of a refund: successful when the processor accepted it
    /// (202), failed otherwise.
    pub fn handle_refund_response(&self, status_code: u16, parsed: Option<RefundResponse>) -> (r: Result<
        RefundsResponseData,
        ConnectorError,
    >)
        ensures
            match parsed {
                Some(f) => (r matches Ok(x) && x.connector_refund_id@ == f.action_id@ && x.refund_status == (
                if status_code == 202 {
                    RefundStatus::Success
                } else {
                    RefundStatus::Failure
                })),
                None => r == Err::<RefundsResponseData, ConnectorError>(
                    ConnectorError::ResponseDeserializationFailed,
                ),
            },
    {
        match parsed {
            Some(f) => {
                let refund_status = if status_code == 202 {
                    RefundStatus::Success
                } else {
                    RefundStatus::Failure
                };
                Ok(RefundsResponseData { connector_refund_id: f.action_id, refund_status })
            },
            None => Err(ConnectorError::ResponseDeserializationFailed),
        }
    }

    /// The result of a refund sync: the action whose id is the refund's
    /// tracked id, first of them if several. Fails when the refund has no
    /// tracked id, when the body did not decode, and when no action matches.
    pub fn handle_refund_sync_response(&self, data: &RefundsData, parsed: Option<Vec<ActionResponse>>) -> (r: Result<
        RefundsResponseData,
        ConnectorError,
    >)
        ensures
            match (data.connector_refund_id, parsed) {
                (None, _) => r == Err::<RefundsResponseData, ConnectorError>(
                    ConnectorError::MissingConnectorTransactionID,
                ),
                (Some(_), None) => r == Err::<RefundsResponseData, ConnectorError>(
                    ConnectorError::ResponseDeserializationFailed,
                ),
                (Some(id), Some(actions)) => match r {
                    Ok(x) => exists|i: int|
                        #[trigger] is_first_match(actions@, id@, i) && x.connector_refund_id@ == id@
                            && x.refund_status == refund_approval_status(actions@[i].approved),
                    Err(e) => e == ConnectorError::ResponseHandlingFailed && forall|j: int|
                        0 <= j < actions@.len() ==> !has_action_id(#[trigger] actions@[j], id@),
                },
            },
    {
        let id = match &data.connector_refund_id {
            Some(id) => id,
            None => {
                return Err(ConnectorError::MissingConnectorTransactionID);
            },
        };
        let actions = match parsed {
            Some(a) => a,
            None => {
                return Err(ConnectorError::ResponseDeserializationFailed);
            },
        };
        match find_action(&actions, id) {
            Some(i) => {
                let refund_status = match actions[i].approved {
                    Some(true) => RefundStatus::Success,
                    Some(false) => RefundStatus::Failure,
                    None => RefundStatus::Pending,
                };
                let found = RefundsResponseData {
                    connector_refund_id: actions[i].action_id.clone(),
                    refund_status,
                };
                assert(is_first_match(actions@, id@, i as int));
                Ok(found)
            },
            None => Err(ConnectorError::ResponseHandlingFailed),
        }
    }

    /// The result of accepting a dispute. The body is not read: a success
    /// status is taken as the dispute accepted.
    pub fn handle_accept_dispute_response(&self) -> (r: Result<DisputeResponse, ConnectorError>)
        ensures
            r matches Ok(d) && d.dispute_status == DisputeStatus::DisputeAccepted && d.connector_status is None,
    {
        Ok(DisputeResponse { dispute_status: DisputeStatus::DisputeAccepted, connector_status: None })
    }

    /// The result of defending a dispute. The body is not read: a success
    /// status is taken as the dispute challenged.
    pub fn handle_defend_dispute_response(&self) -> (r: Result<DisputeResponse, ConnectorError>)
        ensures
            r matches Ok(d) && d.dispute_status == DisputeStatus::DisputeChallenged && d.connector_status is None,
    {
        Ok(DisputeResponse { dispute_status: DisputeStatus::DisputeChallenged, connector_status: None })
    }

    /// The result of submitting evidence. The body is not read: a success
    /// status is taken as the dispute challenged.
    pub fn handle_submit_evidence_response(&self) -> (r: Result<DisputeResponse, ConnectorError>)
        ensures
            r matches Ok(d) && d.dispute_status == DisputeStatus::DisputeChallenged && d.connector_status is None,
    {
        Ok(DisputeResponse { dispute_status: DisputeStatus::DisputeChallenged, connector_status: None })
    }

    /// The result of a file upload: the processor's file id.
    pub fn handle_upload_file_response(&self, parsed: Option<FileUploadResponse>) -> (r: Result<
        UploadFileResponse,
        ConnectorError,
    >)
        ensures
            match parsed {
                Some(f) => (r matches Ok(u) && u.provider_file_id@ == f.file_id@),
                None => r == Err::<UploadFileResponse, ConnectorError>(
                    ConnectorError::ResponseDeserializationFailed,
                ),
            },
    {
        match parsed {
            Some(f) => Ok(UploadFileResponse { provider_file_id: f.file_id }),
            None => Err(ConnectorError::ResponseDeserializationFailed),
        }
    }
}

} // verus!
