//! What the processor supports, and its answers to the engine's routine
//! questions about redirects and capture syncs.
use vstd::prelude::*;

use crate::checkout::Checkout;
use crate::types::{CaptureMethod, ConnectorError, ErrorResponse, PaymentMethod, PaymentMethodType, Response};
use crate::upstream::CheckoutErrorResponse;

verus! {

/// Where a redirected customer came back from.
#[derive(Debug, Clone, Copy, PartialEq, Eq, Structural)]
pub enum PaymentAction {
    PSync,
    CompleteAuthorize,
    PaymentAuthenticateCompleteAuthorize,
}

/// Whether the engine calls the processor after a redirect.
#[derive(Debug, Clone, Copy, PartialEq, Eq, Structural)]
pub enum CallConnectorAction {
    Trigger,
    Avoid,
}

/// How the captures of a payment are synced.
#[derive(Debug, Clone, Copy, PartialEq, Eq, Structural)]
pub enum CaptureSyncMethod {
    Individual,
    Bulk,
}

/// Whether a feature is supported.
#[derive(Debug, Clone, Copy, PartialEq, Eq, Structural)]
pub enum FeatureStatus {
    Supported,
    NotSupported,
}

/// Card networks.
#[derive(Debug, Clone, Copy, PartialEq, Eq, Structural)]
pub enum CardNetwork {
    AmericanExpress,
    CartesBancaires,
    DinersClub,
    Discover,
    JCB,
    Mastercard,
    Visa,
    UnionPay,
}

/// Kinds of payment connector.
#[derive(Debug, Clone, Copy, PartialEq, Eq, Structural)]
pub enum PaymentConnectorCategory {
    PaymentGateway,
    AlternativePaymentMethod,
    BankAcquirer,
}

/// Webhook event classes.
#[derive(Debug, Clone, Copy, PartialEq, Eq, Structural)]
pub enum EventClass {
    Payments,
    Refunds,
    Disputes,
}

/// Card-specific features of a payment method.
#[derive(Debug, Clone, PartialEq, Eq)]
pub struct CardSpecificFeatures {
    pub three_ds: FeatureStatus,
    pub no_three_ds: FeatureStatus,
    pub supported_card_networks: Vec<CardNetwork>,
}

/// What the processor supports for one payment method.
#[derive(Debug, Clone, PartialEq, Eq)]
pub struct SupportedPaymentMethod {
    pub payment_method: PaymentMethod,
    pub payment_method_type: PaymentMethodType,
    pub mandates: FeatureStatus,
    pub refunds: FeatureStatus,
    pub supported_capture_methods: Vec<CaptureMethod>,
    pub card_features: Option<CardSpecificFeatures>,
}

/// A description of the processor.
#[derive(Debug, Clone, Copy, PartialEq, Eq)]
pub struct ConnectorInfo {
    pub display_name: &'static str,
    pub description: &'static str,
    pub connector_type: PaymentConnectorCategory,
}

/// The capture methods the processor supports.
pub open spec fn supported_capture_methods() -> Seq<CaptureMethod> {
    seq![
        CaptureMethod::Automatic,
        CaptureMethod::Manual,
        CaptureMethod::SequentialAutomatic,
        CaptureMethod::ManualMultiple,
    ]
}

/// The card networks the processor takes.
pub open spec fn supported_card_networks() -> Seq<CardNetwork> {
    seq![
        CardNetwork::AmericanExpress,
        CardNetwork::CartesBancaires,
        CardNetwork::DinersClub,
        CardNetwork::Discover,
        CardNetwork::JCB,
        CardNetwork::Mastercard,
        CardNetwork::Visa,
        CardNetwork::UnionPay,
    ]
}

/// The (method, type) pairs the processor supports, in order.
pub open spec fn supported_method_pairs() -> Seq<(PaymentMethod, PaymentMethodType)> {
    seq![
        (PaymentMethod::Card, PaymentMethodType::Credit),
        (PaymentMethod::Card, PaymentMethodType::Debit),
        (PaymentMethod::Wallet, PaymentMethodType::GooglePay),
        (PaymentMethod::Wallet, PaymentMethodType::ApplePay),
    ]
}

fn capture_methods() -> (r: Vec<CaptureMethod>)
    ensures
        r@ == supported_capture_methods(),
{
    vec![
        CaptureMethod::Automatic,
        CaptureMethod::Manual,
        CaptureMethod::SequentialAutomatic,
        CaptureMethod::ManualMultiple,
    ]
}

fn card_features() -> (r: CardSpecificFeatures)
    ensures
        r.three_ds == FeatureStatus::Supported,
        r.no_three_ds == FeatureStatus::Supported,
        r.supported_card_networks@ == supported_card_networks(),
{
    CardSpecificFeatures {
        three_ds: FeatureStatus::Supported,
        no_three_ds: FeatureStatus::Supported,
        supported_card_networks: vec![
            CardNetwork::AmericanExpress,
            CardNetwork::CartesBancaires,
            CardNetwork::DinersClub,
            CardNetwork::Discover,
            CardNetwork::JCB,
            CardNetwork::Mastercard,
            CardNetwork::Visa,
            CardNetwork::UnionPay,
        ],
    }
}

/// `m` is the processor's entry for `pair`: no mandates, refunds, the
/// supported capture methods, and card features for cards alone.
pub open spec fn is_supported_entry(m: SupportedPaymentMethod, pair: (PaymentMethod, PaymentMethodType)) -> bool {
    &&& m.payment_method == pair.0
    &&& m.payment_method_type == pair.1
    &&& m.mandates == FeatureStatus::NotSupported
    &&& m.refunds == FeatureStatus::Supported
    &&& m.supported_capture_methods@ == supported_capture_methods()
    &&& match m.card_features {
        Some(f) => pair.0 == PaymentMethod::Card && f.three_ds == FeatureStatus::Supported && f.no_three_ds
            == FeatureStatus::Supported && f.supported_card_networks@ == supported_card_networks(),
        None => pair.0 != PaymentMethod::Card,
    }
}

fn supported_entry(payment_method: PaymentMethod, payment_method_type: PaymentMethodType) -> (r: SupportedPaymentMethod)
    ensures
        is_supported_entry(r, (payment_method, payment_method_type)),
{
    let card_features = match payment_method {
        PaymentMethod::Card => Some(card_features()),
        _ => None,
    };
    SupportedPaymentMethod {
        payment_method,
        payment_method_type,
        mandates: FeatureStatus::NotSupported,
        refunds: FeatureStatus::Supported,
        supported_capture_methods: capture_methods(),
        card_features,
    }
}

impl Checkout {
    /// After a redirect the engine always calls the processor.
    pub fn get_flow_type(&self, query_params: &str, action: PaymentAction) -> (r: Result<
        CallConnectorAction,
        ConnectorError,
    >)
        ensures
            r == Ok::<CallConnectorAction, ConnectorError>(CallConnectorAction::Trigger),
    {
        match action {
            PaymentAction::PSync
            | PaymentAction::CompleteAuthorize
            | PaymentAction::PaymentAuthenticateCompleteAuthorize => Ok(CallConnectorAction::Trigger),
        }
    }

    /// The captures of a payment are synced in one call.
    pub fn get_multiple_capture_sync_method(&self) -> (r: Result<CaptureSyncMethod, ConnectorError>)
        ensures
            r == Ok::<CaptureSyncMethod, ConnectorError>(CaptureSyncMethod::Bulk),
    {
        Ok(CaptureSyncMethod::Bulk)
    }

    /// The error of any flow's failed response, canonicalised by
    /// [`Checkout::build_error_response`].
    pub fn get_error_response(&self, res: &Response, decoded: Option<CheckoutErrorResponse>) -> (r: Result<
        ErrorResponse,
        ConnectorError,
    >)
        ensures
            match crate::checkout::error_body(res.status_code, res.response@, crate::checkout::decoded_view(decoded)) {
                Some(b) => (r matches Ok(e) && e@ == crate::checkout::canonical_error(res.status_code, b)),
                None => r == Err::<ErrorResponse, ConnectorError>(ConnectorError::ResponseDeserializationFailed),
            },
    {
        self.build_error_response(res, decoded)
    }

    /// A description of the processor.
    pub fn get_connector_about(&self) -> (r: Option<ConnectorInfo>)
        ensures
            r matches Some(i) && i.display_name@ == "Checkout"@ && i.connector_type
                == PaymentConnectorCategory::PaymentGateway,
    {
        Some(
            ConnectorInfo {
                display_name: "Checkout",
                description: "Checkout.com is a British multinational financial technology company that processes payments for other companies.",
                connector_type: PaymentConnectorCategory::PaymentGateway,
            },
        )
    }

    /// The payment methods the processor supports: credit and debit cards,
    /// Google Pay and Apple Pay.
    pub fn get_supported_payment_methods(&self) -> (r: Option<Vec<SupportedPaymentMethod>>)
        ensures
            r matches Some(v) && v@.len() == supported_method_pairs().len() && forall|i: int|
                0 <= i < v@.len() ==> is_supported_entry(#[trigger] v@[i], supported_method_pairs()[i]),
    {
        let v = vec![
            supported_entry(PaymentMethod::Card, PaymentMethodType::Credit),
            supported_entry(PaymentMethod::Card, PaymentMethodType::Debit),
            supported_entry(PaymentMethod::Wallet, PaymentMethodType::GooglePay),
            supported_entry(PaymentMethod::Wallet, PaymentMethodType::ApplePay),
        ];
        Some(v)
    }

    /// The webhook classes the processor sends.
    pub fn get_supported_webhook_flows(&self) -> (r: Option<Vec<EventClass>>)
        ensures
            r matches Some(v) && v@ == seq![EventClass::Payments, EventClass::Refunds, EventClass::Disputes],
    {
        Some(vec![EventClass::Payments, EventClass::Refunds, EventClass::Disputes])
    }
}

} // verus!
