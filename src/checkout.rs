//! The processor adapter: identity, credentials, error canonicalisation and
//! pre-flight validation.
use vstd::prelude::*;

use crate::amount::MinorUnitForConnector;
use crate::error_table::{classify, error_kind, priority_index, select_by_priority};
use crate::text::{join, joined, same_text, views_of};
use crate::types::{
    CaptureMethod, ConnectorAuthType, ConnectorError, ConnectorErrorType, ConnectorErrorView,
    CurrencyUnit, ErrorResponse, ErrorResponseView, Header, HeaderView, PaymentMethod,
    PaymentMethodType, Response,
};
use crate::upstream::{CheckoutErrorResponse, CheckoutErrorResponseView};

verus! {

/// Code reported when the processor gave none.
pub const NO_ERROR_CODE: &'static str = "No error code";

/// Message reported when the processor gave none.
pub const NO_ERROR_MESSAGE: &'static str = "No error message";

/// Largest file, in bytes, that the processor accepts as dispute evidence.
pub const MAX_FILE_SIZE: i32 = 4000000;

/// Reason given for a file over [`MAX_FILE_SIZE`].
pub const FILE_SIZE_REASON: &'static str = "file_size exceeded the max file size of 4MB";

/// Reason given for a file of a type the processor does not take.
pub const FILE_TYPE_REASON: &'static str = "file_type does not match JPEG, JPG, PNG, or PDF format";

/// Endpoint configuration of one processor.
#[derive(Debug, Clone, PartialEq, Eq)]
pub struct ConnectorParams {
    pub base_url: String,
}

/// Endpoint configuration of the processors the engine talks to.
#[derive(Debug, Clone, PartialEq, Eq)]
pub struct Connectors {
    pub checkout: ConnectorParams,
}

/// The credentials this processor takes: a public key, a secret key and a
/// processing channel.
#[derive(Debug, Clone, PartialEq, Eq)]
pub struct CheckoutAuthType {
    pub api_key: String,
    pub api_secret: String,
    pub processing_channel_id: String,
}

impl CheckoutAuthType {
    /// Reads the processor's credentials from the configured shape; only a
    /// signature key carries them.
    pub fn from_auth_type(auth_type: &ConnectorAuthType) -> (r: Result<CheckoutAuthType, ConnectorError>)
        ensures
            match auth_type {
                ConnectorAuthType::SignatureKey { api_key, key1, api_secret } => r matches Ok(a) && a.api_key@
                    == api_key@ && a.api_secret@ == api_secret@ && a.processing_channel_id@ == key1@,
                _ => r == Err::<CheckoutAuthType, ConnectorError>(ConnectorError::FailedToObtainAuthType),
            },
    {
        match auth_type {
            ConnectorAuthType::SignatureKey { api_key, key1, api_secret } => Ok(
                CheckoutAuthType {
                    api_key: api_key.clone(),
                    api_secret: api_secret.clone(),
                    processing_channel_id: key1.clone(),
                },
            ),
            _ => Err(ConnectorError::FailedToObtainAuthType),
        }
    }
}

/// The secret key of a credential set, when it has the processor's shape.
pub open spec fn secret_key(auth: ConnectorAuthType) -> Option<Seq<char>> {
    match auth {
        ConnectorAuthType::SignatureKey { api_secret, .. } => Some(api_secret@),
        _ => None,
    }
}

/// The public key of a credential set, when it has the processor's shape.
pub open spec fn public_key(auth: ConnectorAuthType) -> Option<Seq<char>> {
    match auth {
        ConnectorAuthType::SignatureKey { api_key, .. } => Some(api_key@),
        _ => None,
    }
}

/// The masked `Authorization: Bearer <key>` header.
pub open spec fn bearer_header(key: Seq<char>) -> HeaderView {
    HeaderView { name: "Authorization"@, value: "Bearer "@ + key, masked: true }
}

/// The `Content-Type` header.
pub open spec fn content_type_header(content_type: Seq<char>) -> HeaderView {
    HeaderView { name: "Content-Type"@, value: content_type, masked: false }
}

/// The view of a header list, or of the error that stopped it.
pub open spec fn headers_result_view(r: Result<Vec<Header>, ConnectorError>) -> Result<
    Seq<HeaderView>,
    ConnectorErrorView,
> {
    match r {
        Ok(h) => Ok(crate::types::header_views(h@)),
        Err(e) => Err(e@),
    }
}

/// The headers for a key: the bearer header alone.
pub open spec fn auth_headers(key: Option<Seq<char>>) -> Result<Seq<HeaderView>, ConnectorErrorView> {
    match key {
        Some(k) => Ok(seq![bearer_header(k)]),
        None => Err(ConnectorErrorView::FailedToObtainAuthType),
    }
}

/// The JSON content type followed by the bearer header for a key.
pub open spec fn json_auth_headers(key: Option<Seq<char>>) -> Result<Seq<HeaderView>, ConnectorErrorView> {
    match key {
        Some(k) => Ok(seq![content_type_header("application/json"@), bearer_header(k)]),
        None => Err(ConnectorErrorView::FailedToObtainAuthType),
    }
}

pub(crate) fn bearer(key: &String) -> (r: Header)
    ensures
        r@ == bearer_header(key@),
{
    let value = String::from_str("Bearer ").concat(key.as_str());
    Header { name: String::from_str("Authorization"), value, masked: true }
}

pub(crate) fn content_type(value: &str) -> (r: Header)
    ensures
        r@ == content_type_header(value@),
{
    Header { name: String::from_str("Content-Type"), value: String::from_str(value), masked: false }
}

/// The error body to canonicalise: the decoded body, or for an empty body one
/// made up from the status alone. `None` when a non-empty body did not decode.
pub open spec fn error_body(
    status: u16,
    body: Seq<u8>,
    decoded: Option<CheckoutErrorResponseView>,
) -> Option<CheckoutErrorResponseView> {
    if body.len() == 0 {
        if status == 401 {
            Some(
                CheckoutErrorResponseView {
                    request_id: None,
                    error_type: Some("invalid_api_key"@),
                    error_codes: Some(seq!["Invalid api key"@]),
                },
            )
        } else {
            Some(CheckoutErrorResponseView { request_id: None, error_type: None, error_codes: None })
        }
    } else {
        decoded
    }
}

/// The classes of a list of error codes.
pub open spec fn error_kinds(codes: Seq<Seq<char>>) -> Seq<ConnectorErrorType> {
    codes.map_values(|c: Seq<char>| error_kind(c))
}

/// The code surfaced among several: the earliest of highest priority.
pub open spec fn primary_code(codes: Seq<Seq<char>>) -> Option<Seq<char>> {
    if codes.len() == 0 {
        None
    } else {
        Some(codes[priority_index(error_kinds(codes))])
    }
}

/// The canonical error for an error body received with `status`.
pub open spec fn canonical_error(status: u16, body: CheckoutErrorResponseView) -> ErrorResponseView {
    let codes = match body.error_codes {
        Some(c) => c,
        None => Seq::empty(),
    };
    let primary = primary_code(codes);
    ErrorResponseView {
        status_code: status,
        code: match primary {
            Some(c) => c,
            None => NO_ERROR_CODE@,
        },
        message: match primary {
            Some(c) => c,
            None => NO_ERROR_MESSAGE@,
        },
        reason: match body.error_codes {
            Some(c) => Some(joined(c, " & "@)),
            None => body.error_type,
        },
        attempt_status: None,
        connector_transaction_id: body.request_id,
        network_advice_code: None,
        network_decline_code: None,
        network_error_message: None,
    }
}

/// The view of an optionally decoded error body.
pub open spec fn decoded_view(decoded: Option<CheckoutErrorResponse>) -> Option<CheckoutErrorResponseView> {
    match decoded {
        Some(d) => Some(d@),
        None => None,
    }
}

/// The allowed MIME types of dispute evidence.
pub open spec fn allowed_file_type(t: Seq<char>) -> bool {
    t == "image/jpeg"@ || t == "image/jpg"@ || t == "image/png"@ || t == "application/pdf"@
}

/// The failure for a file rejected for `reason`.
pub open spec fn rejected_file(reason: Seq<char>) -> ConnectorErrorView {
    ConnectorErrorView::FileValidationFailed { reason }
}

/// Purposes a file can be uploaded for.
#[derive(Debug, Clone, Copy, PartialEq, Eq, Structural)]
pub enum FilePurpose {
    DisputeEvidence,
}

/// The adapter for the processor. It holds nothing but its amount strategy and
/// is shared read-only.
#[derive(Debug, Clone, Copy, PartialEq, Eq, Structural)]
pub struct Checkout {
    amount_converter: MinorUnitForConnector,
}

impl Checkout {
    /// The shared adapter instance.
    pub fn new() -> (r: &'static Checkout) {
        &Checkout { amount_converter: MinorUnitForConnector }
    }

    /// The strategy that amounts are converted with before they are sent.
    pub fn amount_converter(&self) -> (r: MinorUnitForConnector) {
        self.amount_converter
    }

    /// The adapter's stable identifier.
    pub fn id(&self) -> (r: &'static str)
        ensures
            r@ == "checkout"@,
    {
        "checkout"
    }

    /// Amounts go to this processor in minor units.
    pub fn get_currency_unit(&self) -> (r: CurrencyUnit)
        ensures
            r == CurrencyUnit::Minor,
    {
        CurrencyUnit::Minor
    }

    /// The content type of JSON flows.
    pub fn common_get_content_type(&self) -> (r: &'static str)
        ensures
            r@ == "application/json"@,
    {
        "application/json"
    }

    /// The processor's endpoint, from the configuration.
    pub fn base_url<'a>(&self, connectors: &'a Connectors) -> (r: &'a str)
        ensures
            r@ == connectors.checkout.base_url@,
    {
        connectors.checkout.base_url.as_str()
    }

    /// The authorization header, carrying the secret key.
    pub fn get_auth_header(&self, auth_type: &ConnectorAuthType) -> (r: Result<Vec<Header>, ConnectorError>)
        ensures
            headers_result_view(r) == auth_headers(secret_key(*auth_type)),
    {
        let auth = CheckoutAuthType::from_auth_type(auth_type)?;
        let h = bearer(&auth.api_secret);
        let r = vec![h];
        assert(crate::types::header_views(r@) =~= seq![bearer_header(auth.api_secret@)]);
        Ok(r)
    }

    /// Canonicalises a non-success upstream response. `decoded` is the body
    /// decoded as the processor's error shape, `None` when it did not decode;
    /// it is not read when the body is empty.
    pub fn build_error_response(&self, res: &Response, decoded: Option<CheckoutErrorResponse>) -> (r: Result<
        ErrorResponse,
        ConnectorError,
    >)
        ensures
            match error_body(res.status_code, res.response@, decoded_view(decoded)) {
                Some(b) => r matches Ok(e) && e@ == canonical_error(res.status_code, b),
                None => r == Err::<ErrorResponse, ConnectorError>(ConnectorError::ResponseDeserializationFailed),
            },
    {
        let body = if res.response.len() == 0 {
            if res.status_code == 401 {
                let codes = vec![String::from_str("Invalid api key")];
                assert(views_of(codes@) =~= seq!["Invalid api key"@]);
                CheckoutErrorResponse {
                    request_id: None,
                    error_type: Some(String::from_str("invalid_api_key")),
                    error_codes: Some(codes),
                }
            } else {
                CheckoutErrorResponse { request_id: None, error_type: None, error_codes: None }
            }
        } else {
            match decoded {
                Some(d) => d,
                None => {
                    return Err(ConnectorError::ResponseDeserializationFailed);
                },
            }
        };
        let ghost b = body@;
        let empty: Vec<String> = Vec::new();
        let codes: &Vec<String> = match &body.error_codes {
            Some(c) => c,
            None => &empty,
        };
        let ghost code_views = views_of(codes@);
        let mut kinds: Vec<ConnectorErrorType> = Vec::new();
        let mut i: usize = 0;
        while i < codes.len()
            invariant
                i <= codes@.len(),
                code_views == views_of(codes@),
                kinds@ =~= error_kinds(code_views).subrange(0, i as int),
            decreases codes@.len() - i,
        {
            kinds.push(classify(codes[i].as_str()));
            i = i + 1;
        }
        assert(kinds@ =~= error_kinds(code_views));
        let picked = select_by_priority(&kinds);
        if kinds.len() > 0 {
            proof {
                crate::error_table::lemma_priority_index_is_first_lowest(kinds@);
            }
        }
        let (code, message) = match picked {
            Some(k) => (codes[k].clone(), codes[k].clone()),
            None => (String::from_str(NO_ERROR_CODE), String::from_str(NO_ERROR_MESSAGE)),
        };
        let reason = match &body.error_codes {
            Some(c) => Some(join(c, " & ")),
            None => body.error_type,
        };
        let r = ErrorResponse {
            status_code: res.status_code,
            code,
            message,
            reason,
            attempt_status: None,
            connector_transaction_id: body.request_id,
            network_advice_code: None,
            network_decline_code: None,
            network_error_message: None,
        };
        assert(r@ == canonical_error(res.status_code, b));
        Ok(r)
    }

    /// Checks that the processor supports the capture method asked for (the
    /// default one when none is named). The payment method does not matter here.
    pub fn validate_connector_against_payment_request(
        &self,
        capture_method: Option<CaptureMethod>,
        payment_method: PaymentMethod,
        pmt: Option<PaymentMethodType>,
    ) -> (r: Result<(), ConnectorError>)
        ensures
            ({
                let m = match capture_method {
                    Some(m) => m,
                    None => CaptureMethod::Automatic,
                };
                match r {
                    Ok(()) => m != CaptureMethod::Scheduled,
                    Err(e) => m == CaptureMethod::Scheduled && e@ == ConnectorErrorView::NotImplemented(
                        m.spec_name() + " for "@ + "checkout"@,
                    ),
                }
            }),
    {
        let capture_method = match capture_method {
            Some(m) => m,
            None => CaptureMethod::default_method(),
        };
        match capture_method {
            CaptureMethod::Automatic
            | CaptureMethod::SequentialAutomatic
            | CaptureMethod::Manual
            | CaptureMethod::ManualMultiple => Ok(()),
            CaptureMethod::Scheduled => {
                let message = String::from_str(capture_method.name()).concat(" for ").concat(self.id());
                Err(ConnectorError::NotImplemented(message))
            },
        }
    }

    /// Checks a file before it is uploaded as dispute evidence: the size is
    /// checked first, then the MIME type.
    pub fn validate_file_upload(&self, purpose: FilePurpose, file_size: i32, file_type: &str) -> (r: Result<
        (),
        ConnectorError,
    >)
        ensures
            file_size > MAX_FILE_SIZE ==> (r matches Err(e) && e@ == rejected_file(FILE_SIZE_REASON@)),
            file_size <= MAX_FILE_SIZE && !allowed_file_type(file_type@) ==> (r matches Err(e) && e@
                == rejected_file(FILE_TYPE_REASON@)),
            file_size <= MAX_FILE_SIZE && allowed_file_type(file_type@) ==> (r is Ok),
    {
        match purpose {
            FilePurpose::DisputeEvidence => {
                if file_size > MAX_FILE_SIZE {
                    return Err(
                        ConnectorError::FileValidationFailed { reason: String::from_str(FILE_SIZE_REASON) },
                    );
                }
                let supported = same_text(file_type, "image/jpeg") || same_text(file_type, "image/jpg")
                    || same_text(file_type, "image/png") || same_text(file_type, "application/pdf");
                if !supported {
                    return Err(
                        ConnectorError::FileValidationFailed { reason: String::from_str(FILE_TYPE_REASON) },
                    );
                }
            },
        }
        Ok(())
    }

    /// The class of an upstream error code; the message is not consulted.
    pub fn get_connector_error_type(&self, error_code: &str, error_message: &str) -> (r: ConnectorErrorType)
        ensures
            r == error_kind(error_code@),
    {
        classify(error_code)
    }
}

} // verus!
