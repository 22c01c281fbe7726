use checkout_connector::checkout::{Checkout, NO_ERROR_CODE, NO_ERROR_MESSAGE};
use checkout_connector::error_table::{classify, listed_error_type, select_by_priority};
use checkout_connector::types::{ConnectorError, ConnectorErrorType, Response};
use checkout_connector::upstream::CheckoutErrorResponse;

fn response(status_code: u16, body: &[u8]) -> Response {
    Response { status_code, response: body.to_vec() }
}

#[test]
fn listed_codes_have_their_class() {
    assert_eq!(classify("card_expired"), ConnectorErrorType::UserError);
    assert_eq!(classify("token_used"), ConnectorErrorType::BusinessError);
    assert_eq!(classify("processing_error"), ConnectorErrorType::TechnicalError);
    assert_eq!(classify("3ds_malfunction"), ConnectorErrorType::TechnicalError);
    assert_eq!(classify("token_data_invalid"), ConnectorErrorType::UserError);
    assert_eq!(listed_error_type("action_failure_limit_exceeded"), Some(ConnectorErrorType::BusinessError));
}

#[test]
fn unlisted_codes_are_unknown() {
    for code in ["", "not_a_code", "CARD_EXPIRED", "card_expired ", "Invalid api key"] {
        assert_eq!(listed_error_type(code), None);
        assert_eq!(classify(code), ConnectorErrorType::UnknownError);
    }
    let checkout = Checkout::new();
    assert_eq!(checkout.get_connector_error_type("zzz", "card_expired"), ConnectorErrorType::UnknownError);
}

#[test]
fn priority_picks_first_of_lowest_rank() {
    assert_eq!(select_by_priority(&vec![]), None);
    assert_eq!(select_by_priority(&vec![ConnectorErrorType::TechnicalError, ConnectorErrorType::UserError, ConnectorErrorType::BusinessError, ConnectorErrorType::UserError]), Some(1));
    assert_eq!(select_by_priority(&vec![ConnectorErrorType::BusinessError, ConnectorErrorType::UnknownError, ConnectorErrorType::UnknownError]), Some(1));
    assert_eq!(select_by_priority(&vec![ConnectorErrorType::TechnicalError]), Some(0));
}

#[test]
fn unauthorized_empty_body_gives_invalid_api_key() {
    let checkout = Checkout::new();
    let e = checkout.build_error_response(&response(401, b""), None).unwrap();
    assert_eq!(e.status_code, 401);
    assert_eq!(e.code, "Invalid api key");
    assert_eq!(e.message, "Invalid api key");
    assert_eq!(e.reason, Some("Invalid api key".to_string()));
    assert_eq!(e.attempt_status, None);
    assert_eq!(e.connector_transaction_id, None);
}

#[test]
fn other_empty_body_gives_no_code() {
    let checkout = Checkout::new();
    let e = checkout.build_error_response(&response(500, b""), None).unwrap();
    assert_eq!(e.status_code, 500);
    assert_eq!(e.code, NO_ERROR_CODE);
    assert_eq!(e.message, NO_ERROR_MESSAGE);
    assert_eq!(e.code, "No error code");
    assert_eq!(e.message, "No error message");
    assert_eq!(e.reason, None);
}

#[test]
fn undecodable_body_fails() {
    let checkout = Checkout::new();
    let r = checkout.build_error_response(&response(400, b"<html>"), None);
    assert_eq!(r, Err(ConnectorError::ResponseDeserializationFailed));
}

#[test]
fn several_codes_surface_by_priority_and_join_in_reason() {
    let checkout = Checkout::new();
    let decoded = CheckoutErrorResponse {
        request_id: Some("req_1".to_string()),
        error_type: Some("request_invalid".to_string()),
        error_codes: Some(vec![
            "processing_error".to_string(),
            "card_expired".to_string(),
            "cvv_invalid".to_string(),
        ]),
    };
    let e = checkout.build_error_response(&response(422, b"{}"), Some(decoded)).unwrap();
    assert_eq!(e.status_code, 422);
    assert_eq!(e.code, "card_expired");
    assert_eq!(e.message, "card_expired");
    assert_eq!(e.reason, Some("processing_error & card_expired & cvv_invalid".to_string()));
    assert_eq!(e.connector_transaction_id, Some("req_1".to_string()));
}

#[test]
fn unknown_code_outranks_listed_ones() {
    let checkout = Checkout::new();
    let decoded = CheckoutErrorResponse {
        request_id: None,
        error_type: None,
        error_codes: Some(vec!["card_expired".to_string(), "brand_new_code".to_string()]),
    };
    let e = checkout.build_error_response(&response(422, b"{}"), Some(decoded)).unwrap();
    assert_eq!(e.code, "brand_new_code");
}

#[test]
fn error_type_is_reason_without_codes() {
    let checkout = Checkout::new();
    let decoded = CheckoutErrorResponse {
        request_id: None,
        error_type: Some("unprocessable_entity".to_string()),
        error_codes: None,
    };
    let e = checkout.get_error_response(&response(422, b"{}"), Some(decoded)).unwrap();
    assert_eq!(e.code, "No error code");
    assert_eq!(e.reason, Some("unprocessable_entity".to_string()));
}
