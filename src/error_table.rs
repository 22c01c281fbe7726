//! The processor's error-code vocabulary and the priority rule used when an
//! upstream response carries several codes at once.
use vstd::prelude::*;

use crate::text::same_text;
use crate::types::ConnectorErrorType;

verus! {

/// The class that the processor's table gives `code`, if it lists it.
pub open spec fn listed_error_kind(code: Seq<char>) -> Option<ConnectorErrorType> {
    if code == "action_failure_limit_exceeded"@ {
        Some(ConnectorErrorType::BusinessError)
    } else if code == "address_invalid"@ {
        Some(ConnectorErrorType::UserError)
    } else if code == "amount_exceeds_balance"@ {
        Some(ConnectorErrorType::BusinessError)
    } else if code == "amount_invalid"@ {
        Some(ConnectorErrorType::UserError)
    } else if code == "api_calls_quota_exceeded"@ {
        Some(ConnectorErrorType::TechnicalError)
    } else if code == "billing_descriptor_city_invalid"@ {
        Some(ConnectorErrorType::UserError)
    } else if code == "billing_descriptor_city_required"@ {
        Some(ConnectorErrorType::UserError)
    } else if code == "billing_descriptor_name_invalid"@ {
        Some(ConnectorErrorType::UserError)
    } else if code == "billing_descriptor_name_required"@ {
        Some(ConnectorErrorType::UserError)
    } else if code == "business_invalid"@ {
        Some(ConnectorErrorType::BusinessError)
    } else if code == "business_settings_missing"@ {
        Some(ConnectorErrorType::BusinessError)
    } else if code == "capture_value_greater_than_authorized"@ {
        Some(ConnectorErrorType::BusinessError)
    } else if code == "capture_value_greater_than_remaining_authorized"@ {
        Some(ConnectorErrorType::BusinessError)
    } else if code == "card_authorization_failed"@ {
        Some(ConnectorErrorType::UserError)
    } else if code == "card_disabled"@ {
        Some(ConnectorErrorType::UserError)
    } else if code == "card_expired"@ {
        Some(ConnectorErrorType::UserError)
    } else if code == "card_expiry_month_invalid"@ {
        Some(ConnectorErrorType::UserError)
    } else if code == "card_expiry_month_required"@ {
        Some(ConnectorErrorType::UserError)
    } else if code == "card_expiry_year_invalid"@ {
        Some(ConnectorErrorType::UserError)
    } else if code == "card_expiry_year_required"@ {
        Some(ConnectorErrorType::UserError)
    } else if code == "card_holder_invalid"@ {
        Some(ConnectorErrorType::UserError)
    } else if code == "card_not_found"@ {
        Some(ConnectorErrorType::UserError)
    } else if code == "card_number_invalid"@ {
        Some(ConnectorErrorType::UserError)
    } else if code == "card_number_required"@ {
        Some(ConnectorErrorType::UserError)
    } else if code == "channel_details_invalid"@ {
        Some(ConnectorErrorType::BusinessError)
    } else if code == "channel_url_missing"@ {
        Some(ConnectorErrorType::BusinessError)
    } else if code == "charge_details_invalid"@ {
        Some(ConnectorErrorType::BusinessError)
    } else if code == "city_invalid"@ {
        Some(ConnectorErrorType::BusinessError)
    } else if code == "country_address_invalid"@ {
        Some(ConnectorErrorType::UserError)
    } else if code == "country_invalid"@ {
        Some(ConnectorErrorType::UserError)
    } else if code == "country_phone_code_invalid"@ {
        Some(ConnectorErrorType::UserError)
    } else if code == "country_phone_code_length_invalid"@ {
        Some(ConnectorErrorType::UserError)
    } else if code == "currency_invalid"@ {
        Some(ConnectorErrorType::UserError)
    } else if code == "currency_required"@ {
        Some(ConnectorErrorType::UserError)
    } else if code == "customer_already_exists"@ {
        Some(ConnectorErrorType::BusinessError)
    } else if code == "customer_email_invalid"@ {
        Some(ConnectorErrorType::UserError)
    } else if code == "customer_id_invalid"@ {
        Some(ConnectorErrorType::BusinessError)
    } else if code == "customer_not_found"@ {
        Some(ConnectorErrorType::BusinessError)
    } else if code == "customer_number_invalid"@ {
        Some(ConnectorErrorType::UserError)
    } else if code == "customer_plan_edit_failed"@ {
        Some(ConnectorErrorType::BusinessError)
    } else if code == "customer_plan_id_invalid"@ {
        Some(ConnectorErrorType::BusinessError)
    } else if code == "cvv_invalid"@ {
        Some(ConnectorErrorType::UserError)
    } else if code == "email_in_use"@ {
        Some(ConnectorErrorType::BusinessError)
    } else if code == "email_invalid"@ {
        Some(ConnectorErrorType::UserError)
    } else if code == "email_required"@ {
        Some(ConnectorErrorType::UserError)
    } else if code == "endpoint_invalid"@ {
        Some(ConnectorErrorType::TechnicalError)
    } else if code == "expiry_date_format_invalid"@ {
        Some(ConnectorErrorType::UserError)
    } else if code == "fail_url_invalid"@ {
        Some(ConnectorErrorType::TechnicalError)
    } else if code == "first_name_required"@ {
        Some(ConnectorErrorType::UserError)
    } else if code == "last_name_required"@ {
        Some(ConnectorErrorType::UserError)
    } else if code == "ip_address_invalid"@ {
        Some(ConnectorErrorType::UserError)
    } else if code == "issuer_network_unavailable"@ {
        Some(ConnectorErrorType::TechnicalError)
    } else if code == "metadata_key_invalid"@ {
        Some(ConnectorErrorType::BusinessError)
    } else if code == "parameter_invalid"@ {
        Some(ConnectorErrorType::UserError)
    } else if code == "password_invalid"@ {
        Some(ConnectorErrorType::UserError)
    } else if code == "payment_expired"@ {
        Some(ConnectorErrorType::BusinessError)
    } else if code == "payment_invalid"@ {
        Some(ConnectorErrorType::BusinessError)
    } else if code == "payment_method_invalid"@ {
        Some(ConnectorErrorType::UserError)
    } else if code == "payment_source_required"@ {
        Some(ConnectorErrorType::UserError)
    } else if code == "payment_type_invalid"@ {
        Some(ConnectorErrorType::UserError)
    } else if code == "phone_number_invalid"@ {
        Some(ConnectorErrorType::UserError)
    } else if code == "phone_number_length_invalid"@ {
        Some(ConnectorErrorType::UserError)
    } else if code == "previous_payment_id_invalid"@ {
        Some(ConnectorErrorType::BusinessError)
    } else if code == "recipient_account_number_invalid"@ {
        Some(ConnectorErrorType::BusinessError)
    } else if code == "recipient_account_number_required"@ {
        Some(ConnectorErrorType::UserError)
    } else if code == "recipient_dob_required"@ {
        Some(ConnectorErrorType::UserError)
    } else if code == "recipient_last_name_required"@ {
        Some(ConnectorErrorType::UserError)
    } else if code == "recipient_zip_invalid"@ {
        Some(ConnectorErrorType::UserError)
    } else if code == "recipient_zip_required"@ {
        Some(ConnectorErrorType::UserError)
    } else if code == "recurring_plan_exists"@ {
        Some(ConnectorErrorType::BusinessError)
    } else if code == "recurring_plan_not_exist"@ {
        Some(ConnectorErrorType::BusinessError)
    } else if code == "recurring_plan_removal_failed"@ {
        Some(ConnectorErrorType::BusinessError)
    } else if code == "request_invalid"@ {
        Some(ConnectorErrorType::UserError)
    } else if code == "request_json_invalid"@ {
        Some(ConnectorErrorType::UserError)
    } else if code == "risk_enabled_required"@ {
        Some(ConnectorErrorType::BusinessError)
    } else if code == "server_api_not_allowed"@ {
        Some(ConnectorErrorType::TechnicalError)
    } else if code == "source_email_invalid"@ {
        Some(ConnectorErrorType::UserError)
    } else if code == "source_email_required"@ {
        Some(ConnectorErrorType::UserError)
    } else if code == "source_id_invalid"@ {
        Some(ConnectorErrorType::BusinessError)
    } else if code == "source_id_or_email_required"@ {
        Some(ConnectorErrorType::UserError)
    } else if code == "source_id_required"@ {
        Some(ConnectorErrorType::UserError)
    } else if code == "source_id_unknown"@ {
        Some(ConnectorErrorType::BusinessError)
    } else if code == "source_invalid"@ {
        Some(ConnectorErrorType::BusinessError)
    } else if code == "source_or_destination_required"@ {
        Some(ConnectorErrorType::BusinessError)
    } else if code == "source_token_invalid"@ {
        Some(ConnectorErrorType::BusinessError)
    } else if code == "source_token_required"@ {
        Some(ConnectorErrorType::UserError)
    } else if code == "source_token_type_required"@ {
        Some(ConnectorErrorType::UserError)
    } else if code == "source_token_type_invalid"@ {
        Some(ConnectorErrorType::BusinessError)
    } else if code == "source_type_required"@ {
        Some(ConnectorErrorType::UserError)
    } else if code == "sub_entities_count_invalid"@ {
        Some(ConnectorErrorType::BusinessError)
    } else if code == "success_url_invalid"@ {
        Some(ConnectorErrorType::BusinessError)
    } else if code == "3ds_malfunction"@ {
        Some(ConnectorErrorType::TechnicalError)
    } else if code == "3ds_not_configured"@ {
        Some(ConnectorErrorType::BusinessError)
    } else if code == "3ds_not_enabled_for_card"@ {
        Some(ConnectorErrorType::BusinessError)
    } else if code == "3ds_not_supported"@ {
        Some(ConnectorErrorType::BusinessError)
    } else if code == "3ds_payment_required"@ {
        Some(ConnectorErrorType::BusinessError)
    } else if code == "token_expired"@ {
        Some(ConnectorErrorType::BusinessError)
    } else if code == "token_in_use"@ {
        Some(ConnectorErrorType::BusinessError)
    } else if code == "token_invalid"@ {
        Some(ConnectorErrorType::BusinessError)
    } else if code == "token_required"@ {
        Some(ConnectorErrorType::UserError)
    } else if code == "token_type_required"@ {
        Some(ConnectorErrorType::UserError)
    } else if code == "token_used"@ {
        Some(ConnectorErrorType::BusinessError)
    } else if code == "void_amount_invalid"@ {
        Some(ConnectorErrorType::BusinessError)
    } else if code == "wallet_id_invalid"@ {
        Some(ConnectorErrorType::BusinessError)
    } else if code == "zip_invalid"@ {
        Some(ConnectorErrorType::UserError)
    } else if code == "processing_key_required"@ {
        Some(ConnectorErrorType::BusinessError)
    } else if code == "processing_value_required"@ {
        Some(ConnectorErrorType::BusinessError)
    } else if code == "3ds_version_invalid"@ {
        Some(ConnectorErrorType::BusinessError)
    } else if code == "3ds_version_not_supported"@ {
        Some(ConnectorErrorType::BusinessError)
    } else if code == "processing_error"@ {
        Some(ConnectorErrorType::TechnicalError)
    } else if code == "service_unavailable"@ {
        Some(ConnectorErrorType::TechnicalError)
    } else if code == "token_type_invalid"@ {
        Some(ConnectorErrorType::UserError)
    } else if code == "token_data_invalid"@ {
        Some(ConnectorErrorType::UserError)
    } else {
        None
    }
}

/// The class of an upstream error code: codes outside the table are unknown errors.
pub open spec fn error_kind(code: Seq<char>) -> ConnectorErrorType {
    match listed_error_kind(code) {
        Some(k) => k,
        None => ConnectorErrorType::UnknownError,
    }
}

/// Looks `code` up in the processor's table.
pub fn listed_error_type(code: &str) -> (r: Option<ConnectorErrorType>)
    ensures
        r == listed_error_kind(code@),
{
    if same_text(code, "action_failure_limit_exceeded") {
        Some(ConnectorErrorType::BusinessError)
    } else if same_text(code, "address_invalid") {
        Some(ConnectorErrorType::UserError)
    } else if same_text(code, "amount_exceeds_balance") {
        Some(ConnectorErrorType::BusinessError)
    } else if same_text(code, "amount_invalid") {
        Some(ConnectorErrorType::UserError)
    } else if same_text(code, "api_calls_quota_exceeded") {
        Some(ConnectorErrorType::TechnicalError)
    } else if same_text(code, "billing_descriptor_city_invalid") {
        Some(ConnectorErrorType::UserError)
    } else if same_text(code, "billing_descriptor_city_required") {
        Some(ConnectorErrorType::UserError)
    } else if same_text(code, "billing_descriptor_name_invalid") {
        Some(ConnectorErrorType::UserError)
    } else if same_text(code, "billing_descriptor_name_required") {
        Some(ConnectorErrorType::UserError)
    } else if same_text(code, "business_invalid") {
        Some(ConnectorErrorType::BusinessError)
    } else if same_text(code, "business_settings_missing") {
        Some(ConnectorErrorType::BusinessError)
    } else if same_text(code, "capture_value_greater_than_authorized") {
        Some(ConnectorErrorType::BusinessError)
    } else if same_text(code, "capture_value_greater_than_remaining_authorized") {
        Some(ConnectorErrorType::BusinessError)
    } else if same_text(code, "card_authorization_failed") {
        Some(ConnectorErrorType::UserError)
    } else if same_text(code, "card_disabled") {
        Some(ConnectorErrorType::UserError)
    } else if same_text(code, "card_expired") {
        Some(ConnectorErrorType::UserError)
    } else if same_text(code, "card_expiry_month_invalid") {
        Some(ConnectorErrorType::UserError)
    } else if same_text(code, "card_expiry_month_required") {
        Some(ConnectorErrorType::UserError)
    } else if same_text(code, "card_expiry_year_invalid") {
        Some(ConnectorErrorType::UserError)
    } else if same_text(code, "card_expiry_year_required") {
        Some(ConnectorErrorType::UserError)
    } else if same_text(code, "card_holder_invalid") {
        Some(ConnectorErrorType::UserError)
    } else if same_text(code, "card_not_found") {
        Some(ConnectorErrorType::UserError)
    } else if same_text(code, "card_number_invalid") {
        Some(ConnectorErrorType::UserError)
    } else if same_text(code, "card_number_required") {
        Some(ConnectorErrorType::UserError)
    } else if same_text(code, "channel_details_invalid") {
        Some(ConnectorErrorType::BusinessError)
    } else if same_text(code, "channel_url_missing") {
        Some(ConnectorErrorType::BusinessError)
    } else if same_text(code, "charge_details_invalid") {
        Some(ConnectorErrorType::BusinessError)
    } else if same_text(code, "city_invalid") {
        Some(ConnectorErrorType::BusinessError)
    } else if same_text(code, "country_address_invalid") {
        Some(ConnectorErrorType::UserError)
    } else if same_text(code, "country_invalid") {
        Some(ConnectorErrorType::UserError)
    } else if same_text(code, "country_phone_code_invalid") {
        Some(ConnectorErrorType::UserError)
    } else if same_text(code, "country_phone_code_length_invalid") {
        Some(ConnectorErrorType::UserError)
    } else if same_text(code, "currency_invalid") {
        Some(ConnectorErrorType::UserError)
    } else if same_text(code, "currency_required") {
        Some(ConnectorErrorType::UserError)
    } else if same_text(code, "customer_already_exists") {
        Some(ConnectorErrorType::BusinessError)
    } else if same_text(code, "customer_email_invalid") {
        Some(ConnectorErrorType::UserError)
    } else if same_text(code, "customer_id_invalid") {
        Some(ConnectorErrorType::BusinessError)
    } else if same_text(code, "customer_not_found") {
        Some(ConnectorErrorType::BusinessError)
    } else if same_text(code, "customer_number_invalid") {
        Some(ConnectorErrorType::UserError)
    } else if same_text(code, "customer_plan_edit_failed") {
        Some(ConnectorErrorType::BusinessError)
    } else if same_text(code, "customer_plan_id_invalid") {
        Some(ConnectorErrorType::BusinessError)
    } else if same_text(code, "cvv_invalid") {
        Some(ConnectorErrorType::UserError)
    } else if same_text(code, "email_in_use") {
        Some(ConnectorErrorType::BusinessError)
    } else if same_text(code, "email_invalid") {
        Some(ConnectorErrorType::UserError)
    } else if same_text(code, "email_required") {
        Some(ConnectorErrorType::UserError)
    } else if same_text(code, "endpoint_invalid") {
        Some(ConnectorErrorType::TechnicalError)
    } else if same_text(code, "expiry_date_format_invalid") {
        Some(ConnectorErrorType::UserError)
    } else if same_text(code, "fail_url_invalid") {
        Some(ConnectorErrorType::TechnicalError)
    } else if same_text(code, "first_name_required") {
        Some(ConnectorErrorType::UserError)
    } else if same_text(code, "last_name_required") {
        Some(ConnectorErrorType::UserError)
    } else if same_text(code, "ip_address_invalid") {
        Some(ConnectorErrorType::UserError)
    } else if same_text(code, "issuer_network_unavailable") {
        Some(ConnectorErrorType::TechnicalError)
    } else if same_text(code, "metadata_key_invalid") {
        Some(ConnectorErrorType::BusinessError)
    } else if same_text(code, "parameter_invalid") {
        Some(ConnectorErrorType::UserError)
    } else if same_text(code, "password_invalid") {
        Some(ConnectorErrorType::UserError)
    } else if same_text(code, "payment_expired") {
        Some(ConnectorErrorType::BusinessError)
    } else if same_text(code, "payment_invalid") {
        Some(ConnectorErrorType::BusinessError)
    } else if same_text(code, "payment_method_invalid") {
        Some(ConnectorErrorType::UserError)
    } else if same_text(code, "payment_source_required") {
        Some(ConnectorErrorType::UserError)
    } else if same_text(code, "payment_type_invalid") {
        Some(ConnectorErrorType::UserError)
    } else if same_text(code, "phone_number_invalid") {
        Some(ConnectorErrorType::UserError)
    } else if same_text(code, "phone_number_length_invalid") {
        Some(ConnectorErrorType::UserError)
    } else if same_text(code, "previous_payment_id_invalid") {
        Some(ConnectorErrorType::BusinessError)
    } else if same_text(code, "recipient_account_number_invalid") {
        Some(ConnectorErrorType::BusinessError)
    } else if same_text(code, "recipient_account_number_required") {
        Some(ConnectorErrorType::UserError)
    } else if same_text(code, "recipient_dob_required") {
        Some(ConnectorErrorType::UserError)
    } else if same_text(code, "recipient_last_name_required") {
        Some(ConnectorErrorType::UserError)
    } else if same_text(code, "recipient_zip_invalid") {
        Some(ConnectorErrorType::UserError)
    } else if same_text(code, "recipient_zip_required") {
        Some(ConnectorErrorType::UserError)
    } else if same_text(code, "recurring_plan_exists") {
        Some(ConnectorErrorType::BusinessError)
    } else if same_text(code, "recurring_plan_not_exist") {
        Some(ConnectorErrorType::BusinessError)
    } else if same_text(code, "recurring_plan_removal_failed") {
        Some(ConnectorErrorType::BusinessError)
    } else if same_text(code, "request_invalid") {
        Some(ConnectorErrorType::UserError)
    } else if same_text(code, "request_json_invalid") {
        Some(ConnectorErrorType::UserError)
    } else if same_text(code, "risk_enabled_required") {
        Some(ConnectorErrorType::BusinessError)
    } else if same_text(code, "server_api_not_allowed") {
        Some(ConnectorErrorType::TechnicalError)
    } else if same_text(code, "source_email_invalid") {
        Some(ConnectorErrorType::UserError)
    } else if same_text(code, "source_email_required") {
        Some(ConnectorErrorType::UserError)
    } else if same_text(code, "source_id_invalid") {
        Some(ConnectorErrorType::BusinessError)
    } else if same_text(code, "source_id_or_email_required") {
        Some(ConnectorErrorType::UserError)
    } else if same_text(code, "source_id_required") {
        Some(ConnectorErrorType::UserError)
    } else if same_text(code, "source_id_unknown") {
        Some(ConnectorErrorType::BusinessError)
    } else if same_text(code, "source_invalid") {
        Some(ConnectorErrorType::BusinessError)
    } else if same_text(code, "source_or_destination_required") {
        Some(ConnectorErrorType::BusinessError)
    } else if same_text(code, "source_token_invalid") {
        Some(ConnectorErrorType::BusinessError)
    } else if same_text(code, "source_token_required") {
        Some(ConnectorErrorType::UserError)
    } else if same_text(code, "source_token_type_required") {
        Some(ConnectorErrorType::UserError)
    } else if same_text(code, "source_token_type_invalid") {
        Some(ConnectorErrorType::BusinessError)
    } else if same_text(code, "source_type_required") {
        Some(ConnectorErrorType::UserError)
    } else if same_text(code, "sub_entities_count_invalid") {
        Some(ConnectorErrorType::BusinessError)
    } else if same_text(code, "success_url_invalid") {
        Some(ConnectorErrorType::BusinessError)
    } else if same_text(code, "3ds_malfunction") {
        Some(ConnectorErrorType::TechnicalError)
    } else if same_text(code, "3ds_not_configured") {
        Some(ConnectorErrorType::BusinessError)
    } else if same_text(code, "3ds_not_enabled_for_card") {
        Some(ConnectorErrorType::BusinessError)
    } else if same_text(code, "3ds_not_supported") {
        Some(ConnectorErrorType::BusinessError)
    } else if same_text(code, "3ds_payment_required") {
        Some(ConnectorErrorType::BusinessError)
    } else if same_text(code, "token_expired") {
        Some(ConnectorErrorType::BusinessError)
    } else if same_text(code, "token_in_use") {
        Some(ConnectorErrorType::BusinessError)
    } else if same_text(code, "token_invalid") {
        Some(ConnectorErrorType::BusinessError)
    } else if same_text(code, "token_required") {
        Some(ConnectorErrorType::UserError)
    } else if same_text(code, "token_type_required") {
        Some(ConnectorErrorType::UserError)
    } else if same_text(code, "token_used") {
        Some(ConnectorErrorType::BusinessError)
    } else if same_text(code, "void_amount_invalid") {
        Some(ConnectorErrorType::BusinessError)
    } else if same_text(code, "wallet_id_invalid") {
        Some(ConnectorErrorType::BusinessError)
    } else if same_text(code, "zip_invalid") {
        Some(ConnectorErrorType::UserError)
    } else if same_text(code, "processing_key_required") {
        Some(ConnectorErrorType::BusinessError)
    } else if same_text(code, "processing_value_required") {
        Some(ConnectorErrorType::BusinessError)
    } else if same_text(code, "3ds_version_invalid") {
        Some(ConnectorErrorType::BusinessError)
    } else if same_text(code, "3ds_version_not_supported") {
        Some(ConnectorErrorType::BusinessError)
    } else if same_text(code, "processing_error") {
        Some(ConnectorErrorType::TechnicalError)
    } else if same_text(code, "service_unavailable") {
        Some(ConnectorErrorType::TechnicalError)
    } else if same_text(code, "token_type_invalid") {
        Some(ConnectorErrorType::UserError)
    } else if same_text(code, "token_data_invalid") {
        Some(ConnectorErrorType::UserError)
    } else {
        None
    }
}

/// Classifies an upstream error code; never fails.
pub fn classify(code: &str) -> (r: ConnectorErrorType)
    ensures
        r == error_kind(code@),
{
    match listed_error_type(code) {
        Some(k) => k,
        None => ConnectorErrorType::UnknownError,
    }
}

/// Every code that the table does not list is an unknown error.
pub proof fn lemma_unlisted_code_is_unknown(code: Seq<char>)
    requires
        listed_error_kind(code) is None,
    ensures
        error_kind(code) == ConnectorErrorType::UnknownError,
{
}

/// Index of the entry to surface among several classified errors: the
/// earliest one of lowest rank.
pub open spec fn priority_index(kinds: Seq<ConnectorErrorType>) -> int
    decreases kinds.len(),
{
    if kinds.len() <= 1 {
        0
    } else {
        let k = priority_index(kinds.drop_last());
        if kinds.last().rank() < kinds[k].rank() {
            kinds.len() - 1
        } else {
            k
        }
    }
}

/// The entry that [`priority_index`] picks is the first of lowest rank.
pub proof fn lemma_priority_index_is_first_lowest(kinds: Seq<ConnectorErrorType>)
    requires
        kinds.len() > 0,
    ensures
        0 <= priority_index(kinds) < kinds.len(),
        forall|j: int| 0 <= j < kinds.len() ==> kinds[priority_index(kinds)].rank() <= #[trigger] kinds[j].rank(),
        forall|j: int| 0 <= j < priority_index(kinds) ==> kinds[priority_index(kinds)].rank() < #[trigger] kinds[j].rank(),
    decreases kinds.len(),
{
    if kinds.len() > 1 {
        let init = kinds.drop_last();
        lemma_priority_index_is_first_lowest(init);
        let p = priority_index(init);
        let n = kinds.len() - 1;
        assert(init[p] == kinds[p]);
        assert forall|j: int| 0 <= j < kinds.len() implies kinds[priority_index(kinds)].rank()
            <= #[trigger] kinds[j].rank() by {
            if j < n {
                assert(init[j] == kinds[j]);
            }
        }
        assert forall|j: int| 0 <= j < priority_index(kinds) implies kinds[priority_index(
            kinds,
        )].rank() < #[trigger] kinds[j].rank() by {
            assert(init[j] == kinds[j]);
        }
    }
}

/// Picks the entry to surface among several classified errors; `None` when there are none.
pub fn select_by_priority(kinds: &Vec<ConnectorErrorType>) -> (r: Option<usize>)
    ensures
        kinds@.len() == 0 <==> r is None,
        r matches Some(i) ==> i == priority_index(kinds@),
{
    if kinds.len() == 0 {
        return None;
    }
    let mut best: usize = 0;
    let mut i: usize = 1;
    while i < kinds.len()
        invariant
            1 <= i <= kinds@.len(),
            best == priority_index(kinds@.subrange(0, i as int)),
            best < i,
        decreases kinds@.len() - i,
    {
        let ghost prefix = kinds@.subrange(0, i as int + 1);
        assert(prefix.drop_last() =~= kinds@.subrange(0, i as int));
        if kinds[i].priority_rank() < kinds[best].priority_rank() {
            best = i;
        }
        i = i + 1;
    }
    assert(kinds@.subrange(0, kinds@.len() as int) =~= kinds@);
    Some(best)
}

} // verus!
