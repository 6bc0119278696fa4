//! Operations administration: impersonation, billing overview and
//! adjustments, the sales pipeline, support tickets, onboarding and dev
//! boxes.

use vstd::prelude::*;
use crate::http::{empty_object, get_request, json_request, path_tail, ApiRequest, HttpMethod};
use crate::json::{int_value, object_of, text_member, Json, JsonValue, Members};
use crate::text::{concat2, concat3, decimal, decimal_string};

verus! {

/// Plans the calls of operations administration.
pub struct AdminOpsService;

/// The support-ticket listing path: the filters as a hand-built query,
/// `status` first, joined by `&`, values as given.
pub open spec fn tickets_path(status: Option<&str>, limit: Option<u32>) -> Seq<char> {
    match (status, limit) {
        (None, None) => "/admin/support/tickets"@,
        (Some(s), None) => "/admin/support/tickets"@ + "?status="@ + s@,
        (None, Some(l)) => "/admin/support/tickets"@ + "?limit="@ + decimal(l as nat),
        (Some(s), Some(l)) => "/admin/support/tickets"@ + "?status="@ + s@ + "&limit="@ + decimal(l as nat),
    }
}

/// The body that [`AdminOpsService::cleanup_devbox`] sends.
pub open spec fn cleanup_devbox_body(devbox_id: &str) -> JsonValue {
    object_of(seq![text_member("devbox_id"@, devbox_id@)])
}

/// What `cleanup_devbox_body` builds reads back field by field: each value the
/// arguments give is found under its own name, an optional one only when
/// it is set, and a list as the same items in the same order.
pub proof fn lemma_cleanup_devbox_body_reads_back(devbox_id: &str)
    ensures
        crate::json::json_str_member(cleanup_devbox_body(devbox_id), "devbox_id"@) == Some(devbox_id@),
{
    assert(crate::json::json_str_member(cleanup_devbox_body(devbox_id), "devbox_id"@) == Some(devbox_id@)) by {
        broadcast use crate::json::lemma_member_lookup_append, crate::json::lemma_member_lookup_opt;

        lemma_cleanup_devbox_body_keys();
        reveal_with_fuel(crate::json::member_lookup, 2);
    }
}

/// The field names that `cleanup_devbox_body` uses, told apart.
proof fn lemma_cleanup_devbox_body_keys()
    ensures
        "devbox_id"@.len() == 9,
{
    reveal_strlit("devbox_id");
}

/// The body that [`AdminOpsService::complete_onboarding_step`] sends.
pub open spec fn complete_onboarding_step_body(tenant_id: &str, step: &str) -> JsonValue {
    object_of(seq![text_member("tenant_id"@, tenant_id@), text_member("step"@, step@)])
}

/// What `complete_onboarding_step_body` builds reads back field by field: each value the
/// arguments give is found under its own name, an optional one only when
/// it is set, and a list as the same items in the same order.
pub proof fn lemma_complete_onboarding_step_body_reads_back(tenant_id: &str, step: &str)
    ensures
        crate::json::json_str_member(complete_onboarding_step_body(tenant_id, step), "tenant_id"@) == Some(tenant_id@),
        crate::json::json_str_member(complete_onboarding_step_body(tenant_id, step), "step"@) == Some(step@),
{
    assert(crate::json::json_str_member(complete_onboarding_step_body(tenant_id, step), "tenant_id"@) == Some(tenant_id@)) by {
        broadcast use crate::json::lemma_member_lookup_append, crate::json::lemma_member_lookup_opt;

        lemma_complete_onboarding_step_body_keys();
        reveal_with_fuel(crate::json::member_lookup, 3);
    }
    assert(crate::json::json_str_member(complete_onboarding_step_body(tenant_id, step), "step"@) == Some(step@)) by {
        broadcast use crate::json::lemma_member_lookup_append, crate::json::lemma_member_lookup_opt;

        lemma_complete_onboarding_step_body_keys();
        reveal_with_fuel(crate::json::member_lookup, 3);
    }
}

/// The field names that `complete_onboarding_step_body` uses, told apart.
proof fn lemma_complete_onboarding_step_body_keys()
    ensures
        "step"@.len() == 4,
        "tenant_id"@.len() == 9,
{
    reveal_strlit("step");
    reveal_strlit("tenant_id");
}

/// The body that [`AdminOpsService::create_support_ticket`] sends.
pub open spec fn create_support_ticket_body(subject: &str, description: &str, priority: &str) -> JsonValue {
    object_of(seq![
        text_member("subject"@, subject@),
        text_member("description"@, description@),
        text_member("priority"@, priority@),
    ])
}

/// What `create_support_ticket_body` builds reads back field by field: each value the
/// arguments give is found under its own name, an optional one only when
/// it is set, and a list as the same items in the same order.
pub proof fn lemma_create_support_ticket_body_reads_back(subject: &str, description: &str, priority: &str)
    ensures
        crate::json::json_str_member(create_support_ticket_body(subject, description, priority), "subject"@) == Some(subject@),
        crate::json::json_str_member(create_support_ticket_body(subject, description, priority), "description"@) == Some(description@),
        crate::json::json_str_member(create_support_ticket_body(subject, description, priority), "priority"@) == Some(priority@),
{
    assert(crate::json::json_str_member(create_support_ticket_body(subject, description, priority), "subject"@) == Some(subject@)) by {
        broadcast use crate::json::lemma_member_lookup_append, crate::json::lemma_member_lookup_opt;

        lemma_create_support_ticket_body_keys();
        reveal_with_fuel(crate::json::member_lookup, 4);
    }
    assert(crate::json::json_str_member(create_support_ticket_body(subject, description, priority), "description"@) == Some(description@)) by {
        broadcast use crate::json::lemma_member_lookup_append, crate::json::lemma_member_lookup_opt;

        lemma_create_support_ticket_body_keys();
        reveal_with_fuel(crate::json::member_lookup, 4);
    }
    assert(crate::json::json_str_member(create_support_ticket_body(subject, description, priority), "priority"@) == Some(priority@)) by {
        broadcast use crate::json::lemma_member_lookup_append, crate::json::lemma_member_lookup_opt;

        lemma_create_support_ticket_body_keys();
        reveal_with_fuel(crate::json::member_lookup, 4);
    }
}

/// The field names that `create_support_ticket_body` uses, told apart.
proof fn lemma_create_support_ticket_body_keys()
    ensures
        "description"@.len() == 11,
        "priority"@.len() == 8,
        "subject"@.len() == 7,
{
    reveal_strlit("description");
    reveal_strlit("priority");
    reveal_strlit("subject");
}

/// The body that [`AdminOpsService::create_prospect`] sends.
pub open spec fn create_prospect_body(company_name: &str, contact_email: &str, source: &str) -> JsonValue {
    object_of(seq![
        text_member("company_name"@, company_name@),
        text_member("contact_email"@, contact_email@),
        text_member("source"@, source@),
    ])
}

/// What `create_prospect_body` builds reads back field by field: each value the
/// arguments give is found under its own name, an optional one only when
/// it is set, and a list as the same items in the same order.
pub proof fn lemma_create_prospect_body_reads_back(company_name: &str, contact_email: &str, source: &str)
    ensures
        crate::json::json_str_member(create_prospect_body(company_name, contact_email, source), "company_name"@) == Some(company_name@),
        crate::json::json_str_member(create_prospect_body(company_name, contact_email, source), "contact_email"@) == Some(contact_email@),
        crate::json::json_str_member(create_prospect_body(company_name, contact_email, source), "source"@) == Some(source@),
{
    assert(crate::json::json_str_member(create_prospect_body(company_name, contact_email, source), "company_name"@) == Some(company_name@)) by {
        broadcast use crate::json::lemma_member_lookup_append, crate::json::lemma_member_lookup_opt;

        lemma_create_prospect_body_keys();
        reveal_with_fuel(crate::json::member_lookup, 4);
    }
    assert(crate::json::json_str_member(create_prospect_body(company_name, contact_email, source), "contact_email"@) == Some(contact_email@)) by {
        broadcast use crate::json::lemma_member_lookup_append, crate::json::lemma_member_lookup_opt;

        lemma_create_prospect_body_keys();
        reveal_with_fuel(crate::json::member_lookup, 4);
    }
    assert(crate::json::json_str_member(create_prospect_body(company_name, contact_email, source), "source"@) == Some(source@)) by {
        broadcast use crate::json::lemma_member_lookup_append, crate::json::lemma_member_lookup_opt;

        lemma_create_prospect_body_keys();
        reveal_with_fuel(crate::json::member_lookup, 4);
    }
}

/// The field names that `create_prospect_body` uses, told apart.
proof fn lemma_create_prospect_body_keys()
    ensures
        "company_name"@.len() == 12,
        "contact_email"@.len() == 13,
        "source"@.len() == 6,
{
    reveal_strlit("company_name");
    reveal_strlit("contact_email");
    reveal_strlit("source");
}

/// The body that [`AdminOpsService::billing_adjust`] sends.
pub open spec fn billing_adjust_body(tenant_id: &str, amount_cents: i64, reason: &str, adjustment_type: &str) -> JsonValue {
    object_of(seq![
        text_member("tenant_id"@, tenant_id@),
        ("amount_cents"@, int_value(amount_cents)),
        text_member("reason"@, reason@),
        text_member("adjustment_type"@, adjustment_type@),
    ])
}

/// What `billing_adjust_body` builds reads back field by field: each value the
/// arguments give is found under its own name, an optional one only when
/// it is set, and a list as the same items in the same order.
pub proof fn lemma_billing_adjust_body_reads_back(tenant_id: &str, amount_cents: i64, reason: &str, adjustment_type: &str)
    ensures
        crate::json::json_str_member(billing_adjust_body(tenant_id, amount_cents, reason, adjustment_type), "tenant_id"@) == Some(tenant_id@),
        crate::json::json_str_member(billing_adjust_body(tenant_id, amount_cents, reason, adjustment_type), "reason"@) == Some(reason@),
        crate::json::json_str_member(billing_adjust_body(tenant_id, amount_cents, reason, adjustment_type), "adjustment_type"@) == Some(adjustment_type@),
        crate::json::json_get(billing_adjust_body(tenant_id, amount_cents, reason, adjustment_type), "amount_cents"@) == Some(int_value(amount_cents)),
{
    assert(crate::json::json_str_member(billing_adjust_body(tenant_id, amount_cents, reason, adjustment_type), "tenant_id"@) == Some(tenant_id@)) by {
        broadcast use crate::json::lemma_member_lookup_append, crate::json::lemma_member_lookup_opt;

        lemma_billing_adjust_body_keys();
        reveal_with_fuel(crate::json::member_lookup, 5);
    }
    assert(crate::json::json_str_member(billing_adjust_body(tenant_id, amount_cents, reason, adjustment_type), "reason"@) == Some(reason@)) by {
        broadcast use crate::json::lemma_member_lookup_append, crate::json::lemma_member_lookup_opt;

        lemma_billing_adjust_body_keys();
        reveal_with_fuel(crate::json::member_lookup, 5);
    }
    assert(crate::json::json_str_member(billing_adjust_body(tenant_id, amount_cents, reason, adjustment_type), "adjustment_type"@) == Some(adjustment_type@)) by {
        broadcast use crate::json::lemma_member_lookup_append, crate::json::lemma_member_lookup_opt;

        lemma_billing_adjust_body_keys();
        reveal_with_fuel(crate::json::member_lookup, 5);
    }
    assert(crate::json::json_get(billing_adjust_body(tenant_id, amount_cents, reason, adjustment_type), "amount_cents"@) == Some(int_value(amount_cents))) by {
        broadcast use crate::json::lemma_member_lookup_append, crate::json::lemma_member_lookup_opt;

        lemma_billing_adjust_body_keys();
        reveal_with_fuel(crate::json::member_lookup, 5);
    }
}

/// The field names that `billing_adjust_body` uses, told apart.
proof fn lemma_billing_adjust_body_keys()
    ensures
        "adjustment_type"@.len() == 15,
        "amount_cents"@.len() == 12,
        "reason"@.len() == 6,
        "tenant_id"@.len() == 9,
{
    reveal_strlit("adjustment_type");
    reveal_strlit("amount_cents");
    reveal_strlit("reason");
    reveal_strlit("tenant_id");
}

/// The body that [`AdminOpsService::start_impersonation`] sends.
pub open spec fn start_impersonation_body(target_user_id: &str, reason: &str) -> JsonValue {
    object_of(seq![text_member("target_user_id"@, target_user_id@), text_member("reason"@, reason@)])
}

/// What `start_impersonation_body` builds reads back field by field: each value the
/// arguments give is found under its own name, an optional one only when
/// it is set, and a list as the same items in the same order.
pub proof fn lemma_start_impersonation_body_reads_back(target_user_id: &str, reason: &str)
    ensures
        crate::json::json_str_member(start_impersonation_body(target_user_id, reason), "target_user_id"@) == Some(target_user_id@),
        crate::json::json_str_member(start_impersonation_body(target_user_id, reason), "reason"@) == Some(reason@),
{
    assert(crate::json::json_str_member(start_impersonation_body(target_user_id, reason), "target_user_id"@) == Some(target_user_id@)) by {
        broadcast use crate::json::lemma_member_lookup_append, crate::json::lemma_member_lookup_opt;

        lemma_start_impersonation_body_keys();
        reveal_with_fuel(crate::json::member_lookup, 3);
    }
    assert(crate::json::json_str_member(start_impersonation_body(target_user_id, reason), "reason"@) == Some(reason@)) by {
        broadcast use crate::json::lemma_member_lookup_append, crate::json::lemma_member_lookup_opt;

        lemma_start_impersonation_body_keys();
        reveal_with_fuel(crate::json::member_lookup, 3);
    }
}

/// The field names that `start_impersonation_body` uses, told apart.
proof fn lemma_start_impersonation_body_keys()
    ensures
        "reason"@.len() == 6,
        "target_user_id"@.len() == 14,
{
    reveal_strlit("reason");
    reveal_strlit("target_user_id");
}

impl AdminOpsService {
    /// Start impersonating a user.
    pub fn start_impersonation(&self, target_user_id: &str, reason: &str) -> (r: ApiRequest)
        ensures
            r@ == json_request(
                HttpMethod::Post,
                "/admin/impersonate"@,
                start_impersonation_body(target_user_id, reason),
            ),
    {
        let mut body = Members::new();
        body.put_str("target_user_id", target_user_id);
        body.put_str("reason", reason);
        assert(body@ =~= seq![text_member("target_user_id"@, target_user_id@), text_member("reason"@, reason@)]);
        ApiRequest::post("/admin/impersonate".to_owned(), body.into_json())
    }

    /// End the impersonation.
    pub fn end_impersonation(&self) -> (r: ApiRequest)
        ensures
            r@ == json_request(HttpMethod::Post, "/admin/impersonate/end"@, empty_object()),
    {
        ApiRequest::post_empty("/admin/impersonate/end".to_owned())
    }

    /// The billing overview, of one tenant when given (the tenant goes
    /// into the path's query as given).
    pub fn billing_overview(&self, tenant_id: Option<&str>) -> (r: ApiRequest)
        ensures
            r@ == get_request(
                match tenant_id {
                    Some(t) => "/admin/billing/overview"@ + "?tenant_id="@ + t@,
                    None => "/admin/billing/overview"@,
                },
                seq![],
            ),
    {
        let path = match tenant_id {
            Some(t) => concat3("/admin/billing/overview", "?tenant_id=", t),
            None => "/admin/billing/overview".to_owned(),
        };
        ApiRequest::get_plain(path)
    }

    /// Adjust a tenant's billing.
    pub fn billing_adjust(&self, tenant_id: &str, amount_cents: i64, reason: &str, adjustment_type: &str) -> (r: ApiRequest)
        ensures
            r@ == json_request(
                HttpMethod::Post,
                "/admin/billing/adjust"@,
                billing_adjust_body(tenant_id, amount_cents, reason, adjustment_type),
            ),
    {
        let mut body = Members::new();
        body.put_str("tenant_id", tenant_id);
        body.put("amount_cents", Json::integer(amount_cents));
        body.put_str("reason", reason);
        body.put_str("adjustment_type", adjustment_type);
        assert(body@ =~= seq![
            text_member("tenant_id"@, tenant_id@),
            ("amount_cents"@, int_value(amount_cents)),
            text_member("reason"@, reason@),
            text_member("adjustment_type"@, adjustment_type@),
        ]);
        ApiRequest::post("/admin/billing/adjust".to_owned(), body.into_json())
    }

    /// The sales pipeline.
    pub fn sales_pipeline(&self) -> (r: ApiRequest)
        ensures
            r@ == get_request("/admin/sales/pipeline"@, seq![]),
    {
        ApiRequest::get_plain("/admin/sales/pipeline".to_owned())
    }

    /// Add a sales prospect.
    pub fn create_prospect(&self, company_name: &str, contact_email: &str, source: &str) -> (r: ApiRequest)
        ensures
            r@ == json_request(
                HttpMethod::Post,
                "/admin/sales/prospect"@,
                create_prospect_body(company_name, contact_email, source),
            ),
    {
        let mut body = Members::new();
        body.put_str("company_name", company_name);
        body.put_str("contact_email", contact_email);
        body.put_str("source", source);
        assert(body@ =~= seq![
            text_member("company_name"@, company_name@),
            text_member("contact_email"@, contact_email@),
            text_member("source"@, source@),
        ]);
        ApiRequest::post("/admin/sales/prospect".to_owned(), body.into_json())
    }

    /// List support tickets, with the given filters.
    pub fn list_support_tickets(&self, status: Option<&str>, limit: Option<u32>) -> (r: ApiRequest)
        ensures
            r@ == get_request(tickets_path(status, limit), seq![]),
    {
        let path = match (status, limit) {
            (None, None) => "/admin/support/tickets".to_owned(),
            (Some(s), None) => concat3("/admin/support/tickets", "?status=", s),
            (None, Some(l)) => concat3("/admin/support/tickets", "?limit=", decimal_string(l as u64).as_str()),
            (Some(s), Some(l)) => {
                let head = concat3("/admin/support/tickets", "?status=", s);
                concat3(head.as_str(), "&limit=", decimal_string(l as u64).as_str())
            },
        };
        ApiRequest::get_plain(path)
    }

    /// Open a support ticket.
    pub fn create_support_ticket(&self, subject: &str, description: &str, priority: &str) -> (r: ApiRequest)
        ensures
            r@ == json_request(
                HttpMethod::Post,
                "/admin/support/tickets"@,
                create_support_ticket_body(subject, description, priority),
            ),
    {
        let mut body = Members::new();
        body.put_str("subject", subject);
        body.put_str("description", description);
        body.put_str("priority", priority);
        assert(body@ =~= seq![
            text_member("subject"@, subject@),
            text_member("description"@, description@),
            text_member("priority"@, priority@),
        ]);
        ApiRequest::post("/admin/support/tickets".to_owned(), body.into_json())
    }

    /// A tenant's onboarding status (the tenant goes into the path's query
    /// as given).
    pub fn onboarding_status(&self, tenant_id: &str) -> (r: ApiRequest)
        ensures
            r@ == get_request("/admin/onboarding/status?tenant_id="@ + tenant_id@, seq![]),
    {
        ApiRequest::get_plain(concat2("/admin/onboarding/status?tenant_id=", tenant_id))
    }

    /// Mark an onboarding step complete.
    pub fn complete_onboarding_step(&self, tenant_id: &str, step: &str) -> (r: ApiRequest)
        ensures
            r@ == json_request(
                HttpMethod::Post,
                "/admin/onboarding/complete"@,
                complete_onboarding_step_body(tenant_id, step),
            ),
    {
        let mut body = Members::new();
        body.put_str("tenant_id", tenant_id);
        body.put_str("step", step);
        assert(body@ =~= seq![text_member("tenant_id"@, tenant_id@), text_member("step"@, step@)]);
        ApiRequest::post("/admin/onboarding/complete".to_owned(), body.into_json())
    }

    /// List stale dev boxes.
    pub fn list_stale_devboxes(&self) -> (r: ApiRequest)
        ensures
            r@ == get_request("/devbox/stale"@, seq![]),
    {
        ApiRequest::get_plain("/devbox/stale".to_owned())
    }

    /// Clean up a dev box.
    pub fn cleanup_devbox(&self, devbox_id: &str) -> (r: ApiRequest)
        ensures
            r@ == json_request(HttpMethod::Post, "/devbox/cleanup"@, cleanup_devbox_body(devbox_id)),
    {
        let mut body = Members::new();
        body.put_str("devbox_id", devbox_id);
        assert(body@ =~= seq![text_member("devbox_id"@, devbox_id@)]);
        ApiRequest::post("/devbox/cleanup".to_owned(), body.into_json())
    }
}

} // verus!
