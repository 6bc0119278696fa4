//! Responsible AI: bias audits, red-team campaigns, model cards, the
//! safety policy and explainability.

use vstd::prelude::*;
use crate::http::{get_request, json_request, path_tail, ApiRequest, HttpMethod};
use crate::json::{object_of, str_list_value, strings_view, text_member, with_member, Json, JsonValue, Members};
use crate::text::concat2;

verus! {

/// Plans the calls of the responsible-AI service.
pub struct EthicalAiService;

/// A bias audit to run.
#[derive(Default, Debug, Clone)]
pub struct BiasAuditOptions<'a> {
    pub model_id: &'a str,
    pub dataset_id: &'a str,
    pub protected_attributes: Vec<String>,
    pub metrics: Vec<String>,
}

/// A red-team prompt to submit.
#[derive(Default, Debug, Clone, Copy)]
pub struct RedTeamOptions<'a> {
    pub prompt: &'a str,
    pub model_id: &'a str,
    pub attack_category: &'a str,
}

/// The body that [`EthicalAiService::submit_redteam_prompt`] sends.
pub open spec fn submit_redteam_prompt_body(opts: RedTeamOptions<'_>) -> JsonValue {
    object_of(seq![
        text_member("prompt"@, opts.prompt@),
        text_member("model_id"@, opts.model_id@),
        text_member("attack_category"@, opts.attack_category@),
    ])
}

/// What `submit_redteam_prompt_body` builds reads back field by field: each value the
/// arguments give is found under its own name, an optional one only when
/// it is set, and a list as the same items in the same order.
pub proof fn lemma_submit_redteam_prompt_body_reads_back(opts: RedTeamOptions<'_>)
    ensures
        crate::json::json_str_member(submit_redteam_prompt_body(opts), "prompt"@) == Some(opts.prompt@),
        crate::json::json_str_member(submit_redteam_prompt_body(opts), "model_id"@) == Some(opts.model_id@),
        crate::json::json_str_member(submit_redteam_prompt_body(opts), "attack_category"@) == Some(opts.attack_category@),
{
    assert(crate::json::json_str_member(submit_redteam_prompt_body(opts), "prompt"@) == Some(opts.prompt@)) by {
        broadcast use crate::json::lemma_member_lookup_append, crate::json::lemma_member_lookup_opt;

        lemma_submit_redteam_prompt_body_keys();
        reveal_with_fuel(crate::json::member_lookup, 4);
    }
    assert(crate::json::json_str_member(submit_redteam_prompt_body(opts), "model_id"@) == Some(opts.model_id@)) by {
        broadcast use crate::json::lemma_member_lookup_append, crate::json::lemma_member_lookup_opt;

        lemma_submit_redteam_prompt_body_keys();
        reveal_with_fuel(crate::json::member_lookup, 4);
    }
    assert(crate::json::json_str_member(submit_redteam_prompt_body(opts), "attack_category"@) == Some(opts.attack_category@)) by {
        broadcast use crate::json::lemma_member_lookup_append, crate::json::lemma_member_lookup_opt;

        lemma_submit_redteam_prompt_body_keys();
        reveal_with_fuel(crate::json::member_lookup, 4);
    }
}

/// The field names that `submit_redteam_prompt_body` uses, told apart.
proof fn lemma_submit_redteam_prompt_body_keys()
    ensures
        "attack_category"@.len() == 15,
        "model_id"@.len() == 8,
        "prompt"@.len() == 6,
{
    reveal_strlit("attack_category");
    reveal_strlit("model_id");
    reveal_strlit("prompt");
}

/// The body that [`EthicalAiService::run_bias_audit`] sends.
pub open spec fn run_bias_audit_body(opts: BiasAuditOptions<'_>) -> JsonValue {
    object_of(seq![
        text_member("model_id"@, opts.model_id@),
        text_member("dataset_id"@, opts.dataset_id@),
        ("protected_attributes"@, str_list_value(strings_view(opts.protected_attributes@))),
        ("metrics"@, str_list_value(strings_view(opts.metrics@))),
    ])
}

/// What `run_bias_audit_body` builds reads back field by field: each value the
/// arguments give is found under its own name, an optional one only when
/// it is set, and a list as the same items in the same order.
pub proof fn lemma_run_bias_audit_body_reads_back(opts: BiasAuditOptions<'_>)
    ensures
        crate::json::json_str_member(run_bias_audit_body(opts), "model_id"@) == Some(opts.model_id@),
        crate::json::json_str_member(run_bias_audit_body(opts), "dataset_id"@) == Some(opts.dataset_id@),
        crate::decode::field_str_list(run_bias_audit_body(opts), "protected_attributes"@) == Some(strings_view(opts.protected_attributes@)),
        crate::decode::field_str_list(run_bias_audit_body(opts), "metrics"@) == Some(strings_view(opts.metrics@)),
{
    assert(crate::json::json_str_member(run_bias_audit_body(opts), "model_id"@) == Some(opts.model_id@)) by {
        broadcast use crate::json::lemma_member_lookup_append, crate::json::lemma_member_lookup_opt;

        lemma_run_bias_audit_body_keys();
        reveal_with_fuel(crate::json::member_lookup, 5);
    }
    assert(crate::json::json_str_member(run_bias_audit_body(opts), "dataset_id"@) == Some(opts.dataset_id@)) by {
        broadcast use crate::json::lemma_member_lookup_append, crate::json::lemma_member_lookup_opt;

        lemma_run_bias_audit_body_keys();
        reveal_with_fuel(crate::json::member_lookup, 5);
    }
    assert(crate::decode::field_str_list(run_bias_audit_body(opts), "protected_attributes"@) == Some(strings_view(opts.protected_attributes@))) by {
        broadcast use crate::json::lemma_member_lookup_append, crate::json::lemma_member_lookup_opt;

        lemma_run_bias_audit_body_keys();
        reveal_with_fuel(crate::json::member_lookup, 5);
        crate::decode::lemma_str_list_reads_back(strings_view(opts.protected_attributes@));
    }
    assert(crate::decode::field_str_list(run_bias_audit_body(opts), "metrics"@) == Some(strings_view(opts.metrics@))) by {
        broadcast use crate::json::lemma_member_lookup_append, crate::json::lemma_member_lookup_opt;

        lemma_run_bias_audit_body_keys();
        reveal_with_fuel(crate::json::member_lookup, 5);
        crate::decode::lemma_str_list_reads_back(strings_view(opts.metrics@));
    }
}

/// The field names that `run_bias_audit_body` uses, told apart.
proof fn lemma_run_bias_audit_body_keys()
    ensures
        "dataset_id"@.len() == 10,
        "metrics"@.len() == 7,
        "model_id"@.len() == 8,
        "protected_attributes"@.len() == 20,
{
    reveal_strlit("dataset_id");
    reveal_strlit("metrics");
    reveal_strlit("model_id");
    reveal_strlit("protected_attributes");
}

impl EthicalAiService {
    /// Run a bias audit.
    pub fn run_bias_audit(&self, opts: BiasAuditOptions<'_>) -> (r: ApiRequest)
        ensures
            r@ == json_request(
                HttpMethod::Post,
                "/ethical-ai/bias/audit"@,
                run_bias_audit_body(opts),
            ),
    {
        let mut body = Members::new();
        body.put_str("model_id", opts.model_id);
        body.put_str("dataset_id", opts.dataset_id);
        body.put("protected_attributes", Json::string_list(&opts.protected_attributes));
        body.put("metrics", Json::string_list(&opts.metrics));
        assert(body@ =~= seq![
            text_member("model_id"@, opts.model_id@),
            text_member("dataset_id"@, opts.dataset_id@),
            ("protected_attributes"@, str_list_value(strings_view(opts.protected_attributes@))),
            ("metrics"@, str_list_value(strings_view(opts.metrics@))),
        ]);
        ApiRequest::post("/ethical-ai/bias/audit".to_owned(), body.into_json())
    }

    /// A bias audit's report (the identifier goes into the path's query as
    /// given).
    pub fn get_bias_report(&self, audit_id: &str) -> (r: ApiRequest)
        ensures
            r@ == get_request("/ethical-ai/bias/report?audit_id="@ + audit_id@, seq![]),
    {
        ApiRequest::get_plain(concat2("/ethical-ai/bias/report?audit_id=", audit_id))
    }

    /// The bias audits.
    pub fn list_bias_audits(&self) -> (r: ApiRequest)
        ensures
            r@ == get_request("/ethical-ai/bias/audits"@, seq![]),
    {
        ApiRequest::get_plain("/ethical-ai/bias/audits".to_owned())
    }

    /// Submit a red-team prompt.
    pub fn submit_redteam_prompt(&self, opts: RedTeamOptions<'_>) -> (r: ApiRequest)
        ensures
            r@ == json_request(
                HttpMethod::Post,
                "/ethical-ai/redteam/submit"@,
                submit_redteam_prompt_body(opts),
            ),
    {
        let mut body = Members::new();
        body.put_str("prompt", opts.prompt);
        body.put_str("model_id", opts.model_id);
        body.put_str("attack_category", opts.attack_category);
        assert(body@ =~= seq![
            text_member("prompt"@, opts.prompt@),
            text_member("model_id"@, opts.model_id@),
            text_member("attack_category"@, opts.attack_category@),
        ]);
        ApiRequest::post("/ethical-ai/redteam/submit".to_owned(), body.into_json())
    }

    /// A red-team campaign's results (the identifier goes into the path's
    /// query as given).
    pub fn get_redteam_results(&self, campaign_id: &str) -> (r: ApiRequest)
        ensures
            r@ == get_request("/ethical-ai/redteam/results?campaign_id="@ + campaign_id@, seq![]),
    {
        ApiRequest::get_plain(concat2("/ethical-ai/redteam/results?campaign_id=", campaign_id))
    }

    /// The red-team campaigns.
    pub fn list_redteam_campaigns(&self) -> (r: ApiRequest)
        ensures
            r@ == get_request("/ethical-ai/redteam/campaigns"@, seq![]),
    {
        ApiRequest::get_plain("/ethical-ai/redteam/campaigns".to_owned())
    }

    /// Create or update a model card: the card with its `model_id` member
    /// set to the model. The card must be an object (or `null`).
    pub fn upsert_model_card(&self, model_id: &str, card: Json) -> (r: ApiRequest)
        requires
            card@ is Object || card@ is Null,
        ensures
            r@ == json_request(
                HttpMethod::Post,
                "/ethical-ai/model-cards"@,
                with_member(card@, "model_id"@, JsonValue::Str(model_id@)),
            ),
    {
        let body = card.with_member("model_id", Json::string(model_id));
        ApiRequest::post("/ethical-ai/model-cards".to_owned(), body)
    }

    /// A model's card. The identifier is placed in the path as given.
    pub fn get_model_card(&self, model_id: &str) -> (r: ApiRequest)
        ensures
            r@ == get_request("/ethical-ai/model-cards/"@ + model_id@, seq![]),
    {
        ApiRequest::get_plain(path_tail("/ethical-ai/model-cards/", model_id))
    }

    /// The model cards.
    pub fn list_model_cards(&self) -> (r: ApiRequest)
        ensures
            r@ == get_request("/ethical-ai/model-cards"@, seq![]),
    {
        ApiRequest::get_plain("/ethical-ai/model-cards".to_owned())
    }

    /// The safety policy.
    pub fn get_safety_policy(&self) -> (r: ApiRequest)
        ensures
            r@ == get_request("/ethical-ai/safety/policy"@, seq![]),
    {
        ApiRequest::get_plain("/ethical-ai/safety/policy".to_owned())
    }

    /// Replace the safety policy.
    pub fn update_safety_policy(&self, policy: Json) -> (r: ApiRequest)
        ensures
            r@ == json_request(HttpMethod::Post, "/ethical-ai/safety/policy"@, policy@),
    {
        ApiRequest::post("/ethical-ai/safety/policy".to_owned(), policy)
    }

    /// The safety dashboard.
    pub fn safety_dashboard(&self) -> (r: ApiRequest)
        ensures
            r@ == get_request("/ethical-ai/safety/dashboard"@, seq![]),
    {
        ApiRequest::get_plain("/ethical-ai/safety/dashboard".to_owned())
    }

    /// The explanation of an inference. The identifier is placed in the
    /// path as given.
    pub fn explain_inference(&self, inference_id: &str) -> (r: ApiRequest)
        ensures
            r@ == get_request("/ethical-ai/explainability/"@ + inference_id@, seq![]),
    {
        ApiRequest::get_plain(path_tail("/ethical-ai/explainability/", inference_id))
    }

    /// Explainability metrics.
    pub fn explainability_metrics(&self) -> (r: ApiRequest)
        ensures
            r@ == get_request("/ethical-ai/explainability/metrics"@, seq![]),
    {
        ApiRequest::get_plain("/ethical-ai/explainability/metrics".to_owned())
    }
}

} // verus!
