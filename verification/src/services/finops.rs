//! Cost management: dashboards, cost breakdowns and trends, budgets,
//! anomalies and AI cost attribution.

use vstd::prelude::*;
use crate::http::{get_request, json_request, path_tail, ApiRequest, HttpMethod};
use crate::json::{object_of, text_member, uint_value, Json, JsonValue, Members};
use crate::text::{concat2, concat3};

verus! {

/// Plans the calls of cost management.
pub struct FinOpsService;

/// A tenant budget. The alert threshold is carried as the JSON value it
/// is sent as.
#[derive(Debug)]
pub struct BudgetConfig<'a> {
    pub tenant_id: &'a str,
    pub monthly_budget_cents: u64,
    pub alert_threshold: Json,
    pub hard_limit: bool,
}

/// `base`, then `?period=<period>` when a period is given (as given).
pub open spec fn with_period(base: Seq<char>, period: Option<&str>) -> Seq<char> {
    match period {
        Some(p) => base + "?period="@ + p@,
        None => base,
    }
}

fn period_path(base: &str, period: Option<&str>) -> (r: String)
    ensures
        r@ == with_period(base@, period),
{
    match period {
        Some(p) => concat3(base, "?period=", p),
        None => base.to_owned(),
    }
}

/// `base`, then `?<key>=<value>` when a value is given (as given).
pub open spec fn with_filter(base: Seq<char>, marker: Seq<char>, value: Option<&str>) -> Seq<char> {
    match value {
        Some(v) => base + marker + v@,
        None => base,
    }
}

/// The body that [`FinOpsService::acknowledge_anomaly`] sends.
pub open spec fn acknowledge_anomaly_body(anomaly_id: &str, notes: &str) -> JsonValue {
    object_of(seq![text_member("anomaly_id"@, anomaly_id@), text_member("notes"@, notes@)])
}

/// What `acknowledge_anomaly_body` builds reads back field by field: each value the
/// arguments give is found under its own name, an optional one only when
/// it is set, and a list as the same items in the same order.
pub proof fn lemma_acknowledge_anomaly_body_reads_back(anomaly_id: &str, notes: &str)
    ensures
        crate::json::json_str_member(acknowledge_anomaly_body(anomaly_id, notes), "anomaly_id"@) == Some(anomaly_id@),
        crate::json::json_str_member(acknowledge_anomaly_body(anomaly_id, notes), "notes"@) == Some(notes@),
{
    assert(crate::json::json_str_member(acknowledge_anomaly_body(anomaly_id, notes), "anomaly_id"@) == Some(anomaly_id@)) by {
        broadcast use crate::json::lemma_member_lookup_append, crate::json::lemma_member_lookup_opt;

        lemma_acknowledge_anomaly_body_keys();
        reveal_with_fuel(crate::json::member_lookup, 3);
    }
    assert(crate::json::json_str_member(acknowledge_anomaly_body(anomaly_id, notes), "notes"@) == Some(notes@)) by {
        broadcast use crate::json::lemma_member_lookup_append, crate::json::lemma_member_lookup_opt;

        lemma_acknowledge_anomaly_body_keys();
        reveal_with_fuel(crate::json::member_lookup, 3);
    }
}

/// The field names that `acknowledge_anomaly_body` uses, told apart.
proof fn lemma_acknowledge_anomaly_body_keys()
    ensures
        "anomaly_id"@.len() == 10,
        "notes"@.len() == 5,
{
    reveal_strlit("anomaly_id");
    reveal_strlit("notes");
}

/// The body that [`FinOpsService::set_budget`] sends.
pub open spec fn set_budget_body(config: BudgetConfig<'_>) -> JsonValue {
    object_of(seq![
        text_member("tenant_id"@, config.tenant_id@),
        ("monthly_budget_cents"@, uint_value(config.monthly_budget_cents)),
        ("alert_threshold"@, config.alert_threshold@),
        ("hard_limit"@, JsonValue::Bool(config.hard_limit)),
    ])
}

/// What `set_budget_body` builds reads back field by field: each value the
/// arguments give is found under its own name, an optional one only when
/// it is set, and a list as the same items in the same order.
pub proof fn lemma_set_budget_body_reads_back(config: BudgetConfig<'_>)
    ensures
        crate::json::json_str_member(set_budget_body(config), "tenant_id"@) == Some(config.tenant_id@),
        crate::json::json_get(set_budget_body(config), "monthly_budget_cents"@) == Some(uint_value(config.monthly_budget_cents)),
        crate::json::json_get(set_budget_body(config), "alert_threshold"@) == Some(config.alert_threshold@),
        crate::json::json_get(set_budget_body(config), "hard_limit"@) == Some(JsonValue::Bool(config.hard_limit)),
{
    assert(crate::json::json_str_member(set_budget_body(config), "tenant_id"@) == Some(config.tenant_id@)) by {
        broadcast use crate::json::lemma_member_lookup_append, crate::json::lemma_member_lookup_opt;

        lemma_set_budget_body_keys();
        reveal_with_fuel(crate::json::member_lookup, 5);
    }
    assert(crate::json::json_get(set_budget_body(config), "monthly_budget_cents"@) == Some(uint_value(config.monthly_budget_cents))) by {
        broadcast use crate::json::lemma_member_lookup_append, crate::json::lemma_member_lookup_opt;

        lemma_set_budget_body_keys();
        reveal_with_fuel(crate::json::member_lookup, 5);
    }
    assert(crate::json::json_get(set_budget_body(config), "alert_threshold"@) == Some(config.alert_threshold@)) by {
        broadcast use crate::json::lemma_member_lookup_append, crate::json::lemma_member_lookup_opt;

        lemma_set_budget_body_keys();
        reveal_with_fuel(crate::json::member_lookup, 5);
    }
    assert(crate::json::json_get(set_budget_body(config), "hard_limit"@) == Some(JsonValue::Bool(config.hard_limit))) by {
        broadcast use crate::json::lemma_member_lookup_append, crate::json::lemma_member_lookup_opt;

        lemma_set_budget_body_keys();
        reveal_with_fuel(crate::json::member_lookup, 5);
    }
}

/// The field names that `set_budget_body` uses, told apart.
proof fn lemma_set_budget_body_keys()
    ensures
        "alert_threshold"@.len() == 15,
        "hard_limit"@.len() == 10,
        "monthly_budget_cents"@.len() == 20,
        "tenant_id"@.len() == 9,
{
    reveal_strlit("alert_threshold");
    reveal_strlit("hard_limit");
    reveal_strlit("monthly_budget_cents");
    reveal_strlit("tenant_id");
}

impl FinOpsService {
    /// The cost dashboard, of one period when given.
    pub fn dashboard(&self, period: Option<&str>) -> (r: ApiRequest)
        ensures
            r@ == get_request(with_period("/finops/dashboard"@, period), seq![]),
    {
        ApiRequest::get_plain(period_path("/finops/dashboard", period))
    }

    /// Costs by model, of one period when given.
    pub fn cost_by_model(&self, period: Option<&str>) -> (r: ApiRequest)
        ensures
            r@ == get_request(with_period("/finops/costs/by-model"@, period), seq![]),
    {
        ApiRequest::get_plain(period_path("/finops/costs/by-model", period))
    }

    /// Costs by tenant, of one period when given.
    pub fn cost_by_tenant(&self, period: Option<&str>) -> (r: ApiRequest)
        ensures
            r@ == get_request(with_period("/finops/costs/by-tenant"@, period), seq![]),
    {
        ApiRequest::get_plain(period_path("/finops/costs/by-tenant", period))
    }

    /// The cost trend between two dates, at a granularity when given.
    pub fn cost_trend(&self, start_date: &str, end_date: &str, granularity: Option<&str>) -> (r: ApiRequest)
        ensures
            r@ == get_request(
                with_filter(
                    "/finops/costs/trend?start="@ + start_date@ + "&end="@ + end_date@,
                    "&granularity="@,
                    granularity,
                ),
                seq![],
            ),
    {
        let head = concat3("/finops/costs/trend?start=", start_date, "&end=");
        let path = concat2(head.as_str(), end_date);
        let path = match granularity {
            Some(g) => concat3(path.as_str(), "&granularity=", g),
            None => path,
        };
        ApiRequest::get_plain(path)
    }

    /// Set a tenant's budget.
    pub fn set_budget(&self, config: BudgetConfig<'_>) -> (r: ApiRequest)
        ensures
            r@ == json_request(
                HttpMethod::Post,
                "/finops/budgets"@,
                set_budget_body(config),
            ),
    {
        let ghost c = config;
        let mut body = Members::new();
        body.put_str("tenant_id", config.tenant_id);
        body.put_uint("monthly_budget_cents", config.monthly_budget_cents);
        body.put("alert_threshold", config.alert_threshold);
        body.put_bool("hard_limit", config.hard_limit);
        assert(body@ =~= seq![
            text_member("tenant_id"@, c.tenant_id@),
            ("monthly_budget_cents"@, uint_value(c.monthly_budget_cents)),
            ("alert_threshold"@, c.alert_threshold@),
            ("hard_limit"@, JsonValue::Bool(c.hard_limit)),
        ]);
        ApiRequest::post("/finops/budgets".to_owned(), body.into_json())
    }

    /// A tenant's budget. The identifier is placed in the path as given.
    pub fn get_budget(&self, tenant_id: &str) -> (r: ApiRequest)
        ensures
            r@ == get_request("/finops/budgets/"@ + tenant_id@, seq![]),
    {
        ApiRequest::get_plain(path_tail("/finops/budgets/", tenant_id))
    }

    /// The budgets.
    pub fn list_budgets(&self) -> (r: ApiRequest)
        ensures
            r@ == get_request("/finops/budgets"@, seq![]),
    {
        ApiRequest::get_plain("/finops/budgets".to_owned())
    }

    /// The budget alerts.
    pub fn budget_alerts(&self) -> (r: ApiRequest)
        ensures
            r@ == get_request("/finops/budgets/alerts"@, seq![]),
    {
        ApiRequest::get_plain("/finops/budgets/alerts".to_owned())
    }

    /// Cost anomalies, of one severity when given.
    pub fn list_anomalies(&self, severity: Option<&str>) -> (r: ApiRequest)
        ensures
            r@ == get_request(with_filter("/finops/anomalies"@, "?severity="@, severity), seq![]),
    {
        let path = match severity {
            Some(s) => concat3("/finops/anomalies", "?severity=", s),
            None => "/finops/anomalies".to_owned(),
        };
        ApiRequest::get_plain(path)
    }

    /// Acknowledge an anomaly.
    pub fn acknowledge_anomaly(&self, anomaly_id: &str, notes: &str) -> (r: ApiRequest)
        ensures
            r@ == json_request(
                HttpMethod::Post,
                "/finops/anomalies/ack"@,
                acknowledge_anomaly_body(anomaly_id, notes),
            ),
    {
        let mut body = Members::new();
        body.put_str("anomaly_id", anomaly_id);
        body.put_str("notes", notes);
        assert(body@ =~= seq![text_member("anomaly_id"@, anomaly_id@), text_member("notes"@, notes@)]);
        ApiRequest::post("/finops/anomalies/ack".to_owned(), body.into_json())
    }

    /// Savings recommendations.
    pub fn recommendations(&self) -> (r: ApiRequest)
        ensures
            r@ == get_request("/finops/recommendations"@, seq![]),
    {
        ApiRequest::get_plain("/finops/recommendations".to_owned())
    }

    /// AI cost attribution, of one period when given.
    pub fn ai_cost_attribution(&self, period: Option<&str>) -> (r: ApiRequest)
        ensures
            r@ == get_request(with_period("/finops/ai-costs/attribution"@, period), seq![]),
    {
        ApiRequest::get_plain(period_path("/finops/ai-costs/attribution", period))
    }

    /// Token usage, of one period when given.
    pub fn token_usage(&self, period: Option<&str>) -> (r: ApiRequest)
        ensures
            r@ == get_request(with_period("/finops/ai-costs/tokens"@, period), seq![]),
    {
        ApiRequest::get_plain(period_path("/finops/ai-costs/tokens", period))
    }
}

} // verus!
