//! Agent workflows: definitions, executions and schedules.

use vstd::prelude::*;
use crate::http::{
    delete_request, empty_object, get_request, json_request, opt_decimal32, opt_pair, path_raw, path_tail,
    ApiRequest, HttpMethod, Query,
};
use crate::json::{object_of, opt_json_member, opt_str, opt_text_member, text_member, Json, JsonValue, Members};

verus! {

/// Plans the calls of agent workflows.
pub struct AgentWorkflowsService;

/// Filters for [`AgentWorkflowsService::list`].
#[derive(Default, Debug, Clone, Copy)]
pub struct ListWorkflowsOptions<'a> {
    pub status: Option<&'a str>,
    pub limit: Option<u32>,
}

/// A workflow definition to create.
#[derive(Debug)]
pub struct CreateWorkflowRequest<'a> {
    pub name: &'a str,
    pub description: Option<&'a str>,
    pub schema: Json,
    pub triggers: Option<Json>,
}

/// Filters for [`AgentWorkflowsService::list_executions`].
#[derive(Default, Debug, Clone, Copy)]
pub struct ListExecutionsOptions<'a> {
    pub status: Option<&'a str>,
    pub limit: Option<u32>,
}

/// `status` and `limit`, each only when given.
pub open spec fn status_limit_query(status: Option<&str>, limit: Option<u32>) -> Seq<(Seq<char>, Seq<char>)> {
    opt_pair("status"@, opt_str(status)) + opt_pair("limit"@, opt_decimal32(limit))
}

/// What `status_limit_query` builds reads back pair by pair: each value the arguments
/// give is found under its own name, an optional one only when it is set.
pub proof fn lemma_status_limit_query_reads_back(status: Option<&str>, limit: Option<u32>)
    ensures
        crate::http::pair_value(status_limit_query(status, limit), "status"@) == opt_str(status),
        crate::http::pair_value(status_limit_query(status, limit), "limit"@) == opt_decimal32(limit),
{
    assert(crate::http::pair_value(status_limit_query(status, limit), "status"@) == opt_str(status)) by {
        broadcast use crate::http::lemma_pair_value_append, crate::http::lemma_pair_value_opt;

        lemma_status_limit_query_keys();
        reveal_with_fuel(crate::http::pair_value, 2);
    }
    assert(crate::http::pair_value(status_limit_query(status, limit), "limit"@) == opt_decimal32(limit)) by {
        broadcast use crate::http::lemma_pair_value_append, crate::http::lemma_pair_value_opt;

        lemma_status_limit_query_keys();
        reveal_with_fuel(crate::http::pair_value, 2);
    }
}

/// The names that `status_limit_query` uses, told apart.
proof fn lemma_status_limit_query_keys()
    ensures
        "limit"@.len() == 5,
        "status"@.len() == 6,
{
    reveal_strlit("limit");
    reveal_strlit("status");
}

fn status_limit(status: Option<&str>, limit: Option<u32>) -> (q: Query)
    ensures
        q@ == status_limit_query(status, limit),
{
    let mut q = Query::new();
    q.push_opt("status", status);
    q.push_opt_u32("limit", limit);
    assert(q@ =~= status_limit_query(status, limit));
    q
}

pub open spec fn create_workflow_body(req: CreateWorkflowRequest) -> JsonValue {
    object_of(
        seq![text_member("name"@, req.name@), ("schema"@, req.schema@)]
            + opt_text_member("description"@, req.description)
            + opt_json_member("triggers"@, req.triggers),
    )
}

/// What `create_workflow_body` builds reads back field by field: each value the
/// arguments give is found under its own name, an optional one only when
/// it is set, and a list as the same items in the same order.
pub proof fn lemma_create_workflow_body_reads_back(req: CreateWorkflowRequest)
    ensures
        crate::json::json_str_member(create_workflow_body(req), "name"@) == Some(req.name@),
        crate::decode::field_opt_str(create_workflow_body(req), "description"@) == Some(crate::json::opt_str(req.description)),
        crate::json::json_get(create_workflow_body(req), "triggers"@) == crate::json::opt_json_view(req.triggers),
{
    assert(crate::json::json_str_member(create_workflow_body(req), "name"@) == Some(req.name@)) by {
        broadcast use crate::json::lemma_member_lookup_append, crate::json::lemma_member_lookup_opt;

        lemma_create_workflow_body_keys();
        reveal_with_fuel(crate::json::member_lookup, 3);
    }
    assert(crate::decode::field_opt_str(create_workflow_body(req), "description"@) == Some(crate::json::opt_str(req.description))) by {
        broadcast use crate::json::lemma_member_lookup_append, crate::json::lemma_member_lookup_opt;

        lemma_create_workflow_body_keys();
        reveal_with_fuel(crate::json::member_lookup, 3);
    }
    assert(crate::json::json_get(create_workflow_body(req), "triggers"@) == crate::json::opt_json_view(req.triggers)) by {
        broadcast use crate::json::lemma_member_lookup_append, crate::json::lemma_member_lookup_opt;

        lemma_create_workflow_body_keys();
        reveal_with_fuel(crate::json::member_lookup, 3);
    }
}

/// The field names that `create_workflow_body` uses, told apart.
proof fn lemma_create_workflow_body_keys()
    ensures
        "description"@.len() == 11,
        "name"@.len() == 4,
        "schema"@.len() == 6,
        "triggers"@.len() == 8,
{
    reveal_strlit("description");
    reveal_strlit("name");
    reveal_strlit("schema");
    reveal_strlit("triggers");
}

/// The body that [`AgentWorkflowsService::set_schedule`] sends.
pub open spec fn set_schedule_body(cron_expression: &str) -> JsonValue {
    object_of(seq![text_member("cron_expression"@, cron_expression@)])
}

/// What `set_schedule_body` builds reads back field by field: each value the
/// arguments give is found under its own name, an optional one only when
/// it is set, and a list as the same items in the same order.
pub proof fn lemma_set_schedule_body_reads_back(cron_expression: &str)
    ensures
        crate::json::json_str_member(set_schedule_body(cron_expression), "cron_expression"@) == Some(cron_expression@),
{
    assert(crate::json::json_str_member(set_schedule_body(cron_expression), "cron_expression"@) == Some(cron_expression@)) by {
        broadcast use crate::json::lemma_member_lookup_append, crate::json::lemma_member_lookup_opt;

        lemma_set_schedule_body_keys();
        reveal_with_fuel(crate::json::member_lookup, 2);
    }
}

/// The field names that `set_schedule_body` uses, told apart.
proof fn lemma_set_schedule_body_keys()
    ensures
        "cron_expression"@.len() == 15,
{
    reveal_strlit("cron_expression");
}

impl AgentWorkflowsService {
    /// List workflows with the given filters.
    pub fn list(&self, opts: ListWorkflowsOptions<'_>) -> (r: ApiRequest)
        ensures
            r@ == get_request("/agent-workflows"@, status_limit_query(opts.status, opts.limit)),
    {
        ApiRequest::get("/agent-workflows".to_owned(), status_limit(opts.status, opts.limit))
    }

    /// One workflow. The identifier is placed in the path as given.
    pub fn get(&self, workflow_id: &str) -> (r: ApiRequest)
        ensures
            r@ == get_request("/agent-workflows/"@ + workflow_id@, seq![]),
    {
        ApiRequest::get_plain(path_tail("/agent-workflows/", workflow_id))
    }

    /// Create a workflow.
    pub fn create(&self, req: CreateWorkflowRequest<'_>) -> (r: ApiRequest)
        ensures
            r@ == json_request(HttpMethod::Post, "/agent-workflows"@, create_workflow_body(req)),
    {
        let ghost spec_req = req;
        let mut body = Members::new();
        body.put_str("name", req.name);
        body.put("schema", req.schema);
        body.put_opt_str("description", req.description);
        body.put_opt("triggers", req.triggers);
        assert(body@ =~= create_workflow_body(spec_req)->Object_0);
        ApiRequest::post("/agent-workflows".to_owned(), body.into_json())
    }

    /// Update a workflow.
    pub fn update(&self, workflow_id: &str, updates: Json) -> (r: ApiRequest)
        ensures
            r@ == json_request(HttpMethod::Put, "/agent-workflows/"@ + workflow_id@, updates@),
    {
        ApiRequest::put(path_tail("/agent-workflows/", workflow_id), updates)
    }

    /// Delete a workflow.
    pub fn delete(&self, workflow_id: &str) -> (r: ApiRequest)
        ensures
            r@ == delete_request("/agent-workflows/"@ + workflow_id@),
    {
        ApiRequest::delete(path_tail("/agent-workflows/", workflow_id))
    }

    /// Run a workflow, with an input when given.
    pub fn execute(&self, workflow_id: &str, input: Option<Json>) -> (r: ApiRequest)
        ensures
            r@ == json_request(
                HttpMethod::Post,
                "/agent-workflows/"@ + workflow_id@ + "/execute"@,
                object_of(opt_json_member("input"@, input)),
            ),
    {
        let ghost i = input;
        let mut body = Members::new();
        body.put_opt("input", input);
        assert(body@ =~= opt_json_member("input"@, i));
        ApiRequest::post(path_raw("/agent-workflows/", workflow_id, "/execute"), body.into_json())
    }

    /// List a workflow's executions, with the given filters.
    pub fn list_executions(&self, workflow_id: &str, opts: ListExecutionsOptions<'_>) -> (r: ApiRequest)
        ensures
            r@ == get_request(
                "/agent-workflows/"@ + workflow_id@ + "/executions"@,
                status_limit_query(opts.status, opts.limit),
            ),
    {
        ApiRequest::get(path_raw("/agent-workflows/", workflow_id, "/executions"), status_limit(opts.status, opts.limit))
    }

    /// One execution.
    pub fn get_execution(&self, execution_id: &str) -> (r: ApiRequest)
        ensures
            r@ == get_request("/agent-workflow-executions/"@ + execution_id@, seq![]),
    {
        ApiRequest::get_plain(path_tail("/agent-workflow-executions/", execution_id))
    }

    /// Schedule a workflow with a cron expression.
    pub fn set_schedule(&self, workflow_id: &str, cron_expression: &str) -> (r: ApiRequest)
        ensures
            r@ == json_request(
                HttpMethod::Post,
                "/agent-workflows/"@ + workflow_id@ + "/schedule"@,
                set_schedule_body(cron_expression),
            ),
    {
        let mut body = Members::new();
        body.put_str("cron_expression", cron_expression);
        assert(body@ =~= seq![text_member("cron_expression"@, cron_expression@)]);
        ApiRequest::post(path_raw("/agent-workflows/", workflow_id, "/schedule"), body.into_json())
    }

    /// Remove a workflow's schedule.
    pub fn remove_schedule(&self, workflow_id: &str) -> (r: ApiRequest)
        ensures
            r@ == delete_request("/agent-workflows/"@ + workflow_id@ + "/schedule"@),
    {
        ApiRequest::delete(path_raw("/agent-workflows/", workflow_id, "/schedule"))
    }

    /// Workflow usage.
    pub fn usage(&self) -> (r: ApiRequest)
        ensures
            r@ == get_request("/agent-workflows/usage"@, seq![]),
    {
        ApiRequest::get_plain("/agent-workflows/usage".to_owned())
    }
}

} // verus!
