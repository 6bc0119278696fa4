//! Department message queue: queueing caller messages for a department,
//! listing and updating them, and department configuration.

use vstd::prelude::*;
use crate::http::{get_request, json_request, opt_decimal32, opt_pair, path_raw, ApiRequest, HttpMethod, Query};
use crate::json::{object_of, opt_str, opt_text_member, text_member, Json, JsonValue, Members};

verus! {

/// Plans the calls of the message queue.
pub struct MessagesService;

/// Filters for [`MessagesService::list`].
#[derive(Default, Debug, Clone, Copy)]
pub struct ListMessagesOptions<'a> {
    pub department: Option<&'a str>,
    pub status: Option<&'a str>,
    pub location_id: Option<&'a str>,
    pub limit: Option<u32>,
}

/// A message to queue for a department.
#[derive(Default, Debug, Clone, Copy)]
pub struct QueueMessageRequest<'a> {
    pub department: &'a str,
    pub message: &'a str,
    pub caller_phone: Option<&'a str>,
    pub caller_name: Option<&'a str>,
    pub location_id: Option<&'a str>,
    pub priority: Option<&'a str>,
    pub source: Option<&'a str>,
}

pub open spec fn queue_body(req: QueueMessageRequest) -> JsonValue {
    object_of(
        seq![text_member("department"@, req.department@), text_member("message"@, req.message@)]
            + opt_text_member("caller_phone"@, req.caller_phone)
            + opt_text_member("caller_name"@, req.caller_name)
            + opt_text_member("location_id"@, req.location_id)
            + opt_text_member("priority"@, req.priority)
            + opt_text_member("source"@, req.source),
    )
}

/// What `queue_body` builds reads back field by field: each value the
/// arguments give is found under its own name, an optional one only when
/// it is set, and a list as the same items in the same order.
pub proof fn lemma_queue_body_reads_back(req: QueueMessageRequest)
    ensures
        crate::json::json_str_member(queue_body(req), "department"@) == Some(req.department@),
        crate::json::json_str_member(queue_body(req), "message"@) == Some(req.message@),
        crate::decode::field_opt_str(queue_body(req), "caller_phone"@) == Some(crate::json::opt_str(req.caller_phone)),
        crate::decode::field_opt_str(queue_body(req), "caller_name"@) == Some(crate::json::opt_str(req.caller_name)),
        crate::decode::field_opt_str(queue_body(req), "location_id"@) == Some(crate::json::opt_str(req.location_id)),
        crate::decode::field_opt_str(queue_body(req), "priority"@) == Some(crate::json::opt_str(req.priority)),
        crate::decode::field_opt_str(queue_body(req), "source"@) == Some(crate::json::opt_str(req.source)),
{
    assert(crate::json::json_str_member(queue_body(req), "department"@) == Some(req.department@)) by {
        broadcast use crate::json::lemma_member_lookup_append, crate::json::lemma_member_lookup_opt;

        lemma_queue_body_keys();
        reveal_with_fuel(crate::json::member_lookup, 3);
    }
    assert(crate::json::json_str_member(queue_body(req), "message"@) == Some(req.message@)) by {
        broadcast use crate::json::lemma_member_lookup_append, crate::json::lemma_member_lookup_opt;

        lemma_queue_body_keys();
        reveal_with_fuel(crate::json::member_lookup, 3);
    }
    assert(crate::decode::field_opt_str(queue_body(req), "caller_phone"@) == Some(crate::json::opt_str(req.caller_phone))) by {
        broadcast use crate::json::lemma_member_lookup_append, crate::json::lemma_member_lookup_opt;

        lemma_queue_body_keys();
        reveal_with_fuel(crate::json::member_lookup, 3);
    }
    assert(crate::decode::field_opt_str(queue_body(req), "caller_name"@) == Some(crate::json::opt_str(req.caller_name))) by {
        broadcast use crate::json::lemma_member_lookup_append, crate::json::lemma_member_lookup_opt;

        lemma_queue_body_keys();
        reveal_with_fuel(crate::json::member_lookup, 3);
    }
    assert(crate::decode::field_opt_str(queue_body(req), "location_id"@) == Some(crate::json::opt_str(req.location_id))) by {
        broadcast use crate::json::lemma_member_lookup_append, crate::json::lemma_member_lookup_opt;

        lemma_queue_body_keys();
        reveal_with_fuel(crate::json::member_lookup, 3);
    }
    assert(crate::decode::field_opt_str(queue_body(req), "priority"@) == Some(crate::json::opt_str(req.priority))) by {
        broadcast use crate::json::lemma_member_lookup_append, crate::json::lemma_member_lookup_opt;

        lemma_queue_body_keys();
        reveal_with_fuel(crate::json::member_lookup, 3);
    }
    assert(crate::decode::field_opt_str(queue_body(req), "source"@) == Some(crate::json::opt_str(req.source))) by {
        broadcast use crate::json::lemma_member_lookup_append, crate::json::lemma_member_lookup_opt;

        lemma_queue_body_keys();
        reveal_with_fuel(crate::json::member_lookup, 3);
    }
}

/// The field names that `queue_body` uses, told apart.
proof fn lemma_queue_body_keys()
    ensures
        "caller_name"@.len() == 11,
        "caller_name"@[0] == 'c',
        "caller_phone"@.len() == 12,
        "department"@.len() == 10,
        "location_id"@.len() == 11,
        "location_id"@[0] == 'l',
        "message"@.len() == 7,
        "priority"@.len() == 8,
        "source"@.len() == 6,
{
    reveal_strlit("caller_name");
    reveal_strlit("caller_phone");
    reveal_strlit("department");
    reveal_strlit("location_id");
    reveal_strlit("message");
    reveal_strlit("priority");
    reveal_strlit("source");
}

pub open spec fn list_query(opts: ListMessagesOptions) -> Seq<(Seq<char>, Seq<char>)> {
    opt_pair("department"@, opt_str(opts.department))
        + opt_pair("status"@, opt_str(opts.status))
        + opt_pair("location_id"@, opt_str(opts.location_id))
        + opt_pair("limit"@, opt_decimal32(opts.limit))
}

/// What `list_query` builds reads back pair by pair: each value the arguments
/// give is found under its own name, an optional one only when it is set.
pub proof fn lemma_list_query_reads_back(opts: ListMessagesOptions)
    ensures
        crate::http::pair_value(list_query(opts), "department"@) == opt_str(opts.department),
        crate::http::pair_value(list_query(opts), "status"@) == opt_str(opts.status),
        crate::http::pair_value(list_query(opts), "location_id"@) == opt_str(opts.location_id),
        crate::http::pair_value(list_query(opts), "limit"@) == opt_decimal32(opts.limit),
{
    assert(crate::http::pair_value(list_query(opts), "department"@) == opt_str(opts.department)) by {
        broadcast use crate::http::lemma_pair_value_append, crate::http::lemma_pair_value_opt;

        lemma_list_query_keys();
        reveal_with_fuel(crate::http::pair_value, 2);
    }
    assert(crate::http::pair_value(list_query(opts), "status"@) == opt_str(opts.status)) by {
        broadcast use crate::http::lemma_pair_value_append, crate::http::lemma_pair_value_opt;

        lemma_list_query_keys();
        reveal_with_fuel(crate::http::pair_value, 2);
    }
    assert(crate::http::pair_value(list_query(opts), "location_id"@) == opt_str(opts.location_id)) by {
        broadcast use crate::http::lemma_pair_value_append, crate::http::lemma_pair_value_opt;

        lemma_list_query_keys();
        reveal_with_fuel(crate::http::pair_value, 2);
    }
    assert(crate::http::pair_value(list_query(opts), "limit"@) == opt_decimal32(opts.limit)) by {
        broadcast use crate::http::lemma_pair_value_append, crate::http::lemma_pair_value_opt;

        lemma_list_query_keys();
        reveal_with_fuel(crate::http::pair_value, 2);
    }
}

/// The names that `list_query` uses, told apart.
proof fn lemma_list_query_keys()
    ensures
        "department"@.len() == 10,
        "limit"@.len() == 5,
        "location_id"@.len() == 11,
        "status"@.len() == 6,
{
    reveal_strlit("department");
    reveal_strlit("limit");
    reveal_strlit("location_id");
    reveal_strlit("status");
}

pub open spec fn update_body(status: Option<&str>, assigned_to: Option<&str>) -> JsonValue {
    object_of(opt_text_member("status"@, status) + opt_text_member("assigned_to"@, assigned_to))
}

/// What `update_body` builds reads back field by field: each value the
/// arguments give is found under its own name, an optional one only when
/// it is set, and a list as the same items in the same order.
pub proof fn lemma_update_body_reads_back(status: Option<&str>, assigned_to: Option<&str>)
    ensures
        crate::decode::field_opt_str(update_body(status, assigned_to), "status"@) == Some(crate::json::opt_str(status)),
        crate::decode::field_opt_str(update_body(status, assigned_to), "assigned_to"@) == Some(crate::json::opt_str(assigned_to)),
{
    assert(crate::decode::field_opt_str(update_body(status, assigned_to), "status"@) == Some(crate::json::opt_str(status))) by {
        broadcast use crate::json::lemma_member_lookup_append, crate::json::lemma_member_lookup_opt;

        lemma_update_body_keys();
        reveal_with_fuel(crate::json::member_lookup, 2);
    }
    assert(crate::decode::field_opt_str(update_body(status, assigned_to), "assigned_to"@) == Some(crate::json::opt_str(assigned_to))) by {
        broadcast use crate::json::lemma_member_lookup_append, crate::json::lemma_member_lookup_opt;

        lemma_update_body_keys();
        reveal_with_fuel(crate::json::member_lookup, 2);
    }
}

/// The field names that `update_body` uses, told apart.
proof fn lemma_update_body_keys()
    ensures
        "assigned_to"@.len() == 11,
        "status"@.len() == 6,
{
    reveal_strlit("assigned_to");
    reveal_strlit("status");
}

impl MessagesService {
    /// Queue a message for a department.
    pub fn queue(&self, req: QueueMessageRequest<'_>) -> (r: ApiRequest)
        ensures
            r@ == json_request(HttpMethod::Post, "/messages/queue"@, queue_body(req)),
    {
        let mut body = Members::new();
        body.put_str("department", req.department);
        body.put_str("message", req.message);
        body.put_opt_str("caller_phone", req.caller_phone);
        body.put_opt_str("caller_name", req.caller_name);
        body.put_opt_str("location_id", req.location_id);
        body.put_opt_str("priority", req.priority);
        body.put_opt_str("source", req.source);
        assert(body@ =~= queue_body(req)->Object_0);
        ApiRequest::post("/messages/queue".to_owned(), body.into_json())
    }

    /// List queued messages with the given filters.
    pub fn list(&self, opts: ListMessagesOptions<'_>) -> (r: ApiRequest)
        ensures
            r@ == get_request("/messages"@, list_query(opts)),
    {
        let mut q = Query::new();
        q.push_opt("department", opts.department);
        q.push_opt("status", opts.status);
        q.push_opt("location_id", opts.location_id);
        q.push_opt_u32("limit", opts.limit);
        assert(q@ =~= list_query(opts));
        ApiRequest::get("/messages".to_owned(), q)
    }

    /// Update a message's status and assignee, each only when given. The
    /// identifier is placed in the path as given.
    pub fn update(&self, msg_id: &str, status: Option<&str>, assigned_to: Option<&str>) -> (r: ApiRequest)
        ensures
            r@ == json_request(HttpMethod::Patch, "/messages/"@ + msg_id@, update_body(status, assigned_to)),
    {
        let mut body = Members::new();
        body.put_opt_str("status", status);
        body.put_opt_str("assigned_to", assigned_to);
        assert(body@ =~= update_body(status, assigned_to)->Object_0);
        let path = crate::text::concat2("/messages/", msg_id);
        ApiRequest::patch(path, body.into_json())
    }

    /// Mark a message resolved.
    pub fn resolve(&self, msg_id: &str) -> (r: ApiRequest)
        ensures
            r@ == json_request(HttpMethod::Patch, "/messages/"@ + msg_id@, update_body(Some("resolved"), None)),
    {
        self.update(msg_id, Some("resolved"), None)
    }

    /// List the departments.
    pub fn list_departments(&self) -> (r: ApiRequest)
        ensures
            r@ == get_request("/messages/departments"@, seq![]),
    {
        ApiRequest::get_plain("/messages/departments".to_owned())
    }

    /// Configure a department. The name is placed in the path as given.
    pub fn configure_department(&self, department: &str, config: Json) -> (r: ApiRequest)
        ensures
            r@ == json_request(HttpMethod::Put, "/messages/departments/"@ + department@, config@),
    {
        ApiRequest::put(crate::text::concat2("/messages/departments/", department), config)
    }
}

} // verus!
