//! Enterprise context for voice agents: what an agent should know about a
//! tenant, a location and a caller.

use vstd::prelude::*;
use crate::http::{get_request, opt_pair, path_raw2, path_tail, ApiRequest, Query};
use crate::json::opt_str;

verus! {

/// Plans the calls of the enterprise context service.
pub struct EnterpriseContextService;

/// `/enterprise-context/{tenant}[/{location}]`, identifiers as given.
pub open spec fn context_path(tenant_id: Seq<char>, location_id: Option<&str>) -> Seq<char> {
    match location_id {
        Some(l) => "/enterprise-context/"@ + tenant_id + "/"@ + l@,
        None => "/enterprise-context/"@ + tenant_id,
    }
}

impl EnterpriseContextService {
    /// The context of a tenant (and location), for an agent type and a
    /// caller when given.
    pub fn get(&self, tenant_id: &str, location_id: Option<&str>, agent_type: &str, caller_phone: Option<&str>) -> (r: ApiRequest)
        ensures
            r@ == get_request(
                context_path(tenant_id@, location_id),
                seq![("agent_type"@, agent_type@)] + opt_pair("caller_phone"@, opt_str(caller_phone)),
            ),
    {
        let path = match location_id {
            Some(l) => path_raw2("/enterprise-context/", tenant_id, "/", l),
            None => path_tail("/enterprise-context/", tenant_id),
        };
        let mut q = Query::new();
        q.push("agent_type", agent_type.to_owned());
        q.push_opt("caller_phone", caller_phone);
        assert(q@ =~= seq![("agent_type"@, agent_type@)] + opt_pair("caller_phone"@, opt_str(caller_phone)));
        ApiRequest::get(path, q)
    }
}

} // verus!
