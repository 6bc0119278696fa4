//! Business analytics: revenue summary and insights.

use vstd::prelude::*;
use crate::http::{get_request, opt_pair, ApiRequest, Query};
use crate::json::opt_str;

verus! {

/// Plans the calls of business analytics.
pub struct BusinessService;

impl BusinessService {
    /// The revenue summary.
    pub fn get_revenue_summary(&self) -> (r: ApiRequest)
        ensures
            r@ == get_request("/business/revenue/summary"@, seq![]),
    {
        ApiRequest::get_plain("/business/revenue/summary".to_owned())
    }

    /// Insights, of one category when given.
    pub fn get_insights(&self, category: Option<&str>) -> (r: ApiRequest)
        ensures
            r@ == get_request("/business/insights"@, opt_pair("category"@, opt_str(category))),
    {
        let mut q = Query::new();
        q.push_opt("category", category);
        assert(q@ =~= opt_pair("category"@, opt_str(category)));
        ApiRequest::get("/business/insights".to_owned(), q)
    }
}

} // verus!
