//! GraphQL: queries and mutations sent to the API's GraphQL endpoints.

use vstd::prelude::*;

use crate::http::{
    headers_view, json_content_type, json_headers, params_view, ApiRequest, HttpMethod, ParamModel, ParamValue,
    RequestModel,
};
use crate::json::JsonObject;

verus! {

/// The header that tells the server the body is a GraphQL document.
pub open spec fn graphql_marker() -> (Seq<char>, Seq<char>) {
    ("x-sdk-graphql"@, "true"@)
}

/// The request that sends the GraphQL document `query` to `path`.
pub open spec fn graphql_request(path: Seq<char>, query: JsonObject) -> RequestModel {
    RequestModel {
        method: HttpMethod::POST,
        path,
        headers: seq![json_content_type(), graphql_marker()],
        params: seq![("query"@, ParamModel::Object(query))],
    }
}

fn graphql_request_of(path: &str, query: JsonObject) -> (r: ApiRequest)
    ensures
        r@ == graphql_request(path@, query),
{
    let mut headers = json_headers();
    let ghost before = headers@;
    headers.push(("x-sdk-graphql".to_owned(), "true".to_owned()));
    let mut params: Vec<(String, ParamValue)> = Vec::new();
    params.push(("query".to_owned(), ParamValue::Object(query)));
    proof {
        reveal_strlit("x-sdk-graphql");
        reveal_strlit("true");
        reveal_strlit("query");
        assert(headers_view(headers@) =~= headers_view(before).push(graphql_marker()));
    }
    let r = ApiRequest { method: HttpMethod::POST, path: path.to_owned(), headers, params };
    assert(r@.headers =~= seq![json_content_type(), graphql_marker()]);
    assert(r@.params =~= seq![("query"@, ParamModel::Object(query))]);
    r
}

/// The GraphQL service.
pub struct Graphql;

impl Graphql {
    /// Runs a GraphQL query.
    pub fn query(query: JsonObject) -> (r: ApiRequest)
        ensures
            r@ == graphql_request("/graphql"@, query),
    {
        graphql_request_of("/graphql", query)
    }

    /// Runs a GraphQL mutation.
    pub fn mutation(query: JsonObject) -> (r: ApiRequest)
        ensures
            r@ == graphql_request("/graphql/mutation"@, query),
    {
        graphql_request_of("/graphql/mutation", query)
    }
}

} // verus!
