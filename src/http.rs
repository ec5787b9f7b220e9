//! The description of one HTTP request to the API.

use vstd::prelude::*;

use crate::json::JsonObject;

verus! {

/// The HTTP methods that the API's endpoints use.
#[allow(non_camel_case_types, clippy::upper_case_acronyms)]
#[derive(Clone, Copy, Debug, PartialEq, Eq, Structural)]
pub enum HttpMethod {
    GET,
    POST,
    PUT,
    PATCH,
    DELETE,
}

/// The value of one named request parameter.
pub enum ParamValue {
    /// A single string.
    Text(String),
    /// A list of strings, kept in the caller's order.
    List(Vec<String>),
    /// A free-form JSON object, passed through unchanged.
    Object(JsonObject),
}

/// What a parameter value stands for: strings as sequences of characters.
pub enum ParamModel {
    Text(Seq<char>),
    List(Seq<Seq<char>>),
    Object(JsonObject),
}

/// The characters of each string of a list, in order.
pub open spec fn strings_view(v: Seq<String>) -> Seq<Seq<char>> {
    v.map_values(|s: String| s@)
}

/// The characters of each string slice of a list, in order.
pub open spec fn strs_view(v: Seq<&str>) -> Seq<Seq<char>> {
    v.map_values(|s: &str| s@)
}

impl View for ParamValue {
    type V = ParamModel;

    open spec fn view(&self) -> ParamModel {
        match self {
            ParamValue::Text(s) => ParamModel::Text(s@),
            ParamValue::List(v) => ParamModel::List(strings_view(v@)),
            ParamValue::Object(o) => ParamModel::Object(*o),
        }
    }
}

/// A request as the API sees it: method, path, headers and parameters.
pub struct ApiRequest {
    pub method: HttpMethod,
    /// The path below the API's endpoint, with its placeholders filled in.
    pub path: String,
    /// Header names and values, in the order they are set.
    pub headers: Vec<(String, String)>,
    /// Parameter names and values, in the order they are set; for a `GET`
    /// they go into the query string, otherwise into a JSON body.
    pub params: Vec<(String, ParamValue)>,
}

/// The model of a request.
pub struct RequestModel {
    pub method: HttpMethod,
    pub path: Seq<char>,
    pub headers: Seq<(Seq<char>, Seq<char>)>,
    pub params: Seq<(Seq<char>, ParamModel)>,
}

pub open spec fn headers_view(h: Seq<(String, String)>) -> Seq<(Seq<char>, Seq<char>)> {
    h.map_values(|e: (String, String)| (e.0@, e.1@))
}

pub open spec fn params_view(p: Seq<(String, ParamValue)>) -> Seq<(Seq<char>, ParamModel)> {
    p.map_values(|e: (String, ParamValue)| (e.0@, e.1@))
}

impl View for ApiRequest {
    type V = RequestModel;

    open spec fn view(&self) -> RequestModel {
        RequestModel {
            method: self.method,
            path: self.path@,
            headers: headers_view(self.headers@),
            params: params_view(self.params@),
        }
    }
}

/// The header that marks a body as JSON, which every endpoint sends.
pub open spec fn json_content_type() -> (Seq<char>, Seq<char>) {
    ("content-type"@, "application/json"@)
}

/// Copies a list of string slices into owned strings, keeping their order.
pub(crate) fn owned_strings(v: &Vec<&str>) -> (r: Vec<String>)
    ensures
        strings_view(r@) == strs_view(v@),
{
    let mut r: Vec<String> = Vec::new();
    let mut i: usize = 0;
    while i < v.len()
        invariant
            i <= v@.len(),
            strings_view(r@) == strs_view(v@.take(i as int)),
        decreases v@.len() - i,
    {
        let s: String = v[i].to_owned();
        let ghost prev = r@;
        r.push(s);
        proof {
            assert(v@.take(i as int + 1) =~= v@.take(i as int).push(v@[i as int]));
            assert(strings_view(r@) =~= strings_view(prev).push(s@));
            assert(strs_view(v@.take(i as int + 1)) =~= strs_view(v@.take(i as int)).push(
                v@[i as int]@,
            ));
        }
        i = i + 1;
    }
    assert(v@.take(v@.len() as int) =~= v@);
    r
}

/// Appends a string parameter.
pub(crate) fn push_text(params: &mut Vec<(String, ParamValue)>, name: &str, value: &str)
    ensures
        params_view(final(params)@) == params_view(old(params)@).push(
            (name@, ParamModel::Text(value@)),
        ),
{
    let entry = (name.to_owned(), ParamValue::Text(value.to_owned()));
    params.push(entry);
    assert(params_view(final(params)@) =~= params_view(old(params)@).push(
        (name@, ParamModel::Text(value@)),
    ));
}

/// Appends a list-of-strings parameter.
pub(crate) fn push_list(params: &mut Vec<(String, ParamValue)>, name: &str, values: &Vec<&str>)
    ensures
        params_view(final(params)@) == params_view(old(params)@).push(
            (name@, ParamModel::List(strs_view(values@))),
        ),
{
    let entry = (name.to_owned(), ParamValue::List(owned_strings(values)));
    params.push(entry);
    assert(params_view(final(params)@) =~= params_view(old(params)@).push(
        (name@, ParamModel::List(strs_view(values@))),
    ));
}

/// The headers of a request with a JSON body.
pub(crate) fn json_headers() -> (r: Vec<(String, String)>)
    ensures
        headers_view(r@) == seq![json_content_type()],
{
    let mut r: Vec<(String, String)> = Vec::new();
    r.push(("content-type".to_owned(), "application/json".to_owned()));
    proof {
        reveal_strlit("content-type");
        reveal_strlit("application/json");
    }
    assert(headers_view(r@) =~= seq![json_content_type()]);
    r
}

} // verus!
