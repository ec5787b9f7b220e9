//! Teams: groups of users of a project that share read and write access to
//! its resources, and the memberships that tie users to them.

use vstd::prelude::*;

use crate::http::{
    json_content_type, json_headers, params_view, push_list, push_text, strs_view, ApiRequest, HttpMethod,
    ParamModel, ParamValue, RequestModel,
};
use crate::json::JsonObject;
use crate::path::{
    fill, lacks, lemma_replace_at_front, lemma_replace_nothing, lemma_replace_skips_prefix,
    replace_all,
};

verus! {

/// The parameter `name` set to a list, when the caller gave one.
pub open spec fn optional_list(name: Seq<char>, v: Option<Vec<&str>>) -> Seq<(Seq<char>, ParamModel)> {
    match v {
        Some(v) => seq![(name, ParamModel::List(strs_view(v@)))],
        None => seq![],
    }
}

/// The parameter `name` set to a string, when the caller gave one.
pub open spec fn optional_text(name: Seq<char>, v: Option<&str>) -> Seq<(Seq<char>, ParamModel)> {
    match v {
        Some(s) => seq![(name, ParamModel::Text(s@))],
        None => seq![],
    }
}

/// A path template with its `{teamId}` filled in.
pub open spec fn team_path(template: Seq<char>, team_id: Seq<char>) -> Seq<char> {
    replace_all(template, "{teamId}"@, team_id)
}

/// A path template with its `{teamId}` and then its `{membershipId}` filled in.
pub open spec fn membership_path(
    template: Seq<char>,
    team_id: Seq<char>,
    membership_id: Seq<char>,
) -> Seq<char> {
    replace_all(team_path(template, team_id), "{membershipId}"@, membership_id)
}

/// The request that every endpoint of this service sends: a JSON request with
/// the given method, path and parameters.
pub open spec fn json_request(
    method: HttpMethod,
    path: Seq<char>,
    params: Seq<(Seq<char>, ParamModel)>,
) -> RequestModel {
    RequestModel { method, path, headers: seq![json_content_type()], params }
}

/// The path of a team is `/teams/` followed by the team's ID, whatever the ID
/// holds; so are the paths of its memberships and its preferences.
pub proof fn lemma_team_paths(team_id: Seq<char>)
    ensures
        team_path("/teams/{teamId}"@, team_id) == "/teams/"@ + team_id,
        team_path("/teams/{teamId}/memberships"@, team_id) == "/teams/"@ + team_id
            + "/memberships"@,
        team_path("/teams/{teamId}/prefs"@, team_id) == "/teams/"@ + team_id + "/prefs"@,
{
    reveal_strlit("/teams/{teamId}");
    reveal_strlit("/teams/{teamId}/memberships");
    reveal_strlit("/teams/{teamId}/prefs");
    reveal_strlit("/teams/");
    reveal_strlit("{teamId}");
    reveal_strlit("/memberships");
    reveal_strlit("/prefs");
    let pat = "{teamId}"@;
    let head = "/teams/"@;
    assert(lacks(head, pat[0]));
    assert(lacks("/memberships"@, pat[0]));
    assert(lacks("/prefs"@, pat[0]));
    let tails = seq![Seq::<char>::empty(), "/memberships"@, "/prefs"@];
    assert forall|k: int| 0 <= k < 3 implies team_path(head + pat + #[trigger] tails[k], team_id)
        == head + team_id + tails[k] by {
        let tail = tails[k];
        assert(lacks(tail, pat[0]));
        assert(head + pat + tail =~= head + (pat + tail));
        lemma_replace_skips_prefix(head, pat + tail, pat, team_id);
        lemma_replace_at_front(pat, tail, team_id);
        lemma_replace_nothing(tail, pat, team_id);
        assert(head + (team_id + tail) =~= head + team_id + tail);
    }
    assert("/teams/{teamId}"@ =~= head + pat + tails[0]);
    assert(head + team_id + tails[0] =~= head + team_id);
    assert("/teams/{teamId}/memberships"@ =~= head + pat + tails[1]);
    assert("/teams/{teamId}/prefs"@ =~= head + pat + tails[2]);
}

/// Where the team's ID holds no `{`, the path of a membership is
/// `/teams/<team>/memberships/<membership>`, and its status lies below it.
pub proof fn lemma_membership_paths(team_id: Seq<char>, membership_id: Seq<char>)
    requires
        lacks(team_id, '{'),
    ensures
        membership_path("/teams/{teamId}/memberships/{membershipId}"@, team_id, membership_id)
            == "/teams/"@ + team_id + "/memberships/"@ + membership_id,
        membership_path(
            "/teams/{teamId}/memberships/{membershipId}/status"@,
            team_id,
            membership_id,
        ) == "/teams/"@ + team_id + "/memberships/"@ + membership_id + "/status"@,
{
    reveal_strlit("/teams/{teamId}/memberships/{membershipId}");
    reveal_strlit("/teams/{teamId}/memberships/{membershipId}/status");
    reveal_strlit("/teams/");
    reveal_strlit("{teamId}");
    reveal_strlit("{membershipId}");
    reveal_strlit("/memberships/");
    reveal_strlit("/status");
    let tpat = "{teamId}"@;
    let mpat = "{membershipId}"@;
    let head = "/teams/"@;
    let mid = "/memberships/"@;
    assert(lacks(head, tpat[0]));
    let tails = seq![Seq::<char>::empty(), "/status"@];
    assert forall|k: int| 0 <= k < 2 implies membership_path(
        head + tpat + mid + mpat + #[trigger] tails[k],
        team_id,
        membership_id,
    ) == head + team_id + mid + membership_id + tails[k] by {
        let tail = tails[k];
        assert(lacks(tail, tpat[0]));
        let x = mpat + tail;
        assert(x.subrange(0, tpat.len() as int)[1] != tpat[1]);
        assert(lacks(x.subrange(1, x.len() as int), tpat[0]));
        lemma_replace_nothing(x.subrange(1, x.len() as int), tpat, team_id);
        assert(x =~= seq![x[0]] + x.subrange(1, x.len() as int));
        assert(replace_all(x, tpat, team_id) == x);
        assert(lacks(mid, tpat[0]));
        lemma_replace_skips_prefix(mid, x, tpat, team_id);
        assert(mid + mpat + tail =~= mid + x);
        assert(head + tpat + mid + mpat + tail =~= head + (tpat + (mid + mpat + tail)));
        lemma_replace_skips_prefix(head, tpat + (mid + mpat + tail), tpat, team_id);
        lemma_replace_at_front(tpat, mid + mpat + tail, team_id);
        let front = head + team_id + mid;
        assert(head + (team_id + (mid + mpat + tail)) =~= front + (mpat + tail));
        assert(lacks(front, mpat[0]));
        lemma_replace_skips_prefix(front, mpat + tail, mpat, membership_id);
        lemma_replace_at_front(mpat, tail, membership_id);
        lemma_replace_nothing(tail, mpat, membership_id);
        assert(front + (membership_id + tail) =~= head + team_id + mid + membership_id + tail);
    }
    assert("/teams/{teamId}/memberships/{membershipId}"@ =~= head + tpat + mid + mpat + tails[0]);
    assert(head + team_id + mid + membership_id + tails[0] =~= head + team_id + mid
        + membership_id);
    assert("/teams/{teamId}/memberships/{membershipId}/status"@ =~= head + tpat + mid + mpat
        + tails[1]);
}

fn fill_team(template: &str, team_id: &str) -> (r: String)
    ensures
        r@ == team_path(template@, team_id@),
{
    proof {
        reveal_strlit("{teamId}");
    }
    fill(template, "{teamId}", team_id)
}

fn fill_membership(template: &str, team_id: &str, membership_id: &str) -> (r: String)
    ensures
        r@ == membership_path(template@, team_id@, membership_id@),
{
    let with_team = fill_team(template, team_id);
    proof {
        reveal_strlit("{membershipId}");
    }
    fill(with_team.as_str(), "{membershipId}", membership_id)
}

fn push_optional_list(params: &mut Vec<(String, ParamValue)>, name: &str, v: &Option<Vec<&str>>)
    ensures
        params_view(final(params)@) == params_view(old(params)@)
            + optional_list(name@, *v),
{
    match v {
        Some(list) => push_list(params, name, list),
        None => {},
    }
    assert(params_view(params@) =~= params_view(old(params)@)
        + optional_list(name@, *v));
}

fn push_optional_text(params: &mut Vec<(String, ParamValue)>, name: &str, v: Option<&str>)
    ensures
        params_view(final(params)@) == params_view(old(params)@)
            + optional_text(name@, v),
{
    match v {
        Some(s) => push_text(params, name, s),
        None => {},
    }
    assert(params_view(params@) =~= params_view(old(params)@)
        + optional_text(name@, v));
}

fn json_request_of(method: HttpMethod, path: String, params: Vec<(String, ParamValue)>) -> (r:
    ApiRequest)
    ensures
        r@ == json_request(method, path@, params_view(params@)),
{
    ApiRequest { method, path, headers: json_headers(), params }
}

/// The teams service.
pub struct Teams;

impl Teams {
    /// Lists the teams in which the current user is a member, filtered by
    /// `queries` and `search` where given.
    pub fn list(queries: Option<Vec<&str>>, search: Option<&str>) -> (r: ApiRequest)
        ensures
            r@ == json_request(
                HttpMethod::GET,
                "/teams"@,
                optional_list("queries"@, queries) + optional_text("search"@, search),
            ),
    {
        let mut params: Vec<(String, ParamValue)> = Vec::new();
        push_optional_list(&mut params, "queries", &queries);
        push_optional_text(&mut params, "search", search);
        proof {
            reveal_strlit("queries");
            reveal_strlit("search");
        }
        assert(params_view(params@) =~= optional_list("queries"@, queries)
            + optional_text("search"@, search));
        json_request_of(HttpMethod::GET, "/teams".to_owned(), params)
    }

    /// Creates a team; the creating user becomes its owner.
    pub fn create(team_id: &str, name: &str, roles: Option<Vec<&str>>) -> (r: ApiRequest)
        ensures
            r@ == json_request(
                HttpMethod::POST,
                "/teams"@,
                seq![("teamId"@, ParamModel::Text(team_id@)), ("name"@, ParamModel::Text(name@))]
                    + optional_list("roles"@, roles),
            ),
    {
        let mut params: Vec<(String, ParamValue)> = Vec::new();
        push_text(&mut params, "teamId", team_id);
        push_text(&mut params, "name", name);
        push_optional_list(&mut params, "roles", &roles);
        proof {
            reveal_strlit("teamId");
            reveal_strlit("name");
            reveal_strlit("roles");
        }
        assert(params_view(params@) =~= seq![
            ("teamId"@, ParamModel::Text(team_id@)),
            ("name"@, ParamModel::Text(name@)),
        ] + optional_list("roles"@, roles));
        json_request_of(HttpMethod::POST, "/teams".to_owned(), params)
    }

    /// Reads a team by its ID.
    pub fn get(team_id: &str) -> (r: ApiRequest)
        ensures
            r@ == json_request(
                HttpMethod::GET,
                team_path("/teams/{teamId}"@, team_id@),
                seq![],
            ),
    {
        let path = fill_team("/teams/{teamId}", team_id);
        let r = json_request_of(HttpMethod::GET, path, Vec::new());
        assert(params_view(Seq::<(String, ParamValue)>::empty()) =~= seq![]);
        r
    }

    /// Renames a team.
    pub fn update_name(team_id: &str, name: &str) -> (r: ApiRequest)
        ensures
            r@ == json_request(
                HttpMethod::PUT,
                team_path("/teams/{teamId}"@, team_id@),
                seq![("name"@, ParamModel::Text(name@))],
            ),
    {
        let path = fill_team("/teams/{teamId}", team_id);
        let mut params: Vec<(String, ParamValue)> = Vec::new();
        push_text(&mut params, "name", name);
        assert(params_view(params@) =~= seq![("name"@, ParamModel::Text(name@))]);
        json_request_of(HttpMethod::PUT, path, params)
    }

    /// Deletes a team.
    pub fn delete(team_id: &str) -> (r: ApiRequest)
        ensures
            r@ == json_request(
                HttpMethod::DELETE,
                team_path("/teams/{teamId}"@, team_id@),
                seq![],
            ),
    {
        let path = fill_team("/teams/{teamId}", team_id);
        let r = json_request_of(HttpMethod::DELETE, path, Vec::new());
        assert(params_view(Seq::<(String, ParamValue)>::empty()) =~= seq![]);
        r
    }

    /// Lists the memberships of a team, filtered by `queries` and `search`
    /// where given.
    pub fn list_memberships(team_id: &str, queries: Option<Vec<&str>>, search: Option<&str>) -> (r:
        ApiRequest)
        ensures
            r@ == json_request(
                HttpMethod::GET,
                team_path("/teams/{teamId}/memberships"@, team_id@),
                optional_list("queries"@, queries) + optional_text("search"@, search),
            ),
    {
        let path = fill_team("/teams/{teamId}/memberships", team_id);
        let mut params: Vec<(String, ParamValue)> = Vec::new();
        push_optional_list(&mut params, "queries", &queries);
        push_optional_text(&mut params, "search", search);
        assert(params_view(params@) =~= optional_list("queries"@, queries)
            + optional_text("search"@, search));
        json_request_of(HttpMethod::GET, path, params)
    }

    /// Invites a member into a team, named by user ID, email or phone number,
    /// with the given roles; `url` is where the invitation redirects to.
    pub fn create_memberships(
        team_id: &str,
        roles: Vec<&str>,
        email: Option<&str>,
        user_id: Option<&str>,
        phone: Option<&str>,
        url: Option<&str>,
        name: Option<&str>,
    ) -> (r: ApiRequest)
        ensures
            r@ == json_request(
                HttpMethod::POST,
                team_path("/teams/{teamId}/memberships"@, team_id@),
                optional_text("email"@, email) + optional_text("userId"@, user_id)
                    + optional_text("phone"@, phone)
                    + seq![("roles"@, ParamModel::List(strs_view(roles@)))]
                    + optional_text("url"@, url) + optional_text("name"@, name),
            ),
    {
        let path = fill_team("/teams/{teamId}/memberships", team_id);
        let mut params: Vec<(String, ParamValue)> = Vec::new();
        push_optional_text(&mut params, "email", email);
        push_optional_text(&mut params, "userId", user_id);
        push_optional_text(&mut params, "phone", phone);
        push_list(&mut params, "roles", &roles);
        push_optional_text(&mut params, "url", url);
        push_optional_text(&mut params, "name", name);
        proof {
            reveal_strlit("email");
            reveal_strlit("userId");
            reveal_strlit("phone");
            reveal_strlit("roles");
            reveal_strlit("url");
            reveal_strlit("name");
        }
        assert(params_view(params@) =~= optional_text("email"@, email) + optional_text(
            "userId"@,
            user_id,
        ) + optional_text("phone"@, phone) + seq![
            ("roles"@, ParamModel::List(strs_view(roles@))),
        ] + optional_text("url"@, url) + optional_text("name"@, name));
        json_request_of(HttpMethod::POST, path, params)
    }

    /// Reads one membership of a team.
    pub fn get_memberships(team_id: &str, membership_id: &str) -> (r: ApiRequest)
        ensures
            r@ == json_request(
                HttpMethod::GET,
                membership_path(
                    "/teams/{teamId}/memberships/{membershipId}"@,
                    team_id@,
                    membership_id@,
                ),
                seq![],
            ),
    {
        let path = fill_membership("/teams/{teamId}/memberships/{membershipId}", team_id, membership_id);
        let r = json_request_of(HttpMethod::GET, path, Vec::new());
        assert(params_view(Seq::<(String, ParamValue)>::empty()) =~= seq![]);
        r
    }

    /// Replaces the roles of a team member.
    pub fn update_memberships(team_id: &str, membership_id: &str, roles: Vec<&str>) -> (r:
        ApiRequest)
        ensures
            r@ == json_request(
                HttpMethod::PATCH,
                membership_path(
                    "/teams/{teamId}/memberships/{membershipId}"@,
                    team_id@,
                    membership_id@,
                ),
                seq![("roles"@, ParamModel::List(strs_view(roles@)))],
            ),
    {
        let path = fill_membership("/teams/{teamId}/memberships/{membershipId}", team_id, membership_id);
        let mut params: Vec<(String, ParamValue)> = Vec::new();
        push_list(&mut params, "roles", &roles);
        assert(params_view(params@) =~= seq![("roles"@, ParamModel::List(strs_view(roles@)))]);
        json_request_of(HttpMethod::PATCH, path, params)
    }

    /// Removes a membership, accepted or not.
    pub fn delete_memberships(team_id: &str, membership_id: &str) -> (r: ApiRequest)
        ensures
            r@ == json_request(
                HttpMethod::DELETE,
                membership_path(
                    "/teams/{teamId}/memberships/{membershipId}"@,
                    team_id@,
                    membership_id@,
                ),
                seq![],
            ),
    {
        let path = fill_membership("/teams/{teamId}/memberships/{membershipId}", team_id, membership_id);
        let r = json_request_of(HttpMethod::DELETE, path, Vec::new());
        assert(params_view(Seq::<(String, ParamValue)>::empty()) =~= seq![]);
        r
    }

    /// Accepts an invitation into a team with the secret that it carried.
    pub fn update_membership_status(
        team_id: &str,
        membership_id: &str,
        user_id: &str,
        secret: &str,
    ) -> (r: ApiRequest)
        ensures
            r@ == json_request(
                HttpMethod::PATCH,
                membership_path(
                    "/teams/{teamId}/memberships/{membershipId}/status"@,
                    team_id@,
                    membership_id@,
                ),
                seq![("userId"@, ParamModel::Text(user_id@)), ("secret"@, ParamModel::Text(secret@))],
            ),
    {
        let path = fill_membership(
            "/teams/{teamId}/memberships/{membershipId}/status",
            team_id,
            membership_id,
        );
        let mut params: Vec<(String, ParamValue)> = Vec::new();
        push_text(&mut params, "userId", user_id);
        push_text(&mut params, "secret", secret);
        assert(params_view(params@) =~= seq![
            ("userId"@, ParamModel::Text(user_id@)),
            ("secret"@, ParamModel::Text(secret@)),
        ]);
        json_request_of(HttpMethod::PATCH, path, params)
    }

    /// Reads the preferences that a team shares.
    pub fn get_prefs(team_id: &str) -> (r: ApiRequest)
        ensures
            r@ == json_request(
                HttpMethod::GET,
                team_path("/teams/{teamId}/prefs"@, team_id@),
                seq![],
            ),
    {
        let path = fill_team("/teams/{teamId}/prefs", team_id);
        let r = json_request_of(HttpMethod::GET, path, Vec::new());
        assert(params_view(Seq::<(String, ParamValue)>::empty()) =~= seq![]);
        r
    }

    /// Replaces the preferences of a team with `prefs`, as given.
    pub fn update_prefs(team_id: &str, prefs: JsonObject) -> (r: ApiRequest)
        ensures
            r@ == json_request(
                HttpMethod::PUT,
                team_path("/teams/{teamId}/prefs"@, team_id@),
                seq![("prefs"@, ParamModel::Object(prefs))],
            ),
    {
        let path = fill_team("/teams/{teamId}/prefs", team_id);
        let mut params: Vec<(String, ParamValue)> = Vec::new();
        params.push(("prefs".to_owned(), ParamValue::Object(prefs)));
        proof {
            reveal_strlit("prefs");
        }
        assert(params_view(params@) =~= seq![("prefs"@, ParamModel::Object(prefs))]);
        json_request_of(HttpMethod::PUT, path, params)
    }
}

} // verus!
