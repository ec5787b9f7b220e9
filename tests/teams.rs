use appwrite_server::{ApiRequest, HttpMethod, ParamValue, Teams};

fn header_pairs(r: &ApiRequest) -> Vec<(&str, &str)> {
    r.headers.iter().map(|(k, v)| (k.as_str(), v.as_str())).collect()
}

fn param_names(r: &ApiRequest) -> Vec<&str> {
    r.params.iter().map(|(k, _)| k.as_str()).collect()
}

fn text_of<'a>(r: &'a ApiRequest, name: &str) -> Option<&'a str> {
    r.params.iter().find_map(|(k, v)| match v {
        ParamValue::Text(s) if k == name => Some(s.as_str()),
        _ => None,
    })
}

fn list_of(r: &ApiRequest, name: &str) -> Option<Vec<String>> {
    r.params.iter().find_map(|(k, v)| match v {
        ParamValue::List(l) if k == name => Some(l.clone()),
        _ => None,
    })
}

#[test]
fn list_without_filters_sends_no_params() {
    let r = Teams::list(None, None);
    assert_eq!(r.method, HttpMethod::GET);
    assert_eq!(r.path, "/teams");
    assert!(r.params.is_empty());
    assert_eq!(header_pairs(&r), vec![("content-type", "application/json")]);
}

#[test]
fn list_with_filters_keeps_their_order() {
    let r = Teams::list(Some(vec!["limit(5)", "offset(10)"]), Some("core"));
    assert_eq!(param_names(&r), vec!["queries", "search"]);
    assert_eq!(list_of(&r, "queries").unwrap(), vec!["limit(5)".to_string(), "offset(10)".to_string()]);
    assert_eq!(text_of(&r, "search"), Some("core"));
}

#[test]
fn list_with_empty_query_list_still_sends_it() {
    let r = Teams::list(Some(vec![]), None);
    assert_eq!(param_names(&r), vec!["queries"]);
    assert!(list_of(&r, "queries").unwrap().is_empty());
}

#[test]
fn create_sends_id_name_and_roles() {
    let r = Teams::create("t1", "Core", Some(vec!["owner"]));
    assert_eq!(r.method, HttpMethod::POST);
    assert_eq!(r.path, "/teams");
    assert_eq!(param_names(&r), vec!["teamId", "name", "roles"]);
    assert_eq!(text_of(&r, "teamId"), Some("t1"));
    assert_eq!(text_of(&r, "name"), Some("Core"));
    assert_eq!(list_of(&r, "roles").unwrap(), vec!["owner".to_string()]);
}

#[test]
fn create_without_roles() {
    let r = Teams::create("t1", "Core", None);
    assert_eq!(param_names(&r), vec!["teamId", "name"]);
}

#[test]
fn get_fills_the_team_id() {
    let r = Teams::get("abc123");
    assert_eq!(r.method, HttpMethod::GET);
    assert_eq!(r.path, "/teams/abc123");
    assert!(r.params.is_empty());
}

#[test]
fn get_with_empty_id() {
    assert_eq!(Teams::get("").path, "/teams/");
}

#[test]
fn update_name_puts_the_name() {
    let r = Teams::update_name("abc", "New name");
    assert_eq!(r.method, HttpMethod::PUT);
    assert_eq!(r.path, "/teams/abc");
    assert_eq!(param_names(&r), vec!["name"]);
    assert_eq!(text_of(&r, "name"), Some("New name"));
}

#[test]
fn delete_team() {
    let r = Teams::delete("abc");
    assert_eq!(r.method, HttpMethod::DELETE);
    assert_eq!(r.path, "/teams/abc");
    assert!(r.params.is_empty());
}

#[test]
fn list_memberships_path_and_filters() {
    let r = Teams::list_memberships("abc", None, Some("bob"));
    assert_eq!(r.method, HttpMethod::GET);
    assert_eq!(r.path, "/teams/abc/memberships");
    assert_eq!(param_names(&r), vec!["search"]);
    assert_eq!(text_of(&r, "search"), Some("bob"));
}

#[test]
fn create_memberships_orders_params() {
    let r = Teams::create_memberships(
        "abc",
        vec!["developer", "admin"],
        Some("a@b.c"),
        Some("u1"),
        None,
        Some("https://example.com/join"),
        Some("Ann"),
    );
    assert_eq!(r.method, HttpMethod::POST);
    assert_eq!(r.path, "/teams/abc/memberships");
    assert_eq!(param_names(&r), vec!["email", "userId", "roles", "url", "name"]);
    assert_eq!(text_of(&r, "email"), Some("a@b.c"));
    assert_eq!(text_of(&r, "userId"), Some("u1"));
    assert_eq!(text_of(&r, "url"), Some("https://example.com/join"));
    assert_eq!(list_of(&r, "roles").unwrap(), vec!["developer".to_string(), "admin".to_string()]);
}

#[test]
fn create_memberships_with_roles_only() {
    let r = Teams::create_memberships("abc", vec![], None, None, Some("+100"), None, None);
    assert_eq!(param_names(&r), vec!["phone", "roles"]);
}

#[test]
fn get_memberships_fills_both_ids() {
    let r = Teams::get_memberships("abc", "m9");
    assert_eq!(r.method, HttpMethod::GET);
    assert_eq!(r.path, "/teams/abc/memberships/m9");
}

#[test]
fn team_id_holding_the_membership_placeholder_is_filled_again() {
    let r = Teams::get_memberships("{membershipId}", "m9");
    assert_eq!(r.path, "/teams/m9/memberships/m9");
}

#[test]
fn update_memberships_patches_roles() {
    let r = Teams::update_memberships("abc", "m9", vec!["owner"]);
    assert_eq!(r.method, HttpMethod::PATCH);
    assert_eq!(r.path, "/teams/abc/memberships/m9");
    assert_eq!(list_of(&r, "roles").unwrap(), vec!["owner".to_string()]);
}

#[test]
fn delete_memberships_path() {
    let r = Teams::delete_memberships("abc", "m9");
    assert_eq!(r.method, HttpMethod::DELETE);
    assert_eq!(r.path, "/teams/abc/memberships/m9");
    assert!(r.params.is_empty());
}

#[test]
fn update_membership_status_sends_user_and_secret() {
    let r = Teams::update_membership_status("abc", "m9", "u1", "s3cr3t");
    assert_eq!(r.method, HttpMethod::PATCH);
    assert_eq!(r.path, "/teams/abc/memberships/m9/status");
    assert_eq!(param_names(&r), vec!["userId", "secret"]);
    assert_eq!(text_of(&r, "secret"), Some("s3cr3t"));
}

#[test]
fn get_prefs_path() {
    let r = Teams::get_prefs("abc");
    assert_eq!(r.method, HttpMethod::GET);
    assert_eq!(r.path, "/teams/abc/prefs");
}

#[test]
fn update_prefs_passes_the_object_through() {
    let mut prefs = serde_json::Map::new();
    prefs.insert("theme".to_string(), serde_json::Value::String("dark".to_string()));
    let r = Teams::update_prefs("abc", prefs.clone());
    assert_eq!(r.method, HttpMethod::PUT);
    assert_eq!(r.path, "/teams/abc/prefs");
    assert_eq!(param_names(&r), vec!["prefs"]);
    match &r.params[0].1 {
        ParamValue::Object(o) => assert_eq!(o, &prefs),
        _ => panic!("prefs should be an object"),
    }
}
