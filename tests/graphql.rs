use appwrite_server::{Graphql, HttpMethod, ParamValue};

fn document() -> serde_json::Map<String, serde_json::Value> {
    let mut m = serde_json::Map::new();
    m.insert("query".to_string(), serde_json::Value::String("{ teamsList { total } }".to_string()));
    m
}

#[test]
fn query_posts_to_graphql() {
    let r = Graphql::query(document());
    assert_eq!(r.method, HttpMethod::POST);
    assert_eq!(r.path, "/graphql");
    let headers: Vec<(&str, &str)> = r.headers.iter().map(|(k, v)| (k.as_str(), v.as_str())).collect();
    assert_eq!(headers, vec![("content-type", "application/json"), ("x-sdk-graphql", "true")]);
    assert_eq!(r.params.len(), 1);
    assert_eq!(r.params[0].0, "query");
    match &r.params[0].1 {
        ParamValue::Object(o) => assert_eq!(o, &document()),
        _ => panic!("query should be an object"),
    }
}

#[test]
fn mutation_posts_to_its_own_path() {
    let r = Graphql::mutation(document());
    assert_eq!(r.method, HttpMethod::POST);
    assert_eq!(r.path, "/graphql/mutation");
    assert_eq!(r.headers.len(), 2);
}
