use appwrite_server::models::{AttributeBoolean, DatabaseList, HealthQueue};
use appwrite_server::Name;

#[test]
fn wire_names() {
    assert_eq!(Name::V1Database.as_str(), "v1-database");
    assert_eq!(Name::V1UsageDump.as_str(), "v1-usage-dump");
    assert_eq!(Name::Webhooksv1.as_str(), "webhooksv1");
    assert_eq!(Name::Hamsterv1.as_str(), "hamsterv1");
}

#[test]
fn default_name_is_the_database_queue() {
    assert_eq!(Name::default(), Name::V1Database);
}

#[test]
fn every_name_reads_back() {
    let all = Name::all();
    assert_eq!(all.len(), 13);
    for n in all {
        assert_eq!(Name::parse(n.as_str()), Some(n));
    }
}

#[test]
fn unknown_names_are_refused() {
    assert_eq!(Name::parse(""), None);
    assert_eq!(Name::parse("v1-Database"), None);
    assert_eq!(Name::parse("v1-usage-"), None);
}

#[test]
fn models_hold_their_fields() {
    let a = AttributeBoolean { key: "done".to_string(), xrequired: Some(true), ..Default::default() };
    assert_eq!(a.clone(), a);
    assert_eq!(a.array, None);
    assert_eq!(DatabaseList::default().total, 0);
    assert_eq!(HealthQueue { size: 3 }.size, 3);
}
