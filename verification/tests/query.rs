use spotify_api::query::Query;

fn owned(pairs: &[(&str, &str)]) -> Vec<(String, String)> {
    pairs.iter().map(|(k, v)| (k.to_string(), v.to_string())).collect()
}

#[test]
fn new_query_is_empty() {
    let query = Query::new();
    assert_eq!(query.len(), 0);
    assert!(query.pairs().is_empty());
}

#[test]
fn insert_appends_new_keys_in_order() {
    let mut query = Query::new();
    assert_eq!(query.insert("market", "ES".to_string()), None);
    assert_eq!(query.insert("limit", "10".to_string()), None);
    assert_eq!(query.insert("album", "x".to_string()), None);
    assert_eq!(query.len(), 3);
    assert_eq!(query.pairs(), &owned(&[("market", "ES"), ("limit", "10"), ("album", "x")]));
}

#[test]
fn insert_replaces_the_value_of_a_known_key_in_place() {
    let mut query = Query::new();
    query.insert("market", "ES".to_string());
    query.insert("limit", "10".to_string());
    query.insert("offset", "0".to_string());
    assert_eq!(query.insert("limit", "20".to_string()), Some("10".to_string()));
    assert_eq!(query.len(), 3);
    assert_eq!(query.pairs(), &owned(&[("market", "ES"), ("limit", "20"), ("offset", "0")]));
    assert_eq!(query.insert("market", "FR".to_string()), Some("ES".to_string()));
    assert_eq!(query.insert("offset", "5".to_string()), Some("0".to_string()));
    assert_eq!(query.pairs(), &owned(&[("market", "FR"), ("limit", "20"), ("offset", "5")]));
}

#[test]
fn keys_differ_by_case_and_by_length() {
    let mut query = Query::new();
    assert_eq!(query.insert("q", "1".to_string()), None);
    assert_eq!(query.insert("Q", "2".to_string()), None);
    assert_eq!(query.insert("qq", "3".to_string()), None);
    assert_eq!(query.insert("", "4".to_string()), None);
    assert_eq!(query.insert("", "5".to_string()), Some("4".to_string()));
    assert_eq!(query.pairs(), &owned(&[("q", "1"), ("Q", "2"), ("qq", "3"), ("", "5")]));
}

#[test]
fn no_key_occurs_twice() {
    let mut query = Query::new();
    for round in 0..3 {
        for key in ["a", "b", "c", "a", "b"] {
            query.insert(key, format!("{}{}", key, round));
        }
    }
    assert_eq!(query.pairs(), &owned(&[("a", "a2"), ("b", "b2"), ("c", "c2")]));
}
