use route_dispatch::Params;
use route_dispatch::Response;

#[test]
fn params_insert_and_get() {
    let mut params = Params::new();
    assert_eq!(params.len(), 0);
    assert_eq!(params.get(&"a".to_string()), None);

    params.insert("a".to_string(), "1".to_string());
    params.insert("b".to_string(), "2".to_string());

    assert_eq!(params.len(), 2);
    assert_eq!(params.get(&"a".to_string()), Some(&"1".to_string()));
    assert_eq!(params.get(&"b".to_string()), Some(&"2".to_string()));
}

#[test]
fn params_duplicate_key_overwrites() {
    let mut params = Params::new();
    params.insert("a".to_string(), "1".to_string());
    params.insert("a".to_string(), "2".to_string());

    assert_eq!(params.get(&"a".to_string()), Some(&"2".to_string()));
    assert_eq!(params.len(), 2);
}

#[test]
fn response_headers_in_order() {
    let mut res = Response::new();
    assert_eq!(res.header_count(), 0);

    res.add_header("X-One".to_string(), "1".to_string());
    res.add_header("X-Two".to_string(), "2".to_string());

    assert_eq!(res.header_count(), 2);
    assert_eq!(res.header_at(0), &("X-One".to_string(), "1".to_string()));
    assert_eq!(res.header_at(1), &("X-Two".to_string(), "2".to_string()));
}
