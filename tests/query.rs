use resumable_upload::query::{add_qs_to_url, QueryParams};

#[test]
fn adds_qs_to_url_without_qsmark() {
    let url = String::from("http://localhost:8080");
    let mut qs = QueryParams::new();

    qs.insert(String::from("a"), String::from("1"));

    let url = add_qs_to_url(&url, &qs);

    assert_eq!(url, String::from("http://localhost:8080?a=1"));
}

#[test]
fn adds_qs_to_url_with_qsmark() {
    let url = String::from("http://localhost:8080?");
    let mut qs = QueryParams::new();

    qs.insert(String::from("a"), String::from("1"));

    let url = add_qs_to_url(&url, &qs);

    assert_eq!(url, String::from("http://localhost:8080?a=1"));
}

#[test]
fn joins_several_pairs_with_one_ampersand() {
    let mut qs = QueryParams::new();
    qs.insert(String::from("a"), String::from("1"));
    qs.insert(String::from("b"), String::from("2"));
    qs.insert(String::from("c"), String::from("3"));
    assert_eq!(qs.len(), 3);
    let url = add_qs_to_url("http://h:8080", &qs);
    assert_eq!(url, "http://h:8080?a=1&b=2&c=3");
}

#[test]
fn pairs_in_any_order_each_appear_once() {
    let mut one = QueryParams::new();
    one.insert(String::from("x"), String::from("10"));
    one.insert(String::from("y"), String::from("20"));
    let mut two = QueryParams::new();
    two.insert(String::from("y"), String::from("20"));
    two.insert(String::from("x"), String::from("10"));
    for qs in [&one, &two] {
        let url = add_qs_to_url("http://h", qs);
        let query = url.strip_prefix("http://h?").unwrap();
        let mut parts: Vec<&str> = query.split('&').collect();
        parts.sort();
        assert_eq!(parts, vec!["x=10", "y=20"]);
    }
}

#[test]
fn insert_of_present_name_replaces_value() {
    let mut qs = QueryParams::new();
    qs.insert(String::from("a"), String::from("1"));
    qs.insert(String::from("b"), String::from("2"));
    qs.insert(String::from("a"), String::from("3"));
    assert_eq!(qs.len(), 2);
    assert_eq!(add_qs_to_url("u", &qs), "u?a=3&b=2");
}

#[test]
fn no_params_leaves_only_marker() {
    let qs = QueryParams::new();
    assert_eq!(add_qs_to_url("http://h", &qs), "http://h?");
    assert_eq!(add_qs_to_url("http://h?", &qs), "http://h?");
}

#[test]
fn marker_inside_url_is_kept_as_is() {
    let mut qs = QueryParams::new();
    qs.insert(String::from("a"), String::from("1"));
    assert_eq!(add_qs_to_url("http://h/?x=2&", &qs), "http://h/?x=2&a=1");
}

#[test]
fn merge_without_marker_on_host_and_port() {
    let mut qs = QueryParams::new();
    qs.insert(String::from("a"), String::from("1"));
    assert_eq!(add_qs_to_url("http://h:8080", &qs), "http://h:8080?a=1");
}

#[test]
fn merge_with_trailing_marker_on_host_and_port() {
    let mut qs = QueryParams::new();
    qs.insert(String::from("a"), String::from("1"));
    assert_eq!(add_qs_to_url("http://h:8080?", &qs), "http://h:8080?a=1");
}
