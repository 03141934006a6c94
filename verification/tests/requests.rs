use op_api_sdk::model::accounts::TransactionParams;
use op_api_sdk::options::Options;
use op_api_sdk::requests::add_standard_headers;
use op_api_sdk::requests::bearer_value;
use op_api_sdk::requests::get_request_url;
use op_api_sdk::requests::join_url;
use op_api_sdk::requests::set_headers;
use op_api_sdk::requests::set_query_params;
use op_api_sdk::requests::Request;
use op_api_sdk::requests::Requests;
use op_api_sdk::timestamp::Timestamp;

fn owned(list: &[(&str, &str)]) -> Vec<(String, String)> {
    list.iter().map(|(name, value)| (name.to_string(), value.to_string())).collect()
}

#[test]
fn url_is_the_base_url_followed_by_the_path() {
    assert_eq!(
        join_url("https://sandbox.apis.op-palvelut.fi", "/accounts/v3/accounts"),
        "https://sandbox.apis.op-palvelut.fi/accounts/v3/accounts"
    );
    assert_eq!(
        join_url("https://sandbox.apis.op-palvelut.fi/", "accounts/v3/accounts"),
        "https://sandbox.apis.op-palvelut.fi/accounts/v3/accounts"
    );
    assert_eq!(join_url("", ""), "");
    assert_eq!(join_url("a", ""), "a");
    assert_eq!(join_url("", "b"), "b");
}

#[test]
fn nothing_is_changed_where_base_url_and_path_meet() {
    assert_eq!(
        join_url("https://sandbox.apis.op-palvelut.fi/", "/accounts/v3/accounts"),
        "https://sandbox.apis.op-palvelut.fi//accounts/v3/accounts"
    );
    assert_eq!(join_url("http://localhost", "v1/funds"), "http://localhostv1/funds");
}

#[test]
fn request_url_uses_the_base_url_of_the_store() {
    let options = Options::new_dev("key".to_string());
    assert_eq!(
        get_request_url(&options, "/accounts/v3/accounts"),
        "https://sandbox.apis.op-palvelut.fi//accounts/v3/accounts"
    );
    options.set_base_url("https://sandbox.apis.op-palvelut.fi".to_string());
    assert_eq!(
        get_request_url(&options, "/accounts/v3/accounts"),
        "https://sandbox.apis.op-palvelut.fi/accounts/v3/accounts"
    );
    options.set_base_url("http://127.0.0.1:8080/".to_string());
    assert_eq!(get_request_url(&options, "v1/funds"), "http://127.0.0.1:8080/v1/funds");
}

#[test]
fn bearer_stands_before_the_token() {
    assert_eq!(bearer_value("abc"), "Bearer abc");
    assert_eq!(bearer_value(""), "Bearer ");
}

#[test]
fn new_request_has_no_header_and_no_query() {
    let request = Request::new("http://localhost/x".to_string());
    assert_eq!(request.url(), "http://localhost/x");
    assert!(request.headers().is_empty());
    assert!(request.query_pairs().is_empty());
    assert_eq!(request.query_string(), "");
    assert_eq!(request.target(), "http://localhost/x");
}

#[test]
fn headers_are_kept_in_the_order_in_which_they_are_set() {
    let request = Request::new("u".to_string())
        .header("b".to_string(), "2".to_string())
        .header("a".to_string(), "1".to_string())
        .header("b".to_string(), "3".to_string());
    assert_eq!(request.headers(), &owned(&[("b", "2"), ("a", "1"), ("b", "3")]));
    assert_eq!(request.url(), "u");
    assert!(request.query_pairs().is_empty());
}

#[test]
fn query_parameters_are_added_after_those_already_there() {
    let request = Request::new("u".to_string())
        .query(owned(&[("a", "1")]))
        .query(Vec::new())
        .query(owned(&[("b", "2"), ("a", "3")]));
    assert_eq!(request.query_pairs(), &owned(&[("a", "1"), ("b", "2"), ("a", "3")]));
    assert_eq!(request.query_string(), "a=1&b=2&a=3");
    assert_eq!(request.target(), "u?a=1&b=2&a=3");
    assert!(request.headers().is_empty());
}

#[test]
fn standard_headers_are_three() {
    let request = add_standard_headers(
        Request::new("u".to_string()).header("x".to_string(), "y".to_string()),
        "key".to_string(),
        "token".to_string(),
    );
    assert_eq!(
        request.headers(),
        &owned(&[
            ("x", "y"),
            ("x-api-key", "key"),
            ("Authorization", "Bearer token"),
            ("Accept", "application/json"),
        ])
    );
}

#[test]
fn headers_carry_the_credentials_of_the_store() {
    let options = Options::new("key".to_string(), "auth".to_string());
    let request = set_headers(&options, Request::new("u".to_string()));
    assert_eq!(
        request.headers(),
        &owned(&[
            ("x-api-key", "key"),
            ("Authorization", "Bearer auth"),
            ("Accept", "application/json"),
        ])
    );
    assert_eq!(request.url(), "u");
}

#[test]
fn headers_follow_a_change_of_credentials() {
    let options = Options::new("key".to_string(), "auth".to_string());
    let before = set_headers(&options, Request::new("u".to_string()));
    options.set_api_key("rotated".to_string());
    options.set_authorization("fresh".to_string());
    let after = set_headers(&options, Request::new("u".to_string()));
    assert_eq!(before.headers()[0].1, "key");
    assert_eq!(before.headers()[1].1, "Bearer auth");
    assert_eq!(after.headers()[0].1, "rotated");
    assert_eq!(after.headers()[1].1, "Bearer fresh");
}

#[test]
fn absent_filters_add_no_query_parameter() {
    let request = set_query_params(None, Request::new("u".to_string()));
    assert!(request.query_pairs().is_empty());
    assert_eq!(request.target(), "u");
    let request = set_query_params(Some(TransactionParams::default()), request);
    assert!(request.query_pairs().is_empty());
    assert_eq!(request.target(), "u");
}

#[test]
fn filters_become_query_parameters() {
    let params = TransactionParams::default()
        .with_from_booking_datetime(Timestamp::new(1577836800, 0).unwrap())
        .with_page_size(5);
    let request = set_query_params(Some(params), Request::new("u".to_string()));
    assert_eq!(
        request.query_pairs(),
        &owned(&[("fromBookingDateTime", "2020-01-01T00:00:00Z"), ("pageSize", "5")])
    );
    assert_eq!(request.target(), "u?fromBookingDateTime=2020-01-01T00%3A00%3A00Z&pageSize=5");
}

#[test]
fn get_builds_the_whole_request() {
    let options = Options::new("key".to_string(), "auth".to_string());
    options.set_base_url("https://prod.apis.op-palvelut.fi".to_string());
    let params = TransactionParams::default().with_forward_paging_token("tok123".to_string());
    let request = Requests::get(&options, "/accounts/v3/accounts/1/transactions", Some(params));
    assert_eq!(request.url(), "https://prod.apis.op-palvelut.fi/accounts/v3/accounts/1/transactions");
    assert_eq!(
        request.headers(),
        &owned(&[
            ("x-api-key", "key"),
            ("Authorization", "Bearer auth"),
            ("Accept", "application/json"),
        ])
    );
    assert_eq!(request.query_pairs(), &owned(&[("forwardPagingToken", "tok123")]));
    assert_eq!(request.query_string(), "forwardPagingToken=tok123");
    assert_eq!(
        request.target(),
        "https://prod.apis.op-palvelut.fi/accounts/v3/accounts/1/transactions?forwardPagingToken=tok123"
    );
}

#[test]
fn get_without_filters_has_no_query() {
    let options = Options::new_dev("key".to_string());
    let request = Requests::get(&options, "v1/funds", None);
    assert_eq!(request.url(), "https://sandbox.apis.op-palvelut.fi/v1/funds");
    assert_eq!(request.query_string(), "");
    assert_eq!(request.target(), "https://sandbox.apis.op-palvelut.fi/v1/funds");
    assert_eq!(request.headers()[1].1, "Bearer b6910384440ce06f495976f96a162e2ab1bafbb4");
}

#[test]
fn second_call_carries_the_token_of_the_first_page() {
    let options = Options::new_dev("key".to_string());
    let token = "MjAyMC0wMS0wMVQwMDowMDowMFo=/+ 42";
    let params = TransactionParams::default()
        .with_page_size(5)
        .with_forward_paging_token(token.to_string());
    let request = Requests::get(&options, "/x", Some(params));
    assert_eq!(request.query_pairs()[1], ("forwardPagingToken".to_string(), token.to_string()));
    assert_eq!(
        request.query_string(),
        "pageSize=5&forwardPagingToken=MjAyMC0wMS0wMVQwMDowMDowMFo%3D%2F%2B+42"
    );
    let read: Vec<(String, String)> = serde_urlencoded::from_str(&request.query_string()).unwrap();
    assert_eq!(read[1].1, token);
}
