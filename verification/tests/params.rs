use chrono::DateTime;
use chrono::Utc;
use op_api_sdk::model::accounts::TransactionParams;
use op_api_sdk::model::accounts::FORWARD_PAGING_TOKEN;
use op_api_sdk::model::accounts::FROM_BOOKING_DATETIME;
use op_api_sdk::model::accounts::PAGE_SIZE;
use op_api_sdk::model::accounts::TO_BOOKING_DATETIME;
use op_api_sdk::timestamp::Timestamp;

fn owned(list: &[(&str, &str)]) -> Vec<(String, String)> {
    list.iter().map(|(name, value)| (name.to_string(), value.to_string())).collect()
}

#[test]
fn parameter_names_are_in_camel_case() {
    assert_eq!(FROM_BOOKING_DATETIME, "fromBookingDateTime");
    assert_eq!(TO_BOOKING_DATETIME, "toBookingDateTime");
    assert_eq!(PAGE_SIZE, "pageSize");
    assert_eq!(FORWARD_PAGING_TOKEN, "forwardPagingToken");
}

#[test]
fn default_parameters_have_nothing_set() {
    let params = TransactionParams::default();
    assert!(params.from_booking_datetime.is_none());
    assert!(params.to_booking_datetime.is_none());
    assert!(params.page_size.is_none());
    assert!(params.forward_paging_token.is_none());
}

#[test]
fn absent_parameters_give_an_empty_query_string() {
    let params = TransactionParams::default();
    assert_eq!(params.query_pairs(), Vec::new());
    assert_eq!(params.query_string(), "");
}

#[test]
fn paging_token_alone_gives_one_pair() {
    let params = TransactionParams::default().with_forward_paging_token("tok123".to_string());
    assert_eq!(params.query_pairs(), owned(&[("forwardPagingToken", "tok123")]));
    assert_eq!(params.query_string(), "forwardPagingToken=tok123");
}

#[test]
fn page_size_alone_gives_one_pair() {
    let params = TransactionParams::default().with_page_size(5);
    assert_eq!(params.query_pairs(), owned(&[("pageSize", "5")]));
    assert_eq!(params.query_string(), "pageSize=5");
}

#[test]
fn page_size_reads_back_from_the_query_string() {
    for n in [1u32, 5, 10, 25, 100, 1000, 65535, u32::MAX] {
        let written = TransactionParams::default().with_page_size(n).query_string();
        let read: Vec<(String, String)> = serde_urlencoded::from_str(&written).unwrap();
        assert_eq!(read.len(), 1);
        assert_eq!(read[0].0, "pageSize");
        assert_eq!(read[0].1.parse::<u32>().unwrap(), n);
        assert_eq!(read[0].1, n.to_string());
    }
}

#[test]
fn time_filters_are_written_in_utc() {
    let from = Timestamp::new(1577836800, 0).unwrap();
    let to = Timestamp::new(1580515199, 500_000_000).unwrap();
    let params = TransactionParams::default()
        .with_from_booking_datetime(from)
        .with_to_booking_datetime(to);
    assert_eq!(
        params.query_pairs(),
        owned(&[
            ("fromBookingDateTime", "2020-01-01T00:00:00Z"),
            ("toBookingDateTime", "2020-01-31T23:59:59.500Z"),
        ])
    );
    assert_eq!(
        params.query_string(),
        "fromBookingDateTime=2020-01-01T00%3A00%3A00Z&toBookingDateTime=2020-01-31T23%3A59%3A59.500Z"
    );
}

#[test]
fn all_parameters_come_in_a_fixed_order() {
    let params = TransactionParams {
        forward_paging_token: Some("a+b/c=".to_string()),
        from_booking_datetime: Timestamp::new(0, 0),
        page_size: Some(50),
        to_booking_datetime: Timestamp::new(86400, 0),
    };
    assert_eq!(
        params.query_string(),
        "fromBookingDateTime=1970-01-01T00%3A00%3A00Z&toBookingDateTime=1970-01-02T00%3A00%3A00Z&pageSize=50&forwardPagingToken=a%2Bb%2Fc%3D"
    );
}

#[test]
fn empty_paging_token_is_still_sent() {
    let params = TransactionParams::default().with_forward_paging_token(String::new());
    assert_eq!(params.query_string(), "forwardPagingToken=");
}

#[test]
fn page_size_zero_is_still_sent() {
    let params = TransactionParams::default().with_page_size(0);
    assert_eq!(params.query_string(), "pageSize=0");
}

#[test]
fn paging_token_comes_back_as_it_was_given() {
    for token in ["tok123", "a b", "a+b", "a%20b", "ä/ö?&=#", "", "  ", "😀"] {
        let written = TransactionParams::default()
            .with_page_size(3)
            .with_forward_paging_token(token.to_string())
            .query_string();
        let read: Vec<(String, String)> = serde_urlencoded::from_str(&written).unwrap();
        assert_eq!(read, owned(&[("pageSize", "3"), ("forwardPagingToken", token)]));
    }
}

#[test]
fn builders_replace_one_parameter_each() {
    let first = Timestamp::new(1, 0).unwrap();
    let second = Timestamp::new(2, 0).unwrap();
    let params = TransactionParams::default()
        .with_from_booking_datetime(first)
        .with_to_booking_datetime(first)
        .with_page_size(1)
        .with_forward_paging_token("one".to_string())
        .with_from_booking_datetime(second)
        .with_page_size(2)
        .with_forward_paging_token("two".to_string());
    assert_eq!(params.from_booking_datetime.unwrap().secs(), 2);
    assert_eq!(params.to_booking_datetime.unwrap().secs(), 1);
    assert_eq!(params.page_size, Some(2));
    assert_eq!(params.forward_paging_token, Some("two".to_string()));
}

#[test]
fn clone_keeps_every_parameter() {
    let params = TransactionParams {
        forward_paging_token: Some("tok".to_string()),
        from_booking_datetime: Timestamp::new(10, 1),
        page_size: Some(7),
        to_booking_datetime: Timestamp::new(20, 2),
    };
    let copy = params.clone();
    assert_eq!(copy.query_pairs(), params.query_pairs());
    assert_eq!(copy.forward_paging_token, Some("tok".to_string()));
    assert_eq!(copy.page_size, Some(7));
    assert_eq!(copy.from_booking_datetime.unwrap().secs(), 10);
    assert_eq!(copy.from_booking_datetime.unwrap().nanos(), 1);
    assert_eq!(copy.to_booking_datetime.unwrap().secs(), 20);
    assert_eq!(copy.to_booking_datetime.unwrap().nanos(), 2);
}

#[test]
fn query_string_is_the_one_of_the_same_values_in_chrono_and_serde() {
    let from: DateTime<Utc> = DateTime::from_timestamp(1577836800, 250_000_000).unwrap();
    let expected = serde_urlencoded::to_string(&(
        ("fromBookingDateTime", from),
        ("pageSize", 25u32),
        ("forwardPagingToken", "x y/z"),
    ));
    let params = TransactionParams::default()
        .with_from_booking_datetime(Timestamp::new(1577836800, 250_000_000).unwrap())
        .with_page_size(25)
        .with_forward_paging_token("x y/z".to_string());
    assert_eq!(params.query_string(), expected.unwrap());
}
