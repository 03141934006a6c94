use op_api_sdk::model::accounts::TransactionParams;
use op_api_sdk::paging::CollectionPage;
use op_api_sdk::paging::PageWalk;
use op_api_sdk::timestamp::Timestamp;

fn page(items: &[u32], next_token: Option<&str>) -> CollectionPage<u32> {
    CollectionPage { items: items.to_vec(), next_token: next_token.map(|t| t.to_string()) }
}

#[test]
fn first_request_takes_the_parameters_as_given() {
    let params = TransactionParams::default().with_page_size(5);
    let walk: PageWalk<u32> = PageWalk::new(params);
    assert!(!walk.is_finished());
    let next = walk.next_params().unwrap();
    assert_eq!(next.query_string(), "pageSize=5");
    assert!(walk.items().is_empty());
}

#[test]
fn token_of_a_page_is_the_paging_token_of_the_next_request() {
    let mut walk = PageWalk::new(TransactionParams::default().with_page_size(5));
    walk.advance(page(&[1, 2], Some("tok/1 =")));
    assert!(!walk.is_finished());
    let next = walk.next_params().unwrap();
    assert_eq!(next.forward_paging_token, Some("tok/1 =".to_string()));
    assert_eq!(next.page_size, Some(5));
    walk.advance(page(&[3], Some("tok2")));
    assert_eq!(walk.next_params().unwrap().forward_paging_token, Some("tok2".to_string()));
}

#[test]
fn page_without_token_ends_the_walk() {
    let mut walk = PageWalk::new(TransactionParams::default());
    walk.advance(page(&[1], Some("a")));
    walk.advance(page(&[2], None));
    assert!(walk.is_finished());
    assert!(walk.next_params().is_none());
    assert_eq!(walk.items(), &vec![1, 2]);
}

#[test]
fn first_page_without_token_ends_the_walk() {
    let mut walk = PageWalk::new(TransactionParams::default());
    walk.advance(page(&[], None));
    assert!(walk.is_finished());
    assert!(walk.into_items().is_empty());
}

#[test]
fn same_token_twice_in_a_row_ends_the_walk() {
    let mut walk = PageWalk::new(TransactionParams::default().with_page_size(2));
    walk.advance(page(&[1, 2], Some("same")));
    assert!(!walk.is_finished());
    walk.advance(page(&[3, 4], Some("same")));
    assert!(walk.is_finished());
    assert!(walk.next_params().is_none());
    assert_eq!(walk.into_items(), vec![1, 2, 3, 4]);
}

#[test]
fn token_that_the_walk_started_with_ends_it_when_it_comes_back() {
    let params = TransactionParams::default().with_forward_paging_token("start".to_string());
    let mut walk = PageWalk::new(params);
    walk.advance(page(&[9], Some("start")));
    assert!(walk.is_finished());
    assert_eq!(walk.items(), &vec![9]);
}

#[test]
fn token_seen_earlier_but_not_last_does_not_end_the_walk() {
    let mut walk = PageWalk::new(TransactionParams::default());
    walk.advance(page(&[1], Some("a")));
    walk.advance(page(&[2], Some("b")));
    walk.advance(page(&[3], Some("a")));
    assert!(!walk.is_finished());
    assert_eq!(walk.next_params().unwrap().forward_paging_token, Some("a".to_string()));
}

#[test]
fn finished_walk_takes_no_further_page() {
    let mut walk = PageWalk::new(TransactionParams::default());
    walk.advance(page(&[1], None));
    walk.advance(page(&[2], Some("late")));
    assert!(walk.is_finished());
    assert!(walk.next_params().is_none());
    assert_eq!(walk.items(), &vec![1]);
}

#[test]
fn items_are_collected_in_the_order_of_the_pages() {
    let mut walk = PageWalk::new(TransactionParams::default());
    walk.advance(page(&[5, 1], Some("a")));
    walk.advance(page(&[], Some("b")));
    walk.advance(page(&[4, 4, 2], Some("c")));
    walk.advance(page(&[3], None));
    assert_eq!(walk.into_items(), vec![5, 1, 4, 4, 2, 3]);
}

#[test]
fn filters_stay_through_the_walk() {
    let params = TransactionParams::default()
        .with_from_booking_datetime(Timestamp::new(1577836800, 0).unwrap())
        .with_to_booking_datetime(Timestamp::new(1580515200, 0).unwrap())
        .with_page_size(10);
    let mut walk = PageWalk::new(params);
    walk.advance(page(&[1], Some("t1")));
    walk.advance(page(&[2], Some("t2")));
    assert_eq!(
        walk.next_params().unwrap().query_string(),
        "fromBookingDateTime=2020-01-01T00%3A00%3A00Z&toBookingDateTime=2020-02-01T00%3A00%3A00Z&pageSize=10&forwardPagingToken=t2"
    );
}
