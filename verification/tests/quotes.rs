use quotes::handlers::create_quote;
use quotes::handlers::create_quote_at;
use quotes::handlers::delete_quote;
use quotes::handlers::health_check;
use quotes::handlers::read_quotes;
use quotes::handlers::update_quote;
use quotes::handlers::update_quote_at;
use quotes::status::write_status;
use quotes::CreateQuote;
use quotes::Pagination;
use quotes::Quote;
use quotes::QuoteStore;
use quotes::Status;

fn input(username: &str, quote: &str) -> CreateQuote {
    CreateQuote {
        username: username.to_string(),
        quote: quote.to_string(),
    }
}

/// A store holding `n` records with identifiers 1..=n, in that order.
fn store_with(n: u128) -> QuoteStore {
    let mut store = QuoteStore::new();
    let mut id: u128 = 1;
    while id <= n {
        let (status, _) = create_quote_at(&mut store, input("user", "text"), id, 100);
        assert_eq!(status, Status::Created);
        id += 1;
    }
    store
}

#[test]
fn health_check_is_success() {
    assert_eq!(health_check(), Status::Success);
    assert_eq!(health_check().code(), 200);
}

#[test]
fn status_codes() {
    assert_eq!(Status::Success.code(), 200);
    assert_eq!(Status::Created.code(), 201);
    assert_eq!(Status::NotFound.code(), 404);
    assert_eq!(Status::ServerError.code(), 500);
}

#[test]
fn write_status_maps_rows_affected() {
    assert_eq!(write_status(0), Status::NotFound);
    assert_eq!(write_status(1), Status::Success);
    assert_eq!(write_status(3), Status::Success);
}

#[test]
fn new_quote_has_equal_timestamps() {
    let q = Quote::new("alice".to_string(), "hello".to_string());
    assert_eq!(q.username, "alice");
    assert_eq!(q.quote, "hello");
    assert_eq!(q.inserted_at, q.updated_at);
}

#[test]
fn created_ids_are_unique() {
    let mut store = QuoteStore::new();
    let (s1, q1) = create_quote(&mut store, input("alice", "one"));
    let (s2, q2) = create_quote(&mut store, input("bob", "two"));
    assert_eq!(s1, Status::Created);
    assert_eq!(s2, Status::Created);
    let q1 = q1.unwrap();
    let q2 = q2.unwrap();
    assert_ne!(q1.id, q2.id);
    assert_eq!(q1.inserted_at, q1.updated_at);
    assert_eq!(q2.inserted_at, q2.updated_at);
}

#[test]
fn create_then_read_back_round_trip() {
    let mut store = QuoteStore::new();
    let (status, created) = create_quote(&mut store, input("alice", "hello"));
    assert_eq!(status, Status::Created);
    let created = created.unwrap();
    let listed = read_quotes(&store, None);
    assert_eq!(listed.len(), 1);
    assert_eq!(listed[0].id, created.id);
    assert_eq!(listed[0].username, "alice");
    assert_eq!(listed[0].quote, "hello");
    assert_eq!(listed[0].inserted_at, created.inserted_at);
    assert_eq!(listed[0].updated_at, created.updated_at);
}

#[test]
fn duplicate_id_insert_is_server_error() {
    let mut store = QuoteStore::new();
    let (s1, _) = create_quote_at(&mut store, input("alice", "one"), 42, 5);
    assert_eq!(s1, Status::Created);
    let (s2, rejected) = create_quote_at(&mut store, input("bob", "two"), 42, 6);
    assert_eq!(s2, Status::ServerError);
    assert_eq!(s2.code(), 500);
    assert!(rejected.is_none());
    let listed = read_quotes(&store, None);
    assert_eq!(listed.len(), 1);
    assert_eq!(listed[0].username, "alice");
}

#[test]
fn update_of_absent_id_is_not_found_and_mutates_nothing() {
    let mut store = store_with(3);
    let status = update_quote(&mut store, 99, input("mallory", "changed"));
    assert_eq!(status, Status::NotFound);
    let listed = read_quotes(&store, None);
    assert_eq!(listed.len(), 3);
    for (i, q) in listed.iter().enumerate() {
        assert_eq!(q.id, (i + 1) as u128);
        assert_eq!(q.username, "user");
        assert_eq!(q.quote, "text");
        assert_eq!(q.inserted_at, 100);
        assert_eq!(q.updated_at, 100);
    }
}

#[test]
fn update_of_present_id_rewrites_texts_and_update_time_only() {
    let mut store = store_with(3);
    let status = update_quote_at(&mut store, 2, input("bob", "fresh"), 250);
    assert_eq!(status, Status::Success);
    let listed = read_quotes(&store, None);
    assert_eq!(listed.len(), 3);
    assert_eq!(listed[1].id, 2);
    assert_eq!(listed[1].username, "bob");
    assert_eq!(listed[1].quote, "fresh");
    assert_eq!(listed[1].inserted_at, 100);
    assert_eq!(listed[1].updated_at, 250);
    assert!(listed[1].updated_at >= 100);
    assert_eq!(listed[0].username, "user");
    assert_eq!(listed[2].username, "user");
}

#[test]
fn delete_then_delete_again_is_not_found() {
    let mut store = store_with(2);
    assert_eq!(delete_quote(&mut store, 2), Status::Success);
    assert_eq!(delete_quote(&mut store, 2), Status::NotFound);
    assert_eq!(delete_quote(&mut store, 2), Status::NotFound);
    assert_eq!(read_quotes(&store, None).len(), 1);
}

#[test]
fn delete_of_absent_id_is_not_found() {
    let mut store = QuoteStore::new();
    assert_eq!(delete_quote(&mut store, 7), Status::NotFound);
}

#[test]
fn pagination_pages_of_two() {
    let store = store_with(5);
    let page1 = read_quotes(
        &store,
        Some(Pagination {
            page: 1,
            per_page: 2,
        }),
    );
    let ids1: Vec<u128> = page1.iter().map(|q| q.id).collect();
    assert_eq!(ids1, vec![1, 2]);
    let page2 = read_quotes(
        &store,
        Some(Pagination {
            page: 2,
            per_page: 2,
        }),
    );
    let ids2: Vec<u128> = page2.iter().map(|q| q.id).collect();
    assert_eq!(ids2, vec![3, 4]);
    let page3 = read_quotes(
        &store,
        Some(Pagination {
            page: 3,
            per_page: 2,
        }),
    );
    let ids3: Vec<u128> = page3.iter().map(|q| q.id).collect();
    assert_eq!(ids3, vec![5]);
    let far = read_quotes(
        &store,
        Some(Pagination {
            page: 40,
            per_page: 2,
        }),
    );
    assert!(far.is_empty());
}

#[test]
fn pagination_defaults_and_empty_store() {
    let store = QuoteStore::new();
    assert!(read_quotes(&store, None).is_empty());
    let p = Pagination::default();
    assert_eq!(p.page, 1);
    assert_eq!(p.per_page, 30);
}

#[test]
fn pagination_boundaries_are_clamped() {
    let zeroes = Pagination {
        page: 0,
        per_page: 0,
    };
    let (limit, offset) = zeroes.sql_window();
    assert_eq!(limit, 1);
    assert_eq!(offset, 0);

    let oversized = Pagination {
        page: 1,
        per_page: 1000,
    };
    let (limit, offset) = oversized.sql_window();
    assert_eq!(limit, 100);
    assert_eq!(offset, 0);

    let plain = Pagination {
        page: 3,
        per_page: 10,
    };
    let (limit, offset) = plain.sql_window();
    assert_eq!(limit, 10);
    assert_eq!(offset, 20);

    let huge = Pagination {
        page: usize::MAX,
        per_page: 100,
    };
    let (limit, offset) = huge.sql_window();
    assert_eq!(limit, 100);
    assert_eq!(offset, i64::MAX);
}

#[test]
fn scenario_create_update_delete() {
    let mut store = QuoteStore::new();
    let (status, body) = create_quote(&mut store, input("alice", "hello"));
    assert_eq!(status.code(), 201);
    let body = body.unwrap();
    assert_eq!(body.username, "alice");
    assert_eq!(body.quote, "hello");
    let id = body.id;

    let status = update_quote(&mut store, id, input("alice", "hi"));
    assert_eq!(status.code(), 200);
    let listed = read_quotes(&store, None);
    assert_eq!(listed.len(), 1);
    assert_eq!(listed[0].quote, "hi");
    assert_eq!(listed[0].id, id);

    assert_eq!(delete_quote(&mut store, id).code(), 200);
    assert_eq!(delete_quote(&mut store, id).code(), 404);
}
