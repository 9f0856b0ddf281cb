use bearer_api::api::data::{
    fetch, get, read_db, rows_query, take_sample, FetchError, PathParams, QueryParams,
    MAX_RETRIEVAL,
};
use bearer_api::api::utils::{Payload, Status};
use bearer_api::models::data::Row;

fn row(id: u32) -> Row {
    Row {
        id,
        category_slug: "animals".to_string(),
        name: format!("name {}", id),
        title: format!("title {}", id),
    }
}

fn descending(count: u32) -> Vec<Row> {
    (1..=count).rev().map(row).collect()
}

fn ids(rows: &[Row]) -> Vec<u32> {
    rows.iter().map(|r| r.id).collect()
}

#[test]
fn query_asks_for_the_category_newest_first_and_capped() {
    let query = rows_query(&PathParams { category_slug: "animals".to_string() });
    assert_eq!(query.collection, "questions");
    assert_eq!(query.filter_field, "category_slug");
    assert_eq!(query.filter_value, "animals");
    assert_eq!(query.order_field, "id");
    assert!(query.descending);
    assert_eq!(query.limit, 200);
    assert_eq!(MAX_RETRIEVAL, 200);
}

#[test]
fn unreadable_items_are_skipped() {
    let items = vec![
        Ok(row(5)),
        Err("bad document".to_string()),
        Ok(row(3)),
        Err("worse".to_string()),
        Ok(row(1)),
    ];
    let rows = read_db(Ok(items));
    assert_eq!(rows, Ok(vec![row(5), row(3), row(1)]));
}

#[test]
fn retrieval_without_readable_items_is_empty() {
    assert_eq!(read_db(Ok(vec![])), Ok(Vec::<Row>::new()));
    assert_eq!(
        read_db(Ok(vec![Err("a".to_string()), Err("b".to_string())])),
        Ok(Vec::<Row>::new())
    );
}

#[test]
fn failed_query_is_a_store_failure() {
    assert_eq!(read_db(Err("unavailable".to_string())), Err(FetchError::StoreFailure));
    assert_eq!(read_db(Err(String::new())), Err(FetchError::StoreFailure));
}

#[test]
fn listing_after_a_failed_query_is_a_500() {
    let path = PathParams { category_slug: "animals".to_string() };
    for limit in [None, Some(0), Some(3)] {
        let retrieval = read_db(Err("connection reset by peer".to_string()));
        let envelope = get(&path, &QueryParams { limit }, retrieval);
        assert_eq!(envelope.code, Status::InternalServerError);
        assert_eq!(envelope.code.code(), 500);
        assert_eq!(envelope.message, "error");
        assert_eq!(envelope.data, None);
        assert_eq!(envelope.error, Some("internal server error".to_string()));
    }
}

#[test]
fn no_limit_returns_the_retrieval() {
    let retrieved = descending(10);
    assert_eq!(fetch(retrieved.clone(), None), Ok(retrieved));
    let full = descending(200);
    let listing = fetch(full.clone(), None).unwrap();
    assert_eq!(listing.len(), 200);
    assert_eq!(listing, full);
    assert_eq!(ids(&listing)[0], 200);
    assert_eq!(ids(&listing)[199], 1);
}

#[test]
fn limit_at_or_above_the_count_returns_the_retrieval() {
    let retrieved = descending(5);
    assert_eq!(fetch(retrieved.clone(), Some(5)), Ok(retrieved.clone()));
    assert_eq!(fetch(retrieved.clone(), Some(6)), Ok(retrieved.clone()));
    assert_eq!(fetch(retrieved.clone(), Some(u32::MAX)), Ok(retrieved.clone()));
    assert_eq!(fetch(retrieved.clone(), Some(5)), fetch(retrieved, None));
}

#[test]
fn limit_below_the_count_samples_without_replacement() {
    let retrieved = descending(50);
    for limit in [1_u32, 2, 10, 25, 49] {
        let listing = fetch(retrieved.clone(), Some(limit)).unwrap();
        assert_eq!(listing.len(), limit as usize);
        let mut seen = ids(&listing);
        seen.sort();
        seen.dedup();
        assert_eq!(seen.len(), limit as usize);
        for picked in &listing {
            assert!(retrieved.contains(picked));
        }
    }
}

#[test]
fn zero_limit_on_a_found_category_is_an_empty_success() {
    assert_eq!(fetch(descending(3), Some(0)), Ok(vec![]));
}

#[test]
fn sampling_reorders() {
    let retrieved = descending(100);
    let mut reordered = false;
    for _ in 0..20 {
        let listing = fetch(retrieved.clone(), Some(99)).unwrap();
        if ids(&listing) != ids(&retrieved[..99]) {
            reordered = true;
        }
    }
    assert!(reordered);
}

#[test]
fn samples_differ_from_call_to_call() {
    let retrieved = descending(200);
    let first = fetch(retrieved.clone(), Some(20)).unwrap();
    let mut differs = false;
    for _ in 0..20 {
        if fetch(retrieved.clone(), Some(20)).unwrap() != first {
            differs = true;
        }
    }
    assert!(differs);
}

#[test]
fn empty_retrieval_is_not_found() {
    assert_eq!(fetch(vec![], None), Err(FetchError::NotFound));
    assert_eq!(fetch(vec![], Some(0)), Err(FetchError::NotFound));
    assert_eq!(fetch(vec![], Some(10)), Err(FetchError::NotFound));
}

#[test]
fn sample_is_the_head_of_the_permutation() {
    assert_eq!(take_sample(vec![row(2), row(9), row(4)], 2), vec![row(2), row(9)]);
    assert_eq!(take_sample(vec![row(2), row(9), row(4)], 0), vec![]);
    assert_eq!(take_sample(vec![row(2), row(9), row(4)], 3), vec![row(2), row(9), row(4)]);
}

#[test]
fn duplicates_in_the_retrieval_may_both_be_drawn() {
    let retrieved = vec![row(1), row(1), row(1)];
    let listing = fetch(retrieved, Some(2)).unwrap();
    assert_eq!(listing, vec![row(1), row(1)]);
}

#[test]
fn listing_of_an_unknown_category_is_a_404() {
    let path = PathParams { category_slug: "no-such-slug".to_string() };
    for limit in [None, Some(0), Some(3)] {
        let envelope = get(&path, &QueryParams { limit }, Ok(vec![]));
        assert_eq!(envelope.code, Status::NotFound);
        assert_eq!(envelope.code.code(), 404);
        assert_eq!(envelope.message, "Not Found");
        assert_eq!(envelope.data, None);
        assert_eq!(
            envelope.error,
            Some("database has not rows, category_slug: no-such-slug".to_string())
        );
        let envelope = get(&path, &QueryParams { limit }, Err(FetchError::NotFound));
        assert_eq!(envelope.code, Status::NotFound);
    }
}

#[test]
fn listing_of_a_category_is_a_200_with_its_rows() {
    let path = PathParams { category_slug: "animals".to_string() };
    let retrieved = descending(4);
    let envelope = get(&path, &QueryParams { limit: None }, Ok(retrieved.clone()));
    assert_eq!(envelope.code, Status::Success);
    assert_eq!(envelope.message, "ok");
    assert_eq!(envelope.error, None);
    assert_eq!(envelope.data, Some(Payload::Rows(retrieved.clone())));
    let envelope = get(&path, &QueryParams { limit: Some(2) }, Ok(retrieved.clone()));
    assert_eq!(envelope.code, Status::Success);
    match envelope.data {
        Some(Payload::Rows(rows)) => {
            assert_eq!(rows.len(), 2);
            assert_ne!(rows[0], rows[1]);
            assert!(retrieved.contains(&rows[0]) && retrieved.contains(&rows[1]));
        }
        other => panic!("unexpected data: {:?}", other),
    }
}
