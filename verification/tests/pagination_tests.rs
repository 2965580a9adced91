use elkar_core::pagination::{compute_paginated, load_with_pagination, PaginationOptions};

fn five_records() -> Vec<u64> {
    vec![10, 11, 12, 13, 14]
}

#[test]
fn page_one_of_five_by_two() {
    let page = load_with_pagination(
        five_records(),
        &PaginationOptions { page: Some(1), per_page: 2 },
    );
    assert_eq!(page.records, vec![10, 11]);
    assert_eq!(page.total, 5);
    assert!(page.has_more);
}

#[test]
fn page_two_of_five_by_two() {
    let page = load_with_pagination(
        five_records(),
        &PaginationOptions { page: Some(2), per_page: 2 },
    );
    assert_eq!(page.records, vec![12, 13]);
    assert_eq!(page.total, 5);
    assert!(page.has_more);
}

#[test]
fn last_page_of_five_by_two_is_short_and_final() {
    let page = load_with_pagination(
        five_records(),
        &PaginationOptions { page: Some(3), per_page: 2 },
    );
    assert_eq!(page.records, vec![14]);
    assert_eq!(page.total, 5);
    assert!(!page.has_more);
}

#[test]
fn page_past_the_end_is_empty() {
    let page = load_with_pagination(
        five_records(),
        &PaginationOptions { page: Some(4), per_page: 2 },
    );
    assert_eq!(page.records, Vec::<u64>::new());
    assert_eq!(page.total, 0);
    assert!(!page.has_more);
}

#[test]
fn exact_page_boundary_has_no_more() {
    let page = load_with_pagination(
        vec![1u64, 2, 3, 4],
        &PaginationOptions { page: Some(2), per_page: 2 },
    );
    assert_eq!(page.records, vec![3, 4]);
    assert_eq!(page.total, 4);
    assert!(!page.has_more);
}

#[test]
fn empty_listing_gives_empty_page_and_zero_total() {
    let page = load_with_pagination(
        Vec::<u64>::new(),
        &PaginationOptions { page: Some(1), per_page: 3 },
    );
    assert_eq!(page.records, Vec::<u64>::new());
    assert_eq!(page.total, 0);
    assert!(!page.has_more);
}

#[test]
fn no_page_starts_at_the_first_record() {
    let page =
        load_with_pagination(five_records(), &PaginationOptions { page: None, per_page: 4 });
    assert_eq!(page.records, vec![10, 11, 12, 13]);
    assert_eq!(page.total, 5);
    assert!(page.has_more);
}

#[test]
fn compute_paginated_drops_the_probe_row() {
    let rows: Vec<(u64, i64)> = vec![(10, 5), (11, 5), (12, 5)];
    let page = compute_paginated(rows, Some(PaginationOptions { page: Some(1), per_page: 2 }));
    assert_eq!(page.records, vec![10, 11]);
    assert_eq!(page.total, 5);
    assert!(page.has_more);
}

#[test]
fn compute_paginated_without_options_keeps_everything() {
    let rows: Vec<(u64, i64)> = vec![(10, 7), (11, 7)];
    let page = compute_paginated(rows, None);
    assert_eq!(page.records, vec![10, 11]);
    assert_eq!(page.total, 7);
    assert!(!page.has_more);
}

#[test]
fn compute_paginated_of_nothing_is_empty() {
    let rows: Vec<(u64, i64)> = Vec::new();
    let page = compute_paginated(rows, Some(PaginationOptions { page: Some(1), per_page: 2 }));
    assert_eq!(page.records, Vec::<u64>::new());
    assert_eq!(page.total, 0);
    assert!(!page.has_more);
}

#[test]
fn offset_is_page_minus_one_times_page_size() {
    assert_eq!(PaginationOptions { page: Some(3), per_page: 4 }.offset(), Some(8));
    assert_eq!(PaginationOptions { page: None, per_page: 4 }.offset(), None);
    assert_eq!(PaginationOptions { page: Some(3), per_page: 4 }.limit(), 4);
}
