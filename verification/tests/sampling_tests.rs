use nasa_wallpaper::error::SearchError;
use nasa_wallpaper::sampling::{
    confine, draw_index, draw_page, last_page, page_count, select_index, select_page, FIRST_PAGE,
    PAGE_LIMIT, PAGE_SIZE,
};

#[test]
fn page_constants() {
    assert_eq!(FIRST_PAGE, 1);
    assert_eq!(PAGE_SIZE, 100);
    assert_eq!(PAGE_LIMIT, 100);
}

#[test]
fn page_count_is_hits_over_hundred() {
    assert_eq!(page_count(0), 0);
    assert_eq!(page_count(5), 0);
    assert_eq!(page_count(99), 0);
    assert_eq!(page_count(100), 1);
    assert_eq!(page_count(250), 2);
    assert_eq!(page_count(9_999), 99);
}

#[test]
fn page_count_is_capped_at_hundred() {
    assert_eq!(page_count(10_000), 100);
    assert_eq!(page_count(10_100), 100);
    assert_eq!(page_count(1_000_000), 100);
    assert_eq!(page_count(u64::MAX), 100);
}

#[test]
fn last_page_counts_from_one() {
    assert_eq!(last_page(5), 1);
    assert_eq!(last_page(250), 3);
    assert_eq!(last_page(u64::MAX), 101);
}

#[test]
fn confine_keeps_inside_and_moves_outside() {
    assert_eq!(confine(5, 1, 10), 5);
    assert_eq!(confine(1, 1, 10), 1);
    assert_eq!(confine(10, 1, 10), 10);
    assert_eq!(confine(0, 1, 10), 1);
    assert_eq!(confine(11, 1, 10), 10);
    assert_eq!(confine(u64::MAX, 0, 0), 0);
}

#[test]
fn select_page_fails_without_hits() {
    assert_eq!(select_page(0, 1), Err(SearchError::NoResults));
    assert_eq!(select_page(0, 77), Err(SearchError::NoResults));
}

#[test]
fn select_page_of_250_hits_is_one_of_three() {
    assert_eq!(select_page(250, 1), Ok(1));
    assert_eq!(select_page(250, 2), Ok(2));
    assert_eq!(select_page(250, 3), Ok(3));
    assert_eq!(select_page(250, 4), Ok(3));
    assert_eq!(select_page(250, 0), Ok(1));
}

#[test]
fn select_page_of_five_hits_is_the_first() {
    for drawn in 0..50u64 {
        assert_eq!(select_page(5, drawn), Ok(1));
    }
    assert_eq!(select_page(5, u64::MAX), Ok(1));
}

#[test]
fn select_page_stays_in_range_for_every_draw() {
    for hits in [1u64, 99, 100, 101, 250, 9_999, 10_000, 123_456] {
        let last = last_page(hits);
        for drawn in 0..=(last + 3) {
            let page = select_page(hits, drawn).unwrap();
            assert!(page >= FIRST_PAGE && page <= last);
            if drawn >= FIRST_PAGE && drawn <= last {
                assert_eq!(page, drawn);
            }
        }
    }
}

#[test]
fn select_index_fails_on_empty_page() {
    assert_eq!(select_index(0, 0), Err(SearchError::EmptyPage));
    assert_eq!(select_index(0, 9), Err(SearchError::EmptyPage));
}

#[test]
fn select_index_is_below_len() {
    assert_eq!(select_index(50, 0), Ok(0));
    assert_eq!(select_index(50, 49), Ok(49));
    assert_eq!(select_index(50, 50), Ok(49));
    assert_eq!(select_index(50, 99), Ok(49));
    assert_eq!(select_index(5, 4), Ok(4));
    assert_eq!(select_index(5, 99), Ok(4));
}

#[test]
fn select_index_on_single_item_is_zero() {
    for drawn in [0u64, 1, 2, 99, u64::MAX] {
        assert_eq!(select_index(1, drawn), Ok(0));
    }
}

#[test]
fn draw_page_fails_without_hits() {
    assert_eq!(draw_page(0), Err(SearchError::NoResults));
}

#[test]
fn draw_page_stays_in_range() {
    for _ in 0..200 {
        let page = draw_page(250).unwrap();
        assert!((1..=3).contains(&page));
    }
    for _ in 0..50 {
        assert_eq!(draw_page(5), Ok(1));
    }
}

#[test]
fn draw_page_reaches_every_page() {
    let mut seen = [false; 3];
    for _ in 0..2000 {
        let page = draw_page(250).unwrap();
        seen[(page - 1) as usize] = true;
    }
    assert_eq!(seen, [true, true, true]);
}

#[test]
fn draw_index_fails_on_empty_page() {
    assert_eq!(draw_index(0), Err(SearchError::EmptyPage));
}

#[test]
fn draw_index_stays_below_len() {
    for _ in 0..200 {
        assert!(draw_index(50).unwrap() < 50);
        assert!(draw_index(5).unwrap() < 5);
    }
    for _ in 0..50 {
        assert_eq!(draw_index(1), Ok(0));
    }
}

#[test]
fn draw_index_reaches_every_item() {
    let mut seen = [false; 5];
    for _ in 0..2000 {
        seen[draw_index(5).unwrap()] = true;
    }
    assert_eq!(seen, [true; 5]);
}
