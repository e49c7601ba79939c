//! Choice of a result page and of an item on it.
//!
//! The search endpoint numbers its pages from 1, returns at most 100 items on
//! a page, and serves no page parameter above 100 past the first, however
//! many hits it reports. A run draws a page among those that the reported
//! count reaches, then an item among those that the page holds.

use crate::error::SearchError;
use rand::Rng;
use vstd::prelude::*;

verus! {

/// Number of the first page. The endpoint counts pages from 1.
pub const FIRST_PAGE: u64 = 1;

/// Largest number of items the endpoint returns on one page.
pub const PAGE_SIZE: u64 = 100;

/// Largest distance from the first page that the endpoint serves.
pub const PAGE_LIMIT: u64 = 100;

/// Number of pages past the first that `total_hits` results reach:
/// `total_hits / 100`, rounded down, and never more than 100.
pub open spec fn spec_page_count(total_hits: nat) -> nat {
    if total_hits / 100 <= 100 {
        total_hits / 100
    } else {
        100
    }
}

/// Number of the last page that may be drawn for `total_hits` results.
pub open spec fn spec_last_page(total_hits: nat) -> nat {
    1 + spec_page_count(total_hits)
}

/// Whether `page` may be drawn for `total_hits` results.
pub open spec fn spec_page_in_range(total_hits: nat, page: nat) -> bool {
    1 <= page <= spec_last_page(total_hits)
}

/// `value`, moved to the nearer end of `low ..= high` where it lies outside.
pub open spec fn spec_confine(value: int, low: int, high: int) -> int {
    if value < low {
        low
    } else if value > high {
        high
    } else {
        value
    }
}

/// The page chosen for `total_hits > 0` results when `drawn` was drawn.
pub open spec fn spec_select_page(total_hits: nat, drawn: nat) -> nat {
    spec_confine(drawn as int, 1, spec_last_page(total_hits) as int) as nat
}

/// The index chosen on a page of `len > 0` items when `drawn` was drawn.
pub open spec fn spec_select_index(len: nat, drawn: nat) -> nat {
    spec_confine(drawn as int, 0, len - 1) as nat
}

/// Computes how many pages lie past the first one.
pub fn page_count(total_hits: u64) -> (pages: u64)
    ensures
        pages == spec_page_count(total_hits as nat),
        pages <= PAGE_LIMIT,
{
    let full: u64 = total_hits / PAGE_SIZE;
    if full <= PAGE_LIMIT {
        full
    } else {
        PAGE_LIMIT
    }
}

/// Computes the number of the last page that may be drawn.
pub fn last_page(total_hits: u64) -> (page: u64)
    ensures
        page == spec_last_page(total_hits as nat),
        FIRST_PAGE <= page <= FIRST_PAGE + PAGE_LIMIT,
{
    FIRST_PAGE + page_count(total_hits)
}

/// Moves `value` into `low ..= high`. A value already inside is returned as it is.
pub fn confine(value: u64, low: u64, high: u64) -> (inside: u64)
    requires
        low <= high,
    ensures
        inside == spec_confine(value as int, low as int, high as int),
        low <= inside <= high,
        low <= value <= high ==> inside == value,
{
    if value < low {
        low
    } else if value > high {
        high
    } else {
        value
    }
}

/// Chooses the page to sample from, given the number that was drawn.
///
/// Fails with `NoResults` exactly when nothing was found. Otherwise the page
/// lies between the first page and the last one that the count reaches; it is
/// the drawn number itself where that lies in this range, else the nearer end.
pub fn select_page(total_hits: u64, drawn: u64) -> (chosen: Result<u64, SearchError>)
    ensures
        total_hits == 0 <==> chosen is Err,
        chosen is Err ==> chosen == Err::<u64, SearchError>(SearchError::NoResults),
        chosen matches Ok(page) ==> {
            &&& page == spec_select_page(total_hits as nat, drawn as nat)
            &&& spec_page_in_range(total_hits as nat, page as nat)
            &&& spec_page_in_range(total_hits as nat, drawn as nat) ==> page == drawn
        },
{
    if total_hits == 0 {
        Err(SearchError::NoResults)
    } else {
        Ok(confine(drawn, FIRST_PAGE, last_page(total_hits)))
    }
}

/// Chooses the index of an item on a page of `len` items, given the number
/// that was drawn.
///
/// Fails with `EmptyPage` exactly when the page holds nothing. Otherwise the
/// index is below `len`; it is the drawn number itself where that is below
/// `len`, else `len - 1`. On a page of one item it is 0 whatever was drawn.
pub fn select_index(len: usize, drawn: u64) -> (chosen: Result<usize, SearchError>)
    ensures
        len == 0 <==> chosen is Err,
        chosen is Err ==> chosen == Err::<usize, SearchError>(SearchError::EmptyPage),
        chosen matches Ok(index) ==> {
            &&& index == spec_select_index(len as nat, drawn as nat)
            &&& index < len
            &&& drawn < len ==> index == drawn
            &&& len == 1 ==> index == 0
        },
{
    if len == 0 {
        Err(SearchError::EmptyPage)
    } else {
        let last: u64 = (len - 1) as u64;
        let inside: u64 = confine(drawn, 0, last);
        Ok(inside as usize)
    }
}

/// `Rng::random_range` of the crate `rand` on the thread's generator, which
/// `rand::rng` hands out: a number drawn from `low ..= high`. The call panics
/// on an empty range, which `low <= high` leaves out. Nothing else is claimed
/// of the number: two calls with the same bounds may differ.
#[verifier::external_body]
pub(crate) fn random_in_range(low: u64, high: u64) -> (drawn: u64)
    requires
        low <= high,
    ensures
        low <= drawn <= high,
{
    rand::rng().random_range(low..=high)
}

/// Draws a page for `total_hits` results from the thread's random generator.
///
/// Fails with `NoResults` exactly when nothing was found; then nothing is
/// drawn. Otherwise the page lies between the first page and the last one
/// that the count reaches.
pub fn draw_page(total_hits: u64) -> (chosen: Result<u64, SearchError>)
    ensures
        total_hits == 0 <==> chosen is Err,
        chosen is Err ==> chosen == Err::<u64, SearchError>(SearchError::NoResults),
        chosen matches Ok(page) ==> spec_page_in_range(total_hits as nat, page as nat),
{
    if total_hits == 0 {
        Err(SearchError::NoResults)
    } else {
        let drawn: u64 = random_in_range(FIRST_PAGE, last_page(total_hits));
        select_page(total_hits, drawn)
    }
}

/// Draws the index of an item on a page of `len` items from the thread's
/// random generator.
///
/// Fails with `EmptyPage` exactly when the page holds nothing; then nothing
/// is drawn. Otherwise the index is below `len`, and 0 on a page of one item.
pub fn draw_index(len: usize) -> (chosen: Result<usize, SearchError>)
    ensures
        len == 0 <==> chosen is Err,
        chosen is Err ==> chosen == Err::<usize, SearchError>(SearchError::EmptyPage),
        chosen matches Ok(index) ==> index < len && (len == 1 ==> index == 0),
{
    if len == 0 {
        Err(SearchError::EmptyPage)
    } else {
        let drawn: u64 = random_in_range(0, (len - 1) as u64);
        select_index(len, drawn)
    }
}

} // verus!
