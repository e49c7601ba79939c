use nasa_wallpaper::error::{RequestStep, ResponseField, SearchError};
use nasa_wallpaper::models::NasaImage;
use nasa_wallpaper::sampler::{Progress, Request, Sampler, SearchEvent};
use nasa_wallpaper::search::{QueryParam, SearchQuery};
use serde_json::Value;

fn doc(text: &str) -> SearchEvent {
    SearchEvent::Document(serde_json::from_str::<Value>(text).unwrap())
}

fn query(q: &str) -> SearchQuery {
    SearchQuery {
        q: q.to_string(),
        center: String::new(),
        location: String::new(),
        nasa_id: String::new(),
        photographer: String::new(),
        title: String::new(),
        year_start: String::new(),
        year_end: String::new(),
    }
}

fn param(name: &str, value: &str) -> QueryParam {
    QueryParam { name: name.to_string(), value: value.to_string() }
}

fn numbered_item(n: usize) -> String {
    format!(
        "{{\"href\": \"https://example.com/{n}/collection.json\", \"data\": [{{\"nasa_id\": \"id-{n}\", \
         \"title\": \"Title {n}\", \"center\": \"JPL\", \"description\": \"Item {n}\", \
         \"date_created\": \"2023-05-01T00:00:00Z\"}}]}}"
    )
}

fn page_of(total_hits: u64, count: usize) -> String {
    let items: Vec<String> = (0..count).map(numbered_item).collect();
    format!(
        "{{\"collection\": {{\"metadata\": {{\"total_hits\": {total_hits}}}, \"items\": [{}]}}}}",
        items.join(", ")
    )
}

fn begun(q: &str) -> Sampler {
    Sampler::start(query(q)).0
}

fn failure(progress: Progress) -> SearchError {
    match progress {
        Progress::Done { outcome: Err(error) } => error,
        other => panic!("the run did not fail: {:?}", other),
    }
}

fn next(progress: Progress) -> (Sampler, Request) {
    match progress {
        Progress::Next { sampler, request } => (sampler, request),
        other => panic!("the run did not go on: {:?}", other),
    }
}

fn image(progress: Progress) -> NasaImage {
    match progress {
        Progress::Done { outcome: Ok(image) } => image,
        other => panic!("the run gave no image: {:?}", other),
    }
}

fn asset_href(request: Request) -> String {
    match request {
        Request::Assets { href } => href,
        other => panic!("not a request for assets: {:?}", other),
    }
}

#[test]
fn run_begins_with_the_search() {
    let (sampler, request) = Sampler::start(query("mars"));
    assert_eq!(
        request,
        Request::Search { params: vec![param("media_type", "image"), param("q", "mars")] }
    );
    assert_eq!(sampler.pending_step(), RequestStep::Search);
}

#[test]
fn no_hits_end_the_run_with_no_results() {
    for (page_draw, index_draw) in [(0u64, 0u64), (1, 0), (3, 7), (u64::MAX, u64::MAX)] {
        let progress = begun("zzz").step_with(doc(&page_of(0, 0)), page_draw, index_draw);
        assert_eq!(failure(progress), SearchError::NoResults);
    }
    assert_eq!(failure(begun("zzz").step(doc(&page_of(0, 0)))), SearchError::NoResults);
    assert_eq!(failure(begun("zzz").step(doc("{}"))), SearchError::NoResults);
}

#[test]
fn no_hits_win_over_missing_items() {
    let progress = begun("zzz").step_with(doc("{\"collection\": {}}"), 1, 0);
    assert_eq!(failure(progress), SearchError::NoResults);
}

#[test]
fn hits_250_page_three_is_requested() {
    let (sampler, request) = next(begun("moon").step_with(doc(&page_of(250, 100)), 3, 0));
    assert_eq!(
        request,
        Request::Search {
            params: vec![param("media_type", "image"), param("q", "moon"), param("page", "3")],
        }
    );
    assert_eq!(sampler.pending_step(), RequestStep::Page);
}

#[test]
fn hits_250_page_two_is_requested() {
    let (_, request) = next(begun("moon").step_with(doc(&page_of(250, 100)), 2, 99));
    assert_eq!(
        request,
        Request::Search {
            params: vec![param("media_type", "image"), param("q", "moon"), param("page", "2")],
        }
    );
}

#[test]
fn hits_250_draw_beyond_the_last_page_counts_as_the_last() {
    let (_, request) = next(begun("moon").step_with(doc(&page_of(250, 100)), 4, 0));
    assert_eq!(
        request,
        Request::Search {
            params: vec![param("media_type", "image"), param("q", "moon"), param("page", "3")],
        }
    );
}

#[test]
fn hits_250_page_three_samples_among_its_fifty_items() {
    for index_draw in [0u64, 1, 25, 49, 50, 99, u64::MAX] {
        let (sampler, _) = next(begun("moon").step_with(doc(&page_of(250, 100)), 3, 0));
        let (sampler, request) = next(sampler.step_with(doc(&page_of(250, 50)), 1, index_draw));
        let expected = if index_draw < 50 { index_draw } else { 49 };
        assert_eq!(
            asset_href(request),
            format!("https://example.com/{expected}/collection.json")
        );
        assert_eq!(sampler.pending_step(), RequestStep::Assets);
    }
}

#[test]
fn hits_250_random_steps_stay_in_range() {
    for _ in 0..100 {
        match begun("moon").step(doc(&page_of(250, 100))) {
            Progress::Next { request: Request::Search { params }, sampler } => {
                let page = params.last().unwrap();
                assert_eq!(page.name, "page");
                assert!(page.value == "2" || page.value == "3");
                let (_, request) = next(sampler.step(doc(&page_of(250, 50))));
                let href = asset_href(request);
                let n: usize = href
                    .trim_start_matches("https://example.com/")
                    .trim_end_matches("/collection.json")
                    .parse()
                    .unwrap();
                assert!(n < 50);
            }
            Progress::Next { request: Request::Assets { href }, .. } => {
                let n: usize = href
                    .trim_start_matches("https://example.com/")
                    .trim_end_matches("/collection.json")
                    .parse()
                    .unwrap();
                assert!(n < 100);
            }
            other => panic!("unexpected: {:?}", other),
        }
    }
}

#[test]
fn first_page_is_reused_without_another_search() {
    let (sampler, request) = next(begun("moon").step_with(doc(&page_of(250, 100)), 1, 42));
    assert_eq!(asset_href(request), "https://example.com/42/collection.json");
    assert_eq!(sampler.pending_step(), RequestStep::Assets);
}

#[test]
fn hits_5_stay_on_the_single_page() {
    for page_draw in [0u64, 1, 2, 3, 100, u64::MAX] {
        for index_draw in [0u64, 1, 4, 5, 6, 99] {
            let progress = begun("rare").step_with(doc(&page_of(5, 5)), page_draw, index_draw);
            let expected = if index_draw < 5 { index_draw } else { 4 };
            assert_eq!(
                asset_href(next(progress).1),
                format!("https://example.com/{expected}/collection.json")
            );
        }
    }
}

#[test]
fn hits_5_random_steps_stay_below_five() {
    for _ in 0..100 {
        let href = asset_href(next(begun("rare").step(doc(&page_of(5, 5)))).1);
        let n: usize = href
            .trim_start_matches("https://example.com/")
            .trim_end_matches("/collection.json")
            .parse()
            .unwrap();
        assert!(n < 5);
    }
}

#[test]
fn single_item_is_always_chosen() {
    for index_draw in [0u64, 1, 50, u64::MAX] {
        let progress = begun("one").step_with(doc(&page_of(1, 1)), 1, index_draw);
        assert_eq!(asset_href(next(progress).1), "https://example.com/0/collection.json");
    }
    for _ in 0..20 {
        let progress = begun("one").step(doc(&page_of(1, 1)));
        assert_eq!(asset_href(next(progress).1), "https://example.com/0/collection.json");
    }
}

#[test]
fn empty_page_fails_the_run() {
    let progress = begun("stale").step_with(doc(&page_of(7, 0)), 1, 0);
    assert_eq!(failure(progress), SearchError::EmptyPage);
    let (sampler, _) = next(begun("stale").step_with(doc(&page_of(200, 100)), 3, 0));
    assert_eq!(failure(sampler.step_with(doc(&page_of(200, 0)), 1, 0)), SearchError::EmptyPage);
    let (sampler, _) = next(begun("stale").step_with(doc(&page_of(200, 100)), 3, 0));
    assert_eq!(failure(sampler.step(doc(&page_of(200, 0)))), SearchError::EmptyPage);
}

#[test]
fn missing_items_are_malformed() {
    let progress =
        begun("x").step_with(doc("{\"collection\": {\"metadata\": {\"total_hits\": 3}}}"), 1, 0);
    assert_eq!(failure(progress), SearchError::MalformedResponse { field: ResponseField::Items });
}

#[test]
fn item_without_href_is_malformed() {
    let page = "{\"collection\": {\"metadata\": {\"total_hits\": 1}, \"items\": [{\"data\": \
                [{\"date_created\": \"2020\"}]}]}}";
    let progress = begun("x").step_with(doc(page), 1, 0);
    assert_eq!(failure(progress), SearchError::MalformedResponse { field: ResponseField::Href });
}

#[test]
fn transport_failure_names_the_pending_step() {
    assert_eq!(
        failure(begun("x").step_with(SearchEvent::TransportFailed, 1, 0)),
        SearchError::NetworkFailure { step: RequestStep::Search }
    );
    let (sampler, _) = next(begun("x").step_with(doc(&page_of(250, 100)), 2, 0));
    assert_eq!(
        failure(sampler.step_with(SearchEvent::TransportFailed, 1, 0)),
        SearchError::NetworkFailure { step: RequestStep::Page }
    );
    let (sampler, _) = next(begun("x").step_with(doc(&page_of(5, 5)), 1, 0));
    assert_eq!(
        failure(sampler.step(SearchEvent::TransportFailed)),
        SearchError::NetworkFailure { step: RequestStep::Assets }
    );
}

#[test]
fn unreadable_body_is_malformed() {
    assert_eq!(
        failure(begun("x").step_with(SearchEvent::Unreadable, 1, 0)),
        SearchError::MalformedResponse { field: ResponseField::Body }
    );
    let (sampler, _) = next(begun("x").step_with(doc(&page_of(5, 5)), 1, 0));
    assert_eq!(
        failure(sampler.step(SearchEvent::Unreadable)),
        SearchError::MalformedResponse { field: ResponseField::Body }
    );
}

#[test]
fn run_ends_with_the_image_of_the_chosen_item() {
    let (sampler, request) = next(begun("moon").step_with(doc(&page_of(5, 5)), 1, 3));
    assert_eq!(asset_href(request), "https://example.com/3/collection.json");
    let assets = "[\"https://a/3~orig.jpg\", \"https://a/3~thumb.jpg\"]";
    assert_eq!(
        image(sampler.step_with(doc(assets), 9, 9)),
        NasaImage {
            nasa_id: "id-3".to_string(),
            title: "Title 3".to_string(),
            center: "JPL".to_string(),
            description: "Item 3".to_string(),
            date: "2023-05-01".to_string(),
            url: "https://a/3~orig.jpg".to_string(),
        }
    );
}

#[test]
fn run_over_three_requests() {
    let (sampler, request) = Sampler::start(query("apollo"));
    assert_eq!(
        request,
        Request::Search { params: vec![param("media_type", "image"), param("q", "apollo")] }
    );
    let (sampler, request) = next(sampler.step_with(doc(&page_of(250, 100)), 3, 0));
    assert_eq!(
        request,
        Request::Search {
            params: vec![param("media_type", "image"), param("q", "apollo"), param("page", "3")],
        }
    );
    let (sampler, request) = next(sampler.step_with(doc(&page_of(250, 50)), 0, 49));
    assert_eq!(asset_href(request), "https://example.com/49/collection.json");
    let found = image(sampler.step(doc("[\"https://a/49.jpg\"]")));
    assert_eq!(found.nasa_id, "id-49");
    assert_eq!(found.url, "https://a/49.jpg");
    assert_eq!(found.date, "2023-05-01");
}

#[test]
fn asset_list_that_is_empty_or_no_list_is_malformed() {
    for assets in ["[]", "{}", "[1]", "[\"u\", 2]", "null", "{\"0\": \"u\"}"] {
        let (sampler, _) = next(begun("moon").step_with(doc(&page_of(5, 5)), 1, 0));
        assert_eq!(failure(sampler.step_with(doc(assets), 0, 0)), SearchError::MalformedAsset);
    }
}

#[test]
fn item_without_creation_date_is_malformed() {
    let page = "{\"collection\": {\"metadata\": {\"total_hits\": 1}, \"items\": [{\"href\": \
                \"h\", \"data\": [{\"title\": \"t\"}]}]}}";
    let (sampler, request) = next(begun("x").step_with(doc(page), 1, 0));
    assert_eq!(asset_href(request), "h");
    assert_eq!(
        failure(sampler.step_with(doc("[\"u\"]"), 0, 0)),
        SearchError::MalformedResponse { field: ResponseField::DateCreated }
    );
}

#[test]
fn malformed_assets_win_over_a_missing_date() {
    let page = "{\"collection\": {\"metadata\": {\"total_hits\": 1}, \"items\": [{\"href\": \
                \"h\", \"data\": [{\"title\": \"t\"}]}]}}";
    let (sampler, _) = next(begun("x").step_with(doc(page), 1, 0));
    assert_eq!(failure(sampler.step_with(doc("[]"), 0, 0)), SearchError::MalformedAsset);
}
