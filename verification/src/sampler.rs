//! A sampling run as a sequence of decisions.
//!
//! The run never performs a request itself. It says which request comes
//! next; its caller performs it and hands back what came of it. A run makes
//! at most three requests: the first search, the chosen page where that is
//! not the first one, and the asset list of the chosen item.

use crate::error::{RequestStep, ResponseField, SearchError};
use crate::json::{array_len_at, json_arrays};
use crate::models::{outcome_view, spec_image, NasaImage, NasaImageView};
use crate::sampling::{
    draw_index, draw_page, select_index, select_page, spec_last_page, spec_page_in_range,
    spec_select_index, spec_select_page, FIRST_PAGE,
};
use crate::search::{
    items_view, page_params, params_view, query_params, read_asset_list, read_search_page,
    read_total_hits, spec_asset_list, spec_items, spec_page_params, spec_query_params,
    spec_total_hits, urls_view, ItemMetadata, ItemMetadataView, QueryParam, SearchItem,
    SearchItemView, SearchQuery, SearchQueryView,
};
use serde_json::Value;
use vstd::prelude::*;

verus! {

/// What came of the request that a run asked for.
#[derive(Debug)]
pub enum SearchEvent {
    /// The response arrived and its body is this JSON document.
    Document(Value),
    /// The request did not complete.
    TransportFailed,
    /// The response arrived, but its body is not a JSON document.
    Unreadable,
}

/// A request that a run asks its caller to perform.
#[derive(Clone, Debug, PartialEq, Eq)]
pub enum Request {
    /// `GET` on the search endpoint with these parameters.
    Search { params: Vec<QueryParam> },
    /// `GET` on this URL, which lists the assets of the chosen item.
    Assets { href: String },
}

/// What a `Request` holds.
pub ghost enum RequestView {
    Search { params: Seq<(Seq<char>, Seq<char>)> },
    Assets { href: Seq<char> },
}

impl View for Request {
    type V = RequestView;

    open spec fn view(&self) -> RequestView {
        match *self {
            Request::Search { params } => RequestView::Search { params: params_view(params@) },
            Request::Assets { href } => RequestView::Assets { href: href@ },
        }
    }
}

/// How far a run has come.
#[derive(Debug)]
pub enum Stage {
    /// The first search request is out.
    FirstPage,
    /// Page `page`, which is not the first, was chosen and requested.
    ChosenPage { page: u64 },
    /// An item was chosen and its asset list was requested.
    Assets { metadata: ItemMetadata },
}

/// What a `Stage` holds.
pub ghost enum StageView {
    FirstPage,
    ChosenPage { page: nat },
    Assets { metadata: ItemMetadataView },
}

impl View for Stage {
    type V = StageView;

    open spec fn view(&self) -> StageView {
        match *self {
            Stage::FirstPage => StageView::FirstPage,
            Stage::ChosenPage { page } => StageView::ChosenPage { page: page as nat },
            Stage::Assets { metadata } => StageView::Assets { metadata: metadata@ },
        }
    }
}

/// A sampling run that waits for the outcome of a request.
#[derive(Debug)]
pub struct Sampler {
    query: SearchQuery,
    stage: Stage,
}

/// What a `Sampler` holds.
pub ghost struct SamplerView {
    pub query: SearchQueryView,
    pub stage: StageView,
}

impl View for Sampler {
    type V = SamplerView;

    closed spec fn view(&self) -> SamplerView {
        SamplerView { query: self.query@, stage: self.stage@ }
    }
}

/// What a run does next.
#[derive(Debug)]
pub enum Progress {
    /// The run goes on: `request` is to be performed, and its outcome handed
    /// to `sampler`.
    Next { sampler: Sampler, request: Request },
    /// The run is over.
    Done { outcome: Result<NasaImage, SearchError> },
}

/// What a `Progress` holds.
pub ghost enum ProgressView {
    Next { sampler: SamplerView, request: RequestView },
    Done { outcome: Result<NasaImageView, SearchError> },
}

impl View for Progress {
    type V = ProgressView;

    open spec fn view(&self) -> ProgressView {
        match *self {
            Progress::Next { sampler, request } => ProgressView::Next {
                sampler: sampler@,
                request: request@,
            },
            Progress::Done { outcome } => ProgressView::Done { outcome: outcome_view(outcome) },
        }
    }
}

/// The request that a run at `stage` waits for.
pub open spec fn spec_pending_step(stage: StageView) -> RequestStep {
    match stage {
        StageView::FirstPage => RequestStep::Search,
        StageView::ChosenPage { .. } => RequestStep::Page,
        StageView::Assets { .. } => RequestStep::Assets,
    }
}

/// What a run does with the item that it chose: it asks for the item's asset
/// list, or fails where the item does not say where that is.
pub open spec fn spec_follow(query: SearchQueryView, item: SearchItemView) -> ProgressView {
    match item.href {
        None => ProgressView::Done {
            outcome: Err(SearchError::MalformedResponse { field: ResponseField::Href }),
        },
        Some(href) => ProgressView::Next {
            sampler: SamplerView { query, stage: StageView::Assets { metadata: item.metadata } },
            request: RequestView::Assets { href },
        },
    }
}

/// What a run does with the page that it samples from, when `index_draw` was
/// drawn for the item.
pub open spec fn spec_pick(query: SearchQueryView, doc: Value, index_draw: nat) -> ProgressView {
    match spec_items(doc) {
        None => ProgressView::Done {
            outcome: Err(SearchError::MalformedResponse { field: ResponseField::Items }),
        },
        Some(items) => if items.len() == 0 {
            ProgressView::Done { outcome: Err(SearchError::EmptyPage) }
        } else {
            spec_follow(query, items[spec_select_index(items.len(), index_draw) as int])
        },
    }
}

/// What a run does with the first response, when `page_draw` was drawn for
/// the page and `index_draw` for the item.
pub open spec fn spec_first(
    query: SearchQueryView,
    doc: Value,
    page_draw: nat,
    index_draw: nat,
) -> ProgressView {
    if spec_total_hits(doc) == 0 {
        ProgressView::Done { outcome: Err(SearchError::NoResults) }
    } else if spec_select_page(spec_total_hits(doc) as nat, page_draw) == 1 {
        spec_pick(query, doc, index_draw)
    } else {
        ProgressView::Next {
            sampler: SamplerView {
                query,
                stage: StageView::ChosenPage {
                    page: spec_select_page(spec_total_hits(doc) as nat, page_draw),
                },
            },
            request: RequestView::Search {
                params: spec_page_params(
                    query,
                    spec_select_page(spec_total_hits(doc) as nat, page_draw),
                ),
            },
        }
    }
}

/// What a run does when `event` comes in, `page_draw` was drawn for the page
/// and `index_draw` for the item. A draw is used only where the run chooses
/// at this point.
pub open spec fn spec_step(
    sampler: SamplerView,
    event: SearchEvent,
    page_draw: nat,
    index_draw: nat,
) -> ProgressView {
    match event {
        SearchEvent::TransportFailed => ProgressView::Done {
            outcome: Err(SearchError::NetworkFailure { step: spec_pending_step(sampler.stage) }),
        },
        SearchEvent::Unreadable => ProgressView::Done {
            outcome: Err(SearchError::MalformedResponse { field: ResponseField::Body }),
        },
        SearchEvent::Document(doc) => match sampler.stage {
            StageView::FirstPage => spec_first(sampler.query, doc, page_draw, index_draw),
            StageView::ChosenPage { .. } => spec_pick(sampler.query, doc, index_draw),
            StageView::Assets { metadata } => ProgressView::Done {
                outcome: spec_image(metadata, spec_asset_list(doc)),
            },
        },
    }
}

/// Whether `index_draw` is a number that a run draws for an item of the
/// page in `doc`: an index of that page where it holds items. Where it holds
/// none, or its items cannot be counted, nothing is drawn and the number is 0.
pub open spec fn spec_index_draw_fits(doc: Value, index_draw: nat) -> bool {
    if json_arrays(doc).contains_key("/collection/items"@) && json_arrays(
        doc,
    )["/collection/items"@] > 0 {
        index_draw < json_arrays(doc)["/collection/items"@]
    } else {
        index_draw == 0
    }
}

/// Whether `page_draw` and `index_draw` are numbers that a run draws for its
/// next step. A page is drawn on the first response where that reports hits,
/// and lies between the first page and the last that the count reaches. An
/// item is drawn where the run samples from the response at hand: from the
/// first response when the first page was drawn, and from the chosen page.
/// What is not drawn is the first page's number, or 0 for the item.
pub open spec fn spec_draws_fit(
    sampler: SamplerView,
    event: SearchEvent,
    page_draw: nat,
    index_draw: nat,
) -> bool {
    match event {
        SearchEvent::Document(doc) => match sampler.stage {
            StageView::FirstPage => if spec_total_hits(doc) == 0 {
                page_draw == 1 && index_draw == 0
            } else {
                &&& spec_page_in_range(spec_total_hits(doc) as nat, page_draw)
                &&& if page_draw == 1 {
                    spec_index_draw_fits(doc, index_draw)
                } else {
                    index_draw == 0
                }
            },
            StageView::ChosenPage { .. } => page_draw == 1 && spec_index_draw_fits(
                doc,
                index_draw,
            ),
            StageView::Assets { .. } => page_draw == 1 && index_draw == 0,
        },
        _ => page_draw == 1 && index_draw == 0,
    }
}

fn pending_step(stage: &Stage) -> (step: RequestStep)
    ensures
        step == spec_pending_step(stage@),
{
    match stage {
        Stage::FirstPage => RequestStep::Search,
        Stage::ChosenPage { .. } => RequestStep::Page,
        Stage::Assets { .. } => RequestStep::Assets,
    }
}

fn follow(query: SearchQuery, item: SearchItem) -> (progress: Progress)
    ensures
        progress@ == spec_follow(query@, item@),
{
    let SearchItem { href, metadata } = item;
    match href {
        None => Progress::Done {
            outcome: Err(SearchError::MalformedResponse { field: ResponseField::Href }),
        },
        Some(href) => Progress::Next {
            sampler: Sampler { query, stage: Stage::Assets { metadata } },
            request: Request::Assets { href },
        },
    }
}

fn pick(query: SearchQuery, doc: &Value, index_draw: u64) -> (progress: Progress)
    ensures
        progress@ == spec_pick(query@, *doc, index_draw as nat),
{
    let page = match read_search_page(doc) {
        Ok(page) => page,
        Err(e) => {
            return Progress::Done { outcome: Err(e) };
        },
    };
    let mut items = page.into_items();
    match select_index(items.len(), index_draw) {
        Err(e) => Progress::Done { outcome: Err(e) },
        Ok(index) => {
            let item = items.swap_remove(index);
            follow(query, item)
        },
    }
}

fn finish(metadata: ItemMetadata, doc: &Value) -> (outcome: Result<NasaImage, SearchError>)
    ensures
        outcome_view(outcome) == spec_image(metadata@, spec_asset_list(*doc)),
{
    let mut urls = match read_asset_list(doc) {
        Ok(urls) => urls,
        Err(e) => {
            return Err(e);
        },
    };
    if urls.len() == 0 {
        return Err(SearchError::MalformedAsset);
    }
    let url = urls.swap_remove(0);
    NasaImage::from_item(metadata, url)
}

impl Sampler {
    /// Begins a run for `query`: the first request is the search itself.
    pub fn start(query: SearchQuery) -> (begun: (Sampler, Request))
        ensures
            begun.0@ == (SamplerView { query: query@, stage: StageView::FirstPage }),
            begun.1@ == (RequestView::Search { params: spec_query_params(query@) }),
    {
        let params = query_params(&query);
        (Sampler { query, stage: Stage::FirstPage }, Request::Search { params })
    }

    /// The request whose outcome this run waits for.
    pub fn pending_step(&self) -> (step: RequestStep)
        ensures
            step == spec_pending_step(self@.stage),
    {
        pending_step(&self.stage)
    }

    /// Takes the run one step further with numbers that the caller drew:
    /// `page_draw` for the page and `index_draw` for the item on it.
    ///
    /// A number outside the range that it is drawn for counts as the nearer
    /// end of that range, so every pair of numbers leads to a valid choice.
    pub fn step_with(self, event: SearchEvent, page_draw: u64, index_draw: u64) -> (progress:
        Progress)
        ensures
            progress@ == spec_step(self@, event, page_draw as nat, index_draw as nat),
    {
        let Sampler { query, stage } = self;
        let doc = match event {
            SearchEvent::Document(doc) => doc,
            SearchEvent::TransportFailed => {
                return Progress::Done {
                    outcome: Err(SearchError::NetworkFailure { step: pending_step(&stage) }),
                };
            },
            SearchEvent::Unreadable => {
                return Progress::Done {
                    outcome: Err(SearchError::MalformedResponse { field: ResponseField::Body }),
                };
            },
        };
        match stage {
            Stage::FirstPage => {
                let total_hits = read_total_hits(&doc);
                match select_page(total_hits, page_draw) {
                    Err(e) => Progress::Done { outcome: Err(e) },
                    Ok(page) => {
                        if page == FIRST_PAGE {
                            pick(query, &doc, index_draw)
                        } else {
                            let params = page_params(&query, page);
                            Progress::Next {
                                sampler: Sampler { query, stage: Stage::ChosenPage { page } },
                                request: Request::Search { params },
                            }
                        }
                    },
                }
            },
            Stage::ChosenPage { .. } => pick(query, &doc, index_draw),
            Stage::Assets { metadata } => Progress::Done { outcome: finish(metadata, &doc) },
        }
    }

    /// Draws, from the thread's random generator, the numbers that the next
    /// step needs: one for the page where the run chooses a page now, one for
    /// the item where it chooses an item now. A number that is not needed is
    /// not drawn.
    fn draw(&self, event: &SearchEvent) -> (draws: (u64, u64))
        ensures
            spec_draws_fit(self@, *event, draws.0 as nat, draws.1 as nat),
    {
        let doc = match event {
            SearchEvent::Document(doc) => doc,
            _ => {
                return (FIRST_PAGE, 0);
            },
        };
        let (page_draw, picks): (u64, bool) = match self.stage {
            Stage::FirstPage => match draw_page(read_total_hits(doc)) {
                Ok(page) => (page, page == FIRST_PAGE),
                Err(_) => (FIRST_PAGE, false),
            },
            Stage::ChosenPage { .. } => (FIRST_PAGE, true),
            Stage::Assets { .. } => (FIRST_PAGE, false),
        };
        if !picks {
            return (page_draw, 0);
        }
        let index_draw: u64 = match array_len_at(doc, "/collection/items") {
            Some(len) => match draw_index(len) {
                Ok(index) => index as u64,
                Err(_) => 0,
            },
            None => 0,
        };
        (page_draw, index_draw)
    }

    /// Takes the run one step further, drawing the page and the item from the
    /// thread's random generator where the run chooses at this point.
    ///
    /// Whatever is drawn, the step is one that `step_with` takes for a pair
    /// of numbers that lie in the ranges they are drawn from: no number is
    /// moved into its range.
    pub fn step(self, event: SearchEvent) -> (progress: Progress)
        ensures
            exists|page_draw: nat, index_draw: nat|
                spec_draws_fit(self@, event, page_draw, index_draw) && progress@
                    == #[trigger] spec_step(self@, event, page_draw, index_draw),
    {
        let draws = self.draw(&event);
        let progress = self.step_with(event, draws.0, draws.1);
        progress
    }
}

/// A run whose first response reports no hit ends with `NoResults`, whatever
/// is drawn, and asks for nothing more.
pub proof fn law_no_hits_end_the_run(
    sampler: SamplerView,
    doc: Value,
    page_draw: nat,
    index_draw: nat,
)
    requires
        sampler.stage is FirstPage,
        spec_total_hits(doc) == 0,
    ensures
        spec_step(sampler, SearchEvent::Document(doc), page_draw, index_draw) == (
        ProgressView::Done { outcome: Err(SearchError::NoResults) }),
{
}

/// Whatever is drawn, the page that a run chooses lies between the first
/// page and the last one that the reported count reaches. Where the run goes
/// on to another page, that page is the chosen one, it is not the first, and
/// the request asks for it by its number.
pub proof fn law_page_within_reach(
    sampler: SamplerView,
    doc: Value,
    page_draw: nat,
    index_draw: nat,
)
    requires
        sampler.stage is FirstPage,
        spec_total_hits(doc) > 0,
    ensures
        spec_page_in_range(
            spec_total_hits(doc) as nat,
            spec_select_page(spec_total_hits(doc) as nat, page_draw),
        ),
        spec_step(sampler, SearchEvent::Document(doc), page_draw, index_draw) matches ProgressView::Next {
            sampler: next,
            request,
        } ==> (next.stage matches StageView::ChosenPage { page } ==> {
            &&& page == spec_select_page(spec_total_hits(doc) as nat, page_draw)
            &&& 1 < page <= spec_last_page(spec_total_hits(doc) as nat)
            &&& request == RequestView::Search { params: spec_page_params(sampler.query, page) }
        }),
{
    let total = spec_total_hits(doc) as nat;
    if spec_select_page(total, page_draw) == 1 {
        match spec_items(doc) {
            Some(items) => {
                if items.len() > 0 {
                    let item = items[spec_select_index(items.len(), index_draw) as int];
                    assert(spec_pick(sampler.query, doc, index_draw) == spec_follow(
                        sampler.query,
                        item,
                    ));
                }
            },
            None => {},
        }
    }
}

/// A result set smaller than a page has one page only: whatever is drawn,
/// the run samples from the first response and asks for no other page.
pub proof fn law_few_hits_stay_on_first_page(
    sampler: SamplerView,
    doc: Value,
    page_draw: nat,
    index_draw: nat,
)
    requires
        sampler.stage is FirstPage,
        0 < spec_total_hits(doc) < 100,
    ensures
        spec_last_page(spec_total_hits(doc) as nat) == 1,
        spec_step(sampler, SearchEvent::Document(doc), page_draw, index_draw) == spec_pick(
            sampler.query,
            doc,
            index_draw,
        ),
{
}

/// Whatever is drawn, the item that a run chooses on a page that holds items
/// is one of that page: its index is below the number of items. On a page of
/// one item it is that item.
pub proof fn law_item_within_page(query: SearchQueryView, doc: Value, index_draw: nat)
    requires
        spec_items(doc) is Some,
        spec_items(doc)->0.len() > 0,
    ensures
        spec_select_index(spec_items(doc)->0.len(), index_draw) < spec_items(doc)->0.len(),
        spec_items(doc)->0.len() == 1 ==> spec_select_index(1, index_draw) == 0,
        spec_pick(query, doc, index_draw) == spec_follow(
            query,
            spec_items(doc)->0[spec_select_index(spec_items(doc)->0.len(), index_draw) as int],
        ),
{
}

/// Number of requests that a run at `stage` may still wait for, the pending
/// one included.
pub open spec fn spec_requests_left(stage: StageView) -> nat {
    match stage {
        StageView::FirstPage => 3,
        StageView::ChosenPage { .. } => 2,
        StageView::Assets { .. } => 1,
    }
}

/// Every step that does not end a run brings it nearer to its end, so a run
/// performs at most three requests: two for pages and one for an asset list.
pub proof fn law_run_is_bounded(
    sampler: SamplerView,
    event: SearchEvent,
    page_draw: nat,
    index_draw: nat,
)
    ensures
        spec_step(sampler, event, page_draw, index_draw) matches ProgressView::Next {
            sampler: next,
            ..
        } ==> spec_requests_left(next.stage) < spec_requests_left(sampler.stage),
        sampler.stage is Assets ==> spec_step(
            sampler,
            event,
            page_draw,
            index_draw,
        ) is Done,
{
    match event {
        SearchEvent::Document(doc) => {
            match spec_items(doc) {
                Some(items) => {
                    if items.len() > 0 {
                        let item = items[spec_select_index(items.len(), index_draw) as int];
                        assert(spec_pick(sampler.query, doc, index_draw) == spec_follow(
                            sampler.query,
                            item,
                        ));
                    }
                },
                None => {},
            }
        },
        _ => {},
    }
}

/// Numbers that a run draws itself are used as they are drawn: the page is
/// the number drawn for it, and so is the index of the item on a page whose
/// items can be read.
pub proof fn law_own_draws_are_used_as_drawn(
    sampler: SamplerView,
    doc: Value,
    page_draw: nat,
    index_draw: nat,
)
    requires
        spec_draws_fit(sampler, SearchEvent::Document(doc), page_draw, index_draw),
    ensures
        sampler.stage is FirstPage && spec_total_hits(doc) > 0 ==> spec_select_page(
            spec_total_hits(doc) as nat,
            page_draw,
        ) == page_draw,
        (sampler.stage is ChosenPage || (sampler.stage is FirstPage && spec_total_hits(doc) > 0
            && page_draw == 1)) && spec_items(doc) is Some && spec_items(doc)->0.len() > 0
            ==> spec_select_index(spec_items(doc)->0.len(), index_draw) == index_draw,
{
}

} // verus!
