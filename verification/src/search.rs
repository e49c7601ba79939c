//! The search endpoint's requests and responses as typed values.
//!
//! A response is read from the JSON document
//! `{collection: {metadata: {total_hits}, items: [{href, data: [{nasa_id,
//! title, center, description, date_created}]}]}}`. Every member that may be
//! absent is an `Option` here; what its absence means is decided by the
//! functions that use the value, not while reading.

use crate::error::{ResponseField, SearchError};
use crate::json::{array_len_at, json_arrays, json_numbers, json_strings, number_at, string_at};
use crate::sampling::PAGE_SIZE;
use crate::text::{decimal, spec_decimal};
use serde_json::Value;
use vstd::prelude::*;
use vstd::string::StringExecFns;

verus! {

/// The filters of a search. An empty string means that the filter is not set.
#[derive(Clone, Debug, PartialEq, Eq)]
pub struct SearchQuery {
    pub q: String,
    pub center: String,
    pub location: String,
    pub nasa_id: String,
    pub photographer: String,
    pub title: String,
    pub year_start: String,
    pub year_end: String,
}

/// What a `SearchQuery` holds, as sequences of characters.
pub ghost struct SearchQueryView {
    pub q: Seq<char>,
    pub center: Seq<char>,
    pub location: Seq<char>,
    pub nasa_id: Seq<char>,
    pub photographer: Seq<char>,
    pub title: Seq<char>,
    pub year_start: Seq<char>,
    pub year_end: Seq<char>,
}

impl View for SearchQuery {
    type V = SearchQueryView;

    open spec fn view(&self) -> SearchQueryView {
        SearchQueryView {
            q: self.q@,
            center: self.center@,
            location: self.location@,
            nasa_id: self.nasa_id@,
            photographer: self.photographer@,
            title: self.title@,
            year_start: self.year_start@,
            year_end: self.year_end@,
        }
    }
}

/// One `name=value` pair of a request's query string, not yet URL-encoded.
#[derive(Clone, Debug, PartialEq, Eq)]
pub struct QueryParam {
    pub name: String,
    pub value: String,
}

impl View for QueryParam {
    type V = (Seq<char>, Seq<char>);

    open spec fn view(&self) -> (Seq<char>, Seq<char>) {
        (self.name@, self.value@)
    }
}

/// The pairs that `params` holds, in order.
pub open spec fn params_view(params: Seq<QueryParam>) -> Seq<(Seq<char>, Seq<char>)> {
    params.map_values(|p: QueryParam| p@)
}

/// The pair for one filter: none where the filter is not set.
pub open spec fn spec_filter(name: Seq<char>, value: Seq<char>) -> Seq<(Seq<char>, Seq<char>)> {
    if value.len() == 0 {
        Seq::empty()
    } else {
        seq![(name, value)]
    }
}

/// The query string of the first search request: `media_type=image`, then
/// each filter that is set, in the order of the endpoint's documentation.
pub open spec fn spec_query_params(query: SearchQueryView) -> Seq<(Seq<char>, Seq<char>)> {
    seq![("media_type"@, "image"@)] + spec_filter("q"@, query.q) + spec_filter(
        "center"@,
        query.center,
    ) + spec_filter("location"@, query.location) + spec_filter("nasa_id"@, query.nasa_id)
        + spec_filter("photographer"@, query.photographer) + spec_filter("title"@, query.title)
        + spec_filter("year_start"@, query.year_start) + spec_filter("year_end"@, query.year_end)
}

/// The query string of the request for page `page`: that of the first
/// request, then `page` with the page's number in decimal.
pub open spec fn spec_page_params(query: SearchQueryView, page: nat) -> Seq<(Seq<char>, Seq<char>)> {
    spec_query_params(query).push(("page"@, spec_decimal(page)))
}

fn push_filter(params: &mut Vec<QueryParam>, name: &str, value: &String)
    ensures
        params_view(final(params)@) == params_view(old(params)@) + spec_filter(name@, value@),
{
    if !value.as_str().is_empty() {
        params.push(QueryParam { name: String::from_str(name), value: value.clone() });
    }
}

/// Builds the query string of the first search request.
pub fn query_params(query: &SearchQuery) -> (params: Vec<QueryParam>)
    ensures
        params_view(params@) == spec_query_params(query@),
{
    let mut params: Vec<QueryParam> = Vec::new();
    params.push(
        QueryParam { name: String::from_str("media_type"), value: String::from_str("image") },
    );
    push_filter(&mut params, "q", &query.q);
    push_filter(&mut params, "center", &query.center);
    push_filter(&mut params, "location", &query.location);
    push_filter(&mut params, "nasa_id", &query.nasa_id);
    push_filter(&mut params, "photographer", &query.photographer);
    push_filter(&mut params, "title", &query.title);
    push_filter(&mut params, "year_start", &query.year_start);
    push_filter(&mut params, "year_end", &query.year_end);
    params
}

/// Builds the query string of the request for page `page`.
pub fn page_params(query: &SearchQuery, page: u64) -> (params: Vec<QueryParam>)
    ensures
        params_view(params@) == spec_page_params(query@, page as nat),
{
    let mut params = query_params(query);
    params.push(QueryParam { name: String::from_str("page"), value: decimal(page) });
    params
}

/// What the response says of one item, beside where its assets are listed.
#[derive(Clone, Debug, PartialEq, Eq)]
pub struct ItemMetadata {
    pub nasa_id: Option<String>,
    pub title: Option<String>,
    pub center: Option<String>,
    pub description: Option<String>,
    pub date_created: Option<String>,
}

/// What an `ItemMetadata` holds, as sequences of characters.
pub ghost struct ItemMetadataView {
    pub nasa_id: Option<Seq<char>>,
    pub title: Option<Seq<char>>,
    pub center: Option<Seq<char>>,
    pub description: Option<Seq<char>>,
    pub date_created: Option<Seq<char>>,
}

/// The characters of a string that may be absent.
pub open spec fn text_view(text: Option<String>) -> Option<Seq<char>> {
    match text {
        Some(s) => Some(s@),
        None => None,
    }
}

impl View for ItemMetadata {
    type V = ItemMetadataView;

    open spec fn view(&self) -> ItemMetadataView {
        ItemMetadataView {
            nasa_id: text_view(self.nasa_id),
            title: text_view(self.title),
            center: text_view(self.center),
            description: text_view(self.description),
            date_created: text_view(self.date_created),
        }
    }
}

/// One hit of a search. The image itself is not part of it: `href` leads to
/// the list of the item's assets.
#[derive(Clone, Debug, PartialEq, Eq)]
pub struct SearchItem {
    pub href: Option<String>,
    pub metadata: ItemMetadata,
}

/// What a `SearchItem` holds, as sequences of characters.
pub ghost struct SearchItemView {
    pub href: Option<Seq<char>>,
    pub metadata: ItemMetadataView,
}

impl View for SearchItem {
    type V = SearchItemView;

    open spec fn view(&self) -> SearchItemView {
        SearchItemView { href: text_view(self.href), metadata: self.metadata@ }
    }
}

/// The views of `items`, in order.
pub open spec fn items_view(items: Seq<SearchItem>) -> Seq<SearchItemView> {
    items.map_values(|item: SearchItem| item@)
}

/// One page of search results: the number of hits that the endpoint reports
/// for the whole query, and the items of this page. A page never holds more
/// than `PAGE_SIZE` items.
#[derive(Debug)]
pub struct SearchResultPage {
    total_hits: u64,
    items: Vec<SearchItem>,
}

/// What a `SearchResultPage` holds.
pub ghost struct SearchResultPageView {
    pub total_hits: nat,
    pub items: Seq<SearchItemView>,
}

impl View for SearchResultPage {
    type V = SearchResultPageView;

    closed spec fn view(&self) -> SearchResultPageView {
        SearchResultPageView { total_hits: self.total_hits as nat, items: items_view(self.items@) }
    }
}

impl SearchResultPage {
    #[verifier::type_invariant]
    spec fn within_page_size(self) -> bool {
        self.items@.len() <= PAGE_SIZE
    }

    /// Makes a page of `items`. There is no such page where `items` are more
    /// than `PAGE_SIZE`.
    pub fn new(total_hits: u64, items: Vec<SearchItem>) -> (page: Option<SearchResultPage>)
        ensures
            page is Some <==> items@.len() <= PAGE_SIZE,
            page matches Some(p) ==> p@ == (SearchResultPageView {
                total_hits: total_hits as nat,
                items: items_view(items@),
            }),
    {
        if items.len() <= PAGE_SIZE as usize {
            Some(SearchResultPage { total_hits, items })
        } else {
            None
        }
    }

    /// The number of hits reported for the whole query.
    pub fn total_hits(&self) -> (hits: u64)
        ensures
            hits == self@.total_hits,
    {
        self.total_hits
    }

    /// The number of items on this page, which is at most `PAGE_SIZE`.
    pub fn len(&self) -> (count: usize)
        ensures
            count == self@.items.len(),
            count <= PAGE_SIZE,
    {
        proof {
            use_type_invariant(self);
        }
        self.items.len()
    }

    /// The items of this page, in the order of the response.
    pub fn items(&self) -> (items: &Vec<SearchItem>)
        ensures
            items_view(items@) == self@.items,
            items@.len() <= PAGE_SIZE,
    {
        proof {
            use_type_invariant(self);
        }
        &self.items
    }

    /// Takes the page apart into its items.
    pub fn into_items(self) -> (items: Vec<SearchItem>)
        ensures
            items_view(items@) == self@.items,
            items@.len() <= PAGE_SIZE,
    {
        proof {
            use_type_invariant(&self);
        }
        self.items
    }
}

/// The string that `pointer` addresses in `doc`, if it addresses one.
pub open spec fn spec_text_at(doc: Value, pointer: Seq<char>) -> Option<Seq<char>> {
    if json_strings(doc).contains_key(pointer) {
        Some(json_strings(doc)[pointer])
    } else {
        None
    }
}

/// The number of hits that a search response reports; zero where it reports none.
pub open spec fn spec_total_hits(doc: Value) -> u64 {
    if json_numbers(doc).contains_key("/collection/metadata/total_hits"@) {
        json_numbers(doc)["/collection/metadata/total_hits"@]
    } else {
        0
    }
}

/// The pointer to `member` of item `index` of a search response.
pub open spec fn spec_item_pointer(index: nat, member: Seq<char>) -> Seq<char> {
    "/collection/items/"@ + spec_decimal(index) + member
}

/// The string member of the first entry of `data` of item `index`; absent
/// where `data` is not an array.
pub open spec fn spec_metadata_text(doc: Value, index: nat, member: Seq<char>) -> Option<
    Seq<char>,
> {
    if json_arrays(doc).contains_key(spec_item_pointer(index, "/data"@)) {
        spec_text_at(doc, spec_item_pointer(index, member))
    } else {
        None
    }
}

/// Item `index` of a search response.
pub open spec fn spec_item(doc: Value, index: nat) -> SearchItemView {
    SearchItemView {
        href: spec_text_at(doc, spec_item_pointer(index, "/href"@)),
        metadata: ItemMetadataView {
            nasa_id: spec_metadata_text(doc, index, "/data/0/nasa_id"@),
            title: spec_metadata_text(doc, index, "/data/0/title"@),
            center: spec_metadata_text(doc, index, "/data/0/center"@),
            description: spec_metadata_text(doc, index, "/data/0/description"@),
            date_created: spec_metadata_text(doc, index, "/data/0/date_created"@),
        },
    }
}

/// The items of a search response; none where `collection.items` is not an
/// array or holds more than a page may.
pub open spec fn spec_items(doc: Value) -> Option<Seq<SearchItemView>> {
    if json_arrays(doc).contains_key("/collection/items"@) && json_arrays(
        doc,
    )["/collection/items"@] <= PAGE_SIZE {
        Some(Seq::new(json_arrays(doc)["/collection/items"@], |i: int| spec_item(doc, i as nat)))
    } else {
        None
    }
}

/// The page that a search response holds, if its items can be read.
pub open spec fn spec_search_page(doc: Value) -> Option<SearchResultPageView> {
    match spec_items(doc) {
        Some(items) => Some(
            SearchResultPageView { total_hits: spec_total_hits(doc) as nat, items },
        ),
        None => None,
    }
}

/// The URLs of an asset list; none where the document is not an array of strings.
pub open spec fn spec_asset_list(doc: Value) -> Option<Seq<Seq<char>>> {
    if json_arrays(doc).contains_key(""@) && (forall|i: nat|
        i < json_arrays(doc)[""@] ==> json_strings(doc).contains_key(
            #[trigger] spec_asset_pointer(i),
        )) {
        Some(
            Seq::new(
                json_arrays(doc)[""@],
                |i: int| json_strings(doc)[spec_asset_pointer(i as nat)],
            ),
        )
    } else {
        None
    }
}

/// The pointer to entry `index` of an asset list.
pub open spec fn spec_asset_pointer(index: nat) -> Seq<char> {
    "/"@ + spec_decimal(index)
}

/// Reads the number of hits from a search response. A response that does not
/// report it as an unsigned number counts as reporting zero.
pub fn read_total_hits(doc: &Value) -> (hits: u64)
    ensures
        hits == spec_total_hits(*doc),
{
    match number_at(doc, "/collection/metadata/total_hits") {
        Some(n) => n,
        None => 0,
    }
}

fn item_pointer(index: usize, member: &str) -> (pointer: String)
    ensures
        pointer@ == spec_item_pointer(index as nat, member@),
{
    let mut pointer = String::from_str("/collection/items/");
    pointer.append(decimal(index as u64).as_str());
    pointer.append(member);
    pointer
}

fn read_metadata_text(doc: &Value, index: usize, has_data: bool, member: &str) -> (text: Option<
    String,
>)
    requires
        has_data == json_arrays(*doc).contains_key(spec_item_pointer(index as nat, "/data"@)),
    ensures
        text_view(text) == spec_metadata_text(*doc, index as nat, member@),
{
    if has_data {
        string_at(doc, item_pointer(index, member).as_str())
    } else {
        None
    }
}

/// Reads item `index` of a search response. Members that are absent or are
/// not strings are read as `None`.
pub fn read_item(doc: &Value, index: usize) -> (item: SearchItem)
    ensures
        item@ == spec_item(*doc, index as nat),
{
    let href = string_at(doc, item_pointer(index, "/href").as_str());
    let has_data = array_len_at(doc, item_pointer(index, "/data").as_str()).is_some();
    let nasa_id = read_metadata_text(doc, index, has_data, "/data/0/nasa_id");
    let title = read_metadata_text(doc, index, has_data, "/data/0/title");
    let center = read_metadata_text(doc, index, has_data, "/data/0/center");
    let description = read_metadata_text(doc, index, has_data, "/data/0/description");
    let date_created = read_metadata_text(doc, index, has_data, "/data/0/date_created");
    SearchItem {
        href,
        metadata: ItemMetadata { nasa_id, title, center, description, date_created },
    }
}

/// Reads the items of a search response.
///
/// Fails with `MalformedResponse` naming `Items` exactly where
/// `collection.items` is not an array or holds more than `PAGE_SIZE` entries.
pub fn read_items(doc: &Value) -> (items: Result<Vec<SearchItem>, SearchError>)
    ensures
        items is Ok <==> spec_items(*doc) is Some,
        items is Err ==> items == Err::<Vec<SearchItem>, SearchError>(
            SearchError::MalformedResponse { field: ResponseField::Items },
        ),
        items matches Ok(v) ==> Some(items_view(v@)) == spec_items(*doc) && v@.len() <= PAGE_SIZE,
{
    let count: usize = match array_len_at(doc, "/collection/items") {
        Some(n) => n,
        None => {
            return Err(SearchError::MalformedResponse { field: ResponseField::Items });
        },
    };
    if count > PAGE_SIZE as usize {
        return Err(SearchError::MalformedResponse { field: ResponseField::Items });
    }
    let mut items: Vec<SearchItem> = Vec::new();
    let mut i: usize = 0;
    while i < count
        invariant
            i <= count,
            items@.len() == i,
            forall|k: int| 0 <= k < i ==> (#[trigger] items@[k])@ == spec_item(*doc, k as nat),
        decreases count - i,
    {
        let item = read_item(doc, i);
        items.push(item);
        i += 1;
    }
    Ok(items)
}

/// Reads the page that a search response holds.
///
/// Fails with `MalformedResponse` naming `Items` exactly where
/// `collection.items` is not an array or holds more than `PAGE_SIZE` entries.
pub fn read_search_page(doc: &Value) -> (page: Result<SearchResultPage, SearchError>)
    ensures
        page is Ok <==> spec_search_page(*doc) is Some,
        page is Err ==> page == Err::<SearchResultPage, SearchError>(
            SearchError::MalformedResponse { field: ResponseField::Items },
        ),
        page matches Ok(p) ==> Some(p@) == spec_search_page(*doc),
{
    let total_hits = read_total_hits(doc);
    match read_items(doc) {
        Ok(items) => Ok(SearchResultPage { total_hits, items }),
        Err(e) => Err(e),
    }
}

fn asset_pointer(index: usize) -> (pointer: String)
    ensures
        pointer@ == spec_asset_pointer(index as nat),
{
    let mut pointer = String::from_str("/");
    pointer.append(decimal(index as u64).as_str());
    pointer
}

/// The views of `urls`, in order.
pub open spec fn urls_view(urls: Seq<String>) -> Seq<Seq<char>> {
    urls.map_values(|u: String| u@)
}

/// Reads an asset list: the URLs of one item's files, in the order of the response.
///
/// Fails with `MalformedAsset` exactly where the document is not an array or
/// one of its entries is not a string.
pub fn read_asset_list(doc: &Value) -> (urls: Result<Vec<String>, SearchError>)
    ensures
        urls is Ok <==> spec_asset_list(*doc) is Some,
        urls is Err ==> urls == Err::<Vec<String>, SearchError>(SearchError::MalformedAsset),
        urls matches Ok(v) ==> Some(urls_view(v@)) == spec_asset_list(*doc),
{
    let count: usize = match array_len_at(doc, "") {
        Some(n) => n,
        None => {
            return Err(SearchError::MalformedAsset);
        },
    };
    let mut urls: Vec<String> = Vec::new();
    let mut i: usize = 0;
    while i < count
        invariant
            i <= count,
            count == json_arrays(*doc)[""@],
            json_arrays(*doc).contains_key(""@),
            urls@.len() == i,
            forall|k: nat| k < i ==> json_strings(*doc).contains_key(#[trigger] spec_asset_pointer(k)),
            forall|k: int|
                0 <= k < i ==> (#[trigger] urls@[k])@ == json_strings(*doc)[spec_asset_pointer(
                    k as nat,
                )],
        decreases count - i,
    {
        match string_at(doc, asset_pointer(i).as_str()) {
            Some(url) => {
                urls.push(url);
            },
            None => {
                return Err(SearchError::MalformedAsset);
            },
        }
        i += 1;
    }
    Ok(urls)
}

} // verus!
