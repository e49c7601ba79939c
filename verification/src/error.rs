//! Failures reported by the search sampler and by the overlay compositor.

use vstd::prelude::*;

verus! {

/// The request a sampling run was waiting for when it failed.
#[derive(Clone, Copy, Debug, PartialEq, Eq, Structural)]
pub enum RequestStep {
    /// The first search request, which reports the number of hits.
    Search,
    /// The request for the page that was chosen.
    Page,
    /// The request for the asset list of the item that was chosen.
    Assets,
}

/// The part of a response that did not have the expected shape.
#[derive(Clone, Copy, Debug, PartialEq, Eq, Structural)]
pub enum ResponseField {
    /// The body as a whole: it is not a JSON document.
    Body,
    /// `collection.items`: not an array, or longer than a page may be.
    Items,
    /// `href` of the chosen item: not a string.
    Href,
    /// `date_created` of the chosen item: not a string.
    DateCreated,
}

/// Why a sampling run produced no image.
#[derive(Clone, Copy, Debug, PartialEq, Eq, Structural)]
pub enum SearchError {
    /// The query matches nothing. Broadening the filters may help.
    NoResults,
    /// A request did not complete. Nothing is retried.
    NetworkFailure { step: RequestStep },
    /// A response did not have the expected shape.
    MalformedResponse { field: ResponseField },
    /// The chosen page holds no items although hits were reported.
    EmptyPage,
    /// The asset list of the chosen item does not start with a URL.
    MalformedAsset,
}

/// Why compositing produced no image.
#[derive(Clone, Copy, Debug, PartialEq, Eq, Structural)]
pub enum OverlayError {
    /// The input bytes are not an image in a supported format.
    DecodeError,
    /// The finished image could not be written as JPEG.
    EncodeError,
    /// The font resource is missing or corrupt.
    FontLoadError,
}

impl SearchError {
    /// The text shown to the user for this failure.
    pub open spec fn spec_message(self) -> Seq<char> {
        match self {
            SearchError::NoResults => "Couldn't find the file you're looking for. Try another tag."@,
            SearchError::NetworkFailure { step: RequestStep::Search } =>
                "Failed to fetch NASA image metadata"@,
            SearchError::NetworkFailure { step: RequestStep::Page } =>
                "Failed to fetch NASA image page"@,
            SearchError::NetworkFailure { step: RequestStep::Assets } =>
                "Failed to fetch image collection"@,
            SearchError::MalformedResponse { field: ResponseField::Body } =>
                "Malformed response: not a JSON document"@,
            SearchError::MalformedResponse { field: ResponseField::Items } =>
                "Malformed response: collection items not found"@,
            SearchError::MalformedResponse { field: ResponseField::Href } =>
                "Malformed response: item href not found"@,
            SearchError::MalformedResponse { field: ResponseField::DateCreated } =>
                "Malformed response: date_created not found"@,
            SearchError::EmptyPage => "No items found in the collection page"@,
            SearchError::MalformedAsset => "Failed to find image URL in collection"@,
        }
    }

    /// Whether the user can mend this failure by changing the query.
    pub open spec fn spec_is_user_correctable(self) -> bool {
        self == SearchError::NoResults
    }

    /// Returns the text to show for this failure. It names the step or the
    /// field that failed; for `NoResults` it suggests another tag.
    pub fn message(&self) -> (text: &'static str)
        ensures
            text@ == self.spec_message(),
    {
        match self {
            SearchError::NoResults => "Couldn't find the file you're looking for. Try another tag.",
            SearchError::NetworkFailure { step: RequestStep::Search } =>
                "Failed to fetch NASA image metadata",
            SearchError::NetworkFailure { step: RequestStep::Page } =>
                "Failed to fetch NASA image page",
            SearchError::NetworkFailure { step: RequestStep::Assets } =>
                "Failed to fetch image collection",
            SearchError::MalformedResponse { field: ResponseField::Body } =>
                "Malformed response: not a JSON document",
            SearchError::MalformedResponse { field: ResponseField::Items } =>
                "Malformed response: collection items not found",
            SearchError::MalformedResponse { field: ResponseField::Href } =>
                "Malformed response: item href not found",
            SearchError::MalformedResponse { field: ResponseField::DateCreated } =>
                "Malformed response: date_created not found",
            SearchError::EmptyPage => "No items found in the collection page",
            SearchError::MalformedAsset => "Failed to find image URL in collection",
        }
    }

    /// Tells whether the user can mend this failure by changing the query,
    /// which is so for `NoResults` and for nothing else.
    pub fn is_user_correctable(&self) -> (yes: bool)
        ensures
            yes == self.spec_is_user_correctable(),
    {
        match self {
            SearchError::NoResults => true,
            _ => false,
        }
    }
}

impl OverlayError {
    /// The text shown to the user for this failure.
    pub open spec fn spec_message(self) -> Seq<char> {
        match self {
            OverlayError::DecodeError => "Failed to load image from memory"@,
            OverlayError::EncodeError => "Failed to save modified image"@,
            OverlayError::FontLoadError => "Error constructing Font"@,
        }
    }

    /// Returns the text to show for this failure, which names the step that failed.
    pub fn message(&self) -> (text: &'static str)
        ensures
            text@ == self.spec_message(),
    {
        match self {
            OverlayError::DecodeError => "Failed to load image from memory",
            OverlayError::EncodeError => "Failed to save modified image",
            OverlayError::FontLoadError => "Error constructing Font",
        }
    }
}

} // verus!
