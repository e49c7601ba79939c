//! The two kinds of picture that a run can end with.

use crate::error::{ResponseField, SearchError};
use crate::json::string_at;
use crate::search::{spec_text_at, text_view, ItemMetadata, ItemMetadataView};
use crate::text::{prefix, spec_prefix};
use serde_json::Value;
use vstd::prelude::*;
use vstd::string::StringExecFns;

verus! {

/// Number of characters of a creation date that are kept: the calendar date
/// `YYYY-MM-DD`, without the time of day.
pub const DATE_LENGTH: usize = 10;

/// The creation date cut down to the calendar date. The cut is by position
/// alone; the text is not read as a date.
pub open spec fn spec_truncate_date(date: Seq<char>) -> Seq<char> {
    spec_prefix(date, 10)
}

/// Cuts a creation date down to its first ten characters. A date of ten
/// characters or fewer is returned unchanged.
pub fn truncate_date(date: &str) -> (day: String)
    ensures
        day@ == spec_truncate_date(date@),
        date@.len() <= DATE_LENGTH ==> day@ == date@,
        date@.len() > DATE_LENGTH ==> day@ == date@.take(DATE_LENGTH as int),
{
    prefix(date, DATE_LENGTH)
}

/// The text that is present, or the empty text.
pub open spec fn spec_or_empty(text: Option<Seq<char>>) -> Seq<char> {
    match text {
        Some(s) => s,
        None => Seq::empty(),
    }
}

fn or_empty(text: Option<String>) -> (out: String)
    ensures
        out@ == spec_or_empty(text_view(text)),
{
    match text {
        Some(s) => s,
        None => String::new(),
    }
}

/// An image of NASA's media library, with the URL of its file.
#[derive(Clone, Debug, PartialEq, Eq)]
pub struct NasaImage {
    pub nasa_id: String,
    pub title: String,
    pub center: String,
    pub description: String,
    pub date: String,
    pub url: String,
}

/// What a `NasaImage` holds, as sequences of characters.
pub ghost struct NasaImageView {
    pub nasa_id: Seq<char>,
    pub title: Seq<char>,
    pub center: Seq<char>,
    pub description: Seq<char>,
    pub date: Seq<char>,
    pub url: Seq<char>,
}

impl View for NasaImage {
    type V = NasaImageView;

    open spec fn view(&self) -> NasaImageView {
        NasaImageView {
            nasa_id: self.nasa_id@,
            title: self.title@,
            center: self.center@,
            description: self.description@,
            date: self.date@,
            url: self.url@,
        }
    }
}

/// The image made of an item's metadata and the item's asset list: its URL
/// is the first entry of the list, its date the item's creation date cut down
/// to the day, and each other text that the metadata lacks is empty.
pub open spec fn spec_image(metadata: ItemMetadataView, assets: Option<Seq<Seq<char>>>) -> Result<
    NasaImageView,
    SearchError,
> {
    if assets is None || assets->0.len() == 0 {
        Err(SearchError::MalformedAsset)
    } else if metadata.date_created is None {
        Err(SearchError::MalformedResponse { field: ResponseField::DateCreated })
    } else {
        Ok(
            NasaImageView {
                nasa_id: spec_or_empty(metadata.nasa_id),
                title: spec_or_empty(metadata.title),
                center: spec_or_empty(metadata.center),
                description: spec_or_empty(metadata.description),
                date: spec_truncate_date(metadata.date_created->0),
                url: assets->0[0],
            },
        )
    }
}

/// How an image is described with the title and the date written as given;
/// a caller passes them with the styling of its terminal, or plain.
pub open spec fn spec_render_image(
    image: NasaImageView,
    title: Seq<char>,
    date: Seq<char>,
) -> Seq<char> {
    "Title: "@ + title + "\nDate: "@ + date + "\nExplanation: "@ + image.description
        + "\nCenter: "@ + image.center + "\nNASA id: "@ + image.nasa_id
}

impl NasaImage {
    /// Makes the image of a chosen item from the item's metadata and the
    /// first URL of its asset list.
    ///
    /// Fails with `MalformedResponse` naming `DateCreated` exactly where the
    /// metadata has no creation date.
    pub fn from_item(metadata: ItemMetadata, url: String) -> (image: Result<NasaImage, SearchError>)
        ensures
            outcome_view(image) == spec_image(metadata@, Some(seq![url@])),
    {
        let ItemMetadata { nasa_id, title, center, description, date_created } = metadata;
        match date_created {
            None => Err(SearchError::MalformedResponse { field: ResponseField::DateCreated }),
            Some(created) => Ok(
                NasaImage {
                    nasa_id: or_empty(nasa_id),
                    title: or_empty(title),
                    center: or_empty(center),
                    description: or_empty(description),
                    date: truncate_date(created.as_str()),
                    url,
                },
            ),
        }
    }

    /// Describes the image in five lines, with `title` and `date` put where
    /// the title and the date belong.
    pub fn render(&self, title: &str, date: &str) -> (text: String)
        ensures
            text@ == spec_render_image(self@, title@, date@),
    {
        let mut text = String::from_str("Title: ");
        text.append(title);
        text.append("\nDate: ");
        text.append(date);
        text.append("\nExplanation: ");
        text.append(self.description.as_str());
        text.append("\nCenter: ");
        text.append(self.center.as_str());
        text.append("\nNASA id: ");
        text.append(self.nasa_id.as_str());
        text
    }

    /// Describes the image in five lines of plain text.
    pub fn describe(&self) -> (text: String)
        ensures
            text@ == spec_render_image(self@, self@.title, self@.date),
    {
        self.render(self.title.as_str(), self.date.as_str())
    }
}

/// What the outcome of making an image holds.
pub open spec fn outcome_view(outcome: Result<NasaImage, SearchError>) -> Result<
    NasaImageView,
    SearchError,
> {
    match outcome {
        Ok(image) => Ok(image@),
        Err(e) => Err(e),
    }
}

/// The Astronomy Picture of the Day, as its endpoint describes it.
#[derive(Clone, Debug, PartialEq, Eq)]
pub struct Apod {
    pub copyright: String,
    pub date: String,
    pub explanation: String,
    pub hdurl: String,
    pub media_type: String,
    pub title: String,
    pub url: String,
}

/// What an `Apod` holds, as sequences of characters.
pub ghost struct ApodView {
    pub copyright: Seq<char>,
    pub date: Seq<char>,
    pub explanation: Seq<char>,
    pub hdurl: Seq<char>,
    pub media_type: Seq<char>,
    pub title: Seq<char>,
    pub url: Seq<char>,
}

impl View for Apod {
    type V = ApodView;

    open spec fn view(&self) -> ApodView {
        ApodView {
            copyright: self.copyright@,
            date: self.date@,
            explanation: self.explanation@,
            hdurl: self.hdurl@,
            media_type: self.media_type@,
            title: self.title@,
            url: self.url@,
        }
    }
}

/// A member that a description of the picture must have.
#[derive(Clone, Copy, Debug, PartialEq, Eq, Structural)]
pub enum ApodField {
    Date,
    Explanation,
    MediaType,
    Title,
    Url,
}

/// The picture that a response of the endpoint describes. `copyright` and
/// `hdurl` are empty where the response has no such string; each other
/// member must be there as a string, and the first that is not is named.
pub open spec fn spec_apod(doc: Value) -> Result<ApodView, ApodField> {
    if spec_text_at(doc, "/date"@) is None {
        Err(ApodField::Date)
    } else if spec_text_at(doc, "/explanation"@) is None {
        Err(ApodField::Explanation)
    } else if spec_text_at(doc, "/media_type"@) is None {
        Err(ApodField::MediaType)
    } else if spec_text_at(doc, "/title"@) is None {
        Err(ApodField::Title)
    } else if spec_text_at(doc, "/url"@) is None {
        Err(ApodField::Url)
    } else {
        Ok(
            ApodView {
                copyright: spec_or_empty(spec_text_at(doc, "/copyright"@)),
                date: spec_text_at(doc, "/date"@)->0,
                explanation: spec_text_at(doc, "/explanation"@)->0,
                hdurl: spec_or_empty(spec_text_at(doc, "/hdurl"@)),
                media_type: spec_text_at(doc, "/media_type"@)->0,
                title: spec_text_at(doc, "/title"@)->0,
                url: spec_text_at(doc, "/url"@)->0,
            },
        )
    }
}

/// What the outcome of reading a picture holds.
pub open spec fn apod_outcome_view(outcome: Result<Apod, ApodField>) -> Result<
    ApodView,
    ApodField,
> {
    match outcome {
        Ok(apod) => Ok(apod@),
        Err(field) => Err(field),
    }
}

/// The address to ask for the picture of `date` with the key `api_key`.
pub open spec fn spec_apod_request_url(date: Seq<char>, api_key: Seq<char>) -> Seq<char> {
    "https://api.nasa.gov/planetary/apod?api_key="@ + api_key + "&date="@ + date
}

/// Builds the address to ask for the picture of `date` with the key
/// `api_key`. Both are put in as they are.
pub fn apod_request_url(date: &str, api_key: &str) -> (url: String)
    ensures
        url@ == spec_apod_request_url(date@, api_key@),
{
    let mut url = String::from_str("https://api.nasa.gov/planetary/apod?api_key=");
    url.append(api_key);
    url.append("&date=");
    url.append(date);
    url
}

/// How a picture is described with the title and the date written as given;
/// a caller passes them with the styling of its terminal, or plain.
pub open spec fn spec_render_apod(apod: ApodView, title: Seq<char>, date: Seq<char>) -> Seq<char> {
    "Title: "@ + title + "\nDate: "@ + date + "\nExplanation: "@ + apod.explanation
        + "\nCopyright: "@ + apod.copyright
}

fn read_text(doc: &Value, pointer: &str) -> (text: Option<String>)
    ensures
        text_view(text) == spec_text_at(*doc, pointer@),
{
    string_at(doc, pointer)
}

impl Apod {
    /// Reads the picture from a response of the endpoint.
    ///
    /// Fails where `date`, `explanation`, `media_type`, `title` or `url` is
    /// not there as a string, and names the first of these that is not.
    pub fn from_document(doc: &Value) -> (apod: Result<Apod, ApodField>)
        ensures
            apod_outcome_view(apod) == spec_apod(*doc),
    {
        let date = match read_text(doc, "/date") {
            Some(text) => text,
            None => {
                return Err(ApodField::Date);
            },
        };
        let explanation = match read_text(doc, "/explanation") {
            Some(text) => text,
            None => {
                return Err(ApodField::Explanation);
            },
        };
        let media_type = match read_text(doc, "/media_type") {
            Some(text) => text,
            None => {
                return Err(ApodField::MediaType);
            },
        };
        let title = match read_text(doc, "/title") {
            Some(text) => text,
            None => {
                return Err(ApodField::Title);
            },
        };
        let url = match read_text(doc, "/url") {
            Some(text) => text,
            None => {
                return Err(ApodField::Url);
            },
        };
        Ok(
            Apod {
                copyright: or_empty(read_text(doc, "/copyright")),
                date,
                explanation,
                hdurl: or_empty(read_text(doc, "/hdurl")),
                media_type,
                title,
                url,
            },
        )
    }

    /// Whether the picture of the day is an image, and not a video or
    /// something else that cannot be a wallpaper.
    pub fn is_image(&self) -> (yes: bool)
        ensures
            yes == (self@.media_type == "image"@),
    {
        let image = String::from_str("image");
        self.media_type == image
    }

    /// The address of the file to use as wallpaper: that of the
    /// high-definition file where `hd` is set, else that of the standard one.
    pub fn wallpaper_url(&self, hd: bool) -> (url: &String)
        ensures
            url@ == (if hd { self@.hdurl } else { self@.url }),
    {
        if hd {
            &self.hdurl
        } else {
            &self.url
        }
    }

    /// Describes the picture in four lines, with `title` and `date` put where
    /// the title and the date belong.
    pub fn render(&self, title: &str, date: &str) -> (text: String)
        ensures
            text@ == spec_render_apod(self@, title@, date@),
    {
        let mut text = String::from_str("Title: ");
        text.append(title);
        text.append("\nDate: ");
        text.append(date);
        text.append("\nExplanation: ");
        text.append(self.explanation.as_str());
        text.append("\nCopyright: ");
        text.append(self.copyright.as_str());
        text
    }

    /// Describes the picture in four lines of plain text.
    pub fn describe(&self) -> (text: String)
        ensures
            text@ == spec_render_apod(self@, self@.title, self@.date),
    {
        self.render(self.title.as_str(), self.date.as_str())
    }
}

} // verus!
