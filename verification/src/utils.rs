//! Small decisions around fetching a file and handing it to the desktop:
//! what the file is called, and what to say when the desktop refuses it.

use crate::text::{
    contains, decimal, ends_with, lowercase_of, signed_decimal, spec_contains, spec_decimal,
    spec_ends_with, spec_signed_decimal, to_lowercase,
};
use vstd::prelude::*;
use vstd::string::StringExecFns;

verus! {

/// The file suffix for an address that reads `lowered` in lower case: `.png`
/// where it ends so, else `.jpg`.
pub open spec fn spec_suffix_for(lowered: Seq<char>) -> Seq<char> {
    if spec_ends_with(lowered, ".png"@) {
        ".png"@
    } else {
        ".jpg"@
    }
}

/// Chooses the file suffix for an address that is given in lower case.
pub fn suffix_for(lowered: &str) -> (suffix: &'static str)
    ensures
        suffix@ == spec_suffix_for(lowered@),
{
    if ends_with(lowered, ".png") {
        ".png"
    } else {
        ".jpg"
    }
}

/// Chooses the file suffix for the image at `url`: `.png` where the address
/// ends so in whatever case, else `.jpg`.
pub fn image_suffix(url: &str) -> (suffix: &'static str)
    ensures
        suffix@ == spec_suffix_for(lowercase_of(url@)),
{
    let lowered = to_lowercase(url);
    suffix_for(lowered.as_str())
}

/// The name of the file that holds an image fetched at `timestamp`, in
/// seconds since 1970.
pub open spec fn spec_download_file_name(timestamp: int, suffix: Seq<char>) -> Seq<char> {
    "nasa-wallpaper-"@ + spec_signed_decimal(timestamp) + suffix
}

/// Builds the name of the file that holds an image fetched at `timestamp`.
pub fn download_file_name(timestamp: i64, suffix: &str) -> (name: String)
    ensures
        name@ == spec_download_file_name(timestamp as int, suffix@),
{
    let mut name = String::from_str("nasa-wallpaper-");
    name.append(signed_decimal(timestamp).as_str());
    name.append(suffix);
    name
}

/// The name of the file that holds an image captioned at `timestamp`, in
/// seconds since 1970.
pub open spec fn spec_overlay_file_name(timestamp: int) -> Seq<char> {
    "nasa-wallpaper-overlay-"@ + spec_signed_decimal(timestamp) + ".jpg"@
}

/// Builds the name of the file that holds an image captioned at `timestamp`.
pub fn overlay_file_name(timestamp: i64) -> (name: String)
    ensures
        name@ == spec_overlay_file_name(timestamp as int),
{
    let mut name = String::from_str("nasa-wallpaper-overlay-");
    name.append(signed_decimal(timestamp).as_str());
    name.append(".jpg");
    name
}

/// Whether what the desktop said on refusing a wallpaper shows that a
/// program it relies on is not installed.
pub open spec fn spec_backend_missing(error: Seq<char>) -> bool {
    spec_contains(error, "No such file or directory"@) || spec_contains(error, "os error 2"@)
}

/// What to tell the user when the desktop refused a wallpaper with `error`.
pub open spec fn spec_wallpaper_failure(error: Seq<char>) -> Seq<char> {
    if spec_backend_missing(error) {
        "Unable to set wallpaper. This is likely due to missing dependencies for your desktop environment. Please ensure you have the correct backend installed (e.g., 'feh', 'gsettings', 'qdbus'). See README for details.\nOriginal error: "@
            + error
    } else {
        "Failed to set wallpaper: "@ + error
    }
}

/// Tells whether what the desktop said shows that a program it relies on is
/// not installed.
pub fn backend_missing(error: &str) -> (yes: bool)
    ensures
        yes == spec_backend_missing(error@),
{
    contains(error, "No such file or directory") || contains(error, "os error 2")
}

/// Words the failure to set a wallpaper for the user. Where the desktop's
/// own message shows a missing program, the text says which to install.
pub fn wallpaper_failure(error: &str) -> (message: String)
    ensures
        message@ == spec_wallpaper_failure(error@),
{
    let mut message = if backend_missing(error) {
        String::from_str(
            "Unable to set wallpaper. This is likely due to missing dependencies for your desktop environment. Please ensure you have the correct backend installed (e.g., 'feh', 'gsettings', 'qdbus'). See README for details.\nOriginal error: ",
        )
    } else {
        String::from_str("Failed to set wallpaper: ")
    };
    message.append(error);
    message
}

/// A calendar date as the picture-of-the-day endpoint takes it: year, month
/// and day in decimal with hyphens between, none of them padded.
pub open spec fn spec_date_string(year: int, month: nat, day: nat) -> Seq<char> {
    spec_signed_decimal(year) + "-"@ + spec_decimal(month) + "-"@ + spec_decimal(day)
}

/// Writes a calendar date as the picture-of-the-day endpoint takes it.
pub fn date_string(year: i32, month: u32, day: u32) -> (date: String)
    ensures
        date@ == spec_date_string(year as int, month as nat, day as nat),
{
    let mut date = signed_decimal(year as i64);
    date.append("-");
    date.append(decimal(month as u64).as_str());
    date.append("-");
    date.append(decimal(day as u64).as_str());
    date
}

} // verus!
