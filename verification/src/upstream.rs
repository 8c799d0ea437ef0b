//! The price list of a day: where it is fetched from, and what can go wrong
//! in fetching it.

use vstd::prelude::*;
use vstd::string::*;
use crate::text::{decimal, push_decimal, push_signed_decimal, push_two_digits};
use crate::text::{signed_decimal, two_digits};

verus! {

/// A calendar date in some time zone.
#[derive(Clone, Copy, Debug, PartialEq, Eq, Structural)]
pub struct CivilDate {
    pub year: i32,
    pub month: u32,
    pub day: u32,
}

/// The address of the price list of the bidding zone NO2 for `date`: the
/// year, then the month and the day with two digits each.
pub open spec fn url_text(date: CivilDate) -> Seq<char> {
    "https://www.hvakosterstrommen.no/api/v1/prices/"@ + signed_decimal(date.year as int) + "/"@
        + two_digits(date.month as nat) + "-"@ + two_digits(date.day as nat) + "_NO2.json"@
}

/// The address from which the price list for `date` is fetched.
pub fn upstream_url(date: CivilDate) -> (url: String)
    ensures
        url@ == url_text(date),
{
    let mut url = String::from_str("https://www.hvakosterstrommen.no/api/v1/prices/");
    push_signed_decimal(&mut url, date.year as i64);
    url.append("/");
    push_two_digits(&mut url, date.month as u64);
    url.append("-");
    push_two_digits(&mut url, date.day as u64);
    url.append("_NO2.json");
    url
}

/// Why the day's price list could not be had.
#[derive(Clone, Debug, PartialEq, Eq)]
pub enum UpstreamError {
    /// The request did not get through; the text says why.
    Transport(String),
    /// The upstream service answered with this status, which is none of success.
    Status(u16),
    /// The answer's body is no list of price records; the text says why.
    Decode(String),
}

/// What an [`UpstreamError`] holds.
pub enum UpstreamErrorView {
    Transport(Seq<char>),
    Status(u16),
    Decode(Seq<char>),
}

impl View for UpstreamError {
    type V = UpstreamErrorView;

    open spec fn view(&self) -> UpstreamErrorView {
        match self {
            UpstreamError::Transport(text) => UpstreamErrorView::Transport(text@),
            UpstreamError::Status(code) => UpstreamErrorView::Status(*code),
            UpstreamError::Decode(text) => UpstreamErrorView::Decode(text@),
        }
    }
}

/// A status of success: 200 to 299.
pub open spec fn is_success(code: u16) -> bool {
    200 <= code <= 299
}

/// Judges the status of the upstream answer: any status but one of success
/// is the error [`UpstreamError::Status`] with that status.
pub fn check_status(code: u16) -> (verdict: Result<(), UpstreamError>)
    ensures
        match verdict {
            Ok(_) => is_success(code),
            Err(error) => !is_success(code) && error@ == UpstreamErrorView::Status(code),
        },
{
    if 200 <= code && code <= 299 {
        Ok(())
    } else {
        Err(UpstreamError::Status(code))
    }
}

/// How the HTTP library writes out the status `code`: the number and the
/// standard reason phrase that belongs to it.
pub uninterp spec fn status_display(code: u16) -> Seq<char>;

/// Writes out a status with `reqwest::StatusCode::from_u16` and the type's
/// `Display` (the type is the one of the `http` crate, which `reqwest`
/// hands on).
///
/// Taken on trust: a number is a status exactly if it lies between 100 and
/// 999, and the text written for one depends on the number alone.
#[verifier::external_body]
fn display_status(code: u16) -> (text: Option<String>)
    ensures
        text is Some <==> 100 <= code <= 999,
        text matches Some(t) ==> t@ == status_display(code),
{
    match reqwest::StatusCode::from_u16(code) {
        Ok(status) => Some(status.to_string()),
        Err(_) => None,
    }
}

/// The text for a status in a message: as the HTTP library writes it out
/// where the number is a status, else the bare number.
pub open spec fn status_text(code: u16) -> Seq<char> {
    if 100 <= code <= 999 {
        status_display(code)
    } else {
        decimal(code as nat)
    }
}

/// The message for an upstream answer with a status that is none of
/// success, given the status written out.
pub open spec fn status_failure_text(status: Seq<char>) -> Seq<char> {
    "API request failed with status: "@ + status
}

/// The message for an upstream answer with a status that is none of
/// success, given the status written out.
pub fn status_failure(status: &str) -> (message: String)
    ensures
        message@ == status_failure_text(status@),
{
    let mut message = String::from_str("API request failed with status: ");
    message.append(status);
    message
}

impl UpstreamErrorView {
    /// The message that describes the error.
    pub open spec fn message_text(self) -> Seq<char> {
        match self {
            UpstreamErrorView::Transport(text) => text,
            UpstreamErrorView::Status(code) => status_failure_text(status_text(code)),
            UpstreamErrorView::Decode(text) => text,
        }
    }
}

impl UpstreamError {
    /// The message that describes the error: the text it carries, or for a
    /// status the sentence that names it.
    pub fn message(&self) -> (message: String)
        ensures
            message@ == self@.message_text(),
    {
        match self {
            UpstreamError::Transport(text) => text.clone(),
            UpstreamError::Decode(text) => text.clone(),
            UpstreamError::Status(code) => match display_status(*code) {
                Some(status) => status_failure(status.as_str()),
                None => {
                    let mut number = String::new();
                    push_decimal(&mut number, *code as u64);
                    status_failure(number.as_str())
                },
            },
        }
    }
}

} // verus!
