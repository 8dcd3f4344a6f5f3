//! The playlist route: which page is asked for, and the errors it answers.

use vstd::prelude::*;
use crate::outside::{parse_i32, i32_text_value, json_error_text};

verus! {

/// Query parameters of `/api/v1/playlists/{id}`.
pub struct PlaylistEndpointQueryParams {
    pub page: Option<String>,
    pub hl: Option<String>,
}

/// The page of a playlist that a request asks for.
#[derive(PartialEq, Eq, Structural)]
pub enum PageRequest {
    /// The playlist itself.
    First,
    /// A continuation page, numbered from 1.
    Page(i32),
}

/// Why a `page` parameter is refused (both answered with 400).
pub enum PageError {
    NotANumber(String),
    NotPositive,
}

impl PageError {
    pub fn message(&self) -> (r: String)
        ensures
            match self {
                PageError::NotANumber(p) => r@ == "Given page is not a number: "@ + p@,
                PageError::NotPositive => r@ == "Page must be greater than zero"@,
            },
    {
        match self {
            PageError::NotANumber(p) => {
                let mut r = String::from_str("Given page is not a number: ");
                r.append(p.as_str());
                r
            },
            PageError::NotPositive => String::from_str("Page must be greater than zero"),
        }
    }
}

/// Reads the `page` parameter: absent asks for the playlist itself, a
/// number of at least 1 for that continuation page.
pub fn parse_page(page: Option<&str>) -> (r: Result<PageRequest, PageError>)
    ensures
        match page {
            None => r == Ok::<PageRequest, PageError>(PageRequest::First),
            Some(p) => match i32_text_value(p@) {
                None => r matches Err(PageError::NotANumber(t)) && t@ == p@,
                Some(v) => if v < 1 {
                    r matches Err(PageError::NotPositive)
                } else {
                    r matches Ok(PageRequest::Page(n)) && n == v
                },
            },
        },
{
    match page {
        None => Ok(PageRequest::First),
        Some(p) => match parse_i32(p) {
            None => Err(PageError::NotANumber(String::from_str(p))),
            Some(v) => {
                if v < 1 {
                    Err(PageError::NotPositive)
                } else {
                    Ok(PageRequest::Page(v))
                }
            },
        },
    }
}

/// Why a playlist page could not be produced.
pub enum FetchPlaylistError {
    FailedToFetchPlaylist,
    FailedToParsePlaylist,
    FailedToGenerateContinuation,
    FailedToFetchContinuation(reqwest::Error),
    FailedToParseContinuationResponse(serde_json::Error),
}

impl FetchPlaylistError {
    /// The 500 body with which the playlist route answers the error.
    pub fn body(&self) -> (r: String)
        ensures
            match self {
                FetchPlaylistError::FailedToFetchPlaylist => r@ == "{\"type\":\"error\"}"@,
                FetchPlaylistError::FailedToParsePlaylist => r@ == "{\"type\":\"error\"}"@,
                FetchPlaylistError::FailedToGenerateContinuation => r@
                    == "{\"type\":\"error\",\"message\":\"Error generating playlist continuation\"}"@,
                FetchPlaylistError::FailedToFetchContinuation(_) => r@
                    == "{\"type\":\"error\",\"message\":\"Unknown error\"}"@,
                FetchPlaylistError::FailedToParseContinuationResponse(_) => {
                    let head = "{\"type\":\"error\",\"message\":\"Error parsing continuation response to JSON\",\"inner_error\":\""@;
                    r@.len() > head.len() && r@.subrange(0, head.len() as int) == head
                },
            },
    {
        match self {
            FetchPlaylistError::FailedToFetchPlaylist => String::from_str("{\"type\":\"error\"}"),
            FetchPlaylistError::FailedToParsePlaylist => String::from_str("{\"type\":\"error\"}"),
            FetchPlaylistError::FailedToGenerateContinuation => String::from_str(
                "{\"type\":\"error\",\"message\":\"Error generating playlist continuation\"}",
            ),
            FetchPlaylistError::FailedToFetchContinuation(_) => String::from_str(
                "{\"type\":\"error\",\"message\":\"Unknown error\"}",
            ),
            FetchPlaylistError::FailedToParseContinuationResponse(e) => {
                let head = "{\"type\":\"error\",\"message\":\"Error parsing continuation response to JSON\",\"inner_error\":\"";
                let mut r = String::from_str(head);
                r.append(json_error_text(e).as_str());
                r.append("\"}");
                proof {
                    reveal_strlit("\"}");
                    assert(r@.subrange(0, head@.len() as int) =~= head@);
                }
                r
            },
        }
    }
}

/// The 404 body for a playlist that upstream refuses, from its first alert.
pub fn alert_body(alert_text: Option<&str>, alert_type: Option<&str>) -> (r: String)
    ensures
        r@ == "{\"type\":\"error\",\"message\":\""@ + match alert_text {
            Some(t) => t@,
            None => Seq::<char>::empty(),
        } + "\",\"message_type\":\""@ + match alert_type {
            Some(t) => t@,
            None => Seq::<char>::empty(),
        } + "\"}"@,
{
    let mut r = String::from_str("{\"type\":\"error\",\"message\":\"");
    match alert_text {
        Some(t) => r.append(t),
        None => {},
    }
    r.append("\",\"message_type\":\"");
    match alert_type {
        Some(t) => r.append(t),
        None => {},
    }
    r.append("\"}");
    proof {
        reveal_strlit("");
    }
    r
}

} // verus!
