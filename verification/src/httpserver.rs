//! The decisions of the overlay server: which status and body each page and
//! API answer carries.

use vstd::prelude::*;
use vstd::string::StringExecFns;
use crate::text::owned;

verus! {

/// Why an API request failed, with the text of the underlying error.
pub enum ApiError {
    /// Obtaining an access token failed.
    Token(String),
    /// A request to Twitch failed.
    Http(String),
}

impl ApiError {
    /// The HTTP status answered for the error.
    pub fn status_code(&self) -> (code: u16)
        ensures
            code == match self {
                ApiError::Token(_) => 401u16,
                ApiError::Http(_) => 502u16,
            },
    {
        match self {
            ApiError::Token(_) => 401,
            ApiError::Http(_) => 502,
        }
    }

    /// The text answered for the error.
    pub fn message(&self) -> (m: String)
        ensures
            m@ == match self {
                ApiError::Token(e) => "Token error has occured: "@ + e@,
                ApiError::Http(e) => "HTTP error has occured: "@ + e@,
            },
    {
        match self {
            ApiError::Token(e) => {
                let mut m = owned("Token error has occured: ");
                m.append(e.as_str());
                m
            },
            ApiError::Http(e) => {
                let mut m = owned("HTTP error has occured: ");
                m.append(e.as_str());
                m
            },
        }
    }
}

/// The pages the server serves from files.
#[derive(PartialEq, Eq, Structural, Debug, Clone, Copy)]
pub enum Page {
    /// The overlay with the countdown, at `/`.
    Countdown,
    /// The reward configuration page, at `/config`.
    Configuration,
}

/// The file a page is read from.
pub open spec fn page_file(page: Page) -> Seq<char> {
    match page {
        Page::Countdown => "html/countdown.html"@,
        Page::Configuration => "html/config.html"@,
    }
}

/// The body answered when a page's file cannot be read.
pub open spec fn missing_page_body(page: Page) -> Seq<char> {
    match page {
        Page::Countdown => "<p>Error reading countdown.html file in httpserver</p>"@,
        Page::Configuration => "<p>Error reading configuration.html file in httpserver</p>"@,
    }
}

impl Page {
    /// The file the page is read from.
    pub fn file(&self) -> (path: String)
        ensures
            path@ == page_file(*self),
    {
        match self {
            Page::Countdown => owned("html/countdown.html"),
            Page::Configuration => owned("html/config.html"),
        }
    }

    /// The status and body answered for the page, given the file's contents
    /// (`None` when it could not be read).
    pub fn response(&self, contents: Option<String>) -> (answer: (u16, String))
        ensures
            match contents {
                Some(html) => answer.0 == 200 && answer.1@ == html@,
                None => answer.0 == 404 && answer.1@ == missing_page_body(*self),
            },
    {
        match contents {
            Some(html) => (200, html),
            None => match self {
                Page::Countdown => (
                    404,
                    owned("<p>Error reading countdown.html file in httpserver</p>"),
                ),
                Page::Configuration => (
                    404,
                    owned("<p>Error reading configuration.html file in httpserver</p>"),
                ),
            },
        }
    }
}

} // verus!
