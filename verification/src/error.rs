//! The library's error type.

use vstd::prelude::*;
use crate::strings::{concat_strs, decimal, decimal_string};

verus! {

/// Everything that can go wrong while searching, fetching or rendering.
#[derive(Debug)]
pub enum VelesError {
    /// A configuration value is missing its form or its range.
    Config(String),
    /// The URL could not be parsed or lacks a host.
    InvalidUrl(String),
    /// The URL points at a scheme or host that is refused.
    BlockedUrl(String),
    /// The HTTP client failed; the text is the client's own description.
    Http(String),
    /// The server answered with a status outside 200..=299.
    HttpStatus { url: String, status: u16 },
    /// The response body is larger than the configured limit.
    ResponseTooLarge { size: u64, limit: u64 },
    /// No search result could be read from the result page.
    SearchParse(String),
    /// Browser rendering is switched off.
    BrowserDisabled,
    /// Browser rendering has not been permitted yet.
    BrowserPermissionRequired,
    /// The browser session failed.
    Browser(String),
    /// The page's HTML is one that `html2md` cannot convert to Markdown.
    UnconvertiblePage,
}

/// The mathematical form of a [`VelesError`].
pub enum ErrorView {
    Config(Seq<char>),
    InvalidUrl(Seq<char>),
    BlockedUrl(Seq<char>),
    Http(Seq<char>),
    HttpStatus { url: Seq<char>, status: u16 },
    ResponseTooLarge { size: u64, limit: u64 },
    SearchParse(Seq<char>),
    BrowserDisabled,
    BrowserPermissionRequired,
    Browser(Seq<char>),
    UnconvertiblePage,
}

impl View for VelesError {
    type V = ErrorView;

    open spec fn view(&self) -> ErrorView {
        match self {
            VelesError::Config(m) => ErrorView::Config(m@),
            VelesError::InvalidUrl(m) => ErrorView::InvalidUrl(m@),
            VelesError::BlockedUrl(m) => ErrorView::BlockedUrl(m@),
            VelesError::Http(m) => ErrorView::Http(m@),
            VelesError::HttpStatus { url, status } => ErrorView::HttpStatus { url: url@, status: *status },
            VelesError::ResponseTooLarge { size, limit } => ErrorView::ResponseTooLarge {
                size: *size,
                limit: *limit,
            },
            VelesError::SearchParse(m) => ErrorView::SearchParse(m@),
            VelesError::BrowserDisabled => ErrorView::BrowserDisabled,
            VelesError::BrowserPermissionRequired => ErrorView::BrowserPermissionRequired,
            VelesError::Browser(m) => ErrorView::Browser(m@),
            VelesError::UnconvertiblePage => ErrorView::UnconvertiblePage,
        }
    }
}

/// The human-readable description of an error.
pub open spec fn error_message(e: ErrorView) -> Seq<char> {
    match e {
        ErrorView::Config(m) => "configuration error: "@ + m,
        ErrorView::InvalidUrl(m) => "invalid URL: "@ + m,
        ErrorView::BlockedUrl(m) => "blocked URL: "@ + m,
        ErrorView::Http(m) => "HTTP request failed: "@ + m,
        ErrorView::HttpStatus { url, status } => "HTTP status "@ + decimal(status as nat) + " for "@
            + url,
        ErrorView::ResponseTooLarge { size, limit } => "response is too large: "@ + decimal(
            size as nat,
        ) + " bytes exceeds limit "@ + decimal(limit as nat) + " bytes"@,
        ErrorView::SearchParse(m) => "search parsing failed: "@ + m,
        ErrorView::BrowserDisabled => "browser rendering is disabled"@,
        ErrorView::BrowserPermissionRequired => "browser rendering requires explicit user permission"@,
        ErrorView::Browser(m) => "browser rendering failed: "@ + m,
        ErrorView::UnconvertiblePage => "page cannot be converted to Markdown: it nests 640 levels deep or more, or has a list item inside a link, quote or emphasis without an enclosing list"@,
    }
}

/// Whether an error is the caller's fault (a bad or refused URL) rather than
/// a failure of the server.
pub open spec fn is_invalid_params_error(e: ErrorView) -> bool {
    e is InvalidUrl || e is BlockedUrl
}

impl VelesError {
    /// The human-readable description of this error.
    pub fn message(&self) -> (r: String)
        ensures
            r@ == error_message(self@),
    {
        match self {
            VelesError::Config(m) => concat_strs("configuration error: ", m.as_str()),
            VelesError::InvalidUrl(m) => concat_strs("invalid URL: ", m.as_str()),
            VelesError::BlockedUrl(m) => concat_strs("blocked URL: ", m.as_str()),
            VelesError::Http(m) => concat_strs("HTTP request failed: ", m.as_str()),
            VelesError::HttpStatus { url, status } => {
                let code = decimal_string(*status as u64);
                let mut r = concat_strs("HTTP status ", code.as_str());
                r.append(" for ");
                r.append(url.as_str());
                r
            },
            VelesError::ResponseTooLarge { size, limit } => {
                let s = decimal_string(*size);
                let l = decimal_string(*limit);
                let mut r = concat_strs("response is too large: ", s.as_str());
                r.append(" bytes exceeds limit ");
                r.append(l.as_str());
                r.append(" bytes");
                r
            },
            VelesError::SearchParse(m) => concat_strs("search parsing failed: ", m.as_str()),
            VelesError::BrowserDisabled => String::from_str("browser rendering is disabled"),
            VelesError::BrowserPermissionRequired => String::from_str(
                "browser rendering requires explicit user permission",
            ),
            VelesError::Browser(m) => concat_strs("browser rendering failed: ", m.as_str()),
            VelesError::UnconvertiblePage => String::from_str(
                "page cannot be converted to Markdown: it nests 640 levels deep or more, or has a list item inside a link, quote or emphasis without an enclosing list",
            ),
        }
    }

    /// The message reported to the client as invalid parameters, for an error
    /// about the caller's URL; `None` for every other error.
    pub fn invalid_params_message(&self) -> (r: Option<String>)
        ensures
            r is Some <==> is_invalid_params_error(self@),
            r matches Some(m) ==> (self@ == ErrorView::InvalidUrl(m@) || self@ == ErrorView::BlockedUrl(m@)),
    {
        match self {
            VelesError::InvalidUrl(m) | VelesError::BlockedUrl(m) => Some(String::from_str(m.as_str())),
            _ => None,
        }
    }

    /// Whether this error is reported to the client as invalid parameters.
    pub fn is_invalid_params(&self) -> (r: bool)
        ensures
            r == is_invalid_params_error(self@),
    {
        match self {
            VelesError::InvalidUrl(_) | VelesError::BlockedUrl(_) => true,
            _ => false,
        }
    }
}

} // verus!
