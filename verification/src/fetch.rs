//! The decisions of a page fetch: which responses are refused, and the page
//! that an accepted response gives.

use vstd::prelude::*;
use vstd::utf8::{decode_utf8, valid_utf8};
use crate::error::{ErrorView, VelesError};
use crate::strings::{copy_opt, copy_string, opt_view};

verus! {

/// A fetched page.
pub struct FetchedPage {
    /// The URL that was asked for, as parsed.
    pub url: String,
    /// The URL that answered, after redirects.
    pub final_url: String,
    /// The HTTP status.
    pub status: u16,
    /// The `Content-Type` header, when it is readable text.
    pub content_type: Option<String>,
    /// The body, decoded as UTF-8 with invalid sequences replaced.
    pub text: String,
}

/// The mathematical form of a [`FetchedPage`].
pub struct PageView {
    pub url: Seq<char>,
    pub final_url: Seq<char>,
    pub status: u16,
    pub content_type: Option<Seq<char>>,
    pub text: Seq<char>,
}

impl View for FetchedPage {
    type V = PageView;

    open spec fn view(&self) -> PageView {
        PageView {
            url: self.url@,
            final_url: self.final_url@,
            status: self.status,
            content_type: opt_view(self.content_type),
            text: self.text@,
        }
    }
}

impl FetchedPage {
    /// Whether the page was answered with a success status (200..=299).
    pub fn is_success(&self) -> (r: bool)
        ensures
            r == is_success_status(self.status),
    {
        200 <= self.status && self.status <= 299
    }

    /// A copy of this page.
    pub fn copy(&self) -> (r: FetchedPage)
        ensures
            r@ == self@,
    {
        FetchedPage {
            url: copy_string(&self.url),
            final_url: copy_string(&self.final_url),
            status: self.status,
            content_type: copy_opt(&self.content_type),
            text: copy_string(&self.text),
        }
    }
}

/// Whether an HTTP status is a success (`StatusCode::is_success`: 200..=299).
pub open spec fn is_success_status(status: u16) -> bool {
    200 <= status <= 299
}

/// The text that `String::from_utf8_lossy` makes of `bytes`.
pub uninterp spec fn utf8_lossy(bytes: Seq<u8>) -> Seq<char>;

/// Decodes `bytes` with `String::from_utf8_lossy`: every invalid sequence
/// becomes U+FFFD. The contract names the result and states, as the
/// documentation does, that valid UTF-8 is decoded unchanged; how invalid
/// sequences are grouped is not restated.
#[verifier::external_body]
fn decode_lossy(bytes: &Vec<u8>) -> (r: String)
    ensures
        r@ == utf8_lossy(bytes@),
        valid_utf8(bytes@) ==> r@ == decode_utf8(bytes@),
{
    String::from_utf8_lossy(bytes).into_owned()
}

/// The check made when the response head arrives: a declared length above
/// `max_page_bytes` is refused with `ResponseTooLarge`. Any status is
/// accepted: a page with a status outside 200..=299 is returned as it is, and
/// reported as not `ok` by the tools.
pub open spec fn length_check(content_length: Option<u64>, max_page_bytes: u64) -> Result<(), ErrorView> {
    if content_length matches Some(size) && size > max_page_bytes {
        Err(ErrorView::ResponseTooLarge { size: content_length->0, limit: max_page_bytes })
    } else {
        Ok(())
    }
}

/// Checks the declared length of a response before its body is read.
pub fn check_content_length(content_length: Option<u64>, max_page_bytes: u64) -> (r: Result<(), VelesError>)
    ensures
        match r {
            Ok(()) => length_check(content_length, max_page_bytes) == Ok::<(), ErrorView>(()),
            Err(e) => length_check(content_length, max_page_bytes) == Err::<(), ErrorView>(e@),
        },
{
    if let Some(size) = content_length {
        if size > max_page_bytes {
            return Err(VelesError::ResponseTooLarge { size, limit: max_page_bytes });
        }
    }
    Ok(())
}

/// The page that an accepted response gives, or `ResponseTooLarge` when the
/// body holds more than `max_page_bytes` bytes.
pub fn finish_fetch(
    url: String,
    final_url: String,
    status: u16,
    content_type: Option<String>,
    body: &Vec<u8>,
    max_page_bytes: u64,
) -> (r: Result<FetchedPage, VelesError>)
    ensures
        body@.len() > max_page_bytes ==> (r matches Err(e) && e@ == (ErrorView::ResponseTooLarge {
            size: body@.len() as u64,
            limit: max_page_bytes,
        })),
        body@.len() <= max_page_bytes ==> (r matches Ok(p) && p@ == (PageView {
            url: url@,
            final_url: final_url@,
            status,
            content_type: opt_view(content_type),
            text: utf8_lossy(body@),
        })),
{
    let size = body.len();
    if size as u64 > max_page_bytes {
        return Err(VelesError::ResponseTooLarge { size: size as u64, limit: max_page_bytes });
    }
    let text = decode_lossy(body);
    Ok(FetchedPage { url, final_url, status, content_type, text })
}

/// A response that passes the length check declares no more than
/// `max_page_bytes` bytes.
pub proof fn lemma_accepted_length(content_length: Option<u64>, max_page_bytes: u64)
    ensures
        length_check(content_length, max_page_bytes) is Ok ==> (content_length matches Some(size) ==> size
            <= max_page_bytes),
{
}

} // verus!
