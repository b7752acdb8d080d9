//! DuckDuckGo search: the query, the reading of the HTML result page, and the
//! response.

use vstd::prelude::*;
use crate::config::{SafeSearch, ddg_kp_of};
use crate::error::{ErrorView, VelesError};
use crate::extract::{clean_text, cleaned};
use crate::fetch::is_success_status;
use crate::error::error_message;
use crate::html::{
    BlockView, ResultBlock, ResultLink, all_matches, blocks_view, links_view, result_blocks, select_all_matches,
    select_result_blocks,
};
use crate::strings::{
    chars_of, concat_strs, copy_string, has_prefix, join_strings, join_with, opt_view, starts_with_str, str_equal,
    strings_view,
};
use crate::urls::{HostView, UrlHost, UrlParts, UrlView, pairs_view, parse_url, parsed_view, url_parse};

verus! {

/// One search result.
pub struct SearchResult {
    pub title: String,
    pub url: String,
    pub snippet: String,
    pub source: String,
}

/// The mathematical form of a [`SearchResult`].
pub struct ResultView {
    pub title: Seq<char>,
    pub url: Seq<char>,
    pub snippet: Seq<char>,
    pub source: Seq<char>,
}

impl View for SearchResult {
    type V = ResultView;

    open spec fn view(&self) -> ResultView {
        ResultView { title: self.title@, url: self.url@, snippet: self.snippet@, source: self.source@ }
    }
}

/// The mathematical form of each result of a list.
pub open spec fn results_view(v: Seq<SearchResult>) -> Seq<ResultView> {
    v.map_values(|r: SearchResult| r@)
}

impl SearchResult {
    /// A copy of this result.
    pub fn copy(&self) -> (r: SearchResult)
        ensures
            r@ == self@,
    {
        SearchResult {
            title: copy_string(&self.title),
            url: copy_string(&self.url),
            snippet: copy_string(&self.snippet),
            source: copy_string(&self.source),
        }
    }
}

/// The link target that a result's `href` denotes: protocol-relative links
/// get `https:`, site-relative ones `https://duckduckgo.com`.
pub open spec fn ddg_href(raw: Seq<char>) -> Seq<char> {
    if has_prefix(raw, "//"@) {
        "https:"@ + raw
    } else if has_prefix(raw, "/"@) {
        "https://duckduckgo.com"@ + raw
    } else {
        raw
    }
}

/// The value of the first pair named `key`.
pub open spec fn first_value(pairs: Seq<(Seq<char>, Seq<char>)>, key: Seq<char>) -> Option<Seq<char>>
    decreases pairs.len(),
{
    if pairs.len() == 0 {
        None
    } else if pairs[0].0 == key {
        Some(pairs[0].1)
    } else {
        first_value(pairs.drop_first(), key)
    }
}

/// The domain of a URL whose host is a domain name (`Url::domain`).
pub open spec fn url_domain(u: UrlView) -> Option<Seq<char>> {
    match u.host {
        Some(HostView::Domain(d)) => Some(d),
        _ => None,
    }
}

/// The destination of a DuckDuckGo result link: for a redirect through
/// `duckduckgo.com/l/`, the first `uddg` query value; otherwise the link's
/// own serialization; `None` when the link does not parse.
pub open spec fn ddg_destination(raw: Seq<char>) -> Option<Seq<char>> {
    destination_of(url_parse(ddg_href(raw)))
}

/// The destination that a parsed result link gives (see `ddg_destination`).
pub open spec fn destination_of(parsed: Result<UrlView, Seq<char>>) -> Option<Seq<char>> {
    match parsed {
        Err(_) => None,
        Ok(u) => if url_domain(u) == Some("duckduckgo.com"@) && has_prefix(u.path, "/l/"@) && first_value(
            u.query_pairs,
            "uddg"@,
        ) is Some {
            first_value(u.query_pairs, "uddg"@)
        } else {
            Some(u.serialized)
        },
    }
}

fn first_pair_value(pairs: &Vec<(String, String)>, key: &str) -> (r: Option<String>)
    ensures
        match r {
            Some(v) => first_value(pairs_view(pairs@), key@) == Some(v@),
            None => first_value(pairs_view(pairs@), key@) is None,
        },
{
    let ghost pv = pairs_view(pairs@);
    let n = pairs.len();
    let mut i: usize = 0;
    assert(pv.skip(0) =~= pv);
    while i < n
        invariant
            i <= n,
            n == pairs@.len(),
            pv == pairs_view(pairs@),
            first_value(pv, key@) == first_value(pv.skip(i as int), key@),
        decreases n - i,
    {
        assert(pv.skip(i as int)[0] == (pairs@[i as int].0@, pairs@[i as int].1@));
        if str_equal(pairs[i].0.as_str(), key) {
            return Some(copy_string(&pairs[i].1));
        }
        assert(pv.skip(i as int).drop_first() =~= pv.skip(i + 1));
        i = i + 1;
    }
    None
}

/// Resolves the link target of a DuckDuckGo result to its destination.
pub fn normalize_ddg_url(raw_href: &str) -> (r: Option<String>)
    ensures
        match r {
            Some(u) => ddg_destination(raw_href@) == Some(u@),
            None => ddg_destination(raw_href@) is None,
        },
{
    let raw = chars_of(raw_href);
    let href = if starts_with_str(&raw, "//") {
        concat_strs("https:", raw_href)
    } else if starts_with_str(&raw, "/") {
        concat_strs("https://duckduckgo.com", raw_href)
    } else {
        String::from_str(raw_href)
    };
    link_destination(parse_url(href.as_str()))
}

/// The destination of a result link, from the outcome of parsing it.
pub fn link_destination(parsed: Result<UrlParts, String>) -> (r: Option<String>)
    ensures
        match r {
            Some(u) => destination_of(parsed_view(parsed)) == Some(u@),
            None => destination_of(parsed_view(parsed)) is None,
        },
{
    let parsed = match parsed {
        Ok(u) => u,
        Err(_) => return None,
    };
    let on_ddg = match &parsed.host {
        Some(UrlHost::Domain(d)) => str_equal(d.as_str(), "duckduckgo.com"),
        _ => false,
    };
    if on_ddg {
        let path = chars_of(parsed.path.as_str());
        if starts_with_str(&path, "/l/") {
            if let Some(v) = first_pair_value(&parsed.query_pairs, "uddg") {
                return Some(v);
            }
        }
    }
    Some(parsed.serialized)
}

/// The search result that a link gives, with the text pieces of its snippet
/// if any: the link needs an `href` that resolves, and a non-empty title and
/// destination.
pub open spec fn result_of_link(link: (Seq<Seq<char>>, Option<Seq<char>>), snippet: Option<Seq<Seq<char>>>) -> Option<
    ResultView,
> {
    match link.1 {
        None => None,
        Some(h) => match ddg_destination(h) {
            None => None,
            Some(url) => {
                let title = cleaned(join_with(link.0, " "@));
                let snippet_text = match snippet {
                    Some(p) => cleaned(join_with(p, " "@)),
                    None => Seq::<char>::empty(),
                };
                if title.len() > 0 && url.len() > 0 {
                    Some(ResultView { title, url, snippet: snippet_text, source: "duckduckgo"@ })
                } else {
                    None
                }
            },
        },
    }
}

/// The search result that one block gives, if any: a block needs a link.
pub open spec fn result_of_block(b: BlockView) -> Option<ResultView> {
    match b.link {
        None => None,
        Some(l) => result_of_link(l, b.snippet),
    }
}

/// The results of the blocks, in order.
pub open spec fn results_of_blocks(blocks: Seq<BlockView>) -> Seq<ResultView>
    decreases blocks.len(),
{
    if blocks.len() == 0 {
        Seq::<ResultView>::empty()
    } else {
        let prev = results_of_blocks(blocks.drop_last());
        match result_of_block(blocks.last()) {
            Some(r) => prev.push(r),
            None => prev,
        }
    }
}

/// The results found, or `SearchParse` with `empty_message` when there are
/// none.
pub open spec fn found_or(found: Seq<ResultView>, empty_message: Seq<char>) -> Result<Seq<ResultView>, ErrorView> {
    if found.len() == 0 {
        Err(ErrorView::SearchParse(empty_message))
    } else {
        Ok(found)
    }
}

/// What reading a DuckDuckGo HTML result page gives: the results of its
/// `.result` blocks, or `SearchParse` when a selector fails or no result is
/// found.
pub open spec fn ddg_results(html: Seq<char>) -> Result<Seq<ResultView>, ErrorView> {
    match result_blocks(html, ".result"@, ".result__a"@, ".result__snippet"@, "href"@) {
        Err(m) => Err(ErrorView::SearchParse(m)),
        Ok(blocks) => found_or(results_of_blocks(blocks), "DuckDuckGo returned no parseable search results"@),
    }
}

/// The blocks of a DuckDuckGo Lite page, whose links and snippets stand in
/// separate table rows: the `i`-th link with the `i`-th snippet.
pub open spec fn lite_blocks(
    links: Seq<(Seq<Seq<char>>, Option<Seq<char>>)>,
    snippets: Seq<(Seq<Seq<char>>, Option<Seq<char>>)>,
) -> Seq<BlockView> {
    Seq::new(
        links.len(),
        |i: int|
            BlockView {
                link: Some(links[i]),
                snippet: if i < snippets.len() {
                    Some(snippets[i].0)
                } else {
                    None
                },
            },
    )
}

/// What reading a DuckDuckGo Lite result page gives: the results of its
/// `a.result-link` links with the `td.result-snippet` snippets, or
/// `SearchParse` when a selector fails or no result is found.
pub open spec fn ddg_lite_results(html: Seq<char>) -> Result<Seq<ResultView>, ErrorView> {
    match all_matches(html, "a.result-link"@, "href"@) {
        Err(m) => Err(ErrorView::SearchParse(m)),
        Ok(links) => match all_matches(html, "td.result-snippet"@, "href"@) {
            Err(m) => Err(ErrorView::SearchParse(m)),
            Ok(snippets) => found_or(
                results_of_blocks(lite_blocks(links, snippets)),
                "DuckDuckGo Lite returned no parseable search results"@,
            ),
        },
    }
}

fn link_result(link: &ResultLink, snippet: Option<&Vec<String>>) -> (r: Option<SearchResult>)
    ensures
        ({
            let sv = match snippet {
                Some(p) => Some(strings_view(p@)),
                None => None,
            };
            match r {
                Some(x) => result_of_link((strings_view(link.text@), opt_view(link.href)), sv) == Some(x@),
                None => result_of_link((strings_view(link.text@), opt_view(link.href)), sv) is None,
            }
        }),
{
    let raw_href = match &link.href {
        Some(h) => h,
        None => return None,
    };
    let url = match normalize_ddg_url(raw_href.as_str()) {
        Some(u) => u,
        None => return None,
    };
    let joined = join_strings(&link.text, " ");
    let title = clean_text(joined.as_str());
    let snippet = match snippet {
        Some(p) => {
            let j = join_strings(p, " ");
            clean_text(j.as_str())
        },
        None => String::new(),
    };
    if !title.as_str().is_empty() && !url.as_str().is_empty() {
        Some(SearchResult { title, url, snippet, source: String::from_str("duckduckgo") })
    } else {
        None
    }
}

/// When every block gives a result, the results are the blocks' results, one
/// per block and in order.
proof fn lemma_results_of_valid_blocks(blocks: Seq<BlockView>)
    requires
        forall|i: int| 0 <= i < blocks.len() ==> (#[trigger] result_of_block(blocks[i])) is Some,
    ensures
        results_of_blocks(blocks).len() == blocks.len(),
        forall|i: int|
            0 <= i < blocks.len() ==> result_of_block(blocks[i]) == Some(#[trigger] results_of_blocks(blocks)[i]),
    decreases blocks.len(),
{
    if blocks.len() > 0 {
        let prev = blocks.drop_last();
        assert forall|i: int| 0 <= i < prev.len() implies (#[trigger] result_of_block(prev[i])) is Some by {
            assert(prev[i] == blocks[i]);
        }
        lemma_results_of_valid_blocks(prev);
        assert(result_of_block(blocks[blocks.len() - 1]) is Some);
        assert forall|i: int| 0 <= i < blocks.len() implies result_of_block(blocks[i]) == Some(
            #[trigger] results_of_blocks(blocks)[i],
        ) by {
            if i < prev.len() {
                assert(prev[i] == blocks[i]);
            }
        }
    }
}

/// On a DuckDuckGo Lite page whose links all give a result, the `i`-th result
/// is the `i`-th link, with its cleaned text as title, and the cleaned text
/// of the `i`-th snippet cell as snippet (empty when that row has none), so
/// each result carries its own snippet.
pub proof fn lemma_lite_results_pair_rows(
    links: Seq<(Seq<Seq<char>>, Option<Seq<char>>)>,
    snippets: Seq<(Seq<Seq<char>>, Option<Seq<char>>)>,
)
    requires
        forall|i: int| 0 <= i < links.len() ==> (#[trigger] result_of_link(links[i], None)) is Some,
    ensures
        results_of_blocks(lite_blocks(links, snippets)).len() == links.len(),
        forall|i: int|
            0 <= i < links.len() ==> {
                let r = #[trigger] results_of_blocks(lite_blocks(links, snippets))[i];
                &&& r.title == cleaned(join_with(links[i].0, " "@))
                &&& r.url == result_of_link(links[i], None)->Some_0.url
                &&& r.snippet == if i < snippets.len() {
                    cleaned(join_with(snippets[i].0, " "@))
                } else {
                    Seq::<char>::empty()
                }
            },
{
    let blocks = lite_blocks(links, snippets);
    assert forall|i: int| 0 <= i < blocks.len() implies (#[trigger] result_of_block(blocks[i])) is Some by {
        assert(result_of_link(links[i], None) is Some);
    }
    lemma_results_of_valid_blocks(blocks);
    assert forall|i: int| 0 <= i < links.len() implies {
        let r = #[trigger] results_of_blocks(lite_blocks(links, snippets))[i];
        &&& r.title == cleaned(join_with(links[i].0, " "@))
        &&& r.url == result_of_link(links[i], None)->Some_0.url
        &&& r.snippet == if i < snippets.len() {
            cleaned(join_with(snippets[i].0, " "@))
        } else {
            Seq::<char>::empty()
        }
    } by {
        assert(result_of_block(blocks[i]) == Some(results_of_blocks(blocks)[i]));
        assert(result_of_link(links[i], None) is Some);
    }
}

/// The search results of the result blocks of a page, in order.
pub fn results_from_blocks(blocks: &Vec<ResultBlock>) -> (r: Vec<SearchResult>)
    ensures
        results_view(r@) == results_of_blocks(blocks_view(blocks@)),
{
    let ghost bv = blocks_view(blocks@);
    let mut results: Vec<SearchResult> = Vec::new();
    let n = blocks.len();
    assert(bv.take(0) =~= Seq::<BlockView>::empty());
    for i in 0..n
        invariant
            n == blocks@.len(),
            bv == blocks_view(blocks@),
            results_view(results@) == results_of_blocks(bv.take(i as int)),
    {
        let found = match &blocks[i].link {
            Some(l) => link_result(l, blocks[i].snippet.as_ref()),
            None => None,
        };
        proof {
            assert(bv.take(i + 1).drop_last() =~= bv.take(i as int));
            assert(bv.take(i + 1).last() == blocks@[i as int]@);
        }
        match found {
            Some(x) => {
                let ghost before = results@;
                results.push(x);
                assert(results_view(results@) =~= results_view(before).push(results@.last()@));
            },
            None => {},
        }
    }
    assert(bv.take(n as int) =~= bv);
    results
}

/// The search results of the links and snippets of a DuckDuckGo Lite page,
/// the `i`-th link with the `i`-th snippet.
pub fn results_from_lite(links: &Vec<ResultLink>, snippets: &Vec<ResultLink>) -> (r: Vec<SearchResult>)
    ensures
        results_view(r@) == results_of_blocks(lite_blocks(links_view(links@), links_view(snippets@))),
{
    let ghost bv = lite_blocks(links_view(links@), links_view(snippets@));
    let mut results: Vec<SearchResult> = Vec::new();
    let n = links.len();
    assert(bv.take(0) =~= Seq::<BlockView>::empty());
    for i in 0..n
        invariant
            n == links@.len(),
            bv == lite_blocks(links_view(links@), links_view(snippets@)),
            results_view(results@) == results_of_blocks(bv.take(i as int)),
    {
        let snippet = if i < snippets.len() { Some(&snippets[i].text) } else { None };
        let found = link_result(&links[i], snippet);
        proof {
            assert(bv.take(i + 1).drop_last() =~= bv.take(i as int));
            assert(bv.take(i + 1).last() == bv[i as int]);
        }
        match found {
            Some(x) => {
                let ghost before = results@;
                results.push(x);
                assert(results_view(results@) =~= results_view(before).push(results@.last()@));
            },
            None => {},
        }
    }
    assert(bv.take(n as int) =~= bv);
    results
}

/// Reads the search results of a DuckDuckGo HTML result page.
pub fn parse_ddg_html(html: &str) -> (r: Result<Vec<SearchResult>, VelesError>)
    ensures
        match r {
            Ok(v) => ddg_results(html@) == Ok::<Seq<ResultView>, ErrorView>(results_view(v@)),
            Err(e) => ddg_results(html@) == Err::<Seq<ResultView>, ErrorView>(e@),
        },
{
    let blocks = match select_result_blocks(html, ".result", ".result__a", ".result__snippet", "href") {
        Ok(b) => b,
        Err(m) => return Err(VelesError::SearchParse(m)),
    };
    let results = results_from_blocks(&blocks);
    if results.len() == 0 {
        return Err(VelesError::SearchParse(String::from_str("DuckDuckGo returned no parseable search results")));
    }
    Ok(results)
}

/// Reads the search results of a DuckDuckGo Lite result page.
pub fn parse_ddg_lite_html(html: &str) -> (r: Result<Vec<SearchResult>, VelesError>)
    ensures
        match r {
            Ok(v) => ddg_lite_results(html@) == Ok::<Seq<ResultView>, ErrorView>(results_view(v@)),
            Err(e) => ddg_lite_results(html@) == Err::<Seq<ResultView>, ErrorView>(e@),
        },
{
    let links = match select_all_matches(html, "a.result-link", "href") {
        Ok(l) => l,
        Err(m) => return Err(VelesError::SearchParse(m)),
    };
    let snippets = match select_all_matches(html, "td.result-snippet", "href") {
        Ok(s) => s,
        Err(m) => return Err(VelesError::SearchParse(m)),
    };
    let results = results_from_lite(&links, &snippets);
    if results.len() == 0 {
        return Err(VelesError::SearchParse(String::from_str("DuckDuckGo Lite returned no parseable search results")));
    }
    Ok(results)
}

/// The first `n` results (all of them when there are fewer).
pub open spec fn first_n<T>(s: Seq<T>, n: nat) -> Seq<T> {
    if n < s.len() {
        s.take(n as int)
    } else {
        s
    }
}

/// The outcome of one request to a DuckDuckGo endpoint: its first
/// `max_results` results, or a warning (`label` and the error's description)
/// when the status is outside 200..=299 or the page holds no result.
pub open spec fn attempt_of(
    label: Seq<char>,
    final_url: Seq<char>,
    status: u16,
    read: Result<Seq<ResultView>, ErrorView>,
    max_results: nat,
) -> Result<Seq<ResultView>, Seq<char>> {
    if !is_success_status(status) {
        Err(label + error_message(ErrorView::HttpStatus { url: final_url, status }))
    } else {
        match read {
            Ok(found) => Ok(first_n(found, max_results)),
            Err(e) => Err(label + error_message(e)),
        }
    }
}

/// The label of warnings about the DuckDuckGo HTML endpoint.
pub open spec fn html_label() -> Seq<char> {
    "DuckDuckGo HTML search failed: "@
}

/// The label of warnings about the DuckDuckGo Lite endpoint.
pub open spec fn lite_label() -> Seq<char> {
    "DuckDuckGo Lite search failed: "@
}

/// The characters of an attempt's outcome.
pub open spec fn attempt_view(a: Result<Vec<SearchResult>, String>) -> Result<Seq<ResultView>, Seq<char>> {
    match a {
        Ok(v) => Ok(results_view(v@)),
        Err(w) => Err(w@),
    }
}

fn finish_attempt(label: &str, final_url: &String, status: u16, read: Result<Vec<SearchResult>, VelesError>, max_results: usize) -> (r:
    Result<Vec<SearchResult>, String>)
    ensures
        attempt_view(r) == attempt_of(
            label@,
            final_url@,
            status,
            match read {
                Ok(v) => Ok(results_view(v@)),
                Err(e) => Err(e@),
            },
            max_results as nat,
        ),
{
    if !(200 <= status && status <= 299) {
        let e = VelesError::HttpStatus { url: copy_string(final_url), status };
        let m = e.message();
        return Err(concat_strs(label, m.as_str()));
    }
    match read {
        Ok(mut v) => {
            let ghost all = v@;
            v.truncate(max_results);
            proof {
                if (max_results as nat) < all.len() {
                    assert(results_view(v@) =~= results_view(all).take(max_results as int));
                } else {
                    assert(v@ == all);
                }
                assert(results_view(v@) == first_n(results_view(all), max_results as nat));
            }
            Ok(v)
        },
        Err(e) => {
            let m = e.message();
            Err(concat_strs(label, m.as_str()))
        },
    }
}

/// The outcome of the request to the DuckDuckGo HTML endpoint.
pub fn html_search_attempt(final_url: &String, status: u16, body: &str, max_results: usize) -> (r: Result<
    Vec<SearchResult>,
    String,
>)
    ensures
        attempt_view(r) == attempt_of(html_label(), final_url@, status, ddg_results(body@), max_results as nat),
{
    let read = if 200 <= status && status <= 299 {
        parse_ddg_html(body)
    } else {
        Err(VelesError::SearchParse(String::new()))
    };
    finish_attempt("DuckDuckGo HTML search failed: ", final_url, status, read, max_results)
}

/// The outcome of the request to the DuckDuckGo Lite endpoint.
pub fn lite_search_attempt(final_url: &String, status: u16, body: &str, max_results: usize) -> (r: Result<
    Vec<SearchResult>,
    String,
>)
    ensures
        attempt_view(r) == attempt_of(lite_label(), final_url@, status, ddg_lite_results(body@), max_results as nat),
{
    let read = if 200 <= status && status <= 299 {
        parse_ddg_lite_html(body)
    } else {
        Err(VelesError::SearchParse(String::new()))
    };
    finish_attempt("DuckDuckGo Lite search failed: ", final_url, status, read, max_results)
}

/// The results of a search, with the warnings of the endpoints that failed.
pub struct SearchResponse {
    pub query: String,
    pub results: Vec<SearchResult>,
    pub warnings: Vec<String>,
}

/// The mathematical form of a [`SearchResponse`].
#[verifier::ext_equal]
pub struct ResponseView {
    pub query: Seq<char>,
    pub results: Seq<ResultView>,
    pub warnings: Seq<Seq<char>>,
}

impl View for SearchResponse {
    type V = ResponseView;

    open spec fn view(&self) -> ResponseView {
        ResponseView { query: self.query@, results: results_view(self.results@), warnings: strings_view(self.warnings@) }
    }
}

/// The response that the two endpoints give: the HTML endpoint's results
/// when it has any; otherwise its warning, and the Lite endpoint's results,
/// or an empty list with both warnings when the Lite endpoint fails too.
/// `None` stands for a Lite request not made.
pub open spec fn response_of(
    query: Seq<char>,
    first: Result<Seq<ResultView>, Seq<char>>,
    second: Option<Result<Seq<ResultView>, Seq<char>>>,
) -> ResponseView {
    match first {
        Ok(found) => ResponseView { query, results: found, warnings: Seq::empty() },
        Err(w1) => match second {
            None => ResponseView { query, results: Seq::empty(), warnings: seq![w1] },
            Some(Ok(found)) => ResponseView { query, results: found, warnings: seq![w1] },
            Some(Err(w2)) => ResponseView { query, results: Seq::empty(), warnings: seq![w1, w2] },
        },
    }
}

/// The characters of an optional attempt's outcome.
pub open spec fn opt_attempt_view(a: Option<Result<Vec<SearchResult>, String>>) -> Option<Result<Seq<ResultView>, Seq<char>>> {
    match a {
        Some(x) => Some(attempt_view(x)),
        None => None,
    }
}

/// Whether the Lite endpoint is to be asked: exactly when the HTML endpoint
/// gave no result.
pub fn needs_lite_retry(first: &Result<Vec<SearchResult>, String>) -> (r: bool)
    ensures
        r == (first is Err),
{
    first.is_err()
}

/// The response to `query` from the outcomes of the two requests; a search
/// never fails for want of results.
pub fn search_response_from(
    query: &str,
    first: Result<Vec<SearchResult>, String>,
    second: Option<Result<Vec<SearchResult>, String>>,
) -> (r: SearchResponse)
    ensures
        r@ == response_of(
            query@,
            attempt_view(first),
            opt_attempt_view(second),
        ),
{
    let q = String::from_str(query);
    let ghost first_v = attempt_view(first);
    let ghost second_v = opt_attempt_view(second);
    match first {
        Ok(found) => {
            let ghost fv = results_view(found@);
            let r = SearchResponse { query: q, results: found, warnings: Vec::new() };
            assert(r@.warnings =~= Seq::<Seq<char>>::empty());
            assert(r@.results == fv);
            assert(first_v == Ok::<Seq<ResultView>, Seq<char>>(fv));
            assert(r@ == response_of(query@, first_v, second_v));
            return r;
        },
        Err(w1) => {
            let mut warnings: Vec<String> = Vec::new();
            warnings.push(w1);
            match second {
                None => {
                    let r = SearchResponse { query: q, results: Vec::new(), warnings };
                    assert(r@.results =~= Seq::<ResultView>::empty());
                    assert(r@.warnings =~= seq![attempt_view(first)->Err_0]);
                    r
                },
                Some(Ok(found)) => {
                    let r = SearchResponse { query: q, results: found, warnings };
                    assert(r@.warnings =~= seq![attempt_view(first)->Err_0]);
                    r
                },
                Some(Err(w2)) => {
                    warnings.push(w2);
                    let r = SearchResponse { query: q, results: Vec::new(), warnings };
                    assert(r@.results =~= Seq::<ResultView>::empty());
                    r
                },
            }
        },
    }
}

/// The query parameters of a DuckDuckGo HTML search: `q`, the region `kl`
/// and the SafeSearch level `kp`.
pub fn ddg_query_pairs(query: &str, region: &str, safe_search: SafeSearch) -> (r: Vec<(String, String)>)
    ensures
        r@.len() == 3,
        r@[0].0@ == "q"@ && r@[0].1@ == query@,
        r@[1].0@ == "kl"@ && r@[1].1@ == region@,
        r@[2].0@ == "kp"@ && r@[2].1@ == ddg_kp_of(safe_search),
{
    let mut r: Vec<(String, String)> = Vec::new();
    r.push((String::from_str("q"), String::from_str(query)));
    r.push((String::from_str("kl"), String::from_str(region)));
    r.push((String::from_str("kp"), String::from_str(safe_search.ddg_kp())));
    r
}

/// Every result read from a page has a non-empty title and destination and
/// names DuckDuckGo as its source.
pub proof fn lemma_results_well_formed(blocks: Seq<BlockView>)
    ensures
        forall|i: int| 0 <= i < results_of_blocks(blocks).len() ==> {
            &&& (#[trigger] results_of_blocks(blocks)[i]).title.len() > 0
            &&& results_of_blocks(blocks)[i].url.len() > 0
            &&& results_of_blocks(blocks)[i].source == "duckduckgo"@
        },
    decreases blocks.len(),
{
    if blocks.len() > 0 {
        lemma_results_well_formed(blocks.drop_last());
        let prev = results_of_blocks(blocks.drop_last());
        match result_of_block(blocks.last()) {
            Some(r) => {
                assert(r.title.len() > 0 && r.url.len() > 0 && r.source == "duckduckgo"@);
                assert forall|i: int| 0 <= i < prev.push(r).len() implies {
                    &&& (#[trigger] prev.push(r)[i]).title.len() > 0
                    &&& prev.push(r)[i].url.len() > 0
                    &&& prev.push(r)[i].source == "duckduckgo"@
                } by {
                    if i < prev.len() {
                        assert(prev.push(r)[i] == prev[i]);
                    }
                }
            },
            None => {},
        }
    }
}

/// A response never holds more results than were asked for.
pub proof fn lemma_response_within_limit(found: Seq<ResultView>, max_results: nat)
    ensures
        first_n(found, max_results).len() <= max_results,
        first_n(found, max_results).len() <= found.len(),
        forall|i: int| 0 <= i < first_n(found, max_results).len() ==> #[trigger] first_n(found, max_results)[i]
            == found[i],
{
}

/// A search never fails for want of results, and an empty result list
/// always comes with a warning: when each endpoint that answered gave at
/// least one result, a response without results carries the warnings of
/// the endpoints that failed.
pub proof fn lemma_empty_response_warns(
    query: Seq<char>,
    first: Result<Seq<ResultView>, Seq<char>>,
    second: Option<Result<Seq<ResultView>, Seq<char>>>,
)
    requires
        first matches Ok(f) ==> f.len() > 0,
        second matches Some(Ok(f)) ==> f.len() > 0,
    ensures
        response_of(query, first, second).results.len() == 0 ==> response_of(query, first, second).warnings.len() > 0,
        response_of(query, first, second).query == query,
{
}

/// An endpoint that answers with results gives at least one of them when at
/// least one is asked for.
pub proof fn lemma_attempt_nonempty(
    label: Seq<char>,
    final_url: Seq<char>,
    status: u16,
    found: Seq<ResultView>,
    empty_message: Seq<char>,
    max_results: nat,
)
    requires
        max_results >= 1,
    ensures
        attempt_of(label, final_url, status, found_or(found, empty_message), max_results) matches Ok(f) ==> f.len() > 0,
{
}

} // verus!
