use veles::html::{ResultBlock, ResultLink};
use veles::search::{link_destination, results_from_blocks};
use veles::urls::{check_public_url, UrlHost, UrlParts};
use veles::error::VelesError;
use veles::search::{
    html_search_attempt, lite_search_attempt, needs_lite_retry, normalize_ddg_url, parse_ddg_html,
    parse_ddg_lite_html, search_response_from,
};
use veles::state::search_cache_key;

#[test]
fn parses_duckduckgo_html_result() {
    let html = r#"
            <div class="result">
              <a class="result__a" href="//duckduckgo.com/l/?uddg=https%3A%2F%2Fexample.com%2Fdocs">Example Docs</a>
              <a class="result__snippet">Useful docs snippet.</a>
            </div>
        "#;

    let results = parse_ddg_html(html).expect("parse results");
    assert_eq!(results.len(), 1);
    assert_eq!(results[0].title, "Example Docs");
    assert_eq!(results[0].url, "https://example.com/docs");
    assert_eq!(results[0].snippet, "Useful docs snippet.");
}

#[test]
fn result_without_link_or_title_is_skipped() {
    let html = r#"
        <div class="result"><span>no link here</span></div>
        <div class="result"><a class="result__a" href="https://example.org/a">   </a></div>
        <div class="result"><a class="result__a" href="https://example.org/b">  Second
           line  </a></div>
    "#;
    let results = parse_ddg_html(html).expect("one result");
    assert_eq!(results.len(), 1);
    assert_eq!(results[0].title, "Second\nline");
    assert_eq!(results[0].url, "https://example.org/b");
    assert_eq!(results[0].snippet, "");
    assert_eq!(results[0].source, "duckduckgo");
}

#[test]
fn page_without_results_is_a_parse_error() {
    match parse_ddg_html("<html><body><p>nothing</p></body></html>") {
        Err(VelesError::SearchParse(m)) => {
            assert_eq!(m, "DuckDuckGo returned no parseable search results")
        }
        other => panic!("unexpected: {:?}", other.is_ok()),
    }
}

#[test]
fn search_attempt_keeps_first_results() {
    let html = r#"
        <div class="result"><a class="result__a" href="https://a.example/">A</a></div>
        <div class="result"><a class="result__a" href="https://b.example/">B</a></div>
        <div class="result"><a class="result__a" href="https://c.example/">C</a></div>
    "#;
    let url = "https://html.duckduckgo.com/html/?q=q".to_string();
    let first = html_search_attempt(&url, 200, html, 2).expect("results");
    assert_eq!(first.len(), 2);
    assert_eq!(first[0].url, "https://a.example/");
    assert_eq!(first[1].title, "B");
    let all = html_search_attempt(&url, 200, html, 10).expect("results");
    assert_eq!(all.len(), 3);
    let resp = search_response_from("q", Ok(first), None);
    assert_eq!(resp.query, "q");
    assert_eq!(resp.results.len(), 2);
    assert!(resp.warnings.is_empty());
}

#[test]
fn failed_html_search_falls_back_to_lite() {
    let url = "https://html.duckduckgo.com/html/".to_string();
    let first = html_search_attempt(&url, 200, "<html><body>blocked</body></html>", 5);
    assert!(needs_lite_retry(&first));
    assert_eq!(
        first.as_ref().err().map(String::as_str),
        Some("DuckDuckGo HTML search failed: search parsing failed: DuckDuckGo returned no parseable search results")
    );
    let lite = r#"<table>
        <tr><td>1.</td><td><a rel="nofollow" href="https://lite.example/one" class='result-link'>One</a></td></tr>
        <tr><td></td><td class='result-snippet'>First snippet</td></tr>
        <tr><td>2.</td><td><a rel="nofollow" href="//duckduckgo.com/l/?uddg=https%3A%2F%2Ftwo.example%2F" class='result-link'>Two</a></td></tr>
        <tr><td></td><td class='result-snippet'>Second snippet</td></tr>
    </table>"#;
    let lite_url = "https://lite.duckduckgo.com/lite/".to_string();
    let second = lite_search_attempt(&lite_url, 200, lite, 5);
    let resp = search_response_from("q", first, Some(second));
    assert_eq!(resp.results.len(), 2);
    assert_eq!(resp.results[0].title, "One");
    assert_eq!(resp.results[0].snippet, "First snippet");
    assert_eq!(resp.results[1].url, "https://two.example/");
    assert_eq!(resp.warnings.len(), 1);
}

#[test]
fn both_endpoints_failing_gives_empty_results_with_warnings() {
    let url = "https://html.duckduckgo.com/html/".to_string();
    let first = html_search_attempt(&url, 429, "", 5);
    assert_eq!(
        first.as_ref().err().map(String::as_str),
        Some("DuckDuckGo HTML search failed: HTTP status 429 for https://html.duckduckgo.com/html/")
    );
    let lite_url = "https://lite.duckduckgo.com/lite/".to_string();
    let second = lite_search_attempt(&lite_url, 200, "<p>captcha</p>", 5);
    assert_eq!(
        second.as_ref().err().map(String::as_str),
        Some("DuckDuckGo Lite search failed: search parsing failed: DuckDuckGo Lite returned no parseable search results")
    );
    let resp = search_response_from("q", first, Some(second));
    assert!(resp.results.is_empty());
    assert_eq!(resp.warnings.len(), 2);
    assert!(parse_ddg_lite_html("<p>none</p>").is_err());
}

#[test]
fn normalizes_redirect_and_relative_links() {
    assert_eq!(
        normalize_ddg_url("//duckduckgo.com/l/?uddg=https%3A%2F%2Fexample.com%2Fdocs&rut=x").as_deref(),
        Some("https://example.com/docs")
    );
    assert_eq!(normalize_ddg_url("/about").as_deref(), Some("https://duckduckgo.com/about"));
    assert_eq!(normalize_ddg_url("https://example.org").as_deref(), Some("https://example.org/"));
    assert_eq!(
        normalize_ddg_url("//duckduckgo.com/l/?other=1").as_deref(),
        Some("https://duckduckgo.com/l/?other=1")
    );
    assert_eq!(normalize_ddg_url("not a url"), None);
}

#[test]
fn search_cache_keys_are_distinct() {
    assert_eq!(search_cache_key("rust", 5), "rust\u{0}5");
    assert_ne!(search_cache_key("rust", 15), search_cache_key("rust\u{0}1", 5));
    assert_eq!(search_cache_key("", 0), "\u{0}0");
}

#[test]
fn results_from_given_blocks_and_urls() {

    let blocks = vec![
        ResultBlock { link: None, snippet: Some(vec!["orphan".to_string()]) },
        ResultBlock {
            link: Some(ResultLink { text: vec![" Title ".to_string(), "two".to_string()], href: Some("https://x.example/".to_string()) }),
            snippet: Some(vec!["a".to_string(), " b".to_string()]),
        },
    ];
    let results = results_from_blocks(&blocks);
    assert_eq!(results.len(), 1);
    assert_eq!(results[0].title, "Title  two");
    assert_eq!(results[0].snippet, "a  b");

    let redirect = UrlParts {
        serialized: "https://duckduckgo.com/l/?uddg=https%3A%2F%2Fz.example%2F".to_string(),
        scheme: "https".to_string(),
        host: Some(UrlHost::Domain("duckduckgo.com".to_string())),
        path: "/l/".to_string(),
        query_pairs: vec![("uddg".to_string(), "https://z.example/".to_string())],
    };
    assert_eq!(link_destination(Ok(redirect)).as_deref(), Some("https://z.example/"));
    assert_eq!(link_destination(Err("bad".to_string())), None);

    let local = UrlParts {
        serialized: "http://[::ffff:192.168.1.1]/".to_string(),
        scheme: "http".to_string(),
        host: Some(UrlHost::Ipv6([0, 0, 0, 0, 0, 0xffff, 0xc0a8, 0x0101])),
        path: "/".to_string(),
        query_pairs: Vec::new(),
    };
    match check_public_url(Ok(local)) {
        Err(VelesError::BlockedUrl(m)) => assert_eq!(m, "private or local IP address is blocked: ::ffff:192.168.1.1"),
        _ => panic!("expected a blocked address"),
    }
}
