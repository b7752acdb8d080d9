use veles::extract::{extracted_from_parts, PageParts};
use veles::extract::{clean_text, extract_page};
use veles::fetch::FetchedPage;
use veles::tools::{
    clamp_max_chars, clamp_max_results, default_fetch_top_n, default_max_chars, default_max_results,
    extract_output, read_output, research_limits, truncate_chars,
};
use veles::error::VelesError;
use veles::html::is_convertible_document;

#[test]
fn clean_text_trims_and_drops_empty_lines() {
    assert_eq!(clean_text("  a  \n\n  b\r\n\t\n"), "a\nb");
    assert_eq!(clean_text(""), "");
    assert_eq!(clean_text(" \n \u{a0}\u{3000} \n"), "");
    assert_eq!(clean_text("\u{2003}x y\u{85}"), "x y");
}

#[test]
fn clean_text_is_idempotent_on_example() {
    let once = clean_text("  one \n\n two\n   three   \n");
    assert_eq!(once, "one\ntwo\nthree");
    assert_eq!(clean_text(&once), once);
}

#[test]
fn truncate_counts_characters() {
    assert_eq!(truncate_chars("héllo", 3), "hél");
    assert_eq!(truncate_chars("héllo", 10), "héllo");
    assert_eq!(truncate_chars("abc", 0), "");
}

#[test]
fn clamps_limits() {
    assert_eq!(clamp_max_results(0), 1);
    assert_eq!(clamp_max_results(7), 7);
    assert_eq!(clamp_max_results(50), 10);
    assert_eq!(clamp_max_chars(10), 500);
    assert_eq!(clamp_max_chars(12000), 12000);
    assert_eq!(clamp_max_chars(99999), 20000);
    assert_eq!(research_limits(0, 99, 0), (1, 1, 500));
    assert_eq!(research_limits(20, 7, 30000), (10, 7, 20000));
    assert_eq!(research_limits(4, 0, 600), (4, 1, 600));
    assert_eq!((default_max_results(), default_fetch_top_n(), default_max_chars()), (5, 3, 12000));
}

fn page(text: &str) -> FetchedPage {
    FetchedPage {
        url: "https://example.com/".to_string(),
        final_url: "https://example.com/final".to_string(),
        status: 200,
        content_type: Some("text/html".to_string()),
        text: text.to_string(),
    }
}

#[test]
fn extracts_metadata_and_text() {
    let html = r#"<html><head><title>  Hello
        World </title>
        <meta name="description" content=" A page ">
        <link rel="canonical" href="https://example.com/canon">
        </head><body><p>First paragraph</p><p>Second</p></body></html>"#;
    let e = extract_page(&page(html));
    assert_eq!(e.url, "https://example.com/");
    assert_eq!(e.final_url, "https://example.com/final");
    assert_eq!(e.title.as_deref(), Some("Hello\nWorld"));
    assert_eq!(e.description.as_deref(), Some("A page"));
    assert_eq!(e.canonical_url.as_deref(), Some("https://example.com/canon"));
    assert!(e.text.contains("First paragraph"));
    assert!(e.text.contains("Second"));
    assert!(!e.text.contains("<p>"));
    assert_eq!(clean_text(&e.text), e.text);
}

#[test]
fn extract_falls_back_to_open_graph() {
    let html = r#"<html><head>
        <meta property="og:title" content="OG Title">
        <meta property="og:description" content="OG desc">
        </head><body></body></html>"#;
    let e = extract_page(&page(html));
    assert_eq!(e.title.as_deref(), Some("OG Title"));
    assert_eq!(e.description.as_deref(), Some("OG desc"));
    assert_eq!(e.canonical_url, None);
}

#[test]
fn extract_output_truncates_text() {
    let body = "word ".repeat(400);
    let html = format!("<html><body><p>{}</p></body></html>", body);
    let out = extract_output(&page(&html), 10).expect("shallow");
    assert!(out.ok);
    assert!(out.error.is_none());
    assert_eq!(out.page.text.chars().count(), 500);
}

fn nested(depth: usize) -> String {
    format!("<html><body>{}deep{}</body></html>", "<div>".repeat(depth), "</div>".repeat(depth))
}

#[test]
fn deep_documents_are_refused_before_conversion() {
    let deepest = nested(630);
    assert!(is_convertible_document(&deepest));
    let out = extract_output(&page(&deepest), 500).expect("converted");
    assert!(out.page.text.contains("deep"));
    assert!(!is_convertible_document(&nested(640)));
    let deep = nested(5000);
    assert!(!is_convertible_document(&deep));
    assert!(matches!(extract_output(&page(&deep), 500), Err(VelesError::UnconvertiblePage)));
    assert!(matches!(read_output(&page(&deep), 500), Err(VelesError::UnconvertiblePage)));
}

#[test]
fn stray_list_items_under_markers_are_refused() {
    for html in [
        "<blockquote><li></li></blockquote>",
        "<b><li>x</li></b>",
        "<ul><li><table><tr><td><em><li>z</li></em></td></tr></table></li></ul>",
    ] {
        assert!(!is_convertible_document(html), "{html}");
        assert!(matches!(extract_output(&page(html), 500), Err(VelesError::UnconvertiblePage)));
    }
    for html in [
        "<ul><li><b>x</b></li></ul>",
        "<b><ul><li>x</li></ul></b>",
        "<blockquote><ol><li>quoted</li></ol></blockquote>",
        "<table><tr><td><li>cell</li></td></tr></table>",
        "<div><li>loose</li></div>",
        "<ol><li><blockquote><li>inner</li></blockquote></li></ol>",
    ] {
        assert!(is_convertible_document(html), "{html}");
        assert!(extract_output(&page(html), 500).is_ok(), "{html}");
    }
}

#[test]
fn read_output_lists_links_and_truncation() {
    let body = "word ".repeat(200);
    let html = format!(
        r#"<html><head><title>T</title></head><body><p>{}</p><a href=" /a ">A</a><a href="">B</a><a name="x">C</a><a href="https://b.example/">D</a></body></html>"#,
        body
    );
    let out = read_output(&page(&html), 0).expect("shallow");
    assert!(out.ok);
    assert_eq!(out.page.links, vec!["/a".to_string(), "https://b.example/".to_string()]);
    assert!(out.page.truncated);
    assert_eq!(out.page.markdown.chars().count(), 500);
    assert_eq!(out.page.title.as_deref(), Some("T"));
    let short = read_output(&page("<p>hi</p>"), 9000).expect("shallow");
    assert!(!short.page.truncated);
}

#[test]
fn extracted_from_given_parts() {
    let parts = PageParts {
        title_pieces: Some(vec!["  ".to_string()]),
        og_title: Some(" OG ".to_string()),
        description: None,
        og_description: Some("desc".to_string()),
        canonical: Some("".to_string()),
        markdown: "  line one \n\n line two ".to_string(),
    };
    let e = extracted_from_parts(&"u".to_string(), &"f".to_string(), &parts);
    assert_eq!(e.title.as_deref(), Some("OG"));
    assert_eq!(e.description.as_deref(), Some("desc"));
    assert_eq!(e.canonical_url, None);
    assert_eq!(e.text, "line one\nline two");
}
