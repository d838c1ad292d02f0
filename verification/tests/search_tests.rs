use agent_core::search::{extract_domain, parse_search_html};

#[test]
fn test_extract_domain() {
    assert_eq!(
        extract_domain("https://example.com/path/page").unwrap(),
        "example.com"
    );
    assert_eq!(extract_domain("https://example.com").unwrap(), "example.com");
    assert_eq!(extract_domain("//host.org/x").unwrap(), "host.org");
    assert!(extract_domain("no-scheme-here").is_none());
}

#[test]
fn test_parse_search_redirect_links_are_decoded() {
    // The redirect target is percent-encoded; the parser must decode it.
    let html = "<a href=\"/l/?uddg=https%3A%2F%2Fexample.com%2Fdocs&amp;rut=x\">Example</a>";
    let results = parse_search_html(html, 5);
    assert_eq!(results.len(), 1);
    assert_eq!(results[0].url, "https://example.com/docs");
    assert_eq!(results[0].title, "example.com");
    assert_eq!(results[0].snippet, "Search result from DuckDuckGo");
}

#[test]
fn test_parse_search_visible_links() {
    let html = "<span class=\"result__url\"> junk <a href=\"//rust-lang.org/learn\">x</a></span>";
    let results = parse_search_html(html, 5);
    assert!(results.iter().any(|r| r.url == "https://rust-lang.org/learn"));
}

#[test]
fn test_parse_search_bare_addresses() {
    let html = "plain text https://docs.example.net/page\" trailing";
    let results = parse_search_html(html, 5);
    assert!(results.iter().any(|r| r.url == "https://docs.example.net/page"));
}

#[test]
fn test_parse_search_deduplicates_and_caps() {
    let html = "uddg=https%3A%2F%2Fa.example%2F1&x uddg=https%3A%2F%2Fa.example%2F1&x uddg=https%3A%2F%2Fb.example%2F2&x uddg=https%3A%2F%2Fc.example%2F3&x ";
    let results = parse_search_html(html, 2);
    assert_eq!(results.len(), 2);
    assert_ne!(results[0].url, results[1].url);
}

#[test]
fn test_parse_search_filters_internal_links() {
    let html = "\"uddg=https%3A%2F%2Fduckduckgo.com%2Fabout&x\" bare https://cdn.host.com/app.js\" and https://improving.duckduckgo.com/x\" end";
    let results = parse_search_html(html, 5);
    assert!(results.iter().all(|r| !r.url.contains("duckduckgo.com")));
    assert!(results.iter().all(|r| !r.url.contains("cdn.")));
}

#[test]
fn test_parse_search_empty_page() {
    assert!(parse_search_html("", 5).is_empty());
    assert!(parse_search_html("<html><body>no links</body></html>", 0).is_empty());
}
