//! Web-search result extraction: pull result links out of the search
//! page's HTML. Three passes, from most to least structured: redirect
//! links with a percent-encoded target, visible result links, and bare
//! addresses. Results are deduplicated by address and capped.

use vstd::prelude::*;
use vstd::string::*;

use crate::text::{
    contains_sub, find_char, find_char_from, find_sub_from, has_sub, is_match_at, starts_with_sub,
    str_eq,
};

verus! {

broadcast use vstd::string::group_string_axioms;

/// One search result.
#[derive(Clone, Debug)]
pub struct SearchResult {
    pub title: String,
    pub url: String,
    pub snippet: String,
}

/// Mathematical image of a search result.
#[verifier::ext_equal]
pub ghost struct SearchResultView {
    pub title: Seq<char>,
    pub url: Seq<char>,
    pub snippet: Seq<char>,
}

impl View for SearchResult {
    type V = SearchResultView;

    open spec fn view(&self) -> SearchResultView {
        SearchResultView { title: self.title@, url: self.url@, snippet: self.snippet@ }
    }
}

impl DeepView for SearchResult {
    type V = SearchResultView;

    open spec fn deep_view(&self) -> SearchResultView {
        self.view()
    }
}

/// What percent-decoding yields for a given text: a function of the
/// text alone.
pub uninterp spec fn url_decode_of(s: Seq<char>) -> Seq<char>;

/// Relies on urlencoding::decode: percent-decoding depends on the input
/// alone; a text without a percent sign decodes to itself; decoding
/// fails only when the decoded bytes are not valid text.
#[verifier::external_body]
fn url_decode(s: &str) -> (r: Option<String>)
    ensures
        match r {
            Some(d) => d@ == url_decode_of(s@) && ((forall|i: int|
                0 <= i < s@.len() ==> s@[i] != '%') ==> d@ == s@),
            None => exists|i: int| 0 <= i < s@.len() && s@[i] == '%',
        },
{
    match urlencoding::decode(s) {
        Ok(c) => Some(c.into_owned()),
        Err(_) => None,
    }
}

/// The host part of an address: the text between the first `//` and
/// the next slash.
pub fn extract_domain(url: &str) -> (r: Option<String>)
    ensures
        r is Some <==> has_sub(url@, "//"@),
        match r {
            Some(d) => exists|a: int|
                {
                    &&& #[trigger] is_match_at(url@, "//"@, a)
                    &&& (forall|j: int| 0 <= j < a ==> !is_match_at(url@, "//"@, j))
                    &&& d@ == url@.subrange(a + 2, find_char_from(url@, '/', a + 2))
                },
            None => true,
        },
{
    proof {
        reveal_strlit("//");
        assert("//"@.len() == 2);
    }
    let ulen = url.unicode_len();
    match find_sub_from(url, "//", 0) {
        Some(a) => {
            proof {
                assert(a + 2 <= ulen);
            }
            let end = find_char(url, '/', a + 2);
            let d = String::from_str(url.substring_char(a + 2, end));
            Some(d)
        },
        None => None,
    }
}

/// The collected results and the addresses already taken, in step:
/// one address per result, every address unique, every address
/// beginning with `http`.
pub open spec fn results_wf(rs: Seq<SearchResultView>, seen: Seq<Seq<char>>) -> bool {
    &&& rs.len() == seen.len()
    &&& forall|i: int| 0 <= i < rs.len() ==> seen[i] == (#[trigger] rs[i]).url
    &&& forall|i: int, j: int| 0 <= i < j < seen.len() ==> seen[i] != seen[j]
    &&& forall|i: int| 0 <= i < rs.len() ==> is_match_at((#[trigger] rs[i]).url, "http"@, 0)
}

/// Add one result for a fresh address.
fn push_result(
    results: &mut Vec<SearchResult>,
    seen: &mut Vec<String>,
    url: String,
    snippet: &str,
)
    requires
        results_wf(old(results).deep_view(), old(seen).deep_view()),
        !old(seen).deep_view().contains(url@),
        is_match_at(url@, "http"@, 0),
    ensures
        results_wf(final(results).deep_view(), final(seen).deep_view()),
        final(results).deep_view().len() == old(results).deep_view().len() + 1,
{
    let title = match extract_domain(url.as_str()) {
        Some(d) => d,
        None => String::from_str("Result"),
    };
    let ghost old_rs = results.deep_view();
    let ghost old_seen = seen.deep_view();
    let stored_url = url.clone();
    results.push(SearchResult { title, url, snippet: String::from_str(snippet) });
    seen.push(stored_url);
    proof {
        assert(results.deep_view() =~= old_rs.push(results.deep_view().last()));
        assert(seen.deep_view() =~= old_seen.push(results.deep_view().last().url));
        assert forall|i: int, j: int|
            0 <= i < j < seen.deep_view().len() implies seen.deep_view()[i]
            != seen.deep_view()[j] by {
            if j == seen.deep_view().len() - 1 {
                assert(!old_seen.contains(seen.deep_view()[j]));
            }
        }
    }
}

/// First position of any of `&`, `"`, `'` in a line of text, or its
/// length.
fn find_break_char(s: &str) -> (r: usize)
    ensures
        r <= s@.len(),
        r < s@.len() ==> s@[r as int] == '&' || s@[r as int] == '"' || s@[r as int] == '\'',
        forall|j: int|
            0 <= j < r ==> s@[j] != '&' && s@[j] != '"' && s@[j] != '\'',
    decreases s@.len(),
{
    let len = s.unicode_len();
    let mut i: usize = 0;
    while i < len
        invariant
            i <= len,
            len == s@.len(),
            forall|j: int| 0 <= j < i ==> s@[j] != '&' && s@[j] != '"' && s@[j] != '\'',
        decreases len - i,
    {
        let c = s.get_char(i);
        if c == '&' || c == '"' || c == '\'' {
            return i;
        }
        i = i + 1;
    }
    len
}

/// First position of any of `"`, `'`, `<`, `>`, space, `)` in a line
/// of text, or its length.
fn find_term_char(s: &str) -> (r: usize)
    ensures
        r <= s@.len(),
        forall|j: int|
            0 <= j < r ==> s@[j] != '"' && s@[j] != '\'' && s@[j] != '<' && s@[j] != '>' && s@[j]
                != ' ' && s@[j] != ')',
    decreases s@.len(),
{
    let len = s.unicode_len();
    let mut i: usize = 0;
    while i < len
        invariant
            i <= len,
            len == s@.len(),
            forall|j: int|
                0 <= j < i ==> s@[j] != '"' && s@[j] != '\'' && s@[j] != '<' && s@[j] != '>'
                    && s@[j] != ' ' && s@[j] != ')',
        decreases len - i,
    {
        let c = s.get_char(i);
        if c == '"' || c == '\'' || c == '<' || c == '>' || c == ' ' || c == ')' {
            return i;
        }
        i = i + 1;
    }
    len
}

/// Pull search results out of the page's HTML: at most `max_results`,
/// every address unique and beginning with `http`.
pub fn parse_search_html(html: &str, max_results: usize) -> (r: Vec<SearchResult>)
    ensures
        r.deep_view().len() <= max_results,
        forall|i: int, j: int|
            0 <= i < j < r.deep_view().len() ==> (#[trigger] r.deep_view()[i]).url != (
            #[trigger] r.deep_view()[j]).url,
        forall|i: int| 0 <= i < r.deep_view().len() ==> is_match_at(
            (#[trigger] r.deep_view()[i]).url,
            "http"@,
            0,
        ),
{
    let mut results: Vec<SearchResult> = Vec::new();
    let mut seen: Vec<String> = Vec::new();
    let hlen = html.unicode_len();

    // First pass: redirect links carrying a percent-encoded target.
    let mut pos: usize = 0;
    loop
        invariant_except_break
            pos <= hlen,
            hlen == html@.len(),
            results_wf(results.deep_view(), seen.deep_view()),
            results.deep_view().len() <= max_results,
        ensures
            results_wf(results.deep_view(), seen.deep_view()),
            results.deep_view().len() <= max_results,
        decreases hlen + 1 - pos,
    {
        if results.len() >= max_results {
            break;
        }
        proof {
            reveal_strlit("uddg=");
            assert("uddg="@.len() == 5);
        }
        let seg_end = match find_sub_from(html, "uddg=", pos) {
            Some(m) => m,
            None => hlen,
        };
        let seg = html.substring_char(pos, seg_end);
        let brk = find_break_char(seg);
        if brk < seg.unicode_len() {
            let encoded = seg.substring_char(0, brk);
            match url_decode(encoded) {
                Some(url) => {
                    if starts_with_sub(url.as_str(), "http") && !contains_sub(
                        url.as_str(),
                        "duckduckgo.com",
                    ) && !seen_contains(&seen, url.as_str()) {
                        push_result(&mut results, &mut seen, url, "Search result from DuckDuckGo");
                    }
                },
                None => {},
            }
        }
        if seg_end >= hlen {
            break;
        }
        pos = seg_end + 5;
    }

    // Second pass: visible result links.
    let mut pos2: usize = 0;
    loop
        invariant_except_break
            pos2 <= hlen,
            hlen == html@.len(),
            results_wf(results.deep_view(), seen.deep_view()),
            results.deep_view().len() <= max_results,
        ensures
            results_wf(results.deep_view(), seen.deep_view()),
            results.deep_view().len() <= max_results,
        decreases hlen + 1 - pos2,
    {
        if results.len() >= max_results {
            break;
        }
        proof {
            reveal_strlit("result__url");
            assert("result__url"@.len() == 11);
            reveal_strlit("href=\"");
            assert("href=\""@.len() == 6);
        }
        let seg_end = match find_sub_from(html, "result__url", pos2) {
            Some(m) => m,
            None => hlen,
        };
        let seg = html.substring_char(pos2, seg_end);
        match find_sub_from(seg, "href=\"", 0) {
            Some(h) => {
                let after = seg.substring_char(h + 6, seg.unicode_len());
                let q = find_char(after, '"', 0);
                if q < after.unicode_len() {
                    let href = after.substring_char(0, q);
                    let mut url_opt: Option<String> = None;
                    if starts_with_sub(href, "//") {
                        let mut u = String::from_str("https:");
                        u.append(href);
                        proof {
                            reveal_strlit("http");
                            reveal_strlit("https:");
                            assert(u@.subrange(0, 4) =~= "http"@);
                            assert(is_match_at(u@, "http"@, 0));
                        }
                        url_opt = Some(u);
                    } else if starts_with_sub(href, "http") {
                        url_opt = Some(String::from_str(href));
                    }
                    match url_opt {
                        Some(url) => {
                            if !contains_sub(url.as_str(), "duckduckgo.com") && !seen_contains(
                                &seen,
                                url.as_str(),
                            ) {
                                push_result(&mut results, &mut seen, url, "Search result");
                            }
                        },
                        None => {},
                    }
                }
            },
            None => {},
        }
        if seg_end >= hlen {
            break;
        }
        pos2 = seg_end + 11;
    }

    // Third pass: bare addresses.
    let mut pos3: usize = 0;
    loop
        invariant_except_break
            pos3 <= hlen,
            hlen == html@.len(),
            results_wf(results.deep_view(), seen.deep_view()),
            results.deep_view().len() <= max_results,
        ensures
            results_wf(results.deep_view(), seen.deep_view()),
            results.deep_view().len() <= max_results,
        decreases hlen + 1 - pos3,
    {
        if results.len() >= max_results {
            break;
        }
        proof {
            reveal_strlit("https://");
            assert("https://"@.len() == 8);
        }
        let seg_end = match find_sub_from(html, "https://", pos3) {
            Some(m) => m,
            None => hlen,
        };
        let seg = html.substring_char(pos3, seg_end);
        let term = find_term_char(seg);
        if term < seg.unicode_len() {
            let domain_path = seg.substring_char(0, term);
            let keep = !starts_with_sub(domain_path, "duckduckgo") && !starts_with_sub(
                domain_path,
                "improving.duckduckgo",
            ) && !contains_sub(domain_path, "cdn.") && !contains_sub(domain_path, ".js")
                && !contains_sub(domain_path, ".css") && !contains_sub(domain_path, ".png")
                && !contains_sub(domain_path, ".ico") && contains_sub(domain_path, ".")
                && domain_path.as_bytes().len() > 5;
            if keep {
                let mut u = String::from_str("https://");
                u.append(domain_path);
                proof {
                    reveal_strlit("http");
                    reveal_strlit("https://");
                    assert(u@.subrange(0, 4) =~= "http"@);
                    assert(is_match_at(u@, "http"@, 0));
                }
                if !seen_contains(&seen, u.as_str()) {
                    push_result(&mut results, &mut seen, u, "Search result");
                }
            }
        }
        if seg_end >= hlen {
            break;
        }
        pos3 = seg_end + 8;
    }

    results
}

/// Has this address been taken already?
fn seen_contains(seen: &Vec<String>, url: &str) -> (r: bool)
    ensures
        r == seen.deep_view().contains(url@),
{
    let n = seen.len();
    let mut i: usize = 0;
    while i < n
        invariant
            i <= n,
            n == seen@.len(),
            forall|j: int| 0 <= j < i ==> seen.deep_view()[j] != url@,
        decreases n - i,
    {
        if str_eq(seen[i].as_str(), url) {
            proof {
                assert(seen.deep_view()[i as int] == url@);
            }
            return true;
        }
        i = i + 1;
    }
    proof {
        assert(!seen.deep_view().contains(url@));
    }
    false
}

} // verus!
