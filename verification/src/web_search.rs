//! The web search: what is asked of the search service and what is kept of
//! its answer.

use crate::chars::{digits, push_digits};
use crate::trusted::{percent_encoded, url_encode};
use vstd::prelude::*;
use vstd::utf8::encode_utf8;

verus! {

/// One result of a web search.
#[derive(Debug, Clone)]
pub struct WebSearchResult {
    pub title: String,
    pub url: String,
    pub description: String,
    pub age: Option<String>,
}

/// The mathematical form of a `WebSearchResult`.
pub ghost struct WebSearchResultView {
    pub title: Seq<char>,
    pub url: Seq<char>,
    pub description: Seq<char>,
    pub age: Option<Seq<char>>,
}

impl View for WebSearchResult {
    type V = WebSearchResultView;

    open spec fn view(&self) -> WebSearchResultView {
        WebSearchResultView {
            title: self.title@,
            url: self.url@,
            description: self.description@,
            age: self.age.deep_view(),
        }
    }
}

/// The results of a web search for a query, and their number.
#[derive(Debug, Clone)]
pub struct WebSearchResponse {
    pub query: String,
    pub results: Vec<WebSearchResult>,
    pub count: usize,
}

/// What the search service says of one result: each part may be absent.
#[derive(Debug, Clone)]
pub struct WebSearchHit {
    pub title: Option<String>,
    pub url: Option<String>,
    pub description: Option<String>,
    pub age: Option<String>,
}

/// How many results are asked for where no number is given.
pub const DEFAULT_RESULT_COUNT: u32 = 10;

/// How many results may be asked for at most.
pub const MAX_RESULT_COUNT: u32 = 20;

/// The number of results to ask for: ten unless a number is given, and never
/// more than twenty.
pub open spec fn result_count(count: Option<u32>) -> u32 {
    let wanted = match count {
        Some(n) => n,
        None => DEFAULT_RESULT_COUNT,
    };
    if wanted < MAX_RESULT_COUNT {
        wanted
    } else {
        MAX_RESULT_COUNT
    }
}

/// The results among the first `n` answers that have a title and a URL; a
/// description that is absent reads as empty.
pub open spec fn results_of(hits: Seq<WebSearchHit>, n: nat) -> Seq<WebSearchResultView>
    decreases n,
{
    if n == 0 {
        Seq::empty()
    } else {
        let before = results_of(hits, (n - 1) as nat);
        let hit = hits[n - 1];
        if hit.title is Some && hit.url is Some {
            before.push(
                WebSearchResultView {
                    title: hit.title->0@,
                    url: hit.url->0@,
                    description: match hit.description {
                        Some(d) => d@,
                        None => Seq::empty(),
                    },
                    age: hit.age.deep_view(),
                },
            )
        } else {
            before
        }
    }
}

/// The views of a vector of results.
pub open spec fn result_views(results: Seq<WebSearchResult>) -> Seq<WebSearchResultView> {
    Seq::new(results.len(), |i: int| results[i]@)
}

/// The key of the search service, where one is configured and not empty.
pub fn search_key(configured: &Option<String>) -> (r: Option<String>)
    ensures
        r.deep_view() == match configured {
            Some(key) => if key@.len() > 0 {
                Some(key@)
            } else {
                None
            },
            None => None,
        },
{
    match configured {
        Some(key) => if key.as_str().unicode_len() > 0 {
            Some(key.clone())
        } else {
            None
        },
        None => None,
    }
}

/// The number of results to ask for.
pub fn search_count(count: Option<u32>) -> (r: u32)
    ensures
        r == result_count(count),
{
    let wanted = match count {
        Some(n) => n,
        None => DEFAULT_RESULT_COUNT,
    };
    if wanted < MAX_RESULT_COUNT {
        wanted
    } else {
        MAX_RESULT_COUNT
    }
}

/// The URL that a search is asked of: the query percent-encoded, and the
/// number of results.
pub fn search_url(query: &str, count: Option<u32>) -> (r: String)
    ensures
        r@ == "https://api.search.brave.com/res/v1/web/search?q="@ + percent_encoded(
            encode_utf8(query@),
            encode_utf8(query@).len(),
        ) + "&count="@ + digits(result_count(count) as nat),
{
    let mut r = String::from_str("https://api.search.brave.com/res/v1/web/search?q=");
    r.append(url_encode(query).as_str());
    r.append("&count=");
    push_digits(&mut r, search_count(count) as u64);
    r
}

/// What is kept of the answer of the search service.
pub fn search_response(query: String, hits: &Vec<WebSearchHit>) -> (r: WebSearchResponse)
    ensures
        r.query == query,
        result_views(r.results@) == results_of(hits@, hits@.len()),
        r.count == r.results@.len(),
{
    let mut results: Vec<WebSearchResult> = Vec::new();
    let mut i: usize = 0;
    assert(result_views(results@) =~= results_of(hits@, 0));
    while i < hits.len()
        invariant
            i <= hits@.len(),
            result_views(results@) == results_of(hits@, i as nat),
        decreases hits.len() - i,
    {
        let ghost before = result_views(results@);
        let hit = &hits[i];
        match (&hit.title, &hit.url) {
            (Some(title), Some(url)) => {
                let result = WebSearchResult {
                    title: title.clone(),
                    url: url.clone(),
                    description: match &hit.description {
                        Some(d) => d.clone(),
                        None => String::new(),
                    },
                    age: match &hit.age {
                        Some(a) => Some(a.clone()),
                        None => None,
                    },
                };
                results.push(result);
                assert(result_views(results@) =~= before.push(result@));
            },
            _ => {},
        }
        i = i + 1;
    }
    let count = results.len();
    WebSearchResponse { query, results, count }
}

} // verus!
