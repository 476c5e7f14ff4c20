//! Around the search for a source: what a user's request asks for, the text
//! that is handed to the search tool, and the reading of what it prints.

use crate::error::{ParakeetError, UserError};
use crate::text::{decimal, push_decimal, same_text, texts_of};
use vstd::prelude::*;
use vstd::string::*;

verus! {

/// What `url::Url::parse` makes of a text, as far as a request is judged by
/// it: `None` where the text is no absolute URL; else the URL's domain, which
/// is `None` where its host is an address or it has no host.
pub uninterp spec fn parsed_domain(input: Seq<char>) -> Option<Option<Seq<char>>>;

/// Parses `input` with `url::Url::parse` and reads the result's
/// `Url::domain`. Both depend on the text alone. Nothing is claimed of
/// which texts are URLs or what their domains are.
#[verifier::external_body]
fn parse_domain(input: &str) -> (parsed: Option<Option<String>>)
    ensures
        parsed.deep_view() == parsed_domain(input@),
{
    match url::Url::parse(input) {
        Ok(parsed) => Some(
            match parsed.domain() {
                Some(domain) => Some(domain.to_owned()),
                None => None,
            },
        ),
        Err(_) => None,
    }
}

/// The kinds of request.
#[derive(Clone, Copy, Debug, PartialEq, Eq, Structural)]
pub enum QueryKind {
    /// A link to a video on the video platform.
    YoutubeURL,
    /// Words to search the video platform for.
    YoutubeSearch,
    /// A link to somewhere else, which may or may not work.
    Other,
    /// A link to a platform that is not supported.
    Unsupported,
}

/// Types of queries that are derived from user
#[derive(Debug, PartialEq)]
pub enum Query {
    /// A fully qualified url to a youtube video
    YoutubeURL(String),
    /// A string query for a youtube search
    YoutubeSearch(String),
    /// A fully qualified url to something other than youtube, might not work
    Other(String),
    /// Explicitly marked as not supported
    Unsupported,
}

/// The kind of a request, from what the URL parser made of it: words that
/// are no URL are a search; a URL is judged by its domain.
pub open spec fn query_kind(parsed: Option<Option<Seq<char>>>) -> QueryKind {
    match parsed {
        None => QueryKind::YoutubeSearch,
        Some(None) => QueryKind::Other,
        Some(Some(domain)) => if domain == "www.youtube.com"@ || domain == "www.youtu.be"@ {
            QueryKind::YoutubeURL
        } else if domain == "open.spotify.com"@ || domain == "spotify.com"@ {
            QueryKind::Unsupported
        } else {
            QueryKind::Other
        },
    }
}

impl Query {
    /// The kind of the request.
    pub open spec fn kind(self) -> QueryKind {
        match self {
            Query::YoutubeURL(_) => QueryKind::YoutubeURL,
            Query::YoutubeSearch(_) => QueryKind::YoutubeSearch,
            Query::Other(_) => QueryKind::Other,
            Query::Unsupported => QueryKind::Unsupported,
        }
    }

    /// The text that the request carries: none for an unsupported one.
    pub open spec fn text(self) -> Seq<char> {
        match self {
            Query::YoutubeURL(text) => text@,
            Query::YoutubeSearch(text) => text@,
            Query::Other(text) => text@,
            Query::Unsupported => Seq::empty(),
        }
    }

    /// Sorts the request `input`, given what the URL parser made of it.
    pub fn classify(input: &str, parsed: Option<Option<String>>) -> (query: Query)
        ensures
            query.kind() == query_kind(parsed.deep_view()),
            query.kind() != QueryKind::Unsupported ==> query.text() == input@,
    {
        match parsed {
            None => Query::YoutubeSearch(input.to_owned()),
            Some(None) => Query::Other(input.to_owned()),
            Some(Some(domain)) => {
                if same_text(domain.as_str(), "www.youtube.com") || same_text(
                    domain.as_str(),
                    "www.youtu.be",
                ) {
                    Query::YoutubeURL(input.to_owned())
                } else if same_text(domain.as_str(), "open.spotify.com") || same_text(
                    domain.as_str(),
                    "spotify.com",
                ) {
                    Query::Unsupported
                } else {
                    Query::Other(input.to_owned())
                }
            },
        }
    }

    /// Reads a request. Every text is one: this never fails.
    pub fn from_str(input: &str) -> (query: Result<Query, ParakeetError>)
        ensures
            query is Ok,
            query->Ok_0.kind() == query_kind(parsed_domain(input@)),
            query->Ok_0.kind() != QueryKind::Unsupported ==> query->Ok_0.text() == input@,
    {
        Ok(Query::classify(input, parse_domain(input)))
    }

    /// The address to play for the request, where it names one itself; a
    /// search has to be run first, and an unsupported platform is refused.
    pub fn direct_url(&self) -> (url: Result<Option<&String>, UserError>)
        ensures
            self.kind() == QueryKind::Unsupported ==> url == Err::<Option<&String>, UserError>(
                UserError::UnsupportedPlatform,
            ),
            self.kind() == QueryKind::YoutubeSearch ==> url == Ok::<Option<&String>, UserError>(
                None,
            ),
            self.kind() == QueryKind::YoutubeURL || self.kind() == QueryKind::Other ==> url is Ok
                && url->Ok_0 is Some && url->Ok_0->0@ == self.text(),
    {
        match self {
            Query::YoutubeURL(url) => Ok(Some(url)),
            Query::Other(url) => Ok(Some(url)),
            Query::YoutubeSearch(_) => Ok(None),
            Query::Unsupported => Err(UserError::UnsupportedPlatform),
        }
    }
}

/// A youtube video with formatted metadata and its url.
#[derive(Debug, PartialEq)]
pub struct SearchResult {
    /// Display name
    pub name: String,
    /// The url of source
    pub url: String,
}

/// The text that asks the search tool for up to `limit` results for `query`.
pub open spec fn search_uri_text(query: Seq<char>, limit: nat) -> Seq<char> {
    "ytsearch"@ + decimal(limit) + seq![':'] + query
}

/// The text that asks the search tool for up to `limit` results for `query`.
pub fn search_uri(query: &str, limit: u8) -> (uri: String)
    ensures
        uri@ == search_uri_text(query@, limit as nat),
{
    let mut uri = "ytsearch".to_owned();
    push_decimal(&mut uri, limit as u64);
    uri.push(':');
    uri.append(query);
    uri
}

/// The lines of `text`: the pieces between its line breaks, so one more
/// than it has line breaks.
pub open spec fn lines_of(text: Seq<char>) -> Seq<Seq<char>>
    decreases text.len(),
{
    if text.len() == 0 {
        seq![Seq::empty()]
    } else {
        let before = lines_of(text.drop_last());
        if text.last() == '\n' {
            before.push(Seq::empty())
        } else {
            before.update(before.len() - 1, before.last().push(text.last()))
        }
    }
}

/// Cuts `text` at its line breaks.
pub fn split_lines(text: &str) -> (lines: Vec<String>)
    ensures
        texts_of(lines@) == lines_of(text@),
{
    broadcast use vstd::string::group_string_axioms;

    let mut lines: Vec<String> = Vec::new();
    let mut current = String::new();
    for c in it: text.chars()
        invariant
            it.seq() == text@,
            texts_of(lines@).push(current@) == lines_of(text@.take(it.index() as int)),
    {
        let ghost seen = text@.take(it.index() as int);
        let ghost next = text@.take(it.index() + 1);
        assert(next.drop_last() =~= seen);
        if c == '\n' {
            lines.push(current);
            current = String::new();
        } else {
            current.push(c);
        }
    }
    assert(text@.take(text@.len() as int) =~= text@);
    lines.push(current);
    lines
}

/// The results that `lines` hold: each pair of lines is one result, its
/// name on the first and its address on the second. A last line without a
/// partner is left out.
pub open spec fn paired(lines: Seq<Seq<char>>) -> Seq<(Seq<char>, Seq<char>)> {
    Seq::new(lines.len() / 2, |i: int| (lines[2 * i], lines[2 * i + 1]))
}

/// The names and addresses of `results`.
pub open spec fn results_view(results: Seq<SearchResult>) -> Seq<(Seq<char>, Seq<char>)> {
    Seq::new(results.len(), |i: int| (results[i].name@, results[i].url@))
}

/// Reads what the search tool printed: for each result a line with its
/// name and a line with its address.
pub fn parse_results(output: &str) -> (results: Vec<SearchResult>)
    ensures
        results_view(results@) == paired(lines_of(output@)),
{
    let lines = split_lines(output);
    let mut results: Vec<SearchResult> = Vec::new();
    let mut index: usize = 0;
    while index + 1 < lines.len()
        invariant
            index % 2 == 0,
            index <= lines.len(),
            results.len() == index / 2,
            forall|i: int|
                0 <= i < results.len() ==> #[trigger] results@[i].name@ == lines@[2 * i]@
                    && results@[i].url@ == lines@[2 * i + 1]@,
        decreases lines.len() - index,
    {
        let name = lines[index].clone();
        let url = lines[index + 1].clone();
        results.push(SearchResult { name, url });
        index = index + 2;
    }
    results
}

/// The first of `results`. A search without results has failed, for the
/// reason that `reason` gives.
pub fn first_result(results: Vec<SearchResult>, reason: &str) -> (best: Result<
    SearchResult,
    UserError,
>)
    ensures
        results@.len() > 0 ==> best is Ok && best->Ok_0.name@ == results@[0].name@
            && best->Ok_0.url@ == results@[0].url@,
        results@.len() == 0 ==> best is Err && best->Err_0 is SearchFailed
            && best->Err_0->SearchFailed_reason@ == reason@,
{
    if results.len() > 0 {
        Ok(SearchResult { name: results[0].name.clone(), url: results[0].url.clone() })
    } else {
        Err(UserError::SearchFailed { reason: reason.to_owned() })
    }
}

/// The best result of a search by words: the first one. A search without
/// results has failed.
pub fn search_best(results: Vec<SearchResult>) -> (best: Result<SearchResult, UserError>)
    ensures
        results@.len() > 0 ==> best is Ok && best->Ok_0.name@ == results@[0].name@
            && best->Ok_0.url@ == results@[0].url@,
        results@.len() == 0 ==> best is Err && best->Err_0 is SearchFailed
            && best->Err_0->SearchFailed_reason@ == "No results found."@,
{
    first_result(results, "No results found.")
}

/// The result of a search by link: the first one. A search without results
/// has failed.
pub fn search_link(results: Vec<SearchResult>) -> (found: Result<SearchResult, UserError>)
    ensures
        results@.len() > 0 ==> found is Ok && found->Ok_0.name@ == results@[0].name@
            && found->Ok_0.url@ == results@[0].url@,
        results@.len() == 0 ==> found is Err && found->Err_0 is SearchFailed
            && found->Err_0->SearchFailed_reason@ == "No results found"@,
{
    first_result(results, "No results found")
}

} // verus!
