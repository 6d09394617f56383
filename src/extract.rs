use vstd::prelude::*;
use crate::error::ExtractError;
use crate::text::{blocks_view, flatten_text, flattened};

verus! {

#[verifier::external_type_specification]
#[verifier::external_body]
pub struct ExUrl(url::Url);

#[verifier::external_type_specification]
#[verifier::external_body]
pub struct ExUrlParseError(url::ParseError);

#[verifier::external_type_specification]
#[verifier::external_body]
pub struct ExReadabilityError(readability::error::Error);

/// Whether `url::Url::parse` accepts the string as an absolute URL.
pub uninterp spec fn parses_as_url(s: Seq<char>) -> bool;

/// The HTML of the main-content region that `readability::extractor::extract`
/// isolates in a page, resolving links against the base URL written as
/// `base`; `None` where it reports an error.
pub uninterp spec fn readable_content(html: Seq<char>, base: Seq<char>) -> Option<Seq<char>>;

/// For each element of the document parsed by `scraper::Html::parse_document`
/// that the CSS selector matches, in document order, its descendant text nodes;
/// `None` where `scraper::Selector::parse` rejects the selector.
pub uninterp spec fn selected_text_blocks(html: Seq<char>, selector: Seq<char>) -> Option<
    Seq<Seq<Seq<char>>>,
>;

/// Relies on `url::Url::parse`: it succeeds exactly on the strings it accepts.
#[verifier::external_body]
fn parse_url(s: &str) -> (r: Result<url::Url, url::ParseError>)
    ensures
        r is Ok <==> parses_as_url(s@),
{
    url::Url::parse(s)
}

/// Relies on `readability::extractor::extract`, run over the bytes of `html`
/// with the parsed base URL, of which only the `content` field is kept.
#[verifier::external_body]
fn extract_article(html: &str, base: &RequestUrl) -> (r: Result<String, readability::error::Error>)
    ensures
        match r {
            Ok(c) => readable_content(html@, base@) == Some(c@),
            Err(_) => readable_content(html@, base@) is None,
        },
{
    let mut input = html.as_bytes();
    readability::extractor::extract(&mut input, &base.url).map(|p| p.content)
}

/// Relies on `scraper::Html::parse_document`, `scraper::Selector::parse`,
/// `scraper::Html::select` and `scraper::ElementRef::text`: the text nodes of
/// each matched element, or `None` for a rejected selector.
#[verifier::external_body]
fn select_text_blocks(html: &str, selector: &str) -> (r: Option<Vec<Vec<String>>>)
    ensures
        match r {
            Some(b) => selected_text_blocks(html@, selector@) == Some(blocks_view(b@)),
            None => selected_text_blocks(html@, selector@) is None,
        },
{
    let document = scraper::Html::parse_document(html);
    let selector = scraper::Selector::parse(selector).ok()?;
    Some(document.select(&selector).map(|e| e.text().map(String::from).collect()).collect())
}

/// A request URL that parses as an absolute URL, kept both as written and
/// parsed.
pub struct RequestUrl {
    text: String,
    url: url::Url,
}

impl View for RequestUrl {
    type V = Seq<char>;

    /// The URL as the caller wrote it.
    closed spec fn view(&self) -> Seq<char> {
        self.text@
    }
}

impl RequestUrl {
    /// The URL as the caller wrote it.
    pub fn as_str(&self) -> (r: &str)
        ensures
            r@ == self@,
    {
        self.text.as_str()
    }
}

/// The selector of the region whose text is kept: the document body.
pub open spec fn content_root() -> Seq<char> {
    seq!['b', 'o', 'd', 'y']
}

/// The plain text of an HTML fragment: the body's text nodes joined by single
/// spaces; `None` where the body selection cannot be made.
pub open spec fn fragment_text(fragment: Seq<char>) -> Option<Seq<char>> {
    match selected_text_blocks(fragment, content_root()) {
        Some(b) => Some(flattened(b)),
        None => None,
    }
}

/// The plain text of a fetched page: the text of its main-content region;
/// `None` where no region can be isolated or its text cannot be selected.
pub open spec fn page_text(html: Seq<char>, base: Seq<char>) -> Option<Seq<char>> {
    match readable_content(html, base) {
        Some(c) => fragment_text(c),
        None => None,
    }
}

/// What the network step produced for a request.
pub enum Fetched {
    /// The response body, read as text.
    Body(String),
    /// The host could not be reached or the response not received; the cause.
    Unreachable(String),
    /// The body could not be read as text; the cause.
    Undecodable(String),
}

/// Checks a request URL before any network access.
pub fn prepare_request(url: &str) -> (r: Result<RequestUrl, ExtractError>)
    ensures
        r is Ok <==> parses_as_url(url@),
        r matches Ok(req) ==> req@ == url@,
        r matches Err(e) ==> e is InvalidUrl,
{
    match parse_url(url) {
        Ok(parsed) => Ok(RequestUrl { text: url.to_string(), url: parsed }),
        Err(e) => Err(ExtractError::InvalidUrl(e.to_string())),
    }
}

/// The plain text of an HTML fragment: the text nodes of its body, joined by
/// single spaces. A fragment without text gives the empty string.
pub fn text_of_fragment(fragment: &str) -> (r: Result<String, ExtractError>)
    ensures
        match fragment_text(fragment@) {
            Some(t) => r is Ok && r->Ok_0@ == t,
            None => r is Err && r->Err_0 is ExtractionFailed,
        },
        selected_text_blocks(fragment@, content_root()) == Some(Seq::<Seq<Seq<char>>>::empty())
            ==> r is Ok && r->Ok_0@.len() == 0,
{
    proof {
        reveal_strlit("body");
        assert("body"@ =~= content_root());
        assert(flattened(Seq::empty()) == Seq::<char>::empty());
    }
    match select_text_blocks(fragment, "body") {
        Some(blocks) => Ok(flatten_text(&blocks)),
        None => Err(ExtractError::ExtractionFailed("the page body could not be selected".to_string())),
    }
}

/// What cleaning a page for a request returns: its plain text where there is
/// one, else an extraction failure.
pub open spec fn cleaned(html: Seq<char>, base: Seq<char>, r: Result<String, ExtractError>) -> bool {
    match page_text(html, base) {
        Some(t) => r is Ok && r->Ok_0@ == t,
        None => r is Err && r->Err_0 is ExtractionFailed,
    }
}

/// Cleaning one unchanging page for one request is repeatable: two runs
/// either both fail or both give the very same text.
pub proof fn lemma_clean_repeatable(
    html: Seq<char>,
    base: Seq<char>,
    first: Result<String, ExtractError>,
    second: Result<String, ExtractError>,
)
    requires
        cleaned(html, base, first),
        cleaned(html, base, second),
    ensures
        first is Ok <==> second is Ok,
        first is Ok ==> first->Ok_0@ == second->Ok_0@,
{
}

/// Extracts the main content of a fetched page and flattens it to plain text.
pub fn clean_page(html: &str, request: &RequestUrl) -> (r: Result<String, ExtractError>)
    ensures
        cleaned(html@, request@, r),
        readable_content(html@, request@) is None ==> r is Err && r->Err_0 is ExtractionFailed,
{
    match extract_article(html, request) {
        Ok(content) => text_of_fragment(content.as_str()),
        Err(e) => Err(ExtractError::ExtractionFailed(e.to_string())),
    }
}

/// Finishes a request once the network step is done: a transport or decoding
/// failure is reported with its cause, a body is cleaned to plain text.
pub fn clean_content(request: &RequestUrl, fetched: Fetched) -> (r: Result<String, ExtractError>)
    ensures
        match fetched {
            Fetched::Unreachable(cause) => r == Err::<String, ExtractError>(
                ExtractError::FetchFailed(cause),
            ),
            Fetched::Undecodable(cause) => r == Err::<String, ExtractError>(
                ExtractError::DecodeFailed(cause),
            ),
            Fetched::Body(html) => cleaned(html@, request@, r),
        },
{
    match fetched {
        Fetched::Unreachable(cause) => Err(ExtractError::FetchFailed(cause)),
        Fetched::Undecodable(cause) => Err(ExtractError::DecodeFailed(cause)),
        Fetched::Body(html) => clean_page(html.as_str(), request),
    }
}

} // verus!
