//! The requests that a run sends: one to the news service, one per article page.

use crate::numeral::{decimal, decimal_string};
use vstd::prelude::*;
use vstd::string::StringExecFns;

verus! {

/// The browser that every request claims to come from.
pub const USER_AGENT: &'static str =
    "Mozilla/5.0 (Windows NT 10.0; Win64; x64; rv:90.0) Gecko/20100101 Firefox/90.0";

/// The endpoint that lists the top headlines.
pub const HEADLINES_URL: &'static str = "https://newsapi.org/v2/top-headlines";

/// The endpoint that searches all articles by keyword.
pub const SEARCH_URL: &'static str = "https://newsapi.org/v2/everything";

/// The country whose headlines are listed.
pub const HEADLINES_COUNTRY: &'static str = "us";

/// What announces a download on the progress channel, before the address.
pub const DOWNLOADING: &'static str = "Downloading ";

/// One query parameter of a request.
#[derive(Clone, Debug, PartialEq, Eq)]
pub struct Parameter {
    pub name: String,
    pub value: String,
}

impl View for Parameter {
    type V = (Seq<char>, Seq<char>);

    open spec fn view(&self) -> (Seq<char>, Seq<char>) {
        (self.name@, self.value@)
    }
}

impl DeepView for Parameter {
    type V = (Seq<char>, Seq<char>);

    open spec fn deep_view(&self) -> (Seq<char>, Seq<char>) {
        self@
    }
}

/// A GET request to the news service: the endpoint, the user agent header
/// and the query parameters in the order in which they are sent.
#[derive(Clone, Debug, PartialEq, Eq)]
pub struct ApiRequest {
    pub url: String,
    pub user_agent: String,
    pub query: Vec<Parameter>,
}

/// A request to the news service as plain text values.
pub struct ApiRequestView {
    pub url: Seq<char>,
    pub user_agent: Seq<char>,
    pub query: Seq<(Seq<char>, Seq<char>)>,
}

impl View for ApiRequest {
    type V = ApiRequestView;

    open spec fn view(&self) -> ApiRequestView {
        ApiRequestView {
            url: self.url@,
            user_agent: self.user_agent@,
            query: self.query.deep_view(),
        }
    }
}

/// A GET request for the page of one article, with the line that announces
/// it on the progress channel.
#[derive(Clone, Debug, PartialEq, Eq)]
pub struct PageRequest {
    pub url: String,
    pub user_agent: String,
    pub notice: String,
}

/// A page request as plain text values.
pub struct PageRequestView {
    pub url: Seq<char>,
    pub user_agent: Seq<char>,
    pub notice: Seq<char>,
}

impl View for PageRequest {
    type V = PageRequestView;

    open spec fn view(&self) -> PageRequestView {
        PageRequestView { url: self.url@, user_agent: self.user_agent@, notice: self.notice@ }
    }
}

/// The request for the top headlines: the country, the page size as a
/// decimal numeral, and the key, in this order.
pub open spec fn top_headlines(api_key: Seq<char>, limit: nat) -> ApiRequestView {
    ApiRequestView {
        url: HEADLINES_URL@,
        user_agent: USER_AGENT@,
        query: seq![
            ("country"@, HEADLINES_COUNTRY@),
            ("pageSize"@, decimal(limit)),
            ("apiKey"@, api_key),
        ],
    }
}

/// The request for the articles that match `query`: the search term, the
/// page size as a decimal numeral, and the key, in this order.
pub open spec fn search_results(api_key: Seq<char>, limit: nat, query: Seq<char>) -> ApiRequestView {
    ApiRequestView {
        url: SEARCH_URL@,
        user_agent: USER_AGENT@,
        query: seq![("q"@, query), ("pageSize"@, decimal(limit)), ("apiKey"@, api_key)],
    }
}

/// The request for the page at `url`, announced as a download of that address.
pub open spec fn page_at(url: Seq<char>) -> PageRequestView {
    PageRequestView { url, user_agent: USER_AGENT@, notice: DOWNLOADING@ + url }
}

/// A query parameter with copies of the given name and value.
pub fn parameter(name: &str, value: &str) -> (p: Parameter)
    ensures
        p@ == (name@, value@),
{
    Parameter { name: String::from_str(name), value: String::from_str(value) }
}

/// Builds the request for the top headlines of the fixed country, at most
/// `limit` of them, under the key `api_key`.
pub fn top_headlines_request(api_key: &str, limit: usize) -> (request: ApiRequest)
    ensures
        request@ == top_headlines(api_key@, limit as nat),
{
    let size = decimal_string(limit);
    let mut query: Vec<Parameter> = Vec::new();
    query.push(parameter("country", HEADLINES_COUNTRY));
    query.push(parameter("pageSize", size.as_str()));
    query.push(parameter("apiKey", api_key));
    let request = ApiRequest {
        url: String::from_str(HEADLINES_URL),
        user_agent: String::from_str(USER_AGENT),
        query,
    };
    assert(request@.query =~= top_headlines(api_key@, limit as nat).query);
    request
}

/// Builds the request for the articles that match `query`, at most `limit`
/// of them, under the key `api_key`.
pub fn search_results_request(api_key: &str, limit: usize, query: &str) -> (request: ApiRequest)
    ensures
        request@ == search_results(api_key@, limit as nat, query@),
{
    let size = decimal_string(limit);
    let mut parameters: Vec<Parameter> = Vec::new();
    parameters.push(parameter("q", query));
    parameters.push(parameter("pageSize", size.as_str()));
    parameters.push(parameter("apiKey", api_key));
    let request = ApiRequest {
        url: String::from_str(SEARCH_URL),
        user_agent: String::from_str(USER_AGENT),
        query: parameters,
    };
    assert(request@.query =~= search_results(api_key@, limit as nat, query@).query);
    request
}

/// Builds the request for the page of an article at `url`.
pub fn page_request(url: &str) -> (request: PageRequest)
    ensures
        request@ == page_at(url@),
{
    let mut notice = String::from_str(DOWNLOADING);
    notice.append(url);
    PageRequest {
        url: String::from_str(url),
        user_agent: String::from_str(USER_AGENT),
        notice,
    }
}

} // verus!
