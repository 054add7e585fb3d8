use news_getter::numeral::{decimal_string, write_decimal};
use news_getter::request::{
    page_request, parameter, search_results_request, top_headlines_request, Parameter,
    HEADLINES_URL, SEARCH_URL, USER_AGENT,
};

fn pairs(query: &[Parameter]) -> Vec<(String, String)> {
    query.iter().map(|p| (p.name.clone(), p.value.clone())).collect()
}

fn pair(name: &str, value: &str) -> (String, String) {
    (name.to_string(), value.to_string())
}

#[test]
fn decimal_numerals() {
    assert_eq!(decimal_string(0), "0");
    assert_eq!(decimal_string(7), "7");
    assert_eq!(decimal_string(9), "9");
    assert_eq!(decimal_string(10), "10");
    assert_eq!(decimal_string(100), "100");
    assert_eq!(decimal_string(1234567890), "1234567890");
    assert_eq!(decimal_string(usize::MAX), usize::MAX.to_string());
}

#[test]
fn decimal_numerals_agree_with_the_standard_library() {
    let mut n: usize = 1;
    for _ in 0..19 {
        assert_eq!(decimal_string(n), n.to_string());
        assert_eq!(decimal_string(n - 1), (n - 1).to_string());
        n = n.saturating_mul(10);
    }
}

#[test]
fn write_decimal_appends() {
    let mut out = String::from("n=");
    write_decimal(42, &mut out);
    write_decimal(0, &mut out);
    assert_eq!(out, "n=420");
}

#[test]
fn headlines_request_carries_country_page_size_and_key() {
    let request = top_headlines_request("KEY", 100);
    assert_eq!(request.url, "https://newsapi.org/v2/top-headlines");
    assert_eq!(
        request.user_agent,
        "Mozilla/5.0 (Windows NT 10.0; Win64; x64; rv:90.0) Gecko/20100101 Firefox/90.0"
    );
    assert_eq!(
        pairs(&request.query),
        vec![pair("country", "us"), pair("pageSize", "100"), pair("apiKey", "KEY")]
    );
}

#[test]
fn search_request_carries_term_page_size_and_key() {
    let request = search_results_request("KEY", 25, "rust lang");
    assert_eq!(request.url, "https://newsapi.org/v2/everything");
    assert_eq!(request.user_agent, USER_AGENT);
    assert_eq!(
        pairs(&request.query),
        vec![pair("q", "rust lang"), pair("pageSize", "25"), pair("apiKey", "KEY")]
    );
}

#[test]
fn limit_zero_is_sent_as_page_size_zero() {
    let headlines = top_headlines_request("K", 0);
    assert_eq!(pairs(&headlines.query)[1], pair("pageSize", "0"));
    let search = search_results_request("K", 0, "x");
    assert_eq!(pairs(&search.query)[1], pair("pageSize", "0"));
}

#[test]
fn the_two_endpoints_differ() {
    assert_ne!(HEADLINES_URL, SEARCH_URL);
}

#[test]
fn page_request_announces_the_download() {
    let request = page_request("https://example.org/a?b=c");
    assert_eq!(request.url, "https://example.org/a?b=c");
    assert_eq!(request.user_agent, USER_AGENT);
    assert_eq!(request.notice, "Downloading https://example.org/a?b=c");
}

#[test]
fn parameter_copies_name_and_value() {
    let p = parameter("name", "value");
    assert_eq!(p, Parameter { name: "name".to_string(), value: "value".to_string() });
}
