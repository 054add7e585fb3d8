use news_getter::article::{ApiResponse, Article};
use news_getter::request::{HEADLINES_URL, SEARCH_URL};
use news_getter::run::{
    api_request, listing_lines, Action, Config, ErrorKind, Event, Phase, Run, DEFAULT_LIMIT,
    DEFAULT_OUTPUT_DIR, DEFAULT_SEARCH,
};

fn config(search: &str, limit: usize, list_results: bool) -> Config {
    Config {
        api_key: "KEY".to_string(),
        search: search.to_string(),
        limit,
        list_results,
    }
}

fn article(title: &str, url: &str) -> Article {
    Article::new(title.to_string(), url.to_string())
}

fn two_articles() -> Vec<Article> {
    vec![
        article("First Story", "https://example.org/1"),
        article("Second Story", "https://example.org/2"),
    ]
}

/// Feeds the events in order and gathers the first action and the action
/// that each event brings; stops where an event brings none.
fn drive(config: Config, events: Vec<Event>) -> (Run, Vec<Action>) {
    let (mut run, first) = Run::start(config);
    let mut actions = vec![first];
    for event in events {
        assert!(event.is_workable());
        let (after, action) = run.step(event);
        run = after;
        match action {
            Some(action) => actions.push(action),
            None => break,
        }
    }
    (run, actions)
}

fn url_of(action: &Action) -> String {
    match action {
        Action::CallApi(request) => request.url.clone(),
        Action::FetchBody(request) => request.url.clone(),
        other => panic!("no request in {:?}", other),
    }
}

#[test]
fn defaults_of_a_configuration() {
    let config = Config::new("KEY".to_string());
    assert_eq!(config.api_key, "KEY");
    assert_eq!(config.search, "");
    assert_eq!(config.limit, 100);
    assert!(!config.list_results);
    assert_eq!(DEFAULT_LIMIT, 100);
    assert_eq!(DEFAULT_SEARCH, "");
    assert_eq!(DEFAULT_OUTPUT_DIR, "./");
}

#[test]
fn a_run_begins_by_checking_the_output_directory() {
    let (run, first) = Run::start(config("", 100, false));
    assert_eq!(first, Action::CheckOutputDir);
    assert_eq!(run.phase(), Phase::CheckingOutputDir);
    assert!(!run.is_over());
    assert!(run.articles().is_empty());
    assert_eq!(run.completed(), 0);
}

#[test]
fn empty_search_asks_for_the_headlines() {
    let request = api_request(&config("", 100, false));
    assert_eq!(request.url, HEADLINES_URL);
    let (_, actions) = drive(config("", 100, false), vec![Event::OutputDirFound]);
    assert_eq!(actions.len(), 2);
    assert_eq!(url_of(&actions[1]), "https://newsapi.org/v2/top-headlines");
}

#[test]
fn a_search_term_asks_for_search_results() {
    let request = api_request(&config("rust", 100, false));
    assert_eq!(request.url, SEARCH_URL);
    assert_eq!(request.query[0].name, "q");
    assert_eq!(request.query[0].value, "rust");
    let (_, actions) = drive(config("rust", 100, true), vec![Event::OutputDirFound]);
    assert_eq!(url_of(&actions[1]), "https://newsapi.org/v2/everything");
}

#[test]
fn a_search_term_of_one_space_is_not_empty() {
    let request = api_request(&config(" ", 100, false));
    assert_eq!(request.url, SEARCH_URL);
}

#[test]
fn a_missing_directory_is_made_before_anything_else() {
    let (run, actions) = drive(
        config("", 100, false),
        vec![Event::OutputDirMissing, Event::OutputDirCreated],
    );
    assert_eq!(actions.len(), 3);
    assert_eq!(actions[0], Action::CheckOutputDir);
    assert_eq!(actions[1], Action::CreateOutputDir);
    assert!(matches!(actions[2], Action::CallApi(_)));
    assert_eq!(run.phase(), Phase::AwaitingArticles);
}

#[test]
fn a_directory_that_cannot_be_made_ends_the_run() {
    let (run, actions) = drive(
        config("", 100, false),
        vec![Event::OutputDirMissing, Event::Failed(ErrorKind::Filesystem)],
    );
    assert_eq!(actions[2], Action::Abort(ErrorKind::Filesystem));
    assert_eq!(run.phase(), Phase::Aborted);
    assert!(run.is_over());
    assert!(actions.iter().all(|a| !matches!(a, Action::CallApi(_))));
}

#[test]
fn listing_prints_title_tab_address_and_writes_nothing() {
    let (run, actions) = drive(
        config("", 100, true),
        vec![
            Event::OutputDirFound,
            Event::ArticlesReceived(two_articles()),
            Event::ListingPrinted,
        ],
    );
    assert_eq!(actions.len(), 4);
    assert_eq!(
        actions[2],
        Action::PrintListing(vec![
            "First Story\thttps://example.org/1".to_string(),
            "Second Story\thttps://example.org/2".to_string(),
        ])
    );
    assert_eq!(actions[3], Action::Finish);
    assert_eq!(run.phase(), Phase::Finished);
    for action in &actions {
        assert!(!matches!(
            action,
            Action::CreateOutputDir | Action::FetchBody(_) | Action::WriteFile(_)
        ));
    }
}

#[test]
fn listing_of_no_articles_prints_no_line() {
    let (_, actions) = drive(
        config("x", 5, true),
        vec![Event::OutputDirFound, Event::ArticlesReceived(Vec::new()), Event::ListingPrinted],
    );
    assert_eq!(actions[2], Action::PrintListing(Vec::new()));
    assert_eq!(actions[3], Action::Finish);
}

#[test]
fn listing_lines_keep_the_order_of_the_list() {
    let lines = listing_lines(&two_articles());
    assert_eq!(lines, vec!["First Story\thttps://example.org/1", "Second Story\thttps://example.org/2"]);
    assert!(listing_lines(&Vec::new()).is_empty());
}

#[test]
fn every_article_is_fetched_and_saved_in_the_order_of_the_list() {
    let (run, actions) = drive(
        config("", 100, false),
        vec![
            Event::OutputDirFound,
            Event::ArticlesReceived(two_articles()),
            Event::BodyReceived("<html><body><p>A</p><p>B</p></body></html>".to_string()),
            Event::FileWritten,
            Event::BodyReceived("<p>second</p>".to_string()),
            Event::FileWritten,
        ],
    );
    assert_eq!(actions.len(), 7);
    match &actions[2] {
        Action::FetchBody(request) => {
            assert_eq!(request.url, "https://example.org/1");
            assert_eq!(request.notice, "Downloading https://example.org/1");
        }
        other => panic!("unexpected {:?}", other),
    }
    match &actions[3] {
        Action::WriteFile(plan) => {
            assert_eq!(plan.file_name, "First_Story.txt");
            assert_eq!(plan.contents, b"A\nB".to_vec());
            assert_eq!(plan.notice, "Saved First_Story.txt");
        }
        other => panic!("unexpected {:?}", other),
    }
    assert_eq!(url_of(&actions[4]), "https://example.org/2");
    match &actions[5] {
        Action::WriteFile(plan) => {
            assert_eq!(plan.file_name, "Second_Story.txt");
            assert_eq!(plan.contents, b"second".to_vec());
        }
        other => panic!("unexpected {:?}", other),
    }
    assert_eq!(actions[6], Action::Finish);
    assert_eq!(run.phase(), Phase::Finished);
    assert_eq!(run.completed(), 2);
    assert_eq!(run.articles().len(), 2);
    let fetches = actions.iter().filter(|a| matches!(a, Action::FetchBody(_))).count();
    let writes = actions.iter().filter(|a| matches!(a, Action::WriteFile(_))).count();
    assert_eq!((fetches, writes), (2, 2));
}

#[test]
fn limit_zero_and_an_empty_list_mean_no_cycle() {
    let (run, actions) = drive(
        config("", 0, false),
        vec![Event::OutputDirFound, Event::ArticlesReceived(Vec::new())],
    );
    assert_eq!(actions.len(), 3);
    match &actions[1] {
        Action::CallApi(request) => {
            assert_eq!(request.query[1].name, "pageSize");
            assert_eq!(request.query[1].value, "0");
        }
        other => panic!("unexpected {:?}", other),
    }
    assert_eq!(actions[2], Action::Finish);
    assert!(run.is_over());
    assert_eq!(run.completed(), 0);
}

#[test]
fn a_failed_call_of_the_service_ends_the_run() {
    let (run, actions) = drive(
        config("", 100, false),
        vec![Event::OutputDirFound, Event::Failed(ErrorKind::Network)],
    );
    assert_eq!(actions[2], Action::Abort(ErrorKind::Network));
    assert_eq!(run.phase(), Phase::Aborted);
}

#[test]
fn an_undecodable_answer_ends_the_run() {
    let (run, actions) = drive(
        config("q", 100, true),
        vec![Event::OutputDirFound, Event::Failed(ErrorKind::Deserialization)],
    );
    assert_eq!(actions[2], Action::Abort(ErrorKind::Deserialization));
    assert!(run.is_over());
}

#[test]
fn a_failed_fetch_stops_before_the_articles_that_follow() {
    let (run, actions) = drive(
        config("", 100, false),
        vec![
            Event::OutputDirFound,
            Event::ArticlesReceived(two_articles()),
            Event::BodyReceived("<p>one</p>".to_string()),
            Event::FileWritten,
            Event::Failed(ErrorKind::Network),
            Event::BodyReceived("<p>never</p>".to_string()),
        ],
    );
    assert_eq!(actions.len(), 6);
    assert_eq!(actions[5], Action::Abort(ErrorKind::Network));
    assert_eq!(run.phase(), Phase::Aborted);
    assert_eq!(run.completed(), 1);
}

#[test]
fn a_failed_write_stops_the_run_at_once() {
    let (run, actions) = drive(
        config("", 100, false),
        vec![
            Event::OutputDirFound,
            Event::ArticlesReceived(two_articles()),
            Event::BodyReceived("<p>one</p>".to_string()),
            Event::Failed(ErrorKind::Filesystem),
        ],
    );
    assert_eq!(actions.len(), 5);
    assert_eq!(actions[4], Action::Abort(ErrorKind::Filesystem));
    assert_eq!(run.completed(), 0);
    let fetches = actions.iter().filter(|a| matches!(a, Action::FetchBody(_))).count();
    assert_eq!(fetches, 1);
}

#[test]
fn an_event_that_is_not_awaited_changes_nothing() {
    let (run, _) = Run::start(config("", 100, false));
    let (run, action) = run.step(Event::FileWritten);
    assert_eq!(action, None);
    assert_eq!(run.phase(), Phase::CheckingOutputDir);
    let (run, action) = run.step(Event::Failed(ErrorKind::Network));
    assert_eq!(action, None);
    let (run, action) = run.step(Event::OutputDirFound);
    assert!(matches!(action, Some(Action::CallApi(_))));
    let (run, action) = run.step(Event::Failed(ErrorKind::Filesystem));
    assert_eq!(action, None);
    assert_eq!(run.phase(), Phase::AwaitingArticles);
    let (run, action) = run.step(Event::BodyReceived("<p>x</p>".to_string()));
    assert_eq!(action, None);
    assert_eq!(run.phase(), Phase::AwaitingArticles);
}

#[test]
fn a_run_that_ended_takes_no_event() {
    let (run, _) = drive(
        config("", 100, false),
        vec![Event::OutputDirFound, Event::ArticlesReceived(Vec::new())],
    );
    assert_eq!(run.phase(), Phase::Finished);
    let (run, action) = run.step(Event::OutputDirFound);
    assert_eq!(action, None);
    let (run, action) = run.step(Event::ArticlesReceived(two_articles()));
    assert_eq!(action, None);
    assert_eq!(run.phase(), Phase::Finished);
    assert!(run.articles().is_empty());
}

#[test]
fn a_page_without_paragraphs_is_saved_as_an_empty_file() {
    let (_, actions) = drive(
        config("", 100, false),
        vec![
            Event::OutputDirFound,
            Event::ArticlesReceived(vec![article("T", "u")]),
            Event::BodyReceived("<h1>404</h1>".to_string()),
        ],
    );
    match &actions[3] {
        Action::WriteFile(plan) => {
            assert_eq!(plan.file_name, "T.txt");
            assert!(plan.contents.is_empty());
        }
        other => panic!("unexpected {:?}", other),
    }
}

#[test]
fn events_with_ordinary_pages_are_workable() {
    assert!(Event::BodyReceived(String::new()).is_workable());
    assert!(Event::BodyReceived("<p>x</p>".to_string()).is_workable());
    assert!(Event::FileWritten.is_workable());
    assert!(Event::Failed(ErrorKind::Network).is_workable());
}

#[test]
fn articles_of_an_answer_ignore_status_and_total() {
    let answer = ApiResponse {
        status: "error".to_string(),
        total_results: 17,
        articles: two_articles(),
    };
    assert_eq!(answer.into_articles(), two_articles());
    let empty = ApiResponse { status: "ok".to_string(), total_results: 3, articles: Vec::new() };
    assert!(empty.into_articles().is_empty());
}

#[test]
fn an_article_keeps_title_and_address() {
    let a = article("My Title", "https://example.org/x");
    assert_eq!(a.title, "My Title");
    assert_eq!(a.url, "https://example.org/x");
}
