//! The course of a run: what is done first, what follows on each outcome,
//! and when the run ends.
//!
//! A run never acts by itself. It hands out one action at a time; whoever
//! drives it performs the action and reports the outcome as an event, on
//! which the run hands out the next action.

use crate::article::{Article, ArticleView};
use crate::extract::{extract_text, extracted_text, is_parseable, parseable};
use crate::request::{
    page_at, page_request, search_results, search_results_request, top_headlines,
    top_headlines_request, ApiRequest, ApiRequestView, PageRequest, PageRequestView,
};
use crate::storage::{save_plan, saving, SavePlan, SavePlanView};
use vstd::prelude::*;
use vstd::string::StringExecFns;

verus! {

/// The number of articles asked for where none is given.
pub const DEFAULT_LIMIT: usize = 100;

/// The search term where none is given: empty, which asks for the headlines.
pub const DEFAULT_SEARCH: &'static str = "";

/// The output directory where none is given: the current directory.
pub const DEFAULT_OUTPUT_DIR: &'static str = "./";

/// What a run is asked to do. The output directory is not part of it: the
/// run only says when the directory is looked at, made and written to.
#[derive(Clone, Debug, PartialEq, Eq)]
pub struct Config {
    /// The key that the news service asks for.
    pub api_key: String,
    /// The search term; empty to ask for the top headlines.
    pub search: String,
    /// How many articles to ask for. Zero is passed on as it is.
    pub limit: usize,
    /// Whether the articles are only listed, not downloaded.
    pub list_results: bool,
}

/// A configuration as plain values.
pub struct ConfigView {
    pub api_key: Seq<char>,
    pub search: Seq<char>,
    pub limit: nat,
    pub list_results: bool,
}

impl View for Config {
    type V = ConfigView;

    open spec fn view(&self) -> ConfigView {
        ConfigView {
            api_key: self.api_key@,
            search: self.search@,
            limit: self.limit as nat,
            list_results: self.list_results,
        }
    }
}

impl Config {
    /// The configuration with the given key and every default: no search
    /// term, the default limit, downloads rather than a listing.
    pub fn new(api_key: String) -> (config: Config)
        ensures
            config.api_key == api_key,
            config.search@ == DEFAULT_SEARCH@,
            config.limit == DEFAULT_LIMIT,
            !config.list_results,
    {
        Config {
            api_key,
            search: String::from_str(DEFAULT_SEARCH),
            limit: DEFAULT_LIMIT,
            list_results: false,
        }
    }
}

/// Why a run was given up.
#[derive(Clone, Copy, Debug, PartialEq, Eq, Structural)]
pub enum ErrorKind {
    /// A request could not be sent, or its answer could not be read.
    Network,
    /// The news service answered with something else than the expected shape.
    Deserialization,
    /// A directory or a file could not be made or written.
    Filesystem,
}

/// The outcome of the action that a run handed out last.
#[derive(Clone, Debug, PartialEq, Eq)]
pub enum Event {
    /// The output directory is there.
    OutputDirFound,
    /// The output directory is not there.
    OutputDirMissing,
    /// The output directory has been made, with the parents it lacked.
    OutputDirCreated,
    /// The news service answered with these articles, in this order.
    ArticlesReceived(Vec<Article>),
    /// The listing has been printed.
    ListingPrinted,
    /// The page of the article came back with this body.
    BodyReceived(String),
    /// The file has been written.
    FileWritten,
    /// The action failed, for a reason of this kind.
    Failed(ErrorKind),
}

/// An event as plain values.
pub enum EventView {
    OutputDirFound,
    OutputDirMissing,
    OutputDirCreated,
    ArticlesReceived(Seq<ArticleView>),
    ListingPrinted,
    BodyReceived(Seq<char>),
    FileWritten,
    Failed(ErrorKind),
}

impl EventView {
    /// Whether the run can work on the event: a page that comes back must be
    /// short enough for the parser.
    pub open spec fn workable(self) -> bool {
        self matches EventView::BodyReceived(body) ==> parseable(body)
    }
}

impl Event {
    /// Whether the run can work on the event: a page that comes back must be
    /// short enough for the parser.
    pub fn is_workable(&self) -> (workable: bool)
        ensures
            workable == self@.workable(),
    {
        match self {
            Event::BodyReceived(body) => is_parseable(body.as_str()),
            _ => true,
        }
    }
}

impl View for Event {
    type V = EventView;

    open spec fn view(&self) -> EventView {
        match self {
            Event::OutputDirFound => EventView::OutputDirFound,
            Event::OutputDirMissing => EventView::OutputDirMissing,
            Event::OutputDirCreated => EventView::OutputDirCreated,
            Event::ArticlesReceived(articles) => EventView::ArticlesReceived(articles.deep_view()),
            Event::ListingPrinted => EventView::ListingPrinted,
            Event::BodyReceived(body) => EventView::BodyReceived(body@),
            Event::FileWritten => EventView::FileWritten,
            Event::Failed(kind) => EventView::Failed(*kind),
        }
    }
}

/// What a run asks its driver to do next.
#[derive(Clone, Debug, PartialEq, Eq)]
pub enum Action {
    /// Tell whether the output directory is there.
    CheckOutputDir,
    /// Make the output directory, with the parents it lacks.
    CreateOutputDir,
    /// Send this request to the news service and decode its answer.
    CallApi(ApiRequest),
    /// Print these lines to the standard output, in this order, each
    /// followed by a line feed.
    PrintListing(Vec<String>),
    /// Announce and send this request for the page of an article.
    FetchBody(PageRequest),
    /// Write this file into the output directory, replacing what a file of
    /// that name held, and announce it.
    WriteFile(SavePlan),
    /// End the run as a success.
    Finish,
    /// End the run as a failure of this kind.
    Abort(ErrorKind),
}

/// An action as plain values.
pub enum ActionView {
    CheckOutputDir,
    CreateOutputDir,
    CallApi(ApiRequestView),
    PrintListing(Seq<Seq<char>>),
    FetchBody(PageRequestView),
    WriteFile(SavePlanView),
    Finish,
    Abort(ErrorKind),
}

impl View for Action {
    type V = ActionView;

    open spec fn view(&self) -> ActionView {
        match self {
            Action::CheckOutputDir => ActionView::CheckOutputDir,
            Action::CreateOutputDir => ActionView::CreateOutputDir,
            Action::CallApi(request) => ActionView::CallApi(request@),
            Action::PrintListing(lines) => ActionView::PrintListing(lines.deep_view()),
            Action::FetchBody(request) => ActionView::FetchBody(request@),
            Action::WriteFile(plan) => ActionView::WriteFile(plan@),
            Action::Finish => ActionView::Finish,
            Action::Abort(kind) => ActionView::Abort(*kind),
        }
    }
}

/// The view of an action that may be missing.
pub open spec fn action_view(action: Option<Action>) -> Option<ActionView> {
    match action {
        Some(action) => Some(action@),
        None => None,
    }
}

/// Where a run stands: which outcome it waits for, or how it ended.
#[derive(Clone, Copy, Debug, PartialEq, Eq, Structural)]
pub enum Phase {
    /// Waiting to hear whether the output directory is there.
    CheckingOutputDir,
    /// Waiting for the output directory to be made.
    CreatingOutputDir,
    /// Waiting for the answer of the news service.
    AwaitingArticles,
    /// Waiting for the listing to be printed.
    Listing,
    /// Waiting for the page of the current article.
    Fetching,
    /// Waiting for the file of the current article to be written.
    Saving,
    /// Ended as a success.
    Finished,
    /// Ended as a failure.
    Aborted,
}

/// A run as plain values: what it was asked to do, where it stands, the
/// articles that the news service gave, and how many of them are done.
pub struct RunView {
    pub config: ConfigView,
    pub phase: Phase,
    pub articles: Seq<ArticleView>,
    pub cursor: nat,
}

impl RunView {
    /// The cursor never passes the end of the list, and it points at an
    /// article whenever the run waits for that article's page or file.
    pub open spec fn well_formed(self) -> bool {
        &&& self.cursor <= self.articles.len()
        &&& (self.phase == Phase::Fetching || self.phase == Phase::Saving) ==> self.cursor
            < self.articles.len()
    }

    /// Whether the run has ended.
    pub open spec fn over(self) -> bool {
        self.phase == Phase::Finished || self.phase == Phase::Aborted
    }
}

/// The request that answers a configuration: a search where a search term is
/// given, the top headlines where it is empty.
pub open spec fn request_for(config: ConfigView) -> ApiRequestView {
    if config.search.len() == 0 {
        top_headlines(config.api_key, config.limit)
    } else {
        search_results(config.api_key, config.limit, config.search)
    }
}

/// The line that lists an article: its title, a tab, its address.
pub open spec fn listing_line(article: ArticleView) -> Seq<char> {
    article.title + seq!['\t'] + article.url
}

/// The lines that list the articles, one per article, in their order.
pub open spec fn listing(articles: Seq<ArticleView>) -> Seq<Seq<char>> {
    articles.map_values(|article: ArticleView| listing_line(article))
}

/// A run that has just begun: it waits to hear of the output directory.
pub open spec fn begin(config: ConfigView) -> RunView {
    RunView { config, phase: Phase::CheckingOutputDir, articles: Seq::empty(), cursor: 0 }
}

/// Once the output directory is there, the news service is asked.
pub open spec fn ask(run: RunView) -> (RunView, ActionView) {
    (
        RunView { phase: Phase::AwaitingArticles, ..run },
        ActionView::CallApi(request_for(run.config)),
    )
}

/// The run turns to the article under the cursor, or ends as a success
/// where no article is left.
pub open spec fn proceed(run: RunView) -> (RunView, ActionView) {
    if run.cursor < run.articles.len() {
        (
            RunView { phase: Phase::Fetching, ..run },
            ActionView::FetchBody(page_at(run.articles[run.cursor as int].url)),
        )
    } else {
        (RunView { phase: Phase::Finished, ..run }, ActionView::Finish)
    }
}

/// The run is given up.
pub open spec fn abort(run: RunView, kind: ErrorKind) -> (RunView, ActionView) {
    (RunView { phase: Phase::Aborted, ..run }, ActionView::Abort(kind))
}

/// What follows on an event: the run after it and the action it hands out,
/// or `None` where the run does not wait for that event.
pub open spec fn next(run: RunView, event: EventView) -> Option<(RunView, ActionView)> {
    match run.phase {
        Phase::CheckingOutputDir => match event {
            EventView::OutputDirFound => Some(ask(run)),
            EventView::OutputDirMissing => Some(
                (RunView { phase: Phase::CreatingOutputDir, ..run }, ActionView::CreateOutputDir),
            ),
            _ => None,
        },
        Phase::CreatingOutputDir => match event {
            EventView::OutputDirCreated => Some(ask(run)),
            EventView::Failed(ErrorKind::Filesystem) => Some(abort(run, ErrorKind::Filesystem)),
            _ => None,
        },
        Phase::AwaitingArticles => match event {
            EventView::ArticlesReceived(articles) => if run.config.list_results {
                Some(
                    (
                        RunView { phase: Phase::Listing, articles, cursor: 0, ..run },
                        ActionView::PrintListing(listing(articles)),
                    ),
                )
            } else {
                Some(proceed(RunView { articles, cursor: 0, ..run }))
            },
            EventView::Failed(ErrorKind::Network) => Some(abort(run, ErrorKind::Network)),
            EventView::Failed(ErrorKind::Deserialization) => Some(
                abort(run, ErrorKind::Deserialization),
            ),
            _ => None,
        },
        Phase::Listing => match event {
            EventView::ListingPrinted => Some(
                (RunView { phase: Phase::Finished, ..run }, ActionView::Finish),
            ),
            _ => None,
        },
        Phase::Fetching => match event {
            EventView::BodyReceived(body) => Some(
                (
                    RunView { phase: Phase::Saving, ..run },
                    ActionView::WriteFile(
                        saving(run.articles[run.cursor as int].title, extracted_text(body)),
                    ),
                ),
            ),
            EventView::Failed(ErrorKind::Network) => Some(abort(run, ErrorKind::Network)),
            _ => None,
        },
        Phase::Saving => match event {
            EventView::FileWritten => Some(proceed(RunView { cursor: run.cursor + 1, ..run })),
            EventView::Failed(ErrorKind::Filesystem) => Some(abort(run, ErrorKind::Filesystem)),
            _ => None,
        },
        Phase::Finished => None,
        Phase::Aborted => None,
    }
}

/// Builds the request that answers a configuration: the search where a
/// search term is given, the top headlines where it is empty, never the
/// other way round.
pub fn api_request(config: &Config) -> (request: ApiRequest)
    ensures
        request@ == request_for(config@),
{
    if config.search.as_str().is_empty() {
        top_headlines_request(config.api_key.as_str(), config.limit)
    } else {
        search_results_request(config.api_key.as_str(), config.limit, config.search.as_str())
    }
}

/// The lines that list the articles: for each article, in the order given,
/// its title, a tab and its address.
pub fn listing_lines(articles: &Vec<Article>) -> (lines: Vec<String>)
    ensures
        lines.deep_view() == listing(articles.deep_view()),
{
    let mut lines: Vec<String> = Vec::new();
    let mut i: usize = 0;
    while i < articles.len()
        invariant
            i <= articles.len(),
            lines.len() == i,
            forall|j: int| 0 <= j < i ==> #[trigger] lines[j]@ == listing_line(articles[j]@),
        decreases articles.len() - i,
    {
        let mut line = articles[i].title.clone();
        line.push('\t');
        line.append(articles[i].url.as_str());
        lines.push(line);
        i += 1;
    }
    assert(lines.deep_view() =~= listing(articles.deep_view()));
    lines
}

/// A run of the downloader.
pub struct Run {
    config: Config,
    phase: Phase,
    articles: Vec<Article>,
    cursor: usize,
}

impl View for Run {
    type V = RunView;

    closed spec fn view(&self) -> RunView {
        RunView {
            config: self.config@,
            phase: self.phase,
            articles: self.articles.deep_view(),
            cursor: self.cursor as nat,
        }
    }
}

impl Run {
    #[verifier::type_invariant]
    spec fn cursor_in_range(self) -> bool {
        &&& self.cursor <= self.articles.len()
        &&& (self.phase == Phase::Fetching || self.phase == Phase::Saving) ==> self.cursor
            < self.articles.len()
    }

    /// Begins a run: the first thing asked is whether the output directory
    /// is there.
    pub fn start(config: Config) -> (started: (Run, Action))
        ensures
            started.0@ == begin(config@),
            started.1@ == ActionView::CheckOutputDir,
    {
        let articles: Vec<Article> = Vec::new();
        assert(articles.deep_view() =~= Seq::<ArticleView>::empty());
        (Run { config, phase: Phase::CheckingOutputDir, articles, cursor: 0 }, Action::CheckOutputDir)
    }

    /// Where the run stands.
    pub fn phase(&self) -> (phase: Phase)
        ensures
            phase == self@.phase,
    {
        self.phase
    }

    /// The articles that the news service gave, in its order; none before
    /// it answered.
    pub fn articles(&self) -> (articles: &Vec<Article>)
        ensures
            articles.deep_view() == self@.articles,
    {
        &self.articles
    }

    /// How many articles are done: fetched, and their text written.
    pub fn completed(&self) -> (done: usize)
        ensures
            done == self@.cursor,
            self@.well_formed(),
    {
        proof {
            use_type_invariant(self);
        }
        self.cursor
    }

    /// Whether the run has ended, as a success or as a failure.
    pub fn is_over(&self) -> (over: bool)
        ensures
            over == self@.over(),
    {
        match self.phase {
            Phase::Finished => true,
            Phase::Aborted => true,
            _ => false,
        }
    }

    fn asking(self) -> (result: (Run, Option<Action>))
        ensures
            result.0@ == ask(self@).0,
            action_view(result.1) == Some(ask(self@).1),
    {
        proof {
            use_type_invariant(&self);
        }
        let request = api_request(&self.config);
        (Run { phase: Phase::AwaitingArticles, ..self }, Some(Action::CallApi(request)))
    }

    fn aborting(self, kind: ErrorKind) -> (result: (Run, Option<Action>))
        ensures
            result.0@ == abort(self@, kind).0,
            action_view(result.1) == Some(abort(self@, kind).1),
    {
        proof {
            use_type_invariant(&self);
        }
        (Run { phase: Phase::Aborted, ..self }, Some(Action::Abort(kind)))
    }

    fn proceeding(config: Config, articles: Vec<Article>, cursor: usize) -> (result: (
        Run,
        Option<Action>,
    ))
        requires
            cursor <= articles.len(),
        ensures
            ({
                let before = RunView {
                    config: config@,
                    phase: Phase::Saving,
                    articles: articles.deep_view(),
                    cursor: cursor as nat,
                };
                &&& result.0@ == proceed(before).0
                &&& action_view(result.1) == Some(proceed(before).1)
            }),
    {
        if cursor < articles.len() {
            let request = page_request(articles[cursor].url.as_str());
            (Run { config, phase: Phase::Fetching, articles, cursor }, Some(Action::FetchBody(request)))
        } else {
            (Run { config, phase: Phase::Finished, articles, cursor }, Some(Action::Finish))
        }
    }

    /// Takes the outcome of the last action and hands out the next one.
    /// Where the run does not wait for this event (it has ended, or the
    /// event answers another action), it stays as it is and hands out
    /// nothing.
    pub fn step(self, event: Event) -> (result: (Run, Option<Action>))
        requires
            self@.phase == Phase::Fetching ==> event@.workable(),
        ensures
            match next(self@, event@) {
                Some(planned) => result.0@ == planned.0 && action_view(result.1) == Some(planned.1),
                None => result.0@ == self@ && result.1 is None,
            },
    {
        proof {
            use_type_invariant(&self);
        }
        match self.phase {
            Phase::CheckingOutputDir => match event {
                Event::OutputDirFound => self.asking(),
                Event::OutputDirMissing => (
                    Run { phase: Phase::CreatingOutputDir, ..self },
                    Some(Action::CreateOutputDir),
                ),
                _ => (self, None),
            },
            Phase::CreatingOutputDir => match event {
                Event::OutputDirCreated => self.asking(),
                Event::Failed(ErrorKind::Filesystem) => self.aborting(ErrorKind::Filesystem),
                _ => (self, None),
            },
            Phase::AwaitingArticles => match event {
                Event::ArticlesReceived(articles) => {
                    if self.config.list_results {
                        let lines = listing_lines(&articles);
                        (
                            Run { config: self.config, phase: Phase::Listing, articles, cursor: 0 },
                            Some(Action::PrintListing(lines)),
                        )
                    } else {
                        Run::proceeding(self.config, articles, 0)
                    }
                },
                Event::Failed(ErrorKind::Network) => self.aborting(ErrorKind::Network),
                Event::Failed(ErrorKind::Deserialization) => self.aborting(
                    ErrorKind::Deserialization,
                ),
                _ => (self, None),
            },
            Phase::Listing => match event {
                Event::ListingPrinted => (
                    Run { phase: Phase::Finished, ..self },
                    Some(Action::Finish),
                ),
                _ => (self, None),
            },
            Phase::Fetching => match event {
                Event::BodyReceived(body) => {
                    let text = extract_text(body.as_str());
                    let plan = save_plan(self.articles[self.cursor].title.as_str(), text.as_str());
                    (Run { phase: Phase::Saving, ..self }, Some(Action::WriteFile(plan)))
                },
                Event::Failed(ErrorKind::Network) => self.aborting(ErrorKind::Network),
                _ => (self, None),
            },
            Phase::Saving => match event {
                Event::FileWritten => Run::proceeding(self.config, self.articles, self.cursor + 1),
                Event::Failed(ErrorKind::Filesystem) => self.aborting(ErrorKind::Filesystem),
                _ => (self, None),
            },
            Phase::Finished => (self, None),
            Phase::Aborted => (self, None),
        }
    }
}

} // verus!
