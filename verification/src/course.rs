//! Whole runs: what a run hands out over a sequence of events, and what
//! holds of every such course.

use crate::article::ArticleView;
use crate::extract::extracted_text;
use crate::request::{page_at, HEADLINES_URL, SEARCH_URL};
use crate::run::{
    begin, next, request_for, ActionView, ConfigView, ErrorKind, EventView, Phase, RunView,
};
use crate::storage::saving;
use vstd::prelude::*;

verus! {

/// The run after the events, each taken as the outcome of the action handed
/// out before it; `None` where the run did not wait for one of them.
pub open spec fn run_after(config: ConfigView, events: Seq<EventView>) -> Option<RunView>
    decreases events.len(),
{
    if events.len() == 0 {
        Some(begin(config))
    } else {
        match run_after(config, events.drop_last()) {
            Some(run) => match next(run, events.last()) {
                Some(planned) => Some(planned.0),
                None => None,
            },
            None => None,
        }
    }
}

/// The actions handed out over the events: the first action of every run,
/// then one action for each event that the run waited for.
pub open spec fn actions_of(config: ConfigView, events: Seq<EventView>) -> Seq<ActionView>
    decreases events.len(),
{
    if events.len() == 0 {
        seq![ActionView::CheckOutputDir]
    } else {
        let earlier = actions_of(config, events.drop_last());
        match run_after(config, events.drop_last()) {
            Some(run) => match next(run, events.last()) {
                Some(planned) => earlier.push(planned.1),
                None => earlier,
            },
            None => earlier,
        }
    }
}

/// The events tell that the output directory is there: it was found, or it
/// was missing and has been made.
pub open spec fn directory_ready(events: Seq<EventView>) -> bool {
    ||| events.len() >= 1 && events[0] == EventView::OutputDirFound
    ||| events.len() >= 2 && events[0] == EventView::OutputDirMissing && events[1]
        == EventView::OutputDirCreated
}

/// The action works on articles: it asks for them, lists them, fetches a
/// page or writes a file.
pub open spec fn handles_articles(action: ActionView) -> bool {
    action is CallApi || action is PrintListing || action is FetchBody || action is WriteFile
}

/// The action changes the file system.
pub open spec fn writes_to_disk(action: ActionView) -> bool {
    action is CreateOutputDir || action is WriteFile
}

/// What holds of the course over `events`, all in one.
spec fn course_holds(config: ConfigView, events: Seq<EventView>) -> bool {
    let actions = actions_of(config, events);
    let run = run_after(config, events)->0;
    &&& actions.len() == events.len() + 1
    &&& actions[0] == ActionView::CheckOutputDir
    &&& run.config == config
    &&& run.well_formed()
    &&& run.phase == Phase::CheckingOutputDir <==> events.len() == 0
    &&& run.phase == Phase::CreatingOutputDir ==> events.len() == 1 && events[0]
        == EventView::OutputDirMissing
    &&& run.phase != Phase::CheckingOutputDir && run.phase != Phase::CreatingOutputDir && run.phase
        != Phase::Aborted ==> directory_ready(events)
    &&& run.phase == Phase::Listing ==> config.list_results
    &&& run.phase == Phase::Fetching || run.phase == Phase::Saving ==> !config.list_results
    &&& forall|i: int|
        0 <= i < actions.len() && handles_articles(#[trigger] actions[i]) ==> i >= 1
            && directory_ready(events.take(i))
    &&& forall|i: int|
        0 <= i < actions.len() && #[trigger] actions[i] is CreateOutputDir ==> i == 1 && events[0]
            == EventView::OutputDirMissing
    &&& forall|i: int|
        0 <= i < actions.len() && #[trigger] actions[i] is CallApi ==> actions[i]
            == ActionView::CallApi(request_for(config))
    &&& forall|i: int|
        0 <= i < actions.len() && #[trigger] actions[i] is CallApi ==> i == (if events[0]
            == EventView::OutputDirFound {
            1int
        } else {
            2int
        })
    &&& config.list_results ==> forall|i: int|
        0 <= i < actions.len() ==> !(#[trigger] actions[i] is FetchBody) && !(actions[i]
            is WriteFile)
}

proof fn lemma_course(config: ConfigView, events: Seq<EventView>)
    requires
        run_after(config, events) is Some,
    ensures
        course_holds(config, events),
    decreases events.len(),
{
    if events.len() > 0 {
        let before = events.drop_last();
        lemma_course(config, before);
        let earlier = actions_of(config, before);
        let actions = actions_of(config, events);
        let run = run_after(config, before)->0;
        let planned = next(run, events.last())->0;
        assert(actions == earlier.push(planned.1));
        assert(events.take(events.len() - 1) == before);
        assert(events.take(events.len() as int) == events);
        assert forall|i: int| 0 <= i < actions.len() && handles_articles(
            #[trigger] actions[i],
        ) implies i >= 1 && directory_ready(events.take(i)) by {
            if i < earlier.len() {
                assert(actions[i] == earlier[i]);
                assert(events.take(i) == before.take(i));
            }
        }
        assert forall|i: int|
            0 <= i < actions.len() && #[trigger] actions[i] is CreateOutputDir implies i == 1
            && events[0] == EventView::OutputDirMissing by {
            if i < earlier.len() {
                assert(actions[i] == earlier[i]);
            }
        }
        assert forall|i: int| 0 <= i < actions.len() && #[trigger] actions[i] is CallApi implies
            actions[i] == ActionView::CallApi(request_for(config)) by {
            if i < earlier.len() {
                assert(actions[i] == earlier[i]);
            }
        }
        assert forall|i: int| 0 <= i < actions.len() && #[trigger] actions[i] is CallApi implies i
            == (if events[0] == EventView::OutputDirFound {
            1int
        } else {
            2int
        }) by {
            if i < earlier.len() {
                assert(actions[i] == earlier[i]);
                assert(before[0] == events[0]);
            }
        }
        if config.list_results {
            assert forall|i: int| 0 <= i < actions.len() implies !(#[trigger] actions[i]
                is FetchBody) && !(actions[i] is WriteFile) by {
                if i < earlier.len() {
                    assert(actions[i] == earlier[i]);
                }
            }
        }
    }
}

/// Every course hands out its first action at once and one more for each
/// event. The run stays well-formed and keeps its configuration.
pub proof fn course_is_well_formed(config: ConfigView, events: Seq<EventView>)
    requires
        run_after(config, events) is Some,
    ensures
        actions_of(config, events).len() == events.len() + 1,
        actions_of(config, events)[0] == ActionView::CheckOutputDir,
        run_after(config, events)->0.config == config,
        run_after(config, events)->0.well_formed(),
{
    lemma_course(config, events);
}

/// The news service is asked for search results where a search term is
/// given and for the top headlines where it is empty, never the other way
/// round: whenever a run calls the service, the request is the one that
/// answers its configuration, and that request goes to the search endpoint
/// exactly if the search term is not empty.
pub proof fn search_term_decides_the_endpoint(
    config: ConfigView,
    events: Seq<EventView>,
    i: int,
)
    requires
        run_after(config, events) is Some,
        0 <= i < actions_of(config, events).len(),
        actions_of(config, events)[i] is CallApi,
    ensures
        actions_of(config, events)[i] == ActionView::CallApi(request_for(config)),
        config.search.len() > 0 ==> request_for(config).url == SEARCH_URL@,
        config.search.len() == 0 ==> request_for(config).url == HEADLINES_URL@,
        SEARCH_URL@ != HEADLINES_URL@,
{
    lemma_course(config, events);
    reveal_strlit("https://newsapi.org/v2/top-headlines");
    reveal_strlit("https://newsapi.org/v2/everything");
    assert(SEARCH_URL@.len() != HEADLINES_URL@.len());
}

/// A run calls the news service at most once: two actions of a course that
/// call the service are one and the same.
pub proof fn service_is_called_once(config: ConfigView, events: Seq<EventView>, i: int, j: int)
    requires
        run_after(config, events) is Some,
        0 <= i < actions_of(config, events).len(),
        0 <= j < actions_of(config, events).len(),
        actions_of(config, events)[i] is CallApi,
        actions_of(config, events)[j] is CallApi,
    ensures
        i == j,
{
    lemma_course(config, events);
}

/// A run that only lists never fetches a page and never writes a file,
/// however many articles there are. Where the output directory was found
/// to be there, it changes nothing on disk at all.
pub proof fn listing_writes_nothing(config: ConfigView, events: Seq<EventView>, i: int)
    requires
        config.list_results,
        run_after(config, events) is Some,
        0 <= i < actions_of(config, events).len(),
    ensures
        !(actions_of(config, events)[i] is FetchBody),
        !(actions_of(config, events)[i] is WriteFile),
        events.len() > 0 && events[0] == EventView::OutputDirFound ==> !writes_to_disk(
            actions_of(config, events)[i],
        ),
{
    lemma_course(config, events);
}

/// Nothing is done with articles before the output directory is there:
/// when a run asks for articles, lists them, fetches a page or writes a
/// file, the events before that action tell that the directory was found,
/// or that it was missing and has been made. A missing directory is made
/// as the very next thing.
pub proof fn directory_comes_first(config: ConfigView, events: Seq<EventView>, i: int)
    requires
        run_after(config, events) is Some,
        0 <= i < actions_of(config, events).len(),
    ensures
        handles_articles(actions_of(config, events)[i]) ==> i >= 1 && directory_ready(
            events.take(i),
        ),
        events.len() > 0 && events[0] == EventView::OutputDirMissing ==> actions_of(
            config,
            events,
        )[1] == ActionView::CreateOutputDir,
{
    lemma_course(config, events);
    if events.len() > 0 && events[0] == EventView::OutputDirMissing {
        reveal_with_fuel(run_after, 2);
        reveal_with_fuel(actions_of, 2);
        let first = events.take(1);
        assert(first.drop_last() == Seq::<EventView>::empty());
        assert(first.last() == events[0]);
        lemma_actions_prefix(config, events, 1);
        assert(actions_of(config, first)[1] == ActionView::CreateOutputDir);
    }
}

/// The actions of a part of a course are the first actions of the whole.
proof fn lemma_actions_prefix(config: ConfigView, events: Seq<EventView>, n: int)
    requires
        run_after(config, events) is Some,
        0 <= n <= events.len(),
    ensures
        actions_of(config, events.take(n)) == actions_of(config, events).take(n + 1),
    decreases events.len(),
{
    lemma_course(config, events);
    if n == events.len() {
        assert(events.take(n) == events);
        assert(actions_of(config, events).take(n + 1) == actions_of(config, events));
    } else {
        let before = events.drop_last();
        lemma_actions_prefix(config, before, n);
        lemma_course(config, before);
        assert(before.take(n) == events.take(n));
        assert(actions_of(config, before).take(n + 1) == actions_of(config, events).take(n + 1));
    }
}

/// The first failure ends a run: the run is given up for the reason
/// reported, and it takes no further event, so nothing that would have
/// followed is attempted. A run that ended as a success takes no further
/// event either.
pub proof fn failure_ends_the_run(run: RunView, kind: ErrorKind, later: EventView)
    ensures
        next(run, EventView::Failed(kind)) matches Some(planned) ==> planned.0.phase
            == Phase::Aborted && planned.1 == ActionView::Abort(kind) && next(planned.0, later)
            is None,
        run.over() ==> next(run, later) is None,
{
}

/// The events of the first `bodies.len()` downloads where all goes well:
/// for each article in turn, its page arrives and then its file is written.
pub open spec fn download_events(bodies: Seq<Seq<char>>) -> Seq<EventView>
    decreases bodies.len(),
{
    if bodies.len() == 0 {
        Seq::empty()
    } else {
        download_events(bodies.drop_last()).push(EventView::BodyReceived(bodies.last())).push(
            EventView::FileWritten,
        )
    }
}

/// What a run turns to when `done` articles are done: the page of the next
/// article, or the end of the run where none is left.
pub open spec fn turn_to(articles: Seq<ArticleView>, done: nat) -> ActionView {
    if done < articles.len() {
        ActionView::FetchBody(page_at(articles[done as int].url))
    } else {
        ActionView::Finish
    }
}

/// The actions of the first `bodies.len()` downloads where all goes well,
/// from the arrival of the list on: for each article in the order of the
/// list, its page is fetched and then its text is written; last comes what
/// the run turns to after that.
pub open spec fn download_actions(articles: Seq<ArticleView>, bodies: Seq<Seq<char>>) -> Seq<
    ActionView,
>
    decreases bodies.len(),
{
    if bodies.len() == 0 {
        seq![turn_to(articles, 0)]
    } else {
        download_actions(articles, bodies.drop_last()).push(
            ActionView::WriteFile(
                saving(articles[bodies.len() - 1].title, extracted_text(bodies.last())),
            ),
        ).push(turn_to(articles, bodies.len()))
    }
}

/// The events up to the arrival of the list: the directory is found, or it
/// is missing and then made; then the news service answers.
pub open spec fn opening_events(found: bool, articles: Seq<ArticleView>) -> Seq<EventView> {
    if found {
        seq![EventView::OutputDirFound, EventView::ArticlesReceived(articles)]
    } else {
        seq![
            EventView::OutputDirMissing,
            EventView::OutputDirCreated,
            EventView::ArticlesReceived(articles),
        ]
    }
}

/// The actions up to the call of the news service.
pub open spec fn opening_actions(config: ConfigView, found: bool) -> Seq<ActionView> {
    if found {
        seq![ActionView::CheckOutputDir, ActionView::CallApi(request_for(config))]
    } else {
        seq![
            ActionView::CheckOutputDir,
            ActionView::CreateOutputDir,
            ActionView::CallApi(request_for(config)),
        ]
    }
}

proof fn lemma_opening(config: ConfigView, found: bool, articles: Seq<ArticleView>)
    ensures
        ({
            let events = opening_events(found, articles);
            let received = RunView { config, phase: Phase::AwaitingArticles, articles, cursor: 0 };
            &&& run_after(config, events.drop_last()) == Some(
                RunView { articles: Seq::empty(), ..received },
            )
            &&& actions_of(config, events.drop_last()) == opening_actions(config, found)
        }),
{
    reveal_with_fuel(run_after, 4);
    reveal_with_fuel(actions_of, 4);
    let events = opening_events(found, articles);
    let e1 = events.drop_last();
    let e0 = e1.drop_last();
    if found {
        assert(e0 == Seq::<EventView>::empty());
        assert(e1.last() == EventView::OutputDirFound);
        assert(actions_of(config, e1) == opening_actions(config, found));
    } else {
        let e00 = e0.drop_last();
        assert(e00 == Seq::<EventView>::empty());
        assert(e0.last() == EventView::OutputDirMissing);
        assert(e1.last() == EventView::OutputDirCreated);
        assert(actions_of(config, e1) == opening_actions(config, found));
    }
}

/// In download mode every article of the list gets one cycle, in the order
/// of the list, as long as all goes well: with `L` articles and the pages
/// of the first `k` of them, the run has handed out exactly the fetch and
/// the write of each of these `k` articles in turn, and then turns to
/// article `k`, or ends as a success where `k` is `L`. With an empty list
/// there is no cycle at all.
pub proof fn downloads_follow_the_list(
    config: ConfigView,
    found: bool,
    articles: Seq<ArticleView>,
    bodies: Seq<Seq<char>>,
)
    requires
        !config.list_results,
        bodies.len() <= articles.len(),
    ensures
        ({
            let events = opening_events(found, articles) + download_events(bodies);
            &&& run_after(config, events) == Some(
                RunView {
                    config,
                    phase: if bodies.len() < articles.len() {
                        Phase::Fetching
                    } else {
                        Phase::Finished
                    },
                    articles,
                    cursor: bodies.len(),
                },
            )
            &&& actions_of(config, events) == opening_actions(config, found) + download_actions(
                articles,
                bodies,
            )
        }),
    decreases bodies.len(),
{
    let opening = opening_events(found, articles);
    let events = opening + download_events(bodies);
    lemma_opening(config, found, articles);
    if bodies.len() == 0 {
        assert(events == opening);
        assert(opening.last() == EventView::ArticlesReceived(articles));
        assert(actions_of(config, events) == opening_actions(config, found) + download_actions(
            articles,
            bodies,
        ));
    } else {
        let fewer = bodies.drop_last();
        downloads_follow_the_list(config, found, articles, fewer);
        let e0 = opening + download_events(fewer);
        let e1 = e0.push(EventView::BodyReceived(bodies.last()));
        let e2 = e1.push(EventView::FileWritten);
        assert(events == e2);
        assert(e1.drop_last() == e0);
        assert(e2.drop_last() == e1);
        let a0 = opening_actions(config, found) + download_actions(articles, fewer);
        let write = ActionView::WriteFile(
            saving(articles[bodies.len() - 1].title, extracted_text(bodies.last())),
        );
        assert(actions_of(config, e1) == a0.push(write));
        assert(actions_of(config, e2) == a0.push(write).push(turn_to(articles, bodies.len())));
        assert(a0.push(write).push(turn_to(articles, bodies.len())) == opening_actions(
            config,
            found,
        ) + download_actions(articles, bodies));
    }
}

/// The downloads come in the order of the list: cycle `i` fetches the page
/// of article `i` and then writes the text of that page under the name made
/// from the title of article `i`.
pub proof fn download_cycle(articles: Seq<ArticleView>, bodies: Seq<Seq<char>>, i: int)
    requires
        bodies.len() <= articles.len(),
        0 <= i < bodies.len(),
    ensures
        download_actions(articles, bodies).len() == 2 * bodies.len() + 1,
        download_actions(articles, bodies)[2 * i] == ActionView::FetchBody(
            page_at(articles[i].url),
        ),
        download_actions(articles, bodies)[2 * i + 1] == ActionView::WriteFile(
            saving(articles[i].title, extracted_text(bodies[i])),
        ),
        download_actions(articles, bodies).last() == turn_to(articles, bodies.len()),
    decreases bodies.len(),
{
    lemma_download_count(articles, bodies);
    let fewer = bodies.drop_last();
    lemma_download_count(articles, fewer);
    if i < fewer.len() {
        download_cycle(articles, fewer, i);
    }
}

proof fn lemma_download_count(articles: Seq<ArticleView>, bodies: Seq<Seq<char>>)
    requires
        bodies.len() <= articles.len(),
    ensures
        download_actions(articles, bodies).len() == 2 * bodies.len() + 1,
        download_actions(articles, bodies).last() == turn_to(articles, bodies.len()),
    decreases bodies.len(),
{
    if bodies.len() > 0 {
        lemma_download_count(articles, bodies.drop_last());
    }
}

} // verus!
