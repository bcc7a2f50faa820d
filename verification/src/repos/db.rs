//! The write-path lookup: does a mapping exist for this long URL already?
//! Also the visit counter, which is detached work.

use vstd::prelude::*;
use crate::race::{Race, RaceView, Reply, ReplyView, Source, Verdict, VerdictView};
use crate::repos::cache::{get_long_url_key, long_url_key};
use crate::tasks::{tasks_view, Task, TaskView};

verus! {

/// The statement that reads the short identifier of a long URL.
pub const FIND_SHORT_SQL: &'static str = "SELECT short FROM public.shorts WHERE long_url = $1";

/// The statement that reads the long URL of a short identifier.
pub const FIND_LONG_URL_SQL: &'static str = "SELECT long_url FROM public.shorts WHERE short = $1";

/// The statement that stores a new mapping. It fails where the short
/// identifier or the long URL is stored already.
pub const INSERT_SHORT_SQL: &'static str =
    "INSERT INTO public.shorts (short, long_url) VALUES ($1, $2)";

/// The statement that records one visit of a short identifier. It records
/// nothing where the identifier has no mapping.
pub const ADD_GOTO_STAT_SQL: &'static str =
    "INSERT INTO public.shorts_goto_stats (short_id) SELECT id FROM public.shorts WHERE short = $1";

/// The statement that ranks the long URLs by their recorded visits, the most
/// visited first, and reads the first ten.
pub const TOP_GOTO_STATS_SQL: &'static str =
    "SELECT s.long_url, COUNT(sg.id) AS total FROM public.shorts s JOIN public.shorts_goto_stats sg ON s.id = sg.short_id GROUP BY s.long_url ORDER BY total DESC LIMIT 10";

/// One request to the persistent store.
#[derive(Clone, Debug, PartialEq, Eq)]
pub enum Statement {
    /// Read the short identifier of `long_url`.
    FindShort { long_url: String },
    /// Read the long URL of `short`.
    FindLongUrl { short: String },
    /// Store the mapping from `short` to `long_url`.
    InsertShort { short: String, long_url: String },
    /// Record one visit of `short`.
    AddGotoStat { short: String },
    /// Read the most visited long URLs with their totals.
    TopGotoStats,
}

/// Mathematical value of a [`Statement`].
pub enum StatementView {
    FindShort { long_url: Seq<char> },
    FindLongUrl { short: Seq<char> },
    InsertShort { short: Seq<char>, long_url: Seq<char> },
    AddGotoStat { short: Seq<char> },
    TopGotoStats,
}

impl View for Statement {
    type V = StatementView;

    open spec fn view(&self) -> StatementView {
        match self {
            Statement::FindShort { long_url } => StatementView::FindShort { long_url: long_url@ },
            Statement::FindLongUrl { short } => StatementView::FindLongUrl { short: short@ },
            Statement::InsertShort { short, long_url } => StatementView::InsertShort {
                short: short@,
                long_url: long_url@,
            },
            Statement::AddGotoStat { short } => StatementView::AddGotoStat { short: short@ },
            Statement::TopGotoStats => StatementView::TopGotoStats,
        }
    }
}

impl StatementView {
    /// The text of the statement.
    pub open spec fn sql(self) -> Seq<char> {
        match self {
            StatementView::FindShort { .. } => FIND_SHORT_SQL@,
            StatementView::FindLongUrl { .. } => FIND_LONG_URL_SQL@,
            StatementView::InsertShort { .. } => INSERT_SHORT_SQL@,
            StatementView::AddGotoStat { .. } => ADD_GOTO_STAT_SQL@,
            StatementView::TopGotoStats => TOP_GOTO_STATS_SQL@,
        }
    }

    /// The values bound to the placeholders of the statement, in order.
    pub open spec fn parameters(self) -> Seq<Seq<char>> {
        match self {
            StatementView::FindShort { long_url } => seq![long_url],
            StatementView::FindLongUrl { short } => seq![short],
            StatementView::InsertShort { short, long_url } => seq![short, long_url],
            StatementView::AddGotoStat { short } => seq![short],
            StatementView::TopGotoStats => seq![],
        }
    }
}

/// Mathematical value of a list of texts.
pub open spec fn texts_view(texts: Seq<String>) -> Seq<Seq<char>> {
    texts.map_values(|text: String| text@)
}

impl Statement {
    /// The text of the statement.
    pub fn sql(&self) -> (sql: &'static str)
        ensures
            sql@ == self@.sql(),
    {
        match self {
            Statement::FindShort { .. } => FIND_SHORT_SQL,
            Statement::FindLongUrl { .. } => FIND_LONG_URL_SQL,
            Statement::InsertShort { .. } => INSERT_SHORT_SQL,
            Statement::AddGotoStat { .. } => ADD_GOTO_STAT_SQL,
            Statement::TopGotoStats => TOP_GOTO_STATS_SQL,
        }
    }

    /// The values bound to the placeholders of the statement, in order.
    pub fn parameters(&self) -> (values: Vec<String>)
        ensures
            texts_view(values@) == self@.parameters(),
    {
        let values = match self {
            Statement::FindShort { long_url } => vec![long_url.clone()],
            Statement::FindLongUrl { short } => vec![short.clone()],
            Statement::InsertShort { short, long_url } => vec![short.clone(), long_url.clone()],
            Statement::AddGotoStat { short } => vec![short.clone()],
            Statement::TopGotoStats => Vec::new(),
        };
        assert(texts_view(values@) =~= self@.parameters());
        values
    }
}

/// The task that records one visit of `short`.
pub fn add_goto_stat(short: &str) -> (task: Task)
    ensures
        task@ == (TaskView::GotoStat { short: short@ }),
{
    Task::GotoStat { short: short.to_owned() }
}

/// A lookup of the short identifier of a long URL, in flight.
#[derive(Debug)]
pub struct Lookup {
    long_url: String,
    race: Race,
}

/// Mathematical value of a [`Lookup`].
pub struct LookupView {
    pub long_url: Seq<char>,
    pub race: RaceView,
}

/// What a lookup found.
#[derive(Clone, Debug, PartialEq, Eq)]
pub enum Existing {
    /// The long URL has this short identifier.
    Found(String),
    /// The persistent store holds no mapping for the long URL, and the cache
    /// gave no value.
    Absent,
    /// The persistent store failed, and the cache gave no value: whether
    /// the long URL has a mapping is not known.
    Failed,
}

/// Mathematical value of an [`Existing`].
pub enum ExistingView {
    Found(Seq<char>),
    Absent,
    Failed,
}

impl View for Existing {
    type V = ExistingView;

    open spec fn view(&self) -> ExistingView {
        match self {
            Existing::Found(short) => ExistingView::Found(short@),
            Existing::Absent => ExistingView::Absent,
            Existing::Failed => ExistingView::Failed,
        }
    }
}

/// What one step of a lookup asks of the caller.
#[derive(Debug)]
pub struct LookupStep {
    /// The result, at the step that decides the lookup; `None` at every
    /// other step.
    pub decision: Option<Existing>,
    /// Detached work to start.
    pub tasks: Vec<Task>,
}

/// Mathematical value of a [`LookupStep`].
pub struct LookupStepView {
    pub decision: Option<ExistingView>,
    pub tasks: Seq<TaskView>,
}

impl View for LookupStep {
    type V = LookupStepView;

    open spec fn view(&self) -> LookupStepView {
        LookupStepView {
            decision: match self.decision {
                Some(existing) => Some(existing@),
                None => None,
            },
            tasks: tasks_view(self.tasks@),
        }
    }
}

impl LookupStepView {
    /// A step that asks nothing.
    pub open spec fn quiet() -> LookupStepView {
        LookupStepView { decision: None, tasks: seq![] }
    }

    /// What the step that brings about `verdict` asks, for a lookup of
    /// `long_url`. A hit in the persistent store is written back to the
    /// cache under the URL's derived key; a hit in the cache needs no repair.
    /// Where neither source had a value, the result tells a store that holds
    /// no mapping from one that failed.
    pub open spec fn of(long_url: Seq<char>, verdict: Option<VerdictView>) -> LookupStepView {
        match verdict {
            Some(VerdictView::Won { source: Source::Database, value }) => LookupStepView {
                decision: Some(ExistingView::Found(value)),
                tasks: seq![TaskView::CacheSet { key: long_url_key(long_url), value }],
            },
            Some(VerdictView::Won { source: Source::Cache, value }) => LookupStepView {
                decision: Some(ExistingView::Found(value)),
                tasks: seq![],
            },
            Some(VerdictView::Exhausted { database_failed }) => LookupStepView {
                decision: Some(
                    if database_failed {
                        ExistingView::Failed
                    } else {
                        ExistingView::Absent
                    },
                ),
                tasks: seq![],
            },
            _ => LookupStepView::quiet(),
        }
    }
}

impl LookupView {
    /// The lookup of `long_url` before any source has answered.
    pub open spec fn start(long_url: Seq<char>) -> LookupView {
        LookupView { long_url, race: RaceView::start() }
    }

    /// The key under which the cache is asked.
    pub open spec fn cache_key(self) -> Seq<char> {
        long_url_key(self.long_url)
    }

    /// The lookup after `source` answers `reply`, and what that step asks.
    pub open spec fn step(self, source: Source, reply: ReplyView) -> (LookupView, LookupStepView) {
        (
            LookupView { race: self.race.settle(source, reply), ..self },
            LookupStepView::of(self.long_url, self.race.decision(source, reply)),
        )
    }
}

impl View for Lookup {
    type V = LookupView;

    closed spec fn view(&self) -> LookupView {
        LookupView { long_url: self.long_url@, race: self.race@ }
    }
}

impl Lookup {
    /// Begins a lookup of the short identifier of `long_url`. The caller
    /// asks the persistent store by the URL and the cache by
    /// [`Lookup::cache_key`], both at once.
    pub fn new(long_url: &str) -> (lookup: Lookup)
        ensures
            lookup@ == LookupView::start(long_url@),
    {
        Lookup { long_url: long_url.to_owned(), race: Race::new() }
    }

    /// The long URL that is looked up.
    pub fn long_url(&self) -> (long_url: &str)
        ensures
            long_url@ == self@.long_url,
    {
        self.long_url.as_str()
    }

    /// The key under which the cache is asked: the URL's derived key.
    pub fn cache_key(&self) -> (key: String)
        ensures
            key@ == self@.cache_key(),
    {
        get_long_url_key(self.long_url.as_str())
    }

    /// The statement with which the persistent store is asked.
    pub fn statement(&self) -> (statement: Statement)
        ensures
            statement@ == (StatementView::FindShort { long_url: self@.long_url }),
    {
        Statement::FindShort { long_url: self.long_url.clone() }
    }

    /// Whether `source` answering `reply` now would end the lookup with the
    /// finding that the long URL has no mapping.
    pub fn comes_up_empty(&self, source: Source, reply: &Reply) -> (empty: bool)
        ensures
            empty == self@.race.comes_up_empty(source, reply@),
    {
        self.race.comes_up_empty(source, reply)
    }
}

/// One step of the write-path lookup: `source` answered `reply`.
///
/// The first source to answer with a short identifier decides the lookup.
/// If that source is the persistent store, the pair is written back to the
/// cache as detached work. The lookup ends without an identifier only when
/// both sources have answered and neither had one: the long URL is absent
/// if the persistent store holds no mapping for it, and the lookup has
/// failed if the persistent store did.
pub fn get_short_from_db(lookup: Lookup, source: Source, reply: Reply) -> (out: (
    Lookup,
    LookupStep,
))
    ensures
        out.0@ == lookup@.step(source, reply@).0,
        out.1@ == lookup@.step(source, reply@).1,
{
    let Lookup { long_url, race } = lookup;
    let (race, decided) = race.decide(source, reply);
    let step = match decided {
        Some(Verdict::Won { source: Source::Database, value }) => {
            let key = get_long_url_key(long_url.as_str());
            let tasks = vec![Task::CacheSet { key, value: value.clone() }];
            assert(tasks_view(tasks@) =~= seq![
                TaskView::CacheSet { key: long_url_key(long_url@), value: value@ },
            ]);
            LookupStep { decision: Some(Existing::Found(value)), tasks }
        },
        Some(Verdict::Won { source: Source::Cache, value }) => {
            let tasks: Vec<Task> = Vec::new();
            assert(tasks_view(tasks@) =~= seq![]);
            LookupStep { decision: Some(Existing::Found(value)), tasks }
        },
        Some(Verdict::Exhausted { database_failed }) => {
            let tasks: Vec<Task> = Vec::new();
            assert(tasks_view(tasks@) =~= seq![]);
            let existing = if database_failed {
                Existing::Failed
            } else {
                Existing::Absent
            };
            LookupStep { decision: Some(existing), tasks }
        },
        _ => {
            let tasks: Vec<Task> = Vec::new();
            assert(tasks_view(tasks@) =~= seq![]);
            LookupStep { decision: None, tasks }
        },
    };
    (Lookup { long_url, race }, step)
}

} // verus!
