//! Creating short identifiers and resolving them.

use vstd::prelude::*;
use crate::bindings::base64url_u64;
use crate::identifier::short_id_text;
use crate::race::{Race, RaceView, Reply, ReplyView, Source, Verdict, VerdictView};
use crate::repos::cache::{get_long_url_key, has_key_shape, is_derived_key, long_url_key};
use crate::repos::db::{
    add_goto_stat, get_short_from_db, Existing, ExistingView, Lookup, LookupStep, LookupView,
    Statement, StatementView,
};
use crate::tasks::{tasks_view, Task, TaskView};

verus! {

/// The answer to a request that resolves a short identifier.
#[derive(Clone, Debug, PartialEq, Eq)]
pub enum GotoResponse {
    /// Send the client on to this long URL.
    Redirect(String),
    /// No mapping exists for the identifier.
    NotFound,
    /// The persistent store failed and the cache had no value.
    Unavailable,
}

/// Mathematical value of a [`GotoResponse`].
pub enum GotoResponseView {
    Redirect(Seq<char>),
    NotFound,
    Unavailable,
}

impl View for GotoResponse {
    type V = GotoResponseView;

    open spec fn view(&self) -> GotoResponseView {
        match self {
            GotoResponse::Redirect(long_url) => GotoResponseView::Redirect(long_url@),
            GotoResponse::NotFound => GotoResponseView::NotFound,
            GotoResponse::Unavailable => GotoResponseView::Unavailable,
        }
    }
}

impl GotoResponseView {
    /// The HTTP status of the response.
    pub open spec fn status(self) -> u16 {
        match self {
            GotoResponseView::Redirect(_) => 302,
            GotoResponseView::NotFound => 404,
            GotoResponseView::Unavailable => 500,
        }
    }
}

impl GotoResponse {
    /// The HTTP status of the response.
    pub fn status(&self) -> (status: u16)
        ensures
            status == self@.status(),
    {
        match self {
            GotoResponse::Redirect(_) => 302,
            GotoResponse::NotFound => 404,
            GotoResponse::Unavailable => 500,
        }
    }

    /// The value of the `Location` header: the long URL of a redirect, and
    /// nothing for any other response.
    pub fn location(&self) -> (location: Option<&str>)
        ensures
            match self@ {
                GotoResponseView::Redirect(long_url) => location matches Some(l) && l@ == long_url,
                _ => location is None,
            },
    {
        match self {
            GotoResponse::Redirect(long_url) => Some(long_url.as_str()),
            _ => None,
        }
    }
}

/// What one step of a resolution asks of the caller.
#[derive(Debug)]
pub struct GotoStep {
    /// The response to send, at the step that decides the resolution;
    /// `None` at every other step.
    pub response: Option<GotoResponse>,
    /// Detached work to start.
    pub tasks: Vec<Task>,
}

/// Mathematical value of a [`GotoStep`].
pub struct GotoStepView {
    pub response: Option<GotoResponseView>,
    pub tasks: Seq<TaskView>,
}

impl View for GotoStep {
    type V = GotoStepView;

    open spec fn view(&self) -> GotoStepView {
        GotoStepView {
            response: match self.response {
                Some(response) => Some(response@),
                None => None,
            },
            tasks: tasks_view(self.tasks@),
        }
    }
}

impl GotoStepView {
    /// A step that asks nothing.
    pub open spec fn quiet() -> GotoStepView {
        GotoStepView { response: None, tasks: seq![] }
    }

    /// What the step that brings about `verdict` asks, for a resolution of
    /// `short`.
    ///
    /// A hit redirects and records one visit. A hit in the persistent store
    /// is also written back to the cache under the identifier itself. When
    /// both sources come back without a value, the response tells a store
    /// that knows no such identifier from one that failed, and no work is
    /// started.
    pub open spec fn of(short: Seq<char>, verdict: Option<VerdictView>) -> GotoStepView {
        match verdict {
            Some(VerdictView::Won { source: Source::Database, value }) => GotoStepView {
                response: Some(GotoResponseView::Redirect(value)),
                tasks: seq![
                    TaskView::CacheSet { key: short, value },
                    TaskView::GotoStat { short },
                ],
            },
            Some(VerdictView::Won { source: Source::Cache, value }) => GotoStepView {
                response: Some(GotoResponseView::Redirect(value)),
                tasks: seq![TaskView::GotoStat { short }],
            },
            Some(VerdictView::Exhausted { database_failed }) => GotoStepView {
                response: Some(
                    if database_failed {
                        GotoResponseView::Unavailable
                    } else {
                        GotoResponseView::NotFound
                    },
                ),
                tasks: seq![],
            },
            _ => GotoStepView::quiet(),
        }
    }
}

/// A resolution of a short identifier, in flight.
#[derive(Debug)]
pub struct Resolution {
    short: String,
    race: Race,
}

/// Mathematical value of a [`Resolution`].
pub struct ResolutionView {
    pub short: Seq<char>,
    pub race: RaceView,
}

impl ResolutionView {
    /// The resolution of `short` before any source has answered.
    pub open spec fn start(short: Seq<char>) -> ResolutionView {
        ResolutionView { short, race: RaceView::start() }
    }

    /// The key under which the cache is asked: the identifier itself.
    pub open spec fn cache_key(self) -> Seq<char> {
        self.short
    }

    /// What the resolution takes `source` to have answered when it answers
    /// `reply`. A value from the cache counts as no value where the
    /// identifier has the shape of a derived key: under such a key the
    /// cache keeps the short identifier of a long URL, not a long URL.
    pub open spec fn heard(self, source: Source, reply: ReplyView) -> ReplyView {
        if source == Source::Cache && reply is Found && is_derived_key(self.short) {
            ReplyView::Missing
        } else {
            reply
        }
    }

    /// The resolution after `source` answers `reply`, and what that step
    /// asks.
    pub open spec fn step(self, source: Source, reply: ReplyView) -> (
        ResolutionView,
        GotoStepView,
    ) {
        (
            ResolutionView { race: self.race.settle(source, self.heard(source, reply)), ..self },
            GotoStepView::of(self.short, self.race.decision(source, self.heard(source, reply))),
        )
    }
}

impl View for Resolution {
    type V = ResolutionView;

    closed spec fn view(&self) -> ResolutionView {
        ResolutionView { short: self.short@, race: self.race@ }
    }
}

impl Resolution {
    /// Begins resolving `short`. The caller asks the persistent store by the
    /// identifier and the cache by [`Resolution::cache_key`], both at once.
    pub fn new(short: &str) -> (resolution: Resolution)
        ensures
            resolution@ == ResolutionView::start(short@),
    {
        Resolution { short: short.to_owned(), race: Race::new() }
    }

    /// The identifier that is resolved.
    pub fn short(&self) -> (short: &str)
        ensures
            short@ == self@.short,
    {
        self.short.as_str()
    }

    /// The key under which the cache is asked: the identifier itself.
    pub fn cache_key(&self) -> (key: String)
        ensures
            key@ == self@.cache_key(),
    {
        self.short.clone()
    }

    /// The statement with which the persistent store is asked.
    pub fn statement(&self) -> (statement: Statement)
        ensures
            statement@ == (StatementView::FindLongUrl { short: self@.short }),
    {
        Statement::FindLongUrl { short: self.short.clone() }
    }
}

/// One step of resolving a short identifier: `source` answered `reply`.
///
/// The first source to answer with a long URL decides the resolution, and
/// the response is a redirect to that URL. An answer without a value
/// decides nothing while the other source is out. When both sources have
/// answered without a value, the response is "not found" if the persistent
/// store knows no such identifier and "unavailable" if it failed. For an
/// identifier that has the shape of a derived cache key, a value from the
/// cache counts as no value: the entry belongs to the other direction.
pub fn goto_long_url(resolution: Resolution, source: Source, reply: Reply) -> (out: (
    Resolution,
    GotoStep,
))
    ensures
        out.0@ == resolution@.step(source, reply@).0,
        out.1@ == resolution@.step(source, reply@).1,
{
    let Resolution { short, race } = resolution;
    let heard = match (source, reply) {
        (Source::Cache, Reply::Found(value)) => {
            if has_key_shape(short.as_str()) {
                Reply::Missing
            } else {
                Reply::Found(value)
            }
        },
        (_, reply) => reply,
    };
    let (race, decided) = race.decide(source, heard);
    let step = match decided {
        Some(Verdict::Won { source: Source::Database, value }) => {
            let tasks = vec![
                Task::CacheSet { key: short.clone(), value: value.clone() },
                add_goto_stat(short.as_str()),
            ];
            assert(tasks_view(tasks@) =~= seq![
                TaskView::CacheSet { key: short@, value: value@ },
                TaskView::GotoStat { short: short@ },
            ]);
            GotoStep { response: Some(GotoResponse::Redirect(value)), tasks }
        },
        Some(Verdict::Won { source: Source::Cache, value }) => {
            let tasks = vec![add_goto_stat(short.as_str())];
            assert(tasks_view(tasks@) =~= seq![TaskView::GotoStat { short: short@ }]);
            GotoStep { response: Some(GotoResponse::Redirect(value)), tasks }
        },
        Some(Verdict::Exhausted { database_failed }) => {
            let tasks: Vec<Task> = Vec::new();
            assert(tasks_view(tasks@) =~= seq![]);
            let response = if database_failed {
                GotoResponse::Unavailable
            } else {
                GotoResponse::NotFound
            };
            GotoStep { response: Some(response), tasks }
        },
        _ => {
            let tasks: Vec<Task> = Vec::new();
            assert(tasks_view(tasks@) =~= seq![]);
            GotoStep { response: None, tasks }
        },
    };
    (Resolution { short, race }, step)
}

/// A resolution answers once: after the step that hands out the response,
/// every further answer is dropped, asks nothing and changes nothing.
pub proof fn lemma_resolution_answers_once(
    resolution: ResolutionView,
    source: Source,
    reply: ReplyView,
    later_source: Source,
    later_reply: ReplyView,
)
    requires
        resolution.step(source, reply).1.response is Some,
    ensures
        resolution.step(source, reply).0.step(later_source, later_reply).1
            == GotoStepView::quiet(),
        resolution.step(source, reply).0.step(later_source, later_reply).0 == resolution.step(
            source,
            reply,
        ).0,
{
}

/// A step that hands out no response starts no work, and a step that
/// records a visit redirects: a visit is recorded at most once for each
/// resolution, and only for one that succeeds.
pub proof fn lemma_visit_is_recorded_with_redirect(
    resolution: ResolutionView,
    source: Source,
    reply: ReplyView,
)
    ensures
        resolution.step(source, reply).1.response is None ==> resolution.step(source, reply).1
            == GotoStepView::quiet(),
        resolution.step(source, reply).1.tasks.contains(
            TaskView::GotoStat { short: resolution.short },
        ) <==> resolution.step(source, reply).1.response matches Some(
            GotoResponseView::Redirect(_),
        ),
{
    let step = resolution.step(source, reply).1;
    let stat = TaskView::GotoStat { short: resolution.short };
    if step.response matches Some(GotoResponseView::Redirect(_)) {
        assert(step.tasks[step.tasks.len() - 1] == stat);
    }
}

/// The answer to a request that creates a short identifier.
#[derive(Clone, Debug, PartialEq, Eq)]
pub enum CreateResponse {
    /// Show the page that presents this short identifier.
    Page { short: String },
    /// The mapping could not be stored.
    Unavailable,
}

/// Mathematical value of a [`CreateResponse`].
pub enum CreateResponseView {
    Page { short: Seq<char> },
    Unavailable,
}

impl View for CreateResponse {
    type V = CreateResponseView;

    open spec fn view(&self) -> CreateResponseView {
        match self {
            CreateResponse::Page { short } => CreateResponseView::Page { short: short@ },
            CreateResponse::Unavailable => CreateResponseView::Unavailable,
        }
    }
}

impl CreateResponseView {
    /// The HTTP status of the response.
    pub open spec fn status(self) -> u16 {
        match self {
            CreateResponseView::Page { .. } => 200,
            CreateResponseView::Unavailable => 500,
        }
    }
}

impl CreateResponse {
    /// The HTTP status of the response.
    pub fn status(&self) -> (status: u16)
        ensures
            status == self@.status(),
    {
        match self {
            CreateResponse::Page { .. } => 200,
            CreateResponse::Unavailable => 500,
        }
    }
}

/// What the caller reports to a creation in flight.
#[derive(Clone, Debug, PartialEq, Eq)]
pub enum CreateEvent {
    /// A source answered the lookup of the long URL.
    Answered { source: Source, reply: Reply },
    /// The persistent store answered the insert: `ok` is whether the row was
    /// stored.
    Inserted { ok: bool },
}

/// Mathematical value of a [`CreateEvent`].
pub enum CreateEventView {
    Answered { source: Source, reply: ReplyView },
    Inserted { ok: bool },
}

impl View for CreateEvent {
    type V = CreateEventView;

    open spec fn view(&self) -> CreateEventView {
        match self {
            CreateEvent::Answered { source, reply } => CreateEventView::Answered {
                source: *source,
                reply: reply@,
            },
            CreateEvent::Inserted { ok } => CreateEventView::Inserted { ok: *ok },
        }
    }
}

/// What a step of a creation asks the caller to do next.
#[derive(Clone, Debug, PartialEq, Eq)]
pub enum CreateAction {
    /// Keep waiting for the next event.
    Nothing,
    /// Insert this mapping into the persistent store and report the result.
    Insert { short: String, long_url: String },
    /// Send this response; the creation is over.
    Respond(CreateResponse),
}

/// Mathematical value of a [`CreateAction`].
pub enum CreateActionView {
    Nothing,
    Insert { short: Seq<char>, long_url: Seq<char> },
    Respond(CreateResponseView),
}

impl CreateAction {
    /// The statement that carries out the action, where it is an insert.
    pub fn statement(&self) -> (statement: Option<Statement>)
        ensures
            match self@ {
                CreateActionView::Insert { short, long_url } => statement matches Some(s) && s@
                    == (StatementView::InsertShort { short, long_url }),
                _ => statement is None,
            },
    {
        match self {
            CreateAction::Insert { short, long_url } => Some(
                Statement::InsertShort { short: short.clone(), long_url: long_url.clone() },
            ),
            _ => None,
        }
    }
}

impl View for CreateAction {
    type V = CreateActionView;

    open spec fn view(&self) -> CreateActionView {
        match self {
            CreateAction::Nothing => CreateActionView::Nothing,
            CreateAction::Insert { short, long_url } => CreateActionView::Insert {
                short: short@,
                long_url: long_url@,
            },
            CreateAction::Respond(response) => CreateActionView::Respond(response@),
        }
    }
}

/// What one step of a creation asks of the caller.
#[derive(Debug)]
pub struct CreateStep {
    /// What to do next.
    pub action: CreateAction,
    /// Detached work to start.
    pub tasks: Vec<Task>,
}

/// Mathematical value of a [`CreateStep`].
pub struct CreateStepView {
    pub action: CreateActionView,
    pub tasks: Seq<TaskView>,
}

impl View for CreateStep {
    type V = CreateStepView;

    open spec fn view(&self) -> CreateStepView {
        CreateStepView { action: self.action@, tasks: tasks_view(self.tasks@) }
    }
}

impl CreateStepView {
    /// A step that asks nothing.
    pub open spec fn quiet() -> CreateStepView {
        CreateStepView { action: CreateActionView::Nothing, tasks: seq![] }
    }

    /// The step that ends a creation as unavailable, with no work started.
    pub open spec fn unavailable() -> CreateStepView {
        CreateStepView {
            action: CreateActionView::Respond(CreateResponseView::Unavailable),
            tasks: seq![],
        }
    }
}

impl CreateActionView {
    /// The HTTP status of the response that the action sends, and 0 where
    /// it sends none.
    pub open spec fn status(self) -> u16 {
        match self {
            CreateActionView::Respond(response) => response.status(),
            _ => 0,
        }
    }
}

/// A creation in flight.
#[derive(Debug)]
pub enum Creation {
    /// The long URL is being looked up.
    Looking(Lookup),
    /// No mapping was found; the insert of a new one is out.
    Inserting { long_url: String, short: String },
    /// The response was handed out.
    Finished,
}

/// Mathematical value of a [`Creation`].
pub enum CreationView {
    Looking(LookupView),
    Inserting { long_url: Seq<char>, short: Seq<char> },
    Finished,
}

impl View for Creation {
    type V = CreationView;

    open spec fn view(&self) -> CreationView {
        match self {
            Creation::Looking(lookup) => CreationView::Looking(lookup@),
            Creation::Inserting { long_url, short } => CreationView::Inserting {
                long_url: long_url@,
                short: short@,
            },
            Creation::Finished => CreationView::Finished,
        }
    }
}

impl CreationView {
    /// The creation of a mapping for `long_url` before anything has
    /// happened.
    pub open spec fn start(long_url: Seq<char>) -> CreationView {
        CreationView::Looking(LookupView::start(long_url))
    }

    /// Whether `event` makes the creation pick a new short identifier: it
    /// does when it ends the lookup with the finding that the long URL has
    /// no mapping.
    pub open spec fn needs_identifier(self, event: CreateEventView) -> bool {
        &&& self matches CreationView::Looking(lookup)
        &&& event matches CreateEventView::Answered { source, reply }
        &&& lookup.race.comes_up_empty(source, reply)
    }

    /// The creation after `event`, and what that step asks, where `uid` is
    /// the number of the short identifier to use if a new mapping is
    /// needed, or nothing where the caller could not come by one.
    ///
    /// While the lookup is open, answers are passed to it. A lookup that
    /// finds a short identifier ends the creation with that identifier, and
    /// with the cache repair the lookup asked for. A lookup that fails ends
    /// the creation as unavailable: nothing is inserted where the
    /// persistent store could not say whether the long URL has a mapping.
    /// A lookup that finds the long URL absent asks for the insert of the
    /// URL under the identifier that spells `uid`, and ends the creation as
    /// unavailable where there is no number. A stored insert ends the
    /// creation with the new identifier and warms the cache in both
    /// directions; a failed insert ends it as unavailable, with no second
    /// attempt. An event that does not belong to the phase is dropped.
    pub open spec fn step(self, event: CreateEventView, uid: Option<u64>) -> (
        CreationView,
        CreateStepView,
    ) {
        match (self, event) {
            (CreationView::Looking(lookup), CreateEventView::Answered { source, reply }) => {
                let (next, step) = lookup.step(source, reply);
                match (step.decision, uid) {
                    (None, _) => (CreationView::Looking(next), CreateStepView::quiet()),
                    (Some(ExistingView::Found(short)), _) => (
                        CreationView::Finished,
                        CreateStepView {
                            action: CreateActionView::Respond(CreateResponseView::Page { short }),
                            tasks: step.tasks,
                        },
                    ),
                    (Some(ExistingView::Absent), Some(number)) => (
                        CreationView::Inserting {
                            long_url: lookup.long_url,
                            short: base64url_u64(number),
                        },
                        CreateStepView {
                            action: CreateActionView::Insert {
                                short: base64url_u64(number),
                                long_url: lookup.long_url,
                            },
                            tasks: seq![],
                        },
                    ),
                    _ => (CreationView::Finished, CreateStepView::unavailable()),
                }
            },
            (CreationView::Inserting { long_url, short }, CreateEventView::Inserted { ok }) => (
                CreationView::Finished,
                if ok {
                    CreateStepView {
                        action: CreateActionView::Respond(CreateResponseView::Page { short }),
                        tasks: seq![
                            TaskView::CacheSet { key: short, value: long_url },
                            TaskView::CacheSet { key: long_url_key(long_url), value: short },
                        ],
                    }
                } else {
                    CreateStepView::unavailable()
                },
            ),
            _ => (self, CreateStepView::quiet()),
        }
    }
}

impl Creation {
    /// Begins creating a mapping for `long_url`: the URL is looked up first.
    pub fn new(long_url: &str) -> (creation: Creation)
        ensures
            creation@ == CreationView::start(long_url@),
    {
        Creation::Looking(Lookup::new(long_url))
    }

    /// The lookup that the creation is waiting for, while it is.
    pub fn lookup(&self) -> (lookup: Option<&Lookup>)
        ensures
            match self@ {
                CreationView::Looking(view) => lookup matches Some(l) && l@ == view,
                _ => lookup is None,
            },
    {
        match self {
            Creation::Looking(lookup) => Some(lookup),
            _ => None,
        }
    }

    /// Whether `event` makes the creation pick a new short identifier.
    pub fn needs_identifier(&self, event: &CreateEvent) -> (needed: bool)
        ensures
            needed == self@.needs_identifier(event@),
    {
        match self {
            Creation::Looking(lookup) => match event {
                CreateEvent::Answered { source, reply } => lookup.comes_up_empty(*source, reply),
                _ => false,
            },
            _ => false,
        }
    }
}

/// One step of creating a short identifier.
///
/// `uid` is the number of the identifier to use for a new mapping: the
/// caller's clock in milliseconds, shifted left by twenty bits, with twenty
/// random bits below. It is read only at the step that
/// [`Creation::needs_identifier`] points out; where the caller has no
/// number at that step, the creation ends as unavailable.
pub fn create_short(creation: Creation, event: CreateEvent, uid: Option<u64>) -> (out: (
    Creation,
    CreateStep,
))
    ensures
        out.0@ == creation@.step(event@, uid).0,
        out.1@ == creation@.step(event@, uid).1,
{
    match creation {
        Creation::Looking(lookup) => match event {
            CreateEvent::Answered { source, reply } => {
                let long_url = lookup.long_url().to_owned();
                let (lookup, step) = get_short_from_db(lookup, source, reply);
                let LookupStep { decision, tasks } = step;
                match decision {
                    None => (Creation::Looking(lookup), quiet_step()),
                    Some(Existing::Found(short)) => (
                        Creation::Finished,
                        CreateStep {
                            action: CreateAction::Respond(CreateResponse::Page { short }),
                            tasks,
                        },
                    ),
                    Some(Existing::Absent) => match uid {
                        Some(number) => {
                            let short = short_id_text(number);
                            let nothing: Vec<Task> = Vec::new();
                            assert(tasks_view(nothing@) =~= seq![]);
                            (
                                Creation::Inserting {
                                    long_url: long_url.clone(),
                                    short: short.clone(),
                                },
                                CreateStep {
                                    action: CreateAction::Insert { short, long_url },
                                    tasks: nothing,
                                },
                            )
                        },
                        None => (Creation::Finished, unavailable_step()),
                    },
                    Some(Existing::Failed) => (Creation::Finished, unavailable_step()),
                }
            },
            CreateEvent::Inserted { .. } => (Creation::Looking(lookup), quiet_step()),
        },
        Creation::Inserting { long_url, short } => match event {
            CreateEvent::Inserted { ok } => {
                if ok {
                    let key = get_long_url_key(long_url.as_str());
                    let tasks = vec![
                        Task::CacheSet { key: short.clone(), value: long_url.clone() },
                        Task::CacheSet { key, value: short.clone() },
                    ];
                    assert(tasks_view(tasks@) =~= seq![
                        TaskView::CacheSet { key: short@, value: long_url@ },
                        TaskView::CacheSet { key: long_url_key(long_url@), value: short@ },
                    ]);
                    (
                        Creation::Finished,
                        CreateStep {
                            action: CreateAction::Respond(CreateResponse::Page { short }),
                            tasks,
                        },
                    )
                } else {
                    (Creation::Finished, unavailable_step())
                }
            },
            CreateEvent::Answered { .. } => (
                Creation::Inserting { long_url, short },
                quiet_step(),
            ),
        },
        Creation::Finished => (Creation::Finished, quiet_step()),
    }
}

/// A step that asks nothing.
fn quiet_step() -> (step: CreateStep)
    ensures
        step@ == CreateStepView::quiet(),
{
    let tasks: Vec<Task> = Vec::new();
    assert(tasks_view(tasks@) =~= seq![]);
    CreateStep { action: CreateAction::Nothing, tasks }
}

/// The step that ends a creation as unavailable.
fn unavailable_step() -> (step: CreateStep)
    ensures
        step@ == CreateStepView::unavailable(),
{
    let tasks: Vec<Task> = Vec::new();
    assert(tasks_view(tasks@) =~= seq![]);
    CreateStep { action: CreateAction::Respond(CreateResponse::Unavailable), tasks }
}

/// A failure of the persistent store is fatal to a creation: where the
/// lookup ends with the store failed and the cache without a value, the
/// creation ends as unavailable at that step. It asks for no insert and
/// starts no work, whatever number is on offer.
pub proof fn lemma_store_failure_ends_creation(
    lookup: LookupView,
    source: Source,
    reply: ReplyView,
    uid: Option<u64>,
)
    requires
        lookup.race.decision(source, reply) == Some(
            VerdictView::Exhausted { database_failed: true },
        ),
    ensures
        CreationView::Looking(lookup).step(CreateEventView::Answered { source, reply }, uid) == (
            CreationView::Finished,
            CreateStepView::unavailable(),
        ),
        CreateStepView::unavailable().action.status() == 500,
        !CreationView::Looking(lookup).needs_identifier(
            CreateEventView::Answered { source, reply },
        ),
{
}

/// A creation answers once: after the step that hands out the response,
/// every further event is dropped, asks nothing and changes nothing.
pub proof fn lemma_creation_answers_once(
    creation: CreationView,
    event: CreateEventView,
    uid: Option<u64>,
    later: CreateEventView,
    later_uid: Option<u64>,
)
    requires
        creation.step(event, uid).1.action is Respond,
    ensures
        creation.step(event, uid).0 == CreationView::Finished,
        creation.step(event, uid).0.step(later, later_uid) == (
            CreationView::Finished,
            CreateStepView::quiet(),
        ),
{
}

/// An insert is asked for at most once and never repeated: it is asked for
/// under the identifier that spells the number on offer, and the step that
/// follows it ends the creation, whether or not the mapping was stored.
pub proof fn lemma_insert_is_not_retried(
    creation: CreationView,
    event: CreateEventView,
    uid: Option<u64>,
    ok: bool,
    later_uid: Option<u64>,
)
    requires
        creation.step(event, uid).1.action is Insert,
    ensures
        uid is Some,
        creation.needs_identifier(event),
        creation.step(event, uid).1.action == (CreateActionView::Insert {
            short: base64url_u64(uid->Some_0),
            long_url: creation->Looking_0.long_url,
        }),
        creation.step(event, uid).0.step(CreateEventView::Inserted { ok }, later_uid).0
            == CreationView::Finished,
        creation.step(event, uid).0.step(
            CreateEventView::Inserted { ok },
            later_uid,
        ).1.action == CreateActionView::Respond(
            if ok {
                CreateResponseView::Page { short: base64url_u64(uid->Some_0) }
            } else {
                CreateResponseView::Unavailable
            },
        ),
{
}

/// Where a step picks no new identifier, the number on offer does not
/// matter, nor whether there is one.
pub proof fn lemma_step_ignores_identifier(
    creation: CreationView,
    event: CreateEventView,
    first: Option<u64>,
    second: Option<u64>,
)
    requires
        !creation.needs_identifier(event),
    ensures
        creation.step(event, first) == creation.step(event, second),
{
}

} // verus!
