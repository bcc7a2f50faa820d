//! A model of the two stores, and what the service guarantees over it.
//!
//! The persistent store is a table of mappings from short identifiers to
//! long URLs, in which no identifier and no URL occurs twice, and a list of
//! recorded visits. The cache is a table of entries that may vanish at any
//! time. Both may fail to answer. The guarantees below hold of every order
//! in which the two answer and of every choice of detached work that is
//! carried out.

use vstd::prelude::*;
use crate::controllers::shorts::{
    CreateActionView, CreateEventView, CreateResponseView, CreationView, GotoResponseView,
    GotoStepView, ResolutionView,
};
use crate::bindings::base64url_u64;
use crate::identifier::{is_short_id, lemma_uid_text_shape};
use crate::race::{other, ReplyView, Source};
use crate::repos::cache::{is_derived_key, long_url_key};
use crate::repos::db::{ExistingView, LookupStepView, LookupView};
use crate::tasks::TaskView;

verus! {

/// The contents of the two stores.
pub struct Stores {
    /// The mappings of the persistent store: short identifier to long URL.
    pub shorts: Map<Seq<char>, Seq<char>>,
    /// The entries of the cache.
    pub cache: Map<Seq<char>, Seq<char>>,
    /// The recorded visits, each by the short identifier visited.
    pub visits: Seq<Seq<char>>,
}

impl Stores {
    /// Whether the persistent store maps `short` to `long_url`.
    pub open spec fn holds(self, short: Seq<char>, long_url: Seq<char>) -> bool {
        self.shorts.dom().contains(short) && self.shorts[short] == long_url
    }

    /// Whether the persistent store has a mapping for `long_url`.
    pub open spec fn knows_url(self, long_url: Seq<char>) -> bool {
        exists|short: Seq<char>| #[trigger] self.holds(short, long_url)
    }

    /// Whether the cache entry under `key` is the long URL that the
    /// persistent store maps the identifier `key` to.
    pub open spec fn forward_entry(self, key: Seq<char>) -> bool {
        self.holds(key, self.cache[key])
    }

    /// Whether the cache entry under `key` is the short identifier of a
    /// long URL whose derived key is `key`.
    pub open spec fn reverse_entry(self, key: Seq<char>) -> bool {
        exists|long_url: Seq<char>|
            key == #[trigger] long_url_key(long_url) && self.holds(self.cache[key], long_url)
    }

    /// What holds of the stores at all times: identifiers are well formed,
    /// no long URL has two identifiers, every cache entry repeats a mapping
    /// of the persistent store, and every visit is of an identifier that
    /// exists.
    pub open spec fn sound(self) -> bool {
        &&& forall|short: Seq<char>| #[trigger]
            self.shorts.dom().contains(short) ==> is_short_id(short)
        &&& forall|a: Seq<char>, b: Seq<char>|
            self.shorts.dom().contains(a) && self.shorts.dom().contains(b) && #[trigger] self.shorts[a]
                == #[trigger] self.shorts[b] ==> a == b
        &&& forall|key: Seq<char>| #[trigger]
            self.cache.dom().contains(key) ==> self.forward_entry(key) || self.reverse_entry(key)
        &&& forall|i: int|
            0 <= i < self.visits.len() ==> self.shorts.dom().contains(#[trigger] self.visits[i])
    }

    /// What the persistent store answers, when it answers, to the question
    /// for the long URL of `short`.
    pub open spec fn long_url_answer(self, short: Seq<char>) -> ReplyView {
        if self.shorts.dom().contains(short) {
            ReplyView::Found(self.shorts[short])
        } else {
            ReplyView::Missing
        }
    }

    /// What the persistent store answers, when it answers, to the question
    /// for the short identifier of `long_url`.
    pub open spec fn short_answer(self, long_url: Seq<char>) -> ReplyView {
        if self.knows_url(long_url) {
            ReplyView::Found(choose|short: Seq<char>| #[trigger] self.holds(short, long_url))
        } else {
            ReplyView::Missing
        }
    }

    /// Whether the cache may give `reply` when asked for `key`: it may fail,
    /// it may have lost the entry, and otherwise it gives the entry.
    pub open spec fn cache_may_answer(self, key: Seq<char>, reply: ReplyView) -> bool {
        ||| reply is Failed
        ||| reply is Missing
        ||| self.cache.dom().contains(key) && reply == ReplyView::Found(self.cache[key])
    }
}

/// Whether the persistent store may give `reply` where the true answer is
/// `truth`: it gives the true answer or fails.
pub open spec fn database_may_answer(truth: ReplyView, reply: ReplyView) -> bool {
    reply == truth || reply is Failed
}

/// The answers that one request gets: which source answers first, and what
/// each of the two answers.
pub struct Answers {
    pub first: Source,
    pub database: ReplyView,
    pub cache: ReplyView,
}

impl Answers {
    /// The source that answers second.
    pub open spec fn second(self) -> Source {
        other(self.first)
    }

    /// What `source` answers.
    pub open spec fn of(self, source: Source) -> ReplyView {
        match source {
            Source::Database => self.database,
            Source::Cache => self.cache,
        }
    }
}

/// What resolving `short` asks of the caller in all, when the two sources
/// answer as `answers` says: what the deciding step asks, which is the
/// first step where the first answer is a value and the second otherwise.
pub open spec fn resolve(short: Seq<char>, answers: Answers) -> GotoStepView {
    let (waiting, early) = ResolutionView::start(short).step(
        answers.first,
        answers.of(answers.first),
    );
    let (_, late) = waiting.step(answers.second(), answers.of(answers.second()));
    if early.response is Some {
        early
    } else {
        late
    }
}

/// Resolving the identifier of a stored mapping redirects to its long URL:
/// whichever source answers first, whatever the cache holds or has lost,
/// and whether or not the cache fails. Only where the persistent store fails
/// and the cache has no value is the resolution unavailable; it is never
/// "not found", and never a redirect to another URL.
pub proof fn lemma_resolve_finds_stored_mapping(
    stores: Stores,
    short: Seq<char>,
    long_url: Seq<char>,
    answers: Answers,
)
    requires
        stores.sound(),
        stores.holds(short, long_url),
        database_may_answer(stores.long_url_answer(short), answers.database),
        stores.cache_may_answer(short, answers.cache),
    ensures
        resolve(short, answers).response == Some(GotoResponseView::Redirect(long_url))
            || resolve(short, answers).response == Some(GotoResponseView::Unavailable),
        !(answers.database is Failed) ==> resolve(short, answers).response == Some(
            GotoResponseView::Redirect(long_url),
        ),
        answers.cache is Found ==> resolve(short, answers).response == Some(
            GotoResponseView::Redirect(long_url),
        ),
{
}

/// Resolving an identifier that has no mapping is "not found" where the
/// persistent store answers, and unavailable where it fails. It is never a
/// redirect, and starts no work, whatever the cache holds: an entry of the
/// other direction, kept under a derived key, is not taken for a long URL.
pub proof fn lemma_resolve_rejects_unknown_identifier(
    stores: Stores,
    short: Seq<char>,
    answers: Answers,
)
    requires
        stores.sound(),
        !stores.shorts.dom().contains(short),
        database_may_answer(stores.long_url_answer(short), answers.database),
        stores.cache_may_answer(short, answers.cache),
    ensures
        resolve(short, answers).response == Some(
            if answers.database is Failed {
                GotoResponseView::Unavailable
            } else {
                GotoResponseView::NotFound
            },
        ),
        resolve(short, answers).tasks == Seq::<TaskView>::empty(),
{
}

/// Where both sources answer that they hold nothing, the resolution is "not
/// found", not a failure, and starts no work, in either order of the
/// answers.
pub proof fn lemma_resolve_of_two_misses_is_not_found(short: Seq<char>, first: Source)
    ensures
        resolve(
            short,
            Answers { first, database: ReplyView::Missing, cache: ReplyView::Missing },
        ) == (GotoStepView { response: Some(GotoResponseView::NotFound), tasks: seq![] }),
{
}

/// A value from the cache is the response at once: the first step answers
/// with the redirect and records the visit, before the persistent store has
/// said anything, and whatever it says later changes nothing. Only for an
/// identifier with the shape of a derived key, under which the cache keeps
/// no long URL, does the value count as no value.
pub proof fn lemma_cache_hit_answers_at_once(
    short: Seq<char>,
    long_url: Seq<char>,
    database: ReplyView,
)
    ensures
        !is_derived_key(short) ==> ResolutionView::start(short).step(
            Source::Cache,
            ReplyView::Found(long_url),
        ).1 == (GotoStepView {
            response: Some(GotoResponseView::Redirect(long_url)),
            tasks: seq![TaskView::GotoStat { short }],
        }),
        !is_derived_key(short) ==> ResolutionView::start(short).step(
            Source::Cache,
            ReplyView::Found(long_url),
        ).0.step(Source::Database, database).1 == GotoStepView::quiet(),
        !is_derived_key(short) ==> resolve(
            short,
            Answers { first: Source::Cache, database, cache: ReplyView::Found(long_url) },
        ).response == Some(GotoResponseView::Redirect(long_url)),
        is_derived_key(short) ==> ResolutionView::start(short).step(
            Source::Cache,
            ReplyView::Found(long_url),
        ) == ResolutionView::start(short).step(Source::Cache, ReplyView::Missing),
{
}

/// For an identifier with the shape of a derived key, a resolution answers
/// as the persistent store alone would, whatever the cache answers and
/// whichever source is first.
pub proof fn lemma_key_shaped_identifier_bypasses_cache(short: Seq<char>, answers: Answers)
    requires
        is_derived_key(short),
    ensures
        resolve(short, answers).response == Some(
            match answers.database {
                ReplyView::Found(long_url) => GotoResponseView::Redirect(long_url),
                ReplyView::Missing => GotoResponseView::NotFound,
                ReplyView::Failed => GotoResponseView::Unavailable,
            },
        ),
{
}

/// No answer of one source without a value ends a resolution while the
/// other source is out.
pub proof fn lemma_lone_miss_decides_nothing(short: Seq<char>, source: Source, reply: ReplyView)
    requires
        !(reply is Found),
    ensures
        ResolutionView::start(short).step(source, reply).1 == GotoStepView::quiet(),
        ResolutionView::start(short).step(source, reply).0.race.racing(),
{
}

/// With the cache failing, a resolution answers as the persistent store
/// alone would, in either order of the answers.
pub proof fn lemma_resolve_without_cache(short: Seq<char>, first: Source, database: ReplyView)
    ensures
        resolve(short, Answers { first, database, cache: ReplyView::Failed }).response == Some(
            match database {
                ReplyView::Found(long_url) => GotoResponseView::Redirect(long_url),
                ReplyView::Missing => GotoResponseView::NotFound,
                ReplyView::Failed => GotoResponseView::Unavailable,
            },
        ),
{
}

/// The cache does not change what a resolution answers: where the
/// persistent store answers, the response is the one it would be with the
/// cache failing, whatever the cache holds and whichever source is first.
pub proof fn lemma_cache_is_transparent_to_resolve(
    stores: Stores,
    short: Seq<char>,
    answers: Answers,
)
    requires
        stores.sound(),
        answers.database == stores.long_url_answer(short),
        stores.cache_may_answer(short, answers.cache),
    ensures
        resolve(short, answers).response == resolve(
            short,
            Answers { cache: ReplyView::Failed, ..answers },
        ).response,
{
}

/// What looking up the short identifier of `long_url` asks of the caller in
/// all, when the two sources answer as `answers` says: what the deciding
/// step asks.
pub open spec fn find_short(long_url: Seq<char>, answers: Answers) -> LookupStepView {
    let (waiting, early) = LookupView::start(long_url).step(
        answers.first,
        answers.of(answers.first),
    );
    let (_, late) = waiting.step(answers.second(), answers.of(answers.second()));
    if early.decision is Some {
        early
    } else {
        late
    }
}

impl Stores {
    /// Whether no other long URL in the persistent store has the derived
    /// key of `long_url`.
    pub open spec fn key_is_unshared(self, long_url: Seq<char>) -> bool {
        forall|other: Seq<char>|
            self.knows_url(other) && #[trigger] long_url_key(other) == long_url_key(long_url)
                ==> other == long_url
    }
}

/// Looking up the long URL of a stored mapping finds its short identifier,
/// whichever source answers first, and never another identifier. The lookup
/// fails exactly where the persistent store fails and the cache has no
/// value. It finds the long URL absent exactly where the persistent store
/// answers and has no mapping for it.
///
/// Left out is the case in which the cache answers with a value while
/// another long URL in the persistent store shares the derived key: the
/// value may then be the identifier of that other URL.
pub proof fn lemma_find_short_is_faithful(stores: Stores, long_url: Seq<char>, answers: Answers)
    requires
        stores.sound(),
        database_may_answer(stores.short_answer(long_url), answers.database),
        stores.cache_may_answer(long_url_key(long_url), answers.cache),
        answers.cache is Found ==> stores.key_is_unshared(long_url),
    ensures
        find_short(long_url, answers).decision matches Some(ExistingView::Found(short))
            ==> stores.holds(short, long_url),
        find_short(long_url, answers).decision is Some,
        find_short(long_url, answers).decision == Some(ExistingView::Failed)
            <==> answers.database is Failed && !(answers.cache is Found),
        find_short(long_url, answers).decision == Some(ExistingView::Absent)
            <==> !stores.knows_url(long_url) && !(answers.database is Failed),
{
}

impl Stores {
    /// The stores after `task` was carried out. A cache write stores the
    /// entry. A visit is recorded only of an identifier that exists.
    pub open spec fn apply(self, task: TaskView) -> Stores {
        match task {
            TaskView::CacheSet { key, value } => Stores {
                cache: self.cache.insert(key, value),
                ..self
            },
            TaskView::GotoStat { short } => if self.shorts.dom().contains(short) {
                Stores { visits: self.visits.push(short), ..self }
            } else {
                self
            },
        }
    }

    /// The stores after those of `tasks` that are in `done` were carried
    /// out, in order. The others were lost.
    pub open spec fn carry_out(self, tasks: Seq<TaskView>, done: Set<TaskView>) -> Stores
        decreases tasks.len(),
    {
        if tasks.len() == 0 {
            self
        } else {
            let before = self.carry_out(tasks.drop_last(), done);
            if done.contains(tasks.last()) {
                before.apply(tasks.last())
            } else {
                before
            }
        }
    }

    /// Whether `task` writes nothing to the cache but what the persistent
    /// store holds: a long URL under its identifier, or an identifier under
    /// the derived key of its long URL.
    pub open spec fn admits(self, task: TaskView) -> bool {
        match task {
            TaskView::CacheSet { key, value } => self.holds(key, value) || (exists|
                long_url: Seq<char>,
            |
                key == #[trigger] long_url_key(long_url) && self.holds(value, long_url)),
            TaskView::GotoStat { .. } => true,
        }
    }
}

/// Carrying out any of a list of tasks that the stores admit leaves them
/// sound, leaves the mappings as they are, and leaves every recorded visit
/// in its place: visits are only ever added.
pub proof fn lemma_carry_out_keeps_sound(stores: Stores, tasks: Seq<TaskView>, done: Set<TaskView>)
    requires
        stores.sound(),
        forall|i: int| 0 <= i < tasks.len() ==> stores.admits(#[trigger] tasks[i]),
    ensures
        stores.carry_out(tasks, done).sound(),
        stores.carry_out(tasks, done).shorts == stores.shorts,
        stores.visits.is_prefix_of(stores.carry_out(tasks, done).visits),
    decreases tasks.len(),
{
    if tasks.len() > 0 {
        lemma_carry_out_keeps_sound(stores, tasks.drop_last(), done);
    }
}

/// The detached work of a resolution writes nothing to the cache but what
/// the persistent store holds: whatever part of it is carried out, the
/// stores stay sound and the mappings stay as they are.
pub proof fn lemma_resolve_keeps_stores_sound(
    stores: Stores,
    short: Seq<char>,
    answers: Answers,
    done: Set<TaskView>,
)
    requires
        stores.sound(),
        database_may_answer(stores.long_url_answer(short), answers.database),
        stores.cache_may_answer(short, answers.cache),
    ensures
        stores.carry_out(resolve(short, answers).tasks, done).sound(),
        stores.carry_out(resolve(short, answers).tasks, done).shorts == stores.shorts,
{
    let tasks = resolve(short, answers).tasks;
    lemma_carry_out_keeps_sound(stores, tasks, done);
}

/// The detached work of a lookup writes nothing to the cache but what the
/// persistent store holds.
pub proof fn lemma_find_short_keeps_stores_sound(
    stores: Stores,
    long_url: Seq<char>,
    answers: Answers,
    done: Set<TaskView>,
)
    requires
        stores.sound(),
        database_may_answer(stores.short_answer(long_url), answers.database),
        stores.cache_may_answer(long_url_key(long_url), answers.cache),
    ensures
        stores.carry_out(find_short(long_url, answers).tasks, done).sound(),
        stores.carry_out(find_short(long_url, answers).tasks, done).shorts == stores.shorts,
{
    let tasks = find_short(long_url, answers).tasks;
    lemma_carry_out_keeps_sound(stores, tasks, done);
}

/// What happens around one creation: the answers to its lookup, the number
/// on offer for the identifier of a new mapping, if the caller has one, and
/// whether the persistent store stores the mapping if it is asked to.
pub struct CreateRun {
    pub answers: Answers,
    pub uid: Option<u64>,
    pub stored: bool,
}

/// How one creation ends: the stores after the insert, if there was one,
/// the response, and the detached work asked for.
pub struct Created {
    pub stores: Stores,
    pub response: CreateResponseView,
    pub tasks: Seq<TaskView>,
}

impl Stores {
    /// Whether the persistent store can take a new mapping from `short` to
    /// `long_url`: neither may occur in it already.
    pub open spec fn accepts(self, short: Seq<char>, long_url: Seq<char>) -> bool {
        !self.shorts.dom().contains(short) && !self.knows_url(long_url)
    }

    /// The stores with the mapping from `short` to `long_url` added.
    pub open spec fn insert(self, short: Seq<char>, long_url: Seq<char>) -> Stores {
        Stores { shorts: self.shorts.insert(short, long_url), ..self }
    }

    /// Whether a creation for `long_url` may run as `run` says on these
    /// stores: the sources answer what they hold or fail, and the
    /// persistent store stores a mapping only if it can take it.
    pub open spec fn may_create(self, long_url: Seq<char>, run: CreateRun) -> bool {
        &&& database_may_answer(self.short_answer(long_url), run.answers.database)
        &&& self.cache_may_answer(long_url_key(long_url), run.answers.cache)
        &&& run.stored ==> (run.uid matches Some(number) && self.accepts(
            base64url_u64(number),
            long_url,
        ))
    }
}

/// How creating a mapping for `long_url` ends on `stores` when things go as
/// `run` says: both sources answer the lookup, and if it finds the long URL
/// absent and an insert is asked for, the persistent store answers it.
pub open spec fn create(stores: Stores, long_url: Seq<char>, run: CreateRun) -> Created {
    let (waiting, early) = CreationView::start(long_url).step(
        CreateEventView::Answered {
            source: run.answers.first,
            reply: run.answers.of(run.answers.first),
        },
        run.uid,
    );
    let (inserting, late) = waiting.step(
        CreateEventView::Answered {
            source: run.answers.second(),
            reply: run.answers.of(run.answers.second()),
        },
        run.uid,
    );
    let (_, last) = inserting.step(CreateEventView::Inserted { ok: run.stored }, run.uid);
    if let CreateActionView::Respond(response) = early.action {
        Created { stores, response, tasks: early.tasks }
    } else if let CreateActionView::Respond(response) = late.action {
        Created { stores, response, tasks: late.tasks }
    } else {
        Created {
            stores: match run.uid {
                Some(number) if run.stored => stores.insert(base64url_u64(number), long_url),
                _ => stores,
            },
            response: match last.action {
                CreateActionView::Respond(response) => response,
                _ => CreateResponseView::Unavailable,
            },
            tasks: last.tasks,
        }
    }
}

/// A creation that answers with a short identifier leaves the persistent
/// store mapping that identifier to the long URL, so that resolving it
/// afterwards leads back to the URL. It adds a mapping only where the URL
/// had none.
///
/// Left out is the case in which the cache answers with a value while
/// another long URL in the persistent store shares the derived key: the
/// value may then be the identifier of that other URL.
pub proof fn lemma_create_stores_mapping(stores: Stores, long_url: Seq<char>, run: CreateRun)
    requires
        stores.sound(),
        stores.may_create(long_url, run),
        run.answers.cache is Found ==> stores.key_is_unshared(long_url),
    ensures
        create(stores, long_url, run).response matches CreateResponseView::Page { short }
            ==> create(stores, long_url, run).stores.holds(short, long_url),
        stores.knows_url(long_url) ==> create(stores, long_url, run).stores == stores,
        create(stores, long_url, run).stores == stores || (run.uid matches Some(number) && create(
            stores,
            long_url,
            run,
        ).stores == stores.insert(base64url_u64(number), long_url)),
{
}

/// A failure of the persistent store is fatal to a creation: where the
/// store fails the lookup and the cache has no value, the creation is
/// unavailable, the mappings stay as they are, and no work is started,
/// whatever number is on offer and whatever the store would say to an
/// insert.
pub proof fn lemma_create_fails_with_store(stores: Stores, long_url: Seq<char>, run: CreateRun)
    requires
        run.answers.database is Failed,
        !(run.answers.cache is Found),
    ensures
        create(stores, long_url, run).response == CreateResponseView::Unavailable,
        create(stores, long_url, run).response.status() == 500,
        create(stores, long_url, run).stores == stores,
        create(stores, long_url, run).tasks == Seq::<TaskView>::empty(),
{
}

/// A creation leaves the stores sound, whatever part of its detached work
/// is carried out.
pub proof fn lemma_create_keeps_stores_sound(
    stores: Stores,
    long_url: Seq<char>,
    run: CreateRun,
    done: Set<TaskView>,
)
    requires
        stores.sound(),
        stores.may_create(long_url, run),
    ensures
        create(stores, long_url, run).stores.sound(),
        create(stores, long_url, run).stores.carry_out(
            create(stores, long_url, run).tasks,
            done,
        ).sound(),
        create(stores, long_url, run).stores.carry_out(
            create(stores, long_url, run).tasks,
            done,
        ).shorts == create(stores, long_url, run).stores.shorts,
{
    let created = create(stores, long_url, run);
    if created.stores != stores {
        lemma_uid_text_shape(run.uid->Some_0);
        lemma_insert_keeps_sound(stores, base64url_u64(run.uid->Some_0), long_url);
    }
    lemma_carry_out_keeps_sound(created.stores, created.tasks, done);
}

/// Adding a mapping that the persistent store can take, under a well-formed
/// identifier, leaves the stores sound.
pub proof fn lemma_insert_keeps_sound(stores: Stores, short: Seq<char>, long_url: Seq<char>)
    requires
        stores.sound(),
        is_short_id(short),
        stores.accepts(short, long_url),
    ensures
        stores.insert(short, long_url).sound(),
{
    let after = stores.insert(short, long_url);
    assert forall|a: Seq<char>, b: Seq<char>|
        after.shorts.dom().contains(a) && after.shorts.dom().contains(b) && #[trigger] after.shorts[a]
            == #[trigger] after.shorts[b] implies a == b by {
        if a != b {
            if a == short {
                assert(stores.holds(b, long_url));
            } else if b == short {
                assert(stores.holds(a, long_url));
            }
        }
    }
}

/// Creating a mapping for the same long URL twice answers with the same
/// short identifier both times, and leaves exactly one mapping for the URL:
/// the second creation adds none. This holds whichever sources answer
/// first, whatever the cache has kept of the first creation, and whichever
/// numbers are on offer.
///
/// The second creation answers with an identifier unless the persistent
/// store fails its lookup and the cache has lost the entry; it then is
/// unavailable at once, and asks for no insert.
///
/// Left out is the case in which the cache answers with a value while
/// another long URL in the persistent store shares the derived key: the
/// value may then be the identifier of that other URL.
pub proof fn lemma_create_is_idempotent(
    stores: Stores,
    long_url: Seq<char>,
    first: CreateRun,
    done: Set<TaskView>,
    second: CreateRun,
)
    requires
        stores.sound(),
        stores.may_create(long_url, first),
        create(stores, long_url, first).response is Page,
        first.answers.cache is Found || second.answers.cache is Found ==> stores.key_is_unshared(
            long_url,
        ),
        create(stores, long_url, first).stores.carry_out(
            create(stores, long_url, first).tasks,
            done,
        ).may_create(long_url, second),
    ensures
        ({
            let once = create(stores, long_url, first);
            let between = once.stores.carry_out(once.tasks, done);
            let twice = create(between, long_url, second);
            &&& twice.stores == between
            &&& twice.stores.shorts == once.stores.shorts
            &&& twice.response == once.response || twice.response is Unavailable
            &&& twice.response is Unavailable ==> second.answers.database is Failed && !(
            second.answers.cache is Found)
            &&& twice.stores.holds(once.response->short, long_url)
            &&& forall|short: Seq<char>| #[trigger]
                twice.stores.holds(short, long_url) ==> once.response
                    == (CreateResponseView::Page { short })
        }),
{
    let once = create(stores, long_url, first);
    let between = once.stores.carry_out(once.tasks, done);
    lemma_create_keeps_stores_sound(stores, long_url, first, done);
    let short = once.response->short;
    assert(between.holds(short, long_url));
    if second.answers.cache is Found {
        assert forall|other: Seq<char>|
            between.knows_url(other) && #[trigger] long_url_key(other) == long_url_key(
                long_url,
            ) implies other == long_url by {
            let held = choose|held: Seq<char>| #[trigger] between.holds(held, other);
            if other != long_url {
                assert(stores.holds(held, other));
            }
        }
    }
}

/// How many of `visits` are of an identifier that `shorts` maps to
/// `long_url`.
pub open spec fn visits_to(
    visits: Seq<Seq<char>>,
    shorts: Map<Seq<char>, Seq<char>>,
    long_url: Seq<char>,
) -> nat
    decreases visits.len(),
{
    if visits.len() == 0 {
        0
    } else {
        visits_to(visits.drop_last(), shorts, long_url) + if shorts.dom().contains(visits.last())
            && shorts[visits.last()] == long_url {
            1nat
        } else {
            0nat
        }
    }
}

impl Stores {
    /// The number of visits that the report attributes to `long_url`: the
    /// recorded visits of the identifier mapped to it.
    pub open spec fn total(self, long_url: Seq<char>) -> nat {
        visits_to(self.visits, self.shorts, long_url)
    }
}

impl Stores {
    /// Whether `report` is what the persistent store may return for the
    /// ranking query: at most `limit` lines, each a long URL that was
    /// visited with its total, no URL twice, the larger totals first, and
    /// no URL left out that was visited more often than one that is listed
    /// or that would still have fitted.
    pub open spec fn may_report(self, report: Seq<(Seq<char>, int)>, limit: nat) -> bool {
        &&& report.len() <= limit
        &&& forall|i: int|
            0 <= i < report.len() ==> (#[trigger] report[i]).1 == self.total(report[i].0)
                && report[i].1 > 0
        &&& forall|i: int, j: int|
            0 <= i < j < report.len() ==> (#[trigger] report[i]).0 != (#[trigger] report[j]).0
                && report[i].1 >= report[j].1
        &&& forall|long_url: Seq<char>, i: int|
            0 <= i < report.len() && #[trigger] self.total(long_url) > (#[trigger] report[i]).1
                ==> exists|j: int| 0 <= j < report.len() && (#[trigger] report[j]).0 == long_url
        &&& forall|long_url: Seq<char>|
            report.len() < limit && #[trigger] self.total(long_url) > 0 ==> exists|j: int|
                0 <= j < report.len() && (#[trigger] report[j]).0 == long_url
    }
}

/// One resolution among several: the answers it gets, and which of its
/// detached work is carried out.
pub struct Visit {
    pub answers: Answers,
    pub done: Set<TaskView>,
}

impl Visit {
    /// Whether the resolution of `short` redirects.
    pub open spec fn redirects(self, short: Seq<char>) -> bool {
        resolve(short, self.answers).response matches Some(GotoResponseView::Redirect(_))
    }

    /// Whether the resolution of `short` redirects and its visit is
    /// recorded.
    pub open spec fn counts(self, short: Seq<char>) -> bool {
        self.redirects(short) && self.done.contains(TaskView::GotoStat { short })
    }
}

/// The stores after `short` was resolved once for each of `visits`, in
/// order.
pub open spec fn resolve_all(stores: Stores, short: Seq<char>, visits: Seq<Visit>) -> Stores
    decreases visits.len(),
{
    if visits.len() == 0 {
        stores
    } else {
        resolve_all(stores, short, visits.drop_last()).carry_out(
            resolve(short, visits.last().answers).tasks,
            visits.last().done,
        )
    }
}

/// Whether each of `visits` may run as it says on the stores that the ones
/// before it leave: the sources answer what they hold or fail.
pub open spec fn may_resolve_all(stores: Stores, short: Seq<char>, visits: Seq<Visit>) -> bool
    decreases visits.len(),
{
    if visits.len() == 0 {
        true
    } else {
        let before = resolve_all(stores, short, visits.drop_last());
        &&& may_resolve_all(stores, short, visits.drop_last())
        &&& database_may_answer(before.long_url_answer(short), visits.last().answers.database)
        &&& before.cache_may_answer(short, visits.last().answers.cache)
    }
}

/// How many of `visits` redirect and have their visit recorded.
pub open spec fn counted(short: Seq<char>, visits: Seq<Visit>) -> nat
    decreases visits.len(),
{
    if visits.len() == 0 {
        0
    } else {
        counted(short, visits.drop_last()) + if visits.last().counts(short) {
            1nat
        } else {
            0nat
        }
    }
}

/// One resolution of a stored identifier adds one visit to the total of its
/// long URL if it redirects and the visit is recorded, and none otherwise.
pub proof fn lemma_resolve_records_one_visit(
    stores: Stores,
    short: Seq<char>,
    long_url: Seq<char>,
    visit: Visit,
)
    requires
        stores.sound(),
        stores.holds(short, long_url),
        database_may_answer(stores.long_url_answer(short), visit.answers.database),
        stores.cache_may_answer(short, visit.answers.cache),
    ensures
        stores.carry_out(resolve(short, visit.answers).tasks, visit.done).total(long_url)
            == stores.total(long_url) + if visit.counts(short) {
            1nat
        } else {
            0nat
        },
{
    let tasks = resolve(short, visit.answers).tasks;
    let done = visit.done;
    let stat = TaskView::GotoStat { short };
    if tasks.len() == 1 {
        assert(stores.carry_out(tasks.drop_last(), done) == stores);
        if done.contains(stat) {
            assert(stores.apply(stat).visits.drop_last() == stores.visits);
        }
    } else if tasks.len() == 2 {
        assert(stores.carry_out(tasks.drop_last().drop_last(), done) == stores);
        let before = stores.carry_out(tasks.drop_last(), done);
        if done.contains(stat) {
            assert(before.apply(stat).visits.drop_last() == stores.visits);
        }
    }
}

/// After any number of resolutions of a stored identifier, the total of its
/// long URL has grown by the number of resolutions that redirected and had
/// their visit recorded: by no more than the number of resolutions, and by
/// no less than nothing.
pub proof fn lemma_visits_follow_resolutions(
    stores: Stores,
    short: Seq<char>,
    long_url: Seq<char>,
    visits: Seq<Visit>,
)
    requires
        stores.sound(),
        stores.holds(short, long_url),
        may_resolve_all(stores, short, visits),
    ensures
        resolve_all(stores, short, visits).sound(),
        resolve_all(stores, short, visits).shorts == stores.shorts,
        resolve_all(stores, short, visits).total(long_url) == stores.total(long_url) + counted(
            short,
            visits,
        ),
        counted(short, visits) <= visits.len(),
    decreases visits.len(),
{
    if visits.len() > 0 {
        let earlier = visits.drop_last();
        lemma_visits_follow_resolutions(stores, short, long_url, earlier);
        let before = resolve_all(stores, short, earlier);
        lemma_resolve_keeps_stores_sound(before, short, visits.last().answers, visits.last().done);
        lemma_resolve_records_one_visit(before, short, long_url, visits.last());
    }
}

/// Where every one of the resolutions redirects and has its visit recorded,
/// the total of the long URL grows by exactly their number.
pub proof fn lemma_recorded_visits_are_all_counted(
    stores: Stores,
    short: Seq<char>,
    long_url: Seq<char>,
    visits: Seq<Visit>,
)
    requires
        stores.sound(),
        stores.holds(short, long_url),
        may_resolve_all(stores, short, visits),
        forall|i: int| 0 <= i < visits.len() ==> (#[trigger] visits[i]).counts(short),
    ensures
        resolve_all(stores, short, visits).total(long_url) == stores.total(long_url)
            + visits.len(),
{
    lemma_visits_follow_resolutions(stores, short, long_url, visits);
    lemma_counted_all(short, visits);
}

/// Where every resolution counts, as many count as there are.
pub proof fn lemma_counted_all(short: Seq<char>, visits: Seq<Visit>)
    requires
        forall|i: int| 0 <= i < visits.len() ==> (#[trigger] visits[i]).counts(short),
    ensures
        counted(short, visits) == visits.len(),
    decreases visits.len(),
{
    if visits.len() > 0 {
        lemma_counted_all(short, visits.drop_last());
    }
}

/// Where the two sources do not contradict each other, a resolution
/// answers the same whichever of them is first.
pub proof fn lemma_resolve_ignores_order(short: Seq<char>, database: ReplyView, cache: ReplyView)
    requires
        database is Found && cache is Found ==> database == cache,
    ensures
        resolve(short, Answers { first: Source::Database, database, cache }).response == resolve(
            short,
            Answers { first: Source::Cache, database, cache },
        ).response,
{
}

/// The cache does not change how a creation ends: where the persistent
/// store answers the lookup, the response and the mappings are the ones
/// they would be with the cache failing.
///
/// Left out is the case in which the cache answers with a value while
/// another long URL in the persistent store shares the derived key: the
/// value may then be the identifier of that other URL.
pub proof fn lemma_cache_is_transparent_to_create(
    stores: Stores,
    long_url: Seq<char>,
    run: CreateRun,
)
    requires
        stores.sound(),
        stores.may_create(long_url, run),
        run.answers.database == stores.short_answer(long_url),
        run.answers.cache is Found ==> stores.key_is_unshared(long_url),
    ensures
        ({
            let without = CreateRun {
                answers: Answers { cache: ReplyView::Failed, ..run.answers },
                ..run
            };
            &&& create(stores, long_url, run).response == create(stores, long_url, without).response
            &&& create(stores, long_url, run).stores == create(stores, long_url, without).stores
        }),
{
}

/// After any number of resolutions of a stored identifier, a report that
/// lists its long URL gives it the total it had before plus the number of
/// resolutions that redirected and had their visit recorded; and where
/// there are fewer visited URLs than the report has room for, the report
/// lists the URL as soon as one visit was recorded.
pub proof fn lemma_report_follows_resolutions(
    stores: Stores,
    short: Seq<char>,
    long_url: Seq<char>,
    visits: Seq<Visit>,
    report: Seq<(Seq<char>, int)>,
    limit: nat,
)
    requires
        stores.sound(),
        stores.holds(short, long_url),
        may_resolve_all(stores, short, visits),
        resolve_all(stores, short, visits).may_report(report, limit),
    ensures
        forall|i: int|
            0 <= i < report.len() && (#[trigger] report[i]).0 == long_url ==> report[i].1
                == stores.total(long_url) + counted(short, visits),
        report.len() < limit && counted(short, visits) > 0 ==> exists|i: int|
            0 <= i < report.len() && (#[trigger] report[i]).0 == long_url,
{
    lemma_visits_follow_resolutions(stores, short, long_url, visits);
}

} // verus!
