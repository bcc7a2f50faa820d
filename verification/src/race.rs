//! The first-success race between the persistent store and the cache.
//!
//! A lookup asks both sources at once. The first source to answer with a
//! value decides the race; an empty or failed answer decides nothing while
//! the other source is still out. Only when both have answered without a
//! value is the race lost.

use vstd::prelude::*;

verus! {

/// One of the two sources a lookup consults.
#[derive(Clone, Copy, Debug, PartialEq, Eq, Structural)]
pub enum Source {
    /// The persistent store, which is authoritative.
    Database,
    /// The volatile cache.
    Cache,
}

/// What one source answered.
#[derive(Clone, Debug, PartialEq, Eq)]
pub enum Reply {
    /// The source holds a value for the key.
    Found(String),
    /// The source holds nothing for the key.
    Missing,
    /// The source could not be asked, or the request failed.
    Failed,
}

/// Mathematical value of a [`Reply`].
pub enum ReplyView {
    Found(Seq<char>),
    Missing,
    Failed,
}

impl View for Reply {
    type V = ReplyView;

    open spec fn view(&self) -> ReplyView {
        match self {
            Reply::Found(value) => ReplyView::Found(value@),
            Reply::Missing => ReplyView::Missing,
            Reply::Failed => ReplyView::Failed,
        }
    }
}

impl Reply {
    /// The reply that the result of a store lookup stands for: a value is a
    /// hit, no value is a miss, and an error of any kind is a failure.
    pub fn from_result<E>(result: Result<Option<String>, E>) -> (reply: Reply)
        ensures
            reply@ == match result {
                Ok(Some(value)) => ReplyView::Found(value@),
                Ok(None) => ReplyView::Missing,
                Err(_) => ReplyView::Failed,
            },
    {
        match result {
            Ok(Some(value)) => Reply::Found(value),
            Ok(None) => Reply::Missing,
            Err(_) => Reply::Failed,
        }
    }
}

/// Where a race stands.
#[derive(Clone, Debug, PartialEq, Eq)]
pub enum Verdict {
    /// No source has answered with a value and at least one is still out.
    Racing,
    /// `source` was the first to answer with a value.
    Won { source: Source, value: String },
    /// Both sources answered and neither had a value.
    Exhausted { database_failed: bool },
}

/// Mathematical value of a [`Verdict`].
pub enum VerdictView {
    Racing,
    Won { source: Source, value: Seq<char> },
    Exhausted { database_failed: bool },
}

impl View for Verdict {
    type V = VerdictView;

    open spec fn view(&self) -> VerdictView {
        match self {
            Verdict::Racing => VerdictView::Racing,
            Verdict::Won { source, value } => VerdictView::Won { source: *source, value: value@ },
            Verdict::Exhausted { database_failed } => VerdictView::Exhausted {
                database_failed: *database_failed,
            },
        }
    }
}

/// A race in flight: what each source has answered so far.
#[derive(Clone, Debug)]
pub struct Race {
    database: Option<Reply>,
    cache: Option<Reply>,
}

/// Mathematical value of a [`Race`]: the recorded answer of each source,
/// `None` while it is still out.
pub struct RaceView {
    pub database: Option<ReplyView>,
    pub cache: Option<ReplyView>,
}

impl RaceView {
    /// The race before any source has answered.
    pub open spec fn start() -> RaceView {
        RaceView { database: None, cache: None }
    }

    /// The recorded answer of `source`.
    pub open spec fn answer(self, source: Source) -> Option<ReplyView> {
        match source {
            Source::Database => self.database,
            Source::Cache => self.cache,
        }
    }

    /// Where the race stands.
    pub open spec fn verdict(self) -> VerdictView {
        if let Some(ReplyView::Found(value)) = self.database {
            VerdictView::Won { source: Source::Database, value }
        } else if let Some(ReplyView::Found(value)) = self.cache {
            VerdictView::Won { source: Source::Cache, value }
        } else if self.database is Some && self.cache is Some {
            VerdictView::Exhausted { database_failed: self.database == Some(ReplyView::Failed) }
        } else {
            VerdictView::Racing
        }
    }

    /// Whether the race is still open.
    pub open spec fn racing(self) -> bool {
        self.verdict() is Racing
    }

    /// Whether `source` answering `reply` now would end the race without a
    /// value.
    pub open spec fn exhausts(self, source: Source, reply: ReplyView) -> bool {
        self.racing() && self.settle(source, reply).verdict() is Exhausted
    }

    /// Whether `source` answering `reply` now would end the race with the
    /// persistent store holding nothing and the cache giving no value.
    pub open spec fn comes_up_empty(self, source: Source, reply: ReplyView) -> bool {
        self.racing() && self.settle(source, reply).verdict() == (VerdictView::Exhausted {
            database_failed: false,
        })
    }

    /// The verdict that `source` answering `reply` brings about: the verdict
    /// after the answer if the race was open before it and is decided after
    /// it, and `None` otherwise.
    pub open spec fn decision(self, source: Source, reply: ReplyView) -> Option<VerdictView> {
        if self.racing() && !self.settle(source, reply).racing() {
            Some(self.settle(source, reply).verdict())
        } else {
            None
        }
    }

    /// The race after `source` answers `reply`. An answer that arrives after
    /// the race is decided, or from a source that has answered already, is
    /// dropped.
    pub open spec fn settle(self, source: Source, reply: ReplyView) -> RaceView {
        if !self.racing() || self.answer(source) is Some {
            self
        } else {
            match source {
                Source::Database => RaceView { database: Some(reply), ..self },
                Source::Cache => RaceView { cache: Some(reply), ..self },
            }
        }
    }
}

impl View for Race {
    type V = RaceView;

    closed spec fn view(&self) -> RaceView {
        RaceView {
            database: match self.database {
                Some(reply) => Some(reply@),
                None => None,
            },
            cache: match self.cache {
                Some(reply) => Some(reply@),
                None => None,
            },
        }
    }
}

impl Race {
    /// Starts a race: both sources are out.
    pub fn new() -> (race: Race)
        ensures
            race@ == RaceView::start(),
    {
        Race { database: None, cache: None }
    }

    /// Where the race stands.
    pub fn verdict(&self) -> (verdict: Verdict)
        ensures
            verdict@ == self@.verdict(),
    {
        if let Some(Reply::Found(value)) = &self.database {
            return Verdict::Won { source: Source::Database, value: value.clone() };
        }
        if let Some(Reply::Found(value)) = &self.cache {
            return Verdict::Won { source: Source::Cache, value: value.clone() };
        }
        match (&self.database, &self.cache) {
            (Some(Reply::Failed), Some(_)) => Verdict::Exhausted { database_failed: true },
            (Some(_), Some(_)) => Verdict::Exhausted { database_failed: false },
            _ => Verdict::Racing,
        }
    }

    /// Whether the race is still open.
    pub fn racing(&self) -> (open: bool)
        ensures
            open == self@.racing(),
    {
        match (&self.database, &self.cache) {
            (Some(Reply::Found(_)), _) => false,
            (_, Some(Reply::Found(_))) => false,
            (Some(_), Some(_)) => false,
            _ => true,
        }
    }

    /// Whether `source` answering `reply` now would end the race without a
    /// value.
    pub fn exhausts(&self, source: Source, reply: &Reply) -> (lost: bool)
        ensures
            lost == self@.exhausts(source, reply@),
    {
        if !self.racing() {
            return false;
        }
        if let Reply::Found(_) = reply {
            return false;
        }
        match source {
            Source::Database => self.database.is_none() && self.cache.is_some(),
            Source::Cache => self.cache.is_none() && self.database.is_some(),
        }
    }

    /// Whether `source` answering `reply` now would end the race with the
    /// persistent store holding nothing and the cache giving no value.
    pub fn comes_up_empty(&self, source: Source, reply: &Reply) -> (empty: bool)
        ensures
            empty == self@.comes_up_empty(source, reply@),
    {
        if !self.exhausts(source, reply) {
            return false;
        }
        match source {
            Source::Database => match reply {
                Reply::Missing => true,
                _ => false,
            },
            Source::Cache => match &self.database {
                Some(Reply::Missing) => true,
                _ => false,
            },
        }
    }

    /// Records that `source` answered `reply`, and hands out the verdict if
    /// this answer decided the race.
    pub fn decide(self, source: Source, reply: Reply) -> (out: (Race, Option<Verdict>))
        ensures
            out.0@ == self@.settle(source, reply@),
            out.1 is Some == self@.decision(source, reply@) is Some,
            out.1 matches Some(verdict) ==> self@.decision(source, reply@) == Some(verdict@),
    {
        let was_open = self.racing();
        let race = self.settle(source, reply);
        if was_open && !race.racing() {
            let verdict = race.verdict();
            (race, Some(verdict))
        } else {
            (race, None)
        }
    }

    /// Records that `source` answered `reply`.
    pub fn settle(self, source: Source, reply: Reply) -> (race: Race)
        ensures
            race@ == self@.settle(source, reply@),
    {
        if !self.racing() {
            return self;
        }
        match source {
            Source::Database => {
                if self.database.is_some() {
                    self
                } else {
                    Race { database: Some(reply), cache: self.cache }
                }
            },
            Source::Cache => {
                if self.cache.is_some() {
                    self
                } else {
                    Race { database: self.database, cache: Some(reply) }
                }
            },
        }
    }
}

/// The first answer with a value decides an open race for the source that
/// gave it, whatever the other source has answered or has yet to answer.
pub proof fn lemma_first_value_wins(race: RaceView, source: Source, value: Seq<char>)
    requires
        race.racing(),
        race.answer(source) is None,
    ensures
        race.settle(source, ReplyView::Found(value)).verdict() == (VerdictView::Won {
            source,
            value,
        }),
        race.decision(source, ReplyView::Found(value)) == Some(
            VerdictView::Won { source, value },
        ),
{
}

/// An answer without a value leaves the race open as long as the other
/// source is out, and exhausts it once both have answered.
pub proof fn lemma_answer_without_value(race: RaceView, source: Source, reply: ReplyView)
    requires
        race.racing(),
        race.answer(source) is None,
        !(reply is Found),
    ensures
        race.settle(source, reply).racing() <==> race.answer(other(source)) is None,
        !race.settle(source, reply).racing() ==> race.settle(source, reply).verdict()
            is Exhausted,
{
}

/// A decided race stays as it is: later answers are dropped and bring
/// about no second verdict.
pub proof fn lemma_decided_race_is_final(race: RaceView, source: Source, reply: ReplyView)
    requires
        !race.racing(),
    ensures
        race.settle(source, reply) == race,
        race.decision(source, reply) is None,
{
}

/// Once both sources have answered, the race is decided.
pub proof fn lemma_two_answers_decide(first: Source, early: ReplyView, late: ReplyView)
    ensures
        !RaceView::start().settle(first, early).settle(other(first), late).racing(),
{
}

/// The source that `source` races against.
pub open spec fn other(source: Source) -> Source {
    match source {
        Source::Database => Source::Cache,
        Source::Cache => Source::Database,
    }
}

impl Source {
    /// The source that this one races against.
    pub fn other(self) -> (rival: Source)
        ensures
            rival == other(self),
    {
        match self {
            Source::Database => Source::Cache,
            Source::Cache => Source::Database,
        }
    }
}

} // verus!
