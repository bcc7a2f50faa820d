//! Detached work: writes that a step asks for and nobody waits on.
//!
//! A task is attempted at most once. Its outcome is never reported back to
//! the step that asked for it, and a failed task is not retried.

use vstd::prelude::*;
use crate::repos::cache::{cache_set, CacheCall, CacheCallView};
use crate::repos::db::{Statement, StatementView};

verus! {

/// One piece of detached work.
#[derive(Clone, Debug, PartialEq, Eq)]
pub enum Task {
    /// Store `value` under `key` in the cache, with the configured lifetime.
    CacheSet { key: String, value: String },
    /// Record one visit of the short identifier `short`.
    GotoStat { short: String },
}

/// Mathematical value of a [`Task`].
pub enum TaskView {
    CacheSet { key: Seq<char>, value: Seq<char> },
    GotoStat { short: Seq<char> },
}

impl View for Task {
    type V = TaskView;

    open spec fn view(&self) -> TaskView {
        match self {
            Task::CacheSet { key, value } => TaskView::CacheSet { key: key@, value: value@ },
            Task::GotoStat { short } => TaskView::GotoStat { short: short@ },
        }
    }
}

impl Task {
    /// The cache call that carries out the task, where it is a cache write:
    /// the write of its entry, to expire after `lifetime` seconds.
    pub fn cache_call(&self, lifetime: i64) -> (call: Option<CacheCall>)
        ensures
            match self@ {
                TaskView::CacheSet { key, value } => call matches Some(c) && c@
                    == CacheCallView::write(key, value, lifetime),
                TaskView::GotoStat { .. } => call is None,
            },
    {
        match self {
            Task::CacheSet { key, value } => Some(
                cache_set(key.as_str(), value.as_str(), lifetime),
            ),
            Task::GotoStat { .. } => None,
        }
    }

    /// The statement that carries out the task, where it records a visit.
    pub fn statement(&self) -> (statement: Option<Statement>)
        ensures
            match self@ {
                TaskView::GotoStat { short } => statement matches Some(s) && s@
                    == (StatementView::AddGotoStat { short }),
                TaskView::CacheSet { .. } => statement is None,
            },
    {
        match self {
            Task::GotoStat { short } => Some(Statement::AddGotoStat { short: short.clone() }),
            Task::CacheSet { .. } => None,
        }
    }
}

/// Mathematical value of a list of tasks.
pub open spec fn tasks_view(tasks: Seq<Task>) -> Seq<TaskView> {
    tasks.map_values(|task: Task| task@)
}

} // verus!
