//! The report of the most visited long URLs.

use vstd::prelude::*;
use crate::models::stats::{GetShortsGotoStatsModel, GetShortsGotoStatsResponse};
use crate::repos::db::{Statement, StatementView};

verus! {

/// How many long URLs the report lists at most.
pub const STATS_LIMIT: usize = 10;

/// The statement that reads the report from the persistent store.
pub fn stats_statement() -> (statement: Statement)
    ensures
        statement@ == StatementView::TopGotoStats,
{
    Statement::TopGotoStats
}

/// The answer to a request for the report.
#[derive(Clone, Debug, PartialEq, Eq)]
pub enum StatsResponse {
    /// The report, to be sent as JSON.
    Report(GetShortsGotoStatsResponse),
    /// The persistent store failed.
    Unavailable,
}

/// Mathematical value of a [`StatsResponse`]: the lines of the report, each
/// a long URL and its total, or nothing where the report is unavailable.
impl View for StatsResponse {
    type V = Option<Seq<(Seq<char>, int)>>;

    open spec fn view(&self) -> Option<Seq<(Seq<char>, int)>> {
        match self {
            StatsResponse::Report(report) => Some(report@),
            StatsResponse::Unavailable => None,
        }
    }
}

impl StatsResponse {
    /// The HTTP status of the response.
    pub fn status(&self) -> (status: u16)
        ensures
            status == match self@ {
                Some(_) => 200u16,
                None => 500u16,
            },
    {
        match self {
            StatsResponse::Report(_) => 200,
            StatsResponse::Unavailable => 500,
        }
    }
}

/// The answer to a request for the report, given what the persistent store
/// returned for the ranking query: the lines as they came, in their order,
/// or "unavailable" where the query failed.
pub fn get_shorts_goto_stats<E>(rows: Result<Vec<GetShortsGotoStatsModel>, E>) -> (response:
    StatsResponse)
    ensures
        response@ == match rows {
            Ok(stats) => Some(stats@.map_values(|line: GetShortsGotoStatsModel| line@)),
            Err(_) => None,
        },
{
    match rows {
        Ok(stats) => StatsResponse::Report(GetShortsGotoStatsResponse { stats }),
        Err(_) => StatsResponse::Unavailable,
    }
}

} // verus!
