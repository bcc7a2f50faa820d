//! The report of the most visited long URLs.

use vstd::prelude::*;

verus! {

/// One line of the report: a long URL and how many visits were recorded for
/// it.
#[derive(Clone, Debug, PartialEq, Eq)]
pub struct GetShortsGotoStatsModel {
    pub long_url: String,
    pub total: i64,
}

/// The report.
#[derive(Clone, Debug, PartialEq, Eq)]
pub struct GetShortsGotoStatsResponse {
    pub stats: Vec<GetShortsGotoStatsModel>,
}

impl View for GetShortsGotoStatsModel {
    type V = (Seq<char>, int);

    open spec fn view(&self) -> (Seq<char>, int) {
        (self.long_url@, self.total as int)
    }
}

impl View for GetShortsGotoStatsResponse {
    type V = Seq<(Seq<char>, int)>;

    open spec fn view(&self) -> Seq<(Seq<char>, int)> {
        self.stats@.map_values(|line: GetShortsGotoStatsModel| line@)
    }
}

} // verus!
