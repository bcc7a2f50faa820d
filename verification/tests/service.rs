use std::collections::HashMap;

use shrs::controllers::shorts::{
    create_short, goto_long_url, CreateAction, CreateEvent, CreateResponse, Creation, GotoResponse,
    Resolution,
};
use shrs::controllers::stats::{get_shorts_goto_stats, StatsResponse, STATS_LIMIT};
use shrs::identifier::SHORT_ID_LENGTH;
use shrs::models::stats::GetShortsGotoStatsModel;
use shrs::race::{Reply, Source};
use shrs::repos::cache::{
    cache_get, cache_set, get_long_url_key, CacheCall, CacheCommand, CacheEvent,
};
use shrs::tasks::Task;

/// Two stores in memory, each of which can be switched off.
struct Stores {
    shorts: Vec<(String, String)>,
    visits: Vec<String>,
    cache: HashMap<String, String>,
    database_up: bool,
    cache_up: bool,
    detached_work_runs: bool,
    clock_works: bool,
    first: Source,
    next_uid: u64,
}

impl Stores {
    fn new() -> Stores {
        Stores {
            shorts: Vec::new(),
            visits: Vec::new(),
            cache: HashMap::new(),
            database_up: true,
            cache_up: true,
            detached_work_runs: true,
            clock_works: true,
            first: Source::Cache,
            next_uid: 0x19A0B1C2D3E4F5A6,
        }
    }

    fn run_cache_call(&mut self, mut call: CacheCall) -> Reply {
        while let Some(command) = call.command() {
            let event = if !self.cache_up {
                CacheEvent::Failed("cache is down".to_string())
            } else {
                match command {
                    CacheCommand::Connect => CacheEvent::Completed(None),
                    CacheCommand::SetValue { key, value } => {
                        self.cache.insert(key, value);
                        CacheEvent::Completed(None)
                    }
                    CacheCommand::Expire { .. } => CacheEvent::Completed(None),
                    CacheCommand::GetValue { key } => {
                        CacheEvent::Completed(self.cache.get(&key).cloned())
                    }
                }
            };
            call = call.advance(event);
        }
        Reply::from_result(call.outcome().expect("the call has ended"))
    }

    fn ask_cache(&mut self, key: &str) -> Reply {
        self.run_cache_call(cache_get(key))
    }

    fn ask_database<F: Fn(&(String, String)) -> Option<String>>(&self, pick: F) -> Reply {
        if !self.database_up {
            return Reply::Failed;
        }
        Reply::from_result::<()>(Ok(self.shorts.iter().find_map(pick)))
    }

    fn insert(&mut self, short: &str, long_url: &str) -> bool {
        if !self.database_up {
            return false;
        }
        if self.shorts.iter().any(|(s, u)| s == short || u == long_url) {
            return false;
        }
        self.shorts.push((short.to_string(), long_url.to_string()));
        true
    }

    fn carry_out(&mut self, tasks: Vec<Task>) {
        if !self.detached_work_runs {
            return;
        }
        for task in tasks {
            match task {
                Task::CacheSet { key, value } => {
                    self.run_cache_call(cache_set(&key, &value, 60));
                }
                Task::GotoStat { short } => {
                    if self.database_up && self.shorts.iter().any(|(s, _)| *s == short) {
                        self.visits.push(short);
                    }
                }
            }
        }
    }

    fn new_uid(&mut self) -> Option<u64> {
        if !self.clock_works {
            return None;
        }
        self.next_uid = self.next_uid.wrapping_add(0x9E3779B97F4A7C15);
        Some(self.next_uid)
    }

    fn order(&self) -> [Source; 2] {
        match self.first {
            Source::Cache => [Source::Cache, Source::Database],
            Source::Database => [Source::Database, Source::Cache],
        }
    }

    fn resolve(&mut self, short: &str) -> GotoResponse {
        let mut resolution = Resolution::new(short);
        let mut response = None;
        for source in self.order() {
            let reply = match source {
                Source::Cache => {
                    let key = resolution.cache_key();
                    self.ask_cache(&key)
                }
                Source::Database => {
                    self.ask_database(|(s, u)| if s == short { Some(u.clone()) } else { None })
                }
            };
            let (next, step) = goto_long_url(resolution, source, reply);
            resolution = next;
            self.carry_out(step.tasks);
            if step.response.is_some() {
                assert!(response.is_none(), "a resolution answers once");
                response = step.response;
            }
        }
        response.expect("both sources answered")
    }

    fn create(&mut self, long_url: &str) -> CreateResponse {
        let mut creation = Creation::new(long_url);
        let key = creation.lookup().expect("the creation is looking").cache_key();
        let mut events = Vec::new();
        for source in self.order() {
            let reply = match source {
                Source::Cache => self.ask_cache(&key),
                Source::Database => {
                    self.ask_database(|(s, u)| if u == long_url { Some(s.clone()) } else { None })
                }
            };
            events.push(CreateEvent::Answered { source, reply });
        }
        let mut at = 0;
        loop {
            let event = events[at].clone();
            at += 1;
            let uid = if creation.needs_identifier(&event) { self.new_uid() } else { None };
            let (next, step) = create_short(creation, event, uid);
            creation = next;
            self.carry_out(step.tasks);
            match step.action {
                CreateAction::Nothing => {}
                CreateAction::Insert { short, long_url } => {
                    let ok = self.insert(&short, &long_url);
                    events.push(CreateEvent::Inserted { ok });
                }
                CreateAction::Respond(response) => return response,
            }
        }
    }

    fn report(&self) -> StatsResponse {
        if !self.database_up {
            return get_shorts_goto_stats(Err("database is down"));
        }
        let mut rows: Vec<GetShortsGotoStatsModel> = Vec::new();
        for (short, long_url) in &self.shorts {
            let total = self.visits.iter().filter(|v| *v == short).count() as i64;
            if total > 0 {
                rows.push(GetShortsGotoStatsModel { long_url: long_url.clone(), total });
            }
        }
        rows.sort_by(|a, b| b.total.cmp(&a.total));
        rows.truncate(STATS_LIMIT);
        get_shorts_goto_stats::<()>(Ok(rows))
    }

    fn total(&self, long_url: &str) -> i64 {
        match self.report() {
            StatsResponse::Report(report) => report
                .stats
                .iter()
                .find(|line| line.long_url == long_url)
                .map(|line| line.total)
                .unwrap_or(0),
            StatsResponse::Unavailable => panic!("the report is unavailable"),
        }
    }
}

fn short_of(response: CreateResponse) -> String {
    match response {
        CreateResponse::Page { short } => short,
        CreateResponse::Unavailable => panic!("the creation failed"),
    }
}

fn redirect(long_url: &str) -> GotoResponse {
    GotoResponse::Redirect(long_url.to_string())
}

#[test]
fn create_then_resolve_then_report() {
    let mut stores = Stores::new();
    let short = short_of(stores.create("https://example.com/a"));
    assert_eq!(short.chars().count(), SHORT_ID_LENGTH);
    assert!(short.chars().all(|c| c.is_ascii_alphanumeric() || c == '-' || c == '_'));
    let response = stores.resolve(&short);
    assert_eq!(response.status(), 302);
    assert_eq!(response.location(), Some("https://example.com/a"));
    match stores.report() {
        StatsResponse::Report(report) => assert_eq!(
            report.stats,
            vec![GetShortsGotoStatsModel { long_url: "https://example.com/a".to_string(), total: 1 }]
        ),
        StatsResponse::Unavailable => panic!("the report is unavailable"),
    }
}

#[test]
fn creating_twice_gives_the_same_identifier_and_one_mapping() {
    for first in [Source::Cache, Source::Database] {
        for detached_work_runs in [true, false] {
            let mut stores = Stores::new();
            stores.first = first;
            stores.detached_work_runs = detached_work_runs;
            let once = short_of(stores.create("https://example.com/a"));
            let twice = short_of(stores.create("https://example.com/a"));
            assert_eq!(once, twice);
            assert_eq!(stores.shorts, vec![(once, "https://example.com/a".to_string())]);
        }
    }
}

#[test]
fn distinct_urls_get_distinct_identifiers() {
    let mut stores = Stores::new();
    let a = short_of(stores.create("https://example.com/a"));
    let b = short_of(stores.create("https://example.com/b"));
    assert_ne!(a, b);
    assert_eq!(stores.shorts.len(), 2);
    assert_eq!(stores.resolve(&a), redirect("https://example.com/a"));
    assert_eq!(stores.resolve(&b), redirect("https://example.com/b"));
}

#[test]
fn created_mapping_resolves_both_ways() {
    for first in [Source::Cache, Source::Database] {
        let mut stores = Stores::new();
        stores.first = first;
        let short = short_of(stores.create("https://example.com/a"));
        assert_eq!(stores.resolve(&short), redirect("https://example.com/a"));
        assert_eq!(short_of(stores.create("https://example.com/a")), short);
    }
}

#[test]
fn failing_cache_changes_no_outcome() {
    for first in [Source::Cache, Source::Database] {
        let mut stores = Stores::new();
        stores.first = first;
        stores.cache_up = false;
        let short = short_of(stores.create("https://example.com/a"));
        assert!(stores.cache.is_empty());
        assert_eq!(stores.resolve(&short), redirect("https://example.com/a"));
        assert_eq!(short_of(stores.create("https://example.com/a")), short);
        assert_eq!(stores.resolve("AAAAAAAAAAA"), GotoResponse::NotFound);
        assert_eq!(stores.shorts.len(), 1);
    }
}

#[test]
fn emptied_cache_changes_no_outcome() {
    let mut stores = Stores::new();
    let short = short_of(stores.create("https://example.com/a"));
    stores.cache.clear();
    assert_eq!(stores.resolve(&short), redirect("https://example.com/a"));
    assert_eq!(stores.cache.get(&short), Some(&"https://example.com/a".to_string()));
    stores.cache.clear();
    assert_eq!(short_of(stores.create("https://example.com/a")), short);
    assert_eq!(stores.cache.len(), 1);
}

#[test]
fn warm_cache_answers_while_the_store_is_down() {
    let mut stores = Stores::new();
    let short = short_of(stores.create("https://example.com/a"));
    stores.database_up = false;
    for first in [Source::Cache, Source::Database] {
        stores.first = first;
        assert_eq!(stores.resolve(&short), redirect("https://example.com/a"));
        assert_eq!(short_of(stores.create("https://example.com/a")), short);
    }
}

#[test]
fn cold_cache_and_failing_store_are_unavailable() {
    let mut stores = Stores::new();
    let short = short_of(stores.create("https://example.com/a"));
    stores.cache.clear();
    stores.database_up = false;
    assert_eq!(stores.resolve(&short), GotoResponse::Unavailable);
    assert_eq!(stores.create("https://example.com/a"), CreateResponse::Unavailable);
    assert_eq!(stores.create("https://example.com/new"), CreateResponse::Unavailable);
    assert_eq!(stores.report(), StatsResponse::Unavailable);
    assert_eq!(stores.shorts.len(), 1);
}

#[test]
fn failing_store_is_fatal_to_a_creation_and_leaves_the_table_alone() {
    for first in [Source::Cache, Source::Database] {
        let mut stores = Stores::new();
        stores.first = first;
        let short = short_of(stores.create("https://example.com/a"));
        stores.cache.clear();
        stores.database_up = false;
        let response = stores.create("https://example.com/b");
        assert_eq!(response, CreateResponse::Unavailable);
        assert_eq!(response.status(), 500);
        assert_eq!(stores.create("https://example.com/a"), CreateResponse::Unavailable);
        assert_eq!(stores.shorts, vec![(short, "https://example.com/a".to_string())]);
        assert!(stores.cache.is_empty());
    }
}

#[test]
fn creation_without_a_clock_is_unavailable() {
    let mut stores = Stores::new();
    stores.clock_works = false;
    assert_eq!(stores.create("https://example.com/a"), CreateResponse::Unavailable);
    assert!(stores.shorts.is_empty());
    stores.clock_works = true;
    let short = short_of(stores.create("https://example.com/a"));
    stores.clock_works = false;
    assert_eq!(short_of(stores.create("https://example.com/a")), short);
}

#[test]
fn derived_key_does_not_resolve_as_an_identifier() {
    for first in [Source::Cache, Source::Database] {
        let mut stores = Stores::new();
        stores.first = first;
        let short = short_of(stores.create("https://example.com/a"));
        let key = get_long_url_key("https://example.com/a");
        assert_eq!(stores.cache.get(&key), Some(&short));
        let response = stores.resolve(&key);
        assert_eq!(response, GotoResponse::NotFound);
        assert_eq!(response.status(), 404);
        assert!(stores.visits.is_empty());
    }
}

#[test]
fn unknown_identifier_is_not_found() {
    let mut stores = Stores::new();
    short_of(stores.create("https://example.com/a"));
    for first in [Source::Cache, Source::Database] {
        stores.first = first;
        let response = stores.resolve("AAAAAAAAAAA");
        assert_eq!(response, GotoResponse::NotFound);
        assert_eq!(response.status(), 404);
    }
    assert!(stores.visits.is_empty());
}

#[test]
fn five_resolutions_are_counted_when_every_visit_is_recorded() {
    let mut stores = Stores::new();
    let short = short_of(stores.create("https://example.com/a"));
    for n in 1..=5 {
        stores.first = if n % 2 == 0 { Source::Cache } else { Source::Database };
        assert_eq!(stores.resolve(&short), redirect("https://example.com/a"));
        assert_eq!(stores.total("https://example.com/a"), n);
    }
    assert_eq!(stores.total("https://example.com/a"), 5);
}

#[test]
fn lost_visits_are_never_counted_twice() {
    let mut stores = Stores::new();
    let short = short_of(stores.create("https://example.com/a"));
    for n in 0..5 {
        stores.detached_work_runs = n % 2 == 0;
        assert_eq!(stores.resolve(&short), redirect("https://example.com/a"));
    }
    let total = stores.total("https://example.com/a");
    assert_eq!(total, 3);
    assert!((0..=5).contains(&total));
}

#[test]
fn failed_resolutions_record_no_visit() {
    let mut stores = Stores::new();
    short_of(stores.create("https://example.com/a"));
    stores.resolve("AAAAAAAAAAA");
    stores.resolve("BBBBBBBBBBB");
    assert_eq!(stores.total("https://example.com/a"), 0);
    assert!(stores.visits.is_empty());
}

#[test]
fn store_hit_warms_the_cache_for_the_next_resolution() {
    let mut stores = Stores::new();
    stores.detached_work_runs = false;
    let short = short_of(stores.create("https://example.com/a"));
    assert!(stores.cache.is_empty());
    stores.detached_work_runs = true;
    stores.first = Source::Database;
    assert_eq!(stores.resolve(&short), redirect("https://example.com/a"));
    assert_eq!(stores.cache.get(&short), Some(&"https://example.com/a".to_string()));
    stores.database_up = false;
    assert_eq!(stores.resolve(&short), redirect("https://example.com/a"));
}
