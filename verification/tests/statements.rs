use shrs::controllers::shorts::{CreateAction, CreateResponse, Resolution};
use shrs::controllers::stats::stats_statement;
use shrs::repos::db::{
    Lookup, Statement, ADD_GOTO_STAT_SQL, FIND_LONG_URL_SQL, FIND_SHORT_SQL, INSERT_SHORT_SQL,
    TOP_GOTO_STATS_SQL,
};
use shrs::tasks::Task;

#[test]
fn lookups_read_one_column_by_the_other() {
    let statement = Lookup::new("https://example.com/a").statement();
    assert_eq!(statement, Statement::FindShort { long_url: "https://example.com/a".to_string() });
    assert_eq!(statement.sql(), "SELECT short FROM public.shorts WHERE long_url = $1");
    assert_eq!(statement.parameters(), vec!["https://example.com/a".to_string()]);
    let statement = Resolution::new("AQIDBAUGBwg").statement();
    assert_eq!(statement, Statement::FindLongUrl { short: "AQIDBAUGBwg".to_string() });
    assert_eq!(statement.sql(), "SELECT long_url FROM public.shorts WHERE short = $1");
    assert_eq!(statement.parameters(), vec!["AQIDBAUGBwg".to_string()]);
}

#[test]
fn insert_binds_identifier_then_url() {
    let action = CreateAction::Insert {
        short: "AQIDBAUGBwg".to_string(),
        long_url: "https://example.com/a".to_string(),
    };
    let statement = action.statement().expect("an insert");
    assert_eq!(statement.sql(), "INSERT INTO public.shorts (short, long_url) VALUES ($1, $2)");
    assert_eq!(
        statement.parameters(),
        vec!["AQIDBAUGBwg".to_string(), "https://example.com/a".to_string()]
    );
    assert_eq!(CreateAction::Nothing.statement(), None);
    assert_eq!(CreateAction::Respond(CreateResponse::Unavailable).statement(), None);
}

#[test]
fn visit_is_recorded_by_identifier() {
    let statement = Task::GotoStat { short: "AQIDBAUGBwg".to_string() }.statement().expect("a visit");
    assert_eq!(
        statement.sql(),
        "INSERT INTO public.shorts_goto_stats (short_id) SELECT id FROM public.shorts WHERE short = $1"
    );
    assert_eq!(statement.parameters(), vec!["AQIDBAUGBwg".to_string()]);
    assert_eq!(Task::CacheSet { key: "k".to_string(), value: "v".to_string() }.statement(), None);
}

#[test]
fn report_reads_the_ten_most_visited() {
    let statement = stats_statement();
    assert_eq!(statement, Statement::TopGotoStats);
    assert!(statement.parameters().is_empty());
    let sql = statement.sql();
    assert_eq!(sql, TOP_GOTO_STATS_SQL);
    assert!(sql.contains("GROUP BY s.long_url"));
    assert!(sql.ends_with("ORDER BY total DESC LIMIT 10"));
}

#[test]
fn statements_have_their_own_text() {
    let texts = [
        FIND_SHORT_SQL,
        FIND_LONG_URL_SQL,
        INSERT_SHORT_SQL,
        ADD_GOTO_STAT_SQL,
        TOP_GOTO_STATS_SQL,
    ];
    for (i, first) in texts.iter().enumerate() {
        for second in texts.iter().skip(i + 1) {
            assert_ne!(first, second);
        }
    }
}
