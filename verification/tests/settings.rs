use shrs::config::{
    CacheConfig, Config, LogsConfig, ServerConfig, DEFAULT_CACHE_LIFETIME, DEFAULT_PORT,
};
use shrs::controllers::stats::{get_shorts_goto_stats, StatsResponse, STATS_LIMIT};
use shrs::models::stats::{GetShortsGotoStatsModel, GetShortsGotoStatsResponse};

#[test]
fn default_configuration_sets_nothing() {
    let config = Config::default();
    assert_eq!(config.cache, CacheConfig { lifetime: None });
    assert_eq!(
        config.server,
        ServerConfig { name: None, port: None, database: None, redis: None }
    );
    assert_eq!(config.logs, LogsConfig { debug: false, time_format: None, folder: None });
    assert_eq!(CacheConfig::default(), config.cache);
    assert_eq!(ServerConfig::default(), config.server);
    assert_eq!(LogsConfig::default(), config.logs);
}

#[test]
fn absent_settings_take_their_defaults() {
    let config = Config::default();
    assert_eq!(DEFAULT_PORT, 3000);
    assert_eq!(config.server.port_or_default(), 3000);
    assert_eq!(config.server.name_or_default(), "sh.rs");
    assert_eq!(config.cache.lifetime_or_default(), DEFAULT_CACHE_LIFETIME);
    assert_eq!(config.logs.filter_directive(), "server=info");
    assert_eq!(
        config.logs.time_format_or_default(),
        "[year]-[month]-[day] [hour]:[minute]:[second]"
    );
}

#[test]
fn configured_settings_win() {
    let server = ServerConfig {
        name: Some("short".to_string()),
        port: Some(8080),
        database: Some("postgres://db".to_string()),
        redis: None,
    };
    assert_eq!(server.port_or_default(), 8080);
    assert_eq!(server.name_or_default(), "short");
    assert_eq!(CacheConfig { lifetime: Some(90) }.lifetime_or_default(), 90);
    let logs = LogsConfig { debug: true, time_format: Some("[hour]".to_string()), folder: None };
    assert_eq!(logs.filter_directive(), "server=trace");
    assert_eq!(logs.time_format_or_default(), "[hour]");
}

#[test]
fn connection_strings_fall_back_to_the_environment() {
    let server = ServerConfig {
        name: None,
        port: None,
        database: Some("postgres://configured".to_string()),
        redis: None,
    };
    assert_eq!(
        server.database_url(Some("postgres://env".to_string())),
        Some("postgres://configured".to_string())
    );
    assert_eq!(server.database_url(None), Some("postgres://configured".to_string()));
    assert_eq!(server.redis_url(Some("redis://env".to_string())), Some("redis://env".to_string()));
    assert_eq!(server.redis_url(None), None);
    assert_eq!(ServerConfig::default().database_url(None), None);
}

#[test]
fn report_passes_the_rows_on() {
    let rows = vec![
        GetShortsGotoStatsModel { long_url: "https://example.com/a".to_string(), total: 5 },
        GetShortsGotoStatsModel { long_url: "https://example.com/b".to_string(), total: 2 },
    ];
    let response = get_shorts_goto_stats::<()>(Ok(rows.clone()));
    assert_eq!(response, StatsResponse::Report(GetShortsGotoStatsResponse { stats: rows }));
    assert_eq!(response.status(), 200);
    assert_eq!(STATS_LIMIT, 10);
}

#[test]
fn failed_report_is_unavailable() {
    let response = get_shorts_goto_stats(Err("connection refused"));
    assert_eq!(response, StatsResponse::Unavailable);
    assert_eq!(response.status(), 500);
}
