use shrs::errors::RedisConnectError;
use shrs::tasks::Task;
use shrs::repos::cache::{
    add_short_to_cache, cache_get, cache_set, get_long_url_key, get_short_from_cache, CacheCommand,
    CacheEvent,
};

fn done() -> CacheEvent {
    CacheEvent::Completed(None)
}

#[test]
fn write_connects_sets_and_expires_in_order() {
    let call = cache_set("abc", "https://example.com/a", 60);
    assert_eq!(call.command(), Some(CacheCommand::Connect));
    assert_eq!(call.outcome(), None);
    let call = call.advance(done());
    assert_eq!(
        call.command(),
        Some(CacheCommand::SetValue {
            key: "abc".to_string(),
            value: "https://example.com/a".to_string()
        })
    );
    assert_eq!(call.outcome(), None);
    let call = call.advance(done());
    assert_eq!(
        call.command(),
        Some(CacheCommand::Expire { key: "abc".to_string(), seconds: 60 })
    );
    assert_eq!(call.outcome(), None);
    let call = call.advance(done());
    assert_eq!(call.command(), None);
    assert_eq!(call.outcome(), Some(Ok(None)));
}

#[test]
fn write_that_cannot_connect_is_a_connection_error() {
    let call = cache_set("abc", "v", 60).advance(CacheEvent::Failed("pool timed out".to_string()));
    assert_eq!(call.command(), None);
    assert_eq!(
        call.outcome(),
        Some(Err(RedisConnectError::ConnectionError("pool timed out".to_string())))
    );
}

#[test]
fn write_whose_set_fails_never_expires() {
    let call = cache_set("abc", "v", 60)
        .advance(done())
        .advance(CacheEvent::Failed("broken pipe".to_string()));
    assert_eq!(call.command(), None);
    assert_eq!(
        call.outcome(),
        Some(Err(RedisConnectError::GettingValueError("broken pipe".to_string())))
    );
}

#[test]
fn write_whose_expire_fails_is_an_operation_error() {
    let call = cache_set("abc", "v", 60)
        .advance(done())
        .advance(done())
        .advance(CacheEvent::Failed("readonly".to_string()));
    assert_eq!(
        call.outcome(),
        Some(Err(RedisConnectError::GettingValueError("readonly".to_string())))
    );
}

#[test]
fn read_returns_the_value_read() {
    let call = cache_get("abc");
    assert_eq!(call.command(), Some(CacheCommand::Connect));
    let call = call.advance(done());
    assert_eq!(call.command(), Some(CacheCommand::GetValue { key: "abc".to_string() }));
    let call = call.advance(CacheEvent::Completed(Some("https://example.com/a".to_string())));
    assert_eq!(call.command(), None);
    assert_eq!(call.outcome(), Some(Ok(Some("https://example.com/a".to_string()))));
}

#[test]
fn read_of_absent_key_returns_nothing() {
    let call = cache_get("abc").advance(done()).advance(done());
    assert_eq!(call.outcome(), Some(Ok(None)));
}

#[test]
fn read_ignores_a_value_reported_for_the_connect() {
    let call = cache_get("abc")
        .advance(CacheEvent::Completed(Some("stray".to_string())))
        .advance(done());
    assert_eq!(call.outcome(), Some(Ok(None)));
}

#[test]
fn read_that_fails_is_classified_by_stage() {
    let call = cache_get("abc").advance(CacheEvent::Failed("down".to_string()));
    assert_eq!(
        call.outcome(),
        Some(Err(RedisConnectError::ConnectionError("down".to_string())))
    );
    let call = cache_get("abc").advance(done()).advance(CacheEvent::Failed("down".to_string()));
    assert_eq!(
        call.outcome(),
        Some(Err(RedisConnectError::GettingValueError("down".to_string())))
    );
}

#[test]
fn ended_call_drops_further_events() {
    let failed = cache_get("abc").advance(CacheEvent::Failed("down".to_string()));
    let later = failed.advance(CacheEvent::Completed(Some("late".to_string())));
    assert_eq!(
        later.outcome(),
        Some(Err(RedisConnectError::ConnectionError("down".to_string())))
    );
    let finished = cache_get("abc").advance(done()).advance(done());
    let later = finished.advance(CacheEvent::Failed("late".to_string()));
    assert_eq!(later.outcome(), Some(Ok(None)));
    assert_eq!(later.command(), None);
}

#[test]
fn short_is_written_under_the_derived_key() {
    let key = get_long_url_key("https://example.com/a");
    let call = add_short_to_cache("https://example.com/a", "AQIDBAUGBwg", 30).advance(done());
    assert_eq!(
        call.command(),
        Some(CacheCommand::SetValue { key: key.clone(), value: "AQIDBAUGBwg".to_string() })
    );
    let call = call.advance(done());
    assert_eq!(call.command(), Some(CacheCommand::Expire { key, seconds: 30 }));
}

#[test]
fn short_is_read_under_the_derived_key() {
    let call = get_short_from_cache("https://example.com/a").advance(done());
    assert_eq!(
        call.command(),
        Some(CacheCommand::GetValue {
            key: "2dce0a4c50441bfccfa9caf4b58c3cba6e06c420505dd829f0436de1aa44baac".to_string()
        })
    );
}

#[test]
fn error_messages_name_what_failed() {
    assert_eq!(
        RedisConnectError::ConnectionError("timed out".to_string()).message(),
        "Failed to connect to Redis: timed out"
    );
    assert_eq!(
        RedisConnectError::GettingValueError("broken pipe".to_string()).message(),
        "Failed to get value from Redis: broken pipe"
    );
}

#[test]
fn cache_write_task_becomes_a_write_call() {
    let task = Task::CacheSet { key: "abc".to_string(), value: "v".to_string() };
    let call = task.cache_call(45).expect("a cache write");
    let call = call.advance(CacheEvent::Completed(None));
    assert_eq!(
        call.command(),
        Some(CacheCommand::SetValue { key: "abc".to_string(), value: "v".to_string() })
    );
    let call = call.advance(CacheEvent::Completed(None));
    assert_eq!(call.command(), Some(CacheCommand::Expire { key: "abc".to_string(), seconds: 45 }));
}

#[test]
fn visit_task_is_no_cache_call() {
    assert!(Task::GotoStat { short: "abc".to_string() }.cache_call(45).is_none());
}
