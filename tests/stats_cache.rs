use shortener::error::ApiError;
use shortener::stats::{
    code_stats, parse_stats_text, stats_after_count, stats_from_cache, stats_text, DailyClick,
    StatsResponse,
};

#[test]
fn totals_are_cached_as_text() {
    let s = StatsResponse { total_urls: 12, total_clicks: 345 };
    assert_eq!(stats_text(&s), "12,345");
    let s = StatsResponse { total_urls: -1, total_clicks: i64::MIN };
    assert_eq!(stats_text(&s), "-1,-9223372036854775808");
}

#[test]
fn cached_text_reads_back() {
    for (u, c) in [(0, 0), (12, 345), (i64::MAX, i64::MIN), (-7, 7)] {
        let s = StatsResponse { total_urls: u, total_clicks: c };
        assert_eq!(parse_stats_text(&stats_text(&s)), Some(s));
    }
}

#[test]
fn malformed_cached_text_is_a_miss() {
    assert_eq!(parse_stats_text(""), None);
    assert_eq!(parse_stats_text("1"), None);
    assert_eq!(parse_stats_text("1,2,3"), None);
    assert_eq!(parse_stats_text("1,x"), None);
    assert_eq!(parse_stats_text("1,9223372036854775808"), None);
    assert_eq!(
        parse_stats_text("+1,-2"),
        Some(StatsResponse { total_urls: 1, total_clicks: -2 })
    );
}

#[test]
fn cache_read_answers_only_well_formed_hits() {
    assert_eq!(
        stats_from_cache(Ok(Some("3,4".to_string()))),
        Some(StatsResponse { total_urls: 3, total_clicks: 4 })
    );
    assert_eq!(stats_from_cache(Ok(None)), None);
    assert_eq!(stats_from_cache(Err("down".to_string())), None);
    assert_eq!(stats_from_cache(Ok(Some("garbage".to_string()))), None);
}

#[test]
fn counted_totals_are_returned_and_cached() {
    let (r, w) = stats_after_count(Ok((10, 20)));
    assert_eq!(r.unwrap(), StatsResponse { total_urls: 10, total_clicks: 20 });
    let w = w.unwrap();
    assert_eq!(w.key, "stats:global");
    assert_eq!(w.value, "10,20");
    assert_eq!(w.ttl_secs, 300);
    let (r, w) = stats_after_count(Err("db".to_string()));
    assert!(matches!(r, Err(ApiError::Database(_))));
    assert!(w.is_none());
}

#[test]
fn code_report_combines_both_reads() {
    let daily = vec![DailyClick { date: "2024-01-02".to_string(), count: 3 }];
    let r = code_stats("abc".to_string(), Ok(3), Ok(daily)).unwrap();
    assert_eq!(r.code, "abc");
    assert_eq!(r.total_clicks, 3);
    assert_eq!(r.daily_clicks.len(), 1);
    assert_eq!(r.daily_clicks[0].date, "2024-01-02");
    assert!(matches!(
        code_stats("abc".to_string(), Err("t".to_string()), Ok(vec![])),
        Err(ApiError::Database(m)) if m == "t"
    ));
    assert!(matches!(
        code_stats("abc".to_string(), Ok(1), Err("d".to_string())),
        Err(ApiError::Database(m)) if m == "d"
    ));
}
