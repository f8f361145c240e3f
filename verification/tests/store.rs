use psmeter::api::{self, TrackBody};
use psmeter::bucket::{floor_to_bucket, DAY_MS, HOUR_MS};
use psmeter::clock::now_millis;
use psmeter::model::Event;
use psmeter::store::{cutoff_or_zero, SqliteStore, Store};
use psmeter::window::Granularity;
use std::path::PathBuf;

fn fresh_store(tag: &str) -> SqliteStore {
    let nanos = chrono::Utc::now().timestamp_nanos_opt().unwrap_or(0);
    let path = PathBuf::from(format!("/tmp/psmeter-{}-{}.db", tag, nanos));
    SqliteStore::open(&path).expect("open store")
}

fn ev(site: &str, kind: &str, path: &str, referrer: Option<&str>, visitor: &str, device: &str, ts_ms: i64) -> Event {
    Event {
        site: site.to_string(),
        kind: kind.to_string(),
        path: path.to_string(),
        referrer: referrer.map(|s| s.to_string()),
        visitor_hash: visitor.to_string(),
        country: None,
        device: Some(device.to_string()),
        browser: Some("Chrome".to_string()),
        ts_ms,
    }
}

#[test]
fn sites_are_registered_once_and_listed() {
    let mut store = fresh_store("sites");
    store.ensure_site("a.com", "A").unwrap();
    store.ensure_site("a.com", "Another name").unwrap();
    store.ensure_site("b.com", "B").unwrap();
    let sites = store.list_sites().unwrap();
    assert_eq!(sites.len(), 2);
    let a = sites.iter().find(|s| s.domain == "a.com").unwrap();
    assert_eq!(a.name, "A");
    assert!(sites.windows(2).all(|w| w[0].created_at >= w[1].created_at));
}

#[test]
fn delete_site_forgets_events() {
    let mut store = fresh_store("delete");
    let now = now_millis();
    store.ensure_site("a.com", "A").unwrap();
    store.record_event(&ev("a.com", "pageview", "/", None, "v1", "desktop", now)).unwrap();
    store.delete_site("a.com").unwrap();
    assert!(store.list_sites().unwrap().is_empty());
    let s = store.stats("a.com", now - 1000, now + 1000).unwrap();
    assert_eq!(s.pageviews, 0);
    assert_eq!(s.visitors, 0);
}

#[test]
fn raw_stats_counts_and_tops() {
    let mut store = fresh_store("raw");
    let t = 1_700_000_000_000;
    store.record_event(&ev("s", "pageview", "/a", None, "v1", "desktop", t)).unwrap();
    store.record_event(&ev("s", "pageview", "/a", Some("https://g.com"), "v2", "mobile", t + 1)).unwrap();
    store.record_event(&ev("s", "pageview", "/b", None, "v1", "desktop", t + 2)).unwrap();
    store.record_event(&ev("s", "signup", "/b", None, "v3", "desktop", t + 3)).unwrap();
    store.record_event(&ev("other", "pageview", "/a", None, "v9", "desktop", t)).unwrap();
    store.record_event(&ev("s", "pageview", "/late", None, "v4", "desktop", t + 10_000)).unwrap();
    let s = store.stats("s", t, t + 3).unwrap();
    assert_eq!(s.source, "raw");
    assert_eq!(s.pageviews, 3);
    assert_eq!(s.visitors, 3);
    assert_eq!(s.top_pages, vec![("/a".to_string(), 2), ("/b".to_string(), 1)]);
    assert_eq!(s.top_referrers[0], ("(direct)".to_string(), 2));
    assert!(s.top_referrers.contains(&("https://g.com".to_string(), 1)));
    assert_eq!(s.countries, vec![("(unknown)".to_string(), 3)]);
    assert_eq!(s.devices[0], ("desktop".to_string(), 2));
}

#[test]
fn long_ranges_use_rollup_tables() {
    let mut store = fresh_store("route");
    let now = now_millis();
    store.record_event(&ev("s", "pageview", "/x", None, "v1", "desktop", now - 1000)).unwrap();
    let hourly = store.stats("s", now - 2 * DAY_MS, now).unwrap();
    assert_eq!(hourly.source, "hourly");
    assert_eq!(hourly.pageviews, 1);
    let daily = store.stats("s", now - 30 * DAY_MS, now).unwrap();
    assert_eq!(daily.source, "daily");
    assert_eq!(daily.pageviews, 1);
    assert_eq!(daily.top_pages, vec![("/x".to_string(), 1)]);
}

#[test]
fn rollup_keeps_totals_and_is_idempotent() {
    let mut store = fresh_store("rollup");
    let now = now_millis();
    let cur_hour = floor_to_bucket(now, HOUR_MS);
    // two past hours and the current hour
    store.record_event(&ev("s", "pageview", "/a", None, "v1", "desktop", cur_hour - 2 * HOUR_MS + 5)).unwrap();
    store.record_event(&ev("s", "pageview", "/a", Some("https://r.io"), "v2", "mobile", cur_hour - HOUR_MS + 5)).unwrap();
    store.record_event(&ev("s", "click", "/b", None, "v3", "desktop", cur_hour - HOUR_MS + 6)).unwrap();
    store.record_event(&ev("s", "pageview", "/b", None, "v1", "desktop", now)).unwrap();
    let before = store.stats("s", now - 2 * DAY_MS, now).unwrap();
    let inserted = store.rollup_hourly().unwrap();
    assert_eq!(inserted, 3);
    assert_eq!(store.rollup_hourly().unwrap(), 0);
    let after = store.stats("s", now - 2 * DAY_MS, now).unwrap();
    assert_eq!(after.source, "hourly");
    assert_eq!(before.pageviews, 3);
    assert_eq!(after.pageviews, 3);
    assert_eq!(after.visitors, 3);
    assert!(after.top_pages.contains(&("/a".to_string(), 2)));
    assert!(after.top_pages.contains(&("/b".to_string(), 1)));
    assert!(after.top_referrers.contains(&("https://r.io".to_string(), 1)));
    assert!(after.top_referrers.contains(&("(direct)".to_string(), 2)));
}

#[test]
fn daily_rollup_runs_once_per_day() {
    let mut store = fresh_store("daily");
    let now = now_millis();
    store.record_event(&ev("s", "pageview", "/a", None, "v1", "desktop", now - 3 * DAY_MS)).unwrap();
    let first = store.rollup_daily().unwrap();
    assert_eq!(first, 1);
    assert_eq!(store.rollup_daily().unwrap(), 0);
    let s = store.stats("s", now - 30 * DAY_MS, now).unwrap();
    assert_eq!(s.pageviews, 1);
}

#[test]
fn active_visitors_since() {
    let mut store = fresh_store("live");
    let now = now_millis();
    store.record_event(&ev("s", "pageview", "/", None, "v1", "desktop", now - 1000)).unwrap();
    store.record_event(&ev("s", "pageview", "/", None, "v1", "desktop", now - 500)).unwrap();
    store.record_event(&ev("s", "pageview", "/", None, "v2", "desktop", now - 10 * 60 * 1000)).unwrap();
    assert_eq!(store.active_visitors("s", now - 5 * 60 * 1000).unwrap(), 1);
    assert_eq!(store.active_visitors("s", now - 20 * 60 * 1000).unwrap(), 2);
}

#[test]
fn track_registers_site_and_records() {
    let mut store = fresh_store("track");
    let body = TrackBody {
        site: "blog.dev".to_string(),
        kind: api::default_kind(),
        path: "/post".to_string(),
        referrer: None,
    };
    assert_eq!(api::track(&mut store, body, "9.9.9.9", "Mozilla/5.0 (iPhone)").unwrap(), 204);
    let sites = store.list_sites().unwrap();
    assert_eq!(sites.len(), 1);
    assert_eq!(sites[0].domain, "blog.dev");
    assert_eq!(sites[0].name, "blog.dev");
    let now = now_millis();
    let s = store.stats("blog.dev", now - 60_000, now + 60_000).unwrap();
    assert_eq!(s.pageviews, 1);
    assert_eq!(s.devices, vec![("mobile".to_string(), 1)]);
}

#[test]
fn admin_endpoints_check_token() {
    let mut store = fresh_store("admin");
    let e = api::list_sites(&store, "", None).unwrap_err();
    assert_eq!(e.status(), 503);
    let e = api::create_site(&mut store, "tok", Some("Bearer bad"), "x.io", None).unwrap_err();
    assert_eq!(e.status(), 401);
    assert!(store.list_sites().unwrap().is_empty());
    assert_eq!(api::create_site(&mut store, "tok", Some("Bearer tok"), "x.io", Some("X".to_string())).unwrap(), 201);
    assert_eq!(api::create_site(&mut store, "tok", Some("Bearer tok"), "y.io", None).unwrap(), 201);
    let sites = api::list_sites(&store, "tok", Some("Bearer tok")).unwrap();
    assert_eq!(sites.len(), 2);
    assert!(sites.iter().any(|s| s.domain == "x.io" && s.name == "X"));
    assert!(sites.iter().any(|s| s.domain == "y.io" && s.name == "y.io"));
    assert_eq!(api::delete_site(&mut store, "tok", Some("Bearer tok"), "x.io").unwrap(), 204);
    assert_eq!(store.list_sites().unwrap().len(), 1);
}

#[test]
fn admin_stats_and_live() {
    let mut store = fresh_store("adminstats");
    let now = now_millis();
    store.record_event(&ev("s", "pageview", "/", None, "v1", "desktop", now - 1000)).unwrap();
    let s = api::stats(&store, "tok", Some("Bearer tok"), "s", None, None, now).unwrap();
    assert_eq!(s.source, "raw");
    assert_eq!(s.pageviews, 1);
    assert!(matches!(api::stats(&store, "tok", None, "s", None, None, now), Err(api::ApiError::BadToken)));
    assert_eq!(api::live(&store, "tok", Some("Bearer tok"), "s", now).unwrap(), 1);
    let snap = api::live_snapshot(&store, now).unwrap();
    assert!(snap.is_empty());
    store.ensure_site("s", "S").unwrap();
    let snap = api::live_snapshot(&store, now).unwrap();
    assert_eq!(snap.len(), 1);
    assert_eq!(snap[0].domain, "s");
    assert_eq!(snap[0].active, 1);
}


#[test]
fn cutoff_defaults_to_zero() {
    assert_eq!(cutoff_or_zero(Ok(7_200_000)), 7_200_000);
    assert_eq!(cutoff_or_zero(Err(rusqlite::Error::QueryReturnedNoRows)), 0);
}

#[test]
fn rollup_at_folds_up_to_the_current_bucket() {
    let mut store = fresh_store("rollat");
    let now = now_millis();
    let cur = floor_to_bucket(now, HOUR_MS);
    store.record_event(&ev("s", "pageview", "/a", None, "v1", "desktop", cur - HOUR_MS + 1)).unwrap();
    store.record_event(&ev("s", "click", "/a", None, "v2", "desktop", cur - 1)).unwrap();
    store.record_event(&ev("s", "pageview", "/b", None, "v1", "desktop", cur + 1)).unwrap();
    assert_eq!(store.rollup_at(Granularity::Hourly, now).unwrap(), 2);
    assert_eq!(store.rollup_at(Granularity::Hourly, now).unwrap(), 0);
    assert_eq!(store.rollup_at(Granularity::Hourly, now + HOUR_MS).unwrap(), 1);
    assert_eq!(store.rollup_at(Granularity::Hourly, now + HOUR_MS).unwrap(), 0);
}

#[test]
fn ensure_site_at_keeps_first_registration() {
    let mut store = fresh_store("siteat");
    store.ensure_site_at("a.com", "A", 1234).unwrap();
    store.ensure_site_at("a.com", "B", 99).unwrap();
    let sites = store.list_sites().unwrap();
    assert_eq!(sites.len(), 1);
    assert_eq!(sites[0].name, "A");
    assert_eq!(sites[0].created_at, 1234);
}
