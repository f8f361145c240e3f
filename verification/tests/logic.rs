use psmeter::api::{
    admin_ws_allowed, client_ip, default_kind, event_on, invalid_body, live_since, require_admin,
    save_failed, setup, stats_range, ws_continues, ApiError, TrackBody, WsIncoming,
};
use psmeter::bucket::{floor_to_bucket, DAY_MS, HOUR_MS};
use psmeter::classify::{classify_browser, classify_device};
use psmeter::config::{config_path, Config};
use psmeter::dashboard::{choose_asset, DashboardReply};
use psmeter::visitor::{visitor_hash, visitor_hash_on};
use psmeter::window::{
    combined_windows, rollup_window, stats_source, Granularity, StatsSource, Windows,
};

const CHROME_DESKTOP: &str = "Mozilla/5.0 (Windows NT 10.0; Win64; x64) AppleWebKit/537.36 (KHTML, like Gecko) Chrome/120.0.0.0 Safari/537.36";
const EDGE_DESKTOP: &str = "Mozilla/5.0 (Windows NT 10.0; Win64; x64) AppleWebKit/537.36 (KHTML, like Gecko) Chrome/120.0.0.0 Safari/537.36 Edg/120.0.0.0";
const SAFARI_IPHONE: &str = "Mozilla/5.0 (iPhone; CPU iPhone OS 17_0 like Mac OS X) AppleWebKit/605.1.15 (KHTML, like Gecko) Version/17.0 Mobile/15E148 Safari/604.1";
const SAFARI_IPAD: &str = "Mozilla/5.0 (iPad; CPU OS 17_0 like Mac OS X) AppleWebKit/605.1.15 (KHTML, like Gecko) Version/17.0 Mobile/15E148 Safari/604.1";
const FIREFOX_ANDROID: &str = "Mozilla/5.0 (Android 14; Mobile; rv:121.0) Gecko/121.0 Firefox/121.0";

#[test]
fn device_tablet_wins_over_mobile() {
    assert_eq!(classify_device(SAFARI_IPAD), "tablet");
    assert_eq!(classify_device("Some Tablet Mobile device"), "tablet");
}

#[test]
fn device_mobile_and_desktop() {
    assert_eq!(classify_device(SAFARI_IPHONE), "mobile");
    assert_eq!(classify_device(FIREFOX_ANDROID), "mobile");
    assert_eq!(classify_device(CHROME_DESKTOP), "desktop");
    assert_eq!(classify_device(""), "desktop");
}

#[test]
fn device_ignores_case() {
    // fails if the user agent were not lower-cased first
    assert_eq!(classify_device("IPAD"), "tablet");
    assert_eq!(classify_device("ANDROID"), "mobile");
}

#[test]
fn browser_families() {
    assert_eq!(classify_browser(EDGE_DESKTOP), "Edge");
    assert_eq!(classify_browser(CHROME_DESKTOP), "Chrome");
    assert_eq!(classify_browser(FIREFOX_ANDROID), "Firefox");
    assert_eq!(classify_browser(SAFARI_IPHONE), "Safari");
    assert_eq!(classify_browser("curl/8.0"), "Other");
    assert_eq!(classify_browser(""), "Other");
}

#[test]
fn browser_unicode_lowercase() {
    // 'İ' lower-cases to "i" followed by a combining dot, so "SAFARİ" contains "safari"
    assert_eq!(classify_browser("SAFARİ"), "Safari");
    assert_eq!(classify_browser("FIREFOX/1"), "Firefox");
}

#[test]
fn floor_to_bucket_values() {
    assert_eq!(floor_to_bucket(3_600_001, HOUR_MS), 3_600_000);
    assert_eq!(floor_to_bucket(7_199_999, HOUR_MS), 3_600_000);
    assert_eq!(floor_to_bucket(0, HOUR_MS), 0);
    assert_eq!(floor_to_bucket(172_800_123, DAY_MS), 172_800_000);
    // integer division rounds toward zero before the epoch
    assert_eq!(floor_to_bucket(-1, HOUR_MS), 0);
    assert_eq!(floor_to_bucket(-3_600_001, HOUR_MS), -3_600_000);
    // negative widths divide the same way
    assert_eq!(floor_to_bucket(7, -2), 6);
    assert_eq!(floor_to_bucket(-7, -2), -6);
    assert_eq!(floor_to_bucket(i64::MIN, 2), i64::MIN);
}

#[test]
fn floor_is_idempotent() {
    let b = floor_to_bucket(1_700_000_123_456, HOUR_MS);
    assert_eq!(floor_to_bucket(b, HOUR_MS), b);
    assert!(b <= 1_700_000_123_456 && 1_700_000_123_456 < b + HOUR_MS);
}

#[test]
fn routing_by_range_length() {
    assert_eq!(stats_source(0, DAY_MS), StatsSource::Raw);
    assert_eq!(stats_source(0, DAY_MS + 1), StatsSource::Rollup(Granularity::Hourly));
    assert_eq!(stats_source(0, 7 * DAY_MS), StatsSource::Rollup(Granularity::Hourly));
    assert_eq!(stats_source(0, 7 * DAY_MS + 1), StatsSource::Rollup(Granularity::Daily));
    assert_eq!(stats_source(100, 50), StatsSource::Raw);
}

#[test]
fn windows_split_at_cutoff() {
    let w = combined_windows(1000, 5000, 3000);
    assert_eq!(w, Windows { agg_from: 1000, agg_to_inc: 2999, raw_from: 3000, raw_to: 5000 });
    let w = combined_windows(1000, 5000, 0);
    assert_eq!(w, Windows { agg_from: 1000, agg_to_inc: -1, raw_from: 1000, raw_to: 5000 });
    let w = combined_windows(1000, 5000, 9000);
    assert_eq!(w, Windows { agg_from: 1000, agg_to_inc: 4999, raw_from: 9000, raw_to: 5000 });
}

#[test]
fn windows_disjoint_and_covering() {
    for cutoff in [0i64, 1000, 2500, 5000, 9000] {
        let w = combined_windows(1000, 5000, cutoff);
        for t in 1000..=5000i64 {
            let in_agg = w.agg_from <= t && t <= w.agg_to_inc;
            let in_raw = w.raw_from <= t && t <= w.raw_to;
            assert!(!(in_agg && in_raw));
            if !(t == 5000 && 5000 < cutoff) {
                assert!(in_agg || in_raw, "t={} cutoff={}", t, cutoff);
            }
        }
    }
    // the instant `to` is missed when it lies before the cutoff
    let w = combined_windows(1000, 5000, 9000);
    assert!(!(w.agg_from <= 5000 && 5000 <= w.agg_to_inc));
    assert!(!(w.raw_from <= 5000 && 5000 <= w.raw_to));
}

#[test]
fn rollup_window_values() {
    assert_eq!(rollup_window(0, 7_300_000, HOUR_MS), Some((0, 7_200_000)));
    assert_eq!(rollup_window(7_200_000, 7_300_000, HOUR_MS), None);
    assert_eq!(rollup_window(9_000_000, 7_300_000, HOUR_MS), None);
    assert_eq!(rollup_window(3_600_000, 90_000_000, DAY_MS), Some((3_600_000, 86_400_000)));
}

#[test]
fn rollups_chain_without_gaps() {
    let first = rollup_window(0, 7_300_000, HOUR_MS).unwrap();
    // same hour: nothing more to fold
    assert_eq!(rollup_window(first.1, 7_299_999, HOUR_MS), None);
    // next hour: starts where the last one ended
    let second = rollup_window(first.1, 10_900_000, HOUR_MS).unwrap();
    assert_eq!(second, (first.1, 10_800_000));
}

#[test]
fn visitor_hash_known_value() {
    let h = visitor_hash_on("1.2.3.4", "Mozilla/5.0", "example.com", "20240101");
    assert_eq!(h, "290b35b404b3a8f2ec335ccedc3cb6d8");
    let h2 = visitor_hash_on("1.2.3.4", "Mozilla/5.0", "example.com", "20240102");
    assert_eq!(h2, "6cb76c3ed7e70df04045ffdb554cf40b");
    assert_eq!(visitor_hash_on("", "", "x", ""), "4eeef6e8124e025b92b7b1b1449d529a");
}

#[test]
fn visitor_hash_today_shape() {
    let h = visitor_hash("10.0.0.1", "ua", "site.org");
    assert_eq!(h.len(), 32);
    assert!(h.chars().all(|c| c.is_ascii_digit() || ('a'..='f').contains(&c)));
    assert_eq!(h, visitor_hash("10.0.0.1", "ua", "site.org"));
}

#[test]
fn admin_before_setup() {
    let r = require_admin("", Some("Bearer x"));
    let e = r.unwrap_err();
    assert_eq!(e.status(), 503);
    assert_eq!(e.message(), "초기 설정 필요");
    assert!(matches!(require_admin("", None), Err(ApiError::SetupRequired)));
}

#[test]
fn admin_bearer_token() {
    assert!(require_admin("s3cret", Some("Bearer s3cret")).is_ok());
    let e = require_admin("s3cret", Some("Bearer wrong")).unwrap_err();
    assert_eq!(e.status(), 401);
    assert_eq!(e.message(), "잘못된 토큰");
    assert!(matches!(require_admin("s3cret", Some("bearer s3cret")), Err(ApiError::BadToken)));
    assert!(matches!(require_admin("s3cret", Some("s3cret")), Err(ApiError::BadToken)));
    assert!(matches!(require_admin("s3cret", None), Err(ApiError::BadToken)));
    assert!(matches!(require_admin("s3cret", Some("Bearer ")), Err(ApiError::BadToken)));
}

#[test]
fn setup_only_once() {
    let mut cfg = Config::default();
    assert_eq!(cfg.admin_token, "");
    assert_eq!(setup(&mut cfg, "tok".to_string()).unwrap(), 204);
    assert_eq!(cfg.admin_token, "tok");
    let e = setup(&mut cfg, "other".to_string()).unwrap_err();
    assert_eq!(e.status(), 409);
    assert_eq!(e.message(), "이미 설정됨");
    assert_eq!(cfg.admin_token, "tok");
    assert!(require_admin(&cfg.admin_token, Some("Bearer tok")).is_ok());
}

#[test]
fn setup_with_empty_token_can_be_repeated() {
    let mut cfg = Config::default();
    assert!(setup(&mut cfg, String::new()).is_ok());
    assert!(setup(&mut cfg, "later".to_string()).is_ok());
    assert_eq!(cfg.admin_token, "later");
}

#[test]
fn ws_token_check() {
    assert!(admin_ws_allowed("tok", "tok"));
    assert!(!admin_ws_allowed("tok", "nope"));
    assert!(!admin_ws_allowed("", ""));
    assert!(ws_continues(WsIncoming::Other));
    assert!(!ws_continues(WsIncoming::Close));
    assert!(!ws_continues(WsIncoming::Ended));
    assert!(!ws_continues(WsIncoming::Failed));
}

#[test]
fn client_ip_from_forwarded_header() {
    assert_eq!(client_ip(Some(" 203.0.113.7 , 10.0.0.1"), "127.0.0.1"), "203.0.113.7");
    assert_eq!(client_ip(Some("198.51.100.2"), "127.0.0.1"), "198.51.100.2");
    assert_eq!(client_ip(Some(""), "127.0.0.1"), "");
    assert_eq!(client_ip(None, "127.0.0.1"), "127.0.0.1");
}

#[test]
fn track_event_fields() {
    let body = TrackBody {
        site: "example.com".to_string(),
        kind: default_kind(),
        path: "/about".to_string(),
        referrer: Some(String::new()),
    };
    let ev = event_on(body, "1.2.3.4", "Mozilla/5.0", "20240101", 1_700_000_000_000);
    assert_eq!(ev.site, "example.com");
    assert_eq!(ev.kind, "pageview");
    assert_eq!(ev.path, "/about");
    assert_eq!(ev.referrer, None);
    assert_eq!(ev.visitor_hash, "290b35b404b3a8f2ec335ccedc3cb6d8");
    assert_eq!(ev.country, None);
    assert_eq!(ev.device.as_deref(), Some("desktop"));
    assert_eq!(ev.browser.as_deref(), Some("Other"));
    assert_eq!(ev.ts_ms, 1_700_000_000_000);
}

#[test]
fn track_event_keeps_referrer() {
    let body = TrackBody {
        site: "s".to_string(),
        kind: "signup_click".to_string(),
        path: "/".to_string(),
        referrer: Some("https://google.com".to_string()),
    };
    let ev = event_on(body, "ip", SAFARI_IPHONE, "d", 5);
    assert_eq!(ev.referrer.as_deref(), Some("https://google.com"));
    assert_eq!(ev.kind, "signup_click");
    assert_eq!(ev.device.as_deref(), Some("mobile"));
    assert_eq!(ev.browser.as_deref(), Some("Safari"));
}

#[test]
fn default_kind_is_pageview() {
    assert_eq!(default_kind(), "pageview");
}

#[test]
fn stats_range_defaults() {
    assert_eq!(stats_range(None, None, 100_000_000), (100_000_000 - DAY_MS, 100_000_000));
    assert_eq!(stats_range(Some(5), None, 100_000_000), (5, 100_000_000));
    assert_eq!(stats_range(Some(5), Some(9), 100_000_000), (5, 9));
    assert_eq!(live_since(1_000_000), 700_000);
}

#[test]
fn error_messages() {
    let e = invalid_body("expected value");
    assert_eq!(e.status(), 400);
    assert_eq!(e.message(), "invalid body: expected value");
    let e = save_failed("disk full");
    assert_eq!(e.status(), 500);
    assert_eq!(e.message(), "save: disk full");
}

fn assets(names: &[&str]) -> Vec<String> {
    names.iter().map(|s| s.to_string()).collect()
}

fn served(r: DashboardReply) -> Option<(String, String)> {
    match r {
        DashboardReply::Asset { key, content_type } => Some((key, content_type)),
        DashboardReply::NotFound => None,
    }
}

#[test]
fn dashboard_root_and_files() {
    let a = assets(&["index.html", "app.js", "style.css", "about/index.html"]);
    assert_eq!(served(choose_asset("/", &a)), Some(("index.html".into(), "text/html".into())));
    assert_eq!(served(choose_asset("", &a)), Some(("index.html".into(), "text/html".into())));
    assert_eq!(served(choose_asset("/app.js", &a)), Some(("app.js".into(), "text/javascript".into())));
    assert_eq!(served(choose_asset("//style.css", &a)), Some(("style.css".into(), "text/css".into())));
}

#[test]
fn dashboard_spa_fallback() {
    let a = assets(&["index.html", "app.js"]);
    assert_eq!(served(choose_asset("/settings/sites", &a)), Some(("index.html".into(), "text/html".into())));
    // a missing file falls back to index.html as HTML
    assert_eq!(
        served(choose_asset("/missing.png", &a)),
        Some(("index.html".into(), "text/html; charset=utf-8".into()))
    );
}

#[test]
fn dashboard_prerendered_dir() {
    let a = assets(&["index.html", "v1.2/index.html"]);
    assert_eq!(served(choose_asset("/v1.2/", &a)), Some(("v1.2/index.html".into(), "text/html".into())));
    assert_eq!(served(choose_asset("/v1.2", &a)), Some(("v1.2/index.html".into(), "text/html".into())));
}

#[test]
fn dashboard_not_found() {
    let a = assets(&["app.js"]);
    assert!(served(choose_asset("/missing.png", &a)).is_none());
    assert!(served(choose_asset("/", &a)).is_none());
}

#[test]
fn config_path_in_data_dir() {
    let p = config_path(&std::path::PathBuf::from("./data"));
    assert_eq!(p, std::path::PathBuf::from("./data/config.json"));
}

#[test]
fn classification_ignores_ascii_case() {
    for ua in [CHROME_DESKTOP, EDGE_DESKTOP, SAFARI_IPHONE, SAFARI_IPAD, FIREFOX_ANDROID, "curl/8.0"] {
        let upper = ua.to_ascii_uppercase();
        let lower = ua.to_ascii_lowercase();
        assert_eq!(classify_browser(&upper), classify_browser(ua));
        assert_eq!(classify_browser(&lower), classify_browser(ua));
        assert_eq!(classify_device(&upper), classify_device(ua));
        assert_eq!(classify_device(&lower), classify_device(ua));
    }
    assert_eq!(classify_browser("MOZILLA/5.0 CHROME/120 SAFARI/537"), "Chrome");
    assert_eq!(classify_device("IPHONE"), "mobile");
}

#[test]
fn client_ip_trims_unicode_white_space() {
    assert_eq!(client_ip(Some("\u{3000}\t203.0.113.9\u{a0}\u{2009}, 10.0.0.1"), "127.0.0.1"), "203.0.113.9");
    assert_eq!(client_ip(Some("\u{85} \u{2028}"), "127.0.0.1"), "");
    assert_eq!(client_ip(Some("a b , c"), "127.0.0.1"), "a b");
}
