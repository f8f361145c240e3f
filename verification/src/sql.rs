//! The SQL statements of the store, and the arguments bound to them.
use vstd::prelude::*;
use crate::text::has_infix;
use crate::window::{Granularity, Windows};

verus! {

/// A value bound to a `?N` placeholder.
#[derive(Debug)]
pub enum SqlArg {
    Text(String),
    Int(i64),
    Null,
}

/// What a bound value stands for.
pub enum SqlValue {
    Text(Seq<char>),
    Int(int),
    Null,
}

impl SqlArg {
    pub open spec fn value(self) -> SqlValue {
        match self {
            SqlArg::Text(s) => SqlValue::Text(s@),
            SqlArg::Int(i) => SqlValue::Int(i as int),
            SqlArg::Null => SqlValue::Null,
        }
    }
}

/// The values that a list of arguments binds, in placeholder order.
pub open spec fn values(args: Seq<SqlArg>) -> Seq<SqlValue> {
    args.map_values(|a: SqlArg| a.value())
}

/// An optional text binds as text, or as SQL `NULL` when absent.
pub open spec fn opt_value(o: Option<String>) -> SqlValue {
    match o {
        Some(s) => SqlValue::Text(s@),
        None => SqlValue::Null,
    }
}

/// A statement with its arguments.
#[derive(Debug)]
pub struct Query {
    pub sql: String,
    pub args: Vec<SqlArg>,
}

/// A grouping column of the top-ten lists.
#[derive(Clone, Copy, Debug, PartialEq, Eq)]
pub enum Dim {
    Path,
    Referrer,
    Country,
    Device,
}

pub const SCHEMA_SQL: &'static str = "CREATE TABLE IF NOT EXISTS sites (
    domain      TEXT PRIMARY KEY,
    name        TEXT NOT NULL,
    created_at  INTEGER NOT NULL
);

CREATE TABLE IF NOT EXISTS events (
    id            INTEGER PRIMARY KEY AUTOINCREMENT,
    site          TEXT NOT NULL,
    kind          TEXT NOT NULL,
    path          TEXT NOT NULL,
    referrer      TEXT,
    visitor_hash  TEXT NOT NULL,
    country       TEXT,
    device        TEXT,
    browser       TEXT,
    ts_ms         INTEGER NOT NULL
);

CREATE INDEX IF NOT EXISTS idx_events_site_ts ON events(site, ts_ms);
CREATE INDEX IF NOT EXISTS idx_events_site_path ON events(site, path);
CREATE INDEX IF NOT EXISTS idx_events_site_visitor ON events(site, visitor_hash);

CREATE TABLE IF NOT EXISTS events_hourly (
    site       TEXT NOT NULL,
    ts_hour    INTEGER NOT NULL,
    path       TEXT NOT NULL,
    referrer   TEXT NOT NULL,
    country    TEXT NOT NULL,
    device     TEXT NOT NULL,
    pageviews  INTEGER NOT NULL,
    PRIMARY KEY (site, ts_hour, path, referrer, country, device)
);
CREATE INDEX IF NOT EXISTS idx_eh_site_ts ON events_hourly(site, ts_hour);

CREATE TABLE IF NOT EXISTS visitors_hourly (
    site         TEXT NOT NULL,
    ts_hour      INTEGER NOT NULL,
    visitor_hash TEXT NOT NULL,
    PRIMARY KEY (site, ts_hour, visitor_hash)
);

CREATE TABLE IF NOT EXISTS events_daily (
    site       TEXT NOT NULL,
    ts_day     INTEGER NOT NULL,
    path       TEXT NOT NULL,
    referrer   TEXT NOT NULL,
    country    TEXT NOT NULL,
    device     TEXT NOT NULL,
    pageviews  INTEGER NOT NULL,
    PRIMARY KEY (site, ts_day, path, referrer, country, device)
);
CREATE INDEX IF NOT EXISTS idx_ed_site_ts ON events_daily(site, ts_day);

CREATE TABLE IF NOT EXISTS visitors_daily (
    site         TEXT NOT NULL,
    ts_day       INTEGER NOT NULL,
    visitor_hash TEXT NOT NULL,
    PRIMARY KEY (site, ts_day, visitor_hash)
);

CREATE TABLE IF NOT EXISTS rollup_state (
    name       TEXT PRIMARY KEY,
    last_ts_ms INTEGER NOT NULL DEFAULT 0
);
";

pub const PRAGMAS_SQL: &'static str = "PRAGMA journal_mode = WAL;
PRAGMA synchronous = NORMAL;
PRAGMA cache_size = -64000;
PRAGMA temp_store = MEMORY;
PRAGMA foreign_keys = ON;";

pub const ENSURE_SITE_SQL: &'static str = "INSERT OR IGNORE INTO sites (domain, name, created_at) VALUES (?1, ?2, ?3)";

pub const LIST_SITES_SQL: &'static str = "SELECT domain, name, created_at FROM sites ORDER BY created_at DESC";

pub const DELETE_SITE_SQL: &'static str = "DELETE FROM sites WHERE domain = ?1";
pub const DELETE_EVENTS_SQL: &'static str = "DELETE FROM events WHERE site = ?1";
pub const DELETE_EVENTS_HOURLY_SQL: &'static str = "DELETE FROM events_hourly WHERE site = ?1";
pub const DELETE_VISITORS_HOURLY_SQL: &'static str = "DELETE FROM visitors_hourly WHERE site = ?1";
pub const DELETE_EVENTS_DAILY_SQL: &'static str = "DELETE FROM events_daily WHERE site = ?1";
pub const DELETE_VISITORS_DAILY_SQL: &'static str = "DELETE FROM visitors_daily WHERE site = ?1";

pub const RECORD_EVENT_SQL: &'static str = "INSERT INTO events
    (site, kind, path, referrer, visitor_hash, country, device, browser, ts_ms)
 VALUES (?1, ?2, ?3, ?4, ?5, ?6, ?7, ?8, ?9)";

pub const ACTIVE_VISITORS_SQL: &'static str = "SELECT COUNT(DISTINCT visitor_hash) FROM events
 WHERE site = ?1 AND ts_ms >= ?2";

pub const LAST_ROLLUP_SQL: &'static str = "SELECT last_ts_ms FROM rollup_state WHERE name = ?1";

pub const RAW_PAGEVIEWS_SQL: &'static str = "SELECT COUNT(*) FROM events
 WHERE site = ?1 AND kind = 'pageview' AND ts_ms BETWEEN ?2 AND ?3";

pub const RAW_VISITORS_SQL: &'static str = "SELECT COUNT(DISTINCT visitor_hash) FROM events
 WHERE site = ?1 AND ts_ms BETWEEN ?2 AND ?3";

pub const RAW_TOP_PAGES_SQL: &'static str = "SELECT path, COUNT(*) c FROM events
 WHERE site = ?1 AND kind='pageview' AND ts_ms BETWEEN ?2 AND ?3
 GROUP BY path ORDER BY c DESC LIMIT 10";

pub const RAW_TOP_REFERRERS_SQL: &'static str = "SELECT COALESCE(referrer,'(direct)'), COUNT(*) c FROM events
 WHERE site = ?1 AND kind='pageview' AND ts_ms BETWEEN ?2 AND ?3
 GROUP BY referrer ORDER BY c DESC LIMIT 10";

pub const RAW_TOP_COUNTRIES_SQL: &'static str = "SELECT COALESCE(country,'(unknown)'), COUNT(*) c FROM events
 WHERE site = ?1 AND kind='pageview' AND ts_ms BETWEEN ?2 AND ?3
 GROUP BY country ORDER BY c DESC LIMIT 10";

pub const RAW_TOP_DEVICES_SQL: &'static str = "SELECT COALESCE(device,'(unknown)'), COUNT(*) c FROM events
 WHERE site = ?1 AND kind='pageview' AND ts_ms BETWEEN ?2 AND ?3
 GROUP BY device ORDER BY c DESC LIMIT 10";

pub const COMBINED_PAGEVIEWS_HEAD: &'static str = "SELECT
   COALESCE((SELECT SUM(pageviews) FROM ";
pub const COMBINED_PAGEVIEWS_MID: &'static str = "
             WHERE site=?1 AND ";
pub const COMBINED_PAGEVIEWS_TAIL: &'static str = " BETWEEN ?2 AND ?3), 0)
 + COALESCE((SELECT COUNT(*) FROM events
             WHERE site=?1 AND kind='pageview'
             AND ts_ms BETWEEN ?4 AND ?5), 0)";

pub const COMBINED_VISITORS_HEAD: &'static str = "SELECT COUNT(DISTINCT visitor_hash) FROM (
    SELECT visitor_hash FROM ";
pub const COMBINED_VISITORS_MID: &'static str = "
    WHERE site=?1 AND ";
pub const COMBINED_VISITORS_TAIL: &'static str = " BETWEEN ?2 AND ?3
    UNION ALL
    SELECT visitor_hash FROM events
    WHERE site=?1 AND ts_ms BETWEEN ?4 AND ?5
 )";

pub const TOP_COMBINED_1: &'static str = "SELECT k, SUM(c) AS total FROM (
    SELECT ";
pub const TOP_COMBINED_2: &'static str = " AS k, pageviews AS c FROM ";
pub const TOP_COMBINED_3: &'static str = "
    WHERE site = ?1 AND ";
pub const TOP_COMBINED_4: &'static str = " BETWEEN ?2 AND ?3
    UNION ALL
    SELECT ";
pub const TOP_COMBINED_5: &'static str = " AS k, COUNT(*) AS c FROM events
    WHERE site = ?1 AND kind='pageview'
          AND ts_ms BETWEEN ?4 AND ?5
    GROUP BY ";
pub const TOP_COMBINED_6: &'static str = "
 )
 GROUP BY k ORDER BY total DESC LIMIT 10";

pub const ROLLUP_EVENTS_HOURLY_SQL: &'static str = "INSERT INTO events_hourly (site, ts_hour, path, referrer, country, device, pageviews)
 SELECT
    site,
    (ts_ms / ?1) * ?1 AS ts_hour,
    path,
    COALESCE(referrer, '(direct)'),
    COALESCE(country, '(unknown)'),
    COALESCE(device, '(unknown)'),
    COUNT(*)
 FROM events
 WHERE kind='pageview' AND ts_ms >= ?2 AND ts_ms < ?3
 GROUP BY site, ts_hour, path,
          COALESCE(referrer, '(direct)'),
          COALESCE(country, '(unknown)'),
          COALESCE(device, '(unknown)')
 ON CONFLICT(site, ts_hour, path, referrer, country, device)
 DO UPDATE SET pageviews = pageviews + EXCLUDED.pageviews";

pub const ROLLUP_EVENTS_DAILY_SQL: &'static str = "INSERT INTO events_daily (site, ts_day, path, referrer, country, device, pageviews)
 SELECT
    site,
    (ts_ms / ?1) * ?1 AS ts_day,
    path,
    COALESCE(referrer, '(direct)'),
    COALESCE(country, '(unknown)'),
    COALESCE(device, '(unknown)'),
    COUNT(*)
 FROM events
 WHERE kind='pageview' AND ts_ms >= ?2 AND ts_ms < ?3
 GROUP BY site, ts_day, path,
          COALESCE(referrer, '(direct)'),
          COALESCE(country, '(unknown)'),
          COALESCE(device, '(unknown)')
 ON CONFLICT(site, ts_day, path, referrer, country, device)
 DO UPDATE SET pageviews = pageviews + EXCLUDED.pageviews";

pub const ROLLUP_VISITORS_HOURLY_SQL: &'static str = "INSERT OR IGNORE INTO visitors_hourly (site, ts_hour, visitor_hash)
 SELECT
    site,
    (ts_ms / ?1) * ?1 AS ts_hour,
    visitor_hash
 FROM events
 WHERE ts_ms >= ?2 AND ts_ms < ?3";

pub const ROLLUP_VISITORS_DAILY_SQL: &'static str = "INSERT OR IGNORE INTO visitors_daily (site, ts_day, visitor_hash)
 SELECT
    site,
    (ts_ms / ?1) * ?1 AS ts_day,
    visitor_hash
 FROM events
 WHERE ts_ms >= ?2 AND ts_ms < ?3";

pub const ROLLUP_COUNT_SQL: &'static str = "SELECT COUNT(*) FROM events
 WHERE ts_ms >= ?1 AND ts_ms < ?2";

pub const ROLLUP_STATE_HOURLY_SQL: &'static str = "INSERT INTO rollup_state (name, last_ts_ms) VALUES ('hourly', ?1)
 ON CONFLICT(name) DO UPDATE SET last_ts_ms = excluded.last_ts_ms";

pub const ROLLUP_STATE_DAILY_SQL: &'static str = "INSERT INTO rollup_state (name, last_ts_ms) VALUES ('daily', ?1)
 ON CONFLICT(name) DO UPDATE SET last_ts_ms = excluded.last_ts_ms";

/// Name of a granularity: its `rollup_state` row and the `source` of its stats.
pub open spec fn granularity_name(g: Granularity) -> Seq<char> {
    match g {
        Granularity::Hourly => "hourly"@,
        Granularity::Daily => "daily"@,
    }
}

/// Table of pre-aggregated page views of a granularity.
pub open spec fn events_table(g: Granularity) -> Seq<char> {
    match g {
        Granularity::Hourly => "events_hourly"@,
        Granularity::Daily => "events_daily"@,
    }
}

/// Table of de-duplicated visitors of a granularity.
pub open spec fn visitors_table(g: Granularity) -> Seq<char> {
    match g {
        Granularity::Hourly => "visitors_hourly"@,
        Granularity::Daily => "visitors_daily"@,
    }
}

/// Bucket column of the tables of a granularity.
pub open spec fn ts_column(g: Granularity) -> Seq<char> {
    match g {
        Granularity::Hourly => "ts_hour"@,
        Granularity::Daily => "ts_day"@,
    }
}

/// Column of a dimension in the pre-aggregated tables.
pub open spec fn dim_column(d: Dim) -> Seq<char> {
    match d {
        Dim::Path => "path"@,
        Dim::Referrer => "referrer"@,
        Dim::Country => "country"@,
        Dim::Device => "device"@,
    }
}

/// Expression of a dimension over raw events, with a missing value named the
/// way the rollup names it.
pub open spec fn dim_raw_expr(d: Dim) -> Seq<char> {
    match d {
        Dim::Path => "path"@,
        Dim::Referrer => "COALESCE(referrer,'(direct)')"@,
        Dim::Country => "COALESCE(country,'(unknown)')"@,
        Dim::Device => "COALESCE(device,'(unknown)')"@,
    }
}

pub fn granularity_name_str(g: Granularity) -> (s: &'static str)
    ensures
        s@ == granularity_name(g),
{
    match g {
        Granularity::Hourly => "hourly",
        Granularity::Daily => "daily",
    }
}

fn events_table_str(g: Granularity) -> (s: &'static str)
    ensures
        s@ == events_table(g),
{
    match g {
        Granularity::Hourly => "events_hourly",
        Granularity::Daily => "events_daily",
    }
}

fn visitors_table_str(g: Granularity) -> (s: &'static str)
    ensures
        s@ == visitors_table(g),
{
    match g {
        Granularity::Hourly => "visitors_hourly",
        Granularity::Daily => "visitors_daily",
    }
}

fn ts_column_str(g: Granularity) -> (s: &'static str)
    ensures
        s@ == ts_column(g),
{
    match g {
        Granularity::Hourly => "ts_hour",
        Granularity::Daily => "ts_day",
    }
}

fn dim_column_str(d: Dim) -> (s: &'static str)
    ensures
        s@ == dim_column(d),
{
    match d {
        Dim::Path => "path",
        Dim::Referrer => "referrer",
        Dim::Country => "country",
        Dim::Device => "device",
    }
}

fn dim_raw_expr_str(d: Dim) -> (s: &'static str)
    ensures
        s@ == dim_raw_expr(d),
{
    match d {
        Dim::Path => "path",
        Dim::Referrer => "COALESCE(referrer,'(direct)')",
        Dim::Country => "COALESCE(country,'(unknown)')",
        Dim::Device => "COALESCE(device,'(unknown)')",
    }
}

/// Combined page views of a granularity: aggregated buckets plus raw page views.
pub open spec fn combined_pageviews_sql(g: Granularity) -> Seq<char> {
    COMBINED_PAGEVIEWS_HEAD@ + events_table(g) + COMBINED_PAGEVIEWS_MID@ + ts_column(g)
        + COMBINED_PAGEVIEWS_TAIL@
}

/// Combined distinct visitors of a granularity.
pub open spec fn combined_visitors_sql(g: Granularity) -> Seq<char> {
    COMBINED_VISITORS_HEAD@ + visitors_table(g) + COMBINED_VISITORS_MID@ + ts_column(g)
        + COMBINED_VISITORS_TAIL@
}

/// Combined top ten of a dimension: bucket sums and raw counts added per key.
pub open spec fn top_combined_sql(g: Granularity, d: Dim) -> Seq<char> {
    TOP_COMBINED_1@ + dim_column(d) + TOP_COMBINED_2@ + events_table(g) + TOP_COMBINED_3@
        + ts_column(g) + TOP_COMBINED_4@ + dim_raw_expr(d) + TOP_COMBINED_5@ + dim_raw_expr(d)
        + TOP_COMBINED_6@
}

/// Raw top ten of a dimension.
pub open spec fn raw_top_sql(d: Dim) -> Seq<char> {
    match d {
        Dim::Path => RAW_TOP_PAGES_SQL@,
        Dim::Referrer => RAW_TOP_REFERRERS_SQL@,
        Dim::Country => RAW_TOP_COUNTRIES_SQL@,
        Dim::Device => RAW_TOP_DEVICES_SQL@,
    }
}

/// The statement that folds raw page views into buckets.
pub open spec fn rollup_events_sql(g: Granularity) -> Seq<char> {
    match g {
        Granularity::Hourly => ROLLUP_EVENTS_HOURLY_SQL@,
        Granularity::Daily => ROLLUP_EVENTS_DAILY_SQL@,
    }
}

/// The statement that folds raw visitors into buckets.
pub open spec fn rollup_visitors_sql(g: Granularity) -> Seq<char> {
    match g {
        Granularity::Hourly => ROLLUP_VISITORS_HOURLY_SQL@,
        Granularity::Daily => ROLLUP_VISITORS_DAILY_SQL@,
    }
}

/// The statement that records the end of a rollup.
pub open spec fn rollup_state_sql(g: Granularity) -> Seq<char> {
    match g {
        Granularity::Hourly => ROLLUP_STATE_HOURLY_SQL@,
        Granularity::Daily => ROLLUP_STATE_DAILY_SQL@,
    }
}

/// A text argument holding a copy of `s`.
pub fn text_arg(s: &str) -> (a: SqlArg)
    ensures
        a.value() == SqlValue::Text(s@),
{
    SqlArg::Text(String::from_str(s))
}

/// An optional text argument: the text, or `NULL` when absent.
pub fn opt_text_arg(o: &Option<String>) -> (a: SqlArg)
    ensures
        a.value() == opt_value(*o),
{
    match o {
        Some(s) => SqlArg::Text(s.clone()),
        None => SqlArg::Null,
    }
}

/// Arguments `site, from, to` of the raw stats statements.
pub fn site_range_args(site: &str, from_ms: i64, to_ms: i64) -> (v: Vec<SqlArg>)
    ensures
        values(v@) == seq![SqlValue::Text(site@), SqlValue::Int(from_ms as int), SqlValue::Int(to_ms as int)],
{
    let mut v: Vec<SqlArg> = Vec::new();
    v.push(text_arg(site));
    v.push(SqlArg::Int(from_ms));
    v.push(SqlArg::Int(to_ms));
    assert(values(v@) =~= seq![SqlValue::Text(site@), SqlValue::Int(from_ms as int), SqlValue::Int(to_ms as int)]);
    v
}

/// The four bounds of a pair of windows.
pub open spec fn window_bounds(w: Windows) -> (int, int, int, int) {
    (w.agg_from as int, w.agg_to_inc as int, w.raw_from as int, w.raw_to as int)
}

/// Arguments `site, agg_from, agg_to_inc, raw_from, raw_to` of the combined statements.
pub fn site_windows_args(site: &str, w: Windows) -> (v: Vec<SqlArg>)
    ensures
        values(v@) == site_windows_values(site@, window_bounds(w)),
{
    let mut v: Vec<SqlArg> = Vec::new();
    v.push(text_arg(site));
    v.push(SqlArg::Int(w.agg_from));
    v.push(SqlArg::Int(w.agg_to_inc));
    v.push(SqlArg::Int(w.raw_from));
    v.push(SqlArg::Int(w.raw_to));
    assert(values(v@) =~= seq![
        SqlValue::Text(site@),
        SqlValue::Int(w.agg_from as int),
        SqlValue::Int(w.agg_to_inc as int),
        SqlValue::Int(w.raw_from as int),
        SqlValue::Int(w.raw_to as int),
    ]);
    v
}

/// The raw top-ten statement of a dimension.
pub fn raw_top_query(d: Dim) -> (s: &'static str)
    ensures
        s@ == raw_top_sql(d),
{
    match d {
        Dim::Path => RAW_TOP_PAGES_SQL,
        Dim::Referrer => RAW_TOP_REFERRERS_SQL,
        Dim::Country => RAW_TOP_COUNTRIES_SQL,
        Dim::Device => RAW_TOP_DEVICES_SQL,
    }
}

/// The combined page-view statement of a granularity.
pub fn combined_pageviews_query(g: Granularity) -> (s: String)
    ensures
        s@ == combined_pageviews_sql(g),
{
    let mut s = String::from_str(COMBINED_PAGEVIEWS_HEAD);
    s.append(events_table_str(g));
    s.append(COMBINED_PAGEVIEWS_MID);
    s.append(ts_column_str(g));
    s.append(COMBINED_PAGEVIEWS_TAIL);
    s
}

/// The combined visitor statement of a granularity.
pub fn combined_visitors_query(g: Granularity) -> (s: String)
    ensures
        s@ == combined_visitors_sql(g),
{
    let mut s = String::from_str(COMBINED_VISITORS_HEAD);
    s.append(visitors_table_str(g));
    s.append(COMBINED_VISITORS_MID);
    s.append(ts_column_str(g));
    s.append(COMBINED_VISITORS_TAIL);
    s
}

/// The combined top-ten statement of a granularity and a dimension.
pub fn top_combined_query(g: Granularity, d: Dim) -> (s: String)
    ensures
        s@ == top_combined_sql(g, d),
{
    let raw_expr = dim_raw_expr_str(d);
    let mut s = String::from_str(TOP_COMBINED_1);
    s.append(dim_column_str(d));
    s.append(TOP_COMBINED_2);
    s.append(events_table_str(g));
    s.append(TOP_COMBINED_3);
    s.append(ts_column_str(g));
    s.append(TOP_COMBINED_4);
    s.append(raw_expr);
    s.append(TOP_COMBINED_5);
    s.append(raw_expr);
    s.append(TOP_COMBINED_6);
    s
}

/// The rollup statements of a granularity: page views, visitors, end marker.
pub fn rollup_queries(g: Granularity) -> (r: (&'static str, &'static str, &'static str))
    ensures
        r.0@ == rollup_events_sql(g),
        r.1@ == rollup_visitors_sql(g),
        r.2@ == rollup_state_sql(g),
{
    match g {
        Granularity::Hourly => (ROLLUP_EVENTS_HOURLY_SQL, ROLLUP_VISITORS_HOURLY_SQL, ROLLUP_STATE_HOURLY_SQL),
        Granularity::Daily => (ROLLUP_EVENTS_DAILY_SQL, ROLLUP_VISITORS_DAILY_SQL, ROLLUP_STATE_DAILY_SQL),
    }
}

/// A statement as its text and the values bound to it.
pub open spec fn query_view(q: Query) -> (Seq<char>, Seq<SqlValue>) {
    (q.sql@, values(q.args@))
}

/// A list of statements as texts and bound values.
pub open spec fn plan_view(qs: Seq<Query>) -> Seq<(Seq<char>, Seq<SqlValue>)> {
    qs.map_values(|q: Query| query_view(q))
}

/// Values `site, from, to`.
pub open spec fn site_range_values(site: Seq<char>, from_ms: int, to_ms: int) -> Seq<SqlValue> {
    seq![SqlValue::Text(site), SqlValue::Int(from_ms), SqlValue::Int(to_ms)]
}

/// Values `site, agg_from, agg_to_inc, raw_from, raw_to`.
pub open spec fn site_windows_values(site: Seq<char>, w: (int, int, int, int)) -> Seq<SqlValue> {
    seq![
        SqlValue::Text(site),
        SqlValue::Int(w.0),
        SqlValue::Int(w.1),
        SqlValue::Int(w.2),
        SqlValue::Int(w.3),
    ]
}

/// Raw stats: page views, distinct visitors, then the top tens of pages,
/// referrers, countries and devices, all over `[from, to]`.
pub open spec fn raw_stats_plan(site: Seq<char>, from_ms: int, to_ms: int) -> Seq<(Seq<char>, Seq<SqlValue>)> {
    let a = site_range_values(site, from_ms, to_ms);
    seq![
        (RAW_PAGEVIEWS_SQL@, a),
        (RAW_VISITORS_SQL@, a),
        (raw_top_sql(Dim::Path), a),
        (raw_top_sql(Dim::Referrer), a),
        (raw_top_sql(Dim::Country), a),
        (raw_top_sql(Dim::Device), a),
    ]
}

/// Combined stats of a granularity, in the same order as the raw ones.
pub open spec fn combined_stats_plan(site: Seq<char>, g: Granularity, w: (int, int, int, int)) -> Seq<(Seq<char>, Seq<SqlValue>)> {
    let b = site_windows_values(site, w);
    seq![
        (combined_pageviews_sql(g), b),
        (combined_visitors_sql(g), b),
        (top_combined_sql(g, Dim::Path), b),
        (top_combined_sql(g, Dim::Referrer), b),
        (top_combined_sql(g, Dim::Country), b),
        (top_combined_sql(g, Dim::Device), b),
    ]
}

/// A rollup of `[from, cur)` with buckets of width `bucket`: fold page views,
/// fold visitors, count the raw events folded, record `cur` as the end of the
/// rollup.
pub open spec fn rollup_stmt_plan(g: Granularity, bucket: int, from_ms: int, cur_ms: int) -> Seq<(Seq<char>, Seq<SqlValue>)> {
    let a = seq![SqlValue::Int(bucket), SqlValue::Int(from_ms), SqlValue::Int(cur_ms)];
    seq![
        (rollup_events_sql(g), a),
        (rollup_visitors_sql(g), a),
        (ROLLUP_COUNT_SQL@, seq![SqlValue::Int(from_ms), SqlValue::Int(cur_ms)]),
        (rollup_state_sql(g), seq![SqlValue::Int(cur_ms)]),
    ]
}

/// The six raw stats statements.
pub fn raw_stats_queries(site: &str, from_ms: i64, to_ms: i64) -> (qs: Vec<Query>)
    ensures
        plan_view(qs@) == raw_stats_plan(site@, from_ms as int, to_ms as int),
        qs@.len() == 6,
{
    let mut qs: Vec<Query> = Vec::new();
    qs.push(Query { sql: String::from_str(RAW_PAGEVIEWS_SQL), args: site_range_args(site, from_ms, to_ms) });
    qs.push(Query { sql: String::from_str(RAW_VISITORS_SQL), args: site_range_args(site, from_ms, to_ms) });
    qs.push(Query { sql: String::from_str(raw_top_query(Dim::Path)), args: site_range_args(site, from_ms, to_ms) });
    qs.push(Query { sql: String::from_str(raw_top_query(Dim::Referrer)), args: site_range_args(site, from_ms, to_ms) });
    qs.push(Query { sql: String::from_str(raw_top_query(Dim::Country)), args: site_range_args(site, from_ms, to_ms) });
    qs.push(Query { sql: String::from_str(raw_top_query(Dim::Device)), args: site_range_args(site, from_ms, to_ms) });
    assert(plan_view(qs@) =~= raw_stats_plan(site@, from_ms as int, to_ms as int));
    qs
}

/// The six combined stats statements of a granularity.
pub fn combined_stats_queries(site: &str, g: Granularity, w: Windows) -> (qs: Vec<Query>)
    ensures
        plan_view(qs@) == combined_stats_plan(site@, g, window_bounds(w)),
        qs@.len() == 6,
{
    let mut qs: Vec<Query> = Vec::new();
    qs.push(Query { sql: combined_pageviews_query(g), args: site_windows_args(site, w) });
    qs.push(Query { sql: combined_visitors_query(g), args: site_windows_args(site, w) });
    qs.push(Query { sql: top_combined_query(g, Dim::Path), args: site_windows_args(site, w) });
    qs.push(Query { sql: top_combined_query(g, Dim::Referrer), args: site_windows_args(site, w) });
    qs.push(Query { sql: top_combined_query(g, Dim::Country), args: site_windows_args(site, w) });
    qs.push(Query { sql: top_combined_query(g, Dim::Device), args: site_windows_args(site, w) });
    assert(plan_view(qs@) =~= combined_stats_plan(site@, g, window_bounds(w)));
    qs
}

/// The four statements of a rollup of `[from_ms, cur_ms)`.
pub fn rollup_stmt_queries(g: Granularity, bucket: i64, from_ms: i64, cur_ms: i64) -> (qs: Vec<Query>)
    ensures
        plan_view(qs@) == rollup_stmt_plan(g, bucket as int, from_ms as int, cur_ms as int),
        qs@.len() == 4,
{
    let (ev, vis, st) = rollup_queries(g);
    let mut a1: Vec<SqlArg> = Vec::new();
    a1.push(SqlArg::Int(bucket));
    a1.push(SqlArg::Int(from_ms));
    a1.push(SqlArg::Int(cur_ms));
    let mut a2: Vec<SqlArg> = Vec::new();
    a2.push(SqlArg::Int(bucket));
    a2.push(SqlArg::Int(from_ms));
    a2.push(SqlArg::Int(cur_ms));
    let mut a3: Vec<SqlArg> = Vec::new();
    a3.push(SqlArg::Int(from_ms));
    a3.push(SqlArg::Int(cur_ms));
    let mut a4: Vec<SqlArg> = Vec::new();
    a4.push(SqlArg::Int(cur_ms));
    let mut qs: Vec<Query> = Vec::new();
    qs.push(Query { sql: String::from_str(ev), args: a1 });
    qs.push(Query { sql: String::from_str(vis), args: a2 });
    qs.push(Query { sql: String::from_str(ROLLUP_COUNT_SQL), args: a3 });
    qs.push(Query { sql: String::from_str(st), args: a4 });
    assert(values(qs@[0].args@) =~= seq![SqlValue::Int(bucket as int), SqlValue::Int(from_ms as int), SqlValue::Int(cur_ms as int)]);
    assert(values(qs@[1].args@) =~= seq![SqlValue::Int(bucket as int), SqlValue::Int(from_ms as int), SqlValue::Int(cur_ms as int)]);
    assert(values(qs@[2].args@) =~= seq![SqlValue::Int(from_ms as int), SqlValue::Int(cur_ms as int)]);
    assert(values(qs@[3].args@) =~= seq![SqlValue::Int(cur_ms as int)]);
    assert(plan_view(qs@) =~= rollup_stmt_plan(g, bucket as int, from_ms as int, cur_ms as int));
    qs
}

/// Rows of (text, integer) pairs as bound values, column by column.
pub open spec fn pair_rows(rows: Seq<(String, i64)>) -> Seq<Seq<SqlValue>> {
    rows.map_values(|p: (String, i64)| seq![SqlValue::Text(p.0@), SqlValue::Int(p.1 as int)])
}

/// Rows of (text, text, integer) triples as values, column by column.
pub open spec fn triple_rows(rows: Seq<(String, String, i64)>) -> Seq<Seq<SqlValue>> {
    rows.map_values(
        |p: (String, String, i64)| seq![SqlValue::Text(p.0@), SqlValue::Text(p.1@), SqlValue::Int(p.2 as int)],
    )
}


/// `s` begins with `p`.
pub open spec fn starts_with(s: Seq<char>, p: Seq<char>) -> bool {
    p.len() <= s.len() && s.take(p.len() as int) == p
}

/// What the raw statements count: the page-view statement counts the
/// site's page-view events, the visitor statement the distinct visitor
/// hashes of its events, and each top ten groups page views by its own
/// column.
pub proof fn lemma_raw_statements_count_their_figure()
    ensures
        starts_with(RAW_PAGEVIEWS_SQL@, "SELECT COUNT(*) FROM events"@),
        has_infix(RAW_PAGEVIEWS_SQL@, "kind = 'pageview'"@),
        starts_with(RAW_VISITORS_SQL@, "SELECT COUNT(DISTINCT visitor_hash) FROM events"@),
        starts_with(RAW_TOP_PAGES_SQL@, "SELECT path, COUNT(*)"@),
        starts_with(RAW_TOP_REFERRERS_SQL@, "SELECT COALESCE(referrer,'(direct)'), COUNT(*)"@),
        starts_with(RAW_TOP_COUNTRIES_SQL@, "SELECT COALESCE(country,'(unknown)'), COUNT(*)"@),
        starts_with(RAW_TOP_DEVICES_SQL@, "SELECT COALESCE(device,'(unknown)'), COUNT(*)"@),
{
    reveal_strlit("SELECT COUNT(*) FROM events
 WHERE site = ?1 AND kind = 'pageview' AND ts_ms BETWEEN ?2 AND ?3");
    reveal_strlit("SELECT COUNT(DISTINCT visitor_hash) FROM events
 WHERE site = ?1 AND ts_ms BETWEEN ?2 AND ?3");
    reveal_strlit("SELECT path, COUNT(*) c FROM events
 WHERE site = ?1 AND kind='pageview' AND ts_ms BETWEEN ?2 AND ?3
 GROUP BY path ORDER BY c DESC LIMIT 10");
    reveal_strlit("SELECT COALESCE(referrer,'(direct)'), COUNT(*) c FROM events
 WHERE site = ?1 AND kind='pageview' AND ts_ms BETWEEN ?2 AND ?3
 GROUP BY referrer ORDER BY c DESC LIMIT 10");
    reveal_strlit("SELECT COALESCE(country,'(unknown)'), COUNT(*) c FROM events
 WHERE site = ?1 AND kind='pageview' AND ts_ms BETWEEN ?2 AND ?3
 GROUP BY country ORDER BY c DESC LIMIT 10");
    reveal_strlit("SELECT COALESCE(device,'(unknown)'), COUNT(*) c FROM events
 WHERE site = ?1 AND kind='pageview' AND ts_ms BETWEEN ?2 AND ?3
 GROUP BY device ORDER BY c DESC LIMIT 10");
    reveal_strlit("SELECT COUNT(*) FROM events");
    assert(RAW_PAGEVIEWS_SQL@.take(27) =~= "SELECT COUNT(*) FROM events"@);
    reveal_strlit("SELECT COUNT(DISTINCT visitor_hash) FROM events");
    assert(RAW_VISITORS_SQL@.take(47) =~= "SELECT COUNT(DISTINCT visitor_hash) FROM events"@);
    reveal_strlit("SELECT path, COUNT(*)");
    assert(RAW_TOP_PAGES_SQL@.take(21) =~= "SELECT path, COUNT(*)"@);
    reveal_strlit("SELECT COALESCE(referrer,'(direct)'), COUNT(*)");
    assert(RAW_TOP_REFERRERS_SQL@.take(46) =~= "SELECT COALESCE(referrer,'(direct)'), COUNT(*)"@);
    reveal_strlit("SELECT COALESCE(country,'(unknown)'), COUNT(*)");
    assert(RAW_TOP_COUNTRIES_SQL@.take(46) =~= "SELECT COALESCE(country,'(unknown)'), COUNT(*)"@);
    reveal_strlit("SELECT COALESCE(device,'(unknown)'), COUNT(*)");
    assert(RAW_TOP_DEVICES_SQL@.take(45) =~= "SELECT COALESCE(device,'(unknown)'), COUNT(*)"@);
    reveal_strlit("kind = 'pageview'");
    assert(RAW_PAGEVIEWS_SQL@.subrange(49, 49int + "kind = 'pageview'"@.len()) =~= "kind = 'pageview'"@);
}

/// The tables of a granularity: page views in `events_hourly` or
/// `events_daily`, visitors in `visitors_hourly` or `visitors_daily`.
pub proof fn lemma_granularity_tables()
    ensures
        events_table(Granularity::Hourly) == "events_hourly"@,
        events_table(Granularity::Daily) == "events_daily"@,
        visitors_table(Granularity::Hourly) == "visitors_hourly"@,
        visitors_table(Granularity::Daily) == "visitors_daily"@,
        granularity_name(Granularity::Hourly) == "hourly"@,
        granularity_name(Granularity::Daily) == "daily"@,
{
}

/// A rollup of a granularity writes into the tables that the stats of the
/// same granularity read: page views into its events table, visitors into
/// its visitors table, and its end under its own name, which the read of the
/// rollup end asks for.
pub proof fn lemma_rollup_writes_what_stats_read(g: Granularity)
    ensures
        starts_with(rollup_events_sql(g), "INSERT INTO "@ + events_table(g) + " ("@),
        starts_with(rollup_visitors_sql(g), "INSERT OR IGNORE INTO "@ + visitors_table(g) + " ("@),
        starts_with(
            rollup_state_sql(g),
            "INSERT INTO rollup_state (name, last_ts_ms) VALUES ('"@ + granularity_name(g) + "', ?1)"@,
        ),
        has_infix(combined_pageviews_sql(g), "SUM(pageviews) FROM "@ + events_table(g)),
        has_infix(combined_visitors_sql(g), "SELECT visitor_hash FROM "@ + visitors_table(g)),
{
    reveal_strlit("INSERT INTO events_hourly (site, ts_hour, path, referrer, country, device, pageviews)
 SELECT
    site,
    (ts_ms / ?1) * ?1 AS ts_hour,
    path,
    COALESCE(referrer, '(direct)'),
    COALESCE(country, '(unknown)'),
    COALESCE(device, '(unknown)'),
    COUNT(*)
 FROM events
 WHERE kind='pageview' AND ts_ms >= ?2 AND ts_ms < ?3
 GROUP BY site, ts_hour, path,
          COALESCE(referrer, '(direct)'),
          COALESCE(country, '(unknown)'),
          COALESCE(device, '(unknown)')
 ON CONFLICT(site, ts_hour, path, referrer, country, device)
 DO UPDATE SET pageviews = pageviews + EXCLUDED.pageviews");
    reveal_strlit("INSERT INTO events_daily (site, ts_day, path, referrer, country, device, pageviews)
 SELECT
    site,
    (ts_ms / ?1) * ?1 AS ts_day,
    path,
    COALESCE(referrer, '(direct)'),
    COALESCE(country, '(unknown)'),
    COALESCE(device, '(unknown)'),
    COUNT(*)
 FROM events
 WHERE kind='pageview' AND ts_ms >= ?2 AND ts_ms < ?3
 GROUP BY site, ts_day, path,
          COALESCE(referrer, '(direct)'),
          COALESCE(country, '(unknown)'),
          COALESCE(device, '(unknown)')
 ON CONFLICT(site, ts_day, path, referrer, country, device)
 DO UPDATE SET pageviews = pageviews + EXCLUDED.pageviews");
    reveal_strlit("INSERT OR IGNORE INTO visitors_hourly (site, ts_hour, visitor_hash)
 SELECT
    site,
    (ts_ms / ?1) * ?1 AS ts_hour,
    visitor_hash
 FROM events
 WHERE ts_ms >= ?2 AND ts_ms < ?3");
    reveal_strlit("INSERT OR IGNORE INTO visitors_daily (site, ts_day, visitor_hash)
 SELECT
    site,
    (ts_ms / ?1) * ?1 AS ts_day,
    visitor_hash
 FROM events
 WHERE ts_ms >= ?2 AND ts_ms < ?3");
    reveal_strlit("INSERT INTO rollup_state (name, last_ts_ms) VALUES ('hourly', ?1)
 ON CONFLICT(name) DO UPDATE SET last_ts_ms = excluded.last_ts_ms");
    reveal_strlit("INSERT INTO rollup_state (name, last_ts_ms) VALUES ('daily', ?1)
 ON CONFLICT(name) DO UPDATE SET last_ts_ms = excluded.last_ts_ms");
    reveal_strlit("SELECT
   COALESCE((SELECT SUM(pageviews) FROM ");
    reveal_strlit("SELECT COUNT(DISTINCT visitor_hash) FROM (
    SELECT visitor_hash FROM ");
    reveal_strlit("INSERT INTO ");
    reveal_strlit(" (");
    reveal_strlit("INSERT OR IGNORE INTO ");
    reveal_strlit("INSERT INTO rollup_state (name, last_ts_ms) VALUES ('");
    reveal_strlit("', ?1)");
    reveal_strlit("SUM(pageviews) FROM ");
    reveal_strlit("SELECT visitor_hash FROM ");
    reveal_strlit("events_hourly");
    reveal_strlit("events_daily");
    reveal_strlit("visitors_hourly");
    reveal_strlit("visitors_daily");
    reveal_strlit("hourly");
    reveal_strlit("daily");
    if g == Granularity::Hourly {
        assert(ROLLUP_EVENTS_HOURLY_SQL@.take(27) =~= "INSERT INTO "@ + "events_hourly"@ + " ("@);
        assert(ROLLUP_VISITORS_HOURLY_SQL@.take(39) =~= "INSERT OR IGNORE INTO "@ + "visitors_hourly"@ + " ("@);
        assert(ROLLUP_STATE_HOURLY_SQL@.take(65) =~= "INSERT INTO rollup_state (name, last_ts_ms) VALUES ('"@ + "hourly"@ + "', ?1)"@);
        assert(combined_pageviews_sql(g).subrange(27, 60) =~= "SUM(pageviews) FROM "@ + "events_hourly"@);
        assert(combined_visitors_sql(g).subrange(47, 87) =~= "SELECT visitor_hash FROM "@ + "visitors_hourly"@);
        assert(combined_pageviews_sql(g).subrange(27, 27int + ("SUM(pageviews) FROM "@ + events_table(g)).len()) =~= "SUM(pageviews) FROM "@ + events_table(g));
        assert(combined_visitors_sql(g).subrange(47, 47int + ("SELECT visitor_hash FROM "@ + visitors_table(g)).len()) =~= "SELECT visitor_hash FROM "@ + visitors_table(g));
    }
    if g == Granularity::Daily {
        assert(ROLLUP_EVENTS_DAILY_SQL@.take(26) =~= "INSERT INTO "@ + "events_daily"@ + " ("@);
        assert(ROLLUP_VISITORS_DAILY_SQL@.take(38) =~= "INSERT OR IGNORE INTO "@ + "visitors_daily"@ + " ("@);
        assert(ROLLUP_STATE_DAILY_SQL@.take(64) =~= "INSERT INTO rollup_state (name, last_ts_ms) VALUES ('"@ + "daily"@ + "', ?1)"@);
        assert(combined_pageviews_sql(g).subrange(27, 59) =~= "SUM(pageviews) FROM "@ + "events_daily"@);
        assert(combined_visitors_sql(g).subrange(47, 86) =~= "SELECT visitor_hash FROM "@ + "visitors_daily"@);
        assert(combined_pageviews_sql(g).subrange(27, 27int + ("SUM(pageviews) FROM "@ + events_table(g)).len()) =~= "SUM(pageviews) FROM "@ + events_table(g));
        assert(combined_visitors_sql(g).subrange(47, 47int + ("SELECT visitor_hash FROM "@ + visitors_table(g)).len()) =~= "SELECT visitor_hash FROM "@ + visitors_table(g));
    }
}


/// Recorded events fill the columns of `events` in the order the statement
/// names them, and the count of active visitors counts distinct visitor
/// hashes of the site's events since the given instant.
pub proof fn lemma_event_and_active_statements()
    ensures
        starts_with(RECORD_EVENT_SQL@, "INSERT INTO events"@),
        has_infix(RECORD_EVENT_SQL@, "(site, kind, path, referrer, visitor_hash, country, device, browser, ts_ms)"@),
        starts_with(ACTIVE_VISITORS_SQL@, "SELECT COUNT(DISTINCT visitor_hash) FROM events"@),
        has_infix(ACTIVE_VISITORS_SQL@, "site = ?1 AND ts_ms >= ?2"@),
        starts_with(ENSURE_SITE_SQL@, "INSERT OR IGNORE INTO sites (domain, name, created_at) VALUES (?1, ?2, ?3)"@),
{
    reveal_strlit("INSERT INTO events
    (site, kind, path, referrer, visitor_hash, country, device, browser, ts_ms)
 VALUES (?1, ?2, ?3, ?4, ?5, ?6, ?7, ?8, ?9)");
    reveal_strlit("SELECT COUNT(DISTINCT visitor_hash) FROM events
 WHERE site = ?1 AND ts_ms >= ?2");
    reveal_strlit("INSERT OR IGNORE INTO sites (domain, name, created_at) VALUES (?1, ?2, ?3)");
    reveal_strlit("INSERT INTO events");
    reveal_strlit("(site, kind, path, referrer, visitor_hash, country, device, browser, ts_ms)");
    reveal_strlit("SELECT COUNT(DISTINCT visitor_hash) FROM events");
    reveal_strlit("site = ?1 AND ts_ms >= ?2");
    reveal_strlit("INSERT OR IGNORE INTO sites (domain, name, created_at) VALUES (?1, ?2, ?3)");
    assert(RECORD_EVENT_SQL@.take(18) =~= "INSERT INTO events"@);
    assert(RECORD_EVENT_SQL@.subrange(23, 23int + "(site, kind, path, referrer, visitor_hash, country, device, browser, ts_ms)"@.len()) =~= "(site, kind, path, referrer, visitor_hash, country, device, browser, ts_ms)"@);
    assert(ACTIVE_VISITORS_SQL@.take(47) =~= "SELECT COUNT(DISTINCT visitor_hash) FROM events"@);
    assert(ACTIVE_VISITORS_SQL@.subrange(55, 55int + "site = ?1 AND ts_ms >= ?2"@.len()) =~= "site = ?1 AND ts_ms >= ?2"@);
    assert(ENSURE_SITE_SQL@.take(74) =~= "INSERT OR IGNORE INTO sites (domain, name, created_at) VALUES (?1, ?2, ?3)"@);
}

/// Each combined top ten groups the page views of the events table of its
/// granularity by the column of its own dimension.
pub proof fn lemma_top_combined_groups_by_its_column(g: Granularity, d: Dim)
    ensures
        has_infix(top_combined_sql(g, d), "SELECT "@ + dim_column(d) + " AS k, pageviews AS c FROM "@ + events_table(g)),
        dim_column(Dim::Path) == "path"@,
        dim_column(Dim::Referrer) == "referrer"@,
        dim_column(Dim::Country) == "country"@,
        dim_column(Dim::Device) == "device"@,
{
    reveal_strlit("SELECT k, SUM(c) AS total FROM (
    SELECT ");
    reveal_strlit(" AS k, pageviews AS c FROM ");
    reveal_strlit("SELECT ");
    reveal_strlit(" AS k, pageviews AS c FROM ");
    let n = "SELECT "@ + dim_column(d) + " AS k, pageviews AS c FROM "@ + events_table(g);
    assert(top_combined_sql(g, d).subrange(37, 37int + n.len()) =~= n);
}

} // verus!
