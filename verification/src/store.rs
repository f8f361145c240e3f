//! Event storage: the `Store` interface and its SQLite implementation.
use vstd::prelude::*;
use crate::bucket::{floor_to_bucket, trunc_div};
use crate::clock::now_millis;
use crate::db::{
    batch_outcome, begin_outcome, build_pool, commit_outcome, conn_of, exec_outcome, execute_batch,
    file_manager, int_outcome, opt_int, out_of_range, pool_built, pool_outcome, query_i64,
    query_pairs, query_triples, rows_outcome, with_init_batch, Db, PooledConn, Stmt, Tx, Write,
};
use crate::model::{Event, Site, Stats};
use crate::sql::{
    top_combined_sql, Dim,
    lemma_rollup_writes_what_stats_read, site_range_values, site_windows_values, starts_with,
    RAW_PAGEVIEWS_SQL, RAW_TOP_COUNTRIES_SQL, RAW_TOP_DEVICES_SQL, RAW_TOP_PAGES_SQL,
    RAW_TOP_REFERRERS_SQL, RAW_VISITORS_SQL, events_table, visitors_table, combined_pageviews_sql,
    combined_visitors_sql,
    combined_stats_plan, combined_stats_queries, granularity_name, granularity_name_str,
    opt_text_arg, opt_value, pair_rows, plan_view, query_view, raw_stats_plan, raw_stats_queries,
    rollup_state_sql, rollup_stmt_plan, rollup_stmt_queries, text_arg, triple_rows, values, window_bounds, SqlArg,
    SqlValue, ACTIVE_VISITORS_SQL,
    DELETE_EVENTS_DAILY_SQL, DELETE_EVENTS_HOURLY_SQL, DELETE_EVENTS_SQL, DELETE_SITE_SQL,
    DELETE_VISITORS_DAILY_SQL, DELETE_VISITORS_HOURLY_SQL, ENSURE_SITE_SQL, LAST_ROLLUP_SQL,
    LIST_SITES_SQL, PRAGMAS_SQL, RECORD_EVENT_SQL, SCHEMA_SQL,
};
use crate::window::{
    bucket_ms, bucket_width, combined_windows, in_agg, in_raw, lemma_rollups_chain,
    lemma_windows_cover, lemma_windows_disjoint, rollup_plan, rollup_window, route, stats_source,
    windows_of, Granularity, StatsSource,
};

verus! {

/// Size of the connection pool.
pub const POOL_SIZE: u32 = 8;

/// The `source` that a stats answer reports.
pub open spec fn source_name(s: StatsSource) -> Seq<char> {
    match s {
        StatsSource::Raw => "raw"@,
        StatsSource::Rollup(g) => granularity_name(g),
    }
}

/// Sites as read from `(domain, name, created_at)` rows, in row order.
pub open spec fn sites_match_rows(sites: Seq<Site>, rows: Seq<(String, String, i64)>) -> bool {
    &&& sites.len() == rows.len()
    &&& forall|i: int|
        0 <= i < rows.len() ==> {
            &&& (#[trigger] sites[i]).domain@ == rows[i].0@
            &&& sites[i].name@ == rows[i].1@
            &&& sites[i].created_at == rows[i].2
        }
}

/// The end of the last rollup as read from `rollup_state`: the stored value,
/// or 0 when it cannot be read (no rollup ran yet, or the read failed).
pub fn cutoff_or_zero(read: Result<i64, rusqlite::Error>) -> (c: i64)
    ensures
        c == match read {
            Ok(v) => v,
            Err(_) => 0i64,
        },
{
    match read {
        Ok(v) => v,
        Err(_) => 0,
    }
}

/// A site as the row that lists it.
pub open spec fn site_row(s: Site) -> Seq<SqlValue> {
    seq![SqlValue::Text(s.domain@), SqlValue::Text(s.name@), SqlValue::Int(s.created_at as int)]
}

/// Sites read from rows are the rows, value by value.
proof fn lemma_sites_rows(sites: Seq<Site>, rows: Seq<(String, String, i64)>)
    requires
        sites_match_rows(sites, rows),
    ensures
        sites.map_values(|s: Site| site_row(s)) == triple_rows(rows),
{
    assert(sites.map_values(|s: Site| site_row(s)) =~= triple_rows(rows));
}

/// The value of a result, if it is one.
pub open spec fn ok_value<T, E>(r: Result<T, E>) -> Option<T> {
    match r {
        Ok(v) => Some(v),
        Err(_) => None,
    }
}

/// The database ran `sql` with `args`, changing some number of rows.
pub open spec fn exec_ok(sql: Seq<char>, args: Seq<SqlValue>) -> bool {
    exists|k: int| exec_outcome(sql, args, Some(k))
}

/// Each figure of `s` is what the database answered to its statement of `plan`
/// (page views, visitors, then the top pages, referrers, countries, devices).
pub open spec fn stats_answer(plan: Seq<(Seq<char>, Seq<SqlValue>)>, s: Stats) -> bool {
    &&& int_outcome(plan[0].0, plan[0].1, Some(s.pageviews as int))
    &&& int_outcome(plan[1].0, plan[1].1, Some(s.visitors as int))
    &&& rows_outcome(plan[2].0, plan[2].1, Some(pair_rows(s.top_pages@)))
    &&& rows_outcome(plan[3].0, plan[3].1, Some(pair_rows(s.top_referrers@)))
    &&& rows_outcome(plan[4].0, plan[4].1, Some(pair_rows(s.countries@)))
    &&& rows_outcome(plan[5].0, plan[5].1, Some(pair_rows(s.devices@)))
}

/// Some statement of a stats `plan` was refused.
pub open spec fn stats_refused(plan: Seq<(Seq<char>, Seq<SqlValue>)>) -> bool {
    ||| int_outcome(plan[0].0, plan[0].1, None)
    ||| int_outcome(plan[1].0, plan[1].1, None)
    ||| rows_outcome(plan[2].0, plan[2].1, None)
    ||| rows_outcome(plan[3].0, plan[3].1, None)
    ||| rows_outcome(plan[4].0, plan[4].1, None)
    ||| rows_outcome(plan[5].0, plan[5].1, None)
}

/// Stats from `plan`: the answers with this `source`, or a refusal.
pub open spec fn plan_outcome(plan: Seq<(Seq<char>, Seq<SqlValue>)>, source: Seq<char>, out: Option<Stats>) -> bool {
    match out {
        Some(s) => s.source@ == source && stats_answer(plan, s),
        None => stats_refused(plan),
    }
}

/// The rollup end of `g` as read: the stored value, or 0 when none was read.
pub open spec fn cutoff_read(g: Granularity, c: int) -> bool {
    exists|o: Option<int>|
        #[trigger] int_outcome(LAST_ROLLUP_SQL@, seq![SqlValue::Text(granularity_name(g))], o)
            && c == match o {
            Some(v) => v,
            None => 0,
        }
}

/// Combined stats of `g` over `[from_b, to]` with the rollup end `cutoff`;
/// refused when the cutoff is the least integer, which has no predecessor.
pub open spec fn combined_outcome(site: Seq<char>, g: Granularity, from_b: int, to: int, cutoff: int, out: Option<Stats>) -> bool {
    if cutoff == i64::MIN {
        out is None
    } else {
        plan_outcome(combined_stats_plan(site, g, windows_of(from_b, to, cutoff)), granularity_name(g), out)
    }
}

/// Stats by the range's route: raw statements for short ranges; for longer
/// ones, the rollup end as read and the combined statements from the start of
/// the bucket that holds `from`.
pub open spec fn routed_outcome(site: Seq<char>, from: int, to: int, out: Option<Stats>) -> bool {
    match route(from, to) {
        StatsSource::Raw => plan_outcome(raw_stats_plan(site, from, to), "raw"@, out),
        StatsSource::Rollup(g) => exists|c: int|
            #[trigger] cutoff_read(g, c) && combined_outcome(
                site,
                g,
                trunc_div(from, bucket_width(g)) * bucket_width(g),
                to,
                c,
                out,
            ),
    }
}

/// A rollup of `[a, b)` in `g` folded, counted `n` raw events and committed.
pub open spec fn rollup_done(g: Granularity, a: int, b: int, n: int) -> bool {
    let p = rollup_stmt_plan(g, bucket_width(g), a, b);
    &&& begin_outcome(true)
    &&& exec_ok(p[0].0, p[0].1)
    &&& exec_ok(p[1].0, p[1].1)
    &&& int_outcome(p[2].0, p[2].1, Some(n))
    &&& exec_ok(p[3].0, p[3].1)
    &&& commit_outcome(true)
}

/// A rollup of `[a, b)` in `g` failed at some step; a count that is not a
/// valid size is a failure too.
pub open spec fn rollup_failed(g: Granularity, a: int, b: int) -> bool {
    let p = rollup_stmt_plan(g, bucket_width(g), a, b);
    ||| begin_outcome(false)
    ||| exec_outcome(p[0].0, p[0].1, None)
    ||| exec_outcome(p[1].0, p[1].1, None)
    ||| int_outcome(p[2].0, p[2].1, None)
    ||| exists|v: int| #[trigger] int_outcome(p[2].0, p[2].1, Some(v)) && !(0 <= v <= usize::MAX)
    ||| exec_outcome(p[3].0, p[3].1, None)
    ||| commit_outcome(false)
}

/// A rollup of `g` at `now`, after reading the rollup end `c`, answered `n`:
/// 0 with nothing run when the current bucket is covered, else the count of
/// the raw events it folded.
pub open spec fn rollup_answer(g: Granularity, c: int, now: int, n: int) -> bool {
    &&& cutoff_read(g, c)
    &&& match rollup_plan(c, now, bucket_width(g)) {
        None => n == 0,
        Some((a, b)) => rollup_done(g, a, b, n),
    }
}

/// A rollup of `g` at `now`, after reading the rollup end `c`, failed while
/// folding its window.
pub open spec fn rollup_refused_at(g: Granularity, c: int, now: int) -> bool {
    &&& cutoff_read(g, c)
    &&& match rollup_plan(c, now, bucket_width(g)) {
        None => false,
        Some((a, b)) => rollup_failed(g, a, b),
    }
}

/// The change a rollup of `[a, b)` in `g` makes: one transaction that folds
/// page views, folds visitors and records `b` as the end of the rollup.
pub open spec fn rollup_write(g: Granularity, a: int, b: int) -> Write {
    let p = rollup_stmt_plan(g, bucket_width(g), a, b);
    Write::Batch(seq![p[0], p[1], p[3]])
}

/// A rollup of `g` at `now`, after reading the rollup end `c`, answered `n`
/// and turned the changes `before` into `after`: none when the current bucket
/// is covered, else the one transaction of its window.
pub open spec fn rolled_at(g: Granularity, c: int, now: int, n: int, before: Seq<Write>, after: Seq<Write>) -> bool {
    &&& rollup_answer(g, c, now, n)
    &&& after == match rollup_plan(c, now, bucket_width(g)) {
        None => before,
        Some((a, b)) => before.push(rollup_write(g, a, b)),
    }
}

/// A rollup of `g` at `now` answered `n`, with the changes it made.
pub open spec fn rollup_counted_at(g: Granularity, now: int, n: int, before: Seq<Write>, after: Seq<Write>) -> bool {
    exists|c: int| #[trigger] rolled_at(g, c, now, n, before, after)
}

/// A rollup of `g` at `now` failed while folding its window.
pub open spec fn rollup_refused_now(g: Granularity, now: int) -> bool {
    exists|c: int| #[trigger] rollup_refused_at(g, c, now)
}

/// A rollup of `g` at `now`: its count of folded raw events with the one
/// transaction it committed (or none), or a failure that changed nothing.
pub open spec fn rollup_clock_outcome(g: Granularity, now: int, out: Option<int>, before: Seq<Write>, after: Seq<Write>) -> bool {
    match out {
        Some(n) => pool_outcome(true) && rollup_counted_at(g, now, n, before, after),
        None => after == before && (pool_outcome(false) || rollup_refused_now(g, now)),
    }
}

/// A rollup of `g` at the instant it read from the clock.
pub open spec fn rollup_effect(g: Granularity, out: Option<int>, before: Seq<Write>, after: Seq<Write>) -> bool {
    exists|now: int| #[trigger] rollup_clock_outcome(g, now, out, before, after)
}

/// Registering `domain` as `name` at `at`.
pub open spec fn site_write(domain: Seq<char>, name: Seq<char>, at: int) -> Write {
    Write::Single((ENSURE_SITE_SQL@, seq![SqlValue::Text(domain), SqlValue::Text(name), SqlValue::Int(at)]))
}

/// Recording `ev`.
pub open spec fn event_write(ev: Event) -> Write {
    Write::Single((RECORD_EVENT_SQL@, event_values(ev)))
}

/// Forgetting `domain`: its site, its events, then its hourly and daily
/// aggregates, each by a statement of its own.
pub open spec fn delete_writes(domain: Seq<char>) -> Seq<Write> {
    let a = seq![SqlValue::Text(domain)];
    seq![
        Write::Single((DELETE_SITE_SQL@, a)),
        Write::Single((DELETE_EVENTS_SQL@, a)),
        Write::Single((DELETE_EVENTS_HOURLY_SQL@, a)),
        Write::Single((DELETE_VISITORS_HOURLY_SQL@, a)),
        Write::Single((DELETE_EVENTS_DAILY_SQL@, a)),
        Write::Single((DELETE_VISITORS_DAILY_SQL@, a)),
    ]
}

/// The changes of registering a site: one registration at some instant, or
/// none on failure.
pub open spec fn site_registered(domain: Seq<char>, name: Seq<char>, ok: bool, before: Seq<Write>, after: Seq<Write>) -> bool {
    if ok {
        exists|t: int| after == before.push(#[trigger] site_write(domain, name, t))
    } else {
        after == before
    }
}

/// The changes of forgetting a site: all six statements, or on failure the
/// ones before the statement that failed.
pub open spec fn site_removed(domain: Seq<char>, ok: bool, before: Seq<Write>, after: Seq<Write>) -> bool {
    if ok {
        after == before + delete_writes(domain)
    } else {
        exists|k: int| 0 <= k < 6 && after == before + #[trigger] delete_writes(domain).take(k)
    }
}

/// The changes of recording an event: exactly that event once, or nothing.
pub open spec fn event_stored(ev: Event, ok: bool, before: Seq<Write>, after: Seq<Write>) -> bool {
    if ok {
        after == before.push(event_write(ev))
    } else {
        after == before
    }
}

/// Stats `s` of `g` over `[from_b, to]`, split at the rollup end `c`: each
/// figure is the answer to its combined statement; aggregates are read only
/// before `c` and raw events only from `c` on, so no instant is read twice;
/// and every instant of the range is read from one of the two, but `to`
/// itself when it lies before `c`.
pub open spec fn split_at_end(site: Seq<char>, g: Granularity, from_b: int, to: int, c: int, s: Stats) -> bool {
    let w = windows_of(from_b, to, c);
    &&& stats_answer(combined_stats_plan(site, g, w), s)
    &&& forall|t: int|
        #![trigger in_agg(w, t)]
        #![trigger in_raw(w, t)]
        {
            &&& !(in_agg(w, t) && in_raw(w, t))
            &&& in_agg(w, t) ==> t < c
            &&& in_raw(w, t) ==> t >= c
            &&& (from_b <= t <= to && !(t == to && to < c)) ==> (in_agg(w, t) || in_raw(w, t))
        }
}

/// Stats over a range longer than a day count nothing twice and lose nothing
/// after the last rollup: they are read from the aggregates of the route's
/// granularity before the rollup end that was read, and from the raw events
/// from that end on, over the range from the start of the bucket that holds
/// `from`.
pub proof fn lemma_stats_split_at_rollup_end(site: Seq<char>, from: int, to: int, g: Granularity, s: Stats)
    requires
        route(from, to) == StatsSource::Rollup(g),
        routed_outcome(site, from, to, Some(s)),
    ensures
        exists|c: int|
            #[trigger] cutoff_read(g, c) && split_at_end(
                site,
                g,
                trunc_div(from, bucket_width(g)) * bucket_width(g),
                to,
                c,
                s,
            ),
{
    let fb = trunc_div(from, bucket_width(g)) * bucket_width(g);
    let c = choose|c: int| #[trigger] cutoff_read(g, c) && combined_outcome(site, g, fb, to, c, Some(s));
    let w = windows_of(fb, to, c);
    assert forall|t: int|
        #![trigger in_agg(w, t)]
        #![trigger in_raw(w, t)]
        {
            &&& !(in_agg(w, t) && in_raw(w, t))
            &&& in_agg(w, t) ==> t < c
            &&& in_raw(w, t) ==> t >= c
            &&& (fb <= t <= to && !(t == to && to < c)) ==> (in_agg(w, t) || in_raw(w, t))
        } by {
        lemma_windows_disjoint(fb, to, c, t);
        if fb <= t <= to && !(t == to && to < c) {
            lemma_windows_cover(fb, to, c, t);
        }
    }
    assert(split_at_end(site, g, fb, to, c, s));
}

/// Rollups chain and are idempotent, and their end only grows: a rollup that
/// read the end `c1` and folded `[c1, b)`, with `c1 < b`, ran, as
/// the last statement of its transaction, the one that records `b` as the
/// end of the rollup; a later rollup in the
/// same bucket that reads that end back folds nothing and answers 0, and one
/// in a later bucket folds from `b` on, so no raw event is folded twice.
pub proof fn lemma_rollup_again(g: Granularity, c1: int, now1: int, n1: int, now2: int, n2: int)
    requires
        rollup_answer(g, c1, now1, n1),
        rollup_plan(c1, now1, bucket_width(g)) is Some,
        now1 <= now2,
    ensures
        ({
            let w = bucket_width(g);
            let b = trunc_div(now1, w) * w;
            &&& rollup_plan(c1, now1, w) == Some((c1, b))
            &&& c1 < b
            &&& exec_ok(rollup_state_sql(g), seq![SqlValue::Int(b)])
            &&& rollup_write(g, c1, b) matches Write::Batch(ss) && ss.last() == (
                rollup_state_sql(g),
                seq![SqlValue::Int(b)],
            )
            &&& rollup_answer(g, b, now2, n2) && trunc_div(now2, w) * w == b ==> n2 == 0
            &&& rollup_plan(b, now2, w) matches Some((c, d)) ==> c == b && b < d
        }),
{
    let w = bucket_width(g);
    lemma_rollups_chain(c1, now1, now2, w);
}


/// A deletion of the rows of `domain` from `table`.
pub open spec fn delete_rows(table: Seq<char>, domain: Seq<char>) -> Write {
    Write::Single(("DELETE FROM "@ + table + " WHERE site = ?1"@, seq![SqlValue::Text(domain)]))
}

/// Forgetting a site removes it from every table that holds it: once a
/// deletion succeeds, its six changes remove the site row and the site's
/// rows from the raw events and from the page-view and visitor tables of
/// every granularity, which stats read.
pub proof fn lemma_delete_clears_every_table(domain: Seq<char>, before: Seq<Write>, after: Seq<Write>)
    requires
        site_removed(domain, true, before, after),
    ensures
        after.len() == before.len() + 6,
        after.subrange(before.len() as int, after.len() as int).contains(
            Write::Single(("DELETE FROM sites WHERE domain = ?1"@, seq![SqlValue::Text(domain)])),
        ),
        after.subrange(before.len() as int, after.len() as int).contains(delete_rows("events"@, domain)),
        forall|g: Granularity|
            #![trigger events_table(g)]
            #![trigger visitors_table(g)]
            after.subrange(before.len() as int, after.len() as int).contains(delete_rows(events_table(g), domain))
                && after.subrange(before.len() as int, after.len() as int).contains(
                delete_rows(visitors_table(g), domain),
            ),
{
    reveal_strlit("DELETE FROM sites WHERE domain = ?1");
    reveal_strlit("DELETE FROM events WHERE site = ?1");
    reveal_strlit("DELETE FROM events_hourly WHERE site = ?1");
    reveal_strlit("DELETE FROM visitors_hourly WHERE site = ?1");
    reveal_strlit("DELETE FROM events_daily WHERE site = ?1");
    reveal_strlit("DELETE FROM visitors_daily WHERE site = ?1");
    reveal_strlit("DELETE FROM ");
    reveal_strlit(" WHERE site = ?1");
    reveal_strlit("DELETE FROM sites WHERE domain = ?1");
    reveal_strlit("events");
    reveal_strlit("events_hourly");
    reveal_strlit("visitors_hourly");
    reveal_strlit("events_daily");
    reveal_strlit("visitors_daily");
    assert(DELETE_EVENTS_SQL@ =~= "DELETE FROM "@ + "events"@ + " WHERE site = ?1"@);
    assert(DELETE_EVENTS_HOURLY_SQL@ =~= "DELETE FROM "@ + "events_hourly"@ + " WHERE site = ?1"@);
    assert(DELETE_VISITORS_HOURLY_SQL@ =~= "DELETE FROM "@ + "visitors_hourly"@ + " WHERE site = ?1"@);
    assert(DELETE_EVENTS_DAILY_SQL@ =~= "DELETE FROM "@ + "events_daily"@ + " WHERE site = ?1"@);
    assert(DELETE_VISITORS_DAILY_SQL@ =~= "DELETE FROM "@ + "visitors_daily"@ + " WHERE site = ?1"@);
    let new = after.subrange(before.len() as int, after.len() as int);
    assert(new =~= delete_writes(domain));
    assert(new[0] == Write::Single(("DELETE FROM sites WHERE domain = ?1"@, seq![SqlValue::Text(domain)])));
    assert(new[1] == delete_rows("events"@, domain));
    assert(new[2] == delete_rows(events_table(Granularity::Hourly), domain));
    assert(new[3] == delete_rows(visitors_table(Granularity::Hourly), domain));
    assert(new[4] == delete_rows(events_table(Granularity::Daily), domain));
    assert(new[5] == delete_rows(visitors_table(Granularity::Daily), domain));
    assert forall|g: Granularity|
        #![trigger events_table(g)]
        #![trigger visitors_table(g)]
        new.contains(delete_rows(events_table(g), domain)) && new.contains(delete_rows(visitors_table(g), domain)) by {
        match g {
            Granularity::Hourly => {
                assert(new[2] == delete_rows(events_table(g), domain));
                assert(new[3] == delete_rows(visitors_table(g), domain));
            },
            Granularity::Daily => {
                assert(new[4] == delete_rows(events_table(g), domain));
                assert(new[5] == delete_rows(visitors_table(g), domain));
            },
        }
    }
}

/// Raw stats report each figure from the statement that counts it: page
/// views from the page-view count, visitors from the distinct-visitor count,
/// and each top ten from its own statement, all over the site and the range
/// asked.
pub proof fn lemma_raw_stats_figures(site: Seq<char>, from: int, to: int, s: Stats)
    requires
        route(from, to) == StatsSource::Raw,
        routed_outcome(site, from, to, Some(s)),
    ensures
        s.source@ == "raw"@,
        int_outcome(RAW_PAGEVIEWS_SQL@, site_range_values(site, from, to), Some(s.pageviews as int)),
        int_outcome(RAW_VISITORS_SQL@, site_range_values(site, from, to), Some(s.visitors as int)),
        rows_outcome(RAW_TOP_PAGES_SQL@, site_range_values(site, from, to), Some(pair_rows(s.top_pages@))),
        rows_outcome(
            RAW_TOP_REFERRERS_SQL@,
            site_range_values(site, from, to),
            Some(pair_rows(s.top_referrers@)),
        ),
        rows_outcome(RAW_TOP_COUNTRIES_SQL@, site_range_values(site, from, to), Some(pair_rows(s.countries@))),
        rows_outcome(RAW_TOP_DEVICES_SQL@, site_range_values(site, from, to), Some(pair_rows(s.devices@))),
{
}

/// Stats over a longer range report each figure from the statement of the
/// route's granularity that combines its aggregates with the raw events
/// after the rollup end that was read: page views from the combined
/// page-view count, visitors from the combined distinct-visitor count.
pub proof fn lemma_rollup_stats_figures(site: Seq<char>, from: int, to: int, g: Granularity, s: Stats)
    requires
        route(from, to) == StatsSource::Rollup(g),
        routed_outcome(site, from, to, Some(s)),
    ensures
        s.source@ == granularity_name(g),
        exists|c: int|
            #[trigger] cutoff_read(g, c) && {
                let v = site_windows_values(
                    site,
                    windows_of(trunc_div(from, bucket_width(g)) * bucket_width(g), to, c),
                );
                &&& int_outcome(combined_pageviews_sql(g), v, Some(s.pageviews as int))
                &&& int_outcome(combined_visitors_sql(g), v, Some(s.visitors as int))
                &&& rows_outcome(top_combined_sql(g, Dim::Path), v, Some(pair_rows(s.top_pages@)))
                &&& rows_outcome(top_combined_sql(g, Dim::Referrer), v, Some(pair_rows(s.top_referrers@)))
                &&& rows_outcome(top_combined_sql(g, Dim::Country), v, Some(pair_rows(s.countries@)))
                &&& rows_outcome(top_combined_sql(g, Dim::Device), v, Some(pair_rows(s.devices@)))
            },
{
    let fb = trunc_div(from, bucket_width(g)) * bucket_width(g);
    let c = choose|c: int| #[trigger] cutoff_read(g, c) && combined_outcome(site, g, fb, to, c, Some(s));
    assert(cutoff_read(g, c));
}

/// The one transaction of a rollup of `[a, b)` in `g` folds page views into
/// the events table of `g` and visitors into the visitors table of `g`, both
/// by buckets of the width of `g` over `[a, b)`, then records `b` under the
/// name of `g`.
pub proof fn lemma_rollup_write_targets(g: Granularity, a: int, b: int)
    ensures
        rollup_write(g, a, b) matches Write::Batch(ss) && {
            &&& ss.len() == 3
            &&& starts_with(ss[0].0, "INSERT INTO "@ + events_table(g) + " ("@)
            &&& ss[0].1 == seq![SqlValue::Int(bucket_width(g)), SqlValue::Int(a), SqlValue::Int(b)]
            &&& starts_with(ss[1].0, "INSERT OR IGNORE INTO "@ + visitors_table(g) + " ("@)
            &&& ss[1].1 == seq![SqlValue::Int(bucket_width(g)), SqlValue::Int(a), SqlValue::Int(b)]
            &&& starts_with(
                ss[2].0,
                "INSERT INTO rollup_state (name, last_ts_ms) VALUES ('"@ + granularity_name(g) + "', ?1)"@,
            )
            &&& ss[2].1 == seq![SqlValue::Int(b)]
        },
        bucket_width(Granularity::Hourly) == 3_600_000,
        bucket_width(Granularity::Daily) == 86_400_000,
{
    lemma_rollup_writes_what_stats_read(g);
}

/// Recording an event writes each of its fields into the column of the same
/// name, in the order the statement lists them: site, kind, path, referrer,
/// visitor hash, country, device, browser and time; a missing referrer,
/// country, device or browser is written as `NULL`. Registering a site
/// writes its domain, name and creation time.
pub proof fn lemma_written_values(ev: Event, domain: Seq<char>, name: Seq<char>, at: int)
    ensures
        event_write(ev) == Write::Single(
            (
                RECORD_EVENT_SQL@,
                seq![
                    SqlValue::Text(ev.site@),
                    SqlValue::Text(ev.kind@),
                    SqlValue::Text(ev.path@),
                    match ev.referrer {
                        Some(r) => SqlValue::Text(r@),
                        None => SqlValue::Null,
                    },
                    SqlValue::Text(ev.visitor_hash@),
                    match ev.country {
                        Some(c) => SqlValue::Text(c@),
                        None => SqlValue::Null,
                    },
                    match ev.device {
                        Some(d) => SqlValue::Text(d@),
                        None => SqlValue::Null,
                    },
                    match ev.browser {
                        Some(b) => SqlValue::Text(b@),
                        None => SqlValue::Null,
                    },
                    SqlValue::Int(ev.ts_ms as int),
                ],
            ),
        ),
        site_write(domain, name, at) == Write::Single(
            (ENSURE_SITE_SQL@, seq![SqlValue::Text(domain), SqlValue::Text(name), SqlValue::Int(at)]),
        ),
{
    assert(event_values(ev) =~= seq![
                    SqlValue::Text(ev.site@),
                    SqlValue::Text(ev.kind@),
                    SqlValue::Text(ev.path@),
                    match ev.referrer {
                        Some(r) => SqlValue::Text(r@),
                        None => SqlValue::Null,
                    },
                    SqlValue::Text(ev.visitor_hash@),
                    match ev.country {
                        Some(c) => SqlValue::Text(c@),
                        None => SqlValue::Null,
                    },
                    match ev.device {
                        Some(d) => SqlValue::Text(d@),
                        None => SqlValue::Null,
                    },
                    match ev.browser {
                        Some(b) => SqlValue::Text(b@),
                        None => SqlValue::Null,
                    },
                    SqlValue::Int(ev.ts_ms as int),
                ]);
}

/// Builds sites from `(domain, name, created_at)` rows.
pub fn sites_from_rows(rows: Vec<(String, String, i64)>) -> (sites: Vec<Site>)
    ensures
        sites_match_rows(sites@, rows@),
{
    let mut sites: Vec<Site> = Vec::new();
    let mut i: usize = 0;
    while i < rows.len()
        invariant
            i <= rows.len(),
            sites@.len() == i,
            forall|j: int|
                0 <= j < i ==> {
                    &&& (#[trigger] sites@[j]).domain@ == rows@[j].0@
                    &&& sites@[j].name@ == rows@[j].1@
                    &&& sites@[j].created_at == rows@[j].2
                },
        decreases rows.len() - i,
    {
        let row = &rows[i];
        sites.push(Site { domain: row.0.clone(), name: row.1.clone(), created_at: row.2 });
        i = i + 1;
    }
    sites
}

/// The arguments of the statement that records `ev`, in column order.
pub open spec fn event_values(ev: Event) -> Seq<SqlValue> {
    seq![
        SqlValue::Text(ev.site@),
        SqlValue::Text(ev.kind@),
        SqlValue::Text(ev.path@),
        opt_value(ev.referrer),
        SqlValue::Text(ev.visitor_hash@),
        opt_value(ev.country),
        opt_value(ev.device),
        opt_value(ev.browser),
        SqlValue::Int(ev.ts_ms as int),
    ]
}

/// The arguments of the statement that records `ev`.
pub fn event_args(ev: &Event) -> (v: Vec<SqlArg>)
    ensures
        values(v@) == event_values(*ev),
{
    let mut v: Vec<SqlArg> = Vec::new();
    v.push(text_arg(ev.site.as_str()));
    v.push(text_arg(ev.kind.as_str()));
    v.push(text_arg(ev.path.as_str()));
    v.push(opt_text_arg(&ev.referrer));
    v.push(text_arg(ev.visitor_hash.as_str()));
    v.push(opt_text_arg(&ev.country));
    v.push(opt_text_arg(&ev.device));
    v.push(opt_text_arg(&ev.browser));
    v.push(SqlArg::Int(ev.ts_ms));
    assert(values(v@) =~= event_values(*ev));
    v
}

/// A single text argument.
fn one_text(s: &str) -> (v: Vec<SqlArg>)
    ensures
        values(v@) == seq![SqlValue::Text(s@)],
{
    let mut v: Vec<SqlArg> = Vec::new();
    v.push(text_arg(s));
    assert(values(v@) =~= seq![SqlValue::Text(s@)]);
    v
}

/// Where a tracking service keeps sites and events, and answers stats. The
/// store's view is the list of changes made through it since it was opened;
/// reading operations take `&self` and leave it as it is. What a read answers
/// is described by a relation of the store over its arguments and its answer.
pub trait Store: Send + Sync {
    /// The changes made through this store since it was opened, in order.
    spec fn writes(&self) -> Seq<Write>;

    /// `list_sites` answered these sites (`Some`) or failed (`None`).
    spec fn sites_listed(&self, out: Option<Seq<Site>>) -> bool;

    /// `stats(site, from, to)` answered these stats or failed.
    spec fn stats_answered(&self, site: Seq<char>, from: int, to: int, out: Option<Stats>) -> bool;

    /// `active_visitors(site, since)` answered this count or failed.
    spec fn active_counted(&self, site: Seq<char>, since: int, out: Option<int>) -> bool;

    /// Registers `domain` with the display `name`, unless it is known already.
    fn ensure_site(&mut self, domain: &str, name: &str) -> (r: Result<(), rusqlite::Error>)
        ensures
            site_registered(domain@, name@, r is Ok, old(self).writes(), final(self).writes()),
    ;

    /// All sites, newest first.
    fn list_sites(&self) -> (r: Result<Vec<Site>, rusqlite::Error>)
        ensures
            self.sites_listed(
                match r {
                    Ok(v) => Some(v@),
                    Err(_) => None,
                },
            ),
    ;

    /// Forgets a site with all its events and aggregates.
    fn delete_site(&mut self, domain: &str) -> (r: Result<(), rusqlite::Error>)
        ensures
            site_removed(domain@, r is Ok, old(self).writes(), final(self).writes()),
    ;

    /// Records one event.
    fn record_event(&mut self, ev: &Event) -> (r: Result<(), rusqlite::Error>)
        ensures
            event_stored(*ev, r is Ok, old(self).writes(), final(self).writes()),
    ;

    /// Traffic of `site` from `from_ms` to `to_ms`.
    fn stats(&self, site: &str, from_ms: i64, to_ms: i64) -> (r: Result<Stats, rusqlite::Error>)
        requires
            i64::MIN <= to_ms - from_ms <= i64::MAX,
        ensures
            self.stats_answered(site@, from_ms as int, to_ms as int, ok_value(r)),
    ;

    /// Distinct visitors of `site` since `since_ms`.
    fn active_visitors(&self, site: &str, since_ms: i64) -> (r: Result<i64, rusqlite::Error>)
        ensures
            self.active_counted(site@, since_ms as int, opt_int(r)),
    ;

    /// Folds finished hours into the hourly tables; the number of raw events
    /// folded, 0 when the current hour is covered already.
    fn rollup_hourly(&mut self) -> (r: Result<usize, rusqlite::Error>)
        ensures
            rollup_effect(
                Granularity::Hourly,
                match r {
                    Ok(n) => Some(n as int),
                    Err(_) => None,
                },
                old(self).writes(),
                final(self).writes(),
            ),
    ;

    /// Folds finished days into the daily tables; the number of raw events
    /// folded, 0 when the current day is covered already.
    fn rollup_daily(&mut self) -> (r: Result<usize, rusqlite::Error>)
        ensures
            rollup_effect(
                Granularity::Daily,
                match r {
                    Ok(n) => Some(n as int),
                    Err(_) => None,
                },
                old(self).writes(),
                final(self).writes(),
            ),
    ;
}

/// A [`Store`] on an SQLite file, through a pool of connections.
pub struct SqliteStore {
    db: Db,
}

impl SqliteStore {
    /// Opens (or creates) the database at `path`, with write-ahead logging and
    /// the other pragmas on each connection, and creates the tables; nothing
    /// has been changed through the store yet.
    pub fn open(path: &std::path::Path) -> (r: Result<Self, rusqlite::Error>)
        ensures
            match r {
                Ok(s) => {
                    &&& pool_built(true) && pool_outcome(true) && batch_outcome(SCHEMA_SQL@, true)
                    &&& s.writes() == Seq::<Write>::empty()
                },
                Err(_) => pool_built(false) || pool_outcome(false) || batch_outcome(SCHEMA_SQL@, false),
            },
    {
        let manager = with_init_batch(file_manager(path), PRAGMAS_SQL);
        let pool = build_pool(manager, POOL_SIZE)?;
        let store = SqliteStore { db: Db::new(pool) };
        store.init_schema()?;
        Ok(store)
    }

    fn init_schema(&self) -> (r: Result<(), rusqlite::Error>)
        ensures
            match r {
                Ok(_) => pool_outcome(true) && batch_outcome(SCHEMA_SQL@, true),
                Err(_) => pool_outcome(false) || batch_outcome(SCHEMA_SQL@, false),
            },
    {
        let pc = self.db.conn()?;
        execute_batch(conn_of(&pc), SCHEMA_SQL)?;
        Ok(())
    }

    /// Where the last rollup of granularity `g` ended; 0 when it never ran or
    /// the value cannot be read.
    fn last_rollup_ts(&self, conn: &rusqlite::Connection, g: Granularity) -> (c: i64)
        ensures
            cutoff_read(g, c as int),
    {
        let args = one_text(granularity_name_str(g));
        let read = query_i64(conn, LAST_ROLLUP_SQL, &args);
        let c = cutoff_or_zero(read);
        assert(values(args@) =~= seq![SqlValue::Text(granularity_name(g))]);
        assert(int_outcome(LAST_ROLLUP_SQL@, seq![SqlValue::Text(granularity_name(g))], opt_int(read)));
        c
    }

    /// Stats from the raw `events` table alone.
    fn stats_raw(&self, conn: &rusqlite::Connection, site: &str, from_ms: i64, to_ms: i64) -> (r:
        Result<Stats, rusqlite::Error>)
        ensures
            plan_outcome(raw_stats_plan(site@, from_ms as int, to_ms as int), "raw"@, ok_value(r)),
    {
        let qs = raw_stats_queries(site, from_ms, to_ms);
        let ghost plan = raw_stats_plan(site@, from_ms as int, to_ms as int);
        proof {
            assert forall|k: int| 0 <= k < 6 implies plan[k] == query_view(#[trigger] qs@[k]) by {
                assert(plan_view(qs@)[k] == query_view(qs@[k]));
            }
        }
        let pageviews = query_i64(conn, qs[0].sql.as_str(), &qs[0].args)?;
        let visitors = query_i64(conn, qs[1].sql.as_str(), &qs[1].args)?;
        let top_pages = query_pairs(conn, qs[2].sql.as_str(), &qs[2].args)?;
        let top_referrers = query_pairs(conn, qs[3].sql.as_str(), &qs[3].args)?;
        let countries = query_pairs(conn, qs[4].sql.as_str(), &qs[4].args)?;
        let devices = query_pairs(conn, qs[5].sql.as_str(), &qs[5].args)?;
        Ok(Stats {
            pageviews,
            visitors,
            top_pages,
            top_referrers,
            countries,
            devices,
            source: String::from_str("raw"),
        })
    }

    /// Stats from the aggregates of `g` before `cutoff_ms`, topped up with raw
    /// events from `cutoff_ms` on, so that nothing after the last rollup is lost.
    fn stats_combined(
        &self,
        conn: &rusqlite::Connection,
        site: &str,
        from_ms: i64,
        to_ms: i64,
        cutoff_ms: i64,
        g: Granularity,
    ) -> (r: Result<Stats, rusqlite::Error>)
        requires
            to_ms > i64::MIN,
        ensures
            combined_outcome(site@, g, from_ms as int, to_ms as int, cutoff_ms as int, ok_value(r)),
    {
        if cutoff_ms == i64::MIN {
            return Err(out_of_range(cutoff_ms));
        }
        let w = combined_windows(from_ms, to_ms, cutoff_ms);
        let qs = combined_stats_queries(site, g, w);
        let ghost plan = combined_stats_plan(site@, g, window_bounds(w));
        proof {
            assert forall|k: int| 0 <= k < 6 implies plan[k] == query_view(#[trigger] qs@[k]) by {
                assert(plan_view(qs@)[k] == query_view(qs@[k]));
            }
        }
        let pageviews = query_i64(conn, qs[0].sql.as_str(), &qs[0].args)?;
        let visitors = query_i64(conn, qs[1].sql.as_str(), &qs[1].args)?;
        let top_pages = query_pairs(conn, qs[2].sql.as_str(), &qs[2].args)?;
        let top_referrers = query_pairs(conn, qs[3].sql.as_str(), &qs[3].args)?;
        let countries = query_pairs(conn, qs[4].sql.as_str(), &qs[4].args)?;
        let devices = query_pairs(conn, qs[5].sql.as_str(), &qs[5].args)?;
        Ok(Stats {
            pageviews,
            visitors,
            top_pages,
            top_referrers,
            countries,
            devices,
            source: String::from_str(granularity_name_str(g)),
        })
    }

    /// Folds the raw events of `[from_ms, cur_ms)` into the tables of `g` in
    /// one transaction on `pc`, records `cur_ms` as the end of the rollup, and
    /// answers how many raw events were folded; the transaction is the one
    /// change made, and none is made when the rollup fails.
    fn fold_window(db: &mut Db, pc: &mut PooledConn, g: Granularity, from_ms: i64, cur_ms: i64) -> (r:
        Result<usize, rusqlite::Error>)
        ensures
            match r {
                Ok(n) => {
                    &&& rollup_done(g, from_ms as int, cur_ms as int, n as int)
                    &&& final(db).writes() == old(db).writes().push(
                        rollup_write(g, from_ms as int, cur_ms as int),
                    )
                },
                Err(_) => {
                    &&& rollup_failed(g, from_ms as int, cur_ms as int)
                    &&& final(db).writes() == old(db).writes()
                },
            },
    {
        let w = bucket_ms(g);
        let qs = rollup_stmt_queries(g, w, from_ms, cur_ms);
        let ghost plan = rollup_stmt_plan(g, w as int, from_ms as int, cur_ms as int);
        proof {
            assert forall|k: int| 0 <= k < 4 implies plan[k] == query_view(#[trigger] qs@[k]) by {
                assert(plan_view(qs@)[k] == query_view(qs@[k]));
            }
        }
        let mut tx = match Tx::begin(pc) {
            Ok(tx) => tx,
            Err(e) => return Err(e),
        };
        let r0 = tx.execute(qs[0].sql.as_str(), &qs[0].args);
        if let Err(e) = r0 {
            return Err(e);
        }
        let r1 = tx.execute(qs[1].sql.as_str(), &qs[1].args);
        if let Err(e) = r1 {
            return Err(e);
        }
        let counted = match tx.query_i64(qs[2].sql.as_str(), &qs[2].args) {
            Ok(v) => v,
            Err(e) => return Err(e),
        };
        if counted < 0 || counted as u64 > usize::MAX as u64 {
            assert(int_outcome(plan[2].0, plan[2].1, Some(counted as int)));
            return Err(out_of_range(counted));
        }
        let r3 = tx.execute(qs[3].sql.as_str(), &qs[3].args);
        if let Err(e) = r3 {
            return Err(e);
        }
        assert(tx.statements() =~= seq![plan[0], plan[1], plan[3]]);
        match db.commit(tx) {
            Ok(()) => {},
            Err(e) => return Err(e),
        }
        assert(r0 matches Ok(k) && exec_outcome(plan[0].0, plan[0].1, Some(k as int)));
        assert(r1 matches Ok(k) && exec_outcome(plan[1].0, plan[1].1, Some(k as int)));
        assert(r3 matches Ok(k) && exec_outcome(plan[3].0, plan[3].1, Some(k as int)));
        Ok(counted as usize)
    }

    /// The rollup of `g` with the clock at `now_ms`: reads where the last one
    /// ended; when that is before the start of the current bucket, folds the
    /// raw events from there to that start in one transaction and answers
    /// their number, else answers 0 and changes nothing.
    pub fn rollup_at(&mut self, g: Granularity, now_ms: i64) -> (r: Result<usize, rusqlite::Error>)
        ensures
            rollup_clock_outcome(
                g,
                now_ms as int,
                match r {
                    Ok(n) => Some(n as int),
                    Err(_) => None,
                },
                old(self).writes(),
                final(self).writes(),
            ),
    {
        let mut pc = match self.db.conn() {
            Ok(pc) => pc,
            Err(e) => return Err(e),
        };
        let last = self.last_rollup_ts(conn_of(&pc), g);
        match rollup_window(last, now_ms, bucket_ms(g)) {
            None => {
                assert(rolled_at(g, last as int, now_ms as int, 0, self.writes(), self.writes()));
                Ok(0)
            },
            Some((from_ms, cur_ms)) => {
                let ghost before = self.writes();
                let r = Self::fold_window(&mut self.db, &mut pc, g, from_ms, cur_ms);
                match r {
                    Ok(n) => {
                        assert(rolled_at(g, last as int, now_ms as int, n as int, before, self.writes()));
                    },
                    Err(_) => {
                        assert(rollup_refused_at(g, last as int, now_ms as int));
                    },
                }
                r
            },
        }
    }

    /// Registers `domain` with the display `name` and the creation time
    /// `now_ms`, unless it is known already.
    pub fn ensure_site_at(&mut self, domain: &str, name: &str, now_ms: i64) -> (r: Result<(), rusqlite::Error>)
        ensures
            final(self).writes() == match r {
                Ok(_) => old(self).writes().push(site_write(domain@, name@, now_ms as int)),
                Err(_) => old(self).writes(),
            },
    {
        let mut args: Vec<SqlArg> = Vec::new();
        args.push(text_arg(domain));
        args.push(text_arg(name));
        args.push(SqlArg::Int(now_ms));
        assert(values(args@) =~= seq![SqlValue::Text(domain@), SqlValue::Text(name@), SqlValue::Int(now_ms as int)]);
        match self.db.write(ENSURE_SITE_SQL, &args) {
            Ok(_) => Ok(()),
            Err(e) => Err(e),
        }
    }
}

impl Store for SqliteStore {
    closed spec fn writes(&self) -> Seq<Write> {
        self.db.writes()
    }

    open spec fn sites_listed(&self, out: Option<Seq<Site>>) -> bool {
        match out {
            Some(v) => pool_outcome(true) && rows_outcome(
                LIST_SITES_SQL@,
                Seq::empty(),
                Some(v.map_values(|s: Site| site_row(s))),
            ),
            None => pool_outcome(false) || rows_outcome(LIST_SITES_SQL@, Seq::empty(), None),
        }
    }

    open spec fn stats_answered(&self, site: Seq<char>, from: int, to: int, out: Option<Stats>) -> bool {
        match out {
            Some(_) => pool_outcome(true) && routed_outcome(site, from, to, out),
            None => pool_outcome(false) || routed_outcome(site, from, to, out),
        }
    }

    open spec fn active_counted(&self, site: Seq<char>, since: int, out: Option<int>) -> bool {
        let a = seq![SqlValue::Text(site), SqlValue::Int(since)];
        match out {
            Some(_) => pool_outcome(true) && int_outcome(ACTIVE_VISITORS_SQL@, a, out),
            None => pool_outcome(false) || int_outcome(ACTIVE_VISITORS_SQL@, a, None),
        }
    }

    fn ensure_site(&mut self, domain: &str, name: &str) -> (r: Result<(), rusqlite::Error>) {
        let now = now_millis();
        self.ensure_site_at(domain, name, now)
    }

    fn list_sites(&self) -> (r: Result<Vec<Site>, rusqlite::Error>) {
        let pc = self.db.conn()?;
        let none: Vec<SqlArg> = Vec::new();
        assert(values(none@) =~= Seq::<SqlValue>::empty());
        let rows = query_triples(conn_of(&pc), LIST_SITES_SQL, &none)?;
        let sites = sites_from_rows(rows);
        proof {
            lemma_sites_rows(sites@, rows@);
        }
        Ok(sites)
    }

    fn delete_site(&mut self, domain: &str) -> (r: Result<(), rusqlite::Error>) {
        let ghost w0 = self.writes();
        let ghost d = delete_writes(domain@);
        let args = one_text(domain);
        assert(values(args@) =~= seq![SqlValue::Text(domain@)]);
        if let Err(e) = self.db.write(DELETE_SITE_SQL, &args) {
            assert(self.writes() =~= w0 + d.take(0));
            return Err(e);
        }
        assert(self.writes() =~= w0 + d.take(1));
        if let Err(e) = self.db.write(DELETE_EVENTS_SQL, &args) {
            return Err(e);
        }
        assert(self.writes() =~= w0 + d.take(2));
        if let Err(e) = self.db.write(DELETE_EVENTS_HOURLY_SQL, &args) {
            return Err(e);
        }
        assert(self.writes() =~= w0 + d.take(3));
        if let Err(e) = self.db.write(DELETE_VISITORS_HOURLY_SQL, &args) {
            return Err(e);
        }
        assert(self.writes() =~= w0 + d.take(4));
        if let Err(e) = self.db.write(DELETE_EVENTS_DAILY_SQL, &args) {
            return Err(e);
        }
        assert(self.writes() =~= w0 + d.take(5));
        if let Err(e) = self.db.write(DELETE_VISITORS_DAILY_SQL, &args) {
            return Err(e);
        }
        assert(self.writes() =~= w0 + d);
        Ok(())
    }

    fn record_event(&mut self, ev: &Event) -> (r: Result<(), rusqlite::Error>) {
        let args = event_args(ev);
        match self.db.write(RECORD_EVENT_SQL, &args) {
            Ok(_) => Ok(()),
            Err(e) => Err(e),
        }
    }

    fn stats(&self, site: &str, from_ms: i64, to_ms: i64) -> (r: Result<Stats, rusqlite::Error>)
        ensures
            r matches Ok(s) ==> s.source@ == source_name(route(from_ms as int, to_ms as int)),
    {
        let pc = self.db.conn()?;
        let conn = conn_of(&pc);
        match stats_source(from_ms, to_ms) {
            StatsSource::Rollup(g) => {
                let cutoff = self.last_rollup_ts(conn, g);
                let from_b = floor_to_bucket(from_ms, bucket_ms(g));
                let r = self.stats_combined(conn, site, from_b, to_ms, cutoff, g);
                assert(cutoff_read(g, cutoff as int));
                r
            },
            StatsSource::Raw => self.stats_raw(conn, site, from_ms, to_ms),
        }
    }

    fn active_visitors(&self, site: &str, since_ms: i64) -> (r: Result<i64, rusqlite::Error>) {
        let pc = self.db.conn()?;
        let mut args: Vec<SqlArg> = Vec::new();
        args.push(text_arg(site));
        args.push(SqlArg::Int(since_ms));
        assert(values(args@) =~= seq![SqlValue::Text(site@), SqlValue::Int(since_ms as int)]);
        query_i64(conn_of(&pc), ACTIVE_VISITORS_SQL, &args)
    }

    fn rollup_hourly(&mut self) -> (r: Result<usize, rusqlite::Error>) {
        let now = now_millis();
        self.rollup_at(Granularity::Hourly, now)
    }

    fn rollup_daily(&mut self) -> (r: Result<usize, rusqlite::Error>) {
        let now = now_millis();
        self.rollup_at(Granularity::Daily, now)
    }
}

} // verus!
