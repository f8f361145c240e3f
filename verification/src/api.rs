//! The decisions of the HTTP endpoints: who may call them, what is recorded,
//! which range is asked, and how failures are answered.
use vstd::prelude::*;
use crate::bucket::DAY_MS;
use crate::classify::{browser_class, classify_browser, classify_device, device_class};
use crate::clock::{day_number, lemma_utc_day_changes_daily, now_millis, utc_date_text, utc_day};
use crate::config::Config;
use crate::model::{Event, Site, Stats};
use crate::db::Write;
use crate::store::{event_write, site_registered, site_removed, site_write, Store};
use crate::text::{
    before_char, index_of, lowercase_of, same_text, strip_prefix, trim, trimmed, without_prefix,
};
use crate::visitor::{lemma_message_holds_site_and_day, visitor_digest, visitor_hash_on, visitor_message};
use crate::window::{route, StatsSource};

verus! {

/// How long a visitor counts as active, in milliseconds.
pub const LIVE_WINDOW_MS: i64 = 300_000;

/// A refused request: its status and message.
#[derive(Debug)]
pub enum ApiError {
    /// No administrator token is set yet (503).
    SetupRequired,
    /// The bearer token is missing or wrong (401).
    BadToken,
    /// Setup was already done (409).
    AlreadyConfigured,
    /// The request body cannot be read (400).
    BadRequest(String),
    /// Storage or file failure (500).
    Internal(String),
}

/// HTTP status of a refusal.
pub open spec fn status_of(e: ApiError) -> int {
    match e {
        ApiError::SetupRequired => 503,
        ApiError::BadToken => 401,
        ApiError::AlreadyConfigured => 409,
        ApiError::BadRequest(_) => 400,
        ApiError::Internal(_) => 500,
    }
}

/// Message of a refusal.
pub open spec fn message_of(e: ApiError) -> Seq<char> {
    match e {
        ApiError::SetupRequired => "초기 설정 필요"@,
        ApiError::BadToken => "잘못된 토큰"@,
        ApiError::AlreadyConfigured => "이미 설정됨"@,
        ApiError::BadRequest(m) => m@,
        ApiError::Internal(m) => m@,
    }
}

impl ApiError {
    /// HTTP status of the refusal.
    pub fn status(&self) -> (c: u16)
        ensures
            c == status_of(*self),
    {
        match self {
            ApiError::SetupRequired => 503,
            ApiError::BadToken => 401,
            ApiError::AlreadyConfigured => 409,
            ApiError::BadRequest(_) => 400,
            ApiError::Internal(_) => 500,
        }
    }

    /// Body text of the refusal.
    pub fn message(&self) -> (m: String)
        ensures
            m@ == message_of(*self),
    {
        match self {
            ApiError::SetupRequired => String::from_str("초기 설정 필요"),
            ApiError::BadToken => String::from_str("잘못된 토큰"),
            ApiError::AlreadyConfigured => String::from_str("이미 설정됨"),
            ApiError::BadRequest(m) => m.clone(),
            ApiError::Internal(m) => m.clone(),
        }
    }
}

/// Renders a storage error with `Display for rusqlite::Error`. The text is not
/// claimed.
#[verifier::external_body]
fn error_text(e: &rusqlite::Error) -> (s: String) {
    format!("{}", e)
}

/// A request body that cannot be parsed; `detail` is the parser's message.
pub fn invalid_body(detail: &str) -> (e: ApiError)
    ensures
        e matches ApiError::BadRequest(m) && m@ == "invalid body: "@ + detail@,
{
    let mut m = String::from_str("invalid body: ");
    m.append(detail);
    ApiError::BadRequest(m)
}

/// A configuration file that cannot be written; `detail` is the I/O message.
pub fn save_failed(detail: &str) -> (e: ApiError)
    ensures
        e matches ApiError::Internal(m) && m@ == "save: "@ + detail@,
{
    let mut m = String::from_str("save: ");
    m.append(detail);
    ApiError::Internal(m)
}

/// A refusal for a storage failure: status 500, and `db: ` before the error text.
pub open spec fn is_db_error(e: ApiError) -> bool {
    e matches ApiError::Internal(m) && m@.take(4) == "db: "@
}

/// A storage failure, answered with status 500 and `db: ` before the error text.
pub fn db_error(e: &rusqlite::Error) -> (r: ApiError)
    ensures
        is_db_error(r),
{
    let detail = error_text(e);
    let mut m = String::from_str("db: ");
    m.append(detail.as_str());
    proof {
        reveal_strlit("db: ");
        assert(m@.take(4) =~= "db: "@);
    }
    ApiError::Internal(m)
}

/// An optional text as an optional character sequence.
pub open spec fn opt_text(o: Option<&str>) -> Option<Seq<char>> {
    match o {
        Some(s) => Some(s@),
        None => None,
    }
}

/// The token of an `Authorization` header: what follows `Bearer `, or nothing.
pub open spec fn bearer_token(auth: Option<Seq<char>>) -> Seq<char> {
    match auth {
        Some(a) => match without_prefix(a, "Bearer "@) {
            Some(t) => t,
            None => Seq::empty(),
        },
        None => Seq::empty(),
    }
}

/// The answer to an administrator request: refused before setup, granted only
/// to the configured bearer token.
pub open spec fn admin_check(token: Seq<char>, auth: Option<Seq<char>>) -> Result<(), ApiError> {
    if token.len() == 0 {
        Err(ApiError::SetupRequired)
    } else if bearer_token(auth) == token {
        Ok(())
    } else {
        Err(ApiError::BadToken)
    }
}

/// Checks an administrator request against the configured token.
pub fn require_admin(admin_token: &str, authorization: Option<&str>) -> (r: Result<(), ApiError>)
    ensures
        r == admin_check(admin_token@, opt_text(authorization)),
{
    if admin_token.is_empty() {
        return Err(ApiError::SetupRequired);
    }
    let token: &str = match authorization {
        Some(a) => match strip_prefix(a, "Bearer ") {
            Some(t) => t,
            None => "",
        },
        None => "",
    };
    proof {
        reveal_strlit("");
    }
    if !same_text(token, admin_token) {
        return Err(ApiError::BadToken);
    }
    Ok(())
}

/// Whether a live-feed connection with `token` is let in.
pub open spec fn ws_allowed(admin_token: Seq<char>, token: Seq<char>) -> bool {
    admin_token.len() > 0 && token == admin_token
}

/// Whether a live-feed connection with `token` is let in.
pub fn admin_ws_allowed(admin_token: &str, token: &str) -> (b: bool)
    ensures
        b == ws_allowed(admin_token@, token@),
{
    !admin_token.is_empty() && same_text(token, admin_token)
}

/// The answer to a setup request and the token afterwards: the first setup
/// sets the token, later ones are refused and change nothing.
pub open spec fn setup_outcome(current: Seq<char>, given: Seq<char>) -> (Result<u16, ApiError>, Seq<char>) {
    if current.len() != 0 {
        (Err(ApiError::AlreadyConfigured), current)
    } else {
        (Ok(204u16), given)
    }
}

/// Sets the administrator token on first run; the caller then saves `cfg`.
pub fn setup(cfg: &mut Config, admin_token: String) -> (r: Result<u16, ApiError>)
    ensures
        (r, final(cfg).admin_token@) == setup_outcome(old(cfg).admin_token@, admin_token@),
{
    if !cfg.admin_token.as_str().is_empty() {
        return Err(ApiError::AlreadyConfigured);
    }
    cfg.admin_token = admin_token;
    Ok(204)
}

/// The client address: the first entry of `X-Forwarded-For` without
/// surrounding whitespace when the header is present and readable, else the
/// address of the peer.
pub open spec fn client_ip_of(forwarded: Option<Seq<char>>, peer: Seq<char>) -> Seq<char> {
    match forwarded {
        Some(f) => trimmed(f.take(index_of(f, ','))),
        None => peer,
    }
}

/// The address a request comes from. `forwarded` is the `X-Forwarded-For`
/// header when it is present and readable as text; `peer` is the address of
/// the connection.
pub fn client_ip(forwarded: Option<&str>, peer: &str) -> (ip: String)
    ensures
        ip@ == client_ip_of(opt_text(forwarded), peer@),
{
    match forwarded {
        Some(f) => String::from_str(trim(before_char(f, ','))),
        None => String::from_str(peer),
    }
}

/// Default `kind` of a tracked event.
pub fn default_kind() -> (k: String)
    ensures
        k@ == "pageview"@,
{
    String::from_str("pageview")
}

/// Body of a tracking request.
#[derive(Debug)]
pub struct TrackBody {
    pub site: String,
    pub kind: String,
    pub path: String,
    pub referrer: Option<String>,
}

/// An optional text as an optional character sequence.
pub open spec fn opt_string(o: Option<String>) -> Option<Seq<char>> {
    match o {
        Some(s) => Some(s@),
        None => None,
    }
}

/// A referrer is kept only when it is not empty.
pub open spec fn kept_referrer(r: Option<String>) -> Option<Seq<char>> {
    match r {
        Some(s) => if s@.len() > 0 { Some(s@) } else { None },
        None => None,
    }
}

/// The event recorded for a tracking request from a client with address `ip`
/// and user agent `ua`, on UTC day `day`, at `ts_ms`.
pub open spec fn tracked_event(
    ev: Event,
    body: TrackBody,
    ip: Seq<char>,
    ua: Seq<char>,
    day: Seq<char>,
    ts_ms: int,
) -> bool {
    &&& ev.site@ == body.site@
    &&& ev.kind@ == body.kind@
    &&& ev.path@ == body.path@
    &&& opt_string(ev.referrer) == kept_referrer(body.referrer)
    &&& ev.visitor_hash@ == visitor_digest(ip, ua, body.site@, day)
    &&& ev.country is None
    &&& opt_string(ev.device) == Some(device_class(lowercase_of(ua)))
    &&& opt_string(ev.browser) == Some(browser_class(lowercase_of(ua)))
    &&& ev.ts_ms == ts_ms
}

/// The event of a tracking request, on a given day and at a given time.
pub fn event_on(body: TrackBody, ip: &str, ua: &str, day: &str, ts_ms: i64) -> (ev: Event)
    ensures
        tracked_event(ev, body, ip@, ua@, day@, ts_ms as int),
{
    let visitor_hash = visitor_hash_on(ip, ua, body.site.as_str(), day);
    let referrer = match body.referrer {
        Some(r) => if r.as_str().is_empty() { None } else { Some(r) },
        None => None,
    };
    Event {
        site: body.site,
        kind: body.kind,
        path: body.path,
        referrer,
        visitor_hash,
        country: None,
        device: Some(String::from_str(classify_device(ua))),
        browser: Some(String::from_str(classify_browser(ua))),
        ts_ms,
    }
}

/// The event of a tracking request now: the current time, and the visitor
/// identity of the UTC date of that time, so that it changes every day.
pub fn track_event(body: TrackBody, ip: &str, ua: &str) -> (ev: Event)
    ensures
        exists|day: Seq<char>, ts: int| tracked_event(ev, body, ip@, ua@, day, ts),
        exists|day: Seq<char>|
            tracked_event(ev, body, ip@, ua@, day, ev.ts_ms as int) && #[trigger] utc_day(
                ev.ts_ms as int,
                day,
            ),
{
    let ts = now_millis();
    let day = utc_date_text(ts);
    event_on(body, ip, ua, day.as_str(), ts)
}

/// The changes of a tracking request: when it succeeded, the site's
/// registration under its own domain at some instant, then its event, made
/// on some day at some instant, exactly once; when it failed, nothing, or the
/// registration alone.
pub open spec fn track_effect(
    body: TrackBody,
    ip: Seq<char>,
    ua: Seq<char>,
    ok: bool,
    before: Seq<Write>,
    after: Seq<Write>,
) -> bool {
    if ok {
        exists|t: int, ev: Event, day: Seq<char>, ts: int|
            #![trigger site_write(body.site@, body.site@, t), tracked_event(ev, body, ip, ua, day, ts)]
            tracked_event(ev, body, ip, ua, day, ts) && after == before.push(
                site_write(body.site@, body.site@, t),
            ).push(event_write(ev))
    } else {
        ||| after == before
        ||| exists|t: int| after == before.push(#[trigger] site_write(body.site@, body.site@, t))
    }
}

/// Records a tracking request: registers the site under its own domain as
/// name if it is new, then stores the event. Succeeds with 204 when both store
/// calls succeed; a failed registration is answered at once with 500 and
/// nothing recorded, and a failed recording is answered with 500 too.
pub fn track<S: Store + ?Sized>(store: &mut S, body: TrackBody, ip: &str, ua: &str) -> (r: Result<u16, ApiError>)
    ensures
        match r {
            Ok(c) => c == 204 && track_effect(body, ip@, ua@, true, old(store).writes(), final(store).writes()),
            Err(e) => is_db_error(e) && track_effect(body, ip@, ua@, false, old(store).writes(), final(store).writes()),
        },
{
    let ghost b = body;
    let ghost w0 = store.writes();
    match store.ensure_site(body.site.as_str(), body.site.as_str()) {
        Ok(()) => {},
        Err(e) => return Err(db_error(&e)),
    }
    let ghost w1 = store.writes();
    let ghost t = choose|t: int| w1 == w0.push(#[trigger] site_write(b.site@, b.site@, t));
    let ev = track_event(body, ip, ua);
    let ghost (day, ts) = choose|day: Seq<char>, ts: int| tracked_event(ev, b, ip@, ua@, day, ts);
    match store.record_event(&ev) {
        Ok(()) => {
            assert(tracked_event(ev, b, ip@, ua@, day, ts) && store.writes() == w0.push(
                site_write(b.site@, b.site@, t),
            ).push(event_write(ev)));
            Ok(204)
        },
        Err(e) => {
            assert(store.writes() == w0.push(site_write(b.site@, b.site@, t)));
            Err(db_error(&e))
        },
    }
}

/// Sites for an administrator.
pub fn list_sites<S: Store + ?Sized>(store: &S, admin_token: &str, authorization: Option<&str>) -> (r:
    Result<Vec<Site>, ApiError>)
    ensures
        match admin_check(admin_token@, opt_text(authorization)) {
            Err(e) => r == Err::<Vec<Site>, ApiError>(e),
            Ok(_) => match r {
                Ok(v) => store.sites_listed(Some(v@)),
                Err(e) => is_db_error(e) && store.sites_listed(None),
            },
        },
{
    require_admin(admin_token, authorization)?;
    match store.list_sites() {
        Ok(sites) => Ok(sites),
        Err(e) => Err(db_error(&e)),
    }
}

/// Display name of a new site: the given name, else the domain.
pub open spec fn site_name_of(domain: Seq<char>, name: Option<String>) -> Seq<char> {
    match name {
        Some(x) => x@,
        None => domain,
    }
}

/// Display name of a new site: the given name, else the domain.
pub fn site_name(domain: &str, name: Option<String>) -> (n: String)
    ensures
        n@ == site_name_of(domain@, name),
{
    match name {
        Some(x) => x,
        None => String::from_str(domain),
    }
}

/// Registers a site for an administrator. Succeeds with 201.
pub fn create_site<S: Store + ?Sized>(
    store: &mut S,
    admin_token: &str,
    authorization: Option<&str>,
    domain: &str,
    name: Option<String>,
) -> (r: Result<u16, ApiError>)
    ensures
        match admin_check(admin_token@, opt_text(authorization)) {
            Err(e) => r == Err::<u16, ApiError>(e) && final(store).writes() == old(store).writes(),
            Ok(_) => match r {
                Ok(c) => c == 201 && site_registered(
                    domain@,
                    site_name_of(domain@, name),
                    true,
                    old(store).writes(),
                    final(store).writes(),
                ),
                Err(e) => is_db_error(e) && final(store).writes() == old(store).writes(),
            },
        },
{
    require_admin(admin_token, authorization)?;
    let name = site_name(domain, name);
    match store.ensure_site(domain, name.as_str()) {
        Ok(()) => Ok(201),
        Err(e) => Err(db_error(&e)),
    }
}

/// Forgets a site for an administrator. Succeeds with 204.
pub fn delete_site<S: Store + ?Sized>(
    store: &mut S,
    admin_token: &str,
    authorization: Option<&str>,
    domain: &str,
) -> (r: Result<u16, ApiError>)
    ensures
        match admin_check(admin_token@, opt_text(authorization)) {
            Err(e) => r == Err::<u16, ApiError>(e) && final(store).writes() == old(store).writes(),
            Ok(_) => match r {
                Ok(c) => c == 204 && site_removed(domain@, true, old(store).writes(), final(store).writes()),
                Err(e) => is_db_error(e) && site_removed(
                    domain@,
                    false,
                    old(store).writes(),
                    final(store).writes(),
                ),
            },
        },
{
    require_admin(admin_token, authorization)?;
    match store.delete_site(domain) {
        Ok(()) => Ok(204),
        Err(e) => Err(db_error(&e)),
    }
}

/// The range of a stats request: the last 24 hours unless given.
pub open spec fn stats_range_of(from_ms: Option<i64>, to_ms: Option<i64>, now_ms: int) -> (int, int) {
    (
        match from_ms {
            Some(f) => f as int,
            None => now_ms - DAY_MS,
        },
        match to_ms {
            Some(t) => t as int,
            None => now_ms,
        },
    )
}

/// Fills in the range of a stats request.
pub fn stats_range(from_ms: Option<i64>, to_ms: Option<i64>, now_ms: i64) -> (r: (i64, i64))
    requires
        now_ms >= i64::MIN + DAY_MS,
    ensures
        (r.0 as int, r.1 as int) == stats_range_of(from_ms, to_ms, now_ms as int),
{
    let day_ago = now_ms - DAY_MS;
    let from = match from_ms {
        Some(f) => f,
        None => day_ago,
    };
    let to = match to_ms {
        Some(t) => t,
        None => now_ms,
    };
    (from, to)
}

/// Stats for an administrator over the asked range, by default the last 24 hours.
pub fn stats<S: Store + ?Sized>(
    store: &S,
    admin_token: &str,
    authorization: Option<&str>,
    site: &str,
    from_ms: Option<i64>,
    to_ms: Option<i64>,
    now_ms: i64,
) -> (r: Result<Stats, ApiError>)
    requires
        admin_check(admin_token@, opt_text(authorization)) is Ok ==> {
            &&& now_ms >= i64::MIN + DAY_MS
            &&& i64::MIN <= stats_range_of(from_ms, to_ms, now_ms as int).1 - stats_range_of(
                from_ms,
                to_ms,
                now_ms as int,
            ).0 <= i64::MAX
        },
    ensures
        match admin_check(admin_token@, opt_text(authorization)) {
            Err(e) => r == Err::<Stats, ApiError>(e),
            Ok(_) => {
                let (f, t) = stats_range_of(from_ms, to_ms, now_ms as int);
                match r {
                    Ok(s) => store.stats_answered(site@, f, t, Some(s)),
                    Err(e) => is_db_error(e) && store.stats_answered(site@, f, t, None),
                }
            },
        },
{
    require_admin(admin_token, authorization)?;
    let (from, to) = stats_range(from_ms, to_ms, now_ms);
    match store.stats(site, from, to) {
        Ok(s) => Ok(s),
        Err(e) => Err(db_error(&e)),
    }
}

/// Start of the window in which a visitor counts as active.
pub fn live_since(now_ms: i64) -> (s: i64)
    requires
        now_ms >= i64::MIN + LIVE_WINDOW_MS,
    ensures
        s == now_ms - LIVE_WINDOW_MS,
{
    now_ms - LIVE_WINDOW_MS
}

/// Visitors active in the last five minutes, for an administrator.
pub fn live<S: Store + ?Sized>(
    store: &S,
    admin_token: &str,
    authorization: Option<&str>,
    site: &str,
    now_ms: i64,
) -> (r: Result<i64, ApiError>)
    requires
        admin_check(admin_token@, opt_text(authorization)) is Ok ==> now_ms >= i64::MIN + LIVE_WINDOW_MS,
    ensures
        match admin_check(admin_token@, opt_text(authorization)) {
            Err(e) => r == Err::<i64, ApiError>(e),
            Ok(_) => match r {
                Ok(n) => store.active_counted(site@, now_ms - LIVE_WINDOW_MS, Some(n as int)),
                Err(e) => is_db_error(e) && store.active_counted(site@, now_ms - LIVE_WINDOW_MS, None),
            },
        },
{
    require_admin(admin_token, authorization)?;
    let since = live_since(now_ms);
    match store.active_visitors(site, since) {
        Ok(n) => Ok(n),
        Err(e) => Err(db_error(&e)),
    }
}

/// Active visitors of one site, as pushed on the live feed.
#[derive(Debug)]
pub struct SiteLive {
    pub domain: String,
    pub active: i64,
}

/// The live entries of `sites`: each site's domain, in order, with the count
/// the store answered for it since `since`, or 0 when it answered none.
pub open spec fn live_entries_of<S: Store + ?Sized>(
    store: &S,
    sites: Seq<Site>,
    since: int,
    out: Seq<SiteLive>,
) -> bool {
    &&& out.len() == sites.len()
    &&& forall|j: int|
        0 <= j < sites.len() ==> {
            &&& (#[trigger] out[j]).domain@ == sites[j].domain@
            &&& {
                ||| store.active_counted(sites[j].domain@, since, Some(out[j].active as int))
                ||| out[j].active == 0 && store.active_counted(sites[j].domain@, since, None)
            }
        }
}

/// Active visitors since `since_ms` of each site, in the order of `sites`; a
/// count that cannot be read counts as 0.
pub fn live_entries<S: Store + ?Sized>(store: &S, sites: &Vec<Site>, since_ms: i64) -> (out: Vec<
    SiteLive,
>)
    ensures
        live_entries_of(store, sites@, since_ms as int, out@),
{
    let mut out: Vec<SiteLive> = Vec::new();
    let mut i: usize = 0;
    while i < sites.len()
        invariant
            i <= sites.len(),
            out@.len() == i,
            forall|j: int|
                0 <= j < i ==> {
                    &&& (#[trigger] out@[j]).domain@ == sites@[j].domain@
                    &&& {
                        ||| store.active_counted(sites@[j].domain@, since_ms as int, Some(out@[j].active as int))
                        ||| out@[j].active == 0 && store.active_counted(sites@[j].domain@, since_ms as int, None)
                    }
                },
        decreases sites.len() - i,
    {
        let active = match store.active_visitors(sites[i].domain.as_str(), since_ms) {
            Ok(n) => n,
            Err(_) => 0,
        };
        out.push(SiteLive { domain: sites[i].domain.clone(), active });
        i = i + 1;
    }
    out
}

/// One push of the live feed at `now_ms`: each listed site with its visitors
/// of the last five minutes; `None` when the sites cannot be listed, and the
/// push is skipped.
pub fn live_snapshot<S: Store + ?Sized>(store: &S, now_ms: i64) -> (r: Option<Vec<SiteLive>>)
    requires
        now_ms >= i64::MIN + LIVE_WINDOW_MS,
    ensures
        match r {
            Some(v) => exists|sites: Seq<Site>|
                #[trigger] store.sites_listed(Some(sites)) && live_entries_of(
                    store,
                    sites,
                    now_ms - LIVE_WINDOW_MS,
                    v@,
                ),
            None => store.sites_listed(None),
        },
{
    let since = live_since(now_ms);
    match store.list_sites() {
        Ok(sites) => Some(live_entries(store, &sites, since)),
        Err(_) => None,
    }
}

/// What arrives on the live feed's socket.
#[derive(Debug, Clone, Copy, PartialEq, Eq)]
pub enum WsIncoming {
    /// A close frame.
    Close,
    /// The stream ended.
    Ended,
    /// Receiving failed.
    Failed,
    /// Any other message.
    Other,
}

/// Whether the live feed goes on after an incoming message: only other
/// messages keep it open.
pub fn ws_continues(m: WsIncoming) -> (b: bool)
    ensures
        b == (m == WsIncoming::Other),
{
    match m {
        WsIncoming::Other => true,
        _ => false,
    }
}

/// A text with a prefix put in front loses exactly that prefix again.
pub proof fn lemma_without_added_prefix(p: Seq<char>, t: Seq<char>)
    ensures
        without_prefix(p + t, p) == Some(t),
{
    assert((p + t).take(p.len() as int) =~= p);
    assert((p + t).skip(p.len() as int) =~= t);
}

/// Before setup every administrator request is refused with 503, whatever it carries.
pub proof fn lemma_no_admin_before_setup(auth: Option<Seq<char>>)
    ensures
        admin_check(Seq::empty(), auth) == Err::<(), ApiError>(ApiError::SetupRequired),
{
}

/// Once a token is set, a request that carries it as `Bearer <token>` is let in,
/// and one that carries any other bearer token is refused with 401.
pub proof fn lemma_bearer_grants(token: Seq<char>, other: Seq<char>)
    requires
        token.len() > 0,
    ensures
        admin_check(token, Some("Bearer "@ + token)) == Ok::<(), ApiError>(()),
        other != token ==> admin_check(token, Some("Bearer "@ + other)) == Err::<(), ApiError>(
            ApiError::BadToken,
        ),
{
    lemma_without_added_prefix("Bearer "@, token);
    lemma_without_added_prefix("Bearer "@, other);
}

/// The live feed lets in exactly the tokens that the administrator endpoints
/// accept as `Bearer <token>`.
pub proof fn lemma_ws_agrees_with_bearer(admin_token: Seq<char>, token: Seq<char>)
    ensures
        ws_allowed(admin_token, token) == (admin_check(admin_token, Some("Bearer "@ + token)) is Ok),
{
    lemma_without_added_prefix("Bearer "@, token);
}

/// Setup happens once: after a first setup with a non-empty token, that token
/// opens the administrator endpoints, and any later setup is refused with 409
/// and keeps it.
pub proof fn lemma_setup_once(given: Seq<char>, later: Seq<char>)
    requires
        given.len() > 0,
    ensures
        setup_outcome(Seq::empty(), given) == (Ok::<u16, ApiError>(204u16), given),
        setup_outcome(given, later) == (Err::<u16, ApiError>(ApiError::AlreadyConfigured), given),
        admin_check(setup_outcome(Seq::empty(), given).1, Some("Bearer "@ + given)) is Ok,
{
    lemma_bearer_grants(given, given);
}

/// An empty referrer is recorded as no referrer; a non-empty one is kept.
pub proof fn lemma_empty_referrer_dropped(r: String)
    ensures
        r@.len() == 0 ==> kept_referrer(Some(r)) is None,
        r@.len() > 0 ==> kept_referrer(Some(r)) == Some(r@),
{
}

/// A stats request without a range asks for the last 24 hours up to now, and
/// such a range is answered from raw events; the live count covers the last
/// five minutes.
pub proof fn lemma_default_ranges(now_ms: int)
    ensures
        stats_range_of(None, None, now_ms) == (now_ms - 86_400_000, now_ms),
        route(now_ms - 86_400_000, now_ms) == StatsSource::Raw,
        LIVE_WINDOW_MS == 300_000,
{
}

/// A client's visitor identity changes every UTC day: two tracked events of
/// the same address and user agent on one site, made on different UTC days,
/// have identities digested from messages with different days.
pub proof fn lemma_visitor_identity_rotates(
    ev1: Event,
    ev2: Event,
    b1: TrackBody,
    b2: TrackBody,
    ip: Seq<char>,
    ua: Seq<char>,
    day1: Seq<char>,
    day2: Seq<char>,
)
    requires
        tracked_event(ev1, b1, ip, ua, day1, ev1.ts_ms as int),
        tracked_event(ev2, b2, ip, ua, day2, ev2.ts_ms as int),
        utc_day(ev1.ts_ms as int, day1),
        utc_day(ev2.ts_ms as int, day2),
        b1.site@ == b2.site@,
        day_number(ev1.ts_ms as int) != day_number(ev2.ts_ms as int),
    ensures
        day1 != day2,
        ev1.visitor_hash@ == visitor_digest(ip, ua, b1.site@, day1),
        ev2.visitor_hash@ == visitor_digest(ip, ua, b1.site@, day2),
        visitor_message(ip, ua, b1.site@, day1) != visitor_message(ip, ua, b1.site@, day2),
{
    lemma_utc_day_changes_daily(ev1.ts_ms as int, ev2.ts_ms as int, day1, day2);
    lemma_message_holds_site_and_day(ip, ua, b1.site@, day1, b1.site@, day2);
}

} // verus!
