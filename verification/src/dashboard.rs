//! Which embedded dashboard file answers a request path.
use vstd::prelude::*;
use crate::text::{
    chars_of, contains_char, leading_run, same_text, trailing_run, trim_end_char, trim_start_char,
};

verus! {

/// The MIME type that `mime_guess` guesses from the extension of a path.
pub uninterp spec fn guessed_mime(path: Seq<char>) -> Seq<char>;

/// Calls `mime_guess::from_path(path).first_or_octet_stream()` and renders the
/// MIME type as text. Claims only that the result is the named guess for the path.
#[verifier::external_body]
pub fn mime_for(path: &str) -> (m: String)
    ensures
        m@ == guessed_mime(path@),
{
    let guess = mime_guess::from_path(path).first_or_octet_stream();
    let text: &str = guess.as_ref();
    text.to_string()
}

/// The reply to a dashboard request.
#[derive(Debug)]
pub enum DashboardReply {
    /// Serve the embedded file `key` with this `Content-Type`.
    Asset { key: String, content_type: String },
    /// Nothing to serve (404).
    NotFound,
}

/// Whether a file of this name is embedded.
pub open spec fn has_asset(assets: Seq<String>, k: Seq<char>) -> bool {
    exists|i: int| 0 <= i < assets.len() && (#[trigger] assets[i])@ == k
}

/// The request path without its leading slashes.
pub open spec fn relative_path(path: Seq<char>) -> Seq<char> {
    path.skip(leading_run(path, '/'))
}

/// The file looked up first: `index.html` for the root, the path itself when
/// it is a file, `index.html` for a client-side route (no dot), else the
/// `index.html` under the path when there is one, else the path itself.
pub open spec fn lookup_key(raw: Seq<char>, assets: Seq<String>) -> Seq<char> {
    if raw.len() == 0 {
        "index.html"@
    } else if has_asset(assets, raw) {
        raw
    } else if !raw.contains('.') {
        "index.html"@
    } else {
        let under = raw.take(raw.len() - trailing_run(raw, '/')) + "/index.html"@;
        if has_asset(assets, under) {
            under
        } else {
            raw
        }
    }
}

/// The reply: the looked-up file with its guessed type, else `index.html` as
/// HTML, else nothing; as (file, content type).
pub open spec fn dashboard_reply(path: Seq<char>, assets: Seq<String>) -> Option<(Seq<char>, Seq<char>)> {
    let key = lookup_key(relative_path(path), assets);
    if has_asset(assets, key) {
        Some((key, guessed_mime(key)))
    } else if has_asset(assets, "index.html"@) {
        Some(("index.html"@, "text/html; charset=utf-8"@))
    } else {
        None
    }
}

/// Whether `k` names an embedded file.
pub fn has_asset_named(assets: &Vec<String>, k: &str) -> (b: bool)
    ensures
        b == has_asset(assets@, k@),
{
    let mut i: usize = 0;
    while i < assets.len()
        invariant
            i <= assets.len(),
            forall|j: int| 0 <= j < i ==> (#[trigger] assets@[j])@ != k@,
        decreases assets.len() - i,
    {
        if same_text(assets[i].as_str(), k) {
            return true;
        }
        i = i + 1;
    }
    false
}

/// Chooses the reply to a dashboard request for `path` among the embedded
/// files `assets`. A served file is always one of them.
pub fn choose_asset(path: &str, assets: &Vec<String>) -> (r: DashboardReply)
    ensures
        match r {
            DashboardReply::Asset { key, content_type } => dashboard_reply(path@, assets@) == Some(
                (key@, content_type@),
            ),
            DashboardReply::NotFound => dashboard_reply(path@, assets@) is None,
        },
        r matches DashboardReply::Asset { key, content_type } ==> has_asset(assets@, key@),
{
    let raw = trim_start_char(path, '/');
    let key: String = if raw.is_empty() {
        String::from_str("index.html")
    } else if has_asset_named(assets, raw) {
        String::from_str(raw)
    } else if !contains_char(&chars_of(raw), '.') {
        String::from_str("index.html")
    } else {
        let mut under = String::from_str(trim_end_char(raw, '/'));
        under.append("/index.html");
        if has_asset_named(assets, under.as_str()) {
            under
        } else {
            String::from_str(raw)
        }
    };
    if has_asset_named(assets, key.as_str()) {
        let content_type = mime_for(key.as_str());
        DashboardReply::Asset { key, content_type }
    } else if has_asset_named(assets, "index.html") {
        DashboardReply::Asset {
            key: String::from_str("index.html"),
            content_type: String::from_str("text/html; charset=utf-8"),
        }
    } else {
        DashboardReply::NotFound
    }
}

/// A client-side route (not a file, no dot) is answered with `index.html`,
/// when the dashboard has one.
pub proof fn lemma_spa_fallback(path: Seq<char>, assets: Seq<String>)
    requires
        relative_path(path).len() > 0,
        !has_asset(assets, relative_path(path)),
        !relative_path(path).contains('.'),
        has_asset(assets, "index.html"@),
    ensures
        dashboard_reply(path, assets) == Some(("index.html"@, guessed_mime("index.html"@))),
{
}

/// Whatever is served is an embedded file.
pub proof fn lemma_served_file_exists(path: Seq<char>, assets: Seq<String>)
    ensures
        dashboard_reply(path, assets) matches Some((k, t)) ==> has_asset(assets, k),
{
}

} // verus!
