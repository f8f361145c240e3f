//! Device and browser families read from a `User-Agent` header.
use vstd::prelude::*;
use crate::text::{
    ascii_lower, ascii_upper, chars_of, contains, has_infix, is_ascii_text, lowercase_of,
    to_lowercase,
};

verus! {

/// The device family of a lower-cased user agent: tablets first, then phones,
/// everything else is a desktop.
pub open spec fn device_class(l: Seq<char>) -> Seq<char> {
    if has_infix(l, "ipad"@) || has_infix(l, "tablet"@) {
        "tablet"@
    } else if has_infix(l, "mobile"@) || has_infix(l, "android"@) || has_infix(l, "iphone"@) {
        "mobile"@
    } else {
        "desktop"@
    }
}

/// The browser family of a lower-cased user agent, tested in the order
/// Edge, Chrome, Firefox, Safari.
pub open spec fn browser_class(l: Seq<char>) -> Seq<char> {
    if has_infix(l, "edg/"@) {
        "Edge"@
    } else if has_infix(l, "chrome/"@) && !has_infix(l, "edg/"@) {
        "Chrome"@
    } else if has_infix(l, "firefox"@) {
        "Firefox"@
    } else if has_infix(l, "safari"@) && !has_infix(l, "chrome"@) {
        "Safari"@
    } else {
        "Other"@
    }
}

/// Classifies a user agent as `"tablet"`, `"mobile"` or `"desktop"`.
pub fn classify_device(ua: &str) -> (r: &'static str)
    ensures
        r@ == device_class(lowercase_of(ua@)),
        is_ascii_text(ua@) ==> r@ == device_class(ascii_lower(ua@)),
{
    let lower = to_lowercase(ua);
    let l = chars_of(lower.as_str());
    if contains(&l, "ipad") || contains(&l, "tablet") {
        "tablet"
    } else if contains(&l, "mobile") || contains(&l, "android") || contains(&l, "iphone") {
        "mobile"
    } else {
        "desktop"
    }
}

/// Classifies a user agent as `"Edge"`, `"Chrome"`, `"Firefox"`, `"Safari"` or `"Other"`.
pub fn classify_browser(ua: &str) -> (r: &'static str)
    ensures
        r@ == browser_class(lowercase_of(ua@)),
        is_ascii_text(ua@) ==> r@ == browser_class(ascii_lower(ua@)),
{
    let lower = to_lowercase(ua);
    let l = chars_of(lower.as_str());
    if contains(&l, "edg/") {
        "Edge"
    } else if contains(&l, "chrome/") && !contains(&l, "edg/") {
        "Chrome"
    } else if contains(&l, "firefox") {
        "Firefox"
    } else if contains(&l, "safari") && !contains(&l, "chrome") {
        "Safari"
    } else {
        "Other"
    }
}

/// Matching ignores ASCII letter case: an ASCII user agent, written in upper
/// case or in lower case, falls into the same device and browser families.
pub proof fn lemma_classes_ignore_ascii_case(ua: Seq<char>)
    requires
        is_ascii_text(ua),
    ensures
        is_ascii_text(ascii_upper(ua)),
        is_ascii_text(ascii_lower(ua)),
        device_class(ascii_lower(ascii_upper(ua))) == device_class(ascii_lower(ua)),
        device_class(ascii_lower(ascii_lower(ua))) == device_class(ascii_lower(ua)),
        browser_class(ascii_lower(ascii_upper(ua))) == browser_class(ascii_lower(ua)),
        browser_class(ascii_lower(ascii_lower(ua))) == browser_class(ascii_lower(ua)),
{
    assert(ascii_lower(ascii_upper(ua)) =~= ascii_lower(ua));
    assert(ascii_lower(ascii_lower(ua)) =~= ascii_lower(ua));
}

/// The browser families are tested in a fixed order on the lower-cased user
/// agent: `edg/` makes it Edge; otherwise `chrome/` makes it Chrome, whatever
/// else it holds (a mobile Chrome too); otherwise `firefox` makes it Firefox;
/// otherwise `safari` without `chrome` makes it Safari; anything else is
/// Other.
pub proof fn lemma_browser_family_order(l: Seq<char>)
    ensures
        has_infix(l, "edg/"@) ==> browser_class(l) == "Edge"@,
        !has_infix(l, "edg/"@) && has_infix(l, "chrome/"@) ==> browser_class(l) == "Chrome"@,
        !has_infix(l, "edg/"@) && !has_infix(l, "chrome/"@) && has_infix(l, "firefox"@)
            ==> browser_class(l) == "Firefox"@,
        !has_infix(l, "edg/"@) && !has_infix(l, "chrome/"@) && !has_infix(l, "firefox"@)
            && has_infix(l, "safari"@) && !has_infix(l, "chrome"@) ==> browser_class(l) == "Safari"@,
        !has_infix(l, "edg/"@) && !has_infix(l, "chrome/"@) && !has_infix(l, "firefox"@)
            && !(has_infix(l, "safari"@) && !has_infix(l, "chrome"@)) ==> browser_class(l) == "Other"@,
{
}

/// The device families are tested in a fixed order on the lower-cased user
/// agent: `ipad` or `tablet` makes it a tablet, even a mobile one; otherwise
/// `mobile`, `android` or `iphone` makes it mobile; anything else is a
/// desktop.
pub proof fn lemma_device_family_order(l: Seq<char>)
    ensures
        has_infix(l, "ipad"@) || has_infix(l, "tablet"@) ==> device_class(l) == "tablet"@,
        !has_infix(l, "ipad"@) && !has_infix(l, "tablet"@) && (has_infix(l, "mobile"@) || has_infix(
            l,
            "android"@,
        ) || has_infix(l, "iphone"@)) ==> device_class(l) == "mobile"@,
        !has_infix(l, "ipad"@) && !has_infix(l, "tablet"@) && !has_infix(l, "mobile"@) && !has_infix(
            l,
            "android"@,
        ) && !has_infix(l, "iphone"@) ==> device_class(l) == "desktop"@,
{
}

} // verus!
