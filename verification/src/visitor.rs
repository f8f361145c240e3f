//! Cookie-less visitor identity: a digest of IP address, user agent, site and
//! the UTC day, so that the same person gets a new identity every day.
use vstd::prelude::*;
use vstd::utf8::encode_utf8;
use crate::clock::utc_day_now;

verus! {

/// What SHA-256 gives for a byte string.
pub uninterp spec fn sha256_of(data: Seq<u8>) -> Seq<u8>;

/// Lower-case hexadecimal digit of a value in `0..16`.
pub open spec fn hex_digit(n: int) -> char {
    if n < 10 {
        (('0' as int) + n) as char
    } else {
        (('a' as int) + n - 10) as char
    }
}

/// Two lower-case hexadecimal digits per byte, high half first.
pub open spec fn lower_hex(b: Seq<u8>) -> Seq<char>
    decreases b.len(),
{
    if b.len() == 0 {
        Seq::empty()
    } else {
        seq![hex_digit(b[0] as int / 16), hex_digit(b[0] as int % 16)] + lower_hex(b.drop_first())
    }
}

/// The text that is hashed: IP, user agent, site and day, separated by `|`.
pub open spec fn visitor_message(ip: Seq<char>, ua: Seq<char>, site: Seq<char>, day: Seq<char>) -> Seq<char> {
    ip + "|"@ + ua + "|"@ + site + "|"@ + day
}

/// The visitor identity: the first 16 bytes of the SHA-256 digest of the UTF-8
/// message, in lower-case hexadecimal.
pub open spec fn visitor_digest(ip: Seq<char>, ua: Seq<char>, site: Seq<char>, day: Seq<char>) -> Seq<char> {
    lower_hex(sha256_of(encode_utf8(visitor_message(ip, ua, site, day))).take(16))
}

/// Calls `sha2::Sha256::digest` (the `Digest` trait), the same digest that
/// `new`, `update` and `finalize` compute over the same bytes. Claims that the
/// result is the named digest of the bytes, and 32 bytes long.
#[verifier::external_body]
pub fn sha256(data: &[u8]) -> (d: Vec<u8>)
    ensures
        d@ == sha256_of(data@),
        d@.len() == 32,
{
    <sha2::Sha256 as sha2::Digest>::digest(data).to_vec()
}

/// Calls `hex::encode`, which writes each byte as two digits of
/// `0123456789abcdef`, high half first.
#[verifier::external_body]
pub fn hex_encode(bytes: &[u8]) -> (s: String)
    ensures
        s@ == lower_hex(bytes@),
{
    hex::encode(bytes)
}

/// Each byte gives two characters.
pub proof fn lemma_lower_hex_len(b: Seq<u8>)
    ensures
        lower_hex(b).len() == 2 * b.len(),
    decreases b.len(),
{
    if b.len() > 0 {
        lemma_lower_hex_len(b.drop_first());
    }
}

/// Every character of the identity is a lower-case hexadecimal digit.
pub proof fn lemma_lower_hex_digits(b: Seq<u8>, i: int)
    requires
        0 <= i < lower_hex(b).len(),
    ensures
        ('0' <= lower_hex(b)[i] <= '9') || ('a' <= lower_hex(b)[i] <= 'f'),
    decreases b.len(),
{
    lemma_lower_hex_len(b);
    if b.len() > 0 {
        let head = seq![hex_digit(b[0] as int / 16), hex_digit(b[0] as int % 16)];
        if i >= 2 {
            lemma_lower_hex_len(b.drop_first());
            lemma_lower_hex_digits(b.drop_first(), i - 2);
            assert(lower_hex(b)[i] == lower_hex(b.drop_first())[i - 2]);
        } else {
            assert(lower_hex(b)[i] == head[i]);
        }
    }
}

/// The visitor identity of a client on a given UTC day.
pub fn visitor_hash_on(ip: &str, ua: &str, site: &str, day: &str) -> (h: String)
    ensures
        h@ == visitor_digest(ip@, ua@, site@, day@),
        h@.len() == 32,
        forall|i: int| 0 <= i < 32 ==> ('0' <= #[trigger] h@[i] <= '9') || ('a' <= h@[i] <= 'f'),
{
    let mut msg = String::from_str(ip);
    msg.append("|");
    msg.append(ua);
    msg.append("|");
    msg.append(site);
    msg.append("|");
    msg.append(day);
    let mut d = sha256(msg.as_str().as_bytes());
    d.truncate(16);
    let h = hex_encode(d.as_slice());
    proof {
        lemma_lower_hex_len(d@);
        assert forall|i: int| 0 <= i < 32 implies ('0' <= #[trigger] h@[i] <= '9') || ('a' <= h@[i]
            <= 'f') by {
            lemma_lower_hex_digits(d@, i);
        }
    }
    h
}

/// The visitor identity of a client today: the digest of its IP address, user
/// agent and site together with the UTC date at the moment of the call.
pub fn visitor_hash(ip: &str, ua: &str, site: &str) -> (h: String)
    ensures
        exists|day: Seq<char>| h@ == visitor_digest(ip@, ua@, site@, day),
        h@.len() == 32,
        forall|i: int| 0 <= i < 32 ==> ('0' <= #[trigger] h@[i] <= '9') || ('a' <= h@[i] <= 'f'),
{
    let day = utc_day_now();
    visitor_hash_on(ip, ua, site, day.as_str())
}

/// The hashed message holds the day and the site in full: two messages of the
/// same address and user agent are equal only for the same site and day, so
/// a new day gives a new message to hash.
pub proof fn lemma_message_holds_site_and_day(
    ip: Seq<char>,
    ua: Seq<char>,
    site1: Seq<char>,
    day1: Seq<char>,
    site2: Seq<char>,
    day2: Seq<char>,
)
    ensures
        day1 != day2 ==> visitor_message(ip, ua, site1, day1) != visitor_message(ip, ua, site1, day2),
        site1 != site2 && site1.len() == site2.len() ==> visitor_message(ip, ua, site1, day1)
            != visitor_message(ip, ua, site2, day1),
{
    let p = ip + "|"@ + ua + "|"@;
    let m1 = visitor_message(ip, ua, site1, day1);
    assert(m1 =~= p + site1 + "|"@ + day1);
    if day1 != day2 && m1 == visitor_message(ip, ua, site1, day2) {
        let m2 = visitor_message(ip, ua, site1, day2);
        assert(m2 =~= p + site1 + "|"@ + day2);
        let k = (p + site1 + "|"@).len() as int;
        assert(m1.skip(k) =~= day1);
        assert(m2.skip(k) =~= day2);
    }
    if site1 != site2 && site1.len() == site2.len() && m1 == visitor_message(ip, ua, site2, day1) {
        let m2 = visitor_message(ip, ua, site2, day1);
        assert(m2 =~= p + site2 + "|"@ + day1);
        assert(m1.subrange(p.len() as int, (p.len() + site1.len()) as int) =~= site1);
        assert(m2.subrange(p.len() as int, (p.len() + site2.len()) as int) =~= site2);
    }
}

} // verus!
