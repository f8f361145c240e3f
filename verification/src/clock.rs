//! The wall clock, read through `chrono`, and the UTC calendar date of an
//! instant.
use vstd::prelude::*;
use crate::bucket::DAY_MS;

verus! {

/// Calls `chrono::Utc::now().timestamp_millis()`: milliseconds since the Unix
/// epoch. The value depends on the moment of the call, so nothing is claimed.
#[verifier::external_body]
pub fn now_millis() -> (t: i64) {
    chrono::Utc::now().timestamp_millis()
}

/// Calls `chrono::Utc::now().format("%Y%m%d")` and renders it: today's UTC date
/// as year, month and day digits. It depends on the moment of the call, so
/// nothing is claimed.
#[verifier::external_body]
pub fn utc_day_now() -> (d: String) {
    chrono::Utc::now().format("%Y%m%d").to_string()
}


/// Days in the first `k` years of a 400-year era of the Gregorian calendar,
/// the years counted from 1 March (so that a leap day ends its year).
pub open spec fn era_days(k: int) -> int {
    365 * k + k / 4 - k / 100 + k / 400
}

/// Day of a year counted from 1 March on which its month `mp` starts
/// (0 is March, 11 is February).
pub open spec fn month_start(mp: int) -> int {
    (153 * mp + 2) / 5
}

/// A Gregorian leap year.
pub open spec fn is_leap(y: int) -> bool {
    y % 4 == 0 && (y % 100 != 0 || y % 400 == 0)
}

/// Number of days of month `m` of year `y`.
pub open spec fn month_days(y: int, m: int) -> int {
    if m == 2 {
        if is_leap(y) { 29 } else { 28 }
    } else if m == 4 || m == 6 || m == 9 || m == 11 {
        30
    } else {
        31
    }
}

/// Days from 1970-01-01 to the date `y-m-d` of the proleptic Gregorian calendar.
pub open spec fn days_from_civil(y: int, m: int, d: int) -> int {
    let yy = if m <= 2 { y - 1 } else { y };
    let era = yy / 400;
    let yoe = yy - era * 400;
    let mp = if m > 2 { m - 3 } else { m + 9 };
    era * 146097 + era_days(yoe) + month_start(mp) + d - 1 - 719468
}

/// `y-m-d` is a valid date, and day `z` counted from 1970-01-01.
pub open spec fn civil_day(z: int, y: int, m: int, d: int) -> bool {
    &&& 1 <= m <= 12
    &&& 1 <= d <= month_days(y, m)
    &&& days_from_civil(y, m, d) == z
}

/// Day number of an instant in milliseconds since the epoch: the UTC days
/// since 1970-01-01, rounded down.
pub open spec fn day_number(ts_ms: int) -> int {
    ts_ms / (DAY_MS as int)
}

/// A decimal digit.
pub open spec fn digit(n: int) -> char {
    (('0' as int) + n) as char
}

proof fn lemma_div_step(k: int, b: int)
    requires
        k >= 0,
        b > 0,
    ensures
        (k + 1) / b == k / b + (if (k + 1) % b == 0 { 1int } else { 0int }),
        0 <= (k + 1) % b < b,
{
    vstd::arithmetic::div_mod::lemma_fundamental_div_mod(k, b);
    vstd::arithmetic::div_mod::lemma_mod_bound(k, b);
    let q = k / b;
    let r = k % b;
    if r + 1 < b {
        assert(k + 1 == q * b + (r + 1)) by (nonlinear_arith)
            requires
                k == b * q + r,
        ;
        vstd::arithmetic::div_mod::lemma_fundamental_div_mod_converse(k + 1, b, q, r + 1);
    } else {
        assert(k + 1 == (q + 1) * b + 0) by (nonlinear_arith)
            requires
                k == b * q + r,
                r + 1 == b,
        ;
        vstd::arithmetic::div_mod::lemma_fundamental_div_mod_converse(k + 1, b, q + 1, 0);
    }
}

/// A year of an era has 366 days when the calendar year that holds its
/// February is a leap year, else 365.
proof fn lemma_era_year_length(k: int)
    requires
        0 <= k < 400,
    ensures
        era_days(k + 1) - era_days(k) == (if is_leap(k + 1) { 366int } else { 365int }),
{
    lemma_div_step(k, 4);
    lemma_div_step(k, 100);
    lemma_div_step(k, 400);
    let j = k + 1;
    if j % 400 == 0 {
        let q = j / 400;
        vstd::arithmetic::div_mod::lemma_fundamental_div_mod(j, 400);
        vstd::arithmetic::div_mod::lemma_fundamental_div_mod_converse(j, 100, 4 * q, 0);
        vstd::arithmetic::div_mod::lemma_fundamental_div_mod_converse(j, 4, 100 * q, 0);
    }
    if j % 100 == 0 {
        let q = j / 100;
        vstd::arithmetic::div_mod::lemma_fundamental_div_mod(j, 100);
        vstd::arithmetic::div_mod::lemma_fundamental_div_mod_converse(j, 4, 25 * q, 0);
    }
}

/// Whole eras leave the leap years where they are.
proof fn lemma_leap_shift(era: int, j: int)
    ensures
        is_leap(era * 400 + j) == is_leap(j),
{
    vstd::arithmetic::div_mod::lemma_fundamental_div_mod(j, 4);
    vstd::arithmetic::div_mod::lemma_fundamental_div_mod(j, 100);
    vstd::arithmetic::div_mod::lemma_fundamental_div_mod(j, 400);
    vstd::arithmetic::div_mod::lemma_mod_bound(j, 4);
    vstd::arithmetic::div_mod::lemma_mod_bound(j, 100);
    vstd::arithmetic::div_mod::lemma_mod_bound(j, 400);
    vstd::arithmetic::div_mod::lemma_fundamental_div_mod_converse(era * 400 + j, 4, era * 100 + j / 4, j % 4);
    vstd::arithmetic::div_mod::lemma_fundamental_div_mod_converse(era * 400 + j, 100, era * 4 + j / 100, j % 100);
    vstd::arithmetic::div_mod::lemma_fundamental_div_mod_converse(era * 400 + j, 400, era + j / 400, j % 400);
}

/// The floor of `a / b` for a positive `b`.
fn floor_div(a: i64, b: i64) -> (q: i64)
    requires
        b > 0,
    ensures
        q == a as int / b as int,
{
    if a >= 0 {
        let q = ((a as u64) / (b as u64)) as i64;
        q
    } else {
        let n: i64 = -(a + 1);
        let qn: u64 = (n as u64) / (b as u64);
        proof {
            let qi = n as int / b as int;
            let ri = n as int % b as int;
            vstd::arithmetic::div_mod::lemma_fundamental_div_mod(n as int, b as int);
            vstd::arithmetic::div_mod::lemma_mod_bound(n as int, b as int);
            vstd::arithmetic::div_mod::lemma_div_is_ordered_by_denominator(n as int, 1, b as int);
            assert(a as int == (-qi - 1) * (b as int) + (b - 1 - ri)) by (nonlinear_arith)
                requires
                    n as int == qi * (b as int) + ri,
                    a as int == -(n as int) - 1,
            ;
            vstd::arithmetic::div_mod::lemma_fundamental_div_mod_converse(
                a as int,
                b as int,
                -qi - 1,
                b - 1 - ri,
            );
        }
        -(qn as i64) - 1
    }
}

/// Days in the first `k` years of an era.
fn era_days_of(k: i64) -> (n: i64)
    requires
        0 <= k <= 400,
    ensures
        n == era_days(k as int),
{
    365 * k + k / 4 - k / 100 + k / 400
}

/// Start of month `mp` in a year counted from 1 March.
fn month_start_of(mp: i64) -> (n: i64)
    requires
        0 <= mp <= 12,
    ensures
        n == month_start(mp as int),
{
    (153 * mp + 2) / 5
}

/// The date of day `z` counted from 1970-01-01.
pub fn civil_from_days(z: i64) -> (r: (i64, i64, i64))
    requires
        -110_000_000_000 <= z <= 110_000_000_000,
    ensures
        civil_day(z as int, r.0 as int, r.1 as int, r.2 as int),
        -1_000_000_000 <= r.0 <= 1_000_000_000,
{
    let zz = z + 719468;
    let era = floor_div(zz, 146097);
    proof {
        vstd::arithmetic::div_mod::lemma_fundamental_div_mod(zz as int, 146097);
        vstd::arithmetic::div_mod::lemma_mod_bound(zz as int, 146097);
        assert(-1_000_000 <= era <= 1_000_000) by (nonlinear_arith)
            requires
                zz as int == 146097 * (era as int) + (zz as int) % 146097,
                0 <= (zz as int) % 146097 < 146097,
                -110_000_000_000 <= z <= 110_000_000_000,
                zz == z + 719468,
        ;
    }
    let doe = zz - era * 146097;
    let mut yoe: i64 = 0;
    while yoe < 399 && era_days_of(yoe + 1) <= doe
        invariant
            0 <= yoe <= 399,
            0 <= doe < 146097,
            era_days(yoe as int) <= doe,
        decreases 399 - yoe,
    {
        yoe = yoe + 1;
    }
    proof {
        if yoe == 399 {
            assert(era_days(400) == 146097);
        }
        lemma_era_year_length(yoe as int);
    }
    let doy = doe - era_days_of(yoe);
    let mut mp: i64 = 0;
    while mp < 11 && month_start_of(mp + 1) <= doy
        invariant
            0 <= mp <= 11,
            0 <= doy < 366,
            month_start(mp as int) <= doy,
        decreases 11 - mp,
    {
        mp = mp + 1;
    }
    let d = doy - month_start_of(mp) + 1;
    let m = if mp < 10 { mp + 3 } else { mp - 9 };
    let y = era * 400 + yoe + if mp >= 10 { 1 } else { 0 };
    proof {
        let yy = era * 400 + yoe;
        vstd::arithmetic::div_mod::lemma_fundamental_div_mod_converse(yy as int, 400, era as int, yoe as int);
        lemma_leap_shift(era as int, yoe + 1);
        assert(month_start(0) == 0);
        assert(month_start(1) == 31);
        assert(month_start(2) == 61);
        assert(month_start(3) == 92);
        assert(month_start(4) == 122);
        assert(month_start(5) == 153);
        assert(month_start(6) == 184);
        assert(month_start(7) == 214);
        assert(month_start(8) == 245);
        assert(month_start(9) == 275);
        assert(month_start(10) == 306);
        assert(month_start(11) == 337);
        assert(month_start(12) == 367);
    }
    (y, m, d)
}


/// The decimal digits of `n`, without leading zeros.
pub open spec fn dec(n: nat) -> Seq<char>
    decreases n,
{
    if n < 10 {
        seq![digit(n as int)]
    } else {
        dec(n / 10).push(digit((n % 10) as int))
    }
}

/// Four digits of a year in 0 to 9999, with leading zeros.
pub open spec fn four_digits(y: int) -> Seq<char> {
    seq![digit(y / 1000), digit((y / 100) % 10), digit((y / 10) % 10), digit(y % 10)]
}

/// Two digits of a number below 100, with a leading zero.
pub open spec fn two_digits(n: int) -> Seq<char> {
    seq![digit(n / 10), digit(n % 10)]
}

/// Digits padded with zeros in front to at least four.
pub open spec fn pad4(s: Seq<char>) -> Seq<char> {
    if s.len() < 4 {
        Seq::new((4 - s.len()) as nat, |i: int| '0') + s
    } else {
        s
    }
}

/// A year as the `%Y` of `chrono` writes it: four digits with leading zeros
/// in 0 to 9999, else a sign, with the digits padded to four.
pub open spec fn year_text(y: int) -> Seq<char> {
    if 0 <= y <= 9999 {
        four_digits(y)
    } else if y > 9999 {
        seq!['+'] + dec(y as nat)
    } else {
        seq!['-'] + pad4(dec((-y) as nat))
    }
}

/// A date as `%Y%m%d` writes it.
pub open spec fn date_text(y: int, m: int, d: int) -> Seq<char> {
    year_text(y) + two_digits(m) + two_digits(d)
}

/// The UTC date of the instant `ts_ms` is `y-m-d`.
pub open spec fn utc_date(ts_ms: int, y: int, m: int, d: int) -> bool {
    civil_day(day_number(ts_ms), y, m, d)
}

/// `t` is the UTC date of the instant `ts_ms` as `%Y%m%d` writes it.
pub open spec fn utc_day(ts_ms: int, t: Seq<char>) -> bool {
    exists|y: int, m: int, d: int| #[trigger] utc_date(ts_ms, y, m, d) && t == date_text(y, m, d)
}

/// The digit of a number below 10.
fn digit_str(n: i64) -> (s: &'static str)
    requires
        0 <= n <= 9,
    ensures
        s@ == seq![digit(n as int)],
{
    proof {
        reveal_strlit("0");
        reveal_strlit("1");
        reveal_strlit("2");
        reveal_strlit("3");
        reveal_strlit("4");
        reveal_strlit("5");
        reveal_strlit("6");
        reveal_strlit("7");
        reveal_strlit("8");
        reveal_strlit("9");
    }
    let s = if n == 0 {
        "0"
    } else if n == 1 {
        "1"
    } else if n == 2 {
        "2"
    } else if n == 3 {
        "3"
    } else if n == 4 {
        "4"
    } else if n == 5 {
        "5"
    } else if n == 6 {
        "6"
    } else if n == 7 {
        "7"
    } else if n == 8 {
        "8"
    } else {
        "9"
    };
    assert(s@ =~= seq![digit(n as int)]);
    s
}

/// Appends the decimal digits of `n`.
fn push_dec(s: &mut String, n: i64)
    requires
        n >= 0,
    ensures
        final(s)@ == old(s)@ + dec(n as nat),
    decreases n,
{
    if n >= 10 {
        push_dec(s, n / 10);
        let ghost mid = s@;
        s.append(digit_str(n % 10));
        assert(s@ =~= old(s)@ + dec(n as nat));
    } else {
        s.append(digit_str(n));
    }
}

/// The length of the digits of a number below 10000.
proof fn lemma_dec_len(n: nat)
    requires
        n < 10000,
    ensures
        n < 10 ==> dec(n).len() == 1,
        10 <= n < 100 ==> dec(n).len() == 2,
        100 <= n < 1000 ==> dec(n).len() == 3,
        1000 <= n ==> dec(n).len() == 4,
{
    reveal_with_fuel(dec, 5);
}

/// Numbers of more digits write more characters.
proof fn lemma_dec_len_lower(n: nat)
    ensures
        dec(n).len() >= 1,
        n >= 10 ==> dec(n).len() >= 2,
        n >= 100 ==> dec(n).len() >= 3,
        n >= 1000 ==> dec(n).len() >= 4,
    decreases n,
{
    if n >= 10 {
        lemma_dec_len_lower(n / 10);
    }
}

/// Appends a year as `%Y` writes it.
fn push_year(s: &mut String, y: i64)
    requires
        -1_000_000_000 <= y <= 1_000_000_000,
    ensures
        final(s)@ == old(s)@ + year_text(y as int),
{
    if 0 <= y && y <= 9999 {
        s.append(digit_str(y / 1000));
        s.append(digit_str((y / 100) % 10));
        s.append(digit_str((y / 10) % 10));
        s.append(digit_str(y % 10));
        assert(s@ =~= old(s)@ + year_text(y as int));
    } else if y > 9999 {
        proof {
            reveal_strlit("+");
        }
        s.append("+");
        push_dec(s, y);
        assert(s@ =~= old(s)@ + year_text(y as int));
    } else {
        proof {
            reveal_strlit("-");
            reveal_strlit("000");
            reveal_strlit("00");
            reveal_strlit("0");
        }
        let n = -y;
        s.append("-");
        let ghost after_sign = s@;
        proof {
            lemma_dec_len_lower(n as nat);
            if n < 10000 {
                lemma_dec_len(n as nat);
            }
        }
        let ghost pad: Seq<char> = if n < 10 {
            "000"@
        } else if n < 100 {
            "00"@
        } else if n < 1000 {
            "0"@
        } else {
            Seq::empty()
        };
        if n < 10 {
            s.append("000");
        } else if n < 100 {
            s.append("00");
        } else if n < 1000 {
            s.append("0");
        }
        assert(s@ =~= after_sign + pad);
        assert(pad4(dec(n as nat)) =~= pad + dec(n as nat));
        push_dec(s, n);
        assert(s@ =~= after_sign + pad + dec(n as nat));
        assert(s@ =~= old(s)@ + year_text(y as int));
    }
}

/// Appends two digits of a number below 100.
fn push_two(s: &mut String, n: i64)
    requires
        0 <= n <= 99,
    ensures
        final(s)@ == old(s)@ + two_digits(n as int),
{
    s.append(digit_str(n / 10));
    s.append(digit_str(n % 10));
    assert(s@ =~= old(s)@ + two_digits(n as int));
}

/// The UTC date of the instant `ts_ms`, written `YYYYMMDD` as `chrono`'s
/// `%Y%m%d` writes it.
pub fn utc_date_text(ts_ms: i64) -> (t: String)
    ensures
        utc_day(ts_ms as int, t@),
{
    let z = floor_div(ts_ms, DAY_MS);
    proof {
        vstd::arithmetic::div_mod::lemma_fundamental_div_mod(ts_ms as int, DAY_MS as int);
        vstd::arithmetic::div_mod::lemma_mod_bound(ts_ms as int, DAY_MS as int);
        assert(-110_000_000_000 <= z <= 110_000_000_000) by (nonlinear_arith)
            requires
                ts_ms as int == 86_400_000 * (z as int) + (ts_ms as int) % 86_400_000,
                0 <= (ts_ms as int) % 86_400_000 < 86_400_000,
                i64::MIN <= ts_ms <= i64::MAX,
        ;
    }
    let (y, m, d) = civil_from_days(z);
    let mut s = String::new();
    push_year(&mut s, y);
    push_two(&mut s, m);
    push_two(&mut s, d);
    assert(s@ =~= date_text(y as int, m as int, d as int));
    assert(utc_date(ts_ms as int, y as int, m as int, d as int));
    s
}

/// Digits are told apart.
proof fn lemma_digit_injective(a: int, b: int)
    requires
        0 <= a <= 9,
        0 <= b <= 9,
        digit(a) == digit(b),
    ensures
        a == b,
{
    assert(digit(a) as int == ('0' as int) + a);
    assert(digit(b) as int == ('0' as int) + b);
}

/// A digit is neither a plus nor a minus sign, and only 0 gives `0`.
proof fn lemma_digit_not_sign(a: int)
    requires
        0 <= a <= 9,
    ensures
        digit(a) != '+',
        digit(a) != '-',
        a != 0 ==> digit(a) != '0',
{
    assert(digit(a) as int == ('0' as int) + a);
}

/// The digits of a positive number do not start with `0`.
proof fn lemma_dec_first(n: nat)
    requires
        n >= 1,
    ensures
        dec(n).len() >= 1,
        dec(n)[0] != '0',
    decreases n,
{
    lemma_dec_len_lower(n);
    if n < 10 {
        lemma_digit_not_sign(n as int);
    } else {
        lemma_dec_first(n / 10);
        lemma_dec_len_lower(n / 10);
        assert(dec(n)[0] == dec(n / 10)[0]);
    }
}

/// Different numbers have different digits.
proof fn lemma_dec_injective(a: nat, b: nat)
    requires
        dec(a) == dec(b),
    ensures
        a == b,
    decreases a,
{
    lemma_dec_len_lower(a);
    lemma_dec_len_lower(b);
    if a < 10 && b < 10 {
        assert(dec(a) =~= seq![digit(a as int)]);
        assert(dec(b) =~= seq![digit(b as int)]);
        let sa = seq![digit(a as int)];
        let sb = seq![digit(b as int)];
        assert(sa[0] == digit(a as int));
        assert(sb[0] == digit(b as int));
        assert(dec(a)[0] == dec(b)[0]);
        assert(digit(a as int) == digit(b as int));
        lemma_digit_injective(a as int, b as int);
    } else if a >= 10 && b >= 10 {
        assert(dec(a).last() == digit((a % 10) as int));
        assert(dec(b).last() == digit((b % 10) as int));
        lemma_digit_injective((a % 10) as int, (b % 10) as int);
        assert(dec(a).drop_last() =~= dec(a / 10));
        assert(dec(b).drop_last() =~= dec(b / 10));
        lemma_dec_injective(a / 10, b / 10);
    }
}

/// Padded digits of positive numbers are told apart.
proof fn lemma_pad4_injective(a: nat, b: nat)
    requires
        a >= 1,
        b >= 1,
        pad4(dec(a)) == pad4(dec(b)),
    ensures
        a == b,
{
    lemma_dec_first(a);
    lemma_dec_first(b);
    let da = dec(a);
    let db = dec(b);
    if da.len() >= 4 && db.len() >= 4 {
        lemma_dec_injective(a, b);
    } else if da.len() < 4 && db.len() < 4 {
        if da.len() < db.len() {
            let k = 4 - db.len();
            assert(pad4(da)[k] == '0');
            assert(pad4(db)[k] == db[0]);
        } else if db.len() < da.len() {
            let k = 4 - da.len();
            assert(pad4(db)[k] == '0');
            assert(pad4(da)[k] == da[0]);
        } else {
            assert(da =~= pad4(da).skip(4 - da.len()));
            assert(db =~= pad4(db).skip(4 - db.len()));
            lemma_dec_injective(a, b);
        }
    } else if da.len() >= 4 {
        assert(pad4(db)[0] == '0');
        assert(pad4(da)[0] == da[0]);
    } else {
        assert(pad4(da)[0] == '0');
        assert(pad4(db)[0] == db[0]);
    }
}

/// Different years are written differently.
proof fn lemma_year_text_injective(y1: int, y2: int)
    requires
        year_text(y1) == year_text(y2),
    ensures
        y1 == y2,
{
    let t1 = year_text(y1);
    let t2 = year_text(y2);
    if 0 <= y1 <= 9999 {
        lemma_digit_not_sign(y1 / 1000);
        assert(t1[0] == digit(y1 / 1000));
    } else if y1 > 9999 {
        assert(t1[0] == '+');
    } else {
        assert(t1[0] == '-');
    }
    if 0 <= y2 <= 9999 {
        lemma_digit_not_sign(y2 / 1000);
        assert(t2[0] == digit(y2 / 1000));
    } else if y2 > 9999 {
        assert(t2[0] == '+');
    } else {
        assert(t2[0] == '-');
    }
    assert(t1[0] == t2[0]);
    if 0 <= y1 <= 9999 && 0 <= y2 <= 9999 {
        assert(t1[1] == t2[1] && t1[2] == t2[2] && t1[3] == t2[3]);
        lemma_digit_injective(y1 / 1000, y2 / 1000);
        lemma_digit_injective((y1 / 100) % 10, (y2 / 100) % 10);
        lemma_digit_injective((y1 / 10) % 10, (y2 / 10) % 10);
        lemma_digit_injective(y1 % 10, y2 % 10);
        assert(y1 == y2) by (nonlinear_arith)
            requires
                0 <= y1 <= 9999,
                0 <= y2 <= 9999,
                y1 / 1000 == y2 / 1000,
                (y1 / 100) % 10 == (y2 / 100) % 10,
                (y1 / 10) % 10 == (y2 / 10) % 10,
                y1 % 10 == y2 % 10,
        ;
    } else if y1 > 9999 && y2 > 9999 {
        assert(t1.skip(1) =~= dec(y1 as nat));
        assert(t2.skip(1) =~= dec(y2 as nat));
        lemma_dec_injective(y1 as nat, y2 as nat);
    } else if y1 < 0 && y2 < 0 {
        assert(t1.skip(1) =~= pad4(dec((-y1) as nat)));
        assert(t2.skip(1) =~= pad4(dec((-y2) as nat)));
        lemma_pad4_injective((-y1) as nat, (-y2) as nat);
    }
}

/// Different valid dates are written differently.
proof fn lemma_date_text_injective(y1: int, m1: int, d1: int, y2: int, m2: int, d2: int)
    requires
        1 <= m1 <= 12,
        1 <= m2 <= 12,
        1 <= d1 <= 31,
        1 <= d2 <= 31,
        date_text(y1, m1, d1) == date_text(y2, m2, d2),
    ensures
        y1 == y2 && m1 == m2 && d1 == d2,
{
    let t1 = date_text(y1, m1, d1);
    let t2 = date_text(y2, m2, d2);
    let n1 = year_text(y1).len() as int;
    let n2 = year_text(y2).len() as int;
    assert(t1.len() == n1 + 4);
    assert(t2.len() == n2 + 4);
    assert(t1[n1] == t2[n2] && t1[n1 + 1] == t2[n2 + 1] && t1[n1 + 2] == t2[n2 + 2] && t1[n1 + 3] == t2[n2 + 3]);
    lemma_digit_injective(m1 / 10, m2 / 10);
    lemma_digit_injective(m1 % 10, m2 % 10);
    lemma_digit_injective(d1 / 10, d2 / 10);
    lemma_digit_injective(d1 % 10, d2 % 10);
    assert(t1.take(n1) =~= year_text(y1));
    assert(t2.take(n2) =~= year_text(y2));
    lemma_year_text_injective(y1, y2);
}

/// The identity of a day changes every day: instants on different UTC days
/// have different `YYYYMMDD` texts, whatever the year.
pub proof fn lemma_utc_day_changes_daily(ts1: int, ts2: int, t1: Seq<char>, t2: Seq<char>)
    requires
        utc_day(ts1, t1),
        utc_day(ts2, t2),
        day_number(ts1) != day_number(ts2),
    ensures
        t1 != t2,
{
    let (y1, m1, d1) = choose|y: int, m: int, d: int| #[trigger] utc_date(ts1, y, m, d) && t1 == date_text(y, m, d);
    let (y2, m2, d2) = choose|y: int, m: int, d: int| #[trigger] utc_date(ts2, y, m, d) && t2 == date_text(y, m, d);
    if t1 == t2 {
        lemma_date_text_injective(y1, m1, d1, y2, m2, d2);
    }
}

} // verus!
