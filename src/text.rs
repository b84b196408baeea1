//! Decimal text: rendering integers and fixed-point amounts, trimming
//! whitespace and parsing unsigned numbers.
use vstd::prelude::*;

verus! {

/// The ASCII digit for `d` (taken modulo ten).
pub open spec fn digit_char(d: nat) -> char {
    ((d % 10) + 48) as char
}

/// Decimal rendering of `n`, without leading zeros ("0" for zero).
pub open spec fn dec_text(n: nat) -> Seq<char>
    decreases n,
{
    if n < 10 {
        seq![digit_char(n)]
    } else {
        dec_text(n / 10).push(digit_char(n % 10))
    }
}

/// The last `w` decimal digits of `n`, left-padded with zeros.
pub open spec fn padded_text(n: nat, w: nat) -> Seq<char>
    decreases w,
{
    if w == 0 {
        Seq::empty()
    } else {
        padded_text(n / 10, (w - 1) as nat).push(digit_char(n % 10))
    }
}

/// Relies on `String::push`: appends one character at the end.
#[verifier::external_body]
pub(crate) fn push_char(s: &mut String, c: char)
    ensures
        final(s)@ == old(s)@.push(c),
{
    s.push(c)
}

/// Relies on `String::pop`: removes and returns the last character, if any.
#[verifier::external_body]
pub(crate) fn pop_char(s: &mut String) -> (r: Option<char>)
    ensures
        old(s)@.len() == 0 ==> r.is_none() && final(s)@ == old(s)@,
        old(s)@.len() > 0 ==> r == Some(old(s)@.last()) && final(s)@ == old(s)@.drop_last(),
{
    s.pop()
}

fn digit_of(d: u128) -> (c: char)
    requires
        d < 10,
    ensures
        c == digit_char(d as nat),
{
    ((d as u8) + 48u8) as char
}

/// Appends the decimal rendering of `n`.
pub fn push_decimal(s: &mut String, n: u128)
    ensures
        final(s)@ == old(s)@ + dec_text(n as nat),
    decreases n,
{
    if n >= 10 {
        push_decimal(s, n / 10);
    }
    push_char(s, digit_of(n % 10));
    proof {
        assert(final(s)@ =~= old(s)@ + dec_text(n as nat));
    }
}

/// Appends the last `w` decimal digits of `n`, left-padded with zeros.
pub fn push_padded(s: &mut String, n: u128, w: u32)
    ensures
        final(s)@ == old(s)@ + padded_text(n as nat, w as nat),
    decreases w,
{
    if w > 0 {
        push_padded(s, n / 10, w - 1);
        push_char(s, digit_of(n % 10));
        proof {
            assert(final(s)@ =~= old(s)@ + padded_text(n as nat, w as nat));
        }
    } else {
        proof {
            assert(final(s)@ =~= old(s)@ + padded_text(n as nat, w as nat));
        }
    }
}

/// `10^n`.
pub open spec fn pow10(n: nat) -> nat
    decreases n,
{
    if n == 0 {
        1
    } else {
        10 * pow10((n - 1) as nat)
    }
}

/// `v` hundredths, thousandths... (`shown` places) written with a decimal
/// point, or as a whole number where `shown` is zero.
pub open spec fn fixed_text(v: nat, shown: nat) -> Seq<char> {
    if shown == 0 {
        dec_text(v)
    } else {
        dec_text(v / pow10(shown)) + seq!['.'] + padded_text(v % pow10(shown), shown)
    }
}

/// `units` counted in `10^scale`ths, rounded half up to `shown` places.
pub open spec fn rounded_units(units: nat, scale: nat, shown: nat) -> nat {
    let p = pow10((scale - shown) as nat);
    (units + p / 2) / p
}

/// The text of an amount of `units` counted in `10^scale`ths with `shown`
/// places after the point, rounded half up.
pub open spec fn scaled_text(units: nat, scale: nat, shown: nat) -> Seq<char> {
    fixed_text(rounded_units(units, scale, shown), shown)
}

fn pow10_exec(n: u32) -> (r: u128)
    requires
        n <= 20,
    ensures
        r as nat == pow10(n as nat),
        1 <= r <= 100_000_000_000_000_000_000u128,
    decreases n,
{
    proof {
        lemma_pow10_mono(n as nat, 20);
        assert(pow10(20) == 100_000_000_000_000_000_000u128) by {
            reveal_with_fuel(pow10, 21);
        }
        lemma_pow10_mono(0, n as nat);
    }
    if n == 0 {
        1
    } else {
        let q = pow10_exec(n - 1);
        10 * q
    }
}

proof fn lemma_pow10_mono(a: nat, b: nat)
    requires
        a <= b,
    ensures
        pow10(a) <= pow10(b),
    decreases b,
{
    if a < b {
        lemma_pow10_mono(a, (b - 1) as nat);
    }
}

/// Appends an amount of `units` counted in `10^scale`ths, rounded half up to
/// `shown` places after the point.
pub fn push_scaled(s: &mut String, units: u64, scale: u32, shown: u32)
    requires
        shown <= scale <= 20,
    ensures
        final(s)@ == old(s)@ + scaled_text(units as nat, scale as nat, shown as nat),
{
    let p = pow10_exec(scale - shown);
    let r = (units as u128 + p / 2) / p;
    if shown == 0 {
        push_decimal(s, r);
    } else {
        let q = pow10_exec(shown);
        push_decimal(s, r / q);
        push_char(s, '.');
        push_padded(s, r % q, shown);
    }
    assert(final(s)@ =~= old(s)@ + scaled_text(units as nat, scale as nat, shown as nat));
}

/// A signed change in hundredths of a percent, as `+4.20%` or `-0.05%`.
pub open spec fn change_text(v: int) -> Seq<char> {
    let sign = if v >= 0 { '+' } else { '-' };
    let mag = if v >= 0 { v } else { -v };
    seq![sign] + fixed_text(mag as nat, 2) + seq!['%']
}

/// A dollar amount given in cents: millions with two places and an `M`,
/// thousands with one place and a `K`, else dollars with two places.
pub open spec fn dollar_text(cents: nat) -> Seq<char> {
    if cents >= 100_000_000 {
        seq!['$'] + scaled_text(cents, 8, 2) + seq!['M']
    } else if cents >= 100_000 {
        seq!['$'] + scaled_text(cents, 5, 1) + seq!['K']
    } else {
        seq!['$'] + scaled_text(cents, 2, 2)
    }
}

/// A price given in `10^10`ths of a dollar: four places from one dollar up,
/// six from one cent up, else ten.
pub open spec fn price_text(units: nat) -> Seq<char> {
    if units >= 10_000_000_000 {
        seq!['$'] + scaled_text(units, 10, 4)
    } else if units >= 100_000_000 {
        seq!['$'] + scaled_text(units, 10, 6)
    } else {
        seq!['$'] + scaled_text(units, 10, 10)
    }
}

/// Appends [`change_text`] of `v` hundredths of a percent.
pub fn push_change(s: &mut String, v: i64)
    ensures
        final(s)@ == old(s)@ + change_text(v as int),
{
    let mag: u64 = if v >= 0 {
        v as u64
    } else {
        (-(v as i128)) as u64
    };
    push_char(s, if v >= 0 { '+' } else { '-' });
    push_scaled(s, mag, 2, 2);
    push_char(s, '%');
    proof {
        assert(rounded_units(mag as nat, 2, 2) == mag) by {
            assert(pow10(0) == 1);
            assert(1nat / 2 == 0);
            let m = mag as nat;
            assert((m + 0) / 1 == m) by (nonlinear_arith);
        }
    }
    assert(final(s)@ =~= old(s)@ + change_text(v as int));
}

/// A signed change in hundredths of a percent, as `+4.20%` or `-0.05%`.
pub fn format_change(v: i64) -> (r: String)
    ensures
        r@ == change_text(v as int),
{
    let mut r = String::new();
    push_change(&mut r, v);
    assert(r@ =~= change_text(v as int));
    r
}

/// A dollar amount given in cents, in the short form of [`dollar_text`].
pub fn format_dollar(cents: u64) -> (r: String)
    ensures
        r@ == dollar_text(cents as nat),
{
    let mut r = String::new();
    push_char(&mut r, '$');
    if cents >= 100_000_000 {
        push_scaled(&mut r, cents, 8, 2);
        push_char(&mut r, 'M');
    } else if cents >= 100_000 {
        push_scaled(&mut r, cents, 5, 1);
        push_char(&mut r, 'K');
    } else {
        push_scaled(&mut r, cents, 2, 2);
    }
    assert(r@ =~= dollar_text(cents as nat));
    r
}

/// A share given in hundredths of a percent, with one place, as `42.5%`.
pub fn format_percent(hundredths: u64) -> (r: String)
    ensures
        r@ == scaled_text(hundredths as nat, 2, 1) + seq!['%'],
{
    let mut r = String::new();
    push_scaled(&mut r, hundredths, 2, 1);
    push_char(&mut r, '%');
    assert(r@ =~= scaled_text(hundredths as nat, 2, 1) + seq!['%']);
    r
}

/// A dollar amount given in cents, rounded to whole dollars, as `$1235`.
pub fn format_whole_dollars(cents: u64) -> (r: String)
    ensures
        r@ == seq!['$'] + scaled_text(cents as nat, 2, 0),
{
    let mut r = String::new();
    push_char(&mut r, '$');
    push_scaled(&mut r, cents, 2, 0);
    assert(r@ =~= seq!['$'] + scaled_text(cents as nat, 2, 0));
    r
}

/// A price given in `10^10`ths of a dollar, in the form of [`price_text`].
pub fn format_price(units: u64) -> (r: String)
    ensures
        r@ == price_text(units as nat),
{
    let mut r = String::new();
    push_char(&mut r, '$');
    if units >= 10_000_000_000 {
        push_scaled(&mut r, units, 10, 4);
    } else if units >= 100_000_000 {
        push_scaled(&mut r, units, 10, 6);
    } else {
        push_scaled(&mut r, units, 10, 10);
    }
    assert(r@ =~= price_text(units as nat));
    r
}

/// Whether `c` has the Unicode `White_Space` property.
pub open spec fn is_ws(c: char) -> bool {
    ('\u{9}' <= c && c <= '\u{d}') || c == ' ' || c == '\u{85}' || c == '\u{a0}'
        || c == '\u{1680}' || ('\u{2000}' <= c && c <= '\u{200a}') || c == '\u{2028}'
        || c == '\u{2029}' || c == '\u{202f}' || c == '\u{205f}' || c == '\u{3000}'
}

/// Executable form of [`is_ws`].
pub fn is_whitespace(c: char) -> (r: bool)
    ensures
        r == is_ws(c),
{
    ('\u{9}' <= c && c <= '\u{d}') || c == ' ' || c == '\u{85}' || c == '\u{a0}'
        || c == '\u{1680}' || ('\u{2000}' <= c && c <= '\u{200a}') || c == '\u{2028}'
        || c == '\u{2029}' || c == '\u{202f}' || c == '\u{205f}' || c == '\u{3000}'
}

/// Number of leading whitespace characters of `s`.
pub open spec fn lead_ws(s: Seq<char>) -> nat
    decreases s.len(),
{
    if s.len() > 0 && is_ws(s[0]) {
        1 + lead_ws(s.drop_first())
    } else {
        0
    }
}

/// Number of trailing whitespace characters of `s`.
pub open spec fn trail_ws(s: Seq<char>) -> nat
    decreases s.len(),
{
    if s.len() > 0 && is_ws(s.last()) {
        1 + trail_ws(s.drop_last())
    } else {
        0
    }
}

/// `s` without its leading and trailing whitespace.
pub open spec fn trimmed(s: Seq<char>) -> Seq<char> {
    let t = s.skip(lead_ws(s) as int);
    t.take(t.len() - trail_ws(t))
}

/// A count `k` of leading whitespace characters, followed by a character that
/// is not whitespace or by the end, is `lead_ws`.
proof fn lemma_lead_ws_from(s: Seq<char>, k: int)
    requires
        0 <= k <= s.len(),
        forall|i: int| 0 <= i < k ==> is_ws(#[trigger] s[i]),
        k < s.len() ==> !is_ws(s[k]),
    ensures
        lead_ws(s) == k,
    decreases k,
{
    if k > 0 {
        assert forall|i: int| 0 <= i < k - 1 implies is_ws(#[trigger] s.drop_first()[i]) by {
            assert(s.drop_first()[i] == s[i + 1]);
        }
        lemma_lead_ws_from(s.drop_first(), k - 1);
    }
}

proof fn lemma_trail_ws_from(s: Seq<char>, k: int)
    requires
        0 <= k <= s.len(),
        forall|i: int| s.len() - k <= i < s.len() ==> is_ws(#[trigger] s[i]),
        k < s.len() ==> !is_ws(s[s.len() - k - 1]),
    ensures
        trail_ws(s) == k,
    decreases k,
{
    if k > 0 {
        assert forall|i: int| s.len() - 1 - (k - 1) <= i < s.len() - 1 implies is_ws(
            #[trigger] s.drop_last()[i],
        ) by {
            assert(s.drop_last()[i] == s[i]);
        }
        lemma_trail_ws_from(s.drop_last(), k - 1);
    }
}

/// Text made of whitespace alone trims to nothing.
pub proof fn lemma_blank_trims_empty(s: Seq<char>)
    requires
        forall|i: int| 0 <= i < s.len() ==> is_ws(#[trigger] s[i]),
    ensures
        trimmed(s).len() == 0,
{
    lemma_lead_ws_from(s, s.len() as int);
}

/// A copy of `s` without leading and trailing whitespace.
pub fn trim(s: &str) -> (r: String)
    ensures
        r@ == trimmed(s@),
{
    let n = s.unicode_len();
    let mut a: usize = 0;
    while a < n && is_whitespace(s.get_char(a))
        invariant
            n == s@.len(),
            a <= n,
            forall|i: int| 0 <= i < a ==> is_ws(#[trigger] s@[i]),
        decreases n - a,
    {
        a = a + 1;
    }
    let mut b: usize = n;
    while b > a && is_whitespace(s.get_char(b - 1))
        invariant
            n == s@.len(),
            a <= b <= n,
            forall|i: int| b <= i < n ==> is_ws(#[trigger] s@[i]),
        decreases b,
    {
        b = b - 1;
    }
    let r = String::from_str(s.substring_char(a, b));
    proof {
        lemma_lead_ws_from(s@, a as int);
        let t = s@.skip(a as int);
        assert forall|i: int| t.len() - (n - b) <= i < t.len() implies is_ws(#[trigger] t[i]) by {
            assert(t[i] == s@[i + a]);
        }
        if n - b < t.len() {
            assert(t[t.len() - (n - b) - 1] == s@[b - 1]);
        }
        lemma_trail_ws_from(t, n - b);
        assert(r@ =~= trimmed(s@));
    }
    r
}

pub open spec fn is_digit(c: char) -> bool {
    '0' <= c && c <= '9'
}

pub open spec fn all_digits(s: Seq<char>) -> bool {
    forall|i: int| 0 <= i < s.len() ==> is_digit(#[trigger] s[i])
}

/// The number that the decimal digits `s` denote (zero for no digits).
pub open spec fn digits_val(s: Seq<char>) -> nat
    decreases s.len(),
{
    if s.len() == 0 {
        0
    } else {
        digits_val(s.drop_last()) * 10 + (s.last() as nat - 48) as nat
    }
}

/// `s` without one leading `+`.
pub open spec fn unsigned_body(s: Seq<char>) -> Seq<char> {
    if s.len() > 0 && s[0] == '+' {
        s.drop_first()
    } else {
        s
    }
}

/// The unsigned integer that `s` spells: an optional `+` and one or more
/// decimal digits, nothing else.
pub open spec fn uint_of(s: Seq<char>) -> Option<nat> {
    let b = unsigned_body(s);
    if b.len() > 0 && all_digits(b) {
        Some(digits_val(b))
    } else {
        None
    }
}

/// Index of the first `.` in `s`, or its length.
pub open spec fn dot_index(s: Seq<char>) -> nat
    decreases s.len(),
{
    if s.len() == 0 || s[0] == '.' {
        0
    } else {
        1 + dot_index(s.drop_first())
    }
}

/// The fraction digits `f` cut or padded with zeros to `places` digits.
pub open spec fn frac_digits(f: Seq<char>, places: nat) -> Seq<char> {
    if f.len() >= places {
        f.take(places as int)
    } else {
        f + Seq::new((places - f.len()) as nat, |i: int| '0')
    }
}

/// The amount that `s` spells in units of a `10^places`th: an optional `+`,
/// digits, and optionally a `.` and more digits, with one digit at least.
/// Fraction digits past `places` are dropped.
pub open spec fn fixed_of(s: Seq<char>, places: nat) -> Option<nat> {
    let b = unsigned_body(s);
    let k = dot_index(b) as int;
    let ip = b.take(k);
    let fp = if k < b.len() { b.skip(k + 1) } else { Seq::empty() };
    if all_digits(ip) && all_digits(fp) && ip.len() + fp.len() > 0 {
        Some(digits_val(ip + frac_digits(fp, places)))
    } else {
        None
    }
}

/// The result of fitting an optional natural number into a `u64`.
pub open spec fn fit_u64(v: Option<nat>) -> Option<u64> {
    match v {
        Some(n) => if n <= u64::MAX { Some(n as u64) } else { None },
        None => None,
    }
}

proof fn lemma_digits_val_prefix_mono(s: Seq<char>, j: int, k: int)
    requires
        0 <= j <= k <= s.len(),
    ensures
        digits_val(s.take(j)) <= digits_val(s.take(k)),
    decreases k - j,
{
    if j < k {
        lemma_digits_val_prefix_mono(s, j, k - 1);
        assert(s.take(k).drop_last() =~= s.take(k - 1));
    }
}

/// The value of a sequence of digits, where it fits in a `u64`.
fn digits_value(v: &Vec<char>) -> (r: Option<u64>)
    ensures
        r == (if all_digits(v@) { fit_u64(Some(digits_val(v@))) } else { None }),
{
    let mut i: usize = 0;
    while i < v.len()
        invariant
            i <= v@.len(),
            all_digits(v@.take(i as int)),
        decreases v@.len() - i,
    {
        if !('0' <= v[i] && v[i] <= '9') {
            return None;
        }
        assert(v@.take(i + 1) =~= v@.take(i as int).push(v@[i as int]));
        i = i + 1;
    }
    assert(v@.take(i as int) =~= v@);
    let mut acc: u64 = 0;
    let mut j: usize = 0;
    while j < v.len()
        invariant
            j <= v@.len(),
            all_digits(v@),
            acc as nat == digits_val(v@.take(j as int)),
        decreases v@.len() - j,
    {
        let d = (v[j] as u32 - 48) as u64;
        assert(v@.take(j + 1).drop_last() =~= v@.take(j as int));
        proof {
            lemma_digits_val_prefix_mono(v@, j + 1, v@.len() as int);
            assert(v@.take(v@.len() as int) =~= v@);
        }
        match acc.checked_mul(10) {
            Some(m) => match m.checked_add(d) {
                Some(t) => {
                    acc = t;
                },
                None => {
                    return None;
                },
            },
            None => {
                return None;
            },
        }
        j = j + 1;
    }
    assert(v@.take(j as int) =~= v@);
    Some(acc)
}

/// The characters of `s` from `from` to its end, as a vector.
fn chars_from(s: &str, from: usize) -> (r: Vec<char>)
    requires
        from <= s@.len(),
    ensures
        r@ == s@.skip(from as int),
{
    let n = s.unicode_len();
    let mut r: Vec<char> = Vec::new();
    let mut i: usize = from;
    while i < n
        invariant
            n == s@.len(),
            from <= i <= n,
            r@ == s@.subrange(from as int, i as int),
        decreases n - i,
    {
        r.push(s.get_char(i));
        i = i + 1;
        assert(r@ =~= s@.subrange(from as int, i as int));
    }
    assert(r@ =~= s@.skip(from as int));
    r
}

/// Where the body of an unsigned number begins: after one leading `+`.
fn body_start(s: &str) -> (k: usize)
    ensures
        k <= s@.len(),
        s@.skip(k as int) == unsigned_body(s@),
{
    let n = s.unicode_len();
    if n > 0 && s.get_char(0) == '+' {
        assert(s@.skip(1) =~= s@.drop_first());
        1
    } else {
        assert(s@.skip(0) =~= s@);
        0
    }
}

/// Parses an unsigned integer: an optional `+` and decimal digits. `None`
/// where the text is not of that form or the value exceeds `u64::MAX`.
pub fn parse_u64(s: &str) -> (r: Option<u64>)
    ensures
        r == fit_u64(uint_of(s@)),
{
    let k = body_start(s);
    let v = chars_from(s, k);
    if v.len() == 0 {
        None
    } else {
        digits_value(&v)
    }
}

proof fn lemma_dot_index(s: Seq<char>)
    ensures
        dot_index(s) <= s.len(),
        forall|i: int| 0 <= i < dot_index(s) ==> #[trigger] s[i] != '.',
        dot_index(s) < s.len() ==> s[dot_index(s) as int] == '.',
    decreases s.len(),
{
    if s.len() > 0 && s[0] != '.' {
        lemma_dot_index(s.drop_first());
        assert forall|i: int| 0 <= i < dot_index(s) implies #[trigger] s[i] != '.' by {
            if i > 0 {
                assert(s[i] == s.drop_first()[i - 1]);
            }
        }
    }
}

/// Parses a fixed-point amount in units of a `10^places`th: an optional `+`,
/// digits, optionally a `.` and more digits, with at least one digit; digits
/// past `places` after the point are dropped. `None` where the text is not of
/// that form or the amount exceeds `u64::MAX` units.
pub fn parse_fixed(s: &str, places: usize) -> (r: Option<u64>)
    ensures
        r == fit_u64(fixed_of(s@, places as nat)),
{
    let k = body_start(s);
    let b = chars_from(s, k);
    let ghost bs = b@;
    proof {
        lemma_dot_index(bs);
    }
    assert(bs == unsigned_body(s@));
    let mut digits: Vec<char> = Vec::new();
    let mut i: usize = 0;
    while i < b.len() && b[i] != '.'
        invariant
            bs == b@,
            i <= b@.len(),
            i <= dot_index(bs),
            dot_index(bs) <= bs.len(),
            forall|j: int| 0 <= j < dot_index(bs) ==> #[trigger] bs[j] != '.',
            dot_index(bs) < bs.len() ==> bs[dot_index(bs) as int] == '.',
            digits@ == bs.take(i as int),
            bs == unsigned_body(s@),
        decreases b@.len() - i,
    {
        digits.push(b[i]);
        i = i + 1;
        assert(digits@ =~= bs.take(i as int));
    }
    assert(i == dot_index(bs));
    let ghost ip = bs.take(i as int);
    let ghost fp = if i < bs.len() { bs.skip(i + 1) } else { Seq::<char>::empty() };
    let mut rest: Vec<char> = Vec::new();
    if i < b.len() {
        let mut j: usize = i + 1;
        while j < b.len()
            invariant
                bs == b@,
                i < j <= b@.len(),
                rest@ == bs.subrange(i + 1, j as int),
                bs == unsigned_body(s@),
            decreases b@.len() - j,
        {
            rest.push(b[j]);
            j = j + 1;
            assert(rest@ =~= bs.subrange(i + 1, j as int));
        }
        assert(rest@ =~= fp);
    } else {
        assert(rest@ =~= fp);
    }
    if digits.len() + rest.len() == 0 {
        return None;
    }
    let mut f: usize = 0;
    while f < rest.len()
        invariant
            rest@ == fp,
            bs == unsigned_body(s@),
            ip == bs.take(dot_index(bs) as int),
            fp == (if dot_index(bs) < bs.len() { bs.skip(dot_index(bs) as int + 1) } else { Seq::<char>::empty() }),
            f <= rest@.len(),
            all_digits(fp.take(f as int)),
        decreases rest@.len() - f,
    {
        if !('0' <= rest[f] && rest[f] <= '9') {
            assert(!is_digit(fp[f as int]));
            assert(bs == unsigned_body(s@));
            return None;
        }
        assert(fp.take(f + 1) =~= fp.take(f as int).push(fp[f as int]));
        f = f + 1;
    }
    assert(fp.take(f as int) =~= fp);
    let mut p: usize = 0;
    while p < places
        invariant
            rest@ == fp,
            bs == unsigned_body(s@),
            ip == bs.take(dot_index(bs) as int),
            fp == (if dot_index(bs) < bs.len() { bs.skip(dot_index(bs) as int + 1) } else { Seq::<char>::empty() }),
            all_digits(fp),
            digits@ == ip + frac_digits(fp, p as nat),
            p <= places,
        decreases places - p,
    {
        if p < rest.len() {
            digits.push(rest[p]);
            assert(frac_digits(fp, (p + 1) as nat) =~= frac_digits(fp, p as nat).push(fp[p as int]));
        } else {
            digits.push('0');
            assert(frac_digits(fp, (p + 1) as nat) =~= frac_digits(fp, p as nat).push('0'));
        }
        p = p + 1;
        assert(digits@ =~= ip + frac_digits(fp, p as nat));
    }
    proof {
        let fd = frac_digits(fp, places as nat);
        assert(bs == unsigned_body(s@));
        assert(all_digits(fd)) by {
            assert forall|q: int| 0 <= q < fd.len() implies is_digit(#[trigger] fd[q]) by {
                if q < fp.len() {
                    assert(fd[q] == fp[q]);
                }
            }
        }
        if !all_digits(ip) {
            let q = choose|q: int| 0 <= q < ip.len() && !is_digit(#[trigger] ip[q]);
            assert(digits@[q] == ip[q]);
        }
        if all_digits(ip) {
            assert forall|q: int| 0 <= q < digits@.len() implies is_digit(#[trigger] digits@[q]) by {
                if q >= ip.len() {
                    assert(digits@[q] == fd[q - ip.len()]);
                }
            }
        }
    }
    digits_value(&digits)
}

} // verus!
