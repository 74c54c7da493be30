//! Decimal text: formatting integers and fixed-point values, and reading them back.

use vstd::prelude::*;

verus! {

/// The ASCII character of a decimal digit.
pub open spec fn digit_char(d: int) -> char
    recommends
        0 <= d < 10,
{
    ((d + 48) as u32) as char
}

/// Whether `c` is an ASCII decimal digit.
pub open spec fn is_digit(c: char) -> bool {
    '0' <= c && c <= '9'
}

/// The value of an ASCII decimal digit.
pub open spec fn digit_value(c: char) -> int {
    (c as int) - 48
}

/// The decimal digits of `n`, most significant first, without leading zeros.
pub open spec fn digits_of(n: nat) -> Seq<char>
    decreases n,
{
    if n < 10 {
        seq![digit_char(n as int)]
    } else {
        digits_of(n / 10).push(digit_char((n % 10) as int))
    }
}

/// Relies on String::push: appends one character.
#[verifier::external_body]
pub(crate) fn push_char(s: &mut String, c: char)
    ensures
        final(s)@ == old(s)@.push(c),
{
    s.push(c)
}

fn digit_to_char(d: u64) -> (c: char)
    requires
        d < 10,
    ensures
        c == digit_char(d as int),
{
    ((d as u8) + 48u8) as char
}

/// Appends the decimal digits of `n` to `out`.
pub fn push_natural(out: &mut String, n: u64)
    ensures
        final(out)@ == old(out)@ + digits_of(n as nat),
    decreases n,
{
    if n >= 10 {
        push_natural(out, n / 10);
    }
    push_char(out, digit_to_char(n % 10));
}


/// Decimal text of an integer: a minus sign for negative values, then its digits.
pub open spec fn int_text(n: int) -> Seq<char> {
    if n < 0 {
        seq!['-'] + digits_of((-n) as nat)
    } else {
        digits_of(n as nat)
    }
}

/// Appends the decimal text of `n` to `out`.
pub fn push_integer(out: &mut String, n: i64)
    ensures
        final(out)@ == old(out)@ + int_text(n as int),
{
    if n < 0 {
        push_char(out, '-');
        let m: u64 = (-(n as i128)) as u64;
        push_natural(out, m);
        proof {
            assert(old(out)@ + int_text(n as int) =~= old(out)@.push('-') + digits_of(m as nat));
        }
    } else {
        push_natural(out, n as u64);
    }
}

/// A value given in hundredths, written with exactly two decimals ("-3.07" for -307).
pub open spec fn fixed2_text(h: int) -> Seq<char> {
    let m = if h < 0 { -h } else { h };
    (if h < 0 { seq!['-'] } else { Seq::<char>::empty() })
        + digits_of((m / 100) as nat)
        + seq!['.', digit_char((m % 100) / 10), digit_char(m % 10)]
}

/// Appends `h` hundredths written with two decimals.
pub fn push_fixed2(out: &mut String, h: i128)
    requires
        -0x40_0000_0000_0000_0000 < h < 0x40_0000_0000_0000_0000,
    ensures
        final(out)@ == old(out)@ + fixed2_text(h as int),
{
    let ghost start = out@;
    let m: u128 = if h < 0 { (-h) as u128 } else { h as u128 };
    if h < 0 {
        push_char(out, '-');
    }
    let ghost signed = out@;
    push_natural(out, (m / 100) as u64);
    push_char(out, '.');
    push_char(out, digit_to_char(((m % 100) / 10) as u64));
    push_char(out, digit_to_char((m % 10) as u64));
    proof {
        let sign = if h < 0 { seq!['-'] } else { Seq::<char>::empty() };
        assert(signed =~= start + sign);
        assert(out@ =~= start + fixed2_text(h as int));
    }
}

/// `n / d` rounded to the nearest integer, a tie going to the even neighbour.
pub open spec fn round_half_even(n: nat, d: nat) -> nat
    recommends
        d > 0,
{
    let q = n / d;
    let r = n % d;
    if 2 * r < d {
        q
    } else if 2 * r > d {
        q + 1
    } else if q % 2 == 0 {
        q
    } else {
        q + 1
    }
}

/// `n / d` rounded to the nearest integer, a tie going to the even neighbour, for a signed `n`.
pub open spec fn rounded_quotient(n: int, d: nat) -> int
    recommends
        d > 0,
{
    if n >= 0 {
        round_half_even(n as nat, d) as int
    } else {
        -(round_half_even((-n) as nat, d) as int)
    }
}

/// `n / d` rounded to the nearest integer, a tie going to the even neighbour.
pub fn round_div(n: u128, d: u128) -> (r: u128)
    requires
        d > 0,
    ensures
        r == round_half_even(n as nat, d as nat),
{
    let q = n / d;
    let rem = n % d;
    if d == 1 {
        assert(rem == 0);
        return q;
    }
    assert(q <= n / 2) by (nonlinear_arith)
        requires
            q == n / d,
            d >= 2,
    {
        vstd::arithmetic::div_mod::lemma_div_is_ordered_by_denominator(n as int, 2, d as int);
    }
    if rem < d - rem {
        q
    } else if rem > d - rem {
        q + 1
    } else if q % 2 == 0 {
        q
    } else {
        q + 1
    }
}

/// A quotient `n / d` rounded half to even is at most `b` where `n` is at most `d * b`.
pub proof fn lemma_rounded_at_most(n: nat, d: nat, b: nat)
    requires
        d > 0,
        n <= d * b,
    ensures
        round_half_even(n, d) <= b,
{
    let q = n / d;
    let r = n % d;
    vstd::arithmetic::div_mod::lemma_fundamental_div_mod(n as int, d as int);
    assert(q <= b) by (nonlinear_arith)
        requires
            n == d * q + r,
            0 <= r < d,
            n <= d * b,
    ;
    if q == b {
        assert(r == 0) by (nonlinear_arith)
            requires
                n == d * q + r,
                0 <= r,
                n <= d * b,
                q == b,
        ;
    }
}

/// How far a rounded quotient lies from the exact one: within half of one unit.
pub proof fn lemma_rounding_error(n: int, d: nat)
    requires
        d > 0,
    ensures
        -(d as int) <= 2 * (d as int) * rounded_quotient(n, d) - 2 * n <= d,
{
    let a: nat = if n >= 0 { n as nat } else { (-n) as nat };
    let q = a / d;
    let r = a % d;
    vstd::arithmetic::div_mod::lemma_fundamental_div_mod(a as int, d as int);
    assert(a == d * q + r);
    let k = round_half_even(a, d);
    assert(-(d as int) <= 2 * (d as int) * k - 2 * a <= d) by (nonlinear_arith)
        requires
            a == d * q + r,
            0 <= r < d,
            k == q || k == q + 1,
            k == q ==> 2 * r <= d,
            k == q + 1 ==> 2 * r >= d,
    {
    }
    if n < 0 {
        assert(2 * (d as int) * rounded_quotient(n, d) - 2 * n == -(2 * (d as int) * k - 2 * a)) by (nonlinear_arith)
            requires
                rounded_quotient(n, d) == -(k as int),
                n == -(a as int),
        {
        }
    }
}


/// Whether every character of `s` is a decimal digit.
pub open spec fn all_digits(s: Seq<char>) -> bool {
    forall|i: int| 0 <= i < s.len() ==> is_digit(#[trigger] s[i])
}

/// The number that a run of decimal digits writes.
pub open spec fn digits_value(s: Seq<char>) -> nat
    decreases s.len(),
{
    if s.len() == 0 {
        0
    } else {
        digits_value(s.drop_last()) * 10 + digit_value(s.last()) as nat
    }
}

/// The integer that `s` writes in decimal: an optional `+` or `-`, then one or more digits.
pub open spec fn decimal_value(s: Seq<char>) -> Option<int> {
    if s.len() > 0 && (s[0] == '-' || s[0] == '+') {
        let rest = s.drop_first();
        if rest.len() > 0 && all_digits(rest) {
            Some(
                if s[0] == '-' {
                    -(digits_value(rest) as int)
                } else {
                    digits_value(rest) as int
                },
            )
        } else {
            None
        }
    } else if s.len() > 0 && all_digits(s) {
        Some(digits_value(s) as int)
    } else {
        None
    }
}

/// The `i32` that `s` writes in decimal, if it writes one in range.
pub open spec fn i32_of_text(s: Seq<char>) -> Option<i32> {
    match decimal_value(s) {
        Some(v) => if i32::MIN <= v <= i32::MAX {
            Some(v as i32)
        } else {
            None
        },
        None => None,
    }
}

/// Digits written by `digits_of` read back as the same number.
pub proof fn lemma_digits_round_trip(n: nat)
    ensures
        digits_of(n).len() > 0,
        all_digits(digits_of(n)),
        digits_value(digits_of(n)) == n,
    decreases n,
{
    let d = n % 10;
    assert(digit_value(digit_char(d as int)) == d);
    if n >= 10 {
        lemma_digits_round_trip(n / 10);
        let s = digits_of(n);
        assert(s.drop_last() =~= digits_of(n / 10));
        assert(s.last() == digit_char(d as int));
        assert(n == (n / 10) * 10 + d);
        assert(digits_value(s) == digits_value(s.drop_last()) * 10 + digit_value(s.last()) as nat);
        assert(digits_value(s) == (n / 10) * 10 + d);
    } else {
        let s = digits_of(n);
        assert(s.drop_last() =~= Seq::<char>::empty());
        assert(digits_value(Seq::<char>::empty()) == 0);
        assert(digits_value(s) == digits_value(s.drop_last()) * 10 + digit_value(s.last()) as nat);
    }
}

/// An integer written by `int_text` reads back as the same integer.
pub proof fn lemma_int_text_round_trip(n: int)
    ensures
        decimal_value(int_text(n)) == Some(n),
{
    let m: nat = if n < 0 { (-n) as nat } else { n as nat };
    lemma_digits_round_trip(m);
    let d = digits_of(m);
    assert(is_digit(d[0]));
    if n < 0 {
        assert(int_text(n).drop_first() =~= d);
    }
}

/// Appending one digit to a run of digits: the value grows by a factor ten plus the digit.
proof fn lemma_digits_value_step(s: Seq<char>, lo: int, i: int)
    requires
        0 <= lo <= i < s.len(),
    ensures
        digits_value(s.subrange(lo, i + 1)) == digits_value(s.subrange(lo, i)) * 10 + digit_value(
            s[i],
        ) as nat,
{
    assert(s.subrange(lo, i + 1).drop_last() =~= s.subrange(lo, i));
}

fn char_digit(c: char) -> (r: Option<u64>)
    ensures
        r is Some <==> is_digit(c),
        r is Some ==> r->Some_0 == digit_value(c) && r->Some_0 < 10,
{
    if '0' <= c && c <= '9' {
        Some(((c as u32) - 48) as u64)
    } else {
        None
    }
}

/// Reads the value of the digits `s[lo..hi]`, held at `cap`; `None` if a character is not a digit.
fn read_digits(s: &str, lo: usize, hi: usize, cap: u64) -> (r: Option<u64>)
    requires
        lo <= hi <= s@.len(),
        cap < 0x1000_0000_0000_0000,
    ensures
        r is Some <==> all_digits(s@.subrange(lo as int, hi as int)),
        r is Some ==> r->Some_0 == if digits_value(s@.subrange(lo as int, hi as int)) < cap {
            digits_value(s@.subrange(lo as int, hi as int))
        } else {
            cap as nat
        },
{
    let mut acc: u64 = 0;
    let mut i: usize = lo;
    while i < hi
        invariant
            hi <= s@.len(),
            lo <= i <= hi,
            cap < 0x1000_0000_0000_0000,
            all_digits(s@.subrange(lo as int, i as int)),
            acc == if digits_value(s@.subrange(lo as int, i as int)) < cap {
                digits_value(s@.subrange(lo as int, i as int))
            } else {
                cap as nat
            },
        decreases hi - i,
    {
        let c = s.get_char(i);
        match char_digit(c) {
            None => {
                assert(!all_digits(s@.subrange(lo as int, hi as int))) by {
                    assert(s@.subrange(lo as int, hi as int)[i - lo] == c);
                }
                return None;
            },
            Some(d) => {
                proof {
                    lemma_digits_value_step(s@, lo as int, i as int);
                    let v = digits_value(s@.subrange(lo as int, i as int));
                    assert(v * 10 + d >= cap ==> (if v < cap { v } else { cap as nat }) * 10 + d
                        >= cap) by (nonlinear_arith);
                    assert(v >= cap ==> v * 10 + d >= cap) by (nonlinear_arith);
                    assert(s@.subrange(lo as int, i + 1) =~= s@.subrange(lo as int, i as int).push(
                        c,
                    ));
                }
                let next: u64 = acc * 10 + d;
                acc = if next < cap {
                    next
                } else {
                    cap
                };
                i = i + 1;
            },
        }
    }
    Some(acc)
}

/// Reads an `i32` written in decimal: an optional `+` or `-`, then one or more digits.
pub fn parse_i32(s: &str) -> (r: Option<i32>)
    ensures
        r == i32_of_text(s@),
{
    let n = s.unicode_len();
    if n == 0 {
        return None;
    }
    let first = s.get_char(0);
    let signed = first == '-' || first == '+';
    let lo: usize = if signed { 1 } else { 0 };
    if lo == n {
        return None;
    }
    let cap: u64 = 0x8000_0001;
    proof {
        if signed {
            assert(s@.drop_first() =~= s@.subrange(1, n as int));
        } else {
            assert(s@ =~= s@.subrange(0, n as int));
        }
    }
    match read_digits(s, lo, n, cap) {
        None => None,
        Some(v) => {
            if first == '-' {
                if v <= 0x8000_0000 {
                    Some((-(v as i64)) as i32)
                } else {
                    None
                }
            } else if v <= 0x7fff_ffff {
                Some(v as i32)
            } else {
                None
            }
        },
    }
}


/// Units of a reading in one whole: readings are read to twelve decimals.
pub const READING_SCALE: u64 = 1_000_000_000_000;

/// The largest reading, in units, that `reading_units` gives (a million whole); larger readings
/// are held at it.
pub const READING_CAP: u64 = 1_000_000_000_000_000_000;

/// Ten to the power `n`.
pub open spec fn pow10(n: nat) -> nat
    decreases n,
{
    if n == 0 {
        1
    } else {
        10 * pow10((n - 1) as nat)
    }
}

/// Whether `s` is digits, a point at index `k`, then digits, with digits on both sides.
pub open spec fn point_at(s: Seq<char>, k: int) -> bool {
    &&& 0 < k
    &&& k + 1 < s.len()
    &&& s[k] == '.'
    &&& all_digits(s.subrange(0, k))
    &&& all_digits(s.subrange(k + 1, s.len() as int))
}

/// The number of fraction digits read exactly.
pub open spec fn kept_decimals(f: Seq<char>) -> nat {
    if f.len() < 12 {
        f.len()
    } else {
        12
    }
}

/// The units that the fraction digits `f` write: exact up to twelve digits, rounded half up at
/// the thirteenth.
pub open spec fn fraction_units(f: Seq<char>) -> nat {
    digits_value(f.subrange(0, kept_decimals(f) as int)) * pow10((12 - kept_decimals(f)) as nat) + (
    if f.len() > 12 && digit_value(f[12]) >= 5 {
        1nat
    } else {
        0nat
    })
}

/// `v`, held at `READING_CAP`.
pub open spec fn capped_reading(v: nat) -> nat {
    if v < READING_CAP {
        v
    } else {
        READING_CAP as nat
    }
}

/// A non-negative reading written in decimal ("12", "12.345"), in units of `1 / READING_SCALE`
/// (exact to twelve decimals, rounded half up beyond) and held at `READING_CAP`; zero for text
/// that writes no such number.
pub open spec fn reading_units(s: Seq<char>) -> nat {
    if exists|k: int| point_at(s, k) {
        let k = choose|k: int| point_at(s, k);
        capped_reading(
            (digits_value(s.subrange(0, k)) * READING_SCALE + fraction_units(
                s.subrange(k + 1, s.len() as int),
            )) as nat,
        )
    } else if s.len() > 0 && all_digits(s) {
        capped_reading((digits_value(s) * READING_SCALE) as nat)
    } else {
        0
    }
}

/// A run of `m` digits writes less than ten to the `m`.
pub proof fn lemma_digits_value_below(s: Seq<char>)
    requires
        all_digits(s),
    ensures
        digits_value(s) < pow10(s.len()),
    decreases s.len(),
{
    if s.len() > 0 {
        let init = s.drop_last();
        assert(all_digits(init)) by {
            assert forall|i: int| 0 <= i < init.len() implies is_digit(#[trigger] init[i]) by {
                assert(init[i] == s[i]);
            }
        }
        lemma_digits_value_below(init);
        assert(is_digit(s[s.len() - 1]));
        assert(digits_value(s) == digits_value(init) * 10 + digit_value(s.last()) as nat);
        assert(pow10(s.len()) == 10 * pow10(init.len()));
    }
}

/// Whether all of `s[lo..hi]` are digits.
fn digits_only(s: &str, lo: usize, hi: usize) -> (r: bool)
    requires
        lo <= hi <= s@.len(),
    ensures
        r == all_digits(s@.subrange(lo as int, hi as int)),
{
    let mut i: usize = lo;
    while i < hi
        invariant
            hi <= s@.len(),
            lo <= i <= hi,
            all_digits(s@.subrange(lo as int, i as int)),
        decreases hi - i,
    {
        let c = s.get_char(i);
        if !('0' <= c && c <= '9') {
            assert(s@.subrange(lo as int, hi as int)[i - lo] == c);
            return false;
        }
        assert(s@.subrange(lo as int, i + 1) =~= s@.subrange(lo as int, i as int).push(c));
        i = i + 1;
    }
    true
}

fn fraction_digit(s: &str, i: usize) -> (r: u64)
    requires
        i < s@.len(),
        is_digit(s@[i as int]),
    ensures
        r == digit_value(s@[i as int]),
        r < 10,
{
    let c = s.get_char(i);
    ((c as u32) - 48) as u64
}

/// `v` times ten to the `e`, for `v` below ten to the `m` and `m + e` at most twelve.
fn scale_up(v: u64, m: usize, e: usize) -> (r: u64)
    requires
        v < pow10(m as nat),
        m + e <= 12,
    ensures
        r == v * pow10(e as nat),
        r < pow10((m + e) as nat),
{
    let mut x: u64 = v;
    let mut j: usize = 0;
    proof {
        lemma_pow10_twelve();
        lemma_pow10_monotone(m as nat, 12);
        assert(pow10(0) == 1);
        assert(v * pow10(0) == v);
    }
    while j < e
        invariant
            j <= e,
            m + e <= 12,
            x == v * pow10(j as nat),
            x < pow10((m + j) as nat),
            pow10(12) == 1_000_000_000_000,
        decreases e - j,
    {
        proof {
            lemma_pow10_monotone((m + j + 1) as nat, 12);
            assert(pow10((j + 1) as nat) == 10 * pow10(j as nat));
            assert(pow10((m + j + 1) as nat) == 10 * pow10((m + j) as nat));
            assert(v * pow10((j + 1) as nat) == (v * pow10(j as nat)) * 10) by (nonlinear_arith)
                requires pow10((j + 1) as nat) == 10 * pow10(j as nat);
        }
        x = x * 10;
        j = j + 1;
    }
    x
}

proof fn lemma_pow10_twelve()
    ensures
        pow10(12) == 1_000_000_000_000,
{
    reveal_with_fuel(pow10, 13);
}

proof fn lemma_pow10_monotone(a: nat, b: nat)
    requires
        a <= b,
    ensures
        pow10(a) <= pow10(b),
        pow10(a) >= 1,
    decreases b,
{
    if a < b {
        lemma_pow10_monotone(a, (b - 1) as nat);
    } else if a > 0 {
        lemma_pow10_monotone((a - 1) as nat, (a - 1) as nat);
    }
}

/// Reads a non-negative decimal reading in units: see `reading_units`.
pub fn parse_reading(s: &str) -> (r: u64)
    ensures
        r == reading_units(s@),
{
    let n = s.unicode_len();
    let ghost t = s@;
    let mut k: usize = 0;
    let mut scanning = true;
    while scanning && k < n
        invariant
            t == s@,
            n == t.len(),
            k <= n,
            all_digits(t.subrange(0, k as int)),
            !scanning ==> k < n && !is_digit(t[k as int]),
        decreases n - k + (if scanning { 1int } else { 0 }),
    {
        let c = s.get_char(k);
        if '0' <= c && c <= '9' {
            assert(t.subrange(0, k + 1) =~= t.subrange(0, k as int).push(t[k as int]));
            k = k + 1;
        } else {
            scanning = false;
        }
    }
    let int_cap: u64 = 1_000_000;
    if k == n {
        proof {
            assert(t =~= t.subrange(0, n as int));
            assert forall|j: int| !point_at(t, j) by {
                if point_at(t, j) {
                    assert(t.subrange(0, n as int)[j] == t[j]);
                }
            }
        }
        if n == 0 {
            return 0;
        }
        match read_digits(s, 0, n, int_cap) {
            Some(v) => {
                let h = v * READING_SCALE;
                proof {
                    let w = digits_value(t);
                    assert(w >= int_cap ==> w * READING_SCALE >= READING_CAP) by (nonlinear_arith)
                        requires
                            int_cap == 1_000_000u64,
                            READING_SCALE == 1_000_000_000_000u64,
                            READING_CAP == 1_000_000_000_000_000_000u64,
                    ;
                }
                return if h < READING_CAP {
                    h
                } else {
                    READING_CAP
                };
            },
            None => {
                return 0;
            },
        }
    }
    // here t[k] is not a digit
    assert(!is_digit(t[k as int]));
    let point = s.get_char(k);
    if point != '.' || k == 0 || k + 1 >= n || !digits_only(s, k + 1, n) {
        proof {
            assert(!all_digits(t)) by {
                assert(!is_digit(t[k as int]));
            }
            assert forall|j: int| !point_at(t, j) by {
                if point_at(t, j) {
                    if j < k {
                        assert(t.subrange(0, k as int)[j] == t[j]);
                    } else if j > k {
                        assert(t.subrange(0, j)[k as int] == t[k as int]);
                    }
                }
            }
        }
        return 0;
    }
    proof {
        assert(point_at(t, k as int));
        assert forall|j: int| point_at(t, j) implies j == k by {
            if j < k {
                assert(t.subrange(0, k as int)[j] == t[j]);
            } else if j > k {
                assert(t.subrange(0, j)[k as int] == t[k as int]);
            }
        }
    }
    let iv = match read_digits(s, 0, k, int_cap) {
        Some(v) => v,
        None => 0,
    };
    let ghost f = t.subrange(k + 1, n as int);
    let m: usize = if n - (k + 1) < 12 { n - (k + 1) } else { 12 };
    assert(m == kept_decimals(f));
    proof {
        assert(f.subrange(0, m as int) =~= t.subrange(k + 1, k + 1 + m));
        assert(all_digits(f.subrange(0, m as int))) by {
            assert forall|i: int| 0 <= i < m implies is_digit(#[trigger] f.subrange(0, m as int)[i]) by {
                assert(f.subrange(0, m as int)[i] == f[i]);
            }
        }
        lemma_digits_value_below(f.subrange(0, m as int));
        lemma_pow10_monotone(m as nat, 12);
        lemma_pow10_twelve();
    }
    let fv = match read_digits(s, k + 1, k + 1 + m, 10_000_000_000_000) {
        Some(v) => v,
        None => 0,
    };
    let mut frac: u64 = scale_up(fv, m, 12 - m);
    proof {
        lemma_pow10_twelve();
    }
    if n - (k + 1) > 12 {
        assert(f[12] == t[k + 13]);
        if fraction_digit(s, k + 13) >= 5 {
            frac = frac + 1;
        }
    }
    assert(frac == fraction_units(f));
    assert(frac <= READING_SCALE);
    let h = iv * READING_SCALE + frac;
    proof {
        let v = digits_value(t.subrange(0, k as int));
        assert(v >= int_cap ==> v * READING_SCALE + frac >= READING_CAP) by (nonlinear_arith)
            requires
                int_cap == 1_000_000u64,
                READING_SCALE == 1_000_000_000_000u64,
                READING_CAP == 1_000_000_000_000_000_000u64,
        ;
    }
    if h < READING_CAP {
        h
    } else {
        READING_CAP
    }
}

/// Whether two texts hold the same characters.
pub fn same_text(a: &str, b: &str) -> (r: bool)
    ensures
        r == (a@ == b@),
{
    let n = a.unicode_len();
    if n != b.unicode_len() {
        return false;
    }
    let mut i: usize = 0;
    while i < n
        invariant
            n == a@.len() == b@.len(),
            i <= n,
            forall|j: int| 0 <= j < i ==> a@[j] == b@[j],
        decreases n - i,
    {
        if a.get_char(i) != b.get_char(i) {
            return false;
        }
        i = i + 1;
    }
    assert(a@ =~= b@);
    true
}


/// `n` counted in hundredths of `unit`: `n * 100 / unit`, rounded half to even.
pub open spec fn hundredths_of(n: int, unit: nat) -> int {
    rounded_quotient(n * 100, unit)
}

/// `n` counted in hundredths of `unit`, rounded half to even.
pub fn hundredths(n: i128, unit: u128) -> (r: i128)
    requires
        -0x1_0000_0000_0000_0000 < n < 0x1_0000_0000_0000_0000,
        unit >= 10,
    ensures
        r == hundredths_of(n as int, unit as nat),
        -0x40_0000_0000_0000_0000 < r < 0x40_0000_0000_0000_0000,
{
    let m: u128 = if n < 0 { ((-n) as u128) * 100 } else { (n as u128) * 100 };
    let q = round_div(m, unit);
    proof {
        vstd::arithmetic::div_mod::lemma_div_is_ordered_by_denominator(m as int, 10, unit as int);
        assert(m / 10 < 0x20_0000_0000_0000_0000);
        if n < 0 {
            assert((-n) * 100 == -(n * 100));
        }
    }
    if n < 0 {
        -(q as i128)
    } else {
        q as i128
    }
}

} // verus!
