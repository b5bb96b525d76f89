//! Decimal text: reading integers and fixed-point decimals from text, and
//! writing them back.

use vstd::prelude::*;
use crate::fixed::{fits_i64, SCALE};

verus! {

/// Whether `c` is an ASCII decimal digit.
pub open spec fn is_digit(c: char) -> bool {
    '0' <= c && c <= '9'
}

/// The value of the digit `c`.
pub open spec fn digit_value(c: char) -> int {
    (c as int) - ('0' as int)
}

/// Whether every character of `s` is a digit.
pub open spec fn all_digits(s: Seq<char>) -> bool {
    forall|i: int| 0 <= i < s.len() ==> is_digit(#[trigger] s[i])
}

/// The number that the digits `s` spell (zero for no digits).
pub open spec fn digits_value(s: Seq<char>) -> int
    decreases s.len(),
{
    if s.len() == 0 {
        0
    } else {
        digits_value(s.drop_last()) * 10 + digit_value(s.last())
    }
}

/// The digit character of `d` (`0 <= d < 10`).
pub open spec fn digit_char(d: int) -> char {
    if d == 0 {
        '0'
    } else if d == 1 {
        '1'
    } else if d == 2 {
        '2'
    } else if d == 3 {
        '3'
    } else if d == 4 {
        '4'
    } else if d == 5 {
        '5'
    } else if d == 6 {
        '6'
    } else if d == 7 {
        '7'
    } else if d == 8 {
        '8'
    } else {
        '9'
    }
}

/// The decimal digits of `n`, without leading zeros ("0" for zero).
pub open spec fn nat_digits(n: nat) -> Seq<char>
    decreases n,
{
    if n < 10 {
        seq![digit_char(n as int)]
    } else {
        nat_digits(n / 10).push(digit_char((n % 10) as int))
    }
}

/// Ten to the power `k`.
pub open spec fn pow10(k: nat) -> int
    decreases k,
{
    if k == 0 {
        1
    } else {
        10 * pow10((k - 1) as nat)
    }
}

/// The length of the sign of a number's text: one when it starts with `-`
/// or `+`.
pub open spec fn sign_len(s: Seq<char>) -> int {
    if s.len() > 0 && (s[0] == '-' || s[0] == '+') {
        1
    } else {
        0
    }
}

/// Whether a number's text starts with `-`.
pub open spec fn is_negative(s: Seq<char>) -> bool {
    s.len() > 0 && s[0] == '-'
}

/// The integer that `s` spells: an optional sign and one digit or more.
pub open spec fn integer_text_value(s: Seq<char>) -> Option<int> {
    let body = s.subrange(sign_len(s), s.len() as int);
    if body.len() == 0 || !all_digits(body) {
        None
    } else if is_negative(s) {
        Some(-digits_value(body))
    } else {
        Some(digits_value(body))
    }
}

/// What `i64::from_str` reads from `s`: the integer it spells, when that
/// fits in an `i64`.
pub open spec fn spec_parse_i64(s: Seq<char>) -> Option<i64> {
    match integer_text_value(s) {
        Some(v) => if fits_i64(v) {
            Some(v as i64)
        } else {
            None
        },
        None => None,
    }
}

/// The position of the first `.` in `s` at or after `from`, or the length.
pub open spec fn first_dot(s: Seq<char>, from: int) -> int
    decreases s.len() - from,
{
    if from >= s.len() {
        s.len() as int
    } else if s[from] == '.' {
        from
    } else {
        first_dot(s, from + 1)
    }
}

/// The fixed-point value of the decimal text `s`: an optional sign, digits,
/// and optionally a point followed by digits, with at least one digit in
/// all. Fractional digits beyond the eighth are dropped.
pub open spec fn decimal_text_value(s: Seq<char>) -> Option<int> {
    let a = sign_len(s);
    let d = first_dot(s, a);
    let f = if d < s.len() { d + 1 } else { s.len() as int };
    let ip = s.subrange(a, d);
    let fp = s.subrange(f, s.len() as int);
    if ip.len() + fp.len() == 0 || !all_digits(ip) || !all_digits(fp) {
        None
    } else {
        let k = if fp.len() <= 8 { fp.len() } else { 8 };
        let units = digits_value(ip) * SCALE + digits_value(fp.take(k as int)) * pow10((8 - k) as nat);
        Some(if is_negative(s) { -units } else { units })
    }
}

/// The fixed-point decimal read from `s`, when it fits in an `i64`.
pub open spec fn spec_parse_decimal(s: Seq<char>) -> Option<i64> {
    match decimal_text_value(s) {
        Some(v) => if fits_i64(v) {
            Some(v as i64)
        } else {
            None
        },
        None => None,
    }
}

proof fn lemma_digits_value_nonneg(s: Seq<char>)
    requires
        all_digits(s),
    ensures
        digits_value(s) >= 0,
    decreases s.len(),
{
    if s.len() > 0 {
        lemma_digits_value_nonneg(s.drop_last());
    }
}

proof fn lemma_digits_value_prefix_grows(s: Seq<char>, i: int)
    requires
        all_digits(s),
        0 <= i <= s.len(),
    ensures
        digits_value(s.take(i)) <= digits_value(s),
    decreases s.len() - i,
{
    if i < s.len() {
        lemma_digits_value_prefix_grows(s, i + 1);
        assert(s.take(i + 1).drop_last() =~= s.take(i));
        lemma_digits_value_nonneg(s.take(i));
        assert(is_digit(s[i]));
    } else {
        assert(s.take(i) =~= s);
    }
}

/// The digits of `s` from `from` to `to`: their value when all are digits and
/// the value is at most `cap`; `None` otherwise.
fn digits_run(s: &str, from: usize, to: usize, cap: u128) -> (r: Option<u128>)
    requires
        from <= to <= s@.len(),
        cap <= 0x1_0000_0000_0000_0000,
    ensures
        r is Some <==> (all_digits(s@.subrange(from as int, to as int)) && digits_value(
            s@.subrange(from as int, to as int),
        ) <= cap),
        r matches Some(v) ==> v == digits_value(s@.subrange(from as int, to as int)),
{
    let ghost run = s@.subrange(from as int, to as int);
    let mut acc: u128 = 0;
    let mut i: usize = from;
    while i < to
        invariant
            from <= i <= to <= s@.len(),
            run == s@.subrange(from as int, to as int),
            cap <= 0x1_0000_0000_0000_0000,
            all_digits(run.take(i - from)),
            acc == digits_value(run.take(i - from)),
            acc <= cap,
        decreases to - i,
    {
        let c = s.get_char(i);
        proof {
            assert(run[i - from] == c);
            assert(run.take(i - from + 1).drop_last() =~= run.take(i - from));
        }
        if !('0' <= c && c <= '9') {
            proof {
                assert(!is_digit(run[i - from]));
            }
            return None;
        }
        let d: u128 = (c as u32 - '0' as u32) as u128;
        let next: u128 = acc * 10 + d;
        proof {
            assert(all_digits(run.take(i - from + 1)));
            assert(next == digits_value(run.take(i - from + 1)));
        }
        if next > cap {
            proof {
                let k = i - from + 1;
                if all_digits(run) {
                    lemma_digits_value_prefix_grows(run, k);
                }
            }
            return None;
        }
        acc = next;
        i = i + 1;
    }
    proof {
        assert(run.take(to - from) =~= run);
    }
    Some(acc)
}

/// Reads an `i64` as `i64::from_str` does: an optional `+` or `-` and one
/// digit or more, the value within range.
pub fn parse_i64(s: &str) -> (r: Option<i64>)
    ensures
        r == spec_parse_i64(s@),
{
    let n = s.unicode_len();
    let mut start: usize = 0;
    let mut negative = false;
    if n > 0 {
        let c = s.get_char(0);
        if c == '-' {
            start = 1;
            negative = true;
        } else if c == '+' {
            start = 1;
        }
    }
    assert(start == sign_len(s@));
    assert(negative == is_negative(s@));
    if start == n {
        return None;
    }
    let v = match digits_run(s, start, n, 0x8000_0000_0000_0000) {
        Some(v) => v,
        None => {
            proof {
                let body = s@.subrange(start as int, n as int);
                if all_digits(body) {
                    assert(digits_value(body) > 0x8000_0000_0000_0000);
                }
            }
            return None;
        },
    };
    if negative {
        Some((-(v as i128)) as i64)
    } else if v <= 0x7fff_ffff_ffff_ffff {
        Some(v as i64)
    } else {
        None
    }
}

/// Appends the digit `d` to `out`.
fn push_digit(out: &mut String, d: u64)
    requires
        d < 10,
    ensures
        final(out)@ == old(out)@.push(digit_char(d as int)),
{
    let t: &str = if d == 0 {
        "0"
    } else if d == 1 {
        "1"
    } else if d == 2 {
        "2"
    } else if d == 3 {
        "3"
    } else if d == 4 {
        "4"
    } else if d == 5 {
        "5"
    } else if d == 6 {
        "6"
    } else if d == 7 {
        "7"
    } else if d == 8 {
        "8"
    } else {
        "9"
    };
    proof {
        reveal_strlit("0");
        reveal_strlit("1");
        reveal_strlit("2");
        reveal_strlit("3");
        reveal_strlit("4");
        reveal_strlit("5");
        reveal_strlit("6");
        reveal_strlit("7");
        reveal_strlit("8");
        reveal_strlit("9");
        assert(t@ =~= seq![digit_char(d as int)]);
    }
    out.append(t);
}

/// Appends the decimal digits of `n` to `out`.
fn push_nat(out: &mut String, n: u64)
    ensures
        final(out)@ == old(out)@ + nat_digits(n as nat),
    decreases n,
{
    if n >= 10 {
        push_nat(out, n / 10);
    }
    push_digit(out, n % 10);
    proof {
        if n >= 10 {
            assert(old(out)@ + nat_digits(n as nat) =~= old(out)@ + nat_digits((n / 10) as nat) + seq![
                digit_char((n % 10) as int),
            ]);
        } else {
            assert(old(out)@ + nat_digits(n as nat) =~= old(out)@.push(digit_char(n as int)));
        }
    }
}

/// The decimal text of `n`, as `u64::to_string` writes it.
pub fn format_u64(n: u64) -> (r: String)
    ensures
        r@ == nat_digits(n as nat),
{
    let mut out = String::new();
    push_nat(&mut out, n);
    assert(out@ =~= nat_digits(n as nat));
    out
}

proof fn lemma_digits_value_below_pow10(s: Seq<char>)
    requires
        all_digits(s),
    ensures
        0 <= digits_value(s) < pow10(s.len()),
    decreases s.len(),
{
    if s.len() > 0 {
        lemma_digits_value_below_pow10(s.drop_last());
        assert(is_digit(s.last()));
        assert(pow10(s.len()) == 10 * pow10((s.len() - 1) as nat));
    }
}

proof fn lemma_first_dot_found(s: Seq<char>, from: int, d: int)
    requires
        0 <= from <= d <= s.len(),
        forall|j: int| from <= j < d ==> s[j] != '.',
        d == s.len() || s[d] == '.',
    ensures
        first_dot(s, from) == d,
    decreases d - from,
{
    if from < d {
        lemma_first_dot_found(s, from + 1, d);
    }
}

/// Whether the characters of `s` from `from` to `to` are all digits.
fn digits_only(s: &str, from: usize, to: usize) -> (r: bool)
    requires
        from <= to <= s@.len(),
    ensures
        r == all_digits(s@.subrange(from as int, to as int)),
{
    let ghost run = s@.subrange(from as int, to as int);
    let mut i: usize = from;
    while i < to
        invariant
            from <= i <= to <= s@.len(),
            run == s@.subrange(from as int, to as int),
            forall|j: int| 0 <= j < i - from ==> is_digit(#[trigger] run[j]),
        decreases to - i,
    {
        let c = s.get_char(i);
        assert(run[i - from] == c);
        if !('0' <= c && c <= '9') {
            return false;
        }
        i = i + 1;
    }
    true
}

/// Ten to the power `e`, for `e` up to eight.
fn pow10_small(e: usize) -> (r: u64)
    requires
        e <= 8,
    ensures
        r == pow10(e as nat),
        r <= 100_000_000,
{
    let mut r: u64 = 1;
    let mut i: usize = 0;
    while i < e
        invariant
            i <= e <= 8,
            r == pow10(i as nat),
        decreases e - i,
    {
        proof {
            lemma_pow10_monotone(i as nat, 8);
            reveal_with_fuel(pow10, 9);
        }
        r = r * 10;
        i = i + 1;
    }
    proof {
        lemma_pow10_monotone(e as nat, 8);
        reveal_with_fuel(pow10, 9);
    }
    r
}

/// Reads a fixed-point decimal (see `decimal_text_value`): an optional sign,
/// digits and optionally a point and more digits; fractional digits beyond
/// the eighth are dropped. `None` when the text is not of that form or the
/// value does not fit in an `i64`.
#[verifier::spinoff_prover]
#[verifier::rlimit(60)]
pub fn parse_decimal(s: &str) -> (r: Option<i64>)
    ensures
        r == spec_parse_decimal(s@),
{
    let n = s.unicode_len();
    let mut start: usize = 0;
    let mut negative = false;
    if n > 0 {
        let c = s.get_char(0);
        if c == '-' {
            start = 1;
            negative = true;
        } else if c == '+' {
            start = 1;
        }
    }
    assert(start == sign_len(s@));
    assert(negative == is_negative(s@));
    let mut d: usize = start;
    while d < n && s.get_char(d) != '.'
        invariant
            start <= d <= n,
            n == s@.len(),
            forall|j: int| start <= j < d ==> s@[j] != '.',
        decreases n - d,
    {
        d = d + 1;
    }
    proof {
        lemma_first_dot_found(s@, start as int, d as int);
    }
    let f: usize = if d < n {
        d + 1
    } else {
        n
    };
    let ghost ip = s@.subrange(start as int, d as int);
    let ghost fp = s@.subrange(f as int, n as int);
    if (d - start) + (n - f) == 0 {
        return None;
    }
    let int_value = match digits_run(s, start, d, 0x1_0000_0000_0000_0000) {
        Some(v) => v,
        None => {
            proof {
                if all_digits(ip) && all_digits(fp) {
                    let k = if fp.len() <= 8 { fp.len() } else { 8 };
                    lemma_digits_value_nonneg(fp.take(k as int));
                    assert(digits_value(ip) * SCALE >= 0x1_0000_0000_0000_0000int * SCALE) by (nonlinear_arith)
                        requires
                            digits_value(ip) > 0x1_0000_0000_0000_0000int,
                    ;
                    assert(pow10((8 - k) as nat) >= 1) by {
                        lemma_pow10_positive((8 - k) as nat);
                    }
                    assert(digits_value(fp.take(k as int)) * pow10((8 - k) as nat) >= 0) by (nonlinear_arith)
                        requires
                            digits_value(fp.take(k as int)) >= 0,
                            pow10((8 - k) as nat) >= 1,
                    ;
                }
            }
            return None;
        },
    };
    let frac_len: usize = n - f;
    let k: usize = if frac_len <= 8 {
        frac_len
    } else {
        8
    };
    assert(fp.take(k as int) =~= s@.subrange(f as int, (f + k) as int));
    let frac_value = match digits_run(s, f, f + k, 100_000_000) {
        Some(v) => v,
        None => {
            proof {
                if all_digits(fp) {
                    assert(all_digits(fp.take(k as int)));
                    lemma_digits_value_below_pow10(fp.take(k as int));
                    lemma_pow10_monotone(k as nat, 8);
                    reveal_with_fuel(pow10, 9);
                }
            }
            return None;
        },
    };
    let rest_ok = digits_only(s, f + k, n);
    proof {
        assert(fp =~= s@.subrange(f as int, (f + k) as int) + s@.subrange((f + k) as int, n as int));
        if all_digits(fp) {
            assert forall|j: int| 0 <= j < n - (f + k) implies is_digit(#[trigger] s@.subrange((f + k) as int, n as int)[j]) by {
                assert(s@.subrange((f + k) as int, n as int)[j] == fp[j + k]);
            }
        }
        if rest_ok {
            assert forall|j: int| 0 <= j < fp.len() implies is_digit(#[trigger] fp[j]) by {
                if j < k {
                    assert(fp[j] == s@.subrange(f as int, (f + k) as int)[j]);
                } else {
                    assert(fp[j] == s@.subrange((f + k) as int, n as int)[j - k]);
                }
            }
        }
    }
    if !rest_ok {
        return None;
    }
    let mult = pow10_small(8 - k);
    proof {
        lemma_digits_value_below_pow10(fp.take(k as int));
        lemma_pow10_monotone(k as nat, 8);
        reveal_with_fuel(pow10, 9);
        assert((int_value as int) * SCALE <= 0x1_0000_0000_0000_0000int * 100_000_000) by (nonlinear_arith)
            requires
                int_value <= 0x1_0000_0000_0000_0000int,
        ;
        assert((frac_value as int) * (mult as int) <= 100_000_000int * 100_000_000int) by (nonlinear_arith)
            requires
                frac_value <= 100_000_000,
                mult <= 100_000_000,
        ;
    }
    let units: i128 = (int_value as i128) * (SCALE as i128) + (frac_value as i128) * (mult as i128);
    let value: i128 = if negative {
        -units
    } else {
        units
    };
    if value < i64::MIN as i128 || value > i64::MAX as i128 {
        return None;
    }
    Some(value as i64)
}

proof fn lemma_pow10_positive(k: nat)
    ensures
        pow10(k) >= 1,
    decreases k,
{
    if k > 0 {
        lemma_pow10_positive((k - 1) as nat);
    }
}

proof fn lemma_pow10_monotone(a: nat, b: nat)
    requires
        a <= b,
    ensures
        pow10(a) <= pow10(b),
    decreases b,
{
    if a < b {
        lemma_pow10_monotone(a, (b - 1) as nat);
        lemma_pow10_positive((b - 1) as nat);
    }
}

/// The last `w` decimal digits of `v`, zero-padded.
pub open spec fn padded(v: nat, w: nat) -> Seq<char>
    decreases w,
{
    if w == 0 {
        Seq::empty()
    } else {
        padded(v / 10, (w - 1) as nat).push(digit_char((v % 10) as int))
    }
}

/// `t` without its trailing zeros.
pub open spec fn strip_zeros(t: Seq<char>) -> Seq<char>
    decreases t.len(),
{
    if t.len() > 0 && t.last() == '0' {
        strip_zeros(t.drop_last())
    } else {
        t
    }
}

/// The text of the fixed-point decimal `x`: a `-` when negative, the whole
/// part's digits, and when there is a fractional part, a point and its eight
/// digits without trailing zeros.
pub open spec fn decimal_text(x: int) -> Seq<char> {
    let m = if x < 0 { -x } else { x };
    let ip = m / (SCALE as int);
    let fr = m % (SCALE as int);
    let sign = if x < 0 { seq!['-'] } else { Seq::<char>::empty() };
    let frac = if fr == 0 { Seq::<char>::empty() } else { seq!['.'] + strip_zeros(padded(fr as nat, 8)) };
    sign + nat_digits(ip as nat) + frac
}

/// The fixed-point decimal `x` rounded to hundredths, half away from zero,
/// as a count of hundredths of its magnitude.
pub open spec fn hundredths(x: int) -> int {
    let m = if x < 0 { -x } else { x };
    (m + (SCALE as int) / 200) / ((SCALE as int) / 100)
}

/// The text of the fixed-point decimal `x` with exactly two decimals: a `-`
/// when negative, the whole part's digits, a point, and two digits; the value
/// rounded to hundredths, half away from zero.
pub open spec fn two_decimal_text(x: int) -> Seq<char> {
    let h = hundredths(x);
    let sign = if x < 0 { seq!['-'] } else { Seq::<char>::empty() };
    sign + nat_digits((h / 100) as nat) + seq!['.'] + padded((h % 100) as nat, 2)
}

/// Appends the last `w` digits of `v`, zero-padded, to `out`.
fn push_padded(out: &mut String, v: u64, w: u64)
    ensures
        final(out)@ == old(out)@ + padded(v as nat, w as nat),
    decreases w,
{
    if w > 0 {
        push_padded(out, v / 10, w - 1);
        push_digit(out, v % 10);
        assert(old(out)@ + padded(v as nat, w as nat) =~= old(out)@ + padded((v / 10) as nat, (w - 1) as nat) + seq![
            digit_char((v % 10) as int),
        ]);
    } else {
        assert(old(out)@ + padded(v as nat, w as nat) =~= old(out)@);
    }
}

/// Appends `lit` to `out`.
fn push_text(out: &mut String, lit: &str)
    ensures
        final(out)@ == old(out)@ + lit@,
{
    out.append(lit);
}

/// Writes the fixed-point decimal `x` with two decimals (see
/// `two_decimal_text`), as a percentage is shown in messages.
pub fn format_two_decimals(x: i64) -> (r: String)
    ensures
        r@ == two_decimal_text(x as int),
{
    let negative = x < 0;
    let m: u64 = if negative {
        (-(x as i128)) as u64
    } else {
        x as u64
    };
    let h: u64 = (m / 500_000 + 1) / 2;
    proof {
        let s = SCALE as int;
        assert(s / 200 == 500_000);
        assert(s / 100 == 1_000_000);
        assert(h == ((m as int) + 500_000) / 1_000_000) by (nonlinear_arith)
            requires
                h == ((m as int) / 500_000 + 1) / 2,
                m >= 0,
        ;
    }
    let mut out = String::new();
    if negative {
        push_text(&mut out, "-");
        proof {
            reveal_strlit("-");
        }
    }
    let ghost sign = if x < 0 { seq!['-'] } else { Seq::<char>::empty() };
    assert(out@ =~= sign);
    push_nat(&mut out, h / 100);
    push_text(&mut out, ".");
    proof {
        reveal_strlit(".");
    }
    push_padded(&mut out, h % 100, 2);
    assert(out@ =~= two_decimal_text(x as int));
    out
}

/// Writes the fixed-point decimal `x` as text (see `decimal_text`).
pub fn format_decimal(x: i64) -> (r: String)
    ensures
        r@ == decimal_text(x as int),
{
    let negative = x < 0;
    let m: u64 = if negative {
        (-(x as i128)) as u64
    } else {
        x as u64
    };
    let mut out = String::new();
    if negative {
        push_text(&mut out, "-");
        proof {
            reveal_strlit("-");
        }
    }
    let ghost sign = if x < 0 { seq!['-'] } else { Seq::<char>::empty() };
    assert(out@ =~= sign);
    let ip: u64 = m / (SCALE as u64);
    let fr: u64 = m % (SCALE as u64);
    push_nat(&mut out, ip);
    if fr != 0 {
        push_text(&mut out, ".");
        proof {
            reveal_strlit(".");
        }
        let ghost before = out@;
        let mut v: u64 = fr;
        let mut w: u64 = 8;
        proof {
            reveal_with_fuel(pow10, 9);
        }
        while v % 10 == 0
            invariant
                0 < v < pow10(w as nat),
                1 <= w <= 8,
                strip_zeros(padded(fr as nat, 8)) == strip_zeros(padded(v as nat, w as nat)),
            decreases w,
        {
            proof {
                assert(padded(v as nat, w as nat) == padded((v / 10) as nat, (w - 1) as nat).push('0'));
                assert(padded((v / 10) as nat, (w - 1) as nat).push('0').drop_last() =~= padded(
                    (v / 10) as nat,
                    (w - 1) as nat,
                ));
                assert(pow10(w as nat) == 10 * pow10((w - 1) as nat));
                if w == 1 {
                    assert(v < 10);
                }
            }
            v = v / 10;
            w = w - 1;
        }
        proof {
            assert(padded(v as nat, w as nat).last() == digit_char((v % 10) as int));
            assert(strip_zeros(padded(v as nat, w as nat)) == padded(v as nat, w as nat));
        }
        push_padded(&mut out, v, w);
    }
    proof {
        let mm = if x < 0 { -(x as int) } else { x as int };
        assert(mm == m);
        assert(out@ =~= decimal_text(x as int));
    }
    out
}

proof fn lemma_digit_char(d: int)
    requires
        0 <= d < 10,
    ensures
        is_digit(digit_char(d)),
        digit_value(digit_char(d)) == d,
        d != 0 ==> digit_char(d) != '0',
{
}

proof fn lemma_nat_digits(n: nat)
    ensures
        nat_digits(n).len() >= 1,
        all_digits(nat_digits(n)),
        digits_value(nat_digits(n)) == n,
    decreases n,
{
    if n < 10 {
        lemma_digit_char(n as int);
        assert(seq![digit_char(n as int)].drop_last() =~= Seq::<char>::empty());
        assert(digits_value(Seq::<char>::empty()) == 0);
        assert(digits_value(nat_digits(n)) == digits_value(Seq::<char>::empty()) * 10 + digit_value(
            digit_char(n as int),
        ));
    } else {
        lemma_nat_digits(n / 10);
        lemma_digit_char((n % 10) as int);
        let t = nat_digits(n / 10).push(digit_char((n % 10) as int));
        assert(t.drop_last() =~= nat_digits(n / 10));
        assert forall|i: int| 0 <= i < t.len() implies is_digit(#[trigger] t[i]) by {
            if i < t.len() - 1 {
                assert(t[i] == nat_digits(n / 10)[i]);
            }
        }
        assert(digits_value(t) == digits_value(nat_digits(n / 10)) * 10 + digit_value(t.last()));
        assert(n == (n / 10) * 10 + n % 10);
    }
}

proof fn lemma_padded(v: nat, w: nat)
    ensures
        padded(v, w).len() == w,
        all_digits(padded(v, w)),
        digits_value(padded(v, w)) == v % (pow10(w) as nat),
    decreases w,
{
    lemma_pow10_positive(w);
    if w > 0 {
        lemma_padded(v / 10, (w - 1) as nat);
        lemma_digit_char((v % 10) as int);
        let t = padded(v, w);
        assert(t.drop_last() =~= padded(v / 10, (w - 1) as nat));
        assert forall|i: int| 0 <= i < t.len() implies is_digit(#[trigger] t[i]) by {
            if i < t.len() - 1 {
                assert(t[i] == padded(v / 10, (w - 1) as nat)[i]);
            }
        }
        lemma_pow10_positive((w - 1) as nat);
        let p = pow10((w - 1) as nat);
        assert(pow10(w) == 10 * p);
        // v % (10 p) == (v / 10 % p) * 10 + v % 10
        vstd::arithmetic::div_mod::lemma_mod_breakdown(v as int, 10, p);
        assert((v as int) % (10 * p) == 10 * (((v as int) / 10) % p) + (v as int) % 10);
    } else {
        assert(pow10(0) == 1);
    }
}

/// How many trailing zeros `strip_zeros` removes from `padded(v, w)`.
spec fn strip_count(v: nat, w: nat) -> nat
    decreases w,
{
    if w > 1 && v % 10 == 0 {
        1 + strip_count(v / 10, (w - 1) as nat)
    } else {
        0
    }
}

proof fn lemma_strip_padded(v: nat, w: nat)
    requires
        0 < v < pow10(w),
        w >= 1,
    ensures
        strip_count(v, w) < w,
        ({
            let z = strip_count(v, w);
            &&& strip_zeros(padded(v, w)) == padded(v / (pow10(z) as nat), (w - z) as nat)
            &&& (v / (pow10(z) as nat)) * pow10(z) == v
            &&& v / (pow10(z) as nat) < pow10((w - z) as nat)
        }),
    decreases w,
{
    lemma_pow10_positive(w);
    if w > 1 && v % 10 == 0 {
        assert(pow10(w) == 10 * pow10((w - 1) as nat));
        let u: nat = v / 10;
        assert(u > 0);
        assert(u < pow10((w - 1) as nat));
        lemma_strip_padded(u, (w - 1) as nat);
        assert(padded(v, w) == padded(u, (w - 1) as nat).push('0'));
        assert(padded(u, (w - 1) as nat).push('0').drop_last() =~= padded(u, (w - 1) as nat));
        assert(strip_zeros(padded(v, w)) == strip_zeros(padded(u, (w - 1) as nat)));
        let z1 = strip_count(u, (w - 1) as nat);
        let z = z1 + 1;
        assert(strip_count(v, w) == z);
        lemma_pow10_positive(z1);
        let p1 = pow10(z1);
        let p = pow10(z);
        assert(p == 10 * p1);
        let q: nat = u / (p1 as nat);
        assert(q * p1 == u);
        vstd::arithmetic::div_mod::lemma_div_denominator(v as int, 10, p1);
        assert((v as int) / (10 * p1) == ((v as int) / 10) / p1);
        assert(v / (p as nat) == q);
        assert(u * 10 == v);
        assert(q * p == v) by (nonlinear_arith)
            requires
                p == 10 * p1,
                q * p1 == u,
                u * 10 == v,
        ;
        assert((w - z) as nat == ((w - 1) as nat - z1) as nat);
    } else {
        assert(strip_count(v, w) == 0);
        assert(pow10(0) == 1);
        assert(v / (1 as nat) == v);
        if w == 1 {
            assert(pow10(1) == 10 * pow10(0));
            assert(v < 10);
        }
        assert(v % 10 != 0);
        lemma_digit_char((v % 10) as int);
        assert(padded(v, w).last() == digit_char((v % 10) as int));
        assert(padded(v, w).len() == w) by {
            lemma_padded(v, w);
        }
        assert(strip_zeros(padded(v, w)) == padded(v, w));
        assert((w - 0) as nat == w);
    }
}

/// What `format_decimal` writes, `parse_decimal` reads back.
#[verifier::rlimit(100)]
pub proof fn lemma_decimal_text_round_trip(x: i64)
    ensures
        spec_parse_decimal(decimal_text(x as int)) == Some(x),
{
    let m = if x < 0 { -(x as int) } else { x as int };
    let ip = m / (SCALE as int);
    let fr = m % (SCALE as int);
    let sign = if x < 0 { seq!['-'] } else { Seq::<char>::empty() };
    let dg = nat_digits(ip as nat);
    lemma_nat_digits(ip as nat);
    let t = decimal_text(x as int);
    let a = sign.len() as int;
    let e = a + dg.len();
    reveal_with_fuel(pow10, 9);
    if fr == 0 {
        assert(t =~= sign + dg);
        assert(sign_len(t) == a) by {
            if x >= 0 {
                assert(t[0] == dg[0]);
                assert(is_digit(dg[0]));
            }
        }
        assert forall|j: int| a <= j < e implies t[j] != '.' by {
            assert(t[j] == dg[j - a]);
            assert(is_digit(dg[j - a]));
        }
        lemma_first_dot_found(t, a, e);
        assert(t.subrange(a, e) =~= dg);
        assert(t.subrange(e, e) =~= Seq::<char>::empty());
        assert(Seq::<char>::empty().take(0) =~= Seq::<char>::empty());
        assert(m == ip * SCALE + fr);
    } else {
        let w0: nat = 8;
        assert(0 < fr < pow10(8));
        lemma_strip_padded(fr as nat, w0);
        let z = strip_count(fr as nat, w0);
        let v = (fr as nat) / (pow10(z) as nat);
        let w = (w0 - z) as nat;
        let fd = padded(v, w);
        lemma_padded(v, w);
        assert(t =~= sign + dg + (seq!['.'] + fd));
        assert(sign_len(t) == a) by {
            if x >= 0 {
                assert(t[0] == dg[0]);
                assert(is_digit(dg[0]));
            }
        }
        assert forall|j: int| a <= j < e implies t[j] != '.' by {
            assert(t[j] == dg[j - a]);
            assert(is_digit(dg[j - a]));
        }
        assert(t[e] == '.');
        lemma_first_dot_found(t, a, e);
        assert(t.subrange(a, e) =~= dg);
        assert(t.subrange(e + 1, t.len() as int) =~= fd);
        assert(fd.take(w as int) =~= fd);
        lemma_pow10_positive(w);
        vstd::arithmetic::div_mod::lemma_small_mod(v, pow10(w) as nat);
        assert(m == ip * SCALE + fr);
    }
}

} // verus!
