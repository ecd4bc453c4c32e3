//! Decimal text for fixed-point amounts: `123.45000000` and back.

use vstd::prelude::*;
use crate::fixed::SCALE;
use crate::text::chars_of;
use crate::text::find_char;
use crate::text::first_index_of;
use crate::text::slice_chars;
use crate::text::string_of;

verus! {

/// Digits kept after the decimal point.
pub const FRACTION_DIGITS: usize = 8;

/// `c` is one of `0`..`9`.
pub open spec fn is_digit(c: char) -> bool {
    48 <= c as u32 <= 57
}

/// The number a digit character stands for.
pub open spec fn digit_value(c: char) -> int {
    c as u32 - 48
}

/// The character for a digit `0..=9`.
pub open spec fn digit_char(d: int) -> char {
    ((48 + d) as u8) as char
}

/// Every character is a digit.
pub open spec fn all_digits(s: Seq<char>) -> bool {
    forall|i: int| 0 <= i < s.len() ==> is_digit(#[trigger] s[i])
}

/// The number written by a run of digits, most significant first.
pub open spec fn digits_value(s: Seq<char>) -> int
    decreases s.len(),
{
    if s.len() == 0 {
        0
    } else {
        digits_value(s.drop_last()) * 10 + digit_value(s.last())
    }
}

/// Ten to the `n`.
pub open spec fn pow10(n: nat) -> int
    decreases n,
{
    if n == 0 {
        1
    } else {
        10 * pow10((n - 1) as nat)
    }
}

/// The stored units written by the digits after a decimal point: the first
/// eight count, the rest is cut off.
pub open spec fn fraction_units(f: Seq<char>) -> int {
    if f.len() >= 8 {
        digits_value(f.take(8))
    } else {
        digits_value(f) * pow10((8 - f.len()) as nat)
    }
}

/// Index of the first `.` in the text, or its length where it has none.
pub open spec fn first_dot(s: Seq<char>) -> int
    decreases s.len(),
{
    if s.len() == 0 {
        0
    } else if s[0] == '.' {
        0
    } else {
        1 + first_dot(s.drop_first())
    }
}

/// The amount written by an unsigned decimal: digits, then optionally a point
/// and more digits, with a digit on at least one side.
pub open spec fn spec_parse_unsigned(body: Seq<char>) -> Option<int> {
    let dot = first_dot(body);
    let whole = body.take(dot);
    let frac = if dot < body.len() {
        body.skip(dot + 1)
    } else {
        Seq::<char>::empty()
    };
    if all_digits(whole) && all_digits(frac) && whole.len() + frac.len() > 0 {
        Some(digits_value(whole) * SCALE + fraction_units(frac))
    } else {
        None
    }
}

/// The amount written by a decimal with an optional leading sign, where it is
/// well formed and fits in `i64`.
pub open spec fn spec_parse_decimal(s: Seq<char>) -> Option<i64> {
    let negative = s.len() > 0 && s[0] == '-';
    let body = if s.len() > 0 && (s[0] == '-' || s[0] == '+') {
        s.skip(1)
    } else {
        s
    };
    match spec_parse_unsigned(body) {
        Some(m) => {
            let v = if negative {
                -m
            } else {
                m
            };
            if i64::MIN <= v <= i64::MAX {
                Some(v as i64)
            } else {
                None
            }
        },
        None => None,
    }
}

/// Appending a digit multiplies by ten and adds it.
pub proof fn lemma_digits_push(s: Seq<char>, c: char)
    ensures
        digits_value(s.push(c)) == digits_value(s) * 10 + digit_value(c),
{
    assert(s.push(c).drop_last() =~= s);
}

/// A run of digits is never negative.
pub proof fn lemma_digits_nonnegative(s: Seq<char>)
    requires
        all_digits(s),
    ensures
        digits_value(s) >= 0,
    decreases s.len(),
{
    if s.len() > 0 {
        assert forall|i: int| 0 <= i < s.drop_last().len() implies is_digit(
            #[trigger] s.drop_last()[i],
        ) by {
            assert(s.drop_last()[i] == s[i]);
        }
        lemma_digits_nonnegative(s.drop_last());
        assert(is_digit(s[s.len() - 1]));
    }
}

/// Where the first `k` characters hold no point, the first point is at or
/// after `k`; it is at `k` exactly when a point stands there or the text ends.
pub proof fn lemma_first_dot(s: Seq<char>, k: int)
    requires
        0 <= k <= s.len(),
        forall|j: int| 0 <= j < k ==> s[j] != '.',
    ensures
        first_dot(s) >= k,
        first_dot(s) <= s.len(),
        (k == s.len() || s[k] == '.') ==> first_dot(s) == k,
    decreases s.len(),
{
    if s.len() == 0 {
    } else if k == 0 {
        if s[0] != '.' {
            lemma_first_dot(s.drop_first(), 0);
        }
    } else {
        assert(s[0] != '.');
        assert forall|j: int| 0 <= j < k - 1 implies s.drop_first()[j] != '.' by {
            assert(s.drop_first()[j] == s[j + 1]);
        }
        lemma_first_dot(s.drop_first(), k - 1);
        if k < s.len() {
            assert(s.drop_first()[k - 1] == s[k]);
        }
    }
}

fn is_digit_char(c: char) -> (r: bool)
    ensures
        r == is_digit(c),
{
    let n: u32 = c as u32;
    48 <= n && n <= 57
}

fn digit_of(c: char) -> (d: i128)
    requires
        is_digit(c),
    ensures
        d == digit_value(c),
        0 <= d <= 9,
{
    let n: u32 = c as u32;
    (n - 48) as i128
}

/// Reads an unsigned decimal that starts at `start` and runs to the end.
fn parse_unsigned_from(v: &Vec<char>, start: usize) -> (r: Option<i128>)
    requires
        start <= v.len(),
    ensures
        r matches Some(m) ==> 0 <= m <= 0x8000_0000_0000_0000 && spec_parse_unsigned(
            v@.skip(start as int),
        ) == Some(m as int),
        r is None ==> (spec_parse_unsigned(v@.skip(start as int)) matches Some(m) ==> m
            > 0x8000_0000_0000_0000),
{
    let n: usize = v.len();
    let ghost body = v@.skip(start as int);
    let mut i: usize = start;
    let mut whole: i128 = 0;
    let mut too_big: bool = false;
    while i < n && is_digit_char(v[i])
        invariant
            start <= i <= n,
            n == v.len(),
            body == v@.skip(start as int),
            all_digits(body.take(i - start)),
            !too_big ==> whole == digits_value(body.take(i - start)) && 0 <= whole
                <= 1_000_000_000_000,
            too_big ==> digits_value(body.take(i - start)) > 1_000_000_000_000,
        decreases n - i,
    {
        let d: i128 = digit_of(v[i]);
        proof {
            let before = body.take(i - start);
            let after = body.take(i + 1 - start);
            assert(body[i - start] == v@[i as int]);
            assert(after =~= before.push(v@[i as int]));
            lemma_digits_push(before, v@[i as int]);
            assert forall|j: int| 0 <= j < after.len() implies is_digit(#[trigger] after[j]) by {
                if j < before.len() {
                    assert(after[j] == before[j]);
                }
            }
        }
        if !too_big {
            whole = whole * 10 + d;
            if whole > 1_000_000_000_000 {
                too_big = true;
            }
        }
        i = i + 1;
    }
    let ghost whole_len = i - start;
    proof {
        assert forall|j: int| 0 <= j < whole_len implies body[j] != '.' by {
            assert(body.take(whole_len)[j] == body[j]);
            assert(is_digit(body.take(whole_len)[j]));
        }
    }
    if i < n && v[i] != '.' {
        proof {
            assert(body[whole_len] == v@[i as int]);
            lemma_first_dot(body, whole_len);
            let dot = first_dot(body);
            if dot == whole_len {
                assert(dot < body.len());
                lemma_first_dot_is_dot(body);
            }
            assert(dot > whole_len);
            assert(body.take(dot)[whole_len] == body[whole_len]);
            assert(!is_digit(body.take(dot)[whole_len]));
        }
        return None;
    }
    proof {
        if i < n {
            assert(body[whole_len] == v@[i as int]);
        }
        lemma_first_dot(body, whole_len);
        assert(first_dot(body) == whole_len);
    }
    let mut frac: i128 = 0;
    let mut taken: usize = 0;
    let mut frac_len: usize = 0;
    if i < n {
        let fstart: usize = i + 1;
        let ghost fseq = body.skip(whole_len + 1);
        let mut j: usize = fstart;
        while j < n
            invariant
                fstart <= j <= n,
                fstart == i + 1,
                start <= i < n,
                n == v.len(),
                whole_len == i - start,
                body == v@.skip(start as int),
                fseq == body.skip(whole_len + 1),
                fseq.len() == n - fstart,
                first_dot(body) == whole_len,
                whole_len < body.len(),
                all_digits(fseq.take(j - fstart)),
                taken == if j - fstart < 8 {
                    j - fstart
                } else {
                    8
                },
                frac == digits_value(fseq.take(taken as int)),
                0 <= frac < pow10(taken as nat),
                frac_len == j - fstart,
            decreases n - j,
        {
            if !is_digit_char(v[j]) {
                proof {
                    assert(fseq[j - fstart] == v@[j as int]);
                    assert(!is_digit(fseq[j - fstart]));
                }
                return None;
            }
            let d: i128 = digit_of(v[j]);
            proof {
                let before = fseq.take(j - fstart);
                let after = fseq.take(j + 1 - fstart);
                assert(fseq[j - fstart] == v@[j as int]);
                assert(after =~= before.push(v@[j as int]));
                assert forall|k: int| 0 <= k < after.len() implies is_digit(
                    #[trigger] after[k],
                ) by {
                    if k < before.len() {
                        assert(after[k] == before[k]);
                    }
                }
                if taken < 8 {
                    lemma_digits_push(before, v@[j as int]);
                    assert(pow10((taken + 1) as nat) == 10 * pow10(taken as nat));
                    lemma_pow10_bound(taken as nat);
                }
            }
            if taken < 8 {
                frac = frac * 10 + d;
                taken = taken + 1;
            }
            frac_len = frac_len + 1;
            j = j + 1;
        }
        proof {
            assert(fseq.take(fseq.len() as int) =~= fseq);
        }
    }
    let ghost fseq = if i < n {
        body.skip(whole_len + 1)
    } else {
        Seq::<char>::empty()
    };
    if i - start + frac_len == 0 {
        return None;
    }
    proof {
        assert(all_digits(fseq));
        assert(frac_len == fseq.len());
        assert(all_digits(body.take(whole_len)));
    }
    // pad the fraction to eight digits
    let mut units: i128 = frac;
    let mut p: usize = taken;
    proof {
        lemma_pow10_bound(taken as nat);
    }
    while p < 8
        invariant
            taken <= p <= 8,
            0 <= frac < pow10(taken as nat),
            units == frac * pow10((p - taken) as nat),
            0 <= units < pow10(p as nat),
        decreases 8 - p,
    {
        proof {
            lemma_pow10_bound(p as nat);
            assert(pow10((p + 1 - taken) as nat) == 10 * pow10((p - taken) as nat));
            assert(pow10((p + 1) as nat) == 10 * pow10(p as nat));
            assert(frac * (10 * pow10((p - taken) as nat)) == 10 * (frac * pow10(
                (p - taken) as nat,
            ))) by (nonlinear_arith);
        }
        units = units * 10;
        p = p + 1;
    }
    proof {
        lemma_pow10_bound(8);
        if fseq.len() >= 8 {
            assert(taken == 8);
            assert(pow10(0) == 1);
            assert(units == frac * 1);
            assert(units == fraction_units(fseq));
        } else {
            assert(taken == fseq.len());
            assert(fseq.take(taken as int) =~= fseq);
            assert(units == fraction_units(fseq));
        }
    }
    if too_big {
        proof {
            let w = digits_value(body.take(whole_len));
            assert(w * SCALE + units > 0x8000_0000_0000_0000) by (nonlinear_arith)
                requires
                    w > 1_000_000_000_000,
                    units >= 0,
                    SCALE == 100_000_000,
            ;
        }
        return None;
    }
    let m: i128 = whole * 100_000_000 + units;
    if m > 0x8000_0000_0000_0000 {
        None
    } else {
        Some(m)
    }
}

/// Where the first point is inside the text, a point stands there.
pub proof fn lemma_first_dot_is_dot(s: Seq<char>)
    requires
        first_dot(s) < s.len(),
    ensures
        0 <= first_dot(s),
        s[first_dot(s)] == '.',
    decreases s.len(),
{
    if s.len() == 0 {
    } else if s[0] == '.' {
    } else {
        lemma_first_dot_is_dot(s.drop_first());
        assert(s.drop_first()[first_dot(s.drop_first())] == s[first_dot(s.drop_first()) + 1]);
    }
}

/// Powers of ten up to the eighth.
pub proof fn lemma_pow10_bound(n: nat)
    requires
        n <= 8,
    ensures
        1 <= pow10(n) <= 100_000_000,
        n == 8 ==> pow10(n) == 100_000_000,
    decreases n,
{
    reveal_with_fuel(pow10, 10);
}

/// Reads a decimal amount: an optional sign, digits, and optionally a point
/// and more digits. Digits past the eighth after the point are cut off.
pub fn parse_decimal_chars(v: &Vec<char>) -> (r: Option<i64>)
    ensures
        r == spec_parse_decimal(v@),
{
    let n: usize = v.len();
    let negative: bool = n > 0 && v[0] == '-';
    let start: usize = if n > 0 && (v[0] == '-' || v[0] == '+') {
        1
    } else {
        0
    };
    proof {
        assert(v@.skip(0) =~= v@);
    }
    match parse_unsigned_from(v, start) {
        None => None,
        Some(m) => {
            if negative {
                Some((-m) as i64)
            } else if m > 0x7fff_ffff_ffff_ffff {
                None
            } else {
                Some(m as i64)
            }
        },
    }
}

/// Reads a decimal amount from text such as `"100.21"` or `"-0.5"`.
pub fn parse_decimal(s: &str) -> (r: Option<i64>)
    ensures
        r == spec_parse_decimal(s@),
{
    let v: Vec<char> = chars_of(s);
    parse_decimal_chars(&v)
}

/// The digits of a natural number, most significant first, with no padding.
pub open spec fn digits_of(n: nat) -> Seq<char>
    decreases n,
{
    if n < 10 {
        seq![digit_char(n as int)]
    } else {
        digits_of(n / 10).push(digit_char((n % 10) as int))
    }
}

/// The last `width` digits of a natural number, zero-padded on the left.
pub open spec fn padded_digits(n: nat, width: nat) -> Seq<char>
    decreases width,
{
    if width == 0 {
        Seq::<char>::empty()
    } else {
        padded_digits(n / 10, (width - 1) as nat).push(digit_char((n % 10) as int))
    }
}

/// An amount as decimal text with eight digits after the point.
pub open spec fn spec_format_fixed(x: int) -> Seq<char> {
    let m: nat = if x < 0 {
        (-x) as nat
    } else {
        x as nat
    };
    let body = digits_of(m / (SCALE as nat)) + seq!['.'] + padded_digits(m % (SCALE as nat), 8);
    if x < 0 {
        seq!['-'] + body
    } else {
        body
    }
}

fn digit_to_char(d: u64) -> (c: char)
    requires
        d < 10,
    ensures
        c == digit_char(d as int),
{
    ((48 + d) as u8) as char
}

fn push_digits(out: &mut Vec<char>, n: u64)
    ensures
        final(out)@ == old(out)@ + digits_of(n as nat),
    decreases n,
{
    if n < 10 {
        out.push(digit_to_char(n));
        assert(out@ =~= old(out)@ + digits_of(n as nat));
    } else {
        push_digits(out, n / 10);
        out.push(digit_to_char(n % 10));
        assert(out@ =~= old(out)@ + digits_of(n as nat));
    }
}

fn push_padded(out: &mut Vec<char>, n: u64, width: usize)
    ensures
        final(out)@ == old(out)@ + padded_digits(n as nat, width as nat),
    decreases width,
{
    if width == 0 {
        assert(out@ =~= old(out)@ + padded_digits(n as nat, 0));
    } else {
        push_padded(out, n / 10, width - 1);
        out.push(digit_to_char(n % 10));
        assert(out@ =~= old(out)@ + padded_digits(n as nat, width as nat));
    }
}

/// Writes an amount as decimal text with eight digits after the point.
pub fn format_fixed(x: i64) -> (s: String)
    ensures
        s@ == spec_format_fixed(x as int),
{
    let mut out: Vec<char> = Vec::new();
    let m: u64 = if x < 0 {
        (-(x as i128)) as u64
    } else {
        x as u64
    };
    if x < 0 {
        out.push('-');
    }
    let ghost sign = out@;
    push_digits(&mut out, m / 100_000_000);
    out.push('.');
    push_padded(&mut out, m % 100_000_000, 8);
    proof {
        let body = digits_of((m as nat) / (SCALE as nat)) + seq!['.'] + padded_digits(
            (m as nat) % (SCALE as nat),
            8,
        );
        assert(out@ =~= sign + body);
        if x < 0 {
            assert(sign =~= seq!['-']);
        } else {
            assert(sign + body =~= body);
        }
    }
    string_of(&out)
}


/// A digit character is a digit and stands for its number.
pub proof fn lemma_digit_char(d: int)
    requires
        0 <= d < 10,
    ensures
        is_digit(digit_char(d)),
        digit_value(digit_char(d)) == d,
        digit_char(d) != '.',
        digit_char(d) != '-',
        digit_char(d) != '+',
{
}

/// The digits of a number are digits, at least one, and write the number.
pub proof fn lemma_digits_of(n: nat)
    ensures
        digits_of(n).len() >= 1,
        all_digits(digits_of(n)),
        digits_value(digits_of(n)) == n,
    decreases n,
{
    if n < 10 {
        lemma_digit_char(n as int);
        let one = seq![digit_char(n as int)];
        assert(one.drop_last() =~= Seq::<char>::empty());
        assert(digits_value(one.drop_last()) == 0);
    } else {
        lemma_digits_of(n / 10);
        lemma_digit_char((n % 10) as int);
        let head = digits_of(n / 10);
        let last = digit_char((n % 10) as int);
        lemma_digits_push(head, last);
        assert forall|i: int| 0 <= i < head.push(last).len() implies is_digit(
            #[trigger] head.push(last)[i],
        ) by {
            if i < head.len() {
                assert(head.push(last)[i] == head[i]);
            }
        }
    }
}

/// The padded digits of a number are `width` digits and write the number
/// modulo ten to the `width`.
pub proof fn lemma_padded_digits(n: nat, width: nat)
    ensures
        padded_digits(n, width).len() == width,
        all_digits(padded_digits(n, width)),
        digits_value(padded_digits(n, width)) == n % (pow10(width) as nat),
    decreases width,
{
    if width == 0 {
    } else {
        let w = (width - 1) as nat;
        lemma_padded_digits(n / 10, w);
        lemma_digit_char((n % 10) as int);
        lemma_pow10_grows(0, w);
        let head = padded_digits(n / 10, w);
        let last = digit_char((n % 10) as int);
        lemma_digits_push(head, last);
        assert forall|i: int| 0 <= i < head.push(last).len() implies is_digit(
            #[trigger] head.push(last)[i],
        ) by {
            if i < head.len() {
                assert(head.push(last)[i] == head[i]);
            }
        }
        vstd::arithmetic::div_mod::lemma_breakdown(n as int, 10, pow10(w));
    }
}

/// Reading what was written gives the amount back: the text of every amount
/// is well formed and is read as that amount.
pub proof fn lemma_parse_reads_format(x: i64)
    ensures
        spec_parse_decimal(spec_format_fixed(x as int)) == Some(x),
{
    let m: nat = if x < 0 {
        (-x) as nat
    } else {
        x as nat
    };
    let whole = digits_of(m / (SCALE as nat));
    let frac = padded_digits(m % (SCALE as nat), 8);
    let body = whole + seq!['.'] + frac;
    let text = spec_format_fixed(x as int);
    lemma_digits_of(m / (SCALE as nat));
    lemma_padded_digits(m % (SCALE as nat), 8);
    lemma_pow10_bound(8);
    assert(body[whole.len() as int] == '.');
    assert forall|j: int| 0 <= j < whole.len() implies body[j] != '.' by {
        assert(body[j] == whole[j]);
        assert(is_digit(whole[j]));
    }
    lemma_first_dot(body, whole.len() as int);
    assert(body.take(whole.len() as int) =~= whole);
    assert(body.skip(whole.len() as int + 1) =~= frac);
    assert(frac.take(8) =~= frac);
    assert(pow10(8) == SCALE);
    vstd::arithmetic::div_mod::lemma_small_mod(m % (SCALE as nat), SCALE as nat);
    vstd::arithmetic::div_mod::lemma_fundamental_div_mod(m as int, SCALE as int);
    assert(fraction_units(frac) == m % (SCALE as nat));
    assert(digits_value(whole) * SCALE + fraction_units(frac) == m) by (nonlinear_arith)
        requires
            digits_value(whole) == (m as int) / (SCALE as int),
            fraction_units(frac) == (m as int) % (SCALE as int),
            m as int == (SCALE as int) * ((m as int) / (SCALE as int)) + (m as int) % (SCALE as int),
    ;
    assert(spec_parse_unsigned(body) == Some(m as int));
    if x < 0 {
        assert(text[0] == '-');
        assert(text.skip(1) =~= body);
    } else {
        assert(text =~= body);
        assert(text[0] == whole[0]);
        assert(is_digit(whole[0]));
    }
}

/// The natural number a run of digits writes, where it is one and fits `u64`.
pub open spec fn spec_parse_u64(s: Seq<char>) -> Option<u64> {
    if s.len() > 0 && all_digits(s) && digits_value(s) <= u64::MAX {
        Some(digits_value(s) as u64)
    } else {
        None
    }
}

/// More digits never write a smaller number.
pub proof fn lemma_digits_grow(s: Seq<char>, n: int)
    requires
        all_digits(s),
        0 <= n <= s.len(),
    ensures
        digits_value(s.take(n)) <= digits_value(s),
    decreases s.len() - n,
{
    if n < s.len() {
        let head = s.take(n + 1);
        assert(head.drop_last() =~= s.take(n));
        assert(head.last() == s[n]);
        assert(is_digit(s[n]));
        assert forall|i: int| 0 <= i < s.take(n).len() implies is_digit(#[trigger] s.take(n)[i]) by {
            assert(s.take(n)[i] == s[i]);
        }
        lemma_digits_nonnegative(s.take(n));
        lemma_digits_grow(s, n + 1);
    } else {
        assert(s.take(n) =~= s);
    }
}

/// Reads a natural number written in digits.
pub fn parse_u64(s: &str) -> (r: Option<u64>)
    ensures
        r == spec_parse_u64(s@),
{
    let v: Vec<char> = chars_of(s);
    if v.len() == 0 {
        return None;
    }
    let mut acc: u128 = 0;
    let mut i: usize = 0;
    assert(v@.take(0).len() == 0);
    while i < v.len()
        invariant
            i <= v.len(),
            v@ == s@,
            all_digits(v@.take(i as int)),
            acc == digits_value(v@.take(i as int)),
            acc <= u64::MAX,
        decreases v.len() - i,
    {
        if !is_digit_char(v[i]) {
            return None;
        }
        let d: i128 = digit_of(v[i]);
        proof {
            let before = v@.take(i as int);
            let after = v@.take(i + 1);
            assert(after =~= before.push(v@[i as int]));
            lemma_digits_push(before, v@[i as int]);
            assert forall|j: int| 0 <= j < after.len() implies is_digit(#[trigger] after[j]) by {
                if j < before.len() {
                    assert(after[j] == before[j]);
                }
            }
        }
        acc = acc * 10 + d as u128;
        i = i + 1;
        if acc > u64::MAX as u128 {
            return overflow_or_malformed(&v, i);
        }
    }
    assert(v@.take(v.len() as int) =~= v@);
    Some(acc as u64)
}

/// A text whose first `i` digits already exceed `u64` writes no `u64`.
fn overflow_or_malformed(v: &Vec<char>, i: usize) -> (r: Option<u64>)
    requires
        i <= v.len(),
        all_digits(v@.take(i as int)),
        digits_value(v@.take(i as int)) > u64::MAX,
    ensures
        r is None,
        spec_parse_u64(v@) is None,
{
    proof {
        if all_digits(v@) {
            lemma_digits_grow(v@, i as int);
        }
    }
    None
}


/// Most digits read in the mantissa or in the exponent of a number in
/// scientific notation.
pub const MAX_NUMBER_DIGITS: usize = 38;

/// Largest exponent read, in magnitude.
pub const MAX_EXPONENT: i128 = 1000;

/// Index of the first `e` or `E` in the text, or its length where it has
/// none.
pub open spec fn first_mark(s: Seq<char>) -> int {
    if first_index_of(s, 'e') <= first_index_of(s, 'E') {
        first_index_of(s, 'e')
    } else {
        first_index_of(s, 'E')
    }
}

/// `digits` moved by `shift` decimal places: multiplied by a power of ten,
/// or divided by one and rounded down.
pub open spec fn spec_scaled(digits: int, shift: int) -> int {
    if shift >= 0 {
        digits * pow10(shift as nat)
    } else {
        digits / pow10((-shift) as nat)
    }
}

/// The text without a leading sign.
pub open spec fn unsigned_part(s: Seq<char>) -> Seq<char> {
    if s.len() > 0 && (s[0] == '-' || s[0] == '+') {
        s.skip(1)
    } else {
        s
    }
}

/// The parts of a number in scientific notation: the digits before and
/// after the point of the mantissa, and the exponent with and without its
/// sign. `marked` tells that the text holds an `e` or `E` at all.
pub struct NumberParts {
    pub marked: bool,
    pub whole: Seq<char>,
    pub frac: Seq<char>,
    pub exponent: Seq<char>,
    pub exp_digits: Seq<char>,
}

/// Takes a number text apart.
pub open spec fn number_parts(s: Seq<char>) -> NumberParts {
    let body = unsigned_part(s);
    let mark = first_mark(body);
    let mantissa = body.take(mark);
    let dot = first_index_of(mantissa, '.');
    let exponent = if mark < body.len() {
        body.skip(mark + 1)
    } else {
        Seq::<char>::empty()
    };
    NumberParts {
        marked: mark < body.len(),
        whole: mantissa.take(dot),
        frac: if dot < mantissa.len() {
            mantissa.skip(dot + 1)
        } else {
            Seq::<char>::empty()
        },
        exponent,
        exp_digits: unsigned_part(exponent),
    }
}

/// The parts are those of a well-formed number: digits only, at least one
/// and at most 38 in the mantissa, at least one and at most 38 in the
/// exponent, and an exponent of at most a thousand.
pub open spec fn well_formed(parts: NumberParts) -> bool {
    &&& parts.marked
    &&& all_digits(parts.whole)
    &&& all_digits(parts.frac)
    &&& 0 < parts.whole.len() + parts.frac.len() <= MAX_NUMBER_DIGITS
    &&& parts.exponent.len() > 0
    &&& 0 < parts.exp_digits.len() <= MAX_NUMBER_DIGITS
    &&& all_digits(parts.exp_digits)
    &&& digits_value(parts.exp_digits) <= MAX_EXPONENT
}

/// The magnitude well-formed parts write, in stored units, rounded down.
pub open spec fn parts_magnitude(parts: NumberParts) -> int {
    let e = if parts.exponent[0] == '-' {
        -digits_value(parts.exp_digits)
    } else {
        digits_value(parts.exp_digits)
    };
    spec_scaled(digits_value(parts.whole + parts.frac), e - parts.frac.len() + 8)
}

/// The amount written in scientific notation, such as `8.76e-6`: an optional
/// sign, digits with an optional point, then `e` or `E` and an exponent
/// with an optional sign. What lies beyond the eighth decimal place is cut
/// off. `None` where the text is malformed, holds more than 38 digits in
/// mantissa or exponent, has an exponent beyond a thousand, or writes an
/// amount beyond the range.
pub open spec fn spec_parse_scientific(s: Seq<char>) -> Option<i64> {
    let parts = number_parts(s);
    if well_formed(parts) {
        let magnitude = parts_magnitude(parts);
        let v = if s[0] == '-' {
            -magnitude
        } else {
            magnitude
        };
        if i64::MIN <= v <= i64::MAX {
            Some(v as i64)
        } else {
            None
        }
    } else {
        None
    }
}

/// The amount a number text writes: in scientific notation where the text
/// holds an `e` or `E`, as a plain decimal otherwise.
pub open spec fn spec_parse_number(s: Seq<char>) -> Option<i64> {
    if first_mark(s) < s.len() {
        spec_parse_scientific(s)
    } else {
        spec_parse_decimal(s)
    }
}

/// A run of digits writes less than ten to its length.
pub proof fn lemma_digits_below_pow10(s: Seq<char>)
    requires
        all_digits(s),
    ensures
        0 <= digits_value(s) < pow10(s.len()),
    decreases s.len(),
{
    if s.len() > 0 {
        assert forall|i: int| 0 <= i < s.drop_last().len() implies is_digit(
            #[trigger] s.drop_last()[i],
        ) by {
            assert(s.drop_last()[i] == s[i]);
        }
        lemma_digits_below_pow10(s.drop_last());
        assert(is_digit(s[s.len() - 1]));
        assert(pow10(s.len()) == 10 * pow10((s.len() - 1) as nat));
    }
}

/// Powers of ten grow with the exponent and are at least one.
pub proof fn lemma_pow10_grows(a: nat, b: nat)
    requires
        a <= b,
    ensures
        1 <= pow10(a) <= pow10(b),
    decreases b,
{
    if b == 0 {
    } else if a == b {
        lemma_pow10_grows(0, (b - 1) as nat);
    } else {
        lemma_pow10_grows(a, (b - 1) as nat);
    }
}

/// Ten to the 38th, the largest power of ten read.
pub proof fn lemma_pow10_38()
    ensures
        pow10(38) == 100_000_000_000_000_000_000_000_000_000_000_000_000,
        pow10(20) == 100_000_000_000_000_000_000,
        pow10(19) == 10_000_000_000_000_000_000,
{
    reveal_with_fuel(pow10, 20);
    assert(pow10(19) == 10_000_000_000_000_000_000);
    assert(pow10(20) == 10 * pow10(19));
    assert(pow10(38) == pow10(19) * pow10(19)) by {
        lemma_pow10_adds(19, 19);
    }
}

/// Ten to a sum is the product of the powers.
pub proof fn lemma_pow10_adds(a: nat, b: nat)
    ensures
        pow10(a + b) == pow10(a) * pow10(b),
    decreases b,
{
    if b == 0 {
        assert(pow10(a) * 1 == pow10(a));
    } else {
        lemma_pow10_adds(a, (b - 1) as nat);
        assert(pow10(a + b) == 10 * pow10((a + b - 1) as nat));
        assert(10 * (pow10(a) * pow10((b - 1) as nat)) == pow10(a) * (10 * pow10((b - 1) as nat)))
            by (nonlinear_arith);
    }
}

/// Ten to the `k`, for `k` up to 38.
fn pow10_of(k: usize) -> (p: i128)
    requires
        k <= 38,
    ensures
        p == pow10(k as nat),
        1 <= p <= 100_000_000_000_000_000_000_000_000_000_000_000_000,
{
    let mut p: i128 = 1;
    let mut i: usize = 0;
    proof {
        lemma_pow10_38();
    }
    while i < k
        invariant
            i <= k <= 38,
            p == pow10(i as nat),
            pow10(38) == 100_000_000_000_000_000_000_000_000_000_000_000_000,
        decreases k - i,
    {
        proof {
            lemma_pow10_grows((i + 1) as nat, 38);
            assert(pow10((i + 1) as nat) == 10 * pow10(i as nat));
        }
        p = p * 10;
        i = i + 1;
    }
    proof {
        lemma_pow10_grows(k as nat, 38);
    }
    p
}

/// The number a run of at most 38 digits writes; `None` for anything else.
fn digits_to_value(d: &Vec<char>) -> (r: Option<i128>)
    ensures
        r is Some == (all_digits(d@) && d.len() <= MAX_NUMBER_DIGITS),
        r matches Some(v) ==> v == digits_value(d@) && 0 <= v < pow10(d.len() as nat),
{
    if d.len() > MAX_NUMBER_DIGITS {
        return None;
    }
    let mut acc: i128 = 0;
    let mut i: usize = 0;
    proof {
        lemma_pow10_38();
        assert(d@.take(0).len() == 0);
    }
    while i < d.len()
        invariant
            i <= d.len() <= 38,
            all_digits(d@.take(i as int)),
            acc == digits_value(d@.take(i as int)),
            0 <= acc < pow10(i as nat),
            pow10(38) == 100_000_000_000_000_000_000_000_000_000_000_000_000,
        decreases d.len() - i,
    {
        if !is_digit_char(d[i]) {
            return None;
        }
        let digit: i128 = digit_of(d[i]);
        proof {
            let before = d@.take(i as int);
            let after = d@.take(i + 1);
            assert(after =~= before.push(d@[i as int]));
            lemma_digits_push(before, d@[i as int]);
            assert forall|j: int| 0 <= j < after.len() implies is_digit(#[trigger] after[j]) by {
                if j < before.len() {
                    assert(after[j] == before[j]);
                }
            }
            lemma_pow10_grows((i + 1) as nat, 38);
            assert(pow10((i + 1) as nat) == 10 * pow10(i as nat));
        }
        acc = acc * 10 + digit;
        i = i + 1;
    }
    proof {
        assert(d@.take(d.len() as int) =~= d@);
    }
    Some(acc)
}

/// The parts of a number text, as held while it is read.
struct ReadParts {
    marked: bool,
    whole: Vec<char>,
    frac: Vec<char>,
    exponent: Vec<char>,
    exp_digits: Vec<char>,
}

/// Takes a number text apart.
fn read_parts(v: &Vec<char>) -> (r: ReadParts)
    ensures
        r.marked == number_parts(v@).marked,
        r.whole@ == number_parts(v@).whole,
        r.frac@ == number_parts(v@).frac,
        r.exponent@ == number_parts(v@).exponent,
        r.exp_digits@ == number_parts(v@).exp_digits,
{
    let n: usize = v.len();
    let start: usize = if n > 0 && (v[0] == '-' || v[0] == '+') {
        1
    } else {
        0
    };
    let body: Vec<char> = slice_chars(v, start, n);
    proof {
        assert(body@ =~= unsigned_part(v@));
    }
    let lower: usize = find_char(&body, 'e');
    let upper: usize = find_char(&body, 'E');
    let mark: usize = if lower <= upper {
        lower
    } else {
        upper
    };
    let mantissa: Vec<char> = slice_chars(&body, 0, mark);
    proof {
        assert(mantissa@ =~= body@.take(mark as int));
    }
    let dot: usize = find_char(&mantissa, '.');
    let whole: Vec<char> = slice_chars(&mantissa, 0, dot);
    let frac: Vec<char> = if dot < mantissa.len() {
        slice_chars(&mantissa, dot + 1, mantissa.len())
    } else {
        Vec::new()
    };
    let exponent: Vec<char> = if mark < body.len() {
        slice_chars(&body, mark + 1, body.len())
    } else {
        Vec::new()
    };
    proof {
        assert(whole@ =~= mantissa@.take(dot as int));
        if dot < mantissa.len() {
            assert(frac@ =~= mantissa@.skip(dot + 1));
        }
        if mark < body.len() {
            assert(exponent@ =~= body@.skip(mark + 1));
        }
    }
    let exp_start: usize = if exponent.len() > 0 && (exponent[0] == '-' || exponent[0] == '+') {
        1
    } else {
        0
    };
    let exp_digits: Vec<char> = slice_chars(&exponent, exp_start, exponent.len());
    proof {
        assert(exp_digits@ =~= unsigned_part(exponent@));
    }
    ReadParts { marked: mark < body.len(), whole, frac, exponent, exp_digits }
}

/// The magnitude the parts write, where they are well formed and it is
/// within what an amount can hold.
fn read_magnitude(parts: &ReadParts) -> (r: Option<i128>)
    ensures
        ({
            let spec_parts = NumberParts {
                marked: parts.marked,
                whole: parts.whole@,
                frac: parts.frac@,
                exponent: parts.exponent@,
                exp_digits: parts.exp_digits@,
            };
            match r {
                Some(m) => well_formed(spec_parts) && m == parts_magnitude(spec_parts) && 0 <= m
                    <= 0x8000_0000_0000_0000,
                None => !well_formed(spec_parts) || parts_magnitude(spec_parts)
                    > 0x8000_0000_0000_0000,
            }
        }),
{
    if !parts.marked {
        return None;
    }
    if parts.whole.len() > MAX_NUMBER_DIGITS || parts.frac.len() > MAX_NUMBER_DIGITS {
        return None;
    }
    if parts.whole.len() + parts.frac.len() == 0 || parts.whole.len() + parts.frac.len()
        > MAX_NUMBER_DIGITS {
        return None;
    }
    if parts.exponent.len() == 0 || parts.exp_digits.len() == 0 {
        return None;
    }
    let digits: Vec<char> = join_chars(&parts.whole, &parts.frac);
    proof {
        lemma_all_digits_concat(parts.whole@, parts.frac@);
    }
    let mantissa_value: i128 = match digits_to_value(&digits) {
        Some(m) => m,
        None => {
            return None;
        },
    };
    let exponent_value: i128 = match digits_to_value(&parts.exp_digits) {
        Some(e) => e,
        None => {
            return None;
        },
    };
    if exponent_value > MAX_EXPONENT {
        return None;
    }
    let e: i128 = if parts.exponent[0] == '-' {
        -exponent_value
    } else {
        exponent_value
    };
    let shift: i128 = e - (parts.frac.len() as i128) + 8;
    proof {
        lemma_pow10_grows(digits@.len(), 38);
    }
    scale_digits(mantissa_value, shift)
}

/// Reads an amount written in scientific notation.
pub fn parse_scientific_chars(v: &Vec<char>) -> (r: Option<i64>)
    ensures
        r == spec_parse_scientific(v@),
{
    let parts: ReadParts = read_parts(v);
    match read_magnitude(&parts) {
        None => None,
        Some(magnitude) => {
            if v[0] == '-' {
                Some((-magnitude) as i64)
            } else if magnitude > 0x7fff_ffff_ffff_ffff {
                None
            } else {
                Some(magnitude as i64)
            }
        },
    }
}

/// The characters of `a` followed by those of `b`.
fn join_chars(a: &Vec<char>, b: &Vec<char>) -> (out: Vec<char>)
    ensures
        out@ == a@ + b@,
{
    let mut out: Vec<char> = Vec::new();
    let mut i: usize = 0;
    while i < a.len()
        invariant
            i <= a.len(),
            out@ == a@.take(i as int),
        decreases a.len() - i,
    {
        out.push(a[i]);
        i = i + 1;
        assert(out@ =~= a@.take(i as int));
    }
    proof {
        assert(a@.take(a.len() as int) =~= a@);
    }
    let mut j: usize = 0;
    while j < b.len()
        invariant
            j <= b.len(),
            out@ == a@ + b@.take(j as int),
        decreases b.len() - j,
    {
        out.push(b[j]);
        j = j + 1;
        assert(out@ =~= a@ + b@.take(j as int));
    }
    proof {
        assert(b@.take(b.len() as int) =~= b@);
    }
    out
}

/// Moves a number by `shift` decimal places; `None` where the result is
/// beyond what an amount can hold in magnitude.
fn scale_digits(value: i128, shift: i128) -> (r: Option<i128>)
    requires
        0 <= value < pow10(38),
        -2000 <= shift <= 2000,
    ensures
        match r {
            Some(x) => x == spec_scaled(value as int, shift as int) && 0 <= x
                <= 0x8000_0000_0000_0000,
            None => spec_scaled(value as int, shift as int) > 0x8000_0000_0000_0000,
        },
{
    proof {
        lemma_pow10_38();
    }
    if value == 0 {
        proof {
            if shift >= 0 {
                assert(0 * pow10(shift as nat) == 0);
            } else {
                lemma_pow10_grows(0, (-shift) as nat);
                vstd::arithmetic::div_mod::lemma_basic_div(0, pow10((-shift) as nat));
            }
        }
        return Some(0);
    }
    if shift >= 0 {
        if shift > 19 || value > 0x8000_0000_0000_0000 {
            proof {
                let p = pow10(shift as nat);
                lemma_pow10_grows(0, shift as nat);
                if shift > 19 {
                    lemma_pow10_grows(20, shift as nat);
                }
                assert(value * p > 0x8000_0000_0000_0000) by (nonlinear_arith)
                    requires
                        value >= 1,
                        p >= 1,
                        value > 0x8000_0000_0000_0000 || p >= 100_000_000_000_000_000_000,
                ;
            }
            return None;
        }
        let p: i128 = pow10_of(shift as usize);
        proof {
            lemma_pow10_grows(shift as nat, 19);
            assert(0 <= value * p <= 0x8000_0000_0000_0000 * 10_000_000_000_000_000_000)
                by (nonlinear_arith)
                requires
                    0 <= value <= 0x8000_0000_0000_0000,
                    1 <= p <= 10_000_000_000_000_000_000,
            ;
        }
        let product: i128 = value * p;
        if product > 0x8000_0000_0000_0000 {
            None
        } else {
            Some(product)
        }
    } else {
        let places: i128 = -shift;
        let quotient: i128 = if places > 38 {
            proof {
                lemma_pow10_grows(38, places as nat);
                vstd::arithmetic::div_mod::lemma_basic_div(value as int, pow10(places as nat));
            }
            0
        } else {
            let p: i128 = pow10_of(places as usize);
            value / p
        };
        proof {
            lemma_pow10_grows(0, places as nat);
            vstd::arithmetic::div_mod::lemma_div_pos_is_pos(value as int, pow10(places as nat));
        }
        if quotient > 0x8000_0000_0000_0000 {
            None
        } else {
            Some(quotient)
        }
    }
}

/// Two runs of digits joined are a run of digits, and conversely.
pub proof fn lemma_all_digits_concat(a: Seq<char>, b: Seq<char>)
    ensures
        all_digits(a + b) == (all_digits(a) && all_digits(b)),
{
    if all_digits(a) && all_digits(b) {
        assert forall|i: int| 0 <= i < (a + b).len() implies is_digit(#[trigger] (a + b)[i]) by {
            if i < a.len() {
                assert((a + b)[i] == a[i]);
            } else {
                assert((a + b)[i] == b[i - a.len()]);
            }
        }
    }
    if all_digits(a + b) {
        assert forall|i: int| 0 <= i < a.len() implies is_digit(#[trigger] a[i]) by {
            assert((a + b)[i] == a[i]);
        }
        assert forall|i: int| 0 <= i < b.len() implies is_digit(#[trigger] b[i]) by {
            assert((a + b)[i + a.len()] == b[i]);
        }
    }
}

/// Reads the amount a number text writes, in plain or in scientific
/// notation.
pub fn parse_number(s: &str) -> (r: Option<i64>)
    ensures
        r == spec_parse_number(s@),
{
    let v: Vec<char> = chars_of(s);
    let lower: usize = find_char(&v, 'e');
    let upper: usize = find_char(&v, 'E');
    if lower < v.len() || upper < v.len() {
        parse_scientific_chars(&v)
    } else {
        parse_decimal_chars(&v)
    }
}

} // verus!
