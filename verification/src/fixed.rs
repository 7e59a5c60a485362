//! Fixed-point scalars in millionths of a unit.
//!
//! Every fractional setting of the generator (noise factors, coordinate
//! scales, frequencies, the hue rotation, export sizes) is carried as an
//! `i64` counting millionths, so `1.5` units is `1_500_000`.  This module
//! holds the conversion constants together with parsing and formatting of
//! such values as decimal text.

use vstd::prelude::*;

verus! {

use vstd::string::StrSliceExecFns;

/// Millionths in one whole unit.
pub const MICROS_PER_UNIT: i64 = 1_000_000;

/// Saturation bound for parsed magnitudes: 2^32 whole units, in millionths.
/// Text naming a larger magnitude parses to this bound.
pub const PARSE_CAP_MICROS: i64 = 4_294_967_296_000_000;

/// Saturation bound for parsed magnitudes, in whole units: 2^32.
pub const PARSE_CAP_UNITS: u64 = 4_294_967_296;

/// Whether `c` is a decimal digit.
pub open spec fn is_digit(c: char) -> bool {
    48 <= c as u32 <= 57
}

/// The value of a decimal digit.
pub open spec fn digit_val(c: char) -> int {
    c as u32 - 48
}

/// Whether every character of `s` is a decimal digit.
pub open spec fn all_digits(s: Seq<char>) -> bool {
    forall|i: int| 0 <= i < s.len() ==> is_digit(#[trigger] s[i])
}

/// The number named by a sequence of decimal digits, most significant first.
pub open spec fn digits_val(s: Seq<char>) -> int
    decreases s.len(),
{
    if s.len() == 0 {
        0
    } else {
        digits_val(s.drop_last()) * 10 + digit_val(s.last())
    }
}

/// Ten to the `n`th.
pub open spec fn pow10(n: nat) -> int
    decreases n,
{
    if n == 0 {
        1
    } else {
        10 * pow10((n - 1) as nat)
    }
}

proof fn lemma_pow10_pos(n: nat)
    ensures
        pow10(n) >= 1,
    decreases n,
{
    if n > 0 {
        lemma_pow10_pos((n - 1) as nat);
    }
}

proof fn lemma_pow10_add(a: nat, b: nat)
    ensures
        pow10(a + b) == pow10(a) * pow10(b),
    decreases a,
{
    if a == 0 {
    } else {
        lemma_pow10_add((a - 1) as nat, b);
        assert(pow10(a + b) == 10 * pow10((a + b - 1) as nat));
        assert(pow10(a) * pow10(b) == 10 * (pow10((a - 1) as nat) * pow10(b)))
            by (nonlinear_arith)
            requires
                pow10(a) == 10 * pow10((a - 1) as nat),
        ;
    }
}

proof fn lemma_pow10_values()
    ensures
        pow10(0) == 1,
        pow10(1) == 10,
        pow10(2) == 100,
        pow10(3) == 1000,
        pow10(4) == 10000,
        pow10(5) == 100000,
        pow10(6) == 1000000,
{
    assert(pow10(0) == 1);
    assert(pow10(1) == 10);
    assert(pow10(2) == 100);
    assert(pow10(3) == 1000);
    assert(pow10(4) == 10000);
    assert(pow10(5) == 100000);
    assert(pow10(6) == 1000000);
}

proof fn lemma_pow10_le_million(n: nat)
    requires
        n <= 6,
    ensures
        1 <= pow10(n) <= 1_000_000,
{
    lemma_pow10_pos(n);
    lemma_pow10_pos((6 - n) as nat);
    lemma_pow10_add(n, (6 - n) as nat);
    lemma_pow10_values();
    assert(pow10(n) <= 1_000_000) by (nonlinear_arith)
        requires
            pow10(n) * pow10((6 - n) as nat) == 1_000_000,
            pow10(n) >= 1,
            pow10((6 - n) as nat) >= 1,
    ;
}

proof fn lemma_digits_val_nonneg(s: Seq<char>)
    requires
        all_digits(s),
    ensures
        digits_val(s) >= 0,
    decreases s.len(),
{
    if s.len() > 0 {
        assert(all_digits(s.drop_last()));
        lemma_digits_val_nonneg(s.drop_last());
    }
}

proof fn lemma_digits_val_bound(s: Seq<char>)
    requires
        all_digits(s),
    ensures
        0 <= digits_val(s) < pow10(s.len()),
    decreases s.len(),
{
    if s.len() == 0 {
    } else {
        assert(all_digits(s.drop_last()));
        lemma_digits_val_bound(s.drop_last());
        assert(pow10(s.len()) == 10 * pow10((s.len() - 1) as nat));
    }
}

/// The first six fractional digits of `s`, valued in millionths: digit `i`
/// (from zero) counts for `10^(5-i)` millionths; digits beyond the sixth
/// are dropped.
pub open spec fn frac_micros(s: Seq<char>) -> int {
    let t = if s.len() <= 6 { s } else { s.take(6) };
    digits_val(t) * pow10((6 - t.len()) as nat)
}

/// A fraction is less than one unit.
proof fn lemma_frac_micros_bound(s: Seq<char>)
    requires
        all_digits(s),
    ensures
        0 <= frac_micros(s) < 1_000_000,
{
    let t = if s.len() <= 6 { s } else { s.take(6) };
    assert(all_digits(t));
    lemma_digits_val_bound(t);
    lemma_pow10_pos((6 - t.len()) as nat);
    lemma_pow10_add(t.len(), (6 - t.len()) as nat);
    lemma_pow10_values();
    assert(digits_val(t) * pow10((6 - t.len()) as nat) < pow10(t.len()) * pow10(
        (6 - t.len()) as nat,
    )) by (nonlinear_arith)
        requires
            digits_val(t) < pow10(t.len()),
            pow10((6 - t.len()) as nat) >= 1,
    ;
    assert(digits_val(t) * pow10((6 - t.len()) as nat) >= 0) by (nonlinear_arith)
        requires
            digits_val(t) >= 0,
            pow10((6 - t.len()) as nat) >= 1,
    ;
}

/// Whether `s` starts with an explicit sign.
pub open spec fn has_sign(s: Seq<char>) -> bool {
    s.len() > 0 && (s[0] == '+' || s[0] == '-')
}

/// Whether `s` names a negative number.
pub open spec fn is_negative(s: Seq<char>) -> bool {
    s.len() > 0 && s[0] == '-'
}

/// `s` without its sign, if any.
pub open spec fn magnitude(s: Seq<char>) -> Seq<char> {
    if has_sign(s) {
        s.skip(1)
    } else {
        s
    }
}

/// Whether position `k` of `m` holds the decimal point of a well-formed
/// unsigned decimal: a dot with nothing but digits on both sides.
pub open spec fn dot_at(m: Seq<char>, k: int) -> bool {
    &&& 0 <= k < m.len()
    &&& m[k] == '.'
    &&& all_digits(m.take(k))
    &&& all_digits(m.skip(k + 1))
}

/// Whether `m` is a well-formed unsigned decimal: digits, at most one dot,
/// at least one digit.
pub open spec fn is_decimal_magnitude(m: Seq<char>) -> bool {
    ||| (m.len() > 0 && all_digits(m))
    ||| (m.len() >= 2 && exists|k: int| dot_at(m, k))
}

proof fn lemma_dot_unique(m: Seq<char>, k1: int, k2: int)
    requires
        dot_at(m, k1),
        dot_at(m, k2),
    ensures
        k1 == k2,
{
    if k1 < k2 {
        assert(is_digit(m.take(k2)[k1]));
    }
    if k2 < k1 {
        assert(is_digit(m.take(k1)[k2]));
    }
}

/// A sequence with a non-digit, non-dot character is no decimal magnitude.
proof fn lemma_reject_nondigit(m: Seq<char>, p: int)
    requires
        0 <= p < m.len(),
        !is_digit(m[p]),
        forall|k: int| dot_at(m, k) ==> k != p,
    ensures
        !is_decimal_magnitude(m),
{
    assert(!all_digits(m));
    assert forall|k: int| !dot_at(m, k) by {
        if dot_at(m, k) {
            if p < k {
                assert(is_digit(m.take(k)[p]));
            } else if p > k {
                assert(is_digit(m.skip(k + 1)[p - k - 1]));
            }
        }
    }
}

/// The value of a well-formed unsigned decimal, in millionths (fractional
/// digits beyond the sixth dropped).
pub open spec fn magnitude_micros(m: Seq<char>) -> int {
    if all_digits(m) {
        digits_val(m) * 1_000_000
    } else {
        let k = choose|k: int| dot_at(m, k);
        digits_val(m.take(k)) * 1_000_000 + frac_micros(m.skip(k + 1))
    }
}

/// `v` saturated at [`PARSE_CAP_MICROS`].
pub open spec fn cap_micros(v: int) -> int {
    if v > PARSE_CAP_MICROS {
        PARSE_CAP_MICROS as int
    } else {
        v
    }
}

/// `v` saturated at [`PARSE_CAP_UNITS`].
pub open spec fn cap_units(v: int) -> int {
    if v > PARSE_CAP_UNITS {
        PARSE_CAP_UNITS as int
    } else {
        v
    }
}

/// What [`parse_micros`] returns on `s`: the signed, saturated value in
/// millionths where `s` is an optionally signed decimal numeral, and
/// nothing otherwise.
pub open spec fn spec_parse_micros(s: Seq<char>) -> Option<i64> {
    let m = magnitude(s);
    if is_decimal_magnitude(m) {
        let v = cap_micros(magnitude_micros(m));
        Some((if is_negative(s) { -v } else { v }) as i64)
    } else {
        None
    }
}

/// Whether `c` is a decimal digit.
fn is_digit_char(c: char) -> (b: bool)
    ensures
        b == is_digit(c),
{
    let u = c as u32;
    48 <= u && u <= 57
}

/// The value of a decimal digit.
fn digit_value(c: char) -> (d: u8)
    requires
        is_digit(c),
    ensures
        d == digit_val(c),
{
    (c as u32 - 48) as u8
}

/// Ten to the `k`th, for small `k`.
fn pow10_small(k: u8) -> (r: u64)
    requires
        k <= 6,
    ensures
        r == pow10(k as nat),
        1 <= r <= 1_000_000,
{
    proof {
        lemma_pow10_values();
    }
    match k {
        0 => 1,
        1 => 10,
        2 => 100,
        3 => 1000,
        4 => 10000,
        5 => 100000,
        _ => 1000000,
    }
}

/// A saturated whole-and-fraction pair combined into millionths.
fn whole_micros(acc: u64, frac: u64) -> (v: i64)
    requires
        acc <= PARSE_CAP_UNITS,
        frac < 1_000_000,
    ensures
        acc == PARSE_CAP_UNITS ==> v == PARSE_CAP_MICROS,
        acc < PARSE_CAP_UNITS ==> v == acc * 1_000_000 + frac,
        0 <= v <= PARSE_CAP_MICROS,
{
    if acc >= PARSE_CAP_UNITS {
        PARSE_CAP_MICROS
    } else {
        (acc as i64) * 1_000_000 + (frac as i64)
    }
}

/// A non-negative value negated where the numeral had a minus sign.
fn apply_sign(v: i64, neg: bool) -> (r: i64)
    requires
        0 <= v,
    ensures
        r == (if neg { -(v as int) } else { v as int }),
{
    if neg {
        -v
    } else {
        v
    }
}

/// Parse an optionally signed decimal numeral (such as `"2"`, `"-0.5"` or
/// `"17."`) into millionths of a unit, reading at most six fractional
/// digits and saturating the magnitude at [`PARSE_CAP_MICROS`].  Any other
/// text — empty, a lone sign or dot, an exponent, letters — parses to
/// nothing.
pub fn parse_micros(s: &str) -> (r: Option<i64>)
    ensures
        r == spec_parse_micros(s@),
        r is Some ==> -PARSE_CAP_MICROS <= r->Some_0 <= PARSE_CAP_MICROS,
{
    let n: usize = s.unicode_len();
    let mut cs: Vec<char> = Vec::new();
    let mut i: usize = 0;
    while i < n
        invariant
            i <= n,
            n == s@.len(),
            cs@ == s@.take(i as int),
        decreases n - i,
    {
        cs.push(s.get_char(i));
        i = i + 1;
        proof {
            assert(s@.take(i as int) =~= s@.take(i - 1).push(s@[i - 1]));
        }
    }
    proof {
        assert(s@.take(n as int) =~= s@);
    }
    parse_micros_chars(&cs)
}

/// [`parse_micros`] over an already decoded character sequence.
#[verifier::loop_isolation(false)]
#[verifier::rlimit(100)]
fn parse_micros_chars(cs: &Vec<char>) -> (r: Option<i64>)
    ensures
        r == spec_parse_micros(cs@),
        r is Some ==> -PARSE_CAP_MICROS <= r->Some_0 <= PARSE_CAP_MICROS,
{
    let n: usize = cs.len();
    if n == 0 {
        return None;
    }
    let first: char = cs[0];
    let neg: bool = first == '-';
    let start: usize = if neg || first == '+' {
        1
    } else {
        0
    };
    let ghost m = magnitude(cs@);
    proof {
        assert(m =~= cs@.skip(start as int));
    }

    // Integer digits, saturated at PARSE_CAP_UNITS.
    let mut i: usize = start;
    let mut acc: u64 = 0;
    while i < n && is_digit_char(cs[i])
        invariant
            start <= i <= n,
            forall|j: int| start <= j < i ==> is_digit(#[trigger] cs@[j]),
            all_digits(m.take(i - start)),
            digits_val(m.take(i - start)) >= 0,
            acc == cap_units(digits_val(m.take(i - start))),
        decreases n - i,
    {
        let d: u8 = digit_value(cs[i]);
        let nx: u64 = acc * 10 + d as u64;
        let ghost t0 = m.take(i - start);
        let ghost t1 = m.take(i + 1 - start);
        proof {
            assert(t1.drop_last() =~= t0);
            assert(t1.last() == cs@[i as int]);
            assert forall|j: int| 0 <= j < t1.len() implies is_digit(#[trigger] t1[j]) by {
                if j < i - start {
                    assert(t1[j] == t0[j]);
                } else {
                    assert(t1[j] == cs@[i as int]);
                }
            }
            lemma_digits_val_nonneg(t1);
        }
        acc = if nx > PARSE_CAP_UNITS {
            PARSE_CAP_UNITS
        } else {
            nx
        };
        i = i + 1;
    }
    let has_int: bool = i > start;

    if i == n {
        // Digits to the end: a whole number, or nothing at all.
        if !has_int {
            assert(m.len() == 0);
            return None;
        }
        proof {
            assert(m.take(i - start) =~= m);
            assert(is_decimal_magnitude(m));
        }
        let v = whole_micros(acc, 0);
        proof {
            lemma_whole_correspondence(m, acc as int, 0, v as int);
        }
        Some(apply_sign(v, neg))
    } else if cs[i] == '.' {
        let dot: usize = i;
        let ghost k0 = dot - start;
        let ghost f = m.skip(k0 + 1);
        i = i + 1;
        // Fractional digits: the first six count, the rest only validate.
        let mut facc: u64 = 0;
        let mut fcnt: u8 = 0;
        while i < n
            invariant
                dot + 1 <= i <= n,
                forall|j: int| dot + 1 <= j < i ==> is_digit(#[trigger] cs@[j]),
                fcnt == (if i - dot - 1 <= 6 { i - dot - 1 } else { 6int }),
                all_digits(f.take(fcnt as int)),
                facc == digits_val(f.take(fcnt as int)),
                0 <= facc < 1_000_000,
            decreases n - i,
        {
            let c = cs[i];
            if !is_digit_char(c) {
                proof {
                    assert(m[i - start] == cs@[i as int]);
                    // No dot can be well-placed at this position: the dot
                    // already seen sits before it and is no digit.
                    assert forall|k: int| dot_at(m, k) implies k != i - start by {
                        if k == i - start {
                            assert(m.take(k)[k0] == m[k0]);
                            assert(m[k0] == cs@[dot as int]);
                            assert(!is_digit(m[k0]));
                        }
                    }
                    lemma_reject_nondigit(m, i - start);
                }
                return None;
            }
            if fcnt < 6 {
                let d: u8 = digit_value(c);
                let ghost t0 = f.take(fcnt as int);
                let ghost t1 = f.take(fcnt + 1);
                proof {
                    assert(t1.drop_last() =~= t0);
                    assert(f[fcnt as int] == m[k0 + 1 + fcnt]);
                    assert(t1.last() == cs@[i as int]);
                    assert forall|j: int| 0 <= j < t1.len() implies is_digit(#[trigger] t1[j]) by {
                        if j < fcnt {
                            assert(t1[j] == t0[j]);
                        } else {
                            assert(t1[j] == cs@[i as int]);
                        }
                    }
                    lemma_digits_val_bound(t1);
                    lemma_pow10_le_million((fcnt + 1) as nat);
                }
                facc = facc * 10 + d as u64;
                fcnt = fcnt + 1;
            }
            i = i + 1;
        }
        let has_frac: bool = dot + 1 < n;
        if !has_int && !has_frac {
            // A bare dot (or just a sign and a dot) names nothing.
            proof {
                assert(m.len() == 1);
                assert(m[0] == cs@[dot as int]);
                assert(!is_digit(m[0]));
                assert(!all_digits(m));
            }
            return None;
        }
        proof {
            assert(all_digits(m.take(k0))) by {
                assert(forall|j: int| 0 <= j < k0 ==> m[j] == cs@[start + j]);
            }
            assert(all_digits(f)) by {
                assert(forall|j: int| 0 <= j < f.len() ==> f[j] == cs@[dot + 1 + j]);
            }
            assert(m[k0] == cs@[dot as int]);
            assert(dot_at(m, k0));
            assert(m.len() >= 2);
            assert(is_decimal_magnitude(m));
        }
        // The counted fractional digits, shifted into millionths.
        let shift: u8 = 6 - fcnt;
        let shifted: u64 = pow10_small(shift);
        proof {
            assert(facc * shifted < 1_000_000_000_000) by (nonlinear_arith)
                requires
                    0 <= facc < 1_000_000,
                    0 <= shifted <= 1_000_000,
            ;
        }
        let scaled: u64 = facc * shifted;
        proof {
            let t = if f.len() <= 6 { f } else { f.take(6) };
            assert(t =~= f.take(fcnt as int));
            lemma_frac_micros_bound(f);
        }
        let v = whole_micros(acc, scaled);
        proof {
            let kc = choose|k: int| dot_at(m, k);
            lemma_dot_unique(m, kc, k0);
            lemma_whole_correspondence(m, acc as int, scaled as int, v as int);
        }
        Some(apply_sign(v, neg))
    } else {
        // A character that is neither digit nor dot.
        proof {
            assert forall|k: int| dot_at(m, k) implies k != i - start by {
                assert(m[i - start] == cs@[i as int]);
            }
            lemma_reject_nondigit(m, i - start);
        }
        None
    }
}

/// The saturated whole/fraction combination equals the saturated value of
/// the magnitude.
proof fn lemma_whole_correspondence(m: Seq<char>, acc: int, frac: int, v: int)
    requires
        is_decimal_magnitude(m),
        0 <= frac < 1_000_000,
        acc == cap_units(int_part_val(m)),
        frac == frac_part_micros(m),
        acc == PARSE_CAP_UNITS ==> v == PARSE_CAP_MICROS,
        acc < PARSE_CAP_UNITS ==> v == acc * 1_000_000 + frac,
    ensures
        v == cap_micros(magnitude_micros(m)),
{
    let w = int_part_val(m);
    lemma_int_part_nonneg(m);
    if acc == PARSE_CAP_UNITS {
        assert(w >= PARSE_CAP_UNITS);
        assert(w * 1_000_000 >= PARSE_CAP_UNITS * 1_000_000);
    } else {
        assert(acc == w);
    }
}

/// The whole-number part of a decimal magnitude.
pub open spec fn int_part_val(m: Seq<char>) -> int {
    if all_digits(m) {
        digits_val(m)
    } else {
        digits_val(m.take(choose|k: int| dot_at(m, k)))
    }
}

/// The fractional part of a decimal magnitude, in millionths.
pub open spec fn frac_part_micros(m: Seq<char>) -> int {
    if all_digits(m) {
        0
    } else {
        frac_micros(m.skip((choose|k: int| dot_at(m, k)) + 1))
    }
}

proof fn lemma_int_part_nonneg(m: Seq<char>)
    requires
        is_decimal_magnitude(m),
    ensures
        int_part_val(m) >= 0,
        magnitude_micros(m) == int_part_val(m) * 1_000_000 + frac_part_micros(m),
{
    if all_digits(m) {
        lemma_digits_val_nonneg(m);
    } else {
        let k = choose|k: int| dot_at(m, k);
        assert(dot_at(m, k));
        lemma_digits_val_nonneg(m.take(k));
    }
}

/// The digit character for a value below ten.
pub open spec fn digit_char(d: int) -> char {
    if d == 0 {
        '0'
    } else if d == 1 {
        '1'
    } else if d == 2 {
        '2'
    } else if d == 3 {
        '3'
    } else if d == 4 {
        '4'
    } else if d == 5 {
        '5'
    } else if d == 6 {
        '6'
    } else if d == 7 {
        '7'
    } else if d == 8 {
        '8'
    } else {
        '9'
    }
}

/// The decimal numeral of `n`, most significant digit first, no leading
/// zeros (a single `'0'` for zero).
pub open spec fn spec_decimal_digits(n: nat) -> Seq<char>
    decreases n,
{
    if n < 10 {
        seq![digit_char(n as int)]
    } else {
        spec_decimal_digits(n / 10) + seq![digit_char((n % 10) as int)]
    }
}

proof fn lemma_digit_char_is_digit(d: int)
    requires
        0 <= d < 10,
    ensures
        is_digit(digit_char(d)),
        digit_val(digit_char(d)) == d,
{
    assert('0' as u32 == 48 && '1' as u32 == 49 && '2' as u32 == 50 && '3' as u32 == 51
        && '4' as u32 == 52 && '5' as u32 == 53 && '6' as u32 == 54 && '7' as u32 == 55
        && '8' as u32 == 56 && '9' as u32 == 57);
}

proof fn lemma_decimal_digits_well_formed(n: nat)
    ensures
        spec_decimal_digits(n).len() >= 1,
        all_digits(spec_decimal_digits(n)),
        digits_val(spec_decimal_digits(n)) == n,
    decreases n,
{
    if n < 10 {
        lemma_digit_char_is_digit(n as int);
        let s = spec_decimal_digits(n);
        assert(s.drop_last() =~= Seq::<char>::empty());
        assert(s.last() == digit_char(n as int));
        assert(digits_val(Seq::<char>::empty()) == 0);
        assert(digits_val(s) == digits_val(s.drop_last()) * 10 + digit_val(s.last()));
    } else {
        lemma_decimal_digits_well_formed(n / 10);
        lemma_digit_char_is_digit((n % 10) as int);
        let a = spec_decimal_digits(n / 10);
        let s = spec_decimal_digits(n);
        assert(s.drop_last() =~= a);
        assert(s.last() == digit_char((n % 10) as int));
        assert forall|i: int| 0 <= i < s.len() implies is_digit(#[trigger] s[i]) by {
            if i < a.len() {
                assert(s[i] == a[i]);
            }
        }
        assert(digits_val(s) == (n / 10) * 10 + n % 10);
        vstd::arithmetic::div_mod::lemma_fundamental_div_mod(n as int, 10);
    }
}

/// The one-character text of a digit.
fn digit_str(d: u8) -> (s: &'static str)
    requires
        d < 10,
    ensures
        s@ == seq![digit_char(d as int)],
{
    proof {
        reveal_strlit("0");
        reveal_strlit("1");
        reveal_strlit("2");
        reveal_strlit("3");
        reveal_strlit("4");
        reveal_strlit("5");
        reveal_strlit("6");
        reveal_strlit("7");
        reveal_strlit("8");
        reveal_strlit("9");
        assert("0"@ =~= seq!['0']);
        assert("1"@ =~= seq!['1']);
        assert("2"@ =~= seq!['2']);
        assert("3"@ =~= seq!['3']);
        assert("4"@ =~= seq!['4']);
        assert("5"@ =~= seq!['5']);
        assert("6"@ =~= seq!['6']);
        assert("7"@ =~= seq!['7']);
        assert("8"@ =~= seq!['8']);
        assert("9"@ =~= seq!['9']);
    }
    match d {
        0 => "0",
        1 => "1",
        2 => "2",
        3 => "3",
        4 => "4",
        5 => "5",
        6 => "6",
        7 => "7",
        8 => "8",
        _ => "9",
    }
}

/// The digit characters named by a little-endian digit list, read back to
/// front.
pub open spec fn rev_digit_chars(ds: Seq<u8>) -> Seq<char> {
    Seq::new(ds.len(), |i: int| digit_char(ds[ds.len() - 1 - i] as int))
}

/// The decimal numeral of `n`.
#[verifier::loop_isolation(false)]
pub fn decimal_string(n: u64) -> (s: String)
    ensures
        s@ == spec_decimal_digits(n as nat),
{
    // Digits least significant first.
    let mut digits: Vec<u8> = Vec::new();
    let mut m: u64 = n;
    digits.push((m % 10) as u8);
    m = m / 10;
    proof {
        assert(rev_digit_chars(digits@) =~= seq![digit_char((n % 10) as int)]);
    }
    while m > 0
        invariant
            digits@.len() >= 1,
            forall|j: int| 0 <= j < digits@.len() ==> digits@[j] < 10,
            spec_decimal_digits(n as nat) == (if m > 0 {
                spec_decimal_digits(m as nat)
            } else {
                Seq::<char>::empty()
            }) + rev_digit_chars(digits@),
        decreases m,
    {
        let ghost rev0 = rev_digit_chars(digits@);
        let d: u8 = (m % 10) as u8;
        digits.push(d);
        m = m / 10;
        proof {
            assert(rev_digit_chars(digits@) =~= seq![digit_char(d as int)] + rev0);
            if m > 0 {
                assert(spec_decimal_digits((m * 10 + d) as nat) == spec_decimal_digits(m as nat)
                    + seq![digit_char(d as int)]);
                assert(spec_decimal_digits(m as nat) + (seq![digit_char(d as int)] + rev0)
                    =~= (spec_decimal_digits(m as nat) + seq![digit_char(d as int)]) + rev0);
            } else {
                assert(spec_decimal_digits((m * 10 + d) as nat) == seq![digit_char(d as int)]);
                assert(Seq::<char>::empty() + (seq![digit_char(d as int)] + rev0)
                    =~= seq![digit_char(d as int)] + rev0);
            }
        }
    }
    // Emit most significant first.
    let mut s = String::new();
    let mut i: usize = digits.len();
    while i > 0
        invariant
            i <= digits@.len(),
            s@ == rev_digit_chars(digits@).take(digits@.len() - i),
        decreases i,
    {
        i = i - 1;
        let ghost s0 = s@;
        s.append(digit_str(digits[i]));
        proof {
            let rev = rev_digit_chars(digits@);
            let k = digits@.len() - i - 1;
            assert(rev[k] == digit_char(digits@[i as int] as int));
            assert(rev.take(k + 1) =~= rev.take(k).push(rev[k]));
            assert(s@ =~= s0.push(rev[k]));
        }
    }
    proof {
        assert(rev_digit_chars(digits@).take(digits@.len() as int) =~= rev_digit_chars(digits@));
        assert(Seq::<char>::empty() + rev_digit_chars(digits@) =~= rev_digit_chars(digits@));
    }
    s
}

/// The display text of `v` millionths at the given number of decimal places
/// (at most two): sign, whole part, and — where places are asked for — a dot
/// and the zero-padded fraction, rounded half away from zero.
pub open spec fn spec_format_micros(v: int, decimals: u8) -> Seq<char> {
    let d: int = if decimals == 0 {
        0
    } else if decimals == 1 {
        1
    } else {
        2
    };
    let p = pow10((6 - d) as nat);
    let mag = if v < 0 {
        -v
    } else {
        v
    };
    let q = (mag + p / 2) / p;
    let sign: Seq<char> = if v < 0 {
        seq!['-']
    } else {
        Seq::<char>::empty()
    };
    let whole = q / pow10(d as nat);
    let frac = q % pow10(d as nat);
    if d == 0 {
        sign + spec_decimal_digits(q as nat)
    } else if d == 1 {
        sign + spec_decimal_digits(whole as nat) + seq!['.', digit_char(frac)]
    } else {
        sign + spec_decimal_digits(whole as nat) + seq![
            '.',
            digit_char(frac / 10),
            digit_char(frac % 10),
        ]
    }
}

/// Millionths in one step of the display at the given number of decimal
/// places (more than two places are shown as two).
pub open spec fn display_step(decimals: u8) -> int {
    if decimals == 0 {
        1_000_000
    } else if decimals == 1 {
        100_000
    } else {
        10_000
    }
}

/// The number a value box displays for `v` millionths: `v` rounded to the
/// display granularity, halves away from zero.
pub open spec fn spec_display_value(v: int, decimals: u8) -> int {
    let p = display_step(decimals);
    let q = ((if v < 0 {
        -v
    } else {
        v
    }) + p / 2) / p;
    if v < 0 {
        -(q * p)
    } else {
        q * p
    }
}

proof fn lemma_sign_chars()
    ensures
        '+' as u32 == 43,
        '-' as u32 == 45,
        '.' as u32 == 46,
{
}

/// The integer-part digits and the fraction characters of a formatted
/// number assemble into a well-formed decimal whose value is the displayed
/// number of millionths.
proof fn lemma_formatted_magnitude(m: Seq<char>, whole: int, fracs: Seq<char>, fval: int, p: int)
    requires
        0 <= whole,
        m =~= spec_decimal_digits(whole as nat) + seq!['.'] + fracs,
        all_digits(fracs),
        1 <= fracs.len() <= 6,
        fval == digits_val(fracs) * pow10((6 - fracs.len()) as nat),
    ensures
        is_decimal_magnitude(m),
        magnitude_micros(m) == whole * 1_000_000 + fval,
        !has_sign(m),
{
    let dw = spec_decimal_digits(whole as nat);
    lemma_decimal_digits_well_formed(whole as nat);
    lemma_sign_chars();
    let k0 = dw.len() as int;
    assert(m[k0] == '.');
    assert(m.take(k0) =~= dw);
    assert(m.skip(k0 + 1) =~= fracs);
    assert(dot_at(m, k0));
    assert(m.len() >= 2);
    assert(is_decimal_magnitude(m));
    assert(!is_digit(m[k0]));
    assert(!all_digits(m));
    let kc = choose|k: int| dot_at(m, k);
    lemma_dot_unique(m, kc, k0);
    assert(frac_micros(fracs) == fval) by {
        assert(fracs.len() <= 6);
    }
    assert(m[0] == dw[0] && is_digit(m[0]));
}

/// What a value box shows reads back as the number it shows: formatting any
/// in-range value at any number of decimal places and parsing the text
/// again yields exactly the displayed (rounded) value.
pub proof fn lemma_display_round_trip(v: int, decimals: u8)
    requires
        -PARSE_CAP_MICROS <= v <= PARSE_CAP_MICROS,
    ensures
        spec_parse_micros(spec_format_micros(v, decimals)) == Some(
            (spec_display_value(v, decimals)) as i64,
        ),
{
    lemma_pow10_values();
    lemma_sign_chars();
    let d: int = if decimals == 0 {
        0
    } else if decimals == 1 {
        1
    } else {
        2
    };
    let p = pow10((6 - d) as nat);
    let pd = pow10(d as nat);
    let mag = if v < 0 {
        -v
    } else {
        v
    };
    let q = (mag + p / 2) / p;
    let whole = q / pd;
    let frac = q % pd;
    let s = spec_format_micros(v, decimals);
    let sign: Seq<char> = if v < 0 {
        seq!['-']
    } else {
        Seq::<char>::empty()
    };

    // The displayed magnitude, in steps, stays under the parse cap.
    assert(0 <= q && q * p <= PARSE_CAP_MICROS && q == pd * whole + frac && 0 <= frac < pd)
        by (nonlinear_arith)
        requires
            q == (mag + p / 2) / p,
            whole == q / pd,
            frac == q % pd,
            0 <= mag <= PARSE_CAP_MICROS,
            p == 10_000 || p == 100_000 || p == 1_000_000,
            pd == 1 || pd == 10 || pd == 100,
            p * pd == 1_000_000,
            (PARSE_CAP_MICROS as int) % p == 0,
    ;

    let body: Seq<char> = if d == 0 {
        spec_decimal_digits(q as nat)
    } else if d == 1 {
        spec_decimal_digits(whole as nat) + seq!['.', digit_char(frac)]
    } else {
        spec_decimal_digits(whole as nat) + seq!['.', digit_char(frac / 10), digit_char(frac % 10)]
    };
    assert(s =~= sign + body);

    // The unsigned part is a well-formed decimal naming q steps.
    if d == 0 {
        lemma_decimal_digits_well_formed(q as nat);
        assert(magnitude_micros(body) == q * p);
    } else if d == 1 {
        lemma_digit_char_is_digit(frac);
        let fracs = seq![digit_char(frac)];
        assert(fracs.drop_last() =~= Seq::<char>::empty());
        assert(fracs.last() == digit_char(frac));
        assert(digits_val(Seq::<char>::empty()) == 0);
        assert(digits_val(fracs) == frac);
        lemma_formatted_magnitude(body, whole, fracs, frac * 100_000, p);
        assert(magnitude_micros(body) == whole * 1_000_000 + frac * 100_000);
        assert(magnitude_micros(body) == q * p);
    } else {
        lemma_digit_char_is_digit(frac / 10);
        lemma_digit_char_is_digit(frac % 10);
        let fracs = seq![digit_char(frac / 10), digit_char(frac % 10)];
        assert(fracs.drop_last() =~= seq![digit_char(frac / 10)]);
        assert(fracs.last() == digit_char(frac % 10));
        assert(seq![digit_char(frac / 10)].drop_last() =~= Seq::<char>::empty());
        assert(seq![digit_char(frac / 10)].last() == digit_char(frac / 10));
        assert(digits_val(Seq::<char>::empty()) == 0);
        assert(digits_val(seq![digit_char(frac / 10)]) == frac / 10);
        assert(digits_val(fracs) == (frac / 10) * 10 + frac % 10);
        assert((frac / 10) * 10 + frac % 10 == frac) by (nonlinear_arith)
            requires
                0 <= frac < 100,
        ;
        lemma_formatted_magnitude(body, whole, fracs, frac * 10_000, p);
        assert(magnitude_micros(body) == whole * 1_000_000 + frac * 10_000);
        assert(magnitude_micros(body) == q * p);
    }
    assert(is_decimal_magnitude(body) && !has_sign(body)) by {
        if d == 0 {
            lemma_decimal_digits_well_formed(q as nat);
            assert(is_digit(body[0]));
        }
    }

    // Strip the sign the same way the parser does.
    if v < 0 {
        assert(s[0] == '-');
        assert(has_sign(s) && is_negative(s));
        assert(magnitude(s) =~= body);
    } else {
        assert(s =~= body);
        assert(!has_sign(s) && !is_negative(s));
        assert(magnitude(s) == s);
        assert(magnitude(s) =~= body);
    }
    assert(cap_micros(magnitude_micros(body)) == q * p);
}

/// A value already on the display grid survives the round trip unchanged:
/// showing it and submitting the untouched text commits the same value.
pub proof fn lemma_display_exact_round_trip(v: int, decimals: u8)
    requires
        -PARSE_CAP_MICROS <= v <= PARSE_CAP_MICROS,
        v % display_step(decimals) == 0,
    ensures
        spec_parse_micros(spec_format_micros(v, decimals)) == Some(v as i64),
{
    lemma_display_round_trip(v, decimals);
    let p = display_step(decimals);
    let mag = if v < 0 {
        -v
    } else {
        v
    };
    assert((mag + p / 2) / p * p == mag) by (nonlinear_arith)
        requires
            0 <= mag,
            mag % p == 0,
            p == 10_000 || p == 100_000 || p == 1_000_000,
    ;
}

/// Render `v` millionths with the given number of decimal places (zero, one
/// or two — more are shown as two), rounding half away from zero, as the
/// value boxes display their numbers.
#[verifier::loop_isolation(false)]
pub fn format_micros(v: i64, decimals: u8) -> (s: String)
    requires
        v > i64::MIN,
    ensures
        s@ == spec_format_micros(v as int, decimals),
{
    let d: u8 = if decimals == 0 {
        0
    } else if decimals == 1 {
        1
    } else {
        2
    };
    proof {
        lemma_pow10_values();
    }
    let p: u64 = pow10_small(6 - d);
    let neg: bool = v < 0;
    let mag: u64 = if neg {
        (-v) as u64
    } else {
        v as u64
    };
    let q: u64 = (mag + p / 2) / p;
    let pd: u64 = pow10_small(d);
    let whole: u64 = q / pd;
    let frac: u64 = q % pd;
    let mut s = String::new();
    proof {
        reveal_strlit("-");
        reveal_strlit(".");
        assert("-"@ =~= seq!['-']);
        assert("."@ =~= seq!['.']);
    }
    if neg {
        s.append("-");
    }
    let ghost sign = s@;
    let w = decimal_string(if d == 0 {
        q
    } else {
        whole
    });
    s.append(w.as_str());
    if d == 1 {
        s.append(".");
        s.append(digit_str(frac as u8));
    } else if d == 2 {
        s.append(".");
        s.append(digit_str((frac / 10) as u8));
        s.append(digit_str((frac % 10) as u8));
    }
    proof {
        assert(s@ =~= spec_format_micros(v as int, decimals));
    }
    s
}

} // verus!
