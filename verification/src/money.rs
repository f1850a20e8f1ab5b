//! Fixed-point money values.
//!
//! The platform reports cost-per-action values as decimal strings and the
//! policy threshold is a decimal ceiling. Both are held here as integer
//! counts of millionths of a currency unit ("micros"), so that every
//! comparison and every rendering is exact.

use vstd::prelude::*;
use vstd::string::StrSliceExecFns;
use vstd::string::StringExecFns;
use crate::text;

verus! {

/// Micros per whole currency unit.
pub const MONEY_SCALE: u64 = 1000000;

pub open spec fn spec_pow10(w: nat) -> nat
    decreases w,
{
    if w == 0 {
        1
    } else {
        10 * spec_pow10((w - 1) as nat)
    }
}

pub open spec fn spec_is_digit(c: char) -> bool {
    '0' <= c && c <= '9'
}

/// The numeric value of a decimal digit character.
pub open spec fn spec_digit_val(c: char) -> nat {
    ((c as u32) - 48) as nat
}

/// The value of a string of decimal digits, most significant first.
pub open spec fn spec_digits_val(s: Seq<char>) -> nat
    decreases s.len(),
{
    if s.len() == 0 {
        0
    } else {
        spec_digits_val(s.drop_last()) * 10 + spec_digit_val(s.last())
    }
}

pub open spec fn spec_all_digits(s: Seq<char>) -> bool {
    forall|i: int| 0 <= i < s.len() ==> spec_is_digit(s[i])
}

/// The index of the first `'.'` in `s`, or `s.len()` if there is none.
pub open spec fn spec_dot_index(s: Seq<char>) -> int
    decreases s.len(),
{
    if s.len() == 0 {
        0
    } else if s[0] == '.' {
        0
    } else {
        1 + spec_dot_index(s.drop_first())
    }
}

proof fn lemma_dot_index(s: Seq<char>)
    ensures
        0 <= spec_dot_index(s) <= s.len(),
        spec_dot_index(s) < s.len() ==> s[spec_dot_index(s)] == '.',
        forall|j: int| 0 <= j < spec_dot_index(s) ==> s[j] != '.',
    decreases s.len(),
{
    if s.len() > 0 && s[0] != '.' {
        lemma_dot_index(s.drop_first());
        assert forall|j: int| 0 <= j < spec_dot_index(s) implies s[j] != '.' by {
            if j > 0 {
                assert(s.drop_first()[j - 1] != '.');
            }
        }
    }
}

/// The integer part of a decimal string: the characters before the first dot.
pub open spec fn spec_int_part(s: Seq<char>) -> Seq<char> {
    s.take(spec_dot_index(s))
}

/// The fractional part of a decimal string: the characters after the first
/// dot, or nothing when there is no dot.
pub open spec fn spec_frac_part(s: Seq<char>) -> Seq<char> {
    if spec_dot_index(s) < s.len() {
        s.skip(spec_dot_index(s) + 1)
    } else {
        Seq::empty()
    }
}

/// A well-formed decimal number: digits with at most one dot, and at least
/// one digit somewhere.
pub open spec fn spec_valid_decimal(s: Seq<char>) -> bool {
    &&& spec_all_digits(spec_int_part(s))
    &&& spec_all_digits(spec_frac_part(s))
    &&& spec_int_part(s).len() + spec_frac_part(s).len() > 0
}

/// The value of the fractional digits in micros: the first six fractional
/// digits are kept, the rest are truncated.
pub open spec fn spec_frac_micros(frac: Seq<char>) -> nat {
    if frac.len() >= 6 {
        spec_digits_val(frac.take(6))
    } else {
        spec_digits_val(frac) * spec_pow10((6 - frac.len()) as nat)
    }
}

/// The exact mathematical value of a decimal string, in micros.
pub open spec fn spec_decimal_micros(s: Seq<char>) -> nat {
    spec_digits_val(spec_int_part(s)) * (MONEY_SCALE as nat) + spec_frac_micros(spec_frac_part(s))
}

/// What parsing a money string yields: `None` for a malformed string,
/// otherwise the value in micros, saturated at `u64::MAX`.
pub open spec fn spec_parse_money(s: Seq<char>) -> Option<u64> {
    if spec_valid_decimal(s) {
        if spec_decimal_micros(s) > u64::MAX {
            Some(u64::MAX)
        } else {
            Some(spec_decimal_micros(s) as u64)
        }
    } else {
        None
    }
}

/// Multiplies a saturating accumulator by ten and adds a digit.
fn push_digit(acc: u64, sat: bool, d: u64) -> (r: (u64, bool))
    requires
        d < 10,
    ensures
        ({
            let (acc2, sat2) = r;
            &&& (!sat && acc * 10 + d <= u64::MAX) ==> (!sat2 && acc2 == acc * 10 + d)
            &&& (!sat && acc * 10 + d > u64::MAX) ==> sat2
            &&& sat ==> sat2
        }),
{
    if sat {
        (0, true)
    } else if acc > (u64::MAX - d) / 10 {
        proof {
            assert(acc * 10 + d > u64::MAX) by (nonlinear_arith)
                requires
                    acc > (u64::MAX - d) / 10,
                    d < 10,
            ;
        }
        (0, true)
    } else {
        proof {
            assert(acc * 10 + d <= u64::MAX) by (nonlinear_arith)
                requires
                    acc <= (u64::MAX - d) / 10,
                    d < 10,
            ;
        }
        (acc * 10 + d, false)
    }
}

proof fn lemma_digits_val_sat(s: Seq<char>, c: char)
    requires
        spec_digits_val(s) > u64::MAX,
    ensures
        spec_digits_val(s.push(c)) > u64::MAX,
{
    assert(s.push(c).drop_last() =~= s);
    assert(s.push(c).last() == c);
    assert(spec_digits_val(s.push(c)) == spec_digits_val(s) * 10 + spec_digit_val(c));
    assert(spec_digits_val(s) * 10 >= spec_digits_val(s)) by (nonlinear_arith);
}

fn char_digit_val(c: char) -> (d: u64)
    requires
        spec_is_digit(c),
    ensures
        d == spec_digit_val(c),
        d < 10,
{
    ((c as u32) - 48) as u64
}

/// Parses a decimal money string into micros, saturating at `u64::MAX`.
/// Returns `None` exactly on malformed input.
pub fn parse_money(s: &str) -> (r: Option<u64>)
    ensures
        r == spec_parse_money(s@),
{
    let n = s.unicode_len();
    proof {
        lemma_dot_index(s@);
    }
    let mut i: usize = 0;
    let mut acc: u64 = 0;
    let mut sat: bool = false;
    // `scanning` drops to zero when the dot is reached.
    let mut scanning: usize = 1;
    // Scan the integer part up to the first dot.
    while i < n && scanning == 1
        invariant
            0 <= i <= n,
            n == s@.len(),
            scanning <= 1,
            scanning == 0 ==> i < n && s@[i as int] == '.',
            forall|j: int| 0 <= j < i ==> s@[j] != '.',
            forall|j: int| 0 <= j < i ==> spec_is_digit(s@[j]),
            !sat ==> acc == spec_digits_val(s@.take(i as int)),
            sat ==> spec_digits_val(s@.take(i as int)) > u64::MAX,
        decreases n - i + scanning,
    {
        let c = s.get_char(i);
        if c == '.' {
            scanning = 0;
        } else if !(c >= '0' && c <= '9') {
            proof {
                lemma_dot_index(s@);
                assert(spec_dot_index(s@) > i || spec_dot_index(s@) == i);
                if spec_dot_index(s@) > i {
                    assert(spec_int_part(s@)[i as int] == s@[i as int]);
                    assert(!spec_all_digits(spec_int_part(s@)));
                }
                if spec_dot_index(s@) == i {
                    assert(s@[i as int] == '.');
                }
            }
            return None;
        } else {
            let d = char_digit_val(c);
            let ghost prefix = s@.take(i as int);
            let r = push_digit(acc, sat, d);
            proof {
                assert(s@.take(i as int + 1).drop_last() =~= prefix);
                assert(s@.take(i as int + 1).last() == s@[i as int]);
                if sat {
                    lemma_digits_val_sat(prefix, s@[i as int]);
                }
            }
            acc = r.0;
            sat = r.1;
            i += 1;
        }
    }
    // `i` now sits on the dot, or at the end of the string.
    let di = i;
    proof {
        lemma_dot_index(s@);
        if di < n {
            assert(s@[di as int] == '.');
        } else {
            assert(forall|j: int| 0 <= j < s@.len() ==> s@[j] != '.');
            if spec_dot_index(s@) < s@.len() {
                assert(s@[spec_dot_index(s@)] == '.');
            }
        }
        assert(spec_dot_index(s@) == di as int);
        assert(spec_int_part(s@) =~= s@.take(di as int));
    }
    let int_sat = sat;
    let int_acc = acc;
    // Scan the fractional part, keeping only the first six digits.
    let mut frac: u64 = 0;
    let mut fdigits: u64 = 0;
    let fstart = if di < n {
        di + 1
    } else {
        di
    };
    let mut k: usize = fstart;
    proof {
        if di < n {
            assert(spec_frac_part(s@) =~= s@.skip(di as int + 1));
        } else {
            assert(spec_frac_part(s@) =~= Seq::<char>::empty());
        }
    }
    while k < n
        invariant
            fstart <= k <= n,
            n == s@.len(),
            di as int == spec_dot_index(s@),
            di < n ==> fstart == di + 1,
            di >= n ==> fstart == di && k == fstart,
            spec_frac_part(s@) == s@.skip(fstart as int),
            fdigits as int == if k - fstart <= 6 { k - fstart } else { 6 },
            forall|j: int| fstart <= j < k ==> spec_is_digit(s@[j]),
            frac == spec_digits_val(s@.skip(fstart as int).take(fdigits as int)),
            frac < spec_pow10(fdigits as nat),
            fdigits <= 6,
        decreases n - k,
    {
        let c = s.get_char(k);
        if !(c >= '0' && c <= '9') {
            proof {
                assert(spec_frac_part(s@)[k - fstart] == s@[k as int]);
                assert(!spec_all_digits(spec_frac_part(s@)));
            }
            return None;
        }
        if fdigits < 6 {
            let d = char_digit_val(c);
            let ghost fpref = s@.skip(fstart as int).take(fdigits as int);
            proof {
                assert(s@.skip(fstart as int).take(fdigits as int + 1).drop_last() =~= fpref);
                assert(s@.skip(fstart as int).take(fdigits as int + 1).last() == s@[k as int]);
                assert(frac * 10 + d < spec_pow10((fdigits + 1) as nat)) by {
                    assert(spec_pow10((fdigits + 1) as nat) == 10 * spec_pow10(fdigits as nat));
                    assert(frac * 10 + d < 10 * spec_pow10(fdigits as nat)) by (nonlinear_arith)
                        requires
                            frac < spec_pow10(fdigits as nat),
                            d < 10,
                    ;
                }
                assert(spec_pow10(6) == 1000000) by {
                    assert(spec_pow10(0) == 1);
                    assert(spec_pow10(1) == 10);
                    assert(spec_pow10(2) == 100);
                    assert(spec_pow10(3) == 1000);
                    assert(spec_pow10(4) == 10000);
                    assert(spec_pow10(5) == 100000);
                    assert(spec_pow10(6) == 1000000);
                }
                assert(spec_pow10((fdigits + 1) as nat) <= spec_pow10(6)) by {
                    lemma_pow10_le((fdigits + 1) as nat, 6);
                }
            }
            frac = frac * 10 + d;
            fdigits += 1;
        }
        k += 1;
    }
    // Both parts scanned; assemble the verdict.
    if di == n && fstart == n && di == 0 {
        // Empty string: no digits at all.
        proof {
            assert(spec_int_part(s@).len() == 0);
            assert(spec_frac_part(s@).len() == 0);
        }
        return None;
    }
    if di == 0 && fstart == 1 && n == 1 {
        // A lone dot: no digits at all.
        proof {
            assert(spec_int_part(s@).len() == 0);
            assert(spec_frac_part(s@).len() == 0);
        }
        return None;
    }
    proof {
        assert(spec_all_digits(spec_int_part(s@))) by {
            assert forall|j: int| 0 <= j < spec_int_part(s@).len() implies spec_is_digit(
                spec_int_part(s@)[j],
            ) by {
                assert(spec_int_part(s@)[j] == s@[j]);
            }
        }
        assert(spec_all_digits(spec_frac_part(s@))) by {
            assert forall|j: int| 0 <= j < spec_frac_part(s@).len() implies spec_is_digit(
                spec_frac_part(s@)[j],
            ) by {
                assert(spec_frac_part(s@)[j] == s@[fstart + j]);
            }
        }
        assert(spec_int_part(s@).len() + spec_frac_part(s@).len() > 0);
        assert(spec_valid_decimal(s@));
    }
    // The fractional value in micros.
    let ghost fpart = spec_frac_part(s@);
    let mut fval: u64 = frac;
    let mut pad: u64 = if 6 - fdigits <= 6 {
        6 - fdigits
    } else {
        0
    };
    proof {
        if fpart.len() >= 6 {
            assert(fdigits == 6);
            assert(s@.skip(fstart as int).take(6) =~= fpart.take(6));
            assert(frac == spec_frac_micros(fpart));
        } else {
            assert(fdigits as int == fpart.len());
            assert(s@.skip(fstart as int).take(fdigits as int) =~= fpart);
            assert(frac == spec_digits_val(fpart));
        }
    }
    proof {
        assert(spec_pow10(6) == 1000000) by {
            assert(spec_pow10(0) == 1);
            assert(spec_pow10(1) == 10);
            assert(spec_pow10(2) == 100);
            assert(spec_pow10(3) == 1000);
            assert(spec_pow10(4) == 10000);
            assert(spec_pow10(5) == 100000);
        }
        lemma_pow10_le(fdigits as nat, 6);
        lemma_pow10_pos((6 - fdigits) as nat);
        if fpart.len() >= 6 {
            assert(spec_pow10(0) == 1);
        }
    }
    while pad > 0
        invariant
            spec_all_digits(fpart),
            fval as nat * spec_pow10(pad as nat) == spec_frac_micros(fpart),
            fval < 1000000,
            pad <= 6,
        decreases pad,
    {
        proof {
            assert(spec_pow10(pad as nat) == 10 * spec_pow10((pad - 1) as nat));
            assert((fval * 10) as nat * spec_pow10((pad - 1) as nat) == fval as nat * (10
                * spec_pow10((pad - 1) as nat))) by (nonlinear_arith);
            assert(fval * 10 < 10000000) by (nonlinear_arith)
                requires
                    fval < 1000000,
            ;
            lemma_frac_micros_bound(fpart);
            assert(fval * 10 * spec_pow10((pad - 1) as nat) == spec_frac_micros(fpart));
            assert(spec_pow10((pad - 1) as nat) >= 1) by {
                lemma_pow10_pos((pad - 1) as nat);
            }
            assert(fval * 10 <= fval * 10 * spec_pow10((pad - 1) as nat)) by (nonlinear_arith)
                requires
                    spec_pow10((pad - 1) as nat) >= 1,
            ;
        }
        fval = fval * 10;
        pad -= 1;
    }
    proof {
        assert(pad == 0);
        assert(spec_pow10(pad as nat) == 1);
        assert(fval as nat * spec_pow10(pad as nat) == fval as nat * 1) by (nonlinear_arith)
            requires
                spec_pow10(pad as nat) == 1,
        ;
        assert(fval as nat == spec_frac_micros(fpart));
    }
    // Combine: integer part scaled to micros, plus the fractional micros.
    if int_sat {
        proof {
            assert(spec_digits_val(spec_int_part(s@)) * (MONEY_SCALE as nat) >= spec_digits_val(
                spec_int_part(s@),
            )) by (nonlinear_arith);
        }
        return Some(u64::MAX);
    }
    if int_acc > (u64::MAX - fval) / MONEY_SCALE {
        proof {
            assert(int_acc as nat * (MONEY_SCALE as nat) + fval as nat > u64::MAX) by (
            nonlinear_arith)
                requires
                    int_acc > (u64::MAX - fval) / (MONEY_SCALE as int),
                    fval < MONEY_SCALE,
                    MONEY_SCALE == 1000000,
            ;
        }
        return Some(u64::MAX);
    }
    proof {
        assert(int_acc as nat * (MONEY_SCALE as nat) + fval as nat <= u64::MAX) by (
        nonlinear_arith)
            requires
                int_acc <= (u64::MAX - fval) / (MONEY_SCALE as int),
                fval < MONEY_SCALE,
                MONEY_SCALE == 1000000,
        ;
    }
    Some(int_acc * MONEY_SCALE + fval)
}

proof fn lemma_pow10_le(a: nat, b: nat)
    requires
        a <= b,
    ensures
        spec_pow10(a) <= spec_pow10(b),
    decreases b,
{
    if a < b {
        lemma_pow10_le(a, (b - 1) as nat);
        lemma_pow10_pos((b - 1) as nat);
    }
}

proof fn lemma_pow10_pos(w: nat)
    ensures
        spec_pow10(w) >= 1,
    decreases w,
{
    if w > 0 {
        lemma_pow10_pos((w - 1) as nat);
    }
}

proof fn lemma_frac_micros_bound(frac: Seq<char>)
    requires
        spec_all_digits(frac),
    ensures
        spec_frac_micros(frac) < 1000000,
{
    assert(spec_pow10(6) == 1000000) by {
        assert(spec_pow10(0) == 1);
        assert(spec_pow10(1) == 10);
        assert(spec_pow10(2) == 100);
        assert(spec_pow10(3) == 1000);
        assert(spec_pow10(4) == 10000);
        assert(spec_pow10(5) == 100000);
    }
    if frac.len() >= 6 {
        assert(spec_all_digits(frac.take(6))) by {
            assert(forall|i: int| 0 <= i < 6 ==> frac.take(6)[i] == frac[i]);
        }
        lemma_digits_val_bound(frac.take(6));
        assert(frac.take(6).len() == 6);
    } else {
        lemma_digits_val_bound(frac);
        let k = frac.len();
        lemma_pow10_le(k, 6);
        lemma_pow10_pos((6 - k) as nat);
        assert(spec_digits_val(frac) < spec_pow10(k));
        assert(spec_digits_val(frac) * spec_pow10((6 - k) as nat) < spec_pow10(k) * spec_pow10(
            (6 - k) as nat,
        )) by (nonlinear_arith)
            requires
                spec_digits_val(frac) < spec_pow10(k),
                spec_pow10((6 - k) as nat) >= 1,
        ;
        lemma_pow10_mul(k, (6 - k) as nat);
    }
}

proof fn lemma_pow10_mul(a: nat, b: nat)
    ensures
        spec_pow10(a) * spec_pow10(b) == spec_pow10(a + b),
    decreases a,
{
    if a == 0 {
        assert(spec_pow10(0) == 1);
    } else {
        lemma_pow10_mul((a - 1) as nat, b);
        assert(spec_pow10(a) * spec_pow10(b) == 10 * spec_pow10((a - 1) as nat) * spec_pow10(b));
        assert(10 * spec_pow10((a - 1) as nat) * spec_pow10(b) == 10 * (spec_pow10(
            (a - 1) as nat,
        ) * spec_pow10(b))) by (nonlinear_arith);
    }
}

proof fn lemma_digits_val_bound(s: Seq<char>)
    requires
        spec_all_digits(s),
    ensures
        spec_digits_val(s) < spec_pow10(s.len()),
    decreases s.len(),
{
    if s.len() == 0 {
        assert(spec_pow10(0) == 1);
    } else {
        lemma_digits_val_bound(s.drop_last());
        assert(spec_all_digits(s.drop_last())) by {
            assert(forall|i: int| 0 <= i < s.len() - 1 ==> s.drop_last()[i] == s[i]);
        }
        assert(spec_digit_val(s.last()) <= 9);
        let p = spec_pow10((s.len() - 1) as nat);
        assert(spec_digits_val(s.drop_last()) * 10 + spec_digit_val(s.last()) < p * 10) by (
        nonlinear_arith)
            requires
                spec_digits_val(s.drop_last()) < p,
                spec_digit_val(s.last()) <= 9,
        ;
        assert(spec_pow10(s.len()) == 10 * p);
    }
}

/// Digits of `s` padded to `width`, with trailing zero digits removed.
pub open spec fn spec_strip_zeros(s: Seq<char>) -> Seq<char>
    decreases s.len(),
{
    if s.len() > 0 && s.last() == '0' {
        spec_strip_zeros(s.drop_last())
    } else {
        s
    }
}

/// The display form of a money value: whole units, then a dot and the
/// fractional digits with trailing zeros removed; no fraction at all for a
/// whole number. This is how a shortest-form decimal printer renders the
/// value.
pub open spec fn spec_money_string(v: u64) -> Seq<char> {
    let units = (v as nat) / 1000000;
    let frac = (v as nat) % 1000000;
    if frac == 0 {
        text::spec_dec(units)
    } else {
        text::spec_dec(units) + seq!['.'] + spec_strip_zeros(text::spec_dec_pad(frac, 6))
    }
}

proof fn lemma_strip_pad_step(v: nat, w: nat)
    requires
        w >= 1,
        v % 10 == 0,
    ensures
        spec_strip_zeros(text::spec_dec_pad(v, w)) == spec_strip_zeros(
            text::spec_dec_pad(v / 10, (w - 1) as nat),
        ),
{
    let p = text::spec_dec_pad(v, w);
    assert(p == text::spec_dec_pad(v / 10, (w - 1) as nat).push(text::spec_digit_char(v % 10)));
    assert(p.last() == text::spec_digit_char(0));
    assert(p.drop_last() =~= text::spec_dec_pad(v / 10, (w - 1) as nat));
}

proof fn lemma_strip_pad_done(v: nat, w: nat)
    requires
        w >= 1,
        v % 10 != 0,
    ensures
        spec_strip_zeros(text::spec_dec_pad(v, w)) == text::spec_dec_pad(v, w),
{
    let p = text::spec_dec_pad(v, w);
    assert(p.last() == text::spec_digit_char(v % 10));
    assert(text::spec_digit_char(v % 10) != '0');
}

/// Renders a money value in micros for display.
pub fn money_to_string(v: u64) -> (r: String)
    ensures
        r@ == spec_money_string(v),
{
    let units = v / MONEY_SCALE;
    let frac = v % MONEY_SCALE;
    let mut out = text::u64_to_string(units);
    if frac == 0 {
        return out;
    }
    out.append(".");
    proof {
        reveal_strlit(".");
        assert(spec_pow10(6) == 1000000) by {
            assert(spec_pow10(0) == 1);
            assert(spec_pow10(1) == 10);
            assert(spec_pow10(2) == 100);
            assert(spec_pow10(3) == 1000);
            assert(spec_pow10(4) == 10000);
            assert(spec_pow10(5) == 100000);
        }
    }
    let mut f = frac;
    let mut width: u64 = 6;
    while f % 10 == 0
        invariant
            1 <= f,
            1 <= width <= 6,
            (f as nat) < spec_pow10(width as nat),
            spec_strip_zeros(text::spec_dec_pad(frac as nat, 6)) == spec_strip_zeros(
                text::spec_dec_pad(f as nat, width as nat),
            ),
        decreases f,
    {
        proof {
            lemma_strip_pad_step(f as nat, width as nat);
            assert(f == 10 * (f / 10) + f % 10);
            assert(spec_pow10(width as nat) == 10 * spec_pow10((width - 1) as nat));
            assert(((f / 10) as nat) < spec_pow10((width - 1) as nat));
            assert(width >= 2) by {
                if width == 1 {
                    assert(spec_pow10(1) == 10);
                    assert(f < 10);
                    assert(f >= 10);
                }
            }
        }
        f = f / 10;
        width = width - 1;
    }
    proof {
        lemma_strip_pad_done(f as nat, width as nat);
    }
    let digits = text::u64_to_padded_string(f, width);
    out.append(digits.as_str());
    proof {
        assert(out@ =~= spec_money_string(v));
    }
    out
}

/// The display form of an account balance given in minor currency units
/// (hundredths): a currency glyph, an optional minus sign, the whole units,
/// and exactly two fractional digits.
pub open spec fn spec_balance_string(minor: int) -> Seq<char> {
    let m = if minor < 0 {
        (-minor) as nat
    } else {
        minor as nat
    };
    let digits = text::spec_dec(m / 100) + seq!['.'] + text::spec_dec_pad(m % 100, 2);
    if minor < 0 {
        "\u{0e3f}"@ + seq!['-'] + digits
    } else {
        "\u{0e3f}"@ + digits
    }
}

/// Renders a raw balance in minor units as the display amount: the raw
/// value divided by one hundred, to two decimal places, behind the
/// currency glyph.
pub fn balance_to_string(minor: i64) -> (r: String)
    ensures
        r@ == spec_balance_string(minor as int),
{
    let mut out = String::from_str("\u{0e3f}");
    proof {
        reveal_strlit("\u{0e3f}");
        reveal_strlit("-");
        reveal_strlit(".");
    }
    let m: u64 = if minor >= 0 {
        minor as u64
    } else {
        out.append("-");
        (-(minor as i128)) as u64
    };
    let units = text::u64_to_string(m / 100);
    out.append(units.as_str());
    out.append(".");
    let cents = text::u64_to_padded_string(m % 100, 2);
    out.append(cents.as_str());
    proof {
        assert(out@ =~= spec_balance_string(minor as int));
    }
    out
}

} // verus!
