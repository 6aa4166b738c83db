//! Decimal digit grammar shared by the ASCII CAT protocols.
//!
//! Numbers on the wire are runs of ASCII digits, optionally preceded by a
//! sign, and are written back zero-padded to a fixed width.

use vstd::prelude::*;
use vstd::string::StringSliceAdditionalSpecFns;
use vstd::utf8::{decode_utf8, valid_utf8};

verus! {

/// An ASCII decimal digit.
pub open spec fn is_digit(b: u8) -> bool {
    48 <= b <= 57
}

/// Every byte of `s` is an ASCII decimal digit.
pub open spec fn all_digits(s: Seq<u8>) -> bool {
    forall|i: int| 0 <= i < s.len() ==> is_digit(#[trigger] s[i])
}

/// The value of a run of decimal digits (most significant first).
pub open spec fn digits_value(s: Seq<u8>) -> nat
    decreases s.len(),
{
    if s.len() == 0 {
        0
    } else {
        digits_value(s.drop_last()) * 10 + (s.last() - 48) as nat
    }
}

/// The digits of an unsigned number text, after an optional leading `+`.
pub open spec fn unsigned_body(s: Seq<u8>) -> Seq<u8> {
    if s.len() > 0 && s[0] == 43u8 {
        s.drop_first()
    } else {
        s
    }
}

/// Unsigned number grammar: an optional `+`, then at least one digit, with a
/// value no greater than `max`.
pub open spec fn parse_unsigned(s: Seq<u8>, max: nat) -> Option<nat> {
    let t = unsigned_body(s);
    if t.len() > 0 && all_digits(t) && digits_value(t) <= max {
        Some(digits_value(t))
    } else {
        None
    }
}

pub open spec fn parse_u64_spec(s: Seq<u8>) -> Option<u64> {
    match parse_unsigned(s, u64::MAX as nat) {
        Some(v) => Some(v as u64),
        None => None,
    }
}

pub open spec fn parse_u32_spec(s: Seq<u8>) -> Option<u32> {
    match parse_unsigned(s, u32::MAX as nat) {
        Some(v) => Some(v as u32),
        None => None,
    }
}

pub open spec fn parse_u16_spec(s: Seq<u8>) -> Option<u16> {
    match parse_unsigned(s, u16::MAX as nat) {
        Some(v) => Some(v as u16),
        None => None,
    }
}

pub open spec fn parse_u8_spec(s: Seq<u8>) -> Option<u8> {
    match parse_unsigned(s, u8::MAX as nat) {
        Some(v) => Some(v as u8),
        None => None,
    }
}

/// Signed number grammar: an optional `+` or `-`, then at least one digit,
/// with a value in `min ..= max`.
pub open spec fn parse_signed(s: Seq<u8>, min: int, max: int) -> Option<int> {
    if s.len() > 0 && s[0] == 45u8 {
        let t = s.drop_first();
        if t.len() > 0 && all_digits(t) && min <= -(digits_value(t) as int) {
            Some(-(digits_value(t) as int))
        } else {
            None
        }
    } else {
        let t = unsigned_body(s);
        if t.len() > 0 && all_digits(t) && digits_value(t) <= max {
            Some(digits_value(t) as int)
        } else {
            None
        }
    }
}

pub open spec fn parse_i32_spec(s: Seq<u8>) -> Option<i32> {
    match parse_signed(s, i32::MIN as int, i32::MAX as int) {
        Some(v) => Some(v as i32),
        None => None,
    }
}

pub open spec fn parse_i16_spec(s: Seq<u8>) -> Option<i16> {
    match parse_signed(s, i16::MIN as int, i16::MAX as int) {
        Some(v) => Some(v as i16),
        None => None,
    }
}

/// The shortest decimal text of `n`.
pub open spec fn dec(n: nat) -> Seq<u8>
    decreases n,
{
    if n < 10 {
        seq![(48 + n) as u8]
    } else {
        dec(n / 10).push((48 + n % 10) as u8)
    }
}

/// `k` ASCII zeros.
pub open spec fn zeros(k: nat) -> Seq<u8> {
    Seq::new(k, |i: int| 48u8)
}

/// The decimal text of `n`, left-padded with zeros to at least `width` digits.
pub open spec fn dec_padded(n: nat, width: nat) -> Seq<u8> {
    if dec(n).len() < width {
        zeros((width - dec(n).len()) as nat) + dec(n)
    } else {
        dec(n)
    }
}

/// The decimal text of a signed value: a `-` before the digits of its
/// magnitude when it is negative.
pub open spec fn dec_signed(v: int) -> Seq<u8> {
    if v < 0 {
        seq![45u8] + dec((-v) as nat)
    } else {
        dec(v as nat)
    }
}

/// Sign-aware zero padding: the sign counts toward `width`, zeros go between
/// the sign and the digits.
pub open spec fn dec_signed_padded(v: int, width: nat) -> Seq<u8> {
    if v < 0 {
        let w: nat = if width > 0 { (width - 1) as nat } else { 0 };
        seq![45u8] + dec_padded((-v) as nat, w)
    } else {
        dec_padded(v as nat, width)
    }
}

// ---------------------------------------------------------------------------
// Lemmas about the digit grammar
// ---------------------------------------------------------------------------

pub proof fn lemma_dec_digits(n: nat)
    ensures
        all_digits(dec(n)),
        digits_value(dec(n)) == n,
        dec(n).len() >= 1,
        n < 10 ==> dec(n).len() == 1,
        n >= 10 ==> dec(n).len() == dec(n / 10).len() + 1,
    decreases n,
{
    if n >= 10 {
        lemma_dec_digits(n / 10);
        let s = dec(n);
        assert(s.drop_last() == dec(n / 10));
        assert(s.last() == (48 + n % 10) as u8);
        assert((s.last() - 48) as nat == n % 10);
        assert((n / 10) * 10 + n % 10 == n) by (nonlinear_arith);
    } else {
        assert(dec(n).drop_last() =~= Seq::<u8>::empty());
        assert(digits_value(Seq::<u8>::empty()) == 0);
    }
}

pub proof fn lemma_digits_value_zeros_prefix(k: nat, s: Seq<u8>)
    ensures
        digits_value(zeros(k) + s) == digits_value(s),
        all_digits(s) ==> all_digits(zeros(k) + s),
    decreases s.len() + k,
{
    if s.len() == 0 {
        assert(zeros(k) + s =~= zeros(k));
        lemma_digits_value_zeros(k);
    } else {
        let t = zeros(k) + s;
        assert(t.drop_last() =~= zeros(k) + s.drop_last());
        lemma_digits_value_zeros_prefix(k, s.drop_last());
    }
}

pub proof fn lemma_digits_value_zeros(k: nat)
    ensures
        digits_value(zeros(k)) == 0,
    decreases k,
{
    if k > 0 {
        assert(zeros(k).drop_last() =~= zeros((k - 1) as nat));
        lemma_digits_value_zeros((k - 1) as nat);
    }
}

/// A prefix of a digit run has a value no larger than the whole run.
pub proof fn lemma_digits_value_prefix_le(s: Seq<u8>, i: int)
    requires
        0 <= i <= s.len(),
        all_digits(s),
    ensures
        digits_value(s.take(i)) <= digits_value(s),
    decreases s.len(),
{
    if i < s.len() {
        assert(s.drop_last().take(i) =~= s.take(i));
        lemma_digits_value_prefix_le(s.drop_last(), i);
    } else {
        assert(s.take(i) =~= s);
    }
}

pub proof fn lemma_take_succ_value(s: Seq<u8>, i: int)
    requires
        0 <= i < s.len(),
    ensures
        digits_value(s.take(i + 1)) == digits_value(s.take(i)) * 10 + (s[i] - 48) as nat,
{
    assert(s.take(i + 1).drop_last() =~= s.take(i));
}

/// The padded decimal text parses back to its value.
pub proof fn lemma_dec_padded_value(n: nat, width: nat)
    ensures
        all_digits(dec_padded(n, width)),
        digits_value(dec_padded(n, width)) == n,
        dec_padded(n, width).len() >= 1,
        dec_padded(n, width).len() >= width,
        dec_padded(n, width)[0] != 43u8,
        dec_padded(n, width)[0] != 45u8,
{
    lemma_dec_digits(n);
    if dec(n).len() < width {
        lemma_digits_value_zeros_prefix((width - dec(n).len()) as nat, dec(n));
    }
    let s = dec_padded(n, width);
    assert(is_digit(s[0]));
}

pub proof fn lemma_parse_u64_dec_padded(n: u64, width: nat)
    ensures
        parse_u64_spec(dec_padded(n as nat, width)) == Some(n),
{
    lemma_dec_padded_value(n as nat, width);
}

pub proof fn lemma_parse_u8_dec_padded(n: u8, width: nat)
    ensures
        parse_u8_spec(dec_padded(n as nat, width)) == Some(n),
{
    lemma_dec_padded_value(n as nat, width);
}

/// The decimal value of a number below `10^k` needs at most `k` digits.
pub proof fn lemma_dec_len_bound(n: nat, k: nat, p: nat)
    requires
        k >= 1,
        p == pow10(k),
        n < p,
    ensures
        dec(n).len() <= k,
    decreases k,
{
    lemma_dec_digits(n);
    if n >= 10 {
        assert(k >= 2) by {
            if k == 1 {
                assert(pow10(1) == 10) by {
                    assert(pow10(0) == 1);
                }
            }
        }
        assert(pow10(k) == 10 * pow10((k - 1) as nat));
        assert(n / 10 < pow10((k - 1) as nat)) by (nonlinear_arith)
            requires
                n < 10 * pow10((k - 1) as nat),
        ;
        lemma_dec_len_bound(n / 10, (k - 1) as nat, pow10((k - 1) as nat));
    }
}

/// The decimal text of a `u64` has at most twenty digits, however padded
/// to a smaller width.
pub proof fn lemma_dec_padded_u64_len(n: u64, width: nat)
    requires
        width <= 20,
    ensures
        dec_padded(n as nat, width).len() <= 20,
        all_digits(dec_padded(n as nat, width)),
{
    reveal_with_fuel(pow10, 21);
    assert(pow10(20) == 100_000_000_000_000_000_000nat);
    lemma_dec_len_bound(n as nat, 20, pow10(20));
    lemma_dec_padded_value(n as nat, width);
}

/// A run of at most nineteen digits reads as a `u64`: its decimal value.
pub proof fn lemma_parse_u64_digits(s: Seq<u8>)
    requires
        all_digits(s),
        0 < s.len() <= 19,
    ensures
        parse_u64_spec(s) == Some(digits_value(s) as u64),
        digits_value(s) < pow10(s.len()),
{
    lemma_digits_value_lt_pow10(s);
    reveal_with_fuel(pow10, 20);
    assert(pow10(19) == 10_000_000_000_000_000_000nat);
    lemma_pow10_mono(s.len(), 19);
    assert(is_digit(s[0]));
}

/// A single digit reads as its value.
pub proof fn lemma_parse_one_digit(d: u8)
    requires
        is_digit(d),
    ensures
        parse_u8_spec(seq![d]) == Some((d - 48) as u8),
        parse_u16_spec(seq![d]) == Some((d - 48) as u16),
{
    let s = seq![d];
    assert(s.drop_last() =~= Seq::<u8>::empty());
    assert(digits_value(Seq::<u8>::empty()) == 0);
    assert(s.last() == d);
    assert(digits_value(s) == digits_value(s.drop_last()) * 10 + (s.last() - 48) as nat);
    assert(digits_value(s) == (d - 48) as nat);
    assert(all_digits(s));
}

/// Two digits read as their value.
pub proof fn lemma_parse_two_digits(a: u8, b: u8)
    requires
        is_digit(a),
        is_digit(b),
    ensures
        parse_u8_spec(seq![a, b]) == Some((10 * (a - 48) + (b - 48)) as u8),
{
    let s = seq![a, b];
    assert(s.drop_last() =~= seq![a]);
    assert(seq![a].drop_last() =~= Seq::<u8>::empty());
    assert(digits_value(Seq::<u8>::empty()) == 0);
    assert(digits_value(seq![a]) == (a - 48) as nat);
    assert(digits_value(s) == digits_value(seq![a]) * 10 + (b - 48) as nat);
    assert(all_digits(s));
}

/// Powers of ten grow with the exponent.
pub proof fn lemma_pow10_mono(a: nat, b: nat)
    requires
        a <= b,
    ensures
        pow10(a) <= pow10(b),
    decreases b,
{
    if a < b {
        lemma_pow10_mono(a, (b - 1) as nat);
        assert(pow10(b) == 10 * pow10((b - 1) as nat));
    }
}

pub open spec fn pow10(k: nat) -> nat
    decreases k,
{
    if k == 0 {
        1
    } else {
        10 * pow10((k - 1) as nat)
    }
}


/// A run of `k` digits is worth less than `10^k`.
pub proof fn lemma_digits_value_lt_pow10(s: Seq<u8>)
    requires
        all_digits(s),
    ensures
        digits_value(s) < pow10(s.len()),
    decreases s.len(),
{
    if s.len() > 0 {
        lemma_digits_value_lt_pow10(s.drop_last());
        assert(is_digit(s[s.len() - 1]));
        assert(digits_value(s.drop_last()) * 10 + 10 <= pow10((s.len() - 1) as nat) * 10) by (nonlinear_arith)
            requires
                digits_value(s.drop_last()) < pow10((s.len() - 1) as nat),
        ;
    }
}

/// A signed number read from at most four characters lies in
/// `-9999 ..= 9999`.
pub proof fn lemma_parse_signed_bound(s: Seq<u8>, min: int, max: int)
    requires
        s.len() <= 4,
        parse_signed(s, min, max) is Some,
    ensures
        -9999 <= parse_signed(s, min, max)->0 <= 9999,
{
    let t = if s.len() > 0 && s[0] == 45u8 {
        s.drop_first()
    } else {
        unsigned_body(s)
    };
    lemma_digits_value_lt_pow10(t);
    assert(pow10(4) == 10000) by {
        reveal_with_fuel(pow10, 5);
    }
    assert(pow10(t.len()) <= pow10(4)) by {
        reveal_with_fuel(pow10, 5);
    }
}

// ---------------------------------------------------------------------------
// Executable digit parsing
// ---------------------------------------------------------------------------

/// The digits of an unsigned text, after an optional leading `+`.
fn unsigned_digits(s: &[u8]) -> (r: (usize, usize))
    ensures
        r.0 <= r.1 == s@.len(),
        s@.subrange(r.0 as int, r.1 as int) == unsigned_body(s@),
{
    if s.len() > 0 && s[0] == 43u8 {
        (1, s.len())
    } else {
        proof {
            assert(s@.subrange(0, s@.len() as int) =~= s@);
        }
        (0, s.len())
    }
}

/// Value of the digit run `s[start..end]`, or `None` when a byte is not a
/// digit, the run is empty, or the value does not fit in a `u64`.
fn digit_run_value(s: &[u8], start: usize, end: usize) -> (r: Option<u64>)
    requires
        start <= end <= s@.len(),
    ensures
        ({
            let t = s@.subrange(start as int, end as int);
            &&& r is Some <==> (t.len() > 0 && all_digits(t) && digits_value(t)
                <= u64::MAX as nat)
            &&& r matches Some(v) ==> v as nat == digits_value(t)
        }),
{
    let ghost t = s@.subrange(start as int, end as int);
    if start == end {
        return None;
    }
    let mut acc: u64 = 0;
    let mut i: usize = start;
    while i < end
        invariant
            start <= i <= end <= s@.len(),
            t == s@.subrange(start as int, end as int),
            all_digits(t.take(i - start)),
            acc as nat == digits_value(t.take(i - start)),
        decreases end - i,
    {
        let b = s[i];
        if b < 48u8 || b > 57u8 {
            proof {
                assert(t[i - start] == b);
            }
            return None;
        }
        proof {
            lemma_take_succ_value(t, (i - start) as int);
            assert(t.take(i - start + 1) =~= t.take(i - start).push(b));
        }
        let d = (b - 48u8) as u64;
        match acc.checked_mul(10) {
            Some(m) => match m.checked_add(d) {
                Some(n) => {
                    acc = n;
                },
                None => {
                    proof {
                        lemma_value_bound_after_prefix(t, (i - start + 1) as int);
                    }
                    return None;
                },
            },
            None => {
                proof {
                    lemma_value_bound_after_prefix(t, (i - start + 1) as int);
                }
                return None;
            },
        }
        i = i + 1;
    }
    proof {
        assert(t.take(end - start) =~= t);
    }
    Some(acc)
}

/// When a prefix's value is already too large, so is the whole run (or the
/// run has a non-digit).
proof fn lemma_value_bound_after_prefix(t: Seq<u8>, j: int)
    requires
        0 < j <= t.len(),
        all_digits(t.take(j)),
        digits_value(t.take(j)) > u64::MAX as nat,
    ensures
        !(all_digits(t) && digits_value(t) <= u64::MAX as nat),
{
    if all_digits(t) {
        lemma_digits_value_prefix_le(t, j);
    }
}

/// Parses an unsigned decimal `u64` the way Rust's `str::parse` does.
pub fn parse_u64(s: &[u8]) -> (r: Option<u64>)
    ensures
        r == parse_u64_spec(s@),
{
    let (a, b) = unsigned_digits(s);
    digit_run_value(s, a, b)
}

pub fn parse_u32(s: &[u8]) -> (r: Option<u32>)
    ensures
        r == parse_u32_spec(s@),
{
    match parse_u64(s) {
        Some(v) => if v <= u32::MAX as u64 {
            Some(v as u32)
        } else {
            None
        },
        None => {
            proof {
                let t = unsigned_body(s@);
            }
            None
        },
    }
}

pub fn parse_u16(s: &[u8]) -> (r: Option<u16>)
    ensures
        r == parse_u16_spec(s@),
{
    match parse_u64(s) {
        Some(v) => if v <= u16::MAX as u64 {
            Some(v as u16)
        } else {
            None
        },
        None => None,
    }
}

pub fn parse_u8(s: &[u8]) -> (r: Option<u8>)
    ensures
        r == parse_u8_spec(s@),
{
    match parse_u64(s) {
        Some(v) => if v <= u8::MAX as u64 {
            Some(v as u8)
        } else {
            None
        },
        None => None,
    }
}

/// Parses a signed decimal `i32` the way Rust's `str::parse` does.
pub fn parse_i32(s: &[u8]) -> (r: Option<i32>)
    ensures
        r == parse_i32_spec(s@),
{
    if s.len() > 0 && s[0] == 45u8 {
        let v = digit_run_value(s, 1, s.len());
        proof {
            assert(s@.subrange(1, s@.len() as int) =~= s@.drop_first());
        }
        match v {
            Some(m) => if m <= 2147483648u64 {
                if m == 2147483648u64 {
                    Some(i32::MIN)
                } else {
                    Some(-(m as i32))
                }
            } else {
                None
            },
            None => None,
        }
    } else {
        let (a, b) = unsigned_digits(s);
        match digit_run_value(s, a, b) {
            Some(m) => if m <= i32::MAX as u64 {
                Some(m as i32)
            } else {
                None
            },
            None => None,
        }
    }
}

/// Parses a signed decimal `i16` the way Rust's `str::parse` does.
pub fn parse_i16(s: &[u8]) -> (r: Option<i16>)
    ensures
        r == parse_i16_spec(s@),
{
    if s.len() > 0 && s[0] == 45u8 {
        let v = digit_run_value(s, 1, s.len());
        proof {
            assert(s@.subrange(1, s@.len() as int) =~= s@.drop_first());
        }
        match v {
            Some(m) => if m <= 32768u64 {
                if m == 32768u64 {
                    Some(i16::MIN)
                } else {
                    Some(-(m as i16))
                }
            } else {
                None
            },
            None => None,
        }
    } else {
        let (a, b) = unsigned_digits(s);
        match digit_run_value(s, a, b) {
            Some(m) => if m <= i16::MAX as u64 {
                Some(m as i16)
            } else {
                None
            },
            None => None,
        }
    }
}

// ---------------------------------------------------------------------------
// Executable digit formatting
// ---------------------------------------------------------------------------

/// Appends the decimal text of `n`.
pub fn push_dec(out: &mut Vec<u8>, n: u64)
    ensures
        final(out)@ == old(out)@ + dec(n as nat),
    decreases n,
{
    if n >= 10 {
        push_dec(out, n / 10);
    }
    out.push(48u8 + (n % 10) as u8);
    proof {
        if n >= 10 {
            assert(old(out)@ + dec(n as nat) =~= old(out)@ + dec((n / 10) as nat) + seq![
                (48 + n % 10) as u8,
            ]);
        } else {
            assert(dec(n as nat) =~= seq![(48 + n) as u8]);
        }
    }
}

/// Number of decimal digits of `n`.
pub fn dec_len(n: u64) -> (r: usize)
    ensures
        r as nat == dec(n as nat).len(),
        1 <= r <= 20,
    decreases n,
{
    proof {
        lemma_dec_digits(n as nat);
        lemma_dec_len_u64(n as nat);
    }
    if n >= 10 {
        1 + dec_len(n / 10)
    } else {
        1
    }
}

proof fn lemma_dec_len_u64(n: nat)
    requires
        n <= u64::MAX,
    ensures
        dec(n).len() <= 20,
{
    reveal_with_fuel(pow10, 21);
    assert(pow10(20) == 100000000000000000000nat);
    lemma_dec_len_bound(n, 20, pow10(20));
}

/// Appends the decimal text of `n`, left-padded with zeros to `width` digits.
pub fn push_dec_padded(out: &mut Vec<u8>, n: u64, width: usize)
    ensures
        final(out)@ == old(out)@ + dec_padded(n as nat, width as nat),
{
    let len = dec_len(n);
    let mut k: usize = len;
    let ghost start = out@;
    while k < width
        invariant
            len <= k,
            k <= width || k == len,
            out@ == start + zeros((k - len) as nat),
        decreases width - k,
    {
        out.push(48u8);
        proof {
            assert(zeros((k + 1 - len) as nat) =~= zeros((k - len) as nat).push(48u8));
        }
        k = k + 1;
    }
    push_dec(out, n);
    proof {
        if len < width {
            assert(start + zeros((width - len) as nat) + dec(n as nat) =~= start + (zeros(
                (width - len) as nat,
            ) + dec(n as nat)));
        } else {
            assert(zeros(0) =~= Seq::<u8>::empty());
            assert(start + zeros(0) =~= start);
        }
    }
}

/// Appends a signed value with sign-aware zero padding to `width` characters.
pub fn push_dec_signed_padded(out: &mut Vec<u8>, v: i32, width: usize)
    ensures
        final(out)@ == old(out)@ + dec_signed_padded(v as int, width as nat),
{
    if v < 0 {
        out.push(45u8);
        let mag: u64 = if v == i32::MIN {
            2147483648u64
        } else {
            (-v) as u64
        };
        let w = if width > 0 {
            width - 1
        } else {
            0
        };
        let ghost mid = out@;
        push_dec_padded(out, mag, w);
        proof {
            assert(old(out)@ + dec_signed_padded(v as int, width as nat) =~= old(out)@.push(45u8)
                + dec_padded(mag as nat, w as nat));
        }
    } else {
        push_dec_padded(out, v as u64, width);
    }
}

/// Appends a byte string.
pub fn push_all(out: &mut Vec<u8>, s: &[u8])
    ensures
        final(out)@ == old(out)@ + s@,
{
    let mut i: usize = 0;
    let ghost start = out@;
    while i < s.len()
        invariant
            i <= s@.len(),
            out@ == start + s@.take(i as int),
        decreases s.len() - i,
    {
        out.push(s[i]);
        proof {
            assert(s@.take(i + 1) =~= s@.take(i as int).push(s@[i as int]));
        }
        i = i + 1;
    }
    proof {
        assert(s@.take(s@.len() as int) =~= s@);
    }
}


// ---------------------------------------------------------------------------
// Hexadecimal
// ---------------------------------------------------------------------------

/// The upper-case hexadecimal digit of a value below 16.
pub open spec fn hex_digit(v: nat) -> u8 {
    if v < 10 {
        (48 + v) as u8
    } else {
        (55 + v) as u8
    }
}

/// Two upper-case hexadecimal digits of a byte (`{:02X}`).
pub open spec fn hex2(b: u8) -> Seq<u8> {
    seq![hex_digit((b / 16) as nat), hex_digit((b % 16) as nat)]
}

/// Appends the two upper-case hexadecimal digits of `b`.
pub fn push_hex2(out: &mut Vec<u8>, b: u8)
    ensures
        final(out)@ == old(out)@ + hex2(b),
{
    let hi = b / 16;
    let lo = b % 16;
    out.push(if hi < 10 {
        48u8 + hi
    } else {
        55u8 + hi
    });
    out.push(if lo < 10 {
        48u8 + lo
    } else {
        55u8 + lo
    });
    proof {
        assert(old(out)@ + hex2(b) =~= out@);
    }
}


// ---------------------------------------------------------------------------
// Frequencies for display
// ---------------------------------------------------------------------------

/// `"."`, `" MHz"`.
pub open spec fn mhz_suffix() -> Seq<u8> {
    seq![32u8, 77u8, 72u8, 122u8]
}

/// A value in thousandths written as `W.FFF` followed by `" MHz"`.
pub open spec fn thousandths_mhz(k: nat) -> Seq<u8> {
    dec(k / 1000) + seq![46u8] + dec_padded(k % 1000, 3) + mhz_suffix()
}

/// A value in millionths written as `W.FFFFFF` followed by `" MHz"`.
pub open spec fn millionths_mhz(k: nat) -> Seq<u8> {
    dec(k / 1_000_000) + seq![46u8] + dec_padded(k % 1_000_000, 6) + mhz_suffix()
}

/// `hz` to the nearest kHz (halves round up).
pub open spec fn nearest_khz(hz: nat) -> nat {
    hz / 1000 + if hz % 1000 >= 500 {
        1nat
    } else {
        0nat
    }
}

/// Appends `" MHz"`.
pub fn push_mhz_suffix(out: &mut Vec<u8>)
    ensures
        final(out)@ == old(out)@ + mhz_suffix(),
{
    out.push(32u8);
    out.push(77u8);
    out.push(72u8);
    out.push(122u8);
    proof {
        assert(out@ =~= old(out)@ + mhz_suffix());
    }
}

/// Appends a value in thousandths of a MHz as `W.FFF MHz`.
pub fn push_thousandths_mhz(out: &mut Vec<u8>, k: u64)
    ensures
        final(out)@ == old(out)@ + thousandths_mhz(k as nat),
{
    push_dec(out, k / 1000);
    out.push(46u8);
    push_dec_padded(out, k % 1000, 3);
    push_mhz_suffix(out);
    proof {
        assert(out@ =~= old(out)@ + thousandths_mhz(k as nat));
    }
}

/// Appends a value in millionths of a MHz (that is, Hz) as `W.FFFFFF MHz`.
pub fn push_millionths_mhz(out: &mut Vec<u8>, k: u64)
    ensures
        final(out)@ == old(out)@ + millionths_mhz(k as nat),
{
    push_dec(out, k / 1_000_000);
    out.push(46u8);
    push_dec_padded(out, k % 1_000_000, 6);
    push_mhz_suffix(out);
    proof {
        assert(out@ =~= old(out)@ + millionths_mhz(k as nat));
    }
}

/// The frequency to the nearest kHz, written `W.FFF MHz`.
pub fn mhz_text_khz(hz: u64) -> (r: Vec<u8>)
    ensures
        r@ == thousandths_mhz(nearest_khz(hz as nat)),
{
    let k = hz / 1000 + if hz % 1000 >= 500 {
        1
    } else {
        0
    };
    let mut out: Vec<u8> = Vec::new();
    push_thousandths_mhz(&mut out, k);
    proof {
        assert(Seq::<u8>::empty() + thousandths_mhz(k as nat) =~= thousandths_mhz(k as nat));
    }
    out
}

// ---------------------------------------------------------------------------
// Text from wire bytes
// ---------------------------------------------------------------------------

/// The characters that `String::from_utf8_lossy` makes of a byte string that
/// is not valid UTF-8 (each invalid sequence becomes U+FFFD).
pub uninterp spec fn utf8_lossy_invalid(b: Seq<u8>) -> Seq<char>;

/// The text of wire bytes: their UTF-8 decoding when they are valid UTF-8.
pub open spec fn wire_text(b: Seq<u8>) -> Seq<char> {
    if valid_utf8(b) {
        decode_utf8(b)
    } else {
        utf8_lossy_invalid(b)
    }
}

/// `String::from_utf8_lossy(b).into_owned()`: valid UTF-8 is decoded as is;
/// other input is named by `utf8_lossy_invalid`.
#[verifier::external_body]
pub(crate) fn text_from_bytes(b: &[u8]) -> (s: String)
    ensures
        valid_utf8(b@) ==> s@ == decode_utf8(b@),
        !valid_utf8(b@) ==> s@ == utf8_lossy_invalid(b@),
{
    String::from_utf8_lossy(b).into_owned()
}

/// `std::str::from_utf8(b).ok()`: the bytes as text when they are valid
/// UTF-8, `None` otherwise.
#[verifier::external_body]
pub(crate) fn str_from_utf8(b: &[u8]) -> (r: Option<&str>)
    ensures
        r is Some <==> valid_utf8(b@),
        r matches Some(s) ==> s.spec_bytes() == b@,
{
    std::str::from_utf8(b).ok()
}

/// The text of a run of ASCII digits `data[start..end]`.
pub fn digits_text(data: &[u8], start: usize, end: usize) -> (r: &str)
    requires
        start <= end <= data@.len(),
        all_digits(data@.subrange(start as int, end as int)),
    ensures
        r.spec_bytes() == data@.subrange(start as int, end as int),
        r@ == wire_text(data@.subrange(start as int, end as int)),
{
    let digits = vstd::slice::slice_subrange(data, start, end);
    proof {
        lemma_digits_valid_utf8(digits@);
    }
    match str_from_utf8(digits) {
        Some(s) => {
            proof {
                vstd::utf8::encode_utf8_decode_utf8(s@);
            }
            s
        },
        None => {
            proof {
                assert(false);
            }
            ""
        },
    }
}

/// ASCII digits are valid UTF-8.
pub proof fn lemma_digits_valid_utf8(s: Seq<u8>)
    requires
        all_digits(s),
    ensures
        valid_utf8(s),
{
    let chars = Seq::new(s.len(), |i: int| s[i] as char);
    assert(vstd::utf8::is_ascii_chars(chars)) by {
        assert forall|i: int| 0 <= i < chars.len() implies (chars[i] as nat) < 128 by {
            assert(is_digit(s[i]));
        }
    }
    vstd::utf8::is_ascii_chars_encode_utf8(chars);
    assert(vstd::utf8::encode_utf8(chars) =~= s);
    vstd::utf8::encode_utf8_valid_utf8(chars);
}

} // verus!
