//! Decimal text of 64-bit signed integers: the grammar that integer path
//! parameters are read with, and the text that integer parameters are sent as.

use vstd::prelude::*;

verus! {

/// Why a text is not a decimal `i64`.
#[derive(Debug, Clone, Copy, PartialEq, Eq)]
pub enum IntErrorKind {
    /// The text is empty.
    Empty,
    /// A character that is not an ASCII digit stands where a digit is expected.
    InvalidDigit,
    /// The value is above `i64::MAX`.
    PosOverflow,
    /// The value is below `i64::MIN`.
    NegOverflow,
}

impl IntErrorKind {
    /// The sentence that describes the error.
    pub fn message(&self) -> (m: &'static str)
        ensures
            m@ == spec_int_error_message(*self),
    {
        match self {
            IntErrorKind::Empty => "cannot parse integer from empty string",
            IntErrorKind::InvalidDigit => "invalid digit found in string",
            IntErrorKind::PosOverflow => "number too large to fit in target type",
            IntErrorKind::NegOverflow => "number too small to fit in target type",
        }
    }
}

pub open spec fn spec_int_error_message(k: IntErrorKind) -> Seq<char> {
    match k {
        IntErrorKind::Empty => "cannot parse integer from empty string"@,
        IntErrorKind::InvalidDigit => "invalid digit found in string"@,
        IntErrorKind::PosOverflow => "number too large to fit in target type"@,
        IntErrorKind::NegOverflow => "number too small to fit in target type"@,
    }
}

pub open spec fn is_digit(c: char) -> bool {
    '0' <= c && c <= '9'
}

pub open spec fn digit_value(c: char) -> int {
    (c as int) - ('0' as int)
}

/// Reads `digits` from left to right, each step multiplying by ten and adding
/// (or, for a negative number, subtracting) the next digit; the first
/// character that is not a digit, or the first step that leaves the range
/// `lo..=hi`, decides the error.
pub open spec fn scan_digits(digits: Seq<char>, negative: bool, lo: int, hi: int) -> Result<
    int,
    IntErrorKind,
>
    decreases digits.len(),
{
    if digits.len() == 0 {
        Ok(0)
    } else {
        match scan_digits(digits.drop_last(), negative, lo, hi) {
            Err(e) => Err(e),
            Ok(v) => {
                let c = digits.last();
                if !is_digit(c) {
                    Err(IntErrorKind::InvalidDigit)
                } else if negative {
                    let n = v * 10 - digit_value(c);
                    if n < lo {
                        Err(IntErrorKind::NegOverflow)
                    } else {
                        Ok(n)
                    }
                } else {
                    let n = v * 10 + digit_value(c);
                    if n > hi {
                        Err(IntErrorKind::PosOverflow)
                    } else {
                        Ok(n)
                    }
                }
            },
        }
    }
}

/// The decimal grammar of a signed integer type whose values are `lo..=hi`:
/// an optional `+` or `-` sign followed by one or more ASCII digits, whose
/// value lies in the range.
pub open spec fn spec_parse_int(s: Seq<char>, lo: int, hi: int) -> Result<int, IntErrorKind> {
    if s.len() == 0 {
        Err(IntErrorKind::Empty)
    } else if s[0] == '+' || s[0] == '-' {
        if s.len() == 1 {
            Err(IntErrorKind::InvalidDigit)
        } else {
            scan_digits(s.skip(1), s[0] == '-', lo, hi)
        }
    } else {
        scan_digits(s, false, lo, hi)
    }
}

/// The decimal grammar of `i64`.
pub open spec fn spec_parse_i64(s: Seq<char>) -> Result<int, IntErrorKind> {
    spec_parse_int(s, i64::MIN as int, i64::MAX as int)
}

/// The decimal grammar of `i32`.
pub open spec fn spec_parse_i32(s: Seq<char>) -> Result<int, IntErrorKind> {
    spec_parse_int(s, i32::MIN as int, i32::MAX as int)
}

pub open spec fn digit_char(d: int) -> char {
    if d == 0 { '0' }
    else if d == 1 { '1' }
    else if d == 2 { '2' }
    else if d == 3 { '3' }
    else if d == 4 { '4' }
    else if d == 5 { '5' }
    else if d == 6 { '6' }
    else if d == 7 { '7' }
    else if d == 8 { '8' }
    else { '9' }
}

/// The digits of `n` in base ten, most significant first, without leading zeros.
pub open spec fn nat_digits(n: nat) -> Seq<char>
    decreases n,
{
    if n < 10 {
        seq![digit_char(n as int)]
    } else {
        nat_digits(n / 10).push(digit_char((n % 10) as int))
    }
}

/// The decimal text of `n`: a `-` for negative values, then the digits of its magnitude.
pub open spec fn spec_decimal(n: int) -> Seq<char> {
    if n < 0 {
        seq!['-'] + nat_digits((-n) as nat)
    } else {
        nat_digits(n as nat)
    }
}

proof fn lemma_digit_char(d: int)
    requires
        0 <= d < 10,
    ensures
        is_digit(digit_char(d)),
        digit_value(digit_char(d)) == d,
{
}

proof fn lemma_nat_digits_shape(n: nat)
    ensures
        nat_digits(n).len() >= 1,
        is_digit(nat_digits(n)[0]),
    decreases n,
{
    if n < 10 {
        lemma_digit_char(n as int);
    } else {
        lemma_nat_digits_shape(n / 10);
    }
}

proof fn lemma_scan_nat_digits(n: nat, negative: bool, lo: int, hi: int)
    requires
        lo <= 0 <= hi,
        negative ==> -n >= lo,
        !negative ==> n <= hi,
    ensures
        scan_digits(nat_digits(n), negative, lo, hi) == (if negative { Ok::<int, IntErrorKind>(-n) } else { Ok::<int, IntErrorKind>(n as int) }),
    decreases n,
{
    let ds = nat_digits(n);
    if n < 10 {
        lemma_digit_char(n as int);
        assert(ds.drop_last() =~= Seq::<char>::empty());
        assert(scan_digits(ds.drop_last(), negative, lo, hi) == Ok::<int, IntErrorKind>(0));
    } else {
        lemma_scan_nat_digits(n / 10, negative, lo, hi);
        lemma_digit_char((n % 10) as int);
        assert(ds.drop_last() =~= nat_digits(n / 10));
        assert(ds.last() == digit_char((n % 10) as int));
        assert((n / 10) * 10 + n % 10 == n);
    }
}

/// Reading the decimal text of a value of a signed integer type gives the
/// same value back.
pub proof fn lemma_parse_decimal_in(n: int, lo: int, hi: int)
    requires
        lo <= 0 <= hi,
        lo <= n <= hi,
    ensures
        spec_parse_int(spec_decimal(n), lo, hi) == Ok::<int, IntErrorKind>(n),
{
    let s = spec_decimal(n);
    if n < 0 {
        let m = (-n) as nat;
        lemma_nat_digits_shape(m);
        lemma_scan_nat_digits(m, true, lo, hi);
        assert(s.skip(1) =~= nat_digits(m));
        assert(s[0] == '-');
    } else {
        lemma_nat_digits_shape(n as nat);
        lemma_scan_nat_digits(n as nat, false, lo, hi);
        lemma_digit_char(0);
    }
}

/// Reading the decimal text of an `i64` gives the same `i64` back.
pub proof fn lemma_parse_decimal(n: i64)
    ensures
        spec_parse_i64(spec_decimal(n as int)) == Ok::<int, IntErrorKind>(n as int),
{
    lemma_parse_decimal_in(n as int, i64::MIN as int, i64::MAX as int);
}

/// Reading the decimal text of an `i32` as an `i32` gives the same value back.
pub proof fn lemma_parse_decimal_i32(n: i32)
    ensures
        spec_parse_i32(spec_decimal(n as int)) == Ok::<int, IntErrorKind>(n as int),
{
    lemma_parse_decimal_in(n as int, i32::MIN as int, i32::MAX as int);
}

/// Reads `s` as a decimal integer in `lo..=hi`, by the grammar of `spec_parse_int`.
fn parse_in_range(s: &str, lo: i64, hi: i64) -> (r: Result<i64, IntErrorKind>)
    requires
        lo <= 0 <= hi,
    ensures
        match r {
            Ok(v) => spec_parse_int(s@, lo as int, hi as int) == Ok::<int, IntErrorKind>(v as int),
            Err(e) => spec_parse_int(s@, lo as int, hi as int) == Err::<int, IntErrorKind>(e),
        },
{
    let len = s.unicode_len();
    if len == 0 {
        return Err(IntErrorKind::Empty);
    }
    let first = s.get_char(0);
    let mut start: usize = 0;
    let mut negative = false;
    if first == '+' || first == '-' {
        if len == 1 {
            return Err(IntErrorKind::InvalidDigit);
        }
        start = 1;
        negative = first == '-';
    }
    let ghost digits = s@.skip(start as int);
    assert(s@.skip(0) =~= s@);
    assert(spec_parse_int(s@, lo as int, hi as int) == scan_digits(digits, negative, lo as int, hi as int));
    let mut acc: i64 = 0;
    let mut i: usize = start;
    while i < len
        invariant
            len == s@.len(),
            start <= i <= len,
            start <= 1,
            digits == s@.skip(start as int),
            lo <= 0 <= hi,
            spec_parse_int(s@, lo as int, hi as int) == scan_digits(digits, negative, lo as int, hi as int),
            scan_digits(digits.take(i - start), negative, lo as int, hi as int) == Ok::<int, IntErrorKind>(acc as int),
            negative ==> acc <= 0,
            !negative ==> acc >= 0,
        decreases len - i,
    {
        let c = s.get_char(i);
        let ghost pre = digits.take(i - start);
        let ghost next = digits.take(i - start + 1);
        assert(next.drop_last() =~= pre);
        assert(next.last() == c);
        if !('0' <= c && c <= '9') {
            proof {
                lemma_scan_error_persists(digits, negative, lo as int, hi as int, (i - start + 1) as nat);
            }
            return Err(IntErrorKind::InvalidDigit);
        }
        let d: i64 = (c as u32 - '0' as u32) as i64;
        assert(d == digit_value(c));
        let n: i128 = if negative { acc as i128 * 10 - d as i128 } else { acc as i128 * 10 + d as i128 };
        if negative && n < lo as i128 {
            assert(scan_digits(next, negative, lo as int, hi as int) == Err::<int, IntErrorKind>(IntErrorKind::NegOverflow));
            proof {
                lemma_scan_error_persists(digits, negative, lo as int, hi as int, (i - start + 1) as nat);
            }
            return Err(IntErrorKind::NegOverflow);
        }
        if !negative && n > hi as i128 {
            assert(scan_digits(next, negative, lo as int, hi as int) == Err::<int, IntErrorKind>(IntErrorKind::PosOverflow));
            proof {
                lemma_scan_error_persists(digits, negative, lo as int, hi as int, (i - start + 1) as nat);
            }
            return Err(IntErrorKind::PosOverflow);
        }
        assert(scan_digits(next, negative, lo as int, hi as int) == Ok::<int, IntErrorKind>(n as int));
        acc = n as i64;
        i = i + 1;
    }
    assert(digits.take(len - start) =~= digits);
    Ok(acc)
}

/// Reads `s` as a decimal `i64`, by the grammar of `spec_parse_i64`.
pub fn parse_i64(s: &str) -> (r: Result<i64, IntErrorKind>)
    ensures
        match r {
            Ok(v) => spec_parse_i64(s@) == Ok::<int, IntErrorKind>(v as int),
            Err(e) => spec_parse_i64(s@) == Err::<int, IntErrorKind>(e),
        },
{
    parse_in_range(s, i64::MIN, i64::MAX)
}

/// Reads `s` as a decimal `i32`, by the grammar of `spec_parse_i32`.
pub fn parse_i32(s: &str) -> (r: Result<i32, IntErrorKind>)
    ensures
        match r {
            Ok(v) => spec_parse_i32(s@) == Ok::<int, IntErrorKind>(v as int),
            Err(e) => spec_parse_i32(s@) == Err::<int, IntErrorKind>(e),
        },
{
    match parse_in_range(s, i32::MIN as i64, i32::MAX as i64) {
        Ok(v) => {
            proof {
                lemma_scan_result_in_range(s@, i32::MIN as int, i32::MAX as int);
            }
            Ok(v as i32)
        },
        Err(e) => Err(e),
    }
}

/// A successful scan stays within its range.
proof fn lemma_scan_in_range(digits: Seq<char>, negative: bool, lo: int, hi: int)
    requires
        lo <= 0 <= hi,
    ensures
        scan_digits(digits, negative, lo, hi) matches Ok(v) ==> lo <= v <= hi && (negative ==> v
            <= 0) && (!negative ==> v >= 0),
    decreases digits.len(),
{
    if digits.len() > 0 {
        lemma_scan_in_range(digits.drop_last(), negative, lo, hi);
    }
}

/// A successful read stays within the type's range.
proof fn lemma_scan_result_in_range(s: Seq<char>, lo: int, hi: int)
    requires
        lo <= 0 <= hi,
    ensures
        spec_parse_int(s, lo, hi) matches Ok(v) ==> lo <= v <= hi,
{
    if s.len() > 0 {
        lemma_scan_in_range(s.skip(1), s[0] == '-', lo, hi);
        lemma_scan_in_range(s, false, lo, hi);
    }
}

/// Once a prefix of the digits fails, the whole text fails with the same error.
proof fn lemma_scan_error_persists(digits: Seq<char>, negative: bool, lo: int, hi: int, k: nat)
    requires
        k <= digits.len(),
        scan_digits(digits.take(k as int), negative, lo, hi) is Err,
    ensures
        scan_digits(digits, negative, lo, hi) == scan_digits(digits.take(k as int), negative, lo, hi),
    decreases digits.len() - k,
{
    if k < digits.len() {
        let t = digits.take(k as int + 1);
        assert(t.drop_last() =~= digits.take(k as int));
        lemma_scan_error_persists(digits, negative, lo, hi, k + 1);
    } else {
        assert(digits.take(k as int) =~= digits);
    }
}

/// The one-character text of a decimal digit.
fn digit_str(d: u64) -> (s: &'static str)
    requires
        d < 10,
    ensures
        s@ == seq![digit_char(d as int)],
{
    if d == 0 {
        proof { reveal_strlit("0"); }
        "0"
    } else if d == 1 {
        proof { reveal_strlit("1"); }
        "1"
    } else if d == 2 {
        proof { reveal_strlit("2"); }
        "2"
    } else if d == 3 {
        proof { reveal_strlit("3"); }
        "3"
    } else if d == 4 {
        proof { reveal_strlit("4"); }
        "4"
    } else if d == 5 {
        proof { reveal_strlit("5"); }
        "5"
    } else if d == 6 {
        proof { reveal_strlit("6"); }
        "6"
    } else if d == 7 {
        proof { reveal_strlit("7"); }
        "7"
    } else if d == 8 {
        proof { reveal_strlit("8"); }
        "8"
    } else {
        proof { reveal_strlit("9"); }
        "9"
    }
}

/// Appends the decimal digits of `m` to `out`.
pub(crate) fn push_digits(out: &mut String, m: u64)
    ensures
        final(out)@ == old(out)@ + nat_digits(m as nat),
    decreases m,
{
    if m >= 10 {
        push_digits(out, m / 10);
    }
    out.append(digit_str(m % 10));
    proof {
        if m >= 10 {
            assert(nat_digits(m as nat) == nat_digits((m / 10) as nat).push(digit_char((m % 10) as int)));
        }
    }
}

/// The decimal text of an unsigned integer.
pub fn format_u64(m: u64) -> (r: String)
    ensures
        r@ == nat_digits(m as nat),
{
    let mut out = String::new();
    push_digits(&mut out, m);
    out
}

/// The decimal text of `n`, as the grammar of `spec_parse_i64` reads it back.
pub fn format_i64(n: i64) -> (r: String)
    ensures
        r@ == spec_decimal(n as int),
{
    let mut out = String::new();
    if n < 0 {
        proof { reveal_strlit("-"); }
        out.append("-");
        let m: u64 = (-(n as i128)) as u64;
        push_digits(&mut out, m);
    } else {
        push_digits(&mut out, n as u64);
    }
    out
}

} // verus!
