//! Decimal integers: parsing as `str::parse` does for `usize` and `i32`,
//! and writing them back out.
use vstd::prelude::*;
use vstd::string::*;

verus! {

/// Why a decimal integer could not be read.
#[derive(Clone, Copy, Debug, PartialEq, Eq, Structural)]
pub enum IntErrorKind {
    Empty,
    InvalidDigit,
    PosOverflow,
    NegOverflow,
}

pub open spec fn is_digit(c: char) -> bool {
    '0' <= c && c <= '9'
}

pub open spec fn digit_value(c: char) -> int {
    c as int - '0' as int
}

pub open spec fn digit_char(d: int) -> char {
    if d == 0 { '0' } else if d == 1 { '1' } else if d == 2 { '2' } else if d == 3 { '3' }
    else if d == 4 { '4' } else if d == 5 { '5' } else if d == 6 { '6' } else if d == 7 { '7' }
    else if d == 8 { '8' } else { '9' }
}

/// Reads the digits of `s` from `i` on onto `acc`; a value past `max` is the error `ov`.
pub open spec fn digits_from(s: Seq<char>, i: int, acc: int, max: int, ov: IntErrorKind) -> Result<int, IntErrorKind>
    decreases s.len() - i,
{
    if i >= s.len() {
        Ok(acc)
    } else if !is_digit(s[i]) {
        Err(IntErrorKind::InvalidDigit)
    } else if acc * 10 + digit_value(s[i]) > max {
        Err(ov)
    } else {
        digits_from(s, i + 1, acc * 10 + digit_value(s[i]), max, ov)
    }
}

/// A decimal integer with an optional sign (`-` only where `signed`), whose
/// magnitude is at most `pos_max`, or `neg_max` when negative.
pub open spec fn parse_int(s: Seq<char>, signed: bool, pos_max: int, neg_max: int) -> Result<int, IntErrorKind> {
    if s.len() == 0 {
        Err(IntErrorKind::Empty)
    } else if (s[0] == '+' || s[0] == '-') && s.len() == 1 {
        Err(IntErrorKind::InvalidDigit)
    } else if s[0] == '+' {
        digits_from(s, 1, 0, pos_max, IntErrorKind::PosOverflow)
    } else if s[0] == '-' && signed {
        match digits_from(s, 1, 0, neg_max, IntErrorKind::NegOverflow) {
            Ok(v) => Ok(-v),
            Err(e) => Err(e),
        }
    } else {
        digits_from(s, 0, 0, pos_max, IntErrorKind::PosOverflow)
    }
}

pub open spec fn parse_usize_spec(s: Seq<char>) -> Result<int, IntErrorKind> {
    parse_int(s, false, usize::MAX as int, 0)
}

pub open spec fn parse_i32_spec(s: Seq<char>) -> Result<int, IntErrorKind> {
    parse_int(s, true, i32::MAX as int, 0x8000_0000)
}

/// The decimal digits of `n`, without sign or leading zeros.
pub open spec fn decimal_of(n: nat) -> Seq<char>
    decreases n,
{
    if n < 10 {
        seq![digit_char(n as int)]
    } else {
        decimal_of(n / 10).push(digit_char(n as int % 10))
    }
}

/// How an integer is written: a minus sign before a negative one.
pub open spec fn int_text(n: int) -> Seq<char> {
    if n < 0 { seq!['-'] + decimal_of((-n) as nat) } else { decimal_of(n as nat) }
}

fn digit_of(c: char) -> (r: Option<u64>)
    ensures
        is_digit(c) ==> r == Some(digit_value(c) as u64),
        !is_digit(c) ==> r is None,
{
    if '0' <= c && c <= '9' { Some(c as u64 - '0' as u64) } else { None }
}

fn read_digits(s: &str, from: usize, max: u64, ov: IntErrorKind) -> (r: Result<u64, IntErrorKind>)
    requires
        from <= s@.len(),
    ensures
        match r {
            Ok(v) => v <= max && digits_from(s@, from as int, 0, max as int, ov) == Ok::<int, IntErrorKind>(v as int),
            Err(e) => digits_from(s@, from as int, 0, max as int, ov) == Err::<int, IntErrorKind>(e),
        },
{
    let n = s.unicode_len();
    let mut acc: u64 = 0;
    let mut i: usize = from;
    while i < n
        invariant
            n == s@.len(),
            from <= i <= n,
            acc <= max,
            digits_from(s@, from as int, 0, max as int, ov) == digits_from(s@, i as int, acc as int, max as int, ov),
        decreases n - i,
    {
        let c = s.get_char(i);
        match digit_of(c) {
            None => {
                return Err(IntErrorKind::InvalidDigit);
            },
            Some(d) => {
                if d > max || acc > (max - d) / 10 {
                    assert(acc * 10 + d > max) by (nonlinear_arith)
                        requires d > max || acc > (max - d) / 10, acc >= 0, d >= 0;
                    return Err(ov);
                }
                assert(acc * 10 + d <= max) by (nonlinear_arith)
                    requires acc <= (max - d) / 10, d <= max;
                acc = acc * 10 + d;
            },
        }
        i = i + 1;
    }
    Ok(acc)
}

/// `str::parse::<usize>`.
pub fn parse_usize(s: &str) -> (r: Result<usize, IntErrorKind>)
    ensures
        match r {
            Ok(v) => parse_usize_spec(s@) == Ok::<int, IntErrorKind>(v as int),
            Err(e) => parse_usize_spec(s@) == Err::<int, IntErrorKind>(e),
        },
{
    let n = s.unicode_len();
    if n == 0 {
        return Err(IntErrorKind::Empty);
    }
    let c = s.get_char(0);
    if (c == '+' || c == '-') && n == 1 {
        return Err(IntErrorKind::InvalidDigit);
    }
    let from: usize = if c == '+' { 1 } else { 0 };
    match read_digits(s, from, usize::MAX as u64, IntErrorKind::PosOverflow) {
        Ok(v) => Ok(v as usize),
        Err(e) => Err(e),
    }
}

/// `str::parse::<i32>`.
pub fn parse_i32(s: &str) -> (r: Result<i32, IntErrorKind>)
    ensures
        match r {
            Ok(v) => parse_i32_spec(s@) == Ok::<int, IntErrorKind>(v as int),
            Err(e) => parse_i32_spec(s@) == Err::<int, IntErrorKind>(e),
        },
{
    let n = s.unicode_len();
    if n == 0 {
        return Err(IntErrorKind::Empty);
    }
    let c = s.get_char(0);
    if (c == '+' || c == '-') && n == 1 {
        return Err(IntErrorKind::InvalidDigit);
    }
    if c == '-' {
        match read_digits(s, 1, 0x8000_0000, IntErrorKind::NegOverflow) {
            Ok(v) => Ok((0 - (v as i64)) as i32),
            Err(e) => Err(e),
        }
    } else {
        let from: usize = if c == '+' { 1 } else { 0 };
        match read_digits(s, from, 0x7fff_ffff, IntErrorKind::PosOverflow) {
            Ok(v) => Ok(v as i32),
            Err(e) => Err(e),
        }
    }
}

fn digit_text(d: u64) -> (r: &'static str)
    requires
        d < 10,
    ensures
        r@ == seq![digit_char(d as int)],
{
    if d == 0 { proof { reveal_strlit("0"); } assert("0"@ =~= seq!['0']); "0" }
    else if d == 1 { proof { reveal_strlit("1"); } assert("1"@ =~= seq!['1']); "1" }
    else if d == 2 { proof { reveal_strlit("2"); } assert("2"@ =~= seq!['2']); "2" }
    else if d == 3 { proof { reveal_strlit("3"); } assert("3"@ =~= seq!['3']); "3" }
    else if d == 4 { proof { reveal_strlit("4"); } assert("4"@ =~= seq!['4']); "4" }
    else if d == 5 { proof { reveal_strlit("5"); } assert("5"@ =~= seq!['5']); "5" }
    else if d == 6 { proof { reveal_strlit("6"); } assert("6"@ =~= seq!['6']); "6" }
    else if d == 7 { proof { reveal_strlit("7"); } assert("7"@ =~= seq!['7']); "7" }
    else if d == 8 { proof { reveal_strlit("8"); } assert("8"@ =~= seq!['8']); "8" }
    else { proof { reveal_strlit("9"); } assert("9"@ =~= seq!['9']); "9" }
}

/// The decimal text of `n`.
pub fn decimal_string(n: u64) -> (r: String)
    ensures
        r@ == decimal_of(n as nat),
    decreases n,
{
    if n < 10 {
        String::from_str(digit_text(n))
    } else {
        let mut s = decimal_string(n / 10);
        s.append(digit_text(n % 10));
        s
    }
}

/// The text of a signed integer, as `int_text` states.
pub fn int_string(n: i32) -> (r: String)
    ensures
        r@ == int_text(n as int),
{
    if n < 0 {
        let m: u64 = (0 - (n as i64)) as u64;
        let digits = decimal_string(m);
        let minus = String::from_str("-");
        proof { reveal_strlit("-"); }
        assert(minus@ =~= seq!['-']);
        minus.concat(digits.as_str())
    } else {
        decimal_string(n as u64)
    }
}

proof fn lemma_digits_push(s: Seq<char>, i: int, acc: int, max: int, ov: IntErrorKind, v: int, d: int)
    requires
        0 <= i <= s.len(),
        digits_from(s, i, acc, max, ov) == Ok::<int, IntErrorKind>(v),
        0 <= d < 10,
        v * 10 + d <= max,
    ensures
        digits_from(s.push(digit_char(d)), i, acc, max, ov) == Ok::<int, IntErrorKind>(v * 10 + d),
    decreases s.len() - i,
{
    let t = s.push(digit_char(d));
    if i < s.len() {
        assert(t[i] == s[i]);
        lemma_digits_push(s, i + 1, acc * 10 + digit_value(s[i]), max, ov, v, d);
    } else {
        assert(t[i] == digit_char(d));
        assert(digit_value(digit_char(d)) == d);
        assert(digits_from(t, i + 1, acc * 10 + d, max, ov) == Ok::<int, IntErrorKind>(acc * 10 + d));
    }
}

/// Every character of a decimal text is a digit, and reading it back gives the number.
pub proof fn lemma_decimal_reads_back(n: nat, max: int, ov: IntErrorKind)
    requires
        n <= max,
    ensures
        decimal_of(n).len() >= 1,
        forall|k: int| 0 <= k < decimal_of(n).len() ==> is_digit(#[trigger] decimal_of(n)[k]),
        digits_from(decimal_of(n), 0, 0, max, ov) == Ok::<int, IntErrorKind>(n as int),
    decreases n,
{
    if n < 10 {
        let s = decimal_of(n);
        assert(digit_value(digit_char(n as int)) == n);
        assert(digits_from(s, 1, n as int, max, ov) == Ok::<int, IntErrorKind>(n as int));
    } else {
        let q = n / 10;
        lemma_decimal_reads_back(q, max, ov);
        let p = decimal_of(q);
        assert(q * 10 + n % 10 == n);
        lemma_digits_push(p, 0, 0, max, ov, q as int, n as int % 10);
        assert forall|k: int| 0 <= k < decimal_of(n).len() implies is_digit(#[trigger] decimal_of(n)[k]) by {
            if k < p.len() {
                assert(decimal_of(n)[k] == p[k]);
            }
        }
    }
}

proof fn lemma_digits_shift(p: Seq<char>, s: Seq<char>, i: int, acc: int, max: int, ov: IntErrorKind)
    requires
        0 <= i <= s.len(),
    ensures
        digits_from(p + s, i + p.len(), acc, max, ov) == digits_from(s, i, acc, max, ov),
    decreases s.len() - i,
{
    if i < s.len() {
        assert((p + s)[i + p.len()] == s[i]);
        lemma_digits_shift(p, s, i + 1, acc * 10 + digit_value(s[i]), max, ov);
    }
}

/// Reading back the text of an `i32` gives the number.
pub proof fn lemma_int_text_reads_back(n: i32)
    ensures
        parse_i32_spec(int_text(n as int)) == Ok::<int, IntErrorKind>(n as int),
        int_text(n as int).len() >= 1,
        forall|k: int| 0 <= k < int_text(n as int).len() ==> #[trigger] int_text(n as int)[k] == '-' || is_digit(int_text(n as int)[k]),
{
    if n < 0 {
        let m = (-n) as nat;
        lemma_decimal_reads_back(m, 0x8000_0000, IntErrorKind::NegOverflow);
        let d = decimal_of(m);
        lemma_digits_shift(seq!['-'], d, 0, 0, 0x8000_0000, IntErrorKind::NegOverflow);
        let t = seq!['-'] + d;
        assert(t[0] == '-');
        assert(t.len() > 1);
        assert forall|k: int| 0 <= k < t.len() implies #[trigger] t[k] == '-' || is_digit(t[k]) by {
            if k > 0 {
                assert(t[k] == d[k - 1]);
            }
        }
    } else {
        lemma_decimal_reads_back(n as nat, i32::MAX as int, IntErrorKind::PosOverflow);
        let d = decimal_of(n as nat);
        assert(is_digit(d[0]));
    }
}

/// Reading back the text of a `usize` gives the number.
pub proof fn lemma_usize_text_reads_back(n: usize)
    ensures
        parse_usize_spec(decimal_of(n as nat)) == Ok::<int, IntErrorKind>(n as int),
        decimal_of(n as nat).len() >= 1,
        forall|k: int| 0 <= k < decimal_of(n as nat).len() ==> is_digit(#[trigger] decimal_of(n as nat)[k]),
{
    lemma_decimal_reads_back(n as nat, usize::MAX as int, IntErrorKind::PosOverflow);
    assert(is_digit(decimal_of(n as nat)[0]));
}

} // verus!
