//! Decimal integers: reading the small signed numbers of a document and
//! writing them back as text.

use vstd::prelude::*;

verus! {

/// Whether `c` is an ASCII decimal digit.
pub open spec fn is_digit(c: char) -> bool {
    '0' <= c && c <= '9'
}

/// The value of an ASCII digit.
pub open spec fn digit_value(c: char) -> int {
    (c as int) - ('0' as int)
}

/// Whether `s` is made of ASCII digits only.
pub open spec fn all_digits(s: Seq<char>) -> bool {
    forall|i: int| 0 <= i < s.len() ==> is_digit(#[trigger] s[i])
}

/// The value of a string of digits, read in base ten.
pub open spec fn digits_value(s: Seq<char>) -> int
    decreases s.len(),
{
    if s.len() == 0 {
        0
    } else {
        10 * digits_value(s.drop_last()) + digit_value(s.last())
    }
}

/// The integer that `s` writes: an optional sign followed by at least one
/// digit, or `None` when `s` has any other shape.
pub open spec fn integer_of(s: Seq<char>) -> Option<int> {
    let neg = s.len() > 0 && s[0] == '-';
    let signed = s.len() > 0 && (s[0] == '-' || s[0] == '+');
    let body = if signed { s.drop_first() } else { s };
    if body.len() > 0 && all_digits(body) {
        Some(if neg { -digits_value(body) } else { digits_value(body) })
    } else {
        None
    }
}

/// The number that `s` writes if it fits in `i8`.
pub open spec fn small_int_of(s: Seq<char>) -> Option<int> {
    match integer_of(s) {
        Some(n) => if -128 <= n <= 127 { Some(n) } else { None },
        None => None,
    }
}

proof fn lemma_digits_value_nonneg(s: Seq<char>)
    requires
        all_digits(s),
    ensures
        digits_value(s) >= 0,
    decreases s.len(),
{
    if s.len() > 0 {
        lemma_digits_value_nonneg(s.drop_last());
    }
}

/// A longer run of digits never has a smaller value than its prefix.
proof fn lemma_digits_value_grows(s: Seq<char>, i: int, j: int)
    requires
        all_digits(s),
        0 <= i <= j <= s.len(),
    ensures
        digits_value(s.subrange(0, i)) <= digits_value(s.subrange(0, j)),
    decreases j - i,
{
    if i < j {
        lemma_digits_value_grows(s, i, j - 1);
        let t = s.subrange(0, j);
        assert(t.drop_last() =~= s.subrange(0, j - 1));
        lemma_digits_value_nonneg(t.drop_last());
    }
}

/// Reads the integer in `s`, as `i8` parsing does: an optional `+` or `-`,
/// then decimal digits. Any other text, or a value outside -128..127, gives
/// `None`.
pub fn parse_small_int(s: &str) -> (r: Option<i8>)
    ensures
        match r {
            Some(v) => small_int_of(s@) == Some(v as int),
            None => small_int_of(s@) is None,
        },
{
    let n = s.unicode_len();
    if n == 0 {
        return None;
    }
    let first = s.get_char(0);
    let neg = first == '-';
    let start: usize = if first == '-' || first == '+' { 1 } else { 0 };
    let ghost body = if start == 1 { s@.drop_first() } else { s@ };
    assert(body =~= s@.subrange(start as int, n as int));
    if start >= n {
        return None;
    }
    let mut acc: i32 = 0;
    let mut i: usize = start;
    while i < n
        invariant
            start <= i <= n,
            n == s@.len(),
            n > 0,
            start == 1 <==> (s@[0] == '-' || s@[0] == '+'),
            start <= 1,
            neg <==> s@[0] == '-',
            body == (if start == 1 { s@.drop_first() } else { s@ }),
            body =~= s@.subrange(start as int, n as int),
            all_digits(body.subrange(0, i - start)),
            acc as int == digits_value(body.subrange(0, i - start)),
            0 <= acc <= 128,
        decreases n - i,
    {
        let c = s.get_char(i);
        if !('0' <= c && c <= '9') {
            assert(body[i - start] == c);
            assert(!is_digit(body[i - start]));
            assert(!all_digits(body));
            return None;
        }
        let d = (c as u32 - '0' as u32) as i32;
        let ghost prev = body.subrange(0, i - start);
        let ghost next = body.subrange(0, i - start + 1);
        assert(next.drop_last() =~= prev);
        assert(next.last() == c);
        let v = 10 * acc + d;
        i = i + 1;
        if v > 128 {
            proof {
                assert(all_digits(next));
                if all_digits(body) {
                    lemma_digits_value_grows(body, i - start, body.len() as int);
                    assert(body.subrange(0, body.len() as int) =~= body);
                    assert(digits_value(body) > 128);
                }
            }
            return None;
        }
        acc = v;
    }
    assert(body.subrange(0, n - start) =~= body);
    if neg {
        Some((0 - acc) as i8)
    } else if acc > 127 {
        None
    } else {
        Some(acc as i8)
    }
}


/// The decimal digits of `n`, without leading zeros.
pub open spec fn decimal_nat(n: nat) -> Seq<char>
    decreases n,
{
    if n < 10 {
        seq![digit_char(n)]
    } else {
        decimal_nat(n / 10) + seq![digit_char(n % 10)]
    }
}

/// The digit that writes `d`, for `d` below ten.
pub open spec fn digit_char(d: nat) -> char {
    ('0' as nat + d) as char
}

/// `n` in decimal, with a leading `-` when negative.
pub open spec fn decimal(n: int) -> Seq<char> {
    if n < 0 {
        seq!['-'] + decimal_nat((-n) as nat)
    } else {
        decimal_nat(n as nat)
    }
}

/// `n` in decimal, padded with a leading zero to two characters.
pub open spec fn two_digits(n: int) -> Seq<char> {
    if 0 <= n < 10 {
        seq!['0'] + decimal_nat(n as nat)
    } else {
        decimal(n)
    }
}

fn digit_text(d: u8) -> (r: &'static str)
    requires
        d < 10,
    ensures
        r@ == seq![digit_char(d as nat)],
{
    proof {
        reveal_strlit("0");
        reveal_strlit("1");
        reveal_strlit("2");
        reveal_strlit("3");
        reveal_strlit("4");
        reveal_strlit("5");
        reveal_strlit("6");
        reveal_strlit("7");
        reveal_strlit("8");
        reveal_strlit("9");
    }
    let r = match d {
        0 => "0",
        1 => "1",
        2 => "2",
        3 => "3",
        4 => "4",
        5 => "5",
        6 => "6",
        7 => "7",
        8 => "8",
        _ => "9",
    };
    assert(r@ =~= seq![digit_char(d as nat)]);
    r
}

fn push_magnitude(out: &mut String, m: u8)
    ensures
        final(out)@ == old(out)@ + decimal_nat(m as nat),
{
    let ghost before = out@;
    if m >= 100 {
        out.append(digit_text(m / 100));
        out.append(digit_text((m / 10) % 10));
        out.append(digit_text(m % 10));
        assert(decimal_nat((m / 100) as nat) == seq![digit_char((m / 100) as nat)]);
        assert(decimal_nat((m / 10) as nat) == decimal_nat((m / 100) as nat) + seq![
            digit_char(((m / 10) % 10) as nat),
        ]);
        assert(decimal_nat(m as nat) == decimal_nat((m / 10) as nat) + seq![
            digit_char((m % 10) as nat),
        ]);
        assert(out@ =~= before + decimal_nat(m as nat));
    } else if m >= 10 {
        out.append(digit_text(m / 10));
        out.append(digit_text(m % 10));
        assert(decimal_nat((m / 10) as nat) == seq![digit_char((m / 10) as nat)]);
        assert(decimal_nat(m as nat) == decimal_nat((m / 10) as nat) + seq![
            digit_char((m % 10) as nat),
        ]);
        assert(out@ =~= before + decimal_nat(m as nat));
    } else {
        out.append(digit_text(m));
    }
}

/// Appends `n` in decimal.
pub fn push_decimal(out: &mut String, n: i8)
    ensures
        final(out)@ == old(out)@ + decimal(n as int),
{
    let ghost before = out@;
    if n < 0 {
        out.append("-");
        proof {
            reveal_strlit("-");
        }
        push_magnitude(out, (0 - (n as i16)) as u8);
        assert(out@ =~= before + decimal(n as int));
    } else {
        push_magnitude(out, n as u8);
    }
}

/// Appends `n` in decimal, padded with a leading zero to two characters.
pub fn push_two_digits(out: &mut String, n: i8)
    ensures
        final(out)@ == old(out)@ + two_digits(n as int),
{
    let ghost before = out@;
    if 0 <= n && n < 10 {
        out.append("0");
        proof {
            reveal_strlit("0");
        }
        push_magnitude(out, n as u8);
        assert(out@ =~= before + two_digits(n as int));
    } else {
        push_decimal(out, n);
    }
}

} // verus!
