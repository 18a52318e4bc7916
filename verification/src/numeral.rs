//! Decimal numerals: how integers are written and read.

use vstd::prelude::*;
use crate::text::{chars_of, digit, is_digit};

verus! {

/// The character of the decimal digit `d`.
pub open spec fn digit_char(d: nat) -> char {
    if d == 0 {
        '0'
    } else if d == 1 {
        '1'
    } else if d == 2 {
        '2'
    } else if d == 3 {
        '3'
    } else if d == 4 {
        '4'
    } else if d == 5 {
        '5'
    } else if d == 6 {
        '6'
    } else if d == 7 {
        '7'
    } else if d == 8 {
        '8'
    } else {
        '9'
    }
}

/// `n` in decimal, without leading zeros.
pub open spec fn decimal(n: nat) -> Seq<char>
    decreases n,
{
    if n < 10 {
        seq![digit_char(n)]
    } else {
        decimal(n / 10).push(digit_char(n % 10))
    }
}

/// `n` in decimal, with a minus sign where it is negative.
pub open spec fn signed(n: int) -> Seq<char> {
    if n < 0 {
        "-"@ + decimal((-n) as nat)
    } else {
        decimal(n as nat)
    }
}

/// `s` with zeros before it, up to the length `width`.
pub open spec fn zero_filled(s: Seq<char>, width: nat) -> Seq<char>
    decreases width - s.len(),
{
    if s.len() >= width {
        s
    } else {
        zero_filled(seq!['0'] + s, width)
    }
}

/// `n` in decimal with zeros up to the length `width`; a sign counts and comes first.
pub open spec fn padded(n: int, width: nat) -> Seq<char> {
    if n < 0 {
        "-"@ + zero_filled(decimal((-n) as nat), if width > 0 { (width - 1) as nat } else { 0 })
    } else {
        zero_filled(decimal(n as nat), width)
    }
}

fn digit_of(d: u64) -> (c: char)
    requires
        d < 10,
    ensures
        c == digit_char(d as nat),
{
    if d == 0 {
        '0'
    } else if d == 1 {
        '1'
    } else if d == 2 {
        '2'
    } else if d == 3 {
        '3'
    } else if d == 4 {
        '4'
    } else if d == 5 {
        '5'
    } else if d == 6 {
        '6'
    } else if d == 7 {
        '7'
    } else if d == 8 {
        '8'
    } else {
        '9'
    }
}

/// `n` in decimal.
pub fn decimal_of(n: u64) -> (r: String)
    ensures
        r@ == decimal(n as nat),
    decreases n,
{
    if n < 10 {
        let mut s = String::new();
        s.push(digit_of(n));
        assert(s@ =~= decimal(n as nat));
        s
    } else {
        let mut s = decimal_of(n / 10);
        s.push(digit_of(n % 10));
        s
    }
}

/// `n` in decimal, for what sums of lengths can reach.
pub fn wide_decimal_of(n: u128) -> (r: String)
    ensures
        r@ == decimal(n as nat),
    decreases n,
{
    if n < 10 {
        let mut s = String::new();
        s.push(digit_of(n as u64));
        assert(s@ =~= decimal(n as nat));
        s
    } else {
        let mut s = wide_decimal_of(n / 10);
        s.push(digit_of((n % 10) as u64));
        s
    }
}

/// The distance of `n` from zero.
fn magnitude(n: i64) -> (r: u64)
    ensures
        r == if n < 0 { -n } else { n as int },
{
    if n >= 0 {
        n as u64
    } else {
        (-(n as i128)) as u64
    }
}

/// `n` in decimal, with a minus sign where it is negative.
pub fn signed_of(n: i64) -> (r: String)
    ensures
        r@ == signed(n as int),
{
    let digits = decimal_of(magnitude(n));
    if n < 0 {
        let mut s = "-".to_owned();
        s.append(digits.as_str());
        s
    } else {
        digits
    }
}

fn fill(s: String, width: usize) -> (r: String)
    ensures
        r@ == zero_filled(s@, width as nat),
{
    let mut t = s;
    while t.as_str().unicode_len() < width
        invariant
            zero_filled(s@, width as nat) == zero_filled(t@, width as nat),
        decreases width - t@.len(),
    {
        let mut u = "0".to_owned();
        u.append(t.as_str());
        proof {
            reveal_strlit("0");
            assert("0"@ =~= seq!['0']);
        }
        t = u;
    }
    t
}

/// `n` in decimal with zeros up to the length `width`; a sign counts and comes first.
pub fn padded_of(n: i64, width: usize) -> (r: String)
    ensures
        r@ == padded(n as int, width as nat),
{
    let digits = decimal_of(magnitude(n));
    if n < 0 {
        let rest = fill(digits, if width > 0 { width - 1 } else { 0 });
        let mut s = "-".to_owned();
        s.append(rest.as_str());
        s
    } else {
        fill(digits, width)
    }
}

/// The value of the decimal digit `c`.
pub open spec fn digit_value(c: char) -> int {
    c as int - '0' as int
}

/// The number that the decimal digits of `s` write.
pub open spec fn digits_value(s: Seq<char>) -> int
    decreases s.len(),
{
    if s.len() == 0 {
        0
    } else {
        digits_value(s.drop_last()) * 10 + digit_value(s.last())
    }
}

/// `s` is one or more decimal digits.
pub open spec fn all_digits(s: Seq<char>) -> bool {
    s.len() > 0 && forall|i: int| 0 <= i < s.len() ==> digit(#[trigger] s[i])
}

/// The 64-bit signed integer that `s` writes: decimal digits, after a sign or not.
pub open spec fn parsed(s: Seq<char>) -> Option<int> {
    let negative = s.len() > 0 && s[0] == '-';
    let digits = if s.len() > 0 && (s[0] == '-' || s[0] == '+') {
        s.drop_first()
    } else {
        s
    };
    let value = if negative { -digits_value(digits) } else { digits_value(digits) };
    if all_digits(digits) && i64::MIN <= value <= i64::MAX {
        Some(value)
    } else {
        None
    }
}

fn value_of(c: char) -> (r: i128)
    requires
        digit(c),
    ensures
        r == digit_value(c),
{
    (c as u32) as i128 - 48
}

/// More digits never write a smaller number.
proof fn lemma_digits_value_grows(s: Seq<char>, k: int)
    requires
        0 <= k <= s.len(),
        forall|i: int| 0 <= i < s.len() ==> digit(#[trigger] s[i]),
    ensures
        0 <= digits_value(s.take(k)) <= digits_value(s),
    decreases s.len(),
{
    if s.len() == 0 {
        assert(s.take(k) =~= s);
    } else {
        let t = s.drop_last();
        assert forall|i: int| 0 <= i < t.len() implies digit(#[trigger] t[i]) by {
            assert(t[i] == s[i]);
        }
        if k == s.len() {
            assert(s.take(k) =~= s);
            lemma_digits_value_grows(t, 0);
            assert(t.take(0) =~= Seq::empty());
            assert(digit(s[s.len() - 1]));
        } else {
            lemma_digits_value_grows(t, k);
            assert(t.take(k) =~= s.take(k));
            assert(digit(s[s.len() - 1]));
        }
    }
}

/// The 64-bit signed integer that `s` writes.
pub fn parse_i64(s: &str) -> (r: Option<i64>)
    ensures
        r is Some <==> parsed(s@) is Some,
        r matches Some(v) ==> parsed(s@) == Some(v as int),
{
    let v = chars_of(s);
    let signed = v.len() > 0 && (v[0] == '-' || v[0] == '+');
    let negative = v.len() > 0 && v[0] == '-';
    let start: usize = if signed { 1 } else { 0 };
    let ghost digits = if signed { s@.drop_first() } else { s@ };
    assert(digits =~= s@.skip(start as int));
    if v.len() == start {
        return None;
    }
    let mut total: i128 = 0;
    let mut i: usize = start;
    while i < v.len()
        invariant
            v@ == s@,
            start <= i <= v.len(),
            digits == s@.skip(start as int),
            0 <= total <= 0x8000_0000_0000_0000,
            total == digits_value(digits.take(i - start)),
            forall|j: int| 0 <= j < i - start ==> digit(#[trigger] digits[j]),
            start == 0 || start == 1,
            negative ==> s@.len() > 0 && s@[0] == '-',
            !negative ==> s@.len() > 0 && s@[0] != '-',
            start == 1 <==> s@.len() > 0 && (s@[0] == '-' || s@[0] == '+'),
            digits == if start == 1 { s@.drop_first() } else { s@ },
        decreases v.len() - i,
    {
        let c = v[i];
        assert(digits[i - start] == c);
        if !is_digit(c) {
            assert(!all_digits(digits));
            return None;
        }
        assert(digits.take(i - start + 1).drop_last() =~= digits.take(i - start));
        total = total * 10 + value_of(c);
        if total > 0x8000_0000_0000_0000 {
            proof {
                if all_digits(digits) {
                    lemma_digits_value_grows(digits, i - start + 1);
                }
            }
            return None;
        }
        i = i + 1;
    }
    assert(digits.take(i - start) =~= digits);
    assert(all_digits(digits));
    if negative {
        Some((-total) as i64)
    } else if total <= 0x7fff_ffff_ffff_ffff {
        Some(total as i64)
    } else {
        None
    }
}

proof fn lemma_decimal_reads_back(n: nat)
    ensures
        all_digits(decimal(n)),
        digits_value(decimal(n)) == n,
    decreases n,
{
    let s = decimal(n);
    if n < 10 {
        assert(s.drop_last() =~= Seq::empty());
        assert(digits_value(s.drop_last()) == 0);
    } else {
        lemma_decimal_reads_back(n / 10);
        assert(s.drop_last() =~= decimal(n / 10));
        assert forall|i: int| 0 <= i < s.len() implies digit(#[trigger] s[i]) by {
            if i < s.len() - 1 {
                assert(s[i] == decimal(n / 10)[i]);
            }
        }
    }
}

/// A number that is written reads back as the same number.
pub proof fn a_written_number_reads_back(n: i64)
    ensures
        parsed(signed(n as int)) == Some(n as int),
{
    reveal_strlit("-");
    if n < 0 {
        let digits = decimal((-n) as nat);
        lemma_decimal_reads_back((-n) as nat);
        assert(signed(n as int).drop_first() =~= digits);
    } else {
        let digits = decimal(n as nat);
        lemma_decimal_reads_back(n as nat);
        assert(digit(digits[0]));
    }
}

/// A number is written in digits alone.
pub proof fn lemma_decimal_is_digits(n: nat)
    ensures
        decimal(n).len() > 0,
        forall|i: int| 0 <= i < decimal(n).len() ==> digit(#[trigger] decimal(n)[i]),
{
    lemma_decimal_reads_back(n);
}

/// A number is written by place: the last digit counts the units, what stands before it writes the
/// tens, no number begins with a zero but zero itself, and only a negative one begins with a
/// minus.
pub proof fn a_number_is_written_by_place(n: int)
    ensures
        n >= 0 ==> signed(n).last() as int == '0' as int + n % 10,
        n >= 10 ==> signed(n).drop_last() == signed(n / 10),
        0 <= n < 10 ==> signed(n).len() == 1,
        n > 0 ==> signed(n)[0] != '0',
        signed(n)[0] == '-' <==> n < 0,
        n < 0 ==> signed(n).drop_first() == signed(-n),
    decreases if n < 0 { 1 - n } else { n },
{
    reveal_strlit("-");
    if n < 0 {
        assert(signed(n).drop_first() =~= decimal((-n) as nat));
    } else {
        lemma_decimal_is_digits(n as nat);
        assert(digit(decimal(n as nat)[0]));
        if n >= 10 {
            assert(decimal(n as nat).drop_last() =~= decimal((n / 10) as nat));
            a_number_is_written_by_place(n / 10);
            assert(signed(n)[0] == signed(n / 10)[0]);
        }
    }
}

/// A padded number is as wide as asked for or as its digits need, ends with its digits, and has
/// nothing but zeros before them.
pub proof fn padding_only_adds_zeros(n: nat, width: nat, i: int)
    ensures
        decimal(n).is_suffix_of(padded(n as int, width)),
        padded(n as int, width).len() == if decimal(n).len() < width {
            width
        } else {
            decimal(n).len()
        },
        0 <= i < padded(n as int, width).len() - decimal(n).len() ==> padded(n as int, width)[i]
            == '0',
{
    lemma_zero_filled(decimal(n), width, i);
}

proof fn lemma_zero_filled(s: Seq<char>, width: nat, i: int)
    ensures
        s.is_suffix_of(zero_filled(s, width)),
        zero_filled(s, width).len() == if s.len() < width {
            width
        } else {
            s.len()
        },
        0 <= i < zero_filled(s, width).len() - s.len() ==> zero_filled(s, width)[i] == '0',
    decreases width - s.len(),
{
    if s.len() < width {
        let t = seq!['0'] + s;
        lemma_zero_filled(t, width, i);
        let z = zero_filled(s, width);
        let d = z.len() - t.len();
        assert(z.subrange(d, z.len() as int) =~= t);
        assert(z[d] == t[0]) by {
            assert(z.subrange(d, z.len() as int)[0] == t[0]);
        }
        assert(z.subrange(d + 1, z.len() as int) =~= s) by {
            assert forall|k: int| 0 <= k < s.len() implies z.subrange(d + 1, z.len() as int)[k]
                == s[k] by {
                assert(z.subrange(d, z.len() as int)[k + 1] == t[k + 1]);
            }
        }
    } else {
        assert(s.subrange(0, s.len() as int) =~= s);
    }
}

/// The digits of a number are worth the number, and only zero begins with a zero.
pub proof fn lemma_decimal_reads(n: nat)
    ensures
        all_digits(decimal(n)),
        digits_value(decimal(n)) == n,
        decimal(n).len() == 1 || decimal(n)[0] != '0',
{
    lemma_decimal_reads_back(n);
    if n > 0 {
        a_number_is_written_by_place(n as int);
    }
}

} // verus!
