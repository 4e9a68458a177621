//! Numbers as texts: reading whole numbers and decimals from their digits,
//! and writing whole numbers in base ten.

use vstd::prelude::*;
use crate::text::{chars_of, find_char, first_index};

verus! {

/// Whether `c` is one of the ten decimal digits.
pub open spec fn is_digit(c: char) -> bool {
    '0' <= c && c <= '9'
}

/// The number that the digit `c` stands for.
pub open spec fn digit_of(c: char) -> nat {
    (c as u32 - '0' as u32) as nat
}

/// Whether `s` holds decimal digits only.
pub open spec fn all_digits(s: Seq<char>) -> bool {
    forall|i: int| 0 <= i < s.len() ==> is_digit(#[trigger] s[i])
}

/// The number that a run of digits writes in base ten.
pub open spec fn digits_value(s: Seq<char>) -> nat
    decreases s.len(),
{
    if s.len() == 0 {
        0
    } else {
        digits_value(s.drop_last()) * 10 + digit_of(s.last())
    }
}

/// The number that `s` writes, where `s` is a non-empty run of digits whose
/// value fits in 64 bits.
pub open spec fn whole_number(s: Seq<char>) -> Option<u64> {
    if s.len() > 0 && all_digits(s) && digits_value(s) <= u64::MAX {
        Some(digits_value(s) as u64)
    } else {
        None
    }
}

/// A run of digits is worth no less than any of its prefixes.
pub proof fn digits_value_prefix(s: Seq<char>, k: int)
    requires
        0 <= k <= s.len(),
    ensures
        digits_value(s.take(k)) <= digits_value(s),
    decreases s.len(),
{
    if k == s.len() {
        assert(s.take(k) == s);
    } else {
        digits_value_prefix(s.drop_last(), k);
        assert(s.drop_last().take(k) == s.take(k));
    }
}

/// The number that `c` stands for, where `c` is a decimal digit.
pub fn digit(c: char) -> (r: Option<u8>)
    ensures
        r is Some == is_digit(c),
        r matches Some(d) ==> d == digit_of(c) && d <= 9,
{
    let code: u32 = c as u32;
    if 48 <= code && code <= 57 {
        Some((code - 48) as u8)
    } else {
        None
    }
}

/// Reads `v[from..to]` as a whole number.
pub(crate) fn whole_in(v: &Vec<char>, from: usize, to: usize) -> (r: Option<u64>)
    requires
        from <= to <= v.len(),
    ensures
        r == whole_number(v@.subrange(from as int, to as int)),
{
    let ghost part = v@.subrange(from as int, to as int);
    if from == to {
        return None;
    }
    let mut value: u64 = 0;
    let mut i: usize = from;
    while i < to
        invariant
            from <= i <= to <= v.len(),
            part == v@.subrange(from as int, to as int),
            all_digits(part.take(i - from)),
            value == digits_value(part.take(i - from)),
        decreases to - i,
    {
        let ghost seen = part.take(i - from);
        let ghost next = part.take(i - from + 1);
        assert(next.drop_last() == seen);
        assert(next.last() == v@[i as int]);
        match digit(v[i]) {
            None => {
                return None;
            },
            Some(d) => {
                if value > (u64::MAX - d as u64) / 10 {
                    proof {
                        digits_value_prefix(part, i - from + 1);
                    }
                    return None;
                }
                value = value * 10 + d as u64;
            },
        }
        i += 1;
    }
    assert(part.take(to - from) == part);
    Some(value)
}

/// Whether `s` is written as digits, or as digits, a point and digits.
pub open spec fn is_decimal(s: Seq<char>) -> bool {
    let p = first_index(s, '.');
    &&& p > 0
    &&& all_digits(s.take(p))
    &&& (p == s.len() || (p + 1 < s.len() && all_digits(s.skip(p + 1))))
}

/// What stands before the point of a decimal.
pub open spec fn whole_part(s: Seq<char>) -> nat {
    digits_value(s.take(first_index(s, '.')))
}

/// The first two digits behind the point of a decimal, as a number of
/// hundredths; digits that are not written count as zero.
pub open spec fn hundredths_part(s: Seq<char>) -> nat {
    let p = first_index(s, '.');
    if p + 1 >= s.len() {
        0
    } else if p + 2 == s.len() {
        digit_of(s[p + 1]) * 10
    } else {
        digit_of(s[p + 1]) * 10 + digit_of(s[p + 2])
    }
}

/// The whole units of the decimal `s`, its fraction cut off.
pub open spec fn units(s: Seq<char>) -> Option<u64> {
    if is_decimal(s) && whole_part(s) <= u64::MAX {
        Some(whole_part(s) as u64)
    } else {
        None
    }
}

/// The decimal `s` in hundredths of a unit, further digits cut off.
pub open spec fn hundredths(s: Seq<char>) -> Option<u64> {
    if is_decimal(s) && whole_part(s) * 100 + hundredths_part(s) <= u64::MAX {
        Some((whole_part(s) * 100 + hundredths_part(s)) as u64)
    } else {
        None
    }
}

/// Whether `v[from..to]` holds digits only.
fn digits_in(v: &Vec<char>, from: usize, to: usize) -> (r: bool)
    requires
        from <= to <= v.len(),
    ensures
        r == all_digits(v@.subrange(from as int, to as int)),
{
    let ghost part = v@.subrange(from as int, to as int);
    let mut i: usize = from;
    while i < to
        invariant
            from <= i <= to <= v.len(),
            part == v@.subrange(from as int, to as int),
            forall|j: int| 0 <= j < i - from ==> is_digit(#[trigger] part[j]),
        decreases to - i,
    {
        if digit(v[i]).is_none() {
            assert(!is_digit(part[i - from]));
            return false;
        }
        i += 1;
    }
    true
}

/// Splits a decimal into its whole part and the hundredths behind the
/// point.
fn read_decimal(v: &Vec<char>) -> (r: Option<(u64, u8)>)
    ensures
        r is Some == (is_decimal(v@) && whole_part(v@) <= u64::MAX),
        r matches Some((w, h)) ==> w == whole_part(v@) && h == hundredths_part(v@) && h <= 99,
{
    let n = v.len();
    let p = find_char(v, 0, n, '.');
    assert(v@.subrange(0, n as int) == v@);
    let whole = match whole_in(v, 0, p) {
        Some(w) => w,
        None => { return None; },
    };
    if p == n {
        return Some((whole, 0));
    }
    if p + 1 == n || !digits_in(v, p + 1, n) {
        return None;
    }
    assert(is_digit(v@.skip(p + 1)[0]));
    let first = match digit(v[p + 1]) {
        Some(d) => d,
        None => { return None; },
    };
    if p + 2 == n {
        return Some((whole, first * 10));
    }
    assert(is_digit(v@.skip(p + 1)[1]));
    match digit(v[p + 2]) {
        Some(d) => Some((whole, first * 10 + d)),
        None => None,
    }
}

/// Reads a whole number: a non-empty run of digits that fits in 64 bits.
pub fn read_whole(text: &str) -> (r: Option<u64>)
    ensures
        r == whole_number(text@),
{
    let v = chars_of(text);
    assert(v@.subrange(0, v@.len() as int) == v@);
    whole_in(&v, 0, v.len())
}

/// Reads the whole units of a decimal.
pub fn read_units(text: &str) -> (r: Option<u64>)
    ensures
        r == units(text@),
{
    let v = chars_of(text);
    match read_decimal(&v) {
        Some((w, _)) => Some(w),
        None => None,
    }
}

/// Reads a decimal in hundredths of a unit.
pub fn read_hundredths(text: &str) -> (r: Option<u64>)
    ensures
        r == hundredths(text@),
{
    let v = chars_of(text);
    match read_decimal(&v) {
        Some((w, h)) => {
            if w > (u64::MAX - h as u64) / 100 {
                None
            } else {
                Some(w * 100 + h as u64)
            }
        },
        None => None,
    }
}

/// The character that writes a number below ten.
pub open spec fn digit_char(d: nat) -> char {
    if d == 0 {
        '0'
    } else if d == 1 {
        '1'
    } else if d == 2 {
        '2'
    } else if d == 3 {
        '3'
    } else if d == 4 {
        '4'
    } else if d == 5 {
        '5'
    } else if d == 6 {
        '6'
    } else if d == 7 {
        '7'
    } else if d == 8 {
        '8'
    } else {
        '9'
    }
}

/// A number in base ten, without leading zeros; zero is written `0`.
pub open spec fn decimal(n: nat) -> Seq<char>
    decreases n,
{
    if n < 10 {
        seq![digit_char(n)]
    } else {
        decimal(n / 10).push(digit_char(n % 10))
    }
}

/// A number in base ten, with zeros in front up to `width` characters.
pub open spec fn padded(n: nat, width: nat) -> Seq<char> {
    let digits = decimal(n);
    if digits.len() >= width {
        digits
    } else {
        Seq::new((width - digits.len()) as nat, |i: int| '0') + digits
    }
}

/// What `decimal` writes reads back as the same number.
pub proof fn decimal_reads_back(n: nat)
    ensures
        decimal(n).len() > 0,
        all_digits(decimal(n)),
        digits_value(decimal(n)) == n,
    decreases n,
{
    if n < 10 {
        let s = decimal(n);
        assert(digits_value(s.drop_last()) == 0);
    } else {
        decimal_reads_back(n / 10);
        let s = decimal(n);
        assert(s.drop_last() == decimal(n / 10));
    }
}

/// The character that writes `d`.
pub(crate) fn digit_to_char(d: u8) -> (c: char)
    requires
        d <= 9,
    ensures
        c == digit_char(d as nat),
{
    if d == 0 {
        '0'
    } else if d == 1 {
        '1'
    } else if d == 2 {
        '2'
    } else if d == 3 {
        '3'
    } else if d == 4 {
        '4'
    } else if d == 5 {
        '5'
    } else if d == 6 {
        '6'
    } else if d == 7 {
        '7'
    } else if d == 8 {
        '8'
    } else {
        '9'
    }
}

/// How many characters `decimal` writes for `n`.
pub fn decimal_len(n: u64) -> (r: usize)
    ensures
        r == decimal(n as nat).len(),
        1 <= r <= 20,
    decreases n,
{
    if n < 10 {
        1
    } else {
        let shorter = decimal_len(n / 10);
        proof {
            decimal_len_bound(n as nat);
        }
        shorter + 1
    }
}

/// A number that fits in 64 bits has at most twenty digits.
pub proof fn decimal_len_bound(n: nat)
    requires
        n <= u64::MAX,
    ensures
        decimal(n).len() <= 20,
{
    reveal_with_fuel(decimal, 21);
}

/// Appends `n` in base ten to `out`.
pub fn push_decimal(out: &mut String, n: u64)
    ensures
        final(out)@ == old(out)@ + decimal(n as nat),
    decreases n,
{
    if n >= 10 {
        push_decimal(out, n / 10);
    }
    out.push(digit_to_char((n % 10) as u8));
}

/// Appends `n` in base ten to `out`, with zeros in front up to `width`
/// characters.
pub fn push_padded(out: &mut String, n: u64, width: usize)
    ensures
        final(out)@ == old(out)@ + padded(n as nat, width as nat),
{
    let len = decimal_len(n);
    let ghost zeros = Seq::<char>::empty();
    if len < width {
        let mut i: usize = 0;
        while i < width - len
            invariant
                len < width,
                i <= width - len,
                zeros == Seq::new(i as nat, |j: int| '0'),
                out@ == old(out)@ + zeros,
            decreases width - len - i,
        {
            out.push('0');
            i += 1;
            proof {
                zeros = Seq::new(i as nat, |j: int| '0');
            }
        }
    }
    push_decimal(out, n);
}

} // verus!
