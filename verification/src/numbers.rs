//! Numbers as text: decimal and octal rendering, and parsing with the usual sign rules.

use vstd::prelude::*;
use vstd::string::*;
use crate::text::chars_of;

verus! {

/// The character of a digit below ten.
pub open spec fn digit(d: int) -> char {
    (48 + d) as char
}

/// Whether a character is an ASCII decimal digit.
pub open spec fn is_digit(c: char) -> bool {
    '0' <= c <= '9'
}

/// The digits of `n` in base `base`, most significant first, without leading zeros.
pub open spec fn digits(n: nat, base: nat) -> Seq<char>
    recommends
        2 <= base <= 10,
    decreases n,
{
    if base < 2 || n < base {
        seq![digit(n as int)]
    } else {
        proof {
            vstd::arithmetic::div_mod::lemma_div_decreases(n as int, base as int);
        }
        digits(n / base, base).push(digit((n % base) as int))
    }
}

/// `n` in decimal.
pub open spec fn decimal(n: nat) -> Seq<char> {
    digits(n, 10)
}

/// `n` in decimal, with a minus sign where it is negative.
pub open spec fn signed_decimal(n: int) -> Seq<char> {
    if n < 0 {
        seq!['-'] + decimal((-n) as nat)
    } else {
        decimal(n as nat)
    }
}

/// Appends the digits of `n` in base `base`.
fn push_digits(out: &mut String, n: u64, base: u64)
    requires
        2 <= base <= 10,
    ensures
        final(out)@ == old(out)@ + digits(n as nat, base as nat),
    decreases n,
{
    if n < base {
        out.push((48u8 + n as u8) as char);
    } else {
        proof {
            vstd::arithmetic::div_mod::lemma_div_decreases(n as int, base as int);
            vstd::arithmetic::div_mod::lemma_mod_bound(n as int, base as int);
        }
        let low: u64 = n % base;
        push_digits(out, n / base, base);
        out.push((48u8 + low as u8) as char);
    }
}

/// Appends `n` in decimal.
pub fn push_decimal(out: &mut String, n: u64)
    ensures
        final(out)@ == old(out)@ + decimal(n as nat),
{
    push_digits(out, n, 10);
}

/// Appends `n` in decimal, with a minus sign where it is negative.
pub fn push_signed(out: &mut String, n: i64)
    ensures
        final(out)@ == old(out)@ + signed_decimal(n as int),
{
    if n < 0 {
        out.push('-');
        let magnitude: u64 = (-(n + 1)) as u64 + 1;
        push_digits(out, magnitude, 10);
    } else {
        push_digits(out, n as u64, 10);
    }
}

/// `n` in decimal.
pub fn decimal_text(n: u64) -> (r: String)
    ensures
        r@ == decimal(n as nat),
{
    let mut out = String::new();
    push_decimal(&mut out, n);
    out
}

/// `n` in octal.
pub fn octal_text(n: u64) -> (r: String)
    ensures
        r@ == digits(n as nat, 8),
{
    let mut out = String::new();
    push_digits(&mut out, n, 8);
    out
}

/// Whether `s` is one or more decimal digits.
pub open spec fn all_digits(s: Seq<char>) -> bool {
    s.len() > 0 && forall|i: int| 0 <= i < s.len() ==> is_digit(#[trigger] s[i])
}

/// The number that a sequence of decimal digits denotes.
pub open spec fn value_of(s: Seq<char>) -> nat
    decreases s.len(),
{
    if s.len() == 0 {
        0
    } else {
        (value_of(s.drop_last()) * 10 + (s.last() as int - 48)) as nat
    }
}

/// The digits of an unsigned number: `s` without one leading plus sign.
pub open spec fn after_plus(s: Seq<char>) -> Seq<char> {
    if s.len() > 0 && s.first() == '+' {
        s.drop_first()
    } else {
        s
    }
}

/// The `u32` that `s` denotes: an optional plus sign, then digits only, within range.
pub open spec fn parsed_u32(s: Seq<char>) -> Option<u32> {
    let d = after_plus(s);
    if all_digits(d) && value_of(d) <= u32::MAX {
        Some(value_of(d) as u32)
    } else {
        None
    }
}

/// The `i32` that `s` denotes: an optional sign, then digits only, within range.
pub open spec fn parsed_i32(s: Seq<char>) -> Option<i32> {
    if s.len() > 0 && s.first() == '-' {
        let d = s.drop_first();
        if all_digits(d) && value_of(d) <= -(i32::MIN as int) {
            Some((-value_of(d)) as i32)
        } else {
            None
        }
    } else {
        let d = after_plus(s);
        if all_digits(d) && value_of(d) <= i32::MAX {
            Some(value_of(d) as i32)
        } else {
            None
        }
    }
}

/// Reads the digits from `from` on; `None` unless there is at least one, there is nothing else,
/// and the number is at most `limit`.
fn parse_digits(chars: &Vec<char>, from: usize, limit: u64) -> (r: Option<u64>)
    requires
        from <= chars@.len(),
        limit <= u32::MAX,
    ensures
        r == (if all_digits(chars@.skip(from as int)) && value_of(chars@.skip(from as int)) <= limit {
            Some(value_of(chars@.skip(from as int)) as u64)
        } else {
            None::<u64>
        }),
{
    let ghost d = chars@.skip(from as int);
    if from == chars.len() {
        return None;
    }
    let mut acc: u64 = 0;
    let mut over: bool = false;
    let mut i: usize = from;
    assert(d.take(0) == Seq::<char>::empty());
    while i < chars.len()
        invariant
            d == chars@.skip(from as int),
            from <= i <= chars@.len(),
            limit <= u32::MAX,
            acc <= u32::MAX,
            forall|k: int| 0 <= k < i - from ==> is_digit(#[trigger] d[k]),
            !over ==> acc == value_of(d.take(i - from)) && acc <= limit,
            over ==> value_of(d.take(i - from)) > limit,
        decreases chars@.len() - i,
    {
        let c: char = chars[i];
        assert(d[i - from] == c);
        if !('0' <= c && c <= '9') {
            return None;
        }
        assert(d.take(i - from + 1).drop_last() == d.take(i - from));
        if !over {
            let next: u64 = acc * 10 + (c as u8 - 48u8) as u64;
            if next > limit {
                over = true;
            } else {
                acc = next;
            }
        }
        i += 1;
    }
    assert(d.take(i - from) == d);
    if over {
        None
    } else {
        Some(acc)
    }
}

/// Reads an unsigned 32-bit number.
pub fn parse_u32(s: &str) -> (r: Option<u32>)
    ensures
        r == parsed_u32(s@),
{
    let chars = chars_of(s);
    let from: usize = if chars.len() > 0 && chars[0] == '+' {
        1
    } else {
        0
    };
    assert(chars@.skip(from as int) == after_plus(s@));
    match parse_digits(&chars, from, 0xffff_ffff) {
        Some(v) => Some(v as u32),
        None => None,
    }
}

/// Reads a signed 32-bit number.
pub fn parse_i32(s: &str) -> (r: Option<i32>)
    ensures
        r == parsed_i32(s@),
{
    let chars = chars_of(s);
    if chars.len() > 0 && chars[0] == '-' {
        assert(chars@.skip(1) == s@.drop_first());
        match parse_digits(&chars, 1, 0x8000_0000) {
            Some(v) => Some((-(v as i64)) as i32),
            None => None,
        }
    } else {
        let from: usize = if chars.len() > 0 && chars[0] == '+' {
            1
        } else {
            0
        };
        assert(chars@.skip(from as int) == after_plus(s@));
        match parse_digits(&chars, from, 0x7fff_ffff) {
            Some(v) => Some(v as i32),
            None => None,
        }
    }
}

/// Rendering a number in decimal and reading the digits back gives the number.
pub proof fn law_decimal_reads_back(n: nat)
    ensures
        all_digits(decimal(n)),
        value_of(decimal(n)) == n,
    decreases n,
{
    if n < 10 {
        assert(decimal(n).drop_last() == Seq::<char>::empty());
        assert(value_of(Seq::<char>::empty()) == 0);
    } else {
        law_decimal_reads_back(n / 10);
        let low = digit((n % 10) as int);
        assert(decimal(n) == decimal(n / 10).push(low));
        assert(decimal(n).drop_last() == decimal(n / 10));
        assert forall|i: int| 0 <= i < decimal(n).len() implies is_digit(#[trigger] decimal(n)[i]) by {
            if i < decimal(n).len() - 1 {
                assert(decimal(n)[i] == decimal(n / 10)[i]);
            }
        }
    }
}

/// A 32-bit number that was rendered in decimal is read back as itself.
pub proof fn law_u32_reads_back(n: u32)
    ensures
        parsed_u32(decimal(n as nat)) == Some(n),
{
    law_decimal_reads_back(n as nat);
    assert(is_digit(decimal(n as nat)[0]));
}

/// A digit that is written behind a number that is not zero makes it the base times as much, and
/// the digit more.
pub proof fn law_digits_by_their_place(n: nat, d: nat, base: nat)
    requires
        2 <= base <= 10,
        n > 0,
        d < base,
    ensures
        digits(n * base + d, base) == digits(n, base).push(digit(d as int)),
        digits(d, base) == seq![digit(d as int)],
{
    let m = n * base + d;
    assert(m >= base) by (nonlinear_arith)
        requires
            m == n * base + d,
            n >= 1,
            base >= 2,
    ;
    vstd::arithmetic::div_mod::lemma_fundamental_div_mod_converse(
        m as int,
        base as int,
        n as int,
        d as int,
    );
}

/// The digits are those from `0` on, in their order.
pub proof fn law_digits_in_order(d: int)
    requires
        0 <= d < 9,
    ensures
        digit(0) == '0',
        digit(d + 1) as int == digit(d) as int + 1,
{
}

/// A signed number is a sign, where it is negative, and its size.
pub proof fn law_sign_stands_before_the_size(n: nat)
    ensures
        signed_decimal(n as int) == decimal(n),
        n > 0 ==> signed_decimal(-(n as int)) == seq!['-'] + decimal(n),
{
}

/// A signed 32-bit number that was rendered is read back as itself; a plus sign is read over.
pub proof fn law_i32_reads_back(n: i32)
    ensures
        parsed_i32(signed_decimal(n as int)) == Some(n),
        n >= 0 ==> parsed_i32(seq!['+'] + decimal(n as nat)) == Some(n),
        n >= 0 ==> parsed_u32(seq!['+'] + decimal(n as nat)) == Some(n as u32),
{
    let size = if n < 0 {
        (-(n as int)) as nat
    } else {
        n as nat
    };
    let d = decimal(size);
    law_decimal_reads_back(size);
    assert(is_digit(d[0]));
    assert((seq!['-'] + d).drop_first() =~= d);
    assert((seq!['+'] + d).drop_first() =~= d);
}

/// What is read as a number is that number: its digits, behind at most one sign, count up to it.
/// Anything else is no number.
pub proof fn law_only_digits_are_numbers(s: Seq<char>, i: int)
    requires
        0 <= i < s.len(),
        !is_digit(s[i]),
        i > 0 || (s[0] != '+' && s[0] != '-'),
    ensures
        parsed_u32(s) is None,
        parsed_i32(s) is None,
{
    if s[0] == '-' || s[0] == '+' {
        assert(s.drop_first()[i - 1] == s[i]);
    }
}

/// Without digits there is no number, and none is too large for its type.
pub proof fn law_numbers_have_digits_and_bounds(n: nat)
    ensures
        parsed_u32(seq![]) is None,
        parsed_i32(seq![]) is None,
        parsed_u32(seq!['+']) is None,
        parsed_i32(seq!['-']) is None,
        n > u32::MAX ==> parsed_u32(decimal(n)) is None,
        n > i32::MAX ==> parsed_i32(decimal(n)) is None,
        n > 0x8000_0000 ==> parsed_i32(seq!['-'] + decimal(n)) is None,
{
    law_decimal_reads_back(n);
    let d = decimal(n);
    assert(is_digit(d[0]));
    assert((seq!['-'] + d).drop_first() =~= d);
    assert(seq!['+'].drop_first() =~= Seq::<char>::empty());
    assert(seq!['-'].drop_first() =~= Seq::<char>::empty());
}

} // verus!
