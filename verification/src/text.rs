//! Building strings character by character, and decimal notation.

use vstd::prelude::*;
use vstd::string::StringExecFns;

verus! {

/// `String::push` appends the one character to the end of the string.
pub assume_specification[ std::string::String::push ](s: &mut std::string::String, ch: char)
    ensures
        final(s)@ == old(s)@.push(ch),
;

/// The characters of `chars` from `from` up to `to`, as a string.
pub fn string_of(chars: &Vec<char>, from: usize, to: usize) -> (r: String)
    requires
        from <= to <= chars.len(),
    ensures
        r@ == chars@.subrange(from as int, to as int),
{
    let mut out = String::new();
    let mut i: usize = from;
    while i < to
        invariant
            from <= i <= to <= chars.len(),
            out@ == chars@.subrange(from as int, i as int),
        decreases to - i,
    {
        out.push(chars[i]);
        i += 1;
        assert(out@ =~= chars@.subrange(from as int, i as int));
    }
    out
}

/// The character that writes the digit `d`.
pub open spec fn digit_char(d: int) -> char {
    (d + '0' as int) as char
}

/// The digits that write `n`, most significant first, with no leading zero
/// but for zero itself.
pub open spec fn digits_of(n: nat) -> Seq<char>
    decreases n,
{
    if n < 10 {
        seq![digit_char(n as int)]
    } else {
        digits_of(n / 10).push(digit_char((n % 10) as int))
    }
}

/// Decimal notation of an integer: its digits, behind a `-` where it is
/// negative.
pub open spec fn decimal_text(v: int) -> Seq<char> {
    if v < 0 {
        seq!['-'] + digits_of((-v) as nat)
    } else {
        digits_of(v as nat)
    }
}

/// `"true"` or `"false"`.
pub open spec fn bool_text(b: bool) -> Seq<char> {
    if b {
        seq!['t', 'r', 'u', 'e']
    } else {
        seq!['f', 'a', 'l', 's', 'e']
    }
}

fn digit_to_char(d: u8) -> (c: char)
    requires
        d < 10,
    ensures
        c == digit_char(d as int),
{
    (d + 48u8) as char
}

/// Appends the digits of `magnitude` to `out`.
pub fn push_natural(out: &mut String, magnitude: u64)
    ensures
        final(out)@ == old(out)@ + digits_of(magnitude as nat),
{
    let ghost prefix = out@;
    // The digits, least significant first.
    let mut low: Vec<char> = Vec::new();
    let mut n: u64 = magnitude;
    while n >= 10
        invariant
            digits_of(magnitude as nat) == digits_of(n as nat) + low@.reverse(),
        decreases n,
    {
        let ghost before = low@;
        low.push(digit_to_char((n % 10) as u8));
        proof {
            let d = digit_char((n % 10) as int);
            assert(before.push(d).reverse() =~= seq![d] + before.reverse());
            assert(digits_of(n as nat) == digits_of((n / 10) as nat).push(d));
            assert(digits_of((n / 10) as nat).push(d) + before.reverse() =~= digits_of(
                (n / 10) as nat,
            ) + (seq![d] + before.reverse()));
        }
        n = n / 10;
    }
    out.push(digit_to_char(n as u8));
    let mut i: usize = low.len();
    while i > 0
        invariant
            i <= low.len(),
            out@ == prefix + digits_of(n as nat) + low@.reverse().subrange(
                0,
                low.len() - i as int,
            ),
        decreases i,
    {
        i -= 1;
        out.push(low[i]);
        proof {
            let rev = low@.reverse();
            assert(rev[low.len() - i - 1] == low@[i as int]);
            assert(rev.subrange(0, low.len() - i as int) =~= rev.subrange(
                0,
                low.len() - i - 1,
            ).push(low@[i as int]));
        }
    }
    proof {
        let rev = low@.reverse();
        assert(rev.subrange(0, low.len() as int) =~= rev);
        assert(out@ =~= prefix + digits_of(magnitude as nat));
    }
}

/// Appends the decimal notation of `v` to `out`.
pub fn push_decimal(out: &mut String, v: i64)
    ensures
        final(out)@ == old(out)@ + decimal_text(v as int),
{
    let ghost start = out@;
    let wide: i128 = v as i128;
    if wide < 0 {
        out.push('-');
        push_natural(out, (-wide) as u64);
        assert(out@ =~= start + (seq!['-'] + digits_of((-wide) as nat)));
    } else {
        push_natural(out, wide as u64);
    }
}

/// The decimal notation of a number without sign.
pub fn natural_string(v: u64) -> (r: String)
    ensures
        r@ == decimal_text(v as int),
{
    let mut out = String::new();
    push_natural(&mut out, v);
    assert(out@ =~= decimal_text(v as int));
    out
}

/// The decimal notation of `v`.
pub fn decimal_string(v: i64) -> (r: String)
    ensures
        r@ == decimal_text(v as int),
{
    let mut out = String::new();
    push_decimal(&mut out, v);
    assert(out@ =~= decimal_text(v as int));
    out
}

/// Appends `"true"` or `"false"` to `out`.
pub fn push_bool(out: &mut String, b: bool)
    ensures
        final(out)@ == old(out)@ + bool_text(b),
{
    let ghost start = out@;
    if b {
        out.push('t');
        out.push('r');
        out.push('u');
        out.push('e');
    } else {
        out.push('f');
        out.push('a');
        out.push('l');
        out.push('s');
        out.push('e');
    }
    assert(out@ =~= start + bool_text(b));
}

/// Appends the characters of `text` to `out`.
pub fn push_text(out: &mut String, text: &str)
    ensures
        final(out)@ == old(out)@ + text@,
{
    out.append(text);
}

} // verus!
