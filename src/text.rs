//! Decimal and hexadecimal rendering of integers, and column padding.
use vstd::prelude::*;

verus! {

/// The text of one decimal digit.
pub open spec fn digit_text(d: nat) -> Seq<char> {
    if d == 0 {
        "0"@
    } else if d == 1 {
        "1"@
    } else if d == 2 {
        "2"@
    } else if d == 3 {
        "3"@
    } else if d == 4 {
        "4"@
    } else if d == 5 {
        "5"@
    } else if d == 6 {
        "6"@
    } else if d == 7 {
        "7"@
    } else if d == 8 {
        "8"@
    } else if d == 9 {
        "9"@
    } else if d == 10 {
        "A"@
    } else if d == 11 {
        "B"@
    } else if d == 12 {
        "C"@
    } else if d == 13 {
        "D"@
    } else if d == 14 {
        "E"@
    } else {
        "F"@
    }
}

/// A natural number in decimal, without leading zeros.
pub open spec fn decimal_text(n: nat) -> Seq<char>
    decreases n,
{
    if n < 10 {
        digit_text(n)
    } else {
        decimal_text(n / 10) + digit_text(n % 10)
    }
}

/// An integer in decimal, with a leading minus sign when negative.
pub open spec fn signed_text(i: int) -> Seq<char> {
    if i < 0 {
        "-"@ + decimal_text((-i) as nat)
    } else {
        decimal_text(i as nat)
    }
}

/// A byte as two upper-case hexadecimal digits.
pub open spec fn hex_byte_text(b: u8) -> Seq<char> {
    digit_text((b / 16) as nat) + digit_text((b % 16) as nat)
}

/// `fill` repeated `k` times.
pub open spec fn repeat(fill: Seq<char>, k: nat) -> Seq<char>
    decreases k,
{
    if k == 0 {
        Seq::empty()
    } else {
        repeat(fill, (k - 1) as nat) + fill
    }
}

/// How many fill characters bring `t` up to `width`.
pub open spec fn pad_count(t: Seq<char>, width: nat) -> nat {
    if t.len() < width {
        (width - t.len()) as nat
    } else {
        0
    }
}

/// `t` aligned to the right in a column of `width` characters.
pub open spec fn pad_left(t: Seq<char>, width: nat) -> Seq<char> {
    repeat(" "@, pad_count(t, width)) + t
}

/// `t` aligned to the left in a column of `width` characters.
pub open spec fn pad_right(t: Seq<char>, width: nat) -> Seq<char> {
    t + repeat(" "@, pad_count(t, width))
}

/// `t` preceded by zeros up to `width` characters.
pub open spec fn zero_pad(t: Seq<char>, width: nat) -> Seq<char> {
    repeat("0"@, pad_count(t, width)) + t
}

/// Returns the text of one digit below sixteen.
pub fn digit_str(d: u8) -> (r: &'static str)
    requires
        d < 16,
    ensures
        r@ == digit_text(d as nat),
{
    match d {
        0 => "0",
        1 => "1",
        2 => "2",
        3 => "3",
        4 => "4",
        5 => "5",
        6 => "6",
        7 => "7",
        8 => "8",
        9 => "9",
        10 => "A",
        11 => "B",
        12 => "C",
        13 => "D",
        14 => "E",
        _ => "F",
    }
}

/// Appends `n` in decimal.
pub fn push_decimal(out: &mut String, n: u64)
    ensures
        final(out)@ == old(out)@ + decimal_text(n as nat),
    decreases n,
{
    if n >= 10 {
        push_decimal(out, n / 10);
    }
    out.append(digit_str((n % 10) as u8));
    if n >= 10 {
        assert(out@ =~= old(out)@ + (decimal_text((n / 10) as nat) + digit_text((n % 10) as nat)));
    }
}

/// Returns `n` in decimal.
pub fn decimal(n: u64) -> (r: String)
    ensures
        r@ == decimal_text(n as nat),
{
    let mut out = String::new();
    push_decimal(&mut out, n);
    assert(out@ =~= decimal_text(n as nat));
    out
}

/// Appends `fill` `k` times.
pub fn push_repeat(out: &mut String, fill: &str, k: usize)
    ensures
        final(out)@ == old(out)@ + repeat(fill@, k as nat),
{
    let mut i: usize = 0;
    while i < k
        invariant
            i <= k,
            out@ == old(out)@ + repeat(fill@, i as nat),
        decreases k - i,
    {
        out.append(fill);
        i = i + 1;
        assert(out@ =~= old(out)@ + repeat(fill@, i as nat));
    }
    assert(out@ =~= old(out)@ + repeat(fill@, k as nat));
}

/// Appends `t` aligned to the right in a column of `width` characters.
pub fn push_pad_left(out: &mut String, t: &str, width: usize)
    ensures
        final(out)@ == old(out)@ + pad_left(t@, width as nat),
{
    let len = t.unicode_len();
    let k: usize = if len < width { width - len } else { 0 };
    push_repeat(out, " ", k);
    out.append(t);
    assert(out@ =~= old(out)@ + pad_left(t@, width as nat));
}

/// Appends `t` aligned to the left in a column of `width` characters.
pub fn push_pad_right(out: &mut String, t: &str, width: usize)
    ensures
        final(out)@ == old(out)@ + pad_right(t@, width as nat),
{
    let len = t.unicode_len();
    let k: usize = if len < width { width - len } else { 0 };
    out.append(t);
    push_repeat(out, " ", k);
    assert(out@ =~= old(out)@ + pad_right(t@, width as nat));
}

/// Appends `n` in decimal, aligned to the right in a column of `width` characters.
pub fn push_decimal_padded(out: &mut String, n: u64, width: usize)
    ensures
        final(out)@ == old(out)@ + pad_left(decimal_text(n as nat), width as nat),
{
    let t = decimal(n);
    push_pad_left(out, t.as_str(), width);
}

/// Appends `i` in decimal, aligned to the right in a column of `width` characters.
pub fn push_signed_padded(out: &mut String, i: i64, width: usize)
    requires
        i > i64::MIN,
    ensures
        final(out)@ == old(out)@ + pad_left(signed_text(i as int), width as nat),
{
    let mut t = String::new();
    if i < 0 {
        t.append("-");
        push_decimal(&mut t, (-i) as u64);
    } else {
        push_decimal(&mut t, i as u64);
    }
    assert(t@ =~= signed_text(i as int));
    push_pad_left(out, t.as_str(), width);
}

/// Appends `n` in decimal, preceded by zeros up to `width` characters.
pub fn push_decimal_zero_padded(out: &mut String, n: u64, width: usize)
    ensures
        final(out)@ == old(out)@ + zero_pad(decimal_text(n as nat), width as nat),
{
    let t = decimal(n);
    let len = t.as_str().unicode_len();
    let k: usize = if len < width { width - len } else { 0 };
    push_repeat(out, "0", k);
    out.append(t.as_str());
    assert(out@ =~= old(out)@ + zero_pad(decimal_text(n as nat), width as nat));
}

/// Appends a byte as two upper-case hexadecimal digits.
pub fn push_hex_byte(out: &mut String, b: u8)
    ensures
        final(out)@ == old(out)@ + hex_byte_text(b),
{
    out.append(digit_str(b / 16));
    out.append(digit_str(b % 16));
    assert(out@ =~= old(out)@ + hex_byte_text(b));
}

} // verus!
