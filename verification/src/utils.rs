//! Small text utilities shared by the renderers: decimal and hexadecimal
//! formatting, sequence repetition, and integer width truncation.

use vstd::prelude::*;

verus! {

/// The text of one decimal digit.
pub open spec fn digit_text(d: nat) -> Seq<char> {
    if d == 0 {
        "0"@
    } else if d == 1 {
        "1"@
    } else if d == 2 {
        "2"@
    } else if d == 3 {
        "3"@
    } else if d == 4 {
        "4"@
    } else if d == 5 {
        "5"@
    } else if d == 6 {
        "6"@
    } else if d == 7 {
        "7"@
    } else if d == 8 {
        "8"@
    } else {
        "9"@
    }
}

/// The decimal text of a natural number, most significant digit first.
pub open spec fn dec_text(n: nat) -> Seq<char>
    decreases n,
{
    if n < 10 {
        digit_text(n)
    } else {
        dec_text(n / 10) + digit_text(n % 10)
    }
}

fn digit_str(d: u128) -> (r: &'static str)
    requires
        d < 10,
    ensures
        r@ == digit_text(d as nat),
{
    if d == 0 {
        "0"
    } else if d == 1 {
        "1"
    } else if d == 2 {
        "2"
    } else if d == 3 {
        "3"
    } else if d == 4 {
        "4"
    } else if d == 5 {
        "5"
    } else if d == 6 {
        "6"
    } else if d == 7 {
        "7"
    } else if d == 8 {
        "8"
    } else {
        "9"
    }
}

/// Appends the decimal text of `n` to `out`.
pub fn push_dec_u128(out: &mut String, n: u128)
    ensures
        final(out)@ == old(out)@ + dec_text(n as nat),
    decreases n,
{
    if n < 10 {
        out.append(digit_str(n));
    } else {
        push_dec_u128(out, n / 10);
        out.append(digit_str(n % 10));
        proof {
            assert(final(out)@ =~= old(out)@ + dec_text(n as nat));
        }
    }
}

/// Appends the decimal text of `n` to `out`.
pub fn push_dec_usize(out: &mut String, n: usize)
    ensures
        final(out)@ == old(out)@ + dec_text(n as nat),
{
    push_dec_u128(out, n as u128);
}

/// The decimal text of `n` as a fresh string.
pub fn dec_string_usize(n: usize) -> (r: String)
    ensures
        r@ == dec_text(n as nat),
{
    let mut s = String::new();
    push_dec_usize(&mut s, n);
    proof {
        assert(s@ =~= dec_text(n as nat));
    }
    s
}

/// The text of one upper-case hexadecimal digit.
pub open spec fn hex_digit_text(d: nat) -> Seq<char> {
    if d < 10 {
        digit_text(d)
    } else if d == 10 {
        "A"@
    } else if d == 11 {
        "B"@
    } else if d == 12 {
        "C"@
    } else if d == 13 {
        "D"@
    } else if d == 14 {
        "E"@
    } else {
        "F"@
    }
}

/// The text of one lower-case hexadecimal digit.
pub open spec fn hex_digit_text_lower(d: nat) -> Seq<char> {
    if d < 10 {
        digit_text(d)
    } else if d == 10 {
        "a"@
    } else if d == 11 {
        "b"@
    } else if d == 12 {
        "c"@
    } else if d == 13 {
        "d"@
    } else if d == 14 {
        "e"@
    } else {
        "f"@
    }
}

/// Two upper-case hexadecimal digits of a byte.
pub open spec fn byte_hex_text(b: nat) -> Seq<char> {
    hex_digit_text(b / 16) + hex_digit_text(b % 16)
}

/// Two lower-case hexadecimal digits of a byte.
pub open spec fn byte_hex_text_lower(b: nat) -> Seq<char> {
    hex_digit_text_lower(b / 16) + hex_digit_text_lower(b % 16)
}

fn hex_digit_str(d: u8) -> (r: &'static str)
    requires
        d < 16,
    ensures
        r@ == hex_digit_text(d as nat),
{
    if d < 10 {
        digit_str(d as u128)
    } else if d == 10 {
        "A"
    } else if d == 11 {
        "B"
    } else if d == 12 {
        "C"
    } else if d == 13 {
        "D"
    } else if d == 14 {
        "E"
    } else {
        "F"
    }
}

fn hex_digit_str_lower(d: u8) -> (r: &'static str)
    requires
        d < 16,
    ensures
        r@ == hex_digit_text_lower(d as nat),
{
    if d < 10 {
        digit_str(d as u128)
    } else if d == 10 {
        "a"
    } else if d == 11 {
        "b"
    } else if d == 12 {
        "c"
    } else if d == 13 {
        "d"
    } else if d == 14 {
        "e"
    } else {
        "f"
    }
}

/// Appends the two upper-case hexadecimal digits of `b` to `out`.
pub fn push_byte_hex(out: &mut String, b: u8)
    ensures
        final(out)@ == old(out)@ + byte_hex_text(b as nat),
{
    out.append(hex_digit_str(b / 16));
    out.append(hex_digit_str(b % 16));
    proof {
        assert(final(out)@ =~= old(out)@ + byte_hex_text(b as nat));
    }
}

/// Appends the two lower-case hexadecimal digits of `b` to `out`.
pub fn push_byte_hex_lower(out: &mut String, b: u8)
    ensures
        final(out)@ == old(out)@ + byte_hex_text_lower(b as nat),
{
    out.append(hex_digit_str_lower(b / 16));
    out.append(hex_digit_str_lower(b % 16));
    proof {
        assert(final(out)@ =~= old(out)@ + byte_hex_text_lower(b as nat));
    }
}

/// `s` repeated `n` times.
pub open spec fn repeat_text(s: Seq<char>, n: nat) -> Seq<char>
    decreases n,
{
    if n == 0 {
        Seq::<char>::empty()
    } else {
        repeat_text(s, (n - 1) as nat) + s
    }
}

/// Appends `s` repeated `n` times to `out`.
pub fn push_repeat(out: &mut String, s: &str, n: usize)
    ensures
        final(out)@ == old(out)@ + repeat_text(s@, n as nat),
{
    let mut i: usize = 0;
    proof {
        assert(out@ =~= old(out)@ + repeat_text(s@, 0));
    }
    while i < n
        invariant
            i <= n,
            out@ == old(out)@ + repeat_text(s@, i as nat),
        decreases n - i,
    {
        out.append(s);
        i = i + 1;
        proof {
            assert(out@ =~= old(out)@ + repeat_text(s@, i as nat));
        }
    }
}

/// Relies on std's `String::push`: appends exactly the given character.
#[verifier::external_body]
pub fn push_char(s: &mut String, c: char)
    ensures
        final(s)@ == old(s)@.push(c),
{
    s.push(c);
}

/// Whether two string slices hold the same text.
pub fn str_eq(a: &str, b: &str) -> (r: bool)
    ensures
        r == (a@ == b@),
{
    let sa = a.to_owned();
    let sb = b.to_owned();
    sa == sb
}

/// `256` to the power of `b`: the number of values of a `b`-byte integer.
pub open spec fn pow256(b: nat) -> nat
    decreases b,
{
    if b == 0 {
        1
    } else {
        256 * pow256((b - 1) as nat)
    }
}

/// Keeps the low `bytes * 8` bits of `value`; widths of sixteen bytes or
/// more leave the value unchanged.
pub fn truncate_to_size(value: u128, bytes: usize) -> (r: u128)
    ensures
        bytes >= 16 ==> r == value,
        bytes < 16 ==> r == value % (pow256(bytes as nat) as u128),
{
    proof {
        reveal_with_fuel(pow256, 17);
    }
    if bytes >= 16 {
        value
    } else {
        let modulus: u128 = match bytes {
            0 => 1,
            1 => 0x100,
            2 => 0x1_0000,
            3 => 0x100_0000,
            4 => 0x1_0000_0000,
            5 => 0x100_0000_0000,
            6 => 0x1_0000_0000_0000,
            7 => 0x100_0000_0000_0000,
            8 => 0x1_0000_0000_0000_0000,
            9 => 0x100_0000_0000_0000_0000,
            10 => 0x1_0000_0000_0000_0000_0000,
            11 => 0x100_0000_0000_0000_0000_0000,
            12 => 0x1_0000_0000_0000_0000_0000_0000,
            13 => 0x100_0000_0000_0000_0000_0000_0000,
            14 => 0x1_0000_0000_0000_0000_0000_0000_0000,
            _ => 0x100_0000_0000_0000_0000_0000_0000_0000,
        };
        value % modulus
    }
}

} // verus!
