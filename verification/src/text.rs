//! Numbers spelled for people: decimal and fixed-width hexadecimal, built from single digits.
use vstd::prelude::*;
use vstd::string::*;

verus! {

/// The decimal digit `d` as a character.
pub open spec fn digit_char(d: int) -> char {
    (48 + d) as char
}

/// The lowercase hexadecimal digit `d` as a character.
pub open spec fn hex_char(d: int) -> char {
    if d < 10 {
        (48 + d) as char
    } else {
        (87 + d) as char
    }
}

/// `n` written in decimal, without leading zeros.
pub open spec fn decimal(n: nat) -> Seq<char>
    decreases n,
{
    if n < 10 {
        seq![digit_char(n as int)]
    } else {
        decimal(n / 10).push(digit_char((n % 10) as int))
    }
}

/// `n` written as `0x` and eight lowercase hexadecimal digits.
pub open spec fn hex8(n: u32) -> Seq<char> {
    seq!['0', 'x',
        hex_char(((n >> 28u32) & 15u32) as int), hex_char(((n >> 24u32) & 15u32) as int),
        hex_char(((n >> 20u32) & 15u32) as int), hex_char(((n >> 16u32) & 15u32) as int),
        hex_char(((n >> 12u32) & 15u32) as int), hex_char(((n >> 8u32) & 15u32) as int),
        hex_char(((n >> 4u32) & 15u32) as int), hex_char((n & 15u32) as int)]
}

/// One hexadecimal digit as a one-character string.
fn hex_digit(d: u32) -> (r: &'static str)
    requires
        d < 16,
    ensures
        r@ == seq![hex_char(d as int)],
{
    proof {
        reveal_strlit("0"); reveal_strlit("1"); reveal_strlit("2"); reveal_strlit("3");
        reveal_strlit("4"); reveal_strlit("5"); reveal_strlit("6"); reveal_strlit("7");
        reveal_strlit("8"); reveal_strlit("9"); reveal_strlit("a"); reveal_strlit("b");
        reveal_strlit("c"); reveal_strlit("d"); reveal_strlit("e"); reveal_strlit("f");
    }
    match d {
        0 => "0",
        1 => "1",
        2 => "2",
        3 => "3",
        4 => "4",
        5 => "5",
        6 => "6",
        7 => "7",
        8 => "8",
        9 => "9",
        10 => "a",
        11 => "b",
        12 => "c",
        13 => "d",
        14 => "e",
        _ => "f",
    }
}

/// Append `n` in decimal.
pub fn push_decimal(s: &mut String, n: u64)
    ensures
        final(s)@ == old(s)@ + decimal(n as nat),
    decreases n,
{
    if n >= 10 {
        push_decimal(s, n / 10);
    }
    let d = (n % 10) as u32;
    s.append(hex_digit(d));
    proof {
        if n >= 10 {
            assert(decimal(n as nat) == decimal((n / 10) as nat).push(digit_char((n % 10) as int)));
        }
    }
    assert(final(s)@ =~= old(s)@ + decimal(n as nat));
}

/// Append `n` as `0x` and eight lowercase hexadecimal digits.
pub fn push_hex8(s: &mut String, n: u32)
    ensures
        final(s)@ == old(s)@ + hex8(n),
{
    proof {
        reveal_strlit("0x");
    }
    s.append("0x");
    assert((n >> 28u32) & 15u32 < 16u32) by (bit_vector);
    assert((n >> 24u32) & 15u32 < 16u32) by (bit_vector);
    assert((n >> 20u32) & 15u32 < 16u32) by (bit_vector);
    assert((n >> 16u32) & 15u32 < 16u32) by (bit_vector);
    assert((n >> 12u32) & 15u32 < 16u32) by (bit_vector);
    assert((n >> 8u32) & 15u32 < 16u32) by (bit_vector);
    assert((n >> 4u32) & 15u32 < 16u32) by (bit_vector);
    assert(n & 15u32 < 16u32) by (bit_vector);
    s.append(hex_digit((n >> 28u32) & 15u32));
    s.append(hex_digit((n >> 24u32) & 15u32));
    s.append(hex_digit((n >> 20u32) & 15u32));
    s.append(hex_digit((n >> 16u32) & 15u32));
    s.append(hex_digit((n >> 12u32) & 15u32));
    s.append(hex_digit((n >> 8u32) & 15u32));
    s.append(hex_digit((n >> 4u32) & 15u32));
    s.append(hex_digit(n & 15u32));
    assert(final(s)@ =~= old(s)@ + hex8(n));
}

} // verus!
