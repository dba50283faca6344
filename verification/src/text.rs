//! Numbers as text, the way diagnostics print them.
use vstd::prelude::*;
use vstd::string::*;

verus! {

/// The lower-case hexadecimal digit for a value below sixteen.
pub open spec fn hex_digit(value: nat) -> char {
    if value == 0 {
        '0'
    } else if value == 1 {
        '1'
    } else if value == 2 {
        '2'
    } else if value == 3 {
        '3'
    } else if value == 4 {
        '4'
    } else if value == 5 {
        '5'
    } else if value == 6 {
        '6'
    } else if value == 7 {
        '7'
    } else if value == 8 {
        '8'
    } else if value == 9 {
        '9'
    } else if value == 10 {
        'a'
    } else if value == 11 {
        'b'
    } else if value == 12 {
        'c'
    } else if value == 13 {
        'd'
    } else if value == 14 {
        'e'
    } else {
        'f'
    }
}

/// `value` in hexadecimal, most significant digit first, without leading
/// zeros; zero is the single digit `0`.
pub open spec fn hex_digits(value: nat) -> Seq<char>
    decreases value,
{
    if value < 16 {
        seq![hex_digit(value)]
    } else {
        hex_digits(value / 16).push(hex_digit(value % 16))
    }
}

/// `value` in decimal, most significant digit first, without leading zeros;
/// zero is the single digit `0`.
pub open spec fn decimal_digits(value: nat) -> Seq<char>
    decreases value,
{
    if value < 10 {
        seq![hex_digit(value)]
    } else {
        decimal_digits(value / 10).push(hex_digit(value % 10))
    }
}

/// The last `width` hexadecimal digits of `value`, with zeros in front where
/// `value` has fewer.
pub open spec fn hex_digits_fixed(value: nat, width: nat) -> Seq<char>
    decreases width,
{
    if width == 0 {
        Seq::empty()
    } else {
        hex_digits_fixed(value / 16, (width - 1) as nat).push(hex_digit(value % 16))
    }
}

/// The bit pattern of a signed 32-bit number, read as unsigned.
pub open spec fn bits32(value: i32) -> nat {
    if value >= 0 {
        value as nat
    } else {
        (value + 0x1_0000_0000) as nat
    }
}

/// The bit pattern of a pointer-sized signed number, read as unsigned.
pub open spec fn bits_of_isize(value: isize) -> nat {
    if value >= 0 {
        value as nat
    } else {
        (value + usize::MAX + 1) as nat
    }
}

fn digit_text(value: u64) -> (text: &'static str)
    requires
        value < 16,
    ensures
        text@ == seq![hex_digit(value as nat)],
{
    proof {
        reveal_strlit("0");
        reveal_strlit("1");
        reveal_strlit("2");
        reveal_strlit("3");
        reveal_strlit("4");
        reveal_strlit("5");
        reveal_strlit("6");
        reveal_strlit("7");
        reveal_strlit("8");
        reveal_strlit("9");
        reveal_strlit("a");
        reveal_strlit("b");
        reveal_strlit("c");
        reveal_strlit("d");
        reveal_strlit("e");
        reveal_strlit("f");
    }
    let text = if value == 0 {
        "0"
    } else if value == 1 {
        "1"
    } else if value == 2 {
        "2"
    } else if value == 3 {
        "3"
    } else if value == 4 {
        "4"
    } else if value == 5 {
        "5"
    } else if value == 6 {
        "6"
    } else if value == 7 {
        "7"
    } else if value == 8 {
        "8"
    } else if value == 9 {
        "9"
    } else if value == 10 {
        "a"
    } else if value == 11 {
        "b"
    } else if value == 12 {
        "c"
    } else if value == 13 {
        "d"
    } else if value == 14 {
        "e"
    } else {
        "f"
    };
    assert(text@ =~= seq![hex_digit(value as nat)]);
    text
}

/// Appends `value` in hexadecimal to `out`.
pub fn push_hex(out: &mut String, value: u64)
    ensures
        final(out)@ == old(out)@ + hex_digits(value as nat),
    decreases value,
{
    if value >= 16 {
        push_hex(out, value / 16);
    }
    out.append(digit_text(value % 16));
    proof {
        let v = value as nat;
        if value >= 16 {
            assert(old(out)@ + hex_digits(v / 16) + seq![hex_digit(v % 16)] =~= old(out)@
                + hex_digits(v));
        }
    }
}

/// Appends the last `width` hexadecimal digits of `value` to `out`,
/// zero-padded.
pub fn push_hex_fixed(out: &mut String, value: u64, width: u8)
    ensures
        final(out)@ == old(out)@ + hex_digits_fixed(value as nat, width as nat),
    decreases width,
{
    if width > 0 {
        push_hex_fixed(out, value / 16, width - 1);
        out.append(digit_text(value % 16));
        proof {
            let v = value as nat;
            let w = width as nat;
            assert(old(out)@ + hex_digits_fixed(v / 16, (w - 1) as nat) + seq![hex_digit(v % 16)]
                =~= old(out)@ + hex_digits_fixed(v, w));
        }
    } else {
        assert(old(out)@ + hex_digits_fixed(value as nat, 0) =~= old(out)@);
    }
}

/// The unsigned reading of a signed 32-bit number.
pub fn unsigned32(value: i32) -> (bits: u32)
    ensures
        bits == bits32(value),
{
    if value >= 0 {
        value as u32
    } else {
        (value as i64 + 0x1_0000_0000) as u32
    }
}

/// The unsigned reading of a pointer-sized signed number.
pub fn unsigned_of_isize(value: isize) -> (bits: usize)
    ensures
        bits == bits_of_isize(value),
{
    if value >= 0 {
        value as usize
    } else {
        usize::MAX - ((-(value + 1)) as usize)
    }
}

/// Zero in fixed width is all zeros.
pub proof fn lemma_fixed_of_zero(width: nat)
    ensures
        hex_digits_fixed(0, width) == Seq::new(width, |i: int| '0'),
    decreases width,
{
    if width > 0 {
        lemma_fixed_of_zero((width - 1) as nat);
    }
    assert(hex_digits_fixed(0, width) =~= Seq::new(width, |i: int| '0'));
}

/// Fixed-width digits are the plain digits with zeros in front, wherever
/// the plain digits fit the width.
pub proof fn lemma_fixed_is_zero_padded(value: nat, width: nat)
    requires
        hex_digits(value).len() <= width,
    ensures
        hex_digits_fixed(value, width) == Seq::new(
            (width - hex_digits(value).len()) as nat,
            |i: int| '0',
        ) + hex_digits(value),
    decreases width,
{
    let plain = hex_digits(value);
    let pad = Seq::new((width - plain.len()) as nat, |i: int| '0');
    if width == 0 {
    } else if value < 16 {
        lemma_fixed_of_zero((width - 1) as nat);
        assert(hex_digits_fixed(value, width) =~= pad + plain);
    } else {
        lemma_fixed_is_zero_padded(value / 16, (width - 1) as nat);
        assert(hex_digits_fixed(value, width) =~= pad + plain);
    }
}

/// Sixteen to the power of `exponent`.
pub open spec fn sixteen_to(exponent: nat) -> nat
    decreases exponent,
{
    if exponent == 0 {
        1
    } else {
        16 * sixteen_to((exponent - 1) as nat)
    }
}

/// A number below sixteen to the power of `width` has at most `width`
/// hexadecimal digits.
pub proof fn lemma_hex_digits_fit(value: nat, width: nat)
    requires
        width >= 1,
        value < sixteen_to(width),
    ensures
        hex_digits(value).len() <= width,
    decreases width,
{
    if value >= 16 {
        assert(sixteen_to(1) == 16) by {
            assert(sixteen_to(0) == 1);
        }
        assert(width >= 2);
        lemma_hex_digits_fit(value / 16, (width - 1) as nat);
    }
}

/// The bit pattern of a 32-bit number in eight fixed digits is the number
/// in hexadecimal, padded with zeros in front to eight digits.
pub proof fn lemma_eight_digits(value: i32)
    ensures
        hex_digits(bits32(value)).len() <= 8,
        hex_digits_fixed(bits32(value), 8) == Seq::new(
            (8 - hex_digits(bits32(value)).len()) as nat,
            |i: int| '0',
        ) + hex_digits(bits32(value)),
{
    assert(sixteen_to(8) == 0x1_0000_0000) by {
        reveal_with_fuel(sixteen_to, 9);
    }
    lemma_hex_digits_fit(bits32(value), 8);
    lemma_fixed_is_zero_padded(bits32(value), 8);
}

} // verus!
