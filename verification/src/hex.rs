//! Fixed-width hexadecimal fields, as the monitor writes its numbers.
use vstd::prelude::*;

verus! {

/// The ASCII digit of a value below sixteen.
pub open spec fn hex_digit(nibble: nat, upper: bool) -> u8 {
    if nibble < 10 {
        (0x30 + nibble) as u8
    } else if upper {
        (0x41 + nibble - 10) as u8
    } else {
        (0x61 + nibble - 10) as u8
    }
}

/// The last `digits` hexadecimal digits of `value`, most significant first,
/// padded with zeros on the left.
pub open spec fn hex_field(value: nat, digits: nat, upper: bool) -> Seq<u8>
    decreases digits,
{
    if digits == 0 {
        Seq::empty()
    } else {
        hex_field(value / 16, (digits - 1) as nat, upper).push(hex_digit(value % 16, upper))
    }
}

/// The value of one ASCII digit in the given letter case, if it is one.
pub open spec fn digit_value(c: u8, upper: bool) -> Option<nat> {
    if 0x30 <= c <= 0x39 {
        Some((c - 0x30) as nat)
    } else if upper && 0x41 <= c <= 0x46 {
        Some((c - 0x41 + 10) as nat)
    } else if !upper && 0x61 <= c <= 0x66 {
        Some((c - 0x61 + 10) as nat)
    } else {
        None
    }
}

/// The number that a field of hexadecimal digits denotes, if every byte of it
/// is a digit in the given letter case.
pub open spec fn hex_value(field: Seq<u8>, upper: bool) -> Option<nat>
    decreases field.len(),
{
    if field.len() == 0 {
        Some(0)
    } else {
        match (hex_value(field.drop_last(), upper), digit_value(field.last(), upper)) {
            (Some(high), Some(low)) => Some(16 * high + low),
            _ => None,
        }
    }
}

/// `value` cut down to its last `digits` hexadecimal digits.
pub open spec fn low_digits(value: nat, digits: nat) -> nat
    decreases digits,
{
    if digits == 0 {
        0
    } else {
        16 * low_digits(value / 16, (digits - 1) as nat) + value % 16
    }
}

/// A field has as many bytes as it has digits.
pub proof fn lemma_hex_field_len(value: nat, digits: nat, upper: bool)
    ensures
        hex_field(value, digits, upper).len() == digits,
    decreases digits,
{
    if digits > 0 {
        lemma_hex_field_len(value / 16, (digits - 1) as nat, upper);
    }
}

/// Reading a written field gives back the digits that were written.
pub proof fn lemma_hex_value_of_field(value: nat, digits: nat, upper: bool)
    ensures
        hex_value(hex_field(value, digits, upper), upper) == Some(low_digits(value, digits)),
    decreases digits,
{
    if digits > 0 {
        let rest = hex_field(value / 16, (digits - 1) as nat, upper);
        let field = hex_field(value, digits, upper);
        lemma_hex_value_of_field(value / 16, (digits - 1) as nat, upper);
        assert(field.drop_last() =~= rest);
        assert(field.last() == hex_digit(value % 16, upper));
        assert(digit_value(hex_digit(value % 16, upper), upper) == Some(value % 16));
    }
}

/// Eight digits hold every 32-bit number.
pub proof fn lemma_low_digits_u32(value: u32)
    ensures
        low_digits(value as nat, 8) == value,
{
    reveal_with_fuel(low_digits, 9);
}

/// Two digits hold every byte.
pub proof fn lemma_low_digits_u8(value: u8)
    ensures
        low_digits(value as nat, 2) == value,
{
    reveal_with_fuel(low_digits, 3);
}

/// The ASCII digit of `nibble`.
fn hex_digit_of(nibble: u8, upper: bool) -> (c: u8)
    requires
        nibble < 16,
    ensures
        c == hex_digit(nibble as nat, upper),
{
    if nibble < 10 {
        0x30 + nibble
    } else if upper {
        0x41 + (nibble - 10)
    } else {
        0x61 + (nibble - 10)
    }
}

/// Appends the last `digits` hexadecimal digits of `value` to `out`.
pub fn push_hex(out: &mut Vec<u8>, value: u32, digits: u8, upper: bool)
    ensures
        final(out)@ == old(out)@ + hex_field(value as nat, digits as nat, upper),
    decreases digits,
{
    if digits > 0 {
        push_hex(out, value / 16, digits - 1, upper);
        let nibble: u8 = (value % 16) as u8;
        out.push(hex_digit_of(nibble, upper));
        assert(final(out)@ =~= old(out)@ + hex_field(value as nat, digits as nat, upper));
    } else {
        assert(final(out)@ =~= old(out)@ + hex_field(value as nat, digits as nat, upper));
    }
}

/// The number that `field` denotes, if all of its bytes are digits in the
/// given letter case and there are at most eight of them.
pub fn parse_hex(field: &[u8], upper: bool) -> (value: Option<u32>)
    requires
        field@.len() <= 8,
    ensures
        match value {
            Some(v) => hex_value(field@, upper) == Some(v as nat) && v < pow16(field@.len()),
            None => hex_value(field@, upper) is None,
        },
{
    let mut acc: u32 = 0;
    let mut i: usize = 0;
    while i < field.len()
        invariant
            i <= field@.len() <= 8,
            hex_value(field@.take(i as int), upper) == Some(acc as nat),
            acc < pow16(i as nat),
        decreases field@.len() - i,
    {
        let c: u8 = field[i];
        let low: u8 = if 0x30 <= c && c <= 0x39 {
            c - 0x30
        } else if upper && 0x41 <= c && c <= 0x46 {
            c - 0x41 + 10
        } else if !upper && 0x61 <= c && c <= 0x66 {
            c - 0x61 + 10
        } else {
            proof {
                lemma_hex_value_prefix_none(field@, i as int + 1, upper);
                assert(field@.take(i as int + 1).drop_last() =~= field@.take(i as int));
            }
            return None;
        };
        proof {
            assert(field@.take(i as int + 1).drop_last() =~= field@.take(i as int));
            assert(field@.take(i as int + 1).last() == c);
            reveal_with_fuel(pow16, 9);
        }
        acc = acc * 16 + low as u32;
        i = i + 1;
    }
    assert(field@.take(i as int) =~= field@);
    Some(acc)
}

/// Sixteen to the power of `digits`.
pub open spec fn pow16(digits: nat) -> nat
    decreases digits,
{
    if digits == 0 {
        1
    } else {
        16 * pow16((digits - 1) as nat)
    }
}

/// A field with a byte that is no digit among its first `n` denotes nothing.
pub proof fn lemma_hex_value_prefix_none(field: Seq<u8>, n: int, upper: bool)
    requires
        0 <= n <= field.len(),
        hex_value(field.take(n), upper) is None,
    ensures
        hex_value(field, upper) is None,
    decreases field.len() - n,
{
    if n < field.len() {
        assert(field.take(n + 1).drop_last() =~= field.take(n));
        lemma_hex_value_prefix_none(field, n + 1, upper);
    } else {
        assert(field.take(n) =~= field);
    }
}

} // verus!
