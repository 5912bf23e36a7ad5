//! Lower-case hexadecimal text for bytes.

use vstd::prelude::*;

verus! {

/// The lower-case hexadecimal digit for a nibble.
pub open spec fn nibble_char(n: u8) -> char {
    if n < 10 {
        (48u8 + n) as char
    } else {
        (87u8 + n) as char
    }
}

/// Two digits for each byte, high nibble first.
pub open spec fn hex_lower(bytes: Seq<u8>) -> Seq<char>
    decreases bytes.len(),
{
    if bytes.len() == 0 {
        Seq::<char>::empty()
    } else {
        hex_lower(bytes.drop_last()).push(nibble_char(bytes.last() / 16)).push(
            nibble_char(bytes.last() % 16),
        )
    }
}

/// A lower-case hexadecimal digit.
pub open spec fn is_hex_digit(c: char) -> bool {
    ('0' <= c && c <= '9') || ('a' <= c && c <= 'f')
}

/// The digit for a nibble.
pub fn nibble(n: u8) -> (c: char)
    requires
        n < 16,
    ensures
        c == nibble_char(n),
        is_hex_digit(c),
{
    if n < 10 {
        (48u8 + n) as char
    } else {
        (87u8 + n) as char
    }
}

/// Writes `bytes` as lower-case hexadecimal.
pub fn write_hex(bytes: &[u8]) -> (out: String)
    ensures
        out@ == hex_lower(bytes@),
{
    let mut out = String::new();
    for i in 0..bytes.len()
        invariant
            out@ == hex_lower(bytes@.take(i as int)),
    {
        let b: u8 = bytes[i];
        out.push(nibble(b / 16));
        out.push(nibble(b % 16));
        assert(bytes@.take(i + 1).drop_last() =~= bytes@.take(i as int));
    }
    assert(bytes@.take(bytes@.len() as int) =~= bytes@);
    out
}

/// Hexadecimal text has two characters for each byte, all of them digits.
pub proof fn hex_is_digits(bytes: Seq<u8>)
    ensures
        hex_lower(bytes).len() == 2 * bytes.len(),
        forall|i: int|
            0 <= i < hex_lower(bytes).len() ==> is_hex_digit(#[trigger] hex_lower(bytes)[i]),
    decreases bytes.len(),
{
    if bytes.len() > 0 {
        hex_is_digits(bytes.drop_last());
    }
}

/// Different nibbles have different digits.
proof fn nibble_is_injective(a: u8, b: u8)
    requires
        a < 16,
        b < 16,
        nibble_char(a) == nibble_char(b),
    ensures
        a == b,
{
}

/// Byte strings with the same hexadecimal text are equal.
pub proof fn hex_is_injective(a: Seq<u8>, b: Seq<u8>)
    requires
        hex_lower(a) == hex_lower(b),
    ensures
        a == b,
    decreases a.len(),
{
    hex_is_digits(a);
    hex_is_digits(b);
    if a.len() > 0 {
        let x = hex_lower(a);
        let y = hex_lower(b);
        let xs = hex_lower(a.drop_last());
        let ys = hex_lower(b.drop_last());
        hex_is_digits(a.drop_last());
        hex_is_digits(b.drop_last());
        let n = xs.len() as int;
        assert(xs =~= x.take(n));
        assert(ys =~= y.take(n));
        hex_is_injective(a.drop_last(), b.drop_last());
        assert(x[n] == y[n]);
        assert(x[n + 1] == y[n + 1]);
        nibble_is_injective(a.last() / 16, b.last() / 16);
        nibble_is_injective(a.last() % 16, b.last() % 16);
        assert(a.last() == b.last());
        assert(a =~= a.drop_last().push(a.last()));
        assert(b =~= b.drop_last().push(b.last()));
    } else {
        assert(a =~= b);
    }
}

/// Each byte is written as two digits: the one for its upper half, then the one for its lower half.
pub proof fn bytes_are_written_in_order(bytes: Seq<u8>, i: int)
    requires
        0 <= i < bytes.len(),
    ensures
        hex_lower(bytes).len() == 2 * bytes.len(),
        hex_lower(bytes)[2 * i] == "0123456789abcdef"@[bytes[i] as int / 16],
        hex_lower(bytes)[2 * i + 1] == "0123456789abcdef"@[bytes[i] as int % 16],
    decreases bytes.len(),
{
    reveal_strlit("0123456789abcdef");
    hex_is_digits(bytes);
    let front = bytes.drop_last();
    hex_is_digits(front);
    if i < bytes.len() - 1 {
        bytes_are_written_in_order(front, i);
        assert(front[i] == bytes[i]);
    }
}

} // verus!
