//! Percent-decoding of paths and path parameters.

use vstd::prelude::*;

use crate::text::{bytes_of, chars_of, find_char, utf8};

verus! {

/// The value of an ASCII hexadecimal digit.
pub open spec fn hex_digit(b: u8) -> Option<u8> {
    if 48 <= b && b <= 57 {
        Some((b - 48) as u8)
    } else if 97 <= b && b <= 102 {
        Some((b - 87) as u8)
    } else if 65 <= b && b <= 70 {
        Some((b - 55) as u8)
    } else {
        None
    }
}

/// Reads an ASCII hexadecimal digit.
pub fn hex_val(b: u8) -> (out: Option<u8>)
    ensures
        out == hex_digit(b),
        out matches Some(v) ==> v < 16,
{
    if 48 <= b && b <= 57 {
        Some(b - 48)
    } else if 97 <= b && b <= 102 {
        Some(b - 87)
    } else if 65 <= b && b <= 70 {
        Some(b - 55)
    } else {
        None
    }
}

/// Bytes with their percent escapes decoded. Three bytes that begin with a percent sign and
/// are no escape stay as they are, and so does a cut-off escape at the end.
pub open spec fn decoded(b: Seq<u8>) -> Seq<u8>
    decreases b.len(),
{
    if b.len() == 0 {
        Seq::empty()
    } else if b[0] != 37 {
        seq![b[0]] + decoded(b.skip(1))
    } else if b.len() < 3 {
        b
    } else {
        match (hex_digit(b[1]), hex_digit(b[2])) {
            (Some(h), Some(l)) => seq![(h * 16 + l) as u8] + decoded(b.skip(3)),
            _ => b.take(3) + decoded(b.skip(3)),
        }
    }
}

/// `String::from_utf8`: the text that the bytes encode, if they are valid UTF-8.
#[verifier::external_body]
fn text_from_utf8(bytes: Vec<u8>) -> (out: Option<String>)
    ensures
        match out {
            Some(s) => vstd::utf8::valid_utf8(bytes@) && s@ == vstd::utf8::decode_utf8(bytes@),
            None => !vstd::utf8::valid_utf8(bytes@),
        },
{
    String::from_utf8(bytes).ok()
}

/// Decodes the percent escapes in bytes.
pub fn decode_escapes(b: &[u8]) -> (out: Vec<u8>)
    ensures
        out@ == decoded(b@),
{
    let n: usize = b.len();
    let mut out: Vec<u8> = Vec::new();
    let mut i: usize = 0;
    assert(b@.skip(0) =~= b@);
    assert(out@ + decoded(b@) =~= decoded(b@));
    while i < n
        invariant
            n == b@.len(),
            i <= n,
            out@ + decoded(b@.skip(i as int)) == decoded(b@),
        decreases n - i,
    {
        let ghost rest = b@.skip(i as int);
        let ghost before = out@;
        if b[i] != 37 {
            out.push(b[i]);
            i = i + 1;
            assert(rest.skip(1) =~= b@.skip(i as int));
            assert(out@ + decoded(b@.skip(i as int)) =~= before + decoded(rest));
        } else if n - i < 3 {
            while i < n
                invariant
                    n == b@.len(),
                    i <= n,
                    out@ + b@.skip(i as int) == decoded(b@),
                decreases n - i,
            {
                let ghost prior = out@;
                let ghost tail = b@.skip(i as int);
                out.push(b[i]);
                i = i + 1;
                assert(tail =~= seq![tail[0]] + b@.skip(i as int));
                assert(out@ + b@.skip(i as int) =~= prior + tail);
            }
            assert(b@.skip(i as int) =~= Seq::<u8>::empty());
            assert(decoded(b@.skip(i as int)) =~= Seq::<u8>::empty());
        } else {
            let h: Option<u8> = hex_val(b[i + 1]);
            let l: Option<u8> = hex_val(b[i + 2]);
            match (h, l) {
                (Some(hv), Some(lv)) => {
                    out.push(hv * 16 + lv);
                    i = i + 3;
                    assert(rest.skip(3) =~= b@.skip(i as int));
                    assert(out@ + decoded(b@.skip(i as int)) =~= before + decoded(rest));
                },
                _ => {
                    out.push(b[i]);
                    out.push(b[i + 1]);
                    out.push(b[i + 2]);
                    i = i + 3;
                    assert(rest.skip(3) =~= b@.skip(i as int));
                    assert(out@ =~= before + rest.take(3));
                    assert(out@ + decoded(b@.skip(i as int)) =~= before + decoded(rest));
                },
            }
        }
    }
    assert(b@.skip(n as int) =~= Seq::<u8>::empty());
    assert(decoded(b@.skip(n as int)) =~= Seq::<u8>::empty());
    out
}

/// A text with its percent escapes decoded, or the text itself when the decoded bytes are no
/// UTF-8.
pub open spec fn percent_decoded(s: Seq<char>) -> Seq<char> {
    let bytes = decoded(utf8(s));
    if !s.contains('%') {
        s
    } else if vstd::utf8::valid_utf8(bytes) {
        vstd::utf8::decode_utf8(bytes)
    } else {
        s
    }
}

/// Decodes the percent escapes of a text.
pub fn percent_decode(input: &str) -> (out: String)
    ensures
        out@ == percent_decoded(input@),
{
    let cs = chars_of(input);
    if find_char(&cs, '%').is_none() {
        return input.to_owned();
    }
    let bytes = decode_escapes(&bytes_of(input));
    match text_from_utf8(bytes) {
        Some(s) => s,
        None => input.to_owned(),
    }
}

/// The upper-case hexadecimal digit for a nibble.
pub open spec fn escape_digit(n: u8) -> u8 {
    if n < 10 {
        (48 + n) as u8
    } else {
        (55 + n) as u8
    }
}

/// Bytes written as percent escapes.
pub open spec fn escaped(b: Seq<u8>) -> Seq<u8>
    decreases b.len(),
{
    if b.len() == 0 {
        Seq::empty()
    } else {
        seq![37u8, escape_digit(b[0] / 16), escape_digit(b[0] % 16)] + escaped(b.skip(1))
    }
}

/// Bytes without a percent sign decode to themselves.
pub proof fn plain_bytes_stay(b: Seq<u8>)
    requires
        !b.contains(37u8),
    ensures
        decoded(b) == b,
    decreases b.len(),
{
    if b.len() > 0 {
        assert(b[0] != 37);
        assert forall|i: int| 0 <= i < b.skip(1).len() implies b.skip(1)[i] != 37u8 by {
            assert(b[i + 1] != 37u8);
        }
        plain_bytes_stay(b.skip(1));
        assert(seq![b[0]] + b.skip(1) =~= b);
    } else {
        assert(decoded(b) =~= b);
    }
}

/// Whatever is written as escapes decodes to what it was.
pub proof fn escapes_round_trip(b: Seq<u8>)
    ensures
        decoded(escaped(b)) == b,
    decreases b.len(),
{
    if b.len() > 0 {
        let e = escaped(b);
        let rest = escaped(b.skip(1));
        let h = (b[0] / 16) as u8;
        let l = (b[0] % 16) as u8;
        assert(e[0] == 37 && e[1] == escape_digit(h) && e[2] == escape_digit(l));
        assert(hex_digit(e[1]) == Some(h));
        assert(hex_digit(e[2]) == Some(l));
        assert(e.skip(3) =~= rest);
        escapes_round_trip(b.skip(1));
        assert(seq![b[0]] + b.skip(1) =~= b);
        assert((h * 16 + l) as u8 == b[0]);
    } else {
        assert(decoded(escaped(b)) =~= b);
    }
}

/// Decoding never makes bytes longer.
pub proof fn decoding_does_not_grow(b: Seq<u8>)
    ensures
        decoded(b).len() <= b.len(),
    decreases b.len(),
{
    if b.len() > 0 {
        if b[0] != 37 {
            decoding_does_not_grow(b.skip(1));
        } else if b.len() >= 3 {
            decoding_does_not_grow(b.skip(3));
        }
    }
}

/// The digits of an escape are the sixteen hexadecimal digits, the letters in either case; each
/// stands for its place among them, and no other byte is a digit.
pub proof fn digits_have_their_values(n: int, b: u8)
    ensures
        0 <= n <= 9 ==> hex_digit((48 + n) as u8) == Some(n as u8),
        10 <= n <= 15 ==> hex_digit((97 + n - 10) as u8) == Some(n as u8),
        10 <= n <= 15 ==> hex_digit((65 + n - 10) as u8) == Some(n as u8),
        !('0' as int <= b <= '9' as int) && !('a' as int <= b <= 'f' as int) && !('A' as int <= b
            <= 'F' as int) ==> hex_digit(b) is None,
{
}

/// An escape is one byte: a percent sign, the digit of its upper half and that of its lower half.
/// Other bytes, and escapes that are broken, stay as they are, and decoding goes on behind them.
pub proof fn escapes_are_decoded(b: u8, h: u8, l: u8, rest: Seq<u8>)
    ensures
        b != 37 ==> decoded(seq![b] + rest) == seq![b] + decoded(rest),
        hex_digit(h) is Some && hex_digit(l) is Some ==> decoded(seq![37u8, h, l] + rest) == seq![
            (hex_digit(h)->0 * 16 + hex_digit(l)->0) as u8,
        ] + decoded(rest),
        !(hex_digit(h) is Some && hex_digit(l) is Some) ==> decoded(seq![37u8, h, l] + rest)
            == seq![37u8, h, l] + decoded(rest),
        decoded(seq![37u8]) == seq![37u8],
        decoded(seq![37u8, h]) == seq![37u8, h],
        decoded(Seq::empty()) == Seq::<u8>::empty(),
{
    let one = seq![b] + rest;
    assert(one.skip(1) =~= rest);
    let three = seq![37u8, h, l] + rest;
    assert(three.skip(3) =~= rest);
    assert(three.take(3) =~= seq![37u8, h, l]);
}

/// A decoded text is the text of the decoded bytes; one whose decoded bytes are no text, and one
/// without escapes, is kept.
pub proof fn texts_are_decoded(s: Seq<char>)
    ensures
        !s.contains('%') ==> percent_decoded(s) == s,
        s.contains('%') && vstd::utf8::valid_utf8(decoded(utf8(s))) ==> percent_decoded(s)
            == vstd::utf8::decode_utf8(decoded(utf8(s))),
        !vstd::utf8::valid_utf8(decoded(utf8(s))) ==> percent_decoded(s) == s,
{
}

} // verus!
