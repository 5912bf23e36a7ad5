//! HTTP header maps: what they hold, and the operations that the library uses.

use hyper::header::{HeaderMap, HeaderName, HeaderValue};
use vstd::prelude::*;

use crate::text::lower_char;

verus! {

/// `http::HeaderMap`, opaque; what it holds is `fields`.
#[verifier::external_type_specification]
#[verifier::external_body]
#[verifier::reject_recursive_types(T)]
pub struct ExHeaderMap<T>(HeaderMap<T>);

/// `http::HeaderValue`, opaque.
#[verifier::external_type_specification]
#[verifier::external_body]
pub struct ExHeaderValue(HeaderValue);

/// What a header map holds: for each name, in lower case, its values in order.
pub uninterp spec fn fields(map: HeaderMap<HeaderValue>) -> Map<Seq<char>, Seq<Seq<u8>>>;

/// The values under `name`; none for an absent name.
pub open spec fn values_of(f: Map<Seq<char>, Seq<Seq<u8>>>, name: Seq<char>) -> Seq<Seq<u8>> {
    if f.dom().contains(name) {
        f[name]
    } else {
        Seq::empty()
    }
}

/// What an empty header map holds.
pub open spec fn no_fields() -> Map<Seq<char>, Seq<Seq<u8>>> {
    Map::empty()
}

/// Names that a map holds without trouble. A map can run full only beyond this many.
pub const MAX_HEADER_NAMES: usize = 6553;

/// A map that does not run full when one more name is added.
pub open spec fn has_room(f: Map<Seq<char>, Seq<Seq<u8>>>) -> bool {
    f.dom().finite() && f.dom().len() <= MAX_HEADER_NAMES
}

/// A byte that may stand in a header name.
pub open spec fn token_byte(b: u8) -> bool {
    ||| 48 <= b <= 57
    ||| 65 <= b <= 90
    ||| 97 <= b <= 122
    ||| b == 33
    ||| 35 <= b <= 39
    ||| b == 42
    ||| b == 43
    ||| b == 45
    ||| b == 46
    ||| 94 <= b <= 96
    ||| b == 124
    ||| b == 126
}

/// The header name that bytes spell, in lower case.
pub open spec fn name_of(bytes: Seq<u8>) -> Option<Seq<char>> {
    if 1 <= bytes.len() <= 65535 && (forall|i: int|
        0 <= i < bytes.len() ==> token_byte(#[trigger] bytes[i])) {
        Some(Seq::new(bytes.len(), |i: int| lower_char(bytes[i] as char)))
    } else {
        None
    }
}

/// A character of a header name in lower case.
pub open spec fn name_char(c: char) -> bool {
    (c as u32) < 128 && token_byte(c as u8) && !('A' <= c && c <= 'Z')
}

/// A header name in lower case, as it is looked up.
pub open spec fn valid_name(s: Seq<char>) -> bool {
    &&& 1 <= s.len() <= 65535
    &&& forall|i: int| 0 <= i < s.len() ==> name_char(#[trigger] s[i])
}

/// A header name as a map may hold it: a name that came over HTTP/2 can also hold a double
/// quote.
pub open spec fn held_name(s: Seq<char>) -> bool {
    &&& 1 <= s.len() <= 65535
    &&& forall|i: int| 0 <= i < s.len() ==> name_char(#[trigger] s[i]) || s[i] == '"'
}

/// A name that was parsed can be looked up, and held by a header map.
pub proof fn parsed_name_is_held(bytes: Seq<u8>)
    requires
        name_of(bytes) is Some,
    ensures
        valid_name(name_of(bytes)->0),
        held_name(name_of(bytes)->0),
{
    let s = name_of(bytes)->0;
    assert forall|i: int| 0 <= i < s.len() implies name_char(#[trigger] s[i]) by {
        assert(token_byte(bytes[i]));
        assert(s[i] == lower_char(bytes[i] as char));
    }
}

/// A byte that may stand in a header value.
pub open spec fn value_byte(b: u8) -> bool {
    (b >= 32 && b != 127) || b == 9
}

/// Bytes that make a header value.
pub open spec fn valid_value(bytes: Seq<u8>) -> bool {
    forall|i: int| 0 <= i < bytes.len() ==> value_byte(#[trigger] bytes[i])
}

/// A byte of a header value that is a visible ASCII character, a space or a tab.
pub open spec fn visible_byte(b: u8) -> bool {
    (32 <= b && b < 127) || b == 9
}

/// The text that bytes make when all of them are visible ASCII.
pub open spec fn visible_text(bytes: Seq<u8>) -> Option<Seq<char>> {
    if forall|i: int| 0 <= i < bytes.len() ==> visible_byte(#[trigger] bytes[i]) {
        Some(Seq::new(bytes.len(), |i: int| bytes[i] as char))
    } else {
        None
    }
}

/// Reads a header value as text, if all of it is visible ASCII.
pub fn to_str(bytes: &[u8]) -> (out: Option<String>)
    ensures
        match out {
            Some(s) => visible_text(bytes@) == Some(s@),
            None => visible_text(bytes@) is None,
        },
{
    let mut out = String::new();
    for i in 0..bytes.len()
        invariant
            out@.len() == i,
            forall|j: int| 0 <= j < i ==> visible_byte(#[trigger] bytes@[j]),
            forall|j: int| 0 <= j < i ==> #[trigger] out@[j] == bytes@[j] as char,
    {
        let b: u8 = bytes[i];
        if !((32 <= b && b < 127) || b == 9) {
            assert(!visible_byte(bytes@[i as int]));
            return None;
        }
        out.push(b as char);
    }
    assert(out@ =~= Seq::new(bytes@.len(), |i: int| bytes@[i] as char));
    Some(out)
}

/// `HeaderName::from_bytes`: between one and 65535 token characters make a name, which is
/// then in lower case; anything else is refused with one fixed text.
#[verifier::external_body]
pub(crate) fn parse_name(bytes: &[u8]) -> (out: Result<String, String>)
    ensures
        match out {
            Ok(n) => name_of(bytes@) == Some(n@),
            Err(e) => name_of(bytes@) is None && e@ == "invalid HTTP header name"@,
        },
{
    match HeaderName::from_bytes(bytes) {
        Ok(n) => Ok(n.as_str().to_owned()),
        Err(e) => Err(e.to_string()),
    }
}

/// `HeaderValue::from_bytes`: accepts the bytes of `valid_value` as they are, and refuses
/// others with one fixed text.
#[verifier::external_body]
pub(crate) fn check_value(bytes: &[u8]) -> (out: Result<(), String>)
    ensures
        match out {
            Ok(_) => valid_value(bytes@),
            Err(e) => !valid_value(bytes@) && e@ == "failed to parse header value"@,
        },
{
    match HeaderValue::from_bytes(bytes) {
        Ok(_) => Ok(()),
        Err(e) => Err(e.to_string()),
    }
}

/// `HeaderMap::new`: a map that holds nothing.
#[verifier::external_body]
pub(crate) fn empty() -> (out: HeaderMap<HeaderValue>)
    ensures
        fields(out) == no_fields(),
{
    HeaderMap::new()
}

/// `HeaderMap::try_append`: adds a value behind those that the name has. A map that is not
/// full always takes it; a refused value leaves the map as it was.
#[verifier::external_body]
pub(crate) fn append(map: &mut HeaderMap<HeaderValue>, name: &str, value: &[u8]) -> (out: bool)
    requires
        held_name(name@),
        valid_value(value@),
    ensures
        out ==> fields(*final(map)) == fields(*old(map)).insert(
            name@,
            values_of(fields(*old(map)), name@).push(value@),
        ),
        !out ==> fields(*final(map)) == fields(*old(map)) && !has_room(fields(*old(map))),
{
    let name = HeaderName::from_lowercase(name.as_bytes()).unwrap();
    let value = HeaderValue::from_bytes(value).unwrap();
    map.try_append(name, value).is_ok()
}

/// `HeaderMap::try_insert`: makes a value the only one of its name. A map that is not full
/// always takes it; a refused value leaves the map as it was.
#[verifier::external_body]
pub(crate) fn insert(map: &mut HeaderMap<HeaderValue>, name: &str, value: &[u8]) -> (out: bool)
    requires
        held_name(name@),
        valid_value(value@),
    ensures
        out ==> fields(*final(map)) == fields(*old(map)).insert(name@, seq![value@]),
        !out ==> fields(*final(map)) == fields(*old(map)) && !has_room(fields(*old(map))),
{
    let name = HeaderName::from_lowercase(name.as_bytes()).unwrap();
    let value = HeaderValue::from_bytes(value).unwrap();
    map.try_insert(name, value).is_ok()
}

/// `HeaderMap::contains_key`: whether a lower-case name has a value.
#[verifier::external_body]
pub(crate) fn contains(map: &HeaderMap<HeaderValue>, name: &str) -> (out: bool)
    requires
        valid_name(name@),
    ensures
        out == fields(*map).dom().contains(name@),
{
    map.contains_key(name)
}

/// `HeaderMap::get`: the first value of a lower-case name.
#[verifier::external_body]
pub(crate) fn first(map: &HeaderMap<HeaderValue>, name: &str) -> (out: Option<Vec<u8>>)
    requires
        valid_name(name@),
    ensures
        match out {
            Some(v) => values_of(fields(*map), name@).len() > 0 && v@ == fields(*map)[name@][0],
            None => !fields(*map).dom().contains(name@) && values_of(fields(*map), name@).len()
                == 0,
        },
{
    map.get(name).map(|v| v.as_bytes().to_vec())
}

/// The views of a list of byte strings.
pub open spec fn byte_views(v: Seq<Vec<u8>>) -> Seq<Seq<u8>> {
    Seq::new(v.len(), |i: int| v[i]@)
}

/// `HeaderMap::get_all`: the values of a lower-case name, in order.
#[verifier::external_body]
pub(crate) fn all(map: &HeaderMap<HeaderValue>, name: &str) -> (out: Vec<Vec<u8>>)
    requires
        valid_name(name@),
    ensures
        byte_views(out@) == values_of(fields(*map), name@),
{
    map.get_all(name).iter().map(|v| v.as_bytes().to_vec()).collect()
}

/// A list of header lines as mathematical values.
pub open spec fn line_views(v: Seq<(String, Vec<u8>)>) -> Seq<(Seq<char>, Seq<u8>)> {
    Seq::new(v.len(), |i: int| (v[i].0@, v[i].1@))
}

/// The values of `name` in a list of header lines, in order.
pub open spec fn named(lines: Seq<(Seq<char>, Seq<u8>)>, name: Seq<char>) -> Seq<Seq<u8>>
    decreases lines.len(),
{
    if lines.len() == 0 {
        Seq::empty()
    } else if lines.last().0 == name {
        named(lines.drop_last(), name).push(lines.last().1)
    } else {
        named(lines.drop_last(), name)
    }
}

/// `HeaderMap::iter`: every value with its name. The order of names is left open; the values
/// of one name come in their order.
#[verifier::external_body]
pub(crate) fn lines(map: &HeaderMap<HeaderValue>) -> (out: Vec<(String, Vec<u8>)>)
    ensures
        forall|name: Seq<char>| #[trigger]
            named(line_views(out@), name) == values_of(fields(*map), name),
        forall|name: Seq<char>|
            fields(*map).dom().contains(name) <==> (exists|i: int|
                0 <= i < out@.len() && #[trigger] out@[i].0@ == name),
        forall|i: int|
            0 <= i < out@.len() ==> held_name(#[trigger] out@[i].0@) && valid_value(out@[i].1@),
{
    map.iter().map(|(n, v)| (n.as_str().to_owned(), v.as_bytes().to_vec())).collect()
}

/// A name is held in lower case: capitals move by 32 places, and every other byte is kept.
pub proof fn names_are_held_in_lower_case(bytes: Seq<u8>, i: int)
    requires
        name_of(bytes) is Some,
        0 <= i < bytes.len(),
    ensures
        name_of(bytes)->0.len() == bytes.len(),
        65 <= bytes[i] <= 90 ==> name_of(bytes)->0[i] as int == bytes[i] + 32,
        !(65 <= bytes[i] <= 90) ==> name_of(bytes)->0[i] as int == bytes[i],
{
}

/// Names are made of letters, digits and fifteen signs, and are neither empty nor longer than
/// 65535 bytes.
pub proof fn names_are_made_of_token_bytes(bytes: Seq<u8>)
    ensures
        bytes.len() == 0 ==> name_of(bytes) is None,
        bytes.len() > 65535 ==> name_of(bytes) is None,
        1 <= bytes.len() <= 65535 ==> (name_of(bytes) is Some <==> forall|i: int|
            0 <= i < bytes.len() ==> ('a' as int <= #[trigger] bytes[i] <= 'z' as int) || ('A' as int
                <= bytes[i] <= 'Z' as int) || ('0' as int <= bytes[i] <= '9' as int)
                || "!#$%&'*+-.^_`|~"@.contains(bytes[i] as char)),
{
    assert forall|b: u8| #[trigger] token_byte(b) <==> ('a' as int <= b <= 'z' as int) || ('A' as int
        <= b <= 'Z' as int) || ('0' as int <= b <= '9' as int) || "!#$%&'*+-.^_`|~"@.contains(
        b as char,
    ) by {
        sign_bytes(b);
    }
    if forall|i: int| 0 <= i < bytes.len() ==> token_byte(#[trigger] bytes[i]) {
        assert forall|i: int| 0 <= i < bytes.len() implies ('a' as int <= #[trigger] bytes[i]
            <= 'z' as int) || ('A' as int <= bytes[i] <= 'Z' as int) || ('0' as int <= bytes[i]
            <= '9' as int) || "!#$%&'*+-.^_`|~"@.contains(bytes[i] as char) by {
            assert(token_byte(bytes[i]));
        }
    } else {
        let i = choose|i: int| 0 <= i < bytes.len() && !token_byte(#[trigger] bytes[i]);
        assert(!token_byte(bytes[i]));
    }
}

/// The signs that a name can hold besides letters and digits.
proof fn sign_bytes(b: u8)
    ensures
        "!#$%&'*+-.^_`|~"@.contains(b as char) <==> (b == 33 || 35 <= b <= 39 || b == 42 || b == 43
            || b == 45 || b == 46 || 94 <= b <= 96 || b == 124 || b == 126),
{
    reveal_strlit("!#$%&'*+-.^_`|~");
    let s = "!#$%&'*+-.^_`|~"@;
    assert(s[0] == 33 as char && s[1] == 35 as char && s[2] == 36 as char && s[3] == 37 as char && s[4]
        == 38 as char && s[5] == 39 as char && s[6] == 42 as char && s[7] == 43 as char && s[8]
        == 45 as char && s[9] == 46 as char && s[10] == 94 as char && s[11] == 95 as char && s[12]
        == 96 as char && s[13] == 124 as char && s[14] == 126 as char);
    if s.contains(b as char) {
        let k = choose|k: int| 0 <= k < s.len() && s[k] == b as char;
        assert(s[k] as int == b);
    }
}

/// A value is text if its bytes are printable ASCII or tabs, and then it is the text of these
/// bytes.
pub proof fn printable_values_are_texts(bytes: Seq<u8>)
    ensures
        visible_text(bytes) is Some <==> forall|i: int|
            0 <= i < bytes.len() ==> #[trigger] bytes[i] == 9 || 32 <= bytes[i] <= 126,
        visible_text(bytes) matches Some(t) ==> t.len() == bytes.len() && forall|i: int|
            0 <= i < bytes.len() ==> #[trigger] t[i] as int == bytes[i],
{
    if forall|i: int| 0 <= i < bytes.len() ==> #[trigger] bytes[i] == 9 || 32 <= bytes[i] <= 126 {
        assert forall|i: int| 0 <= i < bytes.len() implies visible_byte(#[trigger] bytes[i]) by {}
    }
    if visible_text(bytes) is Some {
        assert forall|i: int| 0 <= i < bytes.len() implies #[trigger] bytes[i] == 9 || 32 <= bytes[i]
            <= 126 by {
            assert(visible_byte(bytes[i]));
        }
    }
}

/// A value can hold any byte but the control bytes other than a tab.
pub proof fn values_hold_no_control_bytes(bytes: Seq<u8>)
    ensures
        valid_value(bytes) <==> forall|i: int|
            0 <= i < bytes.len() ==> #[trigger] bytes[i] == 9 || (bytes[i] >= 32 && bytes[i] != 127),
{
    if valid_value(bytes) {
        assert forall|i: int| 0 <= i < bytes.len() implies #[trigger] bytes[i] == 9 || (bytes[i] >= 32
            && bytes[i] != 127) by {
            assert(value_byte(bytes[i]));
        }
    }
}

/// The lines with a name give its values in their order, and the other lines give none.
pub proof fn lines_are_found_by_name(
    lines: Seq<(Seq<char>, Seq<u8>)>,
    line: (Seq<char>, Seq<u8>),
    name: Seq<char>,
)
    ensures
        named(Seq::empty(), name) == Seq::<Seq<u8>>::empty(),
        line.0 == name ==> named(lines.push(line), name) == named(lines, name).push(line.1),
        line.0 != name ==> named(lines.push(line), name) == named(lines, name),
{
    assert(lines.push(line).drop_last() =~= lines);
}

/// A name that is not held has no values; one that is has those that it holds.
pub proof fn values_are_those_held(
    f: Map<Seq<char>, Seq<Seq<u8>>>,
    name: Seq<char>,
    other: Seq<char>,
    values: Seq<Seq<u8>>,
)
    ensures
        values_of(f.insert(name, values), name) == values,
        other != name ==> values_of(f.insert(name, values), other) == values_of(f, other),
        !f.dom().contains(name) ==> values_of(f, name).len() == 0,
        values_of(no_fields(), name).len() == 0,
        has_room(f) <==> f.dom().finite() && f.dom().len() <= 6553,
{
}

/// Views keep the bytes, in their order.
pub proof fn bytes_are_shown(v: Seq<Vec<u8>>, l: Seq<(String, Vec<u8>)>, i: int)
    ensures
        byte_views(v).len() == v.len(),
        0 <= i < v.len() ==> byte_views(v)[i] == v[i]@,
        line_views(l).len() == l.len(),
        0 <= i < l.len() ==> line_views(l)[i] == (l[i].0@, l[i].1@),
{
}

} // verus!
