//! Character-level text operations, each specified over `Seq<char>`.

use vstd::prelude::*;

verus! {

/// `String::push` appends one character at the end.
pub assume_specification[ String::push ](s: &mut String, c: char)
    ensures
        final(s)@ == old(s)@.push(c),
;

/// The characters of `s`, in order.
pub fn chars_of(s: &str) -> (out: Vec<char>)
    ensures
        out@ == s@,
{
    let mut out: Vec<char> = Vec::new();
    for c in it: s.chars()
        invariant
            it.seq() == s@,
            out@ == s@.take(it.index()),
    {
        out.push(c);
        assert(s@.take(it.index() + 1) =~= s@.take(it.index()).push(c));
    }
    assert(s@.take(s@.len() as int) =~= s@);
    out
}

/// The text made of `cs`, in order.
pub fn text_of(cs: &[char]) -> (out: String)
    ensures
        out@ == cs@,
{
    let mut out = String::new();
    for i in 0..cs.len()
        invariant
            out@ == cs@.take(i as int),
    {
        out.push(cs[i]);
        assert(cs@.take(i + 1) =~= cs@.take(i as int).push(cs@[i as int]));
    }
    assert(cs@.take(cs@.len() as int) =~= cs@);
    out
}

/// The decimal digit for `d`.
pub open spec fn digit(d: nat) -> char {
    ('0' as nat + d) as char
}

/// `n` written in decimal, without leading zeros.
pub open spec fn decimal(n: nat) -> Seq<char>
    decreases n,
{
    if n < 10 {
        seq![digit(n)]
    } else {
        decimal(n / 10).push(digit(n % 10))
    }
}

/// Writes `n` in decimal.
pub fn decimal_text(n: u64) -> (out: String)
    ensures
        out@ == decimal(n as nat),
    decreases n,
{
    if n < 10 {
        let mut s = String::new();
        s.push((48u8 + (n as u8)) as char);
        assert(s@ =~= seq![digit(n as nat)]);
        s
    } else {
        let mut s = decimal_text(n / 10);
        s.push((48u8 + ((n % 10) as u8)) as char);
        s
    }
}

/// Whether two texts hold the same characters.
pub fn same(a: &str, b: &str) -> (out: bool)
    ensures
        out == (a@ == b@),
{
    let x = chars_of(a);
    let y = chars_of(b);
    same_chars(&x, &y)
}

/// Whether two character slices are equal.
pub fn same_chars(x: &[char], y: &[char]) -> (out: bool)
    ensures
        out == (x@ == y@),
{
    if x.len() != y.len() {
        return false;
    }
    for i in 0..x.len()
        invariant
            x@.len() == y@.len(),
            x@.take(i as int) == y@.take(i as int),
    {
        if x[i] != y[i] {
            assert(x@[i as int] != y@[i as int]);
            return false;
        }
        assert(x@.take(i + 1) =~= x@.take(i as int).push(x@[i as int]));
        assert(y@.take(i + 1) =~= y@.take(i as int).push(y@[i as int]));
    }
    assert(x@.take(x@.len() as int) =~= x@);
    assert(y@.take(y@.len() as int) =~= y@);
    true
}

/// Whether `p` begins `s`.
pub fn begins_with(s: &[char], p: &[char]) -> (out: bool)
    ensures
        out == p@.is_prefix_of(s@),
{
    if p.len() > s.len() {
        return false;
    }
    for i in 0..p.len()
        invariant
            p@.len() <= s@.len(),
            forall|j: int| 0 <= j < i ==> p@[j] == s@[j],
    {
        if s[i] != p[i] {
            assert(s@.subrange(0, p@.len() as int)[i as int] != p@[i as int]);
            return false;
        }
    }
    assert(p@ =~= s@.subrange(0, p@.len() as int));
    true
}

/// Whether the text `p` begins the text `s`.
pub fn starts_with(s: &str, p: &str) -> (out: bool)
    ensures
        out == p@.is_prefix_of(s@),
{
    begins_with(&chars_of(s), &chars_of(p))
}

/// Whether the text `p` ends the text `s`.
pub fn ends_with(s: &str, p: &str) -> (out: bool)
    ensures
        out == p@.is_suffix_of(s@),
{
    let a = chars_of(s);
    let b = chars_of(p);
    if b.len() > a.len() {
        return false;
    }
    let from: usize = a.len() - b.len();
    let tail = vstd::slice::slice_subrange(&a, from, a.len());
    same_chars(tail, &b)
}

/// `n` occurs in `s` from position `i`.
pub open spec fn occurs_at(s: Seq<char>, n: Seq<char>, i: int) -> bool {
    &&& 0 <= i
    &&& i + n.len() <= s.len()
    &&& s.subrange(i, i + n.len()) == n
}

/// `n` occurs somewhere in `s`.
pub open spec fn has_text(s: Seq<char>, n: Seq<char>) -> bool {
    exists|i: int| occurs_at(s, n, i)
}

/// Whether the text `n` occurs in the text `s`.
pub fn contains(s: &str, n: &str) -> (out: bool)
    ensures
        out == has_text(s@, n@),
{
    let a = chars_of(s);
    let b = chars_of(n);
    if b.len() > a.len() {
        return false;
    }
    let total: usize = a.len();
    let last: usize = total - b.len();
    let mut i: usize = 0;
    loop
        invariant
            a@ == s@,
            b@ == n@,
            total == a@.len(),
            last == total - b@.len(),
            i <= last,
            forall|j: int| 0 <= j < i ==> !occurs_at(s@, n@, j),
        decreases last - i,
    {
        let part = vstd::slice::slice_subrange(&a, i, i + b.len());
        if same_chars(part, &b) {
            assert(occurs_at(s@, n@, i as int));
            return true;
        }
        assert(!occurs_at(s@, n@, i as int));
        if i == last {
            return false;
        }
        i = i + 1;
    }
}

/// Position of the first `c` in `s`, if there is one.
pub fn find_char(s: &[char], c: char) -> (out: Option<usize>)
    ensures
        match out {
            Some(i) => i < s@.len() && s@[i as int] == c && !s@.take(i as int).contains(c),
            None => !s@.contains(c),
        },
{
    for i in 0..s.len()
        invariant
            !s@.take(i as int).contains(c),
    {
        if s[i] == c {
            return Some(i);
        }
        assert(s@.take(i + 1) =~= s@.take(i as int).push(s@[i as int]));
    }
    assert(s@.take(s@.len() as int) =~= s@);
    None
}

/// The pieces of `s` between occurrences of `c`; an empty text is one empty piece.
pub open spec fn split_on(s: Seq<char>, c: char) -> Seq<Seq<char>>
    decreases s.len(),
{
    if s.len() == 0 {
        seq![Seq::<char>::empty()]
    } else {
        let rest = split_on(s.drop_last(), c);
        if s.last() == c {
            rest.push(Seq::<char>::empty())
        } else {
            rest.drop_last().push(rest.last().push(s.last()))
        }
    }
}

/// The views of a list of texts.
pub open spec fn views(v: Seq<String>) -> Seq<Seq<char>> {
    Seq::new(v.len(), |i: int| v[i]@)
}

/// Splits `s` at every `c`.
pub fn split(s: &str, c: char) -> (out: Vec<String>)
    ensures
        views(out@) == split_on(s@, c),
        out@.len() > 0,
{
    let cs = chars_of(s);
    let mut done: Vec<String> = Vec::new();
    let mut cur = String::new();
    assert(views(done@).push(cur@) =~= split_on(s@.take(0), c));
    for i in 0..cs.len()
        invariant
            cs@ == s@,
            views(done@).push(cur@) == split_on(s@.take(i as int), c),
    {
        let ghost before = split_on(s@.take(i as int), c);
        assert(s@.take(i + 1).drop_last() =~= s@.take(i as int));
        assert(before.last() == cur@);
        assert(before.drop_last() =~= views(done@));
        if cs[i] == c {
            let ghost d = done@;
            done.push(cur);
            cur = String::new();
            assert(views(done@) =~= views(d).push(before.last()));
        } else {
            cur.push(cs[i]);
        }
    }
    assert(s@.take(s@.len() as int) =~= s@);
    let ghost d = done@;
    let ghost last = cur@;
    done.push(cur);
    assert(views(done@) =~= views(d).push(last));
    done
}

/// Text before and after the first `c`, or nothing when `c` does not occur.
pub open spec fn cut(s: Seq<char>, c: char) -> Option<(Seq<char>, Seq<char>)> {
    if s.contains(c) {
        let i = s.index_of_first(c)->0;
        Some((s.take(i), s.skip(i + 1)))
    } else {
        None
    }
}

/// Splits `s` at the first `c`.
pub fn split_once(s: &str, c: char) -> (out: Option<(String, String)>)
    ensures
        match out {
            Some(p) => cut(s@, c) == Some((p.0@, p.1@)),
            None => cut(s@, c) is None,
        },
{
    let cs = chars_of(s);
    match find_char(&cs, c) {
        Some(i) => {
            proof {
                let f = s@.index_of_first(c)->0;
                s@.index_of_first_ensures(c);
                assert(s@[i as int] == c);
                if f < i {
                    assert(s@.take(i as int)[f] == c);
                }
                assert(f == i);
            }
            let n: usize = cs.len();
            let a = text_of(vstd::slice::slice_subrange(&cs, 0, i));
            let b = text_of(vstd::slice::slice_subrange(&cs, i + 1, n));
            assert(a@ =~= s@.take(i as int));
            assert(b@ =~= s@.skip(i + 1));
            Some((a, b))
        },
        None => None,
    }
}

/// An upper-case ASCII letter in lower case; any other character as it is.
pub open spec fn lower_char(c: char) -> char {
    if 'A' <= c && c <= 'Z' {
        (c as u8 + 32u8) as char
    } else {
        c
    }
}

/// A text with its ASCII letters in lower case.
pub open spec fn lower(s: Seq<char>) -> Seq<char> {
    Seq::new(s.len(), |i: int| lower_char(s[i]))
}

/// Puts the ASCII letters of `s` in lower case.
pub fn to_lower(s: &str) -> (out: String)
    ensures
        out@ == lower(s@),
{
    let cs = chars_of(s);
    let mut out = String::new();
    for i in 0..cs.len()
        invariant
            cs@ == s@,
            out@ == lower(s@).take(i as int),
    {
        let c = cs[i];
        let l = if 'A' <= c && c <= 'Z' {
            ((c as u8) + 32u8) as char
        } else {
            c
        };
        out.push(l);
        assert(lower(s@).take(i + 1) =~= lower(s@).take(i as int).push(l));
    }
    assert(lower(s@).take(s@.len() as int) =~= lower(s@));
    out
}

/// Whether two texts are equal when the case of ASCII letters is ignored.
pub fn same_ignoring_case(a: &str, b: &str) -> (out: bool)
    ensures
        out == (lower(a@) == lower(b@)),
{
    same(&to_lower(a), &to_lower(b))
}

/// A whole number in decimal digits, with a minus sign if it is negative.
pub open spec fn signed(n: int) -> Seq<char> {
    if n < 0 {
        "-"@ + decimal((-n) as nat)
    } else {
        decimal(n as nat)
    }
}

/// A whole number in decimal digits.
pub fn signed_text(n: i32) -> (out: String)
    ensures
        out@ == signed(n as int),
{
    if n < 0 {
        let magnitude: i64 = -(n as i64);
        String::from_str("-").concat(&decimal_text(magnitude as u64))
    } else {
        decimal_text(n as u64)
    }
}

/// The texts of `parts` with `sep` between neighbours.
pub open spec fn joined(parts: Seq<Seq<char>>, sep: Seq<char>) -> Seq<char>
    decreases parts.len(),
{
    if parts.len() == 0 {
        Seq::<char>::empty()
    } else if parts.len() == 1 {
        parts[0]
    } else {
        joined(parts.drop_last(), sep) + sep + parts.last()
    }
}

/// Joins `parts` with `sep` between neighbours.
pub fn join(parts: &[String], sep: &str) -> (out: String)
    ensures
        out@ == joined(views(parts@), sep@),
{
    let mut out = String::new();
    for i in 0..parts.len()
        invariant
            out@ == joined(views(parts@).take(i as int), sep@),
    {
        if i > 0 {
            out.append(sep);
        }
        out.append(&parts[i]);
        proof {
            let t = views(parts@).take(i + 1);
            assert(t.drop_last() =~= views(parts@).take(i as int));
            assert(t.last() == parts@[i as int]@);
            if i == 0 {
                assert(out@ =~= parts@[0]@);
            }
        }
    }
    assert(views(parts@).take(parts@.len() as int) =~= views(parts@));
    out
}

/// Whether a character is white space in the sense of `char::is_whitespace`.
pub uninterp spec fn whitespace(c: char) -> bool;

/// `char::is_whitespace` depends on the character alone. Within ASCII it holds of the space
/// and of the characters from tab to carriage return; beyond ASCII it only has a name here.
pub assume_specification[ char::is_whitespace ](c: char) -> (out: bool)
    ensures
        out == whitespace(c),
        (c as u32) < 128 ==> out == (c == ' ' || (9 <= c as u32 && c as u32 <= 13)),
;

/// How many characters at the start of `s` are white space.
pub open spec fn leading_space(s: Seq<char>) -> nat
    decreases s.len(),
{
    if s.len() > 0 && whitespace(s[0]) {
        1 + leading_space(s.drop_first())
    } else {
        0
    }
}

/// How many characters at the end of `s` are white space.
pub open spec fn trailing_space(s: Seq<char>) -> nat
    decreases s.len(),
{
    if s.len() > 0 && whitespace(s.last()) {
        1 + trailing_space(s.drop_last())
    } else {
        0
    }
}

/// `s` without white space at its ends.
pub open spec fn trimmed(s: Seq<char>) -> Seq<char> {
    let front = s.skip(leading_space(s) as int);
    front.take(front.len() - trailing_space(front))
}

/// There is no more white space at the start than there are characters.
proof fn leading_space_fits(s: Seq<char>)
    ensures
        leading_space(s) <= s.len(),
    decreases s.len(),
{
    if s.len() > 0 && whitespace(s[0]) {
        leading_space_fits(s.drop_first());
    }
}

/// There is no more white space at the end than there are characters.
proof fn trailing_space_fits(s: Seq<char>)
    ensures
        trailing_space(s) <= s.len(),
    decreases s.len(),
{
    if s.len() > 0 && whitespace(s.last()) {
        trailing_space_fits(s.drop_last());
    }
}

/// Removes white space at both ends of `s`.
pub fn trim(s: &str) -> (out: String)
    ensures
        out@ == trimmed(s@),
{
    let cs = chars_of(s);
    let n: usize = cs.len();
    let mut from: usize = 0;
    assert(s@.skip(0) =~= s@);
    while from < n && cs[from].is_whitespace()
        invariant
            cs@ == s@,
            n == cs@.len(),
            from <= n,
            leading_space(s@) == from + leading_space(s@.skip(from as int)),
        decreases n - from,
    {
        assert(s@.skip(from as int).drop_first() =~= s@.skip(from + 1));
        from = from + 1;
    }
    let ghost front = s@.skip(from as int);
    assert(leading_space(front) == 0);
    assert(from == leading_space(s@));
    let mut to: usize = n;
    assert(front.take(front.len() as int) =~= front);
    while to > from && cs[to - 1].is_whitespace()
        invariant
            cs@ == s@,
            n == cs@.len(),
            from <= to <= n,
            front == s@.skip(from as int),
            trailing_space(front) == (n - to) + trailing_space(front.take(to - from)),
        decreases to,
    {
        assert(front.take(to - from).drop_last() =~= front.take(to - 1 - from));
        assert(front.take(to - from).last() == s@[to - 1]);
        to = to - 1;
    }
    assert(trailing_space(front.take(to - from)) == 0) by {
        if to > from {
            assert(front.take(to - from).last() == s@[to - 1]);
        }
    }
    let out = text_of(vstd::slice::slice_subrange(&cs, from, to));
    assert(out@ =~= trimmed(s@));
    out
}

/// The UTF-8 bytes of a text.
pub open spec fn utf8(s: Seq<char>) -> Seq<u8> {
    vstd::utf8::encode_utf8(s)
}

/// The UTF-8 bytes of `s`.
pub fn bytes_of(s: &str) -> (out: Vec<u8>)
    ensures
        out@ == utf8(s@),
{
    vstd::slice::slice_to_vec(s.as_bytes())
}

/// A text in double quotes, with the escapes that `{:?}` writes.
pub uninterp spec fn quoted(s: Seq<char>) -> Seq<char>;

/// `format!("{:?}", s)`: the text in double quotes with special characters escaped. The
/// result depends on the text alone; which characters are escaped is not stated.
#[verifier::external_body]
pub(crate) fn quote(s: &str) -> (out: String)
    ensures
        out@ == quoted(s@),
{
    format!("{:?}", s)
}

/// A text in lower case in the sense of `str::to_lowercase`.
pub uninterp spec fn lowercased(s: Seq<char>) -> Seq<char>;

/// `str::to_lowercase` depends on the text alone. A text of ASCII characters has its letters
/// put in lower case; beyond ASCII the result only has a name here.
pub assume_specification[ str::to_lowercase ](s: &str) -> (out: String)
    ensures
        out@ == lowercased(s@),
        vstd::utf8::is_ascii_chars(s@) ==> out@ == lower(s@),
;

/// A text with every `from` replaced by `to`.
pub open spec fn replaced(s: Seq<char>, from: char, to: char) -> Seq<char> {
    Seq::new(
        s.len(),
        |i: int|
            if s[i] == from {
                to
            } else {
                s[i]
            },
    )
}

/// Replaces every `from` in `s` by `to`.
pub fn replace_char(s: &str, from: char, to: char) -> (out: String)
    ensures
        out@ == replaced(s@, from, to),
{
    let cs = chars_of(s);
    let mut out = String::new();
    for i in 0..cs.len()
        invariant
            cs@ == s@,
            out@ == replaced(s@, from, to).take(i as int),
    {
        let c = if cs[i] == from {
            to
        } else {
            cs[i]
        };
        out.push(c);
        assert(replaced(s@, from, to).take(i + 1) =~= replaced(s@, from, to).take(i as int).push(
            c,
        ));
    }
    assert(replaced(s@, from, to).take(s@.len() as int) =~= replaced(s@, from, to));
    out
}

/// The contents of pairs of texts.
pub open spec fn pair_views(v: Seq<(String, String)>) -> Seq<(Seq<char>, Seq<char>)> {
    Seq::new(v.len(), |i: int| (v[i].0@, v[i].1@))
}

/// A copy of pairs of texts.
pub fn copy_pairs(v: &Vec<(String, String)>) -> (out: Vec<(String, String)>)
    ensures
        pair_views(out@) == pair_views(v@),
{
    let mut out: Vec<(String, String)> = Vec::new();
    for i in 0..v.len()
        invariant
            pair_views(out@) =~= pair_views(v@).take(i as int),
    {
        let ghost before = pair_views(out@);
        out.push((v[i].0.clone(), v[i].1.clone()));
        assert(pair_views(out@) =~= before.push(pair_views(v@)[i as int]));
    }
    out
}

/// The number that a text of decimal digits spells.
pub open spec fn number_spelled(s: Seq<char>) -> int
    decreases s.len(),
{
    if s.len() == 0 {
        0
    } else {
        10 * number_spelled(s.drop_last()) + (s.last() as int - 48)
    }
}

/// A number in decimal is made of digits only, does not begin with a zero unless it is zero, and
/// reads as the number.
pub proof fn decimal_reads_back(n: nat)
    ensures
        number_spelled(decimal(n)) == n,
        decimal(n).len() > 0,
        forall|i: int| 0 <= i < decimal(n).len() ==> 48 <= #[trigger] decimal(n)[i] as int <= 57,
        n > 0 ==> decimal(n)[0] as int != 48,
        n == 0 ==> decimal(n).len() == 1,
    decreases n,
{
    reveal_with_fuel(number_spelled, 2);
    if n < 10 {
        assert(decimal(n).drop_last() =~= Seq::empty());
    } else {
        decimal_reads_back(n / 10);
        assert(decimal(n).drop_last() =~= decimal(n / 10));
        assert(decimal(n)[0] == decimal(n / 10)[0]);
    }
}

/// Pieces that are joined by the character at which a text was split make the text, and none of
/// them holds that character.
pub proof fn split_is_undone(s: Seq<char>, c: char)
    ensures
        joined(split_on(s, c), seq![c]) == s,
        split_on(s, c).len() > 0,
        forall|i: int| 0 <= i < split_on(s, c).len() ==> !(#[trigger] split_on(s, c)[i]).contains(c),
    decreases s.len(),
{
    let pieces = split_on(s, c);
    if s.len() == 0 {
        assert(joined(pieces, seq![c]) =~= s);
    } else {
        let front = s.drop_last();
        let rest = split_on(front, c);
        split_is_undone(front, c);
        if s.last() == c {
            assert(pieces.drop_last() =~= rest);
            assert(joined(pieces, seq![c]) =~= s);
        } else {
            let grown = rest.last().push(s.last());
            assert(pieces.drop_last() =~= rest.drop_last());
            assert(pieces.last() == grown);
            if rest.len() == 1 {
                assert(rest.drop_last().len() == 0);
                assert(joined(rest, seq![c]) == rest[0]);
                assert(joined(pieces, seq![c]) == pieces[0]);
                assert(pieces[0] =~= s);
            } else {
                assert(joined(pieces, seq![c]) =~= joined(rest, seq![c]).push(s.last()));
                assert(joined(pieces, seq![c]) =~= s);
            }
            assert forall|i: int| 0 <= i < pieces.len() implies !(#[trigger] pieces[i]).contains(
                c,
            ) by {
                if i < pieces.len() - 1 {
                    assert(pieces[i] == rest[i]);
                } else {
                    assert(!rest.last().contains(c));
                    assert(rest.last() == rest[rest.len() - 1]);
                    if grown.contains(c) {
                        let k = choose|k: int| 0 <= k < grown.len() && grown[k] == c;
                        if k < grown.len() - 1 {
                            assert(rest.last()[k] == c);
                        }
                    }
                }
            }
        }
    }
}

/// A text is cut exactly where the character stands first: both parts with it between them make
/// the text, and the first part does not hold it.
pub proof fn cut_is_undone(s: Seq<char>, c: char)
    ensures
        match cut(s, c) {
            Some((a, b)) => a + seq![c] + b == s && !a.contains(c),
            None => !s.contains(c),
        },
{
    if s.contains(c) {
        s.index_of_first_ensures(c);
        let i = s.index_of_first(c)->0;
        assert(s.take(i) + seq![c] + s.skip(i + 1) =~= s);
        assert(!s.take(i).contains(c)) by {
            if s.take(i).contains(c) {
                let k = choose|k: int| 0 <= k < s.take(i).len() && s.take(i)[k] == c;
                assert(s[k] == c);
            }
        }
    }
}

/// Lower case moves the letters from `A` to `Z` by 32 and nothing else.
pub proof fn lower_moves_capitals(s: Seq<char>, i: int)
    requires
        0 <= i < s.len(),
    ensures
        lower(s).len() == s.len(),
        lower(s)[i] as int == s[i] as int + (if 65 <= s[i] as int <= 90 {
            32int
        } else {
            0int
        }),
{
}

/// Trimming takes white space from both ends only, and all of it.
pub proof fn trimming_takes_the_ends(s: Seq<char>)
    ensures
        exists|a: int, b: int|
            #![trigger s.subrange(a, b)]
            {
                &&& 0 <= a <= b <= s.len()
                &&& trimmed(s) == s.subrange(a, b)
                &&& forall|i: int| 0 <= i < a ==> whitespace(#[trigger] s[i])
                &&& forall|i: int| b <= i < s.len() ==> whitespace(#[trigger] s[i])
                &&& a < b ==> !whitespace(s[a]) && !whitespace(s[b - 1])
            },
{
    leading_space_fits(s);
    let a = leading_space(s) as int;
    let front = s.skip(a);
    trailing_space_fits(front);
    let b = s.len() - trailing_space(front);
    space_in_front(s);
    space_behind(front);
    assert(trimmed(s) =~= s.subrange(a, b));
    assert forall|i: int| b <= i < s.len() implies whitespace(#[trigger] s[i]) by {
        assert(front[i - a] == s[i]);
    }
    assert(a < b ==> s[b - 1] == front[b - 1 - a]);
}

/// White space in front is white space up to the first other character.
proof fn space_in_front(s: Seq<char>)
    ensures
        leading_space(s) <= s.len(),
        forall|i: int| 0 <= i < leading_space(s) ==> whitespace(#[trigger] s[i]),
        leading_space(s) < s.len() ==> !whitespace(s[leading_space(s) as int]),
    decreases s.len(),
{
    if s.len() > 0 && whitespace(s[0]) {
        let rest = s.drop_first();
        space_in_front(rest);
        assert forall|i: int| 0 <= i < leading_space(s) implies whitespace(#[trigger] s[i]) by {
            if i > 0 {
                assert(s[i] == rest[i - 1]);
            }
        }
    }
}

/// White space at the end is white space down to the last other character.
proof fn space_behind(s: Seq<char>)
    ensures
        trailing_space(s) <= s.len(),
        forall|i: int| s.len() - trailing_space(s) <= i < s.len() ==> whitespace(#[trigger] s[i]),
        trailing_space(s) < s.len() ==> !whitespace(s[s.len() - trailing_space(s) - 1]),
    decreases s.len(),
{
    if s.len() > 0 && whitespace(s.last()) {
        let rest = s.drop_last();
        space_behind(rest);
        assert forall|i: int| s.len() - trailing_space(s) <= i < s.len() implies whitespace(
            #[trigger] s[i],
        ) by {
            if i < s.len() - 1 {
                assert(s[i] == rest[i]);
            }
        }
    }
}

/// A text occurs in another exactly if something before it and something behind it make the
/// other one.
pub proof fn occurrence_has_two_sides(s: Seq<char>, n: Seq<char>)
    ensures
        has_text(s, n) <==> exists|a: Seq<char>, b: Seq<char>| #[trigger] (a + n + b) == s,
{
    if has_text(s, n) {
        let i = choose|i: int| occurs_at(s, n, i);
        let a = s.take(i);
        let b = s.skip(i + n.len());
        assert(a + n + b =~= s);
    }
    if exists|a: Seq<char>, b: Seq<char>| #[trigger] (a + n + b) == s {
        let (a, b) = choose|a: Seq<char>, b: Seq<char>| #[trigger] (a + n + b) == s;
        assert((a + n + b).subrange(a.len() as int, (a.len() + n.len()) as int) =~= n);
        assert(occurs_at(s, n, a.len() as int));
    }
}

/// Texts joined one by one: each comes behind the ones before it, with the separator between.
pub proof fn joining_one_more(parts: Seq<Seq<char>>, last: Seq<char>, sep: Seq<char>)
    ensures
        joined(parts.push(last), sep) == (if parts.len() == 0 {
            last
        } else {
            joined(parts, sep) + sep + last
        }),
        joined(Seq::empty(), sep).len() == 0,
{
    assert(parts.push(last).drop_last() =~= parts);
}

/// A negative number is written with a minus sign, any other without.
pub proof fn signs_are_written(n: int)
    ensures
        n >= 0 ==> number_spelled(signed(n)) == n && 48 <= signed(n)[0] as int <= 57,
        n < 0 ==> signed(n)[0] == '-' && number_spelled(signed(n).skip(1)) == -n,
{
    if n < 0 {
        decimal_reads_back((-n) as nat);
        reveal_strlit("-");
        assert(signed(n).skip(1) =~= decimal((-n) as nat));
    } else {
        decimal_reads_back(n as nat);
    }
}

/// Replacing a character changes nothing else.
pub proof fn replacing_keeps_the_rest(s: Seq<char>, from: char, to: char, i: int)
    requires
        0 <= i < s.len(),
    ensures
        replaced(s, from, to).len() == s.len(),
        s[i] == from ==> replaced(s, from, to)[i] == to,
        s[i] != from ==> replaced(s, from, to)[i] == s[i],
{
}

/// The views of texts and of pairs show each of them, in order.
pub proof fn views_show_the_texts(v: Seq<String>, p: Seq<(String, String)>, i: int)
    ensures
        views(v).len() == v.len(),
        0 <= i < v.len() ==> views(v)[i] == v[i]@,
        pair_views(p).len() == p.len(),
        0 <= i < p.len() ==> pair_views(p)[i].0 == p[i].0@ && pair_views(p)[i].1 == p[i].1@,
{
}

/// A text is cut at the first of the characters that separate it.
pub proof fn cuts_are_at_the_first(a: Seq<char>, c: char, b: Seq<char>)
    requires
        !a.contains(c),
    ensures
        cut(a + seq![c] + b, c) == Some((a, b)),
        cut(a, c) is None,
{
    let s = a + seq![c] + b;
    assert(s[a.len() as int] == c);
    s.index_of_first_ensures(c);
    let i = s.index_of_first(c)->0;
    assert(i == a.len()) by {
        if i < a.len() {
            assert(a[i] == c);
        }
    }
    assert(s.take(i) =~= a);
    assert(s.skip(i + 1) =~= b);
    a.index_of_first_ensures(c);
}

} // verus!
