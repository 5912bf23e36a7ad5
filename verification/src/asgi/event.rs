//! Events that an application sends, read from Python dicts.

use hyper::header::{HeaderMap, HeaderValue};
use vstd::prelude::*;

use crate::asgi::scope::copy_bytes;
use crate::headers::{
    check_value, empty, fields, has_room, held_name, insert, name_of, no_fields, parse_name,
    parsed_name_is_held, valid_value,
};
use crate::python_value::{
    dict_data, dict_holds_entries, get, items_data, list_holds_items, lookup, PyData, PyValue,
};
use crate::protocol::http::service::opt_view;
use crate::text::same;

verus! {

/// Why an event was refused.
#[derive(Debug)]
pub enum EventError {
    /// A required key is missing.
    MissingKey(String),
    /// An object has another type than the one needed.
    WrongType,
    /// A number does not fit.
    OutOfRange,
    /// A header line has too few parts.
    NoItem,
    /// A value is not allowed; why.
    Invalid(String),
    /// The event does not belong to the state of the response; why.
    Protocol(String),
    /// There are more headers than a header map takes.
    TooManyHeaders,
}

/// Why an event was refused, as a mathematical value.
pub enum EventFault {
    /// A required key is missing.
    MissingKey(Seq<char>),
    /// An object has another type than the one needed.
    WrongType,
    /// A number does not fit.
    OutOfRange,
    /// A header line has too few parts.
    NoItem,
    /// A value is not allowed.
    Invalid(Seq<char>),
    /// The event does not belong to the state of the response.
    Protocol(Seq<char>),
    /// There are more headers than a header map takes.
    TooManyHeaders,
}

impl EventError {
    /// The fault.
    pub open spec fn fault(self) -> EventFault {
        match self {
            EventError::MissingKey(k) => EventFault::MissingKey(k@),
            EventError::WrongType => EventFault::WrongType,
            EventError::OutOfRange => EventFault::OutOfRange,
            EventError::NoItem => EventFault::NoItem,
            EventError::Invalid(t) => EventFault::Invalid(t@),
            EventError::Protocol(t) => EventFault::Protocol(t@),
            EventError::TooManyHeaders => EventFault::TooManyHeaders,
        }
    }
}

/// Entries of a dict.
pub type Entries = Seq<(Seq<char>, PyData)>;

/// The number that an object is, between `0` and `max`; `True` and `False` count as numbers.
pub open spec fn number_data(v: PyData, max: int) -> Result<int, EventFault> {
    match v {
        PyData::Int(i) => if 0 <= i <= max {
            Ok(i)
        } else {
            Err(EventFault::OutOfRange)
        },
        PyData::Bool(b) => if b {
            Ok(1)
        } else {
            Ok(0)
        },
        _ => Err(EventFault::WrongType),
    }
}

/// Reads a number between `0` and `max`.
fn read_number(v: &PyValue, max: u16) -> (out: Result<u16, EventError>)
    requires
        max >= 1,
    ensures
        match out {
            Ok(n) => number_data(v.data(), max as int) == Ok::<int, EventFault>(n as int),
            Err(e) => number_data(v.data(), max as int) == Err::<int, EventFault>(e.fault()),
        },
{
    match v {
        PyValue::Int(i) => if 0 <= *i && *i <= max as i64 {
            Ok(*i as u16)
        } else {
            Err(EventError::OutOfRange)
        },
        PyValue::Bool(b) => if *b {
            Ok(1)
        } else {
            Ok(0)
        },
        _ => Err(EventError::WrongType),
    }
}

/// The bytes that a list of numbers makes; the first bad item decides the fault.
pub open spec fn numbers_as_bytes(items: Seq<PyData>) -> Result<Seq<u8>, EventFault>
    decreases items.len(),
{
    if items.len() == 0 {
        Ok(Seq::empty())
    } else {
        match numbers_as_bytes(items.drop_last()) {
            Err(e) => Err(e),
            Ok(b) => match number_data(items.last(), 255) {
                Err(e) => Err(e),
                Ok(n) => Ok(b.push(n as u8)),
            },
        }
    }
}

/// The bytes that an object is: a `bytes` object, or a list or tuple of small numbers.
pub open spec fn bytes_data(v: PyData) -> Result<Seq<u8>, EventFault> {
    match v {
        PyData::Bytes(b) => Ok(b),
        PyData::List(items) => numbers_as_bytes(items),
        PyData::Tuple(items) => numbers_as_bytes(items),
        _ => Err(EventFault::WrongType),
    }
}

/// A fault in the front of a list of numbers is the fault of the list.
proof fn first_number_fault(items: Seq<PyData>, n: int)
    requires
        0 <= n <= items.len(),
        numbers_as_bytes(items.take(n)) is Err,
    ensures
        numbers_as_bytes(items) == numbers_as_bytes(items.take(n)),
    decreases items.len() - n,
{
    if n < items.len() {
        assert(items.take(n + 1).drop_last() =~= items.take(n));
        first_number_fault(items, n + 1);
    } else {
        assert(items.take(n) =~= items);
    }
}

/// Reads a list of small numbers as bytes.
fn read_numbers(items: &Vec<PyValue>) -> (out: Result<Vec<u8>, EventError>)
    ensures
        match out {
            Ok(b) => numbers_as_bytes(items_data(items@)) == Ok::<Seq<u8>, EventFault>(b@),
            Err(e) => numbers_as_bytes(items_data(items@)) == Err::<Seq<u8>, EventFault>(e.fault()),
        },
{
    let ghost data = items_data(items@);
    let mut out: Vec<u8> = Vec::new();
    for i in 0..items.len()
        invariant
            data == items_data(items@),
            numbers_as_bytes(data.take(i as int)) == Ok::<Seq<u8>, EventFault>(out@),
    {
        assert(data.take(i + 1).drop_last() =~= data.take(i as int));
        assert(data.take(i + 1).last() == items@[i as int].data());
        match read_number(&items[i], 255) {
            Ok(n) => {
                out.push(n as u8);
            },
            Err(e) => {
                proof {
                    first_number_fault(data, i + 1);
                }
                return Err(e);
            },
        }
    }
    assert(data.take(data.len() as int) =~= data);
    Ok(out)
}

/// Reads the bytes that an object is.
pub fn extract_bytes(v: &PyValue) -> (out: Result<Vec<u8>, EventError>)
    ensures
        match out {
            Ok(b) => bytes_data(v.data()) == Ok::<Seq<u8>, EventFault>(b@),
            Err(e) => bytes_data(v.data()) == Err::<Seq<u8>, EventFault>(e.fault()),
        },
{
    match v {
        PyValue::Bytes(b) => Ok(copy_bytes(b)),
        PyValue::List(items) => {
            proof {
                list_holds_items(*items);
            }
            read_numbers(items)
        },
        PyValue::Tuple(items) => {
            proof {
                list_holds_items(*items);
            }
            read_numbers(items)
        },
        _ => Err(EventError::WrongType),
    }
}

/// The parts of a header line, as indexing finds them: the items of a tuple or list, the
/// characters of a text, the numbers in bytes. A dict has no entry under a number.
pub open spec fn parts_of(item: PyData) -> Result<Seq<PyData>, EventFault> {
    match item {
        PyData::Tuple(t) => Ok(t),
        PyData::List(t) => Ok(t),
        PyData::Str(s) => Ok(Seq::new(s.len(), |i: int| PyData::Str(seq![s[i]]))),
        PyData::Bytes(b) => Ok(Seq::new(b.len(), |i: int| PyData::Int(b[i] as int))),
        PyData::Dict(_) => Err(EventFault::MissingKey("0"@)),
        _ => Err(EventFault::WrongType),
    }
}

/// The fault of a header line that is no tuple or list. Its first part, if it has one, is no
/// bytes.
fn odd_line(item: &PyValue) -> (out: EventError)
    requires
        !(item is Tuple),
        !(item is List),
    ensures
        match parts_of(item.data()) {
            Err(e) => out.fault() == e,
            Ok(parts) => part_bytes(parts, 0) == Err::<Seq<u8>, EventFault>(out.fault()),
        },
{
    match item {
        PyValue::Str(s) => if s.as_str().is_empty() {
            EventError::NoItem
        } else {
            EventError::WrongType
        },
        PyValue::Bytes(b) => if b.len() == 0 {
            EventError::NoItem
        } else {
            EventError::WrongType
        },
        PyValue::Dict(_) => EventError::MissingKey(String::from_str("0")),
        _ => EventError::WrongType,
    }
}

/// The part of a header line at `i` as bytes.
pub open spec fn part_bytes(parts: Seq<PyData>, i: int) -> Result<Seq<u8>, EventFault> {
    if i < parts.len() {
        bytes_data(parts[i])
    } else {
        Err(EventFault::NoItem)
    }
}

/// Reads the part of a header line at `i` as bytes.
fn read_part(parts: &Vec<PyValue>, i: usize) -> (out: Result<Vec<u8>, EventError>)
    ensures
        match out {
            Ok(b) => part_bytes(items_data(parts@), i as int) == Ok::<Seq<u8>, EventFault>(b@),
            Err(e) => part_bytes(items_data(parts@), i as int) == Err::<Seq<u8>, EventFault>(
                e.fault(),
            ),
        },
{
    if i < parts.len() {
        extract_bytes(&parts[i])
    } else {
        Err(EventError::NoItem)
    }
}

/// The name and value that a header line of a response holds. The name is looked at first.
pub open spec fn header_line(item: PyData) -> Result<(Seq<char>, Seq<u8>), EventFault> {
    match parts_of(item) {
        Err(e) => Err(e),
        Ok(parts) => match part_bytes(parts, 0) {
            Err(e) => Err(e),
            Ok(n) => match name_of(n) {
                None => Err(
                    EventFault::Invalid("invalid header name: "@ + "invalid HTTP header name"@),
                ),
                Some(name) => match part_bytes(parts, 1) {
                    Err(e) => Err(e),
                    Ok(v) => if valid_value(v) {
                        Ok((name, v))
                    } else {
                        Err(
                            EventFault::Invalid(
                                "invalid header value: "@ + "failed to parse header value"@,
                            ),
                        )
                    },
                },
            },
        },
    }
}

/// Reads a header line of a response.
fn read_header_line(item: &PyValue) -> (out: Result<(String, Vec<u8>), EventError>)
    ensures
        match out {
            Ok((n, v)) => {
                &&& header_line(item.data()) == Ok::<(Seq<char>, Seq<u8>), EventFault>((n@, v@))
                &&& held_name(n@)
                &&& valid_value(v@)
            },
            Err(e) => header_line(item.data()) == Err::<(Seq<char>, Seq<u8>), EventFault>(
                e.fault(),
            ),
        },
{
    let parts = match item {
        PyValue::Tuple(t) => t,
        PyValue::List(t) => t,
        _ => return Err(odd_line(item)),
    };
    proof {
        list_holds_items(*parts);
    }
    let n = match read_part(parts, 0) {
        Ok(b) => b,
        Err(e) => return Err(e),
    };
    let name = match parse_name(&n) {
        Ok(s) => s,
        Err(e) => return Err(
            EventError::Invalid(String::from_str("invalid header name: ").concat(&e)),
        ),
    };
    proof {
        parsed_name_is_held(n@);
    }
    let v = match read_part(parts, 1) {
        Ok(b) => b,
        Err(e) => return Err(e),
    };
    match check_value(&v) {
        Ok(_) => Ok((name, v)),
        Err(e) => Err(EventError::Invalid(String::from_str("invalid header value: ").concat(&e))),
    }
}

/// What a header map holds.
pub type Fields = Map<Seq<char>, Seq<Seq<u8>>>;

/// The headers that a list of lines makes: a later line replaces an earlier one of its name,
/// and the first bad line decides the fault.
pub open spec fn header_fields(items: Seq<PyData>) -> Result<Fields, EventFault>
    decreases items.len(),
{
    if items.len() == 0 {
        Ok(no_fields())
    } else {
        match header_fields(items.drop_last()) {
            Err(e) => Err(e),
            Ok(f) => match header_line(items.last()) {
                Err(e) => Err(e),
                Ok((n, v)) => Ok(f.insert(n, seq![v])),
            },
        }
    }
}

/// A fault in the front of the header lines is the fault of them all.
proof fn first_header_fault(items: Seq<PyData>, n: int)
    requires
        0 <= n <= items.len(),
        header_fields(items.take(n)) is Err,
    ensures
        header_fields(items) == header_fields(items.take(n)),
    decreases items.len() - n,
{
    if n < items.len() {
        assert(items.take(n + 1).drop_last() =~= items.take(n));
        first_header_fault(items, n + 1);
    } else {
        assert(items.take(n) =~= items);
    }
}

/// The headers have more names than a header map is sure to take one more value to.
pub open spec fn is_full(f: Result<Fields, EventFault>) -> bool {
    match f {
        Ok(f) => !has_room(f),
        Err(_) => false,
    }
}

/// There is a header line before which the headers are full already.
pub open spec fn fills_up(items: Seq<PyData>) -> bool {
    exists|n: int| 0 <= n < items.len() && is_full(#[trigger] header_fields(items.take(n)))
}

/// Names only grow along the header lines.
proof fn names_grow(items: Seq<PyData>, n: int)
    requires
        0 <= n <= items.len(),
        header_fields(items) is Ok,
    ensures
        header_fields(items.take(n)) is Ok,
        header_fields(items)->Ok_0.dom().finite(),
        header_fields(items.take(n))->Ok_0.dom().subset_of(header_fields(items)->Ok_0.dom()),
    decreases items.len(),
{
    if n == items.len() {
        assert(items.take(n) =~= items);
        if items.len() > 0 {
            names_grow(items.drop_last(), n - 1);
        }
    } else {
        assert(items.drop_last().take(n) =~= items.take(n));
        names_grow(items.drop_last(), n);
    }
}

/// Header lines whose names all find room never fill the headers up, however often a name is
/// repeated.
pub proof fn repeated_names_take_no_room(items: Seq<PyData>)
    requires
        header_fields(items) matches Ok(f) && has_room(f),
    ensures
        !fills_up(items),
{
    assert forall|n: int| 0 <= n < items.len() implies !is_full(
        #[trigger] header_fields(items.take(n)),
    ) by {
        names_grow(items, n);
        let few = header_fields(items.take(n))->Ok_0.dom();
        let all = header_fields(items)->Ok_0.dom();
        vstd::set_lib::lemma_len_subset(few, all);
    }
}

/// The headers of an event.
pub open spec fn event_headers(d: Entries) -> Result<Fields, EventFault> {
    match lookup(d, "headers"@) {
        None => Ok(no_fields()),
        Some(PyData::List(items)) => header_fields(items),
        Some(_) => Err(EventFault::WrongType),
    }
}

/// An event whose header lines have more names than a header map is sure to take.
pub open spec fn has_many_headers(d: Entries) -> bool {
    match lookup(d, "headers"@) {
        Some(PyData::List(items)) => fills_up(items),
        _ => false,
    }
}

/// Reads the headers of an event.
pub fn parse_header_map(event: &[(String, PyValue)]) -> (out: Result<
    HeaderMap<HeaderValue>,
    EventError,
>)
    ensures
        match out {
            Ok(m) => event_headers(dict_data(event@)) == Ok::<Fields, EventFault>(fields(m)),
            Err(EventError::TooManyHeaders) => has_many_headers(dict_data(event@)),
            Err(e) => event_headers(dict_data(event@)) == Err::<Fields, EventFault>(e.fault()),
        },
        event_headers(dict_data(event@)) matches Ok(f) ==> has_room(f) ==> out is Ok,
{
    let items = match get(event, "headers") {
        None => return Ok(empty()),
        Some(PyValue::List(items)) => items,
        Some(_) => return Err(EventError::WrongType),
    };
    proof {
        list_holds_items(*items);
    }
    let ghost data = items_data(items@);
    let mut map = empty();
    for i in 0..items.len()
        invariant
            data == items_data(items@),
            lookup(dict_data(event@), "headers"@) == Some(PyData::List(data)),
            header_fields(data.take(i as int)) == Ok::<Fields, EventFault>(fields(map)),
    {
        assert(data.take(i + 1).drop_last() =~= data.take(i as int));
        assert(data.take(i + 1).last() == items@[i as int].data());
        match read_header_line(&items[i]) {
            Ok((name, value)) => {
                if !insert(&mut map, &name, &value) {
                    assert(is_full(header_fields(data.take(i as int))));
                    proof {
                        if header_fields(data) matches Ok(f) && has_room(f) {
                            repeated_names_take_no_room(data);
                        }
                    }
                    return Err(EventError::TooManyHeaders);
                }
            },
            Err(e) => {
                proof {
                    first_header_fault(data, i + 1);
                    assert(!(e is TooManyHeaders)) by {
                        no_line_is_too_many(items@[i as int].data());
                    }
                }
                return Err(e);
            },
        }
    }
    assert(data.take(data.len() as int) =~= data);
    Ok(map)
}

/// The bytes of numbers are never refused for their number.
proof fn no_number_is_too_many(items: Seq<PyData>)
    ensures
        numbers_as_bytes(items) matches Err(e) ==> !(e is TooManyHeaders),
    decreases items.len(),
{
    if items.len() > 0 {
        no_number_is_too_many(items.drop_last());
    }
}

/// A header line alone is never refused for the number of headers.
proof fn no_line_is_too_many(item: PyData)
    ensures
        header_line(item) matches Err(e) ==> !(e is TooManyHeaders),
{
    if parts_of(item) is Ok {
        let parts = parts_of(item)->Ok_0;
        if parts.len() > 0 {
            match parts[0] {
                PyData::List(l) => no_number_is_too_many(l),
                PyData::Tuple(l) => no_number_is_too_many(l),
                _ => {},
            }
        }
        if parts.len() > 1 {
            match parts[1] {
                PyData::List(l) => no_number_is_too_many(l),
                PyData::Tuple(l) => no_number_is_too_many(l),
                _ => {},
            }
        }
    }
}

/// A header line as two byte strings.
pub open spec fn raw_line(item: PyData) -> Result<(Seq<u8>, Seq<u8>), EventFault> {
    match parts_of(item) {
        Err(e) => Err(e),
        Ok(parts) => match part_bytes(parts, 0) {
            Err(e) => Err(e),
            Ok(n) => match part_bytes(parts, 1) {
                Err(e) => Err(e),
                Ok(v) => Ok((n, v)),
            },
        },
    }
}

/// Header lines as byte strings; the first bad line decides the fault.
pub open spec fn raw_lines(items: Seq<PyData>, tuples_only: bool) -> Result<
    Seq<(Seq<u8>, Seq<u8>)>,
    EventFault,
>
    decreases items.len(),
{
    if items.len() == 0 {
        Ok(Seq::empty())
    } else {
        match raw_lines(items.drop_last(), tuples_only) {
            Err(e) => Err(e),
            Ok(l) => if tuples_only && !(items.last() is Tuple) {
                Err(EventFault::WrongType)
            } else {
                match raw_line(items.last()) {
                    Err(e) => Err(e),
                    Ok(p) => Ok(l.push(p)),
                }
            },
        }
    }
}

/// A fault in the front of raw header lines is the fault of them all.
proof fn first_raw_fault(items: Seq<PyData>, tuples_only: bool, n: int)
    requires
        0 <= n <= items.len(),
        raw_lines(items.take(n), tuples_only) is Err,
    ensures
        raw_lines(items, tuples_only) == raw_lines(items.take(n), tuples_only),
    decreases items.len() - n,
{
    if n < items.len() {
        assert(items.take(n + 1).drop_last() =~= items.take(n));
        first_raw_fault(items, tuples_only, n + 1);
    } else {
        assert(items.take(n) =~= items);
    }
}

/// Pairs of byte strings as mathematical values.
pub open spec fn raw_views(v: Seq<(Vec<u8>, Vec<u8>)>) -> Seq<(Seq<u8>, Seq<u8>)> {
    Seq::new(v.len(), |i: int| (v[i].0@, v[i].1@))
}

/// Reads one header line as two byte strings.
fn read_raw_line(item: &PyValue) -> (out: Result<(Vec<u8>, Vec<u8>), EventError>)
    ensures
        match out {
            Ok((n, v)) => raw_line(item.data()) == Ok::<(Seq<u8>, Seq<u8>), EventFault>((n@, v@)),
            Err(e) => raw_line(item.data()) == Err::<(Seq<u8>, Seq<u8>), EventFault>(e.fault()),
        },
{
    let parts = match item {
        PyValue::Tuple(t) => t,
        PyValue::List(t) => t,
        _ => return Err(odd_line(item)),
    };
    proof {
        list_holds_items(*parts);
    }
    let n = match read_part(parts, 0) {
        Ok(b) => b,
        Err(e) => return Err(e),
    };
    match read_part(parts, 1) {
        Ok(v) => Ok((n, v)),
        Err(e) => Err(e),
    }
}

/// Reads header lines as byte strings.
fn read_raw_lines(items: &Vec<PyValue>, tuples_only: bool) -> (out: Result<
    Vec<(Vec<u8>, Vec<u8>)>,
    EventError,
>)
    ensures
        match out {
            Ok(l) => raw_lines(items_data(items@), tuples_only) == Ok::<
                Seq<(Seq<u8>, Seq<u8>)>,
                EventFault,
            >(raw_views(l@)),
            Err(e) => raw_lines(items_data(items@), tuples_only) == Err::<
                Seq<(Seq<u8>, Seq<u8>)>,
                EventFault,
            >(e.fault()),
        },
{
    let ghost data = items_data(items@);
    let mut out: Vec<(Vec<u8>, Vec<u8>)> = Vec::new();
    assert(raw_views(out@) =~= Seq::<(Seq<u8>, Seq<u8>)>::empty());
    for i in 0..items.len()
        invariant
            data == items_data(items@),
            raw_lines(data.take(i as int), tuples_only) == Ok::<
                Seq<(Seq<u8>, Seq<u8>)>,
                EventFault,
            >(raw_views(out@)),
    {
        assert(data.take(i + 1).drop_last() =~= data.take(i as int));
        assert(data.take(i + 1).last() == items@[i as int].data());
        let is_tuple = match &items[i] {
            PyValue::Tuple(_) => true,
            _ => false,
        };
        if tuples_only && !is_tuple {
            proof {
                first_raw_fault(data, tuples_only, i + 1);
            }
            return Err(EventError::WrongType);
        }
        match read_raw_line(&items[i]) {
            Ok(p) => {
                let ghost before = out@;
                let ghost pair = (p.0@, p.1@);
                out.push(p);
                assert(raw_views(out@) =~= raw_views(before).push(pair));
            },
            Err(e) => {
                proof {
                    first_raw_fault(data, tuples_only, i + 1);
                }
                return Err(e);
            },
        }
    }
    assert(data.take(data.len() as int) =~= data);
    Ok(out)
}

/// The header lines of an event as byte strings. Any iterable is walked; of those that are no
/// list or tuple only an empty one is without fault. The lines of a dict are its keys.
pub open spec fn event_raw_headers(d: Entries, tuples_only: bool) -> Result<
    Seq<(Seq<u8>, Seq<u8>)>,
    EventFault,
> {
    match lookup(d, "headers"@) {
        None => Ok(Seq::empty()),
        Some(PyData::List(items)) => raw_lines(items, tuples_only),
        Some(PyData::Tuple(items)) => raw_lines(items, tuples_only),
        Some(PyData::Str(s)) => if s.len() == 0 {
            Ok(Seq::empty())
        } else {
            Err(EventFault::WrongType)
        },
        Some(PyData::Bytes(b)) => if b.len() == 0 {
            Ok(Seq::empty())
        } else {
            Err(EventFault::WrongType)
        },
        Some(PyData::Dict(e)) => if e.len() == 0 {
            Ok(Seq::empty())
        } else if !tuples_only && e[0].0.len() == 0 {
            Err(EventFault::NoItem)
        } else {
            Err(EventFault::WrongType)
        },
        Some(_) => Err(EventFault::WrongType),
    }
}

/// Reads the header lines of an event as byte strings; with `tuples_only` each line must be
/// a tuple.
pub fn extract_header_list(event: &[(String, PyValue)], tuples_only: bool) -> (out: Result<
    Vec<(Vec<u8>, Vec<u8>)>,
    EventError,
>)
    ensures
        match out {
            Ok(l) => event_raw_headers(dict_data(event@), tuples_only) == Ok::<
                Seq<(Seq<u8>, Seq<u8>)>,
                EventFault,
            >(raw_views(l@)),
            Err(e) => event_raw_headers(dict_data(event@), tuples_only) == Err::<
                Seq<(Seq<u8>, Seq<u8>)>,
                EventFault,
            >(e.fault()),
        },
{
    let none: Vec<(Vec<u8>, Vec<u8>)> = Vec::new();
    assert(raw_views(none@) =~= Seq::<(Seq<u8>, Seq<u8>)>::empty());
    match get(event, "headers") {
        None => Ok(none),
        Some(PyValue::List(items)) => {
            proof {
                list_holds_items(*items);
            }
            read_raw_lines(items, tuples_only)
        },
        Some(PyValue::Tuple(items)) => {
            proof {
                list_holds_items(*items);
            }
            read_raw_lines(items, tuples_only)
        },
        Some(PyValue::Str(s)) => if s.as_str().is_empty() {
            Ok(none)
        } else {
            Err(EventError::WrongType)
        },
        Some(PyValue::Bytes(b)) => if b.len() == 0 {
            Ok(none)
        } else {
            Err(EventError::WrongType)
        },
        Some(PyValue::Dict(e)) => {
            proof {
                dict_holds_entries(*e);
            }
            if e.len() == 0 {
                Ok(none)
            } else if !tuples_only && e[0].0.as_str().is_empty() {
                Err(EventError::NoItem)
            } else {
                Err(EventError::WrongType)
            }
        },
        Some(_) => Err(EventError::WrongType),
    }
}

/// An event that an application sent.
#[allow(inconsistent_fields)]
#[derive(Debug)]
pub enum AsgiEvent {
    /// Status and headers of a response.
    ResponseStart {
        /// Status code.
        status: u16,
        /// Headers.
        headers: HeaderMap<HeaderValue>,
    },
    /// A part of the body of a response.
    ResponseBody {
        /// The bytes.
        body: Vec<u8>,
        /// Whether more parts follow.
        more_body: bool,
    },
    /// A WebSocket is accepted.
    WsAccept {
        /// The subprotocol chosen, if any.
        subprotocol: Option<String>,
        /// Headers as byte strings.
        headers: Vec<(Vec<u8>, Vec<u8>)>,
    },
    /// A message for a WebSocket.
    WsSend {
        /// Text, if it is a text message.
        text: Option<String>,
        /// Bytes, if it is a binary message.
        bytes: Option<Vec<u8>>,
    },
    /// A WebSocket is closed.
    WsClose {
        /// Close code.
        code: u16,
    },
}

/// An event as a mathematical value.
#[allow(inconsistent_fields)]
pub enum EventData {
    /// Status and headers of a response.
    ResponseStart {
        /// Status code.
        status: int,
        /// Headers.
        headers: Fields,
    },
    /// A part of the body of a response.
    ResponseBody {
        /// The bytes.
        body: Seq<u8>,
        /// Whether more parts follow.
        more_body: bool,
    },
    /// A WebSocket is accepted.
    WsAccept {
        /// The subprotocol chosen, if any.
        subprotocol: Option<Seq<char>>,
        /// Headers as byte strings.
        headers: Seq<(Seq<u8>, Seq<u8>)>,
    },
    /// A message for a WebSocket.
    WsSend {
        /// Text, if it is a text message.
        text: Option<Seq<char>>,
        /// Bytes, if it is a binary message.
        bytes: Option<Seq<u8>>,
    },
    /// A WebSocket is closed.
    WsClose {
        /// Close code.
        code: int,
    },
}

/// Optional bytes.
pub open spec fn opt_bytes(b: Option<Vec<u8>>) -> Option<Seq<u8>> {
    match b {
        Some(v) => Some(v@),
        None => None,
    }
}

impl AsgiEvent {
    /// The mathematical value.
    pub open spec fn data(self) -> EventData {
        match self {
            AsgiEvent::ResponseStart { status, headers } => EventData::ResponseStart {
                status: status as int,
                headers: fields(headers),
            },
            AsgiEvent::ResponseBody { body, more_body } => EventData::ResponseBody {
                body: body@,
                more_body,
            },
            AsgiEvent::WsAccept { subprotocol, headers } => EventData::WsAccept {
                subprotocol: opt_view(subprotocol),
                headers: raw_views(headers@),
            },
            AsgiEvent::WsSend { text, bytes } => EventData::WsSend {
                text: opt_view(text),
                bytes: opt_bytes(bytes),
            },
            AsgiEvent::WsClose { code } => EventData::WsClose { code: code as int },
        }
    }
}

/// The status of a response start.
pub open spec fn status_of(d: Entries) -> Result<int, EventFault> {
    match lookup(d, "status"@) {
        None => Err(EventFault::MissingKey("status"@)),
        Some(v) => number_data(v, 65535),
    }
}

/// Reads the status of a response start.
pub fn extract_status(event: &[(String, PyValue)]) -> (out: Result<u16, EventError>)
    ensures
        match out {
            Ok(n) => status_of(dict_data(event@)) == Ok::<int, EventFault>(n as int),
            Err(e) => status_of(dict_data(event@)) == Err::<int, EventFault>(e.fault()),
        },
{
    match get(event, "status") {
        None => Err(EventError::MissingKey(String::from_str("status"))),
        Some(v) => read_number(v, 65535),
    }
}

/// A response start: the status is read first, then the headers.
pub open spec fn response_start(d: Entries) -> Result<EventData, EventFault> {
    match status_of(d) {
        Err(e) => Err(e),
        Ok(status) => match event_headers(d) {
            Err(e) => Err(e),
            Ok(headers) => Ok(EventData::ResponseStart { status, headers }),
        },
    }
}

/// Reads a response start.
pub fn parse_response_start(event: &[(String, PyValue)]) -> (out: Result<AsgiEvent, EventError>)
    ensures
        match out {
            Ok(v) => response_start(dict_data(event@)) == Ok::<EventData, EventFault>(v.data()),
            Err(EventError::TooManyHeaders) => status_of(dict_data(event@)) is Ok
                && has_many_headers(dict_data(event@)),
            Err(e) => response_start(dict_data(event@)) == Err::<EventData, EventFault>(e.fault()),
        },
        match response_start(dict_data(event@)) {
            Ok(EventData::ResponseStart { status: _, headers }) => has_room(headers) ==> out is Ok,
            Ok(_) => false,
            Err(_) => out is Err,
        },
{
    let status = match extract_status(event) {
        Ok(n) => n,
        Err(e) => return Err(e),
    };
    match parse_header_map(event) {
        Ok(headers) => Ok(AsgiEvent::ResponseStart { status, headers }),
        Err(e) => Err(e),
    }
}

/// The body of an event; an absent key is an empty body.
pub open spec fn body_of(d: Entries) -> Result<Seq<u8>, EventFault> {
    match lookup(d, "body"@) {
        None => Ok(Seq::empty()),
        Some(v) => bytes_data(v),
    }
}

/// Reads the body of an event.
pub fn extract_body_bytes(event: &[(String, PyValue)]) -> (out: Result<Vec<u8>, EventError>)
    ensures
        match out {
            Ok(b) => body_of(dict_data(event@)) == Ok::<Seq<u8>, EventFault>(b@),
            Err(e) => body_of(dict_data(event@)) == Err::<Seq<u8>, EventFault>(e.fault()),
        },
{
    match get(event, "body") {
        None => Ok(Vec::new()),
        Some(v) => extract_bytes(v),
    }
}

/// Whether more parts follow; an absent key means none.
pub open spec fn more_of(d: Entries) -> Result<bool, EventFault> {
    match lookup(d, "more_body"@) {
        None => Ok(false),
        Some(PyData::Bool(b)) => Ok(b),
        Some(_) => Err(EventFault::WrongType),
    }
}

/// Reads whether more parts follow.
pub fn extract_more_body(event: &[(String, PyValue)]) -> (out: Result<bool, EventError>)
    ensures
        match out {
            Ok(b) => more_of(dict_data(event@)) == Ok::<bool, EventFault>(b),
            Err(e) => more_of(dict_data(event@)) == Err::<bool, EventFault>(e.fault()),
        },
{
    match get(event, "more_body") {
        None => Ok(false),
        Some(PyValue::Bool(b)) => Ok(*b),
        Some(_) => Err(EventError::WrongType),
    }
}

/// A part of a body: the bytes are read first, then the flag.
pub open spec fn response_body(d: Entries) -> Result<EventData, EventFault> {
    match body_of(d) {
        Err(e) => Err(e),
        Ok(body) => match more_of(d) {
            Err(e) => Err(e),
            Ok(more_body) => Ok(EventData::ResponseBody { body, more_body }),
        },
    }
}

/// Reads a part of a body.
pub fn parse_response_body(event: &[(String, PyValue)]) -> (out: Result<AsgiEvent, EventError>)
    ensures
        match out {
            Ok(v) => response_body(dict_data(event@)) == Ok::<EventData, EventFault>(v.data()),
            Err(e) => response_body(dict_data(event@)) == Err::<EventData, EventFault>(e.fault()),
        },
{
    let body = match extract_body_bytes(event) {
        Ok(b) => b,
        Err(e) => return Err(e),
    };
    match extract_more_body(event) {
        Ok(more_body) => Ok(AsgiEvent::ResponseBody { body, more_body }),
        Err(e) => Err(e),
    }
}

/// The text under `key`, if there is one; anything else counts as none.
pub open spec fn text_if(d: Entries, key: Seq<char>) -> Option<Seq<char>> {
    match lookup(d, key) {
        Some(PyData::Str(s)) => Some(s),
        _ => None,
    }
}

/// Reads the text under `key`, if there is one.
fn extract_text(event: &[(String, PyValue)], key: &str) -> (out: Option<String>)
    ensures
        opt_view(out) == text_if(dict_data(event@), key@),
{
    match get(event, key) {
        Some(PyValue::Str(s)) => Some(s.clone()),
        _ => None,
    }
}

/// The acceptance of a WebSocket.
pub open spec fn ws_accept(d: Entries) -> Result<EventData, EventFault> {
    match event_raw_headers(d, false) {
        Err(e) => Err(e),
        Ok(headers) => Ok(
            EventData::WsAccept { subprotocol: text_if(d, "subprotocol"@), headers },
        ),
    }
}

/// Reads the acceptance of a WebSocket.
pub fn parse_ws_accept(event: &[(String, PyValue)]) -> (out: Result<AsgiEvent, EventError>)
    ensures
        match out {
            Ok(v) => ws_accept(dict_data(event@)) == Ok::<EventData, EventFault>(v.data()),
            Err(e) => ws_accept(dict_data(event@)) == Err::<EventData, EventFault>(e.fault()),
        },
{
    let subprotocol = extract_text(event, "subprotocol");
    match extract_header_list(event, false) {
        Ok(headers) => Ok(AsgiEvent::WsAccept { subprotocol, headers }),
        Err(e) => Err(e),
    }
}

/// The bytes of a WebSocket message, if it has any; anything but `bytes` counts as none.
pub open spec fn message_bytes(d: Entries) -> Option<Seq<u8>> {
    match lookup(d, "bytes"@) {
        Some(PyData::Bytes(b)) => Some(b),
        _ => None,
    }
}

/// Reads a WebSocket message; both parts may be absent.
pub fn parse_ws_send(event: &[(String, PyValue)]) -> (out: AsgiEvent)
    ensures
        out.data() == (EventData::WsSend {
            text: text_if(dict_data(event@), "text"@),
            bytes: message_bytes(dict_data(event@)),
        }),
{
    let text = extract_text(event, "text");
    let bytes = match get(event, "bytes") {
        Some(PyValue::Bytes(b)) => Some(copy_bytes(b)),
        _ => None,
    };
    AsgiEvent::WsSend { text, bytes }
}

/// The close of a WebSocket; an absent code is 1000.
pub open spec fn ws_close(d: Entries) -> Result<EventData, EventFault> {
    match lookup(d, "code"@) {
        None => Ok(EventData::WsClose { code: 1000 }),
        Some(v) => match number_data(v, 65535) {
            Err(e) => Err(e),
            Ok(code) => Ok(EventData::WsClose { code }),
        },
    }
}

/// Reads the close of a WebSocket.
pub fn parse_ws_close(event: &[(String, PyValue)]) -> (out: Result<AsgiEvent, EventError>)
    ensures
        match out {
            Ok(v) => ws_close(dict_data(event@)) == Ok::<EventData, EventFault>(v.data()),
            Err(e) => ws_close(dict_data(event@)) == Err::<EventData, EventFault>(e.fault()),
        },
{
    match get(event, "code") {
        None => Ok(AsgiEvent::WsClose { code: 1000 }),
        Some(v) => match read_number(v, 65535) {
            Ok(code) => Ok(AsgiEvent::WsClose { code }),
            Err(e) => Err(e),
        },
    }
}

/// The event that a dict describes.
pub open spec fn event_of(d: Entries) -> Result<EventData, EventFault> {
    match lookup(d, "type"@) {
        None => Err(EventFault::MissingKey("type"@)),
        Some(PyData::Str(kind)) => if kind == "http.response.start"@ {
            response_start(d)
        } else if kind == "http.response.body"@ {
            response_body(d)
        } else if kind == "websocket.accept"@ {
            ws_accept(d)
        } else if kind == "websocket.send"@ {
            Ok(EventData::WsSend { text: text_if(d, "text"@), bytes: message_bytes(d) })
        } else if kind == "websocket.close"@ {
            ws_close(d)
        } else {
            Err(EventFault::Invalid("unsupported ASGI event type: "@ + kind))
        },
        Some(_) => Err(EventFault::WrongType),
    }
}

/// Reads an event that an application sent.
pub fn parse_asgi_send_event(event: &[(String, PyValue)]) -> (out: Result<AsgiEvent, EventError>)
    ensures
        match out {
            Ok(v) => event_of(dict_data(event@)) == Ok::<EventData, EventFault>(v.data()),
            Err(EventError::TooManyHeaders) => {
                &&& lookup(dict_data(event@), "type"@) == Some(PyData::Str("http.response.start"@))
                &&& status_of(dict_data(event@)) is Ok
                &&& has_many_headers(dict_data(event@))
            },
            Err(e) => event_of(dict_data(event@)) == Err::<EventData, EventFault>(e.fault()),
        },
        match event_of(dict_data(event@)) {
            Ok(EventData::ResponseStart { status: _, headers }) => has_room(headers) ==> out is Ok,
            Ok(_) => out is Ok,
            Err(_) => out is Err,
        },
{
    let kind = match get(event, "type") {
        None => return Err(EventError::MissingKey(String::from_str("type"))),
        Some(PyValue::Str(s)) => s,
        Some(_) => return Err(EventError::WrongType),
    };
    if same(kind, "http.response.start") {
        parse_response_start(event)
    } else if same(kind, "http.response.body") {
        let out = parse_response_body(event);
        proof {
            body_is_never_too_many(dict_data(event@));
        }
        out
    } else if same(kind, "websocket.accept") {
        let out = parse_ws_accept(event);
        proof {
            raw_is_never_too_many(dict_data(event@));
        }
        out
    } else if same(kind, "websocket.send") {
        Ok(parse_ws_send(event))
    } else if same(kind, "websocket.close") {
        parse_ws_close(event)
    } else {
        Err(EventError::Invalid(String::from_str("unsupported ASGI event type: ").concat(kind)))
    }
}

/// A body is never refused for the number of headers.
proof fn body_is_never_too_many(d: Entries)
    ensures
        response_body(d) matches Err(e) ==> !(e is TooManyHeaders),
{
    match lookup(d, "body"@) {
        Some(PyData::List(l)) => no_number_is_too_many(l),
        Some(PyData::Tuple(l)) => no_number_is_too_many(l),
        _ => {},
    }
}

/// A raw header line is never refused for the number of headers.
proof fn raw_line_is_never_too_many(item: PyData)
    ensures
        raw_line(item) matches Err(e) ==> !(e is TooManyHeaders),
{
    if parts_of(item) is Ok {
        let parts = parts_of(item)->Ok_0;
        if parts.len() > 0 {
            match parts[0] {
                PyData::List(l) => no_number_is_too_many(l),
                PyData::Tuple(l) => no_number_is_too_many(l),
                _ => {},
            }
        }
        if parts.len() > 1 {
            match parts[1] {
                PyData::List(l) => no_number_is_too_many(l),
                PyData::Tuple(l) => no_number_is_too_many(l),
                _ => {},
            }
        }
    }
}

/// Raw header lines are never refused for their number.
proof fn raw_lines_are_never_too_many(items: Seq<PyData>, tuples_only: bool)
    ensures
        raw_lines(items, tuples_only) matches Err(e) ==> !(e is TooManyHeaders),
    decreases items.len(),
{
    if items.len() > 0 {
        raw_lines_are_never_too_many(items.drop_last(), tuples_only);
        raw_line_is_never_too_many(items.last());
    }
}

/// The acceptance of a WebSocket is never refused for the number of headers.
proof fn raw_is_never_too_many(d: Entries)
    ensures
        ws_accept(d) matches Err(e) ==> !(e is TooManyHeaders),
{
    match lookup(d, "headers"@) {
        Some(PyData::List(l)) => raw_lines_are_never_too_many(l, false),
        Some(PyData::Tuple(l)) => raw_lines_are_never_too_many(l, false),
        _ => {},
    }
}

/// Of two header lines with one name the later one counts, whatever stands between them.
pub proof fn last_header_wins(items: Seq<PyData>, line: PyData, f: Fields, n: Seq<char>, v: Seq<u8>)
    requires
        header_fields(items) == Ok::<Fields, EventFault>(f),
        header_line(line) == Ok::<(Seq<char>, Seq<u8>), EventFault>((n, v)),
    ensures
        header_fields(items.push(line)) matches Ok(g) && g.dom().contains(n) && g[n] == seq![v]
            && (forall|m: Seq<char>|
            m != n ==> crate::headers::values_of(g, m) == #[trigger] crate::headers::values_of(
                f,
                m,
            )),
{
    assert(items.push(line).drop_last() =~= items);
    assert(items.push(line).last() == line);
}

/// Bytes are read as they are; numbers below 256 in a list or a tuple are read as bytes, in order.
pub proof fn bytes_are_read(items: Seq<PyData>, bytes: Seq<u8>)
    requires
        items.len() == bytes.len(),
        forall|i: int| 0 <= i < items.len() ==> #[trigger] items[i] == PyData::Int(bytes[i] as int),
    ensures
        bytes_data(PyData::Bytes(bytes)) == Ok::<Seq<u8>, EventFault>(bytes),
        bytes_data(PyData::List(items)) == Ok::<Seq<u8>, EventFault>(bytes),
        bytes_data(PyData::Tuple(items)) == Ok::<Seq<u8>, EventFault>(bytes),
    decreases items.len(),
{
    if items.len() > 0 {
        bytes_are_read(items.drop_last(), bytes.drop_last());
        assert(bytes.drop_last().push(bytes.last()) =~= bytes);
        assert(items.last() == PyData::Int(bytes[items.len() - 1] as int));
    } else {
        assert(bytes =~= Seq::empty());
    }
}

/// What holds no bytes is refused: a number beyond a byte, and anything but bytes and numbers.
pub proof fn odd_bytes_are_refused(n: int, text: Seq<char>, d: Entries)
    ensures
        !(0 <= n <= 255) ==> bytes_data(PyData::List(seq![PyData::Int(n)])) == Err::<
            Seq<u8>,
            EventFault,
        >(EventFault::OutOfRange),
        bytes_data(PyData::List(seq![PyData::Str(text)])) == Err::<Seq<u8>, EventFault>(
            EventFault::WrongType,
        ),
        bytes_data(PyData::Str(text)) == Err::<Seq<u8>, EventFault>(EventFault::WrongType),
        bytes_data(PyData::Int(n)) == Err::<Seq<u8>, EventFault>(EventFault::WrongType),
        bytes_data(PyData::Dict(d)) == Err::<Seq<u8>, EventFault>(EventFault::WrongType),
        bytes_data(PyData::Nothing) == Err::<Seq<u8>, EventFault>(EventFault::WrongType),
{
    reveal_with_fuel(numbers_as_bytes, 2);
    assert(seq![PyData::Int(n)].drop_last() =~= Seq::<PyData>::empty());
    assert(seq![PyData::Str(text)].drop_last() =~= Seq::<PyData>::empty());
}

/// Header lines as pairs of byte strings, in tuples or in lists.
pub open spec fn tells_lines(items: Seq<PyData>, lines: Seq<(Seq<u8>, Seq<u8>)>) -> bool {
    &&& items.len() == lines.len()
    &&& forall|i: int|
        0 <= i < items.len() ==> (#[trigger] items[i] == PyData::Tuple(
            seq![PyData::Bytes(lines[i].0), PyData::Bytes(lines[i].1)],
        ) || items[i] == PyData::List(
            seq![PyData::Bytes(lines[i].0), PyData::Bytes(lines[i].1)],
        ))
}

/// Headers are held under their names: exactly the names of the lines are there, and each holds the
/// value of the last line with that name.
pub proof fn headers_are_read(items: Seq<PyData>, lines: Seq<(Seq<u8>, Seq<u8>)>, i: int, n: Seq<char>)
    requires
        tells_lines(items, lines),
        forall|k: int|
            0 <= k < lines.len() ==> name_of((#[trigger] lines[k]).0) is Some && valid_value(
                lines[k].1,
            ),
    ensures
        header_fields(items) is Ok,
        header_fields(items)->Ok_0.dom().contains(n) <==> exists|k: int|
            0 <= k < lines.len() && name_of((#[trigger] lines[k]).0) == Some(n),
        0 <= i < lines.len() && name_of(lines[i].0) == Some(n) && (forall|k: int|
            i < k < lines.len() ==> name_of((#[trigger] lines[k]).0) != Some(n)) ==> header_fields(
            items,
        )->Ok_0[n] == seq![lines[i].1],
    decreases items.len(),
{
    if items.len() > 0 {
        let l = lines.drop_last();
        let last: int = lines.len() - 1;
        headers_are_read(items.drop_last(), l, i, n);
        assert(items[last] == items.last());
        assert(lines[last] == lines.last());
        assert(header_line(items.last()) == Ok::<(Seq<char>, Seq<u8>), EventFault>(
            (name_of(lines.last().0)->0, lines.last().1),
        ));
        if name_of(lines.last().0) != Some(n) {
            if exists|k: int| 0 <= k < lines.len() && name_of((#[trigger] lines[k]).0) == Some(n) {
                let k = choose|k: int|
                    0 <= k < lines.len() && name_of((#[trigger] lines[k]).0) == Some(n);
                assert(l[k] == lines[k]);
            }
            if exists|k: int| 0 <= k < l.len() && name_of((#[trigger] l[k]).0) == Some(n) {
                let k = choose|k: int| 0 <= k < l.len() && name_of((#[trigger] l[k]).0) == Some(n);
                assert(lines[k] == l[k]);
            }
            if 0 <= i < lines.len() && name_of(lines[i].0) == Some(n) && (forall|k: int|
                i < k < lines.len() ==> name_of((#[trigger] lines[k]).0) != Some(n)) {
                assert forall|k: int| i < k < l.len() implies name_of((#[trigger] l[k]).0) != Some(
                    n,
                ) by {
                    assert(l[k] == lines[k]);
                }
                assert(l[i] == lines[i]);
            }
        }
    }
}

/// Header lines of a WebSocket, and those of the dispatch pipeline, keep their order and their
/// bytes.
pub proof fn header_lines_are_kept(
    d: Entries,
    items: Seq<PyData>,
    lines: Seq<(Seq<u8>, Seq<u8>)>,
    tuples_only: bool,
)
    requires
        tells_lines(items, lines),
        tuples_only ==> forall|i: int| 0 <= i < items.len() ==> #[trigger] items[i] is Tuple,
    ensures
        lookup(d, "headers"@) == Some(PyData::List(items)) ==> event_raw_headers(d, tuples_only)
            == Ok::<Seq<(Seq<u8>, Seq<u8>)>, EventFault>(lines),
        lookup(d, "headers"@) == Some(PyData::Tuple(items)) ==> event_raw_headers(d, tuples_only)
            == Ok::<Seq<(Seq<u8>, Seq<u8>)>, EventFault>(lines),
        lookup(d, "headers"@) is None ==> event_raw_headers(d, tuples_only) == Ok::<
            Seq<(Seq<u8>, Seq<u8>)>,
            EventFault,
        >(Seq::empty()),
        raw_lines(items, tuples_only) == Ok::<Seq<(Seq<u8>, Seq<u8>)>, EventFault>(lines),
    decreases items.len(),
{
    if items.len() > 0 {
        header_lines_are_kept(d, items.drop_last(), lines.drop_last(), tuples_only);
        let last: int = items.len() - 1;
        assert(items[last] == items.last());
        assert(lines.drop_last().push(lines[last]) =~= lines);
        assert(raw_line(items.last()) == Ok::<(Seq<u8>, Seq<u8>), EventFault>(lines[last]));
    } else {
        assert(lines =~= Seq::empty());
    }
}

/// A line with a bad name, a bad value or fewer than two parts makes the headers invalid, with that
/// reason; so do headers that are no list.
pub proof fn bad_headers_are_refused(n: Seq<u8>, v: Seq<u8>, d: Entries)
    ensures
        name_of(n) is None ==> header_line(PyData::Tuple(seq![PyData::Bytes(n), PyData::Bytes(v)]))
            == Err::<(Seq<char>, Seq<u8>), EventFault>(
            EventFault::Invalid("invalid header name: "@ + "invalid HTTP header name"@),
        ),
        name_of(n) is Some && !valid_value(v) ==> header_line(
            PyData::Tuple(seq![PyData::Bytes(n), PyData::Bytes(v)]),
        ) == Err::<(Seq<char>, Seq<u8>), EventFault>(
            EventFault::Invalid("invalid header value: "@ + "failed to parse header value"@),
        ),
        header_line(PyData::Tuple(Seq::empty())) == Err::<(Seq<char>, Seq<u8>), EventFault>(
            EventFault::NoItem,
        ),
        name_of(n) is Some ==> header_line(PyData::Tuple(seq![PyData::Bytes(n)])) == Err::<
            (Seq<char>, Seq<u8>),
            EventFault,
        >(EventFault::NoItem),
        header_line(PyData::Nothing) == Err::<(Seq<char>, Seq<u8>), EventFault>(EventFault::WrongType),
        (lookup(d, "headers"@) matches Some(h) && !(h is List)) ==> event_headers(d) == Err::<
            Fields,
            EventFault,
        >(EventFault::WrongType),
        lookup(d, "headers"@) is None ==> event_headers(d) == Ok::<Fields, EventFault>(no_fields()),
{
}

/// A line that is refused makes the headers be refused for the same reason, whatever follows it.
pub proof fn the_first_bad_line_decides(before: Seq<PyData>, line: PyData, after: Seq<PyData>)
    requires
        header_fields(before) is Ok,
        header_line(line) is Err,
    ensures
        header_fields(before.push(line) + after) is Err,
        header_fields(before.push(line) + after)->Err_0 == header_line(line)->Err_0,
    decreases after.len(),
{
    let all = before.push(line) + after;
    if after.len() == 0 {
        assert(all =~= before.push(line));
        assert(all.drop_last() =~= before);
    } else {
        the_first_bad_line_decides(before, line, after.drop_last());
        assert(all.drop_last() =~= before.push(line) + after.drop_last());
    }
}

/// A response start is read with its status and its headers.
pub proof fn response_starts_are_read(d: Entries, status: int, items: Seq<PyData>)
    requires
        lookup(d, "type"@) == Some(PyData::Str("http.response.start"@)),
    ensures
        lookup(d, "status"@) == Some(PyData::Int(status)) && 0 <= status <= 65535 && lookup(
            d,
            "headers"@,
        ) == Some(PyData::List(items)) && header_fields(items) is Ok ==> event_of(d) == Ok::<
            EventData,
            EventFault,
        >((EventData::ResponseStart { status, headers: header_fields(items)->Ok_0 })),
        lookup(d, "status"@) == Some(PyData::Int(status)) && 0 <= status <= 65535 && lookup(
            d,
            "headers"@,
        ) is None ==> event_of(d) == Ok::<EventData, EventFault>(
            (EventData::ResponseStart { status, headers: Map::empty() }),
        ),
        lookup(d, "status"@) is None ==> event_of(d) == Err::<EventData, EventFault>(
            EventFault::MissingKey("status"@),
        ),
        lookup(d, "status"@) == Some(PyData::Int(status)) && !(0 <= status <= 65535) ==> event_of(d)
            == Err::<EventData, EventFault>(EventFault::OutOfRange),
        (lookup(d, "status"@) matches Some(v) && !(v is Int) && !(v is Bool)) ==> event_of(d)
            == Err::<EventData, EventFault>(EventFault::WrongType),
{
}

/// A body event is read with its bytes and the flag that says whether more follow; neither is
/// needed.
pub proof fn response_bodies_are_read(d: Entries, bytes: Seq<u8>, more: bool)
    requires
        lookup(d, "type"@) == Some(PyData::Str("http.response.body"@)),
    ensures
        lookup(d, "body"@) == Some(PyData::Bytes(bytes)) && lookup(d, "more_body"@) == Some(
            PyData::Bool(more),
        ) ==> event_of(d) == Ok::<EventData, EventFault>(
            (EventData::ResponseBody { body: bytes, more_body: more }),
        ),
        lookup(d, "body"@) == Some(PyData::Bytes(bytes)) && lookup(d, "more_body"@) is None
            ==> event_of(d) == Ok::<EventData, EventFault>(
            (EventData::ResponseBody { body: bytes, more_body: false }),
        ),
        lookup(d, "body"@) is None && lookup(d, "more_body"@) == Some(PyData::Bool(more))
            ==> event_of(d) == Ok::<EventData, EventFault>(
            (EventData::ResponseBody { body: Seq::empty(), more_body: more }),
        ),
        lookup(d, "body"@) is None && (lookup(d, "more_body"@) matches Some(v) && !(v is Bool))
            ==> event_of(d) == Err::<EventData, EventFault>(EventFault::WrongType),
        (lookup(d, "body"@) matches Some(PyData::Str(_))) ==> event_of(d) == Err::<
            EventData,
            EventFault,
        >(EventFault::WrongType),
{
    reveal_strlit("http.response.start");
    reveal_strlit("http.response.body");
    assert("http.response.body"@.len() != "http.response.start"@.len());
}

/// Distinct names of events.
proof fn event_names_differ()
    ensures
        "websocket.accept"@ != "http.response.start"@,
        "websocket.accept"@ != "http.response.body"@,
        "websocket.send"@ != "http.response.start"@,
        "websocket.send"@ != "http.response.body"@,
        "websocket.send"@ != "websocket.accept"@,
        "websocket.close"@ != "http.response.start"@,
        "websocket.close"@ != "http.response.body"@,
        "websocket.close"@ != "websocket.accept"@,
        "websocket.close"@ != "websocket.send"@,
{
    reveal_strlit("http.response.start");
    reveal_strlit("http.response.body");
    reveal_strlit("websocket.accept");
    reveal_strlit("websocket.send");
    reveal_strlit("websocket.close");
    assert("websocket.accept"@[10] == 'a');
    assert("websocket.send"@[10] == 's');
    assert("websocket.close"@[10] == 'c');
    assert("http.response.start"@[0] == 'h');
    assert("http.response.body"@[0] == 'h');
    assert("websocket.accept"@[0] == 'w' && "websocket.send"@[0] == 'w' && "websocket.close"@[0] == 'w');
}

/// WebSocket events are read with what they carry: an accept with its subprotocol and header lines,
/// a message with its text and its bytes, a close with its code, which is 1000 where none is given.
pub proof fn ws_events_are_read(
    d: Entries,
    name: Seq<char>,
    lines: Seq<(Seq<u8>, Seq<u8>)>,
    bytes: Seq<u8>,
    code: int,
)
    ensures
        lookup(d, "type"@) == Some(PyData::Str("websocket.accept"@)) && event_raw_headers(d, false)
            == Ok::<Seq<(Seq<u8>, Seq<u8>)>, EventFault>(lines) && lookup(d, "subprotocol"@) == Some(
            PyData::Str(name),
        ) ==> event_of(d) == Ok::<EventData, EventFault>(
            (EventData::WsAccept { subprotocol: Some(name), headers: lines }),
        ),
        lookup(d, "type"@) == Some(PyData::Str("websocket.accept"@)) && event_raw_headers(d, false)
            == Ok::<Seq<(Seq<u8>, Seq<u8>)>, EventFault>(lines) && lookup(d, "subprotocol"@) is None
            ==> event_of(d) == Ok::<EventData, EventFault>(
            (EventData::WsAccept { subprotocol: None, headers: lines }),
        ),
        lookup(d, "type"@) == Some(PyData::Str("websocket.send"@)) && lookup(d, "text"@) == Some(
            PyData::Str(name),
        ) && lookup(d, "bytes"@) is None ==> event_of(d) == Ok::<EventData, EventFault>(
            (EventData::WsSend { text: Some(name), bytes: None }),
        ),
        lookup(d, "type"@) == Some(PyData::Str("websocket.send"@)) && lookup(d, "text"@) is None
            && lookup(d, "bytes"@) == Some(PyData::Bytes(bytes)) ==> event_of(d) == Ok::<
            EventData,
            EventFault,
        >((EventData::WsSend { text: None, bytes: Some(bytes) })),
        lookup(d, "type"@) == Some(PyData::Str("websocket.send"@)) && lookup(d, "text"@) == Some(
            PyData::Str(name),
        ) && lookup(d, "bytes"@) == Some(PyData::Bytes(bytes)) ==> event_of(d) == Ok::<
            EventData,
            EventFault,
        >((EventData::WsSend { text: Some(name), bytes: Some(bytes) })),
        lookup(d, "type"@) == Some(PyData::Str("websocket.close"@)) && lookup(d, "code"@) == Some(
            PyData::Int(code),
        ) && 0 <= code <= 65535 ==> event_of(d) == Ok::<EventData, EventFault>(
            (EventData::WsClose { code }),
        ),
        lookup(d, "type"@) == Some(PyData::Str("websocket.close"@)) && lookup(d, "code"@) is None
            ==> event_of(d) == Ok::<EventData, EventFault>((EventData::WsClose { code: 1000 })),
        lookup(d, "type"@) == Some(PyData::Str("websocket.close"@)) && lookup(d, "code"@) == Some(
            PyData::Int(code),
        ) && !(0 <= code <= 65535) ==> event_of(d) == Err::<EventData, EventFault>(
            EventFault::OutOfRange,
        ),
{
    event_names_differ();
}

/// An event without a type, with a type that is no text and with an unknown type is refused, with
/// the reason.
pub proof fn unknown_events_are_refused(d: Entries, kind: Seq<char>)
    ensures
        lookup(d, "type"@) is None ==> event_of(d) == Err::<EventData, EventFault>(
            EventFault::MissingKey("type"@),
        ),
        (lookup(d, "type"@) matches Some(v) && !(v is Str)) ==> event_of(d) == Err::<
            EventData,
            EventFault,
        >(EventFault::WrongType),
        lookup(d, "type"@) == Some(PyData::Str(kind)) && kind != "http.response.start"@ && kind
            != "http.response.body"@ && kind != "websocket.accept"@ && kind != "websocket.send"@
            && kind != "websocket.close"@ ==> event_of(d) == Err::<EventData, EventFault>(
            EventFault::Invalid("unsupported ASGI event type: "@ + kind),
        ),
{
}

/// What an event shows is what it holds.
pub proof fn events_are_shown(
    status: u16,
    headers: HeaderMap<HeaderValue>,
    body: Vec<u8>,
    more_body: bool,
    text: String,
    lines: Vec<(Vec<u8>, Vec<u8>)>,
    i: int,
)
    ensures
        (AsgiEvent::ResponseStart { status, headers }).data() == (EventData::ResponseStart {
            status: status as int,
            headers: fields(headers),
        }),
        (AsgiEvent::ResponseBody { body, more_body }).data() == (EventData::ResponseBody {
            body: body@,
            more_body,
        }),
        (AsgiEvent::WsSend { text: Some(text), bytes: Some(body) }).data() == (EventData::WsSend {
            text: Some(text@),
            bytes: Some(body@),
        }),
        (AsgiEvent::WsSend { text: None, bytes: None }).data() == (EventData::WsSend {
            text: None,
            bytes: None,
        }),
        (AsgiEvent::WsClose { code: status }).data() == (EventData::WsClose { code: status as int }),
        (AsgiEvent::WsAccept { subprotocol: Some(text), headers: lines }).data() == (
        EventData::WsAccept { subprotocol: Some(text@), headers: raw_views(lines@) }),
        (AsgiEvent::WsAccept { subprotocol: None, headers: lines }).data() == (EventData::WsAccept {
            subprotocol: None,
            headers: raw_views(lines@),
        }),
        raw_views(lines@).len() == lines@.len(),
        0 <= i < lines@.len() ==> raw_views(lines@)[i] == (lines@[i].0@, lines@[i].1@),
        EventError::MissingKey(text).fault() == EventFault::MissingKey(text@),
        EventError::Invalid(text).fault() == EventFault::Invalid(text@),
        EventError::Protocol(text).fault() == EventFault::Protocol(text@),
        EventError::WrongType.fault() == EventFault::WrongType,
        EventError::OutOfRange.fault() == EventFault::OutOfRange,
        EventError::NoItem.fault() == EventFault::NoItem,
        EventError::TooManyHeaders.fault() == EventFault::TooManyHeaders,
{
}

/// A flag counts as one or zero where a number is read, and any other kind of value is refused.
pub proof fn flags_count_as_numbers(b: bool, n: int, max: int, text: Seq<char>)
    requires
        max >= 1,
    ensures
        number_data(PyData::Bool(b), max) == Ok::<int, EventFault>(
            if b {
                1
            } else {
                0
            },
        ),
        0 <= n <= max ==> number_data(PyData::Int(n), max) == Ok::<int, EventFault>(n),
        !(0 <= n <= max) ==> number_data(PyData::Int(n), max) == Err::<int, EventFault>(
            EventFault::OutOfRange,
        ),
        number_data(PyData::Str(text), max) == Err::<int, EventFault>(EventFault::WrongType),
        number_data(PyData::Nothing, max) == Err::<int, EventFault>(EventFault::WrongType),
{
}

/// A header line that is a text or bytes is taken apart into its characters or its numbers, which
/// are no byte strings, so it is refused; so are a dict and anything without parts.
pub proof fn odd_lines_are_refused(text: Seq<char>, bytes: Seq<u8>, d: Entries, n: int)
    ensures
        text.len() > 0 ==> header_line(PyData::Str(text)) == Err::<(Seq<char>, Seq<u8>), EventFault>(
            EventFault::WrongType,
        ) && raw_line(PyData::Str(text)) == Err::<(Seq<u8>, Seq<u8>), EventFault>(
            EventFault::WrongType,
        ),
        bytes.len() > 0 ==> header_line(PyData::Bytes(bytes)) == Err::<
            (Seq<char>, Seq<u8>),
            EventFault,
        >(EventFault::WrongType) && raw_line(PyData::Bytes(bytes)) == Err::<
            (Seq<u8>, Seq<u8>),
            EventFault,
        >(EventFault::WrongType),
        text.len() == 0 ==> header_line(PyData::Str(text)) == Err::<(Seq<char>, Seq<u8>), EventFault>(
            EventFault::NoItem,
        ),
        header_line(PyData::Dict(d)) == Err::<(Seq<char>, Seq<u8>), EventFault>(
            EventFault::MissingKey("0"@),
        ),
        raw_line(PyData::Dict(d)) == Err::<(Seq<u8>, Seq<u8>), EventFault>(
            EventFault::MissingKey("0"@),
        ),
        header_line(PyData::Int(n)) == Err::<(Seq<char>, Seq<u8>), EventFault>(EventFault::WrongType),
        raw_line(PyData::Int(n)) == Err::<(Seq<u8>, Seq<u8>), EventFault>(EventFault::WrongType),
{
}

/// Where lines must be tuples, one that is a list is refused. Headers that are empty in any form are
/// no headers, and headers that are neither a list nor a tuple are refused unless they are empty.
pub proof fn odd_header_lists_are_refused(
    d: Entries,
    before: Seq<PyData>,
    parts: Seq<PyData>,
    text: Seq<char>,
    n: int,
    tuples_only: bool,
)
    requires
        raw_lines(before, true) is Ok,
    ensures
        raw_lines(before.push(PyData::List(parts)), true) == Err::<
            Seq<(Seq<u8>, Seq<u8>)>,
            EventFault,
        >(EventFault::WrongType),
        lookup(d, "headers"@) == Some(PyData::Str(text)) && text.len() > 0 ==> event_raw_headers(
            d,
            tuples_only,
        ) == Err::<Seq<(Seq<u8>, Seq<u8>)>, EventFault>(EventFault::WrongType),
        lookup(d, "headers"@) == Some(PyData::Str(Seq::empty())) ==> event_raw_headers(
            d,
            tuples_only,
        ) == Ok::<Seq<(Seq<u8>, Seq<u8>)>, EventFault>(Seq::empty()),
        lookup(d, "headers"@) == Some(PyData::Bytes(Seq::empty())) ==> event_raw_headers(
            d,
            tuples_only,
        ) == Ok::<Seq<(Seq<u8>, Seq<u8>)>, EventFault>(Seq::empty()),
        lookup(d, "headers"@) == Some(PyData::Dict(Seq::empty())) ==> event_raw_headers(
            d,
            tuples_only,
        ) == Ok::<Seq<(Seq<u8>, Seq<u8>)>, EventFault>(Seq::empty()),
        lookup(d, "headers"@) == Some(PyData::Int(n)) ==> event_raw_headers(d, tuples_only) == Err::<
            Seq<(Seq<u8>, Seq<u8>)>,
            EventFault,
        >(EventFault::WrongType),
        lookup(d, "headers"@) == Some(PyData::Nothing) ==> event_raw_headers(d, tuples_only)
            == Err::<Seq<(Seq<u8>, Seq<u8>)>, EventFault>(EventFault::WrongType),
{
    assert(before.push(PyData::List(parts)).drop_last() =~= before);
}

/// Where a WebSocket event has something else than a text or bytes, it counts as nothing.
pub proof fn odd_messages_count_as_nothing(d: Entries, v: PyData)
    requires
        lookup(d, "type"@) == Some(PyData::Str("websocket.send"@)),
    ensures
        !(v is Str) && lookup(d, "text"@) == Some(v) && lookup(d, "bytes"@) is None ==> event_of(d)
            == Ok::<EventData, EventFault>((EventData::WsSend { text: None, bytes: None })),
        !(v is Bytes) && lookup(d, "bytes"@) == Some(v) && lookup(d, "text"@) is None ==> event_of(d)
            == Ok::<EventData, EventFault>((EventData::WsSend { text: None, bytes: None })),
{
    event_names_differ();
}

/// Headers are too many only if lines that are good so far fill up the room for names.
pub proof fn too_many_headers_fill_the_room(d: Entries, items: Seq<PyData>)
    ensures
        has_many_headers(d) ==> (lookup(d, "headers"@) matches Some(PyData::List(l)) && fills_up(l)),
        lookup(d, "headers"@) == Some(PyData::List(items)) && fills_up(items) ==> has_many_headers(d),
        fills_up(items) ==> exists|n: int|
            0 <= n < items.len() && (#[trigger] header_fields(items.take(n)) matches Ok(f)
                && !has_room(f)),
{
    if fills_up(items) {
        let n = choose|n: int|
            0 <= n < items.len() && is_full(#[trigger] header_fields(items.take(n)));
        assert(header_fields(items.take(n)) is Ok);
    }
}

} // verus!
