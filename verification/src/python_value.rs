//! Python objects as the library reads and builds them.

use vstd::prelude::*;

use crate::text::{same, views};

verus! {

/// A Python object, as far as the library looks into it.
#[derive(Debug)]
pub enum PyValue {
    /// `None`.
    Nothing,
    /// A `bool`.
    Bool(bool),
    /// An `int` within the range of `i64`.
    Int(i64),
    /// A `str`.
    Str(String),
    /// A `bytes` object.
    Bytes(Vec<u8>),
    /// A `list`.
    List(Vec<PyValue>),
    /// A `tuple`.
    Tuple(Vec<PyValue>),
    /// A `dict` with text keys, in insertion order.
    Dict(Vec<(String, PyValue)>),
    /// Any other object.
    Other,
}

/// A Python object as a mathematical value.
pub enum PyData {
    /// `None`.
    Nothing,
    /// A `bool`.
    Bool(bool),
    /// An `int`.
    Int(int),
    /// A `str`.
    Str(Seq<char>),
    /// A `bytes` object.
    Bytes(Seq<u8>),
    /// A `list`.
    List(Seq<PyData>),
    /// A `tuple`.
    Tuple(Seq<PyData>),
    /// A `dict`, in insertion order.
    Dict(Seq<(Seq<char>, PyData)>),
    /// Any other object.
    Other,
}

impl PyValue {
    /// The mathematical value.
    pub open spec fn data(self) -> PyData
        decreases self,
    {
        match self {
            PyValue::Nothing => PyData::Nothing,
            PyValue::Bool(b) => PyData::Bool(b),
            PyValue::Int(i) => PyData::Int(i as int),
            PyValue::Str(s) => PyData::Str(s@),
            PyValue::Bytes(b) => PyData::Bytes(b@),
            PyValue::List(v) => PyData::List(
                Seq::new(v@.len(), |i: int| if 0 <= i < v@.len() { v@[i].data() } else { PyData::Other }),
            ),
            PyValue::Tuple(v) => PyData::Tuple(
                Seq::new(v@.len(), |i: int| if 0 <= i < v@.len() { v@[i].data() } else { PyData::Other }),
            ),
            PyValue::Dict(v) => PyData::Dict(
                Seq::new(
                    v@.len(),
                    |i: int|
                        if 0 <= i < v@.len() {
                            (v@[i].0@, v@[i].1.data())
                        } else {
                            (Seq::<char>::empty(), PyData::Other)
                        },
                ),
            ),
            PyValue::Other => PyData::Other,
        }
    }
}

/// The items of a list or tuple as mathematical values.
pub open spec fn items_data(v: Seq<PyValue>) -> Seq<PyData> {
    Seq::new(v.len(), |i: int| v[i].data())
}

/// The entries of a dict as mathematical values.
pub open spec fn dict_data(v: Seq<(String, PyValue)>) -> Seq<(Seq<char>, PyData)> {
    Seq::new(v.len(), |i: int| (v[i].0@, v[i].1.data()))
}

/// A list object holds its items.
pub proof fn list_holds_items(v: Vec<PyValue>)
    ensures
        PyValue::List(v).data() == PyData::List(items_data(v@)),
        PyValue::Tuple(v).data() == PyData::Tuple(items_data(v@)),
{
    assert(PyValue::List(v).data()->List_0 =~= items_data(v@));
    assert(PyValue::Tuple(v).data()->Tuple_0 =~= items_data(v@));
}

/// A dict object holds its entries.
pub proof fn dict_holds_entries(v: Vec<(String, PyValue)>)
    ensures
        PyValue::Dict(v).data() == PyData::Dict(dict_data(v@)),
{
    assert(PyValue::Dict(v).data()->Dict_0 =~= dict_data(v@));
}

/// The value of the first entry under `key`.
pub open spec fn lookup(d: Seq<(Seq<char>, PyData)>, key: Seq<char>) -> Option<PyData>
    decreases d.len(),
{
    if d.len() == 0 {
        None
    } else if d[0].0 == key {
        Some(d[0].1)
    } else {
        lookup(d.drop_first(), key)
    }
}

/// Looks up `key` in a dict.
pub fn get<'a>(entries: &'a [(String, PyValue)], key: &str) -> (out: Option<&'a PyValue>)
    ensures
        match out {
            Some(v) => lookup(dict_data(entries@), key@) == Some(v.data()),
            None => lookup(dict_data(entries@), key@) is None,
        },
{
    let ghost d = dict_data(entries@);
    assert(d.skip(0) =~= d);
    for i in 0..entries.len()
        invariant
            d == dict_data(entries@),
            lookup(d, key@) == lookup(d.skip(i as int), key@),
    {
        assert(d.skip(i as int).drop_first() =~= d.skip(i + 1));
        if same(&entries[i].0, key) {
            return Some(&entries[i].1);
        }
    }
    None
}

/// What went wrong when a Python object was read.
#[derive(Debug)]
pub enum ReadError {
    /// A required key is missing.
    MissingKey(String),
    /// An object has another type than the one read.
    WrongType,
}

/// What went wrong, as a mathematical value.
pub enum ReadFault {
    /// A required key is missing.
    MissingKey(Seq<char>),
    /// An object has another type than the one read.
    WrongType,
}

impl ReadError {
    /// The fault.
    pub open spec fn fault(self) -> ReadFault {
        match self {
            ReadError::MissingKey(k) => ReadFault::MissingKey(k@),
            ReadError::WrongType => ReadFault::WrongType,
        }
    }
}

/// The text under `key`, which must be there.
pub open spec fn text_at(d: Seq<(Seq<char>, PyData)>, key: Seq<char>) -> Result<
    Seq<char>,
    ReadFault,
> {
    match lookup(d, key) {
        None => Err(ReadFault::MissingKey(key)),
        Some(PyData::Str(s)) => Ok(s),
        Some(_) => Err(ReadFault::WrongType),
    }
}

/// Reads the text under `key`.
pub fn extract_string(entries: &[(String, PyValue)], key: &str) -> (out: Result<String, ReadError>)
    ensures
        match out {
            Ok(s) => text_at(dict_data(entries@), key@) == Ok::<Seq<char>, ReadFault>(s@),
            Err(e) => text_at(dict_data(entries@), key@) == Err::<Seq<char>, ReadFault>(e.fault()),
        },
{
    match get(entries, key) {
        None => Err(ReadError::MissingKey(key.to_owned())),
        Some(PyValue::Str(s)) => Ok(s.clone()),
        Some(_) => Err(ReadError::WrongType),
    }
}

/// The flag under `key`, or `default` when the key is absent; nothing when it is no flag.
pub open spec fn flag_at(
    d: Seq<(Seq<char>, PyData)>,
    key: Seq<char>,
    default: bool,
) -> Option<bool> {
    match lookup(d, key) {
        None => Some(default),
        Some(PyData::Bool(b)) => Some(b),
        Some(_) => None,
    }
}

/// The flag under `key`, or `default` when there is none.
pub open spec fn flag_or(d: Seq<(Seq<char>, PyData)>, key: Seq<char>, default: bool) -> bool {
    match flag_at(d, key, default) {
        Some(b) => b,
        None => default,
    }
}

/// Reads the flag under `key`, with `default` for an absent key.
pub fn extract_bool(entries: &[(String, PyValue)], key: &str, default: bool) -> (out: Result<
    bool,
    ReadError,
>)
    ensures
        match out {
            Ok(b) => flag_at(dict_data(entries@), key@, default) == Some(b),
            Err(e) => flag_at(dict_data(entries@), key@, default) is None && e is WrongType,
        },
{
    match get(entries, key) {
        None => Ok(default),
        Some(PyValue::Bool(b)) => Ok(*b),
        Some(_) => Err(ReadError::WrongType),
    }
}

/// Reads the flag under `key`, with `default` in every other case.
pub fn extract_bool_or(entries: &[(String, PyValue)], key: &str, default: bool) -> (out: bool)
    ensures
        out == flag_or(dict_data(entries@), key@, default),
{
    match extract_bool(entries, key, default) {
        Ok(b) => b,
        Err(_) => default,
    }
}

/// The texts of a list, if all its items are texts.
pub open spec fn all_texts(items: Seq<PyData>) -> Option<Seq<Seq<char>>> {
    if forall|i: int| 0 <= i < items.len() ==> #[trigger] items[i] is Str {
        Some(Seq::new(items.len(), |i: int| items[i]->Str_0))
    } else {
        None
    }
}

/// The list of texts under `key`; an absent key is an empty list.
pub open spec fn texts_at(d: Seq<(Seq<char>, PyData)>, key: Seq<char>) -> Option<Seq<Seq<char>>> {
    match lookup(d, key) {
        None => Some(Seq::empty()),
        Some(PyData::List(items)) => all_texts(items),
        Some(_) => None,
    }
}

/// Reads the list of texts under `key`.
pub fn extract_string_list(entries: &[(String, PyValue)], key: &str) -> (out: Result<
    Vec<String>,
    ReadError,
>)
    ensures
        match out {
            Ok(v) => texts_at(dict_data(entries@), key@) == Some(views(v@)),
            Err(e) => texts_at(dict_data(entries@), key@) is None && e is WrongType,
        },
{
    match get(entries, key) {
        None => {
            let v: Vec<String> = Vec::new();
            assert(views(v@) =~= Seq::<Seq<char>>::empty());
            Ok(v)
        },
        Some(PyValue::List(items)) => {
            proof {
                list_holds_items(*items);
            }
            let ghost data = items_data(items@);
            let mut out: Vec<String> = Vec::new();
            for i in 0..items.len()
                invariant
                    data == items_data(items@),
                    lookup(dict_data(entries@), key@) == Some(PyData::List(data)),
                    out@.len() == i,
                    forall|j: int|
                        0 <= j < i ==> #[trigger] data[j] is Str && data[j]->Str_0 == out@[j]@,
            {
                match &items[i] {
                    PyValue::Str(s) => {
                        assert(data[i as int] == PyData::Str(s@));
                        out.push(s.clone());
                    },
                    _ => {
                        assert(!(data[i as int] is Str));
                        return Err(ReadError::WrongType);
                    },
                }
            }
            assert(views(out@) =~= Seq::new(data.len(), |i: int| data[i]->Str_0));
            Ok(out)
        },
        Some(_) => Err(ReadError::WrongType),
    }
}

/// A dict after `key` was set to `value`: in place if the key is there, else at the end.
pub open spec fn with_entry(d: Seq<(Seq<char>, PyData)>, key: Seq<char>, value: PyData) -> Seq<
    (Seq<char>, PyData),
>
    decreases d.len(),
{
    if d.len() == 0 {
        seq![(key, value)]
    } else if d[0].0 == key {
        seq![(key, value)] + d.drop_first()
    } else {
        seq![d[0]] + with_entry(d.drop_first(), key, value)
    }
}

/// Setting a key whose first entry stands at `i` replaces that entry.
proof fn entry_is_replaced(d: Seq<(Seq<char>, PyData)>, key: Seq<char>, value: PyData, i: int)
    requires
        0 <= i < d.len(),
        d[i].0 == key,
        forall|j: int| 0 <= j < i ==> (#[trigger] d[j]).0 != key,
    ensures
        with_entry(d, key, value) == d.update(i, (key, value)),
    decreases d.len(),
{
    if d[0].0 == key {
        assert(i == 0);
        assert(with_entry(d, key, value) =~= d.update(i, (key, value)));
    } else {
        let rest = d.drop_first();
        assert forall|j: int| 0 <= j < i - 1 implies (#[trigger] rest[j]).0 != key by {
            assert(rest[j] == d[j + 1]);
        }
        entry_is_replaced(rest, key, value, i - 1);
        assert(with_entry(d, key, value) =~= d.update(i, (key, value)));
    }
}

/// Setting a key that is not there adds an entry at the end.
proof fn entry_is_added(d: Seq<(Seq<char>, PyData)>, key: Seq<char>, value: PyData)
    requires
        forall|j: int| 0 <= j < d.len() ==> (#[trigger] d[j]).0 != key,
    ensures
        with_entry(d, key, value) == d.push((key, value)),
    decreases d.len(),
{
    if d.len() > 0 {
        let rest = d.drop_first();
        assert forall|j: int| 0 <= j < rest.len() implies (#[trigger] rest[j]).0 != key by {
            assert(rest[j] == d[j + 1]);
        }
        entry_is_added(rest, key, value);
        assert(d[0].0 != key);
    }
    assert(with_entry(d, key, value) =~= d.push((key, value)));
}

/// Reading a key gives what was set last, and other keys are not touched.
pub proof fn set_then_get(d: Seq<(Seq<char>, PyData)>, key: Seq<char>, value: PyData)
    ensures
        lookup(with_entry(d, key, value), key) == Some(value),
        forall|other: Seq<char>|
            other != key ==> #[trigger] lookup(with_entry(d, key, value), other) == lookup(
                d,
                other,
            ),
    decreases d.len(),
{
    reveal_with_fuel(lookup, 2);
    let w = with_entry(d, key, value);
    if d.len() == 0 {
        assert(w.drop_first() =~= Seq::empty());
    } else if d[0].0 == key {
        assert(w.drop_first() =~= d.drop_first());
    } else {
        assert(w.drop_first() =~= with_entry(d.drop_first(), key, value));
        set_then_get(d.drop_first(), key, value);
        assert forall|other: Seq<char>| other != key implies #[trigger] lookup(w, other) == lookup(
            d,
            other,
        ) by {
            assert(lookup(w.drop_first(), other) == lookup(d.drop_first(), other));
        }
    }
}

/// Sets `key` in a dict.
pub fn set_item(entries: &mut Vec<(String, PyValue)>, key: &str, value: PyValue)
    ensures
        dict_data(final(entries)@) == with_entry(dict_data(old(entries)@), key@, value.data()),
{
    let ghost d = dict_data(entries@);
    let n: usize = entries.len();
    for i in 0..n
        invariant
            n == entries@.len(),
            entries@ == old(entries)@,
            d == dict_data(entries@),
            forall|j: int| 0 <= j < i ==> (#[trigger] d[j]).0 != key@,
    {
        if same(&entries[i].0, key) {
            let ghost v = value.data();
            entries.set(i, (key.to_owned(), value));
            proof {
                entry_is_replaced(d, key@, v, i as int);
                assert(dict_data(entries@) =~= d.update(i as int, (key@, v)));
            }
            return;
        }
        assert(d[i as int].0 != key@);
    }
    let ghost v = value.data();
    entries.push((key.to_owned(), value));
    proof {
        entry_is_added(d, key@, v);
        assert(dict_data(entries@) =~= d.push((key@, v)));
    }
}

/// A copy of bytes.
fn copy_of_bytes(b: &Vec<u8>) -> (out: Vec<u8>)
    ensures
        out@ == b@,
{
    vstd::slice::slice_to_vec(b.as_slice())
}

/// A copy of an object.
pub fn copy_value(v: &PyValue) -> (out: PyValue)
    ensures
        out.data() == v.data(),
    decreases v,
{
    match v {
        PyValue::Nothing => PyValue::Nothing,
        PyValue::Bool(b) => PyValue::Bool(*b),
        PyValue::Int(i) => PyValue::Int(*i),
        PyValue::Str(s) => PyValue::Str(s.clone()),
        PyValue::Bytes(b) => PyValue::Bytes(copy_of_bytes(b)),
        PyValue::List(items) => {
            let c = copy_items(items);
            proof {
                list_holds_items(*items);
                list_holds_items(c);
            }
            PyValue::List(c)
        },
        PyValue::Tuple(items) => {
            let c = copy_items(items);
            proof {
                list_holds_items(*items);
                list_holds_items(c);
            }
            PyValue::Tuple(c)
        },
        PyValue::Dict(entries) => {
            let c = copy_entries(entries);
            proof {
                dict_holds_entries(*entries);
                dict_holds_entries(c);
            }
            PyValue::Dict(c)
        },
        PyValue::Other => PyValue::Other,
    }
}

/// A copy of a list of objects.
fn copy_items(items: &Vec<PyValue>) -> (out: Vec<PyValue>)
    ensures
        items_data(out@) == items_data(items@),
    decreases items,
{
    let mut out: Vec<PyValue> = Vec::new();
    let mut i: usize = 0;
    while i < items.len()
        invariant
            i <= items@.len(),
            out@.len() == i,
            forall|j: int| 0 <= j < i ==> (#[trigger] out@[j]).data() == items@[j].data(),
        decreases items@.len() - i,
    {
        out.push(copy_value(&items[i]));
        i = i + 1;
    }
    assert(items_data(out@) =~= items_data(items@));
    out
}

/// A copy of the entries of a dict.
pub fn copy_entries(entries: &Vec<(String, PyValue)>) -> (out: Vec<(String, PyValue)>)
    ensures
        dict_data(out@) == dict_data(entries@),
    decreases entries,
{
    let mut out: Vec<(String, PyValue)> = Vec::new();
    let mut i: usize = 0;
    while i < entries.len()
        invariant
            i <= entries@.len(),
            out@.len() == i,
            forall|j: int|
                0 <= j < i ==> (#[trigger] out@[j]).0@ == entries@[j].0@ && out@[j].1.data()
                    == entries@[j].1.data(),
        decreases entries@.len() - i,
    {
        out.push((entries[i].0.clone(), copy_value(&entries[i].1)));
        i = i + 1;
    }
    assert(dict_data(out@) =~= dict_data(entries@));
    out
}

/// Looking a key up finds the value of its first entry.
pub proof fn lookup_finds_the_first(d: Seq<(Seq<char>, PyData)>, key: Seq<char>, i: int)
    requires
        0 <= i < d.len(),
        d[i].0 == key,
        forall|j: int| 0 <= j < i ==> (#[trigger] d[j]).0 != key,
    ensures
        lookup(d, key) == Some(d[i].1),
    decreases d.len(),
{
    if i > 0 {
        let rest = d.drop_first();
        assert(d[0].0 != key);
        assert forall|j: int| 0 <= j < i - 1 implies (#[trigger] rest[j]).0 != key by {
            assert(rest[j] == d[j + 1]);
        }
        lookup_finds_the_first(rest, key, i - 1);
    }
}

/// Looking up a key that no entry has finds nothing.
pub proof fn lookup_misses_absent_keys(d: Seq<(Seq<char>, PyData)>, key: Seq<char>)
    requires
        forall|j: int| 0 <= j < d.len() ==> (#[trigger] d[j]).0 != key,
    ensures
        lookup(d, key) is None,
    decreases d.len(),
{
    if d.len() > 0 {
        let rest = d.drop_first();
        assert forall|j: int| 0 <= j < rest.len() implies (#[trigger] rest[j]).0 != key by {
            assert(rest[j] == d[j + 1]);
        }
        assert(d[0].0 != key);
        lookup_misses_absent_keys(rest, key);
    }
}

/// A flag that is there is read as it is, an absent one is the default, and anything else is no
/// flag; where a fault does not matter, it is the default too.
pub proof fn flags_are_read(d: Seq<(Seq<char>, PyData)>, key: Seq<char>, default: bool)
    ensures
        match lookup(d, key) {
            None => flag_at(d, key, default) == Some(default) && flag_or(d, key, default) == default,
            Some(v) => match v {
                PyData::Bool(b) => flag_at(d, key, default) == Some(b) && flag_or(d, key, default)
                    == b,
                _ => flag_at(d, key, default) is None && flag_or(d, key, default) == default,
            },
        },
{
}

/// A text that must be there is read as it is; an absent one is named in the fault.
pub proof fn texts_are_read(d: Seq<(Seq<char>, PyData)>, key: Seq<char>)
    ensures
        match lookup(d, key) {
            None => text_at(d, key) == Err::<Seq<char>, ReadFault>(ReadFault::MissingKey(key)),
            Some(v) => match v {
                PyData::Str(s) => text_at(d, key) == Ok::<Seq<char>, ReadFault>(s),
                _ => text_at(d, key) == Err::<Seq<char>, ReadFault>(ReadFault::WrongType),
            },
        },
{
}

/// A list of texts is read item by item; with any other item it is no list of texts.
pub proof fn text_lists_are_read(
    d: Seq<(Seq<char>, PyData)>,
    key: Seq<char>,
    texts: Seq<Seq<char>>,
    items: Seq<PyData>,
)
    requires
        lookup(d, key) == Some(PyData::List(items)),
    ensures
        (items.len() == texts.len() && forall|i: int|
            0 <= i < items.len() ==> #[trigger] items[i] == PyData::Str(texts[i])) ==> texts_at(
            d,
            key,
        ) == Some(texts),
        (exists|i: int| 0 <= i < items.len() && !(#[trigger] items[i] is Str)) ==> texts_at(d, key)
            is None,
{
    if items.len() == texts.len() && forall|i: int|
        0 <= i < items.len() ==> #[trigger] items[i] == PyData::Str(texts[i]) {
        assert(Seq::new(items.len(), |i: int| items[i]->Str_0) =~= texts);
    }
}

/// A value is shown as what it holds.
pub proof fn values_are_shown(v: PyValue)
    ensures
        match v {
            PyValue::Nothing => v.data() == PyData::Nothing,
            PyValue::Bool(b) => v.data() == PyData::Bool(b),
            PyValue::Int(i) => v.data() == PyData::Int(i as int),
            PyValue::Str(s) => v.data() == PyData::Str(s@),
            PyValue::Bytes(b) => v.data() == PyData::Bytes(b@),
            PyValue::List(l) => v.data() matches PyData::List(d) && d.len() == l@.len()
                && forall|i: int| 0 <= i < d.len() ==> #[trigger] d[i] == l@[i].data(),
            PyValue::Tuple(l) => v.data() matches PyData::Tuple(d) && d.len() == l@.len()
                && forall|i: int| 0 <= i < d.len() ==> #[trigger] d[i] == l@[i].data(),
            PyValue::Dict(l) => v.data() matches PyData::Dict(d) && d.len() == l@.len()
                && forall|i: int|
                0 <= i < d.len() ==> (#[trigger] d[i]).0 == l@[i].0@ && d[i].1 == l@[i].1.data(),
            PyValue::Other => v.data() == PyData::Other,
        },
{
}

} // verus!
