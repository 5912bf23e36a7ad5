//! TOML values as the library reads them.

use vstd::prelude::*;

use crate::text::same;

verus! {

/// A value of the `toml` crate.
#[verifier::external_type_specification]
#[verifier::external_body]
pub struct ExTomlValue(toml::Value);

/// A TOML value, as far as the library looks into it.
#[derive(Debug)]
pub enum TomlValue {
    /// A string.
    Str(String),
    /// An integer.
    Int(i64),
    /// A boolean.
    Bool(bool),
    /// An array.
    Array(Vec<TomlValue>),
    /// A table, in the order in which it is walked.
    Table(Vec<(String, TomlValue)>),
    /// A floating-point number or a date.
    Other,
}

/// A TOML value as a mathematical value.
pub enum TomlData {
    /// A string.
    Str(Seq<char>),
    /// An integer.
    Int(i64),
    /// A boolean.
    Bool(bool),
    /// An array.
    Array(Seq<TomlData>),
    /// A table.
    Table(Seq<(Seq<char>, TomlData)>),
    /// A floating-point number or a date.
    Other,
}

impl TomlValue {
    /// The mathematical value.
    pub open spec fn data(self) -> TomlData
        decreases self,
    {
        match self {
            TomlValue::Str(s) => TomlData::Str(s@),
            TomlValue::Int(i) => TomlData::Int(i),
            TomlValue::Bool(b) => TomlData::Bool(b),
            TomlValue::Array(v) => TomlData::Array(
                Seq::new(v@.len(), |i: int| if 0 <= i < v@.len() { v@[i].data() } else { TomlData::Other }),
            ),
            TomlValue::Table(v) => TomlData::Table(
                Seq::new(
                    v@.len(),
                    |i: int|
                        if 0 <= i < v@.len() {
                            (v@[i].0@, v@[i].1.data())
                        } else {
                            (Seq::<char>::empty(), TomlData::Other)
                        },
                ),
            ),
            TomlValue::Other => TomlData::Other,
        }
    }
}

/// The items of an array as mathematical values.
pub open spec fn array_data(v: Seq<TomlValue>) -> Seq<TomlData> {
    Seq::new(v.len(), |i: int| v[i].data())
}

/// The entries of a table as mathematical values.
pub open spec fn table_data(v: Seq<(String, TomlValue)>) -> Seq<(Seq<char>, TomlData)> {
    Seq::new(v.len(), |i: int| (v[i].0@, v[i].1.data()))
}

/// An array holds its items.
pub proof fn array_holds_items(v: Vec<TomlValue>)
    ensures
        TomlValue::Array(v).data() == TomlData::Array(array_data(v@)),
{
    assert(TomlValue::Array(v).data()->Array_0 =~= array_data(v@));
}

/// A table holds its entries.
pub proof fn table_holds_entries(v: Vec<(String, TomlValue)>)
    ensures
        TomlValue::Table(v).data() == TomlData::Table(table_data(v@)),
{
    assert(TomlValue::Table(v).data()->Table_0 =~= table_data(v@));
}

/// What a value of the `toml` crate holds.
pub uninterp spec fn toml_content(v: toml::Value) -> TomlData;

/// Reads a `toml::Value`: every string, integer, boolean, array and table becomes its counterpart,
/// tables in the order in which `toml::map::Map` walks them; numbers with a fraction and dates keep
/// no content.
#[verifier::external_body]
pub(crate) fn content(v: &toml::Value) -> (out: TomlValue)
    ensures
        out.data() == toml_content(*v),
{
    match v {
        toml::Value::String(s) => TomlValue::Str(s.clone()),
        toml::Value::Integer(i) => TomlValue::Int(*i),
        toml::Value::Boolean(b) => TomlValue::Bool(*b),
        toml::Value::Array(a) => TomlValue::Array(a.iter().map(content).collect()),
        toml::Value::Table(t) => {
            TomlValue::Table(t.iter().map(|(k, v)| (k.clone(), content(v))).collect())
        },
        toml::Value::Float(_) => TomlValue::Other,
        toml::Value::Datetime(_) => TomlValue::Other,
    }
}

/// The value of the first entry of a table under `key`.
pub open spec fn entry(t: Seq<(Seq<char>, TomlData)>, key: Seq<char>) -> Option<TomlData>
    decreases t.len(),
{
    if t.len() == 0 {
        None
    } else if t[0].0 == key {
        Some(t[0].1)
    } else {
        entry(t.skip(1), key)
    }
}

/// The value under `key`; only tables have any.
pub open spec fn member(v: TomlData, key: Seq<char>) -> Option<TomlData> {
    match v {
        TomlData::Table(t) => entry(t, key),
        _ => None,
    }
}

/// The mathematical value of an optional reference.
pub open spec fn opt_data(v: Option<&TomlValue>) -> Option<TomlData> {
    match v {
        Some(x) => Some(x.data()),
        None => None,
    }
}

/// Finds an entry of a table.
pub fn entry_of<'a>(t: &'a Vec<(String, TomlValue)>, key: &str) -> (out: Option<&'a TomlValue>)
    ensures
        opt_data(out) == entry(table_data(t@), key@),
{
    let ghost all = table_data(t@);
    assert(all.skip(0) =~= all);
    for i in 0..t.len()
        invariant
            all == table_data(t@),
            entry(all, key@) == entry(all.skip(i as int), key@),
    {
        assert(all.skip(i as int).skip(1) =~= all.skip(i + 1));
        if same(&t[i].0, key) {
            return Some(&t[i].1);
        }
    }
    assert(all.skip(t@.len() as int).len() == 0);
    None
}

/// The value under `key`.
pub fn member_of<'a>(v: &'a TomlValue, key: &str) -> (out: Option<&'a TomlValue>)
    ensures
        opt_data(out) == member(v.data(), key@),
{
    match v {
        TomlValue::Table(t) => {
            proof {
                table_holds_entries(*t);
            }
            entry_of(t, key)
        },
        _ => None,
    }
}

/// The text under `key` of a table, if it is a string.
pub open spec fn text_in(t: Seq<(Seq<char>, TomlData)>, key: Seq<char>) -> Option<Seq<char>> {
    match entry(t, key) {
        Some(TomlData::Str(s)) => Some(s),
        _ => None,
    }
}

/// The view of an optional text.
pub open spec fn opt_text(s: Option<String>) -> Option<Seq<char>> {
    match s {
        Some(x) => Some(x@),
        None => None,
    }
}

/// The text under `key` of a table, if it is a string.
pub fn text_of_entry(t: &Vec<(String, TomlValue)>, key: &str) -> (out: Option<String>)
    ensures
        opt_text(out) == text_in(table_data(t@), key@),
{
    match entry_of(t, key) {
        Some(TomlValue::Str(s)) => Some(s.clone()),
        _ => None,
    }
}

/// The boolean under `key` of a table, if it is one.
pub open spec fn flag_in(t: Seq<(Seq<char>, TomlData)>, key: Seq<char>) -> Option<bool> {
    match entry(t, key) {
        Some(TomlData::Bool(b)) => Some(b),
        _ => None,
    }
}

/// The boolean under `key` of a table, if it is one.
pub fn flag_of_entry(t: &Vec<(String, TomlValue)>, key: &str) -> (out: Option<bool>)
    ensures
        out == flag_in(table_data(t@), key@),
{
    match entry_of(t, key) {
        Some(TomlValue::Bool(b)) => Some(*b),
        _ => None,
    }
}

/// The strings among the items of an array, in order.
pub open spec fn strings_in(a: Seq<TomlData>) -> Seq<Seq<char>>
    decreases a.len(),
{
    if a.len() == 0 {
        Seq::empty()
    } else {
        match a.last() {
            TomlData::Str(s) => strings_in(a.drop_last()).push(s),
            _ => strings_in(a.drop_last()),
        }
    }
}

/// The strings of the array under `key` of a table, if it is an array.
pub open spec fn texts_in(t: Seq<(Seq<char>, TomlData)>, key: Seq<char>) -> Option<Seq<Seq<char>>> {
    match entry(t, key) {
        Some(TomlData::Array(a)) => Some(strings_in(a)),
        _ => None,
    }
}

/// The views of an optional list of texts.
pub open spec fn opt_texts(v: Option<Vec<String>>) -> Option<Seq<Seq<char>>> {
    match v {
        Some(x) => Some(crate::text::views(x@)),
        None => None,
    }
}

/// The strings of the array under `key` of a table, if it is an array.
pub fn texts_of_entry(t: &Vec<(String, TomlValue)>, key: &str) -> (out: Option<Vec<String>>)
    ensures
        opt_texts(out) == texts_in(table_data(t@), key@),
{
    match entry_of(t, key) {
        Some(TomlValue::Array(a)) => {
            let ghost all = array_data(a@);
            let mut out: Vec<String> = Vec::new();
            proof {
                array_holds_items(*a);
            }
            assert(crate::text::views(out@) =~= strings_in(all.take(0)));
            for i in 0..a.len()
                invariant
                    all == array_data(a@),
                    crate::text::views(out@) == strings_in(all.take(i as int)),
            {
                assert(all.take(i + 1).drop_last() =~= all.take(i as int));
                if let TomlValue::Str(s) = &a[i] {
                    let ghost before = out@;
                    out.push(s.clone());
                    assert(crate::text::views(out@) =~= crate::text::views(before).push(s@));
                }
            }
            assert(all.take(a@.len() as int) =~= all);
            Some(out)
        },
        _ => None,
    }
}

/// The first entry with a key is found, and what is no table has no members.
pub proof fn the_first_entry_is_found(
    t: Seq<(Seq<char>, TomlData)>,
    key: Seq<char>,
    v: TomlData,
    other: Seq<char>,
    text: Seq<char>,
)
    ensures
        entry(seq![(key, v)] + t, key) == Some(v),
        other != key ==> entry(seq![(key, v)] + t, other) == entry(t, other),
        entry(Seq::empty(), key) is None,
        member(TomlData::Table(t), key) == entry(t, key),
        member(TomlData::Str(text), key) is None,
        member(TomlData::Other, key) is None,
{
    assert((seq![(key, v)] + t).skip(1) =~= t);
}

/// Texts, flags and lists are read where there are such; anything else counts as absent, and in a
/// list the texts are kept in their order.
pub proof fn entries_are_read_by_type(
    t: Seq<(Seq<char>, TomlData)>,
    key: Seq<char>,
    text: Seq<char>,
    flag: bool,
    items: Seq<TomlData>,
    other: TomlData,
)
    ensures
        entry(t, key) == Some(TomlData::Str(text)) ==> text_in(t, key) == Some(text) && flag_in(
            t,
            key,
        ) is None && texts_in(t, key) is None,
        entry(t, key) == Some(TomlData::Bool(flag)) ==> flag_in(t, key) == Some(flag) && text_in(
            t,
            key,
        ) is None && texts_in(t, key) is None,
        entry(t, key) == Some(TomlData::Array(items)) ==> texts_in(t, key) == Some(strings_in(items))
            && text_in(t, key) is None && flag_in(t, key) is None,
        entry(t, key) is None ==> text_in(t, key) is None && flag_in(t, key) is None && texts_in(
            t,
            key,
        ) is None,
        strings_in(items.push(TomlData::Str(text))) == strings_in(items).push(text),
        !(other is Str) ==> strings_in(items.push(other)) == strings_in(items),
        strings_in(Seq::empty()).len() == 0,
{
    assert(items.push(TomlData::Str(text)).drop_last() =~= items);
    assert(items.push(other).drop_last() =~= items);
}

/// Values are shown as what they are.
pub proof fn toml_values_are_shown(
    s: String,
    n: i64,
    b: bool,
    v: Seq<TomlValue>,
    t: Seq<(String, TomlValue)>,
    l: Vec<String>,
    i: int,
)
    ensures
        TomlValue::Str(s).data() == TomlData::Str(s@),
        TomlValue::Int(n).data() == TomlData::Int(n),
        TomlValue::Bool(b).data() == TomlData::Bool(b),
        TomlValue::Other.data() == TomlData::Other,
        array_data(v).len() == v.len(),
        0 <= i < v.len() ==> array_data(v)[i] == v[i].data(),
        table_data(t).len() == t.len(),
        0 <= i < t.len() ==> table_data(t)[i] == (t[i].0@, t[i].1.data()),
        opt_text(Some(s)) == Some(s@),
        opt_text(None) is None,
        opt_texts(Some(l)) == Some(crate::text::views(l@)),
        opt_texts(None) is None,
        opt_data(Some(&TomlValue::Str(s))) == Some(TomlData::Str(s@)),
        opt_data(None) is None,
{
}

} // verus!
