//! Values kept under names: an insertion-ordered table without duplicate names.

use vstd::prelude::*;

use crate::text::same;

verus! {

/// A value with a mathematical value that copies keep.
pub trait Part: Sized {
    /// The mathematical value.
    type Data;

    /// The mathematical value.
    spec fn data(&self) -> Self::Data;

    /// A copy.
    fn copy(&self) -> (out: Self)
        ensures
            out.data() == self.data(),
    ;
}

/// A table of named values.
#[derive(Debug)]
pub struct Named<T: Part> {
    /// The names and values.
    pub entries: Vec<(String, T)>,
}

/// The map that a list of named values makes; a later value of a name counts.
pub open spec fn map_of<T: Part>(entries: Seq<(String, T)>) -> Map<Seq<char>, T::Data>
    decreases entries.len(),
{
    if entries.len() == 0 {
        Map::empty()
    } else {
        map_of(entries.drop_last()).insert(entries.last().0@, entries.last().1.data())
    }
}

/// No name occurs twice.
pub open spec fn distinct<T: Part>(entries: Seq<(String, T)>) -> bool {
    forall|i: int, j: int|
        0 <= i < j < entries.len() ==> (#[trigger] entries[i]).0@ != (#[trigger] entries[j]).0@
}

/// A name that is not listed is not in the map.
proof fn absent_name<T: Part>(entries: Seq<(String, T)>, key: Seq<char>)
    requires
        forall|i: int| 0 <= i < entries.len() ==> (#[trigger] entries[i]).0@ != key,
    ensures
        !map_of(entries).dom().contains(key),
    decreases entries.len(),
{
    if entries.len() > 0 {
        let front = entries.drop_last();
        assert forall|i: int| 0 <= i < front.len() implies (#[trigger] front[i]).0@ != key by {
            assert(front[i] == entries[i]);
        }
        absent_name(front, key);
        assert(entries.last() == entries[entries.len() - 1]);
    }
}

/// A listed name has its value in the map, when no name occurs twice.
proof fn listed_name<T: Part>(entries: Seq<(String, T)>, i: int)
    requires
        distinct(entries),
        0 <= i < entries.len(),
    ensures
        map_of(entries).dom().contains(entries[i].0@),
        map_of(entries)[entries[i].0@] == entries[i].1.data(),
    decreases entries.len(),
{
    let front = entries.drop_last();
    if i < entries.len() - 1 {
        assert forall|a: int, b: int| 0 <= a < b < front.len() implies (#[trigger] front[a]).0@ != (
        #[trigger] front[b]).0@ by {
            assert(front[a] == entries[a]);
            assert(front[b] == entries[b]);
        }
        listed_name(front, i);
        assert(front[i] == entries[i]);
        assert(entries[i].0@ != entries[entries.len() - 1].0@);
    }
}

/// Replacing the value of a listed name sets it in the map.
proof fn replaced_value<T: Part>(entries: Seq<(String, T)>, i: int, new: (String, T))
    requires
        distinct(entries),
        0 <= i < entries.len(),
        new.0@ == entries[i].0@,
    ensures
        map_of(entries.update(i, new)) == map_of(entries).insert(new.0@, new.1.data()),
    decreases entries.len(),
{
    let u = entries.update(i, new);
    let front = entries.drop_last();
    if i == entries.len() - 1 {
        assert(u.drop_last() =~= front);
        assert(map_of(u) =~= map_of(entries).insert(new.0@, new.1.data()));
    } else {
        assert forall|a: int, b: int| 0 <= a < b < front.len() implies (#[trigger] front[a]).0@ != (
        #[trigger] front[b]).0@ by {
            assert(front[a] == entries[a]);
            assert(front[b] == entries[b]);
        }
        replaced_value(front, i, new);
        assert(u.drop_last() =~= front.update(i, new));
        assert(u.last() == entries.last());
        assert(entries[i].0@ != entries[entries.len() - 1].0@);
        assert(map_of(u) =~= map_of(entries).insert(new.0@, new.1.data()));
    }
}

impl<T: Part> Named<T> {
    /// No name occurs twice.
    pub open spec fn well_formed(&self) -> bool {
        distinct(self.entries@)
    }

    /// The map that the table is.
    pub open spec fn map(&self) -> Map<Seq<char>, T::Data> {
        map_of(self.entries@)
    }

    /// An empty table.
    pub fn new() -> (out: Named<T>)
        ensures
            out.well_formed(),
            out.map() == Map::<Seq<char>, T::Data>::empty(),
    {
        Named { entries: Vec::new() }
    }

    /// Puts a value under a name; an earlier value of the name is replaced.
    pub fn insert(&mut self, key: &str, value: T)
        requires
            old(self).well_formed(),
        ensures
            final(self).well_formed(),
            final(self).map() == old(self).map().insert(key@, value.data()),
    {
        let n: usize = self.entries.len();
        for i in 0..n
            invariant
                n == self.entries@.len(),
                self.entries@ == old(self).entries@,
                distinct(self.entries@),
                forall|j: int| 0 <= j < i ==> (#[trigger] self.entries@[j]).0@ != key@,
        {
            if same(&self.entries[i].0, key) {
                let ghost before = self.entries@;
                let pair = (key.to_owned(), value);
                proof {
                    replaced_value(before, i as int, pair);
                }
                self.entries.set(i, pair);
                assert forall|a: int, b: int| 0 <= a < b < self.entries@.len() implies (
                #[trigger] self.entries@[a]).0@ != (#[trigger] self.entries@[b]).0@ by {
                    assert(before[a].0@ != before[b].0@);
                }
                return;
            }
        }
        let ghost before = self.entries@;
        self.entries.push((key.to_owned(), value));
        assert(self.entries@.drop_last() =~= before);
    }

    /// The value under a name.
    pub fn get(&self, key: &str) -> (out: Option<&T>)
        requires
            self.well_formed(),
        ensures
            match out {
                Some(v) => self.map().dom().contains(key@) && self.map()[key@] == v.data(),
                None => !self.map().dom().contains(key@),
            },
    {
        for i in 0..self.entries.len()
            invariant
                distinct(self.entries@),
                forall|j: int| 0 <= j < i ==> (#[trigger] self.entries@[j]).0@ != key@,
        {
            if same(&self.entries[i].0, key) {
                proof {
                    listed_name(self.entries@, i as int);
                }
                return Some(&self.entries[i].1);
            }
        }
        proof {
            absent_name(self.entries@, key@);
        }
        None
    }

    /// Whether a name has a value.
    pub fn contains_key(&self, key: &str) -> (out: bool)
        requires
            self.well_formed(),
        ensures
            out == self.map().dom().contains(key@),
    {
        self.get(key).is_some()
    }

    /// Puts copies of all values of another table into this one; its values count.
    pub fn extend(&mut self, other: &Named<T>)
        requires
            old(self).well_formed(),
        ensures
            final(self).well_formed(),
            final(self).map() == old(self).map().union_prefer_right(other.map()),
    {
        let ghost start = self.map();
        assert(start.union_prefer_right(map_of(other.entries@.take(0))) =~= start);
        for i in 0..other.entries.len()
            invariant
                self.well_formed(),
                self.map() == start.union_prefer_right(map_of(other.entries@.take(i as int))),
        {
            let ghost next = other.entries@.take(i + 1);
            assert(next.drop_last() =~= other.entries@.take(i as int));
            let value = other.entries[i].1.copy();
            self.insert(&other.entries[i].0, value);
            assert(self.map() =~= start.union_prefer_right(map_of(next)));
        }
        assert(other.entries@.take(other.entries@.len() as int) =~= other.entries@);
    }
}

/// A name holds the value that it was given last, and the other names keep theirs.
pub proof fn the_last_value_is_held<T: Part>(entries: Seq<(String, T)>, new: (String, T), other: Seq<char>)
    ensures
        map_of(entries.push(new)).dom().contains(new.0@),
        map_of(entries.push(new))[new.0@] == new.1.data(),
        other != new.0@ ==> (map_of(entries.push(new)).dom().contains(other) <==> map_of(
            entries,
        ).dom().contains(other)),
        other != new.0@ && map_of(entries).dom().contains(other) ==> map_of(entries.push(new))[other]
            == map_of(entries)[other],
        map_of(Seq::<(String, T)>::empty()).dom() =~= Set::empty(),
{
    assert(entries.push(new).drop_last() =~= entries);
}

} // verus!
