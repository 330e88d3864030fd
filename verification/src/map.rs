//! A table of items kept under names.
//!
//! Items stay in the order in which they were put in. A name may be used
//! more than once until the owner of the table has checked that it is not;
//! a lookup finds the first item under a name.

use vstd::prelude::*;

verus! {

struct DBusEntry<T> {
    name: String,
    item: T,
}

/// Items kept under names, in the order of their insertion.
pub struct DBusMap<T> {
    entries: Vec<DBusEntry<T>>,
}

/// Whether `i` is the first position of `names` that holds `name`.
pub open spec fn is_first(names: Seq<Seq<char>>, name: Seq<char>, i: int) -> bool {
    &&& 0 <= i < names.len()
    &&& names[i] == name
    &&& forall|j: int| 0 <= j < i ==> names[j] != name
}

/// The first position of `names` that holds `name`; meaningful only where
/// `names` contains `name`.
pub open spec fn first_index(names: Seq<Seq<char>>, name: Seq<char>) -> int {
    choose|i: int| is_first(names, name, i)
}

/// A name that occurs has exactly one first position.
pub proof fn lemma_first_index(names: Seq<Seq<char>>, name: Seq<char>, i: int)
    requires
        is_first(names, name, i),
    ensures
        names.contains(name),
        first_index(names, name) == i,
{
}

/// A name that occurs at `at` has a first position, at `at` or before.
pub proof fn lemma_has_first(names: Seq<Seq<char>>, name: Seq<char>, at: int)
    requires
        0 <= at < names.len(),
        names[at] == name,
    ensures
        is_first(names, name, first_index(names, name)),
        first_index(names, name) <= at,
    decreases at,
{
    if exists|j: int| 0 <= j < at && names[j] == name {
        let j = choose|j: int| 0 <= j < at && names[j] == name;
        lemma_has_first(names, name, j);
    } else {
        lemma_first_index(names, name, at);
    }
}

/// Whether `i` is the first position of `names` that holds a name for
/// the second time: no name occurs twice before `i`, and the name at `i`
/// occurs before `i`.
pub open spec fn is_first_repeat(names: Seq<Seq<char>>, i: int) -> bool {
    &&& 0 <= i < names.len()
    &&& forall|a: int, b: int| 0 <= a < b < i ==> names[a] != names[b]
    &&& exists|j: int| 0 <= j < i && names[j] == names[i]
}

/// The first position of `names` that holds a name for the second time;
/// meaningful only where some name occurs twice.
pub open spec fn first_repeat(names: Seq<Seq<char>>) -> int {
    choose|i: int| is_first_repeat(names, i)
}

/// Names of which one is repeated have exactly one first repeat.
pub proof fn lemma_first_repeat(names: Seq<Seq<char>>, i: int)
    requires
        is_first_repeat(names, i),
    ensures
        !names.no_duplicates(),
        first_repeat(names) == i,
{
}

/// Whether every item of `items` passes the test `ok`.
pub open spec fn all_pass<T>(items: Seq<T>, ok: spec_fn(T) -> bool) -> bool {
    forall|i: int| 0 <= i < items.len() ==> ok(#[trigger] items[i])
}

/// Whether `i` is the first position of `items` that holds an item that
/// fails the test `ok`.
pub open spec fn is_first_failing<T>(items: Seq<T>, ok: spec_fn(T) -> bool, i: int) -> bool {
    &&& 0 <= i < items.len()
    &&& !ok(items[i])
    &&& forall|j: int| 0 <= j < i ==> ok(#[trigger] items[j])
}

/// The first position of `items` that holds an item that fails the test
/// `ok`; meaningful only where some item fails it.
pub open spec fn first_failing<T>(items: Seq<T>, ok: spec_fn(T) -> bool) -> int {
    choose|i: int| is_first_failing(items, ok, i)
}

/// Items of which one fails a test have exactly one first that fails.
pub proof fn lemma_first_failing<T>(items: Seq<T>, ok: spec_fn(T) -> bool, i: int)
    requires
        is_first_failing(items, ok, i),
    ensures
        !all_pass(items, ok),
        first_failing(items, ok) == i,
{
}

impl<T> View for DBusMap<T> {
    type V = Seq<(Seq<char>, T)>;

    /// The names with their items, in the order of insertion.
    closed spec fn view(&self) -> Seq<(Seq<char>, T)> {
        self.entries@.map_values(|e: DBusEntry<T>| (e.name@, e.item))
    }
}

impl<T> DBusMap<T> {
    /// The names, in the order of insertion.
    pub open spec fn names(&self) -> Seq<Seq<char>> {
        self@.map_values(|e: (Seq<char>, T)| e.0)
    }

    /// The items, in the order of insertion; `items()[i]` is kept under
    /// `names()[i]`.
    pub open spec fn items(&self) -> Seq<T> {
        self@.map_values(|e: (Seq<char>, T)| e.1)
    }

    /// Whether some item is kept under `name`.
    pub open spec fn contains(&self, name: Seq<char>) -> bool {
        self.names().contains(name)
    }

    /// The first item kept under `name`; meaningful only where one is.
    pub open spec fn get(&self, name: Seq<char>) -> T {
        self.items()[first_index(self.names(), name)]
    }

    /// Whether no name is used twice.
    pub open spec fn unique(&self) -> bool {
        self.names().no_duplicates()
    }

    /// An item kept under a name is found under it: the first such item.
    pub proof fn lemma_contains(&self, name: Seq<char>)
        requires
            self.contains(name),
        ensures
            is_first(self.names(), name, first_index(self.names(), name)),
    {
        let at = choose|at: int| 0 <= at < self.names().len() && self.names()[at] == name;
        lemma_has_first(self.names(), name, at);
    }

    /// Where no name is used twice, the item kept under the name at
    /// position `i` is the item at position `i`.
    pub proof fn lemma_get_unique(&self, i: int)
        requires
            self.unique(),
            0 <= i < self@.len(),
        ensures
            self.contains(self.names()[i]),
            self.get(self.names()[i]) == self.items()[i],
    {
        lemma_first_index(self.names(), self.names()[i], i);
    }

    /// An empty table.
    pub fn new() -> (map: DBusMap<T>)
        ensures
            map@ == Seq::<(Seq<char>, T)>::empty(),
    {
        let map = DBusMap { entries: Vec::new() };
        map
    }

    /// The number of items.
    pub fn len(&self) -> (n: usize)
        ensures
            n == self@.len(),
    {
        self.entries.len()
    }

    /// Puts `item` under `name`, behind what the table holds.
    pub fn insert(&mut self, name: String, item: T)
        ensures
            final(self)@ == old(self)@.push((name@, item)),
    {
        self.entries.push(DBusEntry { name, item });
    }

    /// The name at position `i`.
    pub fn name_at(&self, i: usize) -> (name: &String)
        requires
            i < self@.len(),
        ensures
            name@ == self.names()[i as int],
    {
        &self.entries[i].name
    }

    /// The item at position `i`.
    pub fn item_at(&self, i: usize) -> (item: &T)
        requires
            i < self@.len(),
        ensures
            *item == self.items()[i as int],
    {
        &self.entries[i].item
    }

    /// The position of the first item under `name`, if there is one.
    pub fn position(&self, name: &String) -> (found: Option<usize>)
        ensures
            found is Some <==> self.contains(name@),
            found matches Some(i) ==> is_first(self.names(), name@, i as int) && i == first_index(
                self.names(),
                name@,
            ),
    {
        let mut i: usize = 0;
        while i < self.entries.len()
            invariant
                i <= self.entries.len(),
                forall|j: int| 0 <= j < i ==> self.names()[j] != name@,
            decreases self.entries.len() - i,
        {
            if self.entries[i].name == *name {
                proof {
                    lemma_first_index(self.names(), name@, i as int);
                }
                return Some(i);
            }
            i += 1;
        }
        None
    }

    /// The first item under `name`, if there is one.
    pub fn find(&self, name: &String) -> (found: Option<&T>)
        ensures
            found is Some <==> self.contains(name@),
            found matches Some(item) ==> *item == self.get(name@),
    {
        match self.position(name) {
            Some(i) => Some(&self.entries[i].item),
            None => None,
        }
    }

    /// Tells whether no name is used twice.
    pub fn has_unique_names(&self) -> (unique: bool)
        ensures
            unique == self.unique(),
    {
        self.first_repeated().is_none()
    }

    /// The first position that holds a name for the second time, if some
    /// name is used twice.
    pub fn first_repeated(&self) -> (found: Option<usize>)
        ensures
            found is None <==> self.unique(),
            found matches Some(i) ==> is_first_repeat(self.names(), i as int) && i == first_repeat(
                self.names(),
            ),
    {
        let n = self.entries.len();
        let mut i: usize = 0;
        while i < n
            invariant
                n == self.entries.len(),
                i <= n,
                forall|a: int, b: int| 0 <= a < b < i ==> self.names()[a] != self.names()[b],
            decreases n - i,
        {
            let mut j: usize = 0;
            while j < i
                invariant
                    n == self.entries.len(),
                    i < n,
                    j <= i,
                    forall|a: int, b: int| 0 <= a < b < i ==> self.names()[a] != self.names()[b],
                    forall|a: int| 0 <= a < j ==> self.names()[a] != self.names()[i as int],
                decreases i - j,
            {
                if self.entries[j].name == self.entries[i].name {
                    assert(self.names()[j as int] == self.names()[i as int]);
                    proof {
                        lemma_first_repeat(self.names(), i as int);
                    }
                    return Some(i);
                }
                j += 1;
            }
            i += 1;
        }
        None
    }
}

} // verus!
