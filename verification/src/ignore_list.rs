//! The list of players whose statistics are not reported.

use vstd::prelude::*;
use crate::text::{joined, push_joined};

verus! {

/// The place of the first `name` in `list`, or the length of `list` where
/// it holds none.
pub open spec fn first_index(list: Seq<Seq<char>>, name: Seq<char>) -> int
    decreases list.len(),
{
    if list.len() == 0 {
        0
    } else if list[0] == name {
        0
    } else {
        1 + first_index(list.drop_first(), name)
    }
}

/// How often `name` stands in `list`.
pub open spec fn occurrences(list: Seq<Seq<char>>, name: Seq<char>) -> nat
    decreases list.len(),
{
    if list.len() == 0 {
        0
    } else {
        occurrences(list.drop_last(), name) + if list.last() == name {
            1nat
        } else {
            0nat
        }
    }
}

/// `list` without its first `name`; `list` itself where it holds none.
pub open spec fn without_first(list: Seq<Seq<char>>, name: Seq<char>) -> Seq<Seq<char>> {
    if list.contains(name) {
        list.remove(first_index(list, name))
    } else {
        list
    }
}

/// The names of `list` that `ignored` does not hold, in their order and
/// as often as they stand in `list`.
pub open spec fn screened(list: Seq<Seq<char>>, ignored: Seq<Seq<char>>) -> Seq<Seq<char>>
    decreases list.len(),
{
    if list.len() == 0 {
        list
    } else if ignored.contains(list.last()) {
        screened(list.drop_last(), ignored)
    } else {
        screened(list.drop_last(), ignored).push(list.last())
    }
}

/// The names that are ignored, in the order in which they were added.
/// A name may stand in the list more than once, and names are compared
/// as they are written.
#[derive(Debug)]
pub struct IgnoreList {
    names: Vec<String>,
}

impl View for IgnoreList {
    type V = Seq<Seq<char>>;

    closed spec fn view(&self) -> Seq<Seq<char>> {
        self.names@.map_values(|name: String| name@)
    }
}

impl IgnoreList {
    /// A list that holds no name.
    pub fn new() -> (list: IgnoreList)
        ensures
            list@ == Seq::<Seq<char>>::empty(),
    {
        let list = IgnoreList { names: Vec::new() };
        assert(list@ =~= Seq::<Seq<char>>::empty());
        list
    }

    /// How many names the list holds.
    pub fn len(&self) -> (n: usize)
        ensures
            n == self@.len(),
    {
        self.names.len()
    }

    /// Adds `name` at the end, whether or not the list holds it already.
    pub fn add(&mut self, name: &str)
        ensures
            final(self)@ == old(self)@.push(name@),
    {
        self.names.push(name.to_owned());
        assert(self@ =~= old(self)@.push(name@));
    }

    /// Whether the list holds `name`.
    pub fn contains(&self, name: &str) -> (found: bool)
        ensures
            found == self@.contains(name@),
    {
        self.position(name).is_some()
    }

    /// The place of the first `name` in the list.
    pub fn position(&self, name: &str) -> (place: Option<usize>)
        ensures
            match place {
                Some(i) => self@.contains(name@) && i == first_index(self@, name@) && i
                    < self@.len(),
                None => !self@.contains(name@),
            },
    {
        let wanted = name.to_owned();
        let mut i: usize = 0;
        while i < self.names.len()
            invariant
                0 <= i <= self.names.len(),
                wanted@ == name@,
                forall|j: int| 0 <= j < i ==> self@[j] != name@,
            decreases self.names.len() - i,
        {
            if self.names[i] == wanted {
                proof {
                    assert(self@[i as int] == name@);
                    lemma_first_index_is(self@, name@, i as int);
                }
                return Some(i);
            }
            i = i + 1;
        }
        None
    }

    /// Takes the first `name` out of the list and says whether there was
    /// one. A list that does not hold `name` stays as it is.
    pub fn remove(&mut self, name: &str) -> (found: bool)
        ensures
            found == old(self)@.contains(name@),
            final(self)@ == without_first(old(self)@, name@),
    {
        match self.position(name) {
            Some(i) => {
                self.names.remove(i);
                assert(self@ =~= old(self)@.remove(i as int));
                true
            },
            None => false,
        }
    }

    /// The names of `names` that the list does not hold, in their order.
    pub fn screen(&self, names: &Vec<String>) -> (kept: Vec<String>)
        ensures
            kept@.map_values(|name: String| name@) == screened(
                names@.map_values(|name: String| name@),
                self@,
            ),
    {
        let ghost all = names@.map_values(|name: String| name@);
        let mut kept: Vec<String> = Vec::new();
        let mut i: usize = 0;
        while i < names.len()
            invariant
                0 <= i <= names.len(),
                all == names@.map_values(|name: String| name@),
                kept@.map_values(|name: String| name@) == screened(all.take(i as int), self@),
            decreases names.len() - i,
        {
            proof {
                assert(all.take(i + 1).drop_last() =~= all.take(i as int));
                assert(all.take(i + 1).last() == names@[i as int]@);
            }
            if !self.contains(names[i].as_str()) {
                let name = names[i].clone();
                assert(kept@.push(name).map_values(|name: String| name@) =~= kept@.map_values(
                    |name: String| name@,
                ).push(name@));
                kept.push(name);
            }
            i = i + 1;
        }
        assert(all.take(names.len() as int) =~= all);
        kept
    }

    /// The names of the list in one text, with `between` between each two.
    pub fn join(&self, between: &str) -> (text: String)
        ensures
            text@ == joined(self@, between@),
    {
        let mut text = String::new();
        push_joined(&mut text, &self.names, between);
        text
    }

    /// The names of the list, in the order in which they were added.
    pub fn list(&self) -> (names: Vec<String>)
        ensures
            names@.map_values(|name: String| name@) == self@,
    {
        let mut names: Vec<String> = Vec::new();
        let mut i: usize = 0;
        while i < self.names.len()
            invariant
                0 <= i <= self.names.len(),
                names@.len() == i,
                forall|j: int| 0 <= j < i ==> names@[j]@ == self.names@[j]@,
            decreases self.names.len() - i,
        {
            names.push(self.names[i].clone());
            i = i + 1;
        }
        assert(names@.map_values(|name: String| name@) =~= self@);
        names
    }
}

/// Where `name` stands at `i` and nowhere before, `i` is its first place.
pub proof fn lemma_first_index_is(list: Seq<Seq<char>>, name: Seq<char>, i: int)
    requires
        0 <= i < list.len(),
        list[i] == name,
        forall|j: int| 0 <= j < i ==> list[j] != name,
    ensures
        first_index(list, name) == i,
    decreases i,
{
    if i > 0 {
        let rest = list.drop_first();
        assert(rest[i - 1] == list[i]);
        assert forall|j: int| 0 <= j < i - 1 implies rest[j] != name by {
            assert(rest[j] == list[j + 1]);
        }
        lemma_first_index_is(rest, name, i - 1);
    }
}

/// The first place of a name lies inside the list exactly where the list
/// holds the name, and then the name stands there and nowhere before.
pub proof fn lemma_first_index(list: Seq<Seq<char>>, name: Seq<char>)
    ensures
        0 <= first_index(list, name) <= list.len(),
        list.contains(name) <==> first_index(list, name) < list.len(),
        list.contains(name) ==> list[first_index(list, name)] == name,
        forall|j: int| 0 <= j < first_index(list, name) ==> list[j] != name,
    decreases list.len(),
{
    if list.len() == 0 {
    } else if list[0] == name {
    } else {
        let rest = list.drop_first();
        lemma_first_index(rest, name);
        let k = first_index(rest, name);
        assert forall|j: int| 0 <= j < 1 + k implies list[j] != name by {
            if j > 0 {
                assert(rest[j - 1] == list[j]);
            }
        }
        if rest.contains(name) {
            assert(list[1 + k] == rest[k]);
        }
        if list.contains(name) {
            let i = choose|i: int| 0 <= i < list.len() && list[i] == name;
            assert(rest[i - 1] == name);
        }
    }
}

/// A list holds a name exactly where the name occurs in it at least once.
pub proof fn lemma_occurrences_contains(list: Seq<Seq<char>>, name: Seq<char>)
    ensures
        list.contains(name) <==> occurrences(list, name) > 0,
    decreases list.len(),
{
    if list.len() > 0 {
        let front = list.drop_last();
        lemma_occurrences_contains(front, name);
        if front.contains(name) {
            let i = choose|i: int| 0 <= i < front.len() && front[i] == name;
            assert(list[i] == name);
        }
        if list.contains(name) && list.last() != name {
            let i = choose|i: int| 0 <= i < list.len() && list[i] == name;
            assert(front[i] == name);
        }
    }
}

/// Taking out the entry at `i` lowers the count of that entry's name by
/// one and leaves the count of every other name.
pub proof fn lemma_occurrences_remove(list: Seq<Seq<char>>, i: int, name: Seq<char>)
    requires
        0 <= i < list.len(),
    ensures
        occurrences(list.remove(i), name) + (if list[i] == name {
            1nat
        } else {
            0nat
        }) == occurrences(list, name),
    decreases list.len(),
{
    let front = list.drop_last();
    if i == list.len() - 1 {
        assert(list.remove(i) =~= front);
    } else {
        lemma_occurrences_remove(front, i, name);
        assert(list.remove(i).drop_last() =~= front.remove(i));
        assert(list.remove(i).last() == list.last());
    }
}

/// What is left after screening are the names of the list that are not
/// ignored, each as often as before; of an ignored name nothing is left.
pub proof fn lemma_screened_occurrences(
    list: Seq<Seq<char>>,
    ignored: Seq<Seq<char>>,
    name: Seq<char>,
)
    ensures
        occurrences(screened(list, ignored), name) == if ignored.contains(name) {
            0
        } else {
            occurrences(list, name)
        },
    decreases list.len(),
{
    if list.len() > 0 {
        lemma_screened_occurrences(list.drop_last(), ignored, name);
        if !ignored.contains(list.last()) {
            let kept = screened(list.drop_last(), ignored);
            assert(kept.push(list.last()).drop_last() =~= kept);
        }
    }
}

/// Screening keeps the order of the names: a list screened in two parts
/// is the list screened as a whole.
pub proof fn lemma_screened_in_parts(
    front: Seq<Seq<char>>,
    back: Seq<Seq<char>>,
    ignored: Seq<Seq<char>>,
)
    ensures
        screened(front + back, ignored) == screened(front, ignored) + screened(back, ignored),
    decreases back.len(),
{
    if back.len() == 0 {
        assert(front + back =~= front);
    } else {
        lemma_screened_in_parts(front, back.drop_last(), ignored);
        assert((front + back).drop_last() =~= front + back.drop_last());
        assert((front + back).last() == back.last());
    }
}

/// An added name is in the list, once more often than before.
pub proof fn lemma_add_is_listed(list: Seq<Seq<char>>, name: Seq<char>)
    ensures
        list.push(name).contains(name),
        occurrences(list.push(name), name) == occurrences(list, name) + 1,
        forall|other: Seq<char>|
            other != name ==> occurrences(list.push(name), other) == #[trigger] occurrences(
                list,
                other,
            ),
{
    let added = list.push(name);
    assert(added.drop_last() =~= list);
    assert(added[list.len() as int] == name);
}

/// Removing a name that the list holds takes out one of its entries and
/// no entry of another name; removing one that it does not hold changes
/// nothing.
pub proof fn lemma_remove_takes_one(list: Seq<Seq<char>>, name: Seq<char>)
    ensures
        list.contains(name) ==> occurrences(without_first(list, name), name) + 1 == occurrences(
            list,
            name,
        ),
        list.contains(name) ==> without_first(list, name).len() + 1 == list.len(),
        !list.contains(name) ==> without_first(list, name) == list,
        forall|other: Seq<char>|
            other != name ==> #[trigger] occurrences(without_first(list, name), other)
                == occurrences(list, other),
{
    lemma_first_index(list, name);
    if list.contains(name) {
        let i = first_index(list, name);
        lemma_occurrences_remove(list, i, name);
        assert forall|other: Seq<char>| other != name implies #[trigger] occurrences(
            without_first(list, name),
            other,
        ) == occurrences(list, other) by {
            lemma_occurrences_remove(list, i, other);
        }
    }
}

/// A name that stood in the list once is gone after it is removed.
pub proof fn lemma_remove_last_one(list: Seq<Seq<char>>, name: Seq<char>)
    requires
        occurrences(list, name) == 1,
    ensures
        !without_first(list, name).contains(name),
{
    lemma_occurrences_contains(list, name);
    lemma_remove_takes_one(list, name);
    lemma_occurrences_contains(without_first(list, name), name);
}

/// Adding a name twice and removing it once leaves it once more often
/// than before: exactly once, where the list did not hold it.
pub proof fn lemma_add_twice_remove_once(list: Seq<Seq<char>>, name: Seq<char>)
    ensures
        occurrences(without_first(list.push(name).push(name), name), name) == occurrences(
            list,
            name,
        ) + 1,
{
    lemma_add_is_listed(list, name);
    lemma_add_is_listed(list.push(name), name);
    lemma_remove_takes_one(list.push(name).push(name), name);
}

} // verus!
