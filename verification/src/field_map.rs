//! A small map from field names to values that keeps the order in which the
//! names were first inserted.

use vstd::prelude::*;

verus! {

/// The position of `name` in `names`, given that it occurs there.
pub open spec fn position_of(names: Seq<Seq<char>>, name: Seq<char>) -> int {
    choose|i: int| 0 <= i < names.len() && names[i] == name
}

/// The map that pairs each of `names` with the item at the same position.
pub open spec fn pairing<V>(names: Seq<Seq<char>>, items: Seq<V>) -> Map<Seq<char>, V> {
    Map::new(
        |name: Seq<char>| names.contains(name),
        |name: Seq<char>| items[position_of(names, name)],
    )
}

/// In a pairing of distinct names, the name at position `i` maps to the item
/// at position `i`.
pub proof fn lemma_pairing_at<V>(names: Seq<Seq<char>>, items: Seq<V>, i: int)
    requires
        names.no_duplicates(),
        0 <= i < names.len(),
    ensures
        pairing(names, items).dom().contains(names[i]),
        pairing(names, items)[names[i]] == items[i],
{
    assert(names[position_of(names, names[i])] == names[i]);
}

/// A map from field names to values of type `V`.
///
/// No name occurs twice. The names keep the order of their first insertion.
#[derive(Debug)]
pub struct FieldMap<V> {
    keys: Vec<String>,
    values: Vec<V>,
}

impl<V> FieldMap<V> {
    #[verifier::type_invariant]
    spec fn inv(&self) -> bool {
        &&& self.keys.len() == self.values.len()
        &&& self.names().no_duplicates()
    }

    /// The names, in the order of their first insertion.
    pub closed spec fn names(&self) -> Seq<Seq<char>> {
        self.keys@.map_values(|k: String| k@)
    }

    /// The values, each at the position of its name.
    pub closed spec fn items(&self) -> Seq<V> {
        self.values@
    }

    /// Names and values pair up, and no name occurs twice.
    pub open spec fn wf(&self) -> bool {
        &&& self.names().len() == self.items().len()
        &&& self.names().no_duplicates()
    }

    /// The mapping that this value stands for.
    pub open spec fn map(&self) -> Map<Seq<char>, V> {
        pairing(self.names(), self.items())
    }

    /// An empty map.
    pub fn new() -> (m: Self)
        ensures
            m.wf(),
            m.names() == Seq::<Seq<char>>::empty(),
            m.items() == Seq::<V>::empty(),
            m.map() == Map::<Seq<char>, V>::empty(),
    {
        FieldMap { keys: Vec::new(), values: Vec::new() }
    }

    /// The number of names.
    pub fn len(&self) -> (n: usize)
        ensures
            self.wf(),
            n == self.names().len(),
            n == self.map().dom().len(),
    {
        proof {
            use_type_invariant(self);
            self.names().unique_seq_to_set();
        }
        self.keys.len()
    }

    /// Whether the map holds no name.
    pub fn is_empty(&self) -> (b: bool)
        ensures
            self.wf(),
            b == (self.names().len() == 0),
            b == (self.map() == Map::<Seq<char>, V>::empty()),
    {
        proof {
            use_type_invariant(self);
            if self.names().len() == 0 {
                assert(self.map() =~= Map::<Seq<char>, V>::empty());
            } else {
                lemma_pairing_at(self.names(), self.items(), 0);
            }
        }
        self.keys.len() == 0
    }

    /// The name at position `i`.
    pub fn name_at(&self, i: usize) -> (name: &String)
        requires
            i < self.names().len(),
        ensures
            self.wf(),
            name@ == self.names()[i as int],
    {
        proof {
            use_type_invariant(self);
        }
        &self.keys[i]
    }

    /// The value at position `i`.
    pub fn value_at(&self, i: usize) -> (value: &V)
        requires
            i < self.names().len(),
        ensures
            self.wf(),
            *value == self.items()[i as int],
            *value == self.map()[self.names()[i as int]],
    {
        proof {
            use_type_invariant(self);
            lemma_pairing_at(self.names(), self.items(), i as int);
        }
        &self.values[i]
    }

    /// The position of `name`, if the map holds it.
    pub fn position(&self, name: &String) -> (found: Option<usize>)
        ensures
            self.wf(),
            match found {
                Some(i) => i < self.names().len() && self.names()[i as int] == name@,
                None => !self.names().contains(name@),
            },
    {
        proof {
            use_type_invariant(self);
        }
        let mut i: usize = 0;
        while i < self.keys.len()
            invariant
                self.wf(),
                i <= self.keys.len(),
                forall|j: int| 0 <= j < i ==> self.names()[j] != name@,
            decreases self.keys.len() - i,
        {
            if self.keys[i] == *name {
                return Some(i);
            }
            i = i + 1;
        }
        None
    }

    /// The value of `name`, if the map holds it.
    pub fn get(&self, name: &str) -> (found: Option<&V>)
        ensures
            match found {
                Some(value) => self.map().dom().contains(name@) && *value == self.map()[name@],
                None => !self.map().dom().contains(name@),
            },
    {
        let name = String::from_str(name);
        match self.position(&name) {
            Some(i) => Some(self.value_at(i)),
            None => None,
        }
    }

    /// Whether the map holds `name`.
    pub fn contains_key(&self, name: &str) -> (b: bool)
        ensures
            b == self.map().dom().contains(name@),
    {
        let name = String::from_str(name);
        self.position(&name).is_some()
    }

    /// Gives `name` the value `value`. A name that the map holds already
    /// keeps its position; a new one goes to the end.
    pub fn insert(&mut self, name: String, value: V)
        ensures
            final(self).wf(),
            final(self).map() == old(self).map().insert(name@, value),
            final(self).names() == if old(self).names().contains(name@) {
                old(self).names()
            } else {
                old(self).names().push(name@)
            },
    {
        let found = self.position(&name);
        let mut taken = FieldMap::new();
        core::mem::swap(self, &mut taken);
        let FieldMap { keys, values } = taken;
        let mut keys = keys;
        let mut values = values;
        let ghost before = old(self).names();
        match found {
            Some(i) => {
                values.set(i, value);
                *self = FieldMap { keys, values };
            },
            None => {
                keys.push(name);
                values.push(value);
                assert(keys@.map_values(|k: String| k@) =~= before.push(name@));
                *self = FieldMap { keys, values };
                proof {
                    let names = self.names();
                    assert forall|f: Seq<char>| before.contains(f) implies names.contains(f) by {
                        let k = position_of(before, f);
                        assert(names[k] == f);
                    }
                    assert(names[before.len() as int] == name@);
                }
            },
        }
    }
}

} // verus!
