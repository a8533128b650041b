use vstd::prelude::*;

verus! {

/// A map keyed by strings that keeps its keys distinct and its entries in the order in which
/// their keys first arrived.
pub struct Table<V> {
    entries: Vec<(String, V)>,
    model: Ghost<Map<Seq<char>, V>>,
}

/// A table from strings to strings.
pub type StringTable = Table<String>;

impl<V> View for Table<V> {
    type V = Map<Seq<char>, V>;

    closed spec fn view(&self) -> Map<Seq<char>, V> {
        self.model@
    }
}

impl<V> Table<V> {
    /// The entries, in order.
    pub closed spec fn entry_seq(&self) -> Seq<(String, V)> {
        self.entries@
    }

    /// The keys are distinct and the entries are exactly the map's.
    pub open spec fn wf(&self) -> bool {
        &&& forall|i: int, j: int|
            0 <= i < j < self.entry_seq().len() ==> self.entry_seq()[i].0@ != self.entry_seq()[j].0@
        &&& forall|i: int|
            0 <= i < self.entry_seq().len() ==> {
                &&& #[trigger] self@.contains_key(self.entry_seq()[i].0@)
                &&& self@[self.entry_seq()[i].0@] == self.entry_seq()[i].1
            }
        &&& forall|k: Seq<char>|
            #[trigger] self@.contains_key(k) ==> exists|i: int|
                0 <= i < self.entry_seq().len() && #[trigger] self.entry_seq()[i].0@ == k
    }

    pub fn new() -> (r: Table<V>)
        ensures
            r.wf(),
            r@ == Map::<Seq<char>, V>::empty(),
            r.entry_seq().len() == 0,
    {
        Table { entries: Vec::new(), model: Ghost(Map::empty()) }
    }

    pub fn len(&self) -> (r: usize)
        requires
            self.wf(),
        ensures
            r == self.entry_seq().len(),
    {
        self.entries.len()
    }

    /// The key and value of the entry at `i`.
    pub fn entry(&self, i: usize) -> (r: (&String, &V))
        requires
            self.wf(),
            i < self.entry_seq().len(),
        ensures
            *r.0 == self.entry_seq()[i as int].0,
            *r.1 == self.entry_seq()[i as int].1,
    {
        (&self.entries[i].0, &self.entries[i].1)
    }

    /// Where the key `k` stands among the entries, if it does.
    fn position(&self, k: &String) -> (r: Option<usize>)
        requires
            self.wf(),
        ensures
            match r {
                Some(i) => i < self.entry_seq().len() && self.entry_seq()[i as int].0@ == k@,
                None => !self@.contains_key(k@),
            },
    {
        let mut i: usize = 0;
        while i < self.entries.len()
            invariant
                self.wf(),
                i <= self.entry_seq().len(),
                forall|j: int| 0 <= j < i ==> self.entry_seq()[j].0@ != k@,
            decreases self.entry_seq().len() - i,
        {
            if self.entries[i].0 == *k {
                return Some(i);
            }
            i = i + 1;
        }
        None
    }

    /// The value stored under `k`, if any.
    pub fn get(&self, k: &String) -> (r: Option<&V>)
        requires
            self.wf(),
        ensures
            match r {
                Some(v) => self@.contains_key(k@) && self@[k@] == *v,
                None => !self@.contains_key(k@),
            },
    {
        match self.position(k) {
            Some(i) => {
                assert(self@.contains_key(self.entry_seq()[i as int].0@));
                Some(&self.entries[i].1)
            },
            None => None,
        }
    }

    /// Stores `v` under `k`, replacing an earlier value in place.
    pub fn insert(&mut self, k: String, v: V)
        requires
            old(self).wf(),
        ensures
            final(self).wf(),
            final(self)@ == old(self)@.insert(k@, v),
            old(self)@.contains_key(k@) ==> final(self).entry_seq().len() == old(self).entry_seq().len(),
            !old(self)@.contains_key(k@) ==> final(self).entry_seq() == old(self).entry_seq().push((k, v)),
    {
        let ghost km = k@;
        let ghost vm = v;
        let ghost at: int;
        match self.position(&k) {
            Some(i) => {
                self.entries.set(i, (k, v));
                proof { at = i as int; }
            },
            None => {
                self.entries.push((k, v));
                proof { at = self.entry_seq().len() - 1; }
            },
        }
        self.model = Ghost(self.model@.insert(km, vm));
        assert(self.entry_seq()[at].0@ == km);
        assert forall|i: int| 0 <= i < self.entry_seq().len() && i != at implies
            #[trigger] self.entry_seq()[i] == old(self).entry_seq()[i] && self.entry_seq()[i].0@ != km by {
            assert(old(self)@.contains_key(old(self).entry_seq()[i].0@));
        }
        assert(self.entry_seq()[at].1 == vm);
        assert forall|i: int| 0 <= i < self.entry_seq().len() implies
            #[trigger] self@.contains_key(self.entry_seq()[i].0@)
            && self@[self.entry_seq()[i].0@] == self.entry_seq()[i].1 by {
            if i != at {
                assert(old(self)@.contains_key(old(self).entry_seq()[i].0@));
            }
        }
        assert forall|i: int, j: int| 0 <= i < j < self.entry_seq().len() implies
            self.entry_seq()[i].0@ != self.entry_seq()[j].0@ by {
            if i != at && j != at {
                assert(self.entry_seq()[i] == old(self).entry_seq()[i]);
                assert(self.entry_seq()[j] == old(self).entry_seq()[j]);
            }
        }
        assert forall|key: Seq<char>| #[trigger] self@.contains_key(key) implies exists|i: int|
            0 <= i < self.entry_seq().len() && #[trigger] self.entry_seq()[i].0@ == key by {
            if key != km {
                assert(old(self)@.contains_key(key));
                let j = choose|j: int| 0 <= j < old(self).entry_seq().len() && #[trigger] old(self).entry_seq()[j].0@ == key;
                assert(j != at);
                assert(self.entry_seq()[j].0@ == key);
            } else {
                assert(self.entry_seq()[at].0@ == key);
            }
        }
    }
}

} // verus!
