use vstd::prelude::*;

verus! {

/// The keys of `entries`, in order.
pub open spec fn keys_of<T>(entries: Seq<(String, T)>) -> Seq<Seq<char>> {
    entries.map_values(|e: (String, T)| e.0@)
}

/// The map that `entries` stands for: each key to the value stored beside it.
pub open spec fn map_of<T>(entries: Seq<(String, T)>) -> Map<Seq<char>, T> {
    Map::new(
        |k: Seq<char>| keys_of(entries).contains(k),
        |k: Seq<char>| entries[keys_of(entries).index_of(k)].1,
    )
}

/// With distinct keys, the map holds each entry's key with that entry's value.
pub proof fn lemma_map_of_at<T>(entries: Seq<(String, T)>, i: int)
    requires
        keys_of(entries).no_duplicates(),
        0 <= i < entries.len(),
    ensures
        map_of(entries).contains_key(entries[i].0@),
        map_of(entries)[entries[i].0@] == entries[i].1,
{
    let ks = keys_of(entries);
    assert(ks[i] == entries[i].0@);
    assert(ks.contains(entries[i].0@));
    let j = ks.index_of(entries[i].0@);
    assert(0 <= j < ks.len() && ks[j] == entries[i].0@);
}

/// A key of the map is the key of some entry.
pub proof fn lemma_map_of_key<T>(entries: Seq<(String, T)>, k: Seq<char>) -> (i: int)
    requires
        map_of(entries).contains_key(k),
    ensures
        0 <= i < entries.len(),
        entries[i].0@ == k,
{
    let ks = keys_of(entries);
    let i = choose|i: int| 0 <= i < ks.len() && ks[i] == k;
    i
}

/// The views of `names`, in order.
pub open spec fn names_of(names: Seq<String>) -> Seq<Seq<char>> {
    names.map_values(|s: String| s@)
}

/// Position of `key` among `entries`, if it is there.
fn find_entry<T>(entries: &Vec<(String, T)>, key: &String) -> (r: Option<usize>)
    ensures
        match r {
            Some(i) => i < entries@.len() && entries@[i as int].0@ == key@,
            None => !map_of(entries@).contains_key(key@),
        },
{
    let mut i: usize = 0;
    while i < entries.len()
        invariant
            i <= entries@.len(),
            forall|j: int| 0 <= j < i ==> entries@[j].0@ != key@,
        decreases entries@.len() - i,
    {
        if entries[i].0.eq(key) {
            return Some(i);
        }
        i = i + 1;
    }
    proof {
        if map_of(entries@).contains_key(key@) {
            let j = lemma_map_of_key(entries@, key@);
        }
    }
    None
}

/// A finite map from names (user ids, room ids) to values, kept as a list of
/// entries in which no name occurs twice.
pub struct Registry<T> {
    entries: Vec<(String, T)>,
}

impl<T> View for Registry<T> {
    type V = Map<Seq<char>, T>;

    closed spec fn view(&self) -> Map<Seq<char>, T> {
        map_of(self.entries@)
    }
}

impl<T> Registry<T> {
    #[verifier::type_invariant]
    closed spec fn distinct_keys(self) -> bool {
        keys_of(self.entries@).no_duplicates()
    }

    proof fn lemma_dom(&self)
        requires
            keys_of(self.entries@).no_duplicates(),
        ensures
            self@.dom() == keys_of(self.entries@).to_set(),
            self@.dom().finite(),
            self@.len() == self.entries@.len(),
    {
        let ks = keys_of(self.entries@);
        assert(self@.dom() =~= ks.to_set());
        ks.unique_seq_to_set();
        vstd::seq_lib::seq_to_set_is_finite(ks);
        assert(ks.len() == self.entries@.len());
    }

    /// An empty registry.
    pub fn new() -> (r: Self)
        ensures
            r@ == Map::<Seq<char>, T>::empty(),
    {
        let r = Registry { entries: Vec::new() };
        assert(r@ =~= Map::<Seq<char>, T>::empty());
        r
    }

    /// Number of entries.
    pub fn len(&self) -> (n: usize)
        ensures
            n == self@.len(),
            self@.dom().finite(),
    {
        proof {
            use_type_invariant(self);
            self.lemma_dom();
        }
        self.entries.len()
    }

    /// Whether `key` has an entry.
    pub fn contains_key(&self, key: &String) -> (b: bool)
        ensures
            b == self@.contains_key(key@),
    {
        proof {
            use_type_invariant(self);
        }
        match find_entry(&self.entries, key) {
            Some(i) => {
                proof {
                    lemma_map_of_at(self.entries@, i as int);
                }
                true
            },
            None => false,
        }
    }

    /// The value stored under `key`, if any.
    pub fn get(&self, key: &String) -> (r: Option<&T>)
        ensures
            match r {
                Some(v) => self@.contains_key(key@) && *v == self@[key@],
                None => !self@.contains_key(key@),
            },
    {
        proof {
            use_type_invariant(self);
        }
        match find_entry(&self.entries, key) {
            Some(i) => {
                proof {
                    lemma_map_of_at(self.entries@, i as int);
                }
                Some(&self.entries[i].1)
            },
            None => None,
        }
    }
    /// Stores `value` under `key`, giving back the value it replaces, if any.
    pub fn insert(&mut self, key: String, value: T) -> (replaced: Option<T>)
        ensures
            final(self)@ == old(self)@.insert(key@, value),
            match replaced {
                Some(v) => old(self)@.contains_key(key@) && v == old(self)@[key@],
                None => !old(self)@.contains_key(key@),
            },
    {
        proof {
            use_type_invariant(&*self);
        }
        let mut entries: Vec<(String, T)> = Vec::new();
        std::mem::swap(&mut entries, &mut self.entries);
        let ghost before = entries@;
        let ghost k = key@;
        let ghost v = value;
        match find_entry(&entries, &key) {
            Some(i) => {
                let (_name, previous) = entries.remove(i);
                entries.insert(i, (key, value));
                proof {
                    assert(entries@ =~= before.update(i as int, (entries@[i as int].0, v)));
                    assert(keys_of(entries@) =~= keys_of(before));
                    lemma_map_of_at(before, i as int);
                    assert forall|x: Seq<char>| #[trigger] map_of(entries@).contains_key(x) implies
                        map_of(entries@)[x] == map_of(before).insert(k, v)[x] by {
                        let j = lemma_map_of_key(entries@, x);
                        lemma_map_of_at(entries@, j);
                        if j != i {
                            assert(entries@[j] == before[j]);
                            lemma_map_of_at(before, j);
                            assert(keys_of(before)[j] == x);
                            assert(keys_of(before)[i as int] == k);
                            assert(x != k);
                        } else {
                            assert(entries@[j].1 == v);
                        }
                    }
                    assert(map_of(entries@) =~= map_of(before).insert(k, v));
                }
                self.entries = entries;
                Some(previous)
            },
            None => {
                entries.push((key, value));
                proof {
                    let n = before.len() as int;
                    assert(keys_of(entries@) =~= keys_of(before).push(k));
                    assert(keys_of(entries@).no_duplicates()) by {
                        assert forall|a: int, b: int|
                            0 <= a < entries@.len() && 0 <= b < entries@.len() && a != b implies
                            keys_of(entries@)[a] != keys_of(entries@)[b] by {
                            if a < n && b < n {
                            } else if a == n {
                                lemma_map_of_at(before, b);
                            } else {
                                lemma_map_of_at(before, a);
                            }
                        }
                    }
                    assert forall|x: Seq<char>| #[trigger] map_of(entries@).contains_key(x) implies
                        map_of(entries@)[x] == map_of(before).insert(k, v)[x] by {
                        let j = lemma_map_of_key(entries@, x);
                        lemma_map_of_at(entries@, j);
                        if j < n {
                            assert(entries@[j] == before[j]);
                            lemma_map_of_at(before, j);
                            assert(x != k);
                            assert(map_of(entries@)[x] == map_of(before)[x]);
                            assert(map_of(before).insert(k, v)[x] == map_of(before)[x]);
                        } else {
                            assert(j == n);
                            assert(entries@[j].1 == v);
                            assert(x == k);
                            assert(map_of(entries@)[x] == v);
                            assert(map_of(before).insert(k, v)[x] == v);
                        }
                    }
                    assert forall|x: Seq<char>| #[trigger] map_of(before).insert(k, v).contains_key(x) implies
                        map_of(entries@).contains_key(x) by {
                        if x == k {
                            lemma_map_of_at(entries@, n);
                        } else {
                            let j = lemma_map_of_key(before, x);
                            lemma_map_of_at(entries@, j);
                        }
                    }
                    assert(map_of(entries@) =~= map_of(before).insert(k, v));
                }
                self.entries = entries;
                None
            },
        }
    }

    /// Drops the entry of `key`, giving back its value, if there was one.
    pub fn remove(&mut self, key: &String) -> (removed: Option<T>)
        ensures
            final(self)@ == old(self)@.remove(key@),
            match removed {
                Some(v) => old(self)@.contains_key(key@) && v == old(self)@[key@],
                None => !old(self)@.contains_key(key@),
            },
    {
        proof {
            use_type_invariant(&*self);
        }
        let mut entries: Vec<(String, T)> = Vec::new();
        std::mem::swap(&mut entries, &mut self.entries);
        let ghost before = entries@;
        match find_entry(&entries, key) {
            Some(i) => {
                let (_name, previous) = entries.remove(i);
                proof {
                    let ii = i as int;
                    assert(keys_of(entries@) =~= keys_of(before).remove(ii));
                    lemma_map_of_at(before, ii);
                    assert forall|x: Seq<char>| #[trigger] map_of(entries@).contains_key(x) implies
                        map_of(before).remove(key@).contains_key(x)
                        && map_of(entries@)[x] == map_of(before).remove(key@)[x] by {
                        let j = lemma_map_of_key(entries@, x);
                        lemma_map_of_at(entries@, j);
                        let jj = if j < ii { j } else { j + 1 };
                        assert(entries@[j] == before[jj]);
                        lemma_map_of_at(before, jj);
                        assert(keys_of(before)[jj] == x);
                        assert(keys_of(before)[ii] == key@);
                        assert(x != key@);
                    }
                    assert forall|x: Seq<char>| #[trigger] map_of(before).remove(key@).contains_key(x) implies
                        map_of(entries@).contains_key(x) by {
                        let j = lemma_map_of_key(before, x);
                        if j < ii {
                            lemma_map_of_at(entries@, j);
                        } else {
                            lemma_map_of_at(entries@, j - 1);
                        }
                    }
                    assert(map_of(entries@) =~= map_of(before).remove(key@));
                }
                self.entries = entries;
                Some(previous)
            },
            None => {
                proof {
                    assert(map_of(entries@) =~= map_of(before).remove(key@));
                }
                self.entries = entries;
                None
            },
        }
    }

    /// Drops every entry.
    pub fn clear(&mut self)
        ensures
            final(self)@ == Map::<Seq<char>, T>::empty(),
    {
        self.entries = Vec::new();
        assert(self@ =~= Map::<Seq<char>, T>::empty());
    }

    /// The keys, each once.
    pub fn keys(&self) -> (names: Vec<String>)
        ensures
            names_of(names@).no_duplicates(),
            names_of(names@).to_set() == self@.dom(),
            names@.len() == self@.len(),
    {
        proof {
            use_type_invariant(self);
            self.lemma_dom();
        }
        let mut names: Vec<String> = Vec::new();
        let mut i: usize = 0;
        while i < self.entries.len()
            invariant
                i <= self.entries@.len(),
                names_of(names@) =~= keys_of(self.entries@).subrange(0, i as int),
            decreases self.entries@.len() - i,
        {
            let name = self.entries[i].0.clone();
            proof {
                assert(name@ == keys_of(self.entries@)[i as int]);
            }
            names.push(name);
            proof {
                let prefix = keys_of(self.entries@).subrange(0, i as int + 1);
                assert(prefix =~= keys_of(self.entries@).subrange(0, i as int).push(name@));
                assert(names_of(names@) =~= prefix);
            }
            i = i + 1;
        }
        proof {
            assert(names_of(names@) =~= keys_of(self.entries@));
        }
        names
    }
}

} // verus!
