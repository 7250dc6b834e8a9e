//! An insertion-ordered map from string keys to values, with paged listing.
use vstd::prelude::*;

verus! {

/// Values that can hand out an exact copy of themselves.
pub trait Duplicate: Sized {
    fn duplicate(&self) -> (r: Self)
        ensures
            r == *self,
    ;
}

/// True when no two entries share a key.
pub open spec fn keys_unique<T>(entries: Seq<(Seq<char>, T)>) -> bool {
    forall|i: int, j: int|
        0 <= i < entries.len() && 0 <= j < entries.len() && i != j ==> entries[i].0 != entries[j].0
}

/// True when some entry has the given key.
pub open spec fn has_key<T>(entries: Seq<(Seq<char>, T)>, key: Seq<char>) -> bool {
    exists|i: int| 0 <= i < entries.len() && entries[i].0 == key
}

/// The position of an entry with the given key (meaningful only when there is one).
pub open spec fn index_of<T>(entries: Seq<(Seq<char>, T)>, key: Seq<char>) -> int {
    choose|i: int| 0 <= i < entries.len() && entries[i].0 == key
}

/// The value stored under `key`, if any.
pub open spec fn lookup<T>(entries: Seq<(Seq<char>, T)>, key: Seq<char>) -> Option<T> {
    if has_key(entries, key) {
        Some(entries[index_of(entries, key)].1)
    } else {
        None
    }
}

/// The entries after writing `value` under `key`: an existing entry is replaced
/// in place, a new key goes to the end.
pub open spec fn inserted<T>(entries: Seq<(Seq<char>, T)>, key: Seq<char>, value: T) -> Seq<
    (Seq<char>, T),
> {
    if has_key(entries, key) {
        entries.update(index_of(entries, key), (key, value))
    } else {
        entries.push((key, value))
    }
}

/// The `page`-th run of `size` entries, in insertion order; empty past the end.
pub open spec fn page_of<T>(entries: Seq<(Seq<char>, T)>, page: int, size: int) -> Seq<
    (Seq<char>, T),
> {
    let start = page * size;
    if start >= entries.len() {
        Seq::empty()
    } else if start + size <= entries.len() {
        entries.subrange(start, start + size)
    } else {
        entries.subrange(start, entries.len() as int)
    }
}

/// The entries of a listing, with each key seen as its characters.
pub open spec fn entries_view<T>(listing: Seq<(String, T)>) -> Seq<(Seq<char>, T)> {
    listing.map_values(|e: (String, T)| (e.0@, e.1))
}

/// Writing `value` under `key` keeps the keys distinct, makes `key` hold
/// `value`, and leaves what every other key holds as it was.
pub proof fn lemma_inserted<T>(entries: Seq<(Seq<char>, T)>, key: Seq<char>, value: T)
    requires
        keys_unique(entries),
    ensures
        keys_unique(inserted(entries, key, value)),
        has_key(inserted(entries, key, value), key),
        lookup(inserted(entries, key, value), key) == Some(value),
        forall|k: Seq<char>|
            k != key ==> #[trigger] lookup(inserted(entries, key, value), k) == lookup(entries, k),
{
    let after = inserted(entries, key, value);
    let pos = if has_key(entries, key) {
        index_of(entries, key)
    } else {
        entries.len() as int
    };
    assert(0 <= pos < after.len() && after[pos] == (key, value));
    assert(forall|i: int| 0 <= i < after.len() && i != pos ==> after[i] == entries[i]);
    assert(index_of(after, key) == pos);
    assert forall|k: Seq<char>| k != key implies #[trigger] lookup(after, k) == lookup(entries, k) by {
        if has_key(entries, k) {
            let a = index_of(entries, k);
            assert(after[a].0 == k);
            assert(has_key(after, k));
            assert(index_of(after, k) == a);
        } else if has_key(after, k) {
            let b = index_of(after, k);
            assert(entries[b].0 == k);
        }
    }
}

/// Writing the same key twice leaves a single entry under it, holding the
/// second value; the second write adds no entry.
pub proof fn lemma_overwrite<T>(entries: Seq<(Seq<char>, T)>, key: Seq<char>, first: T, second: T)
    requires
        keys_unique(entries),
    ensures
        lookup(inserted(inserted(entries, key, first), key, second), key) == Some(second),
        inserted(inserted(entries, key, first), key, second).len() == inserted(
            entries,
            key,
            first,
        ).len(),
        forall|i: int|
            0 <= i < inserted(inserted(entries, key, first), key, second).len() && (#[trigger] inserted(
                inserted(entries, key, first),
                key,
                second,
            )[i]).0 == key ==> inserted(inserted(entries, key, first), key, second)[i].1 == second,
{
    let once = inserted(entries, key, first);
    lemma_inserted(entries, key, first);
    lemma_inserted(once, key, second);
    let twice = inserted(once, key, second);
    let pos = index_of(once, key);
    assert(twice[pos] == (key, second));
    assert forall|i: int| 0 <= i < twice.len() && (#[trigger] twice[i]).0 == key implies twice[i].1
        == second by {
        assert(i == pos);
    }
}

/// The entries left by writing each of `entries` in turn.
pub open spec fn inserted_all<T>(entries: Seq<(Seq<char>, T)>) -> Seq<(Seq<char>, T)>
    decreases entries.len(),
{
    if entries.len() == 0 {
        Seq::empty()
    } else {
        let last = entries.last();
        inserted(inserted_all(entries.drop_last()), last.0, last.1)
    }
}

/// Writing entries whose keys are already distinct reproduces them exactly.
pub proof fn lemma_inserted_all_unique<T>(entries: Seq<(Seq<char>, T)>)
    requires
        keys_unique(entries),
    ensures
        inserted_all(entries) == entries,
    decreases entries.len(),
{
    if entries.len() > 0 {
        let init = entries.drop_last();
        let last = entries.last();
        assert(keys_unique(init));
        lemma_inserted_all_unique(init);
        assert(!has_key(init, last.0)) by {
            if has_key(init, last.0) {
                let i = index_of(init, last.0);
                assert(entries[i].0 == entries[entries.len() - 1].0);
            }
        }
        assert(init.push(last) =~= entries);
    }
}

/// An insertion-ordered map from string keys to values. Writing an existing
/// key replaces its value and keeps its position.
pub struct KeyedStore<T> {
    keys: Vec<String>,
    values: Vec<T>,
}

impl<T> View for KeyedStore<T> {
    type V = Seq<(Seq<char>, T)>;

    closed spec fn view(&self) -> Seq<(Seq<char>, T)> {
        Seq::new(self.keys.len() as nat, |i: int| (self.keys[i]@, self.values[i]))
    }
}

impl<T> KeyedStore<T> {
    #[verifier::type_invariant]
    closed spec fn inv(&self) -> bool {
        &&& self.keys.len() == self.values.len()
        &&& keys_unique(self@)
    }

    pub fn new() -> (r: Self)
        ensures
            r@ == Seq::<(Seq<char>, T)>::empty(),
    {
        let r = KeyedStore { keys: Vec::new(), values: Vec::new() };
        assert(r@ =~= Seq::<(Seq<char>, T)>::empty());
        r
    }

    pub fn len(&self) -> (r: usize)
        ensures
            r == self@.len(),
            keys_unique(self@),
    {
        proof {
            use_type_invariant(self);
        }
        self.keys.len()
    }

    fn position(&self, key: &String) -> (r: Option<usize>)
        ensures
            match r {
                Some(i) => i < self@.len() && self@[i as int].0 == key@ && i == index_of(
                    self@,
                    key@,
                ),
                None => !has_key(self@, key@),
            },
    {
        proof {
            use_type_invariant(self);
        }
        let mut i: usize = 0;
        while i < self.keys.len()
            invariant
                i <= self.keys.len(),
                self.keys.len() == self.values.len(),
                keys_unique(self@),
                forall|j: int| 0 <= j < i ==> self@[j].0 != key@,
            decreases self.keys.len() - i,
        {
            if self.keys[i] == *key {
                proof {
                    assert(self@[i as int].0 == key@);
                    let k = index_of(self@, key@);
                    assert(0 <= k < self@.len() && self@[k].0 == key@);
                }
                return Some(i);
            }
            i += 1;
        }
        None
    }

    pub fn contains(&self, key: &String) -> (r: bool)
        ensures
            r == has_key(self@, key@),
            keys_unique(self@),
    {
        proof {
            use_type_invariant(self);
        }
        self.position(key).is_some()
    }

    pub fn insert(&mut self, key: String, value: T)
        ensures
            final(self)@ == inserted(old(self)@, key@, value),
            keys_unique(final(self)@),
    {
        proof {
            use_type_invariant(&*self);
        }
        let ghost before = self@;
        let found = self.position(&key);
        let mut taken = KeyedStore::new();
        std::mem::swap(self, &mut taken);
        let KeyedStore { mut keys, mut values } = taken;
        match found {
            Some(i) => {
                values.set(i, value);
            },
            None => {
                keys.push(key);
                values.push(value);
            },
        }
        let ghost after = inserted(before, key@, value);
        proof {
            match found {
                Some(i) => {
                    assert(after =~= Seq::new(
                        keys.len() as nat,
                        |j: int| (keys[j]@, values[j]),
                    ));
                },
                None => {
                    assert(after =~= Seq::new(
                        keys.len() as nat,
                        |j: int| (keys[j]@, values[j]),
                    ));
                },
            }
        }
        *self = KeyedStore { keys, values };
    }
}

impl<T: Duplicate> KeyedStore<T> {
    pub fn get(&self, key: &String) -> (r: Option<T>)
        ensures
            r == lookup(self@, key@),
            keys_unique(self@),
    {
        proof {
            use_type_invariant(self);
        }
        match self.position(key) {
            Some(i) => Some(self.values[i].duplicate()),
            None => None,
        }
    }

    /// The `page`-th run of `size` entries in insertion order; past the end the
    /// listing is empty.
    pub fn page(&self, page: u32, size: u32) -> (r: Vec<(String, T)>)
        ensures
            entries_view(r@) == page_of(self@, page as int, size as int),
    {
        proof {
            use_type_invariant(self);
        }
        let len = self.keys.len();
        assert((page as int) * (size as int) <= 0xffff_ffff * 0xffff_ffff) by (nonlinear_arith)
            requires
                page <= 0xffff_ffff,
                size <= 0xffff_ffff,
        ;
        let start: u64 = page as u64 * size as u64;
        let mut out: Vec<(String, T)> = Vec::new();
        if start >= len as u64 {
            assert(entries_view(out@) =~= page_of(self@, page as int, size as int));
            return out;
        }
        let start = start as usize;
        let end: usize = if start as u64 + size as u64 <= len as u64 {
            start + size as usize
        } else {
            len
        };
        let ghost want = page_of(self@, page as int, size as int);
        assert(want =~= self@.subrange(start as int, end as int));
        let mut i: usize = start;
        while i < end
            invariant
                start <= i <= end <= len,
                len == self.keys.len(),
                self.keys.len() == self.values.len(),
                want == self@.subrange(start as int, end as int),
                entries_view(out@) =~= self@.subrange(start as int, i as int),
            decreases end - i,
        {
            let k = self.keys[i].clone();
            let v = self.values[i].duplicate();
            let ghost prev = out@;
            out.push((k, v));
            proof {
                assert(entries_view(out@) =~= entries_view(prev).push(self@[i as int]));
            }
            i += 1;
        }
        out
    }
    /// Every entry, in insertion order.
    pub fn entries(&self) -> (r: Vec<(String, T)>)
        ensures
            entries_view(r@) == self@,
    {
        proof {
            use_type_invariant(self);
        }
        let mut out: Vec<(String, T)> = Vec::new();
        let mut i: usize = 0;
        while i < self.keys.len()
            invariant
                i <= self.keys.len(),
                self.keys.len() == self.values.len(),
                entries_view(out@) =~= self@.subrange(0, i as int),
            decreases self.keys.len() - i,
        {
            let ghost prev = out@;
            out.push((self.keys[i].clone(), self.values[i].duplicate()));
            proof {
                assert(entries_view(out@) =~= entries_view(prev).push(self@[i as int]));
            }
            i += 1;
        }
        assert(self@.subrange(0, self@.len() as int) =~= self@);
        out
    }

    /// A store holding `entries` written in turn; entries whose keys are
    /// distinct come back exactly as given.
    pub fn from_entries(entries: &Vec<(String, T)>) -> (r: Self)
        ensures
            r@ == inserted_all(entries_view(entries@)),
            keys_unique(entries_view(entries@)) ==> r@ == entries_view(entries@),
    {
        let mut store = KeyedStore::new();
        let mut i: usize = 0;
        while i < entries.len()
            invariant
                i <= entries.len(),
                store@ == inserted_all(entries_view(entries@).take(i as int)),
            decreases entries.len() - i,
        {
            let key = entries[i].0.clone();
            let value = entries[i].1.duplicate();
            store.insert(key, value);
            proof {
                let all = entries_view(entries@);
                assert(all.take(i + 1).drop_last() =~= all.take(i as int));
            }
            i += 1;
        }
        assert(entries_view(entries@).take(entries@.len() as int) =~= entries_view(entries@));
        proof {
            if keys_unique(entries_view(entries@)) {
                lemma_inserted_all_unique(entries_view(entries@));
            }
        }
        store
    }
}

} // verus!
