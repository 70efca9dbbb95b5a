//! `Records`: the map from byte-sequence keys to byte-sequence values that a store guards.

use vstd::prelude::*;

use bytes::Bytes;

use crate::byte_buf::{as_slice, bytes_content, opt_content, same_bytes, share};

verus! {

/// The key of an entry, as bytes.
pub open spec fn key_of(e: (Bytes, Bytes)) -> Seq<u8> {
    bytes_content(e.0)
}

/// The value of an entry, as bytes.
pub open spec fn val_of(e: (Bytes, Bytes)) -> Seq<u8> {
    bytes_content(e.1)
}

/// The value that map `m` holds under key `k`, if any.
pub open spec fn lookup(m: Map<Seq<u8>, Seq<u8>>, k: Seq<u8>) -> Option<Seq<u8>> {
    if m.contains_key(k) {
        Some(m[k])
    } else {
        None
    }
}

/// Keys are unique among `entries`, and `entries` hold exactly the pairs of `m`.
spec fn entries_match(entries: Seq<(Bytes, Bytes)>, m: Map<Seq<u8>, Seq<u8>>) -> bool {
    &&& forall|i: int, j: int|
        0 <= i < j < entries.len() ==> key_of(#[trigger] entries[i]) != key_of(
            #[trigger] entries[j],
        )
    &&& forall|i: int|
        0 <= i < entries.len() ==> {
            &&& m.contains_key(#[trigger] key_of(entries[i]))
            &&& m[key_of(entries[i])] == val_of(entries[i])
        }
    &&& forall|k: Seq<u8>|
        #[trigger] m.contains_key(k) ==> exists|i: int|
            0 <= i < entries.len() && key_of(#[trigger] entries[i]) == k
}

/// A map from byte sequences to byte sequences: each key holds exactly one value.
pub struct Records {
    entries: Vec<(Bytes, Bytes)>,
    model: Ghost<Map<Seq<u8>, Seq<u8>>>,
}

impl View for Records {
    type V = Map<Seq<u8>, Seq<u8>>;

    closed spec fn view(&self) -> Map<Seq<u8>, Seq<u8>> {
        self.model@
    }
}

impl Records {
    #[verifier::type_invariant]
    spec fn inv(self) -> bool {
        entries_match(self.entries@, self.model@)
    }

    /// An empty map.
    pub fn new() -> (r: Records)
        ensures
            r@ == Map::<Seq<u8>, Seq<u8>>::empty(),
    {
        Records { entries: Vec::new(), model: Ghost(Map::empty()) }
    }

    /// Where the entry with key `k` stands, if any.
    fn find(&self, k: &[u8]) -> (r: Option<usize>)
        ensures
            match r {
                Some(i) => i < self.entries@.len() && key_of(self.entries@[i as int]) == k@,
                None => !self@.contains_key(k@),
            },
    {
        proof {
            use_type_invariant(self);
        }
        let mut i: usize = 0;
        while i < self.entries.len()
            invariant
                self.inv(),
                0 <= i <= self.entries@.len(),
                forall|j: int| 0 <= j < i ==> key_of(#[trigger] self.entries@[j]) != k@,
            decreases self.entries@.len() - i,
        {
            if same_bytes(as_slice(&self.entries[i].0), k) {
                return Some(i);
            }
            i += 1;
        }
        None
    }

    /// A copy of the value held under `k`, or `None` where `k` is absent.
    pub fn get(&self, k: &Bytes) -> (r: Option<Bytes>)
        ensures
            opt_content(r) == lookup(self@, bytes_content(*k)),
    {
        proof {
            use_type_invariant(self);
        }
        match self.find(as_slice(k)) {
            Some(i) => Some(share(&self.entries[i].1)),
            None => None,
        }
    }
    /// Takes the entries out, leaving `self` empty.
    fn take_entries(&mut self) -> (r: Vec<(Bytes, Bytes)>)
        ensures
            final(self)@ == Map::<Seq<u8>, Seq<u8>>::empty(),
            r@ == old(self).entries@,
            old(self).inv(),
    {
        proof {
            use_type_invariant(&*self);
        }
        let mut cur = Records::new();
        std::mem::swap(&mut cur, self);
        proof {
            use_type_invariant(&cur);
        }
        let Records { entries, model: _ } = cur;
        entries
    }

    /// Holds `v` under `k`; a value that `k` held before is dropped.
    pub fn set(&mut self, k: Bytes, v: Bytes)
        ensures
            final(self)@ == old(self)@.insert(bytes_content(k), bytes_content(v)),
    {
        let ghost m = old(self)@;
        let ghost kk = bytes_content(k);
        let pos = self.find(as_slice(&k));
        let mut entries = self.take_entries();
        let ghost prev = entries@;
        let ghost m2 = m.insert(kk, bytes_content(v));
        match pos {
            Some(i) => {
                entries.set(i, (k, v));
                assert forall|j: int| 0 <= j < entries@.len() implies key_of(
                    #[trigger] entries@[j],
                ) == key_of(prev[j]) by {}
                assert forall|j: int| 0 <= j < entries@.len() && j != i implies kk != key_of(
                    #[trigger] entries@[j],
                ) by {
                    if j < i {
                        assert(key_of(prev[j]) != key_of(prev[i as int]));
                    } else {
                        assert(key_of(prev[i as int]) != key_of(prev[j]));
                    }
                }
                assert forall|q: Seq<u8>| #[trigger] m2.contains_key(q) implies exists|j: int|
                    0 <= j < entries@.len() && key_of(#[trigger] entries@[j]) == q by {
                    if q != kk {
                        let j = choose|j: int| 0 <= j < prev.len() && key_of(#[trigger] prev[j]) == q;
                        assert(key_of(entries@[j]) == q);
                    } else {
                        assert(key_of(entries@[i as int]) == q);
                    }
                }
                assert forall|a: int, b: int| 0 <= a < b < entries@.len() implies key_of(
                    #[trigger] entries@[a],
                ) != key_of(#[trigger] entries@[b]) by {
                    assert(key_of(prev[a]) != key_of(prev[b]));
                }
                assert forall|j: int| 0 <= j < entries@.len() implies {
                    &&& m2.contains_key(#[trigger] key_of(entries@[j]))
                    &&& m2[key_of(entries@[j])] == val_of(entries@[j])
                } by {
                    if j != i {
                        assert(entries@[j] == prev[j]);
                    }
                }
                assert(entries_match(entries@, m2));
                *self = Records { entries, model: Ghost(m2) };
            },
            None => {
                entries.push((k, v));
                assert forall|j: int| 0 <= j < prev.len() implies #[trigger] entries@[j] == prev[j] by {}
                assert forall|j: int| 0 <= j < prev.len() implies key_of(#[trigger] prev[j]) != kk by {
                    assert(m.contains_key(key_of(prev[j])));
                }
                assert forall|a: int, b: int| 0 <= a < b < entries@.len() implies key_of(
                    #[trigger] entries@[a],
                ) != key_of(#[trigger] entries@[b]) by {
                    if b < prev.len() {
                        assert(key_of(prev[a]) != key_of(prev[b]));
                    } else {
                        assert(key_of(prev[a]) != kk);
                    }
                }
                assert forall|j: int| 0 <= j < entries@.len() implies {
                    &&& m2.contains_key(#[trigger] key_of(entries@[j]))
                    &&& m2[key_of(entries@[j])] == val_of(entries@[j])
                } by {
                    if j < prev.len() {
                        assert(key_of(prev[j]) != kk);
                    }
                }
                assert(key_of(entries@[prev.len() as int]) == kk);
                assert forall|q: Seq<u8>| #[trigger] m2.contains_key(q) implies exists|j: int|
                    0 <= j < entries@.len() && key_of(#[trigger] entries@[j]) == q by {
                    if q != kk {
                        let j = choose|j: int| 0 <= j < prev.len() && key_of(#[trigger] prev[j]) == q;
                        assert(key_of(entries@[j]) == q);
                    } else {
                        assert(key_of(entries@[prev.len() as int]) == q);
                    }
                }
                assert(entries_match(entries@, m2));
                *self = Records { entries, model: Ghost(m2) };
            },
        }
    }

    /// Makes `k` absent; a map without `k` stays as it was.
    pub fn remove(&mut self, k: &Bytes)
        ensures
            final(self)@ == old(self)@.remove(bytes_content(*k)),
    {
        let ghost m = old(self)@;
        let ghost kk = bytes_content(*k);
        match self.find(as_slice(k)) {
            Some(i) => {
                let mut entries = self.take_entries();
                let ghost prev = entries@;
                let ghost m2 = m.remove(kk);
                let ghost last = (prev.len() - 1) as int;
                let _gone = entries.swap_remove(i);
                assert forall|j: int| 0 <= j < entries@.len() implies #[trigger] entries@[j] == (
                    if j == i { prev[last] } else { prev[j] }) by {}
                assert forall|j: int| 0 <= j < entries@.len() implies key_of(#[trigger] entries@[j])
                    != kk by {
                    if j == i {
                        assert(key_of(prev[i as int]) != key_of(prev[last]));
                    } else if j < i {
                        assert(key_of(prev[j]) != key_of(prev[i as int]));
                    } else {
                        assert(key_of(prev[i as int]) != key_of(prev[j]));
                    }
                }
                assert forall|a: int, b: int| 0 <= a < b < entries@.len() implies key_of(
                    #[trigger] entries@[a],
                ) != key_of(#[trigger] entries@[b]) by {
                    if a == i {
                        assert(key_of(prev[a]) != key_of(prev[last]));
                    } else {
                        assert(key_of(prev[a]) != key_of(prev[b]));
                    }
                }
                assert forall|q: Seq<u8>| #[trigger] m2.contains_key(q) implies exists|j: int|
                    0 <= j < entries@.len() && key_of(#[trigger] entries@[j]) == q by {
                    let j = choose|j: int| 0 <= j < prev.len() && key_of(#[trigger] prev[j]) == q;
                    if j == last {
                        assert(key_of(entries@[i as int]) == q);
                    } else {
                        assert(key_of(entries@[j]) == q);
                    }
                }
                assert(entries_match(entries@, m2));
                assert(entries_match(entries@, m2));
                *self = Records { entries, model: Ghost(m2) };
            },
            None => {
                proof {
                    use_type_invariant(&*self);
                }
                assert(m.remove(kk) =~= m);
            },
        }
    }
}

} // verus!
