//! Laws of the store's operations, stated over the map that `Records` views as.
//!
//! `Records::set` turns a map `m` into `m.insert(k, v)`, `Records::remove` into
//! `m.remove(k)`, and `Records::get` answers `lookup(m, k)`; so these laws are what a
//! sequence of calls on one `Records` (or on a store whose lock is not poisoned, with
//! no other caller in between) observes. They hold for every byte sequence, the empty
//! one included.

use vstd::prelude::*;

use crate::records::lookup;

verus! {

/// After `set(k, v)`, `get(k)` answers `v`.
pub proof fn set_then_get(m: Map<Seq<u8>, Seq<u8>>, k: Seq<u8>, v: Seq<u8>)
    ensures
        lookup(m.insert(k, v), k) == Some(v),
{
}

/// After `remove(k)`, `get(k)` answers absent.
pub proof fn remove_then_get(m: Map<Seq<u8>, Seq<u8>>, k: Seq<u8>)
    ensures
        lookup(m.remove(k), k) is None,
{
}

/// `remove` of an absent key changes no key's value: the map stays as it was.
pub proof fn remove_absent_keeps_others(m: Map<Seq<u8>, Seq<u8>>, k: Seq<u8>, other: Seq<u8>)
    requires
        !m.contains_key(k),
    ensures
        m.remove(k) == m,
        lookup(m.remove(k), other) == lookup(m, other),
{
    assert(m.remove(k) =~= m);
}

/// `remove` of one key leaves every other key's value as it was.
pub proof fn remove_keeps_other_keys(m: Map<Seq<u8>, Seq<u8>>, k: Seq<u8>, other: Seq<u8>)
    requires
        other != k,
    ensures
        lookup(m.remove(k), other) == lookup(m, other),
{
}

/// `set` of a key that holds a value overwrites it: the map is as if the first value had
/// never been set, so nothing can bring the old value back.
pub proof fn set_overwrites(m: Map<Seq<u8>, Seq<u8>>, k: Seq<u8>, v1: Seq<u8>, v2: Seq<u8>)
    ensures
        m.insert(k, v1).insert(k, v2) == m.insert(k, v2),
        lookup(m.insert(k, v1).insert(k, v2), k) == Some(v2),
{
    assert(m.insert(k, v1).insert(k, v2) =~= m.insert(k, v2));
}

/// `set` of one key leaves every other key's value as it was.
pub proof fn set_keeps_other_keys(m: Map<Seq<u8>, Seq<u8>>, k: Seq<u8>, v: Seq<u8>, other: Seq<u8>)
    requires
        other != k,
    ensures
        lookup(m.insert(k, v), other) == lookup(m, other),
{
}

} // verus!
