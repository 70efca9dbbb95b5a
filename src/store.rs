//! `Store`: a handle on one `Records` behind a mutual-exclusion lock, shared by every clone.
//!
//! Each operation takes the lock, acts on the records and lets the lock go. Whether
//! the lock can be had is up to the rest of the process: it fails for good once a
//! holder panicked while holding it (the lock is poisoned). Then `get` answers absent
//! and `set` and `remove` do nothing; no error reaches the caller.

use vstd::prelude::*;

use std::sync::{Arc, LockResult, Mutex, MutexGuard, PoisonError};

use bytes::Bytes;

use crate::byte_buf::{bytes_content, opt_content};
use crate::records::{lookup, Records};

verus! {

#[verifier::external_type_specification]
#[verifier::external_body]
#[verifier::reject_recursive_types(T)]
pub struct ExMutex<T: ?Sized>(Mutex<T>);

#[verifier::external_type_specification]
#[verifier::external_body]
#[verifier::reject_recursive_types(T)]
pub struct ExMutexGuard<'a, T: ?Sized + 'a>(MutexGuard<'a, T>);

#[verifier::external_type_specification]
#[verifier::external_body]
#[verifier::reject_recursive_types(T)]
pub struct ExPoisonError<T>(PoisonError<T>);

/// Relies on `Mutex::new`: a lock around `r`.
#[verifier::external_body]
fn lock_around(r: Records) -> Mutex<Records> {
    Mutex::new(r)
}

/// Relies on `<MutexGuard as Deref>::deref`: the records that a held lock guards.
#[verifier::external_body]
fn held<'a, 'b>(g: &'a MutexGuard<'b, Records>) -> &'a Records {
    &**g
}

/// Relies on `<MutexGuard as DerefMut>::deref_mut`: the records that a held lock guards.
#[verifier::external_body]
fn held_mut<'a, 'b>(g: &'a mut MutexGuard<'b, Records>) -> &'a mut Records {
    &mut **g
}

/// What a lookup answers once the lock attempt is over: `records` is `None` where the
/// lock could not be had, and the answer is then absent, as for a missing key.
pub fn get_locked(records: Option<&Records>, k: &Bytes) -> (r: Option<Bytes>)
    ensures
        match records {
            Some(rs) => opt_content(r) == lookup(rs@, bytes_content(*k)),
            None => r is None,
        },
{
    match records {
        Some(rs) => rs.get(k),
        None => None,
    }
}

/// What `set` does once the lock attempt is over: `records` is `None` where the lock
/// could not be had, and nothing is written then.
pub fn set_locked(records: Option<&mut Records>, k: Bytes, v: Bytes)
    ensures
        match records {
            Some(rs) => final(rs)@ == rs@.insert(bytes_content(k), bytes_content(v)),
            None => true,
        },
{
    match records {
        Some(rs) => rs.set(k, v),
        None => {},
    }
}

/// What `remove` does once the lock attempt is over: `records` is `None` where the lock
/// could not be had, and nothing is removed then.
pub fn remove_locked(records: Option<&mut Records>, k: &Bytes)
    ensures
        match records {
            Some(rs) => final(rs)@ == rs@.remove(bytes_content(*k)),
            None => true,
        },
{
    match records {
        Some(rs) => rs.remove(k),
        None => {},
    }
}

/// A key-value store of byte sequences, safe to share between threads. A clone is one
/// more handle on the same records.
///
/// Another handle may act between any two calls, and the lock may be poisoned, so the
/// methods promise nothing of the contents themselves: what each does for either
/// outcome of taking the lock is stated by `get_locked`, `set_locked` and
/// `remove_locked`, on the map that `Records` views as.
#[derive(Clone)]
pub struct Store(Arc<Mutex<Records>>);

impl Store {
    /// A store with no keys.
    pub fn new() -> Store {
        Store(Arc::new(lock_around(Records::new())))
    }

    /// Relies on `Mutex::lock`: waits for the lock; fails where it is poisoned.
    #[verifier::external_body]
    fn acquire(&self) -> LockResult<MutexGuard<'_, Records>> {
        self.0.lock()
    }

    /// A copy of the value under `k`; absent where `k` is missing or the lock is poisoned.
    pub fn get(&self, k: Bytes) -> Option<Bytes> {
        let lock = self.acquire();
        match &lock {
            Ok(guard) => get_locked(Some(held(guard)), &k),
            Err(_) => get_locked(None, &k),
        }
    }

    /// Holds `v` under `k`, dropping the value held before; does nothing where the lock
    /// is poisoned.
    pub fn set(&self, k: Bytes, v: Bytes) {
        let mut lock = self.acquire();
        match &mut lock {
            Ok(guard) => set_locked(Some(held_mut(guard)), k, v),
            Err(_) => set_locked(None, k, v),
        }
    }

    /// Makes `k` absent; does nothing where the lock is poisoned.
    pub fn remove(&self, k: Bytes) {
        let mut lock = self.acquire();
        match &mut lock {
            Ok(guard) => remove_locked(Some(held_mut(guard)), &k),
            Err(_) => remove_locked(None, &k),
        }
    }
}

} // verus!
