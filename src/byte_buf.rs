//! What this library assumes of `bytes::Bytes`, the buffer that keys and values travel in.

use vstd::prelude::*;

verus! {

#[verifier::external_type_specification]
#[verifier::external_body]
pub struct ExBytes(bytes::Bytes);

/// The bytes that a `Bytes` handle holds.
pub uninterp spec fn bytes_content(b: bytes::Bytes) -> Seq<u8>;

/// The contents of an optional buffer.
pub open spec fn opt_content(b: Option<bytes::Bytes>) -> Option<Seq<u8>> {
    match b {
        Some(x) => Some(bytes_content(x)),
        None => None,
    }
}

/// Relies on `<Bytes as AsRef<[u8]>>::as_ref`: the slice of the bytes the handle holds.
#[verifier::external_body]
pub(crate) fn as_slice(b: &bytes::Bytes) -> (r: &[u8])
    ensures
        r@ == bytes_content(*b),
{
    b.as_ref()
}

/// Relies on `<Bytes as Clone>::clone`: a new handle on the same bytes.
#[verifier::external_body]
pub(crate) fn share(b: &bytes::Bytes) -> (r: bytes::Bytes)
    ensures
        bytes_content(r) == bytes_content(*b),
{
    b.clone()
}

/// Whether two byte slices hold the same bytes.
pub fn same_bytes(a: &[u8], b: &[u8]) -> (r: bool)
    ensures
        r == (a@ == b@),
{
    if a.len() != b.len() {
        return false;
    }
    let mut i: usize = 0;
    while i < a.len()
        invariant
            a@.len() == b@.len(),
            0 <= i <= a@.len(),
            forall|j: int| 0 <= j < i ==> a@[j] == b@[j],
        decreases a@.len() - i,
    {
        if a[i] != b[i] {
            return false;
        }
        i += 1;
    }
    assert(a@ =~= b@);
    true
}

} // verus!
