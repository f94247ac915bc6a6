//! Fixed-width identifiers: account keys and operation hashes.

use vstd::prelude::*;
use vstd::std_specs::cmp::PartialEqSpecImpl;

verus! {

/// Number of bytes in a public key.
pub const PUBLIC_KEY_LENGTH: usize = 32;

/// Number of bytes in a content hash.
pub const HASH_LENGTH: usize = 32;

/// Identity of an account: the public key that signs for it.
#[derive(Clone, Copy, Debug)]
pub struct PublicKey {
    pub bytes: [u8; PUBLIC_KEY_LENGTH],
}

/// Content hash of an operation, its permanent identity in the log.
#[derive(Clone, Copy, Debug)]
pub struct ContentHash {
    pub bytes: [u8; HASH_LENGTH],
}

/// Whether two 32-byte arrays hold the same bytes.
fn bytes_equal(a: &[u8; 32], b: &[u8; 32]) -> (same: bool)
    ensures
        same == (*a == *b),
{
    broadcast use vstd::array::group_array_axioms;
    let mut i: usize = 0;
    while i < 32
        invariant
            i <= 32,
            forall|j: int| 0 <= j < i ==> a[j] == b[j],
        decreases 32 - i,
    {
        if a[i] != b[i] {
            return false;
        }
        i += 1;
    }
    assert(*a =~= *b);
    true
}

impl PublicKey {
    /// Wraps the bytes of a public key.
    pub fn new(bytes: [u8; PUBLIC_KEY_LENGTH]) -> (key: PublicKey)
        ensures
            key.bytes == bytes,
    {
        PublicKey { bytes }
    }
}

impl PartialEq for PublicKey {
    fn eq(&self, other: &PublicKey) -> (same: bool) {
        bytes_equal(&self.bytes, &other.bytes)
    }
}

impl Eq for PublicKey {}

impl PartialEqSpecImpl for PublicKey {
    open spec fn obeys_eq_spec() -> bool {
        true
    }

    open spec fn eq_spec(&self, other: &PublicKey) -> bool {
        *self == *other
    }
}

impl ContentHash {
    /// Wraps the bytes of a hash.
    pub fn new(bytes: [u8; HASH_LENGTH]) -> (hash: ContentHash)
        ensures
            hash.bytes == bytes,
    {
        ContentHash { bytes }
    }
}

impl PartialEq for ContentHash {
    fn eq(&self, other: &ContentHash) -> (same: bool) {
        bytes_equal(&self.bytes, &other.bytes)
    }
}

impl Eq for ContentHash {}

impl PartialEqSpecImpl for ContentHash {
    open spec fn obeys_eq_spec() -> bool {
        true
    }

    open spec fn eq_spec(&self, other: &ContentHash) -> bool {
        *self == *other
    }
}

} // verus!
