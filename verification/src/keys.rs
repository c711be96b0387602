//! Storage key deriver: a stable 32-byte address computed from two
//! human-readable names, used to read the host's key-addressed store
//! directly, bypassing the extension dispatch path.
//!
//! The address is the concatenation of two independent 128-bit digests,
//! one of the namespace name and one of the item name. Each digest is
//! built from two independently seeded 64-bit hash lanes — seed 0 for
//! the low half, seed 1 for the high half — each written in
//! little-endian form, the same two-level namespacing scheme used by
//! systems that store named items under module and item prefixes.

use vstd::prelude::*;

use crate::codec::lemma_u64_le_bytes_injective;
use crate::codec::u64_from_le;
use crate::codec::u64_le_bytes;

verus! {

/// The 64-bit hash of `data` under `seed`, as the outside hash
/// computes it. The value depends on the seed and the bytes alone.
pub uninterp spec fn xxhash64_of(seed: u64, data: Seq<u8>) -> u64;

/// Relies on twox_hash::XxHash64::oneshot: the seeded 64-bit hash of
/// the bytes, a pure function of the seed and the bytes.
#[verifier::external_body]
fn xxhash64(seed: u64, data: &[u8]) -> (r: u64)
    ensures
        r == xxhash64_of(seed, data@),
{
    twox_hash::XxHash64::oneshot(seed, data)
}

/// The 128-bit digest of one name: the two seeded 64-bit lanes, each
/// as little-endian bytes, low lane first.
pub open spec fn digest128_of(data: Seq<u8>) -> Seq<u8> {
    u64_le_bytes(xxhash64_of(0, data)) + u64_le_bytes(xxhash64_of(1, data))
}

/// The storage address of (namespace, item): the namespace digest
/// followed by the item digest.
pub open spec fn storage_key_of(namespace: Seq<u8>, item: Seq<u8>) -> Seq<u8> {
    digest128_of(namespace) + digest128_of(item)
}

/// The 128-bit digest of one name, as 16 bytes.
fn digest128(data: &[u8]) -> (r: Vec<u8>)
    ensures
        r@ == digest128_of(data@),
        r@.len() == 16,
{
    let low = crate::codec::encode_u64(xxhash64(0, data));
    let high = crate::codec::encode_u64(xxhash64(1, data));
    let mut r = low;
    let mut i: usize = 0;
    while i < high.len()
        invariant
            high@.len() == 8,
            i <= 8,
            r@ == u64_le_bytes(xxhash64_of(0, data@)) + high@.subrange(0, i as int),
        decreases high@.len() - i,
    {
        let b = high[i];
        r.push(b);
        i = i + 1;
        proof {
            assert(r@ =~= u64_le_bytes(xxhash64_of(0, data@)) + high@.subrange(0, i as int));
        }
    }
    proof {
        assert(high@.subrange(0, 8) =~= high@);
        assert(r@ =~= digest128_of(data@));
    }
    r
}

/// Derive the 32-byte storage address of (namespace, item).
///
/// The result is a function of the two names alone: the same pair
/// always yields the same 32 bytes, with no state and no reads.
pub fn derive_key(namespace: &[u8], item: &[u8]) -> (r: Vec<u8>)
    ensures
        r@ == storage_key_of(namespace@, item@),
        r@.len() == 32,
{
    let ns = digest128(namespace);
    let it = digest128(item);
    let mut r = ns;
    let mut i: usize = 0;
    while i < it.len()
        invariant
            it@.len() == 16,
            it@ == digest128_of(item@),
            i <= 16,
            r@ == digest128_of(namespace@) + it@.subrange(0, i as int),
        decreases it@.len() - i,
    {
        let b = it[i];
        r.push(b);
        i = i + 1;
        proof {
            assert(r@ =~= digest128_of(namespace@) + it@.subrange(0, i as int));
        }
    }
    proof {
        assert(it@.subrange(0, 16) =~= it@);
        assert(r@ =~= storage_key_of(namespace@, item@));
    }
    r
}

/// Distinct low-lane digests separate namespaces: whenever the seeded
/// hash tells two namespaces apart, their storage addresses differ,
/// whatever the item name.
pub proof fn lemma_namespace_separates(ns1: Seq<u8>, ns2: Seq<u8>, item: Seq<u8>)
    requires
        xxhash64_of(0, ns1) != xxhash64_of(0, ns2),
    ensures
        storage_key_of(ns1, item) != storage_key_of(ns2, item),
{
    lemma_u64_le_bytes_injective(xxhash64_of(0, ns1), xxhash64_of(0, ns2));
    let k1 = storage_key_of(ns1, item);
    let k2 = storage_key_of(ns2, item);
    let a = u64_le_bytes(xxhash64_of(0, ns1));
    let b = u64_le_bytes(xxhash64_of(0, ns2));
    assert(exists|j: int| 0 <= j < 8 && a[j] != b[j]) by {
        assert(a.len() == 8 && b.len() == 8);
        if forall|j: int| 0 <= j < 8 ==> a[j] == #[trigger] b[j] {
            assert(a =~= b);
        }
    }
    let j = choose|j: int| 0 <= j < 8 && a[j] != b[j];
    assert(k1[j] == a[j]);
    assert(k2[j] == b[j]);
}

/// Distinct low-lane digests separate items in the same way.
pub proof fn lemma_item_separates(namespace: Seq<u8>, it1: Seq<u8>, it2: Seq<u8>)
    requires
        xxhash64_of(0, it1) != xxhash64_of(0, it2),
    ensures
        storage_key_of(namespace, it1) != storage_key_of(namespace, it2),
{
    lemma_u64_le_bytes_injective(xxhash64_of(0, it1), xxhash64_of(0, it2));
    let k1 = storage_key_of(namespace, it1);
    let k2 = storage_key_of(namespace, it2);
    let a = u64_le_bytes(xxhash64_of(0, it1));
    let b = u64_le_bytes(xxhash64_of(0, it2));
    assert(exists|j: int| 0 <= j < 8 && a[j] != b[j]) by {
        assert(a.len() == 8 && b.len() == 8);
        if forall|j: int| 0 <= j < 8 ==> a[j] == #[trigger] b[j] {
            assert(a =~= b);
        }
    }
    let j = choose|j: int| 0 <= j < 8 && a[j] != b[j];
    assert(k1[16 + j] == a[j]);
    assert(k2[16 + j] == b[j]);
}

/// What one direct read of the store at a derived address came to.
///
/// A missing key and an undecodable value are different causes; the
/// compatibility path collapses both to "no value".
#[derive(Clone, Copy, Debug, PartialEq, Eq, Structural)]
pub enum StorageReadOutcome {
    /// The key was present and its bytes decoded to a 64-bit value.
    Found(u64),
    /// The key was absent from the store.
    NotFound,
    /// The key was present but its bytes could not be decoded.
    DecodeFailure,
}

/// Classify the raw answer of the host's "read bytes at address"
/// capability: no bytes means the key is missing; eight bytes decode
/// to the stored value; any other width is a decode failure.
pub fn classify_storage_read(raw: Option<&Vec<u8>>) -> (r: StorageReadOutcome)
    ensures
        raw is None ==> r == StorageReadOutcome::NotFound,
        raw matches Some(b) ==> r == (if b@.len() == 8 {
            StorageReadOutcome::Found(u64_from_le(b@))
        } else {
            StorageReadOutcome::DecodeFailure
        }),
{
    match raw {
        None => StorageReadOutcome::NotFound,
        Some(bytes) => match crate::codec::decode_u64(bytes.as_slice()) {
            Ok(v) => StorageReadOutcome::Found(v),
            Err(_) => StorageReadOutcome::DecodeFailure,
        },
    }
}

/// The best-effort compatibility read: a missing key and a decode
/// failure both come back as no value, a found value as the value.
pub fn storage_read_value(raw: Option<&Vec<u8>>) -> (r: Option<u64>)
    ensures
        raw is None ==> r is None,
        raw matches Some(b) ==> r == (if b@.len() == 8 {
            Some(u64_from_le(b@))
        } else {
            None::<u64>
        }),
{
    match classify_storage_read(raw) {
        StorageReadOutcome::Found(v) => Some(v),
        StorageReadOutcome::NotFound => None,
        StorageReadOutcome::DecodeFailure => None,
    }
}

} // verus!
