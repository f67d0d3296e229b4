//! Account addresses.

use vstd::prelude::*;
use vstd::bytes::{
    lemma_auto_spec_u128_to_from_le_bytes, spec_u128_from_le_bytes, spec_u128_to_le_bytes,
    u128_from_le_bytes, u128_to_le_bytes,
};
use vstd::slice::slice_subrange;

verus! {

/// A 256-bit account address, held as its two 128-bit halves.
///
/// The same type names authorities (who controls a record) and data entries
/// (which observation a vote is about). Two keys are equal exactly when both
/// halves are equal.
#[derive(Clone, Copy, Debug, PartialEq, Eq, Structural, Hash)]
pub struct PublicKey {
    /// The most significant 128 bits.
    pub hi: u128,
    /// The least significant 128 bits.
    pub lo: u128,
}

impl PublicKey {
    /// The pair of halves that identifies this key in an ordered set.
    pub open spec fn words(self) -> (u128, u128) {
        (self.hi, self.lo)
    }

    /// The key that thirty-two bytes spell: a 256-bit number, least
    /// significant byte first.
    pub open spec fn of_bytes(bytes: Seq<u8>) -> PublicKey {
        PublicKey {
            hi: spec_u128_from_le_bytes(bytes.subrange(16, 32)),
            lo: spec_u128_from_le_bytes(bytes.subrange(0, 16)),
        }
    }

    /// The thirty-two bytes that spell this key, least significant first.
    pub open spec fn bytes(self) -> Seq<u8> {
        spec_u128_to_le_bytes(self.lo) + spec_u128_to_le_bytes(self.hi)
    }

    /// Bytes and keys stand for each other one to one: spelling a key and
    /// reading it back gives the key, and reading thirty-two bytes and
    /// spelling the key gives the bytes.
    pub proof fn law_bytes_round_trip(key: PublicKey, bytes: Seq<u8>)
        ensures
            key.bytes().len() == 32,
            PublicKey::of_bytes(key.bytes()) == key,
            bytes.len() == 32 ==> PublicKey::of_bytes(bytes).bytes() == bytes,
    {
        lemma_auto_spec_u128_to_from_le_bytes();
        assert(key.bytes().subrange(0, 16) =~= spec_u128_to_le_bytes(key.lo));
        assert(key.bytes().subrange(16, 32) =~= spec_u128_to_le_bytes(key.hi));
        if bytes.len() == 32 {
            assert(bytes.subrange(0, 16) + bytes.subrange(16, 32) =~= bytes);
        }
    }

    /// Reads a key from its thirty-two bytes.
    pub fn from_bytes(bytes: &[u8; 32]) -> (key: PublicKey)
        ensures
            key == PublicKey::of_bytes(bytes@),
    {
        let all: &[u8] = bytes.as_slice();
        let lo: u128 = u128_from_le_bytes(slice_subrange(all, 0, 16));
        let hi: u128 = u128_from_le_bytes(slice_subrange(all, 16, 32));
        PublicKey { hi, lo }
    }

    /// Spells this key as thirty-two bytes.
    pub fn to_bytes(&self) -> (bytes: [u8; 32])
        ensures
            bytes@ == self.bytes(),
    {
        let lo: Vec<u8> = u128_to_le_bytes(self.lo);
        let hi: Vec<u8> = u128_to_le_bytes(self.hi);
        let mut bytes: [u8; 32] = [0u8; 32];
        let mut i: usize = 0;
        while i < 16
            invariant
                i <= 16,
                lo@.len() == 16,
                hi@.len() == 16,
                forall|j: int| 0 <= j < i ==> bytes@[j] == lo@[j] && bytes@[j + 16] == hi@[j],
            decreases 16 - i,
        {
            bytes[i] = lo[i];
            bytes[i + 16] = hi[i];
            i += 1;
        }
        assert(bytes@ =~= lo@ + hi@);
        bytes
    }

    /// The key whose halves are `hi` and `lo`.
    pub fn new(hi: u128, lo: u128) -> (key: PublicKey)
        ensures
            key == (PublicKey { hi, lo }),
    {
        PublicKey { hi, lo }
    }
}

} // verus!
