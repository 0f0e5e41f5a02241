//! The plain values that the services share: hashes, identities of peers, signatures and moments.

use vstd::prelude::*;

verus! {

/// A cryptographic hash.
#[derive(Clone, Copy, Debug, PartialEq, Eq, Hash)]
pub struct HashValue {
    /// The bytes of the hash.
    pub bytes: [u8; 32],
}

/// The identity of a peer: the address of its account.
#[derive(Clone, Copy, Debug, Eq, Hash)]
pub struct PeerId {
    /// The bytes of the address.
    pub bytes: [u8; 32],
}

impl PartialEq for PeerId {
    fn eq(&self, other: &PeerId) -> (result: bool) {
        let mut index: usize = 0;
        while index < 32
            invariant
                0 <= index <= 32,
                forall|i: int| 0 <= i < index ==> self.bytes[i] == other.bytes[i],
            decreases 32 - index,
        {
            if self.bytes[index] != other.bytes[index] {
                return false;
            }
            index = index + 1;
        }
        assert(self.bytes =~= other.bytes);
        true
    }
}

impl vstd::std_specs::cmp::PartialEqSpecImpl for PeerId {
    open spec fn obeys_eq_spec() -> bool {
        true
    }

    open spec fn eq_spec(&self, other: &PeerId) -> bool {
        *self == *other
    }
}

/// A round of the consensus.
pub type Round = u64;

/// A BLS signature over the curve BLS12-381, in its compressed form.
#[derive(Clone, Copy, Debug, PartialEq, Eq, Hash)]
pub struct Signature {
    /// The bytes of the signature.
    pub bytes: [u8; 96],
}

/// The signatures of several validators in one.
#[derive(Debug, PartialEq, Eq, Hash)]
pub struct AggregateSignature {
    /// Which of the validators have signed, one bit for each.
    pub validator_bitmask: Vec<u8>,
    /// The aggregate of their signatures, if any has signed.
    pub sig: Option<Signature>,
}

impl Clone for AggregateSignature {
    fn clone(&self) -> (result: AggregateSignature)
        ensures
            result.validator_bitmask@ == self.validator_bitmask@,
            result.sig == self.sig,
    {
        let validator_bitmask: Vec<u8> = self.validator_bitmask.clone();
        assert(validator_bitmask@ =~= self.validator_bitmask@);
        AggregateSignature { validator_bitmask, sig: self.sig }
    }
}

/// The payload of a consensus node, encoded.
#[derive(Debug, PartialEq, Eq, Hash)]
pub struct Payload {
    /// The bytes of the payload.
    pub bytes: Vec<u8>,
}

impl Clone for Payload {
    fn clone(&self) -> (result: Payload)
        ensures
            result.bytes@ == self.bytes@,
    {
        let bytes: Vec<u8> = self.bytes.clone();
        assert(bytes@ =~= self.bytes@);
        Payload { bytes }
    }
}

/// A moment of a clock.
#[derive(Clone, Copy, Debug, PartialEq, Eq, PartialOrd, Ord, Hash, Structural)]
pub struct Instant {
    /// The nanoseconds since the clock's origin.
    pub nanos: u128,
}

} // verus!
