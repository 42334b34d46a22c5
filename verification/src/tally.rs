//! The ciphertext tally store: ten opaque ciphertext slots plus a nonce.
//!
//! Slots are fixed 32-byte blobs with no locally inspectable structure; the
//! core never branches on their contents. The store is replaced wholesale,
//! either by a successful init/vote callback payload from the compute engine
//! (which must re-randomize: the new nonce strictly differs from the old one)
//! or by the archive step, which resets it to the all-zero state under a
//! fresh nonce.

use vstd::prelude::*;

verus! {

/// Byte length of one ciphertext blob.
pub const CIPHERTEXT_BYTES: usize = 32;

/// Number of tally slots, one per possible proposal.
pub const TALLY_SLOTS: usize = 10;

/// One opaque ciphertext blob.
pub type Ciphertext = [u8; CIPHERTEXT_BYTES];

/// Holds whether every byte of the blob is zero.
pub open spec fn is_zero_ciphertext(c: Ciphertext) -> bool {
    forall|i: int| 0 <= i < CIPHERTEXT_BYTES ==> c@[i] == 0
}

/// Builds the all-zero ciphertext blob.
pub fn zero_ciphertext() -> (c: Ciphertext)
    ensures
        is_zero_ciphertext(c),
{
    [0u8; CIPHERTEXT_BYTES]
}

/// Byte-for-byte equality of two 32-byte values (account keys and
/// ciphertext blobs share this shape).
pub fn bytes32_eq(a: &Ciphertext, b: &Ciphertext) -> (r: bool)
    ensures
        r == (a@ == b@),
{
    let mut i: usize = 0;
    while i < CIPHERTEXT_BYTES
        invariant
            0 <= i <= CIPHERTEXT_BYTES,
            forall|j: int| 0 <= j < i ==> a@[j] == b@[j],
        decreases CIPHERTEXT_BYTES - i,
    {
        if a[i] != b[i] {
            assert(a@ != b@);
            return false;
        }
        i += 1;
    }
    proof {
        assert(a@ =~= b@);
    }
    true
}

/// The authoritative encrypted per-proposal vote counters and their nonce.
pub struct CiphertextTally {
    /// One encrypted counter per proposal slot.
    pub slots: [Ciphertext; TALLY_SLOTS],
    /// Re-randomization nonce; changes on every successful tally update.
    pub nonce: u128,
}

impl CiphertextTally {
    /// Holds whether every slot is the all-zero blob.
    pub open spec fn is_zero_state(self) -> bool {
        forall|i: int| 0 <= i < TALLY_SLOTS ==> is_zero_ciphertext(self.slots@[i])
    }

    /// Builds the fresh all-zero tally under the given nonce.
    pub fn zero_state(nonce: u128) -> (t: CiphertextTally)
        ensures
            t.is_zero_state(),
            t.nonce == nonce,
    {
        let zero = zero_ciphertext();
        let slots = [zero; TALLY_SLOTS];
        CiphertextTally { slots, nonce }
    }
}

} // verus!
