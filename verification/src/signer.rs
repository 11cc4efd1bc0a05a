//! The signer capability: what lets a program act for an address it derived,
//! in place of a private key.

use vstd::prelude::*;
use pinocchio::pubkey::Pubkey;
use crate::address::{program_address, DerivedAddress, DerivedAddressView};
use crate::bytes::copy_bytes;
use crate::codec::seed_list;

verus! {

/// The proof that a program may act for one derived address: the seeds and
/// the bump that derive it. It is an explicit value, handed to each operation
/// that needs it, and lives for one call.
#[derive(Debug, PartialEq, Eq)]
pub struct SignerCapability {
    /// The address this capability signs for.
    pub address: Pubkey,
    /// The seeds the address was derived from, in the order of derivation.
    pub seeds: Vec<Vec<u8>>,
    /// The bump that completed the derivation.
    pub bump: u8,
}

/// A capability as mathematical values.
pub struct SignerCapabilityView {
    pub address: Seq<u8>,
    pub seeds: Seq<Seq<u8>>,
    pub bump: u8,
}

impl View for SignerCapability {
    type V = SignerCapabilityView;

    open spec fn view(&self) -> SignerCapabilityView {
        SignerCapabilityView {
            address: self.address@,
            seeds: seed_list(self.seeds@),
            bump: self.bump,
        }
    }
}

impl SignerCapabilityView {
    /// The seeds as the host takes them from a signer: the seed list, then
    /// the bump as a seed of one byte.
    pub open spec fn signer_seeds(self) -> Seq<Seq<u8>> {
        self.seeds.push(seq![self.bump])
    }

    /// Whether the capability is one that `program_id` holds: its seeds
    /// derive its address, with its bump, under that program.
    pub open spec fn held_by(self, program_id: Seq<u8>) -> bool {
        program_address(self.seeds, program_id) == Some((self.address, self.bump))
    }

    /// Whether the capability lets its holder act for the account at `key`.
    pub open spec fn covers(self, key: Seq<u8>) -> bool {
        self.address == key
    }
}

/// The capability for the address that `seeds` derived.
pub open spec fn capability_for(
    seeds: Seq<Seq<u8>>,
    derived: DerivedAddressView,
) -> SignerCapabilityView {
    SignerCapabilityView { address: derived.address, seeds, bump: derived.bump }
}

/// A copy of a seed list.
pub(crate) fn clone_seeds(seeds: &Vec<Vec<u8>>) -> (r: Vec<Vec<u8>>)
    ensures
        seed_list(r@) == seed_list(seeds@),
{
    let n = seeds.len();
    let mut out: Vec<Vec<u8>> = Vec::new();
    let mut i: usize = 0;
    while i < n
        invariant
            i <= n,
            n == seeds@.len(),
            out@.len() == i,
            forall|j: int| 0 <= j < i ==> (#[trigger] out@[j])@ == seeds@[j]@,
        decreases n - i,
    {
        out.push(copy_bytes(seeds[i].as_slice()));
        i = i + 1;
    }
    out
}

impl SignerCapability {
    /// Assembles the capability for the address that `seeds` derived.
    pub fn new(seeds: &Vec<Vec<u8>>, derived: &DerivedAddress) -> (r: SignerCapability)
        ensures
            r@ == capability_for(seed_list(seeds@), derived@),
    {
        SignerCapability { address: derived.address, seeds: clone_seeds(seeds), bump: derived.bump }
    }

    /// The seeds to sign with: the seed list in the order the derivation
    /// used, with the bump appended as a seed of one byte.
    pub fn signer_seeds(&self) -> (r: Vec<Vec<u8>>)
        ensures
            seed_list(r@) == self@.signer_seeds(),
    {
        let mut out = clone_seeds(&self.seeds);
        let mut last: Vec<u8> = Vec::new();
        last.push(self.bump);
        out.push(last);
        out
    }

    /// Whether this capability lets its holder act for the account at `key`.
    pub fn covers(&self, key: &Pubkey) -> (r: bool)
        ensures
            r == self@.covers(key@),
    {
        crate::address::same_address(&self.address, key)
    }
}

impl Clone for SignerCapability {
    fn clone(&self) -> (r: Self)
        ensures
            r@ == self@,
    {
        SignerCapability { address: self.address, seeds: clone_seeds(&self.seeds), bump: self.bump }
    }
}

} // verus!
