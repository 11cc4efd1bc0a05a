//! Program-derived addresses: addresses computed from a program identity and
//! a list of seeds, for which no private key exists.

use vstd::prelude::*;
use pinocchio::pubkey::Pubkey;
use crate::bytes::copy_bytes;
use crate::codec::seed_list;
use crate::error::DelegateError;

verus! {

/// The seed that, followed by the address of a delegated account, derives
/// the address of that account's buffer: the ASCII bytes of `buffer`.
pub const BUFFER: [u8; 6] = [98, 117, 102, 102, 101, 114];

/// An address derived from seeds, with the bump that made it valid.
#[derive(Clone, Copy, Debug, PartialEq, Eq)]
pub struct DerivedAddress {
    pub address: Pubkey,
    pub bump: u8,
}

/// A derived address as mathematical values.
pub struct DerivedAddressView {
    pub address: Seq<u8>,
    pub bump: u8,
}

impl View for DerivedAddress {
    type V = DerivedAddressView;

    open spec fn view(&self) -> DerivedAddressView {
        DerivedAddressView { address: self.address@, bump: self.bump }
    }
}

/// The address and bump that the host derives from `seeds` under
/// `program_id`, or `None` where it derives none. The derivation is a hash
/// search carried out by `pinocchio::pubkey::try_find_program_address`; this
/// crate knows of it only that equal arguments give an equal result.
pub uninterp spec fn program_address(seeds: Seq<Seq<u8>>, program_id: Seq<u8>) -> Option<
    (Seq<u8>, u8),
>;

/// The byte strings that a slice of byte slices holds.
pub open spec fn slice_list(seeds: Seq<&[u8]>) -> Seq<Seq<u8>> {
    Seq::new(seeds.len(), |i: int| seeds[i]@)
}

/// Trusted: `pinocchio::pubkey::try_find_program_address` gives the address
/// and the bump seed that the seeds derive under the program, or `None` where
/// no bump seed gives a valid address or the seeds break the host's limits.
/// Built for another platform than the host's it derives nothing, and gives
/// `None` for all seeds. Its documentation calls the search deterministic in
/// its inputs; the contract claims that and nothing else: the outcome is
/// `program_address` of the seeds' bytes and the program's bytes. That the
/// address lies off the curve is the host's word, and is not stated here.
pub assume_specification[ pinocchio::pubkey::try_find_program_address ](
    seeds: &[&[u8]],
    program_id: &Pubkey,
) -> (r: Option<(Pubkey, u8)>)
    ensures
        match r {
            Some((address, bump)) => program_address(slice_list(seeds@), program_id@) == Some(
                (address@, bump),
            ),
            None => program_address(slice_list(seeds@), program_id@) is None,
        },
;

/// What deriving an address from `seeds` under `program_id` comes to: the
/// derived address and its bump, or exhaustion where the host derives none.
pub open spec fn derivation(seeds: Seq<Seq<u8>>, program_id: Seq<u8>) -> Result<
    DerivedAddressView,
    DelegateError,
> {
    match program_address(seeds, program_id) {
        Some((address, bump)) => Ok(DerivedAddressView { address, bump }),
        None => Err(DelegateError::DerivationExhausted),
    }
}

/// Whether `r` is what deriving an address from `seeds` under `program_id`
/// returns.
pub open spec fn is_derivation(
    seeds: Seq<Seq<u8>>,
    program_id: Seq<u8>,
    r: Result<DerivedAddress, DelegateError>,
) -> bool {
    match r {
        Ok(derived) => derivation(seeds, program_id) == Ok::<DerivedAddressView, DelegateError>(
            derived@,
        ),
        Err(e) => derivation(seeds, program_id) == Err::<DerivedAddressView, DelegateError>(e),
    }
}

/// Derives the address that `seeds` give under `program_id`, and its bump.
///
/// The result depends on the program identity and the seed list alone. Where
/// the host finds no valid address the derivation is exhausted.
pub fn find_program_address(seeds: &Vec<Vec<u8>>, program_id: &Pubkey) -> (r: Result<
    DerivedAddress,
    DelegateError,
>)
    ensures
        is_derivation(seed_list(seeds@), program_id@, r),
{
    let mut slices: Vec<&[u8]> = Vec::new();
    let n = seeds.len();
    let mut i: usize = 0;
    while i < n
        invariant
            i <= n,
            n == seeds@.len(),
            slices@.len() == i,
            forall|j: int| 0 <= j < i ==> (#[trigger] slices@[j])@ == seeds@[j]@,
        decreases n - i,
    {
        slices.push(seeds[i].as_slice());
        i = i + 1;
    }
    assert(slice_list(slices@) =~= seed_list(seeds@));
    match pinocchio::pubkey::try_find_program_address(slices.as_slice(), program_id) {
        Some((address, bump)) => Ok(DerivedAddress { address, bump }),
        None => Err(DelegateError::DerivationExhausted),
    }
}

/// Determinism: for one program identity and one seed list, every derivation
/// returns the same address and the same bump, or fails in the same way.
pub proof fn lemma_derivation_is_deterministic(
    seeds: Seq<Seq<u8>>,
    program_id: Seq<u8>,
    first: Result<DerivedAddress, DelegateError>,
    second: Result<DerivedAddress, DelegateError>,
)
    requires
        is_derivation(seeds, program_id, first),
        is_derivation(seeds, program_id, second),
    ensures
        first == second,
{
    match (first, second) {
        (Ok(a), Ok(b)) => {
            assert(a.address == b.address);
        },
        _ => {},
    }
}

/// The seeds of the buffer that backs up the account at `delegated`: the
/// literal `buffer`, then the account's address.
pub open spec fn buffer_seed_list(delegated: Seq<u8>) -> Seq<Seq<u8>> {
    seq![BUFFER@, delegated]
}

/// The seeds from which the buffer address of the account at `delegated` is
/// derived. They depend on that account alone, so the same buffer address is
/// found again on any later operation.
pub fn buffer_seeds(delegated: &Pubkey) -> (r: Vec<Vec<u8>>)
    ensures
        seed_list(r@) == buffer_seed_list(delegated@),
{
    let mut seeds: Vec<Vec<u8>> = Vec::new();
    let literal = BUFFER;
    seeds.push(copy_bytes(literal.as_slice()));
    seeds.push(copy_bytes(delegated.as_slice()));
    seeds
}

/// Whether two addresses are the same.
pub(crate) fn same_address(a: &Pubkey, b: &Pubkey) -> (r: bool)
    ensures
        r == (a@ == b@),
{
    let mut i: usize = 0;
    while i < 32
        invariant
            i <= 32,
            forall|j: int| 0 <= j < i ==> a@[j] == b@[j],
        decreases 32 - i,
    {
        if a[i] != b[i] {
            return false;
        }
        i = i + 1;
    }
    assert(a@ =~= b@);
    true
}

} // verus!
