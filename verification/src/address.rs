//! Cluster addresses and the deterministic seed-based derivation of the data
//! account's address from the payer, a fixed seed string and the program.

use vstd::prelude::*;

verus! {

/// A 32-byte public address on the cluster.
#[derive(Clone, Copy, Debug, PartialEq, Eq)]
pub struct Address {
    pub bytes: [u8; 32],
}

impl View for Address {
    type V = Seq<u8>;

    open spec fn view(&self) -> Seq<u8> {
        self.bytes@
    }
}

impl Address {
    /// An address from its raw bytes.
    pub fn new(bytes: [u8; 32]) -> (r: Address)
        ensures
            r@ == bytes@,
    {
        Address { bytes }
    }

    /// The raw bytes of the address.
    pub fn to_bytes(&self) -> (r: [u8; 32])
        ensures
            r@ == self@,
    {
        self.bytes
    }
}

/// The reserved marker suffix `b"ProgramDerivedAddress"`. The cluster refuses
/// to derive an account address for an owner that ends with it.
pub open spec fn pda_marker() -> Seq<u8> {
    seq![
        80u8, 114u8, 111u8, 103u8, 114u8, 97u8, 109u8, 68u8, 101u8, 114u8, 105u8, 118u8, 101u8,
        100u8, 65u8, 100u8, 100u8, 114u8, 101u8, 115u8, 115u8,
    ]
}

/// True when `owner` ends with the reserved derived-address marker.
pub open spec fn ends_with_pda_marker(owner: Seq<u8>) -> bool {
    owner.len() >= 21 && owner.subrange(owner.len() - 21, owner.len() as int) == pda_marker()
}

/// The address derived from a base address, a seed and an owning program: a
/// digest of the three, determined by its arguments alone — no randomness, no
/// network access.
pub uninterp spec fn derived_address_of(base: Seq<u8>, seed: Seq<char>, owner: Seq<u8>) -> Seq<u8>;

/// Relies on `solana_sdk::pubkey::Pubkey::create_with_seed`: the result is a
/// digest of (base, seed bytes, owner), a pure function of those arguments;
/// it fails exactly when the seed exceeds 32 bytes or the owner ends with the
/// reserved derived-address marker.
#[verifier::external_body]
pub(crate) fn derive_with_seed(base: &Address, seed: &str, owner: &Address) -> (r: Option<Address>)
    ensures
        r matches Some(a) ==> a@ == derived_address_of(base@, seed@, owner@),
        r is Some ==> !vstd::string::is_ascii(seed) || (seed@.len() <= 32
            && !ends_with_pda_marker(owner@)),
        r is None ==> !vstd::string::is_ascii(seed) || seed@.len() > 32
            || ends_with_pda_marker(owner@),
{
    let b = solana_sdk::pubkey::Pubkey::new_from_array(base.bytes);
    let o = solana_sdk::pubkey::Pubkey::new_from_array(owner.bytes);
    match solana_sdk::pubkey::Pubkey::create_with_seed(&b, seed, &o) {
        Ok(pk) => Some(Address { bytes: pk.to_bytes() }),
        Err(_) => None,
    }
}

/// Determinism of derivation: two derived addresses obtained from identical
/// inputs are identical — the derivation is a pure function.
pub proof fn lemma_derivation_deterministic(a: Address, b: Address, base: Address, seed: Seq<char>, owner: Address)
    requires
        a@ == derived_address_of(base@, seed, owner@),
        b@ == derived_address_of(base@, seed, owner@),
    ensures
        a@ == b@,
{
}

} // verus!
