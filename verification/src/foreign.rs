//! The engine's calls into outside crates, each behind a trusted wrapper:
//! contract-address derivation and signature recovery from `ethers-core`,
//! and the precompiled-contract address table from `revm`.

use vstd::prelude::*;

use crate::env::SpecKind;
use crate::types::Address;

verus! {

/// The contract address the protocol derives from a sender and its nonce
/// (the Keccak-256 hash of their RLP encoding); a function of the two alone.
pub uninterp spec fn created_address(sender: Seq<u8>, nonce: u64) -> Seq<u8>;

/// Relies on ethers-core's `get_contract_address`: the standard
/// address-derivation rule from (sender, nonce); the result depends on the
/// two arguments alone.
#[verifier::external_body]
pub(crate) fn contract_address(sender: &Address, nonce: u64) -> (r: Address)
    ensures
        r@ == created_address(sender@, nonce),
{
    let h = ethers_core::utils::get_contract_address(
        ethers_core::types::H160(sender.bytes),
        ethers_core::types::U256::from(nonce),
    );
    Address { bytes: h.0 }
}

/// The sender address ECDSA recovery yields for a signature (r, s, v) over a
/// 32-byte prehash, or nothing when the signature does not recover; a
/// function of the four arguments alone.
pub uninterp spec fn recovered_sender(r: Seq<u8>, s: Seq<u8>, v: u64, hash: Seq<u8>) -> Option<
    Seq<u8>,
>;

/// Relies on ethers-core's `Signature::recover`: public-key recovery over
/// the given prehash followed by the standard address derivation; the result
/// depends on the signature fields and the hash alone.
#[verifier::external_body]
pub(crate) fn recover_signer(sig_r: &[u8; 32], sig_s: &[u8; 32], v: u64, hash: &[u8; 32]) -> (r:
    Option<Address>)
    ensures
        match r {
            Some(a) => recovered_sender(sig_r@, sig_s@, v, hash@) == Some(a@),
            None => recovered_sender(sig_r@, sig_s@, v, hash@) is None,
        },
{
    let sig = ethers_core::types::Signature {
        r: ethers_core::types::U256::from_big_endian(sig_r),
        s: ethers_core::types::U256::from_big_endian(sig_s),
        v,
    };
    let msg = ethers_core::types::RecoveryMessage::Hash(ethers_core::types::H256(*hash));
    match sig.recover(msg) {
        Ok(a) => Some(Address { bytes: a.0 }),
        Err(_) => None,
    }
}

/// The address set of the protocol's precompiled contracts under one rule
/// set; a function of the rule set alone.
pub uninterp spec fn precompile_addrs(spec: SpecKind) -> Set<Seq<u8>>;

/// Relies on revm's `Precompiles::new` and `Precompiles::addresses`: the
/// precompiled-contract table of one rule set. The table is keyed by a hash
/// map, so only the set of addresses is promised, not their order.
#[verifier::external_body]
pub(crate) fn precompile_addresses(spec: SpecKind) -> (r: Vec<Address>)
    ensures
        forall|i: int| 0 <= i < r@.len() ==> precompile_addrs(spec).contains(r@[i]@),
        forall|a: Seq<u8>|
            precompile_addrs(spec).contains(a) ==> exists|i: int|
                0 <= i < r@.len() && r@[i]@ == a,
{
    let s = match spec {
        SpecKind::Homestead => revm::precompile::SpecId::HOMESTEAD,
        SpecKind::Byzantium => revm::precompile::SpecId::BYZANTIUM,
        SpecKind::Istanbul => revm::precompile::SpecId::ISTANBUL,
        SpecKind::Berlin => revm::precompile::SpecId::BERLIN,
        SpecKind::Latest => revm::precompile::SpecId::LATEST,
    };
    revm::precompile::Precompiles::new(s)
        .addresses()
        .into_iter()
        .map(|b| Address { bytes: *b })
        .collect()
}

} // verus!
