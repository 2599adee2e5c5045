//! Deterministic derivation of the escrow sub-account's ledger address.
//!
//! Each owner's escrow lives at an address derived purely from the owner
//! identity and the engine's fixed program identity: a pure function
//! `owner -> address`, which is how the engine controls many escrow accounts
//! without storing parent pointers. The engine's logic never looks inside an
//! address; it only needs the derivation to be deterministic.

use vstd::prelude::*;

verus! {

/// The ledger address of the escrow sub-account bound to `owner`: the
/// program-derived address under the engine's fixed seed scheme. A pure
/// function of the owner identity alone.
pub uninterp spec fn escrow_address_of(owner: u64) -> Seq<u8>;

/// Whether an escrow address can be derived for `owner` at all. The bump
/// search is itself a pure function of the seeds and the fixed program id,
/// so success too depends on the owner identity alone; it fails only in the
/// statistically improbable case that no bump seed yields a valid address.
pub uninterp spec fn escrow_address_found(owner: u64) -> bool;

/// Relies on Pubkey::try_find_program_address (reached through anchor_lang's
/// prelude): the whole derivation — the bump search included — is a pure
/// function of the seeds and the program id, here of the owner identity
/// alone, so both the outcome and the derived 32-byte address are functions
/// of `owner`; only when no bump seed yields a valid address (statistically
/// improbable) does it return None.
#[verifier::external_body]
fn find_escrow_address(owner: u64) -> (r: Option<Vec<u8>>)
    ensures
        r is Some <==> escrow_address_found(owner),
        r matches Some(a) ==> a@ == escrow_address_of(owner) && a@.len() == 32,
{
    let program_id = anchor_lang::prelude::Pubkey::from_str_const(
        "AhcabRVb9LjuirKvfpeJatRsJFq3zsrrp8vAKGTaTTr4",
    );
    let owner_bytes = owner.to_le_bytes();
    let seeds: &[&[u8]] = &[b"escrow", &owner_bytes];
    match anchor_lang::prelude::Pubkey::try_find_program_address(seeds, &program_id) {
        Some((address, _bump)) => Some(address.to_bytes().to_vec()),
        None => None,
    }
}

/// The ledger address the escrow sub-account of `owner` sits at. It returns
/// an address exactly when one is derivable for `owner`, which fails only in
/// the statistically improbable case that the bump search finds nothing.
pub fn derive_escrow(owner: u64) -> (r: Option<Vec<u8>>)
    ensures
        r is Some <==> escrow_address_found(owner),
        r matches Some(a) ==> a@ == escrow_address_of(owner) && a@.len() == 32,
{
    find_escrow_address(owner)
}

} // verus!
