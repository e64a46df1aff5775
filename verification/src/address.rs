//! The address of an owner's vault.

use vstd::prelude::*;
use crate::account::Pubkey;

verus! {

/// What the ledger's address search finds for `seeds` under `program_id`: an
/// address that no private key controls and the bump byte that leads to it,
/// or nothing where no bump byte does. The search is not defined here; the
/// name stands for its result.
pub uninterp spec fn program_address(seeds: Seq<Seq<u8>>, program_id: Seq<u8>) -> Option<
    (Seq<u8>, u8),
>;

/// The tag that sets vault addresses apart from a program's other
/// addresses: the ASCII bytes of `no-std-vault`.
pub const VAULT_SEED: [u8; 12] = [110, 111, 45, 115, 116, 100, 45, 118, 97, 117, 108, 116];

/// The vault address of `owner` under `program_id`, with its bump byte.
pub open spec fn vault_address(owner: Seq<u8>, program_id: Seq<u8>) -> Option<(Seq<u8>, u8)> {
    program_address(seq![VAULT_SEED@, owner], program_id)
}

/// What an address search handed out, with the address as a sequence of
/// bytes.
pub open spec fn derived_view(derived: Option<(Pubkey, u8)>) -> Option<(Seq<u8>, u8)> {
    match derived {
        Some((address, bump)) => Some((address@, bump)),
        None => None,
    }
}

/// Searches the address that `tag` and `owner` derive under `program_id`.
///
/// Trusted, not proved: the body calls
/// `pinocchio::pubkey::try_find_program_address` with the two seeds. That
/// function documents the search as deterministic given its inputs, and the
/// contract claims no more: what comes back is what `program_address` names
/// for these seeds and this program id. It claims nothing of which address or
/// bump byte that is. The function reports a search without result as `None`
/// and does not panic; built for a target other than the ledger's it has no
/// search to call on and reports `None` for every input. A seed is at most
/// 32 bytes long, which is the length that the ledger takes.
#[verifier::external_body]
fn try_find_program_address(tag: &[u8], owner: &Pubkey, program_id: &Pubkey) -> (r: Option<
    (Pubkey, u8),
>)
    requires
        tag@.len() <= 32,
    ensures
        match r {
            Some((address, bump)) => program_address(seq![tag@, owner@], program_id@) == Some(
                (address@, bump),
            ),
            None => program_address(seq![tag@, owner@], program_id@).is_none(),
        },
{
    pinocchio::pubkey::try_find_program_address(&[tag, owner.as_ref()], program_id)
}

/// Derives the vault address of `owner` and its bump byte; `None` where the
/// search finds no address.
pub fn derive_vault_pda(owner: &Pubkey, program_id: &Pubkey) -> (r: Option<(Pubkey, u8)>)
    ensures
        derived_view(r) == vault_address(owner@, program_id@),
{
    try_find_program_address(VAULT_SEED.as_slice(), owner, program_id)
}

/// The seeds that stand for the vault's signature where the ledger creates
/// it: the seeds of the derivation, and the bump byte that it found.
#[derive(Clone, Copy, Debug, PartialEq, Eq)]
pub struct SignerSeeds {
    /// The vault seed.
    pub tag: [u8; 12],
    /// The owner's address.
    pub owner: Pubkey,
    /// The bump byte.
    pub bump: [u8; 1],
}

impl View for SignerSeeds {
    type V = Seq<Seq<u8>>;

    /// The seeds in the order in which the ledger hashes them.
    open spec fn view(&self) -> Seq<Seq<u8>> {
        seq![self.tag@, self.owner@, self.bump@]
    }
}

/// The signer seeds of the vault of `owner` with bump byte `bump`.
pub open spec fn vault_seeds(owner: Pubkey, bump: u8) -> SignerSeeds {
    SignerSeeds { tag: VAULT_SEED, owner, bump: [bump] }
}

/// The signer seeds of the vault of `owner`: the vault seed, the owner's
/// address and the bump byte, in this order.
pub fn signer_seeds(owner: &Pubkey, bump: u8) -> (seeds: SignerSeeds)
    ensures
        seeds == vault_seeds(*owner, bump),
        seeds@ == seq![VAULT_SEED@, owner@, seq![bump]],
{
    let seeds = SignerSeeds { tag: VAULT_SEED, owner: *owner, bump: [bump] };
    assert(seeds.bump@ =~= seq![bump]);
    seeds
}

} // verus!
