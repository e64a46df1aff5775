//! The ways in which an instruction is rejected.

use vstd::prelude::*;

verus! {

/// Why an instruction was rejected. A rejected instruction changes nothing.
#[derive(Clone, Copy, Debug, PartialEq, Eq, Structural)]
pub enum VaultError {
    /// The opcode is unknown, or a deposit's payload is not exactly eight bytes.
    InvalidInstructionData,
    /// The amount is zero, or the vault supplied is not the one derived from
    /// the owner.
    InvalidAccountData,
    /// The owner did not sign, or the vault is not tagged as this program's.
    InvalidAccountOwner,
    /// Fewer than two accounts were supplied.
    NotEnoughAccountKeys,
    /// The vault holds nothing above the reserve, or a balance would leave
    /// the range of an unsigned 64-bit number.
    InsufficientFunds,
    /// The address search found no vault address for the owner.
    InvalidSeeds,
    /// The ledger refused what was asked of it; the code is the ledger's,
    /// handed on as it came.
    Ledger(u64),
}

} // verus!
