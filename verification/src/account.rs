//! Accounts as the vault's rules read them.

use vstd::prelude::*;

verus! {

/// An address on the ledger: 32 bytes.
pub type Pubkey = [u8; 32];

/// What the rules read of one account during one instruction. An account is
/// plain data and stands for itself in contracts.
#[derive(Clone, Copy, Debug, PartialEq, Eq)]
pub struct Account {
    /// The account's address.
    pub key: Pubkey,
    /// The program that may change the account's data: its owning-program tag.
    pub owner: Pubkey,
    /// The account's balance of native value.
    pub lamports: u64,
    /// Length of the account's data region, in bytes.
    pub data_len: usize,
    /// Whether the account's key holder authorised the instruction.
    pub is_signer: bool,
}

/// Whether two addresses are the same.
pub fn same_key(a: &Pubkey, b: &Pubkey) -> (r: bool)
    ensures
        r == (*a == *b),
        r == (a@ == b@),
{
    let mut i: usize = 0;
    while i < 32
        invariant
            i <= 32,
            forall|j: int| 0 <= j < i ==> a[j] == b[j],
        decreases 32 - i,
    {
        if a[i] != b[i] {
            return false;
        }
        i = i + 1;
    }
    assert(*a =~= *b);
    true
}

impl Account {
    /// Whether the account is tagged as owned by `program`.
    pub fn is_owned_by(&self, program: &Pubkey) -> (r: bool)
        ensures
            r == (self.owner == *program),
    {
        same_key(&self.owner, program)
    }
}

} // verus!
