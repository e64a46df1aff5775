//! A custodial vault for a ledger of accounts: an owner deposits native value
//! into a vault account whose address is derived from the owner's own, and
//! later withdraws everything above the ledger's minimum reserve.
//!
//! The crate holds the decisions of the two operations and states them as
//! contracts. Accounts are plain values. What only the ledger can do (look
//! up the minimum reserve, create an account, move value, write a balance)
//! an instruction asks for, one request at a time: the caller carries the
//! request out, files the ledger's answer, and asks the instruction again,
//! until it is done and gives its settlement, or is rejected.

use vstd::prelude::*;

pub mod account;
pub mod address;
pub mod amount;
pub mod error;
pub mod instructions;
pub mod laws;

use crate::account::{Account, Pubkey};
use crate::address::derived_view;
use crate::error::VaultError;
use crate::instructions::{decoded_instruction, Answers, Instruction, Progress};

verus! {

/// What an instruction comes to on the accounts supplied, given what the
/// address search found for the owner and what the ledger has answered: the
/// instruction is read, then taken as far as the answers reach.
pub open spec fn instruction_outcome(
    accounts: Seq<Account>,
    data: Seq<u8>,
    program_id: Pubkey,
    derived: Option<(Seq<u8>, u8)>,
    answers: Answers,
) -> Result<Progress, VaultError> {
    match decoded_instruction(data, accounts) {
        Ok(instruction) => instruction.outcome(program_id, derived, answers),
        Err(e) => Err(e),
    }
}

/// The accounts once an instruction has come to `outcome`: owner and vault as
/// the settlement says where the instruction is done, and every account as it
/// was where it is rejected or has to ask the ledger first.
pub open spec fn accounts_after(
    accounts: Seq<Account>,
    outcome: Result<Progress, VaultError>,
) -> Seq<Account> {
    match outcome {
        Ok(Progress::Done(settlement)) => accounts.update(0, settlement.owner).update(
            1,
            settlement.vault,
        ),
        _ => accounts,
    }
}

/// Writes the settlement of an instruction that is done to the accounts.
fn commit(accounts: &mut Vec<Account>, outcome: Result<Progress, VaultError>) -> (r: Result<
    Progress,
    VaultError,
>)
    requires
        outcome is Ok ==> old(accounts)@.len() >= 2,
    ensures
        r == outcome,
        final(accounts)@ == accounts_after(old(accounts)@, outcome),
{
    match outcome {
        Ok(Progress::Done(settlement)) => {
            accounts[0] = settlement.owner;
            accounts[1] = settlement.vault;
            Ok(Progress::Done(settlement))
        },
        Ok(Progress::Ask(request)) => Ok(Progress::Ask(request)),
        Err(e) => Err(e),
    }
}

/// Takes one instruction as far as the ledger's answers reach, as
/// `process_instruction` does, but against a given result of the address
/// search for the owner, the first account.
pub fn process_instruction_with(
    program_id: &Pubkey,
    accounts: &mut Vec<Account>,
    data: &[u8],
    derived: Option<(Pubkey, u8)>,
    answers: &Answers,
) -> (r: Result<Progress, VaultError>)
    ensures
        r == instruction_outcome(
            old(accounts)@,
            data@,
            *program_id,
            derived_view(derived),
            *answers,
        ),
        final(accounts)@ == accounts_after(old(accounts)@, r),
{
    let outcome = match Instruction::decode(data, accounts.as_slice()) {
        Ok(instruction) => instruction.process_with(program_id, derived, answers),
        Err(e) => Err(e),
    };
    commit(accounts, outcome)
}

/// Takes one instruction on the accounts supplied as far as the ledger's
/// answers reach: the first account is the owner, the second the vault. The
/// vault address is searched for the owner once, where the instruction first
/// needs it, and filed with the answers. An instruction that is done leaves
/// the two accounts as its settlement says; one that is rejected, or that has
/// to ask the ledger first, leaves every account as it was.
pub fn process_instruction(
    program_id: &Pubkey,
    accounts: &mut Vec<Account>,
    data: &[u8],
    answers: &mut Answers,
) -> (r: Result<Progress, VaultError>)
    ensures
        r == instruction_outcome(
            old(accounts)@,
            data@,
            *program_id,
            old(answers).derivation(old(accounts)@[0].key, *program_id),
            *old(answers),
        ),
        final(accounts)@ == accounts_after(old(accounts)@, r),
        final(answers).searched(*old(answers), old(accounts)@[0].key, *program_id),
{
    let outcome = match Instruction::decode(data, accounts.as_slice()) {
        Ok(instruction) => instruction.process(program_id, answers),
        Err(e) => Err(e),
    };
    commit(accounts, outcome)
}

} // verus!
