//! The two operations of the vault, deposit and withdrawal, and what each
//! decides.

use vstd::prelude::*;
use crate::account::{same_key, Account, Pubkey};
use crate::address::{
    derive_vault_pda, derived_view, signer_seeds, vault_address, vault_seeds, SignerSeeds,
};
use crate::amount::{parse_amount, parsed_amount};
use crate::error::VaultError;

verus! {

/// Length of a vault's data region: an 8-byte marker and 8 reserved bytes.
pub const VAULT_DATA_LEN: usize = 16;

/// What the ledger is asked to create where an owner has no vault yet. The
/// reserve comes from the account that the caller names as paying for the
/// creation; no settlement counts it against the owner.
#[derive(Clone, Copy, Debug, PartialEq, Eq)]
pub struct VaultCreation {
    /// The balance that the new account starts with: the minimum reserve.
    pub lamports: u64,
    /// The length of the new account's data region.
    pub space: u64,
    /// The seeds that reproduce the vault's address and so authorise the
    /// creation.
    pub seeds: SignerSeeds,
}

/// What an instruction asks of the ledger. The caller carries a request out
/// and files the ledger's answer.
#[derive(Clone, Copy, Debug, PartialEq, Eq)]
pub enum Request {
    /// Look up the minimum reserve of an account with a data region of
    /// `data_len` bytes.
    Reserve { data_len: usize },
    /// Create the vault's account.
    Create(VaultCreation),
    /// Move `lamports` from the owner to the vault.
    Transfer { lamports: u64 },
    /// Write the two balances.
    Write { owner_lamports: u64, vault_lamports: u64 },
}

/// What the ledger has answered so far. A request that was not made yet has
/// no answer; one that was made has succeeded, or failed with the ledger's
/// error code.
#[derive(Clone, Copy, Debug, PartialEq, Eq)]
pub struct Answers {
    /// What the address search found for the owner, once `process` has made
    /// it. An instruction searches once and goes by what is filed here
    /// afterwards.
    pub address: Option<Option<(Pubkey, u8)>>,
    /// The minimum reserve that was looked up.
    pub reserve: Option<Result<u64, u64>>,
    /// How the creation of the vault went.
    pub creation: Option<Result<(), u64>>,
    /// How the transfer went.
    pub transfer: Option<Result<(), u64>>,
    /// How the writing of the balances went.
    pub write: Option<Result<(), u64>>,
}

impl Answers {
    /// No answer to any request.
    pub open spec fn none() -> Answers {
        Answers { address: None, reserve: None, creation: None, transfer: None, write: None }
    }

    /// Every request carried out, with `reserve` as the minimum reserve.
    pub open spec fn carried_out(reserve: u64) -> Answers {
        Answers {
            address: None,
            reserve: Some(Ok(reserve)),
            creation: Some(Ok(())),
            transfer: Some(Ok(())),
            write: Some(Ok(())),
        }
    }

    /// The answers before anything was asked.
    pub fn new() -> (answers: Answers)
        ensures
            answers == Answers::none(),
    {
        Answers { address: None, reserve: None, creation: None, transfer: None, write: None }
    }

    /// What an instruction on `owner` goes by as the result of the address
    /// search: what is filed, or else what the search finds.
    pub open spec fn derivation(self, owner: Pubkey, program_id: Pubkey) -> Option<(Seq<u8>, u8)> {
        match self.address {
            Some(found) => derived_view(found),
            None => vault_address(owner@, program_id@),
        }
    }

    /// Whether these answers are `before` with at most the result of an
    /// address search for `owner` filed: nothing else has changed, what was
    /// filed before stays, and what is newly filed is what the search finds.
    pub open spec fn searched(self, before: Answers, owner: Pubkey, program_id: Pubkey) -> bool {
        &&& self == Answers { address: self.address, ..before }
        &&& before.address is Some ==> self.address == before.address
        &&& self.derivation(owner, program_id) == before.derivation(owner, program_id)
    }

    /// Searches the vault address of `owner`, unless a result is filed, and
    /// files what it finds.
    fn search(&mut self, owner: &Pubkey, program_id: &Pubkey) -> (found: Option<(Pubkey, u8)>)
        ensures
            derived_view(found) == old(self).derivation(*owner, *program_id),
            final(self).address == Some(found),
            final(self).searched(*old(self), *owner, *program_id),
    {
        match self.address {
            Some(found) => found,
            None => {
                let found = derive_vault_pda(owner, program_id);
                self.address = Some(found);
                found
            },
        }
    }
}

/// How an accepted instruction leaves the two accounts. The balances are
/// those that the instruction itself accounts for: the amount that moved.
#[derive(Clone, Copy, Debug, PartialEq, Eq)]
pub struct Settlement {
    /// The owner's account after the instruction.
    pub owner: Account,
    /// The vault's account after the instruction.
    pub vault: Account,
    /// The value that moved between owner and vault.
    pub amount: u64,
    /// The account that the ledger had to create first, if any.
    pub creation: Option<VaultCreation>,
}

/// How far an instruction has come.
#[derive(Clone, Copy, Debug, PartialEq, Eq)]
pub enum Progress {
    /// The ledger has to be asked for something before the instruction can go
    /// on.
    Ask(Request),
    /// The instruction is carried out.
    Done(Settlement),
}

/// What the check for the vault finds.
#[derive(Clone, Copy, Debug, PartialEq, Eq)]
pub enum VaultStatus {
    /// The vault does not exist yet, and the ledger has to be asked first.
    Pending(Request),
    /// The vault stands: as it was found, or as the ledger created it.
    Standing { vault: Account, creation: Option<VaultCreation> },
}

/// The vault as the ledger creates it: at the vault's address, tagged as
/// this program's, with the reserve as its balance.
pub open spec fn created_vault(
    vault: Account,
    program_id: Pubkey,
    creation: VaultCreation,
) -> Account {
    Account {
        key: vault.key,
        owner: program_id,
        lamports: creation.lamports,
        data_len: creation.space as usize,
        is_signer: vault.is_signer,
    }
}

/// Whether the vault is there, and what has to be asked of the ledger if it
/// is not. A vault with no balance counts as absent; it is created at the
/// address derived from the owner and nowhere else.
pub open spec fn vault_existence(
    owner: Account,
    vault: Account,
    program_id: Pubkey,
    derived: Option<(Seq<u8>, u8)>,
    answers: Answers,
) -> Result<VaultStatus, VaultError> {
    if !owner.is_signer {
        Err(VaultError::InvalidAccountOwner)
    } else if vault.lamports != 0 {
        if vault.owner != program_id {
            Err(VaultError::InvalidAccountOwner)
        } else {
            Ok(VaultStatus::Standing { vault, creation: None })
        }
    } else {
        match derived {
            None => Err(VaultError::InvalidSeeds),
            Some((address, bump)) => if vault.key@ != address {
                Err(VaultError::InvalidAccountData)
            } else {
                match answers.reserve {
                    None => Ok(VaultStatus::Pending(Request::Reserve { data_len: VAULT_DATA_LEN })),
                    Some(Err(code)) => Err(VaultError::Ledger(code)),
                    Some(Ok(reserve)) => {
                        let creation = VaultCreation {
                            lamports: reserve,
                            space: VAULT_DATA_LEN as u64,
                            seeds: vault_seeds(owner.key, bump),
                        };
                        match answers.creation {
                            None => Ok(VaultStatus::Pending(Request::Create(creation))),
                            Some(Err(code)) => Err(VaultError::Ledger(code)),
                            Some(Ok(_)) => Ok(
                                VaultStatus::Standing {
                                    vault: created_vault(vault, program_id, creation),
                                    creation: Some(creation),
                                },
                            ),
                        }
                    },
                }
            },
        }
    }
}

/// Checks that the owner signed and that the vault, where it exists, is this
/// program's. Where it does not exist yet, it must be the account at the
/// address derived from the owner; the minimum reserve is looked up, and the
/// ledger creates the account with it.
pub fn check_vault_existence(
    owner: &Account,
    vault: &Account,
    program_id: &Pubkey,
    derived: Option<(Pubkey, u8)>,
    answers: &Answers,
) -> (r: Result<VaultStatus, VaultError>)
    ensures
        r == vault_existence(*owner, *vault, *program_id, derived_view(derived), *answers),
{
    if !owner.is_signer {
        return Err(VaultError::InvalidAccountOwner);
    }
    if vault.lamports != 0 {
        if !vault.is_owned_by(program_id) {
            return Err(VaultError::InvalidAccountOwner);
        }
        return Ok(VaultStatus::Standing { vault: *vault, creation: None });
    }
    let (address, bump) = match derived {
        Some(found) => found,
        None => {
            return Err(VaultError::InvalidSeeds);
        },
    };
    if !same_key(&vault.key, &address) {
        return Err(VaultError::InvalidAccountData);
    }
    let reserve = match answers.reserve {
        None => {
            return Ok(VaultStatus::Pending(Request::Reserve { data_len: VAULT_DATA_LEN }));
        },
        Some(Err(code)) => {
            return Err(VaultError::Ledger(code));
        },
        Some(Ok(reserve)) => reserve,
    };
    let creation = VaultCreation {
        lamports: reserve,
        space: VAULT_DATA_LEN as u64,
        seeds: signer_seeds(&owner.key, bump),
    };
    match answers.creation {
        None => Ok(VaultStatus::Pending(Request::Create(creation))),
        Some(Err(code)) => Err(VaultError::Ledger(code)),
        Some(Ok(_)) => Ok(
            VaultStatus::Standing {
                vault: Account {
                    key: vault.key,
                    owner: *program_id,
                    lamports: creation.lamports,
                    data_len: VAULT_DATA_LEN,
                    is_signer: vault.is_signer,
                },
                creation: Some(creation),
            },
        ),
    }
}

/// What a deposit of `amount` comes to, given what the address search found
/// and what the ledger has answered: the first check that fails, in the order
/// in which the checks are made; the ledger's error, where it refused a
/// request; the next request; or, once the ledger has moved `amount`, the two
/// accounts with `amount` moved from the owner to the vault.
///
/// Whether the owner can pay is for the ledger to say when it is asked for
/// the transfer: the transfer is asked for whatever the accounts hold, and a
/// refusal is handed on. Only where the ledger reports a transfer as done
/// whose balances cannot be written down as unsigned 64-bit numbers is the
/// deposit rejected here, for insufficient funds.
pub open spec fn deposit_outcome(
    owner: Account,
    vault: Account,
    amount: u64,
    program_id: Pubkey,
    derived: Option<(Seq<u8>, u8)>,
    answers: Answers,
) -> Result<Progress, VaultError> {
    if amount == 0 {
        Err(VaultError::InvalidAccountData)
    } else {
        match vault_existence(owner, vault, program_id, derived, answers) {
            Err(e) => Err(e),
            Ok(VaultStatus::Pending(request)) => Ok(Progress::Ask(request)),
            Ok(VaultStatus::Standing { vault: standing, creation }) => match answers.transfer {
                None => Ok(Progress::Ask(Request::Transfer { lamports: amount })),
                Some(Err(code)) => Err(VaultError::Ledger(code)),
                Some(Ok(_)) => if owner.lamports < amount || standing.lamports + amount
                    > u64::MAX {
                    Err(VaultError::InsufficientFunds)
                } else {
                    Ok(
                        Progress::Done(
                            Settlement {
                                owner: Account {
                                    lamports: (owner.lamports - amount) as u64,
                                    ..owner
                                },
                                vault: Account {
                                    lamports: (standing.lamports + amount) as u64,
                                    ..standing
                                },
                                amount,
                                creation,
                            },
                        ),
                    )
                },
            },
        }
    }
}

/// The deposit that a payload and the accounts supplied spell. A payload
/// that spells no amount is rejected whatever the accounts.
pub open spec fn decoded_deposit<'a>(data: Seq<u8>, accounts: Seq<Account>) -> Result<
    Deposit<'a>,
    VaultError,
> {
    match parsed_amount(data) {
        Err(e) => Err(e),
        Ok(amount) => if accounts.len() < 2 {
            Err(VaultError::NotEnoughAccountKeys)
        } else {
            Ok(Deposit { owner: &accounts[0], vault: &accounts[1], amount })
        },
    }
}

/// A deposit: `amount` is to move from the owner's account to the vault.
#[derive(Clone, Copy, Debug, PartialEq, Eq)]
pub struct Deposit<'a> {
    /// The account that pays, and that the vault belongs to.
    pub owner: &'a Account,
    /// The vault.
    pub vault: &'a Account,
    /// The value to move. Zero is not a deposit.
    pub amount: u64,
}

impl<'a> Deposit<'a> {
    /// The opcode of a deposit.
    pub const DISCRIMINATOR: &'a u8 = &0;

    /// Takes the deposit as far as the ledger's answers reach, against a
    /// given result of the address search.
    pub fn process_with(
        self,
        program_id: &Pubkey,
        derived: Option<(Pubkey, u8)>,
        answers: &Answers,
    ) -> (r: Result<Progress, VaultError>)
        ensures
            r == deposit_outcome(
                *self.owner,
                *self.vault,
                self.amount,
                *program_id,
                derived_view(derived),
                *answers,
            ),
    {
        if self.amount == 0 {
            return Err(VaultError::InvalidAccountData);
        }
        let (standing, creation) = match check_vault_existence(
            self.owner,
            self.vault,
            program_id,
            derived,
            answers,
        ) {
            Err(e) => {
                return Err(e);
            },
            Ok(VaultStatus::Pending(request)) => {
                return Ok(Progress::Ask(request));
            },
            Ok(VaultStatus::Standing { vault, creation }) => (vault, creation),
        };
        match answers.transfer {
            None => {
                return Ok(Progress::Ask(Request::Transfer { lamports: self.amount }));
            },
            Some(Err(code)) => {
                return Err(VaultError::Ledger(code));
            },
            Some(Ok(_)) => {},
        }
        let owner_lamports = match self.owner.lamports.checked_sub(self.amount) {
            Some(lamports) => lamports,
            None => {
                return Err(VaultError::InsufficientFunds);
            },
        };
        let vault_lamports = match standing.lamports.checked_add(self.amount) {
            Some(lamports) => lamports,
            None => {
                return Err(VaultError::InsufficientFunds);
            },
        };
        Ok(
            Progress::Done(
                Settlement {
                    owner: Account { lamports: owner_lamports, ..*self.owner },
                    vault: Account { lamports: vault_lamports, ..standing },
                    amount: self.amount,
                    creation,
                },
            ),
        )
    }

    /// Takes the deposit as far as the ledger's answers reach: the owner must
    /// have signed; a vault that does not exist yet is created at the address
    /// derived from the owner, with the minimum reserve; then the ledger
    /// moves `amount` from the owner to the vault. The address is searched
    /// where the deposit needs it and none is filed yet, and then filed.
    pub fn process(self, program_id: &Pubkey, answers: &mut Answers) -> (r: Result<
        Progress,
        VaultError,
    >)
        ensures
            r == deposit_outcome(
                *self.owner,
                *self.vault,
                self.amount,
                *program_id,
                old(answers).derivation(self.owner.key, *program_id),
                *old(answers),
            ),
            final(answers).searched(*old(answers), self.owner.key, *program_id),
    {
        let derived = if self.amount != 0 && self.owner.is_signer && self.vault.lamports == 0 {
            answers.search(&self.owner.key, program_id)
        } else {
            None
        };
        self.process_with(program_id, derived, answers)
    }
}

/// What a withdrawal comes to, given what the address search found and what
/// the ledger has answered: the first check that fails, in the order in
/// which the checks are made; the ledger's error, where it refused a request;
/// the next request; or, once the balances are written, the two accounts
/// with everything above the reserve moved from the vault to the owner.
pub open spec fn withdraw_outcome(
    owner: Account,
    vault: Account,
    program_id: Pubkey,
    derived: Option<(Seq<u8>, u8)>,
    answers: Answers,
) -> Result<Progress, VaultError> {
    if !owner.is_signer {
        Err(VaultError::InvalidAccountOwner)
    } else if vault.owner != program_id {
        Err(VaultError::InvalidAccountOwner)
    } else {
        match derived {
            None => Err(VaultError::InvalidSeeds),
            Some((address, _)) => if vault.key@ != address {
                Err(VaultError::InvalidAccountData)
            } else {
                match answers.reserve {
                    None => Ok(Progress::Ask(Request::Reserve { data_len: vault.data_len })),
                    Some(Err(code)) => Err(VaultError::Ledger(code)),
                    Some(Ok(reserve)) => if vault.lamports <= reserve {
                        Err(VaultError::InsufficientFunds)
                    } else if owner.lamports + (vault.lamports - reserve) > u64::MAX {
                        Err(VaultError::InsufficientFunds)
                    } else {
                        let owner_lamports = (owner.lamports + (vault.lamports - reserve)) as u64;
                        match answers.write {
                            None => Ok(
                                Progress::Ask(
                                    Request::Write { owner_lamports, vault_lamports: reserve },
                                ),
                            ),
                            Some(Err(code)) => Err(VaultError::Ledger(code)),
                            Some(Ok(_)) => Ok(
                                Progress::Done(
                                    Settlement {
                                        owner: Account { lamports: owner_lamports, ..owner },
                                        vault: Account { lamports: reserve, ..vault },
                                        amount: (vault.lamports - reserve) as u64,
                                        creation: None,
                                    },
                                ),
                            ),
                        }
                    },
                }
            },
        }
    }
}

/// The withdrawal that the accounts supplied spell.
pub open spec fn decoded_withdraw<'a>(accounts: Seq<Account>) -> Result<Withdraw<'a>, VaultError> {
    if accounts.len() < 2 {
        Err(VaultError::NotEnoughAccountKeys)
    } else {
        Ok(Withdraw { owner: &accounts[0], vault: &accounts[1] })
    }
}

/// A withdrawal: everything that the vault holds above the minimum reserve
/// is to move to the owner's account.
#[derive(Clone, Copy, Debug, PartialEq, Eq)]
pub struct Withdraw<'a> {
    /// The account that the vault belongs to, and that is paid.
    pub owner: &'a Account,
    /// The vault.
    pub vault: &'a Account,
}

impl<'a> Withdraw<'a> {
    /// The opcode of a withdrawal.
    pub const DISCRIMINATOR: &'a u8 = &1;

    /// Takes the withdrawal as far as the ledger's answers reach, against a
    /// given result of the address search.
    pub fn process_with(
        self,
        program_id: &Pubkey,
        derived: Option<(Pubkey, u8)>,
        answers: &Answers,
    ) -> (r: Result<Progress, VaultError>)
        ensures
            r == withdraw_outcome(
                *self.owner,
                *self.vault,
                *program_id,
                derived_view(derived),
                *answers,
            ),
    {
        if !self.owner.is_signer {
            return Err(VaultError::InvalidAccountOwner);
        }
        if !self.vault.is_owned_by(program_id) {
            return Err(VaultError::InvalidAccountOwner);
        }
        let expected = match derived {
            Some((address, _)) => address,
            None => {
                return Err(VaultError::InvalidSeeds);
            },
        };
        if !same_key(&self.vault.key, &expected) {
            return Err(VaultError::InvalidAccountData);
        }
        let minimum_reserve = match answers.reserve {
            None => {
                return Ok(Progress::Ask(Request::Reserve { data_len: self.vault.data_len }));
            },
            Some(Err(code)) => {
                return Err(VaultError::Ledger(code));
            },
            Some(Ok(reserve)) => reserve,
        };
        if self.vault.lamports <= minimum_reserve {
            return Err(VaultError::InsufficientFunds);
        }
        let amount = self.vault.lamports - minimum_reserve;
        let vault_lamports = match self.vault.lamports.checked_sub(amount) {
            Some(lamports) => lamports,
            None => {
                return Err(VaultError::InsufficientFunds);
            },
        };
        let owner_lamports = match self.owner.lamports.checked_add(amount) {
            Some(lamports) => lamports,
            None => {
                return Err(VaultError::InsufficientFunds);
            },
        };
        match answers.write {
            None => Ok(Progress::Ask(Request::Write { owner_lamports, vault_lamports })),
            Some(Err(code)) => Err(VaultError::Ledger(code)),
            Some(Ok(_)) => Ok(
                Progress::Done(
                    Settlement {
                        owner: Account { lamports: owner_lamports, ..*self.owner },
                        vault: Account { lamports: vault_lamports, ..*self.vault },
                        amount,
                        creation: None,
                    },
                ),
            ),
        }
    }

    /// Takes the withdrawal as far as the ledger's answers reach: the owner
    /// must have signed, the vault must be this program's and stand at the
    /// address derived from the owner; then everything above the minimum
    /// reserve moves to the owner. The address is searched where the
    /// withdrawal needs it and none is filed yet, and then filed.
    pub fn process(self, program_id: &Pubkey, answers: &mut Answers) -> (r: Result<
        Progress,
        VaultError,
    >)
        ensures
            r == withdraw_outcome(
                *self.owner,
                *self.vault,
                *program_id,
                old(answers).derivation(self.owner.key, *program_id),
                *old(answers),
            ),
            final(answers).searched(*old(answers), self.owner.key, *program_id),
    {
        let derived = if self.owner.is_signer && self.vault.is_owned_by(program_id) {
            answers.search(&self.owner.key, program_id)
        } else {
            None
        };
        self.process_with(program_id, derived, answers)
    }
}

impl<'a> TryFrom<(&'a [u8], &'a [Account])> for Deposit<'a> {
    type Error = VaultError;

    /// Reads a deposit from its payload and the accounts supplied: the first
    /// account is the owner, the second the vault. The payload is read
    /// before the accounts are counted.
    fn try_from(value: (&'a [u8], &'a [Account])) -> (r: Result<Self, VaultError>)
        ensures
            r == decoded_deposit::<'a>(value.0@, value.1@),
    {
        let (data, accounts) = value;
        let amount = match parse_amount(data) {
            Ok(amount) => amount,
            Err(e) => {
                return Err(e);
            },
        };
        if accounts.len() < 2 {
            return Err(VaultError::NotEnoughAccountKeys);
        }
        let owner = &accounts[0];
        let vault = &accounts[1];
        Ok(Deposit { owner, vault, amount })
    }
}

impl<'a> vstd::std_specs::convert::TryFromSpecImpl<(&'a [u8], &'a [Account])> for Deposit<'a> {
    open spec fn obeys_try_from_spec() -> bool {
        true
    }

    open spec fn try_from_spec(value: (&'a [u8], &'a [Account])) -> Result<Self, VaultError> {
        decoded_deposit(value.0@, value.1@)
    }
}

impl<'a> TryFrom<&'a [Account]> for Withdraw<'a> {
    type Error = VaultError;

    /// Reads a withdrawal from the accounts supplied: the first account is
    /// the owner, the second the vault.
    fn try_from(accounts: &'a [Account]) -> (r: Result<Self, VaultError>)
        ensures
            r == decoded_withdraw::<'a>(accounts@),
    {
        if accounts.len() < 2 {
            return Err(VaultError::NotEnoughAccountKeys);
        }
        let owner = &accounts[0];
        let vault = &accounts[1];
        Ok(Withdraw { owner, vault })
    }
}

impl<'a> vstd::std_specs::convert::TryFromSpecImpl<&'a [Account]> for Withdraw<'a> {
    open spec fn obeys_try_from_spec() -> bool {
        true
    }

    open spec fn try_from_spec(accounts: &'a [Account]) -> Result<Self, VaultError> {
        decoded_withdraw(accounts@)
    }
}

/// One of the two operations, read from an instruction.
#[derive(Clone, Copy, Debug, PartialEq, Eq)]
pub enum Instruction<'a> {
    /// Opcode 0: a deposit.
    Deposit(Deposit<'a>),
    /// Opcode 1: a withdrawal.
    Withdraw(Withdraw<'a>),
}

/// The instruction that `data` and `accounts` spell: the first byte of `data`
/// is the opcode, the rest the operation's payload.
pub open spec fn decoded_instruction<'a>(data: Seq<u8>, accounts: Seq<Account>) -> Result<
    Instruction<'a>,
    VaultError,
> {
    if data.len() == 0 {
        Err(VaultError::InvalidInstructionData)
    } else if data[0] == 0 {
        match decoded_deposit(data.drop_first(), accounts) {
            Ok(deposit) => Ok(Instruction::Deposit(deposit)),
            Err(e) => Err(e),
        }
    } else if data[0] == 1 {
        match decoded_withdraw(accounts) {
            Ok(withdraw) => Ok(Instruction::Withdraw(withdraw)),
            Err(e) => Err(e),
        }
    } else {
        Err(VaultError::InvalidInstructionData)
    }
}

impl<'a> Instruction<'a> {
    /// The owner's account.
    pub open spec fn owner(self) -> Account {
        match self {
            Instruction::Deposit(deposit) => *deposit.owner,
            Instruction::Withdraw(withdraw) => *withdraw.owner,
        }
    }

    /// What the instruction comes to, given what the address search found
    /// and what the ledger has answered.
    pub open spec fn outcome(
        self,
        program_id: Pubkey,
        derived: Option<(Seq<u8>, u8)>,
        answers: Answers,
    ) -> Result<Progress, VaultError> {
        match self {
            Instruction::Deposit(deposit) => deposit_outcome(
                *deposit.owner,
                *deposit.vault,
                deposit.amount,
                program_id,
                derived,
                answers,
            ),
            Instruction::Withdraw(withdraw) => withdraw_outcome(
                *withdraw.owner,
                *withdraw.vault,
                program_id,
                derived,
                answers,
            ),
        }
    }

    /// Reads an instruction: the opcode, then the operation's payload and
    /// accounts. A withdrawal has no payload; what follows its opcode is not
    /// looked at.
    pub fn decode(data: &'a [u8], accounts: &'a [Account]) -> (r: Result<Self, VaultError>)
        ensures
            r == decoded_instruction::<'a>(data@, accounts@),
    {
        if data.len() == 0 {
            return Err(VaultError::InvalidInstructionData);
        }
        let opcode = data[0];
        if opcode == *Deposit::DISCRIMINATOR {
            let payload = vstd::slice::slice_subrange(data, 1, data.len());
            assert(payload@ == data@.drop_first());
            match Deposit::try_from((payload, accounts)) {
                Ok(deposit) => Ok(Instruction::Deposit(deposit)),
                Err(e) => Err(e),
            }
        } else if opcode == *Withdraw::DISCRIMINATOR {
            match Withdraw::try_from(accounts) {
                Ok(withdraw) => Ok(Instruction::Withdraw(withdraw)),
                Err(e) => Err(e),
            }
        } else {
            Err(VaultError::InvalidInstructionData)
        }
    }

    /// Takes the instruction as far as the ledger's answers reach, against a
    /// given result of the address search.
    pub fn process_with(
        self,
        program_id: &Pubkey,
        derived: Option<(Pubkey, u8)>,
        answers: &Answers,
    ) -> (r: Result<Progress, VaultError>)
        ensures
            r == self.outcome(*program_id, derived_view(derived), *answers),
    {
        match self {
            Instruction::Deposit(deposit) => deposit.process_with(program_id, derived, answers),
            Instruction::Withdraw(withdraw) => withdraw.process_with(program_id, derived, answers),
        }
    }

    /// Takes the instruction as far as the ledger's answers reach. With no
    /// answers it makes the checks and says what to ask of the ledger first;
    /// with each answer filed it says what to ask next, until it is done.
    /// The vault address is searched once, where the instruction first needs
    /// it, and filed with the answers.
    pub fn process(self, program_id: &Pubkey, answers: &mut Answers) -> (r: Result<
        Progress,
        VaultError,
    >)
        ensures
            r == self.outcome(
                *program_id,
                old(answers).derivation(self.owner().key, *program_id),
                *old(answers),
            ),
            final(answers).searched(*old(answers), self.owner().key, *program_id),
    {
        match self {
            Instruction::Deposit(deposit) => deposit.process(program_id, answers),
            Instruction::Withdraw(withdraw) => withdraw.process(program_id, answers),
        }
    }
}

} // verus!
