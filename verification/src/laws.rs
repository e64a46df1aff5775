//! What holds of the vault's operations, whatever the accounts and amounts.

use vstd::prelude::*;
use crate::account::{Account, Pubkey};
use crate::address::{program_address, vault_address, VAULT_SEED};
use crate::amount::{le_value, parsed_amount};
use crate::error::VaultError;
use crate::instructions::{
    decoded_deposit, decoded_instruction, deposit_outcome, withdraw_outcome, Answers, Deposit,
    Instruction, Progress, Request, VaultCreation,
};
use crate::{accounts_after, instruction_outcome};

verus! {

/// The balance that a deposit finds in the vault: the minimum reserve with
/// which a vault is created where there was none, its own balance otherwise.
pub open spec fn standing_balance(vault: Account, reserve: u64) -> int {
    if vault.lamports == 0 {
        reserve as int
    } else {
        vault.lamports as int
    }
}

/// Whether `vault` is the vault of the owner that `derived` was derived
/// for: tagged as this program's, at the address derived.
pub open spec fn is_vault_of(
    vault: Account,
    program_id: Pubkey,
    derived: Option<(Seq<u8>, u8)>,
) -> bool {
    &&& vault.owner == program_id
    &&& derived matches Some((address, _))
    &&& vault.key@ == address
}

/// Whether `vault` stands at the address derived.
pub open spec fn at_derived_address(vault: Account, derived: Option<(Seq<u8>, u8)>) -> bool {
    derived matches Some((address, _)) && vault.key@ == address
}

/// The answers with the ledger's refusal of `request` filed under `code`.
pub open spec fn refused(answers: Answers, request: Request, code: u64) -> Answers {
    match request {
        Request::Reserve { .. } => Answers { reserve: Some(Err(code)), ..answers },
        Request::Create(_) => Answers { creation: Some(Err(code)), ..answers },
        Request::Transfer { .. } => Answers { transfer: Some(Err(code)), ..answers },
        Request::Write { .. } => Answers { write: Some(Err(code)), ..answers },
    }
}

/// With every request carried out, a deposit is done exactly when the amount
/// is not zero, the owner signed, the vault is this program's or, where it
/// does not exist yet, is the account at the address derived from the owner,
/// the owner holds the amount, and the vault can hold the sum. It is never
/// left asking.
pub proof fn lemma_deposit_accepted(
    owner: Account,
    vault: Account,
    amount: u64,
    program_id: Pubkey,
    derived: Option<(Seq<u8>, u8)>,
    reserve: u64,
)
    ensures
        ({
            let outcome = deposit_outcome(
                owner,
                vault,
                amount,
                program_id,
                derived,
                Answers::carried_out(reserve),
            );
            &&& !(outcome matches Ok(Progress::Ask(_)))
            &&& outcome is Ok <==> {
                &&& amount != 0
                &&& owner.is_signer
                &&& vault.lamports == 0 ==> at_derived_address(vault, derived)
                &&& vault.lamports != 0 ==> vault.owner == program_id
                &&& amount <= owner.lamports
                &&& standing_balance(vault, reserve) + amount <= u64::MAX
            }
        }),
{
}

/// A deposit of `amount` that is done leaves the vault with the minimum
/// reserve plus `amount` where it did not exist before, with its earlier
/// balance plus `amount` where it did, and the owner with `amount` less.
pub proof fn lemma_deposit_credits_vault(
    owner: Account,
    vault: Account,
    amount: u64,
    program_id: Pubkey,
    derived: Option<(Seq<u8>, u8)>,
    answers: Answers,
)
    ensures
        deposit_outcome(owner, vault, amount, program_id, derived, answers) matches Ok(
            Progress::Done(s),
        ) ==> {
            &&& amount != 0
            &&& vault.lamports == 0 ==> (answers.reserve matches Some(Ok(reserve))
                && s.vault.lamports == reserve + amount)
            &&& vault.lamports != 0 ==> s.vault.lamports == vault.lamports + amount
            &&& s.owner.lamports == owner.lamports - amount
            &&& s.amount == amount
        },
{
}

/// A deposit that is done changes nothing of the owner but the balance, and
/// of a vault that was there nothing but the balance. A vault that was not
/// there is this program's afterwards, with the fixed data length, and was
/// created with the minimum reserve that the ledger named.
pub proof fn lemma_deposit_keeps_accounts(
    owner: Account,
    vault: Account,
    amount: u64,
    program_id: Pubkey,
    derived: Option<(Seq<u8>, u8)>,
    answers: Answers,
)
    ensures
        deposit_outcome(owner, vault, amount, program_id, derived, answers) matches Ok(
            Progress::Done(s),
        ) ==> {
            &&& s.owner == Account { lamports: s.owner.lamports, ..owner }
            &&& s.vault.key == vault.key
            &&& s.vault.owner == program_id
            &&& s.vault.is_signer == vault.is_signer
            &&& vault.lamports != 0 ==> s.vault.data_len == vault.data_len && s.creation is None
            &&& vault.lamports == 0 ==> {
                &&& s.vault.data_len == 16
                &&& s.creation matches Some(c)
                &&& answers.reserve matches Some(Ok(reserve))
                &&& c.lamports == reserve
                &&& c.space == 16
            }
        },
{
}

/// A vault is created at the address derived from the owner and nowhere
/// else: a deposit into an account that holds nothing and does not stand at
/// that address is rejected as invalid account data, whatever the ledger has
/// answered.
pub proof fn lemma_deposit_at_foreign_address(
    owner: Account,
    vault: Account,
    amount: u64,
    program_id: Pubkey,
    derived: Option<(Seq<u8>, u8)>,
    answers: Answers,
)
    requires
        amount != 0,
        owner.is_signer,
        vault.lamports == 0,
        derived matches Some((address, _)) && vault.key@ != address,
    ensures
        deposit_outcome(owner, vault, amount, program_id, derived, answers) == Err::<
            Progress,
            VaultError,
        >(VaultError::InvalidAccountData),
{
}

/// The creation that a deposit asks for, or reports as done, is signed with
/// the vault seed, the owner's address and the bump byte that was derived, in
/// this order. Without the bump byte these are the seeds of the derivation,
/// and the vault stands at the address that they derive.
pub proof fn lemma_creation_seeds(
    owner: Account,
    vault: Account,
    amount: u64,
    program_id: Pubkey,
    derived: Option<(Seq<u8>, u8)>,
    answers: Answers,
    creation: VaultCreation,
)
    requires
        ({
            let outcome = deposit_outcome(owner, vault, amount, program_id, derived, answers);
            ||| outcome == Ok::<Progress, VaultError>(Progress::Ask(Request::Create(creation)))
            ||| outcome matches Ok(Progress::Done(s)) && s.creation == Some(creation)
        }),
    ensures
        derived matches Some((address, bump)) && {
            &&& vault.key@ == address
            &&& creation.seeds@ == seq![VAULT_SEED@, owner.key@, seq![bump]]
            &&& vault_address(owner.key@, program_id@) == program_address(
                creation.seeds@.take(2),
                program_id@,
            )
        },
        answers.reserve == Some(Ok::<u64, u64>(creation.lamports)),
        creation.space == 16,
{
    if let Some((_, bump)) = derived {
        assert(creation.seeds.bump@ =~= seq![bump]);
    }
    assert(creation.seeds@.take(2) =~= seq![VAULT_SEED@, owner.key@]);
}

/// A deposit of zero is rejected as invalid account data, whatever else holds.
pub proof fn lemma_zero_deposit_rejected(
    owner: Account,
    vault: Account,
    program_id: Pubkey,
    derived: Option<(Seq<u8>, u8)>,
    answers: Answers,
)
    ensures
        deposit_outcome(owner, vault, 0, program_id, derived, answers) == Err::<
            Progress,
            VaultError,
        >(VaultError::InvalidAccountData),
{
}

/// Bytes spell zero exactly when each of them is zero.
pub proof fn lemma_le_value_zero(bytes: Seq<u8>)
    ensures
        le_value(bytes) == 0 <==> forall|i: int| 0 <= i < bytes.len() ==> bytes[i] == 0,
    decreases bytes.len(),
{
    if bytes.len() > 0 {
        let rest = bytes.drop_first();
        lemma_le_value_zero(rest);
        if le_value(bytes) == 0 {
            assert forall|i: int| 0 <= i < bytes.len() implies bytes[i] == 0 by {
                if i > 0 {
                    assert(bytes[i] == rest[i - 1]);
                }
            }
        } else if bytes[0] == 0 {
            let i = choose|i: int| 0 <= i < rest.len() && rest[i] != 0;
            assert(bytes[i + 1] == rest[i]);
        }
    }
}

/// A payload of eight zero bytes is rejected as invalid account data, and so
/// is the deposit instruction that carries it, whatever the accounts.
pub proof fn lemma_zero_payload_rejected(data: Seq<u8>, accounts: Seq<Account>)
    requires
        data.len() == 8,
        forall|i: int| 0 <= i < 8 ==> data[i] == 0,
    ensures
        parsed_amount(data) == Err::<u64, VaultError>(VaultError::InvalidAccountData),
        decoded_deposit(data, accounts) == Err::<Deposit, VaultError>(
            VaultError::InvalidAccountData,
        ),
        decoded_instruction(seq![0u8] + data, accounts) == Err::<Instruction, VaultError>(
            VaultError::InvalidAccountData,
        ),
{
    lemma_le_value_zero(data);
    assert((seq![0u8] + data).drop_first() =~= data);
}

/// A deposit whose payload is not eight bytes long is rejected as invalid
/// instruction data, on its own and in an instruction, whatever the accounts.
pub proof fn lemma_payload_length(data: Seq<u8>, accounts: Seq<Account>)
    requires
        data.len() != 8,
    ensures
        parsed_amount(data) == Err::<u64, VaultError>(VaultError::InvalidInstructionData),
        decoded_deposit(data, accounts) == Err::<Deposit, VaultError>(
            VaultError::InvalidInstructionData,
        ),
        decoded_instruction(seq![0u8] + data, accounts) == Err::<Instruction, VaultError>(
            VaultError::InvalidInstructionData,
        ),
{
    assert((seq![0u8] + data).drop_first() =~= data);
}

/// With every request carried out, a withdrawal is done exactly when the
/// owner signed, the vault is this program's and stands at the address
/// derived, holds more than the minimum reserve, and the owner can hold what
/// is above it. It is never left asking.
pub proof fn lemma_withdraw_accepted(
    owner: Account,
    vault: Account,
    program_id: Pubkey,
    derived: Option<(Seq<u8>, u8)>,
    reserve: u64,
)
    ensures
        ({
            let outcome = withdraw_outcome(
                owner,
                vault,
                program_id,
                derived,
                Answers::carried_out(reserve),
            );
            &&& !(outcome matches Ok(Progress::Ask(_)))
            &&& outcome is Ok <==> {
                &&& owner.is_signer
                &&& is_vault_of(vault, program_id, derived)
                &&& vault.lamports > reserve
                &&& owner.lamports + (vault.lamports - reserve) <= u64::MAX
            }
        }),
{
}

/// A withdrawal from a vault that holds the minimum reserve or less is
/// rejected for insufficient funds, once the owner's signature, the vault's
/// tag and its address have passed and the ledger has named the reserve.
pub proof fn lemma_withdraw_at_reserve(
    owner: Account,
    vault: Account,
    program_id: Pubkey,
    derived: Option<(Seq<u8>, u8)>,
    answers: Answers,
    reserve: u64,
)
    requires
        owner.is_signer,
        is_vault_of(vault, program_id, derived),
        answers.reserve == Some(Ok::<u64, u64>(reserve)),
        vault.lamports <= reserve,
    ensures
        withdraw_outcome(owner, vault, program_id, derived, answers) == Err::<
            Progress,
            VaultError,
        >(VaultError::InsufficientFunds),
{
}

/// A withdrawal that is done, from a vault that holds `b`, moves `b` less
/// the minimum reserve to the owner and leaves the vault the minimum
/// reserve; nothing else of either account changes, and nothing is created.
pub proof fn lemma_withdraw_moves_excess(
    owner: Account,
    vault: Account,
    program_id: Pubkey,
    derived: Option<(Seq<u8>, u8)>,
    answers: Answers,
)
    ensures
        withdraw_outcome(owner, vault, program_id, derived, answers) matches Ok(
            Progress::Done(s),
        ) ==> {
            &&& answers.reserve matches Some(Ok(reserve))
            &&& vault.lamports > reserve
            &&& s.amount == vault.lamports - reserve
            &&& s.vault == Account { lamports: reserve, ..vault }
            &&& s.owner == Account { lamports: s.owner.lamports, ..owner }
            &&& s.owner.lamports == owner.lamports + (vault.lamports - reserve)
            &&& s.creation is None
        },
{
}

/// A withdrawal from an account that does not stand at the address derived
/// from the owner is rejected as invalid account data, whatever the account
/// holds and whatever the ledger has answered, once the owner's signature and
/// the account's tag have passed.
pub proof fn lemma_withdraw_foreign_vault(
    owner: Account,
    vault: Account,
    program_id: Pubkey,
    derived: Option<(Seq<u8>, u8)>,
    answers: Answers,
)
    requires
        owner.is_signer,
        vault.owner == program_id,
        derived matches Some((address, _)) && vault.key@ != address,
    ensures
        withdraw_outcome(owner, vault, program_id, derived, answers) == Err::<
            Progress,
            VaultError,
        >(VaultError::InvalidAccountData),
{
}

/// Without the owner's signature a withdrawal is rejected for an invalid
/// account owner, and so is a deposit of any amount but zero.
pub proof fn lemma_unsigned_rejected(
    owner: Account,
    vault: Account,
    amount: u64,
    program_id: Pubkey,
    derived: Option<(Seq<u8>, u8)>,
    answers: Answers,
)
    requires
        !owner.is_signer,
    ensures
        withdraw_outcome(owner, vault, program_id, derived, answers) == Err::<
            Progress,
            VaultError,
        >(VaultError::InvalidAccountOwner),
        amount != 0 ==> deposit_outcome(owner, vault, amount, program_id, derived, answers)
            == Err::<Progress, VaultError>(VaultError::InvalidAccountOwner),
{
}

/// The same owner under the same program has the same vault address and the
/// same bump byte, however often they are derived.
pub proof fn lemma_vault_address_deterministic(
    owner_a: Pubkey,
    program_a: Pubkey,
    owner_b: Pubkey,
    program_b: Pubkey,
)
    requires
        owner_a == owner_b,
        program_a == program_b,
    ensures
        vault_address(owner_a@, program_a@) == vault_address(owner_b@, program_b@),
{
}

/// Where an instruction asks the ledger for something and the ledger refuses
/// with an error code, the instruction is rejected with that code, handed on
/// as it came, whatever the accounts hold. So a transfer that the owner
/// cannot pay fails with the ledger's error and no other.
pub proof fn lemma_refusal_handed_on(
    owner: Account,
    vault: Account,
    amount: u64,
    program_id: Pubkey,
    derived: Option<(Seq<u8>, u8)>,
    answers: Answers,
    request: Request,
    code: u64,
)
    ensures
        deposit_outcome(owner, vault, amount, program_id, derived, answers) == Ok::<
            Progress,
            VaultError,
        >(Progress::Ask(request)) ==> deposit_outcome(
            owner,
            vault,
            amount,
            program_id,
            derived,
            refused(answers, request, code),
        ) == Err::<Progress, VaultError>(VaultError::Ledger(code)),
        withdraw_outcome(owner, vault, program_id, derived, answers) == Ok::<
            Progress,
            VaultError,
        >(Progress::Ask(request)) ==> withdraw_outcome(
            owner,
            vault,
            program_id,
            derived,
            refused(answers, request, code),
        ) == Err::<Progress, VaultError>(VaultError::Ledger(code)),
{
}

/// A deposit that has passed its checks asks the ledger in order: for the
/// reserve and then for the creation where the vault does not exist, then
/// for the transfer of its amount. It asks for the transfer whatever the
/// owner and the vault hold: whether the owner can pay is the ledger's to
/// say.
pub proof fn lemma_deposit_asks_in_order(
    owner: Account,
    vault: Account,
    amount: u64,
    program_id: Pubkey,
    derived: Option<(Seq<u8>, u8)>,
    answers: Answers,
)
    requires
        amount != 0,
        owner.is_signer,
        vault.lamports == 0 ==> at_derived_address(vault, derived),
        vault.lamports != 0 ==> vault.owner == program_id,
    ensures
        ({
            let outcome = deposit_outcome(owner, vault, amount, program_id, derived, answers);
            let asked_transfer = Ok::<Progress, VaultError>(
                Progress::Ask(Request::Transfer { lamports: amount }),
            );
            &&& vault.lamports != 0 && answers.transfer is None ==> outcome == asked_transfer
            &&& vault.lamports == 0 ==> match (answers.reserve, answers.creation, answers.transfer) {
                (None, _, _) => outcome == Ok::<Progress, VaultError>(
                    Progress::Ask(Request::Reserve { data_len: 16 }),
                ),
                (Some(Ok(reserve)), None, _) => outcome matches Ok(
                    Progress::Ask(Request::Create(creation)),
                ) && creation.lamports == reserve && creation.space == 16,
                (Some(Ok(_)), Some(Ok(_)), None) => outcome == asked_transfer,
                _ => !(outcome matches Ok(Progress::Ask(_))),
            }
        }),
{
}

/// A withdrawal that has passed its checks asks the ledger in order: for the
/// reserve of the vault's data length, then, where the vault holds more and
/// the owner can hold the rest, for the balances to be written.
pub proof fn lemma_withdraw_asks_in_order(
    owner: Account,
    vault: Account,
    program_id: Pubkey,
    derived: Option<(Seq<u8>, u8)>,
    answers: Answers,
)
    requires
        owner.is_signer,
        is_vault_of(vault, program_id, derived),
    ensures
        ({
            let outcome = withdraw_outcome(owner, vault, program_id, derived, answers);
            match (answers.reserve, answers.write) {
                (None, _) => outcome == Ok::<Progress, VaultError>(
                    Progress::Ask(Request::Reserve { data_len: vault.data_len }),
                ),
                (Some(Ok(reserve)), None) => vault.lamports > reserve && owner.lamports + (
                vault.lamports - reserve) <= u64::MAX ==> outcome == Ok::<Progress, VaultError>(
                    Progress::Ask(
                        Request::Write {
                            owner_lamports: (owner.lamports + (vault.lamports - reserve)) as u64,
                            vault_lamports: reserve,
                        },
                    ),
                ),
                _ => !(outcome matches Ok(Progress::Ask(_))),
            }
        }),
{
}

/// Nothing is asked of the ledger before the checks that come first have
/// passed, and nothing that is not needed. A deposit asks for the reserve
/// and the creation only for a vault that does not exist, once the amount,
/// the signature and the address have passed, and for the transfer only of
/// its amount. A withdrawal asks for the reserve of the vault's own data
/// length once signature, tag and address have passed, and for the balances
/// to be written only with the reserve left in the vault.
pub proof fn lemma_requests_follow_checks(
    owner: Account,
    vault: Account,
    amount: u64,
    program_id: Pubkey,
    derived: Option<(Seq<u8>, u8)>,
    answers: Answers,
)
    ensures
        deposit_outcome(owner, vault, amount, program_id, derived, answers) matches Ok(
            Progress::Ask(request),
        ) ==> {
            &&& amount != 0
            &&& owner.is_signer
            &&& match request {
                Request::Reserve { data_len } => {
                    &&& vault.lamports == 0
                    &&& at_derived_address(vault, derived)
                    &&& data_len == 16
                    &&& answers.reserve is None
                },
                Request::Create(creation) => {
                    &&& vault.lamports == 0
                    &&& at_derived_address(vault, derived)
                    &&& answers.reserve == Some(Ok::<u64, u64>(creation.lamports))
                    &&& answers.creation is None
                },
                Request::Transfer { lamports } => {
                    &&& lamports == amount
                    &&& answers.transfer is None
                    &&& vault.lamports != 0 ==> vault.owner == program_id
                    &&& vault.lamports == 0 ==> (at_derived_address(vault, derived)
                        && answers.creation matches Some(Ok(_)))
                },
                Request::Write { .. } => false,
            }
        },
        withdraw_outcome(owner, vault, program_id, derived, answers) matches Ok(
            Progress::Ask(request),
        ) ==> {
            &&& owner.is_signer
            &&& is_vault_of(vault, program_id, derived)
            &&& match request {
                Request::Reserve { data_len } => data_len == vault.data_len
                    && answers.reserve is None,
                Request::Write { owner_lamports, vault_lamports } => {
                    &&& answers.reserve == Some(Ok::<u64, u64>(vault_lamports))
                    &&& answers.write is None
                    &&& vault.lamports > vault_lamports
                    &&& owner_lamports == owner.lamports + (vault.lamports - vault_lamports)
                },
                _ => false,
            }
        },
{
}

/// Neither operation makes or loses value: what an instruction that is done
/// takes from one account it gives to the other, but for the minimum reserve
/// with which a new vault is created.
pub proof fn lemma_value_is_kept(
    owner: Account,
    vault: Account,
    amount: u64,
    program_id: Pubkey,
    derived: Option<(Seq<u8>, u8)>,
    answers: Answers,
)
    ensures
        deposit_outcome(owner, vault, amount, program_id, derived, answers) matches Ok(
            Progress::Done(s),
        ) ==> s.owner.lamports + s.vault.lamports == owner.lamports + (if vault.lamports == 0 {
            s.creation->0.lamports as int
        } else {
            vault.lamports as int
        }),
        withdraw_outcome(owner, vault, program_id, derived, answers) matches Ok(
            Progress::Done(s),
        ) ==> s.owner.lamports + s.vault.lamports == owner.lamports + vault.lamports,
{
}

/// A withdrawal that follows a deposit into a vault that did not exist,
/// under the same derivation and the same minimum reserve and with every
/// request carried out, is done: it returns the amount deposited, so that the
/// owner holds what they held before the deposit, and the vault the reserve.
pub proof fn lemma_deposit_then_withdraw(
    owner: Account,
    vault: Account,
    amount: u64,
    program_id: Pubkey,
    derived: Option<(Seq<u8>, u8)>,
    reserve: u64,
)
    requires
        deposit_outcome(
            owner,
            vault,
            amount,
            program_id,
            derived,
            Answers::carried_out(reserve),
        ) is Ok,
        vault.lamports == 0,
    ensures
        ({
            let deposited = deposit_outcome(
                owner,
                vault,
                amount,
                program_id,
                derived,
                Answers::carried_out(reserve),
            );
            &&& deposited matches Ok(Progress::Done(d))
            &&& withdraw_outcome(
                d.owner,
                d.vault,
                program_id,
                derived,
                Answers::carried_out(reserve),
            ) matches Ok(Progress::Done(s))
            &&& s.amount == amount
            &&& s.vault.lamports == reserve
            &&& s.owner.lamports == owner.lamports
        }),
{
}

/// Whatever is done leaves the vault at its address and tagged as this
/// program's. A vault that a deposit creates is the vault of the owner, a
/// withdrawal is done on the owner's vault alone, and both leave it so.
pub proof fn lemma_vault_stays_a_vault(
    owner: Account,
    vault: Account,
    amount: u64,
    program_id: Pubkey,
    derived: Option<(Seq<u8>, u8)>,
    answers: Answers,
)
    ensures
        deposit_outcome(owner, vault, amount, program_id, derived, answers) matches Ok(
            Progress::Done(s),
        ) ==> {
            &&& s.vault.key == vault.key
            &&& s.vault.owner == program_id
            &&& vault.lamports == 0 ==> is_vault_of(s.vault, program_id, derived)
            &&& is_vault_of(vault, program_id, derived) ==> is_vault_of(s.vault, program_id, derived)
        },
        withdraw_outcome(owner, vault, program_id, derived, answers) matches Ok(
            Progress::Done(s),
        ) ==> {
            &&& is_vault_of(vault, program_id, derived)
            &&& is_vault_of(s.vault, program_id, derived)
        },
{
}

/// An instruction changes no account but the first two, which it leaves as
/// its settlement says once it is done. An instruction that is rejected, or
/// that has to ask the ledger first, changes none at all.
pub proof fn lemma_only_owner_and_vault_change(
    accounts: Seq<Account>,
    data: Seq<u8>,
    program_id: Pubkey,
    derived: Option<(Seq<u8>, u8)>,
    answers: Answers,
)
    ensures
        ({
            let outcome = instruction_outcome(accounts, data, program_id, derived, answers);
            let after = accounts_after(accounts, outcome);
            &&& after.len() == accounts.len()
            &&& forall|i: int| 2 <= i < accounts.len() ==> after[i] == accounts[i]
            &&& !(outcome matches Ok(Progress::Done(_))) ==> after == accounts
            &&& outcome matches Ok(Progress::Done(s)) ==> accounts.len() >= 2 && after[0]
                == s.owner && after[1] == s.vault
        }),
{
}

/// A deposit instruction that is done leaves the second account, the vault,
/// with the minimum reserve plus the amount where its balance was zero, with
/// its balance plus the amount otherwise, and the first account, the owner,
/// with the amount less.
pub proof fn lemma_deposit_instruction_credits_vault(
    accounts: Seq<Account>,
    payload: Seq<u8>,
    program_id: Pubkey,
    derived: Option<(Seq<u8>, u8)>,
    answers: Answers,
)
    ensures
        ({
            let outcome = instruction_outcome(
                accounts,
                seq![0u8] + payload,
                program_id,
                derived,
                answers,
            );
            let after = accounts_after(accounts, outcome);
            outcome matches Ok(Progress::Done(_)) ==> {
                &&& payload.len() == 8
                &&& le_value(payload) != 0
                &&& accounts.len() >= 2
                &&& accounts[1].lamports == 0 ==> (answers.reserve matches Some(Ok(reserve))
                    && after[1].lamports == reserve + le_value(payload))
                &&& accounts[1].lamports != 0 ==> after[1].lamports == accounts[1].lamports
                    + le_value(payload)
                &&& after[0].lamports == accounts[0].lamports - le_value(payload)
            }
        }),
{
    assert((seq![0u8] + payload).drop_first() =~= payload);
    if payload.len() == 8 {
        crate::amount::lemma_le_value_bound(payload);
        crate::amount::lemma_le_limit_of_eight();
    }
}

/// A deposit instruction for zero is rejected as invalid account data and
/// changes no account.
pub proof fn lemma_zero_deposit_changes_nothing(
    accounts: Seq<Account>,
    payload: Seq<u8>,
    program_id: Pubkey,
    derived: Option<(Seq<u8>, u8)>,
    answers: Answers,
)
    requires
        payload.len() == 8,
        forall|i: int| 0 <= i < 8 ==> payload[i] == 0,
    ensures
        ({
            let outcome = instruction_outcome(
                accounts,
                seq![0u8] + payload,
                program_id,
                derived,
                answers,
            );
            &&& outcome == Err::<Progress, VaultError>(VaultError::InvalidAccountData)
            &&& accounts_after(accounts, outcome) == accounts
        }),
{
    lemma_zero_payload_rejected(payload, accounts);
}

/// A withdrawal instruction on a vault that holds exactly the minimum
/// reserve is rejected for insufficient funds and changes no account, the
/// vault's balance least of all, once the owner's signature, the vault's tag
/// and its address have passed.
pub proof fn lemma_withdraw_at_reserve_changes_nothing(
    accounts: Seq<Account>,
    data: Seq<u8>,
    program_id: Pubkey,
    derived: Option<(Seq<u8>, u8)>,
    answers: Answers,
    reserve: u64,
)
    requires
        data.len() > 0 && data[0] == 1,
        accounts.len() >= 2,
        accounts[0].is_signer,
        is_vault_of(accounts[1], program_id, derived),
        answers.reserve == Some(Ok::<u64, u64>(reserve)),
        accounts[1].lamports == reserve,
    ensures
        ({
            let outcome = instruction_outcome(accounts, data, program_id, derived, answers);
            &&& outcome == Err::<Progress, VaultError>(VaultError::InsufficientFunds)
            &&& accounts_after(accounts, outcome) == accounts
            &&& accounts_after(accounts, outcome)[1].lamports == reserve
        }),
{
}

/// A withdrawal instruction that is done leaves the vault exactly the
/// minimum reserve and the owner with everything that the vault held above
/// it.
pub proof fn lemma_withdraw_instruction_moves_excess(
    accounts: Seq<Account>,
    data: Seq<u8>,
    program_id: Pubkey,
    derived: Option<(Seq<u8>, u8)>,
    answers: Answers,
)
    requires
        data.len() > 0 && data[0] == 1,
    ensures
        ({
            let outcome = instruction_outcome(accounts, data, program_id, derived, answers);
            let after = accounts_after(accounts, outcome);
            outcome matches Ok(Progress::Done(s)) ==> {
                &&& accounts.len() >= 2
                &&& answers.reserve matches Some(Ok(reserve))
                &&& accounts[1].lamports > reserve
                &&& s.amount == accounts[1].lamports - reserve
                &&& after[1].lamports == reserve
                &&& after[0].lamports == accounts[0].lamports + (accounts[1].lamports - reserve)
            }
        }),
{
}

/// An instruction whose first account did not sign is rejected for an
/// invalid account owner and changes no account, where everything else about
/// it is valid: a withdrawal on two accounts or more, or a deposit on as many
/// of an amount that is not zero.
pub proof fn lemma_unsigned_instruction_rejected(
    accounts: Seq<Account>,
    data: Seq<u8>,
    program_id: Pubkey,
    derived: Option<(Seq<u8>, u8)>,
    answers: Answers,
)
    requires
        accounts.len() >= 2,
        !accounts[0].is_signer,
        data.len() > 0,
        data[0] == 1 || (data[0] == 0 && data.len() == 9 && le_value(data.drop_first()) != 0),
    ensures
        ({
            let outcome = instruction_outcome(accounts, data, program_id, derived, answers);
            &&& outcome == Err::<Progress, VaultError>(VaultError::InvalidAccountOwner)
            &&& accounts_after(accounts, outcome) == accounts
        }),
{
    if data[0] == 0 {
        crate::amount::lemma_le_value_bound(data.drop_first());
        crate::amount::lemma_le_limit_of_eight();
    }
}

/// A withdrawal instruction whose second account does not stand at the
/// address derived from the first is rejected as invalid account data and
/// changes no account, whatever the second account holds, once the owner's
/// signature and the account's tag have passed.
pub proof fn lemma_withdraw_instruction_foreign_vault(
    accounts: Seq<Account>,
    data: Seq<u8>,
    program_id: Pubkey,
    derived: Option<(Seq<u8>, u8)>,
    answers: Answers,
)
    requires
        data.len() > 0 && data[0] == 1,
        accounts.len() >= 2,
        accounts[0].is_signer,
        accounts[1].owner == program_id,
        derived matches Some((address, _)) && accounts[1].key@ != address,
    ensures
        ({
            let outcome = instruction_outcome(accounts, data, program_id, derived, answers);
            &&& outcome == Err::<Progress, VaultError>(VaultError::InvalidAccountData)
            &&& accounts_after(accounts, outcome) == accounts
        }),
{
}

/// Value leaves a vault only by a withdrawal that its owner signed, and then
/// only down to the minimum reserve: an instruction that leaves the second
/// account with less than it held was a withdrawal, the first account signed
/// it, and the second is the vault derived from the first.
pub proof fn lemma_value_leaves_only_to_the_owner(
    accounts: Seq<Account>,
    data: Seq<u8>,
    program_id: Pubkey,
    derived: Option<(Seq<u8>, u8)>,
    answers: Answers,
)
    ensures
        ({
            let outcome = instruction_outcome(accounts, data, program_id, derived, answers);
            let after = accounts_after(accounts, outcome);
            outcome is Ok && after[1].lamports < accounts[1].lamports ==> {
                &&& data[0] == 1
                &&& accounts[0].is_signer
                &&& is_vault_of(accounts[1], program_id, derived)
                &&& answers.reserve == Some(Ok::<u64, u64>(after[1].lamports))
                &&& after[0].lamports + after[1].lamports == accounts[0].lamports
                    + accounts[1].lamports
            }
        }),
{
    let outcome = instruction_outcome(accounts, data, program_id, derived, answers);
    if outcome is Ok && data[0] == 0 {
        let payload = data.drop_first();
        crate::amount::lemma_le_value_bound(payload);
        crate::amount::lemma_le_limit_of_eight();
    }
}

} // verus!
