use vault::account::{Account, Pubkey};
use vault::address::{SignerSeeds, VAULT_SEED};
use vault::error::VaultError;
use vault::instructions::{
    check_vault_existence, Answers, Deposit, Progress, Request, Settlement, VaultCreation,
    VaultStatus, VAULT_DATA_LEN,
};

const PROGRAM: Pubkey = [7; 32];
const SYSTEM: Pubkey = [0; 32];
const OWNER_KEY: Pubkey = [1; 32];
const VAULT_KEY: Pubkey = [2; 32];
const BUMP: u8 = 254;

fn owner(lamports: u64) -> Account {
    Account { key: OWNER_KEY, owner: SYSTEM, lamports, data_len: 0, is_signer: true }
}

fn absent_vault() -> Account {
    Account { key: VAULT_KEY, owner: SYSTEM, lamports: 0, data_len: 0, is_signer: false }
}

fn vault(lamports: u64) -> Account {
    Account { key: VAULT_KEY, owner: PROGRAM, lamports, data_len: VAULT_DATA_LEN, is_signer: false }
}

fn derived() -> Option<(Pubkey, u8)> {
    Some((VAULT_KEY, BUMP))
}

fn creation(lamports: u64, bump: u8) -> VaultCreation {
    VaultCreation {
        lamports,
        space: 16,
        seeds: SignerSeeds { tag: VAULT_SEED, owner: OWNER_KEY, bump: [bump] },
    }
}

fn carried_out(reserve: u64) -> Answers {
    Answers {
        address: None,
        reserve: Some(Ok(reserve)),
        creation: Some(Ok(())),
        transfer: Some(Ok(())),
        write: Some(Ok(())),
    }
}

fn settled(progress: Result<Progress, VaultError>) -> Result<Settlement, VaultError> {
    match progress {
        Ok(Progress::Done(settlement)) => Ok(settlement),
        Ok(Progress::Ask(request)) => panic!("left asking for {:?}", request),
        Err(e) => Err(e),
    }
}

#[test]
fn answers_start_empty() {
    assert_eq!(
        Answers::new(),
        Answers { address: None, reserve: None, creation: None, transfer: None, write: None }
    );
}

#[test]
fn existence_check_wants_the_owner_to_sign() {
    let mut unsigned = owner(1000);
    unsigned.is_signer = false;
    assert_eq!(
        check_vault_existence(&unsigned, &absent_vault(), &PROGRAM, derived(), &carried_out(890)),
        Err(VaultError::InvalidAccountOwner)
    );
    assert_eq!(
        check_vault_existence(&unsigned, &vault(900), &PROGRAM, derived(), &Answers::new()),
        Err(VaultError::InvalidAccountOwner)
    );
}

#[test]
fn existence_check_asks_for_the_reserve_then_for_the_creation() {
    let mut answers = Answers::new();
    assert_eq!(
        check_vault_existence(&owner(1000), &absent_vault(), &PROGRAM, derived(), &answers),
        Ok(VaultStatus::Pending(Request::Reserve { data_len: 16 }))
    );
    answers.reserve = Some(Ok(890));
    assert_eq!(
        check_vault_existence(&owner(1000), &absent_vault(), &PROGRAM, derived(), &answers),
        Ok(VaultStatus::Pending(Request::Create(creation(890, BUMP))))
    );
    answers.creation = Some(Ok(()));
    assert_eq!(
        check_vault_existence(&owner(1000), &absent_vault(), &PROGRAM, derived(), &answers),
        Ok(VaultStatus::Standing { vault: vault(890), creation: Some(creation(890, BUMP)) })
    );
}

#[test]
fn existence_check_signs_the_creation_with_the_seeds_of_the_derivation() {
    let mut answers = Answers::new();
    answers.reserve = Some(Ok(0));
    let status =
        check_vault_existence(&owner(0), &absent_vault(), &PROGRAM, Some((VAULT_KEY, 3)), &answers);
    match status {
        Ok(VaultStatus::Pending(Request::Create(asked))) => {
            assert_eq!(&asked.seeds.tag, b"no-std-vault");
            assert_eq!(asked.seeds.owner, OWNER_KEY);
            assert_eq!(asked.seeds.bump, [3]);
            assert_eq!(asked.lamports, 0);
            assert_eq!(asked.space, 16);
        }
        other => panic!("no creation asked for: {:?}", other),
    }
}

#[test]
fn existence_check_creates_a_vault_at_the_derived_address_alone() {
    for answers in [Answers::new(), carried_out(890)] {
        assert_eq!(
            check_vault_existence(
                &owner(1000),
                &absent_vault(),
                &PROGRAM,
                Some(([9; 32], 3)),
                &answers
            ),
            Err(VaultError::InvalidAccountData)
        );
    }
    let mut nearly = VAULT_KEY;
    nearly[31] = 3;
    assert_eq!(
        check_vault_existence(
            &owner(1000),
            &absent_vault(),
            &PROGRAM,
            Some((nearly, BUMP)),
            &carried_out(890)
        ),
        Err(VaultError::InvalidAccountData)
    );
}

#[test]
fn existence_check_without_an_address_is_invalid_seeds() {
    assert_eq!(
        check_vault_existence(&owner(1000), &absent_vault(), &PROGRAM, None, &carried_out(890)),
        Err(VaultError::InvalidSeeds)
    );
}

#[test]
fn existence_check_hands_the_ledgers_refusal_on() {
    let mut answers = Answers::new();
    answers.reserve = Some(Err(17 << 32));
    assert_eq!(
        check_vault_existence(&owner(1000), &absent_vault(), &PROGRAM, derived(), &answers),
        Err(VaultError::Ledger(17 << 32))
    );
    answers.reserve = Some(Ok(890));
    answers.creation = Some(Err(1));
    assert_eq!(
        check_vault_existence(&owner(1000), &absent_vault(), &PROGRAM, derived(), &answers),
        Err(VaultError::Ledger(1))
    );
}

#[test]
fn existence_check_accepts_a_vault_of_this_program() {
    assert_eq!(
        check_vault_existence(&owner(1000), &vault(890), &PROGRAM, derived(), &Answers::new()),
        Ok(VaultStatus::Standing { vault: vault(890), creation: None })
    );
    assert_eq!(
        check_vault_existence(&owner(1000), &vault(1), &PROGRAM, None, &Answers::new()),
        Ok(VaultStatus::Standing { vault: vault(1), creation: None })
    );
    let mut elsewhere = vault(5);
    elsewhere.key = [9; 32];
    assert_eq!(
        check_vault_existence(&owner(1000), &elsewhere, &PROGRAM, derived(), &Answers::new()),
        Ok(VaultStatus::Standing { vault: elsewhere, creation: None })
    );
}

#[test]
fn existence_check_refuses_a_vault_of_another_program() {
    let mut foreign = vault(890);
    foreign.owner = [8; 32];
    assert_eq!(
        check_vault_existence(&owner(1000), &foreign, &PROGRAM, derived(), &carried_out(890)),
        Err(VaultError::InvalidAccountOwner)
    );
    let mut untagged = vault(5);
    untagged.owner = SYSTEM;
    assert_eq!(
        check_vault_existence(&owner(1000), &untagged, &PROGRAM, derived(), &carried_out(890)),
        Err(VaultError::InvalidAccountOwner)
    );
}

#[test]
fn deposit_into_a_new_vault_asks_the_ledger_three_times() {
    let o = owner(1000);
    let v = absent_vault();
    let deposit = Deposit { owner: &o, vault: &v, amount: 500 };
    let mut answers = Answers::new();
    assert_eq!(
        deposit.process_with(&PROGRAM, derived(), &answers),
        Ok(Progress::Ask(Request::Reserve { data_len: 16 }))
    );
    answers.reserve = Some(Ok(890));
    assert_eq!(
        deposit.process_with(&PROGRAM, derived(), &answers),
        Ok(Progress::Ask(Request::Create(creation(890, BUMP))))
    );
    answers.creation = Some(Ok(()));
    assert_eq!(
        deposit.process_with(&PROGRAM, derived(), &answers),
        Ok(Progress::Ask(Request::Transfer { lamports: 500 }))
    );
    answers.transfer = Some(Ok(()));
    assert_eq!(
        deposit.process_with(&PROGRAM, derived(), &answers),
        Ok(Progress::Done(Settlement {
            owner: owner(500),
            vault: vault(1390),
            amount: 500,
            creation: Some(creation(890, BUMP)),
        }))
    );
}

#[test]
fn deposit_into_a_standing_vault_asks_for_the_transfer_alone() {
    let o = owner(1000);
    let v = vault(890);
    let deposit = Deposit { owner: &o, vault: &v, amount: 1 };
    let mut answers = Answers::new();
    assert_eq!(
        deposit.process_with(&PROGRAM, derived(), &answers),
        Ok(Progress::Ask(Request::Transfer { lamports: 1 }))
    );
    assert_eq!(
        deposit.process_with(&PROGRAM, None, &answers),
        Ok(Progress::Ask(Request::Transfer { lamports: 1 }))
    );
    answers.transfer = Some(Ok(()));
    assert_eq!(
        deposit.process_with(&PROGRAM, derived(), &answers),
        Ok(Progress::Done(Settlement {
            owner: owner(999),
            vault: vault(891),
            amount: 1,
            creation: None
        }))
    );
}

#[test]
fn deposit_creates_the_vault_with_the_reserve() {
    let o = owner(1000);
    let v = absent_vault();
    let settlement = settled(
        Deposit { owner: &o, vault: &v, amount: 500 }.process_with(
            &PROGRAM,
            derived(),
            &carried_out(890),
        ),
    )
    .unwrap();
    assert_eq!(
        settlement,
        Settlement {
            owner: owner(500),
            vault: vault(1390),
            amount: 500,
            creation: Some(creation(890, BUMP)),
        }
    );
}

#[test]
fn deposit_adds_to_a_vault_that_exists() {
    let o = owner(1000);
    let v = vault(12_345);
    let settlement = settled(
        Deposit { owner: &o, vault: &v, amount: 1000 }.process_with(&PROGRAM, None, &carried_out(0)),
    )
    .unwrap();
    assert_eq!(settlement.vault.lamports, 13_345);
    assert_eq!(settlement.owner.lamports, 0);
    assert_eq!(settlement.amount, 1000);
    assert_eq!(settlement.creation, None);
}

#[test]
fn deposit_credits_the_vault_for_many_amounts() {
    for amount in [1u64, 2, 7, 500, 999, 1000] {
        let o = owner(1000);
        let fresh = absent_vault();
        let created = settled(
            Deposit { owner: &o, vault: &fresh, amount }.process_with(
                &PROGRAM,
                derived(),
                &carried_out(890),
            ),
        )
        .unwrap();
        assert_eq!(created.vault.lamports, 890 + amount);
        assert_eq!(created.owner.lamports, 1000 - amount);
        let standing = vault(4000);
        let added = settled(
            Deposit { owner: &o, vault: &standing, amount }.process_with(
                &PROGRAM,
                derived(),
                &carried_out(890),
            ),
        )
        .unwrap();
        assert_eq!(added.vault.lamports, 4000 + amount);
        assert_eq!(added.owner.lamports, 1000 - amount);
    }
}

#[test]
fn deposit_into_a_new_account_elsewhere_is_invalid_account_data() {
    let o = owner(1000);
    let fresh = absent_vault();
    let deposit = Deposit { owner: &o, vault: &fresh, amount: 500 };
    assert_eq!(
        deposit.process_with(&PROGRAM, Some(([9; 32], BUMP)), &carried_out(890)),
        Err(VaultError::InvalidAccountData)
    );
    assert_eq!(
        deposit.process_with(&PROGRAM, Some(([9; 32], BUMP)), &Answers::new()),
        Err(VaultError::InvalidAccountData)
    );
}

#[test]
fn deposit_of_zero_is_invalid_account_data() {
    let o = owner(1000);
    let v = vault(890);
    assert_eq!(
        Deposit { owner: &o, vault: &v, amount: 0 }.process_with(
            &PROGRAM,
            derived(),
            &carried_out(890)
        ),
        Err(VaultError::InvalidAccountData)
    );
    let mut unsigned = owner(1000);
    unsigned.is_signer = false;
    let fresh = absent_vault();
    assert_eq!(
        Deposit { owner: &unsigned, vault: &fresh, amount: 0 }.process_with(
            &PROGRAM,
            None,
            &Answers::new()
        ),
        Err(VaultError::InvalidAccountData)
    );
}

#[test]
fn deposit_without_signature_is_invalid_account_owner() {
    let mut unsigned = owner(1000);
    unsigned.is_signer = false;
    let v = vault(890);
    for answers in [Answers::new(), carried_out(890)] {
        assert_eq!(
            Deposit { owner: &unsigned, vault: &v, amount: 500 }.process_with(
                &PROGRAM,
                derived(),
                &answers
            ),
            Err(VaultError::InvalidAccountOwner)
        );
        let fresh = absent_vault();
        assert_eq!(
            Deposit { owner: &unsigned, vault: &fresh, amount: 500 }.process_with(
                &PROGRAM,
                derived(),
                &answers
            ),
            Err(VaultError::InvalidAccountOwner)
        );
    }
}

#[test]
fn deposit_into_a_vault_of_another_program_is_invalid_account_owner() {
    let o = owner(1000);
    let mut foreign = vault(890);
    foreign.owner = [8; 32];
    assert_eq!(
        Deposit { owner: &o, vault: &foreign, amount: 500 }.process_with(
            &PROGRAM,
            derived(),
            &carried_out(890)
        ),
        Err(VaultError::InvalidAccountOwner)
    );
}

#[test]
fn deposit_without_an_address_for_a_new_vault_is_invalid_seeds() {
    let o = owner(1000);
    let fresh = absent_vault();
    assert_eq!(
        Deposit { owner: &o, vault: &fresh, amount: 500 }.process_with(
            &PROGRAM,
            None,
            &carried_out(890)
        ),
        Err(VaultError::InvalidSeeds)
    );
}

#[test]
fn deposit_that_the_ledger_refuses_fails_with_the_ledgers_error() {
    let poor = owner(499);
    let v = vault(890);
    let deposit = Deposit { owner: &poor, vault: &v, amount: 500 };
    let mut answers = Answers::new();
    assert_eq!(
        deposit.process_with(&PROGRAM, derived(), &answers),
        Ok(Progress::Ask(Request::Transfer { lamports: 500 }))
    );
    answers.transfer = Some(Err(1));
    assert_eq!(deposit.process_with(&PROGRAM, derived(), &answers), Err(VaultError::Ledger(1)));
    answers.transfer = Some(Err(6 << 32));
    assert_eq!(
        deposit.process_with(&PROGRAM, derived(), &answers),
        Err(VaultError::Ledger(6 << 32))
    );
    let rich = owner(1000);
    answers.transfer = Some(Err(77));
    assert_eq!(
        Deposit { owner: &rich, vault: &v, amount: 500 }.process_with(&PROGRAM, derived(), &answers),
        Err(VaultError::Ledger(77))
    );
}

#[test]
fn deposit_hands_on_a_refusal_of_the_reserve_or_the_creation() {
    let o = owner(1000);
    let fresh = absent_vault();
    let deposit = Deposit { owner: &o, vault: &fresh, amount: 500 };
    let mut answers = Answers::new();
    answers.reserve = Some(Err(17 << 32));
    assert_eq!(
        deposit.process_with(&PROGRAM, derived(), &answers),
        Err(VaultError::Ledger(17 << 32))
    );
    answers.reserve = Some(Ok(890));
    answers.creation = Some(Err(0));
    assert_eq!(deposit.process_with(&PROGRAM, derived(), &answers), Err(VaultError::Ledger(0)));
    let standing = vault(890);
    assert_eq!(
        Deposit { owner: &o, vault: &standing, amount: 500 }.process_with(
            &PROGRAM,
            derived(),
            &answers
        ),
        Ok(Progress::Ask(Request::Transfer { lamports: 500 }))
    );
}

#[test]
fn deposit_whose_balances_cannot_be_written_down_is_insufficient_funds() {
    let o = owner(1000);
    let full = vault(u64::MAX - 499);
    assert_eq!(
        Deposit { owner: &o, vault: &full, amount: 500 }.process_with(
            &PROGRAM,
            derived(),
            &carried_out(890)
        ),
        Err(VaultError::InsufficientFunds)
    );
    let nearly = vault(u64::MAX - 500);
    let settlement = settled(
        Deposit { owner: &o, vault: &nearly, amount: 500 }.process_with(
            &PROGRAM,
            derived(),
            &carried_out(890),
        ),
    )
    .unwrap();
    assert_eq!(settlement.vault.lamports, u64::MAX);
    let fresh = absent_vault();
    assert_eq!(
        Deposit { owner: &o, vault: &fresh, amount: 500 }.process_with(
            &PROGRAM,
            derived(),
            &carried_out(u64::MAX - 499)
        ),
        Err(VaultError::InsufficientFunds)
    );
    let poor = owner(499);
    let v = vault(890);
    assert_eq!(
        Deposit { owner: &poor, vault: &v, amount: 500 }.process_with(
            &PROGRAM,
            derived(),
            &carried_out(890)
        ),
        Err(VaultError::InsufficientFunds)
    );
    let exact = owner(500);
    let settlement = settled(
        Deposit { owner: &exact, vault: &v, amount: 500 }.process_with(
            &PROGRAM,
            derived(),
            &carried_out(890),
        ),
    )
    .unwrap();
    assert_eq!(settlement.owner.lamports, 0);
    assert_eq!(settlement.vault.lamports, 1390);
}

#[test]
fn deposit_keeps_what_the_two_accounts_hold_together() {
    let o = owner(1000);
    let v = vault(2500);
    let settlement = settled(
        Deposit { owner: &o, vault: &v, amount: 321 }.process_with(
            &PROGRAM,
            derived(),
            &carried_out(890),
        ),
    )
    .unwrap();
    assert_eq!(settlement.owner.lamports + settlement.vault.lamports, 3500);
    let fresh = absent_vault();
    let settlement = settled(
        Deposit { owner: &o, vault: &fresh, amount: 321 }.process_with(
            &PROGRAM,
            derived(),
            &carried_out(890),
        ),
    )
    .unwrap();
    assert_eq!(settlement.owner.lamports + settlement.vault.lamports, 1000 + 890);
}

#[test]
fn deposit_reads_owner_and_vault_from_the_first_two_accounts() {
    let accounts = [owner(1000), vault(890), owner(5)];
    let payload = 500u64.to_le_bytes();
    let deposit = Deposit::try_from((&payload[..], &accounts[..])).unwrap();
    assert_eq!(deposit, Deposit { owner: &accounts[0], vault: &accounts[1], amount: 500 });
}

#[test]
fn deposit_needs_two_accounts() {
    let accounts = [owner(1000)];
    let payload = 500u64.to_le_bytes();
    assert_eq!(
        Deposit::try_from((&payload[..], &accounts[..])).unwrap_err(),
        VaultError::NotEnoughAccountKeys
    );
    assert_eq!(
        Deposit::try_from((&payload[..], &accounts[..0])).unwrap_err(),
        VaultError::NotEnoughAccountKeys
    );
}

#[test]
fn deposit_payload_is_read_before_the_accounts_are_counted() {
    let accounts = [owner(1000)];
    assert_eq!(
        Deposit::try_from((&[1u8, 2, 3][..], &accounts[..])).unwrap_err(),
        VaultError::InvalidInstructionData
    );
    assert_eq!(
        Deposit::try_from((&[0u8; 8][..], &accounts[..])).unwrap_err(),
        VaultError::InvalidAccountData
    );
    assert_eq!(
        Deposit::try_from((&[0u8; 8][..], &accounts[..0])).unwrap_err(),
        VaultError::InvalidAccountData
    );
}

#[test]
fn deposit_payload_of_another_length_is_invalid_instruction_data() {
    let accounts = [owner(1000), vault(890)];
    for len in [0usize, 1, 7, 9, 12] {
        let payload = vec![1u8; len];
        assert_eq!(
            Deposit::try_from((&payload[..], &accounts[..])).unwrap_err(),
            VaultError::InvalidInstructionData
        );
    }
}

#[test]
fn deposit_payload_of_zero_is_invalid_account_data() {
    let accounts = [owner(1000), vault(890)];
    assert_eq!(
        Deposit::try_from((&[0u8; 8][..], &accounts[..])).unwrap_err(),
        VaultError::InvalidAccountData
    );
}
