use neo_flash::account::{pubkey_eq, AccountView};
use neo_flash::error::ProgramError;
use neo_flash::instructions::helpers::{
    get_token_amount, ProtocolConfigState, CONFIG_LEN, TOKEN_ACCOUNT_LEN, TOKEN_PROGRAM_ID,
};
use neo_flash::instructions::initializer::{ProtocolInitAccounts, ProtocolInitData, ProtocolInitializer};
use neo_flash::instructions::loan::{Loan, LoanAccounts, LoanInstructionData};
use neo_flash::instructions::repay::{repay_amount, Repay, RepayAccounts};
use neo_flash::plan::{Plan, TransferPlan};
use neo_flash::sysvar::{Instructions, IntrospectedInstruction, Rent, INSTRUCTIONS_ID};
use neo_flash::{parse_instruction, process_instruction, FlashLoanInstruction, PROGRAM_ID};

/// Decides an instruction, with the default rent rate, and gives the
/// transfer it plans.
fn decide(accounts: &[AccountView], data: &[u8], ixs: &Instructions) -> Result<TransferPlan, ProgramError> {
    match process_instruction(accounts, data, ixs, &Rent { lamports_per_byte: 6960 })? {
        Plan::Transfer(t) => Ok(t),
        Plan::Initialize(_) => panic!("expected a transfer"),
    }
}

fn key(tag: u8) -> [u8; 32] {
    let mut k = [0u8; 32];
    k[0] = tag;
    k[31] = 0x77;
    k
}

fn account(address: [u8; 32], owner: [u8; 32], is_signer: bool, data: Vec<u8>) -> AccountView {
    AccountView { address, owner, is_signer, data }
}

fn config_bytes(fee_bps: u16, state: u8) -> Vec<u8> {
    let mut data = vec![0u8; CONFIG_LEN];
    ProtocolConfigState { fee_bps, authority: key(1), treasury: key(2), protocol_state: state }
        .store(&mut data);
    data
}

fn liquidity_pda() -> ([u8; 32], u8) {
    let (address, bump) = solana_address::Address::find_program_address(
        &[b"liquidity_pda"],
        &solana_address::Address::new_from_array(PROGRAM_ID),
    );
    (address.to_bytes(), bump)
}

const BORROWER: u8 = 10;
const BORROWER_TOKENS: u8 = 11;
const CONFIG: u8 = 12;
const VAULT: u8 = 13;
const TOKEN_PROGRAM: u8 = 14;
const SYSTEM_PROGRAM: u8 = 15;

/// The eight accounts of a borrow instruction.
fn loan_accounts(fee_bps: u16, state: u8) -> Vec<AccountView> {
    vec![
        account(key(BORROWER), key(SYSTEM_PROGRAM), true, vec![]),
        account(key(BORROWER_TOKENS), TOKEN_PROGRAM_ID, false, vec![0; TOKEN_ACCOUNT_LEN]),
        account(key(CONFIG), PROGRAM_ID, false, config_bytes(fee_bps, state)),
        account(key(VAULT), TOKEN_PROGRAM_ID, false, vec![0; TOKEN_ACCOUNT_LEN]),
        account(liquidity_pda().0, key(SYSTEM_PROGRAM), false, vec![]),
        account(INSTRUCTIONS_ID, key(SYSTEM_PROGRAM), false, vec![]),
        account(TOKEN_PROGRAM_ID, key(SYSTEM_PROGRAM), false, vec![]),
        account(key(SYSTEM_PROGRAM), key(SYSTEM_PROGRAM), false, vec![]),
    ]
}

/// The six accounts of a repay instruction.
fn repay_accounts(fee_bps: u16, state: u8) -> Vec<AccountView> {
    vec![
        account(key(BORROWER), key(SYSTEM_PROGRAM), true, vec![]),
        account(key(BORROWER_TOKENS), TOKEN_PROGRAM_ID, false, vec![0; TOKEN_ACCOUNT_LEN]),
        account(key(VAULT), TOKEN_PROGRAM_ID, false, vec![0; TOKEN_ACCOUNT_LEN]),
        account(key(CONFIG), PROGRAM_ID, false, config_bytes(fee_bps, state)),
        account(INSTRUCTIONS_ID, key(SYSTEM_PROGRAM), false, vec![]),
        account(TOKEN_PROGRAM_ID, key(SYSTEM_PROGRAM), false, vec![]),
    ]
}

fn borrow_data(amount: u64) -> Vec<u8> {
    let mut d = vec![1u8];
    d.extend_from_slice(&amount.to_le_bytes());
    d
}

fn instruction(program_id: [u8; 32], keys: Vec<[u8; 32]>, data: Vec<u8>) -> IntrospectedInstruction {
    IntrospectedInstruction { program_id, account_keys: keys, data }
}

/// A transaction: a borrow of `amount`, then a repay naming `repay_keys`.
fn sandwich(amount: u64, repay_keys: Vec<[u8; 32]>) -> Instructions {
    Instructions {
        instructions: vec![
            instruction(
                PROGRAM_ID,
                loan_accounts(5, 1).iter().map(|a| a.address).collect(),
                borrow_data(amount),
            ),
            instruction(PROGRAM_ID, repay_keys, vec![2u8]),
        ],
    }
}

/// The keys that the borrow instruction checks: the vault third.
fn repay_keys_vault_third() -> Vec<[u8; 32]> {
    vec![key(BORROWER), key(BORROWER_TOKENS), key(VAULT), key(CONFIG), INSTRUCTIONS_ID, TOKEN_PROGRAM_ID]
}

#[test]
fn loan_lends_from_the_vault() {
    let accounts = loan_accounts(5, 1);
    let ixs = sandwich(555, repay_keys_vault_third());
    let (pda, bump) = liquidity_pda();
    let plan = decide(&accounts, &borrow_data(555), &ixs).unwrap();
    assert_eq!(
        plan,
        TransferPlan {
            from: key(VAULT),
            to: key(BORROWER_TOKENS),
            authority: pda,
            amount: 555,
            signer_seeds: vec![b"liquidity_pda".to_vec(), vec![bump]],
        }
    );
}

#[test]
fn loan_refuses_a_vault_authority_that_is_not_the_derived_address() {
    let mut accounts = loan_accounts(5, 1);
    accounts[4].address = PROGRAM_ID;
    let ixs = sandwich(555, repay_keys_vault_third());
    assert_eq!(
        decide(&accounts, &borrow_data(555), &ixs),
        Err(ProgramError::InvalidAccountData)
    );
}

#[test]
fn loan_requires_repay_last() {
    let accounts = loan_accounts(5, 1);
    // The repay names the vault at another position.
    let mut keys = repay_keys_vault_third();
    keys.swap(2, 3);
    assert_eq!(
        decide(&accounts, &borrow_data(555), &sandwich(555, keys)),
        Err(ProgramError::InvalidInstructionData)
    );
    // The last instruction belongs to another program.
    let mut ixs = sandwich(555, repay_keys_vault_third());
    ixs.instructions[1].program_id = TOKEN_PROGRAM_ID;
    assert_eq!(
        decide(&accounts, &borrow_data(555), &ixs),
        Err(ProgramError::InvalidInstructionData)
    );
    // The last instruction is not a repay.
    let mut ixs = sandwich(555, repay_keys_vault_third());
    ixs.instructions[1].data = vec![1u8];
    assert_eq!(
        decide(&accounts, &borrow_data(555), &ixs),
        Err(ProgramError::InvalidInstructionData)
    );
    // The repay has no third account.
    let ixs = sandwich(555, vec![key(BORROWER), key(BORROWER_TOKENS)]);
    assert_eq!(
        decide(&accounts, &borrow_data(555), &ixs),
        Err(ProgramError::InvalidArgument)
    );
    // No instruction at all.
    assert_eq!(
        decide(&accounts, &borrow_data(555), &Instructions { instructions: vec![] }),
        Err(ProgramError::InvalidInstructionData)
    );
}

#[test]
fn loan_data_and_accounts_are_checked() {
    let accounts = loan_accounts(5, 1);
    let ixs = sandwich(555, repay_keys_vault_third());
    assert_eq!(
        decide(&accounts, &borrow_data(0), &ixs),
        Err(ProgramError::InvalidInstructionData)
    );
    assert_eq!(
        decide(&accounts, &[1u8, 2, 3], &ixs),
        Err(ProgramError::InvalidInstructionData)
    );
    // Extra bytes after the amount are ignored.
    let mut long = borrow_data(7);
    long.push(9);
    assert_eq!(LoanInstructionData::try_from(&long[1..]).unwrap().amounts, 7);
    let mut wrong_sysvar = loan_accounts(5, 1);
    wrong_sysvar[5].address = key(99);
    assert_eq!(
        decide(&wrong_sysvar, &borrow_data(555), &ixs),
        Err(ProgramError::UnsupportedSysvar)
    );
    assert!(matches!(
        LoanAccounts::try_from(&wrong_sysvar[..]),
        Err(ProgramError::UnsupportedSysvar)
    ));
    // Accounts are checked before data.
    assert_eq!(
        decide(&accounts[..7], &borrow_data(0), &ixs),
        Err(ProgramError::NotEnoughAccountKeys)
    );
}

#[test]
fn repay_returns_loan_with_fee() {
    let accounts = repay_accounts(100, 1);
    let ixs = sandwich(10_000, repay_keys_vault_third());
    let plan = decide(&accounts, &[2u8], &ixs).unwrap();
    assert_eq!(
        plan,
        TransferPlan {
            from: key(BORROWER_TOKENS),
            to: key(VAULT),
            authority: key(BORROWER),
            amount: 10_100,
            signer_seeds: vec![],
        }
    );
    // At 5 basis points, 555 owes no fee (rounded down).
    let plan = decide(&repay_accounts(5, 1), &[2u8], &sandwich(555, repay_keys_vault_third())).unwrap();
    assert_eq!(plan.amount, 555);
}

#[test]
fn repay_requires_borrow_first() {
    let accounts = repay_accounts(5, 1);
    let mut ixs = sandwich(555, repay_keys_vault_third());
    ixs.instructions[0].data = vec![1u8, 1, 2, 3];
    assert_eq!(decide(&accounts, &[2u8], &ixs), Err(ProgramError::InvalidInstructionData));
    let mut ixs = sandwich(555, repay_keys_vault_third());
    ixs.instructions[0].program_id = TOKEN_PROGRAM_ID;
    assert_eq!(decide(&accounts, &[2u8], &ixs), Err(ProgramError::InvalidInstructionData));
    let mut ixs = sandwich(555, repay_keys_vault_third());
    ixs.instructions[0].data = vec![];
    assert_eq!(decide(&accounts, &[2u8], &ixs), Err(ProgramError::InvalidInstructionData));
}

#[test]
fn repay_amount_overflow_is_refused() {
    assert_eq!(repay_amount(u64::MAX, 2), Err(ProgramError::InvalidInstructionData));
    assert_eq!(repay_amount(u64::MAX, 1), Err(ProgramError::InvalidInstructionData));
    assert_eq!(repay_amount(u64::MAX, 0), Ok(u64::MAX));
    assert_eq!(repay_amount(1_000_000, 30), Ok(1_003_000));
    assert_eq!(repay_amount(9_999, 1), Ok(9_999));
    assert_eq!(repay_amount(10_000, 1), Ok(10_001));
}

#[test]
fn inactive_protocol_refuses_loans_and_repayments() {
    let ixs = sandwich(555, repay_keys_vault_third());
    assert_eq!(
        decide(&loan_accounts(5, 0), &borrow_data(555), &ixs),
        Err(ProgramError::InvalidInstructionData)
    );
    assert_eq!(
        decide(&repay_accounts(5, 0), &[2u8], &ixs),
        Err(ProgramError::InvalidInstructionData)
    );
}

#[test]
fn config_account_is_checked() {
    let ixs = sandwich(555, repay_keys_vault_third());
    let mut accounts = repay_accounts(5, 1);
    accounts[3].owner = TOKEN_PROGRAM_ID;
    assert_eq!(decide(&accounts, &[2u8], &ixs), Err(ProgramError::InvalidAccountData));
    let mut accounts = repay_accounts(5, 1);
    accounts[3].data.push(0);
    assert_eq!(decide(&accounts, &[2u8], &ixs), Err(ProgramError::InvalidAccountData));
    assert!(ProtocolConfigState::load(&accounts[3]).is_err());
    assert!(ProtocolConfigState::load_unchecked(&accounts[3]).is_err());
    assert!(ProtocolConfigState::load_mut(&accounts[3]).is_err());
}

#[test]
fn unknown_instructions_are_refused() {
    let ixs = sandwich(555, repay_keys_vault_third());
    for data in [vec![], vec![3u8], vec![255u8], vec![3u8, 5, 0, 1]] {
        assert_eq!(
            decide(&loan_accounts(5, 1), &data, &ixs),
            Err(ProgramError::InvalidInstructionData)
        );
    }
}

#[test]
fn parse_selects_the_instruction() {
    let loan_accts = loan_accounts(5, 1);
    let data = borrow_data(42);
    match parse_instruction(&loan_accts, &data).unwrap() {
        FlashLoanInstruction::Loan(l) => {
            assert_eq!(l.instruction_data.amounts, 42);
            assert_eq!(l.accounts.config.address, key(CONFIG));
        }
        _ => panic!("expected a loan"),
    }
    let repay_accts = repay_accounts(5, 1);
    let init_accts = vec![
        account(key(1), key(SYSTEM_PROGRAM), true, vec![]),
        account(key(2), key(SYSTEM_PROGRAM), false, vec![]),
        account(key(3), key(SYSTEM_PROGRAM), false, vec![]),
        account(key(SYSTEM_PROGRAM), key(SYSTEM_PROGRAM), false, vec![]),
    ];
    let parsed = parse_instruction(&init_accts, &[0u8, 5, 0, 1]).unwrap();
    assert!(matches!(parsed, FlashLoanInstruction::Initialize(_)));
    assert!(parsed.instruction_sysvar().is_none());
    assert!(matches!(
        parse_instruction(&init_accts, &[0u8, 5, 0, 2]),
        Err(ProgramError::InvalidInstructionData)
    ));
    let parsed = parse_instruction(&repay_accts, &[2u8, 9]).unwrap();
    assert!(matches!(parsed, FlashLoanInstruction::Repay(_)));
    assert_eq!(parsed.instruction_sysvar().unwrap().address, INSTRUCTIONS_ID);
}

#[test]
fn repayment_returns_to_the_lending_vault() {
    // The repay instruction's accounts are the ones its keys name; both the
    // borrow and the repay are accepted, and the repay pays into the vault
    // that lent.
    let ixs = sandwich(555, repay_keys_vault_third());
    let lent = decide(&loan_accounts(5, 1), &borrow_data(555), &ixs).unwrap();
    let repaid = decide(&repay_accounts(5, 1), &[2u8], &ixs).unwrap();
    assert_eq!(repaid.to, lent.from);
    assert_eq!(repaid.from, lent.to);
    assert_eq!(repaid.amount, 555);
}

#[test]
fn loan_requires_a_signing_borrower() {
    let mut accounts = loan_accounts(5, 1);
    accounts[0].is_signer = false;
    assert!(matches!(
        LoanAccounts::try_from(&accounts[..]),
        Err(ProgramError::MissingRequiredSignature)
    ));
    assert_eq!(
        decide(&accounts, &borrow_data(555), &sandwich(555, repay_keys_vault_third())),
        Err(ProgramError::MissingRequiredSignature)
    );
}

#[test]
fn initialize_checks_and_plans() {
    let authority = key(1);
    let treasury = key(2);
    let config = key(3);
    let accounts = vec![
        account(authority, key(SYSTEM_PROGRAM), true, vec![]),
        account(treasury, key(SYSTEM_PROGRAM), false, vec![]),
        account(config, key(SYSTEM_PROGRAM), false, vec![]),
        account(key(SYSTEM_PROGRAM), key(SYSTEM_PROGRAM), false, vec![]),
    ];
    let data = [0x10u8, 0x27, 1];
    let init = ProtocolInitializer::try_from((&data[..], &accounts[..])).unwrap();
    assert_eq!(init.instruction_data, ProtocolInitData { fee_bps: 10_000, protocol_state: 1 });
    let (_, bump) = solana_address::Address::find_program_address(
        &[b"config", &treasury],
        &solana_address::Address::new_from_array(PROGRAM_ID),
    );
    let plan = init.process(&Rent { lamports_per_byte: 10 }).unwrap();
    assert_eq!(
        plan.config,
        ProtocolConfigState { fee_bps: 10_000, authority, treasury, protocol_state: 1 }
    );
    let plan = plan.create;
    assert_eq!(plan.from, authority);
    assert_eq!(plan.to, config);
    assert_eq!(plan.lamports, 1_960);
    assert_eq!(plan.space, 68);
    assert_eq!(plan.owner, PROGRAM_ID);
    assert_eq!(plan.signer_seeds, vec![b"config".to_vec(), treasury.to_vec(), vec![bump]]);
    // A rent rate above the permitted maximum is refused.
    assert_eq!(
        init.process(&Rent { lamports_per_byte: 1_759_197_129_868 }).map(|p| p.create.lamports),
        Err(ProgramError::InvalidArgument)
    );
    // The authority must sign; there must be four accounts.
    let mut unsigned = accounts.clone();
    unsigned[0].is_signer = false;
    assert!(matches!(ProtocolInitAccounts::try_from(&unsigned[..]), Err(ProgramError::InvalidAccountData)));
    assert!(matches!(ProtocolInitAccounts::try_from(&accounts[..3]), Err(ProgramError::NotEnoughAccountKeys)));
    // The data must be three bytes with a state of 0 or 1.
    assert_eq!(ProtocolInitData::try_from(&[5u8, 0, 2]), Err(ProgramError::InvalidInstructionData));
    assert_eq!(ProtocolInitData::try_from(&[5u8, 0]), Err(ProgramError::InvalidInstructionData));
    assert_eq!(ProtocolInitData::try_from(&[5u8, 0, 0]), Ok(ProtocolInitData { fee_bps: 5, protocol_state: 0 }));
    // Accounts are checked before data.
    assert!(matches!(
        ProtocolInitializer::try_from((&[5u8][..], &unsigned[..])),
        Err(ProgramError::InvalidAccountData)
    ));
}

#[test]
fn config_store_then_load_round_trips() {
    let state = ProtocolConfigState { fee_bps: 0xbeef, authority: key(7), treasury: key(8), protocol_state: 3 };
    let mut data = vec![0xaau8; CONFIG_LEN];
    state.store(&mut data);
    assert_eq!(data[0], 0xef);
    assert_eq!(data[1], 0xbe);
    assert_eq!(data[67], 0xaa);
    assert_eq!(ProtocolConfigState::from_bytes_unchecked(&data), state);
    let acc = account(key(9), PROGRAM_ID, false, data.clone());
    assert_eq!(ProtocolConfigState::load(&acc), Ok(state));
    // Loading and storing back leaves the data unchanged.
    let mut again = data.clone();
    ProtocolConfigState::load(&acc).unwrap().store(&mut again);
    assert_eq!(again, data);
}

#[test]
fn setters_update_fields() {
    let mut state = ProtocolConfigState { fee_bps: 5, authority: key(1), treasury: key(2), protocol_state: 1 };
    assert_eq!(state.set_fee(10_000), Err(ProgramError::InvalidAccountData));
    assert_eq!(state.fee_bps(), 5);
    assert_eq!(state.set_fee(9_999), Ok(()));
    assert_eq!(state.fee_bps(), 9_999);
    assert_eq!(state.set_authority(key(3)), Ok(()));
    assert_eq!(*state.authority(), key(3));
    assert_eq!(state.set_treasury(key(4)), Ok(()));
    assert_eq!(*state.treasury(), key(4));
    assert_eq!(state.set_protocol_state(0), Ok(()));
    assert_eq!(state.protocol_state(), 0);
    // A refused fee leaves the old one; the other fields are still set.
    assert_eq!(state.set_inner(20_000, 1, key(5), key(6)), Ok(()));
    assert_eq!(state, ProtocolConfigState { fee_bps: 9_999, authority: key(5), treasury: key(6), protocol_state: 1 });
    assert_eq!(state.set_inner(30, 0, key(7), key(8)), Ok(()));
    assert_eq!(state, ProtocolConfigState { fee_bps: 30, authority: key(7), treasury: key(8), protocol_state: 0 });
}

#[test]
fn token_amount_is_read_from_token_accounts() {
    let mut data = vec![0u8; TOKEN_ACCOUNT_LEN];
    data[64..72].copy_from_slice(&10_000_000u64.to_le_bytes());
    let acc = account(key(1), TOKEN_PROGRAM_ID, false, data.clone());
    assert_eq!(get_token_amount(&acc), Ok(10_000_000));
    let acc = account(key(1), PROGRAM_ID, false, data.clone());
    assert_eq!(get_token_amount(&acc), Err(ProgramError::InvalidAccountOwner));
    let acc = account(key(1), TOKEN_PROGRAM_ID, false, data[..164].to_vec());
    assert_eq!(get_token_amount(&acc), Err(ProgramError::InvalidAccountData));
}

#[test]
fn repay_accounts_need_six() {
    let accounts = repay_accounts(5, 1);
    assert!(RepayAccounts::try_from(&accounts[..]).is_ok());
    assert!(matches!(RepayAccounts::try_from(&accounts[..5]), Err(ProgramError::NotEnoughAccountKeys)));
    let mut seven = accounts.clone();
    seven.push(account(key(1), key(1), false, vec![]));
    assert!(matches!(RepayAccounts::try_from(&seven[..]), Err(ProgramError::NotEnoughAccountKeys)));
}

#[test]
fn addresses_match_the_outside_crates() {
    assert_eq!(PROGRAM_ID, pinocchio_pubkey::from_str("DnWWkqtWVwv5bVc4mnnvxMvZZUsuYNCpZQHGPixbqm4v"));
    assert_eq!(TOKEN_PROGRAM_ID, pinocchio_token::ID.to_bytes());
    assert_eq!(INSTRUCTIONS_ID, pinocchio::sysvars::instructions::INSTRUCTIONS_ID.to_bytes());
    assert_eq!(ProtocolInitializer::DISCRIMINATOR, 0);
    assert_eq!(Loan::DISCRIMINATOR, 1);
    assert_eq!(Repay::DISCRIMINATOR, 2);
    assert!(pubkey_eq(&PROGRAM_ID, &PROGRAM_ID));
    assert!(!pubkey_eq(&PROGRAM_ID, &TOKEN_PROGRAM_ID));
}

/// The configuration record that the account data holds, as the program
/// lays it out in memory.
#[allow(dead_code)]
struct ConfigRecord {
    fee_bps: u16,
    authority: pinocchio::Address,
    treasury: pinocchio::Address,
    protocol_state: u8,
}

#[test]
fn config_account_size_is_the_record_size() {
    assert_eq!(std::mem::size_of::<ConfigRecord>(), CONFIG_LEN);
}

