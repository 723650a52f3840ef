use neo_flash::account::AccountView;
use neo_flash::error::ProgramError;
use neo_flash::instructions::helpers::{ProtocolConfigState, CONFIG_LEN};
use neo_flash::instructions::loan::LoanInstructionData;
use neo_flash::plan::{Plan, TransferPlan};
use neo_flash::sysvar::{Instructions, IntrospectedInstruction, Rent, INSTRUCTIONS_ID};
use neo_flash::{process_instruction, PROGRAM_ID};

fn key(tag: u8) -> [u8; 32] {
    let mut k = [0u8; 32];
    k[0] = tag;
    k[31] = 0x5a;
    k
}

fn account(address: [u8; 32], owner: [u8; 32], is_signer: bool, data: Vec<u8>) -> AccountView {
    AccountView { address, owner, is_signer, data }
}

fn pda(seeds: &[&[u8]]) -> ([u8; 32], u8) {
    let (address, bump) = solana_address::Address::find_program_address(
        seeds,
        &solana_address::Address::new_from_array(PROGRAM_ID),
    );
    (address.to_bytes(), bump)
}

fn no_instructions() -> Instructions {
    Instructions { instructions: vec![] }
}

// Initialize the protocol with a fee of 5 basis points and an active state;
// then a transaction that borrows 555 tokens and ends with a repay, its
// borrow naming six accounts and its repay five, and then with the token and
// system programs added.
#[test]
fn test_flash_loan() {
    let rent = Rent { lamports_per_byte: 6960 };
    let authority = key(1);
    let treasury = key(2);
    let (config_pda, config_bump) = pda(&[b"config", &treasury]);
    let system_program = [0u8; 32];

    // Initialize: discriminator 0, fee 5 (little endian), state 1.
    let fee = 5u16;
    let mut init_data = vec![0u8];
    init_data.extend_from_slice(&fee.to_le_bytes());
    init_data.push(1u8);
    let init_accounts = vec![
        account(authority, system_program, true, vec![]),
        account(treasury, system_program, false, vec![]),
        account(config_pda, system_program, false, vec![]),
        account(system_program, system_program, false, vec![]),
    ];
    let plan = match process_instruction(&init_accounts, &init_data, &no_instructions(), &rent) {
        Ok(Plan::Initialize(plan)) => plan,
        other => panic!("the initialize instruction must be accepted: {:?}", other),
    };
    assert_eq!(plan.create.from, authority);
    assert_eq!(plan.create.to, config_pda);
    assert_eq!(plan.create.space, 68);
    assert_eq!(plan.create.owner, PROGRAM_ID);
    assert_eq!(plan.create.lamports, (128 + 68) * 6960);
    assert_eq!(plan.create.signer_seeds, vec![b"config".to_vec(), treasury.to_vec(), vec![config_bump]]);
    assert_eq!(
        plan.config,
        ProtocolConfigState { fee_bps: 5, authority, treasury, protocol_state: 1 }
    );
    // Perform the plan: the created account holds the configuration.
    let mut config_data = vec![0u8; CONFIG_LEN];
    plan.config.store(&mut config_data);
    let config_account = account(config_pda, PROGRAM_ID, false, config_data);
    assert_eq!(ProtocolConfigState::load(&config_account), Ok(plan.config));

    // Borrow 555 tokens, then repay.
    let borrower = key(3);
    let borrower_token_account = key(4);
    let liquidity_vault = key(5);
    let (liquidity_vault_pda, _) = pda(&[b"liquidity_pda"]);
    let amount = 555u64;
    let mut borrow_data = vec![1u8];
    borrow_data.extend_from_slice(&amount.to_le_bytes());
    let borrow_accounts = vec![
        account(borrower, system_program, true, vec![]),
        account(borrower_token_account, system_program, false, vec![]),
        config_account.clone(),
        account(liquidity_vault, system_program, false, vec![]),
        account(liquidity_vault_pda, system_program, false, vec![]),
        account(INSTRUCTIONS_ID, system_program, false, vec![]),
    ];
    let repay_data = vec![2u8];
    let repay_accounts = vec![
        account(borrower, system_program, true, vec![]),
        account(borrower_token_account, system_program, false, vec![]),
        account(liquidity_vault, system_program, false, vec![]),
        config_account.clone(),
        account(INSTRUCTIONS_ID, system_program, false, vec![]),
    ];
    let ixs = Instructions {
        instructions: vec![
            IntrospectedInstruction {
                program_id: PROGRAM_ID,
                account_keys: borrow_accounts.iter().map(|a| a.address).collect(),
                data: borrow_data.clone(),
            },
            IntrospectedInstruction {
                program_id: PROGRAM_ID,
                account_keys: repay_accounts.iter().map(|a| a.address).collect(),
                data: repay_data.clone(),
            },
        ],
    };
    // The borrow instruction takes eight accounts and the repay six: with six
    // and five, both are refused.
    assert_eq!(
        process_instruction(&borrow_accounts, &borrow_data, &ixs, &rent),
        Err(ProgramError::NotEnoughAccountKeys)
    );
    assert_eq!(
        process_instruction(&repay_accounts, &repay_data, &ixs, &rent),
        Err(ProgramError::NotEnoughAccountKeys)
    );
    assert_eq!(LoanInstructionData::try_from(&borrow_data[1..]).unwrap().amounts, 555);

    // With the token and system programs added to the borrow, the loan of 555
    // goes out of the vault.
    let mut full_borrow_accounts = borrow_accounts.clone();
    full_borrow_accounts.push(account(key(6), system_program, false, vec![]));
    full_borrow_accounts.push(account(system_program, system_program, false, vec![]));
    match process_instruction(&full_borrow_accounts, &borrow_data, &ixs, &rent) {
        Ok(Plan::Transfer(TransferPlan { from, to, amount, .. })) => {
            assert_eq!(from, liquidity_vault);
            assert_eq!(to, borrower_token_account);
            assert_eq!(amount, 555);
        }
        other => panic!("the borrow must be accepted: {:?}", other),
    }
    // With the token program added to the repay, the 555 tokens, plus a fee
    // of 5 basis points rounded down to 0, go back into the vault.
    let mut full_repay_accounts = repay_accounts.clone();
    full_repay_accounts.push(account(key(6), system_program, false, vec![]));
    match process_instruction(&full_repay_accounts, &repay_data, &ixs, &rent) {
        Ok(Plan::Transfer(TransferPlan { from, to, authority, amount, .. })) => {
            assert_eq!(from, borrower_token_account);
            assert_eq!(to, liquidity_vault);
            assert_eq!(authority, borrower);
            assert_eq!(amount, 555);
        }
        other => panic!("the repay must be accepted: {:?}", other),
    }
}
