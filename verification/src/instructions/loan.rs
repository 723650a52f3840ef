//! The borrow instruction: lends tokens out of the liquidity vault, provided
//! that the transaction ends with this program's repay instruction and that
//! this repay instruction names the vault as its third account.
use vstd::prelude::*;
use vstd::bytes::{
    lemma_auto_spec_u64_to_from_le_bytes, spec_u64_from_le_bytes, spec_u64_to_le_bytes,
    u64_from_le_bytes,
};
use vstd::slice::slice_subrange;
use crate::account::{lemma_seeds_deep_view, pubkey_eq, AccountView};
use crate::error::ProgramError;
use crate::instructions::helpers::{spec_load_config, ProtocolConfigState};
use crate::pda::{program_address_search, try_find_program_address};
use crate::plan::{transfer_result_view, TransferModel, TransferPlan};
use crate::sysvar::{Instructions, INSTRUCTIONS_ID};
use crate::instructions::repay::REPAY_VAULT_INDEX;
use crate::{LOAN_DISCRIMINATOR, PROGRAM_ID, REPAY_DISCRIMINATOR};

verus! {

/// The number of accounts that the borrow instruction takes.
pub const LOAN_ACCOUNTS_LEN: usize = 8;

/// The seed of the liquidity vault's authority: `b"liquidity_pda"`.
pub open spec fn liquidity_seed() -> Seq<u8> {
    seq![108u8, 105u8, 113u8, 117u8, 105u8, 100u8, 105u8, 116u8, 121u8, 95u8, 112u8, 100u8, 97u8]
}

/// The seed of the liquidity vault's authority, `b"liquidity_pda"`.
pub fn liquidity_seed_bytes() -> (r: Vec<u8>)
    ensures
        r@ == liquidity_seed(),
{
    let r: Vec<u8> = vec![108u8, 105u8, 113u8, 117u8, 105u8, 100u8, 105u8, 116u8, 121u8, 95u8, 112u8, 100u8, 97u8];
    assert(r@ =~= liquidity_seed());
    r
}

/// The accounts of the borrow instruction.
#[derive(Debug)]
pub struct LoanAccounts<'a> {
    /// User requesting the flash loan; must be a signer.
    pub borrower: &'a AccountView,
    /// Where the borrowed tokens go.
    pub borrower_token_account: &'a AccountView,
    /// The configuration account.
    pub config: &'a AccountView,
    /// The source of liquidity.
    pub liquidity_vault: &'a AccountView,
    /// The program derived address that owns the liquidity vault.
    pub liquidity_vault_pda: &'a AccountView,
    /// The instructions sysvar.
    pub instruction_sysvar: &'a AccountView,
}

/// What `LoanAccounts::try_from` refuses `accounts` with, if anything: there
/// must be exactly eight accounts, the first, the borrower, must have signed,
/// and the sixth must be the instructions sysvar.
pub open spec fn loan_accounts_error(accounts: Seq<AccountView>) -> Option<ProgramError> {
    if accounts.len() != LOAN_ACCOUNTS_LEN {
        Some(ProgramError::NotEnoughAccountKeys)
    } else if !accounts[0].is_signer {
        Some(ProgramError::MissingRequiredSignature)
    } else if accounts[5].address@ != INSTRUCTIONS_ID@ {
        Some(ProgramError::UnsupportedSysvar)
    } else {
        None
    }
}

/// Whether `a` holds the accounts of `accounts` at the positions the borrow
/// instruction expects them (the token and system programs, last, are not
/// kept).
pub open spec fn loan_accounts_from(a: LoanAccounts, accounts: Seq<AccountView>) -> bool {
    &&& *a.borrower == accounts[0]
    &&& *a.borrower_token_account == accounts[1]
    &&& *a.config == accounts[2]
    &&& *a.liquidity_vault == accounts[3]
    &&& *a.liquidity_vault_pda == accounts[4]
    &&& *a.instruction_sysvar == accounts[5]
}

impl<'a> LoanAccounts<'a> {
    pub fn try_from(accounts: &'a [AccountView]) -> (r: Result<LoanAccounts<'a>, ProgramError>)
        ensures
            match r {
                Ok(a) => loan_accounts_error(accounts@) is None && loan_accounts_from(a, accounts@),
                Err(e) => loan_accounts_error(accounts@) == Some(e),
            },
    {
        if accounts.len() != LOAN_ACCOUNTS_LEN {
            return Err(ProgramError::NotEnoughAccountKeys);
        }
        let borrower = &accounts[0];
        if !borrower.is_signer {
            return Err(ProgramError::MissingRequiredSignature);
        }
        let instruction_sysvar = &accounts[5];
        if !pubkey_eq(&instruction_sysvar.address, &INSTRUCTIONS_ID) {
            return Err(ProgramError::UnsupportedSysvar);
        }
        Ok(LoanAccounts {
            borrower,
            borrower_token_account: &accounts[1],
            config: &accounts[2],
            liquidity_vault: &accounts[3],
            liquidity_vault_pda: &accounts[4],
            instruction_sysvar,
        })
    }
}

/// The data of the borrow instruction.
#[derive(Debug, Clone, Copy, PartialEq, Eq)]
pub struct LoanInstructionData {
    /// The amount of tokens lent.
    pub amounts: u64,
}

/// The amount that borrow instruction data `data` asks for: its first eight
/// bytes, little endian.
pub open spec fn spec_loan_amount(data: Seq<u8>) -> u64 {
    spec_u64_from_le_bytes(data.subrange(0, 8))
}

/// What parsing borrow instruction data gives: the data must hold at least
/// eight bytes (any further bytes are ignored) and ask for a nonzero amount.
pub open spec fn spec_loan_data(data: Seq<u8>) -> Result<u64, ProgramError> {
    if data.len() < 8 {
        Err(ProgramError::InvalidInstructionData)
    } else if spec_loan_amount(data) == 0 {
        Err(ProgramError::InvalidInstructionData)
    } else {
        Ok(spec_loan_amount(data))
    }
}

impl LoanInstructionData {
    pub fn try_from(data: &[u8]) -> (r: Result<LoanInstructionData, ProgramError>)
        ensures
            match r {
                Ok(d) => spec_loan_data(data@) == Ok::<u64, ProgramError>(d.amounts),
                Err(e) => spec_loan_data(data@) == Err::<u64, ProgramError>(e),
            },
            r matches Ok(d) ==> spec_u64_to_le_bytes(d.amounts) == data@.subrange(0, 8),
    {
        proof {
            lemma_auto_spec_u64_to_from_le_bytes();
        }
        if data.len() < 8 {
            return Err(ProgramError::InvalidInstructionData);
        }
        let amounts = u64_from_le_bytes(slice_subrange(data, 0, 8));
        if amounts == 0 {
            return Err(ProgramError::InvalidInstructionData);
        }
        Ok(LoanInstructionData { amounts })
    }
}

/// A parsed borrow instruction.
#[derive(Debug)]
pub struct Loan<'a> {
    pub accounts: LoanAccounts<'a>,
    pub instruction_data: LoanInstructionData,
}

/// What `Loan::try_from` refuses `(data, accounts)` with, if anything: the
/// accounts are checked before the data.
pub open spec fn loan_error(data: Seq<u8>, accounts: Seq<AccountView>) -> Option<ProgramError> {
    match loan_accounts_error(accounts) {
        Some(e) => Some(e),
        None => match spec_loan_data(data) {
            Err(e) => Some(e),
            Ok(_) => None,
        },
    }
}

/// The seeds with which the program signs for the liquidity vault's
/// authority, whose bump seed is `bump`.
pub open spec fn liquidity_signer_seeds(bump: u8) -> Seq<Seq<u8>> {
    seq![liquidity_seed(), seq![bump]]
}

/// What the borrow instruction decides, for the configuration account
/// `config`, the borrower's token account `borrower_token_account`, the
/// liquidity vault `liquidity_vault` and its authority
/// `liquidity_vault_pda`, the lent `amount` and the transaction's
/// instructions `ixs`.
///
/// The protocol must be active; the last instruction of the transaction must
/// be this program's repay instruction and name the liquidity vault as its
/// third account; and the vault's authority must be the program derived
/// address of the seed `b"liquidity_pda"`. Then the amount goes from the
/// vault to the borrower's token account, the program signing for the
/// vault's authority.
pub open spec fn spec_loan_at(
    config: AccountView,
    borrower_token_account: Seq<u8>,
    liquidity_vault: Seq<u8>,
    liquidity_vault_pda: Seq<u8>,
    amount: u64,
    ixs: Instructions,
) -> Result<TransferModel, ProgramError> {
    let n = ixs.instructions@.len();
    let last = ixs.instructions@[n - 1];
    match spec_load_config(config) {
        Err(e) => Err(e),
        Ok(c) => if c.protocol_state == 0 {
            Err(ProgramError::InvalidInstructionData)
        } else if n == 0 {
            Err(ProgramError::InvalidInstructionData)
        } else if last.program_id@ != PROGRAM_ID@ {
            Err(ProgramError::InvalidInstructionData)
        } else if last.data@.len() == 0 || last.data@[0] != REPAY_DISCRIMINATOR {
            Err(ProgramError::InvalidInstructionData)
        } else if last.account_keys@.len() <= REPAY_VAULT_INDEX {
            Err(ProgramError::InvalidArgument)
        } else if last.account_keys@[REPAY_VAULT_INDEX as int]@ != liquidity_vault {
            Err(ProgramError::InvalidInstructionData)
        } else {
            match program_address_search(seq![liquidity_seed()], PROGRAM_ID@) {
                None => Err(ProgramError::InvalidSeeds),
                Some((pda, bump)) => if pda != liquidity_vault_pda {
                    Err(ProgramError::InvalidAccountData)
                } else {
                    Ok(
                        TransferModel {
                            from: liquidity_vault,
                            to: borrower_token_account,
                            authority: liquidity_vault_pda,
                            amount,
                            signer_seeds: liquidity_signer_seeds(bump),
                        },
                    )
                },
            }
        },
    }
}

/// What the parsed borrow instruction `loan` decides, given `ixs`.
pub open spec fn spec_loan_process(loan: Loan, ixs: Instructions) -> Result<TransferModel, ProgramError> {
    spec_loan_at(
        *loan.accounts.config,
        loan.accounts.borrower_token_account.address@,
        loan.accounts.liquidity_vault.address@,
        loan.accounts.liquidity_vault_pda.address@,
        loan.instruction_data.amounts,
        ixs,
    )
}

impl<'a> Loan<'a> {
    /// The first byte of this instruction's data.
    pub const DISCRIMINATOR: u8 = LOAN_DISCRIMINATOR;

    pub fn try_from(input: (&'a [u8], &'a [AccountView])) -> (r: Result<Loan<'a>, ProgramError>)
        ensures
            match r {
                Ok(l) => loan_error(input.0@, input.1@) is None && loan_accounts_from(
                    l.accounts,
                    input.1@,
                ) && spec_loan_data(input.0@) == Ok::<u64, ProgramError>(
                    l.instruction_data.amounts,
                ),
                Err(e) => loan_error(input.0@, input.1@) == Some(e),
            },
    {
        let (data, accounts) = input;
        let accounts = LoanAccounts::try_from(accounts)?;
        let instruction_data = LoanInstructionData::try_from(data)?;
        Ok(Loan { accounts, instruction_data })
    }

    /// Decides the borrow instruction: checks the configuration and the
    /// transaction's last instruction, and gives the transfer that lends the
    /// tokens.
    pub fn process(&self, ixs: &Instructions) -> (r: Result<TransferPlan, ProgramError>)
        ensures
            transfer_result_view(r) == spec_loan_process(*self, *ixs),
    {
        let config = ProtocolConfigState::load(self.accounts.config)?;
        if config.protocol_state == 0 {
            return Err(ProgramError::InvalidInstructionData);
        }
        let num_instructions = ixs.num_instructions();
        if num_instructions == 0 {
            return Err(ProgramError::InvalidInstructionData);
        }
        let instruction = ixs.load_instruction_at(num_instructions - 1)?;
        if !pubkey_eq(&instruction.program_id, &PROGRAM_ID) {
            return Err(ProgramError::InvalidInstructionData);
        }
        if instruction.data.len() == 0 || instruction.data[0] != REPAY_DISCRIMINATOR {
            return Err(ProgramError::InvalidInstructionData);
        }
        if instruction.account_keys.len() <= REPAY_VAULT_INDEX {
            return Err(ProgramError::InvalidArgument);
        }
        if !pubkey_eq(&instruction.account_keys[REPAY_VAULT_INDEX], &self.accounts.liquidity_vault.address) {
            return Err(ProgramError::InvalidInstructionData);
        }
        let seeds: Vec<Vec<u8>> = vec![liquidity_seed_bytes()];
        proof {
            lemma_seeds_deep_view(seeds);
            assert(seeds.deep_view() =~= seq![liquidity_seed()]);
        }
        let (liquidity_pda, liquidity_bump) = match try_find_program_address(&seeds, &PROGRAM_ID) {
            Some(found) => found,
            None => return Err(ProgramError::InvalidSeeds),
        };
        if !pubkey_eq(&liquidity_pda, &self.accounts.liquidity_vault_pda.address) {
            return Err(ProgramError::InvalidAccountData);
        }
        let signer_seeds: Vec<Vec<u8>> = vec![liquidity_seed_bytes(), vec![liquidity_bump]];
        proof {
            lemma_seeds_deep_view(signer_seeds);
            assert(signer_seeds@[1]@ =~= seq![liquidity_bump]);
            assert(signer_seeds.deep_view() =~= liquidity_signer_seeds(liquidity_bump));
        }
        Ok(TransferPlan {
            from: self.accounts.liquidity_vault.address,
            to: self.accounts.borrower_token_account.address,
            authority: self.accounts.liquidity_vault_pda.address,
            amount: self.instruction_data.amounts,
            signer_seeds,
        })
    }
}

} // verus!
