//! The repay instruction: reads the amount lent by the borrow instruction
//! that opens the transaction and transfers it, with the protocol's fee,
//! from the borrower's token account to the liquidity vault it names third.
use vstd::prelude::*;
use vstd::bytes::{spec_u64_from_le_bytes, u64_from_le_bytes};
use vstd::slice::slice_subrange;
use crate::account::{pubkey_eq, AccountView};
use crate::error::ProgramError;
use crate::instructions::helpers::{spec_load_config, ProtocolConfigState};
use crate::plan::{transfer_result_view, TransferModel, TransferPlan};
use crate::sysvar::Instructions;
use crate::{REPAY_DISCRIMINATOR, LOAN_DISCRIMINATOR, PROGRAM_ID};

verus! {

/// The number of accounts that the repay instruction takes.
pub const REPAY_ACCOUNTS_LEN: usize = 6;

/// The position, among the repay instruction's accounts, of the liquidity
/// vault that is repaid.
pub const REPAY_VAULT_INDEX: usize = 2;

/// The position, among the repay instruction's accounts, of the
/// configuration account.
pub const REPAY_CONFIG_INDEX: usize = 3;

/// Basis points in a whole.
pub const BPS_DENOMINATOR: u64 = 10_000;

/// The accounts of the repay instruction.
#[derive(Debug)]
pub struct RepayAccounts<'a> {
    /// Who requested the loan.
    pub borrower: &'a AccountView,
    /// Where the borrowed tokens went.
    pub borrower_token_account: &'a AccountView,
    /// The vault that offered the loan; it is repaid.
    pub liquidity_vault: &'a AccountView,
    /// The protocol's configuration account.
    pub config: &'a AccountView,
    /// The instructions sysvar.
    pub instruction_sysvar: &'a AccountView,
    /// The token program.
    pub token_program: &'a AccountView,
}

/// Whether `a` holds the accounts of `accounts`, in order.
pub open spec fn repay_accounts_from(a: RepayAccounts, accounts: Seq<AccountView>) -> bool {
    &&& *a.borrower == accounts[0]
    &&& *a.borrower_token_account == accounts[1]
    &&& *a.liquidity_vault == accounts[2]
    &&& *a.config == accounts[3]
    &&& *a.instruction_sysvar == accounts[4]
    &&& *a.token_program == accounts[5]
}

impl<'a> RepayAccounts<'a> {
    /// Takes the repay instruction's accounts: there must be exactly six.
    pub fn try_from(accounts: &'a [AccountView]) -> (r: Result<RepayAccounts<'a>, ProgramError>)
        ensures
            accounts@.len() != REPAY_ACCOUNTS_LEN ==> r == Err::<RepayAccounts<'a>, ProgramError>(
                ProgramError::NotEnoughAccountKeys,
            ),
            accounts@.len() == REPAY_ACCOUNTS_LEN ==> (r matches Ok(a) && repay_accounts_from(
                a,
                accounts@,
            )),
    {
        if accounts.len() != REPAY_ACCOUNTS_LEN {
            return Err(ProgramError::NotEnoughAccountKeys);
        }
        Ok(RepayAccounts {
            borrower: &accounts[0],
            borrower_token_account: &accounts[1],
            liquidity_vault: &accounts[REPAY_VAULT_INDEX],
            config: &accounts[REPAY_CONFIG_INDEX],
            instruction_sysvar: &accounts[4],
            token_program: &accounts[5],
        })
    }
}

/// A parsed repay instruction.
#[derive(Debug)]
pub struct Repay<'a> {
    pub accounts: RepayAccounts<'a>,
}

/// The fee on a loan of `amount` at `fee_bps` basis points, rounded down.
pub open spec fn spec_fee(amount: u64, fee_bps: u16) -> int {
    (amount * fee_bps) / (BPS_DENOMINATOR as int)
}

/// What is owed on a loan of `amount` at `fee_bps` basis points: the amount
/// plus the fee, when neither the product `amount * fee_bps` nor the sum
/// exceeds `u64::MAX`.
pub open spec fn spec_repay_amount(amount: u64, fee_bps: u16) -> Option<u64> {
    if amount * fee_bps > u64::MAX {
        None
    } else if amount + spec_fee(amount, fee_bps) > u64::MAX {
        None
    } else {
        Some((amount + spec_fee(amount, fee_bps)) as u64)
    }
}

/// The amount lent by borrow instruction data `data`, read as the repay
/// instruction reads it: bytes 1..9, little endian, after the discriminator.
pub open spec fn spec_borrowed_amount(data: Seq<u8>) -> u64 {
    spec_u64_from_le_bytes(data.subrange(1, 9))
}

/// Computes what is owed on a loan: the amount plus `amount * fee_bps /
/// 10_000`, refused with `InvalidInstructionData` on overflow.
pub fn repay_amount(amount: u64, fee_bps: u16) -> (r: Result<u64, ProgramError>)
    ensures
        match spec_repay_amount(amount, fee_bps) {
            Some(v) => r == Ok::<u64, ProgramError>(v),
            None => r == Err::<u64, ProgramError>(ProgramError::InvalidInstructionData),
        },
        r matches Ok(v) ==> v >= amount,
        amount * fee_bps <= u64::MAX && amount + (amount * fee_bps) / 10_000 <= u64::MAX ==> r
            == Ok::<u64, ProgramError>((amount + (amount * fee_bps) / 10_000) as u64),
        amount * fee_bps > u64::MAX || amount + (amount * fee_bps) / 10_000 > u64::MAX ==> r
            == Err::<u64, ProgramError>(ProgramError::InvalidInstructionData),
{
    let product = match amount.checked_mul(fee_bps as u64) {
        Some(p) => p,
        None => return Err(ProgramError::InvalidInstructionData),
    };
    let fee_amount = product / BPS_DENOMINATOR;
    let repay = match amount.checked_add(fee_amount) {
        Some(v) => v,
        None => return Err(ProgramError::InvalidInstructionData),
    };
    if repay < amount {
        return Err(ProgramError::InvalidInstructionData);
    }
    Ok(repay)
}

/// What the repay instruction decides, for the configuration account
/// `config`, the borrower `borrower`, the borrower's token account
/// `borrower_token_account`, the liquidity vault `liquidity_vault` and the
/// transaction's instructions `ixs`.
///
/// The protocol must be active; the first instruction of the transaction
/// must be this program's borrow instruction, with the eight bytes of the
/// amount after its discriminator; and what is owed must not overflow. Then
/// what is owed goes from the borrower's token account to the liquidity
/// vault, authorised by the borrower's own signature.
pub open spec fn spec_repay_at(
    config: AccountView,
    borrower: Seq<u8>,
    borrower_token_account: Seq<u8>,
    liquidity_vault: Seq<u8>,
    ixs: Instructions,
) -> Result<TransferModel, ProgramError> {
    let first = ixs.instructions@[0];
    match spec_load_config(config) {
        Err(e) => Err(e),
        Ok(c) => if c.protocol_state == 0 {
            Err(ProgramError::InvalidInstructionData)
        } else if ixs.instructions@.len() == 0 {
            Err(ProgramError::InvalidInstructionData)
        } else if first.program_id@ != PROGRAM_ID@ {
            Err(ProgramError::InvalidInstructionData)
        } else if first.data@.len() == 0 || first.data@[0] != LOAN_DISCRIMINATOR {
            Err(ProgramError::InvalidInstructionData)
        } else if first.data@.len() < 9 {
            Err(ProgramError::InvalidInstructionData)
        } else {
            match spec_repay_amount(spec_borrowed_amount(first.data@), c.fee_bps) {
                None => Err(ProgramError::InvalidInstructionData),
                Some(owed) => Ok(
                    TransferModel {
                        from: borrower_token_account,
                        to: liquidity_vault,
                        authority: borrower,
                        amount: owed,
                        signer_seeds: Seq::empty(),
                    },
                ),
            }
        },
    }
}

/// What the parsed repay instruction `repay` decides, given `ixs`.
pub open spec fn spec_repay_process(repay: Repay, ixs: Instructions) -> Result<TransferModel, ProgramError> {
    spec_repay_at(
        *repay.accounts.config,
        repay.accounts.borrower.address@,
        repay.accounts.borrower_token_account.address@,
        repay.accounts.liquidity_vault.address@,
        ixs,
    )
}

impl<'a> Repay<'a> {
    /// The first byte of this instruction's data.
    pub const DISCRIMINATOR: u8 = REPAY_DISCRIMINATOR;

    pub fn try_from(accounts: &'a [AccountView]) -> (r: Result<Repay<'a>, ProgramError>)
        ensures
            accounts@.len() != REPAY_ACCOUNTS_LEN ==> r == Err::<Repay<'a>, ProgramError>(
                ProgramError::NotEnoughAccountKeys,
            ),
            accounts@.len() == REPAY_ACCOUNTS_LEN ==> (r matches Ok(rp) && repay_accounts_from(
                rp.accounts,
                accounts@,
            )),
    {
        let accounts = RepayAccounts::try_from(accounts)?;
        Ok(Repay { accounts })
    }

    /// Decides the repay instruction: checks the configuration and the
    /// borrow instruction that opens the transaction, and gives the transfer
    /// that pays the lent amount and its fee into the liquidity vault.
    pub fn process(&self, ixs: &Instructions) -> (r: Result<TransferPlan, ProgramError>)
        ensures
            transfer_result_view(r) == spec_repay_process(*self, *ixs),
    {
        let config = ProtocolConfigState::load(self.accounts.config)?;
        if config.protocol_state == 0 {
            return Err(ProgramError::InvalidInstructionData);
        }
        let borrow_ix = ixs.load_instruction_at(0)?;
        if !pubkey_eq(&borrow_ix.program_id, &PROGRAM_ID) {
            return Err(ProgramError::InvalidInstructionData);
        }
        if borrow_ix.data.len() == 0 || borrow_ix.data[0] != LOAN_DISCRIMINATOR {
            return Err(ProgramError::InvalidInstructionData);
        }
        if borrow_ix.data.len() < 9 {
            return Err(ProgramError::InvalidInstructionData);
        }
        let borrowed_amount = u64_from_le_bytes(slice_subrange(borrow_ix.data.as_slice(), 1, 9));
        let repay = repay_amount(borrowed_amount, config.fee_bps)?;
        let signer_seeds: Vec<Vec<u8>> = Vec::new();
        assert(signer_seeds.deep_view() =~= Seq::<Seq<u8>>::empty());
        Ok(TransferPlan {
            from: self.accounts.borrower_token_account.address,
            to: self.accounts.liquidity_vault.address,
            authority: self.accounts.borrower.address,
            amount: repay,
            signer_seeds,
        })
    }
}

} // verus!
