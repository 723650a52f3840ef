//! A flash loan program: an initialize instruction creates the protocol's
//! configuration account, a borrow instruction lends tokens out of a
//! liquidity vault, and a repay instruction at the end of the same
//! transaction transfers the borrowed amount plus a fee from the borrower's
//! token account back to that vault.
//!
//! The library holds every decision the program takes, from plain values: the
//! accounts of an instruction, its data, and the decoded instructions sysvar.
//! What the program asks the runtime to do (token transfers, account
//! creation) it returns as a plan.
use vstd::prelude::*;

pub mod account;
pub mod error;
pub mod instructions;
pub mod laws;
pub mod laws_exact;
pub mod pda;
pub mod plan;
pub mod sysvar;

use crate::account::{AccountView, Address};
use crate::error::ProgramError;
use crate::instructions::loan::{
    loan_accounts_from, loan_error, spec_loan_amount, spec_loan_at, spec_loan_process, Loan,
};
use crate::instructions::repay::{
    repay_accounts_from, spec_repay_at, spec_repay_process, Repay, REPAY_ACCOUNTS_LEN,
};
use crate::instructions::initializer::{
    init_accounts_from, initializer_error, spec_init_at, spec_init_data, spec_init_process,
    ProtocolInitializer,
};
use crate::plan::{plan_result_view, InitializeModel, Plan, PlanModel, TransferModel};
use crate::sysvar::{Instructions, Rent};
use vstd::slice::slice_subrange;

verus! {

/// This program's address, `DnWWkqtWVwv5bVc4mnnvxMvZZUsuYNCpZQHGPixbqm4v`.
pub const PROGRAM_ID: Address = [
    0xbd, 0xf4, 0xc0, 0x01, 0x23, 0x5e, 0x9f, 0x3b, 0x9b, 0x51, 0xbc, 0x6e, 0x0e, 0x30, 0x1d, 0x0b,
    0xb5, 0x16, 0x55, 0xc4, 0x55, 0x54, 0xfb, 0x0c, 0x11, 0xb8, 0x4c, 0x46, 0x59, 0x91, 0xce, 0x53,
];

/// First byte of the instruction data of the initialize instruction.
pub const INITIALIZE_DISCRIMINATOR: u8 = 0;

/// First byte of the instruction data of the borrow instruction.
pub const LOAN_DISCRIMINATOR: u8 = 1;

/// First byte of the instruction data of the repay instruction.
pub const REPAY_DISCRIMINATOR: u8 = 2;

/// An instruction of this program that the entrypoint executes.
#[derive(Debug)]
pub enum FlashLoanInstruction<'a> {
    Initialize(ProtocolInitializer<'a>),
    Loan(Loan<'a>),
    Repay(Repay<'a>),
}

impl<'a> FlashLoanInstruction<'a> {
    /// The account that the instruction reads as the instructions sysvar;
    /// the initialize instruction reads none.
    pub fn instruction_sysvar(&self) -> (r: Option<&'a AccountView>)
        ensures
            r == match *self {
                FlashLoanInstruction::Initialize(_) => None,
                FlashLoanInstruction::Loan(l) => Some(l.accounts.instruction_sysvar),
                FlashLoanInstruction::Repay(rp) => Some(rp.accounts.instruction_sysvar),
            },
    {
        match self {
            FlashLoanInstruction::Initialize(_) => None,
            FlashLoanInstruction::Loan(l) => Some(l.accounts.instruction_sysvar),
            FlashLoanInstruction::Repay(rp) => Some(rp.accounts.instruction_sysvar),
        }
    }
}

/// What the program decides for an instruction with accounts `accounts` and
/// data `data`, given the instructions `ixs` of the transaction and the rent
/// sysvar `rent`.
///
/// The first byte of the data selects the instruction: the initialize
/// instruction (fee and state follow), the borrow instruction (its amount
/// follows) or the repay instruction. Any other first byte, and empty data,
/// are refused with `InvalidInstructionData`.
pub open spec fn spec_process_instruction(
    accounts: Seq<AccountView>,
    data: Seq<u8>,
    ixs: Instructions,
    rent: Rent,
) -> Result<PlanModel, ProgramError> {
    let rest = data.subrange(1, data.len() as int);
    if data.len() == 0 {
        Err(ProgramError::InvalidInstructionData)
    } else if data[0] == INITIALIZE_DISCRIMINATOR {
        match initializer_error(rest, accounts) {
            Some(e) => Err(e),
            None => {
                let (fee_bps, protocol_state) = spec_init_data(rest)->Ok_0;
                match spec_init_at(
                    accounts[0].address@,
                    accounts[1].address@,
                    accounts[2].address@,
                    fee_bps,
                    protocol_state,
                    rent,
                ) {
                    Ok(i) => Ok(PlanModel::Initialize(i)),
                    Err(e) => Err(e),
                }
            },
        }
    } else if data[0] == LOAN_DISCRIMINATOR {
        match loan_error(rest, accounts) {
            Some(e) => Err(e),
            None => match spec_loan_at(
                accounts[2],
                accounts[1].address@,
                accounts[3].address@,
                accounts[4].address@,
                spec_loan_amount(rest),
                ixs,
            ) {
                Ok(t) => Ok(PlanModel::Transfer(t)),
                Err(e) => Err(e),
            },
        }
    } else if data[0] == REPAY_DISCRIMINATOR {
        if accounts.len() != REPAY_ACCOUNTS_LEN {
            Err(ProgramError::NotEnoughAccountKeys)
        } else {
            match spec_repay_at(
                accounts[3],
                accounts[0].address@,
                accounts[1].address@,
                accounts[2].address@,
                ixs,
            ) {
                Ok(t) => Ok(PlanModel::Transfer(t)),
                Err(e) => Err(e),
            }
        }
    } else {
        Err(ProgramError::InvalidInstructionData)
    }
}

/// What `parse_instruction` refuses `(accounts, data)` with, if anything.
pub open spec fn parse_error(accounts: Seq<AccountView>, data: Seq<u8>) -> Option<ProgramError> {
    let rest = data.subrange(1, data.len() as int);
    if data.len() == 0 {
        Some(ProgramError::InvalidInstructionData)
    } else if data[0] == INITIALIZE_DISCRIMINATOR {
        initializer_error(rest, accounts)
    } else if data[0] == LOAN_DISCRIMINATOR {
        loan_error(rest, accounts)
    } else if data[0] == REPAY_DISCRIMINATOR {
        if accounts.len() != REPAY_ACCOUNTS_LEN {
            Some(ProgramError::NotEnoughAccountKeys)
        } else {
            None
        }
    } else {
        Some(ProgramError::InvalidInstructionData)
    }
}

/// Selects and parses the instruction whose accounts are `accounts` and
/// whose data is `instruction_data`: the first byte selects the initialize,
/// the borrow or the repay instruction, and the rest is that instruction's
/// data.
pub fn parse_instruction<'a>(accounts: &'a [AccountView], instruction_data: &'a [u8]) -> (r: Result<
    FlashLoanInstruction<'a>,
    ProgramError,
>)
    ensures
        match r {
            Ok(FlashLoanInstruction::Initialize(init)) => {
                &&& parse_error(accounts@, instruction_data@) is None
                &&& instruction_data@[0] == INITIALIZE_DISCRIMINATOR
                &&& init_accounts_from(init.accounts, accounts@)
                &&& spec_init_data(instruction_data@.subrange(1, instruction_data@.len() as int))
                    == Ok::<(u16, u8), ProgramError>(
                    (init.instruction_data.fee_bps, init.instruction_data.protocol_state),
                )
            },
            Ok(FlashLoanInstruction::Loan(l)) => {
                &&& parse_error(accounts@, instruction_data@) is None
                &&& instruction_data@[0] == LOAN_DISCRIMINATOR
                &&& loan_accounts_from(l.accounts, accounts@)
                &&& l.instruction_data.amounts == spec_loan_amount(
                    instruction_data@.subrange(1, instruction_data@.len() as int),
                )
            },
            Ok(FlashLoanInstruction::Repay(rp)) => {
                &&& parse_error(accounts@, instruction_data@) is None
                &&& instruction_data@[0] == REPAY_DISCRIMINATOR
                &&& repay_accounts_from(rp.accounts, accounts@)
            },
            Err(e) => parse_error(accounts@, instruction_data@) == Some(e),
        },
{
    if instruction_data.len() == 0 {
        return Err(ProgramError::InvalidInstructionData);
    }
    let rest = slice_subrange(instruction_data, 1, instruction_data.len());
    if instruction_data[0] == INITIALIZE_DISCRIMINATOR {
        Ok(FlashLoanInstruction::Initialize(ProtocolInitializer::try_from((rest, accounts))?))
    } else if instruction_data[0] == LOAN_DISCRIMINATOR {
        Ok(FlashLoanInstruction::Loan(Loan::try_from((rest, accounts))?))
    } else if instruction_data[0] == REPAY_DISCRIMINATOR {
        Ok(FlashLoanInstruction::Repay(Repay::try_from(accounts)?))
    } else {
        Err(ProgramError::InvalidInstructionData)
    }
}

/// The model of a decided plan, for a decided transfer.
pub open spec fn transfer_plan_model(r: Result<TransferModel, ProgramError>) -> Result<PlanModel, ProgramError> {
    match r {
        Ok(t) => Ok(PlanModel::Transfer(t)),
        Err(e) => Err(e),
    }
}

/// The model of a decided plan, for a decided initialization.
pub open spec fn initialize_plan_model(r: Result<InitializeModel, ProgramError>) -> Result<
    PlanModel,
    ProgramError,
> {
    match r {
        Ok(i) => Ok(PlanModel::Initialize(i)),
        Err(e) => Err(e),
    }
}

impl<'a> FlashLoanInstruction<'a> {
    /// Decides the parsed instruction, given the transaction's instructions
    /// and the rent sysvar (which only the initialize instruction reads).
    pub fn process(&self, ixs: &Instructions, rent: &Rent) -> (r: Result<Plan, ProgramError>)
        ensures
            plan_result_view(r) == match *self {
                FlashLoanInstruction::Initialize(init) => initialize_plan_model(
                    spec_init_process(init, *rent),
                ),
                FlashLoanInstruction::Loan(l) => transfer_plan_model(spec_loan_process(l, *ixs)),
                FlashLoanInstruction::Repay(rp) => transfer_plan_model(spec_repay_process(rp, *ixs)),
            },
    {
        match self {
            FlashLoanInstruction::Initialize(init) => Ok(Plan::Initialize(init.process(rent)?)),
            FlashLoanInstruction::Loan(l) => Ok(Plan::Transfer(l.process(ixs)?)),
            FlashLoanInstruction::Repay(rp) => Ok(Plan::Transfer(rp.process(ixs)?)),
        }
    }
}

/// Decides an instruction of this program: the accounts `accounts` and data
/// `instruction_data` it was given, the transaction's instructions `ixs`, as
/// the instructions sysvar lists them, and the rent sysvar `rent`.
pub fn process_instruction(
    accounts: &[AccountView],
    instruction_data: &[u8],
    ixs: &Instructions,
    rent: &Rent,
) -> (r: Result<Plan, ProgramError>)
    ensures
        plan_result_view(r) == spec_process_instruction(accounts@, instruction_data@, *ixs, *rent),
{
    let instruction = parse_instruction(accounts, instruction_data)?;
    instruction.process(ixs, rent)
}

} // verus!
