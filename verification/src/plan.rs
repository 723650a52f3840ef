//! The cross-program invocations that the program asks the runtime to
//! perform, as values.
use vstd::prelude::*;
use crate::account::Address;
use crate::error::ProgramError;
use crate::instructions::helpers::{ConfigModel, ProtocolConfigState};

verus! {

/// A transfer of `amount` tokens from the token account `from` to the token
/// account `to`, authorised by `authority`. When `authority` is a program
/// derived address of this program, `signer_seeds` are the seeds (bump seed
/// last) with which the program signs for it; when the authority signed the
/// transaction itself, `signer_seeds` is empty.
#[derive(Debug, Clone, PartialEq, Eq)]
pub struct TransferPlan {
    pub from: Address,
    pub to: Address,
    pub authority: Address,
    pub amount: u64,
    pub signer_seeds: Vec<Vec<u8>>,
}

/// The creation, by the system program, of the account `to`, funded by
/// `from` with `lamports`, with `space` bytes of data and owned by `owner`;
/// the program signs for `to` with `signer_seeds` (bump seed last).
#[derive(Debug, Clone, PartialEq, Eq)]
pub struct CreateAccountPlan {
    pub from: Address,
    pub to: Address,
    pub lamports: u64,
    pub space: u64,
    pub owner: Address,
    pub signer_seeds: Vec<Vec<u8>>,
}

} // verus!

verus! {

/// A transfer as mathematical values.
pub struct TransferModel {
    pub from: Seq<u8>,
    pub to: Seq<u8>,
    pub authority: Seq<u8>,
    pub amount: u64,
    pub signer_seeds: Seq<Seq<u8>>,
}

impl View for TransferPlan {
    type V = TransferModel;

    open spec fn view(&self) -> TransferModel {
        TransferModel {
            from: self.from@,
            to: self.to@,
            authority: self.authority@,
            amount: self.amount,
            signer_seeds: self.signer_seeds.deep_view(),
        }
    }
}

/// The model of a decided transfer, or the error.
pub open spec fn transfer_result_view(r: Result<TransferPlan, ProgramError>) -> Result<
    TransferModel,
    ProgramError,
> {
    match r {
        Ok(p) => Ok(p@),
        Err(e) => Err(e),
    }
}

/// An account creation as mathematical values.
pub struct CreateAccountModel {
    pub from: Seq<u8>,
    pub to: Seq<u8>,
    pub lamports: u64,
    pub space: u64,
    pub owner: Seq<u8>,
    pub signer_seeds: Seq<Seq<u8>>,
}

impl View for CreateAccountPlan {
    type V = CreateAccountModel;

    open spec fn view(&self) -> CreateAccountModel {
        CreateAccountModel {
            from: self.from@,
            to: self.to@,
            lamports: self.lamports,
            space: self.space,
            owner: self.owner@,
            signer_seeds: self.signer_seeds.deep_view(),
        }
    }
}

} // verus!

verus! {

/// What the initialize instruction asks for: the creation of the
/// configuration account, and the configuration to store in it once created.
#[derive(Debug, Clone, PartialEq, Eq)]
pub struct InitializePlan {
    pub create: CreateAccountPlan,
    pub config: ProtocolConfigState,
}

/// An initialization as mathematical values.
pub struct InitializeModel {
    pub create: CreateAccountModel,
    pub config: ConfigModel,
}

impl View for InitializePlan {
    type V = InitializeModel;

    open spec fn view(&self) -> InitializeModel {
        InitializeModel { create: self.create@, config: self.config@ }
    }
}

/// The model of a decided initialization, or the error.
pub open spec fn initialize_result_view(r: Result<InitializePlan, ProgramError>) -> Result<
    InitializeModel,
    ProgramError,
> {
    match r {
        Ok(p) => Ok(p@),
        Err(e) => Err(e),
    }
}

/// What an instruction of this program asks the runtime to do.
#[derive(Debug, Clone, PartialEq, Eq)]
pub enum Plan {
    Transfer(TransferPlan),
    Initialize(InitializePlan),
}

/// A plan as mathematical values.
pub enum PlanModel {
    Transfer(TransferModel),
    Initialize(InitializeModel),
}

impl View for Plan {
    type V = PlanModel;

    open spec fn view(&self) -> PlanModel {
        match self {
            Plan::Transfer(t) => PlanModel::Transfer(t@),
            Plan::Initialize(i) => PlanModel::Initialize(i@),
        }
    }
}

/// The model of a decided plan, or the error.
pub open spec fn plan_result_view(r: Result<Plan, ProgramError>) -> Result<PlanModel, ProgramError> {
    match r {
        Ok(p) => Ok(p@),
        Err(e) => Err(e),
    }
}

} // verus!
