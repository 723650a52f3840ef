//! The initialize instruction: creates the protocol's configuration account
//! at the program derived address of the treasury.
use vstd::prelude::*;
use vstd::bytes::{spec_u16_from_le_bytes, u16_from_le_bytes};
use vstd::slice::slice_subrange;
use crate::account::{address_to_vec, lemma_seeds_deep_view, AccountView};
use crate::error::ProgramError;
use crate::instructions::helpers::{ConfigModel, ProtocolConfigState, CONFIG_LEN};
use crate::pda::{program_address_search, try_find_program_address};
use crate::plan::{
    initialize_result_view, CreateAccountModel, CreateAccountPlan, InitializeModel, InitializePlan,
};
use crate::sysvar::{spec_minimum_balance, Rent};
use crate::{INITIALIZE_DISCRIMINATOR, PROGRAM_ID};

verus! {

/// The number of accounts that the initialize instruction takes.
pub const INIT_ACCOUNTS_LEN: usize = 4;

/// The length of the initialize instruction's data.
pub const INIT_DATA_LEN: usize = 3;

/// The first seed of the configuration account's address: `b"config"`.
pub open spec fn config_seed() -> Seq<u8> {
    seq![99u8, 111u8, 110u8, 102u8, 105u8, 103u8]
}

/// The first seed of the configuration account's address, `b"config"`.
pub fn config_seed_bytes() -> (r: Vec<u8>)
    ensures
        r@ == config_seed(),
{
    let r: Vec<u8> = vec![99u8, 111u8, 110u8, 102u8, 105u8, 103u8];
    assert(r@ =~= config_seed());
    r
}

/// The accounts of the initialize instruction.
#[derive(Debug)]
pub struct ProtocolInitAccounts<'a> {
    /// The protocol's authority; it pays for the configuration account.
    pub authority: &'a AccountView,
    /// The protocol's treasury.
    pub treasury: &'a AccountView,
    /// The configuration account to create.
    pub config: &'a AccountView,
    /// The system program.
    pub system_program: &'a AccountView,
}

/// What `ProtocolInitAccounts::try_from` refuses `accounts` with, if
/// anything: there must be exactly four accounts, and the first, the
/// authority, must have signed.
pub open spec fn init_accounts_error(accounts: Seq<AccountView>) -> Option<ProgramError> {
    if accounts.len() != INIT_ACCOUNTS_LEN {
        Some(ProgramError::NotEnoughAccountKeys)
    } else if !accounts[0].is_signer {
        Some(ProgramError::InvalidAccountData)
    } else {
        None
    }
}

/// Whether `a` holds the accounts of `accounts`, in order.
pub open spec fn init_accounts_from(a: ProtocolInitAccounts, accounts: Seq<AccountView>) -> bool {
    &&& *a.authority == accounts[0]
    &&& *a.treasury == accounts[1]
    &&& *a.config == accounts[2]
    &&& *a.system_program == accounts[3]
}

impl<'a> ProtocolInitAccounts<'a> {
    pub fn try_from(accounts: &'a [AccountView]) -> (r: Result<ProtocolInitAccounts<'a>, ProgramError>)
        ensures
            match r {
                Ok(a) => init_accounts_error(accounts@) is None && init_accounts_from(a, accounts@),
                Err(e) => init_accounts_error(accounts@) == Some(e),
            },
            accounts@.len() == INIT_ACCOUNTS_LEN && accounts@[0].is_signer ==> r is Ok,
    {
        if accounts.len() != INIT_ACCOUNTS_LEN {
            return Err(ProgramError::NotEnoughAccountKeys);
        }
        let authority = &accounts[0];
        if !authority.is_signer {
            return Err(ProgramError::InvalidAccountData);
        }
        Ok(ProtocolInitAccounts {
            authority,
            treasury: &accounts[1],
            config: &accounts[2],
            system_program: &accounts[3],
        })
    }
}

/// The data of the initialize instruction.
#[derive(Debug, Clone, Copy, PartialEq, Eq)]
pub struct ProtocolInitData {
    /// The fee rate in basis points.
    pub fee_bps: u16,
    /// The state of the protocol: `0` or `1`.
    pub protocol_state: u8,
}

/// What parsing initialize instruction data gives: exactly three bytes, the
/// fee (little endian) and then a state of `0` or `1`.
pub open spec fn spec_init_data(data: Seq<u8>) -> Result<(u16, u8), ProgramError> {
    if data.len() != INIT_DATA_LEN {
        Err(ProgramError::InvalidInstructionData)
    } else if data[2] > 1 {
        Err(ProgramError::InvalidInstructionData)
    } else {
        Ok((spec_u16_from_le_bytes(data.subrange(0, 2)), data[2]))
    }
}

impl ProtocolInitData {
    pub fn try_from(data: &[u8]) -> (r: Result<ProtocolInitData, ProgramError>)
        ensures
            match r {
                Ok(d) => spec_init_data(data@) == Ok::<(u16, u8), ProgramError>(
                    (d.fee_bps, d.protocol_state),
                ),
                Err(e) => spec_init_data(data@) == Err::<(u16, u8), ProgramError>(e),
            },
    {
        if data.len() != INIT_DATA_LEN {
            return Err(ProgramError::InvalidInstructionData);
        }
        let fee_bps = u16_from_le_bytes(slice_subrange(data, 0, 2));
        let protocol_state = data[2];
        if protocol_state > 1 {
            return Err(ProgramError::InvalidInstructionData);
        }
        Ok(ProtocolInitData { fee_bps, protocol_state })
    }
}

/// A parsed initialize instruction.
#[derive(Debug)]
pub struct ProtocolInitializer<'a> {
    pub accounts: ProtocolInitAccounts<'a>,
    pub instruction_data: ProtocolInitData,
}

/// What `ProtocolInitializer::try_from` refuses `(data, accounts)` with, if
/// anything: the accounts are checked before the data.
pub open spec fn initializer_error(data: Seq<u8>, accounts: Seq<AccountView>) -> Option<
    ProgramError,
> {
    match init_accounts_error(accounts) {
        Some(e) => Some(e),
        None => match spec_init_data(data) {
            Err(e) => Some(e),
            Ok(_) => None,
        },
    }
}

/// The seeds of the configuration account's address for the treasury
/// `treasury`, without the bump seed.
pub open spec fn config_seeds(treasury: Seq<u8>) -> Seq<Seq<u8>> {
    seq![config_seed(), treasury]
}

/// What the initialize instruction decides, for the authority `authority`,
/// the treasury `treasury`, the configuration account `config`, the parsed
/// fee `fee_bps` and state `protocol_state`, and the rent sysvar `rent`.
///
/// The program derived address of `b"config"` and the treasury's address
/// must be found, and the rent exempt balance of a `CONFIG_LEN`-byte account
/// computed. Then the authority funds, with that balance, the creation of
/// the configuration account with `CONFIG_LEN` bytes, owned by this program,
/// the program signing for it with those seeds and the bump seed; and the
/// account is to hold the fee, the state, and the authority's and the
/// treasury's addresses.
pub open spec fn spec_init_at(
    authority: Seq<u8>,
    treasury: Seq<u8>,
    config: Seq<u8>,
    fee_bps: u16,
    protocol_state: u8,
    rent: Rent,
) -> Result<InitializeModel, ProgramError> {
    match program_address_search(config_seeds(treasury), PROGRAM_ID@) {
        None => Err(ProgramError::InvalidSeeds),
        Some((_, bump)) => match spec_minimum_balance(rent.lamports_per_byte, CONFIG_LEN) {
            Err(e) => Err(e),
            Ok(lamports) => Ok(
                InitializeModel {
                    create: CreateAccountModel {
                        from: authority,
                        to: config,
                        lamports,
                        space: CONFIG_LEN as u64,
                        owner: PROGRAM_ID@,
                        signer_seeds: config_seeds(treasury).push(seq![bump]),
                    },
                    config: ConfigModel { fee_bps, authority, treasury, protocol_state },
                },
            ),
        },
    }
}

/// What the parsed initialize instruction `init` decides, given `rent`.
pub open spec fn spec_init_process(init: ProtocolInitializer, rent: Rent) -> Result<
    InitializeModel,
    ProgramError,
> {
    spec_init_at(
        init.accounts.authority.address@,
        init.accounts.treasury.address@,
        init.accounts.config.address@,
        init.instruction_data.fee_bps,
        init.instruction_data.protocol_state,
        rent,
    )
}

impl<'a> ProtocolInitializer<'a> {
    /// The first byte of this instruction's data.
    pub const DISCRIMINATOR: u8 = INITIALIZE_DISCRIMINATOR;

    pub fn try_from(input: (&'a [u8], &'a [AccountView])) -> (r: Result<
        ProtocolInitializer<'a>,
        ProgramError,
    >)
        ensures
            match r {
                Ok(p) => initializer_error(input.0@, input.1@) is None && init_accounts_from(
                    p.accounts,
                    input.1@,
                ) && spec_init_data(input.0@) == Ok::<(u16, u8), ProgramError>(
                    (p.instruction_data.fee_bps, p.instruction_data.protocol_state),
                ),
                Err(e) => initializer_error(input.0@, input.1@) == Some(e),
            },
    {
        let (data, accounts) = input;
        let accounts = ProtocolInitAccounts::try_from(accounts)?;
        let instruction_data = ProtocolInitData::try_from(data)?;
        Ok(ProtocolInitializer { accounts, instruction_data })
    }

    /// Decides the initialize instruction: finds the configuration account's
    /// address and gives the creation of that account and the configuration
    /// it is to hold.
    pub fn process(&self, rent: &Rent) -> (r: Result<InitializePlan, ProgramError>)
        ensures
            initialize_result_view(r) == spec_init_process(*self, *rent),
    {
        let treasury_seed: Vec<Vec<u8>> = vec![config_seed_bytes(), address_to_vec(&self.accounts.treasury.address)];
        proof {
            lemma_seeds_deep_view(treasury_seed);
            assert(treasury_seed.deep_view() =~= config_seeds(self.accounts.treasury.address@));
        }
        let (_config_pda, config_bump) = match try_find_program_address(&treasury_seed, &PROGRAM_ID) {
            Some(found) => found,
            None => return Err(ProgramError::InvalidSeeds),
        };
        let lamports = rent.try_minimum_balance(CONFIG_LEN)?;
        let mut signer_seeds = treasury_seed;
        signer_seeds.push(vec![config_bump]);
        proof {
            lemma_seeds_deep_view(signer_seeds);
            assert(signer_seeds@[2]@ =~= seq![config_bump]);
            assert(signer_seeds.deep_view() =~= config_seeds(self.accounts.treasury.address@).push(seq![config_bump]));
        }
        let create = CreateAccountPlan {
            from: self.accounts.authority.address,
            to: self.accounts.config.address,
            lamports,
            space: CONFIG_LEN as u64,
            owner: PROGRAM_ID,
            signer_seeds,
        };
        let config = ProtocolConfigState {
            fee_bps: self.instruction_data.fee_bps,
            authority: self.accounts.authority.address,
            treasury: self.accounts.treasury.address,
            protocol_state: self.instruction_data.protocol_state,
        };
        Ok(InitializePlan { create, config })
    }
}

} // verus!
