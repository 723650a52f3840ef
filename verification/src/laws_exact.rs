//! What each instruction gives, stated over the bytes it reads and plain
//! arithmetic.
use vstd::prelude::*;
use vstd::bytes::{
    lemma_auto_spec_u64_to_from_le_bytes, spec_u16_from_le_bytes, spec_u64_from_le_bytes,
    spec_u64_to_le_bytes,
};
use crate::account::AccountView;
use crate::error::ProgramError;
use crate::instructions::helpers::{spec_load_config, ConfigModel};
use crate::instructions::loan::spec_loan_data;
use crate::instructions::repay::{spec_borrowed_amount, spec_repay_amount};
use crate::pda::program_address_search;
use crate::plan::{CreateAccountModel, InitializeModel, PlanModel, TransferModel};
use crate::sysvar::{Instructions, Rent, INSTRUCTIONS_ID};
use crate::{spec_process_instruction, PROGRAM_ID};

verus! {

/// What is owed on a loan of `amount` at `fee_bps` basis points is the
/// amount plus `amount * fee_bps / 10_000` rounded down, whenever neither
/// the product nor the sum exceeds `u64::MAX`; otherwise nothing is owed
/// and the repay is refused.
pub proof fn law_owed_is_loan_plus_fee(amount: u64, fee_bps: u16)
    ensures
        amount * fee_bps <= u64::MAX && amount + (amount * fee_bps) / 10_000 <= u64::MAX
            ==> spec_repay_amount(amount, fee_bps) == Some(
            (amount + (amount * fee_bps) / 10_000) as u64,
        ),
        amount * fee_bps > u64::MAX || amount + (amount * fee_bps) / 10_000 > u64::MAX
            ==> spec_repay_amount(amount, fee_bps) is None,
{
}

/// A borrow of the nonzero amount `a`, whose data after the discriminator is
/// the eight little-endian bytes of `a` (and any further bytes), asks for
/// exactly `a`; and the repay reads back exactly `a` from that instruction.
pub proof fn law_borrow_data_carries_amount(a: u64, extra: Seq<u8>)
    requires
        a > 0,
    ensures
        spec_loan_data(spec_u64_to_le_bytes(a) + extra) == Ok::<u64, ProgramError>(a),
        spec_borrowed_amount(seq![1u8] + spec_u64_to_le_bytes(a) + extra) == a,
{
    lemma_auto_spec_u64_to_from_le_bytes();
    let le = spec_u64_to_le_bytes(a);
    assert((le + extra).subrange(0, 8) =~= le);
    assert((seq![1u8] + le + extra).subrange(1, 9) =~= le);
}

/// The seed `b"liquidity_pda"`, byte by byte.
pub open spec fn liquidity_pda_seed() -> Seq<u8> {
    seq![108u8, 105u8, 113u8, 117u8, 105u8, 100u8, 105u8, 116u8, 121u8, 95u8, 112u8, 100u8, 97u8]
}

/// The seed `b"config"`, byte by byte.
pub open spec fn config_pda_seed() -> Seq<u8> {
    seq![99u8, 111u8, 110u8, 102u8, 105u8, 103u8]
}

/// Whether `account` is a configuration account of this program for an
/// active protocol: exactly 68 bytes, owned by this program, with a nonzero
/// state byte at offset 66.
pub open spec fn active_config_account(account: AccountView) -> bool {
    &&& account.data@.len() == 68
    &&& account.owner@ == PROGRAM_ID@
    &&& account.data@[66] != 0
}

/// The fee rate recorded in the first two bytes of a configuration
/// account's data, little endian.
pub open spec fn recorded_fee(account: AccountView) -> u16 {
    spec_u16_from_le_bytes(account.data@.subrange(0, 2))
}

/// Loading a configuration account of this program with exactly 68 bytes
/// always succeeds, whatever its fields hold, a fee of zero included; and
/// the fee it gives is the one recorded in its first two bytes.
pub proof fn law_config_loads(account: AccountView)
    requires
        account.data@.len() == 68,
        account.owner@ == PROGRAM_ID@,
    ensures
        spec_load_config(account) is Ok,
        spec_load_config(account)->Ok_0.fee_bps == recorded_fee(account),
        spec_load_config(account)->Ok_0.protocol_state == account.data@[66],
{
}

/// A borrow is accepted, and lends exactly the amount its data carries from
/// the vault (fourth account) to the borrower's token account (second),
/// signed for with `b"liquidity_pda"` and the bump, whenever: the borrower
/// signed; the sixth account is the instructions sysvar; the configuration
/// (third) is an active configuration account; the vault's authority (fifth)
/// is the derived address; and the last instruction of the transaction,
/// whatever comes before it, is this program's repay naming the vault third.
pub proof fn law_borrow_lends_carried_amount(
    accounts: Seq<AccountView>,
    a: u64,
    extra: Seq<u8>,
    ixs: Instructions,
    rent: Rent,
    bump: u8,
)
    requires
        a > 0,
        accounts.len() == 8,
        accounts[0].is_signer,
        accounts[5].address@ == INSTRUCTIONS_ID@,
        active_config_account(accounts[2]),
        program_address_search(seq![liquidity_pda_seed()], PROGRAM_ID@) == Some(
            (accounts[4].address@, bump),
        ),
        ixs.instructions@.len() > 0,
        ({
            let last = ixs.instructions@[ixs.instructions@.len() - 1];
            &&& last.program_id@ == PROGRAM_ID@
            &&& last.data@.len() > 0
            &&& last.data@[0] == 2
            &&& last.account_keys@.len() > 2
            &&& last.account_keys@[2]@ == accounts[3].address@
        }),
    ensures
        spec_process_instruction(accounts, seq![1u8] + spec_u64_to_le_bytes(a) + extra, ixs, rent)
            == Ok::<PlanModel, ProgramError>(
            PlanModel::Transfer(
                TransferModel {
                    from: accounts[3].address@,
                    to: accounts[1].address@,
                    authority: accounts[4].address@,
                    amount: a,
                    signer_seeds: seq![liquidity_pda_seed(), seq![bump]],
                },
            ),
        ),
{
    law_borrow_data_carries_amount(a, extra);
    let data = seq![1u8] + spec_u64_to_le_bytes(a) + extra;
    assert(data.subrange(1, data.len() as int) =~= spec_u64_to_le_bytes(a) + extra);
    assert(seq![crate::instructions::loan::liquidity_seed()] =~= seq![liquidity_pda_seed()]);
}

/// A borrow's outcome depends on the transaction only through its last
/// instruction: whatever instructions come before it, such as the work the
/// loan pays for, it is accepted or refused alike.
pub proof fn law_borrow_sees_only_last_instruction(
    accounts: Seq<AccountView>,
    data: Seq<u8>,
    ixs1: Instructions,
    ixs2: Instructions,
    rent: Rent,
)
    requires
        data.len() > 0,
        data[0] == 1,
        ixs1.instructions@.len() > 0,
        ixs2.instructions@.len() > 0,
        ixs1.instructions@[ixs1.instructions@.len() - 1] == ixs2.instructions@[ixs2.instructions@.len() - 1],
    ensures
        spec_process_instruction(accounts, data, ixs1, rent) == spec_process_instruction(
            accounts,
            data,
            ixs2,
            rent,
        ),
{
}

/// A repay is accepted, and transfers the borrowed amount `b` plus
/// `b * fee / 10_000` rounded down, with `b` the eight little-endian bytes
/// after the discriminator of the transaction's first instruction and `fee`
/// the rate recorded in the configuration (fourth account), from the
/// borrower's token account (second) to the vault (third), authorised by the
/// borrower (first), whenever: there are six accounts; the configuration is
/// an active configuration account; the first instruction is this program's
/// borrow with at least nine bytes of data; and neither the product nor the
/// sum overflows.
pub proof fn law_repay_transfers_loan_plus_fee(
    accounts: Seq<AccountView>,
    data: Seq<u8>,
    ixs: Instructions,
    rent: Rent,
)
    requires
        data.len() > 0,
        data[0] == 2,
        accounts.len() == 6,
        active_config_account(accounts[3]),
        ixs.instructions@.len() > 0,
        ixs.instructions@[0].program_id@ == PROGRAM_ID@,
        ixs.instructions@[0].data@.len() >= 9,
        ixs.instructions@[0].data@[0] == 1,
        ({
            let b = spec_u64_from_le_bytes(ixs.instructions@[0].data@.subrange(1, 9));
            let fee = recorded_fee(accounts[3]);
            b * fee <= u64::MAX && b + (b * fee) / 10_000 <= u64::MAX
        }),
    ensures
        ({
            let b = spec_u64_from_le_bytes(ixs.instructions@[0].data@.subrange(1, 9));
            let fee = recorded_fee(accounts[3]);
            spec_process_instruction(accounts, data, ixs, rent) == Ok::<PlanModel, ProgramError>(
                PlanModel::Transfer(
                    TransferModel {
                        from: accounts[1].address@,
                        to: accounts[2].address@,
                        authority: accounts[0].address@,
                        amount: (b + (b * fee) / 10_000) as u64,
                        signer_seeds: Seq::empty(),
                    },
                ),
            )
        }),
{
    law_config_loads(accounts[3]);
    let b = spec_u64_from_le_bytes(ixs.instructions@[0].data@.subrange(1, 9));
    law_owed_is_loan_plus_fee(b, recorded_fee(accounts[3]));
}

/// A repay's outcome depends on the transaction only through its first
/// instruction.
pub proof fn law_repay_sees_only_first_instruction(
    accounts: Seq<AccountView>,
    data: Seq<u8>,
    ixs1: Instructions,
    ixs2: Instructions,
    rent: Rent,
)
    requires
        data.len() > 0,
        data[0] == 2,
        ixs1.instructions@.len() > 0,
        ixs2.instructions@.len() > 0,
        ixs1.instructions@[0] == ixs2.instructions@[0],
    ensures
        spec_process_instruction(accounts, data, ixs1, rent) == spec_process_instruction(
            accounts,
            data,
            ixs2,
            rent,
        ),
{
}

/// Initializing is accepted for any four accounts whose first signed (the
/// treasury may be the authority itself), and any three bytes of data whose
/// last is `0` or `1`, given that the configuration account's address is
/// found and the rent rate is within bounds: it creates the third account
/// with 68 bytes owned by this program, funded by the first with the rent
/// exempt balance, and records the fee (the first two data bytes, little
/// endian), the state, the first account as authority and the second as
/// treasury.
pub proof fn law_initialize_accepts(
    accounts: Seq<AccountView>,
    data: Seq<u8>,
    ixs: Instructions,
    rent: Rent,
    bump: u8,
    pda: Seq<u8>,
)
    requires
        accounts.len() == 4,
        accounts[0].is_signer,
        data.len() == 3,
        data[2] <= 1,
        program_address_search(seq![config_pda_seed(), accounts[1].address@], PROGRAM_ID@) == Some(
            (pda, bump),
        ),
        rent.lamports_per_byte <= 1_759_197_129_867,
    ensures
        spec_process_instruction(accounts, seq![0u8] + data, ixs, rent) == Ok::<PlanModel, ProgramError>(
            PlanModel::Initialize(
                InitializeModel {
                    create: CreateAccountModel {
                        from: accounts[0].address@,
                        to: accounts[2].address@,
                        lamports: ((128 + 68) * rent.lamports_per_byte) as u64,
                        space: 68,
                        owner: PROGRAM_ID@,
                        signer_seeds: seq![config_pda_seed(), accounts[1].address@, seq![bump]],
                    },
                    config: ConfigModel {
                        fee_bps: spec_u16_from_le_bytes(data.subrange(0, 2)),
                        authority: accounts[0].address@,
                        treasury: accounts[1].address@,
                        protocol_state: data[2],
                    },
                },
            ),
        ),
{
    let full = seq![0u8] + data;
    assert(full.subrange(1, full.len() as int) =~= data);
    assert(seq![crate::instructions::initializer::config_seed(), accounts[1].address@] =~= seq![
        config_pda_seed(),
        accounts[1].address@,
    ]);
    assert(seq![crate::instructions::initializer::config_seed(), accounts[1].address@].push(seq![bump])
        =~= seq![config_pda_seed(), accounts[1].address@, seq![bump]]);
}

/// Which error refuses a borrow whose data carries the amount `a`, by the
/// first check it fails, in order: exactly eight accounts; the first signed;
/// the sixth is the instructions sysvar; a nonzero amount; the third a
/// 68-byte account of this program with a nonzero state byte; a last
/// instruction of this program with repay data, naming three accounts or
/// more, the third of them the vault (fourth account); and the fifth account
/// the derived authority.
pub proof fn law_borrow_refusals(
    accounts: Seq<AccountView>,
    a: u64,
    extra: Seq<u8>,
    ixs: Instructions,
    rent: Rent,
)
    ensures
        ({
            let r = spec_process_instruction(accounts, seq![1u8] + spec_u64_to_le_bytes(a) + extra, ixs, rent);
            let n = ixs.instructions@.len();
            let last = ixs.instructions@[n - 1];
            let config = accounts[2];
            &&& accounts.len() != 8 ==> r == Err::<PlanModel, ProgramError>(ProgramError::NotEnoughAccountKeys)
            &&& accounts.len() == 8 && !accounts[0].is_signer ==> r == Err::<PlanModel, ProgramError>(
                ProgramError::MissingRequiredSignature,
            )
            &&& accounts.len() == 8 && accounts[0].is_signer && accounts[5].address@ != INSTRUCTIONS_ID@
                ==> r == Err::<PlanModel, ProgramError>(ProgramError::UnsupportedSysvar)
            &&& accounts.len() == 8 && accounts[0].is_signer && accounts[5].address@ == INSTRUCTIONS_ID@
                ==> {
                &&& a == 0 ==> r == Err::<PlanModel, ProgramError>(ProgramError::InvalidInstructionData)
                &&& a != 0 && (config.data@.len() != 68 || config.owner@ != PROGRAM_ID@) ==> r
                    == Err::<PlanModel, ProgramError>(ProgramError::InvalidAccountData)
                &&& a != 0 && config.data@.len() == 68 && config.owner@ == PROGRAM_ID@ ==> {
                    &&& config.data@[66] == 0 ==> r == Err::<PlanModel, ProgramError>(
                        ProgramError::InvalidInstructionData,
                    )
                    &&& config.data@[66] != 0 && (n == 0 || last.program_id@ != PROGRAM_ID@
                        || last.data@.len() == 0 || last.data@[0] != 2) ==> r == Err::<
                        PlanModel,
                        ProgramError,
                    >(ProgramError::InvalidInstructionData)
                    &&& config.data@[66] != 0 && n > 0 && last.program_id@ == PROGRAM_ID@
                        && last.data@.len() > 0 && last.data@[0] == 2 ==> {
                        &&& last.account_keys@.len() < 3 ==> r == Err::<PlanModel, ProgramError>(
                            ProgramError::InvalidArgument,
                        )
                        &&& last.account_keys@.len() >= 3 && last.account_keys@[2]@
                            != accounts[3].address@ ==> r == Err::<PlanModel, ProgramError>(
                            ProgramError::InvalidInstructionData,
                        )
                        &&& last.account_keys@.len() >= 3 && last.account_keys@[2]@
                            == accounts[3].address@ ==> {
                            &&& program_address_search(seq![liquidity_pda_seed()], PROGRAM_ID@) is None
                                ==> r == Err::<PlanModel, ProgramError>(ProgramError::InvalidSeeds)
                            &&& program_address_search(seq![liquidity_pda_seed()], PROGRAM_ID@) is Some
                                && program_address_search(seq![liquidity_pda_seed()], PROGRAM_ID@)->Some_0.0
                                != accounts[4].address@ ==> r == Err::<PlanModel, ProgramError>(
                                ProgramError::InvalidAccountData,
                            )
                        }
                    }
                }
            }
        }),
{
    lemma_auto_spec_u64_to_from_le_bytes();
    let le = spec_u64_to_le_bytes(a);
    let data = seq![1u8] + le + extra;
    assert(data.subrange(1, data.len() as int) =~= le + extra);
    assert((le + extra).subrange(0, 8) =~= le);
    assert(seq![crate::instructions::loan::liquidity_seed()] =~= seq![liquidity_pda_seed()]);
}

/// Borrow data shorter than the discriminator and eight amount bytes is
/// refused with `InvalidInstructionData`, given eight accounts, the first
/// signed and the sixth the instructions sysvar.
pub proof fn law_short_borrow_data_refused(
    accounts: Seq<AccountView>,
    data: Seq<u8>,
    ixs: Instructions,
    rent: Rent,
)
    requires
        0 < data.len() < 9,
        data[0] == 1,
        accounts.len() == 8,
        accounts[0].is_signer,
        accounts[5].address@ == INSTRUCTIONS_ID@,
    ensures
        spec_process_instruction(accounts, data, ixs, rent) == Err::<PlanModel, ProgramError>(
            ProgramError::InvalidInstructionData,
        ),
{
}

/// Which error refuses a repay, by the first check it fails, in order:
/// exactly six accounts; the fourth a 68-byte account of this program with a
/// nonzero state byte; a first instruction of this program whose data starts
/// with the borrow discriminator and holds nine bytes or more; and no
/// overflow of `b * fee` or `b + b * fee / 10_000`.
pub proof fn law_repay_refusals(accounts: Seq<AccountView>, data: Seq<u8>, ixs: Instructions, rent: Rent)
    requires
        data.len() > 0,
        data[0] == 2,
    ensures
        ({
            let r = spec_process_instruction(accounts, data, ixs, rent);
            let config = accounts[3];
            let first = ixs.instructions@[0];
            let b = spec_u64_from_le_bytes(first.data@.subrange(1, 9));
            let fee = recorded_fee(config);
            &&& accounts.len() != 6 ==> r == Err::<PlanModel, ProgramError>(ProgramError::NotEnoughAccountKeys)
            &&& accounts.len() == 6 && (config.data@.len() != 68 || config.owner@ != PROGRAM_ID@) ==> r
                == Err::<PlanModel, ProgramError>(ProgramError::InvalidAccountData)
            &&& accounts.len() == 6 && config.data@.len() == 68 && config.owner@ == PROGRAM_ID@ ==> {
                &&& config.data@[66] == 0 ==> r == Err::<PlanModel, ProgramError>(
                    ProgramError::InvalidInstructionData,
                )
                &&& config.data@[66] != 0 && (ixs.instructions@.len() == 0 || first.program_id@
                    != PROGRAM_ID@ || first.data@.len() < 9 || first.data@[0] != 1) ==> r == Err::<
                    PlanModel,
                    ProgramError,
                >(ProgramError::InvalidInstructionData)
                &&& config.data@[66] != 0 && ixs.instructions@.len() > 0 && first.program_id@
                    == PROGRAM_ID@ && first.data@.len() >= 9 && first.data@[0] == 1 && (b * fee
                    > u64::MAX || b + (b * fee) / 10_000 > u64::MAX) ==> r == Err::<
                    PlanModel,
                    ProgramError,
                >(ProgramError::InvalidInstructionData)
            }
        }),
{
    if accounts.len() == 6 && accounts[3].data@.len() == 68 && accounts[3].owner@ == PROGRAM_ID@ {
        law_config_loads(accounts[3]);
        let first = ixs.instructions@[0];
        law_owed_is_loan_plus_fee(
            spec_u64_from_le_bytes(first.data@.subrange(1, 9)),
            recorded_fee(accounts[3]),
        );
    }
}

/// Which error refuses an initialization, by the first check it fails, in
/// order: exactly four accounts; the first signed; three bytes of data; a
/// state byte of `0` or `1`.
pub proof fn law_initialize_refusals(accounts: Seq<AccountView>, data: Seq<u8>, ixs: Instructions, rent: Rent)
    ensures
        ({
            let r = spec_process_instruction(accounts, seq![0u8] + data, ixs, rent);
            &&& accounts.len() != 4 ==> r == Err::<PlanModel, ProgramError>(ProgramError::NotEnoughAccountKeys)
            &&& accounts.len() == 4 && !accounts[0].is_signer ==> r == Err::<PlanModel, ProgramError>(
                ProgramError::InvalidAccountData,
            )
            &&& accounts.len() == 4 && accounts[0].is_signer && data.len() != 3 ==> r == Err::<
                PlanModel,
                ProgramError,
            >(ProgramError::InvalidInstructionData)
            &&& accounts.len() == 4 && accounts[0].is_signer && data.len() == 3 && data[2] > 1 ==> r
                == Err::<PlanModel, ProgramError>(ProgramError::InvalidInstructionData)
        }),
{
    let full = seq![0u8] + data;
    assert(full.subrange(1, full.len() as int) =~= data);
}

} // verus!
