//! Properties of the program that span its functions.
use vstd::prelude::*;
use vstd::bytes::{lemma_auto_spec_u16_to_from_le_bytes, spec_u16_to_le_bytes};
use crate::account::AccountView;
use crate::error::ProgramError;
use crate::instructions::helpers::{
    config_from_bytes, config_to_bytes, spec_load_config, ConfigModel, CONFIG_FIELDS_LEN,
    CONFIG_LEN, FEE_BPS_LIMIT,
};
use crate::instructions::loan::spec_loan_data;
use crate::instructions::repay::{
    spec_borrowed_amount, spec_fee, spec_repay_amount, REPAY_CONFIG_INDEX, REPAY_VAULT_INDEX,
};
use crate::plan::PlanModel;
use crate::instructions::initializer::spec_init_data;
use crate::sysvar::{Instructions, Rent};
use crate::{
    spec_process_instruction, INITIALIZE_DISCRIMINATOR, LOAN_DISCRIMINATOR, PROGRAM_ID,
    REPAY_DISCRIMINATOR,
};

verus! {

/// Writing a configuration into a configuration account and reading it back
/// gives the same configuration, whatever the padding byte holds.
pub proof fn law_config_store_then_load(c: ConfigModel, padding: Seq<u8>)
    requires
        c.authority.len() == 32,
        c.treasury.len() == 32,
        padding.len() == CONFIG_LEN - CONFIG_FIELDS_LEN,
    ensures
        config_from_bytes(config_to_bytes(c) + padding) == c,
{
    lemma_auto_spec_u16_to_from_le_bytes();
    let b = config_to_bytes(c) + padding;
    let fee = spec_u16_to_le_bytes(c.fee_bps);
    assert(b.subrange(0, 2) =~= fee);
    assert(b.subrange(2, 34) =~= c.authority);
    assert(b.subrange(34, 66) =~= c.treasury);
    assert(b[66] == c.protocol_state);
}

/// Reading the configuration out of a configuration account's data and
/// writing it back leaves the data as it was.
pub proof fn law_config_load_then_store(data: Seq<u8>)
    requires
        data.len() == CONFIG_LEN,
    ensures
        config_to_bytes(config_from_bytes(data)) + data.subrange(
            CONFIG_FIELDS_LEN as int,
            CONFIG_LEN as int,
        ) == data,
{
    lemma_auto_spec_u16_to_from_le_bytes();
    let c = config_from_bytes(data);
    assert(spec_u16_to_le_bytes(c.fee_bps) == data.subrange(0, 2));
    assert(config_to_bytes(c) + data.subrange(67, 68) =~= data);
}

/// The fee at a rate the protocol accepts (below `FEE_BPS_LIMIT` basis
/// points) is less than the loan, when something is lent; so what is owed
/// is less than twice the loan.
pub proof fn law_fee_below_loan(amount: u64, fee_bps: u16)
    requires
        fee_bps < FEE_BPS_LIMIT,
        amount > 0,
    ensures
        0 <= spec_fee(amount, fee_bps) < amount,
        spec_repay_amount(amount, fee_bps) matches Some(owed) ==> amount <= owed < 2 * amount,
{
    assert(0 <= amount * fee_bps < amount * 10_000) by (nonlinear_arith)
        requires
            fee_bps < 10_000,
            amount > 0,
    ;
    assert(0 <= (amount * fee_bps) / 10_000 < amount) by (nonlinear_arith)
        requires
            0 <= amount * fee_bps < amount * 10_000,
    ;
}

/// At a fee of zero basis points exactly the loan is owed.
pub proof fn law_zero_fee_owes_loan(amount: u64)
    ensures
        spec_repay_amount(amount, 0) == Some(amount),
{
}

/// The repay instruction reads the amount that the borrow instruction lent:
/// for borrow instruction data (discriminator first) that the borrow
/// instruction accepts, the eight bytes after the discriminator are its
/// amount.
pub proof fn law_repay_reads_lent_amount(data: Seq<u8>)
    requires
        data.len() > 0,
        data[0] == LOAN_DISCRIMINATOR,
        spec_loan_data(data.subrange(1, data.len() as int)) is Ok,
    ensures
        data.len() >= 9,
        spec_loan_data(data.subrange(1, data.len() as int)) == Ok::<u64, ProgramError>(
            spec_borrowed_amount(data),
        ),
{
    assert(data.subrange(1, data.len() as int).subrange(0, 8) =~= data.subrange(1, 9));
}

/// In a transaction whose first instruction is an accepted borrow of this
/// program, an accepted repay instruction transfers the amount lent plus
/// the fee at the rate of the configuration it reads, and so never less
/// than was lent.
pub proof fn law_repayment_covers_loan(
    loan_accounts: Seq<AccountView>,
    repay_accounts: Seq<AccountView>,
    repay_data: Seq<u8>,
    ixs: Instructions,
    rent: Rent,
)
    requires
        ixs.instructions@.len() > 0,
        ixs.instructions@[0].program_id@ == PROGRAM_ID@,
        ixs.instructions@[0].data@.len() > 0,
        ixs.instructions@[0].data@[0] == LOAN_DISCRIMINATOR,
        spec_process_instruction(loan_accounts, ixs.instructions@[0].data@, ixs, rent) is Ok,
        repay_data.len() > 0,
        repay_data[0] == REPAY_DISCRIMINATOR,
        spec_process_instruction(repay_accounts, repay_data, ixs, rent) is Ok,
    ensures
        ({
            let lent = spec_process_instruction(loan_accounts, ixs.instructions@[0].data@, ixs, rent)->Ok_0->Transfer_0;
            let repaid = spec_process_instruction(repay_accounts, repay_data, ixs, rent)->Ok_0->Transfer_0;
            let fee_bps = spec_load_config(repay_accounts[REPAY_CONFIG_INDEX as int])->Ok_0.fee_bps;
            &&& repaid.amount == lent.amount + spec_fee(lent.amount, fee_bps)
            &&& repaid.amount >= lent.amount
        }),
{
    let data = ixs.instructions@[0].data@;
    law_repay_reads_lent_amount(data);
}

/// An accepted borrow is followed, at the end of its transaction, by this
/// program's repay instruction, which names the vault the borrow lends from
/// as its third account.
pub proof fn law_loan_requires_closing_repay(
    accounts: Seq<AccountView>,
    data: Seq<u8>,
    ixs: Instructions,
    rent: Rent,
)
    requires
        data.len() > 0,
        data[0] == LOAN_DISCRIMINATOR,
        spec_process_instruction(accounts, data, ixs, rent) is Ok,
    ensures
        ({
            let last = ixs.instructions@[ixs.instructions@.len() - 1];
            let lent = spec_process_instruction(accounts, data, ixs, rent)->Ok_0->Transfer_0;
            &&& ixs.instructions@.len() > 0
            &&& last.program_id@ == PROGRAM_ID@
            &&& last.data@.len() > 0 && last.data@[0] == REPAY_DISCRIMINATOR
            &&& last.account_keys@.len() > REPAY_VAULT_INDEX
            &&& last.account_keys@[REPAY_VAULT_INDEX as int]@ == lent.from
            &&& lent.from == accounts[3].address@
        }),
{
}

/// An accepted repay is preceded, at the start of its transaction, by this
/// program's borrow instruction carrying an amount.
pub proof fn law_repay_requires_opening_loan(
    accounts: Seq<AccountView>,
    data: Seq<u8>,
    ixs: Instructions,
    rent: Rent,
)
    requires
        data.len() > 0,
        data[0] == REPAY_DISCRIMINATOR,
        spec_process_instruction(accounts, data, ixs, rent) is Ok,
    ensures
        ixs.instructions@.len() > 0,
        ixs.instructions@[0].program_id@ == PROGRAM_ID@,
        ixs.instructions@[0].data@.len() >= 9,
        ixs.instructions@[0].data@[0] == LOAN_DISCRIMINATOR,
{
}

/// While the protocol is inactive (its state is `0`), neither borrows nor
/// repayments go through: a borrow reads the configuration from its third
/// account, a repay from its fourth.
pub proof fn law_inactive_protocol_refuses(
    accounts: Seq<AccountView>,
    data: Seq<u8>,
    ixs: Instructions,
    rent: Rent,
)
    requires
        data.len() > 0,
        data[0] == LOAN_DISCRIMINATOR ==> accounts.len() > 2 && (spec_load_config(accounts[2]) matches Ok(
            c,
        ) && c.protocol_state == 0),
        data[0] == REPAY_DISCRIMINATOR ==> accounts.len() > REPAY_CONFIG_INDEX && (spec_load_config(
            accounts[REPAY_CONFIG_INDEX as int],
        ) matches Ok(c) && c.protocol_state == 0),
        data[0] == LOAN_DISCRIMINATOR || data[0] == REPAY_DISCRIMINATOR,
    ensures
        spec_process_instruction(accounts, data, ixs, rent) is Err,
{
}

/// Instruction data that does not start with the initialize, the borrow or
/// the repay discriminator is refused with `InvalidInstructionData`.
pub proof fn law_unknown_instructions_refused(
    accounts: Seq<AccountView>,
    data: Seq<u8>,
    ixs: Instructions,
    rent: Rent,
)
    requires
        data.len() == 0 || (data[0] != INITIALIZE_DISCRIMINATOR && data[0] != LOAN_DISCRIMINATOR
            && data[0] != REPAY_DISCRIMINATOR),
    ensures
        spec_process_instruction(accounts, data, ixs, rent) == Err::<PlanModel, ProgramError>(
            ProgramError::InvalidInstructionData,
        ),
{
}

/// When a borrow is accepted, and so is the repay instruction that closes
/// its transaction, given accounts at the addresses that instruction names,
/// then the repay pays into the vault that the borrow lent from.
pub proof fn law_repayment_returns_to_lending_vault(
    loan_accounts: Seq<AccountView>,
    loan_data: Seq<u8>,
    repay_accounts: Seq<AccountView>,
    ixs: Instructions,
    rent: Rent,
)
    requires
        loan_data.len() > 0,
        loan_data[0] == LOAN_DISCRIMINATOR,
        spec_process_instruction(loan_accounts, loan_data, ixs, rent) is Ok,
        ixs.instructions@.len() > 0,
        ({
            let last = ixs.instructions@[ixs.instructions@.len() - 1];
            &&& repay_accounts.len() == last.account_keys@.len()
            &&& forall|i: int|
                0 <= i < repay_accounts.len() ==> #[trigger] repay_accounts[i].address@
                    == last.account_keys@[i]@
            &&& spec_process_instruction(repay_accounts, last.data@, ixs, rent) is Ok
        }),
    ensures
        ({
            let lent = spec_process_instruction(loan_accounts, loan_data, ixs, rent)->Ok_0->Transfer_0;
            let last = ixs.instructions@[ixs.instructions@.len() - 1];
            let repaid = spec_process_instruction(repay_accounts, last.data@, ixs, rent)->Ok_0->Transfer_0;
            &&& repaid.to == lent.from
            &&& lent.from == loan_accounts[3].address@
        }),
{
    let last = ixs.instructions@[ixs.instructions@.len() - 1];
    assert(repay_accounts[REPAY_VAULT_INDEX as int].address@ == last.account_keys@[REPAY_VAULT_INDEX as int]@);
}

/// The initialize instruction is executed: when accepted, it creates the
/// configuration account named third and records in it the fee and the state
/// that its data gives, the first account as the authority and the second as
/// the treasury; reading the account back after storing gives exactly these.
pub proof fn law_initialize_records_configuration(
    accounts: Seq<AccountView>,
    data: Seq<u8>,
    ixs: Instructions,
    rent: Rent,
    padding: Seq<u8>,
)
    requires
        data.len() > 0,
        data[0] == INITIALIZE_DISCRIMINATOR,
        spec_process_instruction(accounts, data, ixs, rent) is Ok,
        padding.len() == CONFIG_LEN - CONFIG_FIELDS_LEN,
    ensures
        spec_process_instruction(accounts, data, ixs, rent)->Ok_0 is Initialize,
        ({
            let init = spec_process_instruction(accounts, data, ixs, rent)->Ok_0->Initialize_0;
            let (fee_bps, protocol_state) = spec_init_data(data.subrange(1, data.len() as int))->Ok_0;
            &&& init.create.to == accounts[2].address@
            &&& init.create.owner == PROGRAM_ID@
            &&& init.create.space == CONFIG_LEN
            &&& init.config == ConfigModel {
                fee_bps,
                authority: accounts[0].address@,
                treasury: accounts[1].address@,
                protocol_state,
            }
            &&& protocol_state <= 1
            &&& config_from_bytes(config_to_bytes(init.config) + padding) == init.config
        }),
{
    let init = spec_process_instruction(accounts, data, ixs, rent)->Ok_0->Initialize_0;
    law_config_store_then_load(init.config, padding);
}

} // verus!
