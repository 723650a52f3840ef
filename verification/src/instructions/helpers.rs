//! The protocol's configuration state and the checks that load it from an
//! account, and the reading of a token account's balance.
use vstd::prelude::*;
use vstd::bytes::{
    spec_u16_from_le_bytes, spec_u16_to_le_bytes, spec_u64_from_le_bytes, u16_from_le_bytes,
    u16_to_le_bytes, u64_from_le_bytes,
};
use vstd::slice::slice_subrange;
pub use crate::account::pubkey_eq;
use crate::account::{read_address, AccountView, Address};
use crate::error::ProgramError;
use crate::PROGRAM_ID;

verus! {

/// Address of the SPL Token program `TokenkegQfeZyiNwAJbNbGKPFXCWuBvf9Ss623VQ5DA`.
pub const TOKEN_PROGRAM_ID: Address = [
    0x06, 0xdd, 0xf6, 0xe1, 0xd7, 0x65, 0xa1, 0x93, 0xd9, 0xcb, 0xe1, 0x46, 0xce, 0xeb, 0x79, 0xac,
    0x1c, 0xb4, 0x85, 0xed, 0x5f, 0x5b, 0x37, 0x91, 0x3a, 0x8c, 0xf5, 0x85, 0x7e, 0xff, 0x00, 0xa9,
];

/// Size in bytes of an SPL token account.
pub const TOKEN_ACCOUNT_LEN: usize = 165;

/// Offset of the little-endian `amount` field in an SPL token account.
pub const TOKEN_AMOUNT_OFFSET: usize = 64;

/// Size in bytes of the configuration account's data.
///
/// The layout is that of the program's in-memory configuration record:
/// bytes 0..2 hold `fee_bps` (little endian), 2..34 `authority`, 34..66
/// `treasury`, 66 `protocol_state`, and byte 67 is padding.
pub const CONFIG_LEN: usize = 68;

/// Number of bytes of the configuration account that carry fields.
pub const CONFIG_FIELDS_LEN: usize = 67;

/// Fees are given in basis points and must stay below this bound.
pub const FEE_BPS_LIMIT: u16 = 10_000;

/// The token amount recorded in the data of an SPL token account.
pub open spec fn spec_token_amount(data: Seq<u8>) -> u64 {
    spec_u64_from_le_bytes(data.subrange(TOKEN_AMOUNT_OFFSET as int, TOKEN_AMOUNT_OFFSET + 8))
}

/// Reads the token balance of an SPL token account.
///
/// The account must be owned by the token program and hold exactly a token
/// account's worth of data.
pub fn get_token_amount(account: &AccountView) -> (r: Result<u64, ProgramError>)
    ensures
        account.owner@ != TOKEN_PROGRAM_ID@ ==> r == Err::<u64, ProgramError>(
            ProgramError::InvalidAccountOwner,
        ),
        account.owner@ == TOKEN_PROGRAM_ID@ && account.data@.len() != TOKEN_ACCOUNT_LEN ==> r
            == Err::<u64, ProgramError>(ProgramError::InvalidAccountData),
        account.owner@ == TOKEN_PROGRAM_ID@ && account.data@.len() == TOKEN_ACCOUNT_LEN ==> r
            == Ok::<u64, ProgramError>(spec_token_amount(account.data@)),
{
    if !account.owned_by(&TOKEN_PROGRAM_ID) {
        return Err(ProgramError::InvalidAccountOwner);
    }
    if account.data.len() != TOKEN_ACCOUNT_LEN {
        return Err(ProgramError::InvalidAccountData);
    }
    let amount_bytes = slice_subrange(account.data.as_slice(), TOKEN_AMOUNT_OFFSET, TOKEN_AMOUNT_OFFSET + 8);
    Ok(u64_from_le_bytes(amount_bytes))
}

/// The configuration of the protocol, as its configuration account stores it.
#[derive(Debug, Clone, Copy, PartialEq, Eq)]
pub struct ProtocolConfigState {
    /// Fee that the protocol takes on every loan, in basis points.
    pub fee_bps: u16,
    /// The protocol's update authority.
    pub authority: Address,
    /// The treasury where the fees are collected.
    pub treasury: Address,
    /// Whether the protocol is active: `0` stops loans and repayments.
    pub protocol_state: u8,
}

/// The configuration as mathematical values.
pub struct ConfigModel {
    pub fee_bps: u16,
    pub authority: Seq<u8>,
    pub treasury: Seq<u8>,
    pub protocol_state: u8,
}

impl View for ProtocolConfigState {
    type V = ConfigModel;

    open spec fn view(&self) -> ConfigModel {
        ConfigModel {
            fee_bps: self.fee_bps,
            authority: self.authority@,
            treasury: self.treasury@,
            protocol_state: self.protocol_state,
        }
    }
}

/// The configuration that the bytes `b` of a configuration account hold.
pub open spec fn config_from_bytes(b: Seq<u8>) -> ConfigModel {
    ConfigModel {
        fee_bps: spec_u16_from_le_bytes(b.subrange(0, 2)),
        authority: b.subrange(2, 34),
        treasury: b.subrange(34, 66),
        protocol_state: b[66],
    }
}

/// The bytes that store the fields of configuration `c`, in account order.
pub open spec fn config_to_bytes(c: ConfigModel) -> Seq<u8> {
    spec_u16_to_le_bytes(c.fee_bps) + c.authority + c.treasury + seq![c.protocol_state]
}

/// The error that loading the configuration from `account` gives, if any:
/// the data must be exactly `CONFIG_LEN` bytes and the account must be owned
/// by this program.
pub open spec fn config_account_error(account: AccountView) -> Option<ProgramError> {
    if account.data@.len() != CONFIG_LEN {
        Some(ProgramError::InvalidAccountData)
    } else if account.owner@ != PROGRAM_ID@ {
        Some(ProgramError::InvalidAccountData)
    } else {
        None
    }
}

/// What loading the configuration from `account` gives.
pub open spec fn spec_load_config(account: AccountView) -> Result<ConfigModel, ProgramError> {
    match config_account_error(account) {
        Some(e) => Err(e),
        None => Ok(config_from_bytes(account.data@)),
    }
}

/// The model of a loaded configuration, or the error.
pub open spec fn config_result_view(r: Result<ProtocolConfigState, ProgramError>) -> Result<
    ConfigModel,
    ProgramError,
> {
    match r {
        Ok(c) => Ok(c@),
        Err(e) => Err(e),
    }
}

impl ProtocolConfigState {
    /// Loads the configuration from the configuration account, after checking
    /// its size and that this program owns it.
    pub fn load(account_info: &AccountView) -> (r: Result<ProtocolConfigState, ProgramError>)
        ensures
            config_result_view(r) == spec_load_config(*account_info),
            account_info.data@.len() == CONFIG_LEN && account_info.owner@ == PROGRAM_ID@ ==> r is Ok,
    {
        if account_info.data_len() != CONFIG_LEN {
            return Err(ProgramError::InvalidAccountData);
        }
        if !account_info.owned_by(&PROGRAM_ID) {
            return Err(ProgramError::InvalidAccountData);
        }
        Ok(Self::from_bytes_unchecked(account_info.data.as_slice()))
    }

    /// Loads the configuration with the same checks as `load`.
    pub fn load_unchecked(account_info: &AccountView) -> (r: Result<
        ProtocolConfigState,
        ProgramError,
    >)
        ensures
            config_result_view(r) == spec_load_config(*account_info),
    {
        Self::load(account_info)
    }

    /// Loads the configuration for an update, with the same checks as `load`;
    /// `store` writes the updated configuration back.
    pub fn load_mut(account_info: &AccountView) -> (r: Result<ProtocolConfigState, ProgramError>)
        ensures
            config_result_view(r) == spec_load_config(*account_info),
    {
        Self::load(account_info)
    }

    /// Reads the configuration from the first bytes of `bytes`.
    pub fn from_bytes_unchecked(bytes: &[u8]) -> (r: ProtocolConfigState)
        requires
            bytes@.len() >= CONFIG_FIELDS_LEN,
        ensures
            r@ == config_from_bytes(bytes@),
    {
        let fee_bps = u16_from_le_bytes(slice_subrange(bytes, 0, 2));
        let authority = read_address(bytes, 2);
        let treasury = read_address(bytes, 34);
        let protocol_state = bytes[66];
        ProtocolConfigState { fee_bps, authority, treasury, protocol_state }
    }

    /// Writes the configuration into the data of a configuration account,
    /// leaving its padding byte as it was.
    pub fn store(&self, data: &mut Vec<u8>)
        requires
            old(data)@.len() == CONFIG_LEN,
        ensures
            final(data)@ == config_to_bytes(self@) + old(data)@.subrange(
                CONFIG_FIELDS_LEN as int,
                CONFIG_LEN as int,
            ),
    {
        let fee = u16_to_le_bytes(self.fee_bps);
        data.set(0, fee[0]);
        data.set(1, fee[1]);
        let mut i: usize = 0;
        while i < 32
            invariant
                0 <= i <= 32,
                data@.len() == CONFIG_LEN,
                data@[0] == fee@[0],
                data@[1] == fee@[1],
                data@[66] == old(data)@[66],
                data@[67] == old(data)@[67],
                forall|j: int| 0 <= j < i ==> data@[2 + j] == self.authority@[j],
                forall|j: int| 0 <= j < i ==> data@[34 + j] == self.treasury@[j],
            decreases 32 - i,
        {
            data.set(2 + i, self.authority[i]);
            data.set(34 + i, self.treasury[i]);
            i = i + 1;
        }
        data.set(66, self.protocol_state);
        assert(data@ =~= config_to_bytes(self@) + old(data)@.subrange(
            CONFIG_FIELDS_LEN as int,
            CONFIG_LEN as int,
        ));
    }

    pub fn fee_bps(&self) -> (r: u16)
        ensures
            r == self.fee_bps,
    {
        self.fee_bps
    }

    pub fn authority(&self) -> (r: &Address)
        ensures
            *r == self.authority,
    {
        &self.authority
    }

    pub fn treasury(&self) -> (r: &Address)
        ensures
            *r == self.treasury,
    {
        &self.treasury
    }

    pub fn protocol_state(&self) -> (r: u8)
        ensures
            r == self.protocol_state,
    {
        self.protocol_state
    }

    /// Sets the fee; a fee of `FEE_BPS_LIMIT` basis points or more is refused
    /// and leaves the configuration as it was.
    pub fn set_fee(&mut self, fee: u16) -> (r: Result<(), ProgramError>)
        ensures
            fee >= FEE_BPS_LIMIT ==> r == Err::<(), ProgramError>(ProgramError::InvalidAccountData)
                && *final(self) == *old(self),
            fee < FEE_BPS_LIMIT ==> r == Ok::<(), ProgramError>(()) && *final(self) == (
            ProtocolConfigState { fee_bps: fee, ..*old(self) }),
    {
        if fee >= FEE_BPS_LIMIT {
            return Err(ProgramError::InvalidAccountData);
        }
        self.fee_bps = fee;
        Ok(())
    }

    pub fn set_authority(&mut self, authority: [u8; 32]) -> (r: Result<(), ProgramError>)
        ensures
            r == Ok::<(), ProgramError>(()),
            *final(self) == (ProtocolConfigState { authority, ..*old(self) }),
    {
        self.authority = authority;
        Ok(())
    }

    pub fn set_treasury(&mut self, treasury: [u8; 32]) -> (r: Result<(), ProgramError>)
        ensures
            r == Ok::<(), ProgramError>(()),
            *final(self) == (ProtocolConfigState { treasury, ..*old(self) }),
    {
        self.treasury = treasury;
        Ok(())
    }

    pub fn set_protocol_state(&mut self, state: u8) -> (r: Result<(), ProgramError>)
        ensures
            r == Ok::<(), ProgramError>(()),
            *final(self) == (ProtocolConfigState { protocol_state: state, ..*old(self) }),
    {
        self.protocol_state = state;
        Ok(())
    }

    /// Sets all fields at once. The outcome of setting the fee is not
    /// checked: a fee at or above `FEE_BPS_LIMIT` leaves the old fee in
    /// place while the other fields are still set, and the call succeeds.
    pub fn set_inner(&mut self, fee_bps: u16, state: u8, authority: [u8; 32], treasury: [u8; 32]) -> (r: Result<
        (),
        ProgramError,
    >)
        ensures
            r == Ok::<(), ProgramError>(()),
            final(self).fee_bps == (if fee_bps < FEE_BPS_LIMIT {
                fee_bps
            } else {
                old(self).fee_bps
            }),
            final(self).protocol_state == state,
            final(self).authority == authority,
            final(self).treasury == treasury,
    {
        let _ = self.set_fee(fee_bps);
        let _ = self.set_authority(authority);
        let _ = self.set_treasury(treasury);
        let _ = self.set_protocol_state(state);
        Ok(())
    }
}

} // verus!
