//! The instructions sysvar, as the program reads it: the instructions of the
//! transaction that is being executed.
use vstd::prelude::*;
use crate::account::Address;
use crate::error::ProgramError;

verus! {

/// Address of the instructions sysvar `Sysvar1nstructions1111111111111111111111111`.
pub const INSTRUCTIONS_ID: Address = [
    0x06, 0xa7, 0xd5, 0x17, 0x18, 0x7b, 0xd1, 0x66, 0x35, 0xda, 0xd4, 0x04, 0x55, 0xfd, 0xc2, 0xc0,
    0xc1, 0x24, 0xc6, 0x8f, 0x21, 0x56, 0x75, 0xa5, 0xdb, 0xba, 0xcb, 0x5f, 0x08, 0x00, 0x00, 0x00,
];

/// One instruction of the transaction: the program it calls, the addresses
/// of its accounts in order, and its data.
#[derive(Debug, Clone)]
pub struct IntrospectedInstruction {
    pub program_id: Address,
    pub account_keys: Vec<Address>,
    pub data: Vec<u8>,
}

/// The instructions of the executing transaction, in order.
#[derive(Debug, Clone)]
pub struct Instructions {
    pub instructions: Vec<IntrospectedInstruction>,
}

impl Instructions {
    /// The number of instructions in the transaction.
    pub fn num_instructions(&self) -> (r: usize)
        ensures
            r == self.instructions@.len(),
    {
        self.instructions.len()
    }

    /// The instruction at `index`; an index past the last instruction is
    /// refused with `InvalidInstructionData`.
    pub fn load_instruction_at(&self, index: usize) -> (r: Result<&IntrospectedInstruction, ProgramError>)
        ensures
            index < self.instructions@.len() ==> r == Ok::<&IntrospectedInstruction, ProgramError>(
                &self.instructions@[index as int],
            ),
            index >= self.instructions@.len() ==> r == Err::<&IntrospectedInstruction, ProgramError>(
                ProgramError::InvalidInstructionData,
            ),
    {
        if index >= self.instructions.len() {
            return Err(ProgramError::InvalidInstructionData);
        }
        Ok(&self.instructions[index])
    }
}

} // verus!

verus! {

/// Bytes of account overhead that rent is charged for besides the data.
pub const ACCOUNT_STORAGE_OVERHEAD: u64 = 128;

/// The largest data length that rent can be computed for (10 MiB).
pub const MAX_PERMITTED_DATA_LENGTH: u64 = 10 * 1024 * 1024;

/// The largest rent rate that the rent sysvar may hold.
pub const MAX_LAMPORTS_PER_BYTE: u64 = 1_759_197_129_867;

/// The rent sysvar: the price, in lamports, of each byte an account holds.
#[derive(Debug, Clone, Copy, PartialEq, Eq)]
pub struct Rent {
    pub lamports_per_byte: u64,
}

/// The lamports that make an account of `data_len` bytes rent exempt, or
/// the error: the length must be at most `MAX_PERMITTED_DATA_LENGTH` and the
/// rate at most `MAX_LAMPORTS_PER_BYTE`.
pub open spec fn spec_minimum_balance(lamports_per_byte: u64, data_len: usize) -> Result<
    u64,
    ProgramError,
> {
    if data_len > MAX_PERMITTED_DATA_LENGTH {
        Err(ProgramError::InvalidArgument)
    } else if lamports_per_byte > MAX_LAMPORTS_PER_BYTE {
        Err(ProgramError::InvalidArgument)
    } else {
        Ok(((ACCOUNT_STORAGE_OVERHEAD + data_len) * lamports_per_byte) as u64)
    }
}

impl Rent {
    /// The lamports that make an account of `data_len` bytes rent exempt.
    pub fn try_minimum_balance(&self, data_len: usize) -> (r: Result<u64, ProgramError>)
        ensures
            r == spec_minimum_balance(self.lamports_per_byte, data_len),
            r matches Ok(v) ==> v == (ACCOUNT_STORAGE_OVERHEAD + data_len) * self.lamports_per_byte,
    {
        if data_len as u64 > MAX_PERMITTED_DATA_LENGTH {
            return Err(ProgramError::InvalidArgument);
        }
        if self.lamports_per_byte > MAX_LAMPORTS_PER_BYTE {
            return Err(ProgramError::InvalidArgument);
        }
        let bytes: u64 = ACCOUNT_STORAGE_OVERHEAD + data_len as u64;
        assert(bytes * self.lamports_per_byte <= u64::MAX) by (nonlinear_arith)
            requires
                bytes <= ACCOUNT_STORAGE_OVERHEAD + MAX_PERMITTED_DATA_LENGTH,
                self.lamports_per_byte <= MAX_LAMPORTS_PER_BYTE,
        ;
        Ok(bytes * self.lamports_per_byte)
    }
}

} // verus!
