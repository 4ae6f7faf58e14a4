use vstd::prelude::*;

verus! {

/// Why an operation on a data account was refused.
#[derive(Clone, Copy, Debug, PartialEq, Eq, Structural)]
pub enum DataStoreError {
    NotImplemented,
    NotWriteable,
    NoAccountLength,
    NonZeroData,
    NotSigner,
    InvalidSystemProgram,
    InvalidAuthority,
    InvalidPDA,
    AlreadyInitialized,
    NotInitialized,
    AlreadyFinalized,
    Overflow,
    InsufficientSpace,
    InvalidDataType,
    DataVerificationFailed,
    InvalidInstructionData,
}

impl DataStoreError {
    /// The numeric code of the error.
    pub fn code(&self) -> (r: u32)
        ensures
            DataStoreError::code_to_error(r) == Some(*self),
    {
        match self {
            DataStoreError::NotImplemented => 0,
            DataStoreError::NotWriteable => 1,
            DataStoreError::NoAccountLength => 2,
            DataStoreError::NonZeroData => 3,
            DataStoreError::NotSigner => 4,
            DataStoreError::InvalidSystemProgram => 5,
            DataStoreError::InvalidAuthority => 6,
            DataStoreError::InvalidPDA => 7,
            DataStoreError::AlreadyInitialized => 8,
            DataStoreError::NotInitialized => 9,
            DataStoreError::AlreadyFinalized => 10,
            DataStoreError::Overflow => 11,
            DataStoreError::InsufficientSpace => 12,
            DataStoreError::InvalidDataType => 13,
            DataStoreError::DataVerificationFailed => 14,
            DataStoreError::InvalidInstructionData => 15,
        }
    }

    /// The error that a numeric code stands for.
    pub open spec fn code_to_error(n: u32) -> Option<DataStoreError> {
        if n == 0 { Some(DataStoreError::NotImplemented) }
        else if n == 1 { Some(DataStoreError::NotWriteable) }
        else if n == 2 { Some(DataStoreError::NoAccountLength) }
        else if n == 3 { Some(DataStoreError::NonZeroData) }
        else if n == 4 { Some(DataStoreError::NotSigner) }
        else if n == 5 { Some(DataStoreError::InvalidSystemProgram) }
        else if n == 6 { Some(DataStoreError::InvalidAuthority) }
        else if n == 7 { Some(DataStoreError::InvalidPDA) }
        else if n == 8 { Some(DataStoreError::AlreadyInitialized) }
        else if n == 9 { Some(DataStoreError::NotInitialized) }
        else if n == 10 { Some(DataStoreError::AlreadyFinalized) }
        else if n == 11 { Some(DataStoreError::Overflow) }
        else if n == 12 { Some(DataStoreError::InsufficientSpace) }
        else if n == 13 { Some(DataStoreError::InvalidDataType) }
        else if n == 14 { Some(DataStoreError::DataVerificationFailed) }
        else if n == 15 { Some(DataStoreError::InvalidInstructionData) }
        else { None }
    }

    /// The error that a numeric code stands for, if any.
    pub fn from_u32(n: u32) -> (r: Option<DataStoreError>)
        ensures
            r == DataStoreError::code_to_error(n),
    {
        match n {
            0 => Some(DataStoreError::NotImplemented),
            1 => Some(DataStoreError::NotWriteable),
            2 => Some(DataStoreError::NoAccountLength),
            3 => Some(DataStoreError::NonZeroData),
            4 => Some(DataStoreError::NotSigner),
            5 => Some(DataStoreError::InvalidSystemProgram),
            6 => Some(DataStoreError::InvalidAuthority),
            7 => Some(DataStoreError::InvalidPDA),
            8 => Some(DataStoreError::AlreadyInitialized),
            9 => Some(DataStoreError::NotInitialized),
            10 => Some(DataStoreError::AlreadyFinalized),
            11 => Some(DataStoreError::Overflow),
            12 => Some(DataStoreError::InsufficientSpace),
            13 => Some(DataStoreError::InvalidDataType),
            14 => Some(DataStoreError::DataVerificationFailed),
            15 => Some(DataStoreError::InvalidInstructionData),
            _ => None,
        }
    }

    /// The error for the low 32 bits of a signed 64-bit code.
    pub fn from_i64(n: i64) -> (r: Option<DataStoreError>)
        ensures
            r == DataStoreError::code_to_error(n as u32),
    {
        DataStoreError::from_u32(n as u32)
    }

    /// The error for the low 32 bits of an unsigned 64-bit code.
    pub fn from_u64(n: u64) -> (r: Option<DataStoreError>)
        ensures
            r == DataStoreError::code_to_error(n as u32),
    {
        DataStoreError::from_u32(n as u32)
    }

    /// The error for a signed 32-bit code read as unsigned.
    pub fn from_i32(n: i32) -> (r: Option<DataStoreError>)
        ensures
            r == DataStoreError::code_to_error(n as u32),
    {
        DataStoreError::from_u32(n as u32)
    }
}

} // verus!
